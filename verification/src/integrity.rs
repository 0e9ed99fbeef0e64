//! Every change of state keeps the integrity rules: keys stay distinct,
//! references stay resolvable, counts and prices stay in range.

use vstd::prelude::*;
use crate::keys::{
    distinct, held_by_other, holds_key, key_pos, lemma_distinct_push, lemma_distinct_remove,
    lemma_distinct_update, lemma_holds_key_push, lemma_holds_key_remove_other, lemma_key_pos_found,
};
use crate::model::{ArtistView, EventRecordView, OrderRecordView, TicketRecordView, UserRecordView};
use crate::state::HubView;

verus! {

/// Storing a user row keeps the integrity rules.
pub proof fn lemma_insert_user_wf(s: HubView, u: UserRecordView)
    requires
        s.wf(),
        s.insert_user(u) is Ok,
    ensures
        s.insert_user(u)->Ok_0.wf(),
{
    let t = s.insert_user(u)->Ok_0;
    assert(t.user_ids() =~= s.user_ids().push(u.user_id));
    assert(t.usernames() =~= s.usernames().push(u.username));
    assert(t.emails() =~= s.emails().push(u.email));
    lemma_distinct_push(s.user_ids(), u.user_id);
    lemma_distinct_push(s.usernames(), u.username);
    lemma_distinct_push(s.emails(), u.email);
    assert(t.artist_ids() =~= s.artist_ids());
    assert(t.event_ids() =~= s.event_ids());
    assert(t.ticket_ids() =~= s.ticket_ids());
    assert(t.order_ids() =~= s.order_ids());
    assert forall|i: int| 0 <= i < t.orders.len() implies holds_key(
        t.user_ids(),
        (#[trigger] t.orders[i]).user_id,
    ) && holds_key(t.ticket_ids(), t.orders[i].ticket_id) by {
        lemma_holds_key_push(s.user_ids(), u.user_id, t.orders[i].user_id);
    }
}

/// Storing an artist row keeps the integrity rules.
pub proof fn lemma_insert_artist_wf(s: HubView, a: ArtistView)
    requires
        s.wf(),
        s.insert_artist(a) is Ok,
    ensures
        s.insert_artist(a)->Ok_0.wf(),
{
    let t = s.insert_artist(a)->Ok_0;
    assert(t.user_ids() =~= s.user_ids());
    assert(t.usernames() =~= s.usernames());
    assert(t.emails() =~= s.emails());
    assert(t.artist_ids() =~= s.artist_ids().push(a.artist_id));
    lemma_distinct_push(s.artist_ids(), a.artist_id);
    assert(t.event_ids() =~= s.event_ids());
    assert(t.ticket_ids() =~= s.ticket_ids());
    assert(t.order_ids() =~= s.order_ids());
    assert forall|i: int| 0 <= i < t.events.len() implies holds_key(
        t.artist_ids(),
        (#[trigger] t.events[i]).artist_id,
    ) && t.events[i].capacity > 0 by {
        lemma_holds_key_push(s.artist_ids(), a.artist_id, t.events[i].artist_id);
    }
}

/// Storing an event row keeps the integrity rules.
pub proof fn lemma_insert_event_wf(s: HubView, e: EventRecordView)
    requires
        s.wf(),
        s.insert_event(e) is Ok,
    ensures
        s.insert_event(e)->Ok_0.wf(),
{
    let t = s.insert_event(e)->Ok_0;
    assert(t.user_ids() =~= s.user_ids());
    assert(t.usernames() =~= s.usernames());
    assert(t.emails() =~= s.emails());
    assert(t.artist_ids() =~= s.artist_ids());
    assert(t.event_ids() =~= s.event_ids().push(e.event_id));
    lemma_distinct_push(s.event_ids(), e.event_id);
    assert(t.ticket_ids() =~= s.ticket_ids());
    assert(t.order_ids() =~= s.order_ids());
    assert forall|i: int| 0 <= i < t.events.len() implies holds_key(
        t.artist_ids(),
        (#[trigger] t.events[i]).artist_id,
    ) && t.events[i].capacity > 0 by {
        if i < s.events.len() {
            assert(t.events[i] == s.events[i]);
        }
    }
    assert forall|i: int| 0 <= i < t.tickets.len() implies holds_key(
        t.event_ids(),
        (#[trigger] t.tickets[i]).event_id,
    ) && t.tickets[i].price_cents > 0 && t.tickets[i].num_available >= 0 by {
        lemma_holds_key_push(s.event_ids(), e.event_id, t.tickets[i].event_id);
    }
}

/// Storing a ticket row keeps the integrity rules.
pub proof fn lemma_insert_ticket_wf(s: HubView, k: TicketRecordView)
    requires
        s.wf(),
        s.insert_ticket(k) is Ok,
    ensures
        s.insert_ticket(k)->Ok_0.wf(),
{
    let t = s.insert_ticket(k)->Ok_0;
    assert(t.user_ids() =~= s.user_ids());
    assert(t.usernames() =~= s.usernames());
    assert(t.emails() =~= s.emails());
    assert(t.artist_ids() =~= s.artist_ids());
    assert(t.event_ids() =~= s.event_ids());
    assert(t.ticket_ids() =~= s.ticket_ids().push(k.ticket_id));
    lemma_distinct_push(s.ticket_ids(), k.ticket_id);
    assert(t.order_ids() =~= s.order_ids());
    assert forall|i: int| 0 <= i < t.tickets.len() implies holds_key(
        t.event_ids(),
        (#[trigger] t.tickets[i]).event_id,
    ) && t.tickets[i].price_cents > 0 && t.tickets[i].num_available >= 0 by {
        if i < s.tickets.len() {
            assert(t.tickets[i] == s.tickets[i]);
        }
    }
    assert forall|i: int| 0 <= i < t.orders.len() implies holds_key(
        t.user_ids(),
        (#[trigger] t.orders[i]).user_id,
    ) && holds_key(t.ticket_ids(), t.orders[i].ticket_id) by {
        lemma_holds_key_push(s.ticket_ids(), k.ticket_id, t.orders[i].ticket_id);
    }
}

/// Storing an order row keeps the integrity rules.
pub proof fn lemma_insert_order_wf(s: HubView, o: OrderRecordView)
    requires
        s.wf(),
        s.insert_order(o) is Ok,
    ensures
        s.insert_order(o)->Ok_0.wf(),
{
    let t = s.insert_order(o)->Ok_0;
    assert(t.user_ids() =~= s.user_ids());
    assert(t.usernames() =~= s.usernames());
    assert(t.emails() =~= s.emails());
    assert(t.artist_ids() =~= s.artist_ids());
    assert(t.event_ids() =~= s.event_ids());
    assert(t.ticket_ids() =~= s.ticket_ids());
    assert(t.order_ids() =~= s.order_ids().push(o.order_id));
    lemma_distinct_push(s.order_ids(), o.order_id);
    assert forall|i: int| 0 <= i < t.orders.len() implies holds_key(
        t.user_ids(),
        (#[trigger] t.orders[i]).user_id,
    ) && holds_key(t.ticket_ids(), t.orders[i].ticket_id) by {
        if i < s.orders.len() {
            assert(t.orders[i] == s.orders[i]);
        }
    }
}

/// Replacing the user at `p` by a row with the same id, whose username and
/// email no other user holds, keeps the integrity rules.
pub proof fn lemma_with_user_wf(s: HubView, p: int, u: UserRecordView)
    requires
        s.wf(),
        0 <= p < s.users.len(),
        u.user_id == s.users[p].user_id,
        !held_by_other(s.usernames(), p, u.username),
        !held_by_other(s.emails(), p, u.email),
    ensures
        s.with_user(p, u).wf(),
{
    let t = s.with_user(p, u);
    assert(t.user_ids() =~= s.user_ids());
    assert(t.usernames() =~= s.usernames().update(p, u.username));
    assert(t.emails() =~= s.emails().update(p, u.email));
    lemma_distinct_update(s.usernames(), p, u.username);
    lemma_distinct_update(s.emails(), p, u.email);
    assert(t.artist_ids() =~= s.artist_ids());
    assert(t.event_ids() =~= s.event_ids());
    assert(t.ticket_ids() =~= s.ticket_ids());
    assert(t.order_ids() =~= s.order_ids());
}

/// A row is not held by another row than its own.
proof fn lemma_own_key_not_other(keys: Seq<Seq<char>>, p: int)
    requires
        distinct(keys),
        0 <= p < keys.len(),
    ensures
        !held_by_other(keys, p, keys[p]),
{
    if held_by_other(keys, p, keys[p]) {
        let j = choose|j: int| 0 <= j < keys.len() && j != p && #[trigger] keys[j] == keys[p];
        if j < p {
            assert(keys[j] != keys[p]);
        } else {
            assert(keys[p] != keys[j]);
        }
    }
}

/// Each step of a user update keeps the integrity rules and the row count.
pub proof fn lemma_user_steps_wf(s: HubView, p: int, v: Option<Seq<char>>)
    requires
        s.wf(),
        0 <= p < s.users.len(),
    ensures
        s.set_username(p, v).0.wf(),
        s.set_email(p, v).0.wf(),
        s.set_phone(p, v).0.wf(),
        s.set_username(p, v).0.users.len() == s.users.len(),
        s.set_email(p, v).0.users.len() == s.users.len(),
        s.set_phone(p, v).0.users.len() == s.users.len(),
        s.set_username(p, v).0.user_ids() == s.user_ids(),
        s.set_email(p, v).0.user_ids() == s.user_ids(),
        s.set_phone(p, v).0.user_ids() == s.user_ids(),
{
    lemma_own_key_not_other(s.usernames(), p);
    lemma_own_key_not_other(s.emails(), p);
    assert(s.usernames()[p] == s.users[p].username);
    assert(s.emails()[p] == s.users[p].email);
    if let Some(x) = v {
        let u1 = UserRecordView { username: x, ..s.users[p] };
        let u2 = UserRecordView { email: x, ..s.users[p] };
        let u3 = UserRecordView { phone: Some(x), ..s.users[p] };
        if !held_by_other(s.usernames(), p, x) {
            lemma_with_user_wf(s, p, u1);
            assert(s.with_user(p, u1).user_ids() =~= s.user_ids());
        }
        if !held_by_other(s.emails(), p, x) {
            lemma_with_user_wf(s, p, u2);
            assert(s.with_user(p, u2).user_ids() =~= s.user_ids());
        }
        lemma_with_user_wf(s, p, u3);
        assert(s.with_user(p, u3).user_ids() =~= s.user_ids());
    }
}

/// A user update keeps the integrity rules.
pub proof fn lemma_update_user_wf(
    s: HubView,
    id: Seq<char>,
    username: Option<Seq<char>>,
    email: Option<Seq<char>>,
    phone: Option<Seq<char>>,
)
    requires
        s.wf(),
        s.update_user(id, username, email, phone) is Ok,
    ensures
        s.update_user(id, username, email, phone)->Ok_0.wf(),
{
    let p = key_pos(s.user_ids(), id);
    lemma_key_pos_found(s.user_ids(), id);
    let s1 = s.set_username(p, username).0;
    lemma_user_steps_wf(s, p, username);
    let s2 = s1.set_email(p, email).0;
    lemma_user_steps_wf(s1, p, email);
    lemma_user_steps_wf(s2, p, phone);
}

/// An artist update keeps the integrity rules.
pub proof fn lemma_update_artist_wf(
    s: HubView,
    id: Seq<char>,
    genre: Option<Seq<char>>,
    bio: Option<Seq<char>>,
)
    requires
        s.wf(),
        s.update_artist(id, genre, bio) is Ok,
    ensures
        s.update_artist(id, genre, bio)->Ok_0.wf(),
{
    let t = s.update_artist(id, genre, bio)->Ok_0;
    let p = key_pos(s.artist_ids(), id);
    lemma_key_pos_found(s.artist_ids(), id);
    assert(t.artist_ids() =~= s.artist_ids());
    assert(t.user_ids() =~= s.user_ids());
    assert(t.usernames() =~= s.usernames());
    assert(t.emails() =~= s.emails());
    assert(t.event_ids() =~= s.event_ids());
    assert(t.ticket_ids() =~= s.ticket_ids());
    assert(t.order_ids() =~= s.order_ids());
}

/// Removing a user that no order refers to keeps the integrity rules.
pub proof fn lemma_delete_user_wf(s: HubView, id: Seq<char>)
    requires
        s.wf(),
        s.delete_user(id) is Ok,
    ensures
        s.delete_user(id)->Ok_0.wf(),
{
    let t = s.delete_user(id)->Ok_0;
    let p = key_pos(s.user_ids(), id);
    lemma_key_pos_found(s.user_ids(), id);
    assert(t.user_ids() =~= s.user_ids().remove(p));
    assert(t.usernames() =~= s.usernames().remove(p));
    assert(t.emails() =~= s.emails().remove(p));
    lemma_distinct_remove(s.user_ids(), p);
    lemma_distinct_remove(s.usernames(), p);
    lemma_distinct_remove(s.emails(), p);
    assert(t.artist_ids() =~= s.artist_ids());
    assert(t.event_ids() =~= s.event_ids());
    assert(t.ticket_ids() =~= s.ticket_ids());
    assert(t.order_ids() =~= s.order_ids());
    assert forall|i: int| 0 <= i < t.orders.len() implies holds_key(
        t.user_ids(),
        (#[trigger] t.orders[i]).user_id,
    ) && holds_key(t.ticket_ids(), t.orders[i].ticket_id) by {
        assert(s.order_users()[i] == s.orders[i].user_id);
        lemma_holds_key_remove_other(s.user_ids(), p, t.orders[i].user_id);
    }
}

/// Removing an artist that no event refers to keeps the integrity rules.
pub proof fn lemma_delete_artist_wf(s: HubView, id: Seq<char>)
    requires
        s.wf(),
        s.delete_artist(id) is Ok,
    ensures
        s.delete_artist(id)->Ok_0.wf(),
{
    let t = s.delete_artist(id)->Ok_0;
    let p = key_pos(s.artist_ids(), id);
    lemma_key_pos_found(s.artist_ids(), id);
    assert(t.artist_ids() =~= s.artist_ids().remove(p));
    lemma_distinct_remove(s.artist_ids(), p);
    assert(t.user_ids() =~= s.user_ids());
    assert(t.usernames() =~= s.usernames());
    assert(t.emails() =~= s.emails());
    assert(t.event_ids() =~= s.event_ids());
    assert(t.ticket_ids() =~= s.ticket_ids());
    assert(t.order_ids() =~= s.order_ids());
    assert forall|i: int| 0 <= i < t.events.len() implies holds_key(
        t.artist_ids(),
        (#[trigger] t.events[i]).artist_id,
    ) && t.events[i].capacity > 0 by {
        assert(s.event_artists()[i] == s.events[i].artist_id);
        lemma_holds_key_remove_other(s.artist_ids(), p, t.events[i].artist_id);
    }
}

/// Removing an event that no ticket tier refers to keeps the integrity
/// rules.
pub proof fn lemma_delete_event_wf(s: HubView, id: Seq<char>)
    requires
        s.wf(),
        s.delete_event(id) is Ok,
    ensures
        s.delete_event(id)->Ok_0.wf(),
{
    let t = s.delete_event(id)->Ok_0;
    let p = key_pos(s.event_ids(), id);
    lemma_key_pos_found(s.event_ids(), id);
    assert(t.event_ids() =~= s.event_ids().remove(p));
    lemma_distinct_remove(s.event_ids(), p);
    assert(t.user_ids() =~= s.user_ids());
    assert(t.usernames() =~= s.usernames());
    assert(t.emails() =~= s.emails());
    assert(t.artist_ids() =~= s.artist_ids());
    assert(t.ticket_ids() =~= s.ticket_ids());
    assert(t.order_ids() =~= s.order_ids());
    assert forall|i: int| 0 <= i < t.events.len() implies holds_key(
        t.artist_ids(),
        (#[trigger] t.events[i]).artist_id,
    ) && t.events[i].capacity > 0 by {
        let oi = if i < p { i } else { i + 1 };
        assert(t.events[i] == s.events[oi]);
    }
    assert forall|i: int| 0 <= i < t.tickets.len() implies holds_key(
        t.event_ids(),
        (#[trigger] t.tickets[i]).event_id,
    ) && t.tickets[i].price_cents > 0 && t.tickets[i].num_available >= 0 by {
        assert(s.ticket_events()[i] == s.tickets[i].event_id);
        lemma_holds_key_remove_other(s.event_ids(), p, t.tickets[i].event_id);
    }
}

/// Replacing the ticket tier at `p` by one with the same id, event and price
/// and a count that is not negative keeps the integrity rules.
pub proof fn lemma_with_ticket_wf(s: HubView, p: int, k: TicketRecordView)
    requires
        s.wf(),
        0 <= p < s.tickets.len(),
        k.ticket_id == s.tickets[p].ticket_id,
        k.event_id == s.tickets[p].event_id,
        k.price_cents == s.tickets[p].price_cents,
        k.num_available >= 0,
    ensures
        s.with_ticket(p, k).wf(),
        s.with_ticket(p, k).ticket_ids() == s.ticket_ids(),
{
    let t = s.with_ticket(p, k);
    assert(t.user_ids() =~= s.user_ids());
    assert(t.usernames() =~= s.usernames());
    assert(t.emails() =~= s.emails());
    assert(t.artist_ids() =~= s.artist_ids());
    assert(t.event_ids() =~= s.event_ids());
    assert(t.ticket_ids() =~= s.ticket_ids());
    assert(t.order_ids() =~= s.order_ids());
    assert forall|i: int| 0 <= i < t.tickets.len() implies holds_key(
        t.event_ids(),
        (#[trigger] t.tickets[i]).event_id,
    ) && t.tickets[i].price_cents > 0 && t.tickets[i].num_available >= 0 by {
        if i != p {
            assert(t.tickets[i] == s.tickets[i]);
        }
    }
}

/// Adding a ticket tier keeps the integrity rules.
pub proof fn lemma_add_ticket_wf(s: HubView, k: TicketRecordView)
    requires
        s.wf(),
        s.add_ticket(k) is Ok,
    ensures
        s.add_ticket(k)->Ok_0.wf(),
{
    lemma_insert_ticket_wf(s, k);
}

/// Placing an order keeps the integrity rules.
pub proof fn lemma_place_order_wf(
    s: HubView,
    order_id: Seq<char>,
    user_id: Seq<char>,
    ticket_id: Seq<char>,
    now: Seq<char>,
)
    requires
        s.wf(),
        s.place_order(order_id, user_id, ticket_id, now) is Ok,
    ensures
        s.place_order(order_id, user_id, ticket_id, now)->Ok_0.wf(),
{
    let tp = key_pos(s.ticket_ids(), ticket_id);
    lemma_key_pos_found(s.ticket_ids(), ticket_id);
    let o = OrderRecordView { order_id, user_id, ticket_id, date_of_purchase: now };
    lemma_insert_order_wf(s, o);
    let s1 = s.insert_order(o)->Ok_0;
    let t = s.tickets[tp];
    lemma_with_ticket_wf(
        s1,
        tp,
        TicketRecordView { num_available: (t.num_available - 1) as i64, ..t },
    );
}

/// Cancelling an order keeps the integrity rules.
pub proof fn lemma_cancel_order_wf(s: HubView, order_id: Seq<char>)
    requires
        s.wf(),
        s.cancel_order(order_id) is Ok,
    ensures
        s.cancel_order(order_id)->Ok_0.wf(),
{
    let op = key_pos(s.order_ids(), order_id);
    lemma_key_pos_found(s.order_ids(), order_id);
    let o = s.orders[op];
    let s1 = HubView { orders: s.orders.remove(op), ..s };
    assert(s1.order_ids() =~= s.order_ids().remove(op));
    lemma_distinct_remove(s.order_ids(), op);
    assert(s1.user_ids() =~= s.user_ids());
    assert(s1.usernames() =~= s.usernames());
    assert(s1.emails() =~= s.emails());
    assert(s1.artist_ids() =~= s.artist_ids());
    assert(s1.event_ids() =~= s.event_ids());
    assert(s1.ticket_ids() =~= s.ticket_ids());
    assert forall|i: int| 0 <= i < s1.orders.len() implies holds_key(
        s1.user_ids(),
        (#[trigger] s1.orders[i]).user_id,
    ) && holds_key(s1.ticket_ids(), s1.orders[i].ticket_id) by {
        let oi = if i < op { i } else { i + 1 };
        assert(s1.orders[i] == s.orders[oi]);
    }
    assert(s1.wf());
    if holds_key(s.ticket_ids(), o.ticket_id) {
        let tp = key_pos(s.ticket_ids(), o.ticket_id);
        lemma_key_pos_found(s.ticket_ids(), o.ticket_id);
        let t = s.tickets[tp];
        if t.num_available < i64::MAX {
            lemma_with_ticket_wf(
                s1,
                tp,
                TicketRecordView { num_available: (t.num_available + 1) as i64, ..t },
            );
        }
    }
}

} // verus!
