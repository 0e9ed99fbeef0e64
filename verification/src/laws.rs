//! Properties that relate the marketplace's operations to each other.

use vstd::prelude::*;
use crate::keys::{held_by_other, holds_key, key_pos, lemma_key_pos_at, lemma_key_pos_found};
use crate::listing::{
    is_selected, keep_all, lemma_int_listing_sorted, lemma_listing_distinct, lemma_listing_filter,
    lemma_listing_within, lemma_select_members, lemma_text_listing_members,
    lemma_text_listing_sorted, select_positions, selected_text_keys, user_out,
};
use crate::model::{
    ArtistView, EventRecordView, EventSearchView, EventView, HubError, OrderRecordView, OrderView,
    TicketRecordView, TicketView, UserRecordView, UserView,
};
use crate::seed::{catalog_artists, catalog_events, catalog_tickets, demo_user};
use crate::like::{
    contains_folded, is_literal, law_like_finds_substring, law_like_is_substring_search,
    same_folded,
};
use crate::sort::{ordered_text, sorted_text_order};
use crate::text::{fold_text, text_le};
use crate::time::{lemma_time_bound, recency_key, time_of};
use crate::state::{seed_artists, seed_events, seed_tickets, seeded, HubView};

verus! {

/// Cancelling an order right after placing it gives back the state from
/// before: the order is gone and the tier's count is restored.
pub proof fn law_cancel_undoes_place(
    s: HubView,
    order_id: Seq<char>,
    user_id: Seq<char>,
    ticket_id: Seq<char>,
    now: Seq<char>,
)
    requires
        s.wf(),
        s.place_order(order_id, user_id, ticket_id, now) is Ok,
    ensures
        s.place_order(order_id, user_id, ticket_id, now)->Ok_0.cancel_order(order_id) == Ok::<
            HubView,
            HubError,
        >(s),
{
    let tp = key_pos(s.ticket_ids(), ticket_id);
    lemma_key_pos_found(s.ticket_ids(), ticket_id);
    let t = s.tickets[tp];
    let o = OrderRecordView { order_id, user_id, ticket_id, date_of_purchase: now };
    let s0 = s.insert_order(o)->Ok_0;
    let s1 = s.place_order(order_id, user_id, ticket_id, now)->Ok_0;
    crate::integrity::lemma_place_order_wf(s, order_id, user_id, ticket_id, now);
    assert(s1.order_ids() =~= s.order_ids().push(order_id));
    let last = s.orders.len() as int;
    assert(s1.order_ids()[last] == order_id);
    lemma_key_pos_at(s1.order_ids(), last);
    assert(s1.orders.remove(last) =~= s.orders);
    assert(s1.ticket_ids() =~= s.ticket_ids());
    assert(s1.tickets[tp].ticket_id == ticket_id);
    lemma_key_pos_at(s1.ticket_ids(), tp);
    assert(s1.tickets.update(tp, t) =~= s.tickets);
}

/// A stored user can be read back, without its password hash.
pub proof fn law_inserted_user_is_found(s: HubView, u: UserRecordView)
    requires
        s.wf(),
        s.insert_user(u) is Ok,
    ensures
        s.insert_user(u)->Ok_0.user_lookup(u.user_id) == Some(user_out(u)),
{
    let t = s.insert_user(u)->Ok_0;
    crate::integrity::lemma_insert_user_wf(s, u);
    assert(t.user_ids() =~= s.user_ids().push(u.user_id));
    lemma_key_pos_at(t.user_ids(), s.users.len() as int);
}

/// A stored artist can be read back.
pub proof fn law_inserted_artist_is_found(s: HubView, a: ArtistView)
    requires
        s.wf(),
        s.insert_artist(a) is Ok,
    ensures
        s.insert_artist(a)->Ok_0.artist_lookup(a.artist_id) == Some(a),
{
    let t = s.insert_artist(a)->Ok_0;
    crate::integrity::lemma_insert_artist_wf(s, a);
    assert(t.artist_ids() =~= s.artist_ids().push(a.artist_id));
    lemma_key_pos_at(t.artist_ids(), s.artists.len() as int);
}

/// A stored event can be read back, with the name of its artist.
pub proof fn law_inserted_event_is_found(s: HubView, e: EventRecordView)
    requires
        s.wf(),
        s.insert_event(e) is Ok,
    ensures
        s.insert_event(e)->Ok_0.event_lookup(e.event_id) == Some(s.event_out(e)),
{
    let t = s.insert_event(e)->Ok_0;
    crate::integrity::lemma_insert_event_wf(s, e);
    assert(t.event_ids() =~= s.event_ids().push(e.event_id));
    lemma_key_pos_at(t.event_ids(), s.events.len() as int);
    assert(t.artist_ids() =~= s.artist_ids());
}

/// A removed user is no longer found.
pub proof fn law_deleted_user_is_gone(s: HubView, id: Seq<char>)
    requires
        s.wf(),
        s.delete_user(id) is Ok,
    ensures
        s.delete_user(id)->Ok_0.user_lookup(id) is None,
{
    let t = s.delete_user(id)->Ok_0;
    let p = key_pos(s.user_ids(), id);
    lemma_key_pos_found(s.user_ids(), id);
    assert(t.user_ids() =~= s.user_ids().remove(p));
    crate::keys::lemma_holds_key_remove(s.user_ids(), p, id);
    if exists|i: int| 0 <= i < s.user_ids().len() && i != p && #[trigger] s.user_ids()[i] == id {
        let i = choose|i: int| 0 <= i < s.user_ids().len() && i != p && #[trigger] s.user_ids()[i] == id;
        if i < p {
            assert(s.user_ids()[i] != s.user_ids()[p]);
        } else {
            assert(s.user_ids()[p] != s.user_ids()[i]);
        }
    }
}

/// Two selections that agree on every position below `n` select the same
/// positions.
pub proof fn lemma_select_same(n: int, k1: spec_fn(int) -> bool, k2: spec_fn(int) -> bool)
    requires
        forall|p: int| 0 <= p < n ==> #[trigger] k1(p) == k2(p),
    ensures
        select_positions(n, k1) == select_positions(n, k2),
    decreases n,
{
    if n > 0 {
        lemma_select_same(n - 1, k1, k2);
    }
}

/// Every tier's event and that event's artist exist, so the listing of
/// tiers joined with their events drops no tier.
pub proof fn law_ticket_join_keeps_every_tier(s: HubView)
    requires
        s.wf(),
    ensures
        select_positions(s.tickets.len() as int, s.keep_joined_tickets()) == select_positions(
            s.tickets.len() as int,
            keep_all(),
        ),
{
    assert forall|p: int| 0 <= p < s.tickets.len() implies #[trigger] s.keep_joined_tickets()(p) == keep_all()(p) by {
        let t = s.tickets[p];
        lemma_key_pos_found(s.event_ids(), t.event_id);
        let e = s.events[key_pos(s.event_ids(), t.event_id)];
        assert(s.has_artist_of(e));
    }
    lemma_select_same(s.tickets.len() as int, s.keep_joined_tickets(), keep_all());
}

/// Every order's tier, event and artist exist, so the listing of orders
/// joined with them drops no order.
pub proof fn law_order_join_keeps_every_order(s: HubView)
    requires
        s.wf(),
    ensures
        select_positions(s.orders.len() as int, s.keep_joined_orders()) == select_positions(
            s.orders.len() as int,
            keep_all(),
        ),
{
    assert forall|p: int| 0 <= p < s.orders.len() implies #[trigger] s.keep_joined_orders()(p) == keep_all()(p) by {
        let o = s.orders[p];
        lemma_key_pos_found(s.ticket_ids(), o.ticket_id);
        let t = s.tickets[key_pos(s.ticket_ids(), o.ticket_id)];
        lemma_key_pos_found(s.event_ids(), t.event_id);
        let e = s.events[key_pos(s.event_ids(), t.event_id)];
        assert(s.has_artist_of(e));
        assert(s.has_event_of(t));
    }
    lemma_select_same(s.orders.len() as int, s.keep_joined_orders(), keep_all());
}

/// A search without filters lists every event.
pub proof fn law_unfiltered_search_lists_every_event(s: HubView)
    requires
        s.wf(),
    ensures
        select_positions(
            s.events.len() as int,
            s.keep_found_events(
                EventSearchView { artist: None, city: None, date_from: None, date_to: None },
            ),
        ) == select_positions(s.events.len() as int, keep_all()),
{
    let f = EventSearchView { artist: None, city: None, date_from: None, date_to: None };
    assert forall|p: int| 0 <= p < s.events.len() implies #[trigger] s.keep_found_events(f)(p) == keep_all()(
        p,
    ) by {
        assert(s.has_artist_of(s.events[p]));
    }
    lemma_select_same(s.events.len() as int, s.keep_found_events(f), keep_all());
}

proof fn lemma_seed_artists_fills(s: HubView, rows: Seq<ArtistView>)
    requires
        s.artists.len() == 0,
        rows.len() > 0,
    ensures
        seed_artists(s, rows).artists.len() > 0,
    decreases rows.len(),
{
    let t = seed_artists(s, rows.drop_last());
    if rows.len() > 1 {
        lemma_seed_artists_fills(s, rows.drop_last());
        if t.insert_artist(rows.last()) is Ok {
            assert(t.insert_artist(rows.last())->Ok_0.artists.len() == t.artists.len() + 1);
        }
    } else {
        assert(t == s);
        assert(!holds_key(s.artist_ids(), rows.last().artist_id));
    }
}

proof fn lemma_seed_events_keeps_artists(s: HubView, rows: Seq<EventRecordView>)
    ensures
        seed_events(s, rows).0.artists == s.artists,
    decreases rows.len(),
{
    if rows.len() > 0 {
        lemma_seed_events_keeps_artists(s, rows.drop_last());
    }
}

proof fn lemma_seed_tickets_keeps_artists(s: HubView, rows: Seq<TicketRecordView>)
    ensures
        seed_tickets(s, rows).0.artists == s.artists,
    decreases rows.len(),
{
    if rows.len() > 0 {
        lemma_seed_tickets_keeps_artists(s, rows.drop_last());
    }
}

/// Seeding an empty marketplace leaves artists in it, so seeding it again
/// changes nothing.
pub proof fn law_seed_runs_once(s: HubView, hash: Seq<char>, hash2: Seq<char>)
    requires
        s.artists.len() == 0,
    ensures
        ({
            let t = seeded(s, catalog_artists(), catalog_events(), catalog_tickets(), demo_user(hash)).0;
            seeded(t, catalog_artists(), catalog_events(), catalog_tickets(), demo_user(hash2)) == (
            t,
            None::<HubError>,
            )
        }),
{
    assert(catalog_artists().len() > 0);
    let s1 = seed_artists(s, catalog_artists());
    lemma_seed_artists_fills(s, catalog_artists());
    let s2 = seed_events(s1, catalog_events()).0;
    lemma_seed_events_keeps_artists(s1, catalog_events());
    let s3 = seed_tickets(s2, catalog_tickets()).0;
    lemma_seed_tickets_keeps_artists(s2, catalog_tickets());
    assert(s3.insert_user_or_ignore(demo_user(hash)).artists == s3.artists);
}

/// The row at `p` is the only one with its key.
proof fn lemma_removed_key_gone(keys: Seq<Seq<char>>, p: int)
    requires
        crate::keys::distinct(keys),
        0 <= p < keys.len(),
    ensures
        !holds_key(keys.remove(p), keys[p]),
{
    crate::keys::lemma_holds_key_remove(keys, p, keys[p]);
    if exists|i: int| 0 <= i < keys.len() && i != p && #[trigger] keys[i] == keys[p] {
        let i = choose|i: int| 0 <= i < keys.len() && i != p && #[trigger] keys[i] == keys[p];
        if i < p {
            assert(keys[i] != keys[p]);
        } else {
            assert(keys[p] != keys[i]);
        }
    }
}

/// A removed artist is no longer found.
pub proof fn law_deleted_artist_is_gone(s: HubView, id: Seq<char>)
    requires
        s.wf(),
        s.delete_artist(id) is Ok,
    ensures
        s.delete_artist(id)->Ok_0.artist_lookup(id) is None,
{
    let t = s.delete_artist(id)->Ok_0;
    let p = key_pos(s.artist_ids(), id);
    lemma_key_pos_found(s.artist_ids(), id);
    assert(t.artist_ids() =~= s.artist_ids().remove(p));
    lemma_removed_key_gone(s.artist_ids(), p);
}

/// A removed event is no longer found.
pub proof fn law_deleted_event_is_gone(s: HubView, id: Seq<char>)
    requires
        s.wf(),
        s.delete_event(id) is Ok,
    ensures
        s.delete_event(id)->Ok_0.event_lookup(id) is None,
{
    let t = s.delete_event(id)->Ok_0;
    let p = key_pos(s.event_ids(), id);
    lemma_key_pos_found(s.event_ids(), id);
    assert(t.event_ids() =~= s.event_ids().remove(p));
    lemma_removed_key_gone(s.event_ids(), p);
}

/// Placing an order stores it and lowers its tier's count by one.
pub proof fn law_place_order_takes_one_ticket(
    s: HubView,
    order_id: Seq<char>,
    user_id: Seq<char>,
    ticket_id: Seq<char>,
    now: Seq<char>,
)
    requires
        s.wf(),
        s.place_order(order_id, user_id, ticket_id, now) is Ok,
    ensures
        ({
            let t = s.place_order(order_id, user_id, ticket_id, now)->Ok_0;
            let k = s.ticket_row(ticket_id)->0;
            &&& s.ticket_row(ticket_id) is Some
            &&& k.num_available > 0
            &&& t.ticket_row(ticket_id) == Some(
                TicketRecordView { num_available: (k.num_available - 1) as i64, ..k },
            )
            &&& t.order_row(order_id) == Some(
                OrderRecordView { order_id, user_id, ticket_id, date_of_purchase: now },
            )
            &&& t.orders.len() == s.orders.len() + 1
        }),
{
    let tp = key_pos(s.ticket_ids(), ticket_id);
    lemma_key_pos_found(s.ticket_ids(), ticket_id);
    let t = s.place_order(order_id, user_id, ticket_id, now)->Ok_0;
    crate::integrity::lemma_place_order_wf(s, order_id, user_id, ticket_id, now);
    assert(t.ticket_ids() =~= s.ticket_ids());
    assert(t.order_ids() =~= s.order_ids().push(order_id));
    lemma_key_pos_at(t.order_ids(), s.orders.len() as int);
}

/// A cancelled order is no longer stored.
pub proof fn law_cancelled_order_is_gone(s: HubView, id: Seq<char>)
    requires
        s.wf(),
        s.cancel_order(id) is Ok,
    ensures
        s.cancel_order(id)->Ok_0.order_row(id) is None,
{
    let t = s.cancel_order(id)->Ok_0;
    let p = key_pos(s.order_ids(), id);
    lemma_key_pos_found(s.order_ids(), id);
    assert(t.order_ids() =~= s.order_ids().remove(p));
    lemma_removed_key_gone(s.order_ids(), p);
}

/// An update changes only the fields it gives, and only on the user it
/// names: id, password hash and creation time stay, a given phone is set,
/// an absent field keeps its value, and every other row is untouched.
pub proof fn law_update_user_changes_only_given_fields(
    s: HubView,
    id: Seq<char>,
    username: Option<Seq<char>>,
    email: Option<Seq<char>>,
    phone: Option<Seq<char>>,
)
    requires
        s.wf(),
        s.update_user(id, username, email, phone) is Ok,
    ensures
        ({
            let t = s.update_user(id, username, email, phone)->Ok_0;
            let p = key_pos(s.user_ids(), id);
            &&& 0 <= p < s.users.len()
            &&& t.users.len() == s.users.len()
            &&& t.artists == s.artists && t.events == s.events && t.tickets == s.tickets
                && t.orders == s.orders
            &&& forall|q: int| 0 <= q < s.users.len() && q != p ==> #[trigger] t.users[q] == s.users[q]
            &&& t.users[p].user_id == id
            &&& t.users[p].password_hash == s.users[p].password_hash
            &&& t.users[p].creation_time == s.users[p].creation_time
            &&& (username is None ==> t.users[p].username == s.users[p].username)
            &&& (email is None ==> t.users[p].email == s.users[p].email)
            &&& (phone is None ==> t.users[p].phone == s.users[p].phone)
            &&& (phone matches Some(v) ==> t.users[p].phone == Some(v))
        }),
{
    let p = key_pos(s.user_ids(), id);
    lemma_key_pos_found(s.user_ids(), id);
    let s1 = s.set_username(p, username).0;
    let s2 = s1.set_email(p, email).0;
    let s3 = s2.set_phone(p, phone).0;
    assert(s.user_ids()[p] == s.users[p].user_id);
}

/// The orders listed for user `id` are exactly the orders of the full
/// listing that belong to `id`; neither listing holds an order twice, so
/// the two are equal as multisets (and both are newest first).
pub proof fn law_user_orders_are_filtered_orders(
    s: HubView,
    id: Seq<char>,
    mine: Seq<OrderView>,
    all: Seq<OrderView>,
)
    requires
        s.wf(),
        s.orders.len() <= usize::MAX,
        s.user_orders_listing(id, mine),
        s.orders_listing(all),
    ensures
        forall|v: OrderView| mine.contains(v) <==> all.contains(v) && v.user_id == id,
        mine.no_duplicates(),
        all.no_duplicates(),
{
    let n = s.orders.len() as int;
    let pred = |v: OrderView| v.user_id == id;
    assert forall|p: int| 0 <= p < n implies (#[trigger] s.keep_user_orders(id)(p) <==> s.keep_joined_orders()(p)
        && pred(s.order_item()(p))) by {}
    lemma_listing_filter(
        n,
        s.keep_user_orders(id),
        s.keep_joined_orders(),
        pred,
        s.order_date_key(),
        s.order_item(),
        true,
        mine,
        all,
    );
    assert forall|p: int, q: int|
        0 <= p < n && 0 <= q < n && #[trigger] s.order_item()(p) == #[trigger] s.order_item()(q) implies p
        == q by {
        assert(s.order_ids()[p] == s.order_item()(p).order_id);
        assert(s.order_ids()[q] == s.order_item()(q).order_id);
        if p < q {
            assert(s.order_ids()[p] != s.order_ids()[q]);
        } else if q < p {
            assert(s.order_ids()[q] != s.order_ids()[p]);
        }
    }
    lemma_listing_distinct(n, s.keep_user_orders(id), s.order_date_key(), s.order_item(), true, mine);
    lemma_listing_distinct(n, s.keep_joined_orders(), s.order_date_key(), s.order_item(), true, all);
}

/// No filters at all.
pub open spec fn no_filter() -> EventSearchView {
    EventSearchView { artist: None, city: None, date_from: None, date_to: None }
}

/// The events listed for artist `id` are exactly the events of the
/// unfiltered search that belong to `id`; neither listing holds an event
/// twice, so the two are equal as multisets (and both are by date). An
/// unknown artist has no events.
pub proof fn law_artist_events_are_filtered_search(
    s: HubView,
    id: Seq<char>,
    mine: Seq<EventView>,
    all: Seq<EventView>,
)
    requires
        s.wf(),
        s.events.len() <= usize::MAX,
        s.artist_events_listing(id, mine),
        s.events_listing(no_filter(), all),
    ensures
        forall|v: EventView| mine.contains(v) <==> all.contains(v) && v.artist_id == id,
        mine.no_duplicates(),
        all.no_duplicates(),
{
    let n = s.events.len() as int;
    let pred = |v: EventView| v.artist_id == id;
    assert forall|p: int| 0 <= p < n implies (#[trigger] s.keep_artist_events(id)(p) <==> s.keep_found_events(
        no_filter(),
    )(p) && pred(s.event_item()(p))) by {}
    lemma_listing_filter(
        n,
        s.keep_artist_events(id),
        s.keep_found_events(no_filter()),
        pred,
        s.event_date_key(),
        s.event_item(),
        false,
        mine,
        all,
    );
    assert forall|p: int, q: int|
        0 <= p < n && 0 <= q < n && #[trigger] s.event_item()(p) == #[trigger] s.event_item()(q) implies p
        == q by {
        assert(s.event_ids()[p] == s.event_item()(p).event_id);
        assert(s.event_ids()[q] == s.event_item()(q).event_id);
        if p < q {
            assert(s.event_ids()[p] != s.event_ids()[q]);
        } else if q < p {
            assert(s.event_ids()[q] != s.event_ids()[p]);
        }
    }
    lemma_listing_distinct(n, s.keep_artist_events(id), s.event_date_key(), s.event_item(), false, mine);
    lemma_listing_distinct(
        n,
        s.keep_found_events(no_filter()),
        s.event_date_key(),
        s.event_item(),
        false,
        all,
    );
}

/// Search `f2` is at least as strict as `f1`: it keeps every name and city
/// filter of `f1`, and its date bounds are at least as tight.
pub open spec fn narrower(f2: EventSearchView, f1: EventSearchView) -> bool {
    &&& (f1.artist is Some ==> f2.artist == f1.artist)
    &&& (f1.city is Some ==> f2.city == f1.city)
    &&& (f1.date_from matches Some(a) ==> f2.date_from matches Some(b) && text_le(a, b))
    &&& (f1.date_to matches Some(a) ==> f2.date_to matches Some(b) && text_le(b, a))
}

/// Tightening a search never adds an event: every event that the stricter
/// search lists, the looser one lists too, and neither lists an event
/// twice.
pub proof fn law_narrower_search_lists_fewer(
    s: HubView,
    f1: EventSearchView,
    f2: EventSearchView,
    out1: Seq<EventView>,
    out2: Seq<EventView>,
)
    requires
        s.wf(),
        s.events.len() <= usize::MAX,
        narrower(f2, f1),
        s.events_listing(f1, out1),
        s.events_listing(f2, out2),
    ensures
        forall|v: EventView| out2.contains(v) ==> out1.contains(v),
        out1.no_duplicates(),
        out2.no_duplicates(),
{
    let n = s.events.len() as int;
    assert forall|p: int| 0 <= p < n && #[trigger] s.keep_found_events(f2)(p) implies s.keep_found_events(
        f1,
    )(p) by {
        let e = s.events[p];
        if let Some(a) = f1.date_from {
            let b = f2.date_from->0;
            crate::text::lemma_text_le_transitive(a, b, e.event_date);
        }
        if let Some(a) = f1.date_to {
            let b = f2.date_to->0;
            crate::text::lemma_text_le_transitive(e.event_date, b, a);
        }
    }
    lemma_listing_within(
        n,
        s.keep_found_events(f2),
        s.keep_found_events(f1),
        s.event_date_key(),
        s.event_item(),
        false,
        out2,
        out1,
    );
    assert forall|p: int, q: int|
        0 <= p < n && 0 <= q < n && #[trigger] s.event_item()(p) == #[trigger] s.event_item()(q) implies p
        == q by {
        assert(s.event_ids()[p] == s.event_item()(p).event_id);
        assert(s.event_ids()[q] == s.event_item()(q).event_id);
        if p < q {
            assert(s.event_ids()[p] != s.event_ids()[q]);
        } else if q < p {
            assert(s.event_ids()[q] != s.event_ids()[p]);
        }
    }
    lemma_listing_distinct(n, s.keep_found_events(f1), s.event_date_key(), s.event_item(), false, out1);
    lemma_listing_distinct(n, s.keep_found_events(f2), s.event_date_key(), s.event_item(), false, out2);
}

/// Two orders for the last ticket of a tier sell it once: the first,
/// placed by an existing user under a fresh order id, succeeds and leaves
/// the tier at zero, and the second is refused as sold out.
pub proof fn law_last_ticket_sells_once(
    s: HubView,
    ticket_id: Seq<char>,
    first: Seq<char>,
    first_user: Seq<char>,
    first_time: Seq<char>,
    second: Seq<char>,
    second_user: Seq<char>,
    second_time: Seq<char>,
)
    requires
        s.wf(),
        s.ticket_row(ticket_id) is Some,
        s.ticket_row(ticket_id)->0.num_available == 1,
        s.user_row(first_user) is Some,
        s.order_row(first) is None,
    ensures
        s.place_order(first, first_user, ticket_id, first_time) is Ok,
        ({
            let s1 = s.place_order(first, first_user, ticket_id, first_time)->Ok_0;
            &&& s1.ticket_row(ticket_id) is Some
            &&& s1.ticket_row(ticket_id)->0.num_available == 0
            &&& s1.orders.len() == s.orders.len() + 1
            &&& s1.place_order(second, second_user, ticket_id, second_time) == Err::<
                HubView,
                HubError,
            >(HubError::NoTicketsAvailable)
        }),
{
    lemma_key_pos_found(s.ticket_ids(), ticket_id);
    assert(s.place_order(first, first_user, ticket_id, first_time) is Ok);
    law_place_order_takes_one_ticket(s, first, first_user, ticket_id, first_time);
}

/// How many rows hold key `k`.
pub open spec fn count_key(keys: Seq<Seq<char>>, k: Seq<char>) -> nat
    decreases keys.len(),
{
    if keys.len() == 0 {
        0
    } else {
        count_key(keys.drop_last(), k) + if keys.last() == k {
            1nat
        } else {
            0nat
        }
    }
}

/// The tickets of tier `t` that are left or sold: its count plus the orders
/// that refer to it.
pub open spec fn stock(s: HubView, t: Seq<char>) -> int {
    s.ticket_row(t)->0.num_available + count_key(s.order_tickets(), t)
}

proof fn lemma_count_push(keys: Seq<Seq<char>>, x: Seq<char>, k: Seq<char>)
    ensures
        count_key(keys.push(x), k) == count_key(keys, k) + if x == k {
            1nat
        } else {
            0nat
        },
{
    assert(keys.push(x).drop_last() =~= keys);
}

proof fn lemma_count_remove(keys: Seq<Seq<char>>, p: int, k: Seq<char>)
    requires
        0 <= p < keys.len(),
    ensures
        count_key(keys.remove(p), k) + (if keys[p] == k {
            1nat
        } else {
            0nat
        }) == count_key(keys, k),
    decreases keys.len(),
{
    if p == keys.len() - 1 {
        assert(keys.remove(p) =~= keys.drop_last());
    } else {
        lemma_count_remove(keys.drop_last(), p, k);
        assert(keys.remove(p).drop_last() =~= keys.drop_last().remove(p));
        assert(keys.remove(p).last() == keys.last());
    }
}

/// The row of tier `x` after tier `t` at `tp` is replaced by `k` with the
/// same id.
proof fn lemma_ticket_row_after_update(s: HubView, tp: int, k: TicketRecordView, x: Seq<char>)
    requires
        s.wf(),
        0 <= tp < s.tickets.len(),
        k.ticket_id == s.tickets[tp].ticket_id,
    ensures
        s.with_ticket(tp, k).ticket_ids() == s.ticket_ids(),
        s.with_ticket(tp, k).ticket_row(x) == if x == k.ticket_id {
            Some(k)
        } else {
            s.ticket_row(x)
        },
{
    let t = s.with_ticket(tp, k);
    assert(t.ticket_ids() =~= s.ticket_ids());
    if x == k.ticket_id {
        assert(s.ticket_ids()[tp] == x);
        lemma_key_pos_at(s.ticket_ids(), tp);
    } else if holds_key(s.ticket_ids(), x) {
        lemma_key_pos_found(s.ticket_ids(), x);
    }
}

/// Placing an order keeps, for every tier, its count plus the orders that
/// refer to it.
pub proof fn law_place_order_keeps_stock(
    s: HubView,
    order_id: Seq<char>,
    user_id: Seq<char>,
    ticket_id: Seq<char>,
    now: Seq<char>,
)
    requires
        s.wf(),
        s.place_order(order_id, user_id, ticket_id, now) is Ok,
    ensures
        ({
            let t = s.place_order(order_id, user_id, ticket_id, now)->Ok_0;
            &&& t.ticket_ids() == s.ticket_ids()
            &&& forall|x: Seq<char>| #[trigger] holds_key(s.ticket_ids(), x) ==> stock(t, x) == stock(s, x)
        }),
{
    let tp = key_pos(s.ticket_ids(), ticket_id);
    lemma_key_pos_found(s.ticket_ids(), ticket_id);
    let k = s.tickets[tp];
    let o = OrderRecordView { order_id, user_id, ticket_id, date_of_purchase: now };
    let s0 = s.insert_order(o)->Ok_0;
    let k2 = TicketRecordView { num_available: (k.num_available - 1) as i64, ..k };
    let t = s0.with_ticket(tp, k2);
    crate::integrity::lemma_insert_order_wf(s, o);
    assert(s0.ticket_ids() =~= s.ticket_ids());
    assert(s0.order_tickets() =~= s.order_tickets().push(ticket_id));
    assert(t.order_tickets() =~= s0.order_tickets());
    assert(s0.ticket_row(ticket_id) == s.ticket_row(ticket_id));
    assert forall|x: Seq<char>| #[trigger] holds_key(s.ticket_ids(), x) implies stock(t, x) == stock(s, x) by {
        lemma_ticket_row_after_update(s0, tp, k2, x);
        lemma_count_push(s.order_tickets(), ticket_id, x);
        assert(s0.ticket_row(x) == s.ticket_row(x));
    }
    lemma_ticket_row_after_update(s0, tp, k2, ticket_id);
}

/// Cancelling an order keeps, for every tier, its count plus the orders
/// that refer to it, as long as the order's tier is below the largest
/// `i64` count (at that count the cancel keeps the count and the sum drops
/// by one).
pub proof fn law_cancel_order_keeps_stock(s: HubView, id: Seq<char>)
    requires
        s.wf(),
        s.order_row(id) is Some,
        s.ticket_row(s.order_row(id)->0.ticket_id)->0.num_available < i64::MAX,
    ensures
        s.cancel_order(id) is Ok,
        ({
            let t = s.cancel_order(id)->Ok_0;
            &&& t.ticket_ids() == s.ticket_ids()
            &&& forall|x: Seq<char>| #[trigger] holds_key(s.ticket_ids(), x) ==> stock(t, x) == stock(s, x)
        }),
{
    let op = key_pos(s.order_ids(), id);
    lemma_key_pos_found(s.order_ids(), id);
    let o = s.orders[op];
    let s1 = HubView { orders: s.orders.remove(op), ..s };
    assert(s1.ticket_ids() =~= s.ticket_ids());
    assert(s1.order_tickets() =~= s.order_tickets().remove(op));
    assert(s.order_tickets()[op] == o.ticket_id);
    assert(holds_key(s.ticket_ids(), o.ticket_id));
    let tp = key_pos(s.ticket_ids(), o.ticket_id);
    lemma_key_pos_found(s.ticket_ids(), o.ticket_id);
    let k = s.tickets[tp];
    assert(s.ticket_row(o.ticket_id) == Some(k));
    let k2 = TicketRecordView { num_available: (k.num_available + 1) as i64, ..k };
    let t = s1.with_ticket(tp, k2);
    crate::integrity::lemma_cancel_order_wf(s, id);
    assert(s1.wf()) by {
        crate::keys::lemma_distinct_remove(s.order_ids(), op);
        assert(s1.order_ids() =~= s.order_ids().remove(op));
        assert(s1.user_ids() =~= s.user_ids());
        assert(s1.usernames() =~= s.usernames());
        assert(s1.emails() =~= s.emails());
        assert(s1.artist_ids() =~= s.artist_ids());
        assert(s1.event_ids() =~= s.event_ids());
        assert forall|i: int| 0 <= i < s1.orders.len() implies holds_key(
            s1.user_ids(),
            (#[trigger] s1.orders[i]).user_id,
        ) && holds_key(s1.ticket_ids(), s1.orders[i].ticket_id) by {
            let oi = if i < op { i } else { i + 1 };
            assert(s1.orders[i] == s.orders[oi]);
        }
    }
    assert(t.order_tickets() =~= s1.order_tickets());
    assert forall|x: Seq<char>| #[trigger] holds_key(s.ticket_ids(), x) implies stock(t, x) == stock(s, x) by {
        lemma_ticket_row_after_update(s1, tp, k2, x);
        lemma_count_remove(s.order_tickets(), op, x);
        assert(s1.ticket_row(x) == s.ticket_row(x));
    }
    lemma_ticket_row_after_update(s1, tp, k2, o.ticket_id);
}

/// A search by city finds every event whose city contains the search text:
/// when the text has no wildcard and the city is `a + w + b` with `w` equal
/// to the text up to ASCII case, the event (whose artist exists) is listed.
pub proof fn law_city_search_finds_substring(
    s: HubView,
    needle: Seq<char>,
    out: Seq<EventView>,
    p: int,
    a: Seq<char>,
    w: Seq<char>,
    b: Seq<char>,
)
    requires
        s.wf(),
        s.events.len() <= usize::MAX,
        s.events_listing(
            EventSearchView { artist: None, city: Some(needle), date_from: None, date_to: None },
            out,
        ),
        0 <= p < s.events.len(),
        s.events[p].city == a + w + b,
        w.len() == needle.len(),
        forall|m: int| 0 <= m < needle.len() ==> is_literal(#[trigger] needle[m]),
        forall|m: int| 0 <= m < needle.len() ==> same_folded(#[trigger] w[m], needle[m]),
    ensures
        out.contains(s.event_out(s.events[p])),
{
    let f = EventSearchView { artist: None, city: Some(needle), date_from: None, date_to: None };
    let n = s.events.len() as int;
    let sel = select_positions(n, s.keep_found_events(f));
    law_like_finds_substring(a, w, b, needle);
    assert(s.has_artist_of(s.events[p]));
    assert(s.keep_found_events(f)(p));
    lemma_select_members(n, s.keep_found_events(f));
    assert(is_selected(sel, p));
    let k = choose|k: int| 0 <= k < sel.len() && #[trigger] sel[k] == p;
    lemma_text_listing_members(sel, s.event_date_key(), s.event_item(), false, out);
    assert(s.event_item()(sel[k] as int) == s.event_out(s.events[p]));
}

/// The tiers listed for event `id` are exactly the stored tiers of that
/// event, whatever their count: every tier of `id` is listed with its id,
/// price and count, and every listed tier belongs to `id`.
pub proof fn law_event_tickets_are_the_event_tiers(s: HubView, id: Seq<char>, out: Seq<TicketView>)
    requires
        s.tickets.len() <= usize::MAX,
        s.event_tickets_listing(id, out),
    ensures
        forall|p: int|
            0 <= p < s.tickets.len() && (#[trigger] s.tickets[p]).event_id == id ==> exists|k: int|
                0 <= k < out.len() && out[k].ticket_id == s.tickets[p].ticket_id && out[k].price_cents
                    == s.tickets[p].price_cents && out[k].num_available
                    == s.tickets[p].num_available,
        forall|k: int|
            0 <= k < out.len() ==> (#[trigger] out[k]).event_id == id && exists|p: int|
                0 <= p < s.tickets.len() && s.tickets[p].ticket_id == out[k].ticket_id
                    && s.tickets[p].event_id == id,
{
    let n = s.tickets.len() as int;
    let keep = s.keep_event_tickets(id);
    let sel = select_positions(n, keep);
    lemma_select_members(n, keep);
    assert forall|p: int|
        0 <= p < s.tickets.len() && (#[trigger] s.tickets[p]).event_id == id implies exists|k: int|
        0 <= k < out.len() && out[k].ticket_id == s.tickets[p].ticket_id && out[k].price_cents
            == s.tickets[p].price_cents && out[k].num_available == s.tickets[p].num_available by {
        assert(keep(p));
        assert(is_selected(sel, p));
        let k = choose|k: int| 0 <= k < sel.len() && #[trigger] sel[k] == p;
        assert(out[k] == s.ticket_plain_item()(sel[k] as int));
    }
    assert forall|k: int| 0 <= k < out.len() implies (#[trigger] out[k]).event_id == id && exists|p: int|
        0 <= p < s.tickets.len() && s.tickets[p].ticket_id == out[k].ticket_id && s.tickets[p].event_id
            == id by {
        let p = sel[k] as int;
        assert(is_selected(sel, p));
        assert(keep(p));
        assert(out[k] == s.ticket_plain_item()(p));
    }
}

/// The artists are listed alphabetically by whole name (ASCII case
/// ignored): each listed name sorts at or before every later one, and every
/// stored artist is listed.
pub proof fn law_artists_sorted_by_whole_name(s: HubView, out: Seq<ArtistView>)
    requires
        s.artists.len() <= usize::MAX,
        s.artists_listing(out),
    ensures
        forall|i: int, j: int|
            0 <= i < j < out.len() ==> text_le(
                fold_text(#[trigger] out[i].name),
                fold_text(#[trigger] out[j].name),
            ),
        forall|p: int| 0 <= p < s.artists.len() ==> out.contains(#[trigger] s.artists[p]),
        out.len() == s.artists.len(),
{
    let n = s.artists.len() as int;
    let sel = select_positions(n, keep_all());
    let key = s.artist_name_key();
    let item = s.artist_item();
    lemma_select_members(n, keep_all());
    let order = choose|order: Seq<usize>|
        {
            &&& #[trigger] sorted_text_order(selected_text_keys(sel, key), order, false)
            &&& out.len() == sel.len()
            &&& forall|k: int| 0 <= k < out.len() ==> #[trigger] out[k] == item(sel[order[k] as int] as int)
        };
    let keys = selected_text_keys(sel, key);
    assert forall|i: int, j: int| 0 <= i < j < out.len() implies text_le(
        fold_text(#[trigger] out[i].name),
        fold_text(#[trigger] out[j].name),
    ) by {
        assert(ordered_text(keys[order[i] as int], keys[order[j] as int], false));
        assert(out[i] == s.artists[sel[order[i] as int] as int]);
        assert(out[j] == s.artists[sel[order[j] as int] as int]);
    }
    lemma_text_listing_members(sel, key, item, false, out);
    assert forall|p: int| 0 <= p < s.artists.len() implies out.contains(#[trigger] s.artists[p]) by {
        assert(is_selected(sel, p));
        let k = choose|k: int| 0 <= k < sel.len() && #[trigger] sel[k] == p;
        assert(item(sel[k] as int) == s.artists[p]);
    }
    assert(sel.len() == n) by {
        lemma_select_all_len(n);
    }
}

proof fn lemma_select_all_len(n: int)
    requires
        n >= 0,
    ensures
        select_positions(n, keep_all()).len() == n,
    decreases n,
{
    if n > 0 {
        lemma_select_all_len(n - 1);
    }
}

/// An update gives the user the username and email it asks for when no
/// other user holds them, and leaves them when another user does.
pub proof fn law_update_user_stores_free_names(
    s: HubView,
    id: Seq<char>,
    username: Option<Seq<char>>,
    email: Option<Seq<char>>,
    phone: Option<Seq<char>>,
)
    requires
        s.wf(),
        s.update_user(id, username, email, phone) is Ok,
    ensures
        ({
            let t = s.update_user(id, username, email, phone)->Ok_0;
            let p = key_pos(s.user_ids(), id);
            &&& 0 <= p < s.users.len()
            &&& (username matches Some(v) ==> t.users[p].username == if held_by_other(
                s.usernames(),
                p,
                v,
            ) {
                s.users[p].username
            } else {
                v
            })
            &&& (email matches Some(v) ==> t.users[p].email == if held_by_other(s.emails(), p, v) {
                s.users[p].email
            } else {
                v
            })
            &&& t.user_lookup(id) is Some
            &&& t.user_lookup(id)->0.username == t.users[p].username
            &&& t.user_lookup(id)->0.email == t.users[p].email
        }),
{
    let p = key_pos(s.user_ids(), id);
    lemma_key_pos_found(s.user_ids(), id);
    let s1 = s.set_username(p, username).0;
    let s2 = s1.set_email(p, email).0;
    let t = s2.set_phone(p, phone).0;
    crate::integrity::lemma_user_steps_wf(s, p, username);
    crate::integrity::lemma_user_steps_wf(s1, p, email);
    crate::integrity::lemma_user_steps_wf(s2, p, phone);
    assert(s1.emails() =~= s.emails()) by {
        if let Some(v) = username {
            if !held_by_other(s.usernames(), p, v) {
                assert(s1.users[p].email == s.users[p].email);
            }
        }
    }
    assert(t.user_ids() == s.user_ids());
    assert(s.user_ids()[p] == id);
    lemma_key_pos_at(t.user_ids(), p);
}

/// An artist update stores the genre and bio it gives and keeps the other
/// fields, as the artist's lookup shows; other artists are untouched.
pub proof fn law_update_artist_stores_given_fields(
    s: HubView,
    id: Seq<char>,
    genre: Option<Seq<char>>,
    bio: Option<Seq<char>>,
)
    requires
        s.wf(),
        s.update_artist(id, genre, bio) is Ok,
    ensures
        ({
            let t = s.update_artist(id, genre, bio)->Ok_0;
            let a = s.artist_lookup(id)->0;
            let c = t.artist_lookup(id)->0;
            &&& s.artist_lookup(id) is Some
            &&& t.artist_lookup(id) is Some
            &&& c.artist_id == id
            &&& c.name == a.name
            &&& c.genre == (if genre is Some { genre } else { a.genre })
            &&& c.bio == (if bio is Some { bio } else { a.bio })
            &&& t.artists.len() == s.artists.len()
            &&& forall|q: int|
                0 <= q < s.artists.len() && #[trigger] s.artists[q].artist_id != id ==> t.artists[q]
                    == s.artists[q]
        }),
{
    let p = key_pos(s.artist_ids(), id);
    lemma_key_pos_found(s.artist_ids(), id);
    let t = s.update_artist(id, genre, bio)->Ok_0;
    assert(t.artist_ids() =~= s.artist_ids());
    assert(s.artist_ids()[p] == id);
    lemma_key_pos_at(s.artist_ids(), p);
}

/// The text has no `%` or `_` in it.
pub open spec fn no_wildcards(v: Seq<char>) -> bool {
    forall|m: int| 0 <= m < v.len() ==> is_literal(#[trigger] v[m])
}

/// An event with artist name `name`, city `city` and date `date` meets the
/// search `f`: the name and the city contain the given texts up to ASCII
/// case, and the date lies within the given bounds, both included.
pub open spec fn search_admits(
    f: EventSearchView,
    name: Seq<char>,
    city: Seq<char>,
    date: Seq<char>,
) -> bool {
    &&& (f.artist matches Some(v) ==> contains_folded(name, v))
    &&& (f.city matches Some(v) ==> contains_folded(city, v))
    &&& (f.date_from matches Some(d) ==> text_le(d, date))
    &&& (f.date_to matches Some(d) ==> text_le(date, d))
}

/// A search whose texts hold no wildcard lists exactly the stored events
/// that meet it, each joined with its artist's name, in order of date:
/// every stored event that meets the search is listed, and every listed
/// event is a stored one that meets it.
pub proof fn law_search_lists_matching_events(s: HubView, f: EventSearchView, out: Seq<EventView>)
    requires
        s.wf(),
        s.events.len() <= usize::MAX,
        s.events_listing(f, out),
        f.artist matches Some(v) ==> no_wildcards(v),
        f.city matches Some(v) ==> no_wildcards(v),
    ensures
        forall|p: int|
            0 <= p < s.events.len() && search_admits(
                f,
                s.artist_of(s.events[p]).name,
                s.events[p].city,
                s.events[p].event_date,
            ) ==> out.contains(s.event_out(#[trigger] s.events[p])),
        forall|k: int|
            #![trigger out[k]]
            0 <= k < out.len() ==> exists|p: int|
                0 <= p < s.events.len() && #[trigger] s.event_out(s.events[p]) == out[k],
        forall|k: int|
            0 <= k < out.len() ==> (#[trigger] out[k]).artist_name is Some && search_admits(
                f,
                out[k].artist_name->Some_0,
                out[k].city,
                out[k].event_date,
            ),
        forall|i: int, j: int|
            0 <= i < j < out.len() ==> text_le(
                (#[trigger] out[i]).event_date,
                (#[trigger] out[j]).event_date,
            ),
{
    let n = s.events.len() as int;
    let keep = s.keep_found_events(f);
    let sel = select_positions(n, keep);
    let key = s.event_date_key();
    let item = s.event_item();
    lemma_select_members(n, keep);
    lemma_text_listing_members(sel, key, item, false, out);
    assert forall|p: int| 0 <= p < n implies (keep(p) <==> search_admits(
        f,
        s.artist_of(s.events[p]).name,
        s.events[p].city,
        s.events[p].event_date,
    )) by {
        assert(s.has_artist_of(s.events[p]));
        if let Some(v) = f.artist {
            law_like_is_substring_search(s.artist_of(s.events[p]).name, v);
        }
        if let Some(v) = f.city {
            law_like_is_substring_search(s.events[p].city, v);
        }
    }
    assert forall|p: int|
        0 <= p < s.events.len() && search_admits(
            f,
            s.artist_of(s.events[p]).name,
            s.events[p].city,
            s.events[p].event_date,
        ) implies out.contains(s.event_out(#[trigger] s.events[p])) by {
        assert(keep(p));
        assert(is_selected(sel, p));
        let k = choose|k: int| 0 <= k < sel.len() && #[trigger] sel[k] == p;
        assert(item(sel[k] as int) == s.event_out(s.events[p]));
    }
    let order = choose|order: Seq<usize>|
        {
            &&& #[trigger] sorted_text_order(selected_text_keys(sel, key), order, false)
            &&& out.len() == sel.len()
            &&& forall|k: int| 0 <= k < out.len() ==> #[trigger] out[k] == item(sel[order[k] as int] as int)
        };
    let keys = selected_text_keys(sel, key);
    assert forall|k: int|
        #![trigger out[k]]
        0 <= k < out.len() implies exists|p: int|
            0 <= p < s.events.len() && #[trigger] s.event_out(s.events[p]) == out[k] by {
        let p = sel[order[k] as int] as int;
        assert(s.event_out(s.events[p]) == out[k]);
    }
    assert forall|k: int| 0 <= k < out.len() implies (#[trigger] out[k]).artist_name is Some
        && search_admits(f, out[k].artist_name->Some_0, out[k].city, out[k].event_date) by {
        let p = sel[order[k] as int] as int;
        assert(is_selected(sel, p));
        assert(keep(p));
        assert(out[k] == s.event_out(s.events[p]));
    }
    assert forall|i: int, j: int| 0 <= i < j < out.len() implies text_le(
        (#[trigger] out[i]).event_date,
        (#[trigger] out[j]).event_date,
    ) by {
        assert(ordered_text(keys[order[i] as int], keys[order[j] as int], false));
        assert(out[i] == s.event_out(s.events[sel[order[i] as int] as int]));
        assert(out[j] == s.event_out(s.events[sel[order[j] as int] as int]));
    }
}

/// Tiers are listed cheapest first.
pub proof fn law_tickets_cheapest_first(s: HubView, out: Seq<TicketView>)
    requires
        s.tickets_listing(out),
    ensures
        forall|i: int, j: int|
            0 <= i < j < out.len() ==> (#[trigger] out[i]).price_cents <= (#[trigger] out[j]).price_cents,
{
    let field = |t: TicketView| t.price_cents;
    lemma_int_listing_sorted(
        select_positions(s.tickets.len() as int, s.keep_joined_tickets()),
        s.ticket_price_key(),
        s.ticket_named_item(),
        out,
        field,
    );
    assert forall|i: int, j: int| 0 <= i < j < out.len() implies (#[trigger] out[i]).price_cents
        <= (#[trigger] out[j]).price_cents by {
        assert(field(out[i]) <= field(out[j]));
    }
}

/// The events of an artist are the artist's own, listed by date.
pub proof fn law_artist_events_by_date(s: HubView, id: Seq<char>, out: Seq<EventView>)
    requires
        s.events.len() <= usize::MAX,
        s.artist_events_listing(id, out),
    ensures
        forall|k: int| 0 <= k < out.len() ==> (#[trigger] out[k]).artist_id == id,
        forall|i: int, j: int|
            0 <= i < j < out.len() ==> text_le(
                (#[trigger] out[i]).event_date,
                (#[trigger] out[j]).event_date,
            ),
{
    let n = s.events.len() as int;
    let keep = s.keep_artist_events(id);
    let sel = select_positions(n, keep);
    let field = |e: EventView| e.event_date;
    lemma_text_listing_sorted(sel, s.event_date_key(), s.event_item(), false, out, field);
    assert forall|i: int, j: int| 0 <= i < j < out.len() implies text_le(
        (#[trigger] out[i]).event_date,
        (#[trigger] out[j]).event_date,
    ) by {
        assert(ordered_text(field(out[i]), field(out[j]), false));
    }
    lemma_select_members(n, keep);
    lemma_text_listing_members(sel, s.event_date_key(), s.event_item(), false, out);
    assert forall|k: int| 0 <= k < out.len() implies (#[trigger] out[k]).artist_id == id by {
        assert(out.contains(out[k]));
        let m = choose|m: int| 0 <= m < sel.len() && #[trigger] s.event_item()(sel[m] as int) == out[k];
        assert(is_selected(sel, sel[m] as int));
    }
}

/// Orders are listed newest first by date of purchase.
pub proof fn law_orders_newest_first(s: HubView, out: Seq<OrderView>)
    requires
        s.orders_listing(out),
    ensures
        forall|i: int, j: int|
            0 <= i < j < out.len() ==> text_le(
                (#[trigger] out[j]).date_of_purchase,
                (#[trigger] out[i]).date_of_purchase,
            ),
{
    let field = |o: OrderView| o.date_of_purchase;
    lemma_text_listing_sorted(
        select_positions(s.orders.len() as int, s.keep_joined_orders()),
        s.order_date_key(),
        s.order_item(),
        true,
        out,
        field,
    );
    assert forall|i: int, j: int| 0 <= i < j < out.len() implies text_le(
        (#[trigger] out[j]).date_of_purchase,
        (#[trigger] out[i]).date_of_purchase,
    ) by {
        assert(ordered_text(field(out[i]), field(out[j]), true));
    }
}

/// A user's orders are that user's own, listed newest first by date of
/// purchase.
pub proof fn law_user_orders_newest_first(s: HubView, id: Seq<char>, out: Seq<OrderView>)
    requires
        s.orders.len() <= usize::MAX,
        s.user_orders_listing(id, out),
    ensures
        forall|k: int| 0 <= k < out.len() ==> (#[trigger] out[k]).user_id == id,
        forall|i: int, j: int|
            0 <= i < j < out.len() ==> text_le(
                (#[trigger] out[j]).date_of_purchase,
                (#[trigger] out[i]).date_of_purchase,
            ),
{
    let n = s.orders.len() as int;
    let keep = s.keep_user_orders(id);
    let sel = select_positions(n, keep);
    let field = |o: OrderView| o.date_of_purchase;
    lemma_text_listing_sorted(sel, s.order_date_key(), s.order_item(), true, out, field);
    assert forall|i: int, j: int| 0 <= i < j < out.len() implies text_le(
        (#[trigger] out[j]).date_of_purchase,
        (#[trigger] out[i]).date_of_purchase,
    ) by {
        assert(ordered_text(field(out[i]), field(out[j]), true));
    }
    lemma_select_members(n, keep);
    lemma_text_listing_members(sel, s.order_date_key(), s.order_item(), true, out);
    assert forall|k: int| 0 <= k < out.len() implies (#[trigger] out[k]).user_id == id by {
        assert(out.contains(out[k]));
        let m = choose|m: int| 0 <= m < sel.len() && #[trigger] s.order_item()(sel[m] as int) == out[k];
        assert(is_selected(sel, sel[m] as int));
    }
}

/// Users are listed newest first: a user whose creation time is a time
/// comes after no user whose creation time is a later time or not a time
/// at all.
pub proof fn law_users_newest_first(s: HubView, out: Seq<UserView>)
    requires
        s.users_listing(out),
    ensures
        forall|i: int, j: int|
            0 <= i < j < out.len() && time_of((#[trigger] out[j]).creation_time) is Some ==> time_of(
                (#[trigger] out[i]).creation_time,
            ) is Some && time_of(out[j].creation_time)->0 <= time_of(out[i].creation_time)->0,
{
    let field = |u: UserView| recency_key(u.creation_time);
    lemma_int_listing_sorted(
        select_positions(s.users.len() as int, keep_all()),
        s.user_recency_key(),
        s.user_item(),
        out,
        field,
    );
    assert forall|i: int, j: int|
        0 <= i < j < out.len() && time_of((#[trigger] out[j]).creation_time) is Some implies time_of(
            (#[trigger] out[i]).creation_time,
        ) is Some && time_of(out[j].creation_time)->0 <= time_of(out[i].creation_time)->0 by {
        assert(field(out[i]) <= field(out[j]));
        lemma_time_bound(out[j].creation_time);
        if time_of(out[i].creation_time) is Some {
            lemma_time_bound(out[i].creation_time);
        }
    }
}

/// A user update is refused, as `NothingUpdated`, exactly when the user is
/// missing, or no phone is given and each given username or email is held
/// by another user.
pub proof fn law_update_user_refused_when_nothing_changes(
    s: HubView,
    id: Seq<char>,
    username: Option<Seq<char>>,
    email: Option<Seq<char>>,
    phone: Option<Seq<char>>,
)
    requires
        s.wf(),
    ensures
        ({
            let p = key_pos(s.user_ids(), id);
            let r = s.update_user(id, username, email, phone);
            &&& r is Err <==> (!holds_key(s.user_ids(), id) || (phone is None && (username matches Some(
                v,
            ) ==> held_by_other(s.usernames(), p, v)) && (email matches Some(v) ==> held_by_other(
                s.emails(),
                p,
                v,
            ))))
            &&& r is Err ==> r == Err::<HubView, HubError>(HubError::NothingUpdated)
        }),
{
    if holds_key(s.user_ids(), id) {
        let p = key_pos(s.user_ids(), id);
        lemma_key_pos_found(s.user_ids(), id);
        let s1 = s.set_username(p, username).0;
        assert(s1.emails() =~= s.emails()) by {
            if let Some(v) = username {
                if !held_by_other(s.usernames(), p, v) {
                    assert(s1.users[p].email == s.users[p].email);
                }
            }
        }
    }
}

/// An artist update is refused, as `NothingUpdated`, exactly when the
/// artist is missing or neither genre nor bio is given.
pub proof fn law_update_artist_refused_when_nothing_given(
    s: HubView,
    id: Seq<char>,
    genre: Option<Seq<char>>,
    bio: Option<Seq<char>>,
)
    ensures
        ({
            let r = s.update_artist(id, genre, bio);
            &&& r is Err <==> (s.artist_lookup(id) is None || (genre is None && bio is None))
            &&& r is Err ==> r == Err::<HubView, HubError>(HubError::NothingUpdated)
        }),
{
}

} // verus!
