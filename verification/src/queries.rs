//! The listings and lookups that the marketplace answers.

use vstd::prelude::*;

use crate::like::like_match;
use crate::listing::{
    event_passes, keep_all, like_contains, select_positions, selected_int_keys, selected_text_keys,
    ticket_out_plain, user_out,
};
use crate::model::{
    copy_opt_text, copy_text, Artist, Event, EventRecord, EventSearch, Order, OrderRecord, Ticket,
    TicketRecord, User, UserRecord,
};
use crate::sort::{sort_by_int, sort_by_text, text_keys};
use crate::state::{opt_view, views};
use crate::tables::Tables;
use crate::time::recency_key_of;
use crate::text::{chars_of, folded_chars, text_le_exec};

verus! {

/// Whether `text` contains `needle` as `LIKE '%' || needle || '%'` decides.
pub fn like_contains_exec(text: &String, needle: &String) -> (r: bool)
    ensures
        r == like_contains(text@, needle@),
{
    let t = chars_of(text.as_str());
    let mut pattern: Vec<char> = Vec::new();
    pattern.push('%');
    let n = chars_of(needle.as_str());
    for i in 0..n.len()
        invariant
            pattern@ == seq!['%'] + n@.take(i as int),
    {
        pattern.push(n[i]);
        assert(n@.take(i + 1) =~= n@.take(i as int).push(n@[i as int]));
    }
    pattern.push('%');
    assert(n@.take(n@.len() as int) =~= n@);
    assert(pattern@ =~= seq!['%'] + needle@ + seq!['%']);
    like_match(&t, &pattern)
}

impl Tables {

    /// The user at `p`, without the password hash.
    pub fn user_out_at(&self, p: usize) -> (r: User)
        requires
            p < self@.users.len(),
        ensures
            r@ == user_out(self@.users[p as int]),
    {
        let u = &self.users[p];
        User {
            user_id: copy_text(&u.user_id),
            username: copy_text(&u.username),
            email: copy_text(&u.email),
            phone: copy_opt_text(&u.phone),
            creation_time: copy_text(&u.creation_time),
        }
    }

    /// The event at `p` joined with its artist's name.
    pub fn event_out_at(&self, p: usize) -> (r: Event)
        requires
            self@.wf(),
            p < self@.events.len(),
            self@.has_artist_of(self@.events[p as int]),
        ensures
            r@ == self@.event_out(self@.events[p as int]),
    {
        let e = &self.events[p];
        let ap = self.artist_pos(&e.artist_id).unwrap();
        Event {
            event_id: copy_text(&e.event_id),
            artist_id: copy_text(&e.artist_id),
            artist_name: Some(copy_text(&self.artists[ap].name)),
            venue_name: copy_text(&e.venue_name),
            city: copy_text(&e.city),
            state: copy_text(&e.state),
            event_date: copy_text(&e.event_date),
            capacity: e.capacity,
        }
    }

    /// Whether the event at `p` has an artist and passes the filters `f`.
    pub fn event_found(&self, p: usize, f: &EventSearch) -> (r: bool)
        requires
            self@.wf(),
            p < self@.events.len(),
        ensures
            r == (self@.has_artist_of(self@.events[p as int]) && event_passes(
                f@,
                self@.events[p as int],
                self@.artist_of(self@.events[p as int]),
            )),
    {
        let e = &self.events[p];
        let ap = match self.artist_pos(&e.artist_id) {
            None => return false,
            Some(ap) => ap,
        };
        let a = &self.artists[ap];
        if let Some(v) = &f.artist {
            if !like_contains_exec(&a.name, v) {
                return false;
            }
        }
        if let Some(v) = &f.city {
            if !like_contains_exec(&e.city, v) {
                return false;
            }
        }
        if let Some(v) = &f.date_from {
            if !text_le_exec(&chars_of(v.as_str()), &chars_of(e.event_date.as_str())) {
                return false;
            }
        }
        if let Some(v) = &f.date_to {
            if !text_le_exec(&chars_of(e.event_date.as_str()), &chars_of(v.as_str())) {
                return false;
            }
        }
        true
    }

    /// Whether the tier at `p` has an event, and that event an artist.
    pub fn ticket_joined(&self, p: usize) -> (r: bool)
        requires
            self@.wf(),
            p < self@.tickets.len(),
        ensures
            r == self@.has_event_of(self@.tickets[p as int]),
    {
        match self.event_pos(&self.tickets[p].event_id) {
            None => false,
            Some(ep) => self.artist_pos(&self.events[ep].artist_id).is_some(),
        }
    }

    /// The tier at `p` named after its event.
    pub fn ticket_named_at(&self, p: usize) -> (r: Ticket)
        requires
            self@.wf(),
            p < self@.tickets.len(),
            self@.has_event_of(self@.tickets[p as int]),
        ensures
            r@ == self@.ticket_out_named(self@.tickets[p as int]),
    {
        let t = &self.tickets[p];
        let ep = self.event_pos(&t.event_id).unwrap();
        let e = &self.events[ep];
        let ap = self.artist_pos(&e.artist_id).unwrap();
        let mut name = copy_text(&e.venue_name);
        name.append(" — ");
        name.append(self.artists[ap].name.as_str());
        Ticket {
            ticket_id: copy_text(&t.ticket_id),
            event_id: copy_text(&t.event_id),
            event_name: Some(name),
            price_cents: t.price_cents,
            num_available: t.num_available,
        }
    }

    /// The tier at `p` without an event name.
    pub fn ticket_plain_at(&self, p: usize) -> (r: Ticket)
        requires
            p < self@.tickets.len(),
        ensures
            r@ == ticket_out_plain(self@.tickets[p as int]),
    {
        let t = &self.tickets[p];
        Ticket {
            ticket_id: copy_text(&t.ticket_id),
            event_id: copy_text(&t.event_id),
            event_name: None,
            price_cents: t.price_cents,
            num_available: t.num_available,
        }
    }

    /// Whether the order at `p` has a tier, the tier an event and the event
    /// an artist.
    pub fn order_joined(&self, p: usize) -> (r: bool)
        requires
            self@.wf(),
            p < self@.orders.len(),
        ensures
            r == self@.has_ticket_of(self@.orders[p as int]),
    {
        match self.ticket_pos(&self.orders[p].ticket_id) {
            None => false,
            Some(tp) => self.ticket_joined(tp),
        }
    }

    /// The order at `p` joined with its tier, event and artist.
    pub fn order_out_at(&self, p: usize) -> (r: Order)
        requires
            self@.wf(),
            p < self@.orders.len(),
            self@.has_ticket_of(self@.orders[p as int]),
        ensures
            r@ == self@.order_out(self@.orders[p as int]),
    {
        let o = &self.orders[p];
        let tp = self.ticket_pos(&o.ticket_id).unwrap();
        let t = &self.tickets[tp];
        let ep = self.event_pos(&t.event_id).unwrap();
        let e = &self.events[ep];
        let ap = self.artist_pos(&e.artist_id).unwrap();
        Order {
            order_id: copy_text(&o.order_id),
            user_id: copy_text(&o.user_id),
            ticket_id: copy_text(&o.ticket_id),
            date_of_purchase: copy_text(&o.date_of_purchase),
            event_name: None,
            venue_name: Some(copy_text(&e.venue_name)),
            city: Some(copy_text(&e.city)),
            state: Some(copy_text(&e.state)),
            event_date: Some(copy_text(&e.event_date)),
            price_cents: Some(t.price_cents),
            artist_name: Some(copy_text(&self.artists[ap].name)),
        }
    }

    /// All users, newest first by creation time read as a time.
    pub fn list_users(&self) -> (r: Vec<User>)
        requires
            self@.wf(),
        ensures
            self@.users_listing(views(r@)),
    {
        let ghost s = self@;
        let ghost keep = keep_all();
        let ghost key = s.user_recency_key();
        let ghost item = s.user_item();
        let n = self.users.len();
        let mut sel: Vec<usize> = Vec::new();
        let mut keys: Vec<i64> = Vec::new();
        for p in 0..n
            invariant
                s == self@,
                s.wf(),
                n == s.users.len(),
                keep == keep_all(),
                key == s.user_recency_key(),
                sel@ == select_positions(p as int, keep),
                forall|k: int| 0 <= k < sel@.len() ==> #[trigger] sel@[k] < p && keep(sel@[k] as int),
                keys@.len() == sel@.len(),
                forall|k: int| 0 <= k < sel@.len() ==> #[trigger] keys@[k] == key(sel@[k] as int),
        {
            sel.push(p);
            keys.push(recency_key_of(self.users[p].creation_time.as_str()));
        }
        let order = sort_by_int(&keys);
        proof {
            assert(keys@ =~= selected_int_keys(sel@, key));
        }
        let m = sel.len();
        let mut out: Vec<User> = Vec::new();
        for k in 0..m
            invariant
                s == self@,
                s.wf(),
                item == s.user_item(),
                keep == keep_all(),
                m == sel@.len(),
                n == s.users.len(),
                forall|j: int| 0 <= j < m ==> #[trigger] sel@[j] < n && keep(sel@[j] as int),
                order@.len() == m,
                forall|j: int| 0 <= j < m ==> #[trigger] order@[j] < m,
                out@.len() == k,
                forall|j: int| 0 <= j < k ==> (#[trigger] out@[j])@ == item(sel@[order@[j] as int] as int),
        {
            let q = sel[order[k]];
            out.push(self.user_out_at(q));
        }
        proof {
            assert forall|j: int| 0 <= j < m implies #[trigger] views(out@)[j] == item(sel@[order@[j] as int] as int) by {
                assert(views(out@)[j] == out@[j]@);
            }
        }
        out
    }

    /// All artists, alphabetically by name.
    pub fn list_artists(&self) -> (r: Vec<Artist>)
        requires
            self@.wf(),
        ensures
            self@.artists_listing(views(r@)),
    {
        let ghost s = self@;
        let ghost keep = keep_all();
        let ghost key = s.artist_name_key();
        let ghost item = s.artist_item();
        let n = self.artists.len();
        let mut sel: Vec<usize> = Vec::new();
        let mut keys: Vec<Vec<char>> = Vec::new();
        for p in 0..n
            invariant
                s == self@,
                s.wf(),
                n == s.artists.len(),
                keep == keep_all(),
                key == s.artist_name_key(),
                sel@ == select_positions(p as int, keep),
                forall|k: int| 0 <= k < sel@.len() ==> #[trigger] sel@[k] < p && keep(sel@[k] as int),
                keys@.len() == sel@.len(),
                forall|k: int| 0 <= k < sel@.len() ==> (#[trigger] keys@[k])@ == key(sel@[k] as int),
        {
            sel.push(p);
            keys.push(folded_chars(self.artists[p].name.as_str()));
        }
        let order = sort_by_text(&keys, false);
        proof {
            assert(text_keys(keys@) =~= selected_text_keys(sel@, key));
        }
        let m = sel.len();
        let mut out: Vec<Artist> = Vec::new();
        for k in 0..m
            invariant
                s == self@,
                s.wf(),
                item == s.artist_item(),
                keep == keep_all(),
                m == sel@.len(),
                n == s.artists.len(),
                forall|j: int| 0 <= j < m ==> #[trigger] sel@[j] < n && keep(sel@[j] as int),
                order@.len() == m,
                forall|j: int| 0 <= j < m ==> #[trigger] order@[j] < m,
                out@.len() == k,
                forall|j: int| 0 <= j < k ==> (#[trigger] out@[j])@ == item(sel@[order@[j] as int] as int),
        {
            let q = sel[order[k]];
            out.push(self.artists[q].copy());
        }
        proof {
            assert forall|j: int| 0 <= j < m implies #[trigger] views(out@)[j] == item(sel@[order@[j] as int] as int) by {
                assert(views(out@)[j] == out@[j]@);
            }
        }
        out
    }

    /// The events of artist `id`, by date.
    pub fn artist_events(&self, id: &String) -> (r: Vec<Event>)
        requires
            self@.wf(),
        ensures
            self@.artist_events_listing(id@, views(r@)),
    {
        let ghost s = self@;
        let ghost keep = s.keep_artist_events(id@);
        let ghost key = s.event_date_key();
        let ghost item = s.event_item();
        let n = self.events.len();
        let mut sel: Vec<usize> = Vec::new();
        let mut keys: Vec<Vec<char>> = Vec::new();
        for p in 0..n
            invariant
                s == self@,
                s.wf(),
                n == s.events.len(),
                keep == s.keep_artist_events(id@),
                key == s.event_date_key(),
                sel@ == select_positions(p as int, keep),
                forall|k: int| 0 <= k < sel@.len() ==> #[trigger] sel@[k] < p && keep(sel@[k] as int),
                keys@.len() == sel@.len(),
                forall|k: int| 0 <= k < sel@.len() ==> (#[trigger] keys@[k])@ == key(sel@[k] as int),
        {
            let cond = self.events[p].artist_id == *id && self.artist_pos(&self.events[p].artist_id).is_some();
            if cond {
                sel.push(p);
                keys.push(chars_of(self.events[p].event_date.as_str()));
            }
        }
        let order = sort_by_text(&keys, false);
        proof {
            assert(text_keys(keys@) =~= selected_text_keys(sel@, key));
        }
        let m = sel.len();
        let mut out: Vec<Event> = Vec::new();
        for k in 0..m
            invariant
                s == self@,
                s.wf(),
                item == s.event_item(),
                keep == s.keep_artist_events(id@),
                m == sel@.len(),
                n == s.events.len(),
                forall|j: int| 0 <= j < m ==> #[trigger] sel@[j] < n && keep(sel@[j] as int),
                order@.len() == m,
                forall|j: int| 0 <= j < m ==> #[trigger] order@[j] < m,
                out@.len() == k,
                forall|j: int| 0 <= j < k ==> (#[trigger] out@[j])@ == item(sel@[order@[j] as int] as int),
        {
            let q = sel[order[k]];
            out.push(self.event_out_at(q));
        }
        proof {
            assert forall|j: int| 0 <= j < m implies #[trigger] views(out@)[j] == item(sel@[order@[j] as int] as int) by {
                assert(views(out@)[j] == out@[j]@);
            }
        }
        out
    }

    /// The events that pass the filters `f`, by date.
    pub fn list_events(&self, f: &EventSearch) -> (r: Vec<Event>)
        requires
            self@.wf(),
        ensures
            self@.events_listing(f@, views(r@)),
    {
        let ghost s = self@;
        let ghost keep = s.keep_found_events(f@);
        let ghost key = s.event_date_key();
        let ghost item = s.event_item();
        let n = self.events.len();
        let mut sel: Vec<usize> = Vec::new();
        let mut keys: Vec<Vec<char>> = Vec::new();
        for p in 0..n
            invariant
                s == self@,
                s.wf(),
                n == s.events.len(),
                keep == s.keep_found_events(f@),
                key == s.event_date_key(),
                sel@ == select_positions(p as int, keep),
                forall|k: int| 0 <= k < sel@.len() ==> #[trigger] sel@[k] < p && keep(sel@[k] as int),
                keys@.len() == sel@.len(),
                forall|k: int| 0 <= k < sel@.len() ==> (#[trigger] keys@[k])@ == key(sel@[k] as int),
        {
            let cond = self.event_found(p, f);
            if cond {
                sel.push(p);
                keys.push(chars_of(self.events[p].event_date.as_str()));
            }
        }
        let order = sort_by_text(&keys, false);
        proof {
            assert(text_keys(keys@) =~= selected_text_keys(sel@, key));
        }
        let m = sel.len();
        let mut out: Vec<Event> = Vec::new();
        for k in 0..m
            invariant
                s == self@,
                s.wf(),
                item == s.event_item(),
                keep == s.keep_found_events(f@),
                m == sel@.len(),
                n == s.events.len(),
                forall|j: int| 0 <= j < m ==> #[trigger] sel@[j] < n && keep(sel@[j] as int),
                order@.len() == m,
                forall|j: int| 0 <= j < m ==> #[trigger] order@[j] < m,
                out@.len() == k,
                forall|j: int| 0 <= j < k ==> (#[trigger] out@[j])@ == item(sel@[order@[j] as int] as int),
        {
            let q = sel[order[k]];
            out.push(self.event_out_at(q));
        }
        proof {
            assert forall|j: int| 0 <= j < m implies #[trigger] views(out@)[j] == item(sel@[order@[j] as int] as int) by {
                assert(views(out@)[j] == out@[j]@);
            }
        }
        out
    }

    /// All ticket tiers, cheapest first, named after their events.
    pub fn list_tickets(&self) -> (r: Vec<Ticket>)
        requires
            self@.wf(),
        ensures
            self@.tickets_listing(views(r@)),
    {
        let ghost s = self@;
        let ghost keep = s.keep_joined_tickets();
        let ghost key = s.ticket_price_key();
        let ghost item = s.ticket_named_item();
        let n = self.tickets.len();
        let mut sel: Vec<usize> = Vec::new();
        let mut keys: Vec<i64> = Vec::new();
        for p in 0..n
            invariant
                s == self@,
                s.wf(),
                n == s.tickets.len(),
                keep == s.keep_joined_tickets(),
                key == s.ticket_price_key(),
                sel@ == select_positions(p as int, keep),
                forall|k: int| 0 <= k < sel@.len() ==> #[trigger] sel@[k] < p && keep(sel@[k] as int),
                keys@.len() == sel@.len(),
                forall|k: int| 0 <= k < sel@.len() ==> #[trigger] keys@[k] == key(sel@[k] as int),
        {
            let cond = self.ticket_joined(p);
            if cond {
                sel.push(p);
                keys.push(self.tickets[p].price_cents);
            }
        }
        let order = sort_by_int(&keys);
        proof {
            assert(keys@ =~= selected_int_keys(sel@, key));
        }
        let m = sel.len();
        let mut out: Vec<Ticket> = Vec::new();
        for k in 0..m
            invariant
                s == self@,
                s.wf(),
                item == s.ticket_named_item(),
                keep == s.keep_joined_tickets(),
                m == sel@.len(),
                n == s.tickets.len(),
                forall|j: int| 0 <= j < m ==> #[trigger] sel@[j] < n && keep(sel@[j] as int),
                order@.len() == m,
                forall|j: int| 0 <= j < m ==> #[trigger] order@[j] < m,
                out@.len() == k,
                forall|j: int| 0 <= j < k ==> (#[trigger] out@[j])@ == item(sel@[order@[j] as int] as int),
        {
            let q = sel[order[k]];
            out.push(self.ticket_named_at(q));
        }
        proof {
            assert forall|j: int| 0 <= j < m implies #[trigger] views(out@)[j] == item(sel@[order@[j] as int] as int) by {
                assert(views(out@)[j] == out@[j]@);
            }
        }
        out
    }

    /// The ticket tiers of event `id`, in stored order.
    pub fn event_tickets(&self, id: &String) -> (r: Vec<Ticket>)
        requires
            self@.wf(),
        ensures
            self@.event_tickets_listing(id@, views(r@)),
    {
        let ghost s = self@;
        let ghost keep = s.keep_event_tickets(id@);
        let ghost item = s.ticket_plain_item();
        let n = self.tickets.len();
        let mut sel: Vec<usize> = Vec::new();
        for p in 0..n
            invariant
                s == self@,
                s.wf(),
                n == s.tickets.len(),
                keep == s.keep_event_tickets(id@),
                sel@ == select_positions(p as int, keep),
                forall|k: int| 0 <= k < sel@.len() ==> #[trigger] sel@[k] < p && keep(sel@[k] as int),
        {
            let cond = self.tickets[p].event_id == *id;
            if cond {
                sel.push(p);
            }
        }
        let m = sel.len();
        let mut out: Vec<Ticket> = Vec::new();
        for k in 0..m
            invariant
                s == self@,
                s.wf(),
                item == s.ticket_plain_item(),
                keep == s.keep_event_tickets(id@),
                m == sel@.len(),
                n == s.tickets.len(),
                forall|j: int| 0 <= j < m ==> #[trigger] sel@[j] < n && keep(sel@[j] as int),
                out@.len() == k,
                forall|j: int| 0 <= j < k ==> (#[trigger] out@[j])@ == item(sel@[j] as int),
        {
            let q = sel[k];
            out.push(self.ticket_plain_at(q));
        }
        proof {
            assert forall|j: int| 0 <= j < m implies #[trigger] views(out@)[j] == item(sel@[j] as int) by {
                assert(views(out@)[j] == out@[j]@);
            }
        }
        out
    }

    /// All orders, newest first by date of purchase.
    pub fn list_orders(&self) -> (r: Vec<Order>)
        requires
            self@.wf(),
        ensures
            self@.orders_listing(views(r@)),
    {
        let ghost s = self@;
        let ghost keep = s.keep_joined_orders();
        let ghost key = s.order_date_key();
        let ghost item = s.order_item();
        let n = self.orders.len();
        let mut sel: Vec<usize> = Vec::new();
        let mut keys: Vec<Vec<char>> = Vec::new();
        for p in 0..n
            invariant
                s == self@,
                s.wf(),
                n == s.orders.len(),
                keep == s.keep_joined_orders(),
                key == s.order_date_key(),
                sel@ == select_positions(p as int, keep),
                forall|k: int| 0 <= k < sel@.len() ==> #[trigger] sel@[k] < p && keep(sel@[k] as int),
                keys@.len() == sel@.len(),
                forall|k: int| 0 <= k < sel@.len() ==> (#[trigger] keys@[k])@ == key(sel@[k] as int),
        {
            let cond = self.order_joined(p);
            if cond {
                sel.push(p);
                keys.push(chars_of(self.orders[p].date_of_purchase.as_str()));
            }
        }
        let order = sort_by_text(&keys, true);
        proof {
            assert(text_keys(keys@) =~= selected_text_keys(sel@, key));
        }
        let m = sel.len();
        let mut out: Vec<Order> = Vec::new();
        for k in 0..m
            invariant
                s == self@,
                s.wf(),
                item == s.order_item(),
                keep == s.keep_joined_orders(),
                m == sel@.len(),
                n == s.orders.len(),
                forall|j: int| 0 <= j < m ==> #[trigger] sel@[j] < n && keep(sel@[j] as int),
                order@.len() == m,
                forall|j: int| 0 <= j < m ==> #[trigger] order@[j] < m,
                out@.len() == k,
                forall|j: int| 0 <= j < k ==> (#[trigger] out@[j])@ == item(sel@[order@[j] as int] as int),
        {
            let q = sel[order[k]];
            out.push(self.order_out_at(q));
        }
        proof {
            assert forall|j: int| 0 <= j < m implies #[trigger] views(out@)[j] == item(sel@[order@[j] as int] as int) by {
                assert(views(out@)[j] == out@[j]@);
            }
        }
        out
    }

    /// The orders of user `id`, newest first by date of purchase.
    pub fn user_orders(&self, id: &String) -> (r: Vec<Order>)
        requires
            self@.wf(),
        ensures
            self@.user_orders_listing(id@, views(r@)),
    {
        let ghost s = self@;
        let ghost keep = s.keep_user_orders(id@);
        let ghost key = s.order_date_key();
        let ghost item = s.order_item();
        let n = self.orders.len();
        let mut sel: Vec<usize> = Vec::new();
        let mut keys: Vec<Vec<char>> = Vec::new();
        for p in 0..n
            invariant
                s == self@,
                s.wf(),
                n == s.orders.len(),
                keep == s.keep_user_orders(id@),
                key == s.order_date_key(),
                sel@ == select_positions(p as int, keep),
                forall|k: int| 0 <= k < sel@.len() ==> #[trigger] sel@[k] < p && keep(sel@[k] as int),
                keys@.len() == sel@.len(),
                forall|k: int| 0 <= k < sel@.len() ==> (#[trigger] keys@[k])@ == key(sel@[k] as int),
        {
            let cond = self.orders[p].user_id == *id && self.order_joined(p);
            if cond {
                sel.push(p);
                keys.push(chars_of(self.orders[p].date_of_purchase.as_str()));
            }
        }
        let order = sort_by_text(&keys, true);
        proof {
            assert(text_keys(keys@) =~= selected_text_keys(sel@, key));
        }
        let m = sel.len();
        let mut out: Vec<Order> = Vec::new();
        for k in 0..m
            invariant
                s == self@,
                s.wf(),
                item == s.order_item(),
                keep == s.keep_user_orders(id@),
                m == sel@.len(),
                n == s.orders.len(),
                forall|j: int| 0 <= j < m ==> #[trigger] sel@[j] < n && keep(sel@[j] as int),
                order@.len() == m,
                forall|j: int| 0 <= j < m ==> #[trigger] order@[j] < m,
                out@.len() == k,
                forall|j: int| 0 <= j < k ==> (#[trigger] out@[j])@ == item(sel@[order@[j] as int] as int),
        {
            let q = sel[order[k]];
            out.push(self.order_out_at(q));
        }
        proof {
            assert forall|j: int| 0 <= j < m implies #[trigger] views(out@)[j] == item(sel@[order@[j] as int] as int) by {
                assert(views(out@)[j] == out@[j]@);
            }
        }
        out
    }

    /// The user with id `id`, without the password hash.
    pub fn get_user(&self, id: &String) -> (r: Option<User>)
        requires
            self@.wf(),
        ensures
            opt_view(r) == self@.user_lookup(id@),
    {
        match self.user_pos(id) {
            None => None,
            Some(p) => Some(self.user_out_at(p)),
        }
    }

    /// The stored row of user `id`.
    pub fn user_row(&self, id: &String) -> (r: Option<UserRecord>)
        requires
            self@.wf(),
        ensures
            opt_view(r) == self@.user_row(id@),
    {
        match self.user_pos(id) {
            None => None,
            Some(p) => Some(self.users[p].copy()),
        }
    }

    /// The artist with id `id`.
    pub fn get_artist(&self, id: &String) -> (r: Option<Artist>)
        requires
            self@.wf(),
        ensures
            opt_view(r) == self@.artist_lookup(id@),
    {
        match self.artist_pos(id) {
            None => None,
            Some(p) => Some(self.artists[p].copy()),
        }
    }

    /// The event with id `id`, joined with its artist's name.
    pub fn get_event(&self, id: &String) -> (r: Option<Event>)
        requires
            self@.wf(),
        ensures
            opt_view(r) == self@.event_lookup(id@),
    {
        match self.event_pos(id) {
            None => None,
            Some(p) => {
                if self.artist_pos(&self.events[p].artist_id).is_some() {
                    Some(self.event_out_at(p))
                } else {
                    None
                }
            },
        }
    }

    /// The stored row of event `id`.
    pub fn event_row(&self, id: &String) -> (r: Option<EventRecord>)
        requires
            self@.wf(),
        ensures
            opt_view(r) == self@.event_row(id@),
    {
        match self.event_pos(id) {
            None => None,
            Some(p) => Some(self.events[p].copy()),
        }
    }

    /// The stored row of ticket tier `id`.
    pub fn ticket_row(&self, id: &String) -> (r: Option<TicketRecord>)
        requires
            self@.wf(),
        ensures
            opt_view(r) == self@.ticket_row(id@),
    {
        match self.ticket_pos(id) {
            None => None,
            Some(p) => Some(self.tickets[p].copy()),
        }
    }

    /// The stored row of order `id`.
    pub fn order_row(&self, id: &String) -> (r: Option<OrderRecord>)
        requires
            self@.wf(),
        ensures
            opt_view(r) == self@.order_row(id@),
    {
        match self.order_pos(id) {
            None => None,
            Some(p) => Some(self.orders[p].copy()),
        }
    }
}

} // verus!
