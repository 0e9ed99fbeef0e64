//! The stored tables and the changes made to them. Every operation here
//! assumes the integrity rules and keeps them.

use vstd::prelude::*;
use crate::keys::{held_by_other, holds_key, key_pos, lemma_key_pos_at};
use crate::model::{
    opt_text, Artist, CheckRule, EventRecord, HubError, OrderRecord, TicketRecord, UniqueColumn,
    UserRecord,
};
use crate::state::{
    lemma_seed_events_stops, lemma_seed_tickets_stops, lemma_views_push, lemma_views_remove,
    lemma_views_update, outcome, seed_artists, seed_events, seed_tickets, views, HubView,
};
use crate::integrity::{
    lemma_cancel_order_wf, lemma_delete_artist_wf, lemma_delete_event_wf, lemma_delete_user_wf,
    lemma_insert_artist_wf, lemma_insert_event_wf, lemma_insert_order_wf, lemma_insert_ticket_wf,
    lemma_insert_user_wf, lemma_place_order_wf, lemma_update_artist_wf, lemma_user_steps_wf,
};

verus! {

/// The rows of each table, in the order they were stored.
pub struct Tables {
    pub users: Vec<UserRecord>,
    pub artists: Vec<Artist>,
    pub events: Vec<EventRecord>,
    pub tickets: Vec<TicketRecord>,
    pub orders: Vec<OrderRecord>,
}

impl View for Tables {
    type V = HubView;

    open spec fn view(&self) -> HubView {
        HubView {
            users: views(self.users@),
            artists: views(self.artists@),
            events: views(self.events@),
            tickets: views(self.tickets@),
            orders: views(self.orders@),
        }
    }
}

impl Tables {
    pub fn empty() -> (r: Tables)
        ensures
            r@ == HubView::empty(),
            r@.wf(),
    {
        let r = Tables {
            users: Vec::new(),
            artists: Vec::new(),
            events: Vec::new(),
            tickets: Vec::new(),
            orders: Vec::new(),
        };
        assert(r@.users =~= Seq::empty());
        assert(r@.artists =~= Seq::empty());
        assert(r@.events =~= Seq::empty());
        assert(r@.tickets =~= Seq::empty());
        assert(r@.orders =~= Seq::empty());
        r
    }

    // ---------------------------------------------------------------- lookups
    /// The position of the user with id `id`.
    pub fn user_pos(&self, id: &String) -> (r: Option<usize>)
        requires
            self@.wf(),
        ensures
            r is Some <==> holds_key(self@.user_ids(), id@),
            r is Some ==> r->0 == key_pos(self@.user_ids(), id@) && r->0 < self@.users.len(),
    {
        let ghost keys = self@.user_ids();
        for i in 0..self.users.len()
            invariant
                keys == self@.user_ids(),
                self@.wf(),
                forall|k: int| 0 <= k < i ==> keys[k] != id@,
        {
            if self.users[i].user_id == *id {
                proof {
                    lemma_key_pos_at(keys, i as int);
                }
                return Some(i);
            }
        }
        None
    }

    /// The position of the artist with id `id`.
    pub fn artist_pos(&self, id: &String) -> (r: Option<usize>)
        requires
            self@.wf(),
        ensures
            r is Some <==> holds_key(self@.artist_ids(), id@),
            r is Some ==> r->0 == key_pos(self@.artist_ids(), id@) && r->0 < self@.artists.len(),
    {
        let ghost keys = self@.artist_ids();
        for i in 0..self.artists.len()
            invariant
                keys == self@.artist_ids(),
                self@.wf(),
                forall|k: int| 0 <= k < i ==> keys[k] != id@,
        {
            if self.artists[i].artist_id == *id {
                proof {
                    lemma_key_pos_at(keys, i as int);
                }
                return Some(i);
            }
        }
        None
    }

    /// The position of the event with id `id`.
    pub fn event_pos(&self, id: &String) -> (r: Option<usize>)
        requires
            self@.wf(),
        ensures
            r is Some <==> holds_key(self@.event_ids(), id@),
            r is Some ==> r->0 == key_pos(self@.event_ids(), id@) && r->0 < self@.events.len(),
    {
        let ghost keys = self@.event_ids();
        for i in 0..self.events.len()
            invariant
                keys == self@.event_ids(),
                self@.wf(),
                forall|k: int| 0 <= k < i ==> keys[k] != id@,
        {
            if self.events[i].event_id == *id {
                proof {
                    lemma_key_pos_at(keys, i as int);
                }
                return Some(i);
            }
        }
        None
    }

    /// The position of the ticket tier with id `id`.
    pub fn ticket_pos(&self, id: &String) -> (r: Option<usize>)
        requires
            self@.wf(),
        ensures
            r is Some <==> holds_key(self@.ticket_ids(), id@),
            r is Some ==> r->0 == key_pos(self@.ticket_ids(), id@) && r->0 < self@.tickets.len(),
    {
        let ghost keys = self@.ticket_ids();
        for i in 0..self.tickets.len()
            invariant
                keys == self@.ticket_ids(),
                self@.wf(),
                forall|k: int| 0 <= k < i ==> keys[k] != id@,
        {
            if self.tickets[i].ticket_id == *id {
                proof {
                    lemma_key_pos_at(keys, i as int);
                }
                return Some(i);
            }
        }
        None
    }

    /// The position of the order with id `id`.
    pub fn order_pos(&self, id: &String) -> (r: Option<usize>)
        requires
            self@.wf(),
        ensures
            r is Some <==> holds_key(self@.order_ids(), id@),
            r is Some ==> r->0 == key_pos(self@.order_ids(), id@) && r->0 < self@.orders.len(),
    {
        let ghost keys = self@.order_ids();
        for i in 0..self.orders.len()
            invariant
                keys == self@.order_ids(),
                self@.wf(),
                forall|k: int| 0 <= k < i ==> keys[k] != id@,
        {
            if self.orders[i].order_id == *id {
                proof {
                    lemma_key_pos_at(keys, i as int);
                }
                return Some(i);
            }
        }
        None
    }

    /// Whether a user other than the one at `skip` has username `v`; with
    /// `skip` past the end, whether any user has it.
    pub fn username_taken(&self, skip: usize, v: &String) -> (r: bool)
        ensures
            r == held_by_other(self@.usernames(), skip as int, v@),
    {
        let ghost keys = self@.usernames();
        for i in 0..self.users.len()
            invariant
                keys == self@.usernames(),
                forall|k: int| 0 <= k < i && k != skip ==> keys[k] != v@,
        {
            if i != skip && self.users[i].username == *v {
                assert(keys[i as int] == v@);
                return true;
            }
        }
        false
    }

    /// Whether a user other than the one at `skip` has email `v`; with `skip`
    /// past the end, whether any user has it.
    pub fn email_taken(&self, skip: usize, v: &String) -> (r: bool)
        ensures
            r == held_by_other(self@.emails(), skip as int, v@),
    {
        let ghost keys = self@.emails();
        for i in 0..self.users.len()
            invariant
                keys == self@.emails(),
                forall|k: int| 0 <= k < i && k != skip ==> keys[k] != v@,
        {
            if i != skip && self.users[i].email == *v {
                assert(keys[i as int] == v@);
                return true;
            }
        }
        false
    }

    /// Whether some order was placed by user `id`.
    pub fn user_has_orders(&self, id: &String) -> (r: bool)
        ensures
            r == holds_key(self@.order_users(), id@),
    {
        let ghost keys = self@.order_users();
        for i in 0..self.orders.len()
            invariant
                keys == self@.order_users(),
                forall|k: int| 0 <= k < i ==> keys[k] != id@,
        {
            if self.orders[i].user_id == *id {
                assert(keys[i as int] == id@);
                return true;
            }
        }
        false
    }

    /// Whether some event belongs to artist `id`.
    pub fn artist_has_events(&self, id: &String) -> (r: bool)
        ensures
            r == holds_key(self@.event_artists(), id@),
    {
        let ghost keys = self@.event_artists();
        for i in 0..self.events.len()
            invariant
                keys == self@.event_artists(),
                forall|k: int| 0 <= k < i ==> keys[k] != id@,
        {
            if self.events[i].artist_id == *id {
                assert(keys[i as int] == id@);
                return true;
            }
        }
        false
    }

    /// Whether some ticket tier belongs to event `id`.
    pub fn event_has_tickets(&self, id: &String) -> (r: bool)
        ensures
            r == holds_key(self@.ticket_events(), id@),
    {
        let ghost keys = self@.ticket_events();
        for i in 0..self.tickets.len()
            invariant
                keys == self@.ticket_events(),
                forall|k: int| 0 <= k < i ==> keys[k] != id@,
        {
            if self.tickets[i].event_id == *id {
                assert(keys[i as int] == id@);
                return true;
            }
        }
        false
    }

    // ---------------------------------------------------------------- inserts
    /// Stores a user row; see `HubView::insert_user`.
    pub fn insert_user(&mut self, u: UserRecord) -> (r: Result<(), HubError>)
        requires
            old(self)@.wf(),
        ensures
            outcome(r, old(self)@, final(self)@, old(self)@.insert_user(u@)),
            final(self)@.wf(),
    {
        if self.user_pos(&u.user_id).is_some() {
            return Err(HubError::Unique(UniqueColumn::UserId));
        }
        let n = self.users.len();
        if self.username_taken(n, &u.username) {
            return Err(HubError::Unique(UniqueColumn::Username));
        }
        if self.email_taken(n, &u.email) {
            return Err(HubError::Unique(UniqueColumn::Email));
        }
        let ghost uv = u@;
        proof {
            lemma_views_push(self.users@, u);
            lemma_insert_user_wf(self@, uv);
        }
        self.users.push(u);
        Ok(())
    }

    /// Stores an artist row; see `HubView::insert_artist`.
    pub fn insert_artist(&mut self, a: Artist) -> (r: Result<(), HubError>)
        requires
            old(self)@.wf(),
        ensures
            outcome(r, old(self)@, final(self)@, old(self)@.insert_artist(a@)),
            final(self)@.wf(),
    {
        if self.artist_pos(&a.artist_id).is_some() {
            return Err(HubError::Unique(UniqueColumn::ArtistId));
        }
        proof {
            lemma_views_push(self.artists@, a);
            lemma_insert_artist_wf(self@, a@);
        }
        self.artists.push(a);
        Ok(())
    }

    /// Stores an event row; see `HubView::insert_event`.
    pub fn insert_event(&mut self, e: EventRecord) -> (r: Result<(), HubError>)
        requires
            old(self)@.wf(),
        ensures
            outcome(r, old(self)@, final(self)@, old(self)@.insert_event(e@)),
            final(self)@.wf(),
    {
        if e.capacity <= 0 {
            return Err(HubError::Check(CheckRule::CapacityPositive));
        }
        if self.event_pos(&e.event_id).is_some() {
            return Err(HubError::Unique(UniqueColumn::EventId));
        }
        if self.artist_pos(&e.artist_id).is_none() {
            return Err(HubError::ForeignKey);
        }
        proof {
            lemma_views_push(self.events@, e);
            lemma_insert_event_wf(self@, e@);
        }
        self.events.push(e);
        Ok(())
    }

    /// Stores a ticket row; see `HubView::insert_ticket`.
    pub fn insert_ticket(&mut self, t: TicketRecord) -> (r: Result<(), HubError>)
        requires
            old(self)@.wf(),
        ensures
            outcome(r, old(self)@, final(self)@, old(self)@.insert_ticket(t@)),
            final(self)@.wf(),
    {
        if t.price_cents <= 0 {
            return Err(HubError::Check(CheckRule::PricePositive));
        }
        if t.num_available < 0 {
            return Err(HubError::Check(CheckRule::AvailabilityNotNegative));
        }
        if self.ticket_pos(&t.ticket_id).is_some() {
            return Err(HubError::Unique(UniqueColumn::TicketId));
        }
        if self.event_pos(&t.event_id).is_none() {
            return Err(HubError::ForeignKey);
        }
        proof {
            lemma_views_push(self.tickets@, t);
            lemma_insert_ticket_wf(self@, t@);
        }
        self.tickets.push(t);
        Ok(())
    }

    /// Stores an order row; see `HubView::insert_order`.
    pub fn insert_order(&mut self, o: OrderRecord) -> (r: Result<(), HubError>)
        requires
            old(self)@.wf(),
        ensures
            outcome(r, old(self)@, final(self)@, old(self)@.insert_order(o@)),
            final(self)@.wf(),
    {
        if self.order_pos(&o.order_id).is_some() {
            return Err(HubError::Unique(UniqueColumn::OrderId));
        }
        if self.user_pos(&o.user_id).is_none() || self.ticket_pos(&o.ticket_id).is_none() {
            return Err(HubError::ForeignKey);
        }
        proof {
            lemma_views_push(self.orders@, o);
            lemma_insert_order_wf(self@, o@);
        }
        self.orders.push(o);
        Ok(())
    }

    // ---------------------------------------------------------------- updates
    /// Applies the given user fields; see `HubView::update_user`.
    pub fn update_user(
        &mut self,
        id: &String,
        username: Option<String>,
        email: Option<String>,
        phone: Option<String>,
    ) -> (r: Result<(), HubError>)
        requires
            old(self)@.wf(),
        ensures
            outcome(
                r,
                old(self)@,
                final(self)@,
                old(self)@.update_user(id@, opt_text(username), opt_text(email), opt_text(phone)),
            ),
            final(self)@.wf(),
    {
        let p = match self.user_pos(id) {
            None => return Err(HubError::NothingUpdated),
            Some(p) => p,
        };
        let ghost s0 = self@;
        let mut n: usize = 0;
        proof {
            lemma_user_steps_wf(s0, p as int, opt_text(username));
        }
        if let Some(v) = username {
            if !self.username_taken(p, &v) {
                let ghost old_users = self.users@;
                self.users[p].username = v;
                proof {
                    lemma_views_update(old_users, p as int, self.users@[p as int]);
                    assert(self.users@ == old_users.update(p as int, self.users@[p as int]));
                }
                n = n + 1;
            }
        }
        assert(self@ == s0.set_username(p as int, opt_text(username)).0);
        let ghost s1 = self@;
        proof {
            lemma_user_steps_wf(s1, p as int, opt_text(email));
        }
        if let Some(v) = email {
            if !self.email_taken(p, &v) {
                let ghost old_users = self.users@;
                self.users[p].email = v;
                proof {
                    lemma_views_update(old_users, p as int, self.users@[p as int]);
                    assert(self.users@ == old_users.update(p as int, self.users@[p as int]));
                }
                n = n + 1;
            }
        }
        assert(self@ == s1.set_email(p as int, opt_text(email)).0);
        let ghost s2 = self@;
        proof {
            lemma_user_steps_wf(s2, p as int, opt_text(phone));
        }
        if let Some(v) = phone {
            let ghost old_users = self.users@;
            self.users[p].phone = Some(v);
            proof {
                lemma_views_update(old_users, p as int, self.users@[p as int]);
                assert(self.users@ == old_users.update(p as int, self.users@[p as int]));
            }
            n = n + 1;
        }
        assert(self@ == s2.set_phone(p as int, opt_text(phone)).0);
        if n == 0 {
            return Err(HubError::NothingUpdated);
        }
        Ok(())
    }

    /// Applies the given artist fields; see `HubView::update_artist`.
    pub fn update_artist(&mut self, id: &String, genre: Option<String>, bio: Option<String>) -> (r:
        Result<(), HubError>)
        requires
            old(self)@.wf(),
        ensures
            outcome(
                r,
                old(self)@,
                final(self)@,
                old(self)@.update_artist(id@, opt_text(genre), opt_text(bio)),
            ),
            final(self)@.wf(),
    {
        let p = match self.artist_pos(id) {
            None => return Err(HubError::NothingUpdated),
            Some(p) => p,
        };
        if genre.is_none() && bio.is_none() {
            return Err(HubError::NothingUpdated);
        }
        let ghost s0 = self@;
        proof {
            lemma_update_artist_wf(s0, id@, opt_text(genre), opt_text(bio));
        }
        let ghost old_artists = self.artists@;
        if let Some(g) = genre {
            self.artists[p].genre = Some(g);
        }
        if let Some(b) = bio {
            self.artists[p].bio = Some(b);
        }
        proof {
            lemma_views_update(old_artists, p as int, self.artists@[p as int]);
            assert(self.artists@ == old_artists.update(p as int, self.artists@[p as int]));
            assert(self@ == s0.update_artist(id@, opt_text(genre), opt_text(bio))->Ok_0);
        }
        Ok(())
    }

    // ---------------------------------------------------------------- deletes
    /// Removes a user; see `HubView::delete_user`.
    pub fn delete_user(&mut self, id: &String) -> (r: Result<(), HubError>)
        requires
            old(self)@.wf(),
        ensures
            outcome(r, old(self)@, final(self)@, old(self)@.delete_user(id@)),
            final(self)@.wf(),
    {
        match self.user_pos(id) {
            None => Err(HubError::UserNotFound),
            Some(p) => {
                if self.user_has_orders(id) {
                    return Err(HubError::UserNotFound);
                }
                proof {
                    lemma_views_remove(self.users@, p as int);
                    lemma_delete_user_wf(self@, id@);
                }
                self.users.remove(p);
                Ok(())
            },
        }
    }

    /// Removes an artist; see `HubView::delete_artist`.
    pub fn delete_artist(&mut self, id: &String) -> (r: Result<(), HubError>)
        requires
            old(self)@.wf(),
        ensures
            outcome(r, old(self)@, final(self)@, old(self)@.delete_artist(id@)),
            final(self)@.wf(),
    {
        match self.artist_pos(id) {
            None => Err(HubError::ArtistNotFound),
            Some(p) => {
                if self.artist_has_events(id) {
                    return Err(HubError::ArtistNotFound);
                }
                proof {
                    lemma_views_remove(self.artists@, p as int);
                    lemma_delete_artist_wf(self@, id@);
                }
                self.artists.remove(p);
                Ok(())
            },
        }
    }

    /// Removes an event; see `HubView::delete_event`.
    pub fn delete_event(&mut self, id: &String) -> (r: Result<(), HubError>)
        requires
            old(self)@.wf(),
        ensures
            outcome(r, old(self)@, final(self)@, old(self)@.delete_event(id@)),
            final(self)@.wf(),
    {
        match self.event_pos(id) {
            None => Err(HubError::EventNotFound),
            Some(p) => {
                if self.event_has_tickets(id) {
                    return Err(HubError::EventNotFound);
                }
                proof {
                    lemma_views_remove(self.events@, p as int);
                    lemma_delete_event_wf(self@, id@);
                }
                self.events.remove(p);
                Ok(())
            },
        }
    }

    // ------------------------------------------------------ tickets and orders
    /// Records a purchase; see `HubView::place_order`.
    pub fn place_order(&mut self, order_id: String, user_id: String, ticket_id: String, now: String) -> (r:
        Result<(), HubError>)
        requires
            old(self)@.wf(),
        ensures
            outcome(
                r,
                old(self)@,
                final(self)@,
                old(self)@.place_order(order_id@, user_id@, ticket_id@, now@),
            ),
            final(self)@.wf(),
    {
        let tp = match self.ticket_pos(&ticket_id) {
            None => return Err(HubError::TicketNotFound),
            Some(tp) => tp,
        };
        let avail = self.tickets[tp].num_available;
        if avail <= 0 {
            return Err(HubError::NoTicketsAvailable);
        }
        let ghost s0 = self@;
        let o = OrderRecord { order_id, user_id, ticket_id, date_of_purchase: now };
        let ghost ov = o@;
        match self.insert_order(o) {
            Err(e) => return Err(e),
            Ok(()) => {},
        }
        proof {
            lemma_place_order_wf(s0, ov.order_id, ov.user_id, ov.ticket_id, ov.date_of_purchase);
        }
        let ghost old_tickets = self.tickets@;
        self.tickets[tp].num_available = avail - 1;
        proof {
            lemma_views_update(old_tickets, tp as int, self.tickets@[tp as int]);
            assert(self.tickets@ == old_tickets.update(tp as int, self.tickets@[tp as int]));
        }
        Ok(())
    }

    /// Removes an order and gives its ticket back; see
    /// `HubView::cancel_order`.
    pub fn cancel_order(&mut self, order_id: &String) -> (r: Result<(), HubError>)
        requires
            old(self)@.wf(),
        ensures
            outcome(r, old(self)@, final(self)@, old(self)@.cancel_order(order_id@)),
            final(self)@.wf(),
    {
        let op = match self.order_pos(order_id) {
            None => return Err(HubError::OrderNotFound),
            Some(op) => op,
        };
        let ghost s0 = self@;
        proof {
            lemma_cancel_order_wf(s0, order_id@);
        }
        let tp = self.ticket_pos(&self.orders[op].ticket_id);
        proof {
            lemma_views_remove(self.orders@, op as int);
        }
        self.orders.remove(op);
        if let Some(tp) = tp {
            let avail = self.tickets[tp].num_available;
            if avail < i64::MAX {
                let ghost old_tickets = self.tickets@;
                self.tickets[tp].num_available = avail + 1;
                proof {
                    lemma_views_update(old_tickets, tp as int, self.tickets@[tp as int]);
                    assert(self.tickets@ == old_tickets.update(tp as int, self.tickets@[tp as int]));
                }
            }
        }
        Ok(())
    }

    // --------------------------------------------------------------- seeding
    /// Stores the artist rows one after the other, skipping refused ones.
    pub fn seed_artists(&mut self, rows: &Vec<Artist>)
        requires
            old(self)@.wf(),
        ensures
            final(self)@ == seed_artists(old(self)@, views(rows@)),
            final(self)@.wf(),
    {
        let ghost s0 = self@;
        let ghost rv = views(rows@);
        for i in 0..rows.len()
            invariant
                rv == views(rows@),
                self@ == seed_artists(s0, rv.take(i as int)),
                self@.wf(),
        {
            let a = rows[i].copy();
            let _ = self.insert_artist(a);
            proof {
                assert(rv.take(i + 1).drop_last() =~= rv.take(i as int));
            }
        }
        proof {
            assert(rv.take(rows@.len() as int) =~= rv);
        }
    }

    /// Stores the event rows one after the other, skipping refused ones and
    /// stopping at the first one whose artist is missing.
    pub fn seed_events(&mut self, rows: &Vec<EventRecord>) -> (r: Result<(), HubError>)
        requires
            old(self)@.wf(),
        ensures
            seed_events(old(self)@, views(rows@)) == (final(self)@, match r {
                Ok(_) => None,
                Err(e) => Some(e),
            }),
            final(self)@.wf(),
    {
        let ghost s0 = self@;
        let ghost rv = views(rows@);
        for i in 0..rows.len()
            invariant
                rv == views(rows@),
                s0 == old(self)@,
                seed_events(s0, rv.take(i as int)) == (self@, None::<HubError>),
                self@.wf(),
        {
            let e = rows[i].copy();
            let ghost vv = e@;
            let r = self.insert_event(e);
            proof {
                assert(rv.take(i + 1).drop_last() =~= rv.take(i as int));
                assert(rv.take(i + 1).last() == vv);
            }
            if let Err(HubError::ForeignKey) = r {
                proof {
                    assert(seed_events(s0, rv.take(i + 1)) == (self@, Some(HubError::ForeignKey)));
                    lemma_seed_events_stops(s0, rv, i + 1);
                }
                return Err(HubError::ForeignKey);
            }
        }
        proof {
            assert(rv.take(rows@.len() as int) =~= rv);
        }
        Ok(())
    }

    /// Stores the ticket rows one after the other, skipping refused ones and
    /// stopping at the first one whose event is missing.
    pub fn seed_tickets(&mut self, rows: &Vec<TicketRecord>) -> (r: Result<(), HubError>)
        requires
            old(self)@.wf(),
        ensures
            seed_tickets(old(self)@, views(rows@)) == (final(self)@, match r {
                Ok(_) => None,
                Err(e) => Some(e),
            }),
            final(self)@.wf(),
    {
        let ghost s0 = self@;
        let ghost rv = views(rows@);
        for i in 0..rows.len()
            invariant
                rv == views(rows@),
                s0 == old(self)@,
                seed_tickets(s0, rv.take(i as int)) == (self@, None::<HubError>),
                self@.wf(),
        {
            let t = rows[i].copy();
            let ghost vv = t@;
            let r = self.insert_ticket(t);
            proof {
                assert(rv.take(i + 1).drop_last() =~= rv.take(i as int));
                assert(rv.take(i + 1).last() == vv);
            }
            if let Err(HubError::ForeignKey) = r {
                proof {
                    assert(seed_tickets(s0, rv.take(i + 1)) == (self@, Some(HubError::ForeignKey)));
                    lemma_seed_tickets_stops(s0, rv, i + 1);
                }
                return Err(HubError::ForeignKey);
            }
        }
        proof {
            assert(rv.take(rows@.len() as int) =~= rv);
        }
        Ok(())
    }
}

} // verus!
