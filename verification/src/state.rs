//! The marketplace's state as mathematical tables, the integrity rules that
//! every reachable state meets, and each change of state as a function.

use vstd::prelude::*;
use crate::keys::{distinct, held_by_other, holds_key, key_pos};
use crate::model::{
    ArtistView, CheckRule, EventRecordView, HubError, OrderRecordView, TicketRecordView,
    UniqueColumn, UserRecordView,
};

verus! {

/// The views of the rows of a table.
pub open spec fn views<T: View>(s: Seq<T>) -> Seq<T::V> {
    Seq::new(s.len(), |i: int| s[i]@)
}

pub proof fn lemma_views_push<T: View>(s: Seq<T>, x: T)
    ensures
        views(s.push(x)) == views(s).push(x@),
{
    assert(views(s.push(x)) =~= views(s).push(x@));
}

pub proof fn lemma_views_remove<T: View>(s: Seq<T>, p: int)
    requires
        0 <= p < s.len(),
    ensures
        views(s.remove(p)) == views(s).remove(p),
{
    assert(views(s.remove(p)) =~= views(s).remove(p));
}

pub proof fn lemma_views_update<T: View>(s: Seq<T>, p: int, x: T)
    requires
        0 <= p < s.len(),
    ensures
        views(s.update(p, x)) == views(s).update(p, x@),
{
    assert(views(s.update(p, x)) =~= views(s).update(p, x@));
}

/// The view of an optional value.
pub open spec fn opt_view<T: View>(o: Option<T>) -> Option<T::V> {
    match o {
        Some(x) => Some(x@),
        None => None,
    }
}

/// `r` reports the outcome `expected` of a change: on success `after` is
/// the new state; on refusal `r` carries the same error and nothing changed.
pub open spec fn outcome<T>(
    r: Result<T, HubError>,
    before: HubView,
    after: HubView,
    expected: Result<HubView, HubError>,
) -> bool {
    match expected {
        Ok(s) => r is Ok && after == s,
        Err(e) => r is Err && r->Err_0 == e && after == before,
    }
}

/// All tables; each one lists its rows in the order they were stored.
pub struct HubView {
    pub users: Seq<UserRecordView>,
    pub artists: Seq<ArtistView>,
    pub events: Seq<EventRecordView>,
    pub tickets: Seq<TicketRecordView>,
    pub orders: Seq<OrderRecordView>,
}

impl HubView {
    pub open spec fn empty() -> HubView {
        HubView {
            users: Seq::empty(),
            artists: Seq::empty(),
            events: Seq::empty(),
            tickets: Seq::empty(),
            orders: Seq::empty(),
        }
    }

    // ------------------------------------------------------------ key columns
    pub open spec fn user_ids(self) -> Seq<Seq<char>> {
        Seq::new(self.users.len(), |i: int| self.users[i].user_id)
    }

    pub open spec fn usernames(self) -> Seq<Seq<char>> {
        Seq::new(self.users.len(), |i: int| self.users[i].username)
    }

    pub open spec fn emails(self) -> Seq<Seq<char>> {
        Seq::new(self.users.len(), |i: int| self.users[i].email)
    }

    pub open spec fn artist_ids(self) -> Seq<Seq<char>> {
        Seq::new(self.artists.len(), |i: int| self.artists[i].artist_id)
    }

    pub open spec fn event_ids(self) -> Seq<Seq<char>> {
        Seq::new(self.events.len(), |i: int| self.events[i].event_id)
    }

    /// The artist of each event.
    pub open spec fn event_artists(self) -> Seq<Seq<char>> {
        Seq::new(self.events.len(), |i: int| self.events[i].artist_id)
    }

    pub open spec fn ticket_ids(self) -> Seq<Seq<char>> {
        Seq::new(self.tickets.len(), |i: int| self.tickets[i].ticket_id)
    }

    /// The event of each ticket tier.
    pub open spec fn ticket_events(self) -> Seq<Seq<char>> {
        Seq::new(self.tickets.len(), |i: int| self.tickets[i].event_id)
    }

    pub open spec fn order_ids(self) -> Seq<Seq<char>> {
        Seq::new(self.orders.len(), |i: int| self.orders[i].order_id)
    }

    /// The buyer of each order.
    pub open spec fn order_users(self) -> Seq<Seq<char>> {
        Seq::new(self.orders.len(), |i: int| self.orders[i].user_id)
    }

    /// The ticket tier of each order.
    pub open spec fn order_tickets(self) -> Seq<Seq<char>> {
        Seq::new(self.orders.len(), |i: int| self.orders[i].ticket_id)
    }

    // -------------------------------------------------------- integrity rules
    pub open spec fn users_wf(self) -> bool {
        &&& distinct(self.user_ids())
        &&& distinct(self.usernames())
        &&& distinct(self.emails())
    }

    pub open spec fn artists_wf(self) -> bool {
        distinct(self.artist_ids())
    }

    /// Event ids are distinct, every event's artist exists, every capacity is
    /// positive.
    pub open spec fn events_wf(self) -> bool {
        &&& distinct(self.event_ids())
        &&& forall|i: int|
            0 <= i < self.events.len() ==> holds_key(
                self.artist_ids(),
                (#[trigger] self.events[i]).artist_id,
            ) && self.events[i].capacity > 0
    }

    /// Ticket ids are distinct, every tier's event exists, prices are
    /// positive and counts are not negative.
    pub open spec fn tickets_wf(self) -> bool {
        &&& distinct(self.ticket_ids())
        &&& forall|i: int|
            0 <= i < self.tickets.len() ==> holds_key(
                self.event_ids(),
                (#[trigger] self.tickets[i]).event_id,
            ) && self.tickets[i].price_cents > 0 && self.tickets[i].num_available >= 0
    }

    /// Order ids are distinct; every order's user and ticket tier exist.
    pub open spec fn orders_wf(self) -> bool {
        &&& distinct(self.order_ids())
        &&& forall|i: int|
            0 <= i < self.orders.len() ==> holds_key(
                self.user_ids(),
                (#[trigger] self.orders[i]).user_id,
            ) && holds_key(self.ticket_ids(), self.orders[i].ticket_id)
    }

    /// The integrity rules of the stored data.
    pub open spec fn wf(self) -> bool {
        &&& self.users_wf()
        &&& self.artists_wf()
        &&& self.events_wf()
        &&& self.tickets_wf()
        &&& self.orders_wf()
    }

    // ---------------------------------------------------------------- inserts
    /// Stores a user row, refusing a taken id, username or email (checked
    /// in that order).
    pub open spec fn insert_user(self, u: UserRecordView) -> Result<HubView, HubError> {
        if holds_key(self.user_ids(), u.user_id) {
            Err(HubError::Unique(UniqueColumn::UserId))
        } else if holds_key(self.usernames(), u.username) {
            Err(HubError::Unique(UniqueColumn::Username))
        } else if holds_key(self.emails(), u.email) {
            Err(HubError::Unique(UniqueColumn::Email))
        } else {
            Ok(HubView { users: self.users.push(u), ..self })
        }
    }

    /// Stores an artist row, refusing a taken id.
    pub open spec fn insert_artist(self, a: ArtistView) -> Result<HubView, HubError> {
        if holds_key(self.artist_ids(), a.artist_id) {
            Err(HubError::Unique(UniqueColumn::ArtistId))
        } else {
            Ok(HubView { artists: self.artists.push(a), ..self })
        }
    }

    /// Stores an event row: the capacity must be positive, the id free and
    /// the artist existing (checked in that order).
    pub open spec fn insert_event(self, e: EventRecordView) -> Result<HubView, HubError> {
        if e.capacity <= 0 {
            Err(HubError::Check(CheckRule::CapacityPositive))
        } else if holds_key(self.event_ids(), e.event_id) {
            Err(HubError::Unique(UniqueColumn::EventId))
        } else if !holds_key(self.artist_ids(), e.artist_id) {
            Err(HubError::ForeignKey)
        } else {
            Ok(HubView { events: self.events.push(e), ..self })
        }
    }

    /// Stores a ticket row: the price must be positive, the count not
    /// negative, the id free and the event existing (checked in that order).
    pub open spec fn insert_ticket(self, t: TicketRecordView) -> Result<HubView, HubError> {
        if t.price_cents <= 0 {
            Err(HubError::Check(CheckRule::PricePositive))
        } else if t.num_available < 0 {
            Err(HubError::Check(CheckRule::AvailabilityNotNegative))
        } else if holds_key(self.ticket_ids(), t.ticket_id) {
            Err(HubError::Unique(UniqueColumn::TicketId))
        } else if !holds_key(self.event_ids(), t.event_id) {
            Err(HubError::ForeignKey)
        } else {
            Ok(HubView { tickets: self.tickets.push(t), ..self })
        }
    }

    /// Stores an order row: the id must be free, the user and the ticket
    /// tier existing.
    pub open spec fn insert_order(self, o: OrderRecordView) -> Result<HubView, HubError> {
        if holds_key(self.order_ids(), o.order_id) {
            Err(HubError::Unique(UniqueColumn::OrderId))
        } else if !holds_key(self.user_ids(), o.user_id) || !holds_key(
            self.ticket_ids(),
            o.ticket_id,
        ) {
            Err(HubError::ForeignKey)
        } else {
            Ok(HubView { orders: self.orders.push(o), ..self })
        }
    }

    // ---------------------------------------------------------------- updates
    pub open spec fn with_user(self, p: int, u: UserRecordView) -> HubView {
        HubView { users: self.users.update(p, u), ..self }
    }

    pub open spec fn with_artist(self, p: int, a: ArtistView) -> HubView {
        HubView { artists: self.artists.update(p, a), ..self }
    }

    pub open spec fn with_ticket(self, p: int, t: TicketRecordView) -> HubView {
        HubView { tickets: self.tickets.update(p, t), ..self }
    }

    /// Gives the user at `p` username `v` unless another user holds it; the
    /// new state and the number of rows changed.
    pub open spec fn set_username(self, p: int, v: Option<Seq<char>>) -> (HubView, nat) {
        match v {
            None => (self, 0),
            Some(v) => if held_by_other(self.usernames(), p, v) {
                (self, 0)
            } else {
                (self.with_user(p, UserRecordView { username: v, ..self.users[p] }), 1)
            },
        }
    }

    /// Gives the user at `p` email `v` unless another user holds it; the new
    /// state and the number of rows changed.
    pub open spec fn set_email(self, p: int, v: Option<Seq<char>>) -> (HubView, nat) {
        match v {
            None => (self, 0),
            Some(v) => if held_by_other(self.emails(), p, v) {
                (self, 0)
            } else {
                (self.with_user(p, UserRecordView { email: v, ..self.users[p] }), 1)
            },
        }
    }

    /// Gives the user at `p` phone `v`; the new state and the number of rows
    /// changed.
    pub open spec fn set_phone(self, p: int, v: Option<Seq<char>>) -> (HubView, nat) {
        match v {
            None => (self, 0),
            Some(v) => (self.with_user(p, UserRecordView { phone: Some(v), ..self.users[p] }), 1),
        }
    }

    /// Applies the given user fields one after the other: username, email,
    /// phone. A username or email held by another user is skipped. Refused
    /// when no row changed.
    pub open spec fn update_user(
        self,
        id: Seq<char>,
        username: Option<Seq<char>>,
        email: Option<Seq<char>>,
        phone: Option<Seq<char>>,
    ) -> Result<HubView, HubError> {
        if !holds_key(self.user_ids(), id) {
            Err(HubError::NothingUpdated)
        } else {
            let p = key_pos(self.user_ids(), id);
            let (s1, n1) = self.set_username(p, username);
            let (s2, n2) = s1.set_email(p, email);
            let (s3, n3) = s2.set_phone(p, phone);
            if n1 + n2 + n3 == 0 {
                Err(HubError::NothingUpdated)
            } else {
                Ok(s3)
            }
        }
    }

    /// Applies the given artist fields; refused when no field is given or
    /// the artist does not exist.
    pub open spec fn update_artist(
        self,
        id: Seq<char>,
        genre: Option<Seq<char>>,
        bio: Option<Seq<char>>,
    ) -> Result<HubView, HubError> {
        if !holds_key(self.artist_ids(), id) || (genre is None && bio is None) {
            Err(HubError::NothingUpdated)
        } else {
            let p = key_pos(self.artist_ids(), id);
            let a = self.artists[p];
            let a1 = match genre {
                Some(g) => ArtistView { genre: Some(g), ..a },
                None => a,
            };
            let a2 = match bio {
                Some(b) => ArtistView { bio: Some(b), ..a1 },
                None => a1,
            };
            Ok(self.with_artist(p, a2))
        }
    }

    // ---------------------------------------------------------------- deletes
    /// Removes a user that no order refers to.
    pub open spec fn delete_user(self, id: Seq<char>) -> Result<HubView, HubError> {
        if holds_key(self.user_ids(), id) && !holds_key(self.order_users(), id) {
            Ok(HubView { users: self.users.remove(key_pos(self.user_ids(), id)), ..self })
        } else {
            Err(HubError::UserNotFound)
        }
    }

    /// Removes an artist that no event refers to.
    pub open spec fn delete_artist(self, id: Seq<char>) -> Result<HubView, HubError> {
        if holds_key(self.artist_ids(), id) && !holds_key(self.event_artists(), id) {
            Ok(HubView { artists: self.artists.remove(key_pos(self.artist_ids(), id)), ..self })
        } else {
            Err(HubError::ArtistNotFound)
        }
    }

    /// Removes an event that no ticket tier refers to.
    pub open spec fn delete_event(self, id: Seq<char>) -> Result<HubView, HubError> {
        if holds_key(self.event_ids(), id) && !holds_key(self.ticket_events(), id) {
            Ok(HubView { events: self.events.remove(key_pos(self.event_ids(), id)), ..self })
        } else {
            Err(HubError::EventNotFound)
        }
    }

    // ------------------------------------------------------ tickets and orders
    /// Adds a ticket tier: the price and the count must both be positive.
    pub open spec fn add_ticket(self, t: TicketRecordView) -> Result<HubView, HubError> {
        if t.price_cents <= 0 {
            Err(HubError::PriceNotPositive)
        } else if t.num_available <= 0 {
            Err(HubError::AvailabilityNotPositive)
        } else {
            self.insert_ticket(t)
        }
    }

    /// Records that `user_id` bought one ticket of tier `ticket_id`: the tier
    /// must exist and have tickets left; the order row is stored and the
    /// tier's count goes down by one.
    pub open spec fn place_order(
        self,
        order_id: Seq<char>,
        user_id: Seq<char>,
        ticket_id: Seq<char>,
        now: Seq<char>,
    ) -> Result<HubView, HubError> {
        if !holds_key(self.ticket_ids(), ticket_id) {
            Err(HubError::TicketNotFound)
        } else {
            let tp = key_pos(self.ticket_ids(), ticket_id);
            let t = self.tickets[tp];
            if t.num_available <= 0 {
                Err(HubError::NoTicketsAvailable)
            } else {
                let o = OrderRecordView { order_id, user_id, ticket_id, date_of_purchase: now };
                match self.insert_order(o) {
                    Err(e) => Err(e),
                    Ok(s1) => Ok(
                        s1.with_ticket(
                            tp,
                            TicketRecordView { num_available: (t.num_available - 1) as i64, ..t },
                        ),
                    ),
                }
            }
        }
    }

    /// Removes an order and gives its ticket back to the tier (a tier whose
    /// count is already the largest `i64` keeps it).
    pub open spec fn cancel_order(self, order_id: Seq<char>) -> Result<HubView, HubError> {
        if !holds_key(self.order_ids(), order_id) {
            Err(HubError::OrderNotFound)
        } else {
            let op = key_pos(self.order_ids(), order_id);
            let o = self.orders[op];
            let s1 = HubView { orders: self.orders.remove(op), ..self };
            if holds_key(self.ticket_ids(), o.ticket_id) {
                let tp = key_pos(self.ticket_ids(), o.ticket_id);
                let t = self.tickets[tp];
                if t.num_available < i64::MAX {
                    Ok(
                        s1.with_ticket(
                            tp,
                            TicketRecordView { num_available: (t.num_available + 1) as i64, ..t },
                        ),
                    )
                } else {
                    Ok(s1)
                }
            } else {
                Ok(s1)
            }
        }
    }

    // --------------------------------------------------------------- seeding
    /// Stores an artist row unless a rule refuses it, as `INSERT OR IGNORE`
    /// does.
    pub open spec fn insert_artist_or_ignore(self, a: ArtistView) -> HubView {
        match self.insert_artist(a) {
            Ok(t) => t,
            Err(_) => self,
        }
    }

    /// Stores an event row unless a rule other than the artist reference
    /// refuses it; a missing artist is an error, as with `INSERT OR IGNORE`.
    pub open spec fn insert_event_or_ignore(self, e: EventRecordView) -> Result<HubView, HubError> {
        match self.insert_event(e) {
            Ok(t) => Ok(t),
            Err(HubError::ForeignKey) => Err(HubError::ForeignKey),
            Err(_) => Ok(self),
        }
    }

    /// Stores a ticket row unless a rule other than the event reference
    /// refuses it; a missing event is an error, as with `INSERT OR IGNORE`.
    pub open spec fn insert_ticket_or_ignore(self, t: TicketRecordView) -> Result<HubView, HubError> {
        match self.insert_ticket(t) {
            Ok(u) => Ok(u),
            Err(HubError::ForeignKey) => Err(HubError::ForeignKey),
            Err(_) => Ok(self),
        }
    }

    /// Stores a user row unless a key is taken.
    pub open spec fn insert_user_or_ignore(self, u: UserRecordView) -> HubView {
        match self.insert_user(u) {
            Ok(t) => t,
            Err(_) => self,
        }
    }
}

/// Stores the artist rows one after the other, skipping refused ones.
pub open spec fn seed_artists(s: HubView, rows: Seq<ArtistView>) -> HubView
    decreases rows.len(),
{
    if rows.len() == 0 {
        s
    } else {
        seed_artists(s, rows.drop_last()).insert_artist_or_ignore(rows.last())
    }
}

/// Stores the event rows one after the other, skipping refused ones and
/// stopping at the first missing artist: the state reached and that error.
pub open spec fn seed_events(s: HubView, rows: Seq<EventRecordView>) -> (HubView, Option<HubError>)
    decreases rows.len(),
{
    if rows.len() == 0 {
        (s, None)
    } else {
        let (t, e) = seed_events(s, rows.drop_last());
        if e is Some {
            (t, e)
        } else {
            match t.insert_event_or_ignore(rows.last()) {
                Ok(u) => (u, None),
                Err(x) => (t, Some(x)),
            }
        }
    }
}

/// Stores the ticket rows one after the other, skipping refused ones and
/// stopping at the first missing event: the state reached and that error.
pub open spec fn seed_tickets(s: HubView, rows: Seq<TicketRecordView>) -> (HubView, Option<HubError>)
    decreases rows.len(),
{
    if rows.len() == 0 {
        (s, None)
    } else {
        let (t, e) = seed_tickets(s, rows.drop_last());
        if e is Some {
            (t, e)
        } else {
            match t.insert_ticket_or_ignore(rows.last()) {
                Ok(u) => (u, None),
                Err(x) => (t, Some(x)),
            }
        }
    }
}

/// Fills a state that has no artists yet with the given artists, events,
/// tickets and demo user; a state with artists is left as it is. The state
/// reached and the error that stopped the filling, if any.
pub open spec fn seeded(
    s: HubView,
    artists: Seq<ArtistView>,
    events: Seq<EventRecordView>,
    tickets: Seq<TicketRecordView>,
    demo: UserRecordView,
) -> (HubView, Option<HubError>) {
    if s.artists.len() > 0 {
        (s, None)
    } else {
        let s1 = seed_artists(s, artists);
        let (s2, e2) = seed_events(s1, events);
        if e2 is Some {
            (s2, e2)
        } else {
            let (s3, e3) = seed_tickets(s2, tickets);
            if e3 is Some {
                (s3, e3)
            } else {
                (s3.insert_user_or_ignore(demo), None)
            }
        }
    }
}

/// Once the event rows stop at an error, the rows after it change nothing.
pub proof fn lemma_seed_events_stops(s: HubView, rows: Seq<EventRecordView>, i: int)
    requires
        0 <= i <= rows.len(),
        seed_events(s, rows.take(i)).1 is Some,
    ensures
        seed_events(s, rows) == seed_events(s, rows.take(i)),
    decreases rows.len() - i,
{
    if i < rows.len() {
        assert(rows.take(i + 1).drop_last() =~= rows.take(i));
        lemma_seed_events_stops(s, rows, i + 1);
    } else {
        assert(rows.take(i) =~= rows);
    }
}

/// Once the ticket rows stop at an error, the rows after it change nothing.
pub proof fn lemma_seed_tickets_stops(s: HubView, rows: Seq<TicketRecordView>, i: int)
    requires
        0 <= i <= rows.len(),
        seed_tickets(s, rows.take(i)).1 is Some,
    ensures
        seed_tickets(s, rows) == seed_tickets(s, rows.take(i)),
    decreases rows.len() - i,
{
    if i < rows.len() {
        assert(rows.take(i + 1).drop_last() =~= rows.take(i));
        lemma_seed_tickets_stops(s, rows, i + 1);
    } else {
        assert(rows.take(i) =~= rows);
    }
}

} // verus!
