//! The marketplace: one value that holds every table and answers every
//! request. Its integrity rules hold of every value a caller can obtain.

use vstd::prelude::*;
use vstd::string::StringExecFns;
use crate::ids::{bcrypt_salted_text, hash_password, is_bcrypt_text, is_uuid_v4_text, new_id};
use crate::model::{
    copy_text, opt_text, Artist, ArtistView, CreateArtist, CreateEvent, CreateOrder, CreateTicket,
    CreateUser, Event, EventRecord, EventRecordView, EventSearch, HubError, Order, OrderRecord,
    Ticket, TicketRecord, TicketRecordView, UpdateArtist, UpdateUser, User, UserRecord,
    UserRecordView,
};
use crate::seed::{
    catalog_artist_rows, catalog_artists, catalog_event_rows, catalog_events, catalog_ticket_rows,
    catalog_tickets, demo_user, demo_user_row,
};
use crate::state::{opt_view, outcome, seeded, views, HubView};
use crate::tables::Tables;

verus! {

/// The marketplace's tables, which always meet the integrity rules.
pub struct TicketHub {
    db: Tables,
}

impl View for TicketHub {
    type V = HubView;

    /// The state of the tables.
    closed spec fn view(&self) -> HubView {
        self.db@
    }
}

impl TicketHub {
    #[verifier::type_invariant]
    spec fn inv(self) -> bool {
        self.db@.wf()
    }

    /// A marketplace with no rows.
    pub fn new() -> (r: TicketHub)
        ensures
            r@ == HubView::empty(),
            r@.wf(),
    {
        TicketHub { db: Tables::empty() }
    }

    /// Moves the tables out, leaving empty ones in their place.
    fn take(&mut self) -> (r: Tables)
        ensures
            r@ == old(self)@,
            r@.wf(),
    {
        proof {
            use_type_invariant(&*self);
        }
        let mut db = Tables::empty();
        std::mem::swap(&mut db, &mut self.db);
        db
    }

    /// Puts tables back.
    fn put(&mut self, db: Tables)
        requires
            db@.wf(),
        ensures
            final(self)@ == db@,
    {
        self.db = db;
    }

    /// Stores a user row as it is, refusing a taken id, username or email.
    pub fn insert_user(&mut self, row: UserRecord) -> (r: Result<(), HubError>)
        ensures
            outcome(r, old(self)@, final(self)@, old(self)@.insert_user(row@)),
            final(self)@.wf(),
    {
        let mut db = self.take();
        let r = db.insert_user(row);
        self.put(db);
        r
    }

    /// Stores an artist row as it is, refusing a taken id.
    pub fn insert_artist(&mut self, row: Artist) -> (r: Result<(), HubError>)
        ensures
            outcome(r, old(self)@, final(self)@, old(self)@.insert_artist(row@)),
            final(self)@.wf(),
    {
        let mut db = self.take();
        let r = db.insert_artist(row);
        self.put(db);
        r
    }

    /// Stores an event row as it is; see `HubView::insert_event`.
    pub fn insert_event(&mut self, row: EventRecord) -> (r: Result<(), HubError>)
        ensures
            outcome(r, old(self)@, final(self)@, old(self)@.insert_event(row@)),
            final(self)@.wf(),
    {
        let mut db = self.take();
        let r = db.insert_event(row);
        self.put(db);
        r
    }

    /// Stores a ticket row as it is; see `HubView::insert_ticket`.
    pub fn insert_ticket(&mut self, row: TicketRecord) -> (r: Result<(), HubError>)
        ensures
            outcome(r, old(self)@, final(self)@, old(self)@.insert_ticket(row@)),
            final(self)@.wf(),
    {
        let mut db = self.take();
        let r = db.insert_ticket(row);
        self.put(db);
        r
    }

    /// Stores an order row as it is; see `HubView::insert_order`. The ticket
    /// counts are left as they are.
    pub fn insert_order(&mut self, row: OrderRecord) -> (r: Result<(), HubError>)
        ensures
            outcome(r, old(self)@, final(self)@, old(self)@.insert_order(row@)),
            final(self)@.wf(),
    {
        let mut db = self.take();
        let r = db.insert_order(row);
        self.put(db);
        r
    }

    /// Registers a user with a fresh id and a bcrypt hash of the password,
    /// created at `now`; answers the new id.
    pub fn create_user(&mut self, req: CreateUser, now: String) -> (r: Result<String, HubError>)
        ensures
            final(self)@.wf(),
            r matches Err(HubError::HashFailed) ==> final(self)@ == old(self)@,
            !(r matches Err(HubError::HashFailed)) ==> exists|id: Seq<char>, hash: Seq<char>|
                {
                    &&& is_uuid_v4_text(id)
                    &&& is_bcrypt_text(hash)
                    &&& exists|salt: Seq<u8>|
                        salt.len() == 16 && hash == #[trigger] bcrypt_salted_text(req.password@, salt)
                    &&& (r is Ok ==> r->Ok_0@ == id)
                    &&& outcome(
                        r,
                        old(self)@,
                        final(self)@,
                        old(self)@.insert_user(
                            UserRecordView {
                                user_id: id,
                                username: req.username@,
                                email: req.email@,
                                password_hash: hash,
                                phone: opt_text(req.phone),
                                creation_time: now@,
                            },
                        ),
                    )
                },
    {
        proof {
            use_type_invariant(&*self);
        }
        let id = new_id();
        let hash = match hash_password(&req.password) {
            Ok(h) => h,
            Err(_) => return Err(HubError::HashFailed),
        };
        let row = UserRecord {
            user_id: copy_text(&id),
            username: req.username,
            email: req.email,
            password_hash: hash,
            phone: req.phone,
            creation_time: now,
        };
        match self.insert_user(row) {
            Ok(()) => Ok(id),
            Err(e) => Err(e),
        }
    }

    /// Applies whichever of username, email and phone are given, in that
    /// order; a username or email that another user holds is skipped.
    /// Refused with `NothingUpdated` when no field changed.
    pub fn update_user(&mut self, id: &String, req: UpdateUser) -> (r: Result<(), HubError>)
        ensures
            outcome(
                r,
                old(self)@,
                final(self)@,
                old(self)@.update_user(
                    id@,
                    opt_text(req.username),
                    opt_text(req.email),
                    opt_text(req.phone),
                ),
            ),
            final(self)@.wf(),
    {
        let mut db = self.take();
        let r = db.update_user(id, req.username, req.email, req.phone);
        self.put(db);
        r
    }

    /// Removes a user. Refused with `UserNotFound` when there is no such
    /// user or an order refers to it.
    pub fn delete_user(&mut self, id: &String) -> (r: Result<(), HubError>)
        ensures
            outcome(r, old(self)@, final(self)@, old(self)@.delete_user(id@)),
            final(self)@.wf(),
    {
        let mut db = self.take();
        let r = db.delete_user(id);
        self.put(db);
        r
    }

    /// Adds an artist with a fresh id; answers the new id.
    pub fn create_artist(&mut self, req: CreateArtist) -> (r: Result<String, HubError>)
        ensures
            final(self)@.wf(),
            exists|id: Seq<char>|
                {
                    &&& is_uuid_v4_text(id)
                    &&& (r is Ok ==> r->Ok_0@ == id)
                    &&& outcome(
                        r,
                        old(self)@,
                        final(self)@,
                        old(self)@.insert_artist(
                            ArtistView {
                                artist_id: id,
                                name: req.name@,
                                genre: opt_text(req.genre),
                                bio: opt_text(req.bio),
                            },
                        ),
                    )
                },
    {
        let id = new_id();
        let row = Artist { artist_id: copy_text(&id), name: req.name, genre: req.genre, bio: req.bio };
        match self.insert_artist(row) {
            Ok(()) => Ok(id),
            Err(e) => Err(e),
        }
    }

    /// Sets whichever of genre and bio are given. Refused with
    /// `NothingUpdated` when neither is given or there is no such artist.
    pub fn update_artist(&mut self, id: &String, req: UpdateArtist) -> (r: Result<(), HubError>)
        ensures
            outcome(
                r,
                old(self)@,
                final(self)@,
                old(self)@.update_artist(id@, opt_text(req.genre), opt_text(req.bio)),
            ),
            final(self)@.wf(),
    {
        let mut db = self.take();
        let r = db.update_artist(id, req.genre, req.bio);
        self.put(db);
        r
    }

    /// Removes an artist. Refused with `ArtistNotFound` when there is no
    /// such artist or an event refers to it.
    pub fn delete_artist(&mut self, id: &String) -> (r: Result<(), HubError>)
        ensures
            outcome(r, old(self)@, final(self)@, old(self)@.delete_artist(id@)),
            final(self)@.wf(),
    {
        let mut db = self.take();
        let r = db.delete_artist(id);
        self.put(db);
        r
    }

    /// Adds an event with a fresh id; answers the new id. See
    /// `HubView::insert_event` for the refusals.
    pub fn create_event(&mut self, req: CreateEvent) -> (r: Result<String, HubError>)
        ensures
            final(self)@.wf(),
            exists|id: Seq<char>|
                {
                    &&& is_uuid_v4_text(id)
                    &&& (r is Ok ==> r->Ok_0@ == id)
                    &&& outcome(
                        r,
                        old(self)@,
                        final(self)@,
                        old(self)@.insert_event(
                            EventRecordView {
                                event_id: id,
                                artist_id: req.artist_id@,
                                venue_name: req.venue_name@,
                                city: req.city@,
                                state: req.state@,
                                event_date: req.event_date@,
                                capacity: req.capacity,
                            },
                        ),
                    )
                },
    {
        let id = new_id();
        let row = EventRecord {
            event_id: copy_text(&id),
            artist_id: req.artist_id,
            venue_name: req.venue_name,
            city: req.city,
            state: req.state,
            event_date: req.event_date,
            capacity: req.capacity,
        };
        match self.insert_event(row) {
            Ok(()) => Ok(id),
            Err(e) => Err(e),
        }
    }

    /// Removes an event. Refused with `EventNotFound` when there is no such
    /// event or a ticket tier refers to it.
    pub fn delete_event(&mut self, id: &String) -> (r: Result<(), HubError>)
        ensures
            outcome(r, old(self)@, final(self)@, old(self)@.delete_event(id@)),
            final(self)@.wf(),
    {
        let mut db = self.take();
        let r = db.delete_event(id);
        self.put(db);
        r
    }

    /// Adds a ticket tier with a fresh id; answers the new id. A price or a
    /// count of zero or less is refused before an id is made.
    pub fn create_ticket(&mut self, req: CreateTicket) -> (r: Result<String, HubError>)
        ensures
            final(self)@.wf(),
            req.price_cents <= 0 ==> r == Err::<String, HubError>(HubError::PriceNotPositive)
                && final(self)@ == old(self)@,
            req.price_cents > 0 && req.num_available <= 0 ==> r == Err::<String, HubError>(
                HubError::AvailabilityNotPositive,
            ) && final(self)@ == old(self)@,
            req.price_cents > 0 && req.num_available > 0 ==> exists|id: Seq<char>|
                {
                    &&& is_uuid_v4_text(id)
                    &&& (r is Ok ==> r->Ok_0@ == id)
                    &&& outcome(
                        r,
                        old(self)@,
                        final(self)@,
                        old(self)@.add_ticket(
                            TicketRecordView {
                                ticket_id: id,
                                event_id: req.event_id@,
                                price_cents: req.price_cents,
                                num_available: req.num_available,
                            },
                        ),
                    )
                },
    {
        proof {
            use_type_invariant(&*self);
        }
        if req.price_cents <= 0 {
            return Err(HubError::PriceNotPositive);
        }
        if req.num_available <= 0 {
            return Err(HubError::AvailabilityNotPositive);
        }
        let id = new_id();
        let row = TicketRecord {
            ticket_id: copy_text(&id),
            event_id: req.event_id,
            price_cents: req.price_cents,
            num_available: req.num_available,
        };
        match self.insert_ticket(row) {
            Ok(()) => Ok(id),
            Err(e) => Err(e),
        }
    }

    /// Records that the given user buys one ticket of the given tier, at
    /// `now`, under order id `order_id`; see `HubView::place_order`.
    pub fn place_order(&mut self, order_id: String, req: CreateOrder, now: String) -> (r: Result<
        (),
        HubError,
    >)
        ensures
            outcome(
                r,
                old(self)@,
                final(self)@,
                old(self)@.place_order(order_id@, req.user_id@, req.ticket_id@, now@),
            ),
            final(self)@.wf(),
    {
        let mut db = self.take();
        let r = db.place_order(order_id, req.user_id, req.ticket_id, now);
        self.put(db);
        r
    }

    /// Places an order with a fresh id at `now`; answers the order id and
    /// its date of purchase.
    pub fn create_order(&mut self, req: CreateOrder, now: String) -> (r: Result<
        (String, String),
        HubError,
    >)
        ensures
            final(self)@.wf(),
            exists|id: Seq<char>|
                {
                    &&& is_uuid_v4_text(id)
                    &&& (r is Ok ==> r->Ok_0.0@ == id && r->Ok_0.1@ == now@)
                    &&& outcome(
                        r,
                        old(self)@,
                        final(self)@,
                        old(self)@.place_order(id, req.user_id@, req.ticket_id@, now@),
                    )
                },
    {
        let id = new_id();
        let stamp = copy_text(&now);
        match self.place_order(copy_text(&id), req, now) {
            Ok(()) => Ok((id, stamp)),
            Err(e) => Err(e),
        }
    }

    /// Cancels an order and gives its ticket back to the tier; see
    /// `HubView::cancel_order`.
    pub fn delete_order(&mut self, id: &String) -> (r: Result<(), HubError>)
        ensures
            outcome(r, old(self)@, final(self)@, old(self)@.cancel_order(id@)),
            final(self)@.wf(),
    {
        let mut db = self.take();
        let r = db.cancel_order(id);
        self.put(db);
        r
    }

    /// All users, newest first by creation time read as a time (Unix
    /// seconds or `YYYY-MM-DDTHH:MM:SS`); creation times that are neither
    /// come last, ties keep stored order.
    pub fn list_users(&self) -> (r: Vec<User>)
        ensures
            self@.users_listing(views(r@)),
    {
        proof {
            use_type_invariant(self);
        }
        self.db.list_users()
    }

    /// The user with id `id`, without the password hash.
    pub fn get_user(&self, id: &String) -> (r: Option<User>)
        ensures
            opt_view(r) == self@.user_lookup(id@),
    {
        proof {
            use_type_invariant(self);
        }
        self.db.get_user(id)
    }

    /// The stored row of user `id`, password hash included.
    pub fn user_record(&self, id: &String) -> (r: Option<UserRecord>)
        ensures
            opt_view(r) == self@.user_row(id@),
    {
        proof {
            use_type_invariant(self);
        }
        self.db.user_row(id)
    }

    /// The orders of user `id` joined with their tier, event and artist, newest
    /// first by date of purchase.
    pub fn user_orders(&self, id: &String) -> (r: Vec<Order>)
        ensures
            self@.user_orders_listing(id@, views(r@)),
    {
        proof {
            use_type_invariant(self);
        }
        self.db.user_orders(id)
    }

    /// All artists, alphabetically by name (ASCII letters regardless of
    /// case); names equal up to case keep stored order.
    pub fn list_artists(&self) -> (r: Vec<Artist>)
        ensures
            self@.artists_listing(views(r@)),
    {
        proof {
            use_type_invariant(self);
        }
        self.db.list_artists()
    }

    /// The artist with id `id`.
    pub fn get_artist(&self, id: &String) -> (r: Option<Artist>)
        ensures
            opt_view(r) == self@.artist_lookup(id@),
    {
        proof {
            use_type_invariant(self);
        }
        self.db.get_artist(id)
    }

    /// The events of artist `id` with the artist's name, by date.
    pub fn artist_events(&self, id: &String) -> (r: Vec<Event>)
        ensures
            self@.artist_events_listing(id@, views(r@)),
    {
        proof {
            use_type_invariant(self);
        }
        self.db.artist_events(id)
    }

    /// The events that pass the given filters, with their artists' names, by
    /// date: the artist's name and the city contain the given texts (`%` and
    /// `_` are wildcards, ASCII case is ignored), and the date lies within the
    /// given bounds.
    pub fn list_events(&self, search: &EventSearch) -> (r: Vec<Event>)
        ensures
            self@.events_listing(search@, views(r@)),
    {
        proof {
            use_type_invariant(self);
        }
        self.db.list_events(search)
    }

    /// The event with id `id`, with its artist's name.
    pub fn get_event(&self, id: &String) -> (r: Option<Event>)
        ensures
            opt_view(r) == self@.event_lookup(id@),
    {
        proof {
            use_type_invariant(self);
        }
        self.db.get_event(id)
    }

    /// The stored row of event `id`.
    pub fn event_record(&self, id: &String) -> (r: Option<EventRecord>)
        ensures
            opt_view(r) == self@.event_row(id@),
    {
        proof {
            use_type_invariant(self);
        }
        self.db.event_row(id)
    }

    /// All ticket tiers, cheapest first, each named after its venue and artist.
    pub fn list_tickets(&self) -> (r: Vec<Ticket>)
        ensures
            self@.tickets_listing(views(r@)),
    {
        proof {
            use_type_invariant(self);
        }
        self.db.list_tickets()
    }

    /// The ticket tiers of event `id`, in stored order.
    pub fn event_tickets(&self, id: &String) -> (r: Vec<Ticket>)
        ensures
            self@.event_tickets_listing(id@, views(r@)),
    {
        proof {
            use_type_invariant(self);
        }
        self.db.event_tickets(id)
    }

    /// The stored row of ticket tier `id`.
    pub fn ticket_record(&self, id: &String) -> (r: Option<TicketRecord>)
        ensures
            opt_view(r) == self@.ticket_row(id@),
    {
        proof {
            use_type_invariant(self);
        }
        self.db.ticket_row(id)
    }

    /// All orders joined with their tier, event and artist, newest first by
    /// date of purchase.
    pub fn list_orders(&self) -> (r: Vec<Order>)
        ensures
            self@.orders_listing(views(r@)),
    {
        proof {
            use_type_invariant(self);
        }
        self.db.list_orders()
    }

    /// The stored row of order `id`.
    pub fn order_record(&self, id: &String) -> (r: Option<OrderRecord>)
        ensures
            opt_view(r) == self@.order_row(id@),
    {
        proof {
            use_type_invariant(self);
        }
        self.db.order_row(id)
    }

    /// Fills a marketplace that has no artists yet with the catalog and the
    /// demo user (password `password123`, hashed with bcrypt; an empty hash
    /// when hashing fails); rows that a rule refuses are skipped, and a row
    /// that refers to a missing row stops the filling with `ForeignKey`.
    /// A marketplace that has artists is left as it is. Answers whether it
    /// filled.
    pub fn seed(&mut self) -> (r: Result<bool, HubError>)
        ensures
            final(self)@.wf(),
            old(self)@.artists.len() > 0 ==> r == Ok::<bool, HubError>(false) && final(self)@
                == old(self)@,
            old(self)@.artists.len() == 0 ==> exists|hash: Seq<char>|
                {
                    &&& (hash.len() == 0 || (is_bcrypt_text(hash) && exists|salt: Seq<u8>|
                        salt.len() == 16 && hash == #[trigger] bcrypt_salted_text(
                            "password123"@,
                            salt,
                        )))
                    &&& (r is Ok ==> r->Ok_0)
                    &&& seeded(
                        old(self)@,
                        catalog_artists(),
                        catalog_events(),
                        catalog_tickets(),
                        demo_user(hash),
                    ) == (final(self)@, match r {
                        Ok(_) => None,
                        Err(e) => Some(e),
                    })
                },
    {
        let mut db = self.take();
        if db.artists.len() > 0 {
            self.put(db);
            return Ok(false);
        }
        let ghost hash0 = Seq::<char>::empty();
        db.seed_artists(&catalog_artist_rows());
        match db.seed_events(&catalog_event_rows()) {
            Ok(()) => {},
            Err(e) => {
                assert(hash0.len() == 0);
                self.put(db);
                return Err(e);
            },
        }
        match db.seed_tickets(&catalog_ticket_rows()) {
            Ok(()) => {},
            Err(e) => {
                assert(hash0.len() == 0);
                self.put(db);
                return Err(e);
            },
        }
        let password = String::from_str("password123");
        let hash = match hash_password(&password) {
            Ok(h) => h,
            Err(_) => String::new(),
        };
        let ghost hv = hash@;
        assert(hv.len() == 0 || (is_bcrypt_text(hv) && exists|salt: Seq<u8>|
            salt.len() == 16 && hv == #[trigger] bcrypt_salted_text("password123"@, salt)));
        let _ = db.insert_user(demo_user_row(hash));

        self.put(db);
        Ok(true)
    }
}

} // verus!
