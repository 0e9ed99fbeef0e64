//! The rows that the marketplace stores, the records it answers with, the
//! requests it accepts and the errors it reports. Each type has a view with
//! its texts as character sequences.

use vstd::prelude::*;
use vstd::string::StringExecFns;

verus! {

/// The characters of an optional text.
pub open spec fn opt_text(o: Option<String>) -> Option<Seq<char>> {
    match o {
        Some(s) => Some(s@),
        None => None,
    }
}

/// A copy of `s`.
pub fn copy_text(s: &String) -> (r: String)
    ensures
        r@ == s@,
{
    s.clone()
}

/// A copy of `o`.
pub fn copy_opt_text(o: &Option<String>) -> (r: Option<String>)
    ensures
        opt_text(r) == opt_text(*o),
{
    match o {
        Some(s) => Some(s.clone()),
        None => None,
    }
}

// ---------------------------------------------------------------- stored rows

impl UserRecord {
    /// A copy of this row.
    pub fn copy(&self) -> (r: UserRecord)
        ensures
            r@ == self@,
    {
        UserRecord {
            user_id: copy_text(&self.user_id),
            username: copy_text(&self.username),
            email: copy_text(&self.email),
            password_hash: copy_text(&self.password_hash),
            phone: copy_opt_text(&self.phone),
            creation_time: copy_text(&self.creation_time),
        }
    }
}

impl EventRecord {
    /// A copy of this row.
    pub fn copy(&self) -> (r: EventRecord)
        ensures
            r@ == self@,
    {
        EventRecord {
            event_id: copy_text(&self.event_id),
            artist_id: copy_text(&self.artist_id),
            venue_name: copy_text(&self.venue_name),
            city: copy_text(&self.city),
            state: copy_text(&self.state),
            event_date: copy_text(&self.event_date),
            capacity: self.capacity,
        }
    }
}

impl TicketRecord {
    /// A copy of this row.
    pub fn copy(&self) -> (r: TicketRecord)
        ensures
            r@ == self@,
    {
        TicketRecord {
            ticket_id: copy_text(&self.ticket_id),
            event_id: copy_text(&self.event_id),
            price_cents: self.price_cents,
            num_available: self.num_available,
        }
    }
}

impl OrderRecord {
    /// A copy of this row.
    pub fn copy(&self) -> (r: OrderRecord)
        ensures
            r@ == self@,
    {
        OrderRecord {
            order_id: copy_text(&self.order_id),
            user_id: copy_text(&self.user_id),
            ticket_id: copy_text(&self.ticket_id),
            date_of_purchase: copy_text(&self.date_of_purchase),
        }
    }
}

/// A stored user, password hash included.
pub struct UserRecord {
    pub user_id: String,
    pub username: String,
    pub email: String,
    pub password_hash: String,
    pub phone: Option<String>,
    pub creation_time: String,
}

pub struct UserRecordView {
    pub user_id: Seq<char>,
    pub username: Seq<char>,
    pub email: Seq<char>,
    pub password_hash: Seq<char>,
    pub phone: Option<Seq<char>>,
    pub creation_time: Seq<char>,
}

impl View for UserRecord {
    type V = UserRecordView;

    open spec fn view(&self) -> UserRecordView {
        UserRecordView {
            user_id: self.user_id@,
            username: self.username@,
            email: self.email@,
            password_hash: self.password_hash@,
            phone: opt_text(self.phone),
            creation_time: self.creation_time@,
        }
    }
}

/// An artist; stored and answered with the same fields.
pub struct Artist {
    pub artist_id: String,
    pub name: String,
    pub genre: Option<String>,
    pub bio: Option<String>,
}

pub struct ArtistView {
    pub artist_id: Seq<char>,
    pub name: Seq<char>,
    pub genre: Option<Seq<char>>,
    pub bio: Option<Seq<char>>,
}

impl View for Artist {
    type V = ArtistView;

    open spec fn view(&self) -> ArtistView {
        ArtistView {
            artist_id: self.artist_id@,
            name: self.name@,
            genre: opt_text(self.genre),
            bio: opt_text(self.bio),
        }
    }
}

impl Artist {
    /// A copy of this artist.
    pub fn copy(&self) -> (r: Artist)
        ensures
            r@ == self@,
    {
        Artist {
            artist_id: copy_text(&self.artist_id),
            name: copy_text(&self.name),
            genre: copy_opt_text(&self.genre),
            bio: copy_opt_text(&self.bio),
        }
    }
}

/// A stored event.
pub struct EventRecord {
    pub event_id: String,
    pub artist_id: String,
    pub venue_name: String,
    pub city: String,
    pub state: String,
    pub event_date: String,
    pub capacity: i64,
}

pub struct EventRecordView {
    pub event_id: Seq<char>,
    pub artist_id: Seq<char>,
    pub venue_name: Seq<char>,
    pub city: Seq<char>,
    pub state: Seq<char>,
    pub event_date: Seq<char>,
    pub capacity: i64,
}

impl View for EventRecord {
    type V = EventRecordView;

    open spec fn view(&self) -> EventRecordView {
        EventRecordView {
            event_id: self.event_id@,
            artist_id: self.artist_id@,
            venue_name: self.venue_name@,
            city: self.city@,
            state: self.state@,
            event_date: self.event_date@,
            capacity: self.capacity,
        }
    }
}

/// A stored ticket tier: a price in cents and the number of tickets left.
pub struct TicketRecord {
    pub ticket_id: String,
    pub event_id: String,
    pub price_cents: i64,
    pub num_available: i64,
}

pub struct TicketRecordView {
    pub ticket_id: Seq<char>,
    pub event_id: Seq<char>,
    pub price_cents: i64,
    pub num_available: i64,
}

impl View for TicketRecord {
    type V = TicketRecordView;

    open spec fn view(&self) -> TicketRecordView {
        TicketRecordView {
            ticket_id: self.ticket_id@,
            event_id: self.event_id@,
            price_cents: self.price_cents,
            num_available: self.num_available,
        }
    }
}

/// A stored order: one ticket of a tier bought by a user.
pub struct OrderRecord {
    pub order_id: String,
    pub user_id: String,
    pub ticket_id: String,
    pub date_of_purchase: String,
}

pub struct OrderRecordView {
    pub order_id: Seq<char>,
    pub user_id: Seq<char>,
    pub ticket_id: Seq<char>,
    pub date_of_purchase: Seq<char>,
}

impl View for OrderRecord {
    type V = OrderRecordView;

    open spec fn view(&self) -> OrderRecordView {
        OrderRecordView {
            order_id: self.order_id@,
            user_id: self.user_id@,
            ticket_id: self.ticket_id@,
            date_of_purchase: self.date_of_purchase@,
        }
    }
}

// ----------------------------------------------------------- answered records

/// A user as listed: everything but the password hash.
pub struct User {
    pub user_id: String,
    pub username: String,
    pub email: String,
    pub phone: Option<String>,
    pub creation_time: String,
}

pub struct UserView {
    pub user_id: Seq<char>,
    pub username: Seq<char>,
    pub email: Seq<char>,
    pub phone: Option<Seq<char>>,
    pub creation_time: Seq<char>,
}

impl View for User {
    type V = UserView;

    open spec fn view(&self) -> UserView {
        UserView {
            user_id: self.user_id@,
            username: self.username@,
            email: self.email@,
            phone: opt_text(self.phone),
            creation_time: self.creation_time@,
        }
    }
}

/// An event together with the name of its artist.
pub struct Event {
    pub event_id: String,
    pub artist_id: String,
    pub artist_name: Option<String>,
    pub venue_name: String,
    pub city: String,
    pub state: String,
    pub event_date: String,
    pub capacity: i64,
}

pub struct EventView {
    pub event_id: Seq<char>,
    pub artist_id: Seq<char>,
    pub artist_name: Option<Seq<char>>,
    pub venue_name: Seq<char>,
    pub city: Seq<char>,
    pub state: Seq<char>,
    pub event_date: Seq<char>,
    pub capacity: i64,
}

impl View for Event {
    type V = EventView;

    open spec fn view(&self) -> EventView {
        EventView {
            event_id: self.event_id@,
            artist_id: self.artist_id@,
            artist_name: opt_text(self.artist_name),
            venue_name: self.venue_name@,
            city: self.city@,
            state: self.state@,
            event_date: self.event_date@,
            capacity: self.capacity,
        }
    }
}

/// A ticket tier, with a display name for its event where the listing
/// gives one.
pub struct Ticket {
    pub ticket_id: String,
    pub event_id: String,
    pub event_name: Option<String>,
    pub price_cents: i64,
    pub num_available: i64,
}

pub struct TicketView {
    pub ticket_id: Seq<char>,
    pub event_id: Seq<char>,
    pub event_name: Option<Seq<char>>,
    pub price_cents: i64,
    pub num_available: i64,
}

impl View for Ticket {
    type V = TicketView;

    open spec fn view(&self) -> TicketView {
        TicketView {
            ticket_id: self.ticket_id@,
            event_id: self.event_id@,
            event_name: opt_text(self.event_name),
            price_cents: self.price_cents,
            num_available: self.num_available,
        }
    }
}

/// An order together with the details of its event, ticket and artist.
pub struct Order {
    pub order_id: String,
    pub user_id: String,
    pub ticket_id: String,
    pub date_of_purchase: String,
    pub event_name: Option<String>,
    pub venue_name: Option<String>,
    pub city: Option<String>,
    pub state: Option<String>,
    pub event_date: Option<String>,
    pub price_cents: Option<i64>,
    pub artist_name: Option<String>,
}

pub struct OrderView {
    pub order_id: Seq<char>,
    pub user_id: Seq<char>,
    pub ticket_id: Seq<char>,
    pub date_of_purchase: Seq<char>,
    pub event_name: Option<Seq<char>>,
    pub venue_name: Option<Seq<char>>,
    pub city: Option<Seq<char>>,
    pub state: Option<Seq<char>>,
    pub event_date: Option<Seq<char>>,
    pub price_cents: Option<i64>,
    pub artist_name: Option<Seq<char>>,
}

impl View for Order {
    type V = OrderView;

    open spec fn view(&self) -> OrderView {
        OrderView {
            order_id: self.order_id@,
            user_id: self.user_id@,
            ticket_id: self.ticket_id@,
            date_of_purchase: self.date_of_purchase@,
            event_name: opt_text(self.event_name),
            venue_name: opt_text(self.venue_name),
            city: opt_text(self.city),
            state: opt_text(self.state),
            event_date: opt_text(self.event_date),
            price_cents: self.price_cents,
            artist_name: opt_text(self.artist_name),
        }
    }
}

// ------------------------------------------------------------------ requests

/// A request to register a user.
pub struct CreateUser {
    pub username: String,
    pub email: String,
    pub password: String,
    pub phone: Option<String>,
}

/// The user fields to change; absent ones stay as they are.
pub struct UpdateUser {
    pub username: Option<String>,
    pub email: Option<String>,
    pub phone: Option<String>,
}

/// A request to add an artist.
pub struct CreateArtist {
    pub name: String,
    pub genre: Option<String>,
    pub bio: Option<String>,
}

/// The artist fields to change; absent ones stay as they are.
pub struct UpdateArtist {
    pub genre: Option<String>,
    pub bio: Option<String>,
}

/// A request to add an event.
pub struct CreateEvent {
    pub artist_id: String,
    pub venue_name: String,
    pub city: String,
    pub state: String,
    pub event_date: String,
    pub capacity: i64,
}

/// Optional filters of the event search.
pub struct EventSearch {
    pub artist: Option<String>,
    pub city: Option<String>,
    pub date_from: Option<String>,
    pub date_to: Option<String>,
}

pub struct EventSearchView {
    pub artist: Option<Seq<char>>,
    pub city: Option<Seq<char>>,
    pub date_from: Option<Seq<char>>,
    pub date_to: Option<Seq<char>>,
}

impl View for EventSearch {
    type V = EventSearchView;

    open spec fn view(&self) -> EventSearchView {
        EventSearchView {
            artist: opt_text(self.artist),
            city: opt_text(self.city),
            date_from: opt_text(self.date_from),
            date_to: opt_text(self.date_to),
        }
    }
}

/// A request to add a ticket tier to an event.
pub struct CreateTicket {
    pub event_id: String,
    pub price_cents: i64,
    pub num_available: i64,
}

/// A request to buy one ticket of a tier.
pub struct CreateOrder {
    pub user_id: String,
    pub ticket_id: String,
}

// -------------------------------------------------------------------- errors

/// A column whose values must be distinct.
#[derive(PartialEq, Eq, Structural, Clone, Copy, Debug)]
pub enum UniqueColumn {
    UserId,
    Username,
    Email,
    ArtistId,
    EventId,
    TicketId,
    OrderId,
}

/// A row rule that a stored value must meet.
#[derive(PartialEq, Eq, Structural, Clone, Copy, Debug)]
pub enum CheckRule {
    CapacityPositive,
    PricePositive,
    AvailabilityNotNegative,
}

/// Why a request was refused.
#[derive(PartialEq, Eq, Structural, Clone, Copy, Debug)]
pub enum HubError {
    /// The value is already held by another row.
    Unique(UniqueColumn),
    /// A referenced row does not exist.
    ForeignKey,
    /// A stored value breaks a row rule.
    Check(CheckRule),
    /// The password could not be hashed.
    HashFailed,
    UserNotFound,
    ArtistNotFound,
    EventNotFound,
    TicketNotFound,
    OrderNotFound,
    /// An update changed no row.
    NothingUpdated,
    /// A new ticket tier had a price of zero or less.
    PriceNotPositive,
    /// A new ticket tier had no tickets.
    AvailabilityNotPositive,
    /// The tier is sold out.
    NoTicketsAvailable,
}

/// The HTTP status with which a refusal is answered: 404 when the row
/// asked for is missing, 400 otherwise.
pub open spec fn error_status(e: HubError) -> u16 {
    match e {
        HubError::UserNotFound
        | HubError::ArtistNotFound
        | HubError::EventNotFound
        | HubError::TicketNotFound
        | HubError::OrderNotFound => 404,
        _ => 400,
    }
}

/// The message with which a refusal is answered.
pub open spec fn error_text(e: HubError) -> Seq<char> {
    match e {
        HubError::Unique(UniqueColumn::UserId) => "Error: UNIQUE constraint failed: users.user_id"@,
        HubError::Unique(UniqueColumn::Username) => "Error: UNIQUE constraint failed: users.username"@,
        HubError::Unique(UniqueColumn::Email) => "Error: UNIQUE constraint failed: users.email"@,
        HubError::Unique(UniqueColumn::ArtistId) => "Error: UNIQUE constraint failed: artists.artist_id"@,
        HubError::Unique(UniqueColumn::EventId) => "Error: UNIQUE constraint failed: events.event_id"@,
        HubError::Unique(UniqueColumn::TicketId) => "Error: UNIQUE constraint failed: tickets.ticket_id"@,
        HubError::Unique(UniqueColumn::OrderId) => "Error: UNIQUE constraint failed: orders.order_id"@,
        HubError::ForeignKey => "Error: FOREIGN KEY constraint failed"@,
        HubError::Check(CheckRule::CapacityPositive) => "Error: CHECK constraint failed: capacity > 0"@,
        HubError::Check(CheckRule::PricePositive) => "Error: CHECK constraint failed: price > 0"@,
        HubError::Check(CheckRule::AvailabilityNotNegative) => "Error: CHECK constraint failed: num_available >= 0"@,
        HubError::HashFailed => "Failed to hash password"@,
        HubError::UserNotFound => "User not found"@,
        HubError::ArtistNotFound => "Artist not found"@,
        HubError::EventNotFound => "Event not found"@,
        HubError::TicketNotFound => "Ticket not found"@,
        HubError::OrderNotFound => "Order not found"@,
        HubError::NothingUpdated => "Nothing updated"@,
        HubError::PriceNotPositive => "Price must be positive"@,
        HubError::AvailabilityNotPositive => "num_available must be positive"@,
        HubError::NoTicketsAvailable => "No tickets available"@,
    }
}

impl HubError {
    /// The HTTP status of this refusal.
    pub fn status(&self) -> (r: u16)
        ensures
            r == error_status(*self),
    {
        match self {
            HubError::UserNotFound
            | HubError::ArtistNotFound
            | HubError::EventNotFound
            | HubError::TicketNotFound
            | HubError::OrderNotFound => 404,
            _ => 400,
        }
    }

    /// The message of this refusal.
    pub fn message(&self) -> (r: String)
        ensures
            r@ == error_text(*self),
    {
        match self {
            HubError::Unique(UniqueColumn::UserId) => String::from_str("Error: UNIQUE constraint failed: users.user_id"),
            HubError::Unique(UniqueColumn::Username) => String::from_str("Error: UNIQUE constraint failed: users.username"),
            HubError::Unique(UniqueColumn::Email) => String::from_str("Error: UNIQUE constraint failed: users.email"),
            HubError::Unique(UniqueColumn::ArtistId) => String::from_str("Error: UNIQUE constraint failed: artists.artist_id"),
            HubError::Unique(UniqueColumn::EventId) => String::from_str("Error: UNIQUE constraint failed: events.event_id"),
            HubError::Unique(UniqueColumn::TicketId) => String::from_str("Error: UNIQUE constraint failed: tickets.ticket_id"),
            HubError::Unique(UniqueColumn::OrderId) => String::from_str("Error: UNIQUE constraint failed: orders.order_id"),
            HubError::ForeignKey => String::from_str("Error: FOREIGN KEY constraint failed"),
            HubError::Check(CheckRule::CapacityPositive) => String::from_str("Error: CHECK constraint failed: capacity > 0"),
            HubError::Check(CheckRule::PricePositive) => String::from_str("Error: CHECK constraint failed: price > 0"),
            HubError::Check(CheckRule::AvailabilityNotNegative) => String::from_str("Error: CHECK constraint failed: num_available >= 0"),
            HubError::HashFailed => String::from_str("Failed to hash password"),
            HubError::UserNotFound => String::from_str("User not found"),
            HubError::ArtistNotFound => String::from_str("Artist not found"),
            HubError::EventNotFound => String::from_str("Event not found"),
            HubError::TicketNotFound => String::from_str("Ticket not found"),
            HubError::OrderNotFound => String::from_str("Order not found"),
            HubError::NothingUpdated => String::from_str("Nothing updated"),
            HubError::PriceNotPositive => String::from_str("Price must be positive"),
            HubError::AvailabilityNotPositive => String::from_str("num_available must be positive"),
            HubError::NoTicketsAvailable => String::from_str("No tickets available"),
        }
    }
}

} // verus!
