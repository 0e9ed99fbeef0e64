use tickethub::hub::TicketHub;
use tickethub::model::{
    Artist, CheckRule, CreateArtist, CreateEvent, CreateOrder, CreateTicket, EventRecord,
    EventSearch, HubError, OrderRecord, TicketRecord, UniqueColumn, UpdateArtist, UpdateUser,
    UserRecord,
};

fn s(x: &str) -> String {
    x.to_string()
}

fn user(id: &str, name: &str, email: &str, created: &str) -> UserRecord {
    UserRecord {
        user_id: s(id),
        username: s(name),
        email: s(email),
        password_hash: s("hash"),
        phone: None,
        creation_time: s(created),
    }
}

fn artist(id: &str, name: &str) -> Artist {
    Artist { artist_id: s(id), name: s(name), genre: Some(s("Pop")), bio: None }
}

fn event(id: &str, artist: &str, venue: &str, city: &str, date: &str) -> EventRecord {
    EventRecord {
        event_id: s(id),
        artist_id: s(artist),
        venue_name: s(venue),
        city: s(city),
        state: s("NY"),
        event_date: s(date),
        capacity: 100,
    }
}

fn ticket(id: &str, event: &str, price: i64, avail: i64) -> TicketRecord {
    TicketRecord { ticket_id: s(id), event_id: s(event), price_cents: price, num_available: avail }
}

/// Two artists, three events, three tiers, two users.
fn sample() -> TicketHub {
    let mut hub = TicketHub::new();
    hub.insert_artist(artist("a1", "Taylor Swift")).unwrap();
    hub.insert_artist(artist("a2", "Metallica")).unwrap();
    hub.insert_event(event("e1", "a1", "Madison Square Garden", "New York", "2025-07-12")).unwrap();
    hub.insert_event(event("e2", "a2", "Soldier Field", "Chicago", "2025-06-01")).unwrap();
    hub.insert_event(event("e3", "a1", "Crypto.com Arena", "Los Angeles", "2025-08-20")).unwrap();
    hub.insert_ticket(ticket("t1", "e1", 24999, 2)).unwrap();
    hub.insert_ticket(ticket("t2", "e2", 8999, 1)).unwrap();
    hub.insert_ticket(ticket("t3", "e1", 14999, 5)).unwrap();
    hub.insert_user(user("u1", "alice", "alice@example.com", "2024-01-01T00:00:00")).unwrap();
    hub.insert_user(user("u2", "bob", "bob@example.com", "1718000000")).unwrap();
    hub
}

fn no_filter() -> EventSearch {
    EventSearch { artist: None, city: None, date_from: None, date_to: None }
}

#[test]
fn inserted_user_is_found_without_hash() {
    let hub = sample();
    let u = hub.get_user(&s("u1")).unwrap();
    assert_eq!(u.username, "alice");
    assert_eq!(u.email, "alice@example.com");
    assert_eq!(u.creation_time, "2024-01-01T00:00:00");
    assert!(hub.get_user(&s("nobody")).is_none());
    assert_eq!(hub.user_record(&s("u1")).unwrap().password_hash, "hash");
}

#[test]
fn taken_keys_are_refused_in_order() {
    let mut hub = sample();
    let r = hub.insert_user(user("u1", "alice", "alice@example.com", "x"));
    assert_eq!(r, Err(HubError::Unique(UniqueColumn::UserId)));
    let r = hub.insert_user(user("u9", "alice", "alice@example.com", "x"));
    assert_eq!(r, Err(HubError::Unique(UniqueColumn::Username)));
    let r = hub.insert_user(user("u9", "carol", "bob@example.com", "x"));
    assert_eq!(r, Err(HubError::Unique(UniqueColumn::Email)));
    assert_eq!(hub.list_users().len(), 2);
}

#[test]
fn users_listed_newest_first_by_time() {
    let mut hub = sample();
    hub.insert_user(user("u3", "carol", "carol@example.com", "1719000000")).unwrap();
    hub.insert_user(user("u4", "dave", "dave@example.com", "not a time")).unwrap();
    hub.insert_user(user("u5", "erin", "erin@example.com", "2024-06-10T00:00:00")).unwrap();
    let ids: Vec<String> = hub.list_users().into_iter().map(|u| u.user_id).collect();
    // 1719000000 > 1718000000 (2024-06-10T06:13:20) > 2024-06-10T00:00:00 > 2024-01-01.
    assert_eq!(ids, vec!["u3", "u2", "u5", "u1", "u4"]);
}

#[test]
fn update_user_patches_given_fields_only() {
    let mut hub = sample();
    let r = hub.update_user(
        &s("u1"),
        UpdateUser { username: None, email: None, phone: Some(s("555-0199")) },
    );
    assert_eq!(r, Ok(()));
    let u = hub.get_user(&s("u1")).unwrap();
    assert_eq!(u.phone, Some(s("555-0199")));
    assert_eq!(u.username, "alice");
    assert_eq!(u.email, "alice@example.com");
}

#[test]
fn update_user_skips_taken_username_but_applies_email() {
    let mut hub = sample();
    let r = hub.update_user(
        &s("u1"),
        UpdateUser { username: Some(s("bob")), email: Some(s("new@example.com")), phone: None },
    );
    assert_eq!(r, Ok(()));
    let u = hub.get_user(&s("u1")).unwrap();
    assert_eq!(u.username, "alice");
    assert_eq!(u.email, "new@example.com");
}

#[test]
fn update_user_with_nothing_is_refused() {
    let mut hub = sample();
    let none = UpdateUser { username: None, email: None, phone: None };
    assert_eq!(hub.update_user(&s("u1"), none), Err(HubError::NothingUpdated));
    let taken = UpdateUser { username: Some(s("bob")), email: None, phone: None };
    assert_eq!(hub.update_user(&s("u1"), taken), Err(HubError::NothingUpdated));
    let missing = UpdateUser { username: None, email: None, phone: Some(s("1")) };
    assert_eq!(hub.update_user(&s("zz"), missing), Err(HubError::NothingUpdated));
    let own = UpdateUser { username: Some(s("alice")), email: None, phone: None };
    assert_eq!(hub.update_user(&s("u1"), own), Ok(()));
}

#[test]
fn delete_user_refused_while_orders_refer_to_it() {
    let mut hub = sample();
    hub.place_order(s("o1"), CreateOrder { user_id: s("u2"), ticket_id: s("t1") }, s("100"))
        .unwrap();
    assert_eq!(hub.delete_user(&s("u2")), Err(HubError::UserNotFound));
    assert_eq!(hub.delete_user(&s("u1")), Ok(()));
    assert!(hub.get_user(&s("u1")).is_none());
    assert_eq!(hub.delete_user(&s("u1")), Err(HubError::UserNotFound));
}

#[test]
fn artists_listed_by_name_and_updated() {
    let mut hub = sample();
    let names: Vec<String> = hub.list_artists().into_iter().map(|a| a.name).collect();
    assert_eq!(names, vec!["Metallica", "Taylor Swift"]);
    hub.insert_artist(artist("a3", "SZA")).unwrap();
    hub.insert_artist(artist("a4", "Sabrina Carpenter")).unwrap();
    hub.insert_artist(artist("a5", "blink-182")).unwrap();
    let names: Vec<String> = hub.list_artists().into_iter().map(|a| a.name).collect();
    assert_eq!(names, vec!["blink-182", "Metallica", "Sabrina Carpenter", "SZA", "Taylor Swift"]);
    let r = hub.update_artist(&s("a2"), UpdateArtist { genre: None, bio: Some(s("Metal band")) });
    assert_eq!(r, Ok(()));
    let a = hub.get_artist(&s("a2")).unwrap();
    assert_eq!(a.bio, Some(s("Metal band")));
    assert_eq!(a.genre, Some(s("Pop")));
    let r = hub.update_artist(&s("a2"), UpdateArtist { genre: None, bio: None });
    assert_eq!(r, Err(HubError::NothingUpdated));
    let r = hub.update_artist(&s("zz"), UpdateArtist { genre: Some(s("x")), bio: None });
    assert_eq!(r, Err(HubError::NothingUpdated));
}

#[test]
fn delete_artist_refused_while_events_refer_to_it() {
    let mut hub = sample();
    assert_eq!(hub.delete_artist(&s("a1")), Err(HubError::ArtistNotFound));
    hub.insert_artist(artist("a3", "Nobody")).unwrap();
    assert_eq!(hub.delete_artist(&s("a3")), Ok(()));
    assert!(hub.get_artist(&s("a3")).is_none());
}

#[test]
fn artist_events_by_date_with_artist_name() {
    let hub = sample();
    let evs = hub.artist_events(&s("a1"));
    let ids: Vec<String> = evs.iter().map(|e| e.event_id.clone()).collect();
    assert_eq!(ids, vec!["e1", "e3"]);
    assert_eq!(evs[0].artist_name, Some(s("Taylor Swift")));
    assert!(hub.artist_events(&s("a9")).is_empty());
}

#[test]
fn event_rules_capacity_key_and_artist() {
    let mut hub = sample();
    let mut e = event("e9", "a1", "V", "C", "2025-01-01");
    e.capacity = 0;
    assert_eq!(hub.insert_event(e), Err(HubError::Check(CheckRule::CapacityPositive)));
    let e = event("e1", "a1", "V", "C", "2025-01-01");
    assert_eq!(hub.insert_event(e), Err(HubError::Unique(UniqueColumn::EventId)));
    let e = event("e9", "a9", "V", "C", "2025-01-01");
    assert_eq!(hub.insert_event(e), Err(HubError::ForeignKey));
}

#[test]
fn create_event_answers_fresh_id() {
    let mut hub = sample();
    let id = hub
        .create_event(CreateEvent {
            artist_id: s("a2"),
            venue_name: s("Arena"),
            city: s("Austin"),
            state: s("TX"),
            event_date: s("2025-09-09"),
            capacity: 500,
        })
        .unwrap();
    assert_eq!(id.len(), 36);
    let e = hub.get_event(&id).unwrap();
    assert_eq!(e.artist_name, Some(s("Metallica")));
    assert_eq!(e.city, "Austin");
    let r = hub.create_event(CreateEvent {
        artist_id: s("missing"),
        venue_name: s("Arena"),
        city: s("Austin"),
        state: s("TX"),
        event_date: s("2025-09-09"),
        capacity: 500,
    });
    assert_eq!(r, Err(HubError::ForeignKey));
    let r = hub.create_event(CreateEvent {
        artist_id: s("a2"),
        venue_name: s("Arena"),
        city: s("Austin"),
        state: s("TX"),
        event_date: s("2025-09-09"),
        capacity: -1,
    });
    assert_eq!(r, Err(HubError::Check(CheckRule::CapacityPositive)));
}

#[test]
fn delete_event_refused_while_tiers_refer_to_it() {
    let mut hub = sample();
    assert_eq!(hub.delete_event(&s("e2")), Err(HubError::EventNotFound));
    hub.insert_event(event("e9", "a2", "V", "C", "2025-01-01")).unwrap();
    assert_eq!(hub.delete_event(&s("e9")), Ok(()));
    assert!(hub.get_event(&s("e9")).is_none());
}

#[test]
fn create_ticket_validates_price_and_count() {
    let mut hub = sample();
    let r = hub.create_ticket(CreateTicket { event_id: s("e1"), price_cents: 0, num_available: 5 });
    assert_eq!(r, Err(HubError::PriceNotPositive));
    let r = hub.create_ticket(CreateTicket { event_id: s("e1"), price_cents: 100, num_available: 0 });
    assert_eq!(r, Err(HubError::AvailabilityNotPositive));
    let r = hub.create_ticket(CreateTicket { event_id: s("zz"), price_cents: 100, num_available: 1 });
    assert_eq!(r, Err(HubError::ForeignKey));
    let id = hub
        .create_ticket(CreateTicket { event_id: s("e2"), price_cents: 100, num_available: 1 })
        .unwrap();
    let t = hub.ticket_record(&id).unwrap();
    assert_eq!(t.price_cents, 100);
    assert_eq!(t.num_available, 1);
}

#[test]
fn tickets_listed_cheapest_first_with_event_names() {
    let hub = sample();
    let ts = hub.list_tickets();
    let ids: Vec<String> = ts.iter().map(|t| t.ticket_id.clone()).collect();
    assert_eq!(ids, vec!["t2", "t3", "t1"]);
    assert_eq!(ts[0].event_name, Some(s("Soldier Field — Metallica")));
    assert_eq!(ts[2].event_name, Some(s("Madison Square Garden — Taylor Swift")));
}

#[test]
fn event_tickets_in_stored_order_without_names() {
    let hub = sample();
    let ts = hub.event_tickets(&s("e1"));
    let ids: Vec<String> = ts.iter().map(|t| t.ticket_id.clone()).collect();
    assert_eq!(ids, vec!["t1", "t3"]);
    assert!(ts.iter().all(|t| t.event_name.is_none()));
}

#[test]
fn order_takes_one_ticket_and_cancel_gives_it_back() {
    let mut hub = sample();
    hub.place_order(s("o1"), CreateOrder { user_id: s("u1"), ticket_id: s("t2") }, s("1700000000"))
        .unwrap();
    assert_eq!(hub.ticket_record(&s("t2")).unwrap().num_available, 0);
    let r = hub.place_order(
        s("o2"),
        CreateOrder { user_id: s("u2"), ticket_id: s("t2") },
        s("1700000001"),
    );
    assert_eq!(r, Err(HubError::NoTicketsAvailable));
    assert_eq!(hub.delete_order(&s("o1")), Ok(()));
    assert_eq!(hub.ticket_record(&s("t2")).unwrap().num_available, 1);
    assert!(hub.order_record(&s("o1")).is_none());
    assert_eq!(hub.delete_order(&s("o1")), Err(HubError::OrderNotFound));
}

#[test]
fn order_refusals() {
    let mut hub = sample();
    let r = hub.place_order(s("o1"), CreateOrder { user_id: s("u1"), ticket_id: s("zz") }, s("1"));
    assert_eq!(r, Err(HubError::TicketNotFound));
    let r = hub.place_order(s("o1"), CreateOrder { user_id: s("zz"), ticket_id: s("t1") }, s("1"));
    assert_eq!(r, Err(HubError::ForeignKey));
    assert_eq!(hub.ticket_record(&s("t1")).unwrap().num_available, 2);
    hub.place_order(s("o1"), CreateOrder { user_id: s("u1"), ticket_id: s("t1") }, s("1")).unwrap();
    let r = hub.place_order(s("o1"), CreateOrder { user_id: s("u2"), ticket_id: s("t1") }, s("2"));
    assert_eq!(r, Err(HubError::Unique(UniqueColumn::OrderId)));
}

#[test]
fn create_order_answers_id_and_date() {
    let mut hub = sample();
    let (id, date) = hub
        .create_order(CreateOrder { user_id: s("u1"), ticket_id: s("t3") }, s("1700000123"))
        .unwrap();
    assert_eq!(id.len(), 36);
    assert_eq!(date, "1700000123");
    let o = hub.order_record(&id).unwrap();
    assert_eq!(o.ticket_id, "t3");
    assert_eq!(hub.ticket_record(&s("t3")).unwrap().num_available, 4);
}

#[test]
fn orders_listed_newest_first_with_details() {
    let mut hub = sample();
    hub.place_order(s("o1"), CreateOrder { user_id: s("u1"), ticket_id: s("t1") }, s("100"))
        .unwrap();
    hub.place_order(s("o2"), CreateOrder { user_id: s("u2"), ticket_id: s("t2") }, s("300"))
        .unwrap();
    hub.place_order(s("o3"), CreateOrder { user_id: s("u1"), ticket_id: s("t3") }, s("200"))
        .unwrap();
    let ids: Vec<String> = hub.list_orders().into_iter().map(|o| o.order_id).collect();
    assert_eq!(ids, vec!["o2", "o3", "o1"]);
    let mine = hub.user_orders(&s("u1"));
    let ids: Vec<String> = mine.iter().map(|o| o.order_id.clone()).collect();
    assert_eq!(ids, vec!["o3", "o1"]);
    let o = &mine[1];
    assert_eq!(o.event_name, None);
    assert_eq!(o.venue_name, Some(s("Madison Square Garden")));
    assert_eq!(o.city, Some(s("New York")));
    assert_eq!(o.state, Some(s("NY")));
    assert_eq!(o.event_date, Some(s("2025-07-12")));
    assert_eq!(o.price_cents, Some(24999));
    assert_eq!(o.artist_name, Some(s("Taylor Swift")));
}

#[test]
fn stored_order_rows_keep_counts() {
    let mut hub = sample();
    let o = OrderRecord {
        order_id: s("o1"),
        user_id: s("u1"),
        ticket_id: s("t1"),
        date_of_purchase: s("5"),
    };
    assert_eq!(hub.insert_order(o), Ok(()));
    assert_eq!(hub.ticket_record(&s("t1")).unwrap().num_available, 2);
}

#[test]
fn search_without_filters_lists_every_event_by_date() {
    let hub = sample();
    let ids: Vec<String> =
        hub.list_events(&no_filter()).into_iter().map(|e| e.event_id).collect();
    assert_eq!(ids, vec!["e2", "e1", "e3"]);
}

#[test]
fn search_by_artist_ignores_case() {
    let hub = sample();
    let f = EventSearch { artist: Some(s("tAyLoR")), city: None, date_from: None, date_to: None };
    let ids: Vec<String> = hub.list_events(&f).into_iter().map(|e| e.event_id).collect();
    assert_eq!(ids, vec!["e1", "e3"]);
}

#[test]
fn search_by_city_with_wildcards() {
    let hub = sample();
    let f = EventSearch { artist: None, city: Some(s("l_s%les")), date_from: None, date_to: None };
    let ids: Vec<String> = hub.list_events(&f).into_iter().map(|e| e.event_id).collect();
    assert_eq!(ids, vec!["e3"]);
    let f = EventSearch { artist: None, city: Some(s("")), date_from: None, date_to: None };
    assert_eq!(hub.list_events(&f).len(), 3);
    let f = EventSearch { artist: None, city: Some(s("Boston")), date_from: None, date_to: None };
    assert!(hub.list_events(&f).is_empty());
}

#[test]
fn search_by_date_range_is_inclusive() {
    let hub = sample();
    let f = EventSearch {
        artist: None,
        city: None,
        date_from: Some(s("2025-06-01")),
        date_to: Some(s("2025-07-12")),
    };
    let ids: Vec<String> = hub.list_events(&f).into_iter().map(|e| e.event_id).collect();
    assert_eq!(ids, vec!["e2", "e1"]);
}

#[test]
fn error_messages_and_statuses() {
    assert_eq!(HubError::UserNotFound.status(), 404);
    assert_eq!(HubError::UserNotFound.message(), "User not found");
    assert_eq!(HubError::TicketNotFound.status(), 404);
    assert_eq!(HubError::NothingUpdated.status(), 400);
    assert_eq!(HubError::NothingUpdated.message(), "Nothing updated");
    assert_eq!(HubError::NoTicketsAvailable.message(), "No tickets available");
    assert_eq!(HubError::PriceNotPositive.message(), "Price must be positive");
    assert_eq!(HubError::AvailabilityNotPositive.message(), "num_available must be positive");
    assert_eq!(HubError::HashFailed.message(), "Failed to hash password");
    assert_eq!(
        HubError::Unique(UniqueColumn::Username).message(),
        "Error: UNIQUE constraint failed: users.username"
    );
    assert_eq!(HubError::ForeignKey.message(), "Error: FOREIGN KEY constraint failed");
    assert_eq!(
        HubError::Check(CheckRule::CapacityPositive).message(),
        "Error: CHECK constraint failed: capacity > 0"
    );
    assert_eq!(HubError::ForeignKey.status(), 400);
}

#[test]
fn create_artist_answers_uuid_shaped_id() {
    let mut hub = sample();
    let id = hub.create_artist(CreateArtist { name: s("SZA"), genre: None, bio: None }).unwrap();
    assert_eq!(id.len(), 36);
    for (i, c) in id.chars().enumerate() {
        if i == 8 || i == 13 || i == 18 || i == 23 {
            assert_eq!(c, '-');
        } else {
            assert!(c.is_ascii_hexdigit() && !c.is_ascii_uppercase());
        }
    }
    assert_eq!(id.chars().nth(14), Some('4'));
    let a = hub.get_artist(&id).unwrap();
    assert_eq!(a.name, "SZA");
    assert_eq!(a.genre, None);
}

#[test]
fn stored_rows_meet_key_and_check_rules() {
    let mut hub = sample();
    assert_eq!(
        hub.insert_artist(artist("a1", "Again")),
        Err(HubError::Unique(UniqueColumn::ArtistId))
    );
    assert_eq!(
        hub.insert_ticket(ticket("t1", "e1", 100, 1)),
        Err(HubError::Unique(UniqueColumn::TicketId))
    );
    assert_eq!(
        hub.insert_ticket(ticket("t9", "e1", 0, 1)),
        Err(HubError::Check(CheckRule::PricePositive))
    );
    assert_eq!(
        hub.insert_ticket(ticket("t9", "e1", 100, -1)),
        Err(HubError::Check(CheckRule::AvailabilityNotNegative))
    );
    assert_eq!(hub.insert_ticket(ticket("t9", "e9", 100, 0)), Err(HubError::ForeignKey));
    assert_eq!(hub.insert_ticket(ticket("t9", "e1", 100, 0)), Ok(()));
    let r = hub.place_order(s("o1"), CreateOrder { user_id: s("u1"), ticket_id: s("t9") }, s("1"));
    assert_eq!(r, Err(HubError::NoTicketsAvailable));
    assert_eq!(
        HubError::Unique(UniqueColumn::TicketId).message(),
        "Error: UNIQUE constraint failed: tickets.ticket_id"
    );
    assert_eq!(
        HubError::Check(CheckRule::AvailabilityNotNegative).message(),
        "Error: CHECK constraint failed: num_available >= 0"
    );
    assert_eq!(HubError::OrderNotFound.message(), "Order not found");
    assert_eq!(HubError::OrderNotFound.status(), 404);
}

#[test]
fn user_orders_are_all_orders_of_that_user() {
    let mut hub = sample();
    hub.place_order(s("o1"), CreateOrder { user_id: s("u1"), ticket_id: s("t1") }, s("100"))
        .unwrap();
    hub.place_order(s("o2"), CreateOrder { user_id: s("u2"), ticket_id: s("t2") }, s("300"))
        .unwrap();
    hub.place_order(s("o3"), CreateOrder { user_id: s("u1"), ticket_id: s("t3") }, s("200"))
        .unwrap();
    let mine: Vec<String> = hub.user_orders(&s("u1")).into_iter().map(|o| o.order_id).collect();
    let filtered: Vec<String> = hub
        .list_orders()
        .into_iter()
        .filter(|o| o.user_id == "u1")
        .map(|o| o.order_id)
        .collect();
    assert_eq!(mine, filtered);
}

#[test]
fn artist_events_are_unfiltered_search_of_that_artist() {
    let hub = sample();
    let mine: Vec<String> = hub.artist_events(&s("a1")).into_iter().map(|e| e.event_id).collect();
    let filtered: Vec<String> = hub
        .list_events(&no_filter())
        .into_iter()
        .filter(|e| e.artist_id == "a1")
        .map(|e| e.event_id)
        .collect();
    assert_eq!(mine, filtered);
    assert!(hub.artist_events(&s("nobody")).is_empty());
}

#[test]
fn narrower_search_lists_no_new_event() {
    let hub = sample();
    let wide = EventSearch { artist: None, city: None, date_from: Some(s("2025-06-15")), date_to: None };
    let narrow = EventSearch {
        artist: Some(s("swift")),
        city: None,
        date_from: Some(s("2025-08-01")),
        date_to: None,
    };
    let w: Vec<String> = hub.list_events(&wide).into_iter().map(|e| e.event_id).collect();
    let n: Vec<String> = hub.list_events(&narrow).into_iter().map(|e| e.event_id).collect();
    assert_eq!(w, vec!["e1", "e3"]);
    assert_eq!(n, vec!["e3"]);
    assert!(n.iter().all(|id| w.contains(id)));
}

#[test]
fn count_plus_orders_stays_constant() {
    let mut hub = sample();
    let stock = |hub: &TicketHub, t: &str| {
        hub.ticket_record(&s(t)).unwrap().num_available
            + hub.list_orders().iter().filter(|o| o.ticket_id == t).count() as i64
    };
    let before = stock(&hub, "t3");
    hub.place_order(s("o1"), CreateOrder { user_id: s("u1"), ticket_id: s("t3") }, s("1")).unwrap();
    hub.place_order(s("o2"), CreateOrder { user_id: s("u2"), ticket_id: s("t3") }, s("2")).unwrap();
    assert_eq!(stock(&hub, "t3"), before);
    hub.delete_order(&s("o1")).unwrap();
    assert_eq!(stock(&hub, "t3"), before);
    assert_eq!(stock(&hub, "t1"), 2);
}
