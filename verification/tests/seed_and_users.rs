use tickethub::hub::TicketHub;
use tickethub::model::{CreateUser, EventSearch, HubError, UniqueColumn};

#[test]
fn seed_fills_catalog_once() {
    let mut hub = TicketHub::new();
    assert_eq!(hub.seed(), Ok(true));
    assert_eq!(hub.list_artists().len(), 13);
    let none = EventSearch { artist: None, city: None, date_from: None, date_to: None };
    assert_eq!(hub.list_events(&none).len(), 49);
    assert_eq!(hub.list_tickets().len(), 78);
    let users = hub.list_users();
    assert_eq!(users.len(), 1);
    assert_eq!(users[0].user_id, "u1");
    assert_eq!(users[0].username, "demo_user");
    assert_eq!(users[0].phone, Some("555-0100".to_string()));
    let demo = hub.user_record(&"u1".to_string()).unwrap();
    assert!(demo.password_hash.starts_with("$2b$12$"));
    assert_eq!(demo.password_hash.len(), 60);
    assert_eq!(hub.seed(), Ok(false));
    assert_eq!(hub.list_artists().len(), 13);
    let names: Vec<String> = hub.list_artists().into_iter().map(|a| a.name).collect();
    assert_eq!(
        names,
        vec![
            "Bad Bunny",
            "Billie Eilish",
            "Chappell Roan",
            "Coldplay",
            "Doja Cat",
            "Gracie Abrams",
            "Harry Styles",
            "Metallica",
            "Olivia Rodrigo",
            "Sabrina Carpenter",
            "SZA",
            "Taylor Swift",
            "The Weeknd",
        ]
    );
    assert!(bcrypt::verify("password123", &demo.password_hash).unwrap());
    let cheapest = &hub.list_tickets()[0];
    assert!(cheapest.price_cents <= hub.list_tickets()[1].price_cents);
    let sc = hub.artist_events(&"a0".to_string());
    assert_eq!(sc[0].event_id, "e_sc1");
    assert_eq!(sc[0].artist_name, Some("Sabrina Carpenter".to_string()));
    let t = hub.ticket_record(&"t_sc1a".to_string()).unwrap();
    assert_eq!(t.price_cents, 24999);
    assert_eq!(t.num_available, 1500);
}

#[test]
fn create_user_hashes_password_and_refuses_taken_name() {
    let mut hub = TicketHub::new();
    let req = CreateUser {
        username: "erin".to_string(),
        email: "erin@example.com".to_string(),
        password: "secret".to_string(),
        phone: None,
    };
    let id = hub.create_user(req, "1718000000".to_string()).unwrap();
    assert_eq!(id.len(), 36);
    let row = hub.user_record(&id).unwrap();
    assert!(row.password_hash.starts_with("$2b$12$"));
    assert_ne!(row.password_hash, "secret");
    assert!(bcrypt::verify("secret", &row.password_hash).unwrap());
    assert!(!bcrypt::verify("erin", &row.password_hash).unwrap());
    assert_eq!(row.creation_time, "1718000000");
    let again = CreateUser {
        username: "erin".to_string(),
        email: "other@example.com".to_string(),
        password: "secret".to_string(),
        phone: None,
    };
    let r = hub.create_user(again, "1718000001".to_string());
    assert_eq!(r, Err(HubError::Unique(UniqueColumn::Username)));
    assert_eq!(hub.list_users().len(), 1);
}

#[test]
fn new_user_listed_before_seeded_demo_user() {
    let mut hub = TicketHub::new();
    hub.seed().unwrap();
    let req = CreateUser {
        username: "frank".to_string(),
        email: "frank@example.com".to_string(),
        password: "pw".to_string(),
        phone: None,
    };
    let id = hub.create_user(req, "1735689600".to_string()).unwrap();
    let ids: Vec<String> = hub.list_users().into_iter().map(|u| u.user_id).collect();
    assert_eq!(ids, vec![id, "u1".to_string()]);
}
