//! The catalog that an empty marketplace starts with: artists, their
//! events, the ticket tiers of those events, and a demo user.

use vstd::prelude::*;
use vstd::string::StringExecFns;
use crate::model::{
    Artist, ArtistView, EventRecord, EventRecordView, TicketRecord, TicketRecordView, UserRecord,
    UserRecordView,
};
use crate::state::views;

verus! {

/// The catalog's artists.
pub open spec fn catalog_artists() -> Seq<ArtistView> {
    seq![
        ArtistView {
            artist_id: "a0"@,
            name: "Sabrina Carpenter"@,
            genre: Some("Pop"@),
            bio: Some("★ OUR UNDISPUTED QUEEN ★ Sabrina Carpenter is the greatest pop artist of her generation — full stop. From her breakout 'emails i can't send' era to the unstoppable 'Short n' Sweet' world tour, she has redefined what it means to be a pop star: razor-sharp wit, perfect melodies, and the stage presence of a goddess. Every other artist on this platform exists in her shadow and they know it."@),
        },
        ArtistView {
            artist_id: "a1"@,
            name: "Taylor Swift"@,
            genre: Some("Pop"@),
            bio: Some("Grammy-winning global pop superstar known for era-defining albums."@),
        },
        ArtistView {
            artist_id: "a2"@,
            name: "Metallica"@,
            genre: Some("Metal"@),
            bio: Some("Iconic heavy metal band formed in 1981 with decades of sold-out tours."@),
        },
        ArtistView {
            artist_id: "a3"@,
            name: "Billie Eilish"@,
            genre: Some("Alternative Pop"@),
            bio: Some("Whisper-pop sensation, multi-Grammy winner and Oscar winner."@),
        },
        ArtistView {
            artist_id: "a4"@,
            name: "Bad Bunny"@,
            genre: Some("Reggaeton"@),
            bio: Some("Latin trap and reggaeton global phenomenon from Puerto Rico."@),
        },
        ArtistView {
            artist_id: "a5"@,
            name: "The Weeknd"@,
            genre: Some("R&B"@),
            bio: Some("Critically acclaimed R&B and pop artist known for After Hours era."@),
        },
        ArtistView {
            artist_id: "a6"@,
            name: "Chappell Roan"@,
            genre: Some("Indie Pop"@),
            bio: Some("Midwest princess turned pop phenomenon, known for theatrical performances and debut album 'The Rise and Fall of a Midwest Princess'."@),
        },
        ArtistView {
            artist_id: "a7"@,
            name: "Olivia Rodrigo"@,
            genre: Some("Pop Rock"@),
            bio: Some("Multi-Grammy-winning singer-songwriter behind the generational debut 'SOUR' and follow-up 'GUTS'."@),
        },
        ArtistView {
            artist_id: "a8"@,
            name: "Harry Styles"@,
            genre: Some("Pop Rock"@),
            bio: Some("Former One Direction member turned critically acclaimed solo artist and fashion icon."@),
        },
        ArtistView {
            artist_id: "a9"@,
            name: "Doja Cat"@,
            genre: Some("Pop/R&B"@),
            bio: Some("Grammy-winning shapeshifter known for viral hits and her genre-bending 'Scarlet' era."@),
        },
        ArtistView {
            artist_id: "a10"@,
            name: "SZA"@,
            genre: Some("R&B"@),
            bio: Some("Multi-Grammy-nominated R&B powerhouse behind the critically acclaimed 'SOS' album."@),
        },
        ArtistView {
            artist_id: "a11"@,
            name: "Gracie Abrams"@,
            genre: Some("Indie Pop"@),
            bio: Some("Intimate indie-pop storyteller known for emotionally raw lyrics and a devoted cult following."@),
        },
        ArtistView {
            artist_id: "a12"@,
            name: "Coldplay"@,
            genre: Some("Alternative Rock"@),
            bio: Some("British rock icons whose stadium spectacles are legendary for their light shows and emotional anthems."@),
        },
    ]
}

/// The catalog's events.
pub open spec fn catalog_events() -> Seq<EventRecordView> {
    seq![
        EventRecordView {
            event_id: "e_sc1"@,
            artist_id: "a0"@,
            venue_name: "Madison Square Garden"@,
            city: "New York"@,
            state: "NY"@,
            event_date: "2025-07-11"@,
            capacity: 20789,
        },
        EventRecordView {
            event_id: "e_sc2"@,
            artist_id: "a0"@,
            venue_name: "Madison Square Garden"@,
            city: "New York"@,
            state: "NY"@,
            event_date: "2025-07-12"@,
            capacity: 20789,
        },
        EventRecordView {
            event_id: "e_sc3"@,
            artist_id: "a0"@,
            venue_name: "Madison Square Garden"@,
            city: "New York"@,
            state: "NY"@,
            event_date: "2025-07-13"@,
            capacity: 20789,
        },
        EventRecordView {
            event_id: "e_sc4"@,
            artist_id: "a0"@,
            venue_name: "United Center"@,
            city: "Chicago"@,
            state: "IL"@,
            event_date: "2025-07-19"@,
            capacity: 20917,
        },
        EventRecordView {
            event_id: "e_sc5"@,
            artist_id: "a0"@,
            venue_name: "Chase Center"@,
            city: "San Francisco"@,
            state: "CA"@,
            event_date: "2025-07-25"@,
            capacity: 18064,
        },
        EventRecordView {
            event_id: "e_sc6"@,
            artist_id: "a0"@,
            venue_name: "Kia Forum"@,
            city: "Los Angeles"@,
            state: "CA"@,
            event_date: "2025-08-01"@,
            capacity: 17505,
        },
        EventRecordView {
            event_id: "e_sc7"@,
            artist_id: "a0"@,
            venue_name: "Kia Forum"@,
            city: "Los Angeles"@,
            state: "CA"@,
            event_date: "2025-08-02"@,
            capacity: 17505,
        },
        EventRecordView {
            event_id: "e_sc8"@,
            artist_id: "a0"@,
            venue_name: "Scotiabank Arena"@,
            city: "Toronto"@,
            state: "ON"@,
            event_date: "2025-08-09"@,
            capacity: 19800,
        },
        EventRecordView {
            event_id: "e_sc9"@,
            artist_id: "a0"@,
            venue_name: "TD Garden"@,
            city: "Boston"@,
            state: "MA"@,
            event_date: "2025-08-15"@,
            capacity: 19580,
        },
        EventRecordView {
            event_id: "e_sc10"@,
            artist_id: "a0"@,
            venue_name: "Capital One Arena"@,
            city: "Washington"@,
            state: "DC"@,
            event_date: "2025-08-22"@,
            capacity: 20356,
        },
        EventRecordView {
            event_id: "e_sc11"@,
            artist_id: "a0"@,
            venue_name: "State Farm Arena"@,
            city: "Atlanta"@,
            state: "GA"@,
            event_date: "2025-08-29"@,
            capacity: 21000,
        },
        EventRecordView {
            event_id: "e_sc12"@,
            artist_id: "a0"@,
            venue_name: "American Airlines Center"@,
            city: "Dallas"@,
            state: "TX"@,
            event_date: "2025-09-05"@,
            capacity: 20000,
        },
        EventRecordView {
            event_id: "e_sc13"@,
            artist_id: "a0"@,
            venue_name: "Ball Arena"@,
            city: "Denver"@,
            state: "CO"@,
            event_date: "2025-09-12"@,
            capacity: 19520,
        },
        EventRecordView {
            event_id: "e_sc14"@,
            artist_id: "a0"@,
            venue_name: "Rogers Place"@,
            city: "Edmonton"@,
            state: "AB"@,
            event_date: "2025-09-19"@,
            capacity: 18647,
        },
        EventRecordView {
            event_id: "e_sc15"@,
            artist_id: "a0"@,
            venue_name: "Climate Pledge Arena"@,
            city: "Seattle"@,
            state: "WA"@,
            event_date: "2025-09-26"@,
            capacity: 17459,
        },
        EventRecordView {
            event_id: "e1"@,
            artist_id: "a1"@,
            venue_name: "Arrowhead Stadium"@,
            city: "Kansas City"@,
            state: "MO"@,
            event_date: "2025-08-15"@,
            capacity: 70000,
        },
        EventRecordView {
            event_id: "e2"@,
            artist_id: "a1"@,
            venue_name: "Soldier Field"@,
            city: "Chicago"@,
            state: "IL"@,
            event_date: "2025-08-22"@,
            capacity: 61500,
        },
        EventRecordView {
            event_id: "e_ts3"@,
            artist_id: "a1"@,
            venue_name: "MetLife Stadium"@,
            city: "East Rutherford"@,
            state: "NJ"@,
            event_date: "2025-10-03"@,
            capacity: 82500,
        },
        EventRecordView {
            event_id: "e_ts4"@,
            artist_id: "a1"@,
            venue_name: "SoFi Stadium"@,
            city: "Los Angeles"@,
            state: "CA"@,
            event_date: "2025-10-17"@,
            capacity: 70240,
        },
        EventRecordView {
            event_id: "e3"@,
            artist_id: "a2"@,
            venue_name: "Madison Square Garden"@,
            city: "New York"@,
            state: "NY"@,
            event_date: "2025-09-10"@,
            capacity: 20789,
        },
        EventRecordView {
            event_id: "e7"@,
            artist_id: "a2"@,
            venue_name: "United Center"@,
            city: "Chicago"@,
            state: "IL"@,
            event_date: "2025-09-20"@,
            capacity: 20917,
        },
        EventRecordView {
            event_id: "e_m3"@,
            artist_id: "a2"@,
            venue_name: "Toyota Center"@,
            city: "Houston"@,
            state: "TX"@,
            event_date: "2025-10-10"@,
            capacity: 18300,
        },
        EventRecordView {
            event_id: "e4"@,
            artist_id: "a3"@,
            venue_name: "Hollywood Bowl"@,
            city: "Los Angeles"@,
            state: "CA"@,
            event_date: "2025-07-30"@,
            capacity: 17500,
        },
        EventRecordView {
            event_id: "e8"@,
            artist_id: "a3"@,
            venue_name: "Red Rocks Amphitheatre"@,
            city: "Morrison"@,
            state: "CO"@,
            event_date: "2025-08-05"@,
            capacity: 9525,
        },
        EventRecordView {
            event_id: "e_be3"@,
            artist_id: "a3"@,
            venue_name: "Barclays Center"@,
            city: "Brooklyn"@,
            state: "NY"@,
            event_date: "2025-09-14"@,
            capacity: 19000,
        },
        EventRecordView {
            event_id: "e5"@,
            artist_id: "a4"@,
            venue_name: "American Airlines Arena"@,
            city: "Miami"@,
            state: "FL"@,
            event_date: "2025-10-05"@,
            capacity: 19600,
        },
        EventRecordView {
            event_id: "e_bb2"@,
            artist_id: "a4"@,
            venue_name: "Yankee Stadium"@,
            city: "New York"@,
            state: "NY"@,
            event_date: "2025-10-18"@,
            capacity: 54251,
        },
        EventRecordView {
            event_id: "e6"@,
            artist_id: "a5"@,
            venue_name: "Chase Center"@,
            city: "San Francisco"@,
            state: "CA"@,
            event_date: "2025-11-12"@,
            capacity: 18064,
        },
        EventRecordView {
            event_id: "e_tw2"@,
            artist_id: "a5"@,
            venue_name: "T-Mobile Arena"@,
            city: "Las Vegas"@,
            state: "NV"@,
            event_date: "2025-11-20"@,
            capacity: 20000,
        },
        EventRecordView {
            event_id: "e_cr1"@,
            artist_id: "a6"@,
            venue_name: "Red Rocks Amphitheatre"@,
            city: "Morrison"@,
            state: "CO"@,
            event_date: "2025-07-04"@,
            capacity: 9525,
        },
        EventRecordView {
            event_id: "e_cr2"@,
            artist_id: "a6"@,
            venue_name: "The Gorge Amphitheatre"@,
            city: "George"@,
            state: "WA"@,
            event_date: "2025-07-12"@,
            capacity: 27500,
        },
        EventRecordView {
            event_id: "e_cr3"@,
            artist_id: "a6"@,
            venue_name: "Hollywood Bowl"@,
            city: "Los Angeles"@,
            state: "CA"@,
            event_date: "2025-08-10"@,
            capacity: 17500,
        },
        EventRecordView {
            event_id: "e_cr4"@,
            artist_id: "a6"@,
            venue_name: "Fiserv Forum"@,
            city: "Milwaukee"@,
            state: "WI"@,
            event_date: "2025-09-06"@,
            capacity: 17341,
        },
        EventRecordView {
            event_id: "e_or1"@,
            artist_id: "a7"@,
            venue_name: "Bridgestone Arena"@,
            city: "Nashville"@,
            state: "TN"@,
            event_date: "2025-08-08"@,
            capacity: 19000,
        },
        EventRecordView {
            event_id: "e_or2"@,
            artist_id: "a7"@,
            venue_name: "Moda Center"@,
            city: "Portland"@,
            state: "OR"@,
            event_date: "2025-08-16"@,
            capacity: 19980,
        },
        EventRecordView {
            event_id: "e_or3"@,
            artist_id: "a7"@,
            venue_name: "Little Caesars Arena"@,
            city: "Detroit"@,
            state: "MI"@,
            event_date: "2025-09-03"@,
            capacity: 19422,
        },
        EventRecordView {
            event_id: "e_hs1"@,
            artist_id: "a8"@,
            venue_name: "Allegiant Stadium"@,
            city: "Las Vegas"@,
            state: "NV"@,
            event_date: "2025-10-24"@,
            capacity: 65000,
        },
        EventRecordView {
            event_id: "e_hs2"@,
            artist_id: "a8"@,
            venue_name: "Mercedes-Benz Stadium"@,
            city: "Atlanta"@,
            state: "GA"@,
            event_date: "2025-11-01"@,
            capacity: 71000,
        },
        EventRecordView {
            event_id: "e_dc1"@,
            artist_id: "a9"@,
            venue_name: "Crypto.com Arena"@,
            city: "Los Angeles"@,
            state: "CA"@,
            event_date: "2025-09-27"@,
            capacity: 20000,
        },
        EventRecordView {
            event_id: "e_dc2"@,
            artist_id: "a9"@,
            venue_name: "PPG Paints Arena"@,
            city: "Pittsburgh"@,
            state: "PA"@,
            event_date: "2025-10-11"@,
            capacity: 18387,
        },
        EventRecordView {
            event_id: "e_sza1"@,
            artist_id: "a10"@,
            venue_name: "Spectrum Center"@,
            city: "Charlotte"@,
            state: "NC"@,
            event_date: "2025-08-23"@,
            capacity: 19026,
        },
        EventRecordView {
            event_id: "e_sza2"@,
            artist_id: "a10"@,
            venue_name: "Enterprise Center"@,
            city: "St. Louis"@,
            state: "MO"@,
            event_date: "2025-09-13"@,
            capacity: 18096,
        },
        EventRecordView {
            event_id: "e_sza3"@,
            artist_id: "a10"@,
            venue_name: "Paycom Center"@,
            city: "Oklahoma City"@,
            state: "OK"@,
            event_date: "2025-09-27"@,
            capacity: 18203,
        },
        EventRecordView {
            event_id: "e_ga1"@,
            artist_id: "a11"@,
            venue_name: "The Wiltern"@,
            city: "Los Angeles"@,
            state: "CA"@,
            event_date: "2025-07-22"@,
            capacity: 1850,
        },
        EventRecordView {
            event_id: "e_ga2"@,
            artist_id: "a11"@,
            venue_name: "Terminal 5"@,
            city: "New York"@,
            state: "NY"@,
            event_date: "2025-08-02"@,
            capacity: 3000,
        },
        EventRecordView {
            event_id: "e_ga3"@,
            artist_id: "a11"@,
            venue_name: "Riviera Theatre"@,
            city: "Chicago"@,
            state: "IL"@,
            event_date: "2025-08-18"@,
            capacity: 2300,
        },
        EventRecordView {
            event_id: "e_cp1"@,
            artist_id: "a12"@,
            venue_name: "Rose Bowl"@,
            city: "Pasadena"@,
            state: "CA"@,
            event_date: "2025-10-11"@,
            capacity: 90888,
        },
        EventRecordView {
            event_id: "e_cp2"@,
            artist_id: "a12"@,
            venue_name: "Gillette Stadium"@,
            city: "Foxborough"@,
            state: "MA"@,
            event_date: "2025-10-25"@,
            capacity: 65878,
        },
        EventRecordView {
            event_id: "e_cp3"@,
            artist_id: "a12"@,
            venue_name: "Hard Rock Stadium"@,
            city: "Miami Gardens"@,
            state: "FL"@,
            event_date: "2025-11-08"@,
            capacity: 65326,
        },
    ]
}

/// The catalog's ticket tiers, prices in cents.
pub open spec fn catalog_tickets() -> Seq<TicketRecordView> {
    seq![
        TicketRecordView {
            ticket_id: "t_sc1a"@,
            event_id: "e_sc1"@,
            price_cents: 24999,
            num_available: 1500,
        },
        TicketRecordView {
            ticket_id: "t_sc1b"@,
            event_id: "e_sc1"@,
            price_cents: 14999,
            num_available: 3000,
        },
        TicketRecordView {
            ticket_id: "t_sc1c"@,
            event_id: "e_sc1"@,
            price_cents: 8999,
            num_available: 6000,
        },
        TicketRecordView {
            ticket_id: "t_sc2a"@,
            event_id: "e_sc2"@,
            price_cents: 24999,
            num_available: 1500,
        },
        TicketRecordView {
            ticket_id: "t_sc2b"@,
            event_id: "e_sc2"@,
            price_cents: 14999,
            num_available: 3000,
        },
        TicketRecordView {
            ticket_id: "t_sc2c"@,
            event_id: "e_sc2"@,
            price_cents: 8999,
            num_available: 6000,
        },
        TicketRecordView {
            ticket_id: "t_sc3a"@,
            event_id: "e_sc3"@,
            price_cents: 29999,
            num_available: 1000,
        },
        TicketRecordView {
            ticket_id: "t_sc3b"@,
            event_id: "e_sc3"@,
            price_cents: 17999,
            num_available: 2500,
        },
        TicketRecordView {
            ticket_id: "t_sc3c"@,
            event_id: "e_sc3"@,
            price_cents: 9999,
            num_available: 5500,
        },
        TicketRecordView {
            ticket_id: "t_sc4a"@,
            event_id: "e_sc4"@,
            price_cents: 22999,
            num_available: 1800,
        },
        TicketRecordView {
            ticket_id: "t_sc4b"@,
            event_id: "e_sc4"@,
            price_cents: 12999,
            num_available: 4000,
        },
        TicketRecordView {
            ticket_id: "t_sc5a"@,
            event_id: "e_sc5"@,
            price_cents: 23999,
            num_available: 1500,
        },
        TicketRecordView {
            ticket_id: "t_sc5b"@,
            event_id: "e_sc5"@,
            price_cents: 13999,
            num_available: 3500,
        },
        TicketRecordView {
            ticket_id: "t_sc6a"@,
            event_id: "e_sc6"@,
            price_cents: 25999,
            num_available: 1200,
        },
        TicketRecordView {
            ticket_id: "t_sc6b"@,
            event_id: "e_sc6"@,
            price_cents: 15999,
            num_available: 3000,
        },
        TicketRecordView {
            ticket_id: "t_sc6c"@,
            event_id: "e_sc6"@,
            price_cents: 9999,
            num_available: 4500,
        },
        TicketRecordView {
            ticket_id: "t_sc7a"@,
            event_id: "e_sc7"@,
            price_cents: 25999,
            num_available: 1200,
        },
        TicketRecordView {
            ticket_id: "t_sc7b"@,
            event_id: "e_sc7"@,
            price_cents: 15999,
            num_available: 3000,
        },
        TicketRecordView {
            ticket_id: "t_sc7c"@,
            event_id: "e_sc7"@,
            price_cents: 9999,
            num_available: 4500,
        },
        TicketRecordView {
            ticket_id: "t_sc8a"@,
            event_id: "e_sc8"@,
            price_cents: 21999,
            num_available: 2000,
        },
        TicketRecordView {
            ticket_id: "t_sc8b"@,
            event_id: "e_sc8"@,
            price_cents: 11999,
            num_available: 4000,
        },
        TicketRecordView {
            ticket_id: "t_sc9a"@,
            event_id: "e_sc9"@,
            price_cents: 22999,
            num_available: 1800,
        },
        TicketRecordView {
            ticket_id: "t_sc9b"@,
            event_id: "e_sc9"@,
            price_cents: 12999,
            num_available: 3500,
        },
        TicketRecordView {
            ticket_id: "t_sc10a"@,
            event_id: "e_sc10"@,
            price_cents: 21999,
            num_available: 2200,
        },
        TicketRecordView {
            ticket_id: "t_sc10b"@,
            event_id: "e_sc10"@,
            price_cents: 11999,
            num_available: 4000,
        },
        TicketRecordView {
            ticket_id: "t_sc11a"@,
            event_id: "e_sc11"@,
            price_cents: 20999,
            num_available: 2500,
        },
        TicketRecordView {
            ticket_id: "t_sc11b"@,
            event_id: "e_sc11"@,
            price_cents: 10999,
            num_available: 5000,
        },
        TicketRecordView {
            ticket_id: "t_sc12a"@,
            event_id: "e_sc12"@,
            price_cents: 20999,
            num_available: 2200,
        },
        TicketRecordView {
            ticket_id: "t_sc12b"@,
            event_id: "e_sc12"@,
            price_cents: 10999,
            num_available: 4500,
        },
        TicketRecordView {
            ticket_id: "t_sc13a"@,
            event_id: "e_sc13"@,
            price_cents: 19999,
            num_available: 2000,
        },
        TicketRecordView {
            ticket_id: "t_sc13b"@,
            event_id: "e_sc13"@,
            price_cents: 10999,
            num_available: 4000,
        },
        TicketRecordView {
            ticket_id: "t_sc14a"@,
            event_id: "e_sc14"@,
            price_cents: 19999,
            num_available: 1800,
        },
        TicketRecordView {
            ticket_id: "t_sc14b"@,
            event_id: "e_sc14"@,
            price_cents: 10999,
            num_available: 3800,
        },
        TicketRecordView {
            ticket_id: "t_sc15a"@,
            event_id: "e_sc15"@,
            price_cents: 21999,
            num_available: 1800,
        },
        TicketRecordView {
            ticket_id: "t_sc15b"@,
            event_id: "e_sc15"@,
            price_cents: 11999,
            num_available: 3500,
        },
        TicketRecordView {
            ticket_id: "t1"@,
            event_id: "e1"@,
            price_cents: 8999,
            num_available: 500,
        },
        TicketRecordView {
            ticket_id: "t2"@,
            event_id: "e1"@,
            price_cents: 14999,
            num_available: 200,
        },
        TicketRecordView {
            ticket_id: "t3"@,
            event_id: "e2"@,
            price_cents: 9999,
            num_available: 350,
        },
        TicketRecordView {
            ticket_id: "t_ts3a"@,
            event_id: "e_ts3"@,
            price_cents: 19999,
            num_available: 800,
        },
        TicketRecordView {
            ticket_id: "t_ts3b"@,
            event_id: "e_ts3"@,
            price_cents: 12999,
            num_available: 1500,
        },
        TicketRecordView {
            ticket_id: "t_ts4a"@,
            event_id: "e_ts4"@,
            price_cents: 18999,
            num_available: 700,
        },
        TicketRecordView {
            ticket_id: "t_ts4b"@,
            event_id: "e_ts4"@,
            price_cents: 11999,
            num_available: 1200,
        },
        TicketRecordView {
            ticket_id: "t4"@,
            event_id: "e3"@,
            price_cents: 7999,
            num_available: 150,
        },
        TicketRecordView {
            ticket_id: "t8"@,
            event_id: "e7"@,
            price_cents: 8500,
            num_available: 600,
        },
        TicketRecordView {
            ticket_id: "t_m3"@,
            event_id: "e_m3"@,
            price_cents: 7500,
            num_available: 500,
        },
        TicketRecordView {
            ticket_id: "t5"@,
            event_id: "e4"@,
            price_cents: 6500,
            num_available: 400,
        },
        TicketRecordView {
            ticket_id: "t9"@,
            event_id: "e8"@,
            price_cents: 5500,
            num_available: 800,
        },
        TicketRecordView {
            ticket_id: "t_be3"@,
            event_id: "e_be3"@,
            price_cents: 9500,
            num_available: 450,
        },
        TicketRecordView {
            ticket_id: "t6"@,
            event_id: "e5"@,
            price_cents: 11000,
            num_available: 300,
        },
        TicketRecordView {
            ticket_id: "t_bb2a"@,
            event_id: "e_bb2"@,
            price_cents: 13500,
            num_available: 1200,
        },
        TicketRecordView {
            ticket_id: "t_bb2b"@,
            event_id: "e_bb2"@,
            price_cents: 8500,
            num_available: 2500,
        },
        TicketRecordView {
            ticket_id: "t7"@,
            event_id: "e6"@,
            price_cents: 12000,
            num_available: 250,
        },
        TicketRecordView {
            ticket_id: "t_tw2"@,
            event_id: "e_tw2"@,
            price_cents: 13000,
            num_available: 600,
        },
        TicketRecordView {
            ticket_id: "t_cr1"@,
            event_id: "e_cr1"@,
            price_cents: 7999,
            num_available: 800,
        },
        TicketRecordView {
            ticket_id: "t_cr2"@,
            event_id: "e_cr2"@,
            price_cents: 8999,
            num_available: 1500,
        },
        TicketRecordView {
            ticket_id: "t_cr3"@,
            event_id: "e_cr3"@,
            price_cents: 9999,
            num_available: 700,
        },
        TicketRecordView {
            ticket_id: "t_cr4"@,
            event_id: "e_cr4"@,
            price_cents: 7499,
            num_available: 900,
        },
        TicketRecordView {
            ticket_id: "t_or1"@,
            event_id: "e_or1"@,
            price_cents: 8500,
            num_available: 600,
        },
        TicketRecordView {
            ticket_id: "t_or2"@,
            event_id: "e_or2"@,
            price_cents: 8000,
            num_available: 750,
        },
        TicketRecordView {
            ticket_id: "t_or3"@,
            event_id: "e_or3"@,
            price_cents: 8800,
            num_available: 550,
        },
        TicketRecordView {
            ticket_id: "t_hs1a"@,
            event_id: "e_hs1"@,
            price_cents: 15000,
            num_available: 2000,
        },
        TicketRecordView {
            ticket_id: "t_hs1b"@,
            event_id: "e_hs1"@,
            price_cents: 9500,
            num_available: 5000,
        },
        TicketRecordView {
            ticket_id: "t_hs2a"@,
            event_id: "e_hs2"@,
            price_cents: 15000,
            num_available: 2200,
        },
        TicketRecordView {
            ticket_id: "t_hs2b"@,
            event_id: "e_hs2"@,
            price_cents: 9500,
            num_available: 5500,
        },
        TicketRecordView {
            ticket_id: "t_dc1"@,
            event_id: "e_dc1"@,
            price_cents: 10500,
            num_available: 800,
        },
        TicketRecordView {
            ticket_id: "t_dc2"@,
            event_id: "e_dc2"@,
            price_cents: 9500,
            num_available: 700,
        },
        TicketRecordView {
            ticket_id: "t_sza1"@,
            event_id: "e_sza1"@,
            price_cents: 9000,
            num_available: 700,
        },
        TicketRecordView {
            ticket_id: "t_sza2"@,
            event_id: "e_sza2"@,
            price_cents: 8500,
            num_available: 650,
        },
        TicketRecordView {
            ticket_id: "t_sza3"@,
            event_id: "e_sza3"@,
            price_cents: 8500,
            num_available: 600,
        },
        TicketRecordView {
            ticket_id: "t_ga1"@,
            event_id: "e_ga1"@,
            price_cents: 4500,
            num_available: 600,
        },
        TicketRecordView {
            ticket_id: "t_ga2"@,
            event_id: "e_ga2"@,
            price_cents: 4000,
            num_available: 900,
        },
        TicketRecordView {
            ticket_id: "t_ga3"@,
            event_id: "e_ga3"@,
            price_cents: 4200,
            num_available: 700,
        },
        TicketRecordView {
            ticket_id: "t_cp1a"@,
            event_id: "e_cp1"@,
            price_cents: 17500,
            num_available: 3000,
        },
        TicketRecordView {
            ticket_id: "t_cp1b"@,
            event_id: "e_cp1"@,
            price_cents: 9500,
            num_available: 8000,
        },
        TicketRecordView {
            ticket_id: "t_cp2a"@,
            event_id: "e_cp2"@,
            price_cents: 16500,
            num_available: 2500,
        },
        TicketRecordView {
            ticket_id: "t_cp2b"@,
            event_id: "e_cp2"@,
            price_cents: 9000,
            num_available: 7000,
        },
        TicketRecordView {
            ticket_id: "t_cp3a"@,
            event_id: "e_cp3"@,
            price_cents: 16500,
            num_available: 2500,
        },
        TicketRecordView {
            ticket_id: "t_cp3b"@,
            event_id: "e_cp3"@,
            price_cents: 9000,
            num_available: 7000,
        },
    ]
}

/// The demo user, with password hash `hash`.
pub open spec fn demo_user(hash: Seq<char>) -> UserRecordView {
    UserRecordView {
        user_id: "u1"@,
        username: "demo_user"@,
        email: "demo@tickethub.com"@,
        password_hash: hash,
        phone: Some("555-0100"@),
        creation_time: "2024-01-01T00:00:00"@,
    }
}

fn artist_row(id: &str, name: &str, genre: &str, bio: &str) -> (r: Artist)
    ensures
        r@ == (ArtistView { artist_id: id@, name: name@, genre: Some(genre@), bio: Some(bio@) }),
{
    Artist {
        artist_id: String::from_str(id),
        name: String::from_str(name),
        genre: Some(String::from_str(genre)),
        bio: Some(String::from_str(bio)),
    }
}

fn event_row(
    id: &str,
    artist: &str,
    venue: &str,
    city: &str,
    state: &str,
    date: &str,
    capacity: i64,
) -> (r: EventRecord)
    ensures
        r@ == (EventRecordView {
            event_id: id@,
            artist_id: artist@,
            venue_name: venue@,
            city: city@,
            state: state@,
            event_date: date@,
            capacity,
        }),
{
    EventRecord {
        event_id: String::from_str(id),
        artist_id: String::from_str(artist),
        venue_name: String::from_str(venue),
        city: String::from_str(city),
        state: String::from_str(state),
        event_date: String::from_str(date),
        capacity,
    }
}

fn ticket_row(id: &str, event: &str, price_cents: i64, num_available: i64) -> (r: TicketRecord)
    ensures
        r@ == (TicketRecordView { ticket_id: id@, event_id: event@, price_cents, num_available }),
{
    TicketRecord {
        ticket_id: String::from_str(id),
        event_id: String::from_str(event),
        price_cents,
        num_available,
    }
}

/// The catalog's artists as rows.
pub fn catalog_artist_rows() -> (r: Vec<Artist>)
    ensures
        views(r@) == catalog_artists(),
{
    let r = vec![
        artist_row(
            "a0",
            "Sabrina Carpenter",
            "Pop",
            "★ OUR UNDISPUTED QUEEN ★ Sabrina Carpenter is the greatest pop artist of her generation — full stop. From her breakout 'emails i can't send' era to the unstoppable 'Short n' Sweet' world tour, she has redefined what it means to be a pop star: razor-sharp wit, perfect melodies, and the stage presence of a goddess. Every other artist on this platform exists in her shadow and they know it.",
        ),
        artist_row(
            "a1",
            "Taylor Swift",
            "Pop",
            "Grammy-winning global pop superstar known for era-defining albums.",
        ),
        artist_row(
            "a2",
            "Metallica",
            "Metal",
            "Iconic heavy metal band formed in 1981 with decades of sold-out tours.",
        ),
        artist_row(
            "a3",
            "Billie Eilish",
            "Alternative Pop",
            "Whisper-pop sensation, multi-Grammy winner and Oscar winner.",
        ),
        artist_row(
            "a4",
            "Bad Bunny",
            "Reggaeton",
            "Latin trap and reggaeton global phenomenon from Puerto Rico.",
        ),
        artist_row(
            "a5",
            "The Weeknd",
            "R&B",
            "Critically acclaimed R&B and pop artist known for After Hours era.",
        ),
        artist_row(
            "a6",
            "Chappell Roan",
            "Indie Pop",
            "Midwest princess turned pop phenomenon, known for theatrical performances and debut album 'The Rise and Fall of a Midwest Princess'.",
        ),
        artist_row(
            "a7",
            "Olivia Rodrigo",
            "Pop Rock",
            "Multi-Grammy-winning singer-songwriter behind the generational debut 'SOUR' and follow-up 'GUTS'.",
        ),
        artist_row(
            "a8",
            "Harry Styles",
            "Pop Rock",
            "Former One Direction member turned critically acclaimed solo artist and fashion icon.",
        ),
        artist_row(
            "a9",
            "Doja Cat",
            "Pop/R&B",
            "Grammy-winning shapeshifter known for viral hits and her genre-bending 'Scarlet' era.",
        ),
        artist_row(
            "a10",
            "SZA",
            "R&B",
            "Multi-Grammy-nominated R&B powerhouse behind the critically acclaimed 'SOS' album.",
        ),
        artist_row(
            "a11",
            "Gracie Abrams",
            "Indie Pop",
            "Intimate indie-pop storyteller known for emotionally raw lyrics and a devoted cult following.",
        ),
        artist_row(
            "a12",
            "Coldplay",
            "Alternative Rock",
            "British rock icons whose stadium spectacles are legendary for their light shows and emotional anthems.",
        ),
    ];
    assert(views(r@) =~= catalog_artists());
    r
}

/// The catalog's events as rows.
pub fn catalog_event_rows() -> (r: Vec<EventRecord>)
    ensures
        views(r@) == catalog_events(),
{
    let r = vec![
        event_row("e_sc1", "a0", "Madison Square Garden", "New York", "NY", "2025-07-11", 20789),
        event_row("e_sc2", "a0", "Madison Square Garden", "New York", "NY", "2025-07-12", 20789),
        event_row("e_sc3", "a0", "Madison Square Garden", "New York", "NY", "2025-07-13", 20789),
        event_row("e_sc4", "a0", "United Center", "Chicago", "IL", "2025-07-19", 20917),
        event_row("e_sc5", "a0", "Chase Center", "San Francisco", "CA", "2025-07-25", 18064),
        event_row("e_sc6", "a0", "Kia Forum", "Los Angeles", "CA", "2025-08-01", 17505),
        event_row("e_sc7", "a0", "Kia Forum", "Los Angeles", "CA", "2025-08-02", 17505),
        event_row("e_sc8", "a0", "Scotiabank Arena", "Toronto", "ON", "2025-08-09", 19800),
        event_row("e_sc9", "a0", "TD Garden", "Boston", "MA", "2025-08-15", 19580),
        event_row("e_sc10", "a0", "Capital One Arena", "Washington", "DC", "2025-08-22", 20356),
        event_row("e_sc11", "a0", "State Farm Arena", "Atlanta", "GA", "2025-08-29", 21000),
        event_row("e_sc12", "a0", "American Airlines Center", "Dallas", "TX", "2025-09-05", 20000),
        event_row("e_sc13", "a0", "Ball Arena", "Denver", "CO", "2025-09-12", 19520),
        event_row("e_sc14", "a0", "Rogers Place", "Edmonton", "AB", "2025-09-19", 18647),
        event_row("e_sc15", "a0", "Climate Pledge Arena", "Seattle", "WA", "2025-09-26", 17459),
        event_row("e1", "a1", "Arrowhead Stadium", "Kansas City", "MO", "2025-08-15", 70000),
        event_row("e2", "a1", "Soldier Field", "Chicago", "IL", "2025-08-22", 61500),
        event_row("e_ts3", "a1", "MetLife Stadium", "East Rutherford", "NJ", "2025-10-03", 82500),
        event_row("e_ts4", "a1", "SoFi Stadium", "Los Angeles", "CA", "2025-10-17", 70240),
        event_row("e3", "a2", "Madison Square Garden", "New York", "NY", "2025-09-10", 20789),
        event_row("e7", "a2", "United Center", "Chicago", "IL", "2025-09-20", 20917),
        event_row("e_m3", "a2", "Toyota Center", "Houston", "TX", "2025-10-10", 18300),
        event_row("e4", "a3", "Hollywood Bowl", "Los Angeles", "CA", "2025-07-30", 17500),
        event_row("e8", "a3", "Red Rocks Amphitheatre", "Morrison", "CO", "2025-08-05", 9525),
        event_row("e_be3", "a3", "Barclays Center", "Brooklyn", "NY", "2025-09-14", 19000),
        event_row("e5", "a4", "American Airlines Arena", "Miami", "FL", "2025-10-05", 19600),
        event_row("e_bb2", "a4", "Yankee Stadium", "New York", "NY", "2025-10-18", 54251),
        event_row("e6", "a5", "Chase Center", "San Francisco", "CA", "2025-11-12", 18064),
        event_row("e_tw2", "a5", "T-Mobile Arena", "Las Vegas", "NV", "2025-11-20", 20000),
        event_row("e_cr1", "a6", "Red Rocks Amphitheatre", "Morrison", "CO", "2025-07-04", 9525),
        event_row("e_cr2", "a6", "The Gorge Amphitheatre", "George", "WA", "2025-07-12", 27500),
        event_row("e_cr3", "a6", "Hollywood Bowl", "Los Angeles", "CA", "2025-08-10", 17500),
        event_row("e_cr4", "a6", "Fiserv Forum", "Milwaukee", "WI", "2025-09-06", 17341),
        event_row("e_or1", "a7", "Bridgestone Arena", "Nashville", "TN", "2025-08-08", 19000),
        event_row("e_or2", "a7", "Moda Center", "Portland", "OR", "2025-08-16", 19980),
        event_row("e_or3", "a7", "Little Caesars Arena", "Detroit", "MI", "2025-09-03", 19422),
        event_row("e_hs1", "a8", "Allegiant Stadium", "Las Vegas", "NV", "2025-10-24", 65000),
        event_row("e_hs2", "a8", "Mercedes-Benz Stadium", "Atlanta", "GA", "2025-11-01", 71000),
        event_row("e_dc1", "a9", "Crypto.com Arena", "Los Angeles", "CA", "2025-09-27", 20000),
        event_row("e_dc2", "a9", "PPG Paints Arena", "Pittsburgh", "PA", "2025-10-11", 18387),
        event_row("e_sza1", "a10", "Spectrum Center", "Charlotte", "NC", "2025-08-23", 19026),
        event_row("e_sza2", "a10", "Enterprise Center", "St. Louis", "MO", "2025-09-13", 18096),
        event_row("e_sza3", "a10", "Paycom Center", "Oklahoma City", "OK", "2025-09-27", 18203),
        event_row("e_ga1", "a11", "The Wiltern", "Los Angeles", "CA", "2025-07-22", 1850),
        event_row("e_ga2", "a11", "Terminal 5", "New York", "NY", "2025-08-02", 3000),
        event_row("e_ga3", "a11", "Riviera Theatre", "Chicago", "IL", "2025-08-18", 2300),
        event_row("e_cp1", "a12", "Rose Bowl", "Pasadena", "CA", "2025-10-11", 90888),
        event_row("e_cp2", "a12", "Gillette Stadium", "Foxborough", "MA", "2025-10-25", 65878),
        event_row("e_cp3", "a12", "Hard Rock Stadium", "Miami Gardens", "FL", "2025-11-08", 65326),
    ];
    assert(views(r@) =~= catalog_events());
    r
}

/// The catalog's ticket tiers as rows.
pub fn catalog_ticket_rows() -> (r: Vec<TicketRecord>)
    ensures
        views(r@) == catalog_tickets(),
{
    let r = vec![
        ticket_row("t_sc1a", "e_sc1", 24999, 1500),
        ticket_row("t_sc1b", "e_sc1", 14999, 3000),
        ticket_row("t_sc1c", "e_sc1", 8999, 6000),
        ticket_row("t_sc2a", "e_sc2", 24999, 1500),
        ticket_row("t_sc2b", "e_sc2", 14999, 3000),
        ticket_row("t_sc2c", "e_sc2", 8999, 6000),
        ticket_row("t_sc3a", "e_sc3", 29999, 1000),
        ticket_row("t_sc3b", "e_sc3", 17999, 2500),
        ticket_row("t_sc3c", "e_sc3", 9999, 5500),
        ticket_row("t_sc4a", "e_sc4", 22999, 1800),
        ticket_row("t_sc4b", "e_sc4", 12999, 4000),
        ticket_row("t_sc5a", "e_sc5", 23999, 1500),
        ticket_row("t_sc5b", "e_sc5", 13999, 3500),
        ticket_row("t_sc6a", "e_sc6", 25999, 1200),
        ticket_row("t_sc6b", "e_sc6", 15999, 3000),
        ticket_row("t_sc6c", "e_sc6", 9999, 4500),
        ticket_row("t_sc7a", "e_sc7", 25999, 1200),
        ticket_row("t_sc7b", "e_sc7", 15999, 3000),
        ticket_row("t_sc7c", "e_sc7", 9999, 4500),
        ticket_row("t_sc8a", "e_sc8", 21999, 2000),
        ticket_row("t_sc8b", "e_sc8", 11999, 4000),
        ticket_row("t_sc9a", "e_sc9", 22999, 1800),
        ticket_row("t_sc9b", "e_sc9", 12999, 3500),
        ticket_row("t_sc10a", "e_sc10", 21999, 2200),
        ticket_row("t_sc10b", "e_sc10", 11999, 4000),
        ticket_row("t_sc11a", "e_sc11", 20999, 2500),
        ticket_row("t_sc11b", "e_sc11", 10999, 5000),
        ticket_row("t_sc12a", "e_sc12", 20999, 2200),
        ticket_row("t_sc12b", "e_sc12", 10999, 4500),
        ticket_row("t_sc13a", "e_sc13", 19999, 2000),
        ticket_row("t_sc13b", "e_sc13", 10999, 4000),
        ticket_row("t_sc14a", "e_sc14", 19999, 1800),
        ticket_row("t_sc14b", "e_sc14", 10999, 3800),
        ticket_row("t_sc15a", "e_sc15", 21999, 1800),
        ticket_row("t_sc15b", "e_sc15", 11999, 3500),
        ticket_row("t1", "e1", 8999, 500),
        ticket_row("t2", "e1", 14999, 200),
        ticket_row("t3", "e2", 9999, 350),
        ticket_row("t_ts3a", "e_ts3", 19999, 800),
        ticket_row("t_ts3b", "e_ts3", 12999, 1500),
        ticket_row("t_ts4a", "e_ts4", 18999, 700),
        ticket_row("t_ts4b", "e_ts4", 11999, 1200),
        ticket_row("t4", "e3", 7999, 150),
        ticket_row("t8", "e7", 8500, 600),
        ticket_row("t_m3", "e_m3", 7500, 500),
        ticket_row("t5", "e4", 6500, 400),
        ticket_row("t9", "e8", 5500, 800),
        ticket_row("t_be3", "e_be3", 9500, 450),
        ticket_row("t6", "e5", 11000, 300),
        ticket_row("t_bb2a", "e_bb2", 13500, 1200),
        ticket_row("t_bb2b", "e_bb2", 8500, 2500),
        ticket_row("t7", "e6", 12000, 250),
        ticket_row("t_tw2", "e_tw2", 13000, 600),
        ticket_row("t_cr1", "e_cr1", 7999, 800),
        ticket_row("t_cr2", "e_cr2", 8999, 1500),
        ticket_row("t_cr3", "e_cr3", 9999, 700),
        ticket_row("t_cr4", "e_cr4", 7499, 900),
        ticket_row("t_or1", "e_or1", 8500, 600),
        ticket_row("t_or2", "e_or2", 8000, 750),
        ticket_row("t_or3", "e_or3", 8800, 550),
        ticket_row("t_hs1a", "e_hs1", 15000, 2000),
        ticket_row("t_hs1b", "e_hs1", 9500, 5000),
        ticket_row("t_hs2a", "e_hs2", 15000, 2200),
        ticket_row("t_hs2b", "e_hs2", 9500, 5500),
        ticket_row("t_dc1", "e_dc1", 10500, 800),
        ticket_row("t_dc2", "e_dc2", 9500, 700),
        ticket_row("t_sza1", "e_sza1", 9000, 700),
        ticket_row("t_sza2", "e_sza2", 8500, 650),
        ticket_row("t_sza3", "e_sza3", 8500, 600),
        ticket_row("t_ga1", "e_ga1", 4500, 600),
        ticket_row("t_ga2", "e_ga2", 4000, 900),
        ticket_row("t_ga3", "e_ga3", 4200, 700),
        ticket_row("t_cp1a", "e_cp1", 17500, 3000),
        ticket_row("t_cp1b", "e_cp1", 9500, 8000),
        ticket_row("t_cp2a", "e_cp2", 16500, 2500),
        ticket_row("t_cp2b", "e_cp2", 9000, 7000),
        ticket_row("t_cp3a", "e_cp3", 16500, 2500),
        ticket_row("t_cp3b", "e_cp3", 9000, 7000),
    ];
    assert(views(r@) =~= catalog_tickets());
    r
}

/// The demo user's row, with password hash `hash`.
pub fn demo_user_row(hash: String) -> (r: UserRecord)
    ensures
        r@ == demo_user(hash@),
{
    UserRecord {
        user_id: String::from_str("u1"),
        username: String::from_str("demo_user"),
        email: String::from_str("demo@tickethub.com"),
        password_hash: hash,
        phone: Some(String::from_str("555-0100")),
        creation_time: String::from_str("2024-01-01T00:00:00"),
    }
}

} // verus!
