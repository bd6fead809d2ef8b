use swapbytes::network::action::Action;
use swapbytes::network::command::{
    create_room, extend_rooms, fetch_rooms, request_file, respond_file, send_message,
    update_rating,
};
use swapbytes::network::keys::{format_nickname_key, format_rating_key, format_rooms_key};
use swapbytes::network::network::{
    Request, Response, FILE_EXCHANGE_PROTOCOL, REQUEST_TIMEOUT_SECS,
};
use swapbytes::network::pending::{QueryPurpose, RatingUpdate};
use swapbytes::network::record::{Quorum, Record};

#[test]
fn the_keys_of_the_store_follow_their_pattern() {
    assert_eq!(format_nickname_key("P_A"), "nickname_P_A");
    assert_eq!(format_rating_key("P_A"), "rating_P_A");
    assert_eq!(format_rooms_key(), "rooms");
    assert_eq!(format_nickname_key(""), "nickname_");
}

#[test]
fn a_record_of_this_application_names_no_publisher_and_never_runs_out() {
    let record = Record::new("rooms".to_string(), vec![0x80]);
    assert_eq!(
        record,
        Record { key: "rooms".to_string(), value: vec![0x80], publisher: None, expires: None }
    );
}

#[test]
fn the_file_exchange_has_its_protocol_name_and_its_long_timeout() {
    assert_eq!(FILE_EXCHANGE_PROTOCOL, "/file-exchange/1");
    assert_eq!(REQUEST_TIMEOUT_SECS, 2 * 60 * 60);
}

#[test]
fn the_rooms_are_fetched_under_their_key() {
    assert_eq!(
        fetch_rooms::<u32>(),
        Action::GetRecord { key: "rooms".to_string(), purpose: None }
    );
}

#[test]
fn a_message_goes_out_as_its_bytes() {
    assert_eq!(
        send_message::<u32>("COSC473".to_string(), "hi ✨".to_string()),
        Action::Publish { topic: "COSC473".to_string(), data: "hi ✨".as_bytes().to_vec() }
    );
    assert_eq!(
        send_message::<u32>("Global".to_string(), String::new()),
        Action::Publish { topic: "Global".to_string(), data: vec![] }
    );
}

#[test]
fn a_file_is_asked_for_in_words() {
    assert_eq!(
        request_file::<u32>("send notes please".to_string(), "P_B".to_string()),
        Action::SendRequest {
            peer: "P_B".to_string(),
            request: Request { message: "send notes please".to_string() }
        }
    );
}

#[test]
fn a_file_that_could_not_be_read_goes_out_empty() {
    assert_eq!(
        respond_file("notes.pdf".to_string(), Some(vec![9, 8, 7]), 5u32),
        Action::SendResponse {
            channel: 5,
            response: Response { filename: "notes.pdf".to_string(), data: vec![9, 8, 7] }
        }
    );
    assert_eq!(
        respond_file("notes.pdf".to_string(), None, 5u32),
        Action::SendResponse {
            channel: 5,
            response: Response { filename: "notes.pdf".to_string(), data: vec![] }
        }
    );
}

#[test]
fn the_update_of_a_rating_begins_with_a_lookup() {
    assert_eq!(
        update_rating::<u32>("P_B".to_string(), -1),
        Action::GetRecord {
            key: "rating_P_B".to_string(),
            purpose: Some(QueryPurpose::RatingUpdate(RatingUpdate {
                peer: "P_B".to_string(),
                delta: -1
            }))
        }
    );
}

#[test]
fn a_room_joins_the_end_of_the_list() {
    assert_eq!(extend_rooms(None, "A".to_string()), vec!["A"]);
    assert_eq!(extend_rooms(Some(Vec::new()), "A".to_string()), vec!["A"]);
    assert_eq!(
        extend_rooms(Some(vec!["A".to_string(), "B".to_string()]), "A".to_string()),
        vec!["A", "B", "A"]
    );
}

#[test]
fn a_room_is_created_by_storing_the_longer_list() {
    let stored = |rooms: Vec<&str>| {
        let rooms: Vec<String> = rooms.into_iter().map(String::from).collect();
        Some(Action::<u32>::PutRecord {
            record: Record {
                key: "rooms".to_string(),
                value: serde_cbor::to_vec(&rooms).unwrap(),
                publisher: None,
                expires: None,
            },
            quorum: Quorum::One,
            required: false,
        })
    };
    assert_eq!(create_room::<u32>("COSC999".to_string(), None), stored(vec!["COSC999"]));
    assert_eq!(
        create_room::<u32>("B".to_string(), Some(serde_cbor::to_vec(&vec!["A"]).unwrap())),
        stored(vec!["A", "B"])
    );
    assert_eq!(create_room::<u32>("B".to_string(), Some(vec![0x80])), stored(vec!["B"]));
    // the stored record is a rating, not a list
    assert_eq!(create_room::<u32>("B".to_string(), Some(vec![0x01])), None);
    assert_eq!(create_room::<u32>("B".to_string(), Some(vec![])), None);
}
