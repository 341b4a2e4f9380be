//! Tests for request decoding: the JSON boundary plus the exact field
//! validation table.

use uno::protocol::{decode_request, from_fields, Request};

#[test]
fn decode_join() {
    let r = decode_request(br#"{"request_type":"join","name":"alice"}"#);
    match r {
        Some(Request::Join { name }) => assert_eq!(name, "alice"),
        _ => panic!("expected a join request"),
    }
}

#[test]
fn decode_take_cards() {
    let r = decode_request(br#"{"request_type":"take_cards","name":"bob","num":6}"#);
    match r {
        Some(Request::TakeCards { name, num }) => {
            assert_eq!(name, "bob");
            assert_eq!(num, 6);
        },
        _ => panic!("expected a take_cards request"),
    }
}

#[test]
fn decode_use_card() {
    let r = decode_request(br#"{"request_type":"use_card","name":"bob","card_index":3}"#);
    match r {
        Some(Request::UseCard { name, card_index }) => {
            assert_eq!(name, "bob");
            assert_eq!(card_index, 3);
        },
        _ => panic!("expected a use_card request"),
    }
}

#[test]
fn decode_simple_kinds() {
    assert!(matches!(
        decode_request(br#"{"request_type":"get_players"}"#),
        Some(Request::GetPlayers)
    ));
    assert!(matches!(decode_request(br#"{"request_type":"get_plus"}"#), Some(Request::GetPlus)));
    assert!(matches!(
        decode_request(br#"{"request_type":"reset_plus"}"#),
        Some(Request::ResetPlus)
    ));
    assert!(matches!(
        decode_request(br#"{"request_type":"current_turn"}"#),
        Some(Request::CurrentTurn)
    ));
    assert!(matches!(decode_request(br#"{"request_type":"top_card"}"#), Some(Request::TopCard)));
}

#[test]
fn decode_cycle_color() {
    let r = decode_request(br#"{"request_type":"cycle_color_up","name":"bob","card_index":0}"#);
    assert!(matches!(r, Some(Request::CycleColorUp { .. })));
    let r = decode_request(br#"{"request_type":"cycle_color_down","name":"bob","card_index":1}"#);
    assert!(matches!(r, Some(Request::CycleColorDown { .. })));
}

#[test]
fn decode_rejects_malformed_payload() {
    assert!(decode_request(b"this is not json").is_none());
    assert!(decode_request(b"").is_none());
    assert!(decode_request(br#"{"request_type":"#).is_none());
}

#[test]
fn decode_rejects_missing_required_field() {
    // A join without a name, and a use_card without an index.
    assert!(decode_request(br#"{"request_type":"join"}"#).is_none());
    assert!(decode_request(br#"{"request_type":"use_card","name":"bob"}"#).is_none());
    assert!(decode_request(br#"{"request_type":"take_cards","name":"bob"}"#).is_none());
}

#[test]
fn decode_rejects_unknown_kind() {
    assert!(decode_request(br#"{"request_type":"quit"}"#).is_none());
    assert!(decode_request(br#"{"other":"join"}"#).is_none());
}

#[test]
fn decode_rejects_wrongly_typed_field() {
    assert!(decode_request(br#"{"request_type":"join","name":7}"#).is_none());
    assert!(decode_request(br#"{"request_type":"use_card","name":"bob","card_index":"x"}"#)
        .is_none());
}

#[test]
fn decode_rejects_out_of_range_index() {
    assert!(decode_request(br#"{"request_type":"use_card","name":"bob","card_index":-1}"#)
        .is_none());
    assert!(decode_request(br#"{"request_type":"take_cards","name":"bob","num":-3}"#).is_none());
    assert!(
        decode_request(br#"{"request_type":"take_cards","name":"bob","num":5000000000}"#).is_none()
    );
}

#[test]
fn from_fields_exact_table() {
    let r = from_fields(String::from("join"), Some(String::from("carol")), None, None);
    match r {
        Some(Request::Join { name }) => assert_eq!(name, "carol"),
        _ => panic!("expected a join request"),
    }
    assert!(from_fields(String::from("join"), None, None, None).is_none());
    assert!(from_fields(String::from("nonsense"), Some(String::from("x")), None, None).is_none());
    let r = from_fields(String::from("get_card_num"), Some(String::from("carol")), None, None);
    assert!(matches!(r, Some(Request::GetCardNum { .. })));
    let r = from_fields(String::from("get_cards"), Some(String::from("carol")), None, None);
    assert!(matches!(r, Some(Request::GetCards { .. })));
}
