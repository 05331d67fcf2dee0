use server::card::{
    card_credentials, generate_server_uid, mark_lost_after_read, mark_lost_after_write, mark_lost_begin,
    new_card_after_insert, new_card_begin, new_card_plan, MarkLostStep, NewCardStep,
};
use server::reply::Status;

#[test]
fn server_uid_is_random() {
    let a = generate_server_uid().expect("os randomness");
    let b = generate_server_uid().expect("os randomness");
    assert_ne!(a, b);
}

#[test]
fn credentials_are_server_uid_then_uuid() {
    let s = [1u8; 16];
    let u = [2u8; 16];
    let c = card_credentials(&s, &u);
    assert_eq!(&c[..16], &s[..]);
    assert_eq!(&c[16..], &u[..]);
}

#[test]
fn new_card_refuses_a_short_body() {
    match new_card_begin(&[1, 2, 3]) {
        Some(NewCardStep::Done(r)) => {
            assert_eq!(r.status, Status::BadRequest);
            assert_eq!(r.body, [0u8; 32]);
        }
        _ => panic!("expected a refusal"),
    }
}

#[test]
fn new_card_draws_a_version_4_uuid() {
    match new_card_begin(&[9, 8, 7, 6, 5]) {
        Some(NewCardStep::Insert { uid, uuid, server_uid }) => {
            assert_eq!(uid, [9, 8, 7, 6]);
            assert_eq!(uuid[6] >> 4, 4);
            assert_eq!(uuid[8] >> 6, 2);
            assert_ne!(uuid, server_uid);
        }
        _ => panic!("expected an insert"),
    }
}

#[test]
fn new_card_plan_keeps_what_was_drawn() {
    match new_card_plan(&[1, 2, 3, 4], [5u8; 16], [6u8; 16]) {
        NewCardStep::Insert { uid, uuid, server_uid } => {
            assert_eq!(uid, [1, 2, 3, 4]);
            assert_eq!(uuid, [5u8; 16]);
            assert_eq!(server_uid, [6u8; 16]);
        }
        _ => panic!("expected an insert"),
    }
}

#[test]
fn new_card_answers() {
    let u = [3u8; 16];
    let s = [4u8; 16];
    let r = new_card_after_insert(&u, &s, Some(1));
    assert_eq!(r.status, Status::Success);
    assert_eq!(&r.body[..16], &s[..]);
    assert_eq!(&r.body[16..], &u[..]);
    let r = new_card_after_insert(&u, &s, Some(0));
    assert_eq!(r.status, Status::BadRequest);
    assert_eq!(r.body, [0u8; 32]);
    let r = new_card_after_insert(&u, &s, None);
    assert_eq!(r.status, Status::InternalServerError);
    assert_eq!(r.body, [0u8; 32]);
}

#[test]
fn mark_lost_refuses_a_short_uuid() {
    match mark_lost_begin("abc") {
        MarkLostStep::Done(r) => {
            assert_eq!(r.status, Status::BadRequest);
            assert_eq!(r.body, "Invalid UUID");
        }
        _ => panic!("expected a refusal"),
    }
}

#[test]
fn mark_lost_reads_by_upper_case_prefix() {
    match mark_lost_begin("deadbeef01") {
        MarkLostStep::ReadLost { pattern } => assert_eq!(pattern, "DEADBEEF01%"),
        _ => panic!("expected a read"),
    }
}

#[test]
fn mark_lost_toggles_the_flag() {
    for was in [false, true] {
        match mark_lost_after_read("P%".to_string(), Some(was)) {
            MarkLostStep::WriteLost { pattern, lost } => {
                assert_eq!(pattern, "P%");
                assert_eq!(lost, !was);
            }
            _ => panic!("expected a write"),
        }
    }
    match mark_lost_after_read("P%".to_string(), None) {
        MarkLostStep::Done(r) => {
            assert_eq!(r.status, Status::InternalServerError);
            assert_eq!(r.body, "Not Found");
        }
        _ => panic!("expected a refusal"),
    }
}

#[test]
fn mark_lost_answers() {
    let r = mark_lost_after_write(true, Some(1));
    assert_eq!((r.status, r.body.as_str()), (Status::Success, "Success: LOST"));
    let r = mark_lost_after_write(false, Some(2));
    assert_eq!((r.status, r.body.as_str()), (Status::Success, "Success: UNLOST"));
    let r = mark_lost_after_write(true, Some(0));
    assert_eq!((r.status, r.body.as_str()), (Status::BadRequest, "Not Found"));
    let r = mark_lost_after_write(true, None);
    assert_eq!((r.status, r.body.as_str()), (Status::InternalServerError, "Failed"));
}

#[test]
fn status_codes() {
    assert_eq!(Status::Success.code(), 200);
    assert_eq!(Status::BadRequest.code(), 400);
    assert_eq!(Status::Unauthorized.code(), 401);
    assert_eq!(Status::PaymentRequired.code(), 402);
    assert_eq!(Status::Forbidden.code(), 403);
    assert_eq!(Status::NotFound.code(), 404);
    assert_eq!(Status::InternalServerError.code(), 500);
}
