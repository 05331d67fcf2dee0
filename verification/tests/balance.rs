use server::balance::{add_balance_accepts, add_balance_after_credit, add_balance_after_read, add_balance_begin, total_balance_reply, AddBalanceStep};
use server::reply::Status;

#[test]
fn total_balance_is_in_pesos() {
    let r = total_balance_reply(Some(1500));
    assert_eq!(r.status, Status::Success);
    assert_eq!(r.body, "₱1500");
    let r = total_balance_reply(Some(-20));
    assert_eq!(r.body, "₱-20");
    let r = total_balance_reply(None);
    assert_eq!(r.status, Status::InternalServerError);
    assert_eq!(r.body, "-");
}

#[test]
fn add_balance_credits_the_parsed_amount() {
    match add_balance_begin("abcdef12,250") {
        AddBalanceStep::Credit { pattern, amount } => {
            assert_eq!(pattern, "ABCDEF12%");
            assert_eq!(amount, 250);
        }
        _ => panic!("expected a credit"),
    }
    match add_balance_begin("abcdef1234,-5,ignored") {
        AddBalanceStep::Credit { pattern, amount } => {
            assert_eq!(pattern, "ABCDEF1234%");
            assert_eq!(amount, -5);
        }
        _ => panic!("expected a credit"),
    }
}

#[test]
fn add_balance_refuses_a_short_uuid() {
    match add_balance_begin("abc,10") {
        AddBalanceStep::Done(r) => {
            assert_eq!(r.status, Status::BadRequest);
            assert_eq!(r.body, "Invalid CARD UUID");
        }
        _ => panic!("expected a refusal"),
    }
    // The uuid is checked before the amount.
    assert!(add_balance_accepts("abc,ten"));
    assert!(matches!(add_balance_begin("abc,ten"), AddBalanceStep::Done(_)));
}

#[test]
fn add_balance_aborts_where_the_original_panics() {
    assert!(!add_balance_accepts("abcdefgh"));
    assert!(!add_balance_accepts(""));
    assert!(!add_balance_accepts("abcdefgh,ten"));
    assert!(!add_balance_accepts("abcdefgh,"));
    assert!(!add_balance_accepts("0123ABCD"));
    assert!(add_balance_accepts("abcdefgh,12"));
}

#[test]
fn add_balance_credit_outcomes() {
    match add_balance_after_credit("AB%".to_string(), Some(1)) {
        AddBalanceStep::ReadBalance { pattern } => assert_eq!(pattern, "AB%"),
        _ => panic!("expected a read"),
    }
    for rows in [None, Some(0)] {
        match add_balance_after_credit("AB%".to_string(), rows) {
            AddBalanceStep::Done(r) => {
                assert_eq!(r.status, Status::BadRequest);
                assert_eq!(r.body, "Card UUID Not Found");
            }
            _ => panic!("expected a refusal"),
        }
    }
}

#[test]
fn add_balance_reports_the_balance_read() {
    let r = add_balance_after_read(Some(750));
    assert_eq!(r.status, Status::Success);
    assert_eq!(r.body, "750");
    let r = add_balance_after_read(None);
    assert_eq!(r.status, Status::BadRequest);
    assert_eq!(r.body, "Failed");
}

#[test]
fn handed_uuid_tops_up_its_card() {
    let uuid = [0xabu8, 0xcd, 0xef, 0x01, 0x23, 0x45, 0x67, 0x89, 0x9a, 0xbc, 0xde, 0xf0, 0x0f, 0x1e, 0x2d, 0x3c];
    let body = format!("{},100", hex::encode(uuid));
    assert!(add_balance_accepts(&body));
    match add_balance_begin(&body) {
        AddBalanceStep::Credit { pattern, amount } => {
            assert_eq!(pattern, format!("{}%", hex::encode_upper(uuid)));
            assert_eq!(amount, 100);
        }
        _ => panic!("expected a credit"),
    }
}
