use server::order::{
    deliver_after_begin, deliver_after_commit, deliver_after_fetch, deliver_after_mark, deliver_begin,
    delivered_count_reply, new_order_reference, not_delivered_count_reply, order_after_card, order_after_commit,
    order_after_debit, order_after_name, order_after_open, order_after_price, order_after_record, order_after_stock,
    order_begin, order_reference, CardRecord, DeliverStep, NameLookup, OrderFlow, OrderStage, OrderStep,
};
use server::reply::{Reply, Status};

const SECRET: [u8; 16] = [7u8; 16];

fn body(products: &[u8]) -> Vec<u8> {
    let mut b = vec![0x0a, 0x1b, 0xc2, 0xff];
    b.extend_from_slice(&SECRET);
    b.extend_from_slice(&[0, 0]);
    b.extend_from_slice(products);
    b
}

fn done(step: OrderStep) -> Reply {
    match step {
        OrderStep::Done(r) => r,
        _ => panic!("expected an answer"),
    }
}

/// Runs an order for `products` up to the card check, pricing them at `prices`.
fn priced(products: &str, prices: &[i64]) -> OrderFlow {
    let mut step = match order_begin(&body(products.as_bytes())) {
        OrderStep::Open(f) => order_after_open(f, true),
        _ => panic!("expected an open"),
    };
    for p in prices {
        step = match step {
            OrderStep::PriceOf(f) => order_after_price(f, Some(*p)).expect("in range"),
            _ => panic!("expected a price lookup"),
        };
    }
    match step {
        OrderStep::CheckCard(f) => f,
        _ => panic!("expected a card check"),
    }
}

fn card(balance: i64) -> Option<CardRecord> {
    Some(CardRecord { server_uid: SECRET.to_vec(), lost: false, balance })
}

#[test]
fn order_counts() {
    let r = delivered_count_reply(Some(4));
    assert_eq!((r.status, r.body.as_str()), (Status::Success, "4"));
    let r = delivered_count_reply(None);
    assert_eq!((r.status, r.body.as_str()), (Status::InternalServerError, "CANNOT GET DELIVERED COUNT"));
    let r = not_delivered_count_reply(Some(0));
    assert_eq!((r.status, r.body.as_str()), (Status::Success, "0"));
    let r = not_delivered_count_reply(None);
    assert_eq!((r.status, r.body.as_str()), (Status::InternalServerError, "CANNOT GET NOT DELIVERED COUNT"));
}

#[test]
fn order_refuses_a_short_body() {
    let r = done(order_begin(&[1u8; 21]));
    assert_eq!((r.status, r.body.as_str()), (Status::BadRequest, "Invalid Data"));
}

#[test]
fn order_refuses_bad_utf8() {
    let r = done(order_begin(&body(&[0xff, 0xfe])));
    assert_eq!((r.status, r.body.as_str()), (Status::BadRequest, "Invalid UTF-8 in product list"));
}

#[test]
fn order_reads_the_request() {
    match order_begin(&body(b"3,5,3")) {
        OrderStep::Open(f) => assert_eq!(f.stage(), OrderStage::Opening),
        _ => panic!("expected an open"),
    }
    let r = done(match order_begin(&body(b"1")) {
        OrderStep::Open(f) => order_after_open(f, false),
        _ => panic!("expected an open"),
    });
    assert_eq!((r.status, r.body.as_str()), (Status::InternalServerError, "Database transaction failed"));
}

#[test]
fn order_prices_every_item_then_finds_the_card() {
    let mut step = match order_begin(&body(b"3,5")) {
        OrderStep::Open(f) => order_after_open(f, true),
        _ => panic!("expected an open"),
    };
    match &step {
        OrderStep::PriceOf(f) => assert_eq!(f.current_product(), "3"),
        _ => panic!("expected a price lookup"),
    }
    step = match step {
        OrderStep::PriceOf(f) => order_after_price(f, Some(20)).unwrap(),
        _ => unreachable!(),
    };
    match &step {
        OrderStep::PriceOf(f) => {
            assert_eq!(f.current_product(), "5");
            assert_eq!(f.total(), 20);
        }
        _ => panic!("expected a price lookup"),
    }
    step = match step {
        OrderStep::PriceOf(f) => order_after_price(f, Some(15)).unwrap(),
        _ => unreachable!(),
    };
    match &step {
        OrderStep::CheckCard(f) => {
            assert_eq!(f.total(), 35);
            assert_eq!(f.card_hex(), "0A1BC2FF");
        }
        _ => panic!("expected a card check"),
    }
}

#[test]
fn order_refuses_an_unknown_product() {
    let step = match order_begin(&body(b"3,x9")) {
        OrderStep::Open(f) => order_after_open(f, true),
        _ => unreachable!(),
    };
    let step = match step {
        OrderStep::PriceOf(f) => order_after_price(f, Some(1)).unwrap(),
        _ => unreachable!(),
    };
    let r = match step {
        OrderStep::PriceOf(f) => done(order_after_price(f, None).unwrap()),
        _ => unreachable!(),
    };
    assert_eq!((r.status, r.body.as_str()), (Status::NotFound, "Product x9 not found"));
}

#[test]
fn order_aborts_when_the_total_overflows() {
    let step = match order_begin(&body(b"1,2")) {
        OrderStep::Open(f) => order_after_open(f, true),
        _ => unreachable!(),
    };
    let step = match step {
        OrderStep::PriceOf(f) => order_after_price(f, Some(i64::MAX)).unwrap(),
        _ => unreachable!(),
    };
    match step {
        OrderStep::PriceOf(f) => assert!(order_after_price(f, Some(1)).is_none()),
        _ => unreachable!(),
    }
}

#[test]
fn order_card_checks() {
    let r = done(order_after_card(priced("1", &[10]), None));
    assert_eq!((r.status, r.body.as_str()), (Status::Forbidden, "CARD IS NOT A PUSIT CARD"));
    let wrong = Some(CardRecord { server_uid: vec![1u8; 16], lost: false, balance: 100 });
    let r = done(order_after_card(priced("1", &[10]), wrong));
    assert_eq!((r.status, r.body.as_str()), (Status::Unauthorized, "PUSIT CARD INVALID"));
    let lost = Some(CardRecord { server_uid: SECRET.to_vec(), lost: true, balance: 100 });
    let r = done(order_after_card(priced("1", &[10]), lost));
    assert_eq!((r.status, r.body.as_str()), (Status::Forbidden, "PUSIT CARD REPORTED AS LOST"));
    let r = done(order_after_card(priced("1,2", &[10, 5]), card(14)));
    assert_eq!((r.status, r.body.as_str()), (Status::PaymentRequired, "YOUR CARD BALANCE IS JUST ₱14"));
}

#[test]
fn order_is_placed_when_paid_for() {
    let mut step = order_after_card(priced("1,2", &[10, 5]), card(15));
    match &step {
        OrderStep::Debit(f) => {
            assert_eq!(f.total(), 15);
            assert_eq!(f.card_hex(), "0A1BC2FF");
        }
        _ => panic!("expected a debit"),
    }
    step = match step {
        OrderStep::Debit(f) => order_after_debit(f, true),
        _ => unreachable!(),
    };
    let mut taken = Vec::new();
    while let OrderStep::TakeStock(f) = step {
        taken.push(f.current_product().to_string());
        step = order_after_stock(f, true).expect("a reference");
    }
    assert_eq!(taken, vec!["1", "2"]);
    let reference = match &step {
        OrderStep::NameOf(f) => f.reference().to_string(),
        _ => panic!("expected a name lookup"),
    };
    assert!(reference.len() >= 19);
    assert!(reference.chars().all(|c| c.is_ascii_digit()));
    let mut asked = Vec::new();
    for name in ["Cola", "Chips"] {
        step = match step {
            OrderStep::NameOf(f) => {
                asked.push(f.current_product().to_string());
                order_after_name(f, NameLookup::Found(name.to_string()))
            }
            _ => panic!("expected a name lookup"),
        };
    }
    assert_eq!(asked, vec!["1", "2"]);
    step = match step {
        OrderStep::Record(f) => {
            assert_eq!(f.listing(), "Cola,Chips");
            assert_eq!(f.reference(), reference);
            order_after_record(f, true)
        }
        _ => panic!("expected a record"),
    };
    let r = match step {
        OrderStep::Commit(f) => order_after_commit(f, true),
        _ => panic!("expected a commit"),
    };
    assert_eq!(r.status, Status::Success);
    assert_eq!(r.body, reference);
}

/// Runs a paid order up to its first name lookup.
fn naming() -> OrderFlow {
    let mut step = match order_after_card(priced("4,6", &[1, 1]), card(5)) {
        OrderStep::Debit(f) => order_after_debit(f, true),
        _ => unreachable!(),
    };
    while let OrderStep::TakeStock(f) = step {
        step = order_after_stock(f, true).expect("a reference");
    }
    match step {
        OrderStep::NameOf(f) => f,
        _ => unreachable!(),
    }
}

#[test]
fn order_failures_after_the_card_check() {
    let r = match order_after_card(priced("1", &[1]), card(1)) {
        OrderStep::Debit(f) => done(order_after_debit(f, false)),
        _ => unreachable!(),
    };
    assert_eq!((r.status, r.body.as_str()), (Status::InternalServerError, "FAILED TO UPDATED BALANCE"));
    let r = match order_after_card(priced("1", &[1]), card(1)) {
        OrderStep::Debit(f) => match order_after_debit(f, true) {
            OrderStep::TakeStock(f) => done(order_after_stock(f, false).unwrap()),
            _ => unreachable!(),
        },
        _ => unreachable!(),
    };
    assert_eq!((r.status, r.body.as_str()), (Status::InternalServerError, "FAILED TO UPDATE INVENTORY"));
    let r = done(order_after_name(naming(), NameLookup::Missing));
    assert_eq!((r.status, r.body.as_str()), (Status::NotFound, "Product 4 not found"));
    let r = done(order_after_name(naming(), NameLookup::Unreadable));
    assert_eq!((r.status, r.body.as_str()), (Status::InternalServerError, "Failed"));
    let record = |ok: bool| match order_after_name(naming(), NameLookup::Found("A".to_string())) {
        OrderStep::NameOf(f) => match order_after_name(f, NameLookup::Found("B".to_string())) {
            OrderStep::Record(f) => order_after_record(f, ok),
            _ => unreachable!(),
        },
        _ => unreachable!(),
    };
    let r = done(record(false));
    assert_eq!((r.status, r.body.as_str()), (Status::InternalServerError, "ORDER FAILED"));
    let r = match record(true) {
        OrderStep::Commit(f) => order_after_commit(f, false),
        _ => unreachable!(),
    };
    assert_eq!((r.status, r.body.as_str()), (Status::InternalServerError, "FAILED TO COMMIT TRANSACTION"));
}

#[test]
fn reference_is_stamp_then_five_digits() {
    assert_eq!(order_reference("20240101120000", 42), "2024010112000000042");
    assert_eq!(order_reference("", 65535), "65535");
    let r = new_order_reference().expect("a reference");
    assert!(r.len() >= 19);
    assert!(r.chars().all(|c| c.is_ascii_digit()));
}

#[test]
fn deliver_refuses_a_short_reference() {
    match deliver_begin("123") {
        DeliverStep::Done(r) => {
            assert_eq!((r.status, r.body.as_str()), (Status::BadRequest, "INVALID ORDER REFERENCE NUMBER"))
        }
        _ => panic!("expected a refusal"),
    }
}

#[test]
fn deliver_hands_out_an_order_once() {
    let reference = "2024010112000000042";
    let step = deliver_begin(reference);
    let step = match step {
        DeliverStep::Fetch { reference: x } => {
            assert_eq!(x, reference);
            deliver_after_fetch(x, Some(("Cola,Chips".to_string(), 0)))
        }
        _ => panic!("expected a fetch"),
    };
    let step = match step {
        DeliverStep::Begin { reference: x, products } => deliver_after_begin(x, products, true),
        _ => panic!("expected a transaction"),
    };
    let step = match step {
        DeliverStep::MarkDelivered { reference: x, products } => {
            assert_eq!(x, reference);
            deliver_after_mark(products, true)
        }
        _ => panic!("expected a mark"),
    };
    let r = match step {
        DeliverStep::Commit { products } => deliver_after_commit(products, true),
        _ => panic!("expected a commit"),
    };
    assert_eq!((r.status, r.body.as_str()), (Status::Success, "Cola,Chips"));
    match deliver_after_fetch(reference.to_string(), Some(("Cola".to_string(), 1))) {
        DeliverStep::Done(r) => assert_eq!((r.status, r.body.as_str()), (Status::Unauthorized, "ALREADY DELIVERED")),
        _ => panic!("expected a refusal"),
    }
}

#[test]
fn deliver_failures() {
    match deliver_after_fetch("r".to_string(), None) {
        DeliverStep::Done(r) => {
            assert_eq!((r.status, r.body.as_str()), (Status::InternalServerError, "REFERENCE DOES NOT EXISTS"))
        }
        _ => panic!("expected a failure"),
    }
    match deliver_after_begin("r".to_string(), "p".to_string(), false) {
        DeliverStep::Done(r) => {
            assert_eq!((r.status, r.body.as_str()), (Status::InternalServerError, "Database transaction failed"))
        }
        _ => panic!("expected a failure"),
    }
    match deliver_after_mark("p".to_string(), false) {
        DeliverStep::Done(r) => assert_eq!((r.status, r.body.as_str()), (Status::InternalServerError, "CANNOT SET TO DELIVERED")),
        _ => panic!("expected a failure"),
    }
    let r = deliver_after_commit("p".to_string(), false);
    assert_eq!((r.status, r.body.as_str()), (Status::InternalServerError, "FAILED TO COMMIT TRANSACTION"));
}
