use vstd::prelude::*;
use vstd::utf8::{decode_utf8, encode_utf8, is_ascii_chars, valid_utf8};
use crate::balance::peso;
use crate::encoding::{hex_encode, hex_lower, to_uppercase, uppercase_of, utf8_text};
use crate::entropy::{os_random_16, stamp_char, unix_seconds, utc_stamp, utc_stamp_of};
use crate::reply::{count_reply, reply, Reply, Status};
use crate::text::{
    append_five_digits, byte_len, bytes_equal, decimal, five_digits, i64_to_text, join_commas,
    join_with, lemma_join_length, lemma_split_join, pieces_free_of, split_commas, split_on, texts,
    total_len,
};

verus! {

/// The answer to a request for the number of delivered orders (`None` where
/// the store failed).
pub fn delivered_count_reply(count: Option<i64>) -> (r: Reply)
    ensures
        count matches Some(n) ==> r.status == Status::Success && r.body@ == decimal(n as int),
        count is None ==> r.status == Status::InternalServerError && r.body@
            == "CANNOT GET DELIVERED COUNT"@,
{
    count_reply(count, "CANNOT GET DELIVERED COUNT")
}

/// The answer to a request for the number of orders not delivered yet
/// (`None` where the store failed).
pub fn not_delivered_count_reply(count: Option<i64>) -> (r: Reply)
    ensures
        count matches Some(n) ==> r.status == Status::Success && r.body@ == decimal(n as int),
        count is None ==> r.status == Status::InternalServerError && r.body@
            == "CANNOT GET NOT DELIVERED COUNT"@,
{
    count_reply(count, "CANNOT GET NOT DELIVERED COUNT")
}

// ----- delivering an order -----

/// The steps of handing out an order.
pub enum DeliverStep {
    /// Read the products and the delivered flag of the order `reference`.
    Fetch { reference: String },
    /// Open a transaction.
    Begin { reference: String, products: String },
    /// Mark the order `reference` delivered.
    MarkDelivered { reference: String, products: String },
    /// Commit the transaction.
    Commit { products: String },
    /// Answer the request.
    Done(Reply),
}

/// Starts handing out the order whose reference is `body`; a reference
/// shorter than 19 bytes is refused before the store is asked anything.
pub fn deliver_begin(body: &str) -> (r: DeliverStep)
    ensures
        byte_len(body@) < 19 ==> (r matches DeliverStep::Done(a) && a.status == Status::BadRequest
            && a.body@ == "INVALID ORDER REFERENCE NUMBER"@),
        byte_len(body@) >= 19 ==> (r matches DeliverStep::Fetch { reference } && reference@
            == body@),
{
    if body.len() < 19 {
        DeliverStep::Done(reply(Status::BadRequest, "INVALID ORDER REFERENCE NUMBER"))
    } else {
        DeliverStep::Fetch { reference: String::from_str(body) }
    }
}

/// After reading the order: its products and delivered flag, or `None`
/// where there is no such order or the store failed. An order already
/// delivered is refused, and nothing is written.
pub fn deliver_after_fetch(reference: String, order: Option<(String, i64)>) -> (r: DeliverStep)
    ensures
        order is None ==> (r matches DeliverStep::Done(a) && a.status
            == Status::InternalServerError && a.body@ == "REFERENCE DOES NOT EXISTS"@),
        order matches Some((_, d)) && d == 1 ==> (r matches DeliverStep::Done(a) && a.status
            == Status::Unauthorized && a.body@ == "ALREADY DELIVERED"@),
        order matches Some((p, d)) ==> (d != 1 ==> (r matches DeliverStep::Begin {
            reference: x,
            products,
        } && x@ == reference@ && products@ == p@)),
{
    match order {
        None => DeliverStep::Done(reply(Status::InternalServerError, "REFERENCE DOES NOT EXISTS")),
        Some((products, delivered)) => {
            if delivered == 1 {
                DeliverStep::Done(reply(Status::Unauthorized, "ALREADY DELIVERED"))
            } else {
                DeliverStep::Begin { reference, products }
            }
        },
    }
}

/// After opening the transaction (`ok` is false where that failed).
pub fn deliver_after_begin(reference: String, products: String, ok: bool) -> (r: DeliverStep)
    ensures
        !ok ==> (r matches DeliverStep::Done(a) && a.status == Status::InternalServerError
            && a.body@ == "Database transaction failed"@),
        ok ==> (r matches DeliverStep::MarkDelivered { reference: x, products: p } && x@
            == reference@ && p@ == products@),
{
    if ok {
        DeliverStep::MarkDelivered { reference, products }
    } else {
        DeliverStep::Done(reply(Status::InternalServerError, "Database transaction failed"))
    }
}

/// After marking the order delivered (`ok` is false where that failed).
pub fn deliver_after_mark(products: String, ok: bool) -> (r: DeliverStep)
    ensures
        !ok ==> (r matches DeliverStep::Done(a) && a.status == Status::InternalServerError
            && a.body@ == "CANNOT SET TO DELIVERED"@),
        ok ==> (r matches DeliverStep::Commit { products: p } && p@ == products@),
{
    if ok {
        DeliverStep::Commit { products }
    } else {
        DeliverStep::Done(reply(Status::InternalServerError, "CANNOT SET TO DELIVERED"))
    }
}

/// After committing (`ok` is false where that failed): the order's products
/// are handed back.
pub fn deliver_after_commit(products: String, ok: bool) -> (r: Reply)
    ensures
        !ok ==> r.status == Status::InternalServerError && r.body@
            == "FAILED TO COMMIT TRANSACTION"@,
        ok ==> r.status == Status::Success && r.body@ == products@,
{
    if ok {
        Reply { status: Status::Success, body: products }
    } else {
        reply(Status::InternalServerError, "FAILED TO COMMIT TRANSACTION")
    }
}

// ----- placing an order -----

/// The five-digit tail of an order reference after its timestamp.
pub open spec fn reference_of(stamp: Seq<char>, nonce: nat) -> Seq<char> {
    stamp + five_digits(nonce)
}

/// Whether `s` is a timestamp as chrono writes it: at least 14
/// characters, each a digit or a sign.
pub open spec fn is_stamp(s: Seq<char>) -> bool {
    s.len() >= 14 && forall|i: int| 0 <= i < s.len() ==> stamp_char(#[trigger] s[i])
}

/// Whether `r` is an order reference: a timestamp followed by five digits
/// that write a `u16`.
pub open spec fn is_reference(r: Seq<char>) -> bool {
    exists|stamp: Seq<char>, nonce: nat|
        nonce < 65536 && is_stamp(stamp) && r == #[trigger] reference_of(stamp, nonce)
}

/// Every order reference is at least 19 characters long, all ASCII, so its
/// UTF-8 encoding has at least 19 bytes: it passes the length check with
/// which an order is handed out.
pub proof fn lemma_reference_passes_delivery_check(r: Seq<char>)
    requires
        is_reference(r),
    ensures
        r.len() >= 19,
        is_ascii_chars(r),
        encode_utf8(r).len() >= 19,
        encode_utf8(r).len() <= usize::MAX ==> byte_len(r) >= 19,
{
    let (stamp, nonce) = choose|stamp: Seq<char>, nonce: nat|
        nonce < 65536 && is_stamp(stamp) && r == #[trigger] reference_of(stamp, nonce);
    assert forall|i: int| 0 <= i < r.len() implies '\0' <= #[trigger] r[i] <= '\u{7f}' by {
        if i < stamp.len() {
            assert(r[i] == stamp[i]);
            assert(stamp_char(stamp[i]));
        } else {
            assert(r[i] == five_digits(nonce)[i - stamp.len()]);
        }
    }
    vstd::utf8::is_ascii_chars_encode_utf8(r);
}

/// The reference of an order, `format!("{}{:05}", stamp, nonce)`.
pub fn order_reference(stamp: &str, nonce: u16) -> (r: String)
    ensures
        r@ == reference_of(stamp@, nonce as nat),
{
    let mut r = String::from_str(stamp);
    append_five_digits(&mut r, nonce);
    r
}

/// The order reference for the time `secs` seconds after 1970-01-01 UTC
/// and sixteen random bytes: the time as chrono writes `%Y%m%d%H%M%S`,
/// followed by the `u16` of the first two bytes in five digits. `None` where
/// `secs` is beyond what chrono represents; from 1970 to the end of 9999 the
/// stamp is fourteen digits, so the reference is nineteen.
pub fn order_reference_at(secs: u64, random: [u8; 16]) -> (r: Option<String>)
    ensures
        r matches Some(t) ==> secs <= i64::MAX && t@ == reference_of(
            utc_stamp_of(secs as int),
            (random@[0] * 256 + random@[1]) as nat,
        ) && is_reference(t@) && t@.len() >= 19,
        secs < 253402300800 ==> (r matches Some(t) && t@.len() == 19),
{
    if secs > 9223372036854775807u64 {
        return None;
    }
    let stamp = match utc_stamp(secs as i64) {
        None => {
            return None;
        },
        Some(t) => t,
    };
    let nonce: u16 = (random[0] as u16) * 256 + random[1] as u16;
    let r = order_reference(stamp.as_str(), nonce);
    assert(r@ == reference_of(stamp@, nonce as nat));
    assert(is_stamp(stamp@));
    proof {
        lemma_reference_passes_delivery_check(r@);
    }
    Some(r)
}

/// A fresh order reference: the current UTC time as chrono writes
/// `%Y%m%d%H%M%S`, followed by a random number of five digits, as
/// `order_reference_at` makes it from the clock's reading and the random
/// bytes drawn. `None` where the clock reads before 1970 or beyond what
/// chrono represents, or the system refuses random bytes. The clock and the
/// draw are read from the system, so the contract states what holds of
/// every reading: the reference is a timestamp of some time followed by
/// five digits.
pub fn new_order_reference() -> (r: Option<String>)
    ensures
        r matches Some(t) ==> is_reference(t@) && t@.len() >= 19 && exists|secs: int, nonce: nat|
            0 <= secs && nonce < 65536 && t@ == #[trigger] reference_of(utc_stamp_of(secs), nonce),
{
    let secs = match unix_seconds() {
        None => {
            return None;
        },
        Some(s) => s,
    };
    let bytes = match os_random_16() {
        None => {
            return None;
        },
        Some(b) => b,
    };
    order_reference_at(secs, bytes)
}

/// The sum of the prices.
pub open spec fn sum_of(prices: Seq<i64>) -> int
    decreases prices.len(),
{
    if prices.len() == 0 {
        0
    } else {
        sum_of(prices.drop_last()) + prices.last()
    }
}

/// The stages of placing an order, in the order they are passed.
#[derive(Clone, Copy, Debug, PartialEq, Eq, Structural)]
pub enum OrderStage {
    Opening,
    Pricing,
    CardCheck,
    Debiting,
    Stocking,
    Naming,
    Recording,
    Committing,
}

/// The position of a stage in the order they are passed.
pub open spec fn rank(s: OrderStage) -> int {
    match s {
        OrderStage::Opening => 0,
        OrderStage::Pricing => 1,
        OrderStage::CardCheck => 2,
        OrderStage::Debiting => 3,
        OrderStage::Stocking => 4,
        OrderStage::Naming => 5,
        OrderStage::Recording => 6,
        OrderStage::Committing => 7,
    }
}

/// A card as the store holds it.
pub struct CardRecord {
    pub server_uid: Vec<u8>,
    pub lost: bool,
    pub balance: i64,
}

/// What the store answered when asked for a product's name.
pub enum NameLookup {
    /// No such product, or the store failed.
    Missing,
    /// The name could not be read as text.
    Unreadable,
    Found(String),
}

/// An order being placed: the request, and what has been learnt and done
/// so far.
pub struct OrderFlow {
    uid: Vec<u8>,
    server_uid: Vec<u8>,
    products: Vec<String>,
    prices: Vec<i64>,
    total: i64,
    card_hex: String,
    card_balance: i64,
    stocked: usize,
    reference: String,
    names: Vec<String>,
    listing: String,
    stage: OrderStage,
}

impl OrderFlow {
    /// The uid of the chip that pays.
    pub closed spec fn chip_uid(&self) -> Seq<u8> {
        self.uid@
    }

    /// The server uid that the chip presented.
    pub closed spec fn card_secret(&self) -> Seq<u8> {
        self.server_uid@
    }

    /// The ids of the products ordered, one per item.
    pub closed spec fn items(&self) -> Seq<Seq<char>> {
        texts(self.products@)
    }

    /// The prices of the first items, in order.
    pub closed spec fn priced(&self) -> Seq<i64> {
        self.prices@
    }

    /// The running total of the prices.
    pub closed spec fn sum(&self) -> int {
        self.total as int
    }

    /// The upper-case hex of the chip uid, by which the card is found.
    pub closed spec fn card_key(&self) -> Seq<char> {
        self.card_hex@
    }

    /// The balance that the card had when it was checked.
    pub closed spec fn balance_seen(&self) -> int {
        self.card_balance as int
    }

    /// How many items have been taken from stock.
    pub closed spec fn stocked_count(&self) -> nat {
        self.stocked as nat
    }

    /// The order's reference.
    pub closed spec fn reference_text(&self) -> Seq<char> {
        self.reference@
    }

    /// The names of the first items, in order.
    pub closed spec fn named(&self) -> Seq<Seq<char>> {
        texts(self.names@)
    }

    /// The names joined with commas, as the order records them.
    pub closed spec fn listing_text(&self) -> Seq<char> {
        self.listing@
    }

    /// The stage reached.
    pub closed spec fn phase(&self) -> OrderStage {
        self.stage
    }

    /// What holds of an order at each stage.
    pub open spec fn wf(&self) -> bool {
        let n = self.items().len();
        let r = rank(self.phase());
        &&& self.chip_uid().len() == 4
        &&& self.card_secret().len() == 16
        &&& n >= 1
        &&& self.priced().len() <= n
        &&& self.sum() == sum_of(self.priced())
        &&& self.stocked_count() <= n
        &&& self.named().len() <= n
        &&& r == 0 ==> self.priced().len() == 0
        &&& r == 1 ==> self.priced().len() < n
        &&& r >= 2 ==> self.priced().len() == n && self.card_key() == uppercase_of(
            hex_lower(self.chip_uid()),
        )
        &&& r >= 3 ==> self.sum() <= self.balance_seen()
        &&& r <= 4 ==> self.named().len() == 0
        &&& r == 4 ==> self.stocked_count() < n
        &&& r >= 5 ==> self.stocked_count() == n && is_reference(self.reference_text())
        &&& r == 5 ==> self.named().len() < n
        &&& r >= 6 ==> self.named().len() == n && self.listing_text() == join_with(
            self.named(),
            ',',
        )
    }

    /// Whether `other` is the same request as `self`.
    pub open spec fn same_request(&self, other: &OrderFlow) -> bool {
        &&& self.chip_uid() == other.chip_uid()
        &&& self.card_secret() == other.card_secret()
        &&& self.items() == other.items()
    }

    /// The stage reached.
    pub fn stage(&self) -> (r: OrderStage)
        ensures
            r == self.phase(),
    {
        self.stage
    }

    /// The id of the product that the stage deals with next: the one to
    /// price, to take from stock, or to name.
    pub fn current_product(&self) -> (r: &str)
        requires
            self.wf(),
            self.phase() == OrderStage::Pricing || self.phase() == OrderStage::Stocking
                || self.phase() == OrderStage::Naming,
        ensures
            self.phase() == OrderStage::Pricing ==> r@ == self.items()[self.priced().len() as int],
            self.phase() == OrderStage::Stocking ==> r@ == self.items()[self.stocked_count() as int],
            self.phase() == OrderStage::Naming ==> r@ == self.items()[self.named().len() as int],
    {
        let i = match self.stage {
            OrderStage::Pricing => self.prices.len(),
            OrderStage::Stocking => self.stocked,
            _ => self.names.len(),
        };
        self.products[i].as_str()
    }

    /// The upper-case hex of the chip uid.
    pub fn card_hex(&self) -> (r: &str)
        ensures
            r@ == self.card_key(),
    {
        self.card_hex.as_str()
    }

    /// The running total of the prices.
    pub fn total(&self) -> (r: i64)
        ensures
            r == self.sum(),
    {
        self.total
    }

    /// The product names joined with commas.
    pub fn listing(&self) -> (r: &str)
        ensures
            r@ == self.listing_text(),
    {
        self.listing.as_str()
    }

    /// The order's reference.
    pub fn reference(&self) -> (r: &str)
        ensures
            r@ == self.reference_text(),
    {
        self.reference.as_str()
    }
}

/// An order that reaches the recording stage has been paid for in full:
/// every item was priced, the amount debited is the sum of those prices and
/// did not exceed the card's balance, so the balance left is not negative;
/// it lists one name per item, joined by commas, and carries a reference
/// made of a timestamp and five digits.
pub proof fn lemma_recorded_order_is_paid(flow: OrderFlow)
    requires
        flow.wf(),
        rank(flow.phase()) >= 6,
    ensures
        flow.priced().len() == flow.items().len(),
        flow.sum() == sum_of(flow.priced()),
        flow.balance_seen() - flow.sum() >= 0,
        flow.named().len() == flow.items().len(),
        flow.listing_text() == join_with(flow.named(), ','),
        is_reference(flow.reference_text()),
{
}

/// A recorded order hands out one item per name looked up, repeats
/// included: its listing is as long as all the names together plus one
/// comma between each two, and, where no name holds a comma, splitting it
/// at commas gives back exactly the names, in order.
pub proof fn lemma_recorded_listing_keeps_every_name(flow: OrderFlow)
    requires
        flow.wf(),
        rank(flow.phase()) >= 6,
    ensures
        flow.listing_text().len() == total_len(flow.named()) + flow.items().len() - 1,
        pieces_free_of(flow.named(), ',') ==> split_on(flow.listing_text(), ',')
            == flow.named(),
{
    lemma_join_length(flow.named(), ',');
    if pieces_free_of(flow.named(), ',') {
        lemma_split_join(flow.named(), ',');
    }
}

/// The steps of placing an order: what to ask of the store next, with the
/// order so far, or the answer. Every step after the first runs inside one
/// transaction, which is dropped, and so rolled back, when the answer comes
/// before the commit.
pub enum OrderStep {
    /// Open a transaction.
    Open(OrderFlow),
    /// Read the price of the current product.
    PriceOf(OrderFlow),
    /// Read the card whose uid in upper-case hex is the card key.
    CheckCard(OrderFlow),
    /// Subtract the total from that card's balance.
    Debit(OrderFlow),
    /// Take one of the current product from stock, where there is any.
    TakeStock(OrderFlow),
    /// Read the name of the current product.
    NameOf(OrderFlow),
    /// Record the order: its listing, its reference, not delivered.
    Record(OrderFlow),
    /// Commit the transaction.
    Commit(OrderFlow),
    /// Answer the request.
    Done(Reply),
}

/// The text `Product {id} not found`.
pub open spec fn not_found_text(id: Seq<char>) -> Seq<char> {
    "Product "@ + id + " not found"@
}

fn not_found(id: &str) -> (r: Reply)
    ensures
        r.status == Status::NotFound,
        r.body@ == not_found_text(id@),
{
    let mut t = String::from_str("Product ");
    t.append(id);
    t.append(" not found");
    Reply { status: Status::NotFound, body: t }
}

/// Starts placing an order from the body: four bytes of chip uid, sixteen
/// of server uid, two ignored, then the comma-separated ids of the products,
/// one per item, as UTF-8.
pub fn order_begin(body: &[u8]) -> (r: OrderStep)
    ensures
        body@.len() < 22 ==> (r matches OrderStep::Done(a) && a.status == Status::BadRequest
            && a.body@ == "Invalid Data"@),
        body@.len() >= 22 && !valid_utf8(body@.skip(22)) ==> (r matches OrderStep::Done(a)
            && a.status == Status::BadRequest && a.body@ == "Invalid UTF-8 in product list"@),
        body@.len() >= 22 && valid_utf8(body@.skip(22)) ==> (r matches OrderStep::Open(f)
            && f.wf() && f.phase() == OrderStage::Opening && f.chip_uid() == body@.subrange(0, 4)
            && f.card_secret() == body@.subrange(4, 20) && f.items() == split_on(
            decode_utf8(body@.skip(22)),
            ',',
        )),
{
    let n = body.len();
    if n < 22 {
        return OrderStep::Done(reply(Status::BadRequest, "Invalid Data"));
    }
    let raw = vstd::slice::slice_to_vec(vstd::slice::slice_subrange(body, 22, n));
    assert(raw@ =~= body@.skip(22));
    let text = match utf8_text(raw) {
        None => {
            return OrderStep::Done(reply(Status::BadRequest, "Invalid UTF-8 in product list"));
        },
        Some(t) => t,
    };
    proof {
        vstd::utf8::encode_utf8_decode_utf8(text@);
        crate::text::lemma_split_nonempty(text@, ',');
    }
    let products = split_commas(text.as_str());
    let uid = vstd::slice::slice_to_vec(vstd::slice::slice_subrange(body, 0, 4));
    let server_uid = vstd::slice::slice_to_vec(vstd::slice::slice_subrange(body, 4, 20));
    let flow = OrderFlow {
        uid,
        server_uid,
        products,
        prices: Vec::new(),
        total: 0,
        card_hex: String::new(),
        card_balance: 0,
        stocked: 0,
        reference: String::new(),
        names: Vec::new(),
        listing: String::new(),
        stage: OrderStage::Opening,
    };
    assert(flow.priced() =~= Seq::<i64>::empty());
    assert(flow.named() =~= Seq::<Seq<char>>::empty());
    OrderStep::Open(flow)
}

/// After opening the transaction (`ok` is false where that failed).
pub fn order_after_open(flow: OrderFlow, ok: bool) -> (r: OrderStep)
    requires
        flow.wf(),
        flow.phase() == OrderStage::Opening,
    ensures
        !ok ==> (r matches OrderStep::Done(a) && a.status == Status::InternalServerError
            && a.body@ == "Database transaction failed"@),
        ok ==> (r matches OrderStep::PriceOf(f) && f.wf() && f.phase() == OrderStage::Pricing
            && f.same_request(&flow) && f.priced() == flow.priced()),
{
    if !ok {
        return OrderStep::Done(reply(Status::InternalServerError, "Database transaction failed"));
    }
    let mut f = flow;
    f.stage = OrderStage::Pricing;
    OrderStep::PriceOf(f)
}

/// After reading the price of the current product (`None` where there is no
/// such product or the store failed). `None` where the total would leave the
/// `i64` range: there the request is not served at all. Once every item is
/// priced, the card is looked up by the upper-case hex of the chip uid.
pub fn order_after_price(flow: OrderFlow, price: Option<i64>) -> (r: Option<OrderStep>)
    requires
        flow.wf(),
        flow.phase() == OrderStage::Pricing,
    ensures
        price is None ==> (r matches Some(OrderStep::Done(a)) && a.status == Status::NotFound
            && a.body@ == not_found_text(flow.items()[flow.priced().len() as int])),
        price matches Some(p) ==> (r is None <==> !(i64::MIN <= flow.sum() + p <= i64::MAX)),
        r matches Some(OrderStep::PriceOf(f)) ==> price is Some && f.wf() && f.phase()
            == OrderStage::Pricing && f.same_request(&flow) && f.priced() == flow.priced().push(
            price->0,
        ),
        r matches Some(OrderStep::CheckCard(f)) ==> price is Some && f.wf() && f.phase()
            == OrderStage::CardCheck && f.same_request(&flow) && f.priced() == flow.priced().push(
            price->0,
        ),
        price matches Some(p) && i64::MIN <= flow.sum() + p <= i64::MAX ==> (r matches Some(
            OrderStep::PriceOf(_),
        ) || r matches Some(OrderStep::CheckCard(_))),
{
    let p = match price {
        None => {
            return Some(OrderStep::Done(not_found(flow.current_product())));
        },
        Some(p) => p,
    };
    let sum = match flow.total.checked_add(p) {
        None => {
            return None;
        },
        Some(s) => s,
    };
    let mut f = flow;
    f.prices.push(p);
    f.total = sum;
    proof {
        assert(f.prices@.drop_last() =~= flow.prices@);
    }
    if f.prices.len() < f.products.len() {
        Some(OrderStep::PriceOf(f))
    } else {
        let key = to_uppercase(hex_encode(f.uid.as_slice()).as_str());
        f.card_hex = key;
        f.stage = OrderStage::CardCheck;
        Some(OrderStep::CheckCard(f))
    }
}

/// The text with which an order is refused for want of money.
pub open spec fn short_balance_text(balance: int) -> Seq<char> {
    "YOUR CARD BALANCE IS JUST "@ + seq![peso()] + decimal(balance)
}

/// After reading the card (`None` where no card has that chip uid or the
/// store failed). The order goes on only where the card's server uid is the
/// one presented, the card is not lost, and the total does not exceed the
/// balance.
pub fn order_after_card(flow: OrderFlow, card: Option<CardRecord>) -> (r: OrderStep)
    requires
        flow.wf(),
        flow.phase() == OrderStage::CardCheck,
    ensures
        card is None ==> (r matches OrderStep::Done(a) && a.status == Status::Forbidden
            && a.body@ == "CARD IS NOT A PUSIT CARD"@),
        card matches Some(c) ==> (c.server_uid@ != flow.card_secret() ==> (r matches OrderStep::Done(
            a,
        ) && a.status == Status::Unauthorized && a.body@ == "PUSIT CARD INVALID"@)),
        card matches Some(c) ==> (c.server_uid@ == flow.card_secret() && c.lost ==> (r matches OrderStep::Done(
            a,
        ) && a.status == Status::Forbidden && a.body@ == "PUSIT CARD REPORTED AS LOST"@)),
        card matches Some(c) ==> (c.server_uid@ == flow.card_secret() && !c.lost && flow.sum()
            > c.balance ==> (r matches OrderStep::Done(a) && a.status == Status::PaymentRequired
            && a.body@ == short_balance_text(c.balance as int))),
        card matches Some(c) ==> (c.server_uid@ == flow.card_secret() && !c.lost && flow.sum()
            <= c.balance ==> (r matches OrderStep::Debit(f) && f.wf() && f.phase()
            == OrderStage::Debiting && f.same_request(&flow) && f.priced() == flow.priced()
            && f.sum() == flow.sum() && f.balance_seen() == c.balance && f.card_key()
            == flow.card_key())),
{
    let c = match card {
        None => {
            return OrderStep::Done(reply(Status::Forbidden, "CARD IS NOT A PUSIT CARD"));
        },
        Some(c) => c,
    };
    if !bytes_equal(c.server_uid.as_slice(), flow.server_uid.as_slice()) {
        return OrderStep::Done(reply(Status::Unauthorized, "PUSIT CARD INVALID"));
    }
    if c.lost {
        return OrderStep::Done(reply(Status::Forbidden, "PUSIT CARD REPORTED AS LOST"));
    }
    if flow.total > c.balance {
        proof {
            reveal_strlit("YOUR CARD BALANCE IS JUST \u{20B1}");
            reveal_strlit("YOUR CARD BALANCE IS JUST ");
            assert("YOUR CARD BALANCE IS JUST \u{20B1}"@ =~= "YOUR CARD BALANCE IS JUST "@ + seq![
                peso(),
            ]);
        }
        let mut t = String::from_str("YOUR CARD BALANCE IS JUST \u{20B1}");
        t.append(i64_to_text(c.balance).as_str());
        return OrderStep::Done(Reply { status: Status::PaymentRequired, body: t });
    }
    let mut f = flow;
    f.card_balance = c.balance;
    f.stage = OrderStage::Debiting;
    OrderStep::Debit(f)
}

/// After debiting the card (`ok` is false where that failed): the items are
/// taken from stock one by one.
pub fn order_after_debit(flow: OrderFlow, ok: bool) -> (r: OrderStep)
    requires
        flow.wf(),
        flow.phase() == OrderStage::Debiting,
    ensures
        !ok ==> (r matches OrderStep::Done(a) && a.status == Status::InternalServerError
            && a.body@ == "FAILED TO UPDATED BALANCE"@),
        ok ==> (r matches OrderStep::TakeStock(f) && f.wf() && f.phase() == OrderStage::Stocking
            && f.same_request(&flow) && f.stocked_count() == 0 && f.priced() == flow.priced()
            && f.sum() == flow.sum() && f.balance_seen() == flow.balance_seen()),
{
    if !ok {
        return OrderStep::Done(reply(Status::InternalServerError, "FAILED TO UPDATED BALANCE"));
    }
    let mut f = flow;
    f.stocked = 0;
    f.stage = OrderStage::Stocking;
    OrderStep::TakeStock(f)
}

/// After taking the current product from stock (`ok` is false where that
/// failed). Once every item is taken, the order is given a fresh reference
/// and its products are named one by one; `None` where no reference could be
/// made (the clock or the system's generator failed).
pub fn order_after_stock(flow: OrderFlow, ok: bool) -> (r: Option<OrderStep>)
    requires
        flow.wf(),
        flow.phase() == OrderStage::Stocking,
    ensures
        !ok ==> (r matches Some(OrderStep::Done(a)) && a.status == Status::InternalServerError
            && a.body@ == "FAILED TO UPDATE INVENTORY"@),
        ok && flow.stocked_count() + 1 < flow.items().len() ==> (r matches Some(
            OrderStep::TakeStock(f),
        ) && f.wf() && f.phase() == OrderStage::Stocking && f.same_request(&flow)
            && f.stocked_count() == flow.stocked_count() + 1 && f.priced() == flow.priced()
            && f.sum() == flow.sum() && f.balance_seen() == flow.balance_seen()),
        ok && flow.stocked_count() + 1 == flow.items().len() ==> (r is None || (r matches Some(
            OrderStep::NameOf(f),
        ) && f.wf() && f.phase() == OrderStage::Naming && f.same_request(&flow)
            && f.named().len() == 0 && f.priced() == flow.priced() && f.sum() == flow.sum()
            && f.balance_seen() == flow.balance_seen())),
{
    if !ok {
        return Some(
            OrderStep::Done(reply(Status::InternalServerError, "FAILED TO UPDATE INVENTORY")),
        );
    }
    assert(flow.items().len() == flow.products@.len());
    assert(rank(flow.phase()) == 4);
    assert(flow.stocked_count() < flow.items().len());
    assert(flow.stocked < flow.products.len());
    let mut f = flow;
    f.stocked = f.stocked + 1;
    if f.stocked < f.products.len() {
        Some(OrderStep::TakeStock(f))
    } else {
        match new_order_reference() {
            None => None,
            Some(reference) => {
                f.reference = reference;
                f.stage = OrderStage::Naming;
                Some(OrderStep::NameOf(f))
            },
        }
    }
}

/// After reading the current product's name. Once every item is named, the
/// order is recorded with the names joined by commas.
pub fn order_after_name(flow: OrderFlow, lookup: NameLookup) -> (r: OrderStep)
    requires
        flow.wf(),
        flow.phase() == OrderStage::Naming,
    ensures
        lookup is Missing ==> (r matches OrderStep::Done(a) && a.status == Status::NotFound
            && a.body@ == not_found_text(flow.items()[flow.named().len() as int])),
        lookup is Unreadable ==> (r matches OrderStep::Done(a) && a.status
            == Status::InternalServerError && a.body@ == "Failed"@),
        lookup matches NameLookup::Found(name) ==> (flow.named().len() + 1 < flow.items().len()
            ==> (r matches OrderStep::NameOf(f) && f.wf() && f.phase() == OrderStage::Naming
            && f.same_request(&flow) && f.named() == flow.named().push(name@) && f.sum()
            == flow.sum() && f.balance_seen() == flow.balance_seen() && f.reference_text()
            == flow.reference_text())),
        lookup matches NameLookup::Found(name) ==> (flow.named().len() + 1 == flow.items().len()
            ==> (r matches OrderStep::Record(f) && f.wf() && f.phase() == OrderStage::Recording
            && f.same_request(&flow) && f.named() == flow.named().push(name@) && f.sum()
            == flow.sum() && f.balance_seen() == flow.balance_seen() && f.reference_text()
            == flow.reference_text())),
{
    match lookup {
        NameLookup::Missing => OrderStep::Done(not_found(flow.current_product())),
        NameLookup::Unreadable => OrderStep::Done(reply(Status::InternalServerError, "Failed")),
        NameLookup::Found(name) => {
            let ghost name_text = name@;
            let mut f = flow;
            f.names.push(name);
            proof {
                assert(texts(f.names@) =~= texts(flow.names@).push(name_text));
            }
            if f.names.len() < f.products.len() {
                OrderStep::NameOf(f)
            } else {
                f.listing = join_commas(&f.names);
                f.stage = OrderStage::Recording;
                OrderStep::Record(f)
            }
        },
    }
}

/// After recording the order (`ok` is false where that failed).
pub fn order_after_record(flow: OrderFlow, ok: bool) -> (r: OrderStep)
    requires
        flow.wf(),
        flow.phase() == OrderStage::Recording,
    ensures
        !ok ==> (r matches OrderStep::Done(a) && a.status == Status::InternalServerError
            && a.body@ == "ORDER FAILED"@),
        ok ==> (r matches OrderStep::Commit(f) && f.wf() && f.phase() == OrderStage::Committing
            && f.same_request(&flow) && f.reference_text() == flow.reference_text()
            && f.listing_text() == flow.listing_text() && f.sum() == flow.sum()
            && f.balance_seen() == flow.balance_seen()),
{
    if !ok {
        return OrderStep::Done(reply(Status::InternalServerError, "ORDER FAILED"));
    }
    let mut f = flow;
    f.stage = OrderStage::Committing;
    OrderStep::Commit(f)
}

/// After committing (`ok` is false where that failed): the answer is the
/// order's reference.
pub fn order_after_commit(flow: OrderFlow, ok: bool) -> (r: Reply)
    requires
        flow.wf(),
        flow.phase() == OrderStage::Committing,
    ensures
        !ok ==> r.status == Status::InternalServerError && r.body@
            == "FAILED TO COMMIT TRANSACTION"@,
        ok ==> r.status == Status::Success && r.body@ == flow.reference_text(),
{
    if !ok {
        return reply(Status::InternalServerError, "FAILED TO COMMIT TRANSACTION");
    }
    Reply { status: Status::Success, body: flow.reference }
}

} // verus!
