use vstd::prelude::*;
use crate::encoding::{ascii_upper, hex_lower, hex_upper, lemma_hex_lower, like_prefix, prefix_pattern};
use vstd::utf8::{encode_utf8, is_ascii_chars};
use crate::reply::{number_reply, reply, Reply, Status};
use crate::text::{lemma_decimal_has_no_comma, lemma_decimal_parse_roundtrip, lemma_split_pair, byte_len, decimal, i64_to_text, parse_i64, parse_i64_spec, split_commas, split_on};

verus! {

/// The peso sign.
pub open spec fn peso() -> char {
    '\u{20B1}'
}

/// The answer to a request for the sum of all balances, given the sum that
/// the store computed (`None` where it failed): the sum after a peso sign.
pub fn total_balance_reply(total: Option<i64>) -> (r: Reply)
    ensures
        total matches Some(t) ==> r.status == Status::Success && r.body@ == seq![peso()]
            + decimal(t as int),
        total is None ==> r.status == Status::InternalServerError && r.body@ == "-"@,
{
    match total {
        Some(t) => {
            proof {
                reveal_strlit("\u{20B1}");
            }
            let mut body = String::from_str("\u{20B1}");
            let digits = i64_to_text(t);
            body.append(digits.as_str());
            Reply { status: Status::Success, body }
        },
        None => reply(Status::InternalServerError, "-"),
    }
}

/// The steps of adding to a card's balance.
pub enum AddBalanceStep {
    /// Add `amount` to the balance of the cards whose uuid, in upper-case
    /// hex, matches `pattern`.
    Credit { pattern: String, amount: i64 },
    /// Read the balance of the card that matches `pattern`.
    ReadBalance { pattern: String },
    /// Answer the request.
    Done(Reply),
}

/// Whether the body `uuid,amount` can be served: it has a comma, and the
/// amount is an `i64` unless the uuid is shorter than 8 bytes (a short uuid
/// is refused before the amount is read). On other bodies the request is
/// not served at all.
pub open spec fn add_balance_body_ok(body: Seq<char>) -> bool {
    let fields = split_on(body, ',');
    fields.len() >= 2 && (byte_len(fields[0]) < 8 || parse_i64_spec(fields[1]) is Some)
}

/// Tells whether `add_balance_begin` can take the body.
pub fn add_balance_accepts(body: &str) -> (r: bool)
    ensures
        r == add_balance_body_ok(body@),
{
    let fields = split_commas(body);
    if fields.len() < 2 {
        return false;
    }
    assert(fields[0]@ == split_on(body@, ',')[0]);
    assert(fields[1]@ == split_on(body@, ',')[1]);
    fields[0].as_str().len() < 8 || parse_i64(fields[1].as_str()).is_some()
}

/// Starts adding to a balance from the body `uuid,amount`. A uuid shorter
/// than 8 bytes is refused before the store is asked anything; otherwise the
/// amount is credited to the cards whose uuid, in upper-case hex, starts
/// with the upper-cased uuid.
pub fn add_balance_begin(body: &str) -> (r: AddBalanceStep)
    requires
        add_balance_body_ok(body@),
    ensures
        ({
            let fields = split_on(body@, ',');
            &&& byte_len(fields[0]) < 8 ==> (r matches AddBalanceStep::Done(a) && a.status
                == Status::BadRequest && a.body@ == "Invalid CARD UUID"@)
            &&& byte_len(fields[0]) >= 8 ==> (r matches AddBalanceStep::Credit { pattern, amount }
                && pattern@ == prefix_pattern(fields[0]) && parse_i64_spec(fields[1]) == Some(
                amount,
            ) && (is_ascii_chars(fields[0]) ==> pattern@ == ascii_upper(fields[0]) + seq!['%']))
        }),
{
    let fields = split_commas(body);
    let uuid = fields[0].as_str();
    let amount = fields[1].as_str();
    assert(uuid@ == split_on(body@, ',')[0]);
    assert(amount@ == split_on(body@, ',')[1]);
    if uuid.len() < 8 {
        return AddBalanceStep::Done(reply(Status::BadRequest, "Invalid CARD UUID"));
    }
    match parse_i64(amount) {
        None => {
            proof {
                assert(false);
            }
            AddBalanceStep::Done(reply(Status::BadRequest, "Invalid CARD UUID"))
        },
        Some(amount) => AddBalanceStep::Credit { pattern: like_prefix(uuid), amount },
    }
}

/// After the credit, given how many rows the store changed (`None` where it
/// failed): a credit that reached no card is answered "Card UUID Not Found".
pub fn add_balance_after_credit(pattern: String, rows: Option<u64>) -> (r: AddBalanceStep)
    ensures
        (rows is None || rows == Some(0u64)) ==> (r matches AddBalanceStep::Done(a) && a.status
            == Status::BadRequest && a.body@ == "Card UUID Not Found"@),
        rows matches Some(n) && n > 0 ==> (r matches AddBalanceStep::ReadBalance { pattern: p }
            && p@ == pattern@),
{
    match rows {
        Some(n) => {
            if n == 0 {
                AddBalanceStep::Done(reply(Status::BadRequest, "Card UUID Not Found"))
            } else {
                AddBalanceStep::ReadBalance { pattern }
            }
        },
        None => AddBalanceStep::Done(reply(Status::BadRequest, "Card UUID Not Found")),
    }
}

/// After reading the new balance (`None` where the store failed): the
/// balance in decimal.
pub fn add_balance_after_read(balance: Option<i64>) -> (r: Reply)
    ensures
        balance matches Some(b) ==> r.status == Status::Success && r.body@ == decimal(b as int),
        balance is None ==> r.status == Status::BadRequest && r.body@ == "Failed"@,
{
    match balance {
        Some(b) => number_reply(Status::Success, b),
        None => reply(Status::BadRequest, "Failed"),
    }
}

/// The uuid half of what a new card is handed, written as lower-case hex
/// (`hex::encode`), tops up that very card: `hex,amount` is a body that is
/// served, its uuid is long enough, its amount reads back, and the pattern
/// credited is the upper-case hex of the uuid followed by `%`, a prefix of
/// what the store's `hex(uuid)` writes of that card.
pub proof fn lemma_card_uuid_tops_up_its_card(uuid: Seq<u8>, amount: i64)
    requires
        uuid.len() == 16,
    ensures
        ({
            let body = hex_lower(uuid) + seq![','] + decimal(amount as int);
            let fields = split_on(body, ',');
            &&& add_balance_body_ok(body)
            &&& fields[0] == hex_lower(uuid)
            &&& encode_utf8(fields[0]).len() == 32
            &&& byte_len(fields[0]) >= 8
            &&& parse_i64_spec(fields[1]) == Some(amount)
            &&& is_ascii_chars(fields[0])
            &&& ascii_upper(fields[0]) + seq!['%'] == hex_upper(uuid) + seq!['%']
        }),
{
    let h = hex_lower(uuid);
    let d = decimal(amount as int);
    lemma_hex_lower(uuid);
    lemma_decimal_has_no_comma(amount as int);
    lemma_split_pair(h, d, ',');
    vstd::utf8::is_ascii_chars_encode_utf8(h);
    lemma_decimal_parse_roundtrip(amount);
}

} // verus!
