use vstd::prelude::*;
use crate::encoding::{like_prefix, prefix_pattern};
use crate::entropy::{os_random_16, uuid_from_random_bytes};
use crate::reply::{reply, Reply, Status};
use crate::text::byte_len;

verus! {

/// Sixteen random bytes from the operating system, the secret that a new
/// card carries beside its uuid; `None` where the system refuses them.
pub fn generate_server_uid() -> (r: Option<[u8; 16]>)
{
    os_random_16()
}

/// What a new card is given: its server uid followed by its uuid.
pub fn card_credentials(server_uid: &[u8; 16], uuid: &[u8; 16]) -> (r: [u8; 32])
    ensures
        r@ == server_uid@ + uuid@,
{
    let mut out = [0u8; 32];
    let mut i: usize = 0;
    while i < 32
        invariant
            i <= 32,
            out@.len() == 32,
            forall|j: int| 0 <= j < i ==> out@[j] == (server_uid@ + uuid@)[j],
        decreases 32 - i,
    {
        if i < 16 {
            out[i] = server_uid[i];
        } else {
            out[i] = uuid[i - 16];
        }
        i = i + 1;
    }
    assert(out@ =~= server_uid@ + uuid@);
    out
}

// ----- marking a card lost, or found again -----

/// The steps of marking a card lost or found: what to ask of the store next,
/// or the answer.
pub enum MarkLostStep {
    /// Read whether the card whose uuid, in upper-case hex, matches
    /// `pattern` is lost.
    ReadLost { pattern: String },
    /// Record `lost` for the cards that match `pattern`.
    WriteLost { pattern: String, lost: bool },
    /// Answer the request.
    Done(Reply),
}

/// Starts marking the card named by the uuid prefix `body`: a prefix shorter
/// than 8 bytes is refused before the store is asked anything.
pub fn mark_lost_begin(body: &str) -> (r: MarkLostStep)
    ensures
        byte_len(body@) < 8 ==> (r matches MarkLostStep::Done(a) && a.status == Status::BadRequest
            && a.body@ == "Invalid UUID"@),
        byte_len(body@) >= 8 ==> (r matches MarkLostStep::ReadLost { pattern } && pattern@
            == prefix_pattern(body@)),
{
    if body.len() < 8 {
        MarkLostStep::Done(reply(Status::BadRequest, "Invalid UUID"))
    } else {
        MarkLostStep::ReadLost { pattern: like_prefix(body) }
    }
}

/// After reading the card's flag (`None` where no card matched or the store
/// failed): the flag to write is the opposite of the one read.
pub fn mark_lost_after_read(pattern: String, current: Option<bool>) -> (r: MarkLostStep)
    ensures
        current is None ==> (r matches MarkLostStep::Done(a) && a.status
            == Status::InternalServerError && a.body@ == "Not Found"@),
        current matches Some(was_lost) ==> (r matches MarkLostStep::WriteLost { pattern: p, lost }
            && p@ == pattern@ && lost == !was_lost),
{
    match current {
        None => MarkLostStep::Done(reply(Status::InternalServerError, "Not Found")),
        Some(was_lost) => MarkLostStep::WriteLost { pattern, lost: !was_lost },
    }
}

/// After writing the flag `lost`, given how many rows the store changed
/// (`None` where it failed).
pub fn mark_lost_after_write(lost: bool, rows: Option<u64>) -> (r: Reply)
    ensures
        rows is None ==> r.status == Status::InternalServerError && r.body@ == "Failed"@,
        rows == Some(0u64) ==> r.status == Status::BadRequest && r.body@ == "Not Found"@,
        rows matches Some(n) && n > 0 ==> r.status == Status::Success && (if lost {
            r.body@ == "Success: LOST"@
        } else {
            r.body@ == "Success: UNLOST"@
        }),
{
    match rows {
        None => reply(Status::InternalServerError, "Failed"),
        Some(n) => {
            if n == 0 {
                reply(Status::BadRequest, "Not Found")
            } else if lost {
                reply(Status::Success, "Success: LOST")
            } else {
                reply(Status::Success, "Success: UNLOST")
            }
        },
    }
}

// ----- issuing a new card -----

/// An answer with a 32-byte body.
#[derive(Debug)]
pub struct CardReply {
    pub status: Status,
    pub body: [u8; 32],
}

/// The steps of issuing a card.
pub enum NewCardStep {
    /// Store a card with chip uid `uid`, the given `uuid` and `server_uid`,
    /// not lost, with balance 0.
    Insert { uid: [u8; 4], uuid: [u8; 16], server_uid: [u8; 16] },
    /// Answer the request.
    Done(CardReply),
}

/// Issuing a card for the chip whose uid is the first four bytes of `body`,
/// given the uuid and server uid drawn for it. A body shorter than four bytes
/// is refused with 32 zero bytes.
pub fn new_card_plan(body: &[u8], uuid: [u8; 16], server_uid: [u8; 16]) -> (r: NewCardStep)
    ensures
        body@.len() < 4 ==> (r matches NewCardStep::Done(a) && a.status == Status::BadRequest
            && a.body@ == Seq::new(32, |i: int| 0u8)),
        body@.len() >= 4 ==> (r matches NewCardStep::Insert { uid, uuid: u, server_uid: s } && uid@
            == body@.subrange(0, 4) && u == uuid && s == server_uid),
{
    if body.len() < 4 {
        let zeros = [0u8; 32];
        assert(zeros@ =~= Seq::new(32, |i: int| 0u8));
        NewCardStep::Done(CardReply { status: Status::BadRequest, body: zeros })
    } else {
        let uid: [u8; 4] = [body[0], body[1], body[2], body[3]];
        assert(uid@ =~= body@.subrange(0, 4));
        NewCardStep::Insert { uid, uuid, server_uid }
    }
}

/// The version-4 uuid built from sixteen random bytes: the bytes kept, but
/// for the version nibble (high half of byte 6), set to 4, and the variant
/// bits (top two of byte 8), set to `10`.
pub open spec fn uuid_v4(random: Seq<u8>) -> Seq<u8> {
    random.update(6, (random[6] % 16 + 64) as u8).update(8, (random[8] % 64 + 128) as u8)
}

/// Whether two draws agree on every bit that a version-4 uuid keeps: all
/// bytes but 6 and 8, the low nibble of byte 6 and the low six bits of
/// byte 8.
pub open spec fn same_kept_bits(a: Seq<u8>, b: Seq<u8>) -> bool {
    &&& forall|j: int| 0 <= j < 16 && j != 6 && j != 8 ==> #[trigger] a[j] == b[j]
    &&& a[6] % 16 == b[6] % 16
    &&& a[8] % 64 == b[8] % 64
}

/// A version-4 uuid carries its draw's 122 random bits: it is marked as
/// version 4, variant `10`, and two draws give the same uuid exactly when
/// they agree on those bits, so cards drawn apart get uuids apart.
pub proof fn lemma_uuid_v4_keeps_random_bits(a: Seq<u8>, b: Seq<u8>)
    requires
        a.len() == 16,
        b.len() == 16,
    ensures
        uuid_v4(a).len() == 16,
        uuid_v4(a)[6] / 16 == 4,
        uuid_v4(a)[8] / 64 == 2,
        uuid_v4(a) == uuid_v4(b) <==> same_kept_bits(a, b),
{
    if same_kept_bits(a, b) {
        assert(uuid_v4(a) =~= uuid_v4(b));
    }
    if uuid_v4(a) == uuid_v4(b) {
        assert forall|j: int| 0 <= j < 16 && j != 6 && j != 8 implies #[trigger] a[j] == b[j] by {
            assert(uuid_v4(a)[j] == uuid_v4(b)[j]);
        }
        assert(uuid_v4(a)[6] == uuid_v4(b)[6]);
        assert(uuid_v4(a)[8] == uuid_v4(b)[8]);
    }
}

/// Issuing a card for the chip whose uid is the first four bytes of `body`,
/// given the sixteen random bytes drawn for its uuid and its server uid: the
/// uuid is the version-4 uuid of those bytes. A body shorter than four bytes
/// is refused with 32 zero bytes.
pub fn new_card_from_random(body: &[u8], random: [u8; 16], server_uid: [u8; 16]) -> (r:
    NewCardStep)
    ensures
        body@.len() < 4 ==> (r matches NewCardStep::Done(a) && a.status == Status::BadRequest
            && a.body@ == Seq::new(32, |i: int| 0u8)),
        body@.len() >= 4 ==> (r matches NewCardStep::Insert { uid, uuid, server_uid: s } && uid@
            == body@.subrange(0, 4) && uuid@ == uuid_v4(random@) && s == server_uid),
{
    let uuid = uuid_from_random_bytes(random);
    new_card_plan(body, uuid, server_uid)
}

/// Starts issuing a card: draws sixteen random bytes for a version-4 uuid
/// and sixteen for the server uid, then plans as `new_card_from_random`
/// does. `None` where the system refused random bytes; no random bytes are
/// drawn for a body that is refused. The draws are random, so what the
/// contract states of the uuid is what holds of every draw.
pub fn new_card_begin(body: &[u8]) -> (r: Option<NewCardStep>)
    ensures
        body@.len() < 4 ==> (r matches Some(NewCardStep::Done(a)) && a.status == Status::BadRequest
            && a.body@ == Seq::new(32, |i: int| 0u8)),
        r matches Some(NewCardStep::Insert { uid, uuid, server_uid }) ==> body@.len() >= 4
            && uid@ == body@.subrange(0, 4) && uuid@[6] / 16 == 4 && uuid@[8] / 64 == 2
            && exists|drawn: Seq<u8>| drawn.len() == 16 && uuid@ == #[trigger] uuid_v4(drawn),
        body@.len() >= 4 ==> !(r matches Some(NewCardStep::Done(_))),
{
    if body.len() < 4 {
        return Some(new_card_plan(body, [0u8; 16], [0u8; 16]));
    }
    let random = match os_random_16() {
        None => {
            return None;
        },
        Some(b) => b,
    };
    match generate_server_uid() {
        None => None,
        Some(server_uid) => {
            let r = new_card_from_random(body, random, server_uid);
            proof {
                lemma_uuid_v4_keeps_random_bits(random@, random@);
            }
            Some(r)
        },
    }
}

/// After storing the card, given how many rows were inserted (`None` where
/// the store failed): the card is handed its server uid and uuid.
pub fn new_card_after_insert(uuid: &[u8; 16], server_uid: &[u8; 16], rows: Option<u64>) -> (r:
    CardReply)
    ensures
        rows is None ==> r.status == Status::InternalServerError && r.body@ == Seq::new(
            32,
            |i: int| 0u8,
        ),
        rows == Some(0u64) ==> r.status == Status::BadRequest && r.body@ == Seq::new(
            32,
            |i: int| 0u8,
        ),
        rows matches Some(n) && n > 0 ==> r.status == Status::Success && r.body@ == server_uid@
            + uuid@,
{
    let zeros = [0u8; 32];
    assert(zeros@ =~= Seq::new(32, |i: int| 0u8));
    match rows {
        None => CardReply { status: Status::InternalServerError, body: zeros },
        Some(n) => {
            if n == 0 {
                CardReply { status: Status::BadRequest, body: zeros }
            } else {
                CardReply { status: Status::Success, body: card_credentials(server_uid, uuid) }
            }
        },
    }
}

} // verus!
