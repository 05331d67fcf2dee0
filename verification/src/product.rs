use vstd::prelude::*;
use crate::encoding::{like_prefix, prefix_pattern};
use crate::reply::{count_reply, number_reply, reply, Reply, Status};
use crate::text::{join_with, lemma_decimal_free_of, lemma_decimal_has_no_comma, lemma_decimal_parse_roundtrip, lemma_split_join, pieces_free_of, byte_len, decimal, i64_to_text, parse_i64, parse_i64_spec, split_commas, split_on};

verus! {

/// The answer to a request for the number of products (`None` where the
/// store failed).
pub fn total_products_reply(count: Option<i64>) -> (r: Reply)
    ensures
        count matches Some(n) ==> r.status == Status::Success && r.body@ == decimal(n as int),
        count is None ==> r.status == Status::InternalServerError && r.body@
            == "CANNOT GET PRODUCT COUNT"@,
{
    count_reply(count, "CANNOT GET PRODUCT COUNT")
}

/// A row of the product table as the store gave it; a column that could not
/// be read as its type is `None`.
pub struct ProductRow {
    pub id: Option<i64>,
    pub name: Option<String>,
    pub price: Option<i64>,
    pub inventory: Option<i64>,
}

/// Whether every column of the row could be read.
pub open spec fn row_complete(row: ProductRow) -> bool {
    row.id is Some && row.name is Some && row.price is Some && row.inventory is Some
}

/// A product as it is listed: `id|name|price|inventory,`.
pub open spec fn row_text(row: ProductRow) -> Seq<char> {
    decimal(row.id->0 as int) + seq!['|'] + row.name->0@ + seq!['|'] + decimal(
        row.price->0 as int,
    ) + seq!['|'] + decimal(row.inventory->0 as int) + seq![',']
}

/// The listing of the rows, one after the other.
pub open spec fn listing(rows: Seq<ProductRow>) -> Seq<char>
    decreases rows.len(),
{
    if rows.len() == 0 {
        Seq::empty()
    } else {
        listing(rows.drop_last()) + row_text(rows.last())
    }
}

/// The listing of two runs of rows is the listing of the first followed by
/// that of the second: no row is dropped, repeated or moved.
pub proof fn lemma_listing_concat(a: Seq<ProductRow>, b: Seq<ProductRow>)
    ensures
        listing(a + b) == listing(a) + listing(b),
    decreases b.len(),
{
    if b.len() == 0 {
        assert(a + b =~= a);
        assert(listing(a) + listing(b) =~= listing(a));
    } else {
        lemma_listing_concat(a, b.drop_last());
        assert((a + b).drop_last() =~= a + b.drop_last());
        assert((a + b).last() == b.last());
        assert(listing(a + b) =~= listing(a) + listing(b));
    }
}

/// Every row is listed, whatever it holds: a single row's listing is its
/// four columns joined by `|` and closed by a comma; where the name holds
/// neither `|` nor a comma, the entry splits back into the id, the name, the
/// price and the inventory, in decimal.
pub proof fn lemma_listing_row(row: ProductRow)
    ensures
        listing(seq![row]) == row_text(row),
        row_text(row) == join_with(
            seq![
                decimal(row.id->0 as int),
                row.name->0@,
                decimal(row.price->0 as int),
                decimal(row.inventory->0 as int),
            ],
            '|',
        ) + seq![','],
        !row.name->0@.contains('|') ==> split_on(row_text(row).drop_last(), '|') == seq![
            decimal(row.id->0 as int),
            row.name->0@,
            decimal(row.price->0 as int),
            decimal(row.inventory->0 as int),
        ],
{
    let a = decimal(row.id->0 as int);
    let b = row.name->0@;
    let c = decimal(row.price->0 as int);
    let d = decimal(row.inventory->0 as int);
    let parts = seq![a, b, c, d];
    let p1 = seq![a];
    let p2 = seq![a, b];
    let p3 = seq![a, b, c];
    let one = seq![row];
    assert(one.drop_last() =~= Seq::<ProductRow>::empty());
    assert(one.last() == row);
    assert(listing(one.drop_last()) == Seq::<char>::empty());
    assert(listing(one) == listing(one.drop_last()) + row_text(row));
    assert(listing(one) =~= row_text(row));
    assert(p2.drop_last() =~= p1);
    assert(p3.drop_last() =~= p2);
    assert(parts.drop_last() =~= p3);
    assert(join_with(p1, '|') == a);
    assert(join_with(p2, '|') == a + seq!['|'] + b);
    assert(join_with(p3, '|') == a + seq!['|'] + b + seq!['|'] + c);
    assert(join_with(parts, '|') == a + seq!['|'] + b + seq!['|'] + c + seq!['|'] + d);
    assert(row_text(row) =~= join_with(parts, '|') + seq![',']);
    assert((join_with(parts, '|') + seq![',']).drop_last() =~= join_with(parts, '|'));
    if !row.name->0@.contains('|') {
        lemma_decimal_free_of(row.id->0 as int, '|');
        lemma_decimal_free_of(row.price->0 as int, '|');
        lemma_decimal_free_of(row.inventory->0 as int, '|');
        assert(pieces_free_of(parts, '|'));
        lemma_split_join(parts, '|');
    }
}

/// The answer to a request for all products, given the rows (`None` where
/// the store failed): the listing of every row, or "Failed" where the store
/// failed or a column of some row could not be read.
pub fn products_reply(rows: Option<Vec<ProductRow>>) -> (r: Reply)
    ensures
        (rows is None || exists|i: int|
            0 <= i < rows->0@.len() && !row_complete(#[trigger] rows->0@[i])) ==> r.status
            == Status::InternalServerError && r.body@ == "Failed"@,
        (rows matches Some(v) && forall|i: int| 0 <= i < v@.len() ==> row_complete(#[trigger] v@[i]))
            ==> r.status == Status::Success && r.body@ == listing(rows->0@),
{
    let list = match rows {
        None => {
            return reply(Status::InternalServerError, "Failed");
        },
        Some(v) => v,
    };
    let mut out = String::new();
    let n = list.len();
    let mut i: usize = 0;
    assert(list@.take(0) =~= Seq::<ProductRow>::empty());
    while i < n
        invariant
            n == list@.len(),
            rows matches Some(v) && v@ == list@,
            i <= n,
            out@ == listing(list@.take(i as int)),
            forall|j: int| 0 <= j < i ==> row_complete(#[trigger] list@[j]),
        decreases n - i,
    {
        let row = &list[i];
        let (id, price, inventory) = match (row.id, row.price, row.inventory) {
            (Some(a), Some(b), Some(c)) => (a, b, c),
            _ => {
                assert(!row_complete(list@[i as int]));
                return reply(Status::InternalServerError, "Failed");
            },
        };
        let name = match &row.name {
            Some(t) => t,
            None => {
                assert(!row_complete(list@[i as int]));
                return reply(Status::InternalServerError, "Failed");
            },
        };
        proof {
            reveal_strlit("|");
            reveal_strlit(",");
        }
        let ghost before = out@;
        out.append(i64_to_text(id).as_str());
        out.append("|");
        out.append(name.as_str());
        out.append("|");
        out.append(i64_to_text(price).as_str());
        out.append("|");
        out.append(i64_to_text(inventory).as_str());
        out.append(",");
        proof {
            assert(list@.take(i + 1).drop_last() =~= list@.take(i as int));
            assert(out@ =~= before + row_text(list@[i as int]));
        }
        i = i + 1;
    }
    assert(list@.take(n as int) =~= list@);
    Reply { status: Status::Success, body: out }
}

// ----- adding stock -----

/// The steps of adding stock to a product.
pub enum AddInventoryStep {
    /// Add `amount` to the inventory of product `id`.
    Add { id: i64, amount: i64 },
    /// Read the inventory of product `id`.
    Read { id: i64 },
    /// Answer the request.
    Done(Reply),
}

/// Whether the fields of `id,amount` are both `i64`s.
pub open spec fn inventory_fields_ok(body: Seq<char>) -> bool {
    let fields = split_on(body, ',');
    parse_i64_spec(fields[0]) is Some && fields.len() >= 2 && parse_i64_spec(fields[1]) is Some
}

/// Whether the body `id,amount` can be served: it is shorter than three
/// bytes (and refused), or both fields are `i64`s. On other bodies the
/// request is not served at all.
pub open spec fn add_inventory_body_ok(body: Seq<char>) -> bool {
    byte_len(body) < 3 || inventory_fields_ok(body)
}

fn inventory_fields(body: &str) -> (r: Option<(i64, i64)>)
    ensures
        r is Some <==> inventory_fields_ok(body@),
        r matches Some((id, amount)) ==> parse_i64_spec(split_on(body@, ',')[0]) == Some(id)
            && parse_i64_spec(split_on(body@, ',')[1]) == Some(amount),
{
    let fields = split_commas(body);
    proof {
        crate::text::lemma_split_nonempty(body@, ',');
    }
    assert(fields[0]@ == split_on(body@, ',')[0]);
    let id = match parse_i64(fields[0].as_str()) {
        None => {
            return None;
        },
        Some(v) => v,
    };
    if fields.len() < 2 {
        return None;
    }
    assert(fields[1]@ == split_on(body@, ',')[1]);
    match parse_i64(fields[1].as_str()) {
        None => None,
        Some(amount) => Some((id, amount)),
    }
}

/// Tells whether `add_inventory_begin` can take the body.
pub fn add_inventory_accepts(body: &str) -> (r: bool)
    ensures
        r == add_inventory_body_ok(body@),
{
    body.len() < 3 || inventory_fields(body).is_some()
}

/// Starts adding stock from the body `id,amount`. A body shorter than three
/// bytes is refused before the store is asked anything.
pub fn add_inventory_begin(body: &str) -> (r: AddInventoryStep)
    requires
        add_inventory_body_ok(body@),
    ensures
        byte_len(body@) < 3 ==> (r matches AddInventoryStep::Done(a) && a.status
            == Status::BadRequest && a.body@ == "Invalid Data"@),
        ({
            let fields = split_on(body@, ',');
            byte_len(body@) >= 3 ==> (r matches AddInventoryStep::Add { id, amount }
                && parse_i64_spec(fields[0]) == Some(id) && parse_i64_spec(fields[1]) == Some(
                amount,
            ))
        }),
{
    if body.len() < 3 {
        return AddInventoryStep::Done(reply(Status::BadRequest, "Invalid Data"));
    }
    match inventory_fields(body) {
        Some((id, amount)) => AddInventoryStep::Add { id, amount },
        None => {
            proof {
                assert(false);
            }
            AddInventoryStep::Done(reply(Status::BadRequest, "Invalid Data"))
        },
    }
}

/// After adding the stock (`ok` is false where the store failed).
pub fn add_inventory_after_add(id: i64, ok: bool) -> (r: AddInventoryStep)
    ensures
        !ok ==> (r matches AddInventoryStep::Done(a) && a.status == Status::InternalServerError
            && a.body@ == "Failed"@),
        ok ==> r == (AddInventoryStep::Read { id }),
{
    if ok {
        AddInventoryStep::Read { id }
    } else {
        AddInventoryStep::Done(reply(Status::InternalServerError, "Failed"))
    }
}

/// After reading the inventory back (`None` where the store failed).
pub fn add_inventory_after_read(inventory: Option<i64>) -> (r: Reply)
    ensures
        inventory matches Some(v) ==> r.status == Status::Success && r.body@ == decimal(v as int),
        inventory is None ==> r.status == Status::InternalServerError && r.body@
            == "Cannot retrieve updated inventory"@,
{
    match inventory {
        Some(v) => number_reply(Status::Success, v),
        None => reply(Status::InternalServerError, "Cannot retrieve updated inventory"),
    }
}

// ----- adding a product -----

/// The steps of adding a product.
pub enum AddProductStep {
    /// Store a product called `name` with `price` and `inventory`.
    Insert { name: String, price: i64, inventory: i64 },
    /// Read the id of the product whose upper-cased name matches `pattern`.
    FindId { pattern: String },
    /// Answer the request.
    Done(Reply),
}

/// Whether the body `name,price,inventory` has a price and an inventory
/// that are `i64`s.
pub open spec fn product_fields_ok(body: Seq<char>) -> bool {
    let fields = split_on(body, ',');
    fields.len() >= 3 && parse_i64_spec(fields[1]) is Some && parse_i64_spec(fields[2]) is Some
}

/// Whether the body `name,price,inventory` can be served: it is shorter
/// than five bytes (and refused), or its price and inventory are `i64`s. On
/// other bodies the request is not served at all.
pub open spec fn add_product_body_ok(body: Seq<char>) -> bool {
    byte_len(body) < 5 || product_fields_ok(body)
}

/// Tells whether `add_product_begin` can take the body.
pub fn add_product_accepts(body: &str) -> (r: bool)
    ensures
        r == add_product_body_ok(body@),
{
    if body.len() < 5 {
        return true;
    }
    let fields = split_commas(body);
    if fields.len() < 3 {
        return false;
    }
    assert(fields[1]@ == split_on(body@, ',')[1]);
    assert(fields[2]@ == split_on(body@, ',')[2]);
    parse_i64(fields[1].as_str()).is_some() && parse_i64(fields[2].as_str()).is_some()
}

/// Every product whose name holds no comma can be added: the body
/// `name,price,inventory`, with the price and the inventory in decimal, is
/// served whatever else the name holds (spaces, upper or lower case), and
/// its fields read back as exactly that name, price and inventory.
pub proof fn lemma_product_body_served(name: Seq<char>, price: i64, inventory: i64)
    requires
        !name.contains(','),
    ensures
        ({
            let body = name + seq![','] + decimal(price as int) + seq![','] + decimal(
                inventory as int,
            );
            let fields = split_on(body, ',');
            &&& add_product_body_ok(body)
            &&& fields == seq![name, decimal(price as int), decimal(inventory as int)]
            &&& parse_i64_spec(fields[1]) == Some(price)
            &&& parse_i64_spec(fields[2]) == Some(inventory)
        }),
{
    let d1 = decimal(price as int);
    let d2 = decimal(inventory as int);
    let parts = seq![name, d1, d2];
    let p1 = seq![name];
    let p2 = seq![name, d1];
    assert(p2.drop_last() =~= p1);
    assert(parts.drop_last() =~= p2);
    assert(join_with(p1, ',') == name);
    assert(join_with(p2, ',') == name + seq![','] + d1);
    assert(join_with(parts, ',') == name + seq![','] + d1 + seq![','] + d2);
    lemma_decimal_has_no_comma(price as int);
    lemma_decimal_has_no_comma(inventory as int);
    assert(pieces_free_of(parts, ','));
    lemma_split_join(parts, ',');
    lemma_decimal_parse_roundtrip(price);
    lemma_decimal_parse_roundtrip(inventory);
}

/// Starts adding a product from the body `name,price,inventory`. A body
/// shorter than five bytes is refused before the store is asked anything.
pub fn add_product_begin(body: &str) -> (r: AddProductStep)
    requires
        add_product_body_ok(body@),
    ensures
        byte_len(body@) < 5 ==> (r matches AddProductStep::Done(a) && a.status
            == Status::BadRequest && a.body@ == "Invalid Data"@),
        ({
            let fields = split_on(body@, ',');
            byte_len(body@) >= 5 ==> (r matches AddProductStep::Insert { name, price, inventory }
                && name@ == fields[0] && parse_i64_spec(fields[1]) == Some(price)
                && parse_i64_spec(fields[2]) == Some(inventory))
        }),
{
    if body.len() < 5 {
        return AddProductStep::Done(reply(Status::BadRequest, "Invalid Data"));
    }
    let mut fields = split_commas(body);
    assert(fields[1]@ == split_on(body@, ',')[1]);
    assert(fields[2]@ == split_on(body@, ',')[2]);
    let parsed = (parse_i64(fields[1].as_str()), parse_i64(fields[2].as_str()));
    let (price, inventory) = match parsed {
        (Some(p), Some(i)) => (p, i),
        _ => {
            proof {
                assert(false);
            }
            return AddProductStep::Done(reply(Status::BadRequest, "Invalid Data"));
        },
    };
    let ghost first = fields@[0]@;
    assert(first == split_on(body@, ',')[0]);
    let name = fields.swap_remove(0);
    AddProductStep::Insert { name, price, inventory }
}

/// After storing the product (`ok` is false where the store failed): its id
/// is looked up by its upper-cased name as a prefix.
pub fn add_product_after_insert(name: &str, ok: bool) -> (r: AddProductStep)
    ensures
        !ok ==> (r matches AddProductStep::Done(a) && a.status == Status::InternalServerError
            && a.body@ == "Failed"@),
        ok ==> (r matches AddProductStep::FindId { pattern } && pattern@ == prefix_pattern(name@)),
{
    if ok {
        AddProductStep::FindId { pattern: like_prefix(name) }
    } else {
        AddProductStep::Done(reply(Status::InternalServerError, "Failed"))
    }
}

/// After looking up the id (`None` where the store failed).
pub fn add_product_after_find(id: Option<i64>) -> (r: Reply)
    ensures
        id matches Some(v) ==> r.status == Status::Success && r.body@ == decimal(v as int),
        id is None ==> r.status == Status::InternalServerError && r.body@
            == "Cannot retrieve product ID"@,
{
    match id {
        Some(v) => number_reply(Status::Success, v),
        None => reply(Status::InternalServerError, "Cannot retrieve product ID"),
    }
}

} // verus!
