use vstd::prelude::*;
use vstd::string::*;
use crate::error::NativeError;

verus! {

/// The character of a decimal digit.
pub open spec fn digit(d: nat) -> char {
    seq!['0', '1', '2', '3', '4', '5', '6', '7', '8', '9'][d as int]
}

/// The decimal digits of `n`, most significant first, without leading zeros.
pub open spec fn decimal(n: nat) -> Seq<char>
    decreases n,
{
    if n < 10 {
        seq![digit(n)]
    } else {
        decimal(n / 10).push(digit(n % 10))
    }
}

/// Names the text that the bytesize crate prints for an amount of bytes.
pub uninterp spec fn byte_size_text(bytes: u64) -> Seq<char>;

/// Prints an amount with `bytesize::ByteSize`'s `Display`. The contract names that text
/// and states it for amounts under one kilobyte (1000 bytes), which the crate prints as
/// the decimal number followed by " B". Larger amounts go through a floating-point
/// rounding that is not stated.
#[verifier::external_body]
fn byte_size_string(bytes: u64) -> (res: String)
    ensures
        res@ == byte_size_text(bytes),
        bytes < 1000 ==> res@ == decimal(bytes as nat) + " B"@,
{
    bytesize::ByteSize(bytes).to_string()
}

/// One row of a usage table: a storage kind and its amount.
pub struct UsageRow {
    pub label: String,
    pub amount: String,
}

/// A usage table: a title above rows of storage kinds and amounts.
pub struct UsageTable {
    pub title: String,
    pub rows: Vec<UsageRow>,
}

/// `t` is the table titled `title` with the two rows `first` and `second`, each amount
/// printed by the bytesize crate.
pub open spec fn table_is(
    t: UsageTable,
    title: Seq<char>,
    first: Seq<char>,
    first_bytes: u64,
    second: Seq<char>,
    second_bytes: u64,
) -> bool {
    &&& t.title@ == title
    &&& t.rows@.len() == 2
    &&& t.rows@[0].label@ == first
    &&& t.rows@[0].amount@ == byte_size_text(first_bytes)
    &&& t.rows@[1].label@ == second
    &&& t.rows@[1].amount@ == byte_size_text(second_bytes)
}

/// The error given when neither the usage nor the limits could be fetched.
pub open spec fn usage_unavailable() -> Seq<char> {
    "Unable to obtain usage stats. Check your authentication!"@
}

fn usage_table(title: &str, first: &str, first_bytes: u64, second: &str, second_bytes: u64) -> (res: UsageTable)
    ensures
        table_is(res, title@, first@, first_bytes, second@, second_bytes),
{
    let mut rows: Vec<UsageRow> = Vec::new();
    rows.push(UsageRow { label: first.to_owned(), amount: byte_size_string(first_bytes) });
    rows.push(UsageRow { label: second.to_owned(), amount: byte_size_string(second_bytes) });
    UsageTable { title: title.to_owned(), rows }
}

/// The account usage tables: the current usage (hot, archival) when it was fetched, then
/// the limits (soft hot, hard hot) when they were fetched; an error when neither was.
pub fn usage_tables(current: Option<(u64, u64)>, limits: Option<(u64, u64)>) -> (res: Result<Vec<UsageTable>, NativeError>)
    ensures
        match res {
            Ok(tables) => {
                &&& (current is Some || limits is Some)
                &&& tables@.len() == (if current is Some { 1int } else { 0int }) + (if limits is Some { 1int } else { 0int })
                &&& (current matches Some((hot, archival)) ==> table_is(tables@[0], "Current Usage"@, "Hot"@, hot, "Archival"@, archival))
                &&& (limits matches Some((soft, hard)) ==> table_is(
                    tables@[tables@.len() - 1], "Usage Limits"@, "Soft Hot"@, soft, "Hard Hot"@, hard))
            },
            Err(e) => current is None && limits is None && (e matches NativeError::Custom(m) && m@ == usage_unavailable()),
        },
{
    if current.is_none() && limits.is_none() {
        return Err(NativeError::Custom(String::from_str("Unable to obtain usage stats. Check your authentication!")));
    }
    let mut tables: Vec<UsageTable> = Vec::new();
    if let Some((hot, archival)) = current {
        tables.push(usage_table("Current Usage", "Hot", hot, "Archival", archival));
    }
    if let Some((soft, hard)) = limits {
        tables.push(usage_table("Usage Limits", "Soft Hot", soft, "Hard Hot", hard));
    }
    Ok(tables)
}

} // verus!
