use vstd::prelude::*;
use vstd::string::*;
use crate::native_error::{NativeError, NativeErrorKind};

verus! {

/// The listing of a Drive's metadata: a newline, then each metadata's text after a blank line.
pub open spec fn metadata_listing_spec(texts: Seq<Seq<char>>) -> Seq<char>
    decreases texts.len(),
{
    if texts.len() == 0 {
        "\n"@
    } else {
        metadata_listing_spec(texts.drop_last()) + "\n\n"@ + texts.last()
    }
}

/// The texts of a list of strings.
pub open spec fn texts_view(v: Seq<String>) -> Seq<Seq<char>> {
    v.map_values(|s: String| s@)
}

/// Lists the printed metadata of a Drive, one after another with a blank line before each.
pub fn metadata_listing(texts: &Vec<String>) -> (res: String)
    ensures
        res@ == metadata_listing_spec(texts_view(texts@)),
{
    let mut acc = String::from_str("\n");
    let n = texts.len();
    for i in 0..n
        invariant
            n == texts@.len(),
            acc@ == metadata_listing_spec(texts_view(texts@.take(i as int))),
    {
        proof {
            assert(texts_view(texts@.take(i as int + 1)).drop_last() =~= texts_view(texts@.take(i as int)));
        }
        acc.append("\n\n");
        acc.append(texts[i].as_str());
    }
    proof {
        assert(texts@.take(n as int) =~= texts@);
    }
    acc
}

/// The message given when the local metadata is not the one asked to be snapshotted.
pub open spec fn wrong_metadata() -> Seq<char> {
    "this is the wrong metadata"@
}

/// Checks that the root of the locally stored metadata is the metadata asked to be
/// snapshotted: a snapshot is taken only of the metadata that is held locally.
pub fn check_snapshot_root(local_root: &Option<String>, metadata_cid: &String) -> (res: Result<(), NativeError>)
    ensures
        res is Ok <==> (local_root matches Some(r) && r@ == metadata_cid@),
        res matches Err(e) ==> (e.kind() matches NativeErrorKind::Custom(m) && m@ == wrong_metadata()),
{
    match local_root {
        Some(r) => {
            if *r == *metadata_cid {
                return Ok(());
            }
        },
        None => {},
    }
    Err(NativeError::custom_error("this is the wrong metadata"))
}

} // verus!
