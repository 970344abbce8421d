use vstd::prelude::*;
use vstd::string::*;
use crate::metadata_ops::texts_view;
use crate::native_error::{NativeError, NativeErrorKind};

verus! {

/// What a key may do in a Drive.
#[derive(Clone, Copy, Debug, PartialEq, Eq, Structural)]
pub struct AccessMask {
    pub owner: bool,
    pub filesystem: bool,
    pub data: bool,
    pub maintenance: bool,
    pub protected: bool,
    pub historical: bool,
}

/// A key that has access to a Drive: its fingerprint, its public key in SPKI form, and its mask.
#[derive(Debug)]
pub struct DriveKey {
    pub fingerprint: String,
    pub public_key: String,
    pub mask: AccessMask,
}

/// A user key stored on this machine, by name and fingerprint.
#[derive(Debug)]
pub struct NamedKey {
    pub name: String,
    pub fingerprint: String,
}

/// One row of a Drive's access listing.
#[derive(Debug)]
pub struct AccessRow {
    pub name: String,
    pub fingerprint: String,
    pub public_key: String,
    pub owner: bool,
    pub filesystem: bool,
    pub maintenance: bool,
}

/// The abstract value of an access row: name, fingerprint, public key and the owner,
/// filesystem and maintenance flags.
pub type AccessRowView = (Seq<char>, Seq<char>, Seq<char>, bool, bool, bool);

/// The abstract value of an access row.
pub open spec fn ar_view(r: AccessRow) -> AccessRowView {
    (r.name@, r.fingerprint@, r.public_key@, r.owner, r.filesystem, r.maintenance)
}

/// The abstract value of a stored key: its name and fingerprint.
pub open spec fn nk_view(k: NamedKey) -> (Seq<char>, Seq<char>) {
    (k.name@, k.fingerprint@)
}

/// The name under which a fingerprint is shown: that of the last stored key with that
/// fingerprint, or "Unknown".
pub open spec fn name_for(named: Seq<(Seq<char>, Seq<char>)>, fp: Seq<char>) -> Seq<char>
    decreases named.len(),
{
    if named.len() == 0 {
        "Unknown"@
    } else if named.last().1 == fp {
        named.last().0
    } else {
        name_for(named.drop_last(), fp)
    }
}

/// The name under which a fingerprint is shown.
pub fn lookup_name(named: &Vec<NamedKey>, fp: &String) -> (res: String)
    ensures
        res@ == name_for(named@.map_values(|k: NamedKey| nk_view(k)), fp@),
{
    let ghost nv = named@.map_values(|k: NamedKey| nk_view(k));
    let mut i = named.len();
    assert(nv.take(i as int) =~= nv);
    while i > 0
        invariant
            i <= named@.len(),
            nv == named@.map_values(|k: NamedKey| nk_view(k)),
            name_for(nv, fp@) == name_for(nv.take(i as int), fp@),
        decreases i,
    {
        assert(nv.take(i as int).drop_last() =~= nv.take(i - 1));
        assert(nv.take(i as int).last() == nv[i - 1]);
        if named[i - 1].fingerprint == *fp {
            return named[i - 1].name.clone();
        }
        i = i - 1;
    }
    assert(nv.take(0) =~= Seq::<(Seq<char>, Seq<char>)>::empty());
    String::from_str("Unknown")
}

/// The access listing of a Drive: one row per key, in order.
pub fn access_rows(named: &Vec<NamedKey>, keys: &Vec<DriveKey>) -> (res: Vec<AccessRow>)
    ensures
        res@.len() == keys@.len(),
        forall|i: int| 0 <= i < keys@.len() ==> ar_view(#[trigger] res@[i]) == (
            name_for(named@.map_values(|k: NamedKey| nk_view(k)), keys@[i].fingerprint@),
            keys@[i].fingerprint@,
            keys@[i].public_key@,
            keys@[i].mask.owner,
            keys@[i].mask.filesystem,
            keys@[i].mask.maintenance,
        ),
{
    let mut res: Vec<AccessRow> = Vec::new();
    let n = keys.len();
    for i in 0..n
        invariant
            n == keys@.len(),
            res@.len() == i,
            forall|j: int| 0 <= j < i ==> ar_view(#[trigger] res@[j]) == (
                name_for(named@.map_values(|k: NamedKey| nk_view(k)), keys@[j].fingerprint@),
                keys@[j].fingerprint@,
                keys@[j].public_key@,
                keys@[j].mask.owner,
                keys@[j].mask.filesystem,
                keys@[j].mask.maintenance,
            ),
    {
        let k = &keys[i];
        res.push(AccessRow {
            name: lookup_name(named, &k.fingerprint),
            fingerprint: k.fingerprint.clone(),
            public_key: k.public_key.clone(),
            owner: k.mask.owner,
            filesystem: k.mask.filesystem,
            maintenance: k.mask.maintenance,
        });
    }
    res
}

/// Whether the key with fingerprint `fp` already holds exactly the mask `full`, so that
/// granting it access again is refused.
pub fn already_granted(keys: &Vec<DriveKey>, fp: &String, full: AccessMask) -> (res: bool)
    ensures
        res == exists|i: int| 0 <= i < keys@.len() && #[trigger] keys@[i].fingerprint@ == fp@ && keys@[i].mask == full,
{
    let n = keys.len();
    for i in 0..n
        invariant
            n == keys@.len(),
            forall|j: int| 0 <= j < i ==> !(#[trigger] keys@[j].fingerprint@ == fp@ && keys@[j].mask == full),
    {
        if keys[i].fingerprint == *fp && keys[i].mask == full {
            return true;
        }
    }
    false
}

/// What revoking a key's access comes to.
#[derive(Debug, PartialEq, Eq, Structural)]
pub enum RevokeDecision {
    /// No key of the Drive has that fingerprint.
    Missing,
    /// The key is protected and keeps its access.
    Protected,
    /// The key's access is revoked.
    Revoke,
}

/// Decides a revocation by the first key with fingerprint `fp`.
pub fn revoke_decision(keys: &Vec<DriveKey>, fp: &String) -> (res: RevokeDecision)
    ensures
        match res {
            RevokeDecision::Missing => forall|j: int| 0 <= j < keys@.len() ==> #[trigger] keys@[j].fingerprint@ != fp@,
            _ => exists|i: int| 0 <= i < keys@.len() && #[trigger] keys@[i].fingerprint@ == fp@
                && (forall|j: int| 0 <= j < i ==> #[trigger] keys@[j].fingerprint@ != fp@)
                && (res == RevokeDecision::Protected <==> keys@[i].mask.protected),
        },
{
    let n = keys.len();
    for i in 0..n
        invariant
            n == keys@.len(),
            forall|j: int| 0 <= j < i ==> #[trigger] keys@[j].fingerprint@ != fp@,
    {
        if keys[i].fingerprint == *fp {
            if keys[i].mask.protected {
                return RevokeDecision::Protected;
            } else {
                return RevokeDecision::Revoke;
            }
        }
    }
    RevokeDecision::Missing
}

/// The keys whose access is current, in order; historical keys are left out.
pub fn current_keys<K>(keys: Vec<(K, AccessMask)>) -> (res: Vec<K>)
    ensures
        res@ == keys@.filter(|p: (K, AccessMask)| !p.1.historical).map_values(|p: (K, AccessMask)| p.0),
{
    let ghost kv = keys@;
    let mut res: Vec<K> = Vec::new();
    let mut rest = keys;
    let n = rest.len();
    proof {
        assert(kv.take(0) =~= Seq::<(K, AccessMask)>::empty());
        assert(kv.skip(0) =~= kv);
        assert(kv.take(0).filter(|p: (K, AccessMask)| !p.1.historical) =~= Seq::<(K, AccessMask)>::empty()) by {
            reveal_with_fuel(Seq::<_>::filter, 1);
        }
    }
    let mut i: usize = 0;
    while i < n
        invariant
            n == kv.len(),
            i <= n,
            rest@ == kv.skip(i as int),
            res@ == kv.take(i as int).filter(|p: (K, AccessMask)| !p.1.historical).map_values(|p: (K, AccessMask)| p.0),
        decreases n - i,
    {
        let item = rest.remove(0);
        assert(item == kv[i as int]);
        assert(rest@ =~= kv.skip(i + 1));
        let ghost before = kv.take(i as int).filter(|p: (K, AccessMask)| !p.1.historical);
        assert(kv.take(i + 1).drop_last() =~= kv.take(i as int));
        assert(kv.take(i + 1).filter(|p: (K, AccessMask)| !p.1.historical) == if !item.1.historical {
            before.push(item)
        } else {
            before
        }) by {
            reveal_with_fuel(Seq::<_>::filter, 1);
        }
        if !item.1.historical {
            res.push(item.0);
            assert(res@ =~= before.push(item).map_values(|p: (K, AccessMask)| p.0));
        }
        i = i + 1;
    }
    assert(kv.take(n as int) =~= kv);
    res
}

/// The listing of the keys that asked for access to a Drive: each printed key after a blank line.
pub open spec fn access_listing_spec(texts: Seq<Seq<char>>) -> Seq<char>
    decreases texts.len(),
{
    if texts.len() == 0 {
        Seq::<char>::empty()
    } else {
        access_listing_spec(texts.drop_last()) + "\n\n"@ + texts.last()
    }
}

/// Lists the printed access requests of a Drive, one after another with a blank line before each.
pub fn access_listing(texts: &Vec<String>) -> (res: String)
    ensures
        res@ == access_listing_spec(texts_view(texts@)),
{
    let mut acc = String::new();
    let n = texts.len();
    for i in 0..n
        invariant
            n == texts@.len(),
            acc@ == access_listing_spec(texts_view(texts@.take(i as int))),
    {
        proof {
            assert(texts_view(texts@.take(i as int + 1)).drop_last() =~= texts_view(texts@.take(i as int)));
        }
        acc.append("\n\n");
        acc.append(texts[i].as_str());
    }
    proof {
        assert(texts@.take(n as int) =~= texts@);
    }
    acc
}

/// The message when this key already asked for access to a Drive.
pub open spec fn already_requested() -> Seq<char> {
    "You've already requested access on this Bucket!"@
}

/// Checks an access request for a Drive: the Drive must be on the platform (`has_id`), and a
/// key that already asked for access, found among the fingerprints of the Drive's access
/// requests, is refused; otherwise the request may be made.
pub fn access_request_check(has_id: bool, requested: &Vec<String>, fingerprint: &String) -> (res: Result<(), NativeError>)
    ensures
        !has_id ==> (res matches Err(e) && e.kind() == NativeErrorKind::MissingRemoteDrive),
        has_id && (exists|i: int| 0 <= i < requested@.len() && #[trigger] requested@[i]@ == fingerprint@)
            ==> (res matches Err(e) && e.kind() matches NativeErrorKind::Custom(m) && m@ == already_requested()),
        has_id && !(exists|i: int| 0 <= i < requested@.len() && #[trigger] requested@[i]@ == fingerprint@) ==> res is Ok,
{
    if !has_id {
        return Err(NativeError::missing_remote_drive());
    }
    let n = requested.len();
    for i in 0..n
        invariant
            n == requested@.len(),
            has_id,
            forall|j: int| 0 <= j < i ==> #[trigger] requested@[j]@ != fingerprint@,
    {
        if requested[i] == *fingerprint {
            return Err(NativeError::custom_error("You've already requested access on this Bucket!"));
        }
    }
    Ok(())
}

} // verus!
