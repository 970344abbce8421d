use vstd::prelude::*;
use vstd::string::*;
use crate::cli::display::Persistence;
use crate::error::NativeError;

verus! {

/// A user key stored on this machine: its name, fingerprint and public key in SPKI
/// form (`None` when the key could not be encoded).
#[derive(Debug)]
pub struct LocalKey {
    pub name: String,
    pub fingerprint: String,
    pub public_key: Option<String>,
}

/// A user key registered on the platform.
#[derive(Debug)]
pub struct RemoteKey {
    pub name: String,
    pub user_id: String,
    pub fingerprint: String,
    pub api_access: bool,
    pub public_key: String,
}

/// One row of the key listing.
#[derive(Debug)]
pub struct KeyRow {
    pub name: String,
    pub user_id: String,
    pub fingerprint: String,
    pub api_access: bool,
    pub public_key: String,
    pub persistence: Persistence,
    /// Whether this is the selected key
    pub selected: bool,
}

/// The abstract value of a local key: name, fingerprint and public key.
pub type LocalKeyView = (Seq<char>, Seq<char>, Option<Seq<char>>);

/// The abstract value of a platform key: name, user, fingerprint, API access and public key.
pub type RemoteKeyView = (Seq<char>, Seq<char>, Seq<char>, bool, Seq<char>);

/// The abstract value of a key listing row.
pub type KeyRowView = (Seq<char>, Seq<char>, Seq<char>, bool, Seq<char>, Persistence);

/// The abstract value of a local key.
pub open spec fn lk_view(k: LocalKey) -> LocalKeyView {
    (k.name@, k.fingerprint@, crate::drive_model::opt_view(k.public_key))
}

/// The abstract value of a platform key.
pub open spec fn rk_view(k: RemoteKey) -> RemoteKeyView {
    (k.name@, k.user_id@, k.fingerprint@, k.api_access, k.public_key@)
}

/// The abstract value of a key listing row.
pub open spec fn kr_view(r: KeyRow) -> KeyRowView {
    (r.name@, r.user_id@, r.fingerprint@, r.api_access, r.public_key@, r.persistence)
}

/// The positions `(i, j)` of the remote keys `rs` whose fingerprint is that of the local key `l`
/// at position `i`, in order.
pub open spec fn pairs_for_local(i: int, l: LocalKeyView, rs: Seq<RemoteKeyView>) -> Seq<(int, int)>
    decreases rs.len(),
{
    if rs.len() == 0 {
        Seq::empty()
    } else {
        let r = pairs_for_local(i, l, rs.drop_last());
        if rs.last().2 == l.1 {
            r.push((i, rs.len() - 1))
        } else {
            r
        }
    }
}

/// Every pair of a local and a remote key with the same fingerprint, local keys first.
pub open spec fn matched(ls: Seq<LocalKeyView>, rs: Seq<RemoteKeyView>) -> Seq<(int, int)>
    decreases ls.len(),
{
    if ls.len() == 0 {
        Seq::empty()
    } else {
        matched(ls.drop_last(), rs) + pairs_for_local(ls.len() - 1, ls.last(), rs)
    }
}

/// A matched pair whose names differ.
pub open spec fn is_conflict(ls: Seq<LocalKeyView>, rs: Seq<RemoteKeyView>, p: (int, int)) -> bool {
    ls[p.0].0 != rs[p.1].0
}

/// The number of matched pairs whose names differ.
pub open spec fn conflict_count(ls: Seq<LocalKeyView>, rs: Seq<RemoteKeyView>, ps: Seq<(int, int)>) -> nat
    decreases ps.len(),
{
    if ps.len() == 0 {
        0
    } else {
        (if is_conflict(ls, rs, ps[0]) { 1nat } else { 0nat }) + conflict_count(ls, rs, ps.drop_first())
    }
}

/// The rows of keys kept on both sides. Where the names differ, `choices` says, in order,
/// whether the local name was kept (`true`) or the remote one.
pub open spec fn sync_key_rows(ls: Seq<LocalKeyView>, rs: Seq<RemoteKeyView>, ps: Seq<(int, int)>, choices: Seq<bool>) -> Seq<KeyRowView>
    decreases ps.len(),
{
    if ps.len() == 0 {
        Seq::empty()
    } else {
        let l = ls[ps[0].0];
        let r = rs[ps[0].1];
        if l.0 == r.0 {
            seq![(l.0, r.1, r.2, r.3, r.4, Persistence::Sync)] + sync_key_rows(ls, rs, ps.drop_first(), choices)
        } else {
            seq![(if choices[0] { l.0 } else { r.0 }, r.1, r.2, r.3, r.4, Persistence::Sync)]
                + sync_key_rows(ls, rs, ps.drop_first(), choices.drop_first())
        }
    }
}

/// Whether the name `n` belongs to a matched pair, on either side.
pub open spec fn in_sync(n: Seq<char>, ls: Seq<LocalKeyView>, rs: Seq<RemoteKeyView>, ps: Seq<(int, int)>) -> bool {
    exists|t: int| 0 <= t < ps.len() && (ls[#[trigger] ps[t].0].0 == n || rs[ps[t].1].0 == n)
}

/// The rows of keys kept only locally.
pub open spec fn local_key_rows(ls: Seq<LocalKeyView>, all: Seq<LocalKeyView>, rs: Seq<RemoteKeyView>, ps: Seq<(int, int)>) -> Seq<KeyRowView>
    decreases ls.len(),
{
    if ls.len() == 0 {
        Seq::empty()
    } else {
        let r = local_key_rows(ls.drop_last(), all, rs, ps);
        let k = ls.last();
        if in_sync(k.0, all, rs, ps) {
            r
        } else {
            r.push((k.0, "N/A"@, k.1, false, k.2.unwrap(), Persistence::LocalOnly))
        }
    }
}

/// The rows of keys kept only on the platform.
pub open spec fn remote_key_rows(ls: Seq<LocalKeyView>, rs: Seq<RemoteKeyView>, all: Seq<RemoteKeyView>, ps: Seq<(int, int)>) -> Seq<KeyRowView>
    decreases rs.len(),
{
    if rs.len() == 0 {
        Seq::empty()
    } else {
        let r = remote_key_rows(ls, rs.drop_last(), all, ps);
        let k = rs.last();
        if in_sync(k.0, ls, all, ps) {
            r
        } else {
            r.push((k.0, k.1, k.2, k.3, k.4, Persistence::RemoteOnly))
        }
    }
}

/// The pairs of positions as plain integers.
pub open spec fn pairs_view(v: Seq<(usize, usize)>) -> Seq<(int, int)> {
    v.map_values(|p: (usize, usize)| (p.0 as int, p.1 as int))
}

/// Every local and remote key with the same fingerprint, local keys first.
pub fn matched_pairs(locals: &Vec<LocalKey>, remotes: &Vec<RemoteKey>) -> (res: Vec<(usize, usize)>)
    ensures
        pairs_view(res@) == matched(locals@.map_values(|k: LocalKey| lk_view(k)), remotes@.map_values(|k: RemoteKey| rk_view(k))),
        forall|t: int| 0 <= t < res@.len() ==> (#[trigger] res@[t]).0 < locals@.len() && res@[t].1 < remotes@.len(),
{
    let ghost ls = locals@.map_values(|k: LocalKey| lk_view(k));
    let ghost rs = remotes@.map_values(|k: RemoteKey| rk_view(k));
    let mut res: Vec<(usize, usize)> = Vec::new();
    let nl = locals.len();
    let nr = remotes.len();
    assert(ls.take(0) =~= Seq::<LocalKeyView>::empty());
    for i in 0..nl
        invariant
            nl == locals@.len(),
            nr == remotes@.len(),
            ls == locals@.map_values(|k: LocalKey| lk_view(k)),
            rs == remotes@.map_values(|k: RemoteKey| rk_view(k)),
            pairs_view(res@) == matched(ls.take(i as int), rs),
            forall|t: int| 0 <= t < res@.len() ==> (#[trigger] res@[t]).0 < nl && res@[t].1 < nr,
    {
        let ghost before = pairs_view(res@);
        assert(ls.take(i + 1).drop_last() =~= ls.take(i as int));
        assert(rs.take(0) =~= Seq::<RemoteKeyView>::empty());
        assert(before =~= before + pairs_for_local(i as int, ls[i as int], rs.take(0)));
        for j in 0..nr
            invariant
                nl == locals@.len(),
                nr == remotes@.len(),
                i < nl,
                ls == locals@.map_values(|k: LocalKey| lk_view(k)),
                rs == remotes@.map_values(|k: RemoteKey| rk_view(k)),
                pairs_view(res@) == before + pairs_for_local(i as int, ls[i as int], rs.take(j as int)),
                forall|t: int| 0 <= t < res@.len() ==> (#[trigger] res@[t]).0 < nl && res@[t].1 < nr,
        {
            assert(rs.take(j + 1).drop_last() =~= rs.take(j as int));
            assert(rs.take(j + 1).last() == rs[j as int]);
            if remotes[j].fingerprint == locals[i].fingerprint {
                let ghost r0 = pairs_view(res@);
                res.push((i, j));
                assert(pairs_view(res@) =~= r0.push((i as int, j as int)));
            }
            assert(pairs_view(res@) =~= before + pairs_for_local(i as int, ls[i as int], rs.take(j + 1)));
        }
        assert(rs.take(nr as int) =~= rs);
        assert(ls.take(i + 1).last() == ls[i as int]);
    }
    assert(ls.take(nl as int) =~= ls);
    res
}

/// The test that keeps the matched pairs whose names differ.
pub open spec fn conflict_pred(ls: Seq<LocalKeyView>, rs: Seq<RemoteKeyView>) -> spec_fn((int, int)) -> bool {
    |p: (int, int)| is_conflict(ls, rs, p)
}

/// The matched pairs whose names differ, in order: one choice is asked for each.
pub fn conflicts(locals: &Vec<LocalKey>, remotes: &Vec<RemoteKey>) -> (res: Vec<(usize, usize)>)
    ensures
        pairs_view(res@) == matched(locals@.map_values(|k: LocalKey| lk_view(k)), remotes@.map_values(|k: RemoteKey| rk_view(k)))
            .filter(conflict_pred(locals@.map_values(|k: LocalKey| lk_view(k)), remotes@.map_values(|k: RemoteKey| rk_view(k)))),
        res@.len() == conflict_count(
            locals@.map_values(|k: LocalKey| lk_view(k)),
            remotes@.map_values(|k: RemoteKey| rk_view(k)),
            matched(locals@.map_values(|k: LocalKey| lk_view(k)), remotes@.map_values(|k: RemoteKey| rk_view(k))),
        ),
        forall|t: int| 0 <= t < res@.len() ==> (#[trigger] res@[t]).0 < locals@.len() && res@[t].1 < remotes@.len()
            && locals@[res@[t].0 as int].name@ != remotes@[res@[t].1 as int].name@
            && locals@[res@[t].0 as int].fingerprint@ == remotes@[res@[t].1 as int].fingerprint@,
{
    let ghost ls = locals@.map_values(|k: LocalKey| lk_view(k));
    let ghost rs = remotes@.map_values(|k: RemoteKey| rk_view(k));
    let pairs = matched_pairs(locals, remotes);
    let ghost ps = pairs_view(pairs@);
    proof {
        lemma_matched_fingerprints(ls, rs);
    }
    let mut res: Vec<(usize, usize)> = Vec::new();
    let n = pairs.len();
    assert(ps.skip(0) =~= ps);
    assert(ps.take(0).filter(conflict_pred(ls, rs)) =~= Seq::<(int, int)>::empty()) by {
        assert(ps.take(0) =~= Seq::<(int, int)>::empty());
        reveal_with_fuel(Seq::<(int, int)>::filter, 1);
    }
    for t in 0..n
        invariant
            n == pairs@.len(),
            ps == pairs_view(pairs@),
            ls == locals@.map_values(|k: LocalKey| lk_view(k)),
            rs == remotes@.map_values(|k: RemoteKey| rk_view(k)),
            ps == matched(ls, rs),
            forall|x: int| 0 <= x < pairs@.len() ==> (#[trigger] pairs@[x]).0 < locals@.len() && pairs@[x].1 < remotes@.len(),
            forall|x: int| 0 <= x < ps.len() ==> ls[(#[trigger] ps[x]).0].1 == rs[ps[x].1].2,
            res@.len() + conflict_count(ls, rs, ps.skip(t as int)) == conflict_count(ls, rs, ps),
            pairs_view(res@) == ps.take(t as int).filter(conflict_pred(ls, rs)),
            forall|x: int| 0 <= x < res@.len() ==> (#[trigger] res@[x]).0 < locals@.len() && res@[x].1 < remotes@.len()
                && locals@[res@[x].0 as int].name@ != remotes@[res@[x].1 as int].name@
                && locals@[res@[x].0 as int].fingerprint@ == remotes@[res@[x].1 as int].fingerprint@,
    {
        assert(ps.skip(t as int).drop_first() =~= ps.skip(t + 1));
        assert(ps.skip(t as int)[0] == ps[t as int]);
        let (i, j) = pairs[t];
        assert(ps[t as int] == (i as int, j as int));
        assert(ps.take(t + 1).drop_last() =~= ps.take(t as int));
        assert(ps.take(t + 1).filter(conflict_pred(ls, rs)) == if conflict_pred(ls, rs)(ps[t as int]) {
            ps.take(t as int).filter(conflict_pred(ls, rs)).push(ps[t as int])
        } else {
            ps.take(t as int).filter(conflict_pred(ls, rs))
        }) by {
            reveal_with_fuel(Seq::<(int, int)>::filter, 1);
        }
        assert(ls[i as int] == lk_view(locals@[i as int]));
        assert(rs[j as int] == rk_view(remotes@[j as int]));
        let ghost before = pairs_view(res@);
        if locals[i].name != remotes[j].name {
            res.push((i, j));
            assert(pairs_view(res@) =~= before.push((i as int, j as int)));
        }
    }
    assert(ps.skip(n as int) =~= Seq::<(int, int)>::empty());
    assert(ps.take(n as int) =~= ps);
    res
}

/// Every matched pair joins keys of the same fingerprint, at valid positions.
pub proof fn lemma_matched_fingerprints(ls: Seq<LocalKeyView>, rs: Seq<RemoteKeyView>)
    ensures
        forall|x: int| 0 <= x < matched(ls, rs).len() ==> 0 <= (#[trigger] matched(ls, rs)[x]).0 < ls.len()
            && 0 <= matched(ls, rs)[x].1 < rs.len()
            && ls[matched(ls, rs)[x].0].1 == rs[matched(ls, rs)[x].1].2,
    decreases ls.len(),
{
    if ls.len() > 0 {
        lemma_matched_fingerprints(ls.drop_last(), rs);
        lemma_pairs_for_local(ls.len() - 1, ls.last(), rs);
        let a = matched(ls.drop_last(), rs);
        let b = pairs_for_local(ls.len() - 1, ls.last(), rs);
        assert forall|x: int| 0 <= x < matched(ls, rs).len() implies 0 <= (#[trigger] matched(ls, rs)[x]).0 < ls.len()
            && 0 <= matched(ls, rs)[x].1 < rs.len()
            && ls[matched(ls, rs)[x].0].1 == rs[matched(ls, rs)[x].1].2 by {
            if x < a.len() {
                assert(matched(ls, rs)[x] == a[x]);
                assert(ls.drop_last()[a[x].0] == ls[a[x].0]);
            } else {
                assert(matched(ls, rs)[x] == b[x - a.len()]);
            }
        }
    }
}

/// The pairs for one local key join it with remote keys of its fingerprint.
pub proof fn lemma_pairs_for_local(i: int, l: LocalKeyView, rs: Seq<RemoteKeyView>)
    ensures
        forall|x: int| 0 <= x < pairs_for_local(i, l, rs).len() ==> (#[trigger] pairs_for_local(i, l, rs)[x]).0 == i
            && 0 <= pairs_for_local(i, l, rs)[x].1 < rs.len()
            && rs[pairs_for_local(i, l, rs)[x].1].2 == l.1,
    decreases rs.len(),
{
    if rs.len() > 0 {
        lemma_pairs_for_local(i, l, rs.drop_last());
        let a = pairs_for_local(i, l, rs.drop_last());
        assert forall|x: int| 0 <= x < pairs_for_local(i, l, rs).len() implies (#[trigger] pairs_for_local(i, l, rs)[x]).0 == i
            && 0 <= pairs_for_local(i, l, rs)[x].1 < rs.len()
            && rs[pairs_for_local(i, l, rs)[x].1].2 == l.1 by {
            if x < a.len() {
                assert(pairs_for_local(i, l, rs)[x] == a[x]);
                assert(rs.drop_last()[a[x].1] == rs[a[x].1]);
            }
        }
    }
}


/// Whether a list of strings holds `name`.
fn holds(v: &Vec<String>, name: &String) -> (res: bool)
    ensures
        res == v@.map_values(|s: String| s@).contains(name@),
{
    let ghost vv = v@.map_values(|s: String| s@);
    let n = v.len();
    for i in 0..n
        invariant
            n == v@.len(),
            vv == v@.map_values(|s: String| s@),
            forall|k: int| 0 <= k < i ==> #[trigger] vv[k] != name@,
    {
        if v[i] == *name {
            assert(vv[i as int] == name@);
            return true;
        }
    }
    false
}

/// The key listing before the selected key is marked.
fn listed_key_rows(locals: &Vec<LocalKey>, remotes: &Vec<RemoteKey>, choices: &Vec<bool>) -> (res: Result<Vec<KeyRow>, NativeError>)
    requires
        choices@.len() == conflict_count(
            locals@.map_values(|k: LocalKey| lk_view(k)),
            remotes@.map_values(|k: RemoteKey| rk_view(k)),
            matched(locals@.map_values(|k: LocalKey| lk_view(k)), remotes@.map_values(|k: RemoteKey| rk_view(k))),
        ),
    ensures
        ({
            let ls = locals@.map_values(|k: LocalKey| lk_view(k));
            let rs = remotes@.map_values(|k: RemoteKey| rk_view(k));
            let ps = matched(ls, rs);
            if ls.len() == 0 {
                res matches Ok(rows) && rows@.len() == 0
            } else if exists|i: int| 0 <= i < ls.len() && !in_sync(#[trigger] ls[i].0, ls, rs, ps) && ls[i].2 is None {
                res matches Err(NativeError::Custom(m)) && m@ == "Spki"@
            } else {
                res matches Ok(rows) && rows@.map_values(|r: KeyRow| kr_view(r))
                    == sync_key_rows(ls, rs, ps, choices@) + local_key_rows(ls, ls, rs, ps) + remote_key_rows(ls, rs, rs, ps)
            }
        }),
{
    let ghost ls = locals@.map_values(|k: LocalKey| lk_view(k));
    let ghost rs = remotes@.map_values(|k: RemoteKey| rk_view(k));
    if locals.len() == 0 {
        return Ok(Vec::new());
    }
    let pairs = matched_pairs(locals, remotes);
    let ghost ps = pairs_view(pairs@);
    let ghost ch = choices@;
    let ghost total = sync_key_rows(ls, rs, ps, ch);
    let mut rows: Vec<KeyRow> = Vec::new();
    let mut names: Vec<String> = Vec::new();
    let mut c: usize = 0;
    let n = pairs.len();
    assert(ps.skip(0) =~= ps);
    assert(ch.skip(0) =~= ch);
    let mut t: usize = 0;
    while t < n
        invariant
            n == pairs@.len(),
            0 <= t <= n,
            ps == pairs_view(pairs@),
            ls == locals@.map_values(|k: LocalKey| lk_view(k)),
            rs == remotes@.map_values(|k: RemoteKey| rk_view(k)),
            ch == choices@,
            total == sync_key_rows(ls, rs, ps, ch),
            forall|x: int| 0 <= x < pairs@.len() ==> (#[trigger] pairs@[x]).0 < locals@.len() && pairs@[x].1 < remotes@.len(),
            c <= ch.len(),
            ch.len() == choices.len(),
            c + conflict_count(ls, rs, ps.skip(t as int)) == ch.len(),
            rows@.map_values(|r: KeyRow| kr_view(r)) + sync_key_rows(ls, rs, ps.skip(t as int), ch.skip(c as int)) == total,
            forall|nm: Seq<char>| names@.map_values(|s: String| s@).contains(nm) <==> in_sync(nm, ls, rs, ps.take(t as int)),
        decreases n - t,
    {
        let ghost nv = names@.map_values(|s: String| s@);
        assert(ps.skip(t as int).drop_first() =~= ps.skip(t + 1));
        assert(ps.skip(t as int)[0] == ps[t as int]);
        let (i, j) = pairs[t];
        assert(ps[t as int] == (i as int, j as int));
        let l = &locals[i];
        let r = &remotes[j];
        assert(ls[i as int] == lk_view(*l));
        assert(rs[j as int] == rk_view(*r));
        let key_name = if l.name == r.name {
            l.name.clone()
        } else {
            assert(c < choices.len());
            assert(ch.skip(c as int)[0] == ch[c as int]);
            assert(ch.skip(c as int).drop_first() =~= ch.skip(c + 1));
            let keep_local = choices[c];
            c = c + 1;
            if keep_local {
                l.name.clone()
            } else {
                r.name.clone()
            }
        };
        rows.push(KeyRow {
            name: key_name,
            user_id: r.user_id.clone(),
            fingerprint: r.fingerprint.clone(),
            api_access: r.api_access,
            public_key: r.public_key.clone(),
            persistence: Persistence::Sync,
            selected: false,
        });
        names.push(l.name.clone());
        names.push(r.name.clone());
        let ghost nv2 = names@.map_values(|s: String| s@);
        let ghost pt = ps.take(t as int);
        let ghost pt1 = ps.take(t + 1);
        assert(nv2 =~= nv.push(l.name@).push(r.name@));
        assert forall|nm: Seq<char>| nv2.contains(nm) <==> in_sync(nm, ls, rs, pt1) by {
            if nv2.contains(nm) {
                let y = choose|y: int| 0 <= y < nv2.len() && nv2[y] == nm;
                if y < nv.len() {
                    assert(nv[y] == nm);
                    assert(in_sync(nm, ls, rs, pt));
                    let x = choose|x: int| 0 <= x < pt.len() && (ls[#[trigger] pt[x].0].0 == nm || rs[pt[x].1].0 == nm);
                    assert(pt1[x] == pt[x]);
                } else {
                    assert(pt1[t as int] == ps[t as int]);
                    assert(ls[pt1[t as int].0].0 == nm || rs[pt1[t as int].1].0 == nm);
                }
            }
            if in_sync(nm, ls, rs, pt1) {
                let x = choose|x: int| 0 <= x < pt1.len() && (ls[#[trigger] pt1[x].0].0 == nm || rs[pt1[x].1].0 == nm);
                if x < t {
                    assert(pt[x] == pt1[x]);
                    assert(in_sync(nm, ls, rs, pt));
                    assert(nv.contains(nm));
                    let y = choose|y: int| 0 <= y < nv.len() && nv[y] == nm;
                    assert(nv2[y] == nm);
                } else {
                    assert(pt1[x] == ps[t as int]);
                    if ls[ps[t as int].0].0 == nm {
                        assert(nv2[nv.len() as int] == nm);
                    } else {
                        assert(nv2[nv.len() as int + 1] == nm);
                    }
                }
            }
        }
        assert(rows@.map_values(|r: KeyRow| kr_view(r)) + sync_key_rows(ls, rs, ps.skip(t + 1), ch.skip(c as int)) =~= total);
        t = t + 1;
    }
    assert(ps.skip(n as int) =~= Seq::<(int, int)>::empty());
    assert(ps.take(n as int) =~= ps);
    assert(rows@.map_values(|r: KeyRow| kr_view(r)) =~= total);
    let ghost after_sync = rows@.map_values(|r: KeyRow| kr_view(r));
    let nl = locals.len();
    assert(ls.take(0) =~= Seq::<LocalKeyView>::empty());
    for i in 0..nl
        invariant
            nl == locals@.len(),
            ls == locals@.map_values(|k: LocalKey| lk_view(k)),
            rs == remotes@.map_values(|k: RemoteKey| rk_view(k)),
            ps == matched(ls, rs),
            forall|nm: Seq<char>| names@.map_values(|s: String| s@).contains(nm) <==> in_sync(nm, ls, rs, ps),
            after_sync == sync_key_rows(ls, rs, ps, ch),
            rows@.map_values(|r: KeyRow| kr_view(r)) == after_sync + local_key_rows(ls.take(i as int), ls, rs, ps),
            forall|j: int| 0 <= j < i ==> !in_sync(#[trigger] ls[j].0, ls, rs, ps) ==> ls[j].2 is Some,
    {
        let ghost r0 = rows@.map_values(|r: KeyRow| kr_view(r));
        assert(ls.take(i + 1).drop_last() =~= ls.take(i as int));
        assert(ls.take(i + 1).last() == ls[i as int]);
        let k = &locals[i];
        assert(ls[i as int] == lk_view(*k));
        if !holds(&names, &k.name) {
            let pk = match &k.public_key {
                Some(p) => p.clone(),
                None => {
                    assert(!in_sync(ls[i as int].0, ls, rs, ps) && ls[i as int].2 is None);
                    return Err(NativeError::Custom(String::from_str("Spki")));
                },
            };
            rows.push(KeyRow {
                name: k.name.clone(),
                user_id: String::from_str("N/A"),
                fingerprint: k.fingerprint.clone(),
                api_access: false,
                public_key: pk,
                persistence: Persistence::LocalOnly,
            selected: false,
            });
            assert(rows@.map_values(|r: KeyRow| kr_view(r)) =~= r0.push((k.name@, "N/A"@, k.fingerprint@, false, ls[i as int].2.unwrap(), Persistence::LocalOnly)));
        }
        assert(rows@.map_values(|r: KeyRow| kr_view(r)) =~= after_sync + local_key_rows(ls.take(i + 1), ls, rs, ps));
    }
    assert(ls.take(nl as int) =~= ls);
    let ghost after_local = rows@.map_values(|r: KeyRow| kr_view(r));
    let nr = remotes.len();
    assert(rs.take(0) =~= Seq::<RemoteKeyView>::empty());
    for j in 0..nr
        invariant
            nr == remotes@.len(),
            ls == locals@.map_values(|k: LocalKey| lk_view(k)),
            rs == remotes@.map_values(|k: RemoteKey| rk_view(k)),
            ps == matched(ls, rs),
            forall|nm: Seq<char>| names@.map_values(|s: String| s@).contains(nm) <==> in_sync(nm, ls, rs, ps),
            rows@.map_values(|r: KeyRow| kr_view(r)) == after_local + remote_key_rows(ls, rs.take(j as int), rs, ps),
    {
        let ghost r0 = rows@.map_values(|r: KeyRow| kr_view(r));
        assert(rs.take(j + 1).drop_last() =~= rs.take(j as int));
        assert(rs.take(j + 1).last() == rs[j as int]);
        let k = &remotes[j];
        assert(rs[j as int] == rk_view(*k));
        if !holds(&names, &k.name) {
            rows.push(KeyRow {
                name: k.name.clone(),
                user_id: k.user_id.clone(),
                fingerprint: k.fingerprint.clone(),
                api_access: k.api_access,
                public_key: k.public_key.clone(),
                persistence: Persistence::RemoteOnly,
            selected: false,
            });
            assert(rows@.map_values(|r: KeyRow| kr_view(r)) =~= r0.push(rk_row(rs[j as int])));
        }
        assert(rows@.map_values(|r: KeyRow| kr_view(r)) =~= after_local + remote_key_rows(ls, rs.take(j + 1), rs, ps));
    }
    assert(rs.take(nr as int) =~= rs);
    Ok(rows)
}

/// The row of a key kept only on the platform.
pub open spec fn rk_row(k: RemoteKeyView) -> KeyRowView {
    (k.0, k.1, k.2, k.3, k.4, Persistence::RemoteOnly)
}

/// Whether a listed key is the selected one.
pub open spec fn is_selected(name: Seq<char>, selected: Option<String>) -> bool {
    crate::drive_model::opt_view(selected) == Some(name)
}

/// Marks the row of the selected key, and leaves the rows otherwise as they are.
fn mark_selected(rows: Vec<KeyRow>, selected: &Option<String>) -> (res: Vec<KeyRow>)
    ensures
        res@.map_values(|r: KeyRow| kr_view(r)) == rows@.map_values(|r: KeyRow| kr_view(r)),
        forall|i: int| 0 <= i < res@.len() ==> (#[trigger] res@[i]).selected == is_selected(res@[i].name@, *selected),
{
    let mut res: Vec<KeyRow> = Vec::new();
    let n = rows.len();
    for i in 0..n
        invariant
            n == rows@.len(),
            res@.map_values(|r: KeyRow| kr_view(r)) =~= rows@.take(i as int).map_values(|r: KeyRow| kr_view(r)),
            forall|j: int| 0 <= j < res@.len() ==> (#[trigger] res@[j]).selected == is_selected(res@[j].name@, *selected),
    {
        let r = &rows[i];
        let hit = match selected {
            Some(s) => r.name == *s,
            None => false,
        };
        let row = KeyRow {
            name: r.name.clone(),
            user_id: r.user_id.clone(),
            fingerprint: r.fingerprint.clone(),
            api_access: r.api_access,
            public_key: r.public_key.clone(),
            persistence: r.persistence,
            selected: hit,
        };
        assert(kr_view(row) == kr_view(rows@[i as int]));
        let ghost before = res@.map_values(|r: KeyRow| kr_view(r));
        res.push(row);
        assert(res@.map_values(|r: KeyRow| kr_view(r)) =~= before.push(kr_view(row)));
        assert(rows@.take(i + 1).map_values(|r: KeyRow| kr_view(r))
            =~= rows@.take(i as int).map_values(|r: KeyRow| kr_view(r)).push(kr_view(rows@[i as int])));
    }
    assert(rows@.take(n as int) =~= rows@);
    res
}

/// Lists the user keys; with no key stored locally there is nothing to list. Otherwise,
/// first those kept on both sides (named as `choices` decided where
/// the names differ), then those kept only locally, then those kept only on the platform.
/// A key is kept on both sides when a local and a remote key share a fingerprint; a key
/// is listed alone when its name is not among the names of such pairs. The row of the
/// selected key is marked. Fails when a key
/// listed as local only has no public key in SPKI form.
pub fn key_rows(locals: &Vec<LocalKey>, remotes: &Vec<RemoteKey>, choices: &Vec<bool>, selected: &Option<String>) -> (res: Result<Vec<KeyRow>, NativeError>)
    requires
        choices@.len() == conflict_count(
            locals@.map_values(|k: LocalKey| lk_view(k)),
            remotes@.map_values(|k: RemoteKey| rk_view(k)),
            matched(locals@.map_values(|k: LocalKey| lk_view(k)), remotes@.map_values(|k: RemoteKey| rk_view(k))),
        ),
    ensures
        ({
            let ls = locals@.map_values(|k: LocalKey| lk_view(k));
            let rs = remotes@.map_values(|k: RemoteKey| rk_view(k));
            let ps = matched(ls, rs);
            if ls.len() == 0 {
                res matches Ok(rows) && rows@.len() == 0
            } else if exists|i: int| 0 <= i < ls.len() && !in_sync(#[trigger] ls[i].0, ls, rs, ps) && ls[i].2 is None {
                res matches Err(NativeError::Custom(m)) && m@ == "Spki"@
            } else {
                res matches Ok(rows) && rows@.map_values(|r: KeyRow| kr_view(r))
                    == sync_key_rows(ls, rs, ps, choices@) + local_key_rows(ls, ls, rs, ps) + remote_key_rows(ls, rs, rs, ps)
                    && forall|i: int| 0 <= i < rows@.len() ==> (#[trigger] rows@[i]).selected == is_selected(rows@[i].name@, *selected)
            }
        }),
{
    match listed_key_rows(locals, remotes, choices) {
        Ok(rows) => {
            let ghost before = rows@;
            let marked = mark_selected(rows, selected);
            assert(marked@.len() == marked@.map_values(|r: KeyRow| kr_view(r)).len());
            assert(before.len() == before.map_values(|r: KeyRow| kr_view(r)).len());
            Ok(marked)
        },
        Err(e) => Err(e),
    }
}

} // verus!
