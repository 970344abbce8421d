use vstd::prelude::*;
use vstd::string::*;

verus! {

/// The pieces of `p` between separators, empty pieces included.
pub open spec fn raw_segments(p: Seq<char>) -> Seq<Seq<char>>
    decreases p.len(),
{
    if p.len() == 0 {
        seq![Seq::<char>::empty()]
    } else {
        let r = raw_segments(p.drop_last());
        if p.last() == '/' {
            r.push(Seq::<char>::empty())
        } else {
            r.update(r.len() - 1, r.last().push(p.last()))
        }
    }
}

/// There is always at least one piece.
pub proof fn lemma_raw_nonempty(p: Seq<char>)
    ensures
        raw_segments(p).len() >= 1,
    decreases p.len(),
{
    if p.len() > 0 {
        lemma_raw_nonempty(p.drop_last());
    }
}

/// A piece that names something: neither empty nor the current directory.
pub open spec fn is_named(s: Seq<char>) -> bool {
    s.len() > 0 && s != seq!['.']
}

/// The test that keeps the named pieces.
pub open spec fn named_pred() -> spec_fn(Seq<char>) -> bool {
    |s: Seq<char>| is_named(s)
}

/// Whether `p` starts at the root.
pub open spec fn is_absolute(p: Seq<char>) -> bool {
    p.len() > 0 && p[0] == '/'
}

/// The components of a path: the root `/` or a leading current directory `.`,
/// then each named piece; repeated separators and inner `.` pieces vanish.
pub open spec fn components(p: Seq<char>) -> Seq<Seq<char>> {
    let named = raw_segments(p).filter(named_pred());
    if is_absolute(p) {
        seq![seq!['/']] + named
    } else if raw_segments(p)[0] == seq!['.'] {
        seq![seq!['.']] + named
    } else {
        named
    }
}

/// The last component of `p` when it names a file or directory.
pub open spec fn file_name(p: Seq<char>) -> Option<Seq<char>> {
    let c = components(p);
    if c.len() > 0 && c.last() != seq!['/'] && c.last() != seq!['.'] && c.last() != seq!['.', '.'] {
        Some(c.last())
    } else {
        None
    }
}

/// `p` extended by `q`: an absolute `q` replaces `p`; otherwise one separator joins them.
pub open spec fn join(p: Seq<char>, q: Seq<char>) -> Seq<char> {
    if is_absolute(q) {
        q
    } else if p.len() > 0 && p.last() != '/' {
        p + seq!['/'] + q
    } else {
        p + q
    }
}

/// Joins named pieces with separators.
pub open spec fn join_pieces(cs: Seq<Seq<char>>) -> Seq<char>
    decreases cs.len(),
{
    if cs.len() == 0 {
        Seq::<char>::empty()
    } else if cs.len() == 1 {
        cs[0]
    } else {
        join_pieces(cs.drop_last()) + seq!['/'] + cs.last()
    }
}

/// The text of a path made of the given components.
pub open spec fn render(cs: Seq<Seq<char>>) -> Seq<char> {
    if cs.len() > 0 && cs[0] == seq!['/'] {
        seq!['/'] + join_pieces(cs.drop_first())
    } else {
        join_pieces(cs)
    }
}

/// The path without its last component; none for the root and the empty path.
pub open spec fn parent(p: Seq<char>) -> Option<Seq<char>> {
    let c = components(p);
    if c.len() == 0 || c.last() == seq!['/'] {
        None
    } else {
        Some(render(c.drop_last()))
    }
}

/// A single piece: no separator in it.
pub open spec fn is_piece(q: Seq<char>) -> bool {
    forall|i: int| 0 <= i < q.len() ==> #[trigger] q[i] != '/'
}

/// A separator then a single piece adds that piece.
pub proof fn lemma_raw_after_separator(a: Seq<char>, q: Seq<char>)
    requires
        is_piece(q),
    ensures
        raw_segments(a + seq!['/'] + q) == raw_segments(a).push(q),
    decreases q.len(),
{
    if q.len() == 0 {
        assert(q =~= Seq::<char>::empty());
        assert(a + seq!['/'] + q =~= a.push('/'));
        assert((a + seq!['/'] + q).drop_last() =~= a);
        assert((a + seq!['/'] + q).last() == '/');
    } else {
        let q0 = q.drop_last();
        assert(is_piece(q0)) by {
            assert forall|i: int| 0 <= i < q0.len() implies #[trigger] q0[i] != '/' by {
                assert(q0[i] == q[i]);
            }
        }
        assert(q[q.len() - 1] != '/');
        lemma_raw_after_separator(a, q0);
        let w = a + seq!['/'] + q;
        assert(w.drop_last() =~= a + seq!['/'] + q0);
        assert(w.last() == q.last());
        assert(q0.push(q.last()) =~= q);
        let r = raw_segments(a + seq!['/'] + q0);
        assert(r.update(r.len() - 1, r.last().push(q.last())) =~= raw_segments(a).push(q));
    }
}

/// A single piece is one raw segment.
pub proof fn lemma_raw_piece(q: Seq<char>)
    requires
        is_piece(q),
    ensures
        raw_segments(q) == seq![q],
    decreases q.len(),
{
    if q.len() > 0 {
        let q0 = q.drop_last();
        assert(is_piece(q0)) by {
            assert forall|i: int| 0 <= i < q0.len() implies #[trigger] q0[i] != '/' by {
                assert(q0[i] == q[i]);
            }
        }
        assert(q[q.len() - 1] != '/');
        lemma_raw_piece(q0);
        assert(q0.push(q.last()) =~= q);
        assert(seq![q0].update(0, q0.push(q.last())) =~= seq![q]);
    } else {
        assert(q =~= Seq::<char>::empty());
    }
}

/// Joining a named piece to any path makes that piece the path's file name.
pub proof fn law_join_names_file(p: Seq<char>, q: Seq<char>)
    requires
        is_piece(q),
        is_named(q),
        q != seq!['.', '.'],
    ensures
        file_name(join(p, q)) == Some(q),
{
    let j = join(p, q);
    assert(!is_absolute(q)) by {
        if q.len() > 0 {
            assert(q[0] != '/');
        }
    }
    let base = if p.len() > 0 && p.last() != '/' {
        p
    } else if p.len() > 0 {
        p.drop_last()
    } else {
        Seq::<char>::empty()
    };
    let named = raw_segments(j).filter(named_pred());
    if p.len() == 0 {
        assert(j =~= q);
        lemma_raw_piece(q);
        assert(raw_segments(j) =~= Seq::<Seq<char>>::empty().push(q));
    } else {
        if p.last() != '/' {
            assert(j =~= p + seq!['/'] + q);
        } else {
            assert(j =~= p.drop_last() + seq!['/'] + q);
        }
        lemma_raw_after_separator(base, q);
    }
    assert(raw_segments(j) == raw_segments(base).push(q) || (p.len() == 0 && raw_segments(j) == Seq::<Seq<char>>::empty().push(q)));
    assert(named.len() > 0 && named.last() == q) by {
        reveal_with_fuel(Seq::<Seq<char>>::filter, 1);
        let r = raw_segments(j);
        assert(r.last() == q);
        assert(named_pred()(q));
    }
    let c = components(j);
    assert(c.last() == q);
    assert(c.len() > 0);
    assert(q != seq!['/']) by {
        assert(q[0] != '/');
    }
}

/// Joining a named piece to a path adds that piece to its components.
pub proof fn lemma_components_join(p: Seq<char>, q: Seq<char>)
    requires
        is_piece(q),
        is_named(q),
    ensures
        components(join(p, q)) == components(p).push(q),
{
    let j = join(p, q);
    assert(!is_absolute(q)) by {
        assert(q[0] != '/');
    }
    lemma_raw_nonempty(p);
    if p.len() == 0 {
        assert(j =~= q);
        lemma_raw_piece(q);
        assert(raw_segments(p) =~= seq![Seq::<char>::empty()]);
        assert(raw_segments(p).filter(named_pred()) =~= Seq::<Seq<char>>::empty()) by {
            reveal_with_fuel(Seq::<Seq<char>>::filter, 2);
            assert(seq![Seq::<char>::empty()].drop_last() =~= Seq::<Seq<char>>::empty());
        }
        assert(raw_segments(j).filter(named_pred()) =~= seq![q]) by {
            reveal_with_fuel(Seq::<Seq<char>>::filter, 2);
            assert(seq![q].drop_last() =~= Seq::<Seq<char>>::empty());
        }
        assert(raw_segments(p)[0] != seq!['.']) by {
            assert(raw_segments(p)[0].len() == 0);
        }
        assert(components(p) =~= Seq::<Seq<char>>::empty());
        assert(raw_segments(j)[0] != seq!['.']) by {
            assert(raw_segments(j)[0] == q);
        }
        assert(components(j) =~= seq![q]);
    } else {
        let base = if p.last() != '/' { p } else { p.drop_last() };
        if p.last() != '/' {
            assert(j =~= p + seq!['/'] + q);
        } else {
            assert(j =~= p.drop_last() + seq!['/'] + q);
        }
        lemma_raw_after_separator(base, q);
        lemma_raw_nonempty(base);
        let rb = raw_segments(base);
        let rj = raw_segments(j);
        assert(rj == rb.push(q));
        assert(rj.filter(named_pred()) == rb.filter(named_pred()).push(q)) by {
            reveal_with_fuel(Seq::<Seq<char>>::filter, 1);
            assert(rb.push(q).drop_last() =~= rb);
        }
        if p.last() == '/' {
            assert(p.drop_last().push('/') =~= p);
            assert(raw_segments(p) == rb.push(Seq::<char>::empty()));
            assert(raw_segments(p).filter(named_pred()) == rb.filter(named_pred())) by {
                reveal_with_fuel(Seq::<Seq<char>>::filter, 1);
                assert(rb.push(Seq::<char>::empty()).drop_last() =~= rb);
            }
            assert(raw_segments(p)[0] == rb[0]);
        }
        assert(rj[0] == rb[0]);
        assert(is_absolute(j) == is_absolute(p)) by {
            assert(j[0] == p[0]);
        }
        assert(raw_segments(p).filter(named_pred()) == rb.filter(named_pred()));
        assert(raw_segments(p)[0] == rb[0]);
        if is_absolute(p) {
            assert(components(j) =~= seq![seq!['/']] + rb.filter(named_pred()).push(q));
        } else if rb[0] == seq!['.'] {
            assert(components(j) =~= seq![seq!['.']] + rb.filter(named_pred()).push(q));
        } else {
            assert(components(j) =~= rb.filter(named_pred()).push(q));
        }
    }
}

/// The pieces of `s` between separators.
fn split_raw(s: &str) -> (res: Vec<String>)
    ensures
        res@.map_values(|x: String| x@) == raw_segments(s@),
{
    let n = s.unicode_len();
    let mut done: Vec<String> = Vec::new();
    let mut start: usize = 0;
    let mut i: usize = 0;
    assert(s@.take(0) =~= Seq::<char>::empty());
    assert(done@.map_values(|x: String| x@) + seq![s@.subrange(0, 0)] =~= seq![Seq::<char>::empty()]);
    while i < n
        invariant
            n == s@.len(),
            0 <= start <= i <= n,
            done@.map_values(|x: String| x@) + seq![s@.subrange(start as int, i as int)] == raw_segments(s@.take(i as int)),
        decreases n - i,
    {
        let c = s.get_char(i);
        let ghost before = s@.take(i as int);
        assert(s@.take(i + 1).drop_last() =~= before);
        if c == '/' {
            let piece = s.substring_char(start, i);
            let ghost old_done = done@.map_values(|x: String| x@);
            done.push(piece.to_owned());
            assert(done@.map_values(|x: String| x@) =~= old_done.push(piece@));
            assert(s@.subrange((i + 1) as int, (i + 1) as int) =~= Seq::<char>::empty());
            assert(done@.map_values(|x: String| x@) + seq![s@.subrange((i + 1) as int, (i + 1) as int)]
                =~= (old_done + seq![s@.subrange(start as int, i as int)]).push(Seq::<char>::empty()));
            start = i + 1;
        } else {
            let ghost old_done = done@.map_values(|x: String| x@);
            assert(s@.subrange(start as int, (i + 1) as int) =~= s@.subrange(start as int, i as int).push(c));
            assert(old_done + seq![s@.subrange(start as int, (i + 1) as int)]
                =~= (old_done + seq![s@.subrange(start as int, i as int)]).update(
                    old_done.len() as int, s@.subrange(start as int, i as int).push(c)));
        }
        i = i + 1;
    }
    assert(s@.take(n as int) =~= s@);
    let piece = s.substring_char(start, n);
    let ghost old_done = done@.map_values(|x: String| x@);
    done.push(piece.to_owned());
    assert(done@.map_values(|x: String| x@) =~= old_done + seq![piece@]);
    done
}

/// Whether a piece names something.
fn piece_is_named(s: &String) -> (res: bool)
    ensures
        res == is_named(s@),
{
    let n = s.as_str().unicode_len();
    if n == 0 {
        false
    } else if n == 1 {
        let c = s.as_str().get_char(0);
        if c == '.' {
            assert(s@ =~= seq!['.']);
        } else {
            assert(s@[0] != seq!['.'][0]);
        }
        c != '.'
    } else {
        assert(s@.len() != seq!['.'].len());
        true
    }
}

/// Builds a one-character string.
fn single(c: char) -> (res: String)
    requires
        c == '/' || c == '.',
    ensures
        res@ == seq![c],
{
    if c == '/' {
        let s = String::from_str("/");
        proof {
            reveal_strlit("/");
        }
        s
    } else {
        let s = String::from_str(".");
        proof {
            reveal_strlit(".");
        }
        s
    }
}

/// The components of a path.
pub fn path_components(p: &str) -> (res: Vec<String>)
    ensures
        res@.map_values(|x: String| x@) == components(p@),
{
    let raw = split_raw(p);
    let ghost rv = raw@.map_values(|x: String| x@);
    proof {
        lemma_raw_nonempty(p@);
    }
    let mut named: Vec<String> = Vec::new();
    let n = raw.len();
    for k in 0..n
        invariant
            n == raw@.len(),
            rv == raw@.map_values(|x: String| x@),
            named@.map_values(|x: String| x@) == rv.take(k as int).filter(named_pred()),
    {
        let ghost before = named@.map_values(|x: String| x@);
        assert(rv.take(k + 1).drop_last() =~= rv.take(k as int));
        assert(rv.take(k + 1).last() == rv[k as int]);
        assert(rv.take(k + 1).filter(named_pred()) == if is_named(rv[k as int]) {
            rv.take(k as int).filter(named_pred()).push(rv[k as int])
        } else {
            rv.take(k as int).filter(named_pred())
        }) by {
            reveal_with_fuel(Seq::<Seq<char>>::filter, 1);
        }
        if piece_is_named(&raw[k]) {
            named.push(raw[k].clone());
            assert(named@.map_values(|x: String| x@) =~= before.push(rv[k as int]));
        }
    }
    assert(rv.take(n as int) =~= rv);
    let ghost nv = named@.map_values(|x: String| x@);
    let len = p.unicode_len();
    let absolute = len > 0 && p.get_char(0) == '/';
    let first_is_dot = piece_is_named(&raw[0]) == false && raw[0].as_str().unicode_len() == 1;
    proof {
        if !absolute && first_is_dot {
            assert(rv[0].len() == 1 && !is_named(rv[0]));
            assert(rv[0] =~= seq!['.']);
        }
        if rv[0] == seq!['.'] {
            assert(!is_named(rv[0]));
        }
    }
    if absolute {
        let mut res: Vec<String> = Vec::new();
        res.push(single('/'));
        let mut rest = named;
        res.append(&mut rest);
        assert(res@.map_values(|x: String| x@) =~= seq![seq!['/']] + nv);
        res
    } else if first_is_dot {
        let mut res: Vec<String> = Vec::new();
        res.push(single('.'));
        let mut rest = named;
        res.append(&mut rest);
        assert(res@.map_values(|x: String| x@) =~= seq![seq!['.']] + nv);
        res
    } else {
        named
    }
}


/// The final component of a path when it names a file or directory.
pub fn name_of(p: &str) -> (res: Option<String>)
    ensures
        match res {
            Some(s) => file_name(p@) == Some(s@),
            None => file_name(p@) is None,
        },
{
    let mut cs = path_components(p);
    let ghost cv = cs@.map_values(|x: String| x@);
    let n = cs.len();
    if n == 0 {
        return None;
    }
    let last = cs.pop().unwrap();
    assert(last@ == cv.last());
    let m = last.as_str().unicode_len();
    let special = if m == 1 {
        let c = last.as_str().get_char(0);
        proof {
            if c == '/' {
                assert(last@ =~= seq!['/']);
            } else if c == '.' {
                assert(last@ =~= seq!['.']);
            } else {
                assert(last@[0] != seq!['/'][0] && last@[0] != seq!['.'][0]);
            }
        }
        c == '/' || c == '.'
    } else if m == 2 {
        let c0 = last.as_str().get_char(0);
        let c1 = last.as_str().get_char(1);
        proof {
            if c0 == '.' && c1 == '.' {
                assert(last@ =~= seq!['.', '.']);
            } else if c0 != '.' {
                assert(last@[0] != seq!['.', '.'][0]);
            } else {
                assert(last@[1] != seq!['.', '.'][1]);
            }
        }
        c0 == '.' && c1 == '.'
    } else {
        assert(last@.len() != seq!['/'].len() && last@.len() != seq!['.', '.'].len());
        false
    };
    if special {
        None
    } else {
        Some(last)
    }
}

/// Whether two paths have the same components.
pub fn same_path(a: &str, b: &str) -> (res: bool)
    ensures
        res == (components(a@) == components(b@)),
{
    let ca = path_components(a);
    let cb = path_components(b);
    let ghost va = ca@.map_values(|x: String| x@);
    let ghost vb = cb@.map_values(|x: String| x@);
    if ca.len() != cb.len() {
        assert(va.len() != vb.len());
        return false;
    }
    let n = ca.len();
    for i in 0..n
        invariant
            n == ca@.len(),
            n == cb@.len(),
            va == ca@.map_values(|x: String| x@),
            vb == cb@.map_values(|x: String| x@),
            va == components(a@),
            vb == components(b@),
            forall|j: int| 0 <= j < i ==> va[j] == vb[j],
    {
        if ca[i] != cb[i] {
            assert(va[i as int] != vb[i as int]);
            return false;
        }
    }
    assert(va =~= vb);
    true
}

/// `p` extended by `q`.
pub fn join_path(p: &str, q: &str) -> (res: String)
    ensures
        res@ == join(p@, q@),
{
    let qn = q.unicode_len();
    if qn > 0 && q.get_char(0) == '/' {
        return q.to_owned();
    }
    let pn = p.unicode_len();
    let mut res = p.to_owned();
    if pn > 0 && p.get_char(pn - 1) != '/' {
        res.append("/");
        proof {
            reveal_strlit("/");
        }
    }
    res.append(q);
    res
}

/// The text of a path made of the given components.
pub fn render_components(cs: &Vec<String>) -> (res: String)
    ensures
        res@ == render(cs@.map_values(|x: String| x@)),
{
    let ghost cv = cs@.map_values(|x: String| x@);
    let n = cs.len();
    let mut start: usize = 0;
    let mut res = String::new();
    let mut rooted = false;
    if n > 0 {
        let f = cs[0].as_str().unicode_len();
        if f == 1 && cs[0].as_str().get_char(0) == '/' {
            assert(cv[0] =~= seq!['/']);
            rooted = true;
            start = 1;
            res.append("/");
            proof {
                reveal_strlit("/");
            }
        } else {
            proof {
                if f != 1 {
                    assert(cv[0].len() != seq!['/'].len());
                } else {
                    assert(cv[0][0] != seq!['/'][0]);
                }
            }
        }
    }
    let ghost prefix = res@;
    let ghost body = if rooted { cv.drop_first() } else { cv };
    assert(body =~= cv.subrange(start as int, n as int));
    let mut i: usize = start;
    while i < n
        invariant
            n == cs@.len(),
            cv == cs@.map_values(|x: String| x@),
            start <= i <= n,
            start <= 1,
            body == cv.subrange(start as int, n as int),
            res@ == prefix + join_pieces(cv.subrange(start as int, i as int)),
        decreases n - i,
    {
        let ghost sub = cv.subrange(start as int, i as int);
        let ghost next = cv.subrange(start as int, (i + 1) as int);
        assert(next.drop_last() =~= sub);
        assert(next.last() == cs[i as int]@);
        if i > start {
            res.append("/");
            proof {
                reveal_strlit("/");
            }
            res.append(cs[i].as_str());
            assert(res@ =~= prefix + join_pieces(next));
        } else {
            res.append(cs[i].as_str());
            assert(next.len() == 1);
            assert(res@ =~= prefix + join_pieces(next));
        }
        i = i + 1;
    }
    assert(cv.subrange(start as int, n as int) == body);
    proof {
        if rooted {
            assert(prefix =~= seq!['/']);
        } else {
            assert(prefix =~= Seq::<char>::empty());
            assert(prefix + join_pieces(body) =~= join_pieces(body));
        }
    }
    res
}

/// The path without its last component.
pub fn parent_path(p: &str) -> (res: Option<String>)
    ensures
        match res {
            Some(s) => parent(p@) == Some(s@),
            None => parent(p@) is None,
        },
{
    let mut cs = path_components(p);
    let ghost cv = cs@.map_values(|x: String| x@);
    let n = cs.len();
    if n == 0 {
        return None;
    }
    let f = cs[n - 1].as_str().unicode_len();
    let is_root = f == 1 && cs[n - 1].as_str().get_char(0) == '/';
    proof {
        if is_root {
            assert(cv.last() =~= seq!['/']);
        } else if f != 1 {
            assert(cv.last().len() != seq!['/'].len());
        } else {
            assert(cv.last()[0] != seq!['/'][0]);
        }
    }
    if is_root {
        return None;
    }
    cs.pop();
    assert(cs@.map_values(|x: String| x@) =~= cv.drop_last());
    Some(render_components(&cs))
}
} // verus!
