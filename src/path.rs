use vstd::prelude::*;

verus! {

/// The pieces of `s` between its `/` separators, in order. A string with `k`
/// separators has `k + 1` pieces; empty pieces stand for repeated, leading or
/// trailing separators.
pub open spec fn segments(s: Seq<char>) -> Seq<Seq<char>>
    decreases s.len(),
{
    if s.len() == 0 {
        seq![Seq::<char>::empty()]
    } else {
        let prev = segments(s.drop_last());
        if s.last() == '/' {
            prev.push(Seq::<char>::empty())
        } else {
            prev.update(prev.len() - 1, prev.last().push(s.last()))
        }
    }
}

/// A segment that names the current directory: empty, or `.`.
pub open spec fn is_current(seg: Seq<char>) -> bool {
    seg.len() == 0 || seg == seq!['.']
}

/// A segment that names the parent directory: `..`.
pub open spec fn is_parent(seg: Seq<char>) -> bool {
    seg == seq!['.', '.']
}

/// One step of lexical resolution: `.` and empty segments change nothing,
/// `..` removes the last component (staying put at the top), any other
/// segment is appended.
pub open spec fn step(stack: Seq<Seq<char>>, seg: Seq<char>) -> Seq<Seq<char>> {
    if is_current(seg) {
        stack
    } else if is_parent(seg) {
        if stack.len() == 0 {
            stack
        } else {
            stack.drop_last()
        }
    } else {
        stack.push(seg)
    }
}

/// The components that `segs` resolves to, read from the directory whose
/// components are `base`.
pub open spec fn resolve_from(base: Seq<Seq<char>>, segs: Seq<Seq<char>>) -> Seq<Seq<char>>
    decreases segs.len(),
{
    if segs.len() == 0 {
        base
    } else {
        step(resolve_from(base, segs.drop_last()), segs.last())
    }
}

/// The components that the path text `s` resolves to, read from the top of
/// the file system.
pub open spec fn components(s: Seq<char>) -> Seq<Seq<char>> {
    resolve_from(Seq::empty(), segments(s))
}

/// `inner` equals `outer` or lies below it.
pub open spec fn is_within(outer: Seq<Seq<char>>, inner: Seq<Seq<char>>) -> bool {
    outer.len() <= inner.len() && inner.subrange(0, outer.len() as int) == outer
}

/// The views of a vector of strings.
pub open spec fn views(v: Seq<String>) -> Seq<Seq<char>> {
    v.map_values(|x: String| x@)
}

/// `s` without the `/` characters at its start.
pub open spec fn strip_leading_slashes(s: Seq<char>) -> Seq<char>
    decreases s.len(),
{
    if s.len() > 0 && s[0] == '/' {
        strip_leading_slashes(s.drop_first())
    } else {
        s
    }
}

/// The absolute path text of the components `c`: `/` alone for none, else
/// each component preceded by a `/`.
pub open spec fn path_text(c: Seq<Seq<char>>) -> Seq<char> {
    if c.len() == 0 {
        "/"@
    } else {
        slash_joined(c)
    }
}

/// Each component of `c` preceded by a `/`, one after the other.
pub open spec fn slash_joined(c: Seq<Seq<char>>) -> Seq<char>
    decreases c.len(),
{
    if c.len() == 0 {
        Seq::empty()
    } else {
        slash_joined(c.drop_last()) + "/"@ + c.last()
    }
}

/// Segments that hold no `..` never leave the directory they are read from:
/// resolving them from `base` ends at `base` or below it.
pub proof fn lemma_no_parent_stays_within(base: Seq<Seq<char>>, segs: Seq<Seq<char>>)
    requires
        forall|i: int| 0 <= i < segs.len() ==> !is_parent(#[trigger] segs[i]),
    ensures
        is_within(base, resolve_from(base, segs)),
    decreases segs.len(),
{
    if segs.len() == 0 {
        assert(base.subrange(0, base.len() as int) =~= base);
    } else {
        let prev = segs.drop_last();
        assert forall|i: int| 0 <= i < prev.len() implies !is_parent(#[trigger] prev[i]) by {
            assert(prev[i] == segs[i]);
        }
        lemma_no_parent_stays_within(base, prev);
        let r = resolve_from(base, prev);
        assert(!is_parent(segs[segs.len() - 1]));
        if !is_current(segs.last()) {
            assert(r.push(segs.last()).subrange(0, base.len() as int) =~= r.subrange(
                0,
                base.len() as int,
            ));
        }
    }
}

/// Splits `s` at each `/`; the result's views are exactly `segments(s@)`.
pub fn split_segments(s: &str) -> (r: Vec<String>)
    ensures
        views(r@) == segments(s@),
{
    let n = s.unicode_len();
    let mut done: Vec<String> = Vec::new();
    let mut start: usize = 0;
    let mut i: usize = 0;
    assert(s@.subrange(0, 0) =~= Seq::<char>::empty());
    assert(views(done@) =~= Seq::<Seq<char>>::empty());
    assert(views(done@).push(s@.subrange(0, 0)) =~= seq![Seq::<char>::empty()]);
    while i < n
        invariant
            n == s@.len(),
            start <= i <= n,
            segments(s@.subrange(0, i as int)) == views(done@).push(
                s@.subrange(start as int, i as int),
            ),
        decreases n - i,
    {
        let c = s.get_char(i);
        let ghost before = done@;
        let ghost t = s@.subrange(0, i as int + 1);
        proof {
            assert(t.drop_last() =~= s@.subrange(0, i as int));
            assert(t.last() == c);
        }
        if c == '/' {
            let piece = String::from_str(s.substring_char(start, i));
            done.push(piece);
            start = i + 1;
            proof {
                assert(views(done@) =~= views(before).push(piece@));
                assert(s@.subrange(start as int, i as int + 1) =~= Seq::<char>::empty());
            }
        } else {
            proof {
                assert(s@.subrange(start as int, i as int + 1) =~= s@.subrange(
                    start as int,
                    i as int,
                ).push(c));
                assert(segments(t) =~= views(done@).push(s@.subrange(start as int, i as int + 1)));
            }
        }
        i = i + 1;
    }
    let ghost before = done@;
    let last = String::from_str(s.substring_char(start, n));
    done.push(last);
    proof {
        assert(s@.subrange(0, n as int) =~= s@);
        assert(views(done@) =~= views(before).push(last@));
    }
    done
}

/// Tells whether `seg` is empty or `.`.
fn seg_is_current(seg: &str) -> (r: bool)
    ensures
        r == is_current(seg@),
{
    let n = seg.unicode_len();
    if n == 0 {
        true
    } else if n == 1 {
        let c = seg.get_char(0);
        if c == '.' {
            assert(seg@ =~= seq!['.']);
        }
        c == '.'
    } else {
        false
    }
}

/// Tells whether `seg` is `..`.
fn seg_is_parent(seg: &str) -> (r: bool)
    ensures
        r == is_parent(seg@),
{
    let n = seg.unicode_len();
    if n == 2 {
        let c0 = seg.get_char(0);
        let c1 = seg.get_char(1);
        if c0 == '.' && c1 == '.' {
            assert(seg@ =~= seq!['.', '.']);
        }
        c0 == '.' && c1 == '.'
    } else {
        false
    }
}

/// Resolves `segs` one by one on top of the components in `stack`.
pub fn apply_segments(stack: &mut Vec<String>, segs: &Vec<String>)
    ensures
        views(final(stack)@) == resolve_from(views(old(stack)@), views(segs@)),
{
    let ghost base = views(stack@);
    let mut k: usize = 0;
    assert(views(segs@).subrange(0, 0) =~= Seq::<Seq<char>>::empty());
    while k < segs.len()
        invariant
            k <= segs.len(),
            base == views(old(stack)@),
            views(stack@) == resolve_from(base, views(segs@).subrange(0, k as int)),
        decreases segs.len() - k,
    {
        let seg = segs[k].as_str();
        let ghost before = stack@;
        proof {
            let t = views(segs@).subrange(0, k as int + 1);
            assert(t.drop_last() =~= views(segs@).subrange(0, k as int));
            assert(t.last() == seg@);
        }
        if seg_is_current(seg) {
        } else if seg_is_parent(seg) {
            if stack.len() > 0 {
                stack.pop();
                assert(views(stack@) =~= views(before).drop_last());
            }
        } else {
            stack.push(String::from_str(seg));
            assert(views(stack@) =~= views(before).push(seg@));
        }
        k = k + 1;
    }
    assert(views(segs@).subrange(0, segs.len() as int) =~= views(segs@));
}

/// The components that the path text `s` resolves to.
pub fn path_components(s: &str) -> (r: Vec<String>)
    ensures
        views(r@) == components(s@),
{
    let segs = split_segments(s);
    let mut stack: Vec<String> = Vec::new();
    assert(views(stack@) =~= Seq::<Seq<char>>::empty());
    apply_segments(&mut stack, &segs);
    stack
}

/// Tells whether the components `inner` equal `outer` or lie below it.
pub fn within(outer: &Vec<String>, inner: &Vec<String>) -> (r: bool)
    ensures
        r == is_within(views(outer@), views(inner@)),
{
    if outer.len() > inner.len() {
        return false;
    }
    let mut k: usize = 0;
    while k < outer.len()
        invariant
            k <= outer.len() <= inner.len(),
            forall|j: int| 0 <= j < k ==> outer@[j]@ == inner@[j]@,
        decreases outer.len() - k,
    {
        let same = outer[k] == inner[k];
        if !same {
            assert(views(inner@).subrange(0, outer.len() as int)[k as int] != views(outer@)[k as int]);
            return false;
        }
        k = k + 1;
    }
    assert(views(inner@).subrange(0, outer.len() as int) =~= views(outer@));
    true
}

/// The absolute path text of the components `c`.
pub fn to_path_text(c: &Vec<String>) -> (r: String)
    ensures
        r@ == path_text(views(c@)),
{
    if c.len() == 0 {
        return String::from_str("/");
    }
    let mut r = String::new();
    let mut k: usize = 0;
    assert(views(c@).subrange(0, 0) =~= Seq::<Seq<char>>::empty());
    while k < c.len()
        invariant
            k <= c.len(),
            r@ == slash_joined(views(c@).subrange(0, k as int)),
        decreases c.len() - k,
    {
        proof {
            let t = views(c@).subrange(0, k as int + 1);
            assert(t.drop_last() =~= views(c@).subrange(0, k as int));
        }
        r.append("/");
        r.append(c[k].as_str());
        k = k + 1;
    }
    assert(views(c@).subrange(0, c.len() as int) =~= views(c@));
    r
}

/// `s` without the `/` characters at its start.
pub fn trim_leading_slashes(s: &str) -> (r: &str)
    ensures
        r@ == strip_leading_slashes(s@),
{
    let n = s.unicode_len();
    let mut i: usize = 0;
    assert(s@.subrange(0, n as int) =~= s@);
    while i < n && s.get_char(i) == '/'
        invariant
            i <= n,
            n == s@.len(),
            strip_leading_slashes(s@) == strip_leading_slashes(s@.subrange(i as int, n as int)),
        decreases n - i,
    {
        assert(s@.subrange(i as int, n as int).drop_first() =~= s@.subrange(i as int + 1, n as int));
        i = i + 1;
    }
    s.substring_char(i, n)
}

} // verus!
