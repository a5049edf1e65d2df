//! Where a file write lands, read lexically: a path is a `/`-separated list
//! of components; `.` stays, `..` goes up one, and a write target lies
//! inside the working directory when its resolved components begin with the
//! directory's own.

use vstd::prelude::*;
use crate::text::chars_of;

verus! {

/// The components gathered so far, with the one being read added where it
/// is not empty.
pub open spec fn flush(acc: Seq<Seq<char>>, cur: Seq<char>) -> Seq<Seq<char>> {
    if cur.len() == 0 { acc } else { acc.push(cur) }
}

/// The components of `s` from position `i` on, after `acc`, with `cur` the
/// component being read.
pub open spec fn split_from(s: Seq<char>, i: nat, cur: Seq<char>, acc: Seq<Seq<char>>) -> Seq<Seq<char>>
    decreases s.len() - i,
{
    if i >= s.len() {
        flush(acc, cur)
    } else if s[i as int] == '/' {
        split_from(s, i + 1, Seq::empty(), flush(acc, cur))
    } else {
        split_from(s, i + 1, cur.push(s[i as int]), acc)
    }
}

/// The non-empty `/`-separated components of a path.
pub open spec fn path_parts(s: Seq<char>) -> Seq<Seq<char>> {
    split_from(s, 0, Seq::empty(), Seq::empty())
}

/// Whether a path starts at the root.
pub open spec fn rooted(s: Seq<char>) -> bool {
    s.len() > 0 && s[0] == '/'
}

/// The resolved components after one more component: `.` changes nothing;
/// `..` drops the last name, stays at the root of a rooted path, and is
/// kept where a relative path has no name left to drop; a name is added.
pub open spec fn step(is_rooted: bool, prev: Seq<Seq<char>>, c: Seq<char>) -> Seq<Seq<char>> {
    if c == seq!['.'] {
        prev
    } else if c == seq!['.', '.'] {
        if prev.len() > 0 && prev.last() != seq!['.', '.'] {
            prev.drop_last()
        } else if is_rooted {
            prev
        } else {
            prev.push(c)
        }
    } else {
        prev.push(c)
    }
}

/// The components left after resolving `.` and `..` in order.
pub open spec fn resolved(is_rooted: bool, cs: Seq<Seq<char>>) -> Seq<Seq<char>>
    decreases cs.len(),
{
    if cs.len() == 0 {
        Seq::empty()
    } else {
        step(is_rooted, resolved(is_rooted, cs.drop_last()), cs.last())
    }
}

/// Where a write of `target` from the working directory `dir` lands: a
/// rooted target as itself, any other under the directory; whether that is
/// rooted, and its resolved components.
pub open spec fn landing(target: Seq<char>, dir: Seq<char>) -> (bool, Seq<Seq<char>>) {
    if rooted(target) {
        (true, resolved(true, path_parts(target)))
    } else {
        (rooted(dir), resolved(rooted(dir), path_parts(dir) + path_parts(target)))
    }
}

/// Whether a write of `target` lands inside the working directory `dir`:
/// both are rooted or both are not, and the landing's resolved components
/// begin with the directory's.
pub open spec fn lands_within(target: Seq<char>, dir: Seq<char>) -> bool {
    let base = resolved(rooted(dir), path_parts(dir));
    let l = landing(target, dir);
    &&& l.0 == rooted(dir)
    &&& base.len() <= l.1.len()
    &&& l.1.subrange(0, base.len() as int) == base
}

/// Whether every component is a name: neither `.` nor `..`.
pub open spec fn plain_parts(cs: Seq<Seq<char>>) -> bool {
    forall|i: int| 0 <= i < cs.len() ==> #[trigger] cs[i] != seq!['.'] && cs[i] != seq!['.', '.']
}

/// The views of a list of components.
pub open spec fn parts_view(v: Seq<Vec<char>>) -> Seq<Seq<char>> {
    v.map_values(|x: Vec<char>| x@)
}

/// The non-empty `/`-separated components of a path.
pub fn split_path(s: &str) -> (r: Vec<Vec<char>>)
    ensures
        parts_view(r@) == path_parts(s@),
{
    let cs = chars_of(s);
    let mut acc: Vec<Vec<char>> = Vec::new();
    let mut cur: Vec<char> = Vec::new();
    let mut i: usize = 0;
    assert(parts_view(acc@) =~= Seq::<Seq<char>>::empty());
    assert(cur@ =~= Seq::<char>::empty());
    while i < cs.len()
        invariant
            cs@ == s@,
            i <= cs.len(),
            split_from(s@, i as nat, cur@, parts_view(acc@)) == path_parts(s@),
        decreases cs.len() - i,
    {
        if cs[i] == '/' {
            if cur.len() > 0 {
                let c = cur;
                assert(parts_view(acc@.push(c)) =~= parts_view(acc@).push(c@));
                acc.push(c);
            }
            cur = Vec::new();
            assert(cur@ =~= Seq::<char>::empty());
        } else {
            cur.push(cs[i]);
        }
        i = i + 1;
    }
    if cur.len() > 0 {
        let c = cur;
        assert(parts_view(acc@.push(c)) =~= parts_view(acc@).push(c@));
        acc.push(c);
    }
    acc
}

/// Whether a component is `.`.
fn is_dot(p: &Vec<char>) -> (r: bool)
    ensures
        r == (p@ == seq!['.']),
{
    let r = p.len() == 1 && p[0] == '.';
    proof {
        if p@.len() == 1 && p@[0] == '.' {
            assert(p@ =~= seq!['.']);
        }
    }
    r
}

/// Whether a component is `..`.
fn is_dot_dot(p: &Vec<char>) -> (r: bool)
    ensures
        r == (p@ == seq!['.', '.']),
{
    let r = p.len() == 2 && p[0] == '.' && p[1] == '.';
    proof {
        if p@.len() == 2 && p@[0] == '.' && p@[1] == '.' {
            assert(p@ =~= seq!['.', '.']);
        }
    }
    r
}

/// Whether a component is exactly the given characters.
fn part_is(p: &Vec<char>, t: &[char]) -> (r: bool)
    ensures
        r == (p@ == t@),
{
    if p.len() != t.len() {
        return false;
    }
    let mut i: usize = 0;
    while i < p.len()
        invariant
            p.len() == t.len(),
            i <= p.len(),
            forall|j: int| 0 <= j < i ==> p@[j] == t@[j],
        decreases p.len() - i,
    {
        if p[i] != t[i] {
            return false;
        }
        i = i + 1;
    }
    assert(p@ =~= t@);
    true
}

/// The components left after resolving `.` and `..` in order.
pub fn resolve_parts(is_rooted: bool, cs: &Vec<Vec<char>>) -> (r: Vec<Vec<char>>)
    ensures
        parts_view(r@) == resolved(is_rooted, parts_view(cs@)),
{
    let ghost all = parts_view(cs@);
    let mut out: Vec<Vec<char>> = Vec::new();
    let mut i: usize = 0;
    while i < cs.len()
        invariant
            all == parts_view(cs@),
            i <= cs.len(),
            parts_view(out@) == resolved(is_rooted, all.subrange(0, i as int)),
        decreases cs.len() - i,
    {
        let ghost prev = parts_view(out@);
        assert(all.subrange(0, i + 1).drop_last() =~= all.subrange(0, i as int));
        assert(all.subrange(0, i + 1).last() == cs@[i as int]@);
        let c = &cs[i];
        if is_dot(c) {
        } else if is_dot_dot(c) {
            let last_up = out.len() > 0 && is_dot_dot(&out[out.len() - 1]);
            if out.len() > 0 && !last_up {
                assert(prev.last() == out@[out.len() - 1]@);
                out.pop();
                assert(parts_view(out@) =~= prev.drop_last());
            } else if !is_rooted {
                if out.len() > 0 {
                    assert(prev.last() == out@[out.len() - 1]@);
                }
                let d = c.clone();
                assert(d@ == c@);
                out.push(d);
                assert(parts_view(out@) =~= prev.push(c@));
            } else {
                if out.len() > 0 {
                    assert(prev.last() == out@[out.len() - 1]@);
                }
            }
        } else {
            let d = c.clone();
            assert(d@ == c@);
            out.push(d);
            assert(parts_view(out@) =~= prev.push(c@));
        }
        i = i + 1;
    }
    assert(all.subrange(0, cs.len() as int) =~= all);
    out
}

/// Whether a path starts at the root.
fn starts_at_root(s: &str) -> (r: bool)
    ensures
        r == rooted(s@),
{
    let cs = chars_of(s);
    cs.len() > 0 && cs[0] == '/'
}

/// Whether a write of `target` from the working directory `dir` lands
/// inside that directory, read lexically (see `lands_within`): `a/b.txt`
/// does, `../outside.txt` does not, and a rooted target does only where it
/// begins with the directory.
#[verifier::rlimit(30)]
pub fn write_target_within(target: &str, dir: &str) -> (r: bool)
    ensures
        r == lands_within(target@, dir@),
        !rooted(target@) && plain_parts(path_parts(target@)) ==> r,
{
    let dir_rooted = starts_at_root(dir);
    let dir_parts = split_path(dir);
    let base = resolve_parts(dir_rooted, &dir_parts);
    let target_rooted = starts_at_root(target);
    let target_parts = split_path(target);
    let ghost tp = path_parts(target@);
    let (land_rooted, land) = if target_rooted {
        (true, resolve_parts(true, &target_parts))
    } else {
        let mut all = dir_parts;
        let mut k: usize = 0;
        let ghost start = parts_view(all@);
        while k < target_parts.len()
            invariant
                start == path_parts(dir@),
                parts_view(target_parts@) == path_parts(target@),
                k <= target_parts.len(),
                parts_view(all@) == start + parts_view(target_parts@).subrange(0, k as int),
            decreases target_parts.len() - k,
        {
            let c = target_parts[k].clone();
            assert(c@ == target_parts@[k as int]@);
            assert(parts_view(target_parts@)[k as int] == target_parts@[k as int]@);
            assert(parts_view(all@.push(c)) =~= parts_view(all@).push(c@));
            assert(parts_view(target_parts@).subrange(0, k + 1) =~= parts_view(target_parts@).subrange(0, k as int).push(c@));
            all.push(c);
            k = k + 1;
            assert(parts_view(all@) =~= start + parts_view(target_parts@).subrange(0, k as int));
        }
        assert(parts_view(target_parts@).subrange(0, target_parts.len() as int) =~= parts_view(target_parts@));
        (dir_rooted, resolve_parts(dir_rooted, &all))
    };
    proof {
        if !rooted(target@) && plain_parts(tp) {
            lemma_resolved_plain_suffix(dir_rooted, path_parts(dir@), tp);
            assert(!target_rooted);
            assert(land_rooted == dir_rooted);
            assert(parts_view(land@) == parts_view(base@) + tp);
            assert(base@.len() == parts_view(base@).len());
            assert(land@.len() == parts_view(land@).len());
            assert(base.len() <= land.len());
            assert(parts_view(land@).subrange(0, parts_view(base@).len() as int) =~= parts_view(base@));
        }
    }
    if land_rooted != dir_rooted || base.len() > land.len() {
        return false;
    }
    assert(parts_view(base@) == resolved(rooted(dir@), path_parts(dir@)));
    assert(land_rooted == landing(target@, dir@).0 && parts_view(land@) == landing(target@, dir@).1);
    let mut i: usize = 0;
    while i < base.len()
        invariant
            parts_view(base@) == resolved(rooted(dir@), path_parts(dir@)),
            land_rooted == landing(target@, dir@).0,
            parts_view(land@) == landing(target@, dir@).1,
            land_rooted == rooted(dir@),
            !rooted(target@) && plain_parts(path_parts(target@)) ==>
                parts_view(land@).subrange(0, parts_view(base@).len() as int) == parts_view(base@),
            base.len() <= land.len(),
            i <= base.len(),
            forall|j: int| 0 <= j < i ==> parts_view(land@)[j] == parts_view(base@)[j],
        decreases base.len() - i,
    {
        if !part_is(&land[i], base[i].as_slice()) {
            assert(parts_view(land@)[i as int] == land@[i as int]@);
            assert(parts_view(base@)[i as int] == base@[i as int]@);
            assert(parts_view(land@).subrange(0, base.len() as int)[i as int] != parts_view(base@)[i as int]);
            return false;
        }
        assert(parts_view(land@)[i as int] == land@[i as int]@);
        assert(parts_view(base@)[i as int] == base@[i as int]@);
        i = i + 1;
    }
    assert(parts_view(land@).subrange(0, base.len() as int) =~= parts_view(base@));
    true
}

/// Resolving names added after a directory's components keeps the
/// directory's resolved components and adds the names.
proof fn lemma_resolved_plain_suffix(is_rooted: bool, a: Seq<Seq<char>>, b: Seq<Seq<char>>)
    requires
        plain_parts(b),
    ensures
        resolved(is_rooted, a + b) == resolved(is_rooted, a) + b,
    decreases b.len(),
{
    if b.len() == 0 {
        assert(a + b =~= a);
        assert(resolved(is_rooted, a) + b =~= resolved(is_rooted, a));
    } else {
        let b0 = b.drop_last();
        assert(plain_parts(b0)) by {
            assert forall|i: int| 0 <= i < b0.len() implies #[trigger] b0[i] != seq!['.'] && b0[i] != seq!['.', '.'] by {
                assert(b0[i] == b[i]);
            }
        }
        lemma_resolved_plain_suffix(is_rooted, a, b0);
        assert((a + b).drop_last() =~= a + b0);
        assert((a + b).last() == b.last());
        assert(b.last() == b[b.len() - 1]);
        assert(resolved(is_rooted, a) + b =~= (resolved(is_rooted, a) + b0).push(b.last()));
    }
}

} // verus!
