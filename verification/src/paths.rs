//! Unix path components, and a path relative to a root directory.
use vstd::prelude::*;
use vstd::string::StrSliceExecFns;

use crate::text::{push_char, push_str};

verus! {

/// A segment between separators is a component unless it is empty or `.`.
pub open spec fn keeps(seg: Seq<char>) -> bool {
    seg.len() > 0 && seg != seq!['.']
}

/// Reading a path left to right: the components completed so far and the
/// segment being read.
pub open spec fn scan_components(s: Seq<char>) -> (Seq<Seq<char>>, Seq<char>)
    decreases s.len(),
{
    if s.len() == 0 {
        (Seq::empty(), Seq::empty())
    } else {
        let (done, cur) = scan_components(s.drop_last());
        if s.last() == '/' {
            (if keeps(cur) {
                done.push(cur)
            } else {
                done
            }, Seq::empty())
        } else {
            (done, cur.push(s.last()))
        }
    }
}

/// The normal components of a path, as `Path::components` yields them after the
/// root: separators repeated or trailing and `.` segments do not count.
pub open spec fn components(s: Seq<char>) -> Seq<Seq<char>> {
    let (done, cur) = scan_components(s);
    if keeps(cur) {
        done.push(cur)
    } else {
        done
    }
}

/// Number of leading components two paths share.
pub open spec fn common_prefix_len(a: Seq<Seq<char>>, b: Seq<Seq<char>>) -> nat
    decreases a.len(),
{
    if a.len() == 0 || b.len() == 0 || a[0] != b[0] {
        0
    } else {
        1 + common_prefix_len(a.drop_first(), b.drop_first())
    }
}

/// Components of `path` relative to `root`: one `..` for each component of the
/// root past their common prefix, then the rest of the path.
pub open spec fn relative_components(path: Seq<Seq<char>>, root: Seq<Seq<char>>) -> Seq<
    Seq<char>,
> {
    let k = common_prefix_len(path, root);
    Seq::new((root.len() - k) as nat, |i: int| seq!['.', '.']) + path.skip(k as int)
}

/// Components joined with separators.
pub open spec fn join_components(cs: Seq<Seq<char>>) -> Seq<char>
    decreases cs.len(),
{
    if cs.len() == 0 {
        Seq::empty()
    } else if cs.len() == 1 {
        cs[0]
    } else {
        join_components(cs.drop_last()) + seq!['/'] + cs.last()
    }
}

proof fn lemma_common_prefix_bound(a: Seq<Seq<char>>, b: Seq<Seq<char>>)
    ensures
        common_prefix_len(a, b) <= a.len(),
        common_prefix_len(a, b) <= b.len(),
        forall|i: int| 0 <= i < common_prefix_len(a, b) ==> a[i] == b[i],
        common_prefix_len(a, b) < a.len() && common_prefix_len(a, b) < b.len() ==> a[common_prefix_len(
            a,
            b,
        ) as int] != b[common_prefix_len(a, b) as int],
    decreases a.len(),
{
    if a.len() == 0 || b.len() == 0 || a[0] != b[0] {
    } else {
        lemma_common_prefix_bound(a.drop_first(), b.drop_first());
        let k = common_prefix_len(a, b);
        assert forall|i: int| 0 <= i < k implies a[i] == b[i] by {
            if i > 0 {
                assert(a.drop_first()[i - 1] == a[i]);
                assert(b.drop_first()[i - 1] == b[i]);
            }
        }
    }
}

proof fn lemma_scan_reads_segment(p: Seq<char>, seg: Seq<char>, k: int)
    requires
        0 <= k <= seg.len(),
        forall|i: int| 0 <= i < seg.len() ==> seg[i] != '/',
    ensures
        scan_components(p + seq!['/'] + seg.take(k)) == (components(p), seg.take(k)),
    decreases k,
{
    if k == 0 {
        assert(p + seq!['/'] + seg.take(0) =~= p.push('/'));
        assert(p.push('/').drop_last() =~= p);
        assert(seg.take(0) =~= Seq::<char>::empty());
    } else {
        lemma_scan_reads_segment(p, seg, k - 1);
        assert((p + seq!['/'] + seg.take(k)).drop_last() =~= p + seq!['/'] + seg.take(k - 1));
        assert((p + seq!['/'] + seg.take(k)).last() == seg[k - 1]);
        assert(seg.take(k - 1).push(seg[k - 1]) =~= seg.take(k));
    }
}

/// Law: a segment appended after a separator is a component of the path
/// unless it is empty or `.`; any other name counts, one that begins with a
/// dot (a hidden file or directory) included.
pub proof fn lemma_appended_segment_is_component(p: Seq<char>, seg: Seq<char>)
    requires
        forall|i: int| 0 <= i < seg.len() ==> seg[i] != '/',
    ensures
        seg.len() > 0 && seg != seq!['.'] ==> components(p + seq!['/'] + seg) == components(p).push(seg),
        seg.len() == 0 || seg == seq!['.'] ==> components(p + seq!['/'] + seg) == components(p),
{
    lemma_scan_reads_segment(p, seg, seg.len() as int);
    assert(seg.take(seg.len() as int) =~= seg);
}

/// Law: for a path below the root (the root's components begin the path's),
/// the relative path is the path's components past the root's, with no `..`.
pub proof fn lemma_relative_below_root(path: Seq<Seq<char>>, root: Seq<Seq<char>>)
    requires
        root.len() <= path.len(),
        path.take(root.len() as int) == root,
    ensures
        relative_components(path, root) == path.skip(root.len() as int),
    decreases root.len(),
{
    if root.len() > 0 {
        assert(path[0] == path.take(root.len() as int)[0]);
        assert(path.drop_first().take(root.drop_first().len() as int) =~= root.drop_first()) by {
            assert forall|i: int| 0 <= i < root.len() - 1 implies path.drop_first()[i] == root.drop_first()[i] by {
                assert(path.take(root.len() as int)[i + 1] == path[i + 1]);
            }
        }
        lemma_relative_below_root(path.drop_first(), root.drop_first());
        assert(common_prefix_len(path, root) == 1 + common_prefix_len(path.drop_first(), root.drop_first()));
        lemma_common_prefix_bound(path.drop_first(), root.drop_first());
    }
    let k = common_prefix_len(path, root);
    lemma_common_prefix_bound(path, root);
    if k < root.len() {
        assert(path[k as int] == path.take(root.len() as int)[k as int]);
    }
    assert(k == root.len());
    assert(Seq::new((root.len() - k) as nat, |i: int| seq!['.', '.']) =~= Seq::<Seq<char>>::empty());
    assert(relative_components(path, root) =~= path.skip(root.len() as int));
}

/// The normal components of a path.
pub fn path_components(s: &str) -> (r: Vec<String>)
    ensures
        r@.len() == components(s@).len(),
        forall|i: int| 0 <= i < r@.len() ==> (#[trigger] r@[i])@ == components(s@)[i],
{
    let n = s.unicode_len();
    let mut done: Vec<String> = Vec::new();
    let mut cur = String::new();
    let mut i: usize = 0;
    while i < n
        invariant
            n == s@.len(),
            i <= n,
            scan_components(s@.subrange(0, i as int)).1 == cur@,
            done@.len() == scan_components(s@.subrange(0, i as int)).0.len(),
            forall|j: int|
                0 <= j < done@.len() ==> (#[trigger] done@[j])@ == scan_components(
                    s@.subrange(0, i as int),
                ).0[j],
        decreases n - i,
    {
        let c = s.get_char(i);
        let ghost prefix = s@.subrange(0, i as int + 1);
        assert(prefix.drop_last() =~= s@.subrange(0, i as int));
        assert(prefix.last() == c);
        if c == '/' {
            let keep = is_component(cur.as_str());
            if keep {
                done.push(cur);
            }
            cur = String::new();
        } else {
            push_char(&mut cur, c);
        }
        i = i + 1;
    }
    assert(s@.subrange(0, n as int) =~= s@);
    if is_component(cur.as_str()) {
        done.push(cur);
    }
    done
}

fn is_component(seg: &str) -> (r: bool)
    ensures
        r == keeps(seg@),
{
    let n = seg.unicode_len();
    if n == 0 {
        return false;
    }
    if n == 1 && seg.get_char(0) == '.' {
        assert(seg@ =~= seq!['.']);
        return false;
    }
    proof {
        if seg@ == seq!['.'] {
            assert(seg@[0] == '.');
        }
    }
    true
}

/// A path relative to `root`, for absolute paths (both begin at the root
/// directory): the components of `path` relative to those of `root`, joined
/// with separators.
pub fn relative_to(path: &str, root: &str) -> (r: String)
    ensures
        r@ == join_components(relative_components(components(path@), components(root@))),
{
    let pcs = path_components(path);
    let rcs = root_components_of(root);
    let ghost pc = components(path@);
    let ghost rc = components(root@);
    let mut k: usize = 0;
    while k < pcs.len() && k < rcs.len() && crate::text::str_eq(pcs[k].as_str(), rcs[k].as_str())
        invariant
            pcs@.len() == pc.len(),
            rcs@.len() == rc.len(),
            forall|i: int| 0 <= i < pcs@.len() ==> (#[trigger] pcs@[i])@ == pc[i],
            forall|i: int| 0 <= i < rcs@.len() ==> (#[trigger] rcs@[i])@ == rc[i],
            k <= pc.len(),
            k <= rc.len(),
            forall|i: int| 0 <= i < k ==> pc[i] == rc[i],
        decreases pcs.len() - k,
    {
        k = k + 1;
    }
    proof {
        lemma_common_prefix_bound(pc, rc);
        lemma_common_prefix_is(pc, rc, k as nat);
    }
    let ghost rel = relative_components(pc, rc);
    let mut r = String::new();
    let mut written: usize = 0;
    let ups = rcs.len() - k;
    proof {
        reveal_strlit("..");
        reveal_strlit("/");
        assert(".."@ =~= seq!['.', '.']);
        assert("/"@ =~= seq!['/']);
    }
    while written < ups
        invariant
            ups == rc.len() - k,
            k == common_prefix_len(pc, rc),
            k <= pc.len(),
            rel == relative_components(pc, rc),
            written <= ups,
            ".."@ == seq!['.', '.'],
            "/"@ == seq!['/'],
            r@ == join_components(rel.take(written as int)),
        decreases ups - written,
    {
        proof {
            let t = rel.take(written as int + 1);
            assert(t.drop_last() =~= rel.take(written as int));
            assert(rel[written as int] == seq!['.', '.']);
            assert(t.last() == seq!['.', '.']);
        }
        if written > 0 {
            push_str(&mut r, "/");
        }
        push_str(&mut r, "..");
        proof {
            let t = rel.take(written as int + 1);
            if written == 0 {
                assert(t.len() == 1);
                assert(r@ =~= t[0]);
            }
        }
        written = written + 1;
    }
    let mut j: usize = k;
    let ghost mut idx: int = ups as int;
    while j < pcs.len()
        invariant
            ups == rc.len() - k,
            k == common_prefix_len(pc, rc),
            k <= j <= pcs@.len(),
            pcs@.len() == pc.len(),
            forall|i: int| 0 <= i < pcs@.len() ==> (#[trigger] pcs@[i])@ == pc[i],
            rel == relative_components(pc, rc),
            rel.len() == ups + pc.len() - k,
            idx == ups + j - k,
            "/"@ == seq!['/'],
            r@ == join_components(rel.take(idx)),
        decreases pcs.len() - j,
    {
        proof {
            let t = rel.take(idx + 1);
            assert(t.drop_last() =~= rel.take(idx));
            assert(rel[idx] == pc[j as int]);
            assert(t.last() == pc[j as int]);
        }
        if ups > 0 || j > k {
            push_str(&mut r, "/");
        }
        push_str(&mut r, pcs[j].as_str());
        proof {
            let t = rel.take(idx + 1);
            if idx == 0 {
                assert(t.len() == 1);
                assert(r@ =~= t[0]);
            }
            idx = idx + 1;
        }
        j = j + 1;
    }
    assert(rel.take(idx) =~= rel);
    r
}

fn root_components_of(root: &str) -> (r: Vec<String>)
    ensures
        r@.len() == components(root@).len(),
        forall|i: int| 0 <= i < r@.len() ==> (#[trigger] r@[i])@ == components(root@)[i],
{
    path_components(root)
}

proof fn lemma_common_prefix_is(a: Seq<Seq<char>>, b: Seq<Seq<char>>, k: nat)
    requires
        k <= a.len(),
        k <= b.len(),
        forall|i: int| 0 <= i < k ==> a[i] == b[i],
        k == a.len() || k == b.len() || a[k as int] != b[k as int],
    ensures
        common_prefix_len(a, b) == k,
    decreases k,
{
    if k > 0 {
        assert forall|i: int| 0 <= i < k - 1 implies a.drop_first()[i] == b.drop_first()[i] by {
            assert(a[i + 1] == b[i + 1]);
        }
        lemma_common_prefix_is(a.drop_first(), b.drop_first(), (k - 1) as nat);
    }
}

/// The components left when each `..` removes the component before it, as
/// the file system resolves a path.
pub open spec fn normalize(cs: Seq<Seq<char>>) -> Seq<Seq<char>>
    decreases cs.len(),
{
    if cs.len() == 0 {
        Seq::empty()
    } else {
        let prev = normalize(cs.drop_last());
        if cs.last() == seq!['.', '.'] {
            if prev.len() > 0 {
                prev.drop_last()
            } else {
                prev
            }
        } else {
            prev.push(cs.last())
        }
    }
}

/// No component is `..`.
pub open spec fn no_parent(cs: Seq<Seq<char>>) -> bool {
    forall|i: int| 0 <= i < cs.len() ==> cs[i] != seq!['.', '.']
}

/// `j` parent components.
pub open spec fn parents(j: nat) -> Seq<Seq<char>> {
    Seq::new(j, |i: int| seq!['.', '.'])
}

proof fn lemma_normalize_append(s: Seq<Seq<char>>, t: Seq<Seq<char>>)
    requires
        no_parent(t),
    ensures
        normalize(s + t) == normalize(s) + t,
    decreases t.len(),
{
    if t.len() == 0 {
        assert(s + t =~= s);
        assert(normalize(s) + t =~= normalize(s));
    } else {
        let t0 = t.drop_last();
        assert(no_parent(t0)) by {
            assert forall|i: int| 0 <= i < t0.len() implies t0[i] != seq!['.', '.'] by {
                assert(t0[i] == t[i]);
            }
        }
        lemma_normalize_append(s, t0);
        assert((s + t).drop_last() =~= s + t0);
        assert((s + t).last() == t.last());
        assert(t.last() == t[t.len() - 1]);
        assert(normalize(s) + t =~= (normalize(s) + t0).push(t.last()));
    }
}

proof fn lemma_normalize_parents(s: Seq<Seq<char>>, j: nat)
    requires
        j <= normalize(s).len(),
    ensures
        normalize(s + parents(j)) == normalize(s).take(normalize(s).len() - j),
    decreases j,
{
    if j == 0 {
        assert(s + parents(0) =~= s);
        assert(normalize(s).take(normalize(s).len() as int) =~= normalize(s));
    } else {
        lemma_normalize_parents(s, (j - 1) as nat);
        let u = s + parents(j);
        assert(u.drop_last() =~= s + parents((j - 1) as nat));
        assert(u.last() == seq!['.', '.']);
        let n = normalize(s).len();
        assert(normalize(s).take(n - (j - 1)).drop_last() =~= normalize(s).take(n - j));
    }
}

/// Law: for absolute paths without `..` components, the root joined with a
/// path relative to it resolves back to the path.
pub proof fn lemma_relative_round_trip(path: Seq<Seq<char>>, root: Seq<Seq<char>>)
    requires
        no_parent(path),
        no_parent(root),
    ensures
        normalize(root + relative_components(path, root)) == path,
{
    let k = common_prefix_len(path, root);
    lemma_common_prefix_bound(path, root);
    let m = (root.len() - k) as nat;
    lemma_normalize_append(Seq::empty(), root);
    assert(Seq::<Seq<char>>::empty() + root =~= root);
    assert(normalize(Seq::<Seq<char>>::empty()) =~= Seq::<Seq<char>>::empty());
    assert(normalize(root) =~= root);
    lemma_normalize_parents(root, m);
    let rest = path.skip(k as int);
    assert(no_parent(rest)) by {
        assert forall|i: int| 0 <= i < rest.len() implies rest[i] != seq!['.', '.'] by {
            assert(rest[i] == path[i + k]);
        }
    }
    lemma_normalize_append(root + parents(m), rest);
    assert(relative_components(path, root) =~= parents(m) + rest);
    assert(root + relative_components(path, root) =~= (root + parents(m)) + rest);
    assert(root.take(k as int) =~= path.take(k as int));
    assert(path.take(k as int) + rest =~= path);
}

/// Law: a path inside the root is relative to it by its components past the
/// root's, with no `..`.
pub proof fn lemma_relative_inside_root(path: Seq<Seq<char>>, root: Seq<Seq<char>>)
    requires
        root.len() <= path.len(),
        root == path.take(root.len() as int),
    ensures
        relative_components(path, root) == path.skip(root.len() as int),
{
    lemma_common_prefix_is(path, root, root.len());
    assert(relative_components(path, root) =~= path.skip(root.len() as int));
}

} // verus!
