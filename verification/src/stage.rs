//! The dependency stager's arithmetic: which files are copied into the new
//! root, and where each lands.
//!
//! Before pivoting, the child copies the target executables and their
//! shared-library closure into the new root. The resolver walks the ELF
//! interpreter and needed-library closure on the host; this module owns what
//! is decided afterwards: the union of all resolved paths without
//! duplicates, and the host-to-container path mapping (strip the leading
//! slashes, re-root under the mount directory).

use vstd::prelude::*;

use crate::bytes::{bytes_eq, clone_bytes, deep};

verus! {

/// A path with its leading slash bytes removed.
pub open spec fn strip_slashes(p: Seq<u8>) -> Seq<u8>
    decreases p.len(),
{
    if p.len() > 0 && p[0] == 47 {
        strip_slashes(p.drop_first())
    } else {
        p
    }
}

/// Where a staged host path lands inside the new root:
/// `<root>/<path without its leading slashes>`.
pub open spec fn target_path_bytes(root: Seq<u8>, p: Seq<u8>) -> Seq<u8> {
    root + seq![47u8] + strip_slashes(p)
}

/// Compute the in-container destination of a staged host path.
pub fn target_path(root: &Vec<u8>, p: &Vec<u8>) -> (r: Vec<u8>)
    ensures
        r@ == target_path_bytes(root@, p@),
{
    let mut r = clone_bytes(root);
    r.push(47);
    let mut i: usize = 0;
    proof {
        assert(p@.skip(0) =~= p@);
    }
    while i < p.len() && p[i] == 47
        invariant
            0 <= i <= p.len(),
            strip_slashes(p@) == strip_slashes(p@.skip(i as int)),
        decreases p.len() - i,
    {
        proof {
            assert(p@.skip(i as int)[0] == p@[i as int]);
            assert(p@.skip(i as int).drop_first() =~= p@.skip(i + 1));
        }
        i = i + 1;
    }
    proof {
        if i < p.len() {
            assert(p@.skip(i as int)[0] == p@[i as int]);
            assert(strip_slashes(p@.skip(i as int)) == p@.skip(i as int));
        } else {
            assert(p@.skip(i as int) =~= Seq::<u8>::empty());
        }
    }
    let mut j: usize = i;
    while j < p.len()
        invariant
            i <= j <= p.len(),
            r@ =~= root@ + seq![47u8] + p@.skip(i as int).take(j - i),
        decreases p.len() - j,
    {
        r.push(p[j]);
        proof {
            assert(p@.skip(i as int).take(j + 1 - i) =~= p@.skip(i as int).take(j - i).push(
                p@[j as int],
            ));
        }
        j = j + 1;
    }
    proof {
        assert(p@.skip(i as int).take(p.len() - i) =~= p@.skip(i as int));
        assert(r@ =~= target_path_bytes(root@, p@));
    }
    r
}

/// The directory part of a path: everything before its last slash.
/// A path without a slash has no parent here.
pub open spec fn is_parent_split(p: Seq<u8>, i: int) -> bool {
    &&& 0 <= i < p.len()
    &&& p[i] == 47
    &&& forall|k: int| i < k < p.len() ==> p[k] != 47
}

/// Find the directory a staged file's path lies in, so that it can be
/// created before the copy.
pub fn parent_dir(p: &Vec<u8>) -> (r: Option<Vec<u8>>)
    ensures
        r is Some <==> exists|i: int| 0 <= i < p@.len() && p@[i] == 47,
        r matches Some(d) ==> exists|i: int| #[trigger] is_parent_split(p@, i) && d@ == p@.take(i),
{
    let mut j: usize = p.len();
    while j > 0
        invariant
            0 <= j <= p.len(),
            forall|k: int| j <= k < p@.len() ==> p@[k] != 47,
        decreases j,
    {
        j = j - 1;
        if p[j] == 47 {
            let mut d: Vec<u8> = Vec::new();
            let mut k: usize = 0;
            while k < j
                invariant
                    0 <= k <= j < p@.len(),
                    d@ =~= p@.take(k as int),
                decreases j - k,
            {
                d.push(p[k]);
                k = k + 1;
            }
            proof {
                assert(is_parent_split(p@, j as int));
            }
            return Some(d);
        }
    }
    None
}

/// Membership in the staged set: the command itself, a listed extra
/// executable, or a path in one of the resolved dependency closures.
pub open spec fn in_staging(
    command: Seq<u8>,
    copies: Seq<Seq<u8>>,
    deps: Seq<Seq<Seq<u8>>>,
    x: Seq<u8>,
) -> bool {
    ||| x == command
    ||| copies.contains(x)
    ||| exists|i: int| 0 <= i < deps.len() && #[trigger] deps[i].contains(x)
}

/// The deep view of a vector of dependency lists.
pub open spec fn deep_lists(s: Seq<Vec<Vec<u8>>>) -> Seq<Seq<Seq<u8>>> {
    s.map_values(|v: Vec<Vec<u8>>| deep(v@))
}

/// Whether a path already stands in the set being built.
fn contains_path(set: &Vec<Vec<u8>>, x: &Vec<u8>) -> (r: bool)
    ensures
        r == deep(set@).contains(x@),
{
    let mut i: usize = 0;
    while i < set.len()
        invariant
            0 <= i <= set.len(),
            forall|k: int| 0 <= k < i ==> deep(set@)[k] != x@,
        decreases set.len() - i,
    {
        if bytes_eq(&set[i], x) {
            proof {
                assert(deep(set@)[i as int] == x@);
            }
            return true;
        }
        i = i + 1;
    }
    false
}

/// Add a path to the set unless it is already present.
fn push_unique(set: &mut Vec<Vec<u8>>, x: Vec<u8>)
    requires
        forall|a: int, b: int|
            0 <= a < b < old(set)@.len() ==> deep(old(set)@)[a] != deep(old(set)@)[b],
    ensures
        forall|y: Seq<u8>| #[trigger]
            deep(final(set)@).contains(y) <==> deep(old(set)@).contains(y) || y == x@,
        forall|a: int, b: int|
            0 <= a < b < final(set)@.len() ==> deep(final(set)@)[a] != deep(final(set)@)[b],
{
    if !contains_path(set, &x) {
        let ghost pre = deep(set@);
        set.push(x);
        proof {
            assert(deep(set@) =~= pre.push(x@));
            assert(forall|y: Seq<u8>| #[trigger]
                deep(set@).contains(y) <==> pre.contains(y) || y == x@) by {
                assert(deep(set@)[pre.len() as int] == x@);
                assert(forall|k: int| 0 <= k < pre.len() ==> deep(set@)[k] == pre[k]);
            }
        }
    } else {
        proof {
            assert(forall|y: Seq<u8>| #[trigger]
                deep(set@).contains(y) <==> deep(set@).contains(y) || y == x@);
        }
    }
}

/// Collect the set of paths to copy into the new root: the command, the
/// listed extra executables, and every path of every resolved dependency
/// closure, without duplicates.
pub fn staging_set(command: &Vec<u8>, copies: &Vec<Vec<u8>>, deps: &Vec<Vec<Vec<u8>>>) -> (r: Vec<
    Vec<u8>,
>)
    ensures
        forall|x: Seq<u8>| #[trigger]
            deep(r@).contains(x) <==> in_staging(command@, deep(copies@), deep_lists(deps@), x),
        forall|a: int, b: int| 0 <= a < b < r@.len() ==> deep(r@)[a] != deep(r@)[b],
{
    let mut r: Vec<Vec<u8>> = Vec::new();
    push_unique(&mut r, clone_bytes(command));
    let mut i: usize = 0;
    while i < copies.len()
        invariant
            0 <= i <= copies.len(),
            forall|x: Seq<u8>| #[trigger]
                deep(r@).contains(x) <==> x == command@ || exists|ci: int|
                    0 <= ci < i && #[trigger] deep(copies@)[ci] == x,
            forall|a: int, b: int| 0 <= a < b < r@.len() ==> deep(r@)[a] != deep(r@)[b],
        decreases copies.len() - i,
    {
        push_unique(&mut r, clone_bytes(&copies[i]));
        proof {
            assert(deep(copies@)[i as int] == copies@[i as int]@);
        }
        i = i + 1;
    }
    let mut d: usize = 0;
    while d < deps.len()
        invariant
            0 <= d <= deps.len(),
            forall|x: Seq<u8>| #[trigger]
                deep(r@).contains(x) <==> x == command@ || deep(copies@).contains(x) || exists|
                    di: int,
                    li: int,
                |
                    0 <= di < d && 0 <= li < deep_lists(deps@)[di].len() && #[trigger] deep_lists(
                        deps@,
                    )[di][li] == x,
            forall|a: int, b: int| 0 <= a < b < r@.len() ==> deep(r@)[a] != deep(r@)[b],
        decreases deps.len() - d,
    {
        let list = &deps[d];
        let mut k: usize = 0;
        while k < list.len()
            invariant
                0 <= k <= list.len(),
                0 <= d < deps.len(),
                list == &deps[d as int],
                deep_lists(deps@)[d as int] == deep(list@),
                forall|x: Seq<u8>| #[trigger]
                    deep(r@).contains(x) <==> x == command@ || deep(copies@).contains(x) || (exists|
                        di: int,
                        li: int,
                    |
                        0 <= di < d && 0 <= li < deep_lists(deps@)[di].len() && #[trigger]
                        deep_lists(deps@)[di][li] == x) || exists|li: int|
                        0 <= li < k && #[trigger] deep(list@)[li] == x,
                forall|a: int, b: int| 0 <= a < b < r@.len() ==> deep(r@)[a] != deep(r@)[b],
            decreases list.len() - k,
        {
            push_unique(&mut r, clone_bytes(&list[k]));
            proof {
                assert(deep(list@)[k as int] == list@[k as int]@);
            }
            k = k + 1;
        }
        proof {
            assert forall|x: Seq<u8>| #[trigger]
                deep(r@).contains(x) <==> x == command@ || deep(copies@).contains(x) || exists|
                di: int,
                li: int,
            |
                0 <= di < d + 1 && 0 <= li < deep_lists(deps@)[di].len() && #[trigger] deep_lists(
                    deps@,
                )[di][li] == x by {
                if deep(r@).contains(x) && !(x == command@ || deep(copies@).contains(x)) {
                    if exists|li: int| 0 <= li < deep(list@).len() && #[trigger] deep(list@)[li]
                        == x {
                        let li = choose|li: int|
                            0 <= li < deep(list@).len() && #[trigger] deep(list@)[li] == x;
                        assert(deep_lists(deps@)[d as int][li] == x);
                    }
                }
                if (exists|di: int, li: int|
                    0 <= di < d + 1 && 0 <= li < deep_lists(deps@)[di].len() && #[trigger]
                    deep_lists(deps@)[di][li] == x) && !(x == command@ || deep(copies@).contains(
                    x,
                )) {
                    let (di, li) = choose|di: int, li: int|
                        0 <= di < d + 1 && 0 <= li < deep_lists(deps@)[di].len() && #[trigger]
                        deep_lists(deps@)[di][li] == x;
                    if di == d {
                        assert(deep(list@)[li] == x);
                    }
                }
            }
        }
        d = d + 1;
    }
    proof {
        assert forall|x: Seq<u8>| #[trigger]
            deep(r@).contains(x) <==> in_staging(
            command@,
            deep(copies@),
            deep_lists(deps@),
            x,
        ) by {
            if deep(r@).contains(x) && !(x == command@ || deep(copies@).contains(x)) {
                let (di, li) = choose|di: int, li: int|
                    0 <= di < d && 0 <= li < deep_lists(deps@)[di].len() && #[trigger] deep_lists(
                        deps@,
                    )[di][li] == x;
                assert(deep_lists(deps@)[di].contains(x));
            }
            if in_staging(command@, deep(copies@), deep_lists(deps@), x) && !(x == command@ || deep(
                copies@,
            ).contains(x)) {
                let di = choose|di: int|
                    0 <= di < deep_lists(deps@).len() && #[trigger] deep_lists(
                        deps@,
                    )[di].contains(x);
                let li = choose|li: int|
                    0 <= li < deep_lists(deps@)[di].len() && deep_lists(deps@)[di][li] == x;
                assert(0 <= di < d && 0 <= li < deep_lists(deps@)[di].len() && deep_lists(
                    deps@,
                )[di][li] == x);
            }
        }
    }
    r
}

/// Law: the staged set is closed under dependency closure. When each
/// resolved list covers its binary's direct dependencies and is itself
/// transitively closed — which is what the resolver's closure walk
/// produces — no staged path depends on a path outside the staged set.
pub proof fn lemma_staging_closed(
    command: Seq<u8>,
    copies: Seq<Seq<u8>>,
    deps: Seq<Seq<Seq<u8>>>,
    depends: spec_fn(Seq<u8>, Seq<u8>) -> bool,
)
    requires
        deps.len() == copies.len() + 1,
        forall|q: Seq<u8>| depends(command, q) ==> #[trigger] deps[0].contains(q),
        forall|i: int, q: Seq<u8>|
            0 <= i < copies.len() && depends(#[trigger] copies[i], q) ==> #[trigger] deps[i
                + 1].contains(q),
        forall|i: int, p: Seq<u8>, q: Seq<u8>|
            0 <= i < deps.len() && #[trigger] deps[i].contains(p) && #[trigger] depends(p, q)
                ==> deps[i].contains(q),
    ensures
        forall|p: Seq<u8>, q: Seq<u8>|
            in_staging(command, copies, deps, p) && #[trigger] depends(p, q) ==> in_staging(
                command,
                copies,
                deps,
                q,
            ),
{
    assert forall|p: Seq<u8>, q: Seq<u8>|
        in_staging(command, copies, deps, p) && #[trigger] depends(p, q) implies in_staging(
        command,
        copies,
        deps,
        q,
    ) by {
        if p == command {
            assert(deps[0].contains(q));
        } else if copies.contains(p) {
            let i = choose|i: int| 0 <= i < copies.len() && copies[i] == p;
            assert(deps[i + 1].contains(q));
        } else {
            let i = choose|i: int| 0 <= i < deps.len() && #[trigger] deps[i].contains(p);
            assert(deps[i].contains(q));
        }
    }
}

} // verus!
