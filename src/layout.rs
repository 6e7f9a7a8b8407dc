use vstd::prelude::*;

use crate::runtimes::common::{
    cache_dir_of, dir_of, install_dir_of, joined, written, Config, StepView,
};
use crate::runtimes::{download_plan, install_plan, runtime_name, Runtime};

verus! {

/// Neither path lies within the other: what is written at or under one is
/// never at or under the other.
pub open spec fn apart(a: Seq<char>, b: Seq<char>) -> bool {
    !a.is_prefix_of(b) && !b.is_prefix_of(a)
}

/// Everything a runtime's processing does: its download, then its install.
pub open spec fn plan_of(c: Config, r: Runtime) -> Seq<StepView> {
    download_plan(c, r) + install_plan(c, r)
}

/// Two paths that differ at a position that both have are apart.
proof fn lemma_differ_apart(a: Seq<char>, b: Seq<char>, k: int)
    requires
        0 <= k < a.len(),
        k < b.len(),
        a[k] != b[k],
    ensures
        apart(a, b),
{
    if a.is_prefix_of(b) {
        assert(a[k] == b.subrange(0, a.len() as int)[k]);
    }
    if b.is_prefix_of(a) {
        assert(b[k] == a.subrange(0, b.len() as int)[k]);
    }
}

/// A common prefix keeps two paths apart.
proof fn lemma_prefix_keeps_apart(p: Seq<char>, x: Seq<char>, y: Seq<char>)
    requires
        apart(x, y),
    ensures
        apart(p + x, p + y),
{
    if (p + x).is_prefix_of(p + y) {
        assert forall|i: int| 0 <= i < x.len() implies x[i] == y.subrange(0, x.len() as int)[i] by {
            assert((p + x)[p.len() + i] == (p + y).subrange(0, (p + x).len() as int)[p.len() + i]);
        }
        assert(x =~= y.subrange(0, x.len() as int));
    }
    if (p + y).is_prefix_of(p + x) {
        assert forall|i: int| 0 <= i < y.len() implies y[i] == x.subrange(0, y.len() as int)[i] by {
            assert((p + y)[p.len() + i] == (p + x).subrange(0, (p + y).len() as int)[p.len() + i]);
        }
        assert(y =~= x.subrange(0, y.len() as int));
    }
}

/// Paths under two directories that are apart are apart.
proof fn lemma_under_apart(d1: Seq<char>, p1: Seq<char>, d2: Seq<char>, p2: Seq<char>)
    requires
        apart(d1, d2),
        d1.is_prefix_of(p1),
        d2.is_prefix_of(p2),
    ensures
        apart(p1, p2),
{
    if p1.is_prefix_of(p2) {
        if d1.len() <= d2.len() {
            assert(d1 =~= d2.subrange(0, d1.len() as int)) by {
                assert forall|i: int| 0 <= i < d1.len() implies d1[i] == d2[i] by {
                    assert(d1[i] == p1[i]);
                    assert(p1[i] == p2[i]);
                    assert(d2[i] == p2[i]);
                }
            }
        } else {
            assert(d2 =~= d1.subrange(0, d2.len() as int)) by {
                assert forall|i: int| 0 <= i < d2.len() implies d1[i] == d2[i] by {
                    assert(d1[i] == p1[i]);
                    assert(p1[i] == p2[i]);
                    assert(d2[i] == p2[i]);
                }
            }
        }
    }
    if p2.is_prefix_of(p1) {
        if d1.len() <= d2.len() {
            assert(d1 =~= d2.subrange(0, d1.len() as int)) by {
                assert forall|i: int| 0 <= i < d1.len() implies d1[i] == d2[i] by {
                    assert(d1[i] == p1[i]);
                    assert(p1[i] == p2[i]);
                    assert(d2[i] == p2[i]);
                }
            }
        } else {
            assert(d2 =~= d1.subrange(0, d2.len() as int)) by {
                assert forall|i: int| 0 <= i < d2.len() implies d1[i] == d2[i] by {
                    assert(d1[i] == p1[i]);
                    assert(p1[i] == p2[i]);
                    assert(d2[i] == p2[i]);
                }
            }
        }
    }
}

/// The subdirectory names of two distinct runtimes are apart.
proof fn lemma_names_apart(r1: Runtime, r2: Runtime)
    requires
        r1 != r2,
    ensures
        apart(runtime_name(r1) + seq!['/'], runtime_name(r2) + seq!['/']),
{
    let a = runtime_name(r1) + seq!['/'];
    let b = runtime_name(r2) + seq!['/'];
    let k: int = if r1 is Spidermonkey || r2 is Spidermonkey {
        0
    } else if r1 is Wazero || r2 is Wazero {
        2
    } else {
        4
    };
    lemma_differ_apart(a, b, k);
}

/// The directories under one root of two distinct runtimes are apart.
proof fn lemma_subdirs_apart(base: Seq<char>, tree: Seq<char>, r1: Runtime, r2: Runtime)
    requires
        r1 != r2,
    ensures
        apart(
            joined(base, tree + runtime_name(r1) + seq!['/']),
            joined(base, tree + runtime_name(r2) + seq!['/']),
        ),
{
    lemma_names_apart(r1, r2);
    let p = dir_of(base) + tree;
    lemma_prefix_keeps_apart(p, runtime_name(r1) + seq!['/'], runtime_name(r2) + seq!['/']);
    assert(joined(base, tree + runtime_name(r1) + seq!['/']) =~= p + (runtime_name(r1) + seq![
        '/',
    ]));
    assert(joined(base, tree + runtime_name(r2) + seq!['/']) =~= p + (runtime_name(r2) + seq![
        '/',
    ]));
}

/// A path is within a directory that is a prefix of it.
proof fn lemma_prefix_of_extension(d: Seq<char>, rest: Seq<char>)
    ensures
        d.is_prefix_of(d + rest),
{
    assert(d =~= (d + rest).subrange(0, d.len() as int));
}

/// Each step of a runtime's download writes within its cache directory, and
/// each step of its install within its install directory.
pub proof fn lemma_writes_in_own_dirs(c: Config, r: Runtime)
    ensures
        forall|i: int|
            0 <= i < download_plan(c, r).len() ==> cache_dir_of(c, r).is_prefix_of(
                written(#[trigger] download_plan(c, r)[i]),
            ),
        forall|i: int|
            0 <= i < install_plan(c, r).len() ==> install_dir_of(c, r).is_prefix_of(
                written(#[trigger] install_plan(c, r)[i]),
            ),
{
    let cd = cache_dir_of(c, r);
    let id = install_dir_of(c, r);
    lemma_prefix_of_extension(cd, seq![]);
    assert(cd + seq![] =~= cd);
    lemma_prefix_of_extension(id, seq![]);
    assert(id + seq![] =~= id);
    lemma_prefix_of_extension(cd, crate::runtimes::artifact_name(r));
}

/// With a configuration of its own, every write of a runtime's processing
/// lands under the configured roots: its download under
/// `<cache_dir>/.wavu/runtimes/`, its install under `<home_dir>/.wavu/bin/`.
pub proof fn lemma_writes_under_configured_roots(c: Config, r: Runtime)
    ensures
        forall|i: int|
            0 <= i < download_plan(c, r).len() ==> joined(
                c.cache_dir@,
                ".wavu/runtimes/"@,
            ).is_prefix_of(written(#[trigger] download_plan(c, r)[i])),
        forall|i: int|
            0 <= i < install_plan(c, r).len() ==> joined(c.home_dir@, ".wavu/bin/"@).is_prefix_of(
                written(#[trigger] install_plan(c, r)[i]),
            ),
{
    lemma_writes_in_own_dirs(c, r);
    let croot = joined(c.cache_dir@, ".wavu/runtimes/"@);
    let hroot = joined(c.home_dir@, ".wavu/bin/"@);
    assert(cache_dir_of(c, r) =~= croot + (runtime_name(r) + seq!['/']));
    assert(install_dir_of(c, r) =~= hroot + (runtime_name(r) + seq!['/']));
    lemma_prefix_of_extension(croot, runtime_name(r) + seq!['/']);
    lemma_prefix_of_extension(hroot, runtime_name(r) + seq!['/']);
    assert forall|i: int| 0 <= i < download_plan(c, r).len() implies croot.is_prefix_of(
        written(#[trigger] download_plan(c, r)[i]),
    ) by {
        let w = written(download_plan(c, r)[i]);
        assert(croot =~= w.subrange(0, croot.len() as int)) by {
            assert forall|j: int| 0 <= j < croot.len() implies croot[j] == w[j] by {
                assert(croot[j] == cache_dir_of(c, r)[j]);
                assert(cache_dir_of(c, r)[j] == w.subrange(0, cache_dir_of(c, r).len() as int)[j]);
            }
        }
    }
    assert forall|i: int| 0 <= i < install_plan(c, r).len() implies hroot.is_prefix_of(
        written(#[trigger] install_plan(c, r)[i]),
    ) by {
        let w = written(install_plan(c, r)[i]);
        assert(hroot =~= w.subrange(0, hroot.len() as int)) by {
            assert forall|j: int| 0 <= j < hroot.len() implies hroot[j] == w[j] by {
                assert(hroot[j] == install_dir_of(c, r)[j]);
                assert(install_dir_of(c, r)[j] == w.subrange(0, install_dir_of(c, r).len() as int)[j]);
            }
        }
    }
}

/// Two runtimes processed together write apart: no step of one writes at or
/// under a path that a step of the other writes, so neither touches the
/// other's cache or install directory. This holds on every configuration in
/// which neither runtime's install directory lies within, or holds, the
/// other's cache directory.
pub proof fn lemma_runtimes_write_apart(c: Config, r1: Runtime, r2: Runtime)
    requires
        r1 != r2,
        apart(cache_dir_of(c, r1), install_dir_of(c, r2)),
        apart(cache_dir_of(c, r2), install_dir_of(c, r1)),
    ensures
        forall|i: int, j: int|
            0 <= i < plan_of(c, r1).len() && 0 <= j < plan_of(c, r2).len() ==> apart(
                written(#[trigger] plan_of(c, r1)[i]),
                written(#[trigger] plan_of(c, r2)[j]),
            ),
{
    lemma_writes_in_own_dirs(c, r1);
    lemma_writes_in_own_dirs(c, r2);
    lemma_subdirs_apart(c.cache_dir@, ".wavu/runtimes/"@, r1, r2);
    lemma_subdirs_apart(c.home_dir@, ".wavu/bin/"@, r1, r2);
    let n1 = download_plan(c, r1).len();
    let n2 = download_plan(c, r2).len();
    assert forall|i: int, j: int|
        0 <= i < plan_of(c, r1).len() && 0 <= j < plan_of(c, r2).len() implies apart(
        written(#[trigger] plan_of(c, r1)[i]),
        written(#[trigger] plan_of(c, r2)[j]),
    ) by {
        let d1 = if i < n1 {
            cache_dir_of(c, r1)
        } else {
            install_dir_of(c, r1)
        };
        let d2 = if j < n2 {
            cache_dir_of(c, r2)
        } else {
            install_dir_of(c, r2)
        };
        if i < n1 {
            assert(plan_of(c, r1)[i] == download_plan(c, r1)[i]);
        } else {
            assert(plan_of(c, r1)[i] == install_plan(c, r1)[i - n1]);
        }
        if j < n2 {
            assert(plan_of(c, r2)[j] == download_plan(c, r2)[j]);
        } else {
            assert(plan_of(c, r2)[j] == install_plan(c, r2)[j - n2]);
        }
        lemma_under_apart(d1, written(plan_of(c, r1)[i]), d2, written(plan_of(c, r2)[j]));
    }
}

/// With home and cache at one place, the cache directory of a runtime and the
/// install directory of any runtime are apart, so the write law above holds
/// there without further condition.
pub proof fn lemma_shared_root_apart(c: Config, r1: Runtime, r2: Runtime)
    requires
        c.home_dir@ == c.cache_dir@,
    ensures
        apart(cache_dir_of(c, r1), install_dir_of(c, r2)),
{
    reveal_strlit(".wavu/runtimes/");
    reveal_strlit(".wavu/bin/");
    let p = dir_of(c.cache_dir@);
    let x = ".wavu/runtimes/"@ + runtime_name(r1) + seq!['/'];
    let y = ".wavu/bin/"@ + runtime_name(r2) + seq!['/'];
    lemma_differ_apart(x, y, 6);
    lemma_prefix_keeps_apart(p, x, y);
}

} // verus!
