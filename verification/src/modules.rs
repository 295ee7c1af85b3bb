//! Kernel-module loading: which directory entries count as modules, the
//! deterministic lexicographic load order, and the loader's
//! tolerate-and-continue failure policy.

use crate::bytes::{
    bytes_le, lemma_lex_le_antisym, lemma_lex_le_total, lemma_lex_le_trans, lex_le, views_of,
};
use vstd::prelude::*;

verus! {

broadcast use vstd::seq_lib::group_to_multiset_ensures;

/// `"/usr/lib/modules"` as bytes.
pub const MODULES_DIR: [u8; 16] = [47u8, 117u8, 115u8, 114u8, 47u8, 108u8, 105u8, 98u8, 47u8,
    109u8, 111u8, 100u8, 117u8, 108u8, 101u8, 115u8];

/// `".ko"` as bytes.
pub const KO_SUFFIX: [u8; 3] = [46u8, 107u8, 111u8];

/// A directory entry as the module loader sees it: its file name and
/// whether it is a regular file.
pub struct DirEntry {
    /// The entry's file name (no directory part).
    pub name: Vec<u8>,
    /// Is the entry a regular file?
    pub is_file: bool,
}

/// The mathematical value of a directory entry.
pub struct SpecDirEntry {
    /// The entry's file name.
    pub name: Seq<u8>,
    /// Is the entry a regular file?
    pub is_file: bool,
}

impl View for DirEntry {
    type V = SpecDirEntry;

    open spec fn view(&self) -> SpecDirEntry {
        (SpecDirEntry { name: self.name@, is_file: self.is_file })
    }
}

/// The views of a list of directory entries.
pub open spec fn dir_views(es: Seq<DirEntry>) -> Seq<SpecDirEntry> {
    es.map_values(|e: DirEntry| e@)
}

/// A name with the kernel-module extension: it ends in `.ko` and has a
/// non-empty stem before the dot.
pub open spec fn is_module_name(n: Seq<u8>) -> bool {
    n.len() >= 4 && n.skip(n.len() - 3) == KO_SUFFIX@
}

/// Decide `is_module_name`.
pub fn is_module_file_name(n: &[u8]) -> (r: bool)
    ensures
        r == is_module_name(n@),
{
    if n.len() < 4 {
        return false;
    }
    let l = n.len();
    let r = n[l - 3] == 46 && n[l - 2] == 107 && n[l - 1] == 111;
    proof {
        if r {
            assert(n@.skip(n@.len() - 3) =~= KO_SUFFIX@);
        } else {
            assert(n@.skip(n@.len() - 3)[0] == n@[n@.len() - 3]);
            assert(n@.skip(n@.len() - 3)[1] == n@[n@.len() - 2]);
            assert(n@.skip(n@.len() - 3)[2] == n@[n@.len() - 1]);
        }
    }
    r
}

/// The names of the regular files with the module extension, in directory
/// order.
pub open spec fn spec_module_names(es: Seq<SpecDirEntry>) -> Seq<Seq<u8>>
    decreases es.len(),
{
    if es.len() == 0 {
        Seq::empty()
    } else if es[0].is_file && is_module_name(es[0].name) {
        seq![es[0].name] + spec_module_names(es.drop_first())
    } else {
        spec_module_names(es.drop_first())
    }
}

/// Sorted ascending in the byte-wise lexicographic order.
pub open spec fn lex_sorted(ns: Seq<Seq<u8>>) -> bool {
    forall|i: int, j: int| 0 <= i < j < ns.len() ==> lex_le(ns[i], ns[j])
}

/// Push one element under `views_of`.
proof fn lemma_views_push(ts: Seq<Vec<u8>>, v: Vec<u8>)
    ensures
        views_of(ts.push(v)) =~= views_of(ts) + seq![v@],
{
}

/// Load order over a directory listing: keep the regular files whose name
/// carries the module extension, sorted ascending by name, byte-wise.
/// Given identical directory contents the result is identical: the order
/// is deterministic and reproducible.
pub fn module_load_order(entries: &Vec<DirEntry>) -> (r: Vec<Vec<u8>>)
    ensures
        lex_sorted(views_of(r@)),
        views_of(r@).to_multiset() == spec_module_names(dir_views(entries@)).to_multiset(),
        forall|i: int| 0 <= i < r@.len() ==> is_module_name(r@[i]@),
{
    let ghost dv = dir_views(entries@);
    let mut sel: Vec<Vec<u8>> = Vec::new();
    let mut i: usize = 0;
    proof {
        assert(dv.skip(0) =~= dv);
        assert(views_of(sel@) =~= Seq::<Seq<u8>>::empty());
    }
    while i < entries.len()
        invariant
            0 <= i <= entries@.len(),
            dv == dir_views(entries@),
            views_of(sel@) + spec_module_names(dv.skip(i as int)) == spec_module_names(dv),
            forall|k: int| 0 <= k < sel@.len() ==> is_module_name(sel@[k]@),
        decreases entries@.len() - i,
    {
        proof {
            assert(dv.skip(i as int)[0] == entries@[i as int]@);
            assert(dv.skip(i as int).drop_first() =~= dv.skip(i as int + 1));
        }
        let e: &DirEntry = &entries[i];
        if e.is_file && is_module_file_name(e.name.as_slice()) {
            let n = vstd::slice::slice_to_vec(e.name.as_slice());
            proof {
                lemma_views_push(sel@, n);
            }
            sel.push(n);
        }
        i += 1;
    }
    proof {
        assert(dv.skip(i as int).len() == 0);
        assert(views_of(sel@) + spec_module_names(dv.skip(i as int)) =~= views_of(sel@));
    }
    let ghost orig = views_of(sel@);
    // Selection sort: repeatedly move the least remaining name to the end
    // of the sorted output.
    let mut rest = sel;
    let mut out: Vec<Vec<u8>> = Vec::new();
    proof {
        assert(views_of(out@) =~= Seq::<Seq<u8>>::empty());
        assert(views_of(out@).to_multiset().add(views_of(rest@).to_multiset())
            =~= orig.to_multiset());
    }
    while rest.len() > 0
        invariant
            views_of(out@).to_multiset().add(views_of(rest@).to_multiset())
                == orig.to_multiset(),
            lex_sorted(views_of(out@)),
            forall|a: int, b: int|
                0 <= a < out@.len() && 0 <= b < rest@.len() ==> lex_le(out@[a]@, rest@[b]@),
            forall|k: int| 0 <= k < out@.len() ==> is_module_name(out@[k]@),
            forall|k: int| 0 <= k < rest@.len() ==> is_module_name(rest@[k]@),
        decreases rest@.len(),
    {
        let mut m: usize = 0;
        let mut c: usize = 1;
        proof {
            lemma_lex_le_refl(rest@[0]@);
        }
        while c < rest.len()
            invariant
                0 <= m < rest@.len(),
                1 <= c <= rest@.len(),
                m < c,
                forall|t: int| 0 <= t < c ==> lex_le(rest@[m as int]@, rest@[t]@),
            decreases rest@.len() - c,
        {
            if bytes_le(rest[c].as_slice(), rest[m].as_slice()) {
                proof {
                    assert forall|t: int| 0 <= t < c implies lex_le(rest@[c as int]@, rest@[t]@)
                    by {
                        lemma_lex_le_trans(rest@[c as int]@, rest@[m as int]@, rest@[t]@);
                    }
                }
                proof {
                    lemma_lex_le_refl(rest@[c as int]@);
                }
                m = c;
            } else {
                proof {
                    lemma_lex_le_refl(rest@[m as int]@);
                }
                proof {
                    lemma_lex_le_total(rest@[c as int]@, rest@[m as int]@);
                }
            }
            c += 1;
        }
        let ghost pre_rest = rest@;
        let x = rest.remove(m);
        proof {
            assert(views_of(pre_rest.remove(m as int)) =~= views_of(pre_rest).remove(
                m as int,
            ));
            assert(views_of(pre_rest).remove(m as int).to_multiset() =~= views_of(
                pre_rest,
            ).to_multiset().remove(x@));
            lemma_views_push(out@, x);
            assert(views_of(pre_rest).to_multiset().count(x@) > 0) by {
                assert(views_of(pre_rest)[m as int] == x@);
                assert(views_of(pre_rest).contains(x@));
            }
            assert(views_of(out@.push(x)) =~= views_of(out@).push(x@));
            assert(views_of(out@.push(x)).to_multiset() =~= views_of(out@)
                .to_multiset().insert(x@));
            assert(views_of(out@).to_multiset().insert(x@).add(
                views_of(pre_rest).to_multiset().remove(x@),
            ) =~= views_of(out@).to_multiset().add(views_of(pre_rest).to_multiset()));
        }
        out.push(x);
    }
    proof {
        assert(views_of(rest@).to_multiset().len() == 0);
        assert(views_of(out@).to_multiset().add(views_of(rest@).to_multiset()) =~= views_of(
            out@,
        ).to_multiset());
    }
    out
}

/// The lexicographic order is reflexive.
proof fn lemma_lex_le_refl(a: Seq<u8>)
    ensures
        lex_le(a, a),
    decreases a.len(),
{
    if a.len() > 0 {
        lemma_lex_le_refl(a.drop_first());
    }
}

/// The load order is deterministic: two sorted name lists that hold the
/// same names the same number of times are the same list.  Together with
/// `module_load_order`'s contract this makes the load order a function of
/// the directory contents alone.
pub proof fn lemma_load_order_deterministic(a: Seq<Seq<u8>>, b: Seq<Seq<u8>>)
    requires
        lex_sorted(a),
        lex_sorted(b),
        a.to_multiset() == b.to_multiset(),
    ensures
        a == b,
    decreases a.len(),
{
    if a.len() == 0 {
        assert(b.len() == b.to_multiset().len());
        assert(a =~= b);
    } else {
        assert(a.to_multiset().count(a[0]) > 0) by {
            assert(a.contains(a[0]));
        }
        assert(b.contains(a[0]));
        let k = choose|k: int| 0 <= k < b.len() && b[k] == a[0];
        assert(b.to_multiset().count(b[0]) > 0) by {
            assert(b.contains(b[0]));
        }
        assert(a.contains(b[0]));
        let t = choose|t: int| 0 <= t < a.len() && a[t] == b[0];
        assert(lex_le(a[0], b[0])) by {
            if t == 0 {
                lemma_lex_le_refl(a[0]);
            }
        }
        assert(lex_le(b[0], a[0])) by {
            if k == 0 {
                lemma_lex_le_refl(b[0]);
            }
        }
        lemma_lex_le_antisym(a[0], b[0]);
        assert(a.remove(0) =~= a.drop_first());
        assert(b.remove(0) =~= b.drop_first());
        assert(a.drop_first().to_multiset() =~= a.to_multiset().remove(a[0]));
        assert(b.drop_first().to_multiset() =~= b.to_multiset().remove(b[0]));
        assert(forall|i: int, j: int|
            0 <= i < j < a.drop_first().len() ==> lex_le(a.drop_first()[i], a.drop_first()[j]));
        assert(forall|i: int, j: int|
            0 <= i < j < b.drop_first().len() ==> lex_le(b.drop_first()[i], b.drop_first()[j]));
        lemma_load_order_deterministic(a.drop_first(), b.drop_first());
        assert(a.len() == a.to_multiset().len());
        assert(b.len() == b.to_multiset().len());
        assert(forall|i: int| 1 <= i < a.len() ==> a[i] == a.drop_first()[i - 1]);
        assert(forall|i: int| 1 <= i < b.len() ==> b[i] == b.drop_first()[i - 1]);
        assert(a =~= b);
    }
}

/// Steps through an ordered module list, one insertion attempt at a time.
/// A failed insertion is counted and skipped: it never removes the later
/// modules from the plan and never fails the loader as a whole.  The
/// loader only exists once directory enumeration has succeeded; from then
/// on it reports success as a whole.
pub struct ModuleLoader {
    modules: Vec<Vec<u8>>,
    next: usize,
    failures: usize,
}

impl ModuleLoader {
    /// The ordered names this loader will attempt.
    pub closed spec fn modules_view(&self) -> Seq<Seq<u8>> {
        views_of(self.modules@)
    }

    /// How many modules have been attempted so far.
    pub closed spec fn attempted(&self) -> int {
        self.next as int
    }

    /// How many attempts failed so far.
    pub closed spec fn failure_count(&self) -> int {
        self.failures as int
    }

    /// The loader never runs past the end of its list.
    pub open spec fn wf(&self) -> bool {
        0 <= self.attempted() <= self.modules_view().len() && 0 <= self.failure_count()
            <= self.attempted()
    }

    /// A loader over `modules`, nothing attempted yet.
    pub fn new(modules: Vec<Vec<u8>>) -> (r: ModuleLoader)
        ensures
            r.wf(),
            r.modules_view() == views_of(modules@),
            r.attempted() == 0,
            r.failure_count() == 0,
    {
        ModuleLoader { modules, next: 0, failures: 0 }
    }

    /// The next module to attempt, if any is left.
    pub fn current(&self) -> (r: Option<&Vec<u8>>)
        requires
            self.wf(),
        ensures
            (match r {
                Some(m) => self.attempted() < self.modules_view().len() && m@
                    == self.modules_view()[self.attempted()],
                None => self.attempted() == self.modules_view().len(),
            }),
    {
        if self.next < self.modules.len() {
            Some(&self.modules[self.next])
        } else {
            None
        }
    }

    /// Record the outcome of one insertion attempt.  The loader advances to
    /// the next module whether the attempt succeeded or not: one bad module
    /// never prevents the later ones from being attempted.
    pub fn record(&mut self, loaded: bool)
        requires
            old(self).wf(),
            old(self).attempted() < old(self).modules_view().len(),
        ensures
            final(self).wf(),
            final(self).modules_view() == old(self).modules_view(),
            final(self).attempted() == old(self).attempted() + 1,
            final(self).failure_count() == old(self).failure_count() + (if loaded {
                0int
            } else {
                1int
            }),
    {
        let n = self.modules.len();
        proof {
            assert(self.next < n);
        }
        self.next = self.next + 1;
        if !loaded {
            self.failures = self.failures + 1;
        }
    }

    /// Has every module been attempted?
    pub fn finished(&self) -> (r: bool)
        requires
            self.wf(),
        ensures
            r == (self.attempted() == self.modules_view().len()),
    {
        self.next == self.modules.len()
    }

    /// The loader as a whole reports success, however many individual
    /// insertions failed.  A loader is only built once the directory
    /// listing is in hand, so no failure is left for it to report.
    pub fn overall_success(&self) -> (r: bool)
        requires
            self.wf(),
            self.attempted() == self.modules_view().len(),
        ensures
            r,
    {
        true
    }
}

} // verus!
