//! Iterative directory traversal: an explicit work list instead of call-stack
//! recursion, so deep or adversarial directory trees cannot overflow the
//! stack. `Walk` is the work-list state any driver can run against a real
//! file system; `walk_dir` runs the whole traversal over a modeled tree and
//! is proved to gather exactly the reachable regular files.

use vstd::multiset::Multiset;
use vstd::prelude::*;

verus! {

broadcast use vstd::seq_lib::group_to_multiset_ensures, vstd::multiset::lemma_multiset_empty_len;

/// The work-list walker state: `stack` holds the directories still to be
/// visited (newest on top), `out` the result gathered for each regular file
/// seen so far, in visitation order.
pub struct Walk<D, R> {
    pub stack: Vec<D>,
    pub out: Vec<R>,
}

impl<D, R> Walk<D, R> {
    /// Begin a traversal: the work list holds only the root, and nothing has
    /// been gathered.
    pub fn new(root: D) -> (w: Walk<D, R>)
        ensures
            w.stack@ =~= seq![root],
            w.out@ =~= Seq::<R>::empty(),
    {
        Walk { stack: vec![root], out: Vec::new() }
    }

    /// Take the next directory to visit off the work list, newest first.
    /// `None` means the traversal is finished.
    pub fn next_dir(&mut self) -> (d: Option<D>)
        ensures
            old(self).stack@.len() == 0 ==> d is None && final(self).stack@ == old(self).stack@,
            old(self).stack@.len() > 0 ==> d == Some(old(self).stack@.last())
                && final(self).stack@ == old(self).stack@.drop_last(),
            final(self).out@ == old(self).out@,
    {
        self.stack.pop()
    }

    /// An entry turned out to be a directory: queue it for a later visit.
    pub fn push_dir(&mut self, d: D)
        ensures
            final(self).stack@ == old(self).stack@.push(d),
            final(self).out@ == old(self).out@,
    {
        self.stack.push(d);
    }

    /// An entry turned out to be a regular file: append its transform result.
    pub fn emit(&mut self, r: R)
        ensures
            final(self).stack@ == old(self).stack@,
            final(self).out@ == old(self).out@.push(r),
    {
        self.out.push(r);
    }

    /// Finish: the gathered results, in visitation order.
    pub fn results(self) -> (r: Vec<R>)
        ensures
            r@ == self.out@,
    {
        self.out
    }
}

/// One directory of a modeled file system subtree: whether listing it
/// succeeds, and its entries in listing order. An unreadable directory stands
/// for one whose listing fails (permission denied, removed concurrently).
pub struct FsDir {
    pub readable: bool,
    pub entries: Vec<FsEntry>,
}

/// One directory entry of the model: a subdirectory, named by its index in
/// the tree, or a regular file, named by an identifier of the caller's
/// choice. Anything not classified as a directory counts as a file here, as
/// it does in the traversal itself.
#[derive(Clone, Copy, PartialEq, Eq, Debug)]
pub enum FsEntry {
    Dir(usize),
    File(u64),
}

/// A file system subtree as the walker sees it: the entries of directory `i`
/// are `dirs[i]`. Well-formed when every subdirectory reference points to a
/// strictly larger index — the numbering every finite tree admits, and one
/// that rules out cycles.
pub struct FsTree {
    pub dirs: Vec<FsDir>,
}

impl FsTree {
    /// Entry `k` of directory `i` refers only forward.
    pub open spec fn entry_wf(self, i: int, k: int) -> bool {
        self.dirs@[i].entries@[k] matches FsEntry::Dir(j) ==> i < j < self.dirs@.len()
    }

    /// Every subdirectory reference in the tree points forward.
    pub open spec fn wf(self) -> bool {
        forall|i: int, k: int|
            0 <= i < self.dirs@.len() && 0 <= k < self.dirs@[i].entries@.len()
                ==> #[trigger] self.entry_wf(i, k)
    }
}

/// The regular files reachable from directory `i` of the tree, as a multiset
/// of file identifiers: nothing for an unlistable directory (out of range or
/// unreadable), otherwise everything its entries reach.
pub open spec fn reach_dir(t: FsTree, i: int) -> Multiset<u64>
    decreases t.dirs@.len() - i, 1int, 0int,
{
    if 0 <= i < t.dirs@.len() && t.dirs@[i].readable {
        reach_entries(t, t.dirs@[i].entries@, i)
    } else {
        Multiset::empty()
    }
}

/// The regular files reachable from the entry sequence `es` of directory
/// `lo`: each file contributes itself, each subdirectory its own reach. Only
/// references that point forward are followed, which is all a well-formed
/// tree contains.
pub open spec fn reach_entries(t: FsTree, es: Seq<FsEntry>, lo: int) -> Multiset<u64>
    decreases t.dirs@.len() - lo, 0int, es.len(),
    when lo < t.dirs@.len()
{
    if es.len() == 0 {
        Multiset::empty()
    } else {
        let head = match es[0] {
            FsEntry::File(x) => Multiset::empty().insert(x),
            FsEntry::Dir(j) => if lo < j < t.dirs@.len() {
                reach_dir(t, j as int)
            } else {
                Multiset::empty()
            },
        };
        head.add(reach_entries(t, es.drop_first(), lo))
    }
}

/// The reach of every directory still on the work list, together.
pub open spec fn stack_reach(t: FsTree, s: Seq<usize>) -> Multiset<u64>
    decreases s.len(),
{
    if s.len() == 0 {
        Multiset::empty()
    } else {
        stack_reach(t, s.drop_last()).add(reach_dir(t, s.last() as int))
    }
}

/// How much work visiting directory `i` still costs: one step for the visit
/// itself, plus the cost of every subdirectory its listing queues. The
/// measure that shrinks with every directory the walker takes off the work
/// list, which is what makes the traversal terminate on well-formed trees.
pub open spec fn weight_dir(t: FsTree, i: int) -> nat
    decreases t.dirs@.len() - i, 1int, 0int,
{
    if 0 <= i < t.dirs@.len() && t.dirs@[i].readable {
        1 + weight_entries(t, t.dirs@[i].entries@, i)
    } else {
        1
    }
}

/// The visiting cost of the subdirectories among the entries `es` of
/// directory `lo`; regular files cost nothing further.
pub open spec fn weight_entries(t: FsTree, es: Seq<FsEntry>, lo: int) -> nat
    decreases t.dirs@.len() - lo, 0int, es.len(),
    when lo < t.dirs@.len()
{
    if es.len() == 0 {
        0
    } else {
        let head: nat = match es[0] {
            FsEntry::File(_) => 0,
            FsEntry::Dir(j) => if lo < j < t.dirs@.len() {
                weight_dir(t, j as int)
            } else {
                1
            },
        };
        head + weight_entries(t, es.drop_first(), lo)
    }
}

/// The visiting cost of everything still on the work list.
pub open spec fn stack_weight(t: FsTree, s: Seq<usize>) -> nat
    decreases s.len(),
{
    if s.len() == 0 {
        0
    } else {
        stack_weight(t, s.drop_last()) + weight_dir(t, s.last() as int)
    }
}

/// An unlistable directory contributes nothing to the traversal: the subtree
/// behind it is skipped, while every other directory's reach is untouched.
pub proof fn lemma_unlistable_dir_reaches_nothing(t: FsTree, i: int)
    requires
        !(0 <= i < t.dirs@.len()) || !t.dirs@[i].readable,
    ensures
        reach_dir(t, i) =~= Multiset::<u64>::empty(),
{
}

/// The regular files among the entries `es` themselves, one each, ignoring
/// whatever any subdirectory holds.
pub open spec fn file_ids(es: Seq<FsEntry>) -> Multiset<u64>
    decreases es.len(),
{
    if es.len() == 0 {
        Multiset::empty()
    } else {
        let head = match es[0] {
            FsEntry::File(x) => Multiset::empty().insert(x),
            FsEntry::Dir(_) => Multiset::empty(),
        };
        head.add(file_ids(es.drop_first()))
    }
}

/// A directory holding only regular files reaches exactly those files, one
/// result per file: what a traversal of a flat tree returns, as a multiset.
pub proof fn lemma_flat_dir_reaches_its_files(t: FsTree, i: int)
    requires
        0 <= i < t.dirs@.len(),
        t.dirs@[i].readable,
        forall|k: int|
            0 <= k < t.dirs@[i].entries@.len() ==> (#[trigger] t.dirs@[i].entries@[k]) is File,
    ensures
        reach_dir(t, i) =~= file_ids(t.dirs@[i].entries@),
{
    lemma_files_only_entries(t, t.dirs@[i].entries@, i);
}

/// On an entry sequence without subdirectories, reach and `file_ids` agree.
proof fn lemma_files_only_entries(t: FsTree, es: Seq<FsEntry>, lo: int)
    requires
        lo < t.dirs@.len(),
        forall|k: int| 0 <= k < es.len() ==> (#[trigger] es[k]) is File,
    ensures
        reach_entries(t, es, lo) =~= file_ids(es),
    decreases es.len(),
{
    if es.len() > 0 {
        assert(es[0] is File);
        lemma_files_only_entries(t, es.drop_first(), lo);
    }
}

/// No reachable regular file is omitted: every file entry of a readable
/// directory is counted in that directory's reach, whatever stands around
/// it — other files, subdirectories, or subdirectories that cannot be read.
pub proof fn lemma_direct_file_is_reached(t: FsTree, i: int, k: int)
    requires
        0 <= i < t.dirs@.len(),
        t.dirs@[i].readable,
        0 <= k < t.dirs@[i].entries@.len(),
        t.dirs@[i].entries@[k] is File,
    ensures
        reach_dir(t, i).count(t.dirs@[i].entries@[k]->File_0) >= 1,
{
    lemma_entry_file_counted(t, t.dirs@[i].entries@, i, k);
}

/// The file at position `k` of the entries `es` is counted in their reach.
proof fn lemma_entry_file_counted(t: FsTree, es: Seq<FsEntry>, lo: int, k: int)
    requires
        lo < t.dirs@.len(),
        0 <= k < es.len(),
        es[k] is File,
    ensures
        reach_entries(t, es, lo).count(es[k]->File_0) >= 1,
    decreases k,
{
    if k == 0 {
        assert(reach_entries(t, es, lo).count(es[0]->File_0) >= 1);
    } else {
        lemma_entry_file_counted(t, es.drop_first(), lo, k - 1);
        assert(es.drop_first()[k - 1] == es[k]);
    }
}

/// Enumerate every regular file reachable from directory `root` of the tree,
/// without recursion: an explicit work list of directories, seeded with the
/// root. The result holds exactly one identifier per reachable regular file —
/// none is omitted, none is repeated, and no directory is ever reported as a
/// file. A directory that cannot be listed is skipped; everything reachable
/// around it is still visited.
pub fn walk_dir(t: &FsTree, root: usize) -> (r: Vec<u64>)
    requires
        t.wf(),
    ensures
        r@.to_multiset() == reach_dir(*t, root as int),
{
    let mut w: Walk<usize, u64> = Walk::new(root);
    proof {
        assert(w.stack@.len() == 1 && w.stack@.last() == root);
        assert(w.stack@.drop_last() =~= Seq::<usize>::empty());
        assert(stack_reach(*t, w.stack@.drop_last()) == Multiset::<u64>::empty());
        assert(stack_reach(*t, w.stack@) == Multiset::<u64>::empty().add(
            reach_dir(*t, root as int),
        ));
        assert(w.out@.len() == 0);
        assert(w.out@.to_multiset().len() == 0);
        assert(w.out@.to_multiset() =~= Multiset::<u64>::empty());
        assert(w.out@.to_multiset().add(stack_reach(*t, w.stack@)) =~= reach_dir(
            *t,
            root as int,
        ));
    }
    loop
        invariant
            t.wf(),
            w.out@.to_multiset().add(stack_reach(*t, w.stack@)) == reach_dir(*t, root as int),
        ensures
            w.stack@.len() == 0,
            w.out@.to_multiset().add(stack_reach(*t, w.stack@)) == reach_dir(*t, root as int),
        decreases stack_weight(*t, w.stack@),
    {
        let ghost pre_stack = w.stack@;
        let dopt = w.next_dir();
        let d = match dopt {
            None => {
                break ;
            },
            Some(d) => d,
        };
        proof {
            assert(stack_reach(*t, pre_stack) == stack_reach(*t, w.stack@).add(
                reach_dir(*t, d as int),
            ));
            assert(stack_weight(*t, pre_stack) == stack_weight(*t, w.stack@) + weight_dir(
                *t,
                d as int,
            ));
        }
        if d < t.dirs.len() {
            let dir = &t.dirs[d];
            if dir.readable {
                let ghost total = reach_dir(*t, root as int);
                let ghost wbase = stack_weight(*t, w.stack@) + weight_entries(
                    *t,
                    dir.entries@,
                    d as int,
                );
                let n = dir.entries.len();
                proof {
                    assert(dir.entries@.skip(0) =~= dir.entries@);
                    assert(w.out@.to_multiset().add(stack_reach(*t, w.stack@)).add(
                        reach_entries(*t, dir.entries@.skip(0), d as int),
                    ) =~= total);
                }
                let mut k: usize = 0;
                while k < n
                    invariant
                        t.wf(),
                        0 <= d < t.dirs@.len(),
                        *dir == t.dirs@[d as int],
                        dir.readable,
                        n == dir.entries@.len(),
                        k <= n,
                        w.out@.to_multiset().add(stack_reach(*t, w.stack@)).add(
                            reach_entries(*t, dir.entries@.skip(k as int), d as int),
                        ) == total,
                        stack_weight(*t, w.stack@) + weight_entries(
                            *t,
                            dir.entries@.skip(k as int),
                            d as int,
                        ) == wbase,
                    decreases n - k,
                {
                    proof {
                        assert(dir.entries@.skip(k as int)[0] == dir.entries@[k as int]);
                        assert(dir.entries@.skip(k as int).drop_first() =~= dir.entries@.skip(
                            k as int + 1,
                        ));
                        assert(t.entry_wf(d as int, k as int));
                    }
                    match dir.entries[k] {
                        FsEntry::Dir(j) => {
                            let ghost mid_stack = w.stack@;
                            w.push_dir(j);
                            proof {
                                assert(w.stack@.drop_last() =~= mid_stack);
                                assert(stack_reach(*t, w.stack@) == stack_reach(
                                    *t,
                                    mid_stack,
                                ).add(reach_dir(*t, j as int)));
                                assert(stack_weight(*t, w.stack@) == stack_weight(*t, mid_stack)
                                    + weight_dir(*t, j as int));
                                assert(w.out@.to_multiset().add(stack_reach(*t, w.stack@)).add(
                                    reach_entries(*t, dir.entries@.skip(k as int + 1), d as int),
                                ) =~= total);
                            }
                        },
                        FsEntry::File(x) => {
                            let ghost pre_out = w.out@;
                            w.emit(x);
                            proof {
                                assert(w.out@ == pre_out.push(x));
                                assert(w.out@.to_multiset() =~= pre_out.to_multiset().insert(x));
                                assert(w.out@.to_multiset().add(stack_reach(*t, w.stack@)).add(
                                    reach_entries(*t, dir.entries@.skip(k as int + 1), d as int),
                                ) =~= total);
                            }
                        },
                    }
                    k = k + 1;
                }
                proof {
                    assert(dir.entries@.skip(n as int) =~= Seq::<FsEntry>::empty());
                    assert(w.out@.to_multiset().add(stack_reach(*t, w.stack@)) =~= total);
                    assert(weight_dir(*t, d as int) == 1 + weight_entries(
                        *t,
                        dir.entries@,
                        d as int,
                    ));
                    assert(stack_weight(*t, w.stack@) == stack_weight(*t, pre_stack) - 1);
                }
            } else {
                proof {
                    lemma_unlistable_dir_reaches_nothing(*t, d as int);
                    assert(w.out@.to_multiset().add(stack_reach(*t, w.stack@)) =~= reach_dir(
                        *t,
                        root as int,
                    ));
                    assert(weight_dir(*t, d as int) == 1);
                }
            }
        } else {
            proof {
                lemma_unlistable_dir_reaches_nothing(*t, d as int);
                assert(w.out@.to_multiset().add(stack_reach(*t, w.stack@)) =~= reach_dir(
                    *t,
                    root as int,
                ));
                assert(weight_dir(*t, d as int) == 1);
            }
        }
    }
    proof {
        assert(stack_reach(*t, w.stack@) =~= Multiset::<u64>::empty());
        assert(w.out@.to_multiset() =~= reach_dir(*t, root as int));
    }
    w.results()
}

} // verus!
