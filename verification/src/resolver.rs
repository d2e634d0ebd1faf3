//! Breadth-first transitive dependency resolution.
//!
//! The resolver is a step machine: `next_unvisited` hands out the next
//! identifier whose direct dependencies are needed, and
//! `supply_dependencies` feeds the answer back.  The caller obtains each
//! answer either from an injectable override table (the facade) or from a
//! remote metadata fetch; a fetch failure aborts the whole resolution
//! (fail-fast), so no partial graph is ever returned.  Deduplication
//! happens at dequeue time: the queue may carry duplicates, the visited
//! set is monotonic, and every identifier is handed out at most once.
use vstd::prelude::*;
use crate::ModuleId;
use crate::id_seq::{sorted_strict, id_slice_contains, insert_sorted, lemma_remove_head_contains,
    lemma_remove_head_subset, lemma_sorted_strict_no_duplicates, lemma_sorted_same_elements_equal};

verus! {

/// A path through a dependency graph `g`: it starts at one of `roots` and
/// follows recorded dependency edges.
#[verifier::opaque]
pub open spec fn is_dep_path(
    g: Map<ModuleId, Seq<ModuleId>>,
    roots: Seq<ModuleId>,
    p: Seq<ModuleId>,
) -> bool {
    &&& p.len() > 0
    &&& roots.contains(p[0])
    &&& forall|k: int|
        0 <= k < p.len() - 1 ==> g.dom().contains(#[trigger] p[k]) && g[p[k]].contains(p[k + 1])
}

/// Membership in the transitive closure of `roots` under the edges of `g`.
#[verifier::opaque]
pub open spec fn map_reachable(
    g: Map<ModuleId, Seq<ModuleId>>,
    roots: Seq<ModuleId>,
    x: ModuleId,
) -> bool {
    exists|p: Seq<ModuleId>| is_dep_path(g, roots, p) && p.last() == x
}

pub proof fn lemma_root_reachable(
    g: Map<ModuleId, Seq<ModuleId>>,
    roots: Seq<ModuleId>,
    r: ModuleId,
)
    requires
        roots.contains(r),
    ensures
        map_reachable(g, roots, r),
{
    reveal(is_dep_path);
    reveal(map_reachable);
    let p = seq![r];
    assert(p[0] == r);
    assert(is_dep_path(g, roots, p));
    assert(p.last() == r);
}

pub proof fn lemma_step_reachable(
    g: Map<ModuleId, Seq<ModuleId>>,
    roots: Seq<ModuleId>,
    id: ModuleId,
    d: ModuleId,
)
    requires
        map_reachable(g, roots, id),
        g.dom().contains(id),
        g[id].contains(d),
    ensures
        map_reachable(g, roots, d),
{
    reveal(is_dep_path);
    reveal(map_reachable);
    let p = choose|p: Seq<ModuleId>| is_dep_path(g, roots, p) && p.last() == id;
    let q = p.push(d);
    assert(q[0] == p[0]);
    assert forall|k: int| 0 <= k < q.len() - 1 implies g.dom().contains(#[trigger] q[k])
        && g[q[k]].contains(q[k + 1]) by {
        if k < p.len() - 1 {
            assert(q[k] == p[k]);
            assert(q[k + 1] == p[k + 1]);
        } else {
            assert(q[k] == p.last());
            assert(q[k + 1] == d);
        }
    }
    assert(is_dep_path(g, roots, q));
    assert(q.last() == d);
}

/// `g2` agrees with `g` wherever `g` records dependencies.
pub open spec fn map_extends(
    g: Map<ModuleId, Seq<ModuleId>>,
    g2: Map<ModuleId, Seq<ModuleId>>,
) -> bool {
    forall|id: ModuleId|
        g.dom().contains(id) ==> g2.dom().contains(id) && g2[id] == #[trigger] g[id]
}

/// A path is preserved by any graph that agrees with `g` on all of `g`'s
/// recorded identifiers.
pub proof fn lemma_path_in_agreeing_map(
    g: Map<ModuleId, Seq<ModuleId>>,
    g2: Map<ModuleId, Seq<ModuleId>>,
    roots: Seq<ModuleId>,
    p: Seq<ModuleId>,
)
    requires
        is_dep_path(g, roots, p),
        map_extends(g, g2),
    ensures
        is_dep_path(g2, roots, p),
{
    reveal(is_dep_path);
    assert forall|k: int| 0 <= k < p.len() - 1 implies g2.dom().contains(#[trigger] p[k])
        && g2[p[k]].contains(p[k + 1]) by {
        assert(g.dom().contains(p[k]) && g[p[k]].contains(p[k + 1]));
    }
}

pub proof fn lemma_reachable_in_agreeing_map(
    g: Map<ModuleId, Seq<ModuleId>>,
    g2: Map<ModuleId, Seq<ModuleId>>,
    roots: Seq<ModuleId>,
    x: ModuleId,
)
    requires
        map_reachable(g, roots, x),
        map_extends(g, g2),
    ensures
        map_reachable(g2, roots, x),
{
    reveal(map_reachable);
    let p = choose|p: Seq<ModuleId>| is_dep_path(g, roots, p) && p.last() == x;
    lemma_path_in_agreeing_map(g, g2, roots, p);
}

/// A set of identifiers that contains the roots and is closed under the
/// recorded edges contains the end of every path.
pub proof fn lemma_closed_contains_path_end(
    g: Map<ModuleId, Seq<ModuleId>>,
    roots: Seq<ModuleId>,
    vs: Seq<ModuleId>,
    p: Seq<ModuleId>,
)
    requires
        is_dep_path(g, roots, p),
        forall|r: ModuleId| roots.contains(r) ==> vs.contains(r),
        forall|v: ModuleId, d: ModuleId|
            vs.contains(v) && g.dom().contains(v) && #[trigger] g[v].contains(d) ==> vs.contains(
                d,
            ),
    ensures
        vs.contains(p.last()),
    decreases p.len(),
{
    reveal(is_dep_path);
    if p.len() == 1 {
        assert(p.last() == p[0]);
    } else {
        let q = p.drop_last();
        assert forall|k: int| 0 <= k < q.len() - 1 implies g.dom().contains(#[trigger] q[k])
            && g[q[k]].contains(q[k + 1]) by {
            assert(q[k] == p[k]);
            assert(q[k + 1] == p[k + 1]);
        }
        assert(q[0] == p[0]);
        assert(is_dep_path(g, roots, q));
        lemma_closed_contains_path_end(g, roots, vs, q);
        assert(q.last() == p[p.len() - 2]);
        assert(g.dom().contains(p[p.len() - 2]) && g[p[p.len() - 2]].contains(p[p.len() - 1]));
    }
}

/// One identifier's declared direct dependencies.
pub struct TableEntry {
    pub id: ModuleId,
    pub deps: Vec<ModuleId>,
}

/// An injectable lookup table of identifier to fixed dependency list: the
/// facade consulted before any remote fetch, and the whole graph when a
/// resolution runs against known data.
pub struct DependencyTable {
    pub entries: Vec<TableEntry>,
}

impl DependencyTable {
    /// Whether the table records dependencies for `id`.
    pub open spec fn spec_has(self, id: ModuleId) -> bool {
        exists|i: int| 0 <= i < self.entries@.len() && (#[trigger] self.entries@[i]).id == id
    }

    pub open spec fn spec_index_of(self, id: ModuleId) -> int {
        choose|i: int| 0 <= i < self.entries@.len() && (#[trigger] self.entries@[i]).id == id
    }

    /// The recorded direct dependencies of `id`.
    pub open spec fn deps_of(self, id: ModuleId) -> Seq<ModuleId> {
        self.entries@[self.spec_index_of(id)].deps@
    }

    /// Each identifier is recorded at most once.
    pub open spec fn wf(self) -> bool {
        forall|i: int, j: int|
            #![trigger self.entries@[i], self.entries@[j]]
            0 <= i < j < self.entries@.len() ==> self.entries@[i].id != self.entries@[j].id
    }

    /// Every recorded dependency is itself recorded: the table describes a
    /// complete graph.
    pub open spec fn spec_closed(self) -> bool {
        forall|i: int, k: int|
            0 <= i < self.entries@.len() && 0 <= k < (#[trigger] self.entries@[i]).deps@.len()
                ==> self.spec_has(#[trigger] self.entries@[i].deps@[k])
    }

    /// The table as a dependency graph.
    pub open spec fn as_map(self) -> Map<ModuleId, Seq<ModuleId>> {
        Map::new(|id: ModuleId| self.spec_has(id), |id: ModuleId| self.deps_of(id))
    }

    pub fn new() -> (r: DependencyTable)
        ensures
            r.wf(),
            r.entries@.len() == 0,
    {
        DependencyTable { entries: Vec::new() }
    }

    /// Records `deps` as the dependencies of `id`.
    pub fn record(&mut self, id: ModuleId, deps: Vec<ModuleId>)
        requires
            old(self).wf(),
            !old(self).spec_has(id),
        ensures
            final(self).wf(),
            forall|x: ModuleId| final(self).spec_has(x) <==> old(self).spec_has(x) || x == id,
            final(self).deps_of(id) == deps@,
            forall|x: ModuleId|
                old(self).spec_has(x) ==> final(self).deps_of(x) == old(self).deps_of(x),
    {
        let ghost t0 = *self;
        self.entries.push(TableEntry { id, deps });
        proof {
            let n = t0.entries@.len() as int;
            assert(self.entries@[n].id == id);
            assert forall|x: ModuleId| self.spec_has(x) implies t0.spec_has(x) || x == id by {
                let i = choose|i: int|
                    0 <= i < self.entries@.len() && (#[trigger] self.entries@[i]).id == x;
                if i < n {
                    assert(t0.entries@[i].id == x);
                }
            }
            assert forall|x: ModuleId| t0.spec_has(x) || x == id implies self.spec_has(x) by {
                if x == id {
                    assert(self.entries@[n].id == x);
                } else {
                    let i = choose|i: int|
                        0 <= i < t0.entries@.len() && (#[trigger] t0.entries@[i]).id == x;
                    assert(self.entries@[i].id == x);
                }
            }
            assert forall|x: ModuleId| t0.spec_has(x) implies self.deps_of(x) == t0.deps_of(
                x,
            ) by {
                let i = self.spec_index_of(x);
                let j = t0.spec_index_of(x);
                assert(0 <= j < n && t0.entries@[j].id == x);
                assert(self.entries@[j].id == x);
                assert(0 <= i < self.entries@.len() && self.entries@[i].id == x);
                if i != j {
                    assert(self.entries@[i].id != self.entries@[j].id);
                }
            }
            let i = self.spec_index_of(id);
            assert(0 <= i < self.entries@.len() && self.entries@[i].id == id);
            if i != n {
                assert(self.entries@[i].id != self.entries@[n].id);
            }
        }
    }

    /// The facade lookup: a fixed answer for `id`, bypassing any remote
    /// fetch, or `None` where the table does not cover `id`.
    pub fn facade_dependencies<'a>(&'a self, id: &ModuleId) -> (r: Option<&'a Vec<ModuleId>>)
        requires
            self.wf(),
        ensures
            match r {
                Some(d) => self.spec_has(*id) && d@ == self.deps_of(*id),
                None => !self.spec_has(*id),
            },
    {
        let mut k: usize = 0;
        while k < self.entries.len()
            invariant
                0 <= k <= self.entries@.len(),
                self.wf(),
                forall|j: int| 0 <= j < k ==> (#[trigger] self.entries@[j]).id != *id,
            decreases self.entries@.len() - k,
        {
            if self.entries[k].id.value == id.value {
                proof {
                    assert(self.entries@[k as int].id == *id);
                    let i = self.spec_index_of(*id);
                    assert(0 <= i < self.entries@.len() && self.entries@[i].id == *id);
                    if i != k as int {
                        assert(self.entries@[i].id != self.entries@[k as int].id);
                    }
                }
                return Some(&self.entries[k].deps);
            }
            k = k + 1;
        }
        None
    }
}

/// The breadth-first traversal state: a FIFO work queue that may carry
/// duplicates, and a monotonic visited set kept in sorted order.
pub struct DependencyResolver {
    pub queue: Vec<ModuleId>,
    pub visited: Vec<ModuleId>,
    pub answered: Ghost<Map<ModuleId, Seq<ModuleId>>>,
    pub roots: Ghost<Seq<ModuleId>>,
    pub pending: Ghost<Option<ModuleId>>,
}

impl DependencyResolver {
    pub open spec fn queue_seq(self) -> Seq<ModuleId> {
        self.queue@
    }

    pub open spec fn visited_seq(self) -> Seq<ModuleId> {
        self.visited@
    }

    /// The dependency lists supplied so far, as a graph.
    pub open spec fn answered_map(self) -> Map<ModuleId, Seq<ModuleId>> {
        self.answered@
    }

    pub open spec fn roots_seq(self) -> Seq<ModuleId> {
        self.roots@
    }

    /// The identifier handed out by `next_unvisited` whose dependencies
    /// have not been supplied yet.
    pub open spec fn pending_id(self) -> Option<ModuleId> {
        self.pending@
    }

    pub open spec fn wf(self) -> bool {
        &&& sorted_strict(self.visited@)
        &&& forall|x: ModuleId|
            self.queue@.contains(x) ==> map_reachable(self.answered@, self.roots@, x)
        &&& forall|x: ModuleId|
            self.visited@.contains(x) ==> map_reachable(self.answered@, self.roots@, x)
        &&& forall|r: ModuleId|
            self.roots@.contains(r) ==> self.visited@.contains(r) || self.queue@.contains(r)
        &&& forall|id: ModuleId|
            self.answered@.dom().contains(id) ==> self.visited@.contains(id)
        &&& forall|id: ModuleId|
            self.visited@.contains(id) && self.pending@ != Some(id)
                ==> self.answered@.dom().contains(id)
        &&& match self.pending@ {
            Some(p) => self.visited@.contains(p) && !self.answered@.dom().contains(p),
            None => true,
        }
        &&& forall|id: ModuleId, d: ModuleId|
            self.answered@.dom().contains(id) && #[trigger] self.answered@[id].contains(d)
                ==> self.visited@.contains(d) || self.queue@.contains(d)
    }

    /// Seeds the work queue with the project's declared roots.
    pub fn new(roots: &Vec<ModuleId>) -> (r: DependencyResolver)
        ensures
            r.wf(),
            r.roots_seq() == roots@,
            r.queue_seq() == roots@,
            r.visited_seq().len() == 0,
            r.answered_map() == Map::<ModuleId, Seq<ModuleId>>::empty(),
            r.pending_id() is None,
    {
        let mut queue: Vec<ModuleId> = Vec::new();
        let mut k: usize = 0;
        while k < roots.len()
            invariant
                0 <= k <= roots@.len(),
                queue@ == roots@.subrange(0, k as int),
            decreases roots@.len() - k,
        {
            queue.push(roots[k]);
            k = k + 1;
        }
        assert(queue@ == roots@);
        let r = DependencyResolver {
            queue,
            visited: Vec::new(),
            answered: Ghost(Map::empty()),
            roots: Ghost(roots@),
            pending: Ghost(None),
        };
        proof {
            assert forall|x: ModuleId| r.queue@.contains(x) implies map_reachable(
                r.answered@,
                r.roots@,
                x,
            ) by {
                lemma_root_reachable(r.answered@, r.roots@, x);
            }
        }
        r
    }

    /// Dequeues until an unvisited identifier is found, marks it visited,
    /// and hands it out; `None` once the queue is exhausted.
    #[verifier::rlimit(100)]
    pub fn next_unvisited(&mut self) -> (r: Option<ModuleId>)
        requires
            old(self).wf(),
            old(self).pending_id() is None,
        ensures
            final(self).wf(),
            final(self).roots_seq() == old(self).roots_seq(),
            final(self).answered_map() == old(self).answered_map(),
            forall|x: ModuleId|
                final(self).queue_seq().contains(x) ==> old(self).queue_seq().contains(x),
            match r {
                None => {
                    &&& final(self).pending_id() is None
                    &&& final(self).queue_seq().len() == 0
                    &&& final(self).visited_seq() == old(self).visited_seq()
                },
                Some(id) => {
                    &&& final(self).pending_id() == Some(id)
                    &&& old(self).queue_seq().contains(id)
                    &&& !old(self).visited_seq().contains(id)
                    &&& final(self).visited_seq().len() == old(self).visited_seq().len() + 1
                    &&& forall|y: ModuleId|
                        final(self).visited_seq().contains(y) <==> old(
                            self,
                        ).visited_seq().contains(y) || y == id
                },
            },
    {
        let ghost entry = *self;
        loop
            invariant
                entry == *old(self),
                self.wf(),
                self.pending@ is None,
                self.roots@ == entry.roots@,
                self.answered@ == entry.answered@,
                self.visited@ == entry.visited@,
                forall|x: ModuleId| self.queue@.contains(x) ==> entry.queue@.contains(x),
            decreases self.queue@.len(),
        {
            if self.queue.len() == 0 {
                return None;
            }
            let ghost hs = *self;
            let x = self.queue.remove(0);
            proof {
                assert(hs.queue@.contains(x)) by {
                    assert(hs.queue@[0] == x);
                }
                assert(map_reachable(self.answered@, self.roots@, x));
                assert forall|y: ModuleId| self.queue@.contains(y) implies hs.queue@.contains(
                    y,
                ) by {
                    lemma_remove_head_subset(hs.queue@, y);
                }
            }
            let seen = id_slice_contains(&self.visited, x);
            if !seen {
                insert_sorted(&mut self.visited, x);
                proof {
                    self.pending@ = Some(x);
                    assert(sorted_strict(self.visited@));
                    assert forall|y: ModuleId| self.queue@.contains(y) implies map_reachable(
                        self.answered@,
                        self.roots@,
                        y,
                    ) by {
                        assert(hs.queue@.contains(y));
                    }
                    assert forall|y: ModuleId| self.visited@.contains(y) implies map_reachable(
                        self.answered@,
                        self.roots@,
                        y,
                    ) by {
                        if y != x {
                            assert(hs.visited@.contains(y));
                        }
                    }
                    assert forall|r2: ModuleId| self.roots@.contains(r2) implies self
                        .visited@
                        .contains(r2) || self.queue@.contains(r2) by {
                        if !hs.visited@.contains(r2) && r2 != x {
                            assert(hs.queue@.contains(r2));
                            lemma_remove_head_contains(hs.queue@, r2);
                        }
                    }
                    assert forall|id: ModuleId| self.answered@.dom().contains(id) implies self
                        .visited@
                        .contains(id) by {
                        assert(hs.visited@.contains(id));
                    }
                    assert(!self.answered@.dom().contains(x)) by {
                        if self.answered@.dom().contains(x) {
                            assert(hs.visited@.contains(x));
                        }
                    }
                    assert forall|id: ModuleId, d: ModuleId|
                        self.answered@.dom().contains(id) && #[trigger] self.answered@[id]
                            .contains(d) implies self.visited@.contains(d) || self.queue@.contains(
                        d,
                    ) by {
                        if !hs.visited@.contains(d) && d != x {
                            assert(hs.visited@.contains(d) || hs.queue@.contains(d));
                            lemma_remove_head_contains(hs.queue@, d);
                        }
                    }
                    assert(self.wf());
                }
                return Some(x);
            }
            proof {
                assert(self.visited@.contains(x));
                assert forall|y: ModuleId| self.queue@.contains(y) implies map_reachable(
                    self.answered@,
                    self.roots@,
                    y,
                ) by {
                    assert(hs.queue@.contains(y));
                }
                assert forall|r2: ModuleId| self.roots@.contains(r2) implies self
                    .visited@
                    .contains(r2) || self.queue@.contains(r2) by {
                    if !self.visited@.contains(r2) {
                        assert(r2 != x);
                        assert(hs.queue@.contains(r2));
                        lemma_remove_head_contains(hs.queue@, r2);
                    }
                }
                assert forall|id: ModuleId, d: ModuleId|
                    self.answered@.dom().contains(id) && #[trigger] self.answered@[id].contains(
                        d,
                    ) implies self.visited@.contains(d) || self.queue@.contains(d) by {
                    if !self.visited@.contains(d) {
                        assert(d != x);
                        assert(hs.queue@.contains(d));
                        lemma_remove_head_contains(hs.queue@, d);
                    }
                }
                assert(self.wf());
            }
        }
    }

    /// Supplies the direct dependencies of the identifier handed out by
    /// the last `next_unvisited`, enqueuing all of them unconditionally.
    #[verifier::rlimit(100)]
    pub fn supply_dependencies(&mut self, id: ModuleId, deps: &Vec<ModuleId>)
        requires
            old(self).wf(),
            old(self).pending_id() == Some(id),
        ensures
            final(self).wf(),
            final(self).pending_id() is None,
            final(self).roots_seq() == old(self).roots_seq(),
            final(self).visited_seq() == old(self).visited_seq(),
            final(self).answered_map() == old(self).answered_map().insert(id, deps@),
            forall|x: ModuleId|
                final(self).queue_seq().contains(x) ==> old(self).queue_seq().contains(x)
                    || deps@.contains(x),
    {
        let ghost entry = *self;
        let mut k: usize = 0;
        while k < deps.len()
            invariant
                0 <= k <= deps@.len(),
                self.queue@ == entry.queue@ + deps@.subrange(0, k as int),
                self.visited@ == entry.visited@,
                self.answered@ == entry.answered@,
                self.roots@ == entry.roots@,
                self.pending@ == entry.pending@,
            decreases deps@.len() - k,
        {
            self.queue.push(deps[k]);
            k = k + 1;
        }
        proof {
            assert(self.queue@ == entry.queue@ + deps@);
            let g = entry.answered@;
            let g2 = g.insert(id, deps@);
            self.answered@ = g2;
            self.pending@ = None;
            assert(!g.dom().contains(id));
            assert(map_extends(g, g2));
            assert(map_reachable(g2, self.roots@, id)) by {
                assert(entry.visited@.contains(id));
                lemma_reachable_in_agreeing_map(g, g2, self.roots@, id);
            }
            assert forall|x: ModuleId| self.queue@.contains(x) implies map_reachable(
                g2,
                self.roots@,
                x,
            ) by {
                let j = choose|j: int| 0 <= j < self.queue@.len() && self.queue@[j] == x;
                if j < entry.queue@.len() {
                    assert(entry.queue@[j] == x);
                    assert(entry.queue@.contains(x));
                    lemma_reachable_in_agreeing_map(g, g2, self.roots@, x);
                } else {
                    assert(deps@[j - entry.queue@.len()] == x);
                    assert(g2.dom().contains(id) && g2[id].contains(x));
                    lemma_step_reachable(g2, self.roots@, id, x);
                }
            }
            assert forall|x: ModuleId| self.visited@.contains(x) implies map_reachable(
                g2,
                self.roots@,
                x,
            ) by {
                lemma_reachable_in_agreeing_map(g, g2, self.roots@, x);
            }
            assert forall|r: ModuleId| self.roots@.contains(r) implies self.visited@.contains(r)
                || self.queue@.contains(r) by {
                if entry.queue@.contains(r) {
                    let j = choose|j: int|
                        0 <= j < entry.queue@.len() && entry.queue@[j] == r;
                    assert(self.queue@[j] == r);
                }
            }
            assert forall|w: ModuleId, d: ModuleId|
                g2.dom().contains(w) && #[trigger] g2[w].contains(d) implies self
                .visited@
                .contains(d) || self.queue@.contains(d) by {
                if w == id {
                    let j = choose|j: int| 0 <= j < deps@.len() && deps@[j] == d;
                    assert(self.queue@[entry.queue@.len() + j] == d);
                } else {
                    assert(g.dom().contains(w) && g[w].contains(d));
                    if entry.queue@.contains(d) {
                        let j = choose|j: int|
                            0 <= j < entry.queue@.len() && entry.queue@[j] == d;
                        assert(self.queue@[j] == d);
                    }
                }
            }
            assert forall|x: ModuleId| self.queue@.contains(x) implies entry.queue@.contains(x)
                || deps@.contains(x) by {
                let j = choose|j: int| 0 <= j < self.queue@.len() && self.queue@[j] == x;
                if j < entry.queue@.len() {
                    assert(entry.queue@[j] == x);
                } else {
                    assert(deps@[j - entry.queue@.len()] == x);
                }
            }
        }
    }

    /// Emits the visited set in canonical identifier order: exactly the
    /// transitive closure of the roots under the supplied dependencies.
    pub fn into_sorted_dependencies(self) -> (r: Vec<ModuleId>)
        requires
            self.wf(),
            self.pending_id() is None,
            self.queue_seq().len() == 0,
        ensures
            sorted_strict(r@),
            r@ == self.visited_seq(),
            forall|x: ModuleId|
                r@.contains(x) <==> map_reachable(self.answered_map(), self.roots_seq(), x),
    {
        proof {
            assert forall|x: ModuleId|
                map_reachable(self.answered@, self.roots@, x) implies self.visited@.contains(
                x,
            ) by {
                reveal(map_reachable);
                let p = choose|p: Seq<ModuleId>|
                    is_dep_path(self.answered@, self.roots@, p) && p.last() == x;
                lemma_closed_contains_path_end(self.answered@, self.roots@, self.visited@, p);
            }
        }
        self.visited
    }
}

/// A sorted set of identifiers that a table records cannot outgrow the
/// table.
proof fn lemma_visited_bounded(table: &DependencyTable, visited: Seq<ModuleId>)
    requires
        sorted_strict(visited),
        forall|x: ModuleId| visited.contains(x) ==> table.spec_has(x),
    ensures
        visited.len() <= table.entries@.len(),
{
    broadcast use vstd::seq_lib::seq_to_set_is_finite;

    let ids = table.entries@.map_values(|e: TableEntry| e.id);
    assert forall|x: ModuleId| visited.to_set().contains(x) implies ids.to_set().contains(x) by {
        assert(visited.contains(x));
        let i = choose|i: int|
            0 <= i < table.entries@.len() && (#[trigger] table.entries@[i]).id == x;
        assert(ids[i] == x);
        assert(ids.contains(x));
    }
    lemma_sorted_strict_no_duplicates(visited);
    visited.unique_seq_to_set();
    ids.lemma_cardinality_of_set();
    vstd::set_lib::lemma_len_subset(visited.to_set(), ids.to_set());
}

/// Computes the full transitive dependency closure of `roots` over a
/// complete dependency table, breadth-first with dequeue-time
/// deduplication.  The result is emitted in canonical identifier order,
/// not discovery order, and is exactly the set of identifiers reachable
/// from the roots, however many cycles, diamonds or duplicate edges the
/// graph holds.
pub fn resolve_all_dependencies(roots: &Vec<ModuleId>, table: &DependencyTable) -> (r: Vec<
    ModuleId,
>)
    requires
        table.wf(),
        table.spec_closed(),
        forall|k: int| 0 <= k < roots@.len() ==> table.spec_has(#[trigger] roots@[k]),
    ensures
        sorted_strict(r@),
        forall|x: ModuleId| r@.contains(x) <==> map_reachable(table.as_map(), roots@, x),
{
    let mut resolver = DependencyResolver::new(roots);
    proof {
        assert forall|x: ModuleId| resolver.queue_seq().contains(x) implies table.spec_has(x) by {
            let k = choose|k: int| 0 <= k < roots@.len() && roots@[k] == x;
            assert(table.spec_has(roots@[k]));
        }
        lemma_visited_bounded(table, resolver.visited_seq());
    }
    loop
        invariant
            table.wf(),
            table.spec_closed(),
            resolver.wf(),
            resolver.pending_id() is None,
            resolver.roots_seq() == roots@,
            forall|x: ModuleId| resolver.queue_seq().contains(x) ==> table.spec_has(x),
            forall|x: ModuleId| resolver.visited_seq().contains(x) ==> table.spec_has(x),
            forall|id: ModuleId|
                #[trigger] resolver.answered_map().dom().contains(id) ==> table.spec_has(id)
                    && resolver.answered_map()[id] == table.deps_of(id),
            resolver.visited_seq().len() <= table.entries@.len(),
        ensures
            resolver.wf(),
            resolver.pending_id() is None,
            resolver.queue_seq().len() == 0,
            resolver.roots_seq() == roots@,
            forall|id: ModuleId|
                #[trigger] resolver.answered_map().dom().contains(id) ==> table.spec_has(id)
                    && resolver.answered_map()[id] == table.deps_of(id),
        decreases table.entries@.len() - resolver.visited_seq().len(),
    {
        let ghost before = resolver;
        let next = resolver.next_unvisited();
        match next {
            None => {
                break ;
            },
            Some(id) => {
                proof {
                    assert(table.spec_has(id)) by {
                        assert(before.queue_seq().contains(id));
                    }
                }
                let deps = table.facade_dependencies(&id);
                match deps {
                    Some(d) => {
                        let ghost mid = resolver;
                        resolver.supply_dependencies(id, d);
                        proof {
                            assert forall|x: ModuleId|
                                resolver.queue_seq().contains(x) implies table.spec_has(x) by {
                                if !mid.queue_seq().contains(x) {
                                    assert(d@.contains(x));
                                    let k = choose|k: int| 0 <= k < d@.len() && d@[k] == x;
                                    let i = table.spec_index_of(id);
                                    assert(table.entries@[i].deps@[k] == x);
                                }
                            }
                            lemma_visited_bounded(table, resolver.visited_seq());
                        }
                    },
                    None => {
                        proof {
                            assert(false);
                        }
                    },
                }
            },
        }
    }
    let ghost fin = resolver;
    let result = resolver.into_sorted_dependencies();
    proof {
        let g = fin.answered_map();
        let gm = table.as_map();
        assert(map_extends(g, gm)) by {
            assert forall|id: ModuleId| g.dom().contains(id) implies gm.dom().contains(id)
                && gm[id] == g[id] by {
                assert(table.spec_has(id));
            }
        }
        assert forall|x: ModuleId| result@.contains(x) implies map_reachable(gm, roots@, x) by {
            lemma_reachable_in_agreeing_map(g, gm, roots@, x);
        }
        assert forall|x: ModuleId| map_reachable(gm, roots@, x) implies result@.contains(x) by {
            reveal(map_reachable);
            let p = choose|p: Seq<ModuleId>| is_dep_path(gm, roots@, p) && p.last() == x;
            assert forall|v: ModuleId, dd: ModuleId|
                result@.contains(v) && gm.dom().contains(v) && #[trigger] gm[v].contains(
                    dd,
                ) implies result@.contains(dd) by {
                assert(fin.visited_seq().contains(v));
                assert(fin.answered_map().dom().contains(v));
                assert(fin.answered_map()[v].contains(dd));
            }
            lemma_closed_contains_path_end(gm, roots@, result@, p);
        }
    }
    result
}

/// Resolving the same static graph twice yields identical sorted
/// identifier sequences: any two outputs that meet the resolution
/// contract are equal.
pub proof fn lemma_resolution_idempotent(
    table: DependencyTable,
    roots: Seq<ModuleId>,
    a: Seq<ModuleId>,
    b: Seq<ModuleId>,
)
    requires
        sorted_strict(a),
        sorted_strict(b),
        forall|x: ModuleId| a.contains(x) <==> map_reachable(table.as_map(), roots, x),
        forall|x: ModuleId| b.contains(x) <==> map_reachable(table.as_map(), roots, x),
    ensures
        a == b,
{
    lemma_sorted_same_elements_equal(a, b);
}

} // verus!
