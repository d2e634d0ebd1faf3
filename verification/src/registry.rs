//! The resolution manifest a pull produces, aggregated with tolerance
//! for partial failure.
//!
//! Fetching one module's artifact failing must not prevent fetching the
//! others: every identifier is attempted, successes are inserted into the
//! registry, failures are recorded, and the overall operation reports
//! failure if any identifier failed, even though the successful entries
//! remain.  This deliberately differs from dependency discovery, which
//! fails fast.
use vstd::prelude::*;
use crate::ModuleId;
use crate::errors::PullError;
use crate::manifest::ResolvedModule;

verus! {

/// One identifier's cache record in the registry.
pub struct RegistryEntry {
    pub id: ModuleId,
    pub module: ResolvedModule,
}

/// The mapping from identifier to cache record: the final output
/// artifact of a pull, rebuilt fresh on every invocation.
pub struct Registry {
    pub entries: Vec<RegistryEntry>,
}

impl Registry {
    /// Whether the registry holds a record for `id`.
    pub open spec fn spec_has(self, id: ModuleId) -> bool {
        exists|i: int| 0 <= i < self.entries@.len() && (#[trigger] self.entries@[i]).id == id
    }

    /// The record for `id`, if any.
    pub fn get<'a>(&'a self, id: &ModuleId) -> (r: Option<&'a ResolvedModule>)
        ensures
            match r {
                Some(m) => exists|i: int|
                    0 <= i < self.entries@.len() && (#[trigger] self.entries@[i]).id == *id
                        && self.entries@[i].module == *m,
                None => !self.spec_has(*id),
            },
    {
        let mut k: usize = 0;
        while k < self.entries.len()
            invariant
                0 <= k <= self.entries@.len(),
                forall|j: int| 0 <= j < k ==> (#[trigger] self.entries@[j]).id != *id,
            decreases self.entries@.len() - k,
        {
            if self.entries[k].id.value == id.value {
                proof {
                    assert(self.entries@[k as int].id == *id);
                }
                return Some(&self.entries[k].module);
            }
            k = k + 1;
        }
        None
    }
}

/// A fixed cache record substituted for specific identifiers instead of
/// a download: the artifact half of the injectable facade, consulted
/// before the network path.
pub struct FacadeArtifact {
    pub id: ModuleId,
    pub module: ResolvedModule,
}

/// The injectable lookup table of identifier to fixed artifact record.
pub struct ArtifactFacade {
    pub entries: Vec<FacadeArtifact>,
}

impl ArtifactFacade {
    /// Whether the facade holds a fixed record for `id`.
    pub open spec fn spec_has(self, id: ModuleId) -> bool {
        exists|i: int| 0 <= i < self.entries@.len() && (#[trigger] self.entries@[i]).id == id
    }

    pub fn new() -> (r: ArtifactFacade)
        ensures
            r.entries@.len() == 0,
    {
        ArtifactFacade { entries: Vec::new() }
    }

    /// Records a fixed artifact for `id`.
    pub fn record(&mut self, id: ModuleId, module: ResolvedModule)
        ensures
            final(self).entries@ == old(self).entries@.push(FacadeArtifact { id, module }),
    {
        self.entries.push(FacadeArtifact { id, module });
    }

    /// The facade lookup: the first fixed record for `id`, bypassing the
    /// download, or `None` where the facade does not cover `id`.
    pub fn facade_download<'a>(&'a self, id: &ModuleId) -> (r: Option<&'a ResolvedModule>)
        ensures
            match r {
                Some(m) => exists|i: int|
                    0 <= i < self.entries@.len() && (#[trigger] self.entries@[i]).id == *id
                        && self.entries@[i].module == *m,
                None => !self.spec_has(*id),
            },
    {
        let mut k: usize = 0;
        while k < self.entries.len()
            invariant
                0 <= k <= self.entries@.len(),
                forall|j: int| 0 <= j < k ==> (#[trigger] self.entries@[j]).id != *id,
            decreases self.entries@.len() - k,
        {
            if self.entries[k].id.value == id.value {
                proof {
                    assert(self.entries@[k as int].id == *id);
                }
                return Some(&self.entries[k].module);
            }
            k = k + 1;
        }
        None
    }
}

/// One identifier's outcome when the cache was asked to ensure it.
pub struct PullAttempt {
    pub id: ModuleId,
    pub outcome: Result<ResolvedModule, PullError>,
}

/// What a whole pull produced: the registry of successes and the
/// identifiers that failed.
pub struct PullOutcome {
    pub registry: Registry,
    pub failed: Vec<ModuleId>,
}

impl PullOutcome {
    /// Whether the overall operation succeeded: it did exactly when no
    /// identifier failed.
    pub fn succeeded(&self) -> (r: bool)
        ensures
            r == (self.failed@.len() == 0),
    {
        self.failed.len() == 0
    }
}

/// The registry entries and failed identifiers that a sequence of
/// per-identifier outcomes aggregates to, in order.
pub open spec fn spec_aggregate(attempts: Seq<PullAttempt>) -> (Seq<RegistryEntry>, Seq<
    ModuleId,
>)
    decreases attempts.len(),
{
    if attempts.len() == 0 {
        (Seq::empty(), Seq::empty())
    } else {
        let (es, fs) = spec_aggregate(attempts.drop_last());
        let a = attempts.last();
        match a.outcome {
            Ok(m) => (es.push(RegistryEntry { id: a.id, module: m }), fs),
            Err(_) => (es, fs.push(a.id)),
        }
    }
}

/// Aggregates every identifier's outcome into the registry, recording
/// failures without aborting the remaining entries.
pub fn download_all_and_generate_pulled_json(attempts: Vec<PullAttempt>) -> (r: PullOutcome)
    ensures
        r.registry.entries@ == spec_aggregate(attempts@).0,
        r.failed@ == spec_aggregate(attempts@).1,
{
    let ghost all = attempts@;
    let mut entries: Vec<RegistryEntry> = Vec::new();
    let mut failed: Vec<ModuleId> = Vec::new();
    let mut k: usize = 0;
    let total = attempts.len();
    let mut rest = attempts;
    proof {
        assert(all.subrange(0, 0) =~= Seq::<PullAttempt>::empty());
    }
    while k < total
        invariant
            0 <= k <= all.len(),
            total == all.len(),
            rest@ == all.subrange(k as int, all.len() as int),
            entries@ == spec_aggregate(all.subrange(0, k as int)).0,
            failed@ == spec_aggregate(all.subrange(0, k as int)).1,
        decreases all.len() - k,
    {
        let attempt = rest.remove(0);
        proof {
            assert(attempt == all[k as int]);
            assert(rest@ =~= all.subrange(k + 1, all.len() as int));
            let upto = all.subrange(0, k + 1);
            assert(upto.drop_last() =~= all.subrange(0, k as int));
            assert(upto.last() == all[k as int]);
        }
        match attempt.outcome {
            Ok(module) => {
                entries.push(RegistryEntry { id: attempt.id, module });
            },
            Err(_) => {
                failed.push(attempt.id);
            },
        }
        k = k + 1;
    }
    proof {
        assert(all.subrange(0, all.len() as int) =~= all);
    }
    PullOutcome { registry: Registry { entries }, failed }
}

/// Partial failure, counted: every attempt lands in exactly one of the
/// registry and the failure list.
pub proof fn lemma_aggregate_counts(attempts: Seq<PullAttempt>)
    ensures
        spec_aggregate(attempts).0.len() + spec_aggregate(attempts).1.len() == attempts.len(),
    decreases attempts.len(),
{
    if attempts.len() > 0 {
        lemma_aggregate_counts(attempts.drop_last());
    }
}

/// The overall operation is reported as failed exactly when some
/// identifier failed, even though the successful entries remain in the
/// registry.
pub proof fn lemma_aggregate_success_iff_no_failure(attempts: Seq<PullAttempt>)
    ensures
        spec_aggregate(attempts).1.len() == 0 <==> (forall|k: int|
            0 <= k < attempts.len() ==> (#[trigger] attempts[k]).outcome is Ok),
    decreases attempts.len(),
{
    if attempts.len() > 0 {
        lemma_aggregate_success_iff_no_failure(attempts.drop_last());
        assert forall|k: int|
            0 <= k < attempts.drop_last().len() implies attempts.drop_last()[k] == attempts[k] by {}
        if spec_aggregate(attempts).1.len() == 0 {
            assert forall|k: int| 0 <= k < attempts.len() implies (#[trigger] attempts[k]).outcome
                is Ok by {
                if k < attempts.len() - 1 {
                    assert(attempts.drop_last()[k].outcome is Ok);
                }
            }
        }
    }
}

/// Every successful attempt's record stands in the registry, and every
/// failed attempt's identifier stands in the failure list.
pub proof fn lemma_aggregate_complete(attempts: Seq<PullAttempt>, k: int)
    requires
        0 <= k < attempts.len(),
    ensures
        attempts[k].outcome matches Ok(m) ==> spec_aggregate(attempts).0.contains(
            RegistryEntry { id: attempts[k].id, module: m },
        ),
        attempts[k].outcome is Err ==> spec_aggregate(attempts).1.contains(attempts[k].id),
    decreases attempts.len(),
{
    let (es, fs) = spec_aggregate(attempts.drop_last());
    if k == attempts.len() - 1 {
        match attempts[k].outcome {
            Ok(m) => {
                let e = RegistryEntry { id: attempts[k].id, module: m };
                assert(spec_aggregate(attempts).0.last() == e);
            },
            Err(_) => {
                assert(spec_aggregate(attempts).1.last() == attempts[k].id);
            },
        }
    } else {
        lemma_aggregate_complete(attempts.drop_last(), k);
        assert(attempts.drop_last()[k] == attempts[k]);
        match attempts[k].outcome {
            Ok(m) => {
                let e = RegistryEntry { id: attempts[k].id, module: m };
                assert(es.contains(e));
                let j = choose|j: int| 0 <= j < es.len() && es[j] == e;
                match attempts.last().outcome {
                    Ok(m2) => {
                        assert(spec_aggregate(attempts).0[j] == e);
                    },
                    Err(_) => {
                        assert(spec_aggregate(attempts).0[j] == e);
                    },
                }
            },
            Err(_) => {
                assert(fs.contains(attempts[k].id));
                let j = choose|j: int| 0 <= j < fs.len() && fs[j] == attempts[k].id;
                assert(spec_aggregate(attempts).1[j] == attempts[k].id);
            },
        }
    }
}

} // verus!
