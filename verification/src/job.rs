//! The registry of live jobs: the names of all jobs that this process has
//! submitted and not yet seen end. It is the one piece of state that the
//! dispatch loop, the watchers and the shutdown path share; whoever holds it
//! serialises `add`, `remove` and a cleanup sweep.

use vstd::prelude::*;
use crate::k8s::{pod_is_gone, DeleteOutcome, DeleteOutcomeView};
use crate::manifest::clone_texts;
use crate::text::str_eq;

verus! {

/// Where a job stands between submission and its end.
#[derive(Clone, Copy, Debug, PartialEq, Eq, Structural)]
pub enum JobStatus {
    /// Submitted; no phase has been observed yet.
    Queued,
    /// The cluster reports the job as running.
    Running,
    /// Deletion was asked for while the job was queued or running.
    Stopping,
    /// The job was deleted on request.
    Stopped,
    /// The job ended in failure.
    Failed,
    /// The job ended in success.
    Done,
}

impl JobStatus {
    /// Whether no further transition follows this status.
    pub open spec fn terminal(self) -> bool {
        self == JobStatus::Done || self == JobStatus::Failed || self == JobStatus::Stopped
    }

    /// Whether no further transition follows this status.
    pub fn is_terminal(&self) -> (terminal: bool)
        ensures
            terminal == self.terminal(),
    {
        match self {
            JobStatus::Done | JobStatus::Failed | JobStatus::Stopped => true,
            _ => false,
        }
    }
}

/// The names of the live jobs, in the order in which they were added. No
/// name is held twice.
#[derive(Debug)]
pub struct JobMonitor {
    pod_names: Vec<String>,
}

impl DeepView for JobMonitor {
    type V = Seq<Seq<char>>;

    closed spec fn deep_view(&self) -> Seq<Seq<char>> {
        self.pod_names.deep_view()
    }
}

/// `names` without `name`.
pub open spec fn without(names: Seq<Seq<char>>, name: Seq<char>) -> Seq<Seq<char>> {
    if names.contains(name) {
        names.remove(names.index_of(name))
    } else {
        names
    }
}

/// `names` without each of `targets`.
pub open spec fn without_all(names: Seq<Seq<char>>, targets: Seq<Seq<char>>) -> Seq<Seq<char>>
    decreases targets.len(),
{
    if targets.len() == 0 {
        names
    } else {
        without(without_all(names, targets.drop_last()), targets.last())
    }
}

/// A sweep that deletes the pods of all registered jobs, as it is made when
/// the process shuts down. It holds the names that were registered when it
/// began, how many of them have been tried, and those whose deletion failed.
#[derive(Debug)]
pub struct CleanupSweep {
    targets: Vec<String>,
    attempted: usize,
    failed: Vec<String>,
}

/// What a `CleanupSweep` holds, as the contracts speak of it.
pub struct CleanupSweepView {
    pub targets: Seq<Seq<char>>,
    pub attempted: nat,
    pub failed: Seq<Seq<char>>,
}

impl DeepView for CleanupSweep {
    type V = CleanupSweepView;

    closed spec fn deep_view(&self) -> CleanupSweepView {
        CleanupSweepView {
            targets: self.targets.deep_view(),
            attempted: self.attempted as nat,
            failed: self.failed.deep_view(),
        }
    }
}

/// The name whose pod is deleted next, if any is left.
pub open spec fn next_of(s: CleanupSweepView) -> Option<Seq<char>> {
    if s.attempted < s.targets.len() {
        Some(s.targets[s.attempted as int])
    } else {
        None
    }
}

/// The sweep after the answer to the deletion of its next target. Whatever
/// the answer, the sweep moves on; a failure is noted.
pub open spec fn after_attempt(s: CleanupSweepView, outcome: DeleteOutcomeView) -> CleanupSweepView {
    if s.attempted < s.targets.len() {
        CleanupSweepView {
            attempted: s.attempted + 1,
            failed: if pod_is_gone(outcome) {
                s.failed
            } else {
                s.failed.push(s.targets[s.attempted as int])
            },
            ..s
        }
    } else {
        s
    }
}

/// The names that a sweep has tried so far.
pub open spec fn attempted_of(s: CleanupSweepView) -> Seq<Seq<char>> {
    if s.attempted <= s.targets.len() {
        s.targets.take(s.attempted as int)
    } else {
        s.targets
    }
}

impl CleanupSweep {
    /// The name whose pod is to be deleted next, or nothing when every name
    /// has been tried.
    pub fn next_target(&self) -> (target: Option<String>)
        ensures
            target.deep_view() == next_of(self.deep_view()),
    {
        if self.attempted < self.targets.len() {
            Some(self.targets[self.attempted].clone())
        } else {
            None
        }
    }

    /// Whether every name has been tried.
    pub fn is_complete(&self) -> (complete: bool)
        ensures
            complete == (next_of(self.deep_view()) is None),
    {
        self.attempted >= self.targets.len()
    }

    /// Takes the cluster's answer to the deletion of the next target.
    pub fn record(&mut self, outcome: DeleteOutcome)
        ensures
            final(self).deep_view() == after_attempt(old(self).deep_view(), outcome.deep_view()),
    {
        if self.attempted < self.targets.len() {
            let gone = match outcome {
                DeleteOutcome::Deleted => true,
                DeleteOutcome::ApiError { code, message } => code == crate::k8s::NOT_FOUND,
                DeleteOutcome::Failed { message } => false,
            };
            if !gone {
                let ghost before = self.failed.deep_view();
                self.failed.push(self.targets[self.attempted].clone());
                assert(self.failed.deep_view() =~= before.push(
                    self.targets[self.attempted as int]@,
                ));
            }
            self.attempted = self.attempted + 1;
        }
    }
}

/// Position of `name` in `names`, or the length of `names` if it is absent.
fn position(names: &Vec<String>, name: &str) -> (index: usize)
    ensures
        index <= names.len(),
        index < names.len() ==> names[index as int]@ == name@,
        forall|j: int| 0 <= j < index ==> names[j]@ != name@,
{
    let mut i: usize = 0;
    while i < names.len()
        invariant
            i <= names.len(),
            forall|j: int| 0 <= j < i ==> names[j]@ != name@,
        decreases names.len() - i,
    {
        if str_eq(names[i].as_str(), name) {
            return i;
        }
        i += 1;
    }
    i
}

impl JobMonitor {
    #[verifier::type_invariant]
    spec fn distinct(self) -> bool {
        self.pod_names.deep_view().no_duplicates()
    }

    /// An empty registry.
    pub fn new() -> (monitor: Self)
        ensures
            monitor.deep_view() == Seq::<Seq<char>>::empty(),
    {
        let monitor = JobMonitor { pod_names: Vec::new() };
        assert(monitor.pod_names.deep_view() =~= Seq::<Seq<char>>::empty());
        monitor
    }

    /// Number of live jobs.
    pub fn len(&self) -> (n: usize)
        ensures
            n == self.deep_view().len(),
            self.deep_view().no_duplicates(),
    {
        proof {
            use_type_invariant(self);
        }
        self.pod_names.len()
    }

    /// Whether `pod_name` is registered.
    pub fn contains(&self, pod_name: &str) -> (present: bool)
        ensures
            present == self.deep_view().contains(pod_name@),
    {
        let index = position(&self.pod_names, pod_name);
        proof {
            let names = self.pod_names.deep_view();
            if index < self.pod_names.len() {
                assert(names[index as int] == pod_name@);
            } else {
                assert forall|j: int| 0 <= j < names.len() implies names[j] != pod_name@ by {
                    assert(names[j] == self.pod_names[j]@);
                }
            }
        }
        index < self.pod_names.len()
    }

    /// The registered names, oldest first.
    pub fn names(&self) -> (names: Vec<String>)
        ensures
            names.deep_view() == self.deep_view(),
            names.deep_view().no_duplicates(),
    {
        proof {
            use_type_invariant(self);
        }
        clone_texts(&self.pod_names)
    }

    /// Registers `pod_name`. A name that is already registered is not added
    /// again; the result says whether the name was new, so that the caller
    /// can report the duplicate.
    pub fn add(&mut self, pod_name: String) -> (added: bool)
        ensures
            added == !old(self).deep_view().contains(pod_name@),
            added ==> final(self).deep_view() == old(self).deep_view().push(pod_name@),
            !added ==> final(self).deep_view() == old(self).deep_view(),
            final(self).deep_view().no_duplicates(),
    {
        proof {
            use_type_invariant(&*self);
        }
        if self.contains(pod_name.as_str()) {
            false
        } else {
            let ghost before = self.pod_names.deep_view();
            let mut names: Vec<String> = Vec::new();
            assert(names.deep_view() =~= Seq::<Seq<char>>::empty());
            core::mem::swap(&mut names, &mut self.pod_names);
            names.push(pod_name);
            proof {
                let after = names.deep_view();
                assert(after =~= before.push(pod_name@));
                assert forall|i: int, j: int|
                    0 <= i < after.len() && 0 <= j < after.len() && i != j implies after[i]
                    != after[j] by {
                    if i < before.len() && j < before.len() {
                        assert(before[i] != before[j]);
                    } else if i < before.len() {
                        assert(before.contains(before[i]));
                    } else {
                        assert(before.contains(before[j]));
                    }
                }
            }
            self.pod_names = names;
            true
        }
    }

    /// Takes `pod_name` out of the registry. A name that is not registered
    /// leaves the registry as it is: the watcher of a job and a cancellation
    /// may both come to remove it. The result says whether the name was there.
    pub fn remove(&mut self, pod_name: &str) -> (removed: bool)
        ensures
            removed == old(self).deep_view().contains(pod_name@),
            final(self).deep_view() == without(old(self).deep_view(), pod_name@),
            !final(self).deep_view().contains(pod_name@),
            final(self).deep_view().no_duplicates(),
            forall|other: Seq<char>|
                other != pod_name@ ==> (#[trigger] final(self).deep_view().contains(other)
                    == old(self).deep_view().contains(other)),
    {
        proof {
            use_type_invariant(&*self);
        }
        let ghost before = self.pod_names.deep_view();
        let index = position(&self.pod_names, pod_name);
        if index < self.pod_names.len() {
            let mut names: Vec<String> = Vec::new();
            assert(names.deep_view() =~= Seq::<Seq<char>>::empty());
            core::mem::swap(&mut names, &mut self.pod_names);
            let _ = names.remove(index);
            proof {
                let after = names.deep_view();
                let k = index as int;
                assert(before[k] == pod_name@);
                assert(before.contains(pod_name@));
                assert(before.index_of(pod_name@) == k);
                assert(after =~= before.remove(k));
                assert forall|j: int| 0 <= j < after.len() implies after[j] != pod_name@ by {
                    if j < k {
                        assert(after[j] == before[j]);
                    } else {
                        assert(after[j] == before[j + 1]);
                    }
                }
                assert forall|i: int, j: int|
                    0 <= i < after.len() && 0 <= j < after.len() && i != j implies after[i]
                    != after[j] by {
                    let bi = if i < k { i } else { i + 1 };
                    let bj = if j < k { j } else { j + 1 };
                    assert(after[i] == before[bi]);
                    assert(after[j] == before[bj]);
                }
                assert forall|other: Seq<char>| other != pod_name@ implies (
                #[trigger] after.contains(other) == before.contains(other)) by {
                    if before.contains(other) {
                        let b = choose|b: int| 0 <= b < before.len() && before[b] == other;
                        let a = if b < k { b } else { b - 1 };
                        assert(after[a] == other);
                    }
                    if after.contains(other) {
                        let a = choose|a: int| 0 <= a < after.len() && after[a] == other;
                        let b = if a < k { a } else { a + 1 };
                        assert(before[b] == other);
                    }
                }
            }
            self.pod_names = names;
            true
        } else {
            proof {
                assert forall|j: int| 0 <= j < before.len() implies before[j] != pod_name@ by {
                    assert(before[j] == self.pod_names[j]@);
                }
            }
            false
        }
    }

    /// Begins a cleanup sweep over the names that are registered now. The
    /// registry stays as it is until `cleanup` ends the sweep.
    pub fn start_cleanup(&self) -> (sweep: CleanupSweep)
        ensures
            sweep.deep_view() == (CleanupSweepView {
                targets: self.deep_view(),
                attempted: 0,
                failed: Seq::empty(),
            }),
    {
        let sweep = CleanupSweep {
            targets: clone_texts(&self.pod_names),
            attempted: 0,
            failed: Vec::new(),
        };
        assert(sweep.failed.deep_view() =~= Seq::<Seq<char>>::empty());
        sweep
    }

    /// Ends a cleanup sweep: every name that the sweep has tried leaves the
    /// registry, whether or not its pod could be deleted. Handed back are the
    /// names whose deletion failed, for the caller to report.
    pub fn cleanup(&mut self, sweep: CleanupSweep) -> (failed: Vec<String>)
        ensures
            final(self).deep_view() == without_all(
                old(self).deep_view(),
                attempted_of(sweep.deep_view()),
            ),
            failed.deep_view() == sweep.deep_view().failed,
            final(self).deep_view().no_duplicates(),
    {
        let ghost before = self.deep_view();
        let ghost tried = attempted_of(sweep.deep_view());
        let count = if sweep.attempted <= sweep.targets.len() {
            sweep.attempted
        } else {
            sweep.targets.len()
        };
        let mut i: usize = 0;
        assert(tried.take(0) =~= Seq::<Seq<char>>::empty());
        while i < count
            invariant
                i <= count,
                count == tried.len(),
                count <= sweep.targets.len(),
                tried == sweep.targets.deep_view().take(count as int),
                self.deep_view() == without_all(before, tried.take(i as int)),
            decreases count - i,
        {
            let _ = self.remove(sweep.targets[i].as_str());
            proof {
                let done = tried.take(i + 1);
                assert(done.drop_last() =~= tried.take(i as int));
                assert(done.last() == sweep.targets[i as int]@);
            }
            i += 1;
        }
        proof {
            assert(tried.take(count as int) =~= tried);
            use_type_invariant(&*self);
        }
        sweep.failed
    }
}

/// A sweep that has tried every registered name leaves the registry empty,
/// whichever deletions failed.
pub proof fn lemma_full_sweep_empties(names: Seq<Seq<char>>)
    requires
        names.no_duplicates(),
    ensures
        without_all(names, names) == Seq::<Seq<char>>::empty(),
{
    lemma_sweep_leaves_rest(names, names.len());
    assert(names.take(names.len() as int) =~= names);
    assert(names.skip(names.len() as int) =~= Seq::<Seq<char>>::empty());
}

/// A sweep that has tried the first `k` registered names leaves the others,
/// in their order.
pub proof fn lemma_sweep_leaves_rest(names: Seq<Seq<char>>, k: nat)
    requires
        names.no_duplicates(),
        k <= names.len(),
    ensures
        without_all(names, names.take(k as int)) == names.skip(k as int),
    decreases k,
{
    if k == 0 {
        assert(names.take(0) =~= Seq::<Seq<char>>::empty());
        assert(names.skip(0) =~= names);
    } else {
        let j = (k - 1) as nat;
        lemma_sweep_leaves_rest(names, j);
        let tried = names.take(k as int);
        assert(tried.drop_last() =~= names.take(j as int));
        assert(tried.last() == names[j as int]);
        let rest = names.skip(j as int);
        assert(rest[0] == names[j as int]);
        assert(rest.contains(names[j as int]));
        let at = rest.index_of(names[j as int]);
        assert(rest[at] == names[j + at]);
        assert(at == 0);
        assert(rest.remove(0) =~= names.skip(k as int));
    }
}

/// A failed deletion does not hold a sweep up: whatever the cluster
/// answers, the sweep goes on to the next name.
pub proof fn lemma_sweep_moves_on(s: CleanupSweepView, outcome: DeleteOutcomeView)
    requires
        s.attempted < s.targets.len(),
    ensures
        after_attempt(s, outcome).attempted == s.attempted + 1,
        after_attempt(s, outcome).targets == s.targets,
        attempted_of(after_attempt(s, outcome)) == attempted_of(s).push(s.targets[s.attempted as int]),
        after_attempt(s, outcome).failed == if pod_is_gone(outcome) {
            s.failed
        } else {
            s.failed.push(s.targets[s.attempted as int])
        },
{
    assert(attempted_of(after_attempt(s, outcome)) =~= attempted_of(s).push(
        s.targets[s.attempted as int],
    ));
}

/// A fresh sweep over `names`.
pub open spec fn fresh_sweep(names: Seq<Seq<char>>) -> CleanupSweepView {
    CleanupSweepView { targets: names, attempted: 0, failed: Seq::empty() }
}

/// The sweep after the answers `outcomes`, taken one after the other.
pub open spec fn sweep_over(s: CleanupSweepView, outcomes: Seq<DeleteOutcomeView>) -> CleanupSweepView
    decreases outcomes.len(),
{
    if outcomes.len() == 0 {
        s
    } else {
        after_attempt(sweep_over(s, outcomes.drop_last()), outcomes.last())
    }
}

/// Those of the first names whose deletion failed, going by the answers in
/// the order of the names.
pub open spec fn failures(names: Seq<Seq<char>>, outcomes: Seq<DeleteOutcomeView>) -> Seq<Seq<char>>
    decreases outcomes.len(),
{
    if outcomes.len() == 0 || outcomes.len() > names.len() {
        Seq::empty()
    } else if pod_is_gone(outcomes.last()) {
        failures(names, outcomes.drop_last())
    } else {
        failures(names, outcomes.drop_last()).push(names[outcomes.len() - 1])
    }
}

/// A sweep tries one name for each answer, in the order of the names, and
/// notes exactly the failures.
pub proof fn lemma_sweep_over(names: Seq<Seq<char>>, outcomes: Seq<DeleteOutcomeView>)
    requires
        outcomes.len() <= names.len(),
    ensures
        sweep_over(fresh_sweep(names), outcomes).targets == names,
        sweep_over(fresh_sweep(names), outcomes).attempted == outcomes.len(),
        sweep_over(fresh_sweep(names), outcomes).failed == failures(names, outcomes),
        attempted_of(sweep_over(fresh_sweep(names), outcomes)) == names.take(outcomes.len() as int),
    decreases outcomes.len(),
{
    if outcomes.len() > 0 {
        lemma_sweep_over(names, outcomes.drop_last());
    }
}

/// Cleanup empties the registry. With one answer for each registered name,
/// every name is tried, whichever deletions fail; the registry is empty
/// once the sweep is ended; and the names handed back are those whose
/// deletion failed.
pub proof fn lemma_cleanup_empties_registry(names: Seq<Seq<char>>, outcomes: Seq<DeleteOutcomeView>)
    requires
        names.no_duplicates(),
        outcomes.len() == names.len(),
    ensures
        next_of(sweep_over(fresh_sweep(names), outcomes)) is None,
        attempted_of(sweep_over(fresh_sweep(names), outcomes)) == names,
        without_all(names, attempted_of(sweep_over(fresh_sweep(names), outcomes))) == Seq::<
            Seq<char>,
        >::empty(),
        sweep_over(fresh_sweep(names), outcomes).failed == failures(names, outcomes),
{
    lemma_sweep_over(names, outcomes);
    assert(names.take(names.len() as int) =~= names);
    lemma_full_sweep_empties(names);
}

/// Removing undoes adding, and removing again changes nothing: a name that
/// was added last and is removed leaves the registry as it was, and a name
/// that is absent can be removed any number of times.
pub proof fn lemma_remove_after_add(names: Seq<Seq<char>>, name: Seq<char>)
    requires
        names.no_duplicates(),
        !names.contains(name),
    ensures
        without(names.push(name), name) == names,
        without(names, name) == names,
        without(without(names.push(name), name), name) == names,
{
    let added = names.push(name);
    assert(added[names.len() as int] == name);
    assert(added.contains(name));
    let at = added.index_of(name);
    if at < names.len() {
        assert(names[at] == name);
        assert(names.contains(name));
    }
    assert(added.remove(names.len() as int) =~= names);
}

} // verus!
