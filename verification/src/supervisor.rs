//! Process bookkeeping: how kill outcomes are classified, and which OS
//! processes a sweep by name targets.

use vstd::prelude::*;

verus! {

/// One running OS process, as the enumeration reports it: its id and its
/// executable name.
pub struct ProcessInfo {
    pub pid: u64,
    pub name: String,
}

/// The outcome of a forced kill on one tracked handle.
#[derive(Clone, Copy, PartialEq, Eq, Structural, Debug)]
pub enum KillOutcome {
    /// The termination signal was delivered.
    Killed,
    /// The process had already exited on its own; a non-fatal no-op.
    AlreadyExited,
    /// The signal could not be delivered.
    Failed,
}

impl KillOutcome {
    /// Whether this outcome counts as a kill failure. A process that had
    /// already exited is a no-op outcome, not a failure.
    pub open spec fn spec_is_failure(self) -> bool {
        self is Failed
    }

    /// Executable test for `spec_is_failure`.
    pub fn is_failure(self) -> (r: bool)
        ensures
            r == self.spec_is_failure(),
    {
        match self {
            KillOutcome::Failed => true,
            _ => false,
        }
    }
}

/// The process ids a sweep by `name` targets: every enumerated process whose
/// name matches exactly, in enumeration order — whether or not this run
/// spawned it.
pub open spec fn spec_sweep_targets(procs: Seq<ProcessInfo>, name: Seq<char>) -> Seq<u64>
    decreases procs.len(),
{
    if procs.len() == 0 {
        Seq::empty()
    } else {
        let rest = spec_sweep_targets(procs.drop_first(), name);
        if procs[0].name@ == name {
            seq![procs[0].pid] + rest
        } else {
            rest
        }
    }
}

proof fn lemma_sweep_targets_push(procs: Seq<ProcessInfo>, p: ProcessInfo, name: Seq<char>)
    ensures
        spec_sweep_targets(procs.push(p), name) == if p.name@ == name {
            spec_sweep_targets(procs, name).push(p.pid)
        } else {
            spec_sweep_targets(procs, name)
        },
    decreases procs.len(),
{
    if procs.len() == 0 {
        assert(procs.push(p)[0] == p);
        assert(procs.push(p).drop_first() =~= procs);
        if p.name@ == name {
            assert(spec_sweep_targets(procs.push(p), name) =~= spec_sweep_targets(
                procs,
                name,
            ).push(p.pid));
        }
    } else {
        assert(procs.push(p)[0] == procs[0]);
        assert(procs.push(p).drop_first() =~= procs.drop_first().push(p));
        lemma_sweep_targets_push(procs.drop_first(), p, name);
        if p.name@ == name {
            assert(spec_sweep_targets(procs.push(p), name) =~= spec_sweep_targets(
                procs,
                name,
            ).push(p.pid));
        }
    }
}

/// Selects the targets of a sweep by `name` from the enumerated processes.
pub fn sweep_targets(procs: &Vec<ProcessInfo>, name: &String) -> (r: Vec<u64>)
    ensures
        r@ == spec_sweep_targets(procs@, name@),
{
    let mut out: Vec<u64> = Vec::new();
    let mut i: usize = 0;
    while i < procs.len()
        invariant
            i <= procs@.len(),
            out@ == spec_sweep_targets(procs@.subrange(0, i as int), name@),
        decreases procs@.len() - i,
    {
        proof {
            lemma_sweep_targets_push(procs@.subrange(0, i as int), procs@[i as int], name@);
            assert(procs@.subrange(0, i as int).push(procs@[i as int]) =~= procs@.subrange(
                0,
                i + 1 as int,
            ));
        }
        if procs[i].name == *name {
            let pid = procs[i].pid;
            out.push(pid);
        }
        i += 1;
    }
    proof {
        assert(procs@.subrange(0, procs@.len() as int) =~= procs@);
    }
    out
}

/// A copy of a vector of process ids.
pub fn clone_pid_vec(v: &Vec<u64>) -> (r: Vec<u64>)
    ensures
        r@ == v@,
{
    let mut out: Vec<u64> = Vec::new();
    let mut i: usize = 0;
    while i < v.len()
        invariant
            i <= v@.len(),
            out@ == v@.subrange(0, i as int),
        decreases v@.len() - i,
    {
        let pid = v[i];
        out.push(pid);
        proof {
            assert(out@ =~= v@.subrange(0, i + 1 as int));
        }
        i += 1;
    }
    proof {
        assert(v@.subrange(0, v@.len() as int) =~= v@);
    }
    out
}

/// A sweep finds nothing to kill whenever no process with the target name
/// remains.
pub proof fn lemma_sweep_of_cleared_name_is_empty(procs: Seq<ProcessInfo>, name: Seq<char>)
    requires
        forall|i: int| 0 <= i < procs.len() ==> procs[i].name@ != name,
    ensures
        spec_sweep_targets(procs, name) == Seq::<u64>::empty(),
    decreases procs.len(),
{
    if procs.len() > 0 {
        assert(procs[0].name@ != name);
        lemma_sweep_of_cleared_name_is_empty(procs.drop_first(), name);
    }
}

/// Sweeping by name is idempotent once the matching processes are gone: two
/// sweeps in a row, each over an enumeration with no process of the target
/// name left, both target nothing — and so both report an empty failure
/// list.
pub proof fn lemma_sweep_idempotent_when_cleared(
    first: Seq<ProcessInfo>,
    second: Seq<ProcessInfo>,
    name: Seq<char>,
)
    requires
        forall|i: int| 0 <= i < first.len() ==> first[i].name@ != name,
        forall|i: int| 0 <= i < second.len() ==> second[i].name@ != name,
    ensures
        spec_sweep_targets(first, name) == Seq::<u64>::empty(),
        spec_sweep_targets(second, name) == Seq::<u64>::empty(),
{
    lemma_sweep_of_cleared_name_is_empty(first, name);
    lemma_sweep_of_cleared_name_is_empty(second, name);
}

} // verus!
