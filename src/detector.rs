//! The process presence detector: whether any running process's name
//! contains one of the target names, compared without regard to case.
use vstd::prelude::*;
use crate::text::{contains_seq, contains_str};

verus! {

#[verifier::external_type_specification]
#[verifier::external_body]
pub struct ExSystem(sysinfo::System);

/// The case-folded (lowercase) form of a string.
pub uninterp spec fn lower_of(s: Seq<char>) -> Seq<char>;

/// Relies on `str::to_lowercase`: the result depends on the characters
/// alone, and the empty string stays empty.
#[verifier::external_body]
pub(crate) fn lowercase(s: &str) -> (r: String)
    ensures
        r@ == lower_of(s@),
        s@.len() == 0 ==> r@.len() == 0,
{
    s.to_lowercase()
}

/// Relies on sysinfo's `System::new_all`: a process table snapshot.
#[verifier::external_body]
fn new_system() -> (r: sysinfo::System) {
    sysinfo::System::new_all()
}

/// Relies on sysinfo's `System::refresh_processes`: the snapshot is read
/// again from the operating system.
#[verifier::external_body]
fn refresh_processes(system: &mut sysinfo::System) {
    system.refresh_processes()
}

/// Relies on sysinfo's `System::processes`: each process in the snapshot,
/// as its id and name, in the snapshot's own order.
#[verifier::external_body]
fn process_list(system: &sysinfo::System) -> (r: Vec<(u32, String)>) {
    system.processes().iter().map(|(pid, p)| (pid.as_u32(), p.name().to_string())).collect()
}

/// A folded name contains one of the folded targets.
pub open spec fn folded_match(folded: Seq<char>, folded_targets: Seq<String>) -> bool {
    exists|j: int| 0 <= j < folded_targets.len() && contains_seq(folded, #[trigger] folded_targets[j]@)
}

/// A process name contains one of the targets, both folded to lowercase.
pub open spec fn target_match(name: Seq<char>, targets: Seq<String>) -> bool {
    exists|j: int| 0 <= j < targets.len() && contains_seq(lower_of(name), lower_of(#[trigger] targets[j]@))
}

/// The index of the first folded name that contains a folded target.
pub fn first_match_folded(folded_names: &Vec<String>, folded_targets: &Vec<String>) -> (r: Option<usize>)
    ensures
        r is None <==> forall|i: int| 0 <= i < folded_names@.len() ==> !folded_match(#[trigger] folded_names@[i]@, folded_targets@),
        r matches Some(i) ==> i < folded_names@.len() && folded_match(folded_names@[i as int]@, folded_targets@)
            && forall|k: int| 0 <= k < i ==> !folded_match(#[trigger] folded_names@[k]@, folded_targets@),
{
    let mut i: usize = 0;
    while i < folded_names.len()
        invariant
            i <= folded_names@.len(),
            forall|k: int| 0 <= k < i ==> !folded_match(#[trigger] folded_names@[k]@, folded_targets@),
        decreases folded_names@.len() - i,
    {
        let mut j: usize = 0;
        while j < folded_targets.len()
            invariant
                i < folded_names@.len(),
                j <= folded_targets@.len(),
                forall|k: int| 0 <= k < i ==> !folded_match(#[trigger] folded_names@[k]@, folded_targets@),
                forall|m: int| 0 <= m < j ==> !contains_seq(folded_names@[i as int]@, #[trigger] folded_targets@[m]@),
            decreases folded_targets@.len() - j,
        {
            if contains_str(folded_names[i].as_str(), folded_targets[j].as_str()) {
                assert(contains_seq(folded_names@[i as int]@, folded_targets@[j as int]@));
                return Some(i);
            }
            j = j + 1;
        }
        i = i + 1;
    }
    None
}

/// Each string folded to lowercase.
fn lowercase_all(v: &Vec<String>) -> (r: Vec<String>)
    ensures
        r@.len() == v@.len(),
        forall|k: int| 0 <= k < v@.len() ==> #[trigger] r@[k]@ == lower_of(v@[k]@),
{
    let mut r: Vec<String> = Vec::new();
    let mut i: usize = 0;
    while i < v.len()
        invariant
            i <= v@.len(),
            r@.len() == i,
            forall|k: int| 0 <= k < i ==> #[trigger] r@[k]@ == lower_of(v@[k]@),
        decreases v@.len() - i,
    {
        r.push(lowercase(v[i].as_str()));
        i = i + 1;
    }
    r
}

/// The first name in `process_names` that contains one of `targets`,
/// compared without regard to case, returned as it was written.
pub fn find_target(process_names: &Vec<String>, targets: &Vec<String>) -> (r: Option<String>)
    ensures
        r is None <==> forall|i: int| 0 <= i < process_names@.len() ==> !target_match(#[trigger] process_names@[i]@, targets@),
        r matches Some(n) ==> exists|i: int| 0 <= i < process_names@.len() && n@ == #[trigger] process_names@[i]@
            && target_match(process_names@[i]@, targets@)
            && forall|k: int| 0 <= k < i ==> !target_match(#[trigger] process_names@[k]@, targets@),
{
    let folded_names = lowercase_all(process_names);
    let folded_targets = lowercase_all(targets);
    assert forall|i: int| 0 <= i < process_names@.len() implies
        folded_match(#[trigger] folded_names@[i]@, folded_targets@) == target_match(process_names@[i]@, targets@) by {
        if folded_match(folded_names@[i]@, folded_targets@) {
            let j = choose|j: int| 0 <= j < folded_targets@.len() && contains_seq(folded_names@[i]@, #[trigger] folded_targets@[j]@);
            assert(contains_seq(lower_of(process_names@[i]@), lower_of(targets@[j]@)));
        }
        if target_match(process_names@[i]@, targets@) {
            let j = choose|j: int| 0 <= j < targets@.len() && contains_seq(lower_of(process_names@[i]@), lower_of(#[trigger] targets@[j]@));
            assert(contains_seq(folded_names@[i]@, folded_targets@[j]@));
        }
    };
    match first_match_folded(&folded_names, &folded_targets) {
        Some(i) => {
            let n = process_names[i].clone();
            assert(folded_match(folded_names@[i as int]@, folded_targets@));
            assert(target_match(process_names@[i as int]@, targets@));
            assert forall|k: int| 0 <= k < i implies !target_match(#[trigger] process_names@[k]@, targets@) by {
                assert(!folded_match(folded_names@[k]@, folded_targets@));
            };
            Some(n)
        },
        None => {
            assert forall|i: int| 0 <= i < process_names@.len() implies !target_match(#[trigger] process_names@[i]@, targets@) by {
                assert(!folded_match(folded_names@[i]@, folded_targets@));
            };
            None
        },
    }
}

/// The id of the first process whose name contains `name`, compared
/// without regard to case.
pub fn find_pid(processes: &Vec<(u32, String)>, name: &str) -> (r: Option<u32>)
    ensures
        r is None <==> forall|i: int| 0 <= i < processes@.len() ==> !contains_seq(lower_of(#[trigger] processes@[i].1@), lower_of(name@)),
        r matches Some(p) ==> exists|i: int| 0 <= i < processes@.len() && p == #[trigger] processes@[i].0
            && contains_seq(lower_of(processes@[i].1@), lower_of(name@))
            && forall|k: int| 0 <= k < i ==> !contains_seq(lower_of(#[trigger] processes@[k].1@), lower_of(name@)),
{
    let needle = lowercase(name);
    let mut i: usize = 0;
    while i < processes.len()
        invariant
            i <= processes@.len(),
            needle@ == lower_of(name@),
            forall|k: int| 0 <= k < i ==> !contains_seq(lower_of(#[trigger] processes@[k].1@), lower_of(name@)),
        decreases processes@.len() - i,
    {
        let folded = lowercase(processes[i].1.as_str());
        if contains_str(folded.as_str(), needle.as_str()) {
            return Some(processes[i].0);
        }
        i = i + 1;
    }
    None
}

/// Watches the process table for any process whose name contains one of
/// the target names.
pub struct ProcessMonitor {
    system: sysinfo::System,
    target_processes: Vec<String>,
}

impl ProcessMonitor {
    /// The target names.
    pub closed spec fn targets(&self) -> Seq<String> {
        self.target_processes@
    }

    /// A monitor for `target_processes`, with a fresh process table
    /// snapshot.
    pub fn new(target_processes: Vec<String>) -> (r: ProcessMonitor)
        ensures
            r.targets() == target_processes@,
    {
        ProcessMonitor { system: new_system(), target_processes }
    }

    /// Reads the process table again and returns the name of a process
    /// whose name contains one of the targets, compared without regard to
    /// case.
    pub fn is_target_running(&mut self) -> (r: Option<String>)
        ensures
            final(self).targets() == old(self).targets(),
            r matches Some(n) ==> target_match(n@, old(self).targets()),
    {
        refresh_processes(&mut self.system);
        let list = process_list(&self.system);
        let mut names: Vec<String> = Vec::new();
        let mut i: usize = 0;
        while i < list.len()
            invariant
                i <= list@.len(),
                names@.len() == i,
                forall|k: int| 0 <= k < i ==> #[trigger] names@[k]@ == list@[k].1@,
            decreases list@.len() - i,
        {
            names.push(list[i].1.clone());
            i = i + 1;
        }
        find_target(&names, &self.target_processes)
    }

    /// Reads the process table again and returns the id of a process whose
    /// name contains `process_name`, compared without regard to case.
    pub fn find_process_pid(&mut self, process_name: &str) -> (r: Option<u32>)
        ensures
            final(self).targets() == old(self).targets(),
    {
        refresh_processes(&mut self.system);
        let list = process_list(&self.system);
        find_pid(&list, process_name)
    }
}

} // verus!
