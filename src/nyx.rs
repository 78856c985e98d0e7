use vstd::prelude::*;

verus! {

/// The part a fuzzing process plays among the processes that share one
/// virtual-machine snapshot.
#[derive(Debug, Clone, Copy, PartialEq, Eq, Structural)]
pub enum ProcessRole {
    /// The only process: it neither shares nor takes a snapshot.
    StandAlone,
    /// The process that creates the snapshot the others start from.
    Parent,
    /// A process that starts from the parent's snapshot.
    Child,
}

/// The role of the process on `cpu_id`, given the cpu of the parent, if there
/// is one: standalone without a parent, the parent where the two cpus are the
/// same, a child otherwise.
pub fn process_role(cpu_id: usize, parent_cpu_id: Option<usize>) -> (r: ProcessRole)
    ensures
        parent_cpu_id is None ==> r == ProcessRole::StandAlone,
        parent_cpu_id == Some(cpu_id) ==> r == ProcessRole::Parent,
        (parent_cpu_id matches Some(p) && p != cpu_id) ==> r == ProcessRole::Child,
{
    match parent_cpu_id {
        None => ProcessRole::StandAlone,
        Some(id) => {
            if id == cpu_id {
                ProcessRole::Parent
            } else {
                ProcessRole::Child
            }
        },
    }
}

} // verus!
