//! Resolving the target process from a pid or a name.
//!
//! A collaborator enumerates the live processes and hands the locator a
//! snapshot: one entry per live process, in enumeration order. Resolution is
//! pure logic over that snapshot: a pid query succeeds exactly when the pid
//! is in the snapshot; a name query returns the pid of the first entry whose
//! name matches exactly; supplying both or neither criterion is a
//! configuration error, answered before any resolution or injection attempt.

use vstd::prelude::*;
use crate::config::ConfigProcess;
use crate::errors::Error;

verus! {

/// One live process as enumerated: its pid and its exact name.
#[derive(Debug)]
pub struct ProcessEntry {
    pub pid: u32,
    pub name: String,
}

/// Some entry of the snapshot carries this pid.
pub open spec fn spec_has_pid(procs: Seq<ProcessEntry>, pid: u32) -> bool {
    exists|i: int| #![trigger procs[i]] 0 <= i < procs.len() && procs[i].pid == pid
}

/// Entry `i` is the first whose name matches `name` exactly.
pub open spec fn spec_is_first_match(procs: Seq<ProcessEntry>, name: Seq<char>, i: int) -> bool {
    &&& 0 <= i < procs.len()
    &&& procs[i].name@ == name
    &&& forall|j: int| #![trigger procs[j]] 0 <= j < i ==> procs[j].name@ != name
}

/// What resolution must answer for a given query over a given snapshot.
pub open spec fn spec_resolution(
    query: ConfigProcess,
    procs: Seq<ProcessEntry>,
    r: Result<u32, Error>,
) -> bool {
    if query.pid is Some && query.name is None {
        if spec_has_pid(procs, query.pid->0) {
            r == Ok::<u32, Error>(query.pid->0)
        } else {
            r == Err::<u32, Error>(Error::ProcessNotFound)
        }
    } else if query.pid is None && query.name is Some {
        match r {
            Ok(pid) => exists|i: int|
                #[trigger] spec_is_first_match(procs, query.name->0@, i) && procs[i].pid == pid,
            Err(e) => e == Error::ProcessNotFound && (forall|i: int|
                #![trigger procs[i]]
                0 <= i < procs.len() ==> procs[i].name@ != query.name->0@),
        }
    } else {
        r == Err::<u32, Error>(Error::ConfigError)
    }
}

/// Resolve the target process from exactly one of {pid, name}.
///
/// A pid query succeeds if and only if the snapshot holds that pid; a name
/// query returns the pid of the first exactly-matching entry and fails with
/// `ProcessNotFound` if and only if no entry matches; both or neither
/// criterion given answers `ConfigError` without looking at the snapshot.
pub fn get_process(query: &ConfigProcess, processes: &Vec<ProcessEntry>) -> (r: Result<u32, Error>)
    ensures
        spec_resolution(*query, processes@, r),
{
    match query.pid {
        Some(pid) => match &query.name {
            Some(_) => Err(Error::ConfigError),
            None => {
            let mut i: usize = 0;
            while i < processes.len()
                invariant
                    query.pid == Some(pid),
                    query.name is None,
                    i <= processes@.len(),
                    forall|j: int| #![trigger processes@[j]] 0 <= j < i ==> processes@[j].pid
                        != pid,
                decreases processes@.len() - i,
            {
                if processes[i].pid == pid {
                    proof {
                        assert(0 <= i < processes@.len() && processes@[i as int].pid == pid);
                        assert(spec_has_pid(processes@, pid));
                    }
                    return Ok(pid);
                }
                i = i + 1;
            }
            Err(Error::ProcessNotFound)
            },
        },
        None => match &query.name {
            Some(name) => {
            let mut i: usize = 0;
            while i < processes.len()
                invariant
                    query.pid is None,
                    query.name is Some,
                    query.name->0@ == name@,
                    i <= processes@.len(),
                    forall|j: int| #![trigger processes@[j]] 0 <= j < i ==> processes@[j].name@
                        != name@,
                decreases processes@.len() - i,
            {
                if processes[i].name.eq(name) {
                    let pid = processes[i].pid;
                    proof {
                        assert(spec_is_first_match(processes@, name@, i as int));
                        assert(exists|m: int|
                            #[trigger] spec_is_first_match(processes@, name@, m) && processes@[m].pid
                                == pid);
                    }
                    return Ok(pid);
                }
                i = i + 1;
            }
            Err(Error::ProcessNotFound)
            },
            None => Err(Error::ConfigError),
        },
    }
}

} // verus!
