//! The decisions of the process that runs the recorder's tasks: what the
//! end of a task means, and when everything has shut down.

use vstd::prelude::*;

verus! {

/// How a task ended.
#[derive(Debug, Clone, Copy, PartialEq, Eq, Structural)]
pub enum TaskEnd {
    /// The task returned.
    Finished,
    /// The task failed: it panicked, was aborted, or returned an error.
    Failed,
}

/// What the process does when a task has ended.
#[derive(Debug, Clone, Copy, PartialEq, Eq, Structural)]
pub struct Verdict {
    /// Ask every other task to shut down.
    pub cancel: bool,
    /// The process is to exit with a failure.
    pub failure: bool,
}

/// What the end of a task means. A task that returns after the shutdown was
/// requested has shut down as it should. One that returns without such a
/// request, or fails, brings the process down: the other tasks are asked to
/// shut down and the process exits with a failure.
pub fn task_ended(end: TaskEnd, shutdown_requested: bool) -> (verdict: Verdict)
    ensures
        verdict.failure == (end == TaskEnd::Failed || !shutdown_requested),
        verdict.cancel == verdict.failure,
{
    let failure = match end {
        TaskEnd::Finished => !shutdown_requested,
        TaskEnd::Failed => true,
    };
    Verdict { cancel: failure, failure }
}

/// The exit code of the process.
pub fn exit_code(failure: bool) -> (code: i32)
    ensures
        code == if failure {
            1int
        } else {
            0int
        },
{
    if failure {
        1
    } else {
        0
    }
}

/// Whether everything has shut down: every worker and the web server.
pub fn all_terminated(workers_terminated: &Vec<bool>, webserver_terminated: bool) -> (done: bool)
    ensures
        done == (webserver_terminated && forall|i: int|
            0 <= i < workers_terminated.len() ==> workers_terminated[i]),
{
    let mut i: usize = 0;
    while i < workers_terminated.len()
        invariant
            i <= workers_terminated.len(),
            forall|j: int| 0 <= j < i ==> workers_terminated[j],
        decreases workers_terminated.len() - i,
    {
        if !workers_terminated[i] {
            return false;
        }
        i = i + 1;
    }
    webserver_terminated
}

/// The limit on open files to ask for: the hard limit, where the soft limit
/// lies below it; nothing where it does not.
pub fn nofile_limit_to_set(soft: u64, hard: u64) -> (limit: Option<u64>)
    ensures
        limit == if soft < hard {
            Some(hard)
        } else {
            None
        },
{
    if soft < hard {
        Some(hard)
    } else {
        None
    }
}

} // verus!
