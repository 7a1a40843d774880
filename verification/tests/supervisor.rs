use recent_messages2::supervisor::{
    all_terminated, exit_code, nofile_limit_to_set, task_ended, TaskEnd, Verdict,
};

#[test]
fn a_task_that_ends_unasked_brings_the_process_down() {
    assert_eq!(task_ended(TaskEnd::Finished, true), Verdict { cancel: false, failure: false });
    assert_eq!(task_ended(TaskEnd::Finished, false), Verdict { cancel: true, failure: true });
    assert_eq!(task_ended(TaskEnd::Failed, true), Verdict { cancel: true, failure: true });
    assert_eq!(task_ended(TaskEnd::Failed, false), Verdict { cancel: true, failure: true });
    assert_eq!(exit_code(false), 0);
    assert_eq!(exit_code(true), 1);
}

#[test]
fn the_process_ends_when_everything_has_terminated() {
    assert!(all_terminated(&vec![true, true, true], true));
    assert!(!all_terminated(&vec![true, false, true], true));
    assert!(!all_terminated(&vec![true, true, true], false));
    assert!(all_terminated(&vec![], true));
    assert!(!all_terminated(&vec![], false));
}

#[test]
fn the_soft_limit_is_raised_to_the_hard_one() {
    assert_eq!(nofile_limit_to_set(1024, 4096), Some(4096));
    assert_eq!(nofile_limit_to_set(4096, 4096), None);
    assert_eq!(nofile_limit_to_set(8192, 4096), None);
    assert_eq!(nofile_limit_to_set(0, u64::MAX), Some(u64::MAX));
}
