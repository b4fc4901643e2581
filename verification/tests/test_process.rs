use headless_chrome_operation_map::utils::browser::BrowserError;
use headless_chrome_operation_map::utils::process::{
    kill_advance, kill_process, KillAction, KillStep, KillTask, ProcessModel, FORCED_EXIT_CODE,
    KILL_SIGNAL,
};

/// Ends a process on a platform whose calls succeed or fail as `outcomes`
/// says, and hands back the calls made and the result.
fn run(pid: u32, model: ProcessModel, outcomes: &[bool]) -> (Vec<KillAction>, Result<(), BrowserError>) {
    let mut calls = Vec::new();
    let mut step = kill_process(pid, model);
    let mut at = 0;
    loop {
        match step {
            KillStep::Finished(result) => return (calls, result),
            KillStep::Perform(action, task) => {
                calls.push(action);
                step = kill_advance(task, outcomes[at]);
                at += 1;
            }
        }
    }
}

#[test]
fn constants_of_a_forced_end() {
    assert_eq!(KILL_SIGNAL, 9);
    assert_eq!(FORCED_EXIT_CODE, 0);
}

#[test]
fn signal_is_sent_and_not_asked_after() {
    assert_eq!(
        run(4242, ProcessModel::Signal, &[true]),
        (vec![KillAction::SendSignal { pid: 4242, signal: 9 }], Ok(()))
    );
    assert_eq!(
        run(4242, ProcessModel::Signal, &[false]),
        (vec![KillAction::SendSignal { pid: 4242, signal: 9 }], Ok(()))
    );
}

#[test]
fn handle_is_opened_used_and_closed() {
    assert_eq!(
        run(7, ProcessModel::Handle, &[true, true, true]),
        (
            vec![
                KillAction::OpenProcess { pid: 7 },
                KillAction::TerminateProcess { exit_code: 0 },
                KillAction::CloseHandle,
            ],
            Ok(())
        )
    );
}

#[test]
fn each_failed_call_has_its_own_error_and_ends_the_attempt() {
    assert_eq!(
        run(7, ProcessModel::Handle, &[false]),
        (vec![KillAction::OpenProcess { pid: 7 }], Err(BrowserError::OpenProcess))
    );
    assert_eq!(
        run(7, ProcessModel::Handle, &[true, false]),
        (
            vec![KillAction::OpenProcess { pid: 7 }, KillAction::TerminateProcess { exit_code: 0 }],
            Err(BrowserError::TerminateProcess)
        )
    );
    assert_eq!(
        run(7, ProcessModel::Handle, &[true, true, false]).1,
        Err(BrowserError::CloseHandle)
    );
}

#[test]
fn advance_follows_the_task() {
    assert_eq!(kill_advance(KillTask::Signalling, false), KillStep::Finished(Ok(())));
    assert_eq!(
        kill_advance(KillTask::Opening, true),
        KillStep::Perform(KillAction::TerminateProcess { exit_code: 0 }, KillTask::Terminating)
    );
    assert_eq!(
        kill_advance(KillTask::Terminating, true),
        KillStep::Perform(KillAction::CloseHandle, KillTask::Closing)
    );
    assert_eq!(kill_advance(KillTask::Closing, true), KillStep::Finished(Ok(())));
}
