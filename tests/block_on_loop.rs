use ring_rt::event::{nop, Output};
use ring_rt::inflight::InFlight;
use ring_rt::schedule::{finished, start, step, Phase, Report};

#[test]
fn ready_root_finishes() {
    let p = start();
    assert_eq!(p, Phase::PollRoot);
    let p = step(p, Report::RootReady);
    assert_eq!(p, Phase::Done);
    assert!(finished(p));
}

#[test]
fn pending_root_runs_tasks_then_waits() {
    let p = step(Phase::PollRoot, Report::RootPending);
    assert_eq!(p, Phase::RunTasks);
    assert!(!finished(p));
    let p = step(p, Report::TasksRun { in_flight: 1, ran: 1 });
    assert_eq!(p, Phase::SubmitAndWait);
    let p = step(p, Report::Reaped { flush_ok: true });
    assert_eq!(p, Phase::PollRoot);
}

#[test]
fn pending_root_with_no_task_run_and_nothing_in_flight_stalls() {
    let p = step(Phase::RunTasks, Report::TasksRun { in_flight: 0, ran: 0 });
    assert_eq!(p, Phase::Stalled);
    assert!(finished(p));
}

#[test]
fn tasks_that_ran_without_io_poll_the_root_again() {
    // The tasks may have finished what the root awaits.
    let p = step(Phase::RunTasks, Report::TasksRun { in_flight: 0, ran: 2 });
    assert_eq!(p, Phase::PollRoot);
}

#[test]
fn failed_flush_ends_the_loop() {
    let p = step(Phase::SubmitAndWait, Report::Reaped { flush_ok: false });
    assert_eq!(p, Phase::Failed);
    assert!(finished(p));
    assert_eq!(step(p, Report::RootReady), Phase::Failed);
}

#[test]
fn mismatched_report_keeps_the_phase() {
    assert_eq!(step(Phase::RunTasks, Report::RootReady), Phase::RunTasks);
    assert_eq!(step(Phase::Done, Report::RootPending), Phase::Done);
}

#[test]
fn block_on_nop_returns_ok_zero() {
    // The root future submits one no-op, then awaits its output.
    let mut table: InFlight<ring_rt::event::Event> = InFlight::new(16);
    let mut delivered: Option<Output> = None;
    let mut cookie = None;
    let mut phase = start();
    let mut polls = 0;
    while !finished(phase) {
        phase = match phase {
            Phase::PollRoot => {
                polls += 1;
                if cookie.is_none() && delivered.is_none() {
                    cookie = Some(table.submit(nop()).ok().unwrap());
                }
                let ready = delivered.is_some();
                step(phase, if ready { Report::RootReady } else { Report::RootPending })
            }
            Phase::RunTasks => step(phase, Report::TasksRun { in_flight: table.len(), ran: 0 }),
            Phase::SubmitAndWait => {
                let e = table.complete(cookie.take().unwrap()).unwrap();
                delivered = Some(e.complete(0, &[], Vec::new()));
                step(phase, Report::Reaped { flush_ok: true })
            }
            other => other,
        };
    }
    assert_eq!(phase, Phase::Done);
    assert_eq!(polls, 2);
    assert!(matches!(delivered, Some(Output::Nop(Ok(0)))));
}

#[derive(Clone, Copy, PartialEq)]
enum TaskState {
    Fresh,
    AwaitingPermit,
    AwaitingCompletion(u64),
    Woken,
    Finished,
}

#[test]
fn spawned_hundred_nops_joined_by_the_root_all_return_ok_zero() {
    // The root spawns 100 tasks, each submitting one no-op, and joins them.
    let total = 100;
    let depth = 16;
    let mut table: InFlight<(usize, ring_rt::event::Event)> = InFlight::new(depth);
    let mut states = vec![TaskState::Fresh; total];
    let mut results: Vec<Option<Output>> = (0..total).map(|_| None).collect();
    let mut queue: Vec<usize> = Vec::new();
    let mut order: Vec<u64> = Vec::new();
    let mut spawned = false;
    let mut peak = 0;
    let mut phase = start();
    while !finished(phase) {
        let report = match phase {
            Phase::PollRoot => {
                if !spawned {
                    queue.extend(0..total);
                    spawned = true;
                }
                if states.iter().all(|s| *s == TaskState::Finished) {
                    Report::RootReady
                } else {
                    Report::RootPending
                }
            }
            Phase::RunTasks => {
                let ran = queue.len();
                for id in std::mem::take(&mut queue) {
                    match states[id] {
                        TaskState::Fresh | TaskState::AwaitingPermit => match table.submit((id, nop())) {
                            Ok(c) => {
                                order.push(c);
                                states[id] = TaskState::AwaitingCompletion(c);
                                peak = peak.max(table.len());
                            }
                            Err(_) => states[id] = TaskState::AwaitingPermit,
                        },
                        TaskState::Woken => states[id] = TaskState::Finished,
                        _ => {}
                    }
                }
                Report::TasksRun { in_flight: table.len(), ran }
            }
            Phase::SubmitAndWait => {
                // The kernel completes everything submitted so far.
                for c in std::mem::take(&mut order) {
                    let (id, e) = table.complete(c).unwrap();
                    results[id] = Some(e.complete(0, &[], Vec::new()));
                    states[id] = TaskState::Woken;
                    queue.push(id);
                }
                // Freed permits wake the tasks waiting for one.
                for id in 0..total {
                    if states[id] == TaskState::AwaitingPermit && !queue.contains(&id) {
                        queue.push(id);
                    }
                }
                Report::Reaped { flush_ok: true }
            }
            _ => unreachable!(),
        };
        phase = step(phase, report);
    }
    assert_eq!(phase, Phase::Done);
    assert!(peak <= depth);
    assert_eq!(results.len(), 100);
    assert!(results.iter().all(|r| matches!(r, Some(Output::Nop(Ok(0))))));
}
