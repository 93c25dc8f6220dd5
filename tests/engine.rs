use timetail::engine::{
    decide, fault_text, lock_len, warning_text, Command, Coordination, Event, Fault, Phase, Plan,
    Warning, Writer,
};
use timetail::timestamp::TimeOfDay;

/// What a simulated run observed.
struct Run {
    file: String,
    warnings: Vec<Warning>,
    ticks: u64,
}

/// Drives a writer against a simulated clock and file for `run_for`
/// milliseconds. `lock_free` says whether a lock request succeeds;
/// `grow_between` appends bytes from another process between the size
/// measurement and the lock.
fn simulate(mode: Coordination, interval: u32, run_for: u64, lock_free: bool, grow_between: bool) -> Run {
    let mut w = Writer::new(mode, interval);
    let mut elapsed: u64 = 0;
    let mut run = Run { file: String::new(), warnings: Vec::new(), ticks: 0 };
    let mut event = Event::Started;
    let now = TimeOfDay { hour: 10, minute: 0, second: 0, millisecond: 0 };
    loop {
        match w.step_at(event, now) {
            Command::Sleep { millis } => {
                if elapsed + millis > run_for {
                    break;
                }
                elapsed += millis;
                run.ticks += 1;
                event = Event::Woke;
            }
            Command::MeasureSize => {
                event = Event::SizeMeasured(run.file.len() as u64);
            }
            Command::TryLock { offset, len } => {
                assert_eq!(offset, 0);
                assert_eq!(len, run.file.len() + 13);
                if grow_between {
                    run.file.push_str("intruder\n");
                }
                event = if lock_free { Event::LockAcquired } else { Event::LockBusy };
            }
            Command::RecheckSize => {
                event = Event::SizeMeasured(run.file.len() as u64);
            }
            Command::Write { line } => {
                run.file.push_str(&line);
                event = Event::LineWritten;
            }
            Command::Release => {
                event = Event::Released;
            }
            Command::Warn(warning) => {
                run.warnings.push(warning);
                event = Event::WarningReported;
            }
            Command::Abort(fault) => panic!("aborted: {:?}", fault),
        }
    }
    run
}

#[test]
fn unlocked_run_of_350ms_at_100ms_writes_three_lines() {
    let run = simulate(Coordination::Unlocked, 100, 350, true, false);
    assert_eq!(run.ticks, 3);
    assert_eq!(run.file.lines().count(), 3);
    assert!(run.warnings.is_empty());
}

#[test]
fn held_lock_writes_nothing_and_warns_each_tick() {
    let run = simulate(Coordination::LockedWithRecheck, 100, 350, false, false);
    assert_eq!(run.ticks, 3);
    assert_eq!(run.file, "");
    assert_eq!(run.warnings, vec![Warning::Contention; 3]);
}

#[test]
fn locked_run_appends_one_line_per_tick() {
    for mode in [Coordination::Locked, Coordination::LockedWithRecheck] {
        let run = simulate(mode, 50, 500, true, false);
        assert_eq!(run.ticks, 10);
        assert_eq!(run.file.len(), 10 * 13);
        assert_eq!(run.file.lines().count(), 10);
        assert!(run.warnings.is_empty());
    }
}

#[test]
fn size_change_before_lock_skips_the_append() {
    let run = simulate(Coordination::LockedWithRecheck, 100, 250, true, true);
    assert_eq!(run.ticks, 2);
    assert_eq!(run.file, "intruder\nintruder\n");
    assert_eq!(run.warnings, vec![Warning::SizeChanged; 2]);
}

#[test]
fn lock_without_recheck_misses_the_size_change() {
    let run = simulate(Coordination::Locked, 100, 100, true, true);
    assert_eq!(run.file.len(), 9 + 13);
    assert!(run.warnings.is_empty());
}

#[test]
fn timed_step_writes_the_given_time() {
    let mut w = Writer::new(Coordination::Unlocked, 2000);
    let now = TimeOfDay { hour: 9, minute: 8, second: 7, millisecond: 6 };
    assert_eq!(w.step_at(Event::Started, now), Command::Sleep { millis: 2000 });
    assert_eq!(w.phase, Phase::Sleeping);
    assert_eq!(w.step_at(Event::Woke, now), Command::Write { line: "09:08:07.006\n".to_string() });
    assert_eq!(w.phase, Phase::Writing { locked: false });
    assert_eq!(w.step_at(Event::LineWritten, now), Command::Sleep { millis: 2000 });
}

#[test]
fn busy_lock_is_not_retried() {
    let (phase, plan) = decide(Coordination::Locked, 10, Phase::Locking { size: 5 }, Event::LockBusy);
    assert_eq!(phase, Phase::Idle);
    assert_eq!(plan, Plan::Warn(Warning::Contention));
    let (phase, plan) = decide(Coordination::Locked, 10, phase, Event::WarningReported);
    assert_eq!(phase, Phase::Sleeping);
    assert_eq!(plan, Plan::Sleep { millis: 10 });
}

#[test]
fn lock_range_covers_the_next_line() {
    assert_eq!(lock_len(0), Some(13));
    assert_eq!(lock_len(26), Some(39));
    assert_eq!(lock_len(u64::MAX), None);
    assert_eq!(lock_len(u64::MAX - 13), Some(usize::MAX));
    let (phase, plan) = decide(Coordination::Locked, 1, Phase::Measuring, Event::SizeMeasured(26));
    assert_eq!(phase, Phase::Locking { size: 26 });
    assert_eq!(plan, Plan::TryLock { offset: 0, len: 39 });
}

#[test]
fn oversized_file_aborts() {
    let (phase, plan) = decide(Coordination::Locked, 1, Phase::Measuring, Event::SizeMeasured(u64::MAX));
    assert_eq!(phase, Phase::Stopped);
    assert_eq!(plan, Plan::Abort(Fault::SizeTooLarge));
}

#[test]
fn io_failures_are_fatal() {
    let (p, plan) = decide(Coordination::Locked, 1, Phase::Measuring, Event::Failed);
    assert_eq!((p, plan), (Phase::Stopped, Plan::Abort(Fault::SizeUnavailable)));
    let (p, plan) = decide(Coordination::LockedWithRecheck, 1, Phase::Rechecking { size: 3 }, Event::Failed);
    assert_eq!((p, plan), (Phase::Stopped, Plan::Abort(Fault::SizeUnavailable)));
    let (p, plan) = decide(Coordination::Unlocked, 1, Phase::Writing { locked: false }, Event::Failed);
    assert_eq!((p, plan), (Phase::Stopped, Plan::Abort(Fault::WriteFailed)));
    let (p, plan) = decide(Coordination::Unlocked, 1, Phase::Stopped, Event::Woke);
    assert_eq!((p, plan), (Phase::Stopped, Plan::Abort(Fault::OutOfOrder)));
    let (p, plan) = decide(Coordination::Unlocked, 1, Phase::Idle, Event::LineWritten);
    assert_eq!((p, plan), (Phase::Stopped, Plan::Abort(Fault::OutOfOrder)));
}

#[test]
fn locked_write_releases_the_lock() {
    let (p, plan) = decide(Coordination::Locked, 1, Phase::Writing { locked: true }, Event::LineWritten);
    assert_eq!((p, plan), (Phase::Idle, Plan::Release));
    let (p, plan) = decide(Coordination::Locked, 1, p, Event::Released);
    assert_eq!((p, plan), (Phase::Sleeping, Plan::Sleep { millis: 1 }));
}

#[test]
fn messages_are_fixed() {
    assert_eq!(warning_text(Warning::Contention), "WARN: Cannot lock the file; append skipped.");
    assert_eq!(warning_text(Warning::SizeChanged), "WARN: The file size has changed; append skipped.");
    assert_eq!(fault_text(Fault::SizeUnavailable), "Cannot get the file size.");
    assert_eq!(fault_text(Fault::WriteFailed), "Cannot append a line to the file.");
    assert_eq!(fault_text(Fault::SizeTooLarge), "The file is too large to lock.");
    assert_eq!(fault_text(Fault::OutOfOrder), "Unexpected event for the current phase.");
}
