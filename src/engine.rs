//! The append engine: the decisions of the periodic write loop, as a state
//! machine from a phase and an observed event to the next phase and the
//! action that the driver performs next.
use vstd::prelude::*;
use crate::timestamp::{line_of, timestamp_line, TimeOfDay, LINE_SIZE};

verus! {

/// How a writer coordinates with other writers of the same file.
#[derive(Clone, Copy, Debug, PartialEq, Eq, Structural)]
pub enum Coordination {
    /// No lock and no size check: only safe with a single writer.
    Unlocked,
    /// An exclusive advisory lock over the range about to be written.
    Locked,
    /// The lock, and a re-measured size that must match the first one.
    LockedWithRecheck,
}

/// Where a writer stands in its loop.
#[derive(Clone, Copy, Debug, PartialEq, Eq, Structural)]
pub enum Phase {
    /// Between two write attempts; nothing is held.
    Idle,
    /// Waiting out the interval.
    Sleeping,
    /// The size of the file is being measured.
    Measuring,
    /// A lock over the first `size + LINE_SIZE` bytes has been requested.
    Locking { size: u64 },
    /// The lock is held and the size is being measured again.
    Rechecking { size: u64 },
    /// A line is being written, through the lock when `locked`.
    Writing { locked: bool },
    /// The lock is held after a skipped attempt and is to be released.
    Releasing,
    /// A fatal fault ended the loop.
    Stopped,
}

/// What the driver observed after performing the last action.
#[derive(Clone, Copy, Debug, PartialEq, Eq, Structural)]
pub enum Event {
    Started,
    Woke,
    SizeMeasured(u64),
    LockAcquired,
    LockBusy,
    LineWritten,
    Released,
    WarningReported,
    Failed,
}

/// Conditions that skip one attempt.
#[derive(Clone, Copy, Debug, PartialEq, Eq, Structural)]
pub enum Warning {
    /// Another holder has an overlapping lock.
    Contention,
    /// The size changed between the two measurements.
    SizeChanged,
}

/// Conditions that end the process.
#[derive(Clone, Copy, Debug, PartialEq, Eq, Structural)]
pub enum Fault {
    SizeUnavailable,
    SizeTooLarge,
    WriteFailed,
    OutOfOrder,
}

/// The next action, with the line to write left out.
#[derive(Clone, Copy, Debug, PartialEq, Eq, Structural)]
pub enum Plan {
    Sleep { millis: u64 },
    MeasureSize,
    TryLock { offset: usize, len: usize },
    RecheckSize,
    WriteLine,
    Release,
    Warn(Warning),
    Abort(Fault),
}

/// The next action for the driver to perform.
#[derive(Debug, PartialEq, Eq)]
pub enum Command {
    /// Sleep for the interval.
    Sleep { millis: u64 },
    /// Sync the file and measure its size.
    MeasureSize,
    /// Try, without blocking, to lock `len` bytes from `offset` exclusively.
    TryLock { offset: usize, len: usize },
    /// Sync the file and measure its size again, through the lock.
    RecheckSize,
    /// Write the line, flush, echo it and sync the data.
    Write { line: String },
    /// Release the lock.
    Release,
    /// Report a skipped attempt.
    Warn(Warning),
    /// Stop the process with a diagnostic.
    Abort(Fault),
}

impl Command {
    pub open spec fn plan(&self) -> Plan {
        match self {
            Command::Sleep { millis } => Plan::Sleep { millis: *millis },
            Command::MeasureSize => Plan::MeasureSize,
            Command::TryLock { offset, len } => Plan::TryLock { offset: *offset, len: *len },
            Command::RecheckSize => Plan::RecheckSize,
            Command::Write { .. } => Plan::WriteLine,
            Command::Release => Plan::Release,
            Command::Warn(w) => Plan::Warn(*w),
            Command::Abort(f) => Plan::Abort(*f),
        }
    }
}

/// Whether a lock over `[0, size + LINE_SIZE)` can be described in `usize`.
pub open spec fn lock_fits(size: u64) -> bool {
    size + LINE_SIZE <= usize::MAX
}

/// What follows the start of an attempt, once the interval has passed.
pub open spec fn after_wake(mode: Coordination) -> (Phase, Plan) {
    if mode == Coordination::Unlocked {
        (Phase::Writing { locked: false }, Plan::WriteLine)
    } else {
        (Phase::Measuring, Plan::MeasureSize)
    }
}

/// The decision table of a writer.
pub open spec fn transition(mode: Coordination, interval: u32, phase: Phase, event: Event) -> (
    Phase,
    Plan,
) {
    let sleep = (Phase::Sleeping, Plan::Sleep { millis: interval as u64 });
    let out_of_order = (Phase::Stopped, Plan::Abort(Fault::OutOfOrder));
    match phase {
        Phase::Idle => match event {
            Event::Started | Event::Released | Event::WarningReported => sleep,
            _ => out_of_order,
        },
        Phase::Sleeping => match event {
            Event::Woke => after_wake(mode),
            _ => out_of_order,
        },
        Phase::Measuring => match event {
            Event::SizeMeasured(s) => if lock_fits(s) {
                (
                    Phase::Locking { size: s },
                    Plan::TryLock { offset: 0, len: (s + LINE_SIZE) as usize },
                )
            } else {
                (Phase::Stopped, Plan::Abort(Fault::SizeTooLarge))
            },
            Event::Failed => (Phase::Stopped, Plan::Abort(Fault::SizeUnavailable)),
            _ => out_of_order,
        },
        Phase::Locking { size } => match event {
            Event::LockBusy => (Phase::Idle, Plan::Warn(Warning::Contention)),
            Event::LockAcquired => if mode == Coordination::LockedWithRecheck {
                (Phase::Rechecking { size }, Plan::RecheckSize)
            } else {
                (Phase::Writing { locked: true }, Plan::WriteLine)
            },
            _ => out_of_order,
        },
        Phase::Rechecking { size } => match event {
            Event::SizeMeasured(s) => if s == size {
                (Phase::Writing { locked: true }, Plan::WriteLine)
            } else {
                (Phase::Releasing, Plan::Warn(Warning::SizeChanged))
            },
            Event::Failed => (Phase::Stopped, Plan::Abort(Fault::SizeUnavailable)),
            _ => out_of_order,
        },
        Phase::Writing { locked } => match event {
            Event::LineWritten => if locked {
                (Phase::Idle, Plan::Release)
            } else {
                sleep
            },
            Event::Failed => (Phase::Stopped, Plan::Abort(Fault::WriteFailed)),
            _ => out_of_order,
        },
        Phase::Releasing => match event {
            Event::WarningReported => (Phase::Idle, Plan::Release),
            _ => out_of_order,
        },
        Phase::Stopped => out_of_order,
    }
}

/// The byte range `[start, end)` that an attempt locks after measuring `size`.
pub open spec fn lock_range(size: u64) -> (int, int) {
    (0, size + LINE_SIZE)
}

pub open spec fn ranges_overlap(a: (int, int), b: (int, int)) -> bool {
    a.0 < b.1 && b.0 < a.1
}

/// Locked writers exclude each other. The ranges that two of them request
/// overlap whatever sizes they measured, and each covers the line appended at
/// the measured end, so an exclusive advisory lock grants at most one of them
/// at a time. A lock request asks for exactly that range, and a locked writer
/// emits a line only right after its lock was granted (and, with the re-check,
/// after the size matched), so it writes only while holding the lock.
pub proof fn lemma_locked_writers_exclude(
    mode: Coordination,
    interval: u32,
    phase: Phase,
    event: Event,
    size_a: u64,
    size_b: u64,
)
    requires
        mode != Coordination::Unlocked,
    ensures
        ranges_overlap(lock_range(size_a), lock_range(size_b)),
        lock_range(size_a).0 <= size_a && size_a + LINE_SIZE <= lock_range(size_a).1,
        transition(mode, interval, phase, event).1 is TryLock ==> {
            &&& phase == Phase::Measuring
            &&& event is SizeMeasured
            &&& transition(mode, interval, phase, event).1->TryLock_offset == lock_range(
                event->SizeMeasured_0,
            ).0
            &&& transition(mode, interval, phase, event).1->TryLock_len == lock_range(
                event->SizeMeasured_0,
            ).1
        },
        transition(mode, interval, phase, event).1 == Plan::WriteLine ==> {
            &&& transition(mode, interval, phase, event).0 == Phase::Writing { locked: true }
            &&& {
                ||| mode == Coordination::Locked && phase is Locking && event == Event::LockAcquired
                ||| phase is Rechecking && event == Event::SizeMeasured(phase->Rechecking_size)
            }
        },
{
}

/// Whether the writer holds the lock in a phase.
pub open spec fn holds_lock(phase: Phase) -> bool {
    ||| phase is Rechecking
    ||| phase == Phase::Writing { locked: true }
    ||| phase is Releasing
}

/// The lock is scoped to one attempt: a writer goes to sleep only from a phase
/// that holds no lock, and leaves every phase that holds one by releasing it,
/// by a write through it, or by stopping.
pub proof fn lemma_lock_not_held_across_ticks(
    mode: Coordination,
    interval: u32,
    phase: Phase,
    event: Event,
)
    ensures
        transition(mode, interval, phase, event).1 is Sleep ==> !holds_lock(phase),
        transition(mode, interval, phase, event).1 is Sleep ==> !holds_lock(
            transition(mode, interval, phase, event).0,
        ),
        holds_lock(phase) ==> {
            ||| transition(mode, interval, phase, event).1 == Plan::Release
            ||| transition(mode, interval, phase, event).1 == Plan::WriteLine
            ||| transition(mode, interval, phase, event).1 == Plan::Warn(Warning::SizeChanged)
            ||| transition(mode, interval, phase, event).0 == Phase::Stopped
        },
        holds_lock(transition(mode, interval, phase, event).0) ==> {
            ||| holds_lock(phase)
            ||| phase is Locking && event == Event::LockAcquired
        },
{
}

/// The phase reached and the plans made when a writer in `phase` observes
/// `events` in order.
pub open spec fn run(mode: Coordination, interval: u32, phase: Phase, events: Seq<Event>) -> (
    Phase,
    Seq<Plan>,
)
    decreases events.len(),
{
    if events.len() == 0 {
        (phase, Seq::empty())
    } else {
        let (next, plan) = transition(mode, interval, phase, events[0]);
        let rest = run(mode, interval, next, events.drop_first());
        (rest.0, seq![plan] + rest.1)
    }
}

/// Observing two runs of events one after the other is observing their
/// concatenation.
pub proof fn lemma_run_concat(
    mode: Coordination,
    interval: u32,
    phase: Phase,
    a: Seq<Event>,
    b: Seq<Event>,
)
    ensures
        run(mode, interval, phase, a + b) == (
            run(mode, interval, run(mode, interval, phase, a).0, b).0,
            run(mode, interval, phase, a).1 + run(
                mode,
                interval,
                run(mode, interval, phase, a).0,
                b,
            ).1,
        ),
    decreases a.len(),
{
    if a.len() > 0 {
        let (next, plan) = transition(mode, interval, phase, a[0]);
        assert((a + b).drop_first() =~= a.drop_first() + b);
        assert((a + b)[0] == a[0]);
        lemma_run_concat(mode, interval, next, a.drop_first(), b);
        let ra = run(mode, interval, next, a.drop_first());
        let rb = run(mode, interval, ra.0, b);
        assert(seq![plan] + (ra.1 + rb.1) =~= (seq![plan] + ra.1) + rb.1);
    } else {
        assert(a + b =~= b);
        assert(run(mode, interval, phase, a).1 + run(mode, interval, phase, b).1 =~= run(
            mode,
            interval,
            phase,
            b,
        ).1);
    }
}

/// The events of one tick in which the lock is held by someone else: the
/// wake-up, the measured size, the refused lock, the reported warning.
pub open spec fn busy_tick(size: u64) -> Seq<Event> {
    seq![Event::Woke, Event::SizeMeasured(size), Event::LockBusy, Event::WarningReported]
}

/// The events of consecutive ticks in which the lock is held by someone else,
/// with the size measured in each.
pub open spec fn busy_ticks(sizes: Seq<u64>) -> Seq<Event>
    decreases sizes.len(),
{
    if sizes.len() == 0 {
        Seq::empty()
    } else {
        busy_tick(sizes[0]) + busy_ticks(sizes.drop_first())
    }
}

/// The plan at position `j` of a run of busy ticks: never a line, never a
/// size-change warning, and a contention warning exactly at the third step of
/// each tick.
pub open spec fn busy_plan_at(p: Plan, j: int) -> bool {
    &&& p != Plan::WriteLine
    &&& p != Plan::Warn(Warning::SizeChanged)
    &&& (p == Plan::Warn(Warning::Contention) <==> j % 4 == 2)
}

/// A lock held by another process for a whole run of `k` ticks lets a locked
/// writer write nothing: each tick measures the size, requests the range
/// ending one line past it, reports one contention warning and sleeps again,
/// so the run makes exactly `k` contention warnings, no size-change warning
/// and no line. A new writer enters the first tick with its first step.
pub proof fn lemma_held_lock_writes_nothing(
    mode: Coordination,
    interval: u32,
    sizes: Seq<u64>,
)
    requires
        mode != Coordination::Unlocked,
        forall|i: int| 0 <= i < sizes.len() ==> lock_fits(#[trigger] sizes[i]),
    ensures
        transition(mode, interval, Phase::Idle, Event::Started) == (
            Phase::Sleeping,
            Plan::Sleep { millis: interval as u64 },
        ),
        run(mode, interval, Phase::Sleeping, busy_ticks(sizes)).0 == Phase::Sleeping,
        run(mode, interval, Phase::Sleeping, busy_ticks(sizes)).1.len() == 4 * sizes.len(),
        forall|j: int|
            0 <= j < 4 * sizes.len() ==> busy_plan_at(
                #[trigger] run(mode, interval, Phase::Sleeping, busy_ticks(sizes)).1[j],
                j,
            ),
        forall|i: int|
            0 <= i < sizes.len() ==> #[trigger] run(
                mode,
                interval,
                Phase::Sleeping,
                busy_ticks(sizes),
            ).1[4 * i + 1] == (Plan::TryLock { offset: 0, len: (sizes[i] + LINE_SIZE) as usize }),
    decreases sizes.len(),
{
    let plans = run(mode, interval, Phase::Sleeping, busy_ticks(sizes)).1;
    if sizes.len() > 0 {
        let s = sizes[0];
        let rest = sizes.drop_first();
        assert forall|i: int| 0 <= i < rest.len() implies lock_fits(#[trigger] rest[i]) by {
            assert(rest[i] == sizes[i + 1]);
        }
        lemma_held_lock_writes_nothing(mode, interval, rest);
        lemma_run_concat(mode, interval, Phase::Sleeping, busy_tick(s), busy_ticks(rest));
        let t = busy_tick(s);
        assert(lock_fits(sizes[0]));
        let tick_plans = seq![
            Plan::MeasureSize,
            Plan::TryLock { offset: 0, len: (s + LINE_SIZE) as usize },
            Plan::Warn(Warning::Contention),
            Plan::Sleep { millis: interval as u64 },
        ];
        assert(t.drop_first().drop_first().drop_first().drop_first() =~= Seq::<Event>::empty());
        assert(run(mode, interval, Phase::Sleeping, t) == (Phase::Sleeping, tick_plans)) by {
            let t1 = t.drop_first();
            let t2 = t1.drop_first();
            let t3 = t2.drop_first();
            let t4 = t3.drop_first();
            assert(run(mode, interval, Phase::Sleeping, t4) == (Phase::Sleeping, Seq::<Plan>::empty()));
            assert(run(mode, interval, Phase::Idle, t3).1 =~= seq![tick_plans[3]]);
            assert(run(mode, interval, Phase::Locking { size: s }, t2).1 =~= seq![
                tick_plans[2],
                tick_plans[3],
            ]);
            assert(run(mode, interval, Phase::Measuring, t1).1 =~= seq![
                tick_plans[1],
                tick_plans[2],
                tick_plans[3],
            ]);
            assert(run(mode, interval, Phase::Sleeping, t).1 =~= tick_plans);
        }
        let rest_plans = run(mode, interval, Phase::Sleeping, busy_ticks(rest)).1;
        assert(busy_ticks(sizes) == t + busy_ticks(rest));
        assert(plans == tick_plans + rest_plans);
        assert forall|j: int| 0 <= j < 4 * sizes.len() implies busy_plan_at(#[trigger] plans[j], j) by {
            if j >= 4 {
                assert(plans[j] == rest_plans[j - 4]);
                assert((j - 4) % 4 == j % 4);
            }
        }
        assert forall|i: int| 0 <= i < sizes.len() implies #[trigger] plans[4 * i + 1]
            == Plan::TryLock { offset: 0, len: (sizes[i] + LINE_SIZE) as usize } by {
            if i > 0 {
                assert(plans[4 * i + 1] == rest_plans[4 * (i - 1) + 1]);
                assert(sizes[i] == rest[i - 1]);
            }
        }
    } else {
        assert(busy_ticks(sizes) =~= Seq::<Event>::empty());
    }
}

/// A size that changed between the measurement and the lock skips the
/// attempt: a size-change warning, then the release of the lock, then the
/// sleep of the next tick, and no line in between.
pub proof fn lemma_size_change_skips(interval: u32, size: u64, measured: u64)
    requires
        measured != size,
    ensures
        transition(
            Coordination::LockedWithRecheck,
            interval,
            Phase::Rechecking { size },
            Event::SizeMeasured(measured),
        ) == (Phase::Releasing, Plan::Warn(Warning::SizeChanged)),
        transition(
            Coordination::LockedWithRecheck,
            interval,
            Phase::Releasing,
            Event::WarningReported,
        ) == (Phase::Idle, Plan::Release),
        transition(Coordination::LockedWithRecheck, interval, Phase::Idle, Event::Released) == (
            Phase::Sleeping,
            Plan::Sleep { millis: interval as u64 },
        ),
{
}

/// A lock request that is refused is neither waited on nor retried: the
/// attempt ends at once with a contention warning, holding nothing, and what
/// follows is the sleep of the next tick.
pub proof fn lemma_busy_lock_skips(mode: Coordination, interval: u32, size: u64)
    ensures
        transition(mode, interval, Phase::Locking { size }, Event::LockBusy) == (
            Phase::Idle,
            Plan::Warn(Warning::Contention),
        ),
        transition(mode, interval, Phase::Idle, Event::WarningReported) == (
            Phase::Sleeping,
            Plan::Sleep { millis: interval as u64 },
        ),
{
}

/// The lock range for a measured size, when it can be described in `usize`.
pub fn lock_len(size: u64) -> (r: Option<usize>)
    ensures
        r == (if lock_fits(size) {
            Some((size + LINE_SIZE) as usize)
        } else {
            None::<usize>
        }),
{
    if size <= (usize::MAX as u64) - (LINE_SIZE as u64) {
        Some(size as usize + LINE_SIZE)
    } else {
        None
    }
}

/// Decides the next phase and action of a writer.
pub fn decide(mode: Coordination, interval: u32, phase: Phase, event: Event) -> (r: (Phase, Plan))
    ensures
        r == transition(mode, interval, phase, event),
{
    let sleep = (Phase::Sleeping, Plan::Sleep { millis: interval as u64 });
    let out_of_order = (Phase::Stopped, Plan::Abort(Fault::OutOfOrder));
    match phase {
        Phase::Idle => match event {
            Event::Started | Event::Released | Event::WarningReported => sleep,
            _ => out_of_order,
        },
        Phase::Sleeping => match event {
            Event::Woke => if mode == Coordination::Unlocked {
                (Phase::Writing { locked: false }, Plan::WriteLine)
            } else {
                (Phase::Measuring, Plan::MeasureSize)
            },
            _ => out_of_order,
        },
        Phase::Measuring => match event {
            Event::SizeMeasured(s) => match lock_len(s) {
                Some(len) => (Phase::Locking { size: s }, Plan::TryLock { offset: 0, len }),
                None => (Phase::Stopped, Plan::Abort(Fault::SizeTooLarge)),
            },
            Event::Failed => (Phase::Stopped, Plan::Abort(Fault::SizeUnavailable)),
            _ => out_of_order,
        },
        Phase::Locking { size } => match event {
            Event::LockBusy => (Phase::Idle, Plan::Warn(Warning::Contention)),
            Event::LockAcquired => if mode == Coordination::LockedWithRecheck {
                (Phase::Rechecking { size }, Plan::RecheckSize)
            } else {
                (Phase::Writing { locked: true }, Plan::WriteLine)
            },
            _ => out_of_order,
        },
        Phase::Rechecking { size } => match event {
            Event::SizeMeasured(s) => if s == size {
                (Phase::Writing { locked: true }, Plan::WriteLine)
            } else {
                (Phase::Releasing, Plan::Warn(Warning::SizeChanged))
            },
            Event::Failed => (Phase::Stopped, Plan::Abort(Fault::SizeUnavailable)),
            _ => out_of_order,
        },
        Phase::Writing { locked } => match event {
            Event::LineWritten => if locked {
                (Phase::Idle, Plan::Release)
            } else {
                sleep
            },
            Event::Failed => (Phase::Stopped, Plan::Abort(Fault::WriteFailed)),
            _ => out_of_order,
        },
        Phase::Releasing => match event {
            Event::WarningReported => (Phase::Idle, Plan::Release),
            _ => out_of_order,
        },
        Phase::Stopped => out_of_order,
    }
}

impl Command {
    /// The command of a plan that needs no line.
    pub fn from_plan(p: Plan) -> (r: Command)
        requires
            p != Plan::WriteLine,
        ensures
            r.plan() == p,
    {
        match p {
            Plan::Sleep { millis } => Command::Sleep { millis },
            Plan::MeasureSize => Command::MeasureSize,
            Plan::TryLock { offset, len } => Command::TryLock { offset, len },
            Plan::RecheckSize => Command::RecheckSize,
            // excluded by the precondition
            Plan::WriteLine => Command::Release,
            Plan::Release => Command::Release,
            Plan::Warn(w) => Command::Warn(w),
            Plan::Abort(f) => Command::Abort(f),
        }
    }
}

/// A writer that appends one timestamp line per interval to one file.
#[derive(Clone, Copy, Debug, PartialEq, Eq, Structural)]
pub struct Writer {
    pub mode: Coordination,
    /// Milliseconds between two attempts.
    pub interval: u32,
    pub phase: Phase,
}

impl Writer {
    pub fn new(mode: Coordination, interval: u32) -> (r: Writer)
        ensures
            r.mode == mode,
            r.interval == interval,
            r.phase == Phase::Idle,
    {
        Writer { mode, interval, phase: Phase::Idle }
    }

    /// Takes the event that followed the last command and returns the next
    /// command; a line to write is rendered for the time `now`, the local
    /// time read by the driver just before this step.
    pub fn step_at(&mut self, event: Event, now: TimeOfDay) -> (r: Command)
        requires
            now.is_valid(),
        ensures
            final(self).mode == old(self).mode,
            final(self).interval == old(self).interval,
            (final(self).phase, r.plan()) == transition(
                old(self).mode,
                old(self).interval,
                old(self).phase,
                event,
            ),
            r matches Command::Write { line } ==> line@ == line_of(now),
    {
        let (phase, plan) = decide(self.mode, self.interval, self.phase, event);
        self.phase = phase;
        match plan {
            Plan::WriteLine => Command::Write { line: timestamp_line(now) },
            _ => Command::from_plan(plan),
        }
    }
}

/// The report of a skipped attempt.
pub fn warning_text(w: Warning) -> (r: String)
    ensures
        r@ == (match w {
            Warning::Contention => "WARN: Cannot lock the file; append skipped."@,
            Warning::SizeChanged => "WARN: The file size has changed; append skipped."@,
        }),
{
    match w {
        Warning::Contention => String::from_str("WARN: Cannot lock the file; append skipped."),
        Warning::SizeChanged => String::from_str(
            "WARN: The file size has changed; append skipped.",
        ),
    }
}

/// The diagnostic of a fault that ends the process.
pub fn fault_text(f: Fault) -> (r: String)
    ensures
        r@ == (match f {
            Fault::SizeUnavailable => "Cannot get the file size."@,
            Fault::SizeTooLarge => "The file is too large to lock."@,
            Fault::WriteFailed => "Cannot append a line to the file."@,
            Fault::OutOfOrder => "Unexpected event for the current phase."@,
        }),
{
    match f {
        Fault::SizeUnavailable => String::from_str("Cannot get the file size."),
        Fault::SizeTooLarge => String::from_str("The file is too large to lock."),
        Fault::WriteFailed => String::from_str("Cannot append a line to the file."),
        Fault::OutOfOrder => String::from_str("Unexpected event for the current phase."),
    }
}

} // verus!
