//! Waiting for blocks: how long a block takes on average, and the decisions
//! of a wait that first sleeps the estimated time and then polls the height.

use crate::error::{DaemonError, DaemonErrorView};
use vstd::arithmetic::div_mod::lemma_div_is_ordered;
use vstd::prelude::*;

verus! {

/// The weight given to the measured block time unless configured
/// otherwise, in thousandths (0.9).
pub const DEFAULT_BLOCK_WEIGHT: u64 = 900;

/// How many blocks back the earlier of the two sampled blocks lies, at
/// most.
pub const BLOCK_TIME_WINDOW: u64 = 100;

/// The height of the earlier block to sample, for the height of the latest
/// block: the window back, or the first block where the chain is shorter.
pub open spec fn earlier_sample(latest_height: u64) -> int {
    if latest_height <= 1 {
        latest_height as int
    } else if latest_height - 1 < BLOCK_TIME_WINDOW {
        1
    } else {
        latest_height - BLOCK_TIME_WINDOW
    }
}

/// Picks the height of the earlier block to sample.
pub fn sample_height(latest_height: u64) -> (height: u64)
    ensures
        height == earlier_sample(latest_height),
        latest_height > 1 ==> 1 <= height < latest_height,
{
    if latest_height <= 1 {
        latest_height
    } else if latest_height - 1 < BLOCK_TIME_WINDOW {
        1
    } else {
        latest_height - BLOCK_TIME_WINDOW
    }
}

/// A time in milliseconds, from seconds and nanoseconds; it saturates at
/// `u64::MAX`.
pub open spec fn millis(seconds: u64, nanos: u32) -> int {
    let exact = seconds * 1000 + nanos / 1_000_000;
    if exact > u64::MAX {
        u64::MAX as int
    } else {
        exact
    }
}

/// Turns seconds and nanoseconds into milliseconds.
pub fn millis_of(seconds: u64, nanos: u32) -> (time: u64)
    ensures
        time == millis(seconds, nanos),
{
    let whole: u64 = match seconds.checked_mul(1000) {
        Some(w) => w,
        None => {
            return u64::MAX;
        },
    };
    match whole.checked_add((nanos / 1_000_000) as u64) {
        Some(time) => time,
        None => u64::MAX,
    }
}

/// The average time per block between two sampled blocks, times a weight
/// in thousandths, and at least one: the time between the blocks, divided
/// by the number of blocks between them, rounded down, then weighted,
/// rounded down. It saturates at `u64::MAX`.
pub open spec fn weighted_block_time(
    latest_height: u64,
    latest_time: u64,
    earlier_height: u64,
    earlier_time: u64,
    weight: u64,
) -> int {
    let per_block = (latest_time - earlier_time) / (latest_height - earlier_height);
    let weighted = per_block * weight / 1000;
    if weighted < 1 {
        1
    } else if weighted > u64::MAX {
        u64::MAX as int
    } else {
        weighted
    }
}

/// Estimates the time per block from two sampled blocks. The later block
/// must be higher and not older than the earlier one.
pub fn average_block_speed(
    latest_height: u64,
    latest_time: u64,
    earlier_height: u64,
    earlier_time: u64,
    weight: u64,
) -> (speed: Result<u64, DaemonError>)
    ensures
        match speed {
            Ok(s) => latest_height > earlier_height && latest_time >= earlier_time && s
                == weighted_block_time(
                latest_height,
                latest_time,
                earlier_height,
                earlier_time,
                weight,
            ),
            Err(e) => e == DaemonError::BlockTimeUnknown && !(latest_height > earlier_height
                && latest_time >= earlier_time),
        },
{
    if latest_height <= earlier_height || latest_time < earlier_time {
        return Err(DaemonError::BlockTimeUnknown);
    }
    let per_block: u64 = (latest_time - earlier_time) / (latest_height - earlier_height);
    assert(per_block as int * weight as int <= 0xffff_ffff_ffff_ffff * 0xffff_ffff_ffff_ffff)
        by (nonlinear_arith)
        requires
            0 <= per_block <= 0xffff_ffff_ffff_ffff,
            0 <= weight <= 0xffff_ffff_ffff_ffff,
    ;
    let weighted: u128 = per_block as u128 * weight as u128 / 1000;
    if weighted < 1 {
        Ok(1)
    } else if weighted > u64::MAX as u128 {
        Ok(u64::MAX)
    } else {
        Ok(weighted as u64)
    }
}

/// Where a wait stands.
#[derive(Clone, Copy, Debug, PartialEq, Eq, Structural)]
pub enum WaitPhase {
    /// Nothing was asked yet.
    Idle,
    /// The height at which the wait starts was asked for.
    AwaitingStart,
    /// The time per block was asked for.
    AwaitingBlockTime,
    /// The estimated time of all the blocks is being slept.
    FirstSleep,
    /// The time of one block is being slept.
    Sleeping,
    /// The height was asked for again.
    Polling,
    /// The chain has advanced as far as was waited for.
    Done,
    /// The wait was given up.
    Failed,
}

/// What the wait is told.
#[derive(Clone, Debug, PartialEq, Eq)]
pub enum WaitEvent {
    /// The caller wants the wait to start.
    Begin,
    /// The node reported the chain's height.
    Height(u64),
    /// The time per block was estimated.
    BlockTime(u64),
    /// The sleep is over.
    Slept,
    /// The node or the network failed.
    Fault(String),
}

/// The mathematical value of a [`WaitEvent`].
pub enum WaitEventView {
    Begin,
    Height(u64),
    BlockTime(u64),
    Slept,
    Fault(Seq<char>),
}

impl View for WaitEvent {
    type V = WaitEventView;

    open spec fn view(&self) -> WaitEventView {
        match *self {
            WaitEvent::Begin => WaitEventView::Begin,
            WaitEvent::Height(h) => WaitEventView::Height(h),
            WaitEvent::BlockTime(t) => WaitEventView::BlockTime(t),
            WaitEvent::Slept => WaitEventView::Slept,
            WaitEvent::Fault(text) => WaitEventView::Fault(text@),
        }
    }
}

/// What the wait wants done next.
#[derive(Clone, Debug, PartialEq, Eq)]
pub enum WaitAction {
    /// Ask the node for the chain's height.
    QueryHeight,
    /// Sample two blocks and estimate the time per block.
    MeasureBlockTime,
    /// Sleep for this long, in the unit of the block time.
    Sleep { duration: u64 },
    /// The wait is over.
    Done,
    /// The wait failed.
    Fail(DaemonError),
}

/// The mathematical value of a [`WaitAction`].
pub enum WaitActionView {
    QueryHeight,
    MeasureBlockTime,
    Sleep { duration: u64 },
    Done,
    Fail(DaemonErrorView),
}

impl View for WaitAction {
    type V = WaitActionView;

    open spec fn view(&self) -> WaitActionView {
        match *self {
            WaitAction::QueryHeight => WaitActionView::QueryHeight,
            WaitAction::MeasureBlockTime => WaitActionView::MeasureBlockTime,
            WaitAction::Sleep { duration } => WaitActionView::Sleep { duration },
            WaitAction::Done => WaitActionView::Done,
            WaitAction::Fail(error) => WaitActionView::Fail(error@),
        }
    }
}

/// A wait for a number of blocks: the height at which it ends, the height
/// last reported, and the time slept per block.
#[derive(Clone, Copy, Debug, PartialEq, Eq, Structural)]
pub struct BlockWait {
    pub amount: u64,
    pub phase: WaitPhase,
    pub end_height: u64,
    pub last_height: u64,
    pub block_time: u64,
}

/// The sum, cut to 64 bits' largest number.
pub open spec fn saturating_sum(a: u64, b: u64) -> u64 {
    if a + b > u64::MAX {
        u64::MAX
    } else {
        (a + b) as u64
    }
}

/// The product, cut to 64 bits' largest number.
pub open spec fn saturating_product(a: u64, b: u64) -> u64 {
    if a * b > u64::MAX {
        u64::MAX
    } else {
        (a * b) as u64
    }
}

/// The wait is over.
pub open spec fn is_over(phase: WaitPhase) -> bool {
    phase == WaitPhase::Done || phase == WaitPhase::Failed
}

/// The wait looks at the height last reported: it is done where that has
/// reached the end, and sleeps the time of one block where not.
pub open spec fn checking(w: BlockWait) -> (BlockWait, WaitActionView) {
    if w.last_height < w.end_height {
        (
            BlockWait { phase: WaitPhase::Sleeping, ..w },
            WaitActionView::Sleep { duration: w.block_time },
        )
    } else {
        (BlockWait { phase: WaitPhase::Done, ..w }, WaitActionView::Done)
    }
}

/// The wait's next state and what it wants done, for each state and event.
pub open spec fn wait_next(w: BlockWait, event: WaitEventView) -> (BlockWait, WaitActionView) {
    if is_over(w.phase) {
        (w, WaitActionView::Fail(DaemonErrorView::UnexpectedEvent))
    } else {
        match (w.phase, event) {
            (_, WaitEventView::Fault(text)) => (
                BlockWait { phase: WaitPhase::Failed, ..w },
                WaitActionView::Fail(DaemonErrorView::Node(text)),
            ),
            (WaitPhase::Idle, WaitEventView::Begin) => (
                BlockWait { phase: WaitPhase::AwaitingStart, ..w },
                WaitActionView::QueryHeight,
            ),
            (WaitPhase::AwaitingStart, WaitEventView::Height(height)) => (
                BlockWait {
                    phase: WaitPhase::AwaitingBlockTime,
                    last_height: height,
                    end_height: saturating_sum(height, w.amount),
                    ..w
                },
                WaitActionView::MeasureBlockTime,
            ),
            (WaitPhase::AwaitingBlockTime, WaitEventView::BlockTime(block_time)) => (
                BlockWait { phase: WaitPhase::FirstSleep, block_time, ..w },
                WaitActionView::Sleep { duration: saturating_product(block_time, w.amount) },
            ),
            (WaitPhase::FirstSleep, WaitEventView::Slept) => checking(w),
            (WaitPhase::Sleeping, WaitEventView::Slept) => (
                BlockWait { phase: WaitPhase::Polling, ..w },
                WaitActionView::QueryHeight,
            ),
            (WaitPhase::Polling, WaitEventView::Height(height)) => checking(
                BlockWait { last_height: height, ..w },
            ),
            _ => (
                BlockWait { phase: WaitPhase::Failed, ..w },
                WaitActionView::Fail(DaemonErrorView::UnexpectedEvent),
            ),
        }
    }
}

impl BlockWait {
    /// A wait for `amount` blocks that has not started.
    pub fn new(amount: u64) -> (wait: BlockWait)
        ensures
            wait == (BlockWait {
                amount,
                phase: WaitPhase::Idle,
                end_height: 0,
                last_height: 0,
                block_time: 0,
            }),
    {
        BlockWait { amount, phase: WaitPhase::Idle, end_height: 0, last_height: 0, block_time: 0 }
    }

    /// Whether the wait is over.
    pub fn is_finished(&self) -> (finished: bool)
        ensures
            finished == is_over(self.phase),
    {
        match self.phase {
            WaitPhase::Done => true,
            WaitPhase::Failed => true,
            _ => false,
        }
    }

    fn check(&mut self) -> (action: WaitAction)
        ensures
            (*final(self), action@) == checking(*old(self)),
    {
        if self.last_height < self.end_height {
            self.phase = WaitPhase::Sleeping;
            WaitAction::Sleep { duration: self.block_time }
        } else {
            self.phase = WaitPhase::Done;
            WaitAction::Done
        }
    }

    fn unexpected(&mut self) -> (action: WaitAction)
        ensures
            *final(self) == (BlockWait { phase: WaitPhase::Failed, ..*old(self) }),
            action@ == WaitActionView::Fail(DaemonErrorView::UnexpectedEvent),
    {
        self.phase = WaitPhase::Failed;
        WaitAction::Fail(DaemonError::UnexpectedEvent)
    }

    /// Takes what happened and says what to do next.
    pub fn step(&mut self, event: WaitEvent) -> (action: WaitAction)
        ensures
            (*final(self), action@) == wait_next(*old(self), event@),
    {
        if self.is_finished() {
            return WaitAction::Fail(DaemonError::UnexpectedEvent);
        }
        match event {
            WaitEvent::Fault(text) => {
                self.phase = WaitPhase::Failed;
                WaitAction::Fail(DaemonError::Node(text))
            },
            WaitEvent::Begin => match self.phase {
                WaitPhase::Idle => {
                    self.phase = WaitPhase::AwaitingStart;
                    WaitAction::QueryHeight
                },
                _ => self.unexpected(),
            },
            WaitEvent::Height(height) => match self.phase {
                WaitPhase::AwaitingStart => {
                    self.phase = WaitPhase::AwaitingBlockTime;
                    self.last_height = height;
                    self.end_height = height.saturating_add(self.amount);
                    WaitAction::MeasureBlockTime
                },
                WaitPhase::Polling => {
                    self.last_height = height;
                    self.check()
                },
                _ => self.unexpected(),
            },
            WaitEvent::BlockTime(block_time) => match self.phase {
                WaitPhase::AwaitingBlockTime => {
                    self.phase = WaitPhase::FirstSleep;
                    self.block_time = block_time;
                    let duration = match block_time.checked_mul(self.amount) {
                        Some(d) => d,
                        None => u64::MAX,
                    };
                    WaitAction::Sleep { duration }
                },
                _ => self.unexpected(),
            },
            WaitEvent::Slept => match self.phase {
                WaitPhase::FirstSleep => self.check(),
                WaitPhase::Sleeping => {
                    self.phase = WaitPhase::Polling;
                    WaitAction::QueryHeight
                },
                _ => self.unexpected(),
            },
        }
    }
}

/// A wait ends as done only once the height last reported has reached the
/// height at which the wait started plus the number of blocks waited for.
pub proof fn lemma_wait_ends_at_target(w: BlockWait, event: WaitEventView)
    ensures
        wait_next(w, event).1 is Done ==> wait_next(w, event).0.last_height >= wait_next(
            w,
            event,
        ).0.end_height,
        event matches WaitEventView::Height(height) ==> (w.phase == WaitPhase::AwaitingStart
            && height + w.amount <= u64::MAX ==> wait_next(w, event).0.end_height == height
            + w.amount),
        !(w.phase == WaitPhase::AwaitingStart) ==> wait_next(w, event).0.end_height
            == w.end_height,
{
}

/// A heavier weight never shortens the estimated block time.
pub proof fn lemma_block_time_grows_with_weight(
    latest_height: u64,
    latest_time: u64,
    earlier_height: u64,
    earlier_time: u64,
    lighter: u64,
    heavier: u64,
)
    requires
        latest_height > earlier_height,
        latest_time >= earlier_time,
        lighter <= heavier,
    ensures
        weighted_block_time(latest_height, latest_time, earlier_height, earlier_time, lighter)
            <= weighted_block_time(
            latest_height,
            latest_time,
            earlier_height,
            earlier_time,
            heavier,
        ),
{
    let per_block = (latest_time - earlier_time) / (latest_height - earlier_height);
    assert(per_block >= 0) by (nonlinear_arith)
        requires
            per_block == (latest_time - earlier_time) / (latest_height - earlier_height),
            latest_time - earlier_time >= 0,
            latest_height - earlier_height > 0,
    ;
    assert(per_block * lighter <= per_block * heavier) by (nonlinear_arith)
        requires
            per_block >= 0,
            lighter <= heavier,
    ;
    lemma_div_is_ordered(per_block * lighter, per_block * heavier, 1000);
}

} // verus!
