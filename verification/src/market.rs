//! Replay of the tick table in real time.
//!
//! Row `idx` of the table (sorted by time) is published as a tick once the
//! replay clock, started at market open, reaches the row's time. The feed
//! only moves to the next row once the tick was delivered; a row dated
//! before market open holds the feed where it is.
use vstd::prelude::*;

verus! {

/// Market open, 09:00, in micro-seconds since midnight: the replay clock
/// starts there.
pub const MARKET_OPEN_MICROS: i64 = 32_400_000_000;

/// What the feed does with the row at its current index.
pub enum FeedAction {
    /// Publish row `idx`, dated `time`, once `due_micros` micro-seconds of
    /// replay have passed since the start.
    Publish { idx: usize, time: i64, due_micros: u64 },
    /// The row is dated before market open: nothing is published and the
    /// feed stays on this row.
    Hold,
    /// There is no row at the current index: the replay is over.
    Stop,
}

/// The replay position: the index of the next row to publish.
pub struct MarketFeed {
    idx: usize,
}

/// What the feed does with a row dated `row_time` (or with no row).
pub open spec fn feed_action_spec(idx: usize, row_time: Option<i64>) -> FeedAction {
    match row_time {
        None => FeedAction::Stop,
        Some(time) => if time - MARKET_OPEN_MICROS < 0 {
            FeedAction::Hold
        } else {
            FeedAction::Publish {
                idx,
                time,
                due_micros: (time - MARKET_OPEN_MICROS) as u64,
            }
        },
    }
}

/// Nanoseconds still to wait before a tick due `due_micros` micro-seconds
/// into the replay, when `elapsed_nanos` have passed: zero once it is due.
pub open spec fn wait_nanos_spec(due_micros: u64, elapsed_nanos: u128) -> int {
    if due_micros * 1000 > elapsed_nanos {
        due_micros * 1000 - elapsed_nanos
    } else {
        0
    }
}

impl MarketFeed {
    /// The index of the next row to publish.
    pub closed spec fn position(&self) -> usize {
        self.idx
    }

    /// A feed at the first row.
    pub fn new() -> (f: Self)
        ensures
            f.position() == 0,
    {
        MarketFeed { idx: 0 }
    }

    /// The index of the next row to publish.
    pub fn index(&self) -> (i: usize)
        ensures
            i == self.position(),
    {
        self.idx
    }

    /// What to do with the row at the current index, given its time
    /// (`None` when the table has no such row). The row's offset from
    /// market open decides: negative offsets hold the feed; otherwise the
    /// row is published when the replay clock reaches the offset.
    pub fn next_action(&self, row_time: Option<i64>) -> (a: FeedAction)
        requires
            row_time matches Some(t) ==> t - MARKET_OPEN_MICROS >= i64::MIN,
        ensures
            a == feed_action_spec(self.position(), row_time),
            row_time is None ==> a is Stop,
    {
        match row_time {
            None => FeedAction::Stop,
            Some(time) => {
                let real_time = time - MARKET_OPEN_MICROS;
                if real_time < 0 {
                    FeedAction::Hold
                } else {
                    FeedAction::Publish { idx: self.idx, time, due_micros: real_time as u64 }
                }
            },
        }
    }

    /// Records the outcome of publishing the current row: a delivered tick
    /// moves the feed to the next row and the replay goes on; an undelivered
    /// one (no receiver left) ends the replay where it is.
    pub fn delivered(&mut self, sent: bool) -> (go_on: bool)
        requires
            sent ==> old(self).position() < usize::MAX,
        ensures
            go_on == sent,
            sent ==> final(self).position() == old(self).position() + 1,
            !sent ==> final(self).position() == old(self).position(),
    {
        if sent {
            self.idx = self.idx + 1;
            true
        } else {
            false
        }
    }
}

/// Nanoseconds to sleep before publishing a tick due `due_micros`
/// micro-seconds into the replay, when `elapsed_nanos` have passed since
/// the replay started; zero when the tick is already due.
pub fn wait_nanos(due_micros: u64, elapsed_nanos: u128) -> (w: u128)
    ensures
        w == wait_nanos_spec(due_micros, elapsed_nanos),
        elapsed_nanos + w == if due_micros * 1000 > elapsed_nanos {
            due_micros * 1000
        } else {
            elapsed_nanos as int
        },
{
    let due: u128 = (due_micros as u128) * 1000;
    if due > elapsed_nanos {
        due - elapsed_nanos
    } else {
        0
    }
}

/// A row dated before market open is never published and the feed does not
/// move past it, so every later row waits behind it.
pub proof fn lemma_pre_open_row_blocks(idx: usize, time: i64)
    requires
        time < MARKET_OPEN_MICROS,
    ensures
        feed_action_spec(idx, Some(time)) is Hold,
{
}

/// A published tick is due exactly at its offset from market open, and the
/// wait before it never makes it early: waiting `wait_nanos_spec` from
/// `elapsed_nanos` reaches at least the due time.
pub proof fn lemma_publish_not_early(idx: usize, time: i64, elapsed_nanos: u128)
    requires
        time >= MARKET_OPEN_MICROS,
    ensures
        feed_action_spec(idx, Some(time)) matches FeedAction::Publish {
            idx: i,
            time: t,
            due_micros,
        } && {
            &&& i == idx
            &&& t == time
            &&& due_micros == time - MARKET_OPEN_MICROS
            &&& elapsed_nanos + wait_nanos_spec(due_micros, elapsed_nanos) >= due_micros * 1000
        },
{
}

/// A missing row ends the replay, whatever the feed's position.
pub proof fn lemma_missing_row_stops(idx: usize)
    ensures
        feed_action_spec(idx, None) is Stop,
{
}

/// The wait ends exactly when the tick is due, or at once when it is
/// already due: the elapsed time plus the wait is the later of the elapsed
/// time and the due time, so a tick is neither early nor late.
pub proof fn lemma_wait_ends_when_due(due_micros: u64, elapsed_nanos: u128)
    ensures
        wait_nanos_spec(due_micros, elapsed_nanos) >= 0,
        elapsed_nanos + wait_nanos_spec(due_micros, elapsed_nanos) == if due_micros * 1000
            > elapsed_nanos {
            due_micros * 1000
        } else {
            elapsed_nanos as int
        },
{
}

} // verus!
