//! A dollar-cost-averaging strategy on two schedules.
//!
//! Buying starts `buy_begin` micro-seconds into the day and repeats every
//! `buy_every` micro-seconds; selling likewise with `sell_begin` and
//! `sell_every`. The phase of a tick in its schedule is the (truncating)
//! remainder of its offset from the start; when the phase drops below the
//! phase of the previous tick, a new period has begun and the strategy may
//! trade again. At most one buy and one sell happen per period.
use crate::logger::{OpenOrder, Side};
use vstd::arithmetic::div_mod::{
    lemma_div_is_ordered, lemma_fundamental_div_mod, lemma_mod_multiples_basic, lemma_mod_pos_bound,
};
use vstd::prelude::*;

verus! {

/// The schedule part of a strategy's configuration (times in micro-seconds).
pub struct StrategyConfig {
    pub name: String,
    pub buy_begin: i64,
    pub buy_every: i64,
    pub sell_begin: i64,
    pub sell_every: i64,
}

/// The state of a strategy: the phases of the last tick in each schedule,
/// and whether it has bought or sold in the current period.
pub struct Strategy {
    prev_buy_every: i64,
    prev_sell_every: i64,
    bought: bool,
    sold: bool,
    pub config: StrategyConfig,
}

/// Remainder of `a` by `b` that truncates toward zero, as `%` on integers:
/// it has the sign of `a` and a magnitude below that of `b`.
pub open spec fn trunc_rem(a: int, b: int) -> int {
    let m = if b < 0 { -b } else { b };
    if a >= 0 {
        a % m
    } else {
        -((-a) % m)
    }
}

/// Whether a tick at `time` can be placed in the schedule `begin`/`every`
/// without overflow or a division by zero.
pub open spec fn schedule_defined(time: i64, begin: i64, every: i64) -> bool {
    &&& i64::MIN <= time - begin <= i64::MAX
    &&& every != 0
    &&& !(time - begin == i64::MIN && every == -1)
}

/// The phase of `time` in the schedule that starts at `begin` and repeats
/// every `every` micro-seconds.
pub open spec fn phase(time: i64, begin: i64, every: i64) -> int {
    trunc_rem(time - begin, every as int)
}

/// Whether the "already traded" flag is still set after a tick with offset
/// `offset` and phase `ph`, when the previous tick had phase `prev`: a new
/// period (the phase dropping once the schedule has started) clears it.
pub open spec fn still_done(done: bool, offset: int, ph: int, prev: int) -> bool {
    if offset >= 0 && ph < prev {
        false
    } else {
        done
    }
}

/// `o` is the order of `side` opened by `trader` for `strategy` at `time` on
/// `code` for `quantity`.
pub open spec fn is_order(
    o: OpenOrder,
    side: Side,
    trader: Seq<char>,
    strategy: Seq<char>,
    time: i64,
    code: Seq<char>,
    quantity: i64,
) -> bool {
    &&& o.side == side
    &&& o.trader_name@ == trader
    &&& o.strategy_name@ == strategy
    &&& o.time == time
    &&& o.code@ == code
    &&& o.quantity == quantity
}

/// The `%` of two `i64`, which truncates.
fn rem_i64(a: i64, b: i64) -> (r: i64)
    requires
        b != 0,
        !(a == i64::MIN && b == -1),
    ensures
        r == trunc_rem(a as int, b as int),
{
    a.checked_rem(b).unwrap()
}

impl Strategy {
    /// The strategy's configuration.
    pub closed spec fn spec_config(&self) -> StrategyConfig {
        self.config
    }

    /// Phase of the last tick in the buy schedule.
    pub closed spec fn prev_buy_phase(&self) -> int {
        self.prev_buy_every as int
    }

    /// Phase of the last tick in the sell schedule.
    pub closed spec fn prev_sell_phase(&self) -> int {
        self.prev_sell_every as int
    }

    /// Whether the strategy has bought in the current buy period.
    pub closed spec fn has_bought(&self) -> bool {
        self.bought
    }

    /// Whether the strategy has sold in the current sell period.
    pub closed spec fn has_sold(&self) -> bool {
        self.sold
    }

    /// Whether a tick at `time` can be handled by the buy schedule.
    pub open spec fn buy_defined(&self, time: i64) -> bool {
        schedule_defined(time, self.spec_config().buy_begin, self.spec_config().buy_every)
    }

    /// Whether a tick at `time` can be handled by the sell schedule.
    pub open spec fn sell_defined(&self, time: i64) -> bool {
        schedule_defined(time, self.spec_config().sell_begin, self.spec_config().sell_every)
    }

    /// Phase of `time` in the buy schedule.
    pub open spec fn buy_phase(&self, time: i64) -> int {
        phase(time, self.spec_config().buy_begin, self.spec_config().buy_every)
    }

    /// Phase of `time` in the sell schedule.
    pub open spec fn sell_phase(&self, time: i64) -> int {
        phase(time, self.spec_config().sell_begin, self.spec_config().sell_every)
    }

    /// Whether the "bought" flag is still set once a tick at `time` is seen.
    pub open spec fn bought_after_tick(&self, time: i64) -> bool {
        still_done(
            self.has_bought(),
            time - self.spec_config().buy_begin,
            self.buy_phase(time),
            self.prev_buy_phase(),
        )
    }

    /// Whether the "sold" flag is still set once a tick at `time` is seen.
    pub open spec fn sold_after_tick(&self, time: i64) -> bool {
        still_done(
            self.has_sold(),
            time - self.spec_config().sell_begin,
            self.sell_phase(time),
            self.prev_sell_phase(),
        )
    }

    /// Whether a tick at `time` opens a buy order, given whether funds are
    /// available and how many securities are affordable.
    pub open spec fn buy_fires(&self, time: i64, funds_available: bool, candidates: nat) -> bool {
        &&& time - self.spec_config().buy_begin >= 0
        &&& !self.bought_after_tick(time)
        &&& funds_available
        &&& candidates > 0
    }

    /// Whether a tick at `time` opens a sell order, given how many
    /// securities are held.
    pub open spec fn sell_fires(&self, time: i64, holdings: nat) -> bool {
        &&& time - self.spec_config().sell_begin >= 0
        &&& !self.sold_after_tick(time)
        &&& holdings > 0
    }

    /// The buy-side state after a tick at `time`: the phase is recorded,
    /// and the flag is set when an order was opened.
    pub open spec fn buy_transition(
        &self,
        next: Strategy,
        time: i64,
        funds_available: bool,
        candidates: nat,
    ) -> bool {
        &&& next.prev_buy_phase() == self.buy_phase(time)
        &&& next.has_bought() == (self.bought_after_tick(time) || self.buy_fires(
            time,
            funds_available,
            candidates,
        ))
        &&& next.prev_sell_phase() == self.prev_sell_phase()
        &&& next.has_sold() == self.has_sold()
        &&& next.spec_config() == self.spec_config()
    }

    /// The sell-side state after a tick at `time`.
    pub open spec fn sell_transition(&self, next: Strategy, time: i64, holdings: nat) -> bool {
        &&& next.prev_sell_phase() == self.sell_phase(time)
        &&& next.has_sold() == (self.sold_after_tick(time) || self.sell_fires(time, holdings))
        &&& next.prev_buy_phase() == self.prev_buy_phase()
        &&& next.has_bought() == self.has_bought()
        &&& next.spec_config() == self.spec_config()
    }

    /// A fresh strategy: no phase seen yet (phase 0) and nothing traded.
    pub fn new(config: StrategyConfig) -> (s: Self)
        ensures
            s.prev_buy_phase() == 0,
            s.prev_sell_phase() == 0,
            !s.has_bought(),
            !s.has_sold(),
            s.spec_config() == config,
    {
        Strategy { prev_buy_every: 0, prev_sell_every: 0, bought: false, sold: false, config }
    }

    /// Handles a tick at `time` for the buy schedule, with `draw` choosing
    /// among the candidates. `funds_available` tells whether the money set
    /// aside for one buy is positive; `candidates` lists the affordable
    /// securities with the quantity one buy would take of each. When the
    /// schedule has started, no buy happened in the current period, funds
    /// are available and some security is affordable, the candidate at
    /// `draw % candidates.len()` is bought; otherwise nothing is ordered.
    pub fn buy_signal_with_draw(
        &mut self,
        time: i64,
        trader_name: &str,
        funds_available: bool,
        candidates: &Vec<(String, i64)>,
        draw: usize,
    ) -> (r: Option<OpenOrder>)
        requires
            old(self).buy_defined(time),
        ensures
            old(self).buy_transition(*final(self), time, funds_available, candidates@.len()),
            r is Some <==> old(self).buy_fires(time, funds_available, candidates@.len()),
            r matches Some(o) ==> {
                let pick = candidates@[(draw as int) % (candidates@.len() as int)];
                is_order(
                    o,
                    Side::Buy,
                    trader_name@,
                    old(self).spec_config().name@,
                    time,
                    pick.0@,
                    pick.1,
                )
            },
    {
        let buy_start_on = time - self.config.buy_begin;
        let buy_every = rem_i64(buy_start_on, self.config.buy_every);
        if buy_start_on >= 0 && buy_every < self.prev_buy_every {
            self.bought = false;
        }
        self.prev_buy_every = buy_every;
        if buy_start_on >= 0 && !self.bought && funds_available {
            if candidates.len() == 0 {
                return None;
            }
            let k = draw % candidates.len();
            let code = candidates[k].0.clone();
            let quantity = candidates[k].1;
            self.bought = true;
            return Some(
                OpenOrder {
                    side: Side::Buy,
                    trader_name: trader_name.to_owned(),
                    strategy_name: self.config.name.clone(),
                    time,
                    code,
                    quantity,
                },
            );
        }
        None
    }

    /// Handles a tick at `time` for the buy schedule, choosing among the
    /// candidates at random. Whether an order is opened, and the state
    /// after the tick, are as for `buy_signal_with_draw`; the order is for
    /// one of the candidates, with the quantity listed for it.
    pub fn buy_signal(
        &mut self,
        time: i64,
        trader_name: &str,
        funds_available: bool,
        candidates: &Vec<(String, i64)>,
    ) -> (r: Option<OpenOrder>)
        requires
            old(self).buy_defined(time),
        ensures
            old(self).buy_transition(*final(self), time, funds_available, candidates@.len()),
            r is Some <==> old(self).buy_fires(time, funds_available, candidates@.len()),
            r matches Some(o) ==> exists|i: int|
                0 <= i < candidates@.len() && is_order(
                    o,
                    Side::Buy,
                    trader_name@,
                    old(self).spec_config().name@,
                    time,
                    #[trigger] candidates@[i].0@,
                    candidates@[i].1,
                ),
    {
        let draw = random_draw();
        let r = self.buy_signal_with_draw(time, trader_name, funds_available, candidates, draw);
        proof {
            if r is Some {
                let i = (draw as int) % (candidates@.len() as int);
                assert(0 <= i < candidates@.len());
                assert(candidates@[i].0@ == candidates@[i].0@);
            }
        }
        r
    }

    /// Handles a tick at `time` for the sell schedule. `holdings` lists the
    /// held securities and quantities in the order the holdings are walked.
    /// When the schedule has started, no sell happened in the current
    /// period and something is held, the whole of the first holding is
    /// sold; otherwise nothing is ordered.
    pub fn sell_signal(
        &mut self,
        time: i64,
        trader_name: &str,
        holdings: &Vec<(String, i64)>,
    ) -> (r: Option<OpenOrder>)
        requires
            old(self).sell_defined(time),
        ensures
            old(self).sell_transition(*final(self), time, holdings@.len()),
            r is Some <==> old(self).sell_fires(time, holdings@.len()),
            r matches Some(o) ==> is_order(
                o,
                Side::Sell,
                trader_name@,
                old(self).spec_config().name@,
                time,
                holdings@[0].0@,
                holdings@[0].1,
            ),
    {
        let sell_start_on = time - self.config.sell_begin;
        let sell_every = rem_i64(sell_start_on, self.config.sell_every);
        if sell_start_on >= 0 && sell_every < self.prev_sell_every {
            self.sold = false;
        }
        self.prev_sell_every = sell_every;
        if sell_start_on >= 0 && !self.sold {
            if holdings.len() == 0 {
                return None;
            }
            let code = holdings[0].0.clone();
            let quantity = holdings[0].1;
            self.sold = true;
            return Some(
                OpenOrder {
                    side: Side::Sell,
                    trader_name: trader_name.to_owned(),
                    strategy_name: self.config.name.clone(),
                    time,
                    code,
                    quantity,
                },
            );
        }
        None
    }
}

/// The length of one period of a schedule that repeats every `every`.
pub open spec fn period_length(every: int) -> int {
    if every < 0 {
        -every
    } else {
        every
    }
}

/// Two offsets into a started schedule that fall in the same period have
/// phases in the same order as the offsets.
proof fn lemma_phase_order_within_period(off1: int, off2: int, every: int)
    requires
        every != 0,
        0 <= off1 <= off2,
        off1 / period_length(every) == off2 / period_length(every),
    ensures
        trunc_rem(off1, every) <= trunc_rem(off2, every),
{
    let m = period_length(every);
    lemma_fundamental_div_mod(off1, m);
    lemma_fundamental_div_mod(off2, m);
}

/// Once a buy order has been opened at `t1`, no further buy order is opened
/// at a later tick `t2` of the same period.
pub proof fn lemma_at_most_one_buy_per_period(
    s: Strategy,
    s1: Strategy,
    t1: i64,
    t2: i64,
    funds1: bool,
    candidates1: nat,
    funds2: bool,
    candidates2: nat,
)
    requires
        s.buy_defined(t1),
        s1.buy_defined(t2),
        s.buy_fires(t1, funds1, candidates1),
        s.buy_transition(s1, t1, funds1, candidates1),
        t1 <= t2,
        (t1 - s.spec_config().buy_begin) / period_length(s.spec_config().buy_every as int) == (t2
            - s.spec_config().buy_begin) / period_length(s.spec_config().buy_every as int),
    ensures
        !s1.buy_fires(t2, funds2, candidates2),
{
    lemma_phase_order_within_period(
        t1 - s.spec_config().buy_begin,
        t2 - s.spec_config().buy_begin,
        s.spec_config().buy_every as int,
    );
}

/// Once a sell order has been opened at `t1`, no further sell order is
/// opened at a later tick `t2` of the same period.
pub proof fn lemma_at_most_one_sell_per_period(
    s: Strategy,
    s1: Strategy,
    t1: i64,
    t2: i64,
    holdings1: nat,
    holdings2: nat,
)
    requires
        s.sell_defined(t1),
        s1.sell_defined(t2),
        s.sell_fires(t1, holdings1),
        s.sell_transition(s1, t1, holdings1),
        t1 <= t2,
        (t1 - s.spec_config().sell_begin) / period_length(s.spec_config().sell_every as int) == (t2
            - s.spec_config().sell_begin) / period_length(s.spec_config().sell_every as int),
    ensures
        !s1.sell_fires(t2, holdings2),
{
    lemma_phase_order_within_period(
        t1 - s.spec_config().sell_begin,
        t2 - s.spec_config().sell_begin,
        s.spec_config().sell_every as int,
    );
}

/// The buy period that the tick at `time` falls in, counted from the start
/// of the buy schedule.
pub open spec fn buy_window(s: Strategy, time: i64) -> int {
    (time - s.spec_config().buy_begin) / period_length(s.spec_config().buy_every as int)
}

/// The sell period that the tick at `time` falls in, counted from the start
/// of the sell schedule.
pub open spec fn sell_window(s: Strategy, time: i64) -> int {
    (time - s.spec_config().sell_begin) / period_length(s.spec_config().sell_every as int)
}

/// `states` is a run of the buy schedule over ticks at the sorted `times`:
/// `states[k + 1]` is `states[k]` after the tick at `times[k]`, which saw
/// `funds[k]` and `candidates[k]`.
pub open spec fn buy_run(
    states: Seq<Strategy>,
    times: Seq<i64>,
    funds: Seq<bool>,
    candidates: Seq<nat>,
) -> bool {
    &&& states.len() == times.len() + 1
    &&& funds.len() == times.len()
    &&& candidates.len() == times.len()
    &&& forall|k: int|
        0 <= k < times.len() ==> #[trigger] states[k].buy_defined(times[k])
            && states[k].buy_transition(states[k + 1], times[k], funds[k], candidates[k])
    &&& forall|a: int, b: int| 0 <= a <= b < times.len() ==> times[a] <= times[b]
}

/// `states` is a run of the sell schedule over ticks at the sorted `times`,
/// each seeing `holdings[k]` held securities.
pub open spec fn sell_run(states: Seq<Strategy>, times: Seq<i64>, holdings: Seq<nat>) -> bool {
    &&& states.len() == times.len() + 1
    &&& holdings.len() == times.len()
    &&& forall|k: int|
        0 <= k < times.len() ==> #[trigger] states[k].sell_defined(times[k])
            && states[k].sell_transition(states[k + 1], times[k], holdings[k])
    &&& forall|a: int, b: int| 0 <= a <= b < times.len() ==> times[a] <= times[b]
}

/// Later ticks of a started schedule are in the same or a later period.
proof fn lemma_window_order(off1: int, off2: int, every: int)
    requires
        every != 0,
        off1 <= off2,
    ensures
        off1 / period_length(every) <= off2 / period_length(every),
{
    lemma_div_is_ordered(off1, off2, period_length(every));
}

/// The configuration does not change along a run.
proof fn lemma_buy_run_config(
    states: Seq<Strategy>,
    times: Seq<i64>,
    funds: Seq<bool>,
    candidates: Seq<nat>,
    k: int,
)
    requires
        buy_run(states, times, funds, candidates),
        0 <= k <= times.len(),
    ensures
        states[k].spec_config() == states[0].spec_config(),
    decreases k,
{
    if k > 0 {
        assert(states[k - 1].buy_defined(times[k - 1]));
        lemma_buy_run_config(states, times, funds, candidates, k - 1);
    }
}

/// After a buy at tick `i`, as long as the ticks stay in its period the
/// strategy keeps its "bought" flag and records each tick's phase.
proof fn lemma_bought_persists(
    states: Seq<Strategy>,
    times: Seq<i64>,
    funds: Seq<bool>,
    candidates: Seq<nat>,
    i: int,
    k: int,
)
    requires
        buy_run(states, times, funds, candidates),
        0 <= i < k <= times.len(),
        states[i].buy_fires(times[i], funds[i], candidates[i]),
        buy_window(states[0], times[k - 1]) == buy_window(states[0], times[i]),
    ensures
        states[k].has_bought(),
        states[k].prev_buy_phase() == states[0].buy_phase(times[k - 1]),
    decreases k,
{
    lemma_buy_run_config(states, times, funds, candidates, i);
    lemma_buy_run_config(states, times, funds, candidates, k - 1);
    let cfg = states[0].spec_config();
    assert(states[k - 1].buy_defined(times[k - 1]));
    if k > i + 1 {
        assert(states[k - 2].buy_defined(times[k - 2]));
        assert(times[i] <= times[k - 2] && times[k - 2] <= times[k - 1]);
        lemma_window_order(times[i] - cfg.buy_begin, times[k - 2] - cfg.buy_begin, cfg.buy_every as int);
        lemma_window_order(times[k - 2] - cfg.buy_begin, times[k - 1] - cfg.buy_begin, cfg.buy_every as int);
        lemma_bought_persists(states, times, funds, candidates, i, k - 1);
        lemma_buy_run_config(states, times, funds, candidates, k - 2);
        lemma_phase_order_within_period(
            times[k - 2] - cfg.buy_begin,
            times[k - 1] - cfg.buy_begin,
            cfg.buy_every as int,
        );
    }
}

/// Along a run of the buy schedule, two buy orders are never opened in the
/// same period: each buy falls in a later period than the one before,
/// whatever the ticks in between.
pub proof fn lemma_one_buy_per_window_in_run(
    states: Seq<Strategy>,
    times: Seq<i64>,
    funds: Seq<bool>,
    candidates: Seq<nat>,
    i: int,
    j: int,
)
    requires
        buy_run(states, times, funds, candidates),
        0 <= i < j < times.len(),
        states[i].buy_fires(times[i], funds[i], candidates[i]),
        states[j].buy_fires(times[j], funds[j], candidates[j]),
    ensures
        buy_window(states[0], times[i]) < buy_window(states[0], times[j]),
{
    lemma_buy_run_config(states, times, funds, candidates, i);
    lemma_buy_run_config(states, times, funds, candidates, j);
    lemma_buy_run_config(states, times, funds, candidates, j - 1);
    let cfg = states[0].spec_config();
    assert(states[i].buy_defined(times[i]));
    assert(states[j].buy_defined(times[j]));
    assert(states[j - 1].buy_defined(times[j - 1]));
    assert(times[i] <= times[j - 1] && times[j - 1] <= times[j]);
    lemma_window_order(times[i] - cfg.buy_begin, times[j - 1] - cfg.buy_begin, cfg.buy_every as int);
    lemma_window_order(times[j - 1] - cfg.buy_begin, times[j] - cfg.buy_begin, cfg.buy_every as int);
    if buy_window(states[0], times[j]) == buy_window(states[0], times[i]) {
        lemma_bought_persists(states, times, funds, candidates, i, j);
        lemma_phase_order_within_period(
            times[j - 1] - cfg.buy_begin,
            times[j] - cfg.buy_begin,
            cfg.buy_every as int,
        );
        assert(false);
    }
}

/// The configuration does not change along a run of the sell schedule.
proof fn lemma_sell_run_config(
    states: Seq<Strategy>,
    times: Seq<i64>,
    holdings: Seq<nat>,
    k: int,
)
    requires
        sell_run(states, times, holdings),
        0 <= k <= times.len(),
    ensures
        states[k].spec_config() == states[0].spec_config(),
    decreases k,
{
    if k > 0 {
        assert(states[k - 1].sell_defined(times[k - 1]));
        lemma_sell_run_config(states, times, holdings, k - 1);
    }
}

/// After a sell at tick `i`, as long as the ticks stay in its period the
/// strategy keeps its "sold" flag and records each tick's phase.
proof fn lemma_sold_persists(
    states: Seq<Strategy>,
    times: Seq<i64>,
    holdings: Seq<nat>,
    i: int,
    k: int,
)
    requires
        sell_run(states, times, holdings),
        0 <= i < k <= times.len(),
        states[i].sell_fires(times[i], holdings[i]),
        sell_window(states[0], times[k - 1]) == sell_window(states[0], times[i]),
    ensures
        states[k].has_sold(),
        states[k].prev_sell_phase() == states[0].sell_phase(times[k - 1]),
    decreases k,
{
    lemma_sell_run_config(states, times, holdings, i);
    lemma_sell_run_config(states, times, holdings, k - 1);
    let cfg = states[0].spec_config();
    assert(states[k - 1].sell_defined(times[k - 1]));
    if k > i + 1 {
        assert(states[k - 2].sell_defined(times[k - 2]));
        assert(times[i] <= times[k - 2] && times[k - 2] <= times[k - 1]);
        lemma_window_order(times[i] - cfg.sell_begin, times[k - 2] - cfg.sell_begin, cfg.sell_every as int);
        lemma_window_order(times[k - 2] - cfg.sell_begin, times[k - 1] - cfg.sell_begin, cfg.sell_every as int);
        lemma_sold_persists(states, times, holdings, i, k - 1);
        lemma_sell_run_config(states, times, holdings, k - 2);
        lemma_phase_order_within_period(
            times[k - 2] - cfg.sell_begin,
            times[k - 1] - cfg.sell_begin,
            cfg.sell_every as int,
        );
    }
}

/// Along a run of the sell schedule, two sell orders are never opened in
/// the same period, whatever the ticks in between.
pub proof fn lemma_one_sell_per_window_in_run(
    states: Seq<Strategy>,
    times: Seq<i64>,
    holdings: Seq<nat>,
    i: int,
    j: int,
)
    requires
        sell_run(states, times, holdings),
        0 <= i < j < times.len(),
        states[i].sell_fires(times[i], holdings[i]),
        states[j].sell_fires(times[j], holdings[j]),
    ensures
        sell_window(states[0], times[i]) < sell_window(states[0], times[j]),
{
    lemma_sell_run_config(states, times, holdings, i);
    lemma_sell_run_config(states, times, holdings, j);
    lemma_sell_run_config(states, times, holdings, j - 1);
    let cfg = states[0].spec_config();
    assert(states[i].sell_defined(times[i]));
    assert(states[j].sell_defined(times[j]));
    assert(states[j - 1].sell_defined(times[j - 1]));
    assert(times[i] <= times[j - 1] && times[j - 1] <= times[j]);
    lemma_window_order(times[i] - cfg.sell_begin, times[j - 1] - cfg.sell_begin, cfg.sell_every as int);
    lemma_window_order(times[j - 1] - cfg.sell_begin, times[j] - cfg.sell_begin, cfg.sell_every as int);
    if sell_window(states[0], times[j]) == sell_window(states[0], times[i]) {
        lemma_sold_persists(states, times, holdings, i, j);
        lemma_phase_order_within_period(
            times[j - 1] - cfg.sell_begin,
            times[j] - cfg.sell_begin,
            cfg.sell_every as int,
        );
        assert(false);
    }
}

/// A fresh strategy buys at its first tick once the buy schedule has
/// started, when funds and an affordable security are there; likewise it
/// sells when something is held.
pub proof fn lemma_fresh_strategy_trades(
    s: Strategy,
    time: i64,
    candidates: nat,
    holdings: nat,
)
    requires
        !s.has_bought(),
        !s.has_sold(),
    ensures
        time - s.spec_config().buy_begin >= 0 && candidates > 0 ==> s.buy_fires(time, true, candidates),
        time - s.spec_config().sell_begin >= 0 && holdings > 0 ==> s.sell_fires(time, holdings),
{
}

/// The phase of a tick in the buy schedule is the remainder of its offset
/// `time - buy_begin` by the period, as integer `%` gives it: it differs
/// from the offset by a whole number of periods, lies in `0..m` for a
/// started schedule and in `-m+1..=0` before it, where `m` is the length
/// of a period. This holds for every offset, however large.
pub proof fn lemma_buy_phase_is_remainder(s: Strategy, time: i64)
    requires
        s.buy_defined(time),
    ensures
        ({
            let off: int = time - s.spec_config().buy_begin;
            let every: int = s.spec_config().buy_every as int;
            let m: int = if every < 0 { -every } else { every };
            let ph = s.buy_phase(time);
            &&& off >= 0 ==> 0 <= ph < m
            &&& off < 0 ==> -m < ph <= 0
            &&& (off - ph) % m == 0
        }),
{
    lemma_remainder_characterized(
        time - s.spec_config().buy_begin,
        s.spec_config().buy_every as int,
    );
}

/// The phase of a tick in the sell schedule is the remainder of its offset
/// `time - sell_begin` by the period, as integer `%` gives it, for every
/// offset however large.
pub proof fn lemma_sell_phase_is_remainder(s: Strategy, time: i64)
    requires
        s.sell_defined(time),
    ensures
        ({
            let off: int = time - s.spec_config().sell_begin;
            let every: int = s.spec_config().sell_every as int;
            let m: int = if every < 0 { -every } else { every };
            let ph = s.sell_phase(time);
            &&& off >= 0 ==> 0 <= ph < m
            &&& off < 0 ==> -m < ph <= 0
            &&& (off - ph) % m == 0
        }),
{
    lemma_remainder_characterized(
        time - s.spec_config().sell_begin,
        s.spec_config().sell_every as int,
    );
}

proof fn lemma_remainder_characterized(off: int, every: int)
    requires
        every != 0,
    ensures
        ({
            let m: int = if every < 0 { -every } else { every };
            let ph = trunc_rem(off, every);
            &&& off >= 0 ==> 0 <= ph < m
            &&& off < 0 ==> -m < ph <= 0
            &&& (off - ph) % m == 0
        }),
{
    let m: int = if every < 0 { -every } else { every };
    if off >= 0 {
        lemma_fundamental_div_mod(off, m);
        lemma_mod_pos_bound(off, m);
        assert(off - off % m == (off / m) * m) by (nonlinear_arith)
            requires
                off == m * (off / m) + off % m,
        ;
        lemma_mod_multiples_basic(off / m, m);
    } else {
        let n = -off;
        lemma_fundamental_div_mod(n, m);
        lemma_mod_pos_bound(n, m);
        assert(off + n % m == (-(n / m)) * m) by (nonlinear_arith)
            requires
                n == m * (n / m) + n % m,
                off == -n,
        ;
        lemma_mod_multiples_basic(-(n / m), m);
    }
}

/// After a tick at `t1` of a started buy schedule, a later started tick at
/// `t2` whose remainder `(t2 - buy_begin) % m` is below that of `t1` (it is
/// in a new period) opens a buy order when funds and an affordable security
/// are there, whatever happened at `t1`.
pub proof fn lemma_buy_rearms_when_remainder_drops(
    s: Strategy,
    s1: Strategy,
    t1: i64,
    t2: i64,
    funds1: bool,
    candidates1: nat,
    candidates2: nat,
)
    requires
        s.buy_defined(t1),
        s.buy_transition(s1, t1, funds1, candidates1),
        t1 - s.spec_config().buy_begin >= 0,
        t2 - s.spec_config().buy_begin >= 0,
        s.spec_config().buy_every != 0,
        ({
            let every: int = s.spec_config().buy_every as int;
            let m: int = if every < 0 { -every } else { every };
            (t2 - s.spec_config().buy_begin) % m < (t1 - s.spec_config().buy_begin) % m
        }),
        candidates2 > 0,
    ensures
        s1.buy_fires(t2, true, candidates2),
{
    lemma_remainder_characterized(t1 - s.spec_config().buy_begin, s.spec_config().buy_every as int);
    lemma_remainder_characterized(t2 - s.spec_config().buy_begin, s.spec_config().buy_every as int);
}

/// After a tick at `t1` of a started sell schedule, a later started tick at
/// `t2` whose remainder `(t2 - sell_begin) % m` is below that of `t1` opens
/// a sell order when something is held, whatever happened at `t1`.
pub proof fn lemma_sell_rearms_when_remainder_drops(
    s: Strategy,
    s1: Strategy,
    t1: i64,
    t2: i64,
    holdings1: nat,
    holdings2: nat,
)
    requires
        s.sell_defined(t1),
        s.sell_transition(s1, t1, holdings1),
        t1 - s.spec_config().sell_begin >= 0,
        t2 - s.spec_config().sell_begin >= 0,
        s.spec_config().sell_every != 0,
        ({
            let every: int = s.spec_config().sell_every as int;
            let m: int = if every < 0 { -every } else { every };
            (t2 - s.spec_config().sell_begin) % m < (t1 - s.spec_config().sell_begin) % m
        }),
        holdings2 > 0,
    ensures
        s1.sell_fires(t2, holdings2),
{
    lemma_remainder_characterized(t1 - s.spec_config().sell_begin, s.spec_config().sell_every as int);
    lemma_remainder_characterized(t2 - s.spec_config().sell_begin, s.spec_config().sell_every as int);
}

/// A buy order needs a started schedule, funds and an affordable
/// security; a sell order needs a started schedule and something held.
pub proof fn lemma_orders_need_means(
    s: Strategy,
    time: i64,
    funds: bool,
    candidates: nat,
    holdings: nat,
)
    ensures
        s.buy_fires(time, funds, candidates) ==> time >= s.spec_config().buy_begin && funds
            && candidates > 0,
        s.sell_fires(time, holdings) ==> time >= s.spec_config().sell_begin && holdings > 0,
{
}

/// No order is opened before a schedule has started.
pub proof fn lemma_no_order_before_begin(
    s: Strategy,
    time: i64,
    funds: bool,
    candidates: nat,
    holdings: nat,
)
    ensures
        time < s.spec_config().buy_begin ==> !s.buy_fires(time, funds, candidates),
        time < s.spec_config().sell_begin ==> !s.sell_fires(time, holdings),
{
}

/// When a tick starts a new period (its phase is below the previous one),
/// the strategy buys again as soon as funds and an affordable security are
/// there, whatever it did in the period before; likewise for selling when
/// something is held.
pub proof fn lemma_new_period_rearms(
    s: Strategy,
    time: i64,
    funds: bool,
    candidates: nat,
    holdings: nat,
)
    ensures
        time - s.spec_config().buy_begin >= 0 && s.buy_phase(time) < s.prev_buy_phase() ==> (
        s.buy_fires(time, funds, candidates) <==> funds && candidates > 0),
        time - s.spec_config().sell_begin >= 0 && s.sell_phase(time) < s.prev_sell_phase() ==> (
        s.sell_fires(time, holdings) <==> holdings > 0),
{
}

/// A refused buy (no funds, or nothing affordable) does not use up the
/// period: if nothing was bought in it yet, any later tick of the schedule
/// that finds funds and an affordable security opens a buy order.
pub proof fn lemma_refused_buy_keeps_period_open(
    s: Strategy,
    s1: Strategy,
    t1: i64,
    t2: i64,
    funds1: bool,
    candidates1: nat,
    candidates2: nat,
)
    requires
        s.buy_transition(s1, t1, funds1, candidates1),
        !s.bought_after_tick(t1),
        !s.buy_fires(t1, funds1, candidates1),
        t2 - s.spec_config().buy_begin >= 0,
        candidates2 > 0,
    ensures
        s1.buy_fires(t2, true, candidates2),
{
}

/// A refused sell (nothing held) does not use up the period: if nothing
/// was sold in it yet, any later tick of the schedule that finds something
/// held opens a sell order.
pub proof fn lemma_refused_sell_keeps_period_open(
    s: Strategy,
    s1: Strategy,
    t1: i64,
    t2: i64,
    holdings1: nat,
    holdings2: nat,
)
    requires
        s.sell_transition(s1, t1, holdings1),
        !s.sold_after_tick(t1),
        !s.sell_fires(t1, holdings1),
        t2 - s.spec_config().sell_begin >= 0,
        holdings2 > 0,
    ensures
        s1.sell_fires(t2, holdings2),
{
}

/// `rand::random::<usize>()`: a value drawn from the thread-local random
/// generator. Nothing is claimed of it; any `usize` may come back.
#[verifier::external_body]
fn random_draw() -> usize {
    rand::random::<usize>()
}

} // verus!
