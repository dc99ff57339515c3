//! Laws of the clock machine, proved over the transition functions of
//! [`crate::clock`].

use vstd::prelude::*;

use crate::clock::countdown_edit_up_m;
use crate::clock::countdown_tick_m;
use crate::clock::edit_current_down_m;
use crate::clock::edit_current_up_m;
use crate::clock::edit_mode_next_m;
use crate::clock::edit_mode_prev_m;
use crate::clock::format_of;
use crate::clock::next_field;
use crate::clock::reset_m;
use crate::clock::timer_tick_m;
use crate::clock::toggle_edit_m;
use crate::clock::toggle_pause_m;
use crate::clock::ClockModel;
use crate::clock::Format;
use crate::clock::Mode;
use crate::clock::Time;
use crate::duration::DECIS_PER_HOUR;
use crate::duration::DECIS_PER_MINUTE;
use crate::duration::DECIS_PER_SECOND;
use crate::duration::MAX_DECIS;
use vstd::arithmetic::div_mod::lemma_div_is_ordered;
use vstd::arithmetic::div_mod::lemma_fundamental_div_mod;

verus! {

/// The format is monotonic in the value's magnitude: a larger current value
/// never yields a format of smaller rank.
pub proof fn lemma_format_monotonic(d1: int, d2: int)
    requires
        0 <= d1 <= d2,
    ensures
        format_of(d1).rank() <= format_of(d2).rank(),
{
    lemma_div_is_ordered(d1, d2, DECIS_PER_HOUR as int);
    lemma_div_is_ordered(d1, d2, DECIS_PER_MINUTE as int);
    lemma_div_is_ordered(d1, d2, DECIS_PER_SECOND as int);
}

/// The format is the minimal one that shows every non-zero field: each rank
/// is reached exactly at its magnitude threshold.
pub proof fn lemma_format_minimal(d: int)
    requires
        0 <= d,
    ensures
        format_of(d).rank() >= 1 <==> d / (DECIS_PER_SECOND as int) >= 10,
        format_of(d).rank() >= 2 <==> d / (DECIS_PER_MINUTE as int) >= 1,
        format_of(d).rank() >= 3 <==> d / (DECIS_PER_MINUTE as int) >= 10,
        format_of(d).rank() >= 4 <==> d / (DECIS_PER_HOUR as int) >= 1,
        format_of(d).rank() >= 5 <==> d / (DECIS_PER_HOUR as int) >= 10,
{
    lemma_fundamental_div_mod(d, DECIS_PER_SECOND as int);
    lemma_fundamental_div_mod(d, DECIS_PER_MINUTE as int);
    lemma_fundamental_div_mod(d, DECIS_PER_HOUR as int);
}

/// A countdown can never run or be edited past its budget: every countdown
/// operation keeps the current value at or below the initial one.
pub proof fn lemma_countdown_keeps_budget(m: ClockModel)
    requires
        0 <= m.current <= m.initial,
        0 <= m.tick,
    ensures
        toggle_pause_m(m).current <= toggle_pause_m(m).initial,
        toggle_edit_m(m).current <= toggle_edit_m(m).initial,
        edit_mode_next_m(m).current <= edit_mode_next_m(m).initial,
        edit_mode_prev_m(m).current <= edit_mode_prev_m(m).initial,
        countdown_edit_up_m(m).current <= countdown_edit_up_m(m).initial,
        edit_current_down_m(m).current <= edit_current_down_m(m).initial,
        countdown_tick_m(m).current <= countdown_tick_m(m).initial,
        reset_m(m).current <= reset_m(m).initial,
{
}

/// The countdown after `n` ticks.
pub open spec fn countdown_tick_n(m: ClockModel, n: nat) -> ClockModel
    decreases n,
{
    if n == 0 {
        m
    } else {
        countdown_tick_m(countdown_tick_n(m, (n - 1) as nat))
    }
}

/// The timer after `n` ticks.
pub open spec fn timer_tick_n(m: ClockModel, n: nat) -> ClockModel
    decreases n,
{
    if n == 0 {
        m
    } else {
        timer_tick_m(timer_tick_n(m, (n - 1) as nat))
    }
}

/// A finished countdown is not moved by further ticks.
pub proof fn lemma_countdown_done_stays(m: ClockModel, n: nat)
    requires
        m.mode == Mode::Done,
    ensures
        countdown_tick_n(m, n) == m,
    decreases n,
{
    if n > 0 {
        lemma_countdown_done_stays(m, (n - 1) as nat);
    }
}

/// A finished timer is not moved by further ticks: once `Done`, it never
/// regresses.
pub proof fn lemma_timer_done_stays(m: ClockModel, n: nat)
    requires
        m.mode == Mode::Done,
    ensures
        timer_tick_n(m, n) == m,
    decreases n,
{
    if n > 0 {
        lemma_timer_done_stays(m, (n - 1) as nat);
    }
}

/// What `n` ticks do to a running countdown: while the budget lasts, the
/// value falls linearly and the clock keeps ticking; from the first tick
/// that exhausts it, the clock is `Done` at exactly zero, without overshoot.
pub proof fn lemma_countdown_progress(m: ClockModel, n: nat)
    requires
        m.mode == Mode::Tick,
        m.tick >= 1,
        m.current >= 0,
    ensures
        countdown_tick_n(m, n).tick == m.tick,
        ({
            let r = countdown_tick_n(m, n);
            if m.current > n * m.tick {
                r.mode == Mode::Tick && r.current == m.current - n * m.tick
            } else if n >= 1 {
                r.mode == Mode::Done && r.current == 0
            } else {
                r == m
            }
        }),
    decreases n,
{
    if n == 0 {
        assert(countdown_tick_n(m, n) == m);
        assert(n * m.tick == 0) by (nonlinear_arith)
            requires n == 0;
    } else {
        let k = (n - 1) as nat;
        lemma_countdown_progress(m, k);
        assert(n * m.tick == k * m.tick + m.tick) by (nonlinear_arith)
            requires n == k + 1;
        assert(k * m.tick >= 0) by (nonlinear_arith)
            requires k >= 0 && m.tick >= 1;
        let p = countdown_tick_n(m, k);
        assert(countdown_tick_n(m, n) == countdown_tick_m(p));
        if m.current > k * m.tick {
            assert(p.mode == Mode::Tick && p.current == m.current - k * m.tick);
            if m.current > n * m.tick {
                assert(countdown_tick_m(p).current == m.current - n * m.tick);
                assert(countdown_tick_m(p).mode == Mode::Tick);
            } else {
                assert(countdown_tick_m(p).current == 0);
                assert(countdown_tick_m(p).mode == Mode::Done);
            }
        } else if k >= 1 {
            assert(p.mode == Mode::Done && p.current == 0);
            assert(countdown_tick_m(p) == p);
        } else {
            assert(p == m && m.current == 0);
            assert(countdown_tick_m(p).current == 0);
            assert(countdown_tick_m(p).mode == Mode::Done);
        }
    }
}

/// A running countdown with a positive tick step reaches `Done` at exactly
/// zero after any number of ticks that covers the remaining value.
pub proof fn lemma_countdown_runs_to_done(m: ClockModel, n: nat)
    requires
        m.mode == Mode::Tick,
        m.tick >= 1,
        m.current >= 0,
        n >= 1,
        m.current <= n * m.tick,
    ensures
        countdown_tick_n(m, n).mode == Mode::Done,
        countdown_tick_n(m, n).current == 0,
{
    lemma_countdown_progress(m, n);
}

/// What `n` ticks do to a running timer: the value climbs linearly below
/// the maximum; from the first tick that reaches it, the clock is `Done` at
/// exactly the maximum, never beyond it.
pub proof fn lemma_timer_progress(m: ClockModel, n: nat)
    requires
        m.mode == Mode::Tick,
        m.tick >= 1,
        0 <= m.current <= MAX_DECIS,
    ensures
        timer_tick_n(m, n).tick == m.tick,
        ({
            let r = timer_tick_n(m, n);
            if m.current + n * m.tick < MAX_DECIS {
                r.mode == Mode::Tick && r.current == m.current + n * m.tick
            } else if n >= 1 {
                r.mode == Mode::Done && r.current == MAX_DECIS
            } else {
                r == m
            }
        }),
    decreases n,
{
    if n > 0 {
        let k = (n - 1) as nat;
        lemma_timer_progress(m, k);
        assert(n * m.tick == k * m.tick + m.tick) by (nonlinear_arith)
            requires n == k + 1;
        let p = timer_tick_n(m, k);
        if m.current + k * m.tick < MAX_DECIS {
            assert(timer_tick_n(m, n) == timer_tick_m(p));
        } else if k >= 1 {
            lemma_timer_done_stays(p, 1);
            assert(timer_tick_n(m, n) == timer_tick_m(p));
        }
        assert(k * m.tick >= 0) by (nonlinear_arith)
            requires k >= 0 && m.tick >= 1;
    }
}

/// A running timer with a positive tick step reaches `Done` at exactly the
/// maximum after any number of ticks that covers the distance to it.
pub proof fn lemma_timer_runs_to_done(m: ClockModel, n: nat)
    requires
        m.mode == Mode::Tick,
        m.tick >= 1,
        0 <= m.current <= MAX_DECIS,
        n >= 1,
        MAX_DECIS <= m.current + n * m.tick,
    ensures
        timer_tick_n(m, n).mode == Mode::Done,
        timer_tick_n(m, n).current == MAX_DECIS,
{
    lemma_timer_progress(m, n);
}

/// Entering and at once leaving edit mode, with no value change in between,
/// restores the machine exactly.  The two corrective exit rules fire only
/// when the mode and the value disagree about being finished, so they are
/// ruled out here.
pub proof fn lemma_toggle_edit_round_trip(m: ClockModel)
    requires
        !(m.mode is Editable),
        m.mode == Mode::Done ==> m.current == 0,
        m.current == 0 ==> m.mode == Mode::Done,
    ensures
        toggle_edit_m(toggle_edit_m(m)) == m,
{
}

/// Editing the value down to exactly zero under any non-finished remembered
/// mode and leaving edit mode finishes the clock.
pub proof fn lemma_edit_to_zero_finishes(m: ClockModel)
    requires
        m.mode is Editable,
        m.mode.edit_prev() != Mode::Done,
        m.current == 0,
    ensures
        toggle_edit_m(m).mode == Mode::Done,
{
}

/// Editing a finished clock's value back above zero and leaving edit mode
/// restarts it at `Initial`.
pub proof fn lemma_reedit_above_zero_restarts(m: ClockModel)
    requires
        m.mode is Editable,
        m.mode.edit_prev() == Mode::Done,
        m.current > 0,
    ensures
        toggle_edit_m(m).mode == Mode::Initial,
{
}

/// The full story of finishing by editing: leaving an edit at zero yields
/// `Done`; re-entering, raising the value once and leaving again yields
/// `Initial`.
pub proof fn lemma_finish_by_edit_then_restart(m: ClockModel)
    requires
        m.mode is Editable,
        m.mode.edit_prev() != Mode::Done,
        m.current == 0,
    ensures
        ({
            let done = toggle_edit_m(m);
            let reentered = toggle_edit_m(done);
            let raised = edit_current_up_m(reentered);
            let left = toggle_edit_m(raised);
            &&& done.mode == Mode::Done
            &&& raised.current > 0
            &&& left.mode == Mode::Initial
        }),
{
}

/// Raising the hours field of a clock standing at zero yields exactly one
/// hour, shown in the single-digit-hour format.
pub proof fn lemma_hour_edit_from_zero(m: ClockModel)
    requires
        m.current == 0,
        m.mode.edit_field() == Some(Time::Hours),
    ensures
        edit_current_up_m(m).current == DECIS_PER_HOUR,
        edit_current_up_m(m).format == Format::HMmSs,
{
}

/// Whether the field cursor may rest on `t` under format `f`.
pub open spec fn field_visible(t: Time, f: Format, with_decis: bool) -> bool {
    match t {
        Time::Decis => with_decis,
        Time::Seconds => true,
        Time::Minutes => f.shows_minutes(),
        Time::Hours => f.shows_hours(),
    }
}

/// How many fields the cursor can reach under format `f`.
pub open spec fn visible_field_count(f: Format, with_decis: bool) -> nat {
    (if f.shows_hours() {
        3nat
    } else if f.shows_minutes() {
        2nat
    } else {
        1nat
    }) + (if with_decis {
        1nat
    } else {
        0nat
    })
}

/// The cursor after `n` moves to the next field.
pub open spec fn next_field_n(t: Time, f: Format, with_decis: bool, n: nat) -> Time
    decreases n,
{
    if n == 0 {
        t
    } else {
        next_field(next_field_n(t, f, with_decis, (n - 1) as nat), f, with_decis)
    }
}

/// Moving the cursor forward keeps it on a reachable field.
pub proof fn lemma_next_field_visible(t: Time, f: Format, with_decis: bool)
    requires
        field_visible(t, f, with_decis),
    ensures
        field_visible(next_field(t, f, with_decis), f, with_decis),
{
}

/// For a fixed format and decisecond setting, moving the cursor forward
/// once per reachable field brings it back to where it started: the
/// traversal is a closed cycle.
pub proof fn lemma_edit_next_cycles(t: Time, f: Format, with_decis: bool)
    requires
        field_visible(t, f, with_decis),
    ensures
        next_field_n(t, f, with_decis, visible_field_count(f, with_decis)) == t,
{
    reveal_with_fuel(next_field_n, 5);
}

/// The model after `n` forward cursor moves.
pub open spec fn edit_next_n(m: ClockModel, n: nat) -> ClockModel
    decreases n,
{
    if n == 0 {
        m
    } else {
        edit_mode_next_m(edit_next_n(m, (n - 1) as nat))
    }
}

/// On a well-formed clock in edit mode, `n` forward cursor moves only turn
/// the cursor: the mode tracks [`next_field_n`] and everything else stays.
pub proof fn lemma_edit_next_n_shape(m: ClockModel, t: Time, prev: Mode, n: nat)
    requires
        m.wf(),
        m.mode == Mode::Editable(t, Box::new(prev)),
    ensures
        edit_next_n(m, n) == (ClockModel {
            mode: Mode::Editable(next_field_n(t, m.format, m.with_decis, n), Box::new(prev)),
            ..m
        }),
    decreases n,
{
    if n == 0 {
        assert(edit_next_n(m, n) == m);
    } else {
        lemma_edit_next_n_shape(m, t, prev, (n - 1) as nat);
    }
}

/// The closed cursor cycle, lifted to the whole machine: on a well-formed
/// clock editing a reachable field, one forward move per reachable field
/// returns the machine to exactly its starting state.
pub proof fn lemma_edit_next_cycles_model(m: ClockModel, t: Time, prev: Mode)
    requires
        m.wf(),
        m.mode == Mode::Editable(t, Box::new(prev)),
        field_visible(t, m.format, m.with_decis),
    ensures
        edit_next_n(m, visible_field_count(m.format, m.with_decis)) == m,
{
    let k = visible_field_count(m.format, m.with_decis);
    lemma_edit_next_n_shape(m, t, prev, k);
    lemma_edit_next_cycles(t, m.format, m.with_decis);
}

} // verus!
