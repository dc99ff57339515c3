//! The clock state machine.
//!
//! A [`Clock`] holds an initial, a current and a per-tick duration, the
//! machine state ([`Mode`]), the display [`Format`] derived from the current
//! value, and display configuration.  The variant tag ([`Countdown`] or
//! [`Timer`]) decides the tick direction and the "done" condition.
//!
//! Every mutating operation is specified by a transition function on
//! [`ClockModel`], the mathematical image of a clock; the laws about the
//! machine are proved over those transition functions in [`crate::laws`].

use vstd::prelude::*;

use crate::duration::DurationEx;
use crate::duration::DECIS_PER_HOUR;
use crate::duration::DECIS_PER_MINUTE;
use crate::duration::DECIS_PER_SECOND;
use crate::duration::MAX_DECIS;
use core::marker::PhantomData;

verus! {

/// The time field a user is editing.
#[derive(Debug, Copy, Clone, PartialEq, Eq, Structural)]
pub enum Time {
    Decis,
    Seconds,
    Minutes,
    Hours,
}

/// The machine state.  `Editable` carries the field under the cursor and the
/// mode that ending the edit will restore.
#[derive(Debug, PartialEq, Eq)]
pub enum Mode {
    Initial,
    Tick,
    Pause,
    Editable(Time, Box<Mode>),
    Done,
}

impl Clone for Mode {
    fn clone(&self) -> (res: Self)
        ensures
            res == self,
        decreases self,
    {
        match self {
            Mode::Initial => Mode::Initial,
            Mode::Tick => Mode::Tick,
            Mode::Pause => Mode::Pause,
            Mode::Editable(t, prev) => Mode::Editable(*t, Box::new((**prev).clone())),
            Mode::Done => Mode::Done,
        }
    }
}

impl Mode {
    /// A short text for the mode, as shown in a status line.
    pub fn label(&self) -> (r: &'static str)
        ensures
            r@ == self.label_spec(),
    {
        match self {
            Mode::Initial => "[]",
            Mode::Tick => ">",
            Mode::Pause => "||",
            Mode::Editable(t, _) => match t {
                Time::Decis => "[edit deciseconds]",
                Time::Seconds => "[edit seconds]",
                Time::Minutes => "[edit minutes]",
                Time::Hours => "[edit hours]",
            },
            Mode::Done => "done",
        }
    }

    pub open spec fn label_spec(&self) -> Seq<char> {
        match self {
            Mode::Initial => "[]"@,
            Mode::Tick => ">"@,
            Mode::Pause => "||"@,
            Mode::Editable(t, _) => match t {
                Time::Decis => "[edit deciseconds]"@,
                Time::Seconds => "[edit seconds]"@,
                Time::Minutes => "[edit minutes]"@,
                Time::Hours => "[edit hours]"@,
            },
            Mode::Done => "done"@,
        }
    }

    /// The field under the cursor, or `None` outside of editing.
    pub open spec fn edit_field(self) -> Option<Time> {
        match self {
            Mode::Editable(t, _) => Some(t),
            _ => None,
        }
    }

    /// The mode that ending the current edit would restore; the mode itself
    /// outside of editing.
    pub open spec fn edit_prev(self) -> Mode {
        match self {
            Mode::Editable(_, prev) => *prev,
            _ => self,
        }
    }
}

/// Which time fields the display currently shows, from seconds-only up to
/// two-digit hours.  Purely a function of the current value's magnitude.
#[derive(Debug, Copy, Clone, PartialEq, Eq, PartialOrd, Ord, Structural)]
pub enum Format {
    S,
    Ss,
    MSs,
    MmSs,
    HMmSs,
    HhMmSs,
}

impl Format {
    /// The position of the format in the magnitude order: `S` is 0,
    /// `HhMmSs` is 5.
    pub open spec fn rank(self) -> int {
        match self {
            Format::S => 0,
            Format::Ss => 1,
            Format::MSs => 2,
            Format::MmSs => 3,
            Format::HMmSs => 4,
            Format::HhMmSs => 5,
        }
    }

    /// The rank as a value.
    pub fn rank_val(self) -> (r: u8)
        ensures
            r as int == self.rank(),
    {
        match self {
            Format::S => 0,
            Format::Ss => 1,
            Format::MSs => 2,
            Format::MmSs => 3,
            Format::HMmSs => 4,
            Format::HhMmSs => 5,
        }
    }

    /// True when `self` shows no more fields than `other`.
    pub fn le(self, other: Format) -> (r: bool)
        ensures
            r == (self.rank() <= other.rank()),
    {
        self.rank_val() <= other.rank_val()
    }

    /// True for the formats that show a minute field.
    pub open spec fn shows_minutes(self) -> bool {
        self.rank() >= 2
    }

    /// True for the formats that show an hour field.
    pub open spec fn shows_hours(self) -> bool {
        self.rank() >= 4
    }
}

/// The display format for a value of `d` deciseconds: the coarsest format
/// that still shows every non-zero field.
pub open spec fn format_of(d: int) -> Format {
    if d / (DECIS_PER_HOUR as int) >= 10 {
        Format::HhMmSs
    } else if d / (DECIS_PER_HOUR as int) >= 1 {
        Format::HMmSs
    } else if d / (DECIS_PER_MINUTE as int) >= 10 {
        Format::MmSs
    } else if d / (DECIS_PER_MINUTE as int) >= 1 {
        Format::MSs
    } else if d / (DECIS_PER_SECOND as int) >= 10 {
        Format::Ss
    } else {
        Format::S
    }
}

/// The glyph that fills the "on" cells of a digit.
#[derive(Debug, Copy, Clone, PartialEq, Eq, Structural)]
pub enum Style {
    Full,
    Light,
    Medium,
    Dark,
    Thick,
    Cross,
    Braille,
}

impl Default for Style {
    fn default() -> (r: Self)
        ensures
            r == Style::Full,
    {
        Style::Full
    }
}

impl Style {
    /// The style a user's toggle switches to; a fixed cycle through all
    /// seven styles.
    pub fn next(&self) -> (r: Self)
        ensures
            r == self.next_spec(),
    {
        match self {
            Style::Full => Style::Dark,
            Style::Dark => Style::Medium,
            Style::Medium => Style::Light,
            Style::Light => Style::Braille,
            Style::Braille => Style::Thick,
            Style::Thick => Style::Cross,
            Style::Cross => Style::Full,
        }
    }

    pub open spec fn next_spec(self) -> Style {
        match self {
            Style::Full => Style::Dark,
            Style::Dark => Style::Medium,
            Style::Medium => Style::Light,
            Style::Light => Style::Braille,
            Style::Braille => Style::Thick,
            Style::Thick => Style::Cross,
            Style::Cross => Style::Full,
        }
    }
}

/// The mathematical image of a clock: durations as deciseconds.
pub struct ClockModel {
    pub initial: int,
    pub current: int,
    pub tick: int,
    pub mode: Mode,
    pub format: Format,
    pub style: Style,
    pub with_decis: bool,
}

impl ClockModel {
    /// Well-formedness: durations are within the displayable range and the
    /// cached format is the one derived from the current value.
    pub open spec fn wf(self) -> bool {
        &&& 0 <= self.current <= MAX_DECIS
        &&& 0 <= self.initial <= MAX_DECIS
        &&& 0 <= self.tick <= MAX_DECIS
        &&& self.format == format_of(self.current)
    }
}

/// The field the edit cursor starts on: seconds while the format shows
/// seconds as the most significant field, minutes otherwise.
pub open spec fn enter_edit_field(f: Format) -> Time {
    if f.rank() <= Format::Ss.rank() {
        Time::Seconds
    } else {
        Time::Minutes
    }
}

/// The mode restored when an edit ends, given the just-edited current value:
/// a finished clock edited to a non-zero value restarts at `Initial`, a clock
/// edited down to zero finishes at `Done`, and otherwise the remembered mode
/// comes back unchanged.
pub open spec fn exit_edit_mode(prev: Mode, current: int) -> Mode {
    if prev == Mode::Done && current > 0 {
        Mode::Initial
    } else if prev != Mode::Done && current == 0 {
        Mode::Done
    } else {
        prev
    }
}

/// `toggle_pause`: `Tick` halts to `Pause`; every other mode starts `Tick`.
pub open spec fn toggle_pause_m(m: ClockModel) -> ClockModel {
    ClockModel {
        mode: if m.mode == Mode::Tick {
            Mode::Pause
        } else {
            Mode::Tick
        },
        ..m
    }
}

/// `toggle_edit`: leaving an edit restores the remembered mode via
/// [`exit_edit_mode`]; entering remembers the mode and puts the cursor on
/// the field from [`enter_edit_field`].
pub open spec fn toggle_edit_m(m: ClockModel) -> ClockModel {
    match m.mode {
        Mode::Editable(_, prev) => ClockModel { mode: exit_edit_mode(*prev, m.current), ..m },
        _ => ClockModel {
            mode: Mode::Editable(enter_edit_field(m.format), Box::new(m.mode)),
            ..m
        },
    }
}

/// One step of the field under the cursor, in deciseconds.
pub open spec fn field_unit(t: Time) -> int {
    match t {
        Time::Decis => DECIS_PER_SECOND as int / 10,
        Time::Seconds => DECIS_PER_SECOND as int,
        Time::Minutes => DECIS_PER_MINUTE as int,
        Time::Hours => DECIS_PER_HOUR as int,
    }
}

/// Whether an upward edit of field `t` is accepted at `current`.  The
/// clearance below the maximum differs by field: deciseconds, seconds and
/// minutes may land exactly on the maximum, hours must stay a full hour
/// under it.
pub open spec fn up_allowed(t: Time, current: int) -> bool {
    match t {
        Time::Decis => current <= MAX_DECIS - 1,
        Time::Seconds => current <= MAX_DECIS - DECIS_PER_SECOND,
        Time::Minutes => current <= MAX_DECIS - DECIS_PER_MINUTE,
        Time::Hours => current < MAX_DECIS - DECIS_PER_HOUR,
    }
}

/// `edit_current_up`: while editing, add one unit of the cursor's field
/// unless that would pass the field's cap; then refresh the format.
pub open spec fn edit_current_up_m(m: ClockModel) -> ClockModel {
    let c = match m.mode {
        Mode::Editable(t, _) => if up_allowed(t, m.current) {
            m.current + field_unit(t)
        } else {
            m.current
        },
        _ => m.current,
    };
    ClockModel { current: c, format: format_of(c), ..m }
}

/// The cursor after a downward edit, pulled back onto a field the new format
/// still shows: hours fall back to minutes, minutes to seconds.
pub open spec fn revalidate_mode(mode: Mode, f: Format) -> Mode {
    match mode {
        Mode::Editable(t, prev) => if t == Time::Hours && !f.shows_hours() {
            Mode::Editable(Time::Minutes, prev)
        } else if t == Time::Minutes && !f.shows_minutes() {
            Mode::Editable(Time::Seconds, prev)
        } else {
            Mode::Editable(t, prev)
        },
        _ => mode,
    }
}

/// `edit_current_down`: while editing, subtract one unit of the cursor's
/// field, saturating at zero; refresh the format and re-validate the cursor
/// against it.
pub open spec fn edit_current_down_m(m: ClockModel) -> ClockModel {
    let c = match m.mode {
        Mode::Editable(t, _) => if m.current >= field_unit(t) {
            m.current - field_unit(t)
        } else {
            0
        },
        _ => m.current,
    };
    ClockModel {
        current: c,
        format: format_of(c),
        mode: revalidate_mode(m.mode, format_of(c)),
        ..m
    }
}

/// The next field the cursor moves to, going from less to more significant:
/// fields the format does not show are skipped, deciseconds are reachable
/// only when they are displayed, and the traversal wraps.
pub open spec fn next_field(t: Time, f: Format, with_decis: bool) -> Time {
    match t {
        Time::Decis => Time::Seconds,
        Time::Seconds => if !f.shows_minutes() {
            if with_decis {
                Time::Decis
            } else {
                Time::Seconds
            }
        } else {
            Time::Minutes
        },
        Time::Minutes => if !f.shows_hours() {
            if with_decis {
                Time::Decis
            } else {
                Time::Seconds
            }
        } else {
            Time::Hours
        },
        Time::Hours => if with_decis {
            Time::Decis
        } else {
            Time::Seconds
        },
    }
}

/// The mirror traversal of [`next_field`].
pub open spec fn prev_field(t: Time, f: Format, with_decis: bool) -> Time {
    match t {
        Time::Decis => if !f.shows_minutes() {
            Time::Seconds
        } else if !f.shows_hours() {
            Time::Minutes
        } else {
            Time::Hours
        },
        Time::Seconds => if with_decis {
            Time::Decis
        } else if !f.shows_minutes() {
            Time::Seconds
        } else if !f.shows_hours() {
            Time::Minutes
        } else {
            Time::Hours
        },
        Time::Minutes => Time::Seconds,
        Time::Hours => Time::Minutes,
    }
}

/// `edit_next`: move the cursor by [`next_field`]; the value is untouched
/// and the format refreshed.
pub open spec fn edit_mode_next_m(m: ClockModel) -> ClockModel {
    let mode = match m.mode {
        Mode::Editable(t, prev) => Mode::Editable(next_field(t, m.format, m.with_decis), prev),
        _ => m.mode,
    };
    ClockModel { mode, format: format_of(m.current), ..m }
}

/// `edit_prev`: move the cursor by [`prev_field`]; the value is untouched
/// and the format refreshed.
pub open spec fn edit_mode_prev_m(m: ClockModel) -> ClockModel {
    let mode = match m.mode {
        Mode::Editable(t, prev) => Mode::Editable(prev_field(t, m.format, m.with_decis), prev),
        _ => m.mode,
    };
    ClockModel { mode, format: format_of(m.current), ..m }
}

/// `reset`: back to `Initial` with the current value restored to the
/// initial one.
pub open spec fn reset_m(m: ClockModel) -> ClockModel {
    ClockModel {
        mode: Mode::Initial,
        current: m.initial,
        format: format_of(m.initial),
        ..m
    }
}

/// A countdown's construction: `Done` when the current value is zero,
/// `Initial` when it is untouched, `Pause` otherwise.
pub open spec fn countdown_new_m(
    initial: int,
    current: int,
    tick: int,
    style: Style,
    with_decis: bool,
) -> ClockModel {
    ClockModel {
        initial,
        current,
        tick,
        mode: if current == 0 {
            Mode::Done
        } else if current == initial {
            Mode::Initial
        } else {
            Mode::Pause
        },
        format: format_of(current),
        style,
        with_decis,
    }
}

/// A countdown's tick: only in `Tick` mode, subtract the tick value
/// (saturating at zero) and finish at `Done` exactly when zero is reached.
pub open spec fn countdown_tick_m(m: ClockModel) -> ClockModel {
    if m.mode == Mode::Tick {
        let c = if m.current >= m.tick {
            m.current - m.tick
        } else {
            0
        };
        ClockModel {
            current: c,
            mode: if c == 0 {
                Mode::Done
            } else {
                Mode::Tick
            },
            format: format_of(c),
            ..m
        }
    } else {
        m
    }
}

/// A countdown's upward edit: the shared upward edit, then the current value
/// pulled back to the initial one where it passed it, with the format
/// refreshed.
pub open spec fn countdown_edit_up_m(m: ClockModel) -> ClockModel {
    let m1 = edit_current_up_m(m);
    if m.initial < m1.current {
        ClockModel { current: m.initial, format: format_of(m.initial), ..m1 }
    } else {
        m1
    }
}

/// The percentage of the countdown's budget already elapsed, truncated.
pub open spec fn percentage_done_of(initial: int, current: int) -> int {
    let elapsed = if initial >= current {
        initial - current
    } else {
        0
    };
    (elapsed * 100) / initial
}

/// A timer's construction: `Initial` when the current value is untouched,
/// `Done` when it is already at the maximum, `Pause` otherwise.
pub open spec fn timer_new_m(
    initial: int,
    current: int,
    tick: int,
    style: Style,
    with_decis: bool,
) -> ClockModel {
    ClockModel {
        initial,
        current,
        tick,
        mode: if current == initial {
            Mode::Initial
        } else if current >= MAX_DECIS {
            Mode::Done
        } else {
            Mode::Pause
        },
        format: format_of(current),
        style,
        with_decis,
    }
}

/// A timer's tick: only in `Tick` mode, add the tick value (saturating at
/// the maximum) and finish at `Done` when the maximum is reached.
pub open spec fn timer_tick_m(m: ClockModel) -> ClockModel {
    if m.mode == Mode::Tick {
        let c = if m.current + m.tick <= MAX_DECIS {
            m.current + m.tick
        } else {
            MAX_DECIS as int
        };
        ClockModel {
            current: c,
            mode: if c >= MAX_DECIS {
                Mode::Done
            } else {
                Mode::Tick
            },
            format: format_of(c),
            ..m
        }
    } else {
        m
    }
}

/// The variant tag of a countdown clock.
#[derive(Debug, Clone)]
pub struct Countdown {}

/// The variant tag of a timer clock.
#[derive(Debug, Clone)]
pub struct Timer {}

/// The construction record for a clock.
pub struct ClockArgs {
    pub initial_value: DurationEx,
    pub current_value: DurationEx,
    pub tick_value: DurationEx,
    pub style: Style,
    pub with_decis: bool,
}

/// The clock itself; `T` is [`Countdown`] or [`Timer`].
#[derive(Debug)]
pub struct Clock<T> {
    initial_value: DurationEx,
    current_value: DurationEx,
    tick_value: DurationEx,
    mode: Mode,
    format: Format,
    pub style: Style,
    pub with_decis: bool,
    phantom: PhantomData<T>,
}

impl<T> Clone for Clock<T> {
    fn clone(&self) -> (res: Self)
        ensures
            res@ == self@,
    {
        Clock {
            initial_value: self.initial_value,
            current_value: self.current_value,
            tick_value: self.tick_value,
            mode: self.mode.clone(),
            format: self.format,
            style: self.style,
            with_decis: self.with_decis,
            phantom: PhantomData,
        }
    }
}

impl<T> View for Clock<T> {
    type V = ClockModel;

    closed spec fn view(&self) -> ClockModel {
        ClockModel {
            initial: self.initial_value@,
            current: self.current_value@,
            tick: self.tick_value@,
            mode: self.mode,
            format: self.format,
            style: self.style,
            with_decis: self.with_decis,
        }
    }
}

impl<T> Clock<T> {
    /// Flip between running and paused; any other mode starts the clock.
    pub fn toggle_pause(&mut self)
        ensures
            final(self)@ == toggle_pause_m(old(self)@),
    {
        self.mode = if matches!(self.mode, Mode::Tick) {
            Mode::Pause
        } else {
            Mode::Tick
        };
    }

    pub fn get_initial_value(&self) -> (r: &DurationEx)
        ensures
            r@ == self@.initial,
    {
        &self.initial_value
    }

    pub fn get_current_value(&self) -> (r: &DurationEx)
        ensures
            r@ == self@.current,
    {
        &self.current_value
    }

    /// Enter or leave edit mode; see [`toggle_edit_m`].
    pub fn toggle_edit(&mut self)
        ensures
            final(self)@ == toggle_edit_m(old(self)@),
    {
        let m = self.mode.clone();
        self.mode = match m {
            Mode::Editable(_, prev) => {
                let p = *prev;
                if matches!(p, Mode::Done) {
                    if !self.current_value.is_zero() {
                        Mode::Initial
                    } else {
                        p
                    }
                } else {
                    if self.current_value.is_zero() {
                        Mode::Done
                    } else {
                        p
                    }
                }
            },
            mode => {
                if self.format.le(Format::Ss) {
                    Mode::Editable(Time::Seconds, Box::new(mode))
                } else {
                    Mode::Editable(Time::Minutes, Box::new(mode))
                }
            },
        };
    }

    /// While editing, raise the current value by one unit of the cursor's
    /// field; see [`edit_current_up_m`] for the per-field caps.
    pub fn edit_current_up(&mut self)
        ensures
            final(self)@ == edit_current_up_m(old(self)@),
    {
        let cv = self.current_value;
        self.current_value = match &self.mode {
            Mode::Editable(Time::Decis, _) => {
                if cv.le(&DurationEx::from_decis(MAX_DECIS - 1)) {
                    cv.saturating_add(DurationEx::from_decis(1))
                } else {
                    cv
                }
            },
            Mode::Editable(Time::Seconds, _) => {
                if cv.le(&DurationEx::from_decis(MAX_DECIS - DECIS_PER_SECOND)) {
                    cv.saturating_add(DurationEx::from_decis(DECIS_PER_SECOND))
                } else {
                    cv
                }
            },
            Mode::Editable(Time::Minutes, _) => {
                if cv.le(&DurationEx::from_decis(MAX_DECIS - DECIS_PER_MINUTE)) {
                    cv.saturating_add(DurationEx::from_decis(DECIS_PER_MINUTE))
                } else {
                    cv
                }
            },
            Mode::Editable(Time::Hours, _) => {
                if cv.lt(&DurationEx::from_decis(MAX_DECIS - DECIS_PER_HOUR)) {
                    cv.saturating_add(DurationEx::from_decis(DECIS_PER_HOUR))
                } else {
                    cv
                }
            },
            _ => cv,
        };
        self.update_format();
    }

    /// While editing, lower the current value by one unit of the cursor's
    /// field, saturating at zero; the cursor is pulled back onto a visible
    /// field.  See [`edit_current_down_m`].
    pub fn edit_current_down(&mut self)
        ensures
            final(self)@ == edit_current_down_m(old(self)@),
    {
        let cv = self.current_value;
        self.current_value = match &self.mode {
            Mode::Editable(Time::Decis, _) => cv.saturating_sub(DurationEx::from_decis(1)),
            Mode::Editable(Time::Seconds, _) => cv.saturating_sub(
                DurationEx::from_decis(DECIS_PER_SECOND),
            ),
            Mode::Editable(Time::Minutes, _) => cv.saturating_sub(
                DurationEx::from_decis(DECIS_PER_MINUTE),
            ),
            Mode::Editable(Time::Hours, _) => cv.saturating_sub(
                DurationEx::from_decis(DECIS_PER_HOUR),
            ),
            _ => cv,
        };
        self.update_format();
        self.update_mode();
    }

    /// The configured style, as the renderer reads it.
    pub fn get_style(&self) -> (r: Style)
        ensures
            r == self@.style,
    {
        self.style
    }

    /// Whether the decisecond tail is shown, as the renderer reads it.
    pub fn get_with_decis(&self) -> (r: bool)
        ensures
            r == self@.with_decis,
    {
        self.with_decis
    }

    /// The cached format, as the renderer reads it.
    pub(crate) fn cached_format(&self) -> (r: Format)
        ensures
            r == self@.format,
    {
        self.format
    }

    pub fn get_mode(&self) -> (r: &Mode)
        ensures
            r == &self@.mode,
    {
        &self.mode
    }

    pub fn is_running(&self) -> (r: bool)
        ensures
            r == (self@.mode == Mode::Tick),
    {
        matches!(self.mode, Mode::Tick)
    }

    pub fn is_edit_mode(&self) -> (r: bool)
        ensures
            r == (self@.mode is Editable),
    {
        matches!(self.mode, Mode::Editable(_, _))
    }

    /// Move the edit cursor to the next field; see [`edit_mode_next_m`].
    fn edit_mode_next(&mut self)
        ensures
            final(self)@ == edit_mode_next_m(old(self)@),
    {
        let m = self.mode.clone();
        self.mode = match m {
            Mode::Editable(t, prev) => {
                let nt = match t {
                    Time::Decis => Time::Seconds,
                    Time::Seconds => {
                        if self.format.le(Format::Ss) {
                            if self.with_decis {
                                Time::Decis
                            } else {
                                Time::Seconds
                            }
                        } else {
                            Time::Minutes
                        }
                    },
                    Time::Minutes => {
                        if self.format.le(Format::MmSs) {
                            if self.with_decis {
                                Time::Decis
                            } else {
                                Time::Seconds
                            }
                        } else {
                            Time::Hours
                        }
                    },
                    Time::Hours => {
                        if self.with_decis {
                            Time::Decis
                        } else {
                            Time::Seconds
                        }
                    },
                };
                Mode::Editable(nt, prev)
            },
            mode => mode,
        };
        self.update_format();
    }

    /// Move the edit cursor to the previous field; see [`edit_mode_prev_m`].
    fn edit_mode_prev(&mut self)
        ensures
            final(self)@ == edit_mode_prev_m(old(self)@),
    {
        let m = self.mode.clone();
        self.mode = match m {
            Mode::Editable(t, prev) => {
                let nt = match t {
                    Time::Decis => {
                        if self.format.le(Format::Ss) {
                            Time::Seconds
                        } else if self.format.le(Format::MmSs) {
                            Time::Minutes
                        } else {
                            Time::Hours
                        }
                    },
                    Time::Seconds => {
                        if self.with_decis {
                            Time::Decis
                        } else if self.format.le(Format::Ss) {
                            Time::Seconds
                        } else if self.format.le(Format::MmSs) {
                            Time::Minutes
                        } else {
                            Time::Hours
                        }
                    },
                    Time::Minutes => Time::Seconds,
                    Time::Hours => Time::Minutes,
                };
                Mode::Editable(nt, prev)
            },
            mode => mode,
        };
        self.update_format();
    }

    /// Pull the edit cursor back onto a field the format still shows.
    fn update_mode(&mut self)
        ensures
            final(self)@ == (ClockModel {
                mode: revalidate_mode(old(self)@.mode, old(self)@.format),
                ..old(self)@
            }),
    {
        let m = self.mode.clone();
        self.mode = match m {
            Mode::Editable(Time::Hours, prev) => {
                if self.format.le(Format::MmSs) {
                    Mode::Editable(Time::Minutes, prev)
                } else {
                    Mode::Editable(Time::Hours, prev)
                }
            },
            Mode::Editable(Time::Minutes, prev) => {
                if self.format.le(Format::Ss) {
                    Mode::Editable(Time::Seconds, prev)
                } else {
                    Mode::Editable(Time::Minutes, prev)
                }
            },
            mode => mode,
        };
    }

    /// Back to `Initial` with the initial value restored.
    pub fn reset(&mut self)
        ensures
            final(self)@ == reset_m(old(self)@),
    {
        self.mode = Mode::Initial;
        self.current_value = self.initial_value;
        self.update_format();
    }

    pub fn is_done(&self) -> (r: bool)
        ensures
            r == (self@.mode == Mode::Done),
    {
        matches!(self.mode, Mode::Done)
    }

    /// Refresh the cached format from the current value.
    fn update_format(&mut self)
        ensures
            final(self)@ == (ClockModel { format: format_of(old(self)@.current), ..old(self)@ }),
    {
        self.format = self.get_format();
    }

    /// The display format derived from the current value alone.
    pub fn get_format(&self) -> (r: Format)
        ensures
            r == format_of(self@.current),
    {
        if self.current_value.hours() >= 10 {
            Format::HhMmSs
        } else if self.current_value.hours() >= 1 {
            Format::HMmSs
        } else if self.current_value.minutes() >= 10 {
            Format::MmSs
        } else if self.current_value.minutes() >= 1 {
            Format::MSs
        } else if self.current_value.seconds() >= 10 {
            Format::Ss
        } else {
            Format::S
        }
    }
}

impl Clock<Countdown> {
    pub fn new(args: ClockArgs) -> (r: Self)
        ensures
            r@ == countdown_new_m(
                args.initial_value@,
                args.current_value@,
                args.tick_value@,
                args.style,
                args.with_decis,
            ),
    {
        let ClockArgs { initial_value, current_value, tick_value, style, with_decis } = args;
        let mut instance = Self {
            initial_value,
            current_value,
            tick_value,
            mode: if current_value.is_zero() {
                Mode::Done
            } else if current_value.eq(&initial_value) {
                Mode::Initial
            } else {
                Mode::Pause
            },
            format: Format::S,
            style,
            with_decis,
            phantom: PhantomData,
        };
        instance.update_format();
        instance
    }

    /// One tick while running: subtract the tick value, saturating at zero,
    /// and finish exactly when zero is reached.
    pub fn tick(&mut self)
        ensures
            final(self)@ == countdown_tick_m(old(self)@),
    {
        if matches!(self.mode, Mode::Tick) {
            self.current_value = self.current_value.saturating_sub(self.tick_value);
            self.set_done();
            self.update_format();
        }
    }

    fn set_done(&mut self)
        ensures
            final(self)@ == (ClockModel {
                mode: if old(self)@.current == 0 {
                    Mode::Done
                } else {
                    old(self)@.mode
                },
                ..old(self)@
            }),
    {
        if self.current_value.is_zero() {
            self.mode = Mode::Done;
        }
    }

    /// The elapsed share of the initial budget, as a truncated percentage.
    pub fn get_percentage_done(&self) -> (r: u16)
        requires
            self@.initial > 0,
        ensures
            r as int == percentage_done_of(self@.initial, self@.current),
    {
        let elapsed = self.initial_value.saturating_sub(self.current_value);
        let pct = elapsed.millis() * 100 / self.initial_value.millis();
        proof {
            lemma_percentage(self@.initial, self@.current);
        }
        pct as u16
    }

    pub fn edit_next(&mut self)
        ensures
            final(self)@ == edit_mode_next_m(old(self)@),
    {
        self.edit_mode_next();
    }

    pub fn edit_prev(&mut self)
        ensures
            final(self)@ == edit_mode_prev_m(old(self)@),
    {
        self.edit_mode_prev();
    }

    /// Raise the current value, then pull it back to the initial one where
    /// it passed it: a countdown can never be edited past its budget.
    pub fn edit_up(&mut self)
        ensures
            final(self)@ == countdown_edit_up_m(old(self)@),
    {
        self.edit_current_up();
        if self.initial_value.lt(&self.current_value) {
            self.current_value = self.initial_value;
            self.update_format();
        }
    }

    pub fn edit_down(&mut self)
        ensures
            final(self)@ == edit_current_down_m(old(self)@),
    {
        self.edit_current_down();
    }
}

/// The percentage computed over milliseconds equals the one over
/// deciseconds, and stays within a `u16`.
proof fn lemma_percentage(initial: int, current: int)
    requires
        0 < initial <= MAX_DECIS,
        0 <= current <= MAX_DECIS,
    ensures
        ({
            let elapsed = if initial >= current {
                initial - current
            } else {
                0
            };
            &&& (elapsed * 100) * 100 / (initial * 100) == percentage_done_of(initial, current)
            &&& 0 <= percentage_done_of(initial, current) <= 100
        }),
{
    let elapsed = if initial >= current {
        initial - current
    } else {
        0
    };
    assert((elapsed * 100) * 100 / (initial * 100) == (elapsed * 100) / initial) by {
        vstd::arithmetic::div_mod::lemma_div_denominator(elapsed * 100 * 100, 100, initial);
        assert(elapsed * 100 * 100 / 100 == elapsed * 100);
    }
    assert((elapsed * 100) / initial <= 100) by {
        assert(elapsed * 100 <= initial * 100) by (nonlinear_arith)
            requires 0 <= elapsed <= initial;
        vstd::arithmetic::div_mod::lemma_div_is_ordered(elapsed * 100, initial * 100, initial);
        vstd::arithmetic::div_mod::lemma_div_by_multiple(100, initial);
    }
    assert((elapsed * 100) / initial >= 0) by {
        vstd::arithmetic::div_mod::lemma_div_pos_is_pos(elapsed * 100, initial);
    }
}

impl Clock<Timer> {
    pub fn new(args: ClockArgs) -> (r: Self)
        ensures
            r@ == timer_new_m(
                args.initial_value@,
                args.current_value@,
                args.tick_value@,
                args.style,
                args.with_decis,
            ),
    {
        let ClockArgs { initial_value, current_value, tick_value, style, with_decis } = args;
        let mut instance = Self {
            initial_value,
            current_value,
            tick_value,
            mode: if current_value.eq(&initial_value) {
                Mode::Initial
            } else if current_value.ge(&DurationEx::from_decis(MAX_DECIS)) {
                Mode::Done
            } else {
                Mode::Pause
            },
            format: Format::S,
            style,
            with_decis,
            phantom: PhantomData,
        };
        instance.update_format();
        instance
    }

    /// One tick while running: add the tick value, saturating at the
    /// maximum, and finish when the maximum is reached.
    pub fn tick(&mut self)
        ensures
            final(self)@ == timer_tick_m(old(self)@),
    {
        if matches!(self.mode, Mode::Tick) {
            self.current_value = self.current_value.saturating_add(self.tick_value);
            self.set_done();
            self.update_format();
        }
    }

    fn set_done(&mut self)
        ensures
            final(self)@ == (ClockModel {
                mode: if old(self)@.current >= MAX_DECIS {
                    Mode::Done
                } else {
                    old(self)@.mode
                },
                ..old(self)@
            }),
    {
        if self.current_value.ge(&DurationEx::from_decis(MAX_DECIS)) {
            self.mode = Mode::Done;
        }
    }

    pub fn edit_next(&mut self)
        ensures
            final(self)@ == edit_mode_next_m(old(self)@),
    {
        self.edit_mode_next();
    }

    pub fn edit_prev(&mut self)
        ensures
            final(self)@ == edit_mode_prev_m(old(self)@),
    {
        self.edit_mode_prev();
    }

    /// Raise the current value; a timer's only ceiling is the maximum.
    pub fn edit_up(&mut self)
        ensures
            final(self)@ == edit_current_up_m(old(self)@),
    {
        self.edit_current_up();
    }

    pub fn edit_down(&mut self)
        ensures
            final(self)@ == edit_current_down_m(old(self)@),
    {
        self.edit_current_down();
    }
}

} // verus!
