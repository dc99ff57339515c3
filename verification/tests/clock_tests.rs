use tui_clock::clock::Clock;
use tui_clock::clock::ClockArgs;
use tui_clock::clock::Countdown;
use tui_clock::clock::Format;
use tui_clock::clock::Mode;
use tui_clock::clock::Style;
use tui_clock::clock::Time;
use tui_clock::clock::Timer;
use tui_clock::duration::DurationEx;
use tui_clock::duration::MAX_DECIS;

fn countdown(initial: DurationEx, current: DurationEx, tick: DurationEx) -> Clock<Countdown> {
    Clock::<Countdown>::new(ClockArgs {
        initial_value: initial,
        current_value: current,
        tick_value: tick,
        style: Style::Full,
        with_decis: false,
    })
}

fn timer(initial: DurationEx, current: DurationEx, tick: DurationEx) -> Clock<Timer> {
    Clock::<Timer>::new(ClockArgs {
        initial_value: initial,
        current_value: current,
        tick_value: tick,
        style: Style::Full,
        with_decis: false,
    })
}

#[test]
fn countdown_ninety_seconds_to_done() {
    let mut c = countdown(
        DurationEx::from_secs(90),
        DurationEx::from_secs(90),
        DurationEx::from_secs(1),
    );
    assert_eq!(c.get_mode(), &Mode::Initial);
    c.toggle_pause();
    for _ in 0..90 {
        c.tick();
    }
    assert!(c.is_done());
    assert_eq!(c.get_current_value().total_decis(), 0);
    assert_eq!(c.get_percentage_done(), 100);
}

#[test]
fn countdown_tick_saturates_at_zero() {
    let mut c = countdown(
        DurationEx::from_secs(5),
        DurationEx::from_secs(5),
        DurationEx::from_secs(3),
    );
    c.toggle_pause();
    c.tick();
    assert_eq!(c.get_current_value().total_decis(), 20);
    assert!(!c.is_done());
    c.tick();
    assert_eq!(c.get_current_value().total_decis(), 0);
    assert!(c.is_done());
    c.tick();
    assert_eq!(c.get_current_value().total_decis(), 0);
    assert!(c.is_done());
}

#[test]
fn countdown_edit_up_clamped_to_initial() {
    let mut c = countdown(
        DurationEx::from_secs(90),
        DurationEx::from_secs(90),
        DurationEx::from_secs(1),
    );
    c.toggle_edit();
    assert!(matches!(c.get_mode(), Mode::Editable(Time::Minutes, _)));
    c.edit_up();
    assert_eq!(c.get_current_value().total_decis(), 900);
    c.edit_down();
    // thirty seconds left: the format narrows and the cursor falls back
    assert_eq!(c.get_current_value().total_decis(), 300);
    assert!(matches!(c.get_mode(), Mode::Editable(Time::Seconds, _)));
    c.edit_up();
    assert_eq!(c.get_current_value().total_decis(), 310);
    for _ in 0..70 {
        c.edit_up();
    }
    assert_eq!(c.get_current_value().total_decis(), 900);
}

#[test]
fn toggle_pause_flips_between_tick_and_pause() {
    let mut c = countdown(
        DurationEx::from_secs(10),
        DurationEx::from_secs(10),
        DurationEx::from_secs(1),
    );
    c.toggle_pause();
    assert!(c.is_running());
    c.toggle_pause();
    assert_eq!(c.get_mode(), &Mode::Pause);
    c.toggle_pause();
    assert!(c.is_running());
}

#[test]
fn toggle_edit_twice_restores_mode() {
    let mut c = countdown(
        DurationEx::from_secs(90),
        DurationEx::from_secs(60),
        DurationEx::from_secs(1),
    );
    assert_eq!(c.get_mode(), &Mode::Pause);
    c.toggle_edit();
    assert!(c.is_edit_mode());
    c.toggle_edit();
    assert_eq!(c.get_mode(), &Mode::Pause);
}

#[test]
fn edit_to_zero_finishes_and_reedit_restarts() {
    let mut c = countdown(
        DurationEx::from_secs(90),
        DurationEx::from_secs(3),
        DurationEx::from_secs(1),
    );
    c.toggle_edit();
    assert!(matches!(c.get_mode(), Mode::Editable(Time::Seconds, _)));
    c.edit_down();
    c.edit_down();
    c.edit_down();
    assert_eq!(c.get_current_value().total_decis(), 0);
    c.toggle_edit();
    assert!(c.is_done());
    c.toggle_edit();
    c.edit_up();
    assert_eq!(c.get_current_value().total_decis(), 10);
    c.toggle_edit();
    assert_eq!(c.get_mode(), &Mode::Initial);
}

#[test]
fn edit_next_cycles_through_visible_fields() {
    let mut c = Clock::<Countdown>::new(ClockArgs {
        initial_value: DurationEx::from_secs(90),
        current_value: DurationEx::from_secs(90),
        tick_value: DurationEx::from_secs(1),
        style: Style::Full,
        with_decis: true,
    });
    c.toggle_edit();
    assert!(matches!(c.get_mode(), Mode::Editable(Time::Minutes, _)));
    c.edit_next();
    assert!(matches!(c.get_mode(), Mode::Editable(Time::Decis, _)));
    c.edit_next();
    assert!(matches!(c.get_mode(), Mode::Editable(Time::Seconds, _)));
    c.edit_next();
    assert!(matches!(c.get_mode(), Mode::Editable(Time::Minutes, _)));
}

#[test]
fn edit_prev_mirrors_edit_next() {
    let mut c = Clock::<Countdown>::new(ClockArgs {
        initial_value: DurationEx::from_secs(90),
        current_value: DurationEx::from_secs(90),
        tick_value: DurationEx::from_secs(1),
        style: Style::Full,
        with_decis: true,
    });
    c.toggle_edit();
    assert!(matches!(c.get_mode(), Mode::Editable(Time::Minutes, _)));
    c.edit_prev();
    assert!(matches!(c.get_mode(), Mode::Editable(Time::Seconds, _)));
    c.edit_prev();
    assert!(matches!(c.get_mode(), Mode::Editable(Time::Decis, _)));
    c.edit_prev();
    assert!(matches!(c.get_mode(), Mode::Editable(Time::Minutes, _)));
}

#[test]
fn timer_reaches_done_at_maximum_and_stays() {
    let mut t = timer(
        DurationEx::from_decis(MAX_DECIS - 2),
        DurationEx::from_decis(MAX_DECIS - 2),
        DurationEx::from_decis(1),
    );
    assert_eq!(t.get_mode(), &Mode::Initial);
    t.toggle_pause();
    t.tick();
    assert!(!t.is_done());
    t.tick();
    assert!(t.is_done());
    assert_eq!(t.get_current_value().total_decis(), MAX_DECIS);
    t.tick();
    assert!(t.is_done());
    assert_eq!(t.get_current_value().total_decis(), MAX_DECIS);
}

#[test]
fn timer_edited_up_to_one_hour() {
    let mut t = timer(
        DurationEx::from_secs(0),
        DurationEx::from_secs(0),
        DurationEx::from_decis(1),
    );
    assert_eq!(t.get_mode(), &Mode::Initial);
    t.toggle_edit();
    assert!(matches!(t.get_mode(), Mode::Editable(Time::Seconds, _)));
    for _ in 0..60 {
        t.edit_up();
    }
    assert_eq!(t.get_format(), Format::MSs);
    t.edit_next();
    assert!(matches!(t.get_mode(), Mode::Editable(Time::Minutes, _)));
    for _ in 0..59 {
        t.edit_up();
    }
    assert_eq!(t.get_current_value().total_decis(), 36000);
    assert_eq!(t.get_format(), Format::HMmSs);
    t.edit_next();
    assert!(matches!(t.get_mode(), Mode::Editable(Time::Hours, _)));
    t.edit_up();
    assert_eq!(t.get_current_value().total_decis(), 72000);
}

#[test]
fn edit_up_respects_per_field_caps() {
    let mut t = timer(
        DurationEx::from_decis(MAX_DECIS),
        DurationEx::from_decis(MAX_DECIS),
        DurationEx::from_decis(1),
    );
    t.toggle_edit();
    assert!(matches!(t.get_mode(), Mode::Editable(Time::Minutes, _)));
    t.edit_up();
    assert_eq!(t.get_current_value().total_decis(), MAX_DECIS);
    t.edit_next();
    assert!(matches!(t.get_mode(), Mode::Editable(Time::Hours, _)));
    t.edit_up();
    assert_eq!(t.get_current_value().total_decis(), MAX_DECIS);
}

#[test]
fn edit_down_revalidates_cursor_field() {
    let mut t = timer(
        DurationEx::from_secs(3600),
        DurationEx::from_secs(3600),
        DurationEx::from_decis(1),
    );
    assert_eq!(t.get_format(), Format::HMmSs);
    t.toggle_edit();
    assert!(matches!(t.get_mode(), Mode::Editable(Time::Minutes, _)));
    t.edit_next();
    assert!(matches!(t.get_mode(), Mode::Editable(Time::Hours, _)));
    t.edit_down();
    assert_eq!(t.get_current_value().total_decis(), 0);
    assert_eq!(t.get_format(), Format::S);
    assert!(matches!(t.get_mode(), Mode::Editable(Time::Minutes, _)));
}

#[test]
fn reset_restores_initial_value() {
    let mut c = countdown(
        DurationEx::from_secs(30),
        DurationEx::from_secs(30),
        DurationEx::from_secs(1),
    );
    c.toggle_pause();
    c.tick();
    c.tick();
    assert_eq!(c.get_current_value().total_decis(), 280);
    c.reset();
    assert_eq!(c.get_mode(), &Mode::Initial);
    assert_eq!(c.get_current_value().total_decis(), 300);
    assert_eq!(c.get_initial_value().total_decis(), 300);
}

#[test]
fn percentage_done_is_truncated() {
    let mut c = countdown(
        DurationEx::from_secs(90),
        DurationEx::from_secs(90),
        DurationEx::from_secs(1),
    );
    assert_eq!(c.get_percentage_done(), 0);
    c.toggle_pause();
    c.tick();
    assert_eq!(c.get_percentage_done(), 1);
    for _ in 0..44 {
        c.tick();
    }
    assert_eq!(c.get_percentage_done(), 50);
}

#[test]
fn format_follows_magnitude_thresholds() {
    let cases: Vec<(u64, Format)> = vec![
        (0, Format::S),
        (9, Format::S),
        (10, Format::Ss),
        (59, Format::Ss),
        (60, Format::MSs),
        (599, Format::MSs),
        (600, Format::MmSs),
        (3599, Format::MmSs),
        (3600, Format::HMmSs),
        (35999, Format::HMmSs),
        (36000, Format::HhMmSs),
    ];
    let mut last_rank = 0u8;
    for (secs, expected) in cases {
        let c = countdown(
            DurationEx::from_secs(359999),
            DurationEx::from_secs(secs),
            DurationEx::from_secs(1),
        );
        let f = c.get_format();
        assert_eq!(f, expected, "at {secs} seconds");
        let rank = f.rank_val();
        assert!(rank >= last_rank, "format rank must not decrease");
        last_rank = rank;
    }
}

#[test]
fn style_next_cycles_through_all_styles() {
    let start = Style::Full;
    let mut s = start;
    let expected = [
        Style::Dark,
        Style::Medium,
        Style::Light,
        Style::Braille,
        Style::Thick,
        Style::Cross,
        Style::Full,
    ];
    for e in expected {
        s = s.next();
        assert_eq!(s, e);
    }
    assert_eq!(s, start);
}

#[test]
fn duration_decomposition() {
    let d = DurationEx::from_decis(36000 + 2 * 600 + 3 * 10 + 4);
    assert_eq!(d.hours(), 1);
    assert_eq!(d.minutes(), 62);
    assert_eq!(d.minutes_mod(), 2);
    assert_eq!(d.seconds(), 3723);
    assert_eq!(d.seconds_mod(), 3);
    assert_eq!(d.decis(), 4);
    assert_eq!(d.millis(), 3723400);
}

#[test]
fn duration_arithmetic_saturates() {
    let one = DurationEx::from_secs(1);
    let zero = DurationEx::from_secs(0);
    assert_eq!(zero.saturating_sub(one).total_decis(), 0);
    let max = DurationEx::from_decis(MAX_DECIS);
    assert_eq!(max.saturating_add(one).total_decis(), MAX_DECIS);
    assert_eq!(DurationEx::from_decis(u64::MAX).total_decis(), MAX_DECIS);
    assert_eq!(DurationEx::from_secs(2).saturating_add(one).total_decis(), 30);
    assert!(zero.lt(&one));
    assert!(one.le(&one));
    assert!(one.ge(&zero));
    assert!(one.gt(&zero));
    assert!(one.eq(&DurationEx::from_millis(1000)));
}

#[test]
fn style_and_decis_are_caller_configuration() {
    let mut c = countdown(
        DurationEx::from_secs(10),
        DurationEx::from_secs(10),
        DurationEx::from_secs(1),
    );
    c.style = Style::Cross;
    c.with_decis = true;
    assert_eq!(c.get_style(), Style::Cross);
    assert!(c.get_with_decis());
}

#[test]
fn mode_labels() {
    assert_eq!(Mode::Initial.label(), "[]");
    assert_eq!(Mode::Tick.label(), ">");
    assert_eq!(Mode::Pause.label(), "||");
    assert_eq!(Mode::Done.label(), "done");
    assert_eq!(
        Mode::Editable(Time::Hours, Box::new(Mode::Tick)).label(),
        "[edit hours]"
    );
}
