use ratatui::buffer::Buffer;
use ratatui::layout::Position;
use ratatui::layout::Rect;
use tui_clock::clock::Clock;
use tui_clock::clock::ClockArgs;
use tui_clock::clock::Countdown;
use tui_clock::clock::Format;
use tui_clock::clock::Style;
use tui_clock::duration::DurationEx;
use tui_clock::widget::ClockWidget;

fn countdown_secs(secs: u64, style: Style, with_decis: bool) -> Clock<Countdown> {
    Clock::<Countdown>::new(ClockArgs {
        initial_value: DurationEx::from_secs(90),
        current_value: DurationEx::from_secs(secs),
        tick_value: DurationEx::from_secs(1),
        style,
        with_decis,
    })
}

fn symbol_at(buf: &Buffer, x: u16, y: u16) -> &str {
    buf.cell(Position::new(x, y)).expect("cell in buffer").symbol()
}

#[test]
fn width_table() {
    let w = ClockWidget::<Countdown>::new();
    assert_eq!(w.get_width(&Format::S, false), 5);
    assert_eq!(w.get_width(&Format::S, true), 14);
    assert_eq!(w.get_width(&Format::Ss, false), 11);
    assert_eq!(w.get_width(&Format::Ss, true), 20);
    assert_eq!(w.get_width(&Format::MSs, false), 20);
    assert_eq!(w.get_width(&Format::MmSs, false), 26);
    assert_eq!(w.get_width(&Format::HMmSs, false), 35);
    assert_eq!(w.get_width(&Format::HhMmSs, false), 41);
    assert_eq!(w.get_width(&Format::HhMmSs, true), 50);
}

#[test]
fn widget_height_is_six() {
    let w = ClockWidget::<Countdown>::new();
    assert_eq!(w.get_height(), 6);
}

#[test]
fn render_one_second_digit() {
    let w = ClockWidget::<Countdown>::new();
    let clock = countdown_secs(1, Style::Full, false);
    let mut buf = Buffer::empty(Rect::new(0, 0, 5, 6));
    w.render(Rect::new(0, 0, 5, 6), &mut buf, &clock);
    // the glyph of digit one: two right columns on, the rest off
    for y in 0..5 {
        assert_eq!(symbol_at(&buf, 0, y), " ");
        assert_eq!(symbol_at(&buf, 2, y), " ");
        assert_eq!(symbol_at(&buf, 3, y), "█");
        assert_eq!(symbol_at(&buf, 4, y), "█");
    }
    // no edit cursor: the border row stays empty
    for x in 0..5 {
        assert_eq!(symbol_at(&buf, x, 5), " ");
    }
}

#[test]
fn render_zero_digit_glyph() {
    let w = ClockWidget::<Countdown>::new();
    let clock = countdown_secs(0, Style::Full, false);
    let mut buf = Buffer::empty(Rect::new(0, 0, 5, 6));
    w.render(Rect::new(0, 0, 5, 6), &mut buf, &clock);
    // the glyph of digit zero: a ring with a hollow center column
    for x in 0..5 {
        assert_eq!(symbol_at(&buf, x, 0), "█");
        assert_eq!(symbol_at(&buf, x, 4), "█");
    }
    for y in 1..4 {
        assert_eq!(symbol_at(&buf, 2, y), " ");
        assert_eq!(symbol_at(&buf, 0, y), "█");
        assert_eq!(symbol_at(&buf, 4, y), "█");
    }
}

#[test]
fn render_underlines_edited_field() {
    let w = ClockWidget::<Countdown>::new();
    let mut clock = countdown_secs(1, Style::Full, false);
    clock.toggle_edit();
    let mut buf = Buffer::empty(Rect::new(0, 0, 5, 6));
    w.render(Rect::new(0, 0, 5, 6), &mut buf, &clock);
    for x in 0..5 {
        assert_eq!(symbol_at(&buf, x, 5), "─");
    }
}

#[test]
fn render_centers_horizontally() {
    let w = ClockWidget::<Countdown>::new();
    let clock = countdown_secs(1, Style::Full, false);
    let mut buf = Buffer::empty(Rect::new(0, 0, 11, 6));
    w.render(Rect::new(0, 0, 11, 6), &mut buf, &clock);
    // width 5 centered in 11 starts at column 3
    assert_eq!(symbol_at(&buf, 6, 0), "█");
    assert_eq!(symbol_at(&buf, 7, 0), "█");
    for x in 0..6 {
        assert_eq!(symbol_at(&buf, x, 0), " ");
    }
    for x in 8..11 {
        assert_eq!(symbol_at(&buf, x, 0), " ");
    }
}

#[test]
fn render_colon_between_minutes_and_seconds() {
    let w = ClockWidget::<Countdown>::new();
    // one minute and one second: M(5) :(4) SS(5) space(1) S(5), 20 wide
    let clock = countdown_secs(61, Style::Full, false);
    assert_eq!(clock.get_format(), Format::MSs);
    let mut buf = Buffer::empty(Rect::new(0, 0, 20, 6));
    w.render(Rect::new(0, 0, 20, 6), &mut buf, &clock);
    // the colon segment starts at column 5: dots at its columns 1 and 2
    for (x, y) in [(6, 1), (7, 1), (6, 3), (7, 3)] {
        assert_eq!(symbol_at(&buf, x, y), "█");
    }
    assert_eq!(symbol_at(&buf, 6, 2), " ");
    assert_eq!(symbol_at(&buf, 5, 1), " ");
    assert_eq!(symbol_at(&buf, 8, 1), " ");
}

#[test]
fn render_decisecond_dot_and_digit() {
    let w = ClockWidget::<Countdown>::new();
    // 1.5 seconds with deciseconds shown: S(5) .(4) D(5), 14 wide
    let clock = Clock::<Countdown>::new(ClockArgs {
        initial_value: DurationEx::from_secs(90),
        current_value: DurationEx::from_decis(15),
        tick_value: DurationEx::from_secs(1),
        style: Style::Full,
        with_decis: true,
    });
    assert_eq!(clock.get_format(), Format::S);
    let mut buf = Buffer::empty(Rect::new(0, 0, 14, 6));
    w.render(Rect::new(0, 0, 14, 6), &mut buf, &clock);
    // the dot: two cells one row above the border row, in the dot segment
    assert_eq!(symbol_at(&buf, 6, 4), "█");
    assert_eq!(symbol_at(&buf, 7, 4), "█");
    assert_eq!(symbol_at(&buf, 6, 3), " ");
    // the decisecond digit five: its glyph's top row is fully on
    for x in 9..14 {
        assert_eq!(symbol_at(&buf, x, 0), "█");
    }
    assert_eq!(symbol_at(&buf, 11, 1), " ");
}

#[test]
fn render_respects_style_symbol() {
    let w = ClockWidget::<Countdown>::new();
    let clock = countdown_secs(1, Style::Dark, false);
    let mut buf = Buffer::empty(Rect::new(0, 0, 5, 6));
    w.render(Rect::new(0, 0, 5, 6), &mut buf, &clock);
    assert_eq!(symbol_at(&buf, 3, 0), "▓");
}

#[test]
fn render_leaves_cells_outside_area_alone() {
    let w = ClockWidget::<Countdown>::new();
    let clock = countdown_secs(1, Style::Full, false);
    let mut buf = Buffer::empty(Rect::new(0, 0, 10, 8));
    w.render(Rect::new(0, 0, 5, 6), &mut buf, &clock);
    for y in 0..8 {
        assert_eq!(symbol_at(&buf, 9, y), " ");
    }
    for x in 0..10 {
        assert_eq!(symbol_at(&buf, x, 7), " ");
    }
}
