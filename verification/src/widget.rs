//! The clock renderer.
//!
//! Stateless: given a clock's state and a drawing region it paints the
//! current value as large block digits into a terminal cell buffer.  The
//! layout is a centered row of fixed-width segments — digits, colons, a
//! space between digit pairs, and an optional decisecond tail — derived
//! from the clock's format; each digit is a five-by-five glyph, underlined
//! with a border row while its field is being edited.
//!
//! Everything the renderer writes is pinned down by [`render_patch`]: the
//! symbol painted at each cell position, or `None` where the buffer is left
//! alone.

use vstd::prelude::*;

use crate::clock::Clock;
use crate::clock::ClockModel;
use crate::clock::Format;
use crate::clock::Mode;
use crate::clock::Style;
use crate::clock::Time;
use crate::duration::DECIS_PER_HOUR;
use crate::duration::DECIS_PER_MINUTE;
use crate::duration::DECIS_PER_SECOND;
use core::marker::PhantomData;
use ratatui::buffer::Buffer;
use ratatui::layout::Rect;

verus! {

/// Width of one digit glyph, in cells.
pub const DIGIT_WIDTH: u16 = 5;

/// Height of the widget: the five glyph rows and one border row.
pub const DIGIT_HEIGHT: u16 = 6;

/// Width of a colon or decimal-dot segment, padding included.
pub const COLON_WIDTH: u16 = 4;

/// Width of the space between the two digits of a pair.
pub const SPACE_WIDTH: u16 = 1;

/// ratatui's `Rect`: a position and size on the terminal grid, in cells.
#[verifier::external_type_specification]
pub struct ExRect(Rect);

/// ratatui's `Buffer`: the grid of cells a frame is drawn into.  Kept
/// opaque; what it holds is reached through [`buf_symbols`] alone.
#[verifier::external_type_specification]
#[verifier::external_body]
pub struct ExBuffer(Buffer);

/// The cells of a buffer: each position the buffer has a cell for, with the
/// symbol that cell shows.
pub uninterp spec fn buf_symbols(b: Buffer) -> Map<(int, int), Seq<char>>;

/// Relies on ratatui's `Buffer::cell_mut` and `Cell::set_symbol`: writing at
/// a position the buffer has a cell for replaces that cell's symbol and no
/// other; a position outside the buffer is ignored.
#[verifier::external_body]
fn buf_set_symbol(buf: &mut Buffer, x: u16, y: u16, symbol: &str)
    ensures
        buf_symbols(*final(buf)).dom() == buf_symbols(*old(buf)).dom(),
        forall|k: (int, int)|
            buf_symbols(*old(buf)).dom().contains(k) ==> buf_symbols(*final(buf))[k] == (if k == (
                x as int,
                y as int,
            ) {
                symbol@
            } else {
                buf_symbols(*old(buf))[k]
            }),
{
    if let Some(cell) = buf.cell_mut(ratatui::layout::Position { x, y }) {
        cell.set_symbol(symbol);
    }
}

/// One fixed-width piece of the horizontal layout.
#[derive(Debug, Copy, Clone, PartialEq, Eq, Structural)]
pub enum Segment {
    HourTens,
    HourOnes,
    MinuteTens,
    MinuteOnes,
    SecondTens,
    SecondOnes,
    DeciOnes,
    Colon,
    Space,
    Dot,
}

/// The width of a segment, in cells.
pub open spec fn seg_width(s: Segment) -> int {
    match s {
        Segment::Colon => COLON_WIDTH as int,
        Segment::Dot => COLON_WIDTH as int,
        Segment::Space => SPACE_WIDTH as int,
        _ => DIGIT_WIDTH as int,
    }
}

/// The ordered segments of the layout for a format: digit pairs separated
/// by spaces, colons between fields, and the decisecond dot and digit when
/// deciseconds are shown.
pub open spec fn segs_of(f: Format, with_decis: bool) -> Seq<Segment> {
    let base = match f {
        Format::HhMmSs => seq![
            Segment::HourTens,
            Segment::Space,
            Segment::HourOnes,
            Segment::Colon,
            Segment::MinuteTens,
            Segment::Space,
            Segment::MinuteOnes,
            Segment::Colon,
            Segment::SecondTens,
            Segment::Space,
            Segment::SecondOnes,
        ],
        Format::HMmSs => seq![
            Segment::HourOnes,
            Segment::Colon,
            Segment::MinuteTens,
            Segment::Space,
            Segment::MinuteOnes,
            Segment::Colon,
            Segment::SecondTens,
            Segment::Space,
            Segment::SecondOnes,
        ],
        Format::MmSs => seq![
            Segment::MinuteTens,
            Segment::Space,
            Segment::MinuteOnes,
            Segment::Colon,
            Segment::SecondTens,
            Segment::Space,
            Segment::SecondOnes,
        ],
        Format::MSs => seq![
            Segment::MinuteOnes,
            Segment::Colon,
            Segment::SecondTens,
            Segment::Space,
            Segment::SecondOnes,
        ],
        Format::Ss => seq![Segment::SecondTens, Segment::Space, Segment::SecondOnes],
        Format::S => seq![Segment::SecondOnes],
    };
    if with_decis {
        base + seq![Segment::Dot, Segment::DeciOnes]
    } else {
        base
    }
}

/// The summed width of the first `i` segments.
pub open spec fn sum_to(s: Seq<Segment>, i: int) -> int
    decreases i,
{
    if i <= 0 {
        0
    } else {
        sum_to(s, i - 1) + seg_width(s[i - 1])
    }
}

/// The total width of the layout for a format, in cells.
pub open spec fn total_width(f: Format, with_decis: bool) -> int {
    sum_to(segs_of(f, with_decis), segs_of(f, with_decis).len() as int)
}

/// The left edge of the centered layout band inside `area`: the layout is
/// centered while it fits, and flush left where it does not.
pub open spec fn band_left(area: Rect, w: int) -> int {
    if area.width >= w {
        area.x + (area.width - w) / 2
    } else {
        area.x as int
    }
}

/// The glyph bitmaps, five rows of five cells each, packed into 25 bits:
/// the bit for row `r`, column `c` is bit `r * 5 + (4 - c)`, so each
/// five-bit group below reads left to right, bottom row first.
pub open spec fn digit_mask(n: int) -> u32 {
    if n == 0 {
        0b11111_11011_11011_11011_11111u32
    } else if n == 1 {
        0b00011_00011_00011_00011_00011u32
    } else if n == 2 {
        0b11111_11000_11111_00011_11111u32
    } else if n == 3 {
        0b11111_00011_11111_00011_11111u32
    } else if n == 4 {
        0b00011_00011_11111_11011_11011u32
    } else if n == 5 {
        0b11111_00011_11111_11000_11111u32
    } else if n == 6 {
        0b11111_11011_11111_11000_11111u32
    } else if n == 7 {
        0b00011_00011_00011_00011_11111u32
    } else if n == 8 {
        0b11111_11011_11111_11011_11111u32
    } else if n == 9 {
        0b11111_00011_11111_11011_11111u32
    } else {
        // the error glyph, for a digit outside 0..=9
        0b11111_11000_11110_11000_11111u32
    }
}

/// Whether the glyph for digit `n` is on at row `r`, column `c`.
pub open spec fn digit_cell_on(n: int, r: int, c: int) -> bool {
    (digit_mask(n) >> ((r * 5 + (4 - c)) as u32)) & 1 == 1
}

/// The bitmap of digit `n` as a value.
fn digit_mask_val(n: u64) -> (r: u32)
    ensures
        r == digit_mask(n as int),
{
    match n {
        0 => 0b11111_11011_11011_11011_11111u32,
        1 => 0b00011_00011_00011_00011_00011u32,
        2 => 0b11111_11000_11111_00011_11111u32,
        3 => 0b11111_00011_11111_00011_11111u32,
        4 => 0b00011_00011_11111_11011_11011u32,
        5 => 0b11111_00011_11111_11000_11111u32,
        6 => 0b11111_11011_11111_11000_11111u32,
        7 => 0b00011_00011_00011_00011_11111u32,
        8 => 0b11111_11011_11111_11011_11111u32,
        9 => 0b11111_00011_11111_11011_11111u32,
        _ => 0b11111_11000_11110_11000_11111u32,
    }
}

/// The glyph that fills a digit's "on" cells under a style.
pub open spec fn style_symbol(s: Style) -> Seq<char> {
    match s {
        Style::Full => "█"@,
        Style::Light => "░"@,
        Style::Medium => "▒"@,
        Style::Dark => "▓"@,
        Style::Cross => "╬"@,
        Style::Thick => "┃"@,
        Style::Braille => "⣿"@,
    }
}

/// The symbol of the edit-cursor border row under a digit.
pub open spec fn border_symbol() -> Seq<char> {
    "─"@
}

/// Whether `(x, y)` is a position the terminal grid can address at all.
pub open spec fn on_grid(x: int, y: int) -> bool {
    0 <= x <= u16::MAX && 0 <= y <= u16::MAX
}

/// What painting digit `n` into the rectangle at `(rx, ry)`, `rw` wide and
/// `rh` high, writes at `(x, y)`: the border row when the digit's field is
/// being edited, an "on" glyph cell, or nothing.
pub open spec fn digit_patch(
    n: int,
    sym: Seq<char>,
    border: bool,
    rx: int,
    ry: int,
    rw: int,
    rh: int,
    x: int,
    y: int,
) -> Option<Seq<char>> {
    if !on_grid(x, y) {
        None
    } else if border && rh >= 1 && y == ry + rh - 1 && rx <= x < rx + rw {
        Some(border_symbol())
    } else if ry <= y < ry + 5 && rx <= x < rx + 5 && digit_cell_on(n, y - ry, x - rx) {
        Some(sym)
    } else {
        None
    }
}

/// What painting a colon at `(rx, ry)` writes at `(x, y)`: two dots of two
/// cells each, at fixed offsets inside the segment.
pub open spec fn colon_patch(sym: Seq<char>, rx: int, ry: int, x: int, y: int) -> Option<
    Seq<char>,
> {
    if on_grid(x, y) && (x == rx + 1 || x == rx + 2) && (y == ry + 1 || y == ry + 3) {
        Some(sym)
    } else {
        None
    }
}

/// What painting the decisecond dot at `(rx, ry)` in a segment `rh` high
/// writes at `(x, y)`: two cells one row above the border row.
pub open spec fn dot_patch(sym: Seq<char>, rx: int, ry: int, rh: int, x: int, y: int) -> Option<
    Seq<char>,
> {
    if on_grid(x, y) && rh >= 2 && (x == rx + 1 || x == rx + 2) && y == ry + rh - 2 {
        Some(sym)
    } else {
        None
    }
}

/// The widget.  Stateless: one value renders any number of clocks of its
/// variant.
pub struct ClockWidget<T> {
    phantom: PhantomData<T>,
}

impl<T> ClockWidget<T> {
    pub fn new() -> Self {
        Self { phantom: PhantomData }
    }

    /// The glyph for the "on" cells of a digit under `style`.
    fn get_digit_symbol(&self, style: &Style) -> (r: &'static str)
        ensures
            r@ == style_symbol(*style),
    {
        match style {
            Style::Full => "█",
            Style::Light => "░",
            Style::Medium => "▒",
            Style::Dark => "▓",
            Style::Cross => "╬",
            Style::Thick => "┃",
            Style::Braille => "⣿",
        }
    }

    /// The segments of the layout for `format`, in order.
    fn get_segments(&self, format: &Format, with_decis: bool) -> (r: Vec<Segment>)
        ensures
            r@ == segs_of(*format, with_decis),
    {
        let mut v: Vec<Segment> = Vec::new();
        match format {
            Format::HhMmSs => {
                v.push(Segment::HourTens);
                v.push(Segment::Space);
                v.push(Segment::HourOnes);
                v.push(Segment::Colon);
                v.push(Segment::MinuteTens);
                v.push(Segment::Space);
                v.push(Segment::MinuteOnes);
                v.push(Segment::Colon);
                v.push(Segment::SecondTens);
                v.push(Segment::Space);
                v.push(Segment::SecondOnes);
            },
            Format::HMmSs => {
                v.push(Segment::HourOnes);
                v.push(Segment::Colon);
                v.push(Segment::MinuteTens);
                v.push(Segment::Space);
                v.push(Segment::MinuteOnes);
                v.push(Segment::Colon);
                v.push(Segment::SecondTens);
                v.push(Segment::Space);
                v.push(Segment::SecondOnes);
            },
            Format::MmSs => {
                v.push(Segment::MinuteTens);
                v.push(Segment::Space);
                v.push(Segment::MinuteOnes);
                v.push(Segment::Colon);
                v.push(Segment::SecondTens);
                v.push(Segment::Space);
                v.push(Segment::SecondOnes);
            },
            Format::MSs => {
                v.push(Segment::MinuteOnes);
                v.push(Segment::Colon);
                v.push(Segment::SecondTens);
                v.push(Segment::Space);
                v.push(Segment::SecondOnes);
            },
            Format::Ss => {
                v.push(Segment::SecondTens);
                v.push(Segment::Space);
                v.push(Segment::SecondOnes);
            },
            Format::S => {
                v.push(Segment::SecondOnes);
            },
        }
        if with_decis {
            v.push(Segment::Dot);
            v.push(Segment::DeciOnes);
        }
        proof {
            assert(v@ =~= segs_of(*format, with_decis));
        }
        v
    }

    /// The width of one segment, in cells.
    fn seg_width_val(&self, s: Segment) -> (r: u16)
        ensures
            r as int == seg_width(s),
            1 <= r <= 5,
    {
        match s {
            Segment::Colon => COLON_WIDTH,
            Segment::Dot => COLON_WIDTH,
            Segment::Space => SPACE_WIDTH,
            _ => DIGIT_WIDTH,
        }
    }

    /// The widths of the layout's segments, in order.
    fn get_horizontal_lengths(&self, format: &Format, with_decis: bool) -> (r: Vec<u16>)
        ensures
            r@.len() == segs_of(*format, with_decis).len(),
            forall|i: int|
                0 <= i < r@.len() ==> r@[i] as int == seg_width(segs_of(*format, with_decis)[i]),
    {
        let segs = self.get_segments(format, with_decis);
        let mut lengths: Vec<u16> = Vec::new();
        let mut i: usize = 0;
        while i < segs.len()
            invariant
                segs@ == segs_of(*format, with_decis),
                i <= segs.len(),
                lengths@.len() == i,
                forall|j: int| 0 <= j < i ==> lengths@[j] as int == seg_width(segs@[j]),
            decreases segs.len() - i,
        {
            lengths.push(self.seg_width_val(segs[i]));
            i = i + 1;
        }
        lengths
    }

    /// The total width of the rendered clock, in cells: the sum of its
    /// segment widths.
    pub fn get_width(&self, format: &Format, with_decis: bool) -> (r: u16)
        ensures
            r as int == total_width(*format, with_decis),
            r <= 65,
    {
        let ghost segs = segs_of(*format, with_decis);
        let lengths = self.get_horizontal_lengths(format, with_decis);
        let mut sum: u16 = 0;
        let mut i: usize = 0;
        while i < lengths.len()
            invariant
                lengths@.len() == segs.len(),
                forall|j: int| 0 <= j < lengths@.len() ==> lengths@[j] as int == seg_width(segs[j]),
                forall|j: int| 0 <= j < lengths@.len() ==> 1 <= #[trigger] lengths@[j] <= 5,
                i <= lengths.len(),
                segs.len() <= 13,
                sum as int == sum_to(segs, i as int),
                sum <= 5 * i,
            decreases lengths.len() - i,
        {
            sum = sum + lengths[i];
            i = i + 1;
        }
        sum
    }

    /// The height of the rendered clock, in cells.
    pub fn get_height(&self) -> (r: u16)
        ensures
            r == DIGIT_HEIGHT,
    {
        DIGIT_HEIGHT
    }

    /// Paint the glyph of digit `number` into `area`, with the edit-cursor
    /// border row when `with_border` holds.  A digit outside 0 to 9 paints
    /// the error glyph.
    fn render_digit(
        &self,
        number: u64,
        symbol: &str,
        with_border: bool,
        area: Rect,
        buf: &mut Buffer,
    )
        ensures
            buf_symbols(*final(buf)).dom() == buf_symbols(*old(buf)).dom(),
            forall|k: (int, int)|
                buf_symbols(*old(buf)).dom().contains(k) ==> buf_symbols(*final(buf))[k] == (
                match digit_patch(
                    number as int,
                    symbol@,
                    with_border,
                    area.x as int,
                    area.y as int,
                    area.width as int,
                    area.height as int,
                    k.0,
                    k.1,
                ) {
                    Some(s) => s,
                    None => buf_symbols(*old(buf))[k],
                }),
    {
        let ghost start = buf_symbols(*buf);
        let mask = digit_mask_val(number);
        let left: u32 = area.x as u32;
        let top: u32 = area.y as u32;
        let mut i: u32 = 0;
        while i < 25
            invariant
                i <= 25,
                mask == digit_mask(number as int),
                left == area.x as int,
                top == area.y as int,
                buf_symbols(*buf).dom() == start.dom(),
                forall|k: (int, int)|
                    start.dom().contains(k) ==> buf_symbols(*buf)[k] == (match glyph_prefix(
                        number as int,
                        symbol@,
                        area.x as int,
                        area.y as int,
                        i as int,
                        k.0,
                        k.1,
                    ) {
                        Some(s) => s,
                        None => start[k],
                    }),
            decreases 25 - i,
        {
            let r = i / 5;
            let c = i % 5;
            if (mask >> (r * 5 + (4 - c))) & 1 == 1 {
                let x32 = left + c;
                let y32 = top + r;
                if x32 <= u16::MAX as u32 && y32 <= u16::MAX as u32 {
                    buf_set_symbol(buf, x32 as u16, y32 as u16, symbol);
                }
            }
            i = i + 1;
        }
        if with_border && area.height >= 1 {
            let bottom: u32 = top + area.height as u32 - 1;
            let mut xo: u32 = 0;
            while xo < area.width as u32
                invariant
                    xo <= area.width as u32,
                    left == area.x as int,
                    top == area.y as int,
                    bottom == area.y as int + area.height as int - 1,
                    area.height >= 1,
                    buf_symbols(*buf).dom() == start.dom(),
                    forall|k: (int, int)|
                        start.dom().contains(k) ==> buf_symbols(*buf)[k] == (match border_prefix(
                            area.x as int,
                            area.y as int,
                            area.height as int,
                            xo as int,
                            k.0,
                            k.1,
                        ) {
                            Some(s) => s,
                            None => match glyph_prefix(
                                number as int,
                                symbol@,
                                area.x as int,
                                area.y as int,
                                25,
                                k.0,
                                k.1,
                            ) {
                                Some(s) => s,
                                None => start[k],
                            },
                        }),
                decreases area.width as u32 - xo,
            {
                let x32 = left + xo;
                if x32 <= u16::MAX as u32 && bottom <= u16::MAX as u32 {
                    buf_set_symbol(buf, x32 as u16, bottom as u16, "─");
                }
                xo = xo + 1;
            }
        }
    }

    /// Paint a colon into `area`: two two-cell dots.
    fn render_colon(&self, symbol: &str, area: Rect, buf: &mut Buffer)
        ensures
            buf_symbols(*final(buf)).dom() == buf_symbols(*old(buf)).dom(),
            forall|k: (int, int)|
                buf_symbols(*old(buf)).dom().contains(k) ==> buf_symbols(*final(buf))[k] == (
                match colon_patch(symbol@, area.x as int, area.y as int, k.0, k.1) {
                    Some(s) => s,
                    None => buf_symbols(*old(buf))[k],
                }),
    {
        let left: u32 = area.x as u32;
        let top: u32 = area.y as u32;
        let mut dx: u32 = 1;
        while dx <= 2
            invariant
                1 <= dx <= 3,
                left == area.x as int,
                top == area.y as int,
                buf_symbols(*buf).dom() == buf_symbols(*old(buf)).dom(),
                forall|k: (int, int)|
                    buf_symbols(*old(buf)).dom().contains(k) ==> buf_symbols(*buf)[k] == (
                    match colon_prefix(symbol@, area.x as int, area.y as int, dx as int, k.0, k.1) {
                        Some(s) => s,
                        None => buf_symbols(*old(buf))[k],
                    }),
            decreases 3 - dx,
        {
            let x32 = left + dx;
            if x32 <= u16::MAX as u32 {
                if top + 1 <= u16::MAX as u32 {
                    buf_set_symbol(buf, x32 as u16, (top + 1) as u16, symbol);
                }
                if top + 3 <= u16::MAX as u32 {
                    buf_set_symbol(buf, x32 as u16, (top + 3) as u16, symbol);
                }
            }
            dx = dx + 1;
        }
    }

    /// Paint the decisecond decimal dot into `area`: two cells one row
    /// above the border row.
    fn render_dot(&self, symbol: &str, area: Rect, buf: &mut Buffer)
        ensures
            buf_symbols(*final(buf)).dom() == buf_symbols(*old(buf)).dom(),
            forall|k: (int, int)|
                buf_symbols(*old(buf)).dom().contains(k) ==> buf_symbols(*final(buf))[k] == (
                match dot_patch(
                    symbol@,
                    area.x as int,
                    area.y as int,
                    area.height as int,
                    k.0,
                    k.1,
                ) {
                    Some(s) => s,
                    None => buf_symbols(*old(buf))[k],
                }),
    {
        if area.height < 2 {
            return ;
        }
        let left: u32 = area.x as u32;
        let row: u32 = area.y as u32 + area.height as u32 - 2;
        if row <= u16::MAX as u32 {
            if left + 1 <= u16::MAX as u32 {
                buf_set_symbol(buf, (left + 1) as u16, row as u16, symbol);
            }
            if left + 2 <= u16::MAX as u32 {
                buf_set_symbol(buf, (left + 2) as u16, row as u16, symbol);
            }
        }
    }
}

/// The part of the glyph already painted after `i` of the 25 cell steps:
/// row `r`, column `c` is covered once `r * 5 + c < i`.
pub open spec fn glyph_prefix(
    n: int,
    sym: Seq<char>,
    rx: int,
    ry: int,
    i: int,
    x: int,
    y: int,
) -> Option<Seq<char>> {
    let r = y - ry;
    let c = x - rx;
    if on_grid(x, y) && 0 <= r < 5 && 0 <= c < 5 && r * 5 + c < i && digit_cell_on(n, r, c) {
        Some(sym)
    } else {
        None
    }
}

/// The part of the border row already painted after `j` of its cells.
pub open spec fn border_prefix(rx: int, ry: int, rh: int, j: int, x: int, y: int) -> Option<
    Seq<char>,
> {
    if on_grid(x, y) && rh >= 1 && y == ry + rh - 1 && rx <= x < rx + j {
        Some(border_symbol())
    } else {
        None
    }
}

/// The part of the colon already painted after its first `dx - 1` columns.
pub open spec fn colon_prefix(sym: Seq<char>, rx: int, ry: int, dx: int, x: int, y: int) -> Option<
    Seq<char>,
> {
    if on_grid(x, y) && rx + 1 <= x < rx + dx && (x == rx + 1 || x == rx + 2) && (y == ry + 1 || y
        == ry + 3) {
        Some(sym)
    } else {
        None
    }
}

/// The time field a segment belongs to, for the edit cursor's underline.
pub open spec fn seg_field(s: Segment) -> Option<Time> {
    match s {
        Segment::HourTens => Some(Time::Hours),
        Segment::HourOnes => Some(Time::Hours),
        Segment::MinuteTens => Some(Time::Minutes),
        Segment::MinuteOnes => Some(Time::Minutes),
        Segment::SecondTens => Some(Time::Seconds),
        Segment::SecondOnes => Some(Time::Seconds),
        Segment::DeciOnes => Some(Time::Decis),
        _ => None,
    }
}

/// Whether the edit cursor rests on the field this segment shows.
pub open spec fn seg_editing(mode: Mode, s: Segment) -> bool {
    seg_field(s) is Some && mode.edit_field() == seg_field(s)
}

/// The digit a segment shows, for a value of `current` deciseconds.
pub open spec fn seg_digit_value(current: int, s: Segment) -> int {
    let hours = current / (DECIS_PER_HOUR as int);
    let minutes_in_hour = (current / (DECIS_PER_MINUTE as int)) % 60;
    let seconds_in_minute = (current / (DECIS_PER_SECOND as int)) % 60;
    match s {
        Segment::HourTens => hours / 10,
        Segment::HourOnes => hours % 10,
        Segment::MinuteTens => minutes_in_hour / 10,
        Segment::MinuteOnes => minutes_in_hour % 10,
        Segment::SecondTens => seconds_in_minute / 10,
        Segment::SecondOnes => seconds_in_minute % 10,
        Segment::DeciOnes => current % 10,
        _ => 0,
    }
}

/// What one segment, laid out at `(rx, ry)` in a row `rh` high, writes at
/// `(x, y)`.
pub open spec fn seg_patch(
    s: Segment,
    current: int,
    mode: Mode,
    sym: Seq<char>,
    rx: int,
    ry: int,
    rh: int,
    x: int,
    y: int,
) -> Option<Seq<char>> {
    match s {
        Segment::Colon => colon_patch(sym, rx, ry, x, y),
        Segment::Dot => dot_patch(sym, rx, ry, rh, x, y),
        Segment::Space => None,
        _ => digit_patch(
            seg_digit_value(current, s),
            sym,
            seg_editing(mode, s),
            rx,
            ry,
            seg_width(s),
            rh,
            x,
            y,
        ),
    }
}

/// What a row of segments, laid out left to right from `bx`, writes at
/// `(x, y)`: the patch of the segment whose column range covers `x`.
pub open spec fn segs_patch(
    s: Seq<Segment>,
    current: int,
    mode: Mode,
    sym: Seq<char>,
    bx: int,
    ry: int,
    rh: int,
    x: int,
    y: int,
) -> Option<Seq<char>>
    decreases s.len(),
{
    if s.len() == 0 {
        None
    } else if x < bx + seg_width(s[0]) {
        seg_patch(s[0], current, mode, sym, bx, ry, rh, x, y)
    } else {
        segs_patch(s.drop_first(), current, mode, sym, bx + seg_width(s[0]), ry, rh, x, y)
    }
}

/// Everything the renderer writes for a clock in state `m` over the region
/// `area`: the centered segment row, and nothing else.
pub open spec fn render_patch(m: ClockModel, area: Rect, x: int, y: int) -> Option<Seq<char>> {
    segs_patch(
        segs_of(m.format, m.with_decis),
        m.current,
        m.mode,
        style_symbol(m.style),
        band_left(area, total_width(m.format, m.with_decis)),
        area.y as int,
        area.height as int,
        x,
        y,
    )
}

/// Partial segment-width sums grow by at least one and at most five cells
/// per segment.
proof fn lemma_sum_to_bounds(s: Seq<Segment>, i: int)
    requires
        0 <= i <= s.len(),
    ensures
        i <= sum_to(s, i) <= 5 * i,
    decreases i,
{
    if i > 0 {
        lemma_sum_to_bounds(s, i - 1);
    }
}

/// Dropping the first segment shifts the partial sums by its width.
proof fn lemma_sum_to_drop_first(s: Seq<Segment>, i: int)
    requires
        s.len() >= 1,
        1 <= i <= s.len(),
    ensures
        sum_to(s, i) == seg_width(s[0]) + sum_to(s.drop_first(), i - 1),
    decreases i,
{
    if i == 1 {
        assert(sum_to(s, 0) == 0);
        assert(sum_to(s.drop_first(), 0) == 0);
    } else {
        lemma_sum_to_drop_first(s, i - 1);
        assert(s.drop_first()[i - 2] == s[i - 1]);
    }
}

/// Left of the whole row, a row of segments writes nothing.
proof fn lemma_segs_patch_left(
    s: Seq<Segment>,
    current: int,
    mode: Mode,
    sym: Seq<char>,
    bx: int,
    ry: int,
    rh: int,
)
    ensures
        forall|x: int, y: int|
            x < bx ==> #[trigger] segs_patch(s, current, mode, sym, bx, ry, rh, x, y) is None,
    decreases s.len(),
{
    if s.len() > 0 {
        lemma_segs_patch_left(
            s.drop_first(),
            current,
            mode,
            sym,
            bx + seg_width(s[0]),
            ry,
            rh,
        );
    }
}

/// Right of the whole row, a row of segments writes nothing.
proof fn lemma_segs_patch_right(
    s: Seq<Segment>,
    current: int,
    mode: Mode,
    sym: Seq<char>,
    bx: int,
    ry: int,
    rh: int,
)
    ensures
        forall|x: int, y: int|
            x >= bx + sum_to(s, s.len() as int) ==> #[trigger] segs_patch(
                s,
                current,
                mode,
                sym,
                bx,
                ry,
                rh,
                x,
                y,
            ) is None,
    decreases s.len(),
{
    if s.len() > 0 {
        let tail = s.drop_first();
        lemma_sum_to_drop_first(s, s.len() as int);
        lemma_sum_to_bounds(tail, tail.len() as int);
        lemma_segs_patch_right(tail, current, mode, sym, bx + seg_width(s[0]), ry, rh);
        assert forall|x: int, y: int|
            x >= bx + sum_to(s, s.len() as int) implies #[trigger] segs_patch(
            s,
            current,
            mode,
            sym,
            bx,
            ry,
            rh,
            x,
            y,
        ) is None by {
            assert(sum_to(s, s.len() as int) == seg_width(s[0]) + sum_to(tail, tail.len() as int));
            assert(x >= bx + seg_width(s[0]));
            assert(segs_patch(tail, current, mode, sym, bx + seg_width(s[0]), ry, rh, x, y)
                is None);
        }
    }
}

/// Inside segment `j`'s column range, the row's patch is that segment's
/// own patch, laid out at its start column.
proof fn lemma_segs_patch_at(
    s: Seq<Segment>,
    current: int,
    mode: Mode,
    sym: Seq<char>,
    bx: int,
    ry: int,
    rh: int,
    j: int,
)
    requires
        0 <= j < s.len(),
    ensures
        forall|x: int, y: int|
            bx + sum_to(s, j) <= x < bx + sum_to(s, j) + seg_width(s[j]) ==> #[trigger] segs_patch(
                s,
                current,
                mode,
                sym,
                bx,
                ry,
                rh,
                x,
                y,
            ) == seg_patch(s[j], current, mode, sym, bx + sum_to(s, j), ry, rh, x, y),
    decreases j,
{
    if j > 0 {
        let tail = s.drop_first();
        lemma_sum_to_drop_first(s, j);
        lemma_sum_to_bounds(tail, j - 1);
        lemma_segs_patch_at(tail, current, mode, sym, bx + seg_width(s[0]), ry, rh, j - 1);
        assert forall|x: int, y: int|
            bx + sum_to(s, j) <= x < bx + sum_to(s, j) + seg_width(s[j]) implies #[trigger] segs_patch(
            s,
            current,
            mode,
            sym,
            bx,
            ry,
            rh,
            x,
            y,
        ) == seg_patch(s[j], current, mode, sym, bx + sum_to(s, j), ry, rh, x, y) by {
            assert(tail[j - 1] == s[j]);
            assert(sum_to(s, j) == seg_width(s[0]) + sum_to(tail, j - 1));
            assert(x >= bx + seg_width(s[0]));
            assert(segs_patch(tail, current, mode, sym, bx + seg_width(s[0]), ry, rh, x, y)
                == seg_patch(tail[j - 1], current, mode, sym, bx + seg_width(s[0]) + sum_to(
                tail,
                j - 1,
            ), ry, rh, x, y));
        }
    }
}

impl<T> ClockWidget<T> {
    /// Render the clock into `buf`.  The layout band is centered inside
    /// `area`; every cell write, and every cell left alone, is given by
    /// [`render_patch`].
    pub fn render(&self, area: Rect, buf: &mut Buffer, state: &Clock<T>)
        ensures
            buf_symbols(*final(buf)).dom() == buf_symbols(*old(buf)).dom(),
            forall|k: (int, int)|
                buf_symbols(*old(buf)).dom().contains(k) ==> buf_symbols(*final(buf))[k] == (
                match render_patch(state@, area, k.0, k.1) {
                    Some(s) => s,
                    None => buf_symbols(*old(buf))[k],
                }),
    {
        let ghost start = buf_symbols(*buf);
        let with_decis = state.get_with_decis();
        let format = state.cached_format();
        let style = state.get_style();
        let symbol = self.get_digit_symbol(&style);
        let segs = self.get_segments(&format, with_decis);
        let total = self.get_width(&format, with_decis);
        let band_x: u32 = if area.width >= total {
            area.x as u32 + ((area.width - total) / 2) as u32
        } else {
            area.x as u32
        };
        let cv = *state.get_current_value();
        let edit_hours = matches!(state.get_mode(), Mode::Editable(Time::Hours, _));
        let edit_minutes = matches!(state.get_mode(), Mode::Editable(Time::Minutes, _));
        let edit_secs = matches!(state.get_mode(), Mode::Editable(Time::Seconds, _));
        let edit_deci = matches!(state.get_mode(), Mode::Editable(Time::Decis, _));
        let ghost m = state@;
        let ghost sseq = segs_of(m.format, m.with_decis);
        proof {
            lemma_segs_patch_left(
                sseq,
                m.current,
                m.mode,
                style_symbol(m.style),
                band_x as int,
                area.y as int,
                area.height as int,
            );
        }
        let mut xoff: u32 = band_x;
        let mut j: usize = 0;
        while j < segs.len()
            invariant
                segs@ == sseq,
                sseq == segs_of(m.format, m.with_decis),
                m == state@,
                symbol@ == style_symbol(m.style),
                cv@ == m.current,
                edit_hours == seg_editing(m.mode, Segment::HourTens),
                edit_minutes == seg_editing(m.mode, Segment::MinuteTens),
                edit_secs == seg_editing(m.mode, Segment::SecondTens),
                edit_deci == seg_editing(m.mode, Segment::DeciOnes),
                band_x as int == band_left(area, total_width(m.format, m.with_decis)),
                j <= segs.len(),
                xoff as int == band_x as int + sum_to(sseq, j as int),
                band_x <= 98302,
                buf_symbols(*buf).dom() == start.dom(),
                forall|k: (int, int)|
                    start.dom().contains(k) ==> buf_symbols(*buf)[k] == (if k.0 < xoff as int {
                        match segs_patch(
                            sseq,
                            m.current,
                            m.mode,
                            style_symbol(m.style),
                            band_x as int,
                            area.y as int,
                            area.height as int,
                            k.0,
                            k.1,
                        ) {
                            Some(s) => s,
                            None => start[k],
                        }
                    } else {
                        start[k]
                    }),
            decreases segs.len() - j,
        {
            proof {
                lemma_sum_to_bounds(sseq, j as int);
                lemma_sum_to_bounds(sseq, j as int + 1);
                lemma_segs_patch_at(
                    sseq,
                    m.current,
                    m.mode,
                    style_symbol(m.style),
                    band_x as int,
                    area.y as int,
                    area.height as int,
                    j as int,
                );
            }
            let s = segs[j];
            let w = self.seg_width_val(s);
            if xoff <= u16::MAX as u32 {
                let rect = Rect { x: xoff as u16, y: area.y, width: w, height: area.height };
                match s {
                    Segment::Colon => self.render_colon(symbol, rect, buf),
                    Segment::Dot => self.render_dot(symbol, rect, buf),
                    Segment::Space => (),
                    Segment::HourTens => self.render_digit(
                        cv.hours() / 10,
                        symbol,
                        edit_hours,
                        rect,
                        buf,
                    ),
                    Segment::HourOnes => self.render_digit(
                        cv.hours() % 10,
                        symbol,
                        edit_hours,
                        rect,
                        buf,
                    ),
                    Segment::MinuteTens => self.render_digit(
                        cv.minutes_mod() / 10,
                        symbol,
                        edit_minutes,
                        rect,
                        buf,
                    ),
                    Segment::MinuteOnes => self.render_digit(
                        cv.minutes_mod() % 10,
                        symbol,
                        edit_minutes,
                        rect,
                        buf,
                    ),
                    Segment::SecondTens => self.render_digit(
                        cv.seconds_mod() / 10,
                        symbol,
                        edit_secs,
                        rect,
                        buf,
                    ),
                    Segment::SecondOnes => self.render_digit(
                        cv.seconds_mod() % 10,
                        symbol,
                        edit_secs,
                        rect,
                        buf,
                    ),
                    Segment::DeciOnes => self.render_digit(
                        cv.decis(),
                        symbol,
                        edit_deci,
                        rect,
                        buf,
                    ),
                }
            }
            xoff = xoff + w as u32;
            j = j + 1;
        }
        proof {
            lemma_sum_to_bounds(sseq, sseq.len() as int);
            lemma_segs_patch_right(
                sseq,
                m.current,
                m.mode,
                style_symbol(m.style),
                band_x as int,
                area.y as int,
                area.height as int,
            );
        }
    }
}

} // verus!

