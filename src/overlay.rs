use vstd::prelude::*;

use crate::rect::Rect;

verus! {

/// The colour a plotted character is drawn in.
#[derive(Clone, Copy, Debug, PartialEq, Eq, Structural)]
pub enum Paint {
    /// Default foreground and background.
    Plain,
    /// Light red on a reset background: this dimension is too small.
    Short,
    /// Light green on a reset background: this dimension is large enough.
    Enough,
}

/// One character plotted at column `x`, row `y`.
#[derive(Clone, Copy, Debug, PartialEq, Eq, Structural)]
pub struct Cell {
    pub x: u32,
    pub y: u32,
    pub ch: char,
    pub paint: Paint,
}

/// The character of the decimal digit `d`.
pub open spec fn digit_char(d: nat) -> char {
    "0123456789"@[d as int]
}

/// The decimal digits of `n`, most significant first.
pub open spec fn digits(n: nat) -> Seq<char>
    decreases n,
{
    if n < 10 {
        seq![digit_char(n)]
    } else {
        digits(n / 10).push(digit_char(n % 10))
    }
}

spec fn pow10(k: nat) -> nat
    decreases k,
{
    if k == 0 {
        1
    } else {
        10 * pow10((k - 1) as nat)
    }
}

proof fn lemma_digits_len(n: nat, k: nat)
    requires
        k >= 1,
        n < pow10(k),
    ensures
        1 <= digits(n).len() <= k,
    decreases k,
{
    if n >= 10 {
        assert(pow10(k) == 10 * pow10((k - 1) as nat));
        if k == 1 {
            assert(pow10(0) == 1);
        } else {
            assert(n / 10 < pow10((k - 1) as nat));
            lemma_digits_len(n / 10, (k - 1) as nat);
        }
    }
}

/// A `u32` has at most ten decimal digits.
proof fn lemma_u32_digits_len(n: u32)
    ensures
        1 <= digits(n as nat).len() <= 10,
{
    reveal_with_fuel(pow10, 11);
    assert(pow10(10) == 10000000000nat);
    lemma_digits_len(n as nat, 10);
}

pub open spec fn header_text() -> Seq<char> {
    "Terminal size too small:"@
}

pub open spec fn needed_text() -> Seq<char> {
    "Needed for current config:"@
}

pub open spec fn fallback_text() -> Seq<char> {
    "Too small"@
}

pub open spec fn width_label() -> Seq<char> {
    "Width = "@
}

pub open spec fn height_label() -> Seq<char> {
    " Height = "@
}

/// The line "Width = W Height = H".
pub open spec fn size_text(size: Rect) -> Seq<char> {
    width_label() + digits(size.width as nat) + height_label() + digits(size.height as nat)
}

/// The character `ch` plotted at column `x`, row `y`.
pub open spec fn cell_at(x: int, y: int, ch: char, paint: Paint) -> Cell {
    Cell { x: x as u32, y: y as u32, ch, paint }
}

/// The characters of `text` plotted left to right from column `x` on row `y`.
pub open spec fn text_cells(x: int, y: int, text: Seq<char>, paint: Paint) -> Seq<Cell> {
    Seq::new(text.len(), |i: int| cell_at(x + i, y, text[i], paint))
}

/// The column at which a line of `len` characters is centred.
pub open spec fn centred(width: u32, len: nat) -> int {
    (width - len) / 2
}

/// Red for a dimension that falls short, green for one that does not.
pub open spec fn paint_for(short: bool) -> Paint {
    if short {
        Paint::Short
    } else {
        Paint::Enough
    }
}

/// The full message fits: at least five rows, and every line no wider than
/// the terminal.
pub open spec fn message_fits(term: Rect, min: Rect) -> bool {
    &&& term.height >= 5
    &&& header_text().len() <= term.width
    &&& size_text(term).len() <= term.width
    &&& needed_text().len() <= term.width
    &&& size_text(min).len() <= term.width
}

/// The row of the first line of the full message.
pub open spec fn top_row(term: Rect) -> int {
    if term.height >= 6 {
        (term.height - 6) / 2
    } else {
        0
    }
}

/// The current size, with each number coloured by whether it falls short.
pub open spec fn status_cells(term: Rect, min: Rect, y: int) -> Seq<Cell> {
    let x = centred(term.width, size_text(term).len());
    let w = digits(term.width as nat);
    let h = digits(term.height as nat);
    text_cells(x, y, width_label(), Paint::Plain) + text_cells(
        x + width_label().len(),
        y,
        w,
        paint_for(term.width < min.width),
    ) + text_cells(x + width_label().len() + w.len(), y, height_label(), Paint::Plain)
        + text_cells(
        x + width_label().len() + w.len() + height_label().len(),
        y,
        h,
        paint_for(term.height < min.height),
    )
}

/// What the overlay plots on a cleared screen: the full message when it
/// fits, else "Too small" on the middle row when that fits, else nothing.
pub open spec fn overlay(term: Rect, min: Rect) -> Seq<Cell> {
    if message_fits(term, min) {
        let y = top_row(term);
        text_cells(centred(term.width, header_text().len()), y, header_text(), Paint::Plain)
            + status_cells(term, min, y + 1) + text_cells(
            centred(term.width, needed_text().len()),
            y + 3,
            needed_text(),
            Paint::Plain,
        ) + text_cells(centred(term.width, size_text(min).len()), y + 4, size_text(min), Paint::Plain)
    } else if term.height >= 1 && term.width >= fallback_text().len() {
        text_cells(
            centred(term.width, fallback_text().len()),
            (term.height - 1) / 2,
            fallback_text(),
            Paint::Plain,
        )
    } else {
        seq![]
    }
}

/// The decimal digits of `n`.
pub fn decimal(n: u32) -> (r: Vec<char>)
    ensures
        r@ == digits(n as nat),
    decreases n,
{
    proof {
        reveal_strlit("0123456789");
    }
    if n < 10 {
        let mut r = Vec::new();
        r.push("0123456789".get_char(n as usize));
        r
    } else {
        let mut r = decimal(n / 10);
        r.push("0123456789".get_char((n % 10) as usize));
        r
    }
}

fn chars_of(s: &str) -> (r: Vec<char>)
    ensures
        r@ == s@,
{
    let n = s.unicode_len();
    let mut r: Vec<char> = Vec::new();
    let mut i: usize = 0;
    while i < n
        invariant
            n == s@.len(),
            i <= n,
            r@ == s@.subrange(0, i as int),
        decreases n - i,
    {
        r.push(s.get_char(i));
        i += 1;
        assert(r@ =~= s@.subrange(0, i as int));
    }
    assert(r@ =~= s@);
    r
}

fn append_chars(dst: &mut Vec<char>, src: &Vec<char>)
    ensures
        final(dst)@ == old(dst)@ + src@,
{
    let mut i: usize = 0;
    while i < src.len()
        invariant
            i <= src@.len(),
            dst@ == old(dst)@ + src@.subrange(0, i as int),
        decreases src@.len() - i,
    {
        dst.push(src[i]);
        i += 1;
        assert(dst@ =~= old(dst)@ + src@.subrange(0, i as int));
    }
    assert(src@.subrange(0, src@.len() as int) =~= src@);
}

fn push_text(out: &mut Vec<Cell>, x: u32, y: u32, text: &Vec<char>, paint: Paint)
    requires
        x + text@.len() <= u32::MAX,
    ensures
        final(out)@ == old(out)@ + text_cells(x as int, y as int, text@, paint),
{
    let mut i: usize = 0;
    assert(text@.subrange(0, 0).len() == 0);
    assert(out@ =~= old(out)@ + text_cells(x as int, y as int, text@.subrange(0, 0), paint));
    while i < text.len()
        invariant
            i <= text@.len(),
            x + text@.len() <= u32::MAX,
            out@ == old(out)@ + text_cells(x as int, y as int, text@.subrange(0, i as int), paint),
        decreases text@.len() - i,
    {
        let cell = Cell { x: x + i as u32, y, ch: text[i], paint };
        out.push(cell);
        i += 1;
        assert(cell == cell_at(x + (i - 1), y as int, text@.subrange(0, i as int)[i - 1], paint));
        assert(out@ =~= old(out)@ + text_cells(
            x as int,
            y as int,
            text@.subrange(0, i as int),
            paint,
        ));
    }
    assert(text@.subrange(0, text@.len() as int) =~= text@);
}

fn size_line(size: Rect) -> (r: Vec<char>)
    ensures
        r@ == size_text(size),
        r@.len() <= 38,
{
    proof {
        reveal_strlit("Width = ");
        reveal_strlit(" Height = ");
        lemma_u32_digits_len(size.width);
        lemma_u32_digits_len(size.height);
    }
    let mut r = chars_of("Width = ");
    append_chars(&mut r, &decimal(size.width));
    append_chars(&mut r, &chars_of(" Height = "));
    append_chars(&mut r, &decimal(size.height));
    r
}

fn paint_of(short: bool) -> (r: Paint)
    ensures
        r == paint_for(short),
{
    if short {
        Paint::Short
    } else {
        Paint::Enough
    }
}

/// The cells of the overlay for a terminal of size `term` held to `min`,
/// to be plotted on a cleared screen.
pub fn layout(term: Rect, min: Rect) -> (r: Vec<Cell>)
    ensures
        r@ == overlay(term, min),
{
    proof {
        reveal_strlit("Terminal size too small:");
        reveal_strlit("Needed for current config:");
        reveal_strlit("Too small");
        reveal_strlit("Width = ");
        reveal_strlit(" Height = ");
        lemma_u32_digits_len(term.width);
        lemma_u32_digits_len(term.height);
    }
    let header = chars_of("Terminal size too small:");
    let needed = chars_of("Needed for current config:");
    let status = size_line(term);
    let wanted = size_line(min);
    let mut cells: Vec<Cell> = Vec::new();
    let width = term.width;
    if term.height >= 5 && header.len() as u64 <= width as u64 && status.len() as u64
        <= width as u64 && needed.len() as u64 <= width as u64 && wanted.len() as u64
        <= width as u64 {
        let y: u32 = term.height.saturating_sub(6) / 2;
        push_text(&mut cells, (width - header.len() as u32) / 2, y, &header, Paint::Plain);

        let width_digits = decimal(term.width);
        let height_digits = decimal(term.height);
        let width_text = chars_of("Width = ");
        let height_text = chars_of(" Height = ");
        let x0: u32 = (width - status.len() as u32) / 2;
        let x1: u32 = x0 + width_text.len() as u32;
        let x2: u32 = x1 + width_digits.len() as u32;
        let x3: u32 = x2 + height_text.len() as u32;
        push_text(&mut cells, x0, y + 1, &width_text, Paint::Plain);
        push_text(&mut cells, x1, y + 1, &width_digits, paint_of(term.width < min.width));
        push_text(&mut cells, x2, y + 1, &height_text, Paint::Plain);
        push_text(&mut cells, x3, y + 1, &height_digits, paint_of(term.height < min.height));

        push_text(&mut cells, (width - needed.len() as u32) / 2, y + 3, &needed, Paint::Plain);
        push_text(&mut cells, (width - wanted.len() as u32) / 2, y + 4, &wanted, Paint::Plain);
        assert(cells@ =~= overlay(term, min));
    } else if term.height >= 1 && width >= 9 {
        let text = chars_of("Too small");
        push_text(&mut cells, (width - 9) / 2, (term.height - 1) / 2, &text, Paint::Plain);
        assert(cells@ =~= overlay(term, min));
    } else {
        assert(cells@ =~= overlay(term, min));
    }
    cells
}

} // verus!
