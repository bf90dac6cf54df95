use vstd::prelude::*;

verus! {

/// The low 16 bits of a message parameter.
pub open spec fn low_word(v: usize) -> nat {
    (v % 0x10000) as nat
}

/// Bits 16 to 31 of a message parameter.
pub open spec fn high_word(v: usize) -> nat {
    ((v / 0x10000) % 0x10000) as nat
}

/// A 16-bit word read as a signed (two's complement) number.
pub open spec fn signed_word(w: nat) -> int {
    if w < 0x8000 { w as int } else { w - 0x10000 }
}

fn low_word_of(v: usize) -> (r: u32)
    ensures
        r == low_word(v),
{
    assert(v & 0xffff == v % 0x10000) by (bit_vector);
    (v & 0xffff) as u32
}

fn high_word_of(v: usize) -> (r: u32)
    ensures
        r == high_word(v),
{
    assert((v >> 16) & 0xffff == (v / 0x10000) % 0x10000) by (bit_vector);
    ((v >> 16) & 0xffff) as u32
}

fn as_signed_word(w: u32) -> (r: i16)
    requires
        w < 0x10000,
    ensures
        r == signed_word(w as nat),
{
    if w < 0x8000 {
        w as i16
    } else {
        (w as i32 - 0x10000) as i16
    }
}

/// The client size (width, height in device pixels) a size message carries:
/// the width in the low word, the height in the high word.
pub fn size_from_lparam(lp: isize) -> (r: (u32, u32))
    ensures
        r.0 == low_word(lp as usize),
        r.1 == high_word(lp as usize),
{
    let v = lp as usize;
    (low_word_of(v), high_word_of(v))
}

/// The pointer position (x, y in device pixels, relative to the client
/// area) a mouse message carries: signed words, x low and y high.
pub fn point_from_lparam(lp: isize) -> (r: (i16, i16))
    ensures
        r.0 == signed_word(low_word(lp as usize)),
        r.1 == signed_word(high_word(lp as usize)),
{
    let v = lp as usize;
    (as_signed_word(low_word_of(v)), as_signed_word(high_word_of(v)))
}

/// The wheel rotation a wheel message carries, in raw units (120 per notch,
/// positive away from the user): the signed high word.
pub fn wheel_from_wparam(wp: usize) -> (r: i16)
    ensures
        r == signed_word(high_word(wp)),
{
    as_signed_word(high_word_of(wp))
}

/// The new DPI a DPI-change message carries: its low word.
pub fn dpi_from_wparam(wp: usize) -> (r: u32)
    ensures
        r == low_word(wp),
{
    low_word_of(wp)
}

/// Whether a mouse message came from touch or a pen: the message's extra
/// information carries the signature 0xFF5157 in bits 8 to 31.
pub fn is_touch_or_pen(extra: isize) -> (r: bool)
    ensures
        r == ((extra as usize / 0x100) % 0x1000000 == 0xFF5157),
{
    let v = extra as usize;
    assert((v & 0xFFFF_FF00 == 0xFF51_5700) == ((v / 0x100) % 0x1000000 == 0xFF5157)) by (bit_vector);
    v & 0xFFFF_FF00 == 0xFF51_5700
}

/// Where to place a window of size `size` to centre it in the work area
/// span `[lo, hi)`: at `lo` when it does not fit.
pub fn centered_origin(lo: i32, hi: i32, size: i32) -> (r: i32)
    requires
        i32::MIN <= hi - lo <= i32::MAX,
        i32::MIN <= (hi - lo) - size <= i32::MAX,
        i32::MIN <= lo + (if (hi - lo) - size > 0 { ((hi - lo) - size) / 2 } else { 0 }) <= i32::MAX,
    ensures
        r == lo + (if (hi - lo) - size > 0 { ((hi - lo) - size) / 2 } else { 0 }),
{
    let free = (hi - lo) - size;
    let margin = if free > 0 { free } else { 0 };
    lo + margin / 2
}

/// What the message loop does once the queue is empty.
#[derive(Clone, Copy, Debug, PartialEq, Eq, Structural)]
pub enum FrameAction {
    /// Draw a frame now (something is animating), then keep looping.
    PaintAnimated,
    /// Draw the final frame of an animation that just ended.
    PaintSettled,
    /// Sleep until the next message.
    Wait,
}

/// The loop's choice, and whether it counts as animating on the next turn:
/// frames are drawn while the content animates, plus one more frame right
/// after it stops so the final state shows.
pub open spec fn spec_next_frame(animating: bool, was_animating: bool) -> (FrameAction, bool) {
    if animating {
        (FrameAction::PaintAnimated, true)
    } else if was_animating {
        (FrameAction::PaintSettled, false)
    } else {
        (FrameAction::Wait, false)
    }
}

/// The loop's choice for one turn.
pub fn next_frame(animating: bool, was_animating: bool) -> (r: (FrameAction, bool))
    ensures
        r == spec_next_frame(animating, was_animating),
{
    if animating {
        (FrameAction::PaintAnimated, true)
    } else if was_animating {
        (FrameAction::PaintSettled, false)
    } else {
        (FrameAction::Wait, false)
    }
}

/// When an animation stops the loop draws exactly one settling frame and
/// then waits, whatever state it started from; and it never waits while
/// something animates.
pub proof fn lemma_one_settling_frame(was: bool)
    ensures
        ({
            let t1 = spec_next_frame(true, was);
            let t2 = spec_next_frame(false, t1.1);
            let t3 = spec_next_frame(false, t2.1);
            &&& t1.0 == FrameAction::PaintAnimated
            &&& t2.0 == FrameAction::PaintSettled
            &&& t3.0 == FrameAction::Wait
        }),
        spec_next_frame(true, was).0 != FrameAction::Wait,
{
}

/// Whether the drawing surface must be rebuilt after a frame: when drawing
/// failed (`None`) or the device reports it lost its target.
pub fn must_recreate_surface(end: Option<bool>) -> (r: bool)
    ensures
        r == (match end {
            None => true,
            Some(lost) => lost,
        }),
{
    match end {
        None => true,
        Some(lost) => lost,
    }
}

/// Number of UTF-16 units to read for an input-method string of `len`
/// bytes, or `None` when there is no string.
pub fn ime_units(len: i32) -> (r: Option<usize>)
    ensures
        r == (if len <= 0 { None } else { Some((len / 2) as usize) }),
{
    if len <= 0 {
        None
    } else {
        Some((len / 2) as usize)
    }
}

/// Number of UTF-16 units actually read when the second call returned `got`
/// bytes into a buffer of `count` units, or `None` when it failed.
pub fn ime_units_read(got: i32, count: usize) -> (r: Option<usize>)
    ensures
        r == (if got <= 0 {
            None
        } else if ((got / 2) as usize) < count {
            Some((got / 2) as usize)
        } else {
            Some(count)
        }),
{
    if got <= 0 {
        None
    } else {
        let n = (got / 2) as usize;
        if n < count {
            Some(n)
        } else {
            Some(count)
        }
    }
}

} // verus!

verus! {

/// Whether a character is a control character (the Unicode general category
/// Cc: U+0000 to U+001F and U+007F to U+009F).
pub open spec fn is_control(c: char) -> bool {
    let u = c as u32;
    u <= 0x1F || (0x7F <= u && u <= 0x9F)
}

/// Whether a character is a control character.
pub fn is_control_char(c: char) -> (r: bool)
    ensures
        r == is_control(c),
{
    let u = c as u32;
    u <= 0x1F || (0x7F <= u && u <= 0x9F)
}

/// The characters of a committed input-method string that are typed into the
/// focused text box: all of them but the control characters, in order.
pub fn typed_chars(s: &str) -> (r: Vec<char>)
    ensures
        r@ == s@.filter(|c: char| !is_control(c)),
{
    let mut r: Vec<char> = Vec::new();
    let n = s.unicode_len();
    let mut i: usize = 0;
    while i < n
        invariant
            n == s@.len(),
            i <= n,
            r@ == s@.take(i as int).filter(|c: char| !is_control(c)),
        decreases n - i,
    {
        let c = s.get_char(i);
        proof {
            reveal(Seq::filter);
            assert(s@.take(i + 1).drop_last() =~= s@.take(i as int));
            assert(s@.take(i + 1).last() == c);
        }
        if !is_control_char(c) {
            r.push(c);
        }
        i = i + 1;
    }
    assert(s@.take(n as int) =~= s@);
    r
}

/// The bit of an input-method context message that asks the system to draw
/// its own composition window.
pub open spec fn composition_window_bit() -> int {
    0x8000_0000
}

/// The context message's parameter with the composition-window bit (bit 31)
/// cleared and every other bit kept: the text box draws the composition
/// itself.
pub fn without_composition_window(lp: usize) -> (r: usize)
    ensures
        r == lp - (if (lp / 0x8000_0000) % 2 == 1 { composition_window_bit() } else { 0 }),
{
    assert((lp & !0x8000_0000usize) == (if (lp / 0x8000_0000) % 2 == 1 {
        (lp - 0x8000_0000usize) as usize
    } else {
        lp
    })) by (bit_vector);
    lp & !0x8000_0000usize
}

/// What a paint message does: draw only when nothing animates (the message
/// loop already draws every frame of an animation), and then wait for the
/// compositor's refresh unless the surface already presents in step with it.
/// Returns (draw, wait for the refresh).
pub fn paint_request(animating: bool, paces_to_vblank: bool) -> (r: (bool, bool))
    ensures
        r.0 == !animating,
        r.1 == (!animating && !paces_to_vblank),
{
    let draw = !animating;
    (draw, draw && !paces_to_vblank)
}

/// Whether a cursor message is about the client area: its low word is the
/// client hit-test code `client`.
pub fn cursor_in_client(lp: isize, client: u32) -> (r: bool)
    ensures
        r == (low_word(lp as usize) == client),
{
    low_word_of(lp as usize) == client
}

/// Whether the window's frame attributes (dark title bar, backdrop, corners)
/// must be set again: on the first frame and whenever the theme switched
/// between light and dark. Returns the new remembered darkness too.
pub fn dwm_update(applied_dark: Option<bool>, dark: bool) -> (r: (bool, Option<bool>))
    ensures
        r.0 == (applied_dark != Some(dark)),
        r.1 == Some(dark),
{
    match applied_dark {
        Some(d) => (d != dark, Some(dark)),
        None => (true, Some(dark)),
    }
}

} // verus!
