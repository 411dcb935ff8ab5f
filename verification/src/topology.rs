//! What the display topology reader computes on the raw values that the
//! system hands over: text out of fixed-size wide-character buffers, screen
//! sizes, and the flags of windows and taskbar.

use vstd::prelude::*;
use vstd::slice::slice_subrange;

use crate::geometry::MonitorRect;

verus! {

/// Bit of the taskbar state that says the taskbar hides itself.
pub const AUTOHIDE_BIT: u32 = 1;

/// Show state of a maximized window.
pub const SHOW_MAXIMIZED: u32 = 3;

/// The text that a sequence of UTF-16 code units decodes to, with the
/// replacement character in place of every unpaired surrogate.
pub uninterp spec fn utf16_lossy(units: Seq<u16>) -> Seq<char>;

/// Calls `String::from_utf16_lossy`. The decoding is not spelled out here;
/// the contract only gives its result a name, as a function of the code
/// units alone.
#[verifier::external_body]
fn decode_utf16_lossy(units: &[u16]) -> (s: String)
    ensures
        s@ == utf16_lossy(units@),
{
    String::from_utf16_lossy(units)
}

/// Position of the first zero unit at or after `from`, or the length of the
/// buffer when there is none.
pub open spec fn first_nul_from(buf: Seq<u16>, from: int) -> int
    decreases buf.len() - from,
{
    if from < 0 || from >= buf.len() {
        buf.len() as int
    } else if buf[from] == 0 {
        from
    } else {
        first_nul_from(buf, from + 1)
    }
}

/// Length of the text in a zero-terminated buffer: everything before the
/// first zero unit, or the whole buffer when no unit is zero.
pub open spec fn terminated_len(buf: Seq<u16>) -> int {
    first_nul_from(buf, 0)
}

/// The text that a zero-terminated wide-character buffer holds.
pub open spec fn wide_text(buf: Seq<u16>) -> Seq<char> {
    utf16_lossy(buf.subrange(0, terminated_len(buf)))
}

/// The length found is within the buffer, no unit before it is zero, and
/// the unit at it, if there is one, is zero.
pub proof fn lemma_terminated_len(buf: Seq<u16>, from: int)
    requires
        0 <= from <= buf.len(),
    ensures
        from <= first_nul_from(buf, from) <= buf.len(),
        forall|i: int| from <= i < first_nul_from(buf, from) ==> buf[i] != 0,
        first_nul_from(buf, from) < buf.len() ==> buf[first_nul_from(buf, from)] == 0,
    decreases buf.len() - from,
{
    if from < buf.len() && buf[from] != 0 {
        lemma_terminated_len(buf, from + 1);
    }
}

/// Length of the text in a zero-terminated buffer.
pub fn wide_len(buf: &[u16]) -> (n: usize)
    ensures
        n == terminated_len(buf@),
        n <= buf@.len(),
{
    let mut i: usize = 0;
    while i < buf.len()
        invariant
            i <= buf@.len(),
            first_nul_from(buf@, 0) == first_nul_from(buf@, i as int),
        decreases buf@.len() - i,
    {
        if buf[i] == 0 {
            return i;
        }
        i += 1;
    }
    i
}

/// Reads the text out of a zero-terminated wide-character buffer.
pub fn wide_to_string(buf: &[u16]) -> (s: String)
    ensures
        s@ == wide_text(buf@),
{
    let n = wide_len(buf);
    decode_utf16_lossy(slice_subrange(buf, 0, n))
}

/// `a` comes no later than `b` when sizes are ordered by width, then by
/// height.
pub open spec fn size_le(a: (i32, i32), b: (i32, i32)) -> bool {
    a.0 < b.0 || (a.0 == b.0 && a.1 <= b.1)
}

/// Returns the smallest screen size in the form `(width, height)`, ordered
/// by width and then by height; `None` when there is no screen.
pub fn smallest_screen_size(sizes: &Vec<(i32, i32)>) -> (r: Option<(i32, i32)>)
    ensures
        r.is_none() == (sizes@.len() == 0),
        r matches Some(m) ==> sizes@.contains(m) && forall|i: int|
            0 <= i < sizes@.len() ==> size_le(m, #[trigger] sizes@[i]),
{
    if sizes.len() == 0 {
        return None;
    }
    let mut best: (i32, i32) = sizes[0];
    let mut i: usize = 1;
    while i < sizes.len()
        invariant
            1 <= i <= sizes@.len(),
            sizes@.contains(best),
            forall|k: int| 0 <= k < i ==> size_le(best, #[trigger] sizes@[k]),
        decreases sizes@.len() - i,
    {
        let s = sizes[i];
        if s.0 < best.0 || (s.0 == best.0 && s.1 < best.1) {
            best = s;
        }
        i += 1;
    }
    Some(best)
}

/// Height of the taskbar: what the work area leaves of the screen's
/// height. `None` when the difference does not fit the coordinate type.
pub fn taskbar_height(screen_height: i32, work_area: &MonitorRect) -> (h: Option<i32>)
    ensures
        h.is_some() == (i32::MIN <= screen_height - work_area.spec_height() <= i32::MAX),
        h matches Some(v) ==> v == screen_height - work_area.spec_height(),
{
    let diff: i64 = screen_height as i64 - work_area.height();
    if diff < -2147483648 || diff > 2147483647 {
        None
    } else {
        Some(diff as i32)
    }
}

/// Tells from the taskbar's state whether it hides itself.
pub fn is_autohide_state(state: u32) -> (b: bool)
    ensures
        b == (state & AUTOHIDE_BIT != 0),
{
    (state & AUTOHIDE_BIT) != 0
}

/// Tells from a window's show state whether it is maximized.
pub fn is_maximized_state(show_cmd: u32) -> (b: bool)
    ensures
        b == (show_cmd == SHOW_MAXIMIZED),
{
    show_cmd == SHOW_MAXIMIZED
}

} // verus!
