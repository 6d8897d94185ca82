//! Terminal size from `tput` output.
//!
//! When the window-size ioctl is unavailable (in a subshell, for
//! instance), the screen size can be recovered from what a `tput cols` or
//! `tput lines` invocation printed. Spawning the process is I/O and stays
//! outside the library; these functions do the interpretation: fold the
//! printed bytes into a count, taking only ASCII digits and wrapping on
//! `u16` overflow, and treat zero as "no usable answer".

use vstd::prelude::*;

verus! {

/// The count that folding the printed bytes produces: every ASCII digit
/// appends itself in base ten (wrapping on `u16` overflow), every other
/// byte is skipped.
pub open spec fn tput_accumulate(bytes: Seq<u8>) -> u16
    decreases bytes.len(),
{
    if bytes.len() == 0 {
        0u16
    } else {
        let prev = tput_accumulate(bytes.drop_last());
        let b = bytes.last();
        if 0x30 <= b <= 0x39 {
            (((prev as int) * 10 + (b - 0x30)) % 0x10000) as u16
        } else {
            prev
        }
    }
}

/// Interprets the bytes a `tput` invocation printed as a `u16` count.
/// Zero — printed as such, or nothing printed at all — is no usable
/// answer and yields `None`.
pub fn tput_value(output: &[u8]) -> (r: Option<u16>)
    ensures
        tput_accumulate(output@) > 0 ==> r == Some(tput_accumulate(output@)),
        tput_accumulate(output@) == 0 ==> r is None,
{
    let n = output.len();
    let mut i: usize = 0;
    let mut value: u16 = 0;
    while i < n
        invariant
            i <= n,
            n == output@.len(),
            value == tput_accumulate(output@.take(i as int)),
        decreases n - i,
    {
        let b = output[i];
        if b >= 0x30 && b <= 0x39 {
            let d: u32 = (b - 0x30) as u32;
            let wide: u32 = value as u32 * 10 + d;
            value = (wide % 0x10000) as u16;
        }
        proof {
            assert(output@.take(i + 1 as int).drop_last() =~= output@.take(i as int));
            assert(output@.take(i + 1 as int).last() == output@[i as int]);
        }
        i = i + 1;
    }
    proof {
        assert(output@.take(n as int) =~= output@);
    }
    if value > 0 {
        Some(value)
    } else {
        None
    }
}

/// Pairs the two `tput` answers into a screen size: both must be usable,
/// else there is no size.
pub fn tput_size(cols: Option<u16>, lines: Option<u16>) -> (r: Option<(u16, u16)>)
    ensures
        r is Some <==> cols is Some && lines is Some,
        r matches Some(p) ==> cols == Some(p.0) && lines == Some(p.1),
{
    match (cols, lines) {
        (Some(w), Some(h)) => Some((w, h)),
        _ => None,
    }
}

} // verus!
