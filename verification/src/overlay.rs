//! The diagnostics overlay: one line of text, rewritten every frame from the
//! frame-rate and frame-time samples of the host.

use crate::units::Scalar;
use vstd::prelude::*;

verus! {

/// The decimal digit `d` as a character.
pub open spec fn digit_char(d: nat) -> char
    recommends
        d < 10,
{
    if d == 0 {
        '0'
    } else if d == 1 {
        '1'
    } else if d == 2 {
        '2'
    } else if d == 3 {
        '3'
    } else if d == 4 {
        '4'
    } else if d == 5 {
        '5'
    } else if d == 6 {
        '6'
    } else if d == 7 {
        '7'
    } else if d == 8 {
        '8'
    } else {
        '9'
    }
}

/// The decimal digits of `n`, most significant first, without leading zeros.
pub open spec fn digits(n: nat) -> Seq<char>
    decreases n,
{
    if n < 10 {
        seq![digit_char(n)]
    } else {
        digits(n / 10).push(digit_char(n % 10))
    }
}

/// The last `width` decimal digits of `n`, with zeros in front where `n` is short.
pub open spec fn padded_digits(n: nat, width: nat) -> Seq<char>
    decreases width,
{
    if width == 0 {
        Seq::empty()
    } else {
        padded_digits(n / 10, (width - 1) as nat).push(digit_char(n % 10))
    }
}

/// Ten to the power `e`, for the exponents that a millionth-scaled value needs.
pub open spec fn pow10(e: nat) -> nat
    recommends
        e <= 6,
{
    if e == 0 {
        1
    } else if e == 1 {
        10
    } else if e == 2 {
        100
    } else if e == 3 {
        1_000
    } else if e == 4 {
        10_000
    } else if e == 5 {
        100_000
    } else {
        1_000_000
    }
}

/// `m / divisor` rounded to the nearest whole number, a tie going to the even one.
pub open spec fn round_half_even(m: nat, divisor: nat) -> nat
    recommends
        divisor > 0,
{
    let q = m / divisor;
    let r = m % divisor;
    if 2 * r > divisor || (2 * r == divisor && q % 2 == 1) {
        (q + 1) as nat
    } else {
        q
    }
}

/// The absolute value of `micro`.
pub open spec fn magnitude(micro: int) -> nat {
    if micro < 0 {
        (-micro) as nat
    } else {
        micro as nat
    }
}

/// The text of a scalar of `micro` millionths with `places` digits after the
/// point: a minus sign where the scalar is negative, the whole part, a point,
/// and the fraction. The scalar is rounded to the nearest value that `places`
/// digits can show, a tie going to the even last digit.
pub open spec fn decimal_text(micro: int, places: nat) -> Seq<char>
    recommends
        1 <= places <= 6,
{
    let shown = round_half_even(magnitude(micro), pow10((6 - places) as nat));
    let sign = if micro < 0 {
        seq!['-']
    } else {
        Seq::<char>::empty()
    };
    sign + digits(shown / pow10(places)) + seq!['.'] + padded_digits(shown % pow10(places), places)
}

/// The smoothed samples that the host's diagnostics offer. Either may be
/// missing, early in a run or where the host does not measure it.
#[derive(Clone, Copy, Debug, PartialEq, Eq, Hash, Structural)]
pub struct Diagnostics {
    /// Smoothed frames per second.
    pub fps: Option<Scalar>,
    /// Smoothed time per frame.
    pub frame_time: Option<Scalar>,
}

impl Diagnostics {
    /// The frame rate to show: the smoothed sample, or zero where there is none.
    pub open spec fn shown_fps(self) -> Scalar {
        match self.fps {
            Some(fps) => fps,
            None => Scalar { micro: 0 },
        }
    }

    /// The frame time to show: the smoothed sample, or the unsmoothed time of
    /// the last frame, `delta`, where there is none.
    pub open spec fn shown_frame_time(self, delta: Scalar) -> Scalar {
        match self.frame_time {
            Some(frame_time) => frame_time,
            None => delta,
        }
    }
}

/// The line that the overlay shows for the given samples: the frame rate to
/// one decimal place and the frame time to three.
pub open spec fn overlay_line(diagnostics: Diagnostics, delta: Scalar) -> Seq<char> {
    "This text changes in the bottom right - "@ + decimal_text(diagnostics.shown_fps().micro as int, 1)
        + " fps, "@ + decimal_text(diagnostics.shown_frame_time(delta).micro as int, 3)
        + " ms/frame"@
}

/// The text of one decimal digit.
fn digit_str(d: u64) -> (s: &'static str)
    requires
        d < 10,
    ensures
        s@ == seq![digit_char(d as nat)],
{
    proof {
        reveal_strlit("0");
        reveal_strlit("1");
        reveal_strlit("2");
        reveal_strlit("3");
        reveal_strlit("4");
        reveal_strlit("5");
        reveal_strlit("6");
        reveal_strlit("7");
        reveal_strlit("8");
        reveal_strlit("9");
    }
    let s: &'static str = if d == 0 {
        "0"
    } else if d == 1 {
        "1"
    } else if d == 2 {
        "2"
    } else if d == 3 {
        "3"
    } else if d == 4 {
        "4"
    } else if d == 5 {
        "5"
    } else if d == 6 {
        "6"
    } else if d == 7 {
        "7"
    } else if d == 8 {
        "8"
    } else {
        "9"
    };
    assert(s@ =~= seq![digit_char(d as nat)]);
    s
}

/// Appends the decimal digits of `n` to `out`.
fn push_digits(out: &mut String, n: u64)
    ensures
        final(out)@ == old(out)@ + digits(n as nat),
    decreases n,
{
    if n >= 10 {
        push_digits(out, n / 10);
    }
    out.append(digit_str(n % 10));
    assert(final(out)@ =~= old(out)@ + digits(n as nat));
}

/// Appends the last `width` decimal digits of `n` to `out`, zero-padded.
fn push_padded(out: &mut String, n: u64, width: u8)
    ensures
        final(out)@ == old(out)@ + padded_digits(n as nat, width as nat),
    decreases width,
{
    if width > 0 {
        push_padded(out, n / 10, width - 1);
        out.append(digit_str(n % 10));
    }
    assert(final(out)@ =~= old(out)@ + padded_digits(n as nat, width as nat));
}

/// Ten to the power `e`.
fn power_of_ten(e: u8) -> (p: u64)
    requires
        e <= 6,
    ensures
        p == pow10(e as nat),
{
    if e == 0 {
        1
    } else if e == 1 {
        10
    } else if e == 2 {
        100
    } else if e == 3 {
        1_000
    } else if e == 4 {
        10_000
    } else if e == 5 {
        100_000
    } else {
        1_000_000
    }
}

/// Appends the text of `value` with `places` digits after the point to `out`.
fn push_decimal(out: &mut String, value: Scalar, places: u8)
    requires
        1 <= places <= 6,
    ensures
        final(out)@ == old(out)@ + decimal_text(value.micro as int, places as nat),
{
    let negative: bool = value.micro < 0;
    let size: u64 = if negative {
        (-(value.micro + 1)) as u64 + 1
    } else {
        value.micro as u64
    };
    assert(size == magnitude(value.micro as int));
    let divisor: u64 = power_of_ten(6 - places);
    let q: u64 = size / divisor;
    let r: u64 = size % divisor;
    let shown: u64 = if 2 * r > divisor || (2 * r == divisor && q % 2 == 1) {
        q + 1
    } else {
        q
    };
    assert(shown == round_half_even(size as nat, divisor as nat));
    let unit: u64 = power_of_ten(places);
    if negative {
        out.append("-");
    }
    let ghost signed = out@;
    push_digits(out, shown / unit);
    out.append(".");
    push_padded(out, shown % unit, places);
    proof {
        reveal_strlit("-");
        reveal_strlit(".");
        assert("-"@ =~= seq!['-']);
        assert("."@ =~= seq!['.']);
        assert(out@ =~= old(out)@ + decimal_text(value.micro as int, places as nat));
    }
}

/// The text that the overlay entity shows.
#[derive(Clone, Debug, PartialEq, Eq)]
pub struct DisplayText {
    value: String,
}

impl View for DisplayText {
    type V = Seq<char>;

    closed spec fn view(&self) -> Seq<char> {
        self.value@
    }
}

impl DisplayText {
    /// The overlay before the first frame: its label alone.
    pub fn new() -> (text: DisplayText)
        ensures
            text@ == "This text changes in the bottom right"@,
    {
        DisplayText { value: String::from_str("This text changes in the bottom right") }
    }

    /// The text as it stands.
    pub fn as_str(&self) -> (s: &str)
        ensures
            s@ == self@,
    {
        self.value.as_str()
    }

    /// The diagnostics overlay updater: rewrites the text from this frame's
    /// samples, whatever it held before.
    ///
    /// The frame rate shown is the smoothed sample, or 0.0 without one; the
    /// frame time shown is the smoothed sample, or `delta` without one.
    pub fn update(&mut self, diagnostics: &Diagnostics, delta: Scalar)
        ensures
            final(self)@ == overlay_line(*diagnostics, delta),
    {
        let fps: Scalar = match diagnostics.fps {
            Some(fps) => fps,
            None => Scalar::zero(),
        };
        let frame_time: Scalar = match diagnostics.frame_time {
            Some(frame_time) => frame_time,
            None => delta,
        };
        let mut line: String = String::from_str("This text changes in the bottom right - ");
        push_decimal(&mut line, fps, 1);
        line.append(" fps, ");
        push_decimal(&mut line, frame_time, 3);
        line.append(" ms/frame");
        assert(line@ =~= overlay_line(*diagnostics, delta));
        self.value = line;
    }
}

} // verus!
