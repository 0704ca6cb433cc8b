//! Physical lengths and their conversion to printer dots.

use vstd::prelude::*;

use crate::wire::{decimal, push_bytes, push_decimal, push_thousandths, thousandths, utf8};

verus! {

/// A length, in one of the three units the protocol knows.
///
/// Physical lengths are held as exact fixed-point numbers with three decimals:
/// `Imperial(1500)` is 1.5 inches, `Metric(25400)` is 25.4 millimetres.
#[derive(Debug, Clone, Copy, PartialEq, Eq, Structural)]
pub enum Size {
    /// Thousandths of an inch.
    Imperial(i32),
    /// Thousandths of a millimetre (micrometres).
    Metric(i32),
    /// Device dots.
    Dots(i32),
}

/// Label geometry declared when a session starts.
#[derive(Debug, Clone, Copy, PartialEq, Eq, Structural)]
pub struct Tape {
    pub width: Size,
    pub height: Option<Size>,
    pub gap: Size,
    pub gap_offset: Option<Size>,
}

/// Integer division that truncates toward zero, as machine division does.
pub open spec fn trunc_div(a: int, d: int) -> int {
    if a >= 0 {
        a / d
    } else {
        -((-a) / d)
    }
}

/// Number of dots that a length covers at `resolution` dots per inch,
/// truncated toward zero.
pub open spec fn dots_of(s: Size, resolution: u32) -> int {
    match s {
        Size::Imperial(x) => trunc_div(x * resolution, 1000),
        Size::Metric(x) => trunc_div(x * resolution, 25400),
        Size::Dots(x) => x as int,
    }
}

/// `x * resolution / divisor`, truncated toward zero.
fn scale(x: i32, resolution: u32, divisor: u64) -> (r: i64)
    requires
        divisor > 0,
    ensures
        r == trunc_div(x * resolution, divisor as int),
{
    let neg = x < 0;
    let m: u64 = if neg {
        (0 - (x as i64)) as u64
    } else {
        x as u64
    };
    assert(m <= 0x8000_0000);
    assert(m * (resolution as u64) <= 0x8000_0000 * 0xffff_ffffu64) by (nonlinear_arith)
        requires
            m <= 0x8000_0000,
            resolution <= 0xffff_ffffu32,
    ;
    let p: u64 = m * (resolution as u64);
    let q: u64 = p / divisor;
    assert(q <= p) by (nonlinear_arith)
        requires
            q == p / divisor,
            divisor > 0,
    ;
    proof {
        if neg {
            assert(-(x * resolution) == m * resolution) by (nonlinear_arith)
                requires
                    m == -x,
            ;
        }
    }
    if neg {
        0 - (q as i64)
    } else {
        q as i64
    }
}

impl Size {
    /// Converts the length to dots at `resolution` dots per inch, truncating
    /// toward zero.
    pub fn to_dots(&self, resolution: u32) -> (r: i64)
        ensures
            r == dots_of(*self, resolution),
    {
        match self {
            Size::Imperial(x) => scale(*x, resolution, 1000),
            Size::Metric(x) => scale(*x, resolution, 25400),
            Size::Dots(x) => *x as i64,
        }
    }
}

/// Text of a length as the protocol writes it where it takes physical
/// units: inches bare, millimetres with ` mm`, dots with ` dot`.
pub open spec fn size_text(s: Size) -> Seq<u8> {
    match s {
        Size::Imperial(x) => thousandths(x as int),
        Size::Metric(x) => thousandths(x as int) + utf8(" mm"@),
        Size::Dots(x) => decimal(x as int) + utf8(" dot"@),
    }
}

impl Size {
    /// The length written with its unit, for commands that take physical
    /// units: `1.5`, `25.4 mm`, `12 dot`.
    pub fn text(&self) -> (r: Vec<u8>)
        ensures
            r@ == size_text(*self),
    {
        let mut r: Vec<u8> = Vec::new();
        match self {
            Size::Imperial(x) => {
                push_thousandths(&mut r, *x);
            },
            Size::Metric(x) => {
                push_thousandths(&mut r, *x);
                push_bytes(&mut r, " mm".as_bytes());
            },
            Size::Dots(x) => {
                push_decimal(&mut r, *x as i64);
                push_bytes(&mut r, " dot".as_bytes());
            },
        }
        assert(r@ =~= size_text(*self));
        r
    }
}

/// One inch, written either as 25.4 millimetres or as 1 inch, is exactly
/// `resolution` dots.
pub proof fn lemma_one_inch_is_resolution(resolution: u32)
    requires
        resolution > 0,
    ensures
        dots_of(Size::Metric(25400), resolution) == resolution,
        dots_of(Size::Imperial(1000), resolution) == resolution,
{
    assert((25400 * resolution) / 25400 == resolution) by (nonlinear_arith);
    assert((1000 * resolution) / 1000 == resolution) by (nonlinear_arith);
}

/// Conversion to dots truncates toward zero: the exact number of dots
/// `x * resolution / divisor` lies within one dot of the result, on the side
/// away from zero.
pub proof fn lemma_to_dots_truncates(s: Size, resolution: u32)
    requires
        !(s is Dots),
    ensures
        ({
            let (x, divisor) = match s {
                Size::Imperial(x) => (x as int, 1000int),
                Size::Metric(x) => (x as int, 25400int),
                Size::Dots(x) => (x as int, 1int),
            };
            let d = dots_of(s, resolution);
            let exact = x * resolution;
            &&& exact >= 0 ==> d * divisor <= exact < (d + 1) * divisor
            &&& exact < 0 ==> (d - 1) * divisor < exact <= d * divisor
        }),
{
    let (x, divisor) = match s {
        Size::Imperial(x) => (x as int, 1000int),
        Size::Metric(x) => (x as int, 25400int),
        Size::Dots(x) => (x as int, 1int),
    };
    let exact = x * resolution;
    let d = dots_of(s, resolution);
    assert(d == trunc_div(exact, divisor));
    if exact >= 0 {
        assert(d * divisor <= exact < (d + 1) * divisor) by (nonlinear_arith)
            requires
                d == exact / divisor,
                divisor > 0,
                exact >= 0,
        ;
    } else {
        let q = (-exact) / divisor;
        assert(q * divisor <= -exact < (q + 1) * divisor) by (nonlinear_arith)
            requires
                q == (-exact) / divisor,
                divisor > 0,
                exact < 0,
        ;
        assert(d == -q);
        assert((d - 1) * divisor < exact <= d * divisor) by (nonlinear_arith)
            requires
                d == -q,
                q * divisor <= -exact < (q + 1) * divisor,
        ;
    }
}

} // verus!
