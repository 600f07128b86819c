//! Plain-text encoding of labels and file names, byte-exact.
//!
//! A label file holds one `class cx cy w h` line per label, fields
//! space-separated, fractional quantities printed as minimal decimals
//! (no trailing zeros, no fraction mark for whole numbers).  Label and
//! image files are named by the zero-padded five-digit episode index.

use vstd::prelude::*;
use crate::MICRO;
use crate::label::{BoundingBoxLabel, POINT_LABEL_SIZE};

verus! {

/// The ASCII digits of `n` in order, most significant first.
pub open spec fn dec_digits(n: int) -> Seq<u8>
    decreases n,
{
    if n < 10 {
        seq![(48 + n) as u8]
    } else {
        dec_digits(n / 10).push((48 + n % 10) as u8)
    }
}

/// The six fractional digits of a micro-unit value `f` in `[0, 1_000_000)`.
pub open spec fn frac_digits(f: int) -> Seq<u8> {
    seq![
        (48 + f / 100_000 % 10) as u8,
        (48 + f / 10_000 % 10) as u8,
        (48 + f / 1_000 % 10) as u8,
        (48 + f / 100 % 10) as u8,
        (48 + f / 10 % 10) as u8,
        (48 + f % 10) as u8,
    ]
}

/// `s` with its trailing ASCII zeros removed.
pub open spec fn strip_trailing_zeros(s: Seq<u8>) -> Seq<u8>
    decreases s.len(),
{
    if s.len() > 0 && s.last() == 48u8 {
        strip_trailing_zeros(s.drop_last())
    } else {
        s
    }
}

/// The minimal decimal text of a non-negative micro-unit value: the
/// whole part's digits, then, unless the fraction is zero, a point and
/// the fraction's digits without trailing zeros.
pub open spec fn micro_text_nonneg(v: int) -> Seq<u8> {
    let whole = dec_digits(v / (MICRO as int));
    let f = v % (MICRO as int);
    if f == 0 {
        whole
    } else {
        whole + seq![46u8] + strip_trailing_zeros(frac_digits(f))
    }
}

/// The minimal decimal text of a micro-unit value, with a leading minus
/// sign when negative.
pub open spec fn micro_text(v: int) -> Seq<u8> {
    if v < 0 {
        seq![45u8] + micro_text_nonneg(-v)
    } else {
        micro_text_nonneg(v)
    }
}

/// One `class cx cy w h` label line, fields space-separated.
pub open spec fn label_line_text(class: int, cx: int, cy: int, w: int, h: int) -> Seq<u8> {
    dec_digits(class) + seq![32u8] + micro_text(cx) + seq![32u8] + micro_text(cy) + seq![32u8]
        + micro_text(w) + seq![32u8] + micro_text(h)
}

/// The whole text of one episode's label file: the label's own line,
/// then, if the label carries a secondary point, a newline and the
/// point's line with the fixed point size.
pub open spec fn label_file_text(l: BoundingBoxLabel) -> Seq<u8> {
    let first = label_line_text(
        l.class_id as int,
        l.center_x as int,
        l.center_y as int,
        l.width as int,
        l.height as int,
    );
    match l.secondary_point {
        Some(s) => first + seq![10u8] + label_line_text(
            s.class_id as int,
            s.x as int,
            s.y as int,
            POINT_LABEL_SIZE as int,
            POINT_LABEL_SIZE as int,
        ),
        None => first,
    }
}

/// Renders the decimal digits of `n`.
pub fn format_number(n: u64) -> (r: Vec<u8>)
    ensures
        r@ == dec_digits(n as int),
    decreases n,
{
    if n < 10 {
        let mut r: Vec<u8> = Vec::new();
        r.push(48 + n as u8);
        r
    } else {
        let mut r = format_number(n / 10);
        r.push(48 + (n % 10) as u8);
        r
    }
}

/// Renders the zero-padded five-digit name of episode `index` (an index
/// beyond five digits keeps all of its digits).
pub fn format_index(index: u32) -> (r: Vec<u8>)
    ensures
        r@ == (if dec_digits(index as int).len() >= 5 {
            dec_digits(index as int)
        } else {
            Seq::new((5 - dec_digits(index as int).len()) as nat, |i: int| 48u8) + dec_digits(
                index as int,
            )
        }),
{
    let mut digits = format_number(index as u64);
    let mut r: Vec<u8> = Vec::new();
    if digits.len() < 5 {
        let pad = 5 - digits.len();
        let mut k: usize = 0;
        while k < pad
            invariant
                0 <= k <= pad,
                r@ =~= Seq::new(k as nat, |i: int| 48u8),
            decreases pad - k,
        {
            r.push(48);
            k = k + 1;
        }
    }
    r.append(&mut digits);
    proof {
        assert(r@ =~= (if dec_digits(index as int).len() >= 5 {
            dec_digits(index as int)
        } else {
            Seq::new((5 - dec_digits(index as int).len()) as nat, |i: int| 48u8) + dec_digits(
                index as int,
            )
        }));
    }
    r
}

/// Renders the minimal decimal text of a micro-unit value.
pub fn format_micro(v: i64) -> (r: Vec<u8>)
    requires
        -1_000_000_000_000_000_000 <= v <= 1_000_000_000_000_000_000,
    ensures
        r@ == micro_text(v as int),
{
    let mut out: Vec<u8> = Vec::new();
    let m: u64;
    if v < 0 {
        out.push(45);
        m = (-v) as u64;
    } else {
        m = v as u64;
    }
    let mut whole = format_number(m / 1_000_000);
    out.append(&mut whole);
    let f = m % 1_000_000;
    if f != 0 {
        out.push(46);
        let mut fr: Vec<u8> = Vec::new();
        fr.push(48 + (f / 100_000 % 10) as u8);
        fr.push(48 + (f / 10_000 % 10) as u8);
        fr.push(48 + (f / 1_000 % 10) as u8);
        fr.push(48 + (f / 100 % 10) as u8);
        fr.push(48 + (f / 10 % 10) as u8);
        fr.push(48 + (f % 10) as u8);
        proof {
            assert(fr@ =~= frac_digits(f as int));
        }
        while fr.len() > 0 && fr[fr.len() - 1] == 48
            invariant
                strip_trailing_zeros(fr@) == strip_trailing_zeros(frac_digits(f as int)),
            decreases fr.len(),
        {
            fr.pop();
        }
        out.append(&mut fr);
    }
    proof {
        assert(out@ =~= micro_text(v as int));
    }
    out
}

/// Renders the whole text of one episode's label file.
pub fn render_label(l: &BoundingBoxLabel) -> (r: Vec<u8>)
    requires
        -1_000_000_000_000_000 <= l.center_x <= 1_000_000_000_000_000,
        -1_000_000_000_000_000 <= l.center_y <= 1_000_000_000_000_000,
        -1_000_000_000_000_000 <= l.width <= 1_000_000_000_000_000,
        -1_000_000_000_000_000 <= l.height <= 1_000_000_000_000_000,
        l.secondary_point matches Some(s) ==> -1_000_000_000_000_000 <= s.x
            <= 1_000_000_000_000_000 && -1_000_000_000_000_000 <= s.y <= 1_000_000_000_000_000,
    ensures
        r@ == label_file_text(*l),
{
    let mut out = format_number(l.class_id as u64);
    out.push(32);
    let mut piece = format_micro(l.center_x);
    out.append(&mut piece);
    out.push(32);
    let mut piece = format_micro(l.center_y);
    out.append(&mut piece);
    out.push(32);
    let mut piece = format_micro(l.width);
    out.append(&mut piece);
    out.push(32);
    let mut piece = format_micro(l.height);
    out.append(&mut piece);
    match l.secondary_point {
        Some(s) => {
            out.push(10);
            let mut piece = format_number(s.class_id as u64);
            out.append(&mut piece);
            out.push(32);
            let mut piece = format_micro(s.x);
            out.append(&mut piece);
            out.push(32);
            let mut piece = format_micro(s.y);
            out.append(&mut piece);
            out.push(32);
            let mut piece = format_micro(POINT_LABEL_SIZE);
            out.append(&mut piece);
            out.push(32);
            let mut piece = format_micro(POINT_LABEL_SIZE);
            out.append(&mut piece);
        },
        None => {},
    }
    proof {
        assert(out@ =~= label_file_text(*l));
    }
    out
}

/// Whether two byte strings hold the same bytes.
pub fn bytes_eq(a: &Vec<u8>, b: &Vec<u8>) -> (r: bool)
    ensures
        r == (a@ == b@),
{
    if a.len() != b.len() {
        return false;
    }
    let mut i: usize = 0;
    while i < a.len()
        invariant
            0 <= i <= a.len(),
            a@.len() == b@.len(),
            forall|t: int| 0 <= t < i ==> a@[t] == b@[t],
        decreases a.len() - i,
    {
        if a[i] != b[i] {
            return false;
        }
        i = i + 1;
    }
    proof {
        assert(a@ =~= b@);
    }
    true
}

/// A fresh byte string holding the same bytes.
pub fn copy_bytes(a: &Vec<u8>) -> (r: Vec<u8>)
    ensures
        r@ == a@,
{
    let mut r: Vec<u8> = Vec::new();
    let mut i: usize = 0;
    while i < a.len()
        invariant
            0 <= i <= a.len(),
            r@ =~= a@.take(i as int),
        decreases a.len() - i,
    {
        r.push(a[i]);
        i = i + 1;
    }
    proof {
        assert(a@.take(a@.len() as int) =~= a@);
    }
    r
}

} // verus!
