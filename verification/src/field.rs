//! Field elements and curve points as they stand in a proof: text that is
//! checked for its form. The field is a stand-in of machine width.

use vstd::prelude::*;
use crate::errors::ErrorCode;
use crate::text::{
    all_dec, all_hex, body_start, chars_of, classify, has_prefix, hex_digit, integer_of,
    lemma_value_grows, strip_prefix, value_in_base,
};

verus! {

/// The modulus of the stand-in field: the largest 64-bit number.
pub const FIELD_MODULUS: u64 = 0xffff_ffff_ffff_ffff;

/// The field element that `s` spells: its integer, which must be below the
/// modulus, reduced by the modulus.
pub open spec fn field_element(s: Seq<char>) -> Result<u64, ErrorCode> {
    match integer_of(s) {
        None => Err(ErrorCode::FieldElementParsingFailed),
        Some(value) => if value >= FIELD_MODULUS {
            Err(ErrorCode::FieldElementOutOfRange)
        } else {
            Ok((value % (FIELD_MODULUS as nat)) as u64)
        },
    }
}

/// Whether a commitment of `digits` hexadecimal digits has the length of a
/// point encoding: compressed, compressed behind a flag byte, or uncompressed.
pub open spec fn is_point_length(digits: nat) -> bool {
    digits == 64 || digits == 66 || digits == 128
}

/// What is wrong with `s` as a curve point, if anything: first its length
/// behind the optional prefix, then its characters.
pub open spec fn curve_point(s: Seq<char>) -> Result<(), ErrorCode> {
    let body = strip_prefix(s);
    if !is_point_length(body.len()) {
        Err(ErrorCode::InvalidCurvePoint)
    } else if !all_hex(body) {
        Err(ErrorCode::InvalidHexFormat)
    } else {
        Ok(())
    }
}

/// Reads `s` as a field element.
pub fn parse_field_element(s: &str) -> (r: Result<u64, ErrorCode>)
    ensures
        r == field_element(s@),
{
    let chars = chars_of(s);
    let start: usize = body_start(&chars);
    let n: usize = chars.len();
    if n == start {
        return Err(ErrorCode::FieldElementParsingFailed);
    }
    let (dec, hex) = classify(&chars, start);
    let ghost body = strip_prefix(s@);
    let base: u64 = if start == 0 && dec {
        10
    } else if hex {
        16
    } else {
        return Err(ErrorCode::FieldElementParsingFailed);
    };
    assert(integer_of(s@) == Some(value_in_base(body, base as nat)));
    assert(all_hex(body)) by {
        if !hex {
            assert forall|j: int| 0 <= j < body.len() implies crate::text::is_hex_digit(
                #[trigger] body[j],
            ) by {
                assert(crate::text::is_dec_digit(body[j]));
            }
        }
    }
    let mut acc: u64 = 0;
    let mut i: usize = start;
    while i < n
        invariant
            start <= i <= n,
            n == chars@.len(),
            body == chars@.subrange(start as int, n as int),
            all_hex(body),
            base == 10 ==> all_dec(body),
            base == 10 || base == 16,
            acc == value_in_base(body.subrange(0, i - start), base as nat),
            integer_of(s@) == Some(value_in_base(body, base as nat)),
        decreases n - i,
    {
        let ghost before = body.subrange(0, i - start);
        let ghost after = body.subrange(0, i - start + 1);
        proof {
            assert(body[i - start] == chars@[i as int]);
            assert(crate::text::is_hex_digit(body[i - start]));
            if base == 10 {
                assert(crate::text::is_dec_digit(body[i - start]));
            }
            assert(after.drop_last() =~= before);
            assert(after.last() == chars@[i as int]);
            lemma_value_grows(body, i - start + 1, base as nat);
        }
        let d: u64 = match hex_digit(chars[i]) {
            Some(d) => d as u64,
            None => 0,
        };
        assert(d < base);
        assert(value_in_base(after, base as nat) == acc * base + d);
        let limit: u64 = (FIELD_MODULUS - d) / base;
        if acc > limit {
            assert(acc * base + d > FIELD_MODULUS) by (nonlinear_arith)
                requires
                    acc > limit,
                    limit as int == (FIELD_MODULUS - d) / (base as int),
                    base == 10 || base == 16,
                    d < base,
            ;
            return Err(ErrorCode::FieldElementOutOfRange);
        }
        assert(acc * base + d <= FIELD_MODULUS) by (nonlinear_arith)
            requires
                acc <= limit,
                limit as int == (FIELD_MODULUS - d) / (base as int),
                base == 10 || base == 16,
                d < base,
        ;
        acc = acc * base + d;
        i += 1;
    }
    assert(body.subrange(0, i - start) =~= body);
    if acc >= FIELD_MODULUS {
        return Err(ErrorCode::FieldElementOutOfRange);
    }
    Ok(acc % FIELD_MODULUS)
}

/// Checks the form of `s` as a curve point.
pub fn validate_curve_point(s: &str) -> (r: Result<(), ErrorCode>)
    ensures
        r == curve_point(s@),
        r.is_ok() <==> is_point_length(strip_prefix(s@).len()) && all_hex(strip_prefix(s@)),
{
    let chars = chars_of(s);
    let start: usize = body_start(&chars);
    let digits: usize = chars.len() - start;
    if !(digits == 64 || digits == 66 || digits == 128) {
        return Err(ErrorCode::InvalidCurvePoint);
    }
    let (_, hex) = classify(&chars, start);
    if !hex {
        return Err(ErrorCode::InvalidHexFormat);
    }
    Ok(())
}

/// A text is a curve point exactly when, behind the optional prefix, it
/// has 64, 66 or 128 characters and each is a hexadecimal digit.
pub proof fn law_curve_point_boundary(s: Seq<char>)
    ensures
        curve_point(s).is_ok() <==> (strip_prefix(s).len() == 64 || strip_prefix(s).len() == 66
            || strip_prefix(s).len() == 128) && all_hex(strip_prefix(s)),
        !is_point_length(strip_prefix(s).len()) ==> curve_point(s) == Err::<(), ErrorCode>(
            ErrorCode::InvalidCurvePoint,
        ),
        is_point_length(strip_prefix(s).len()) && !all_hex(strip_prefix(s)) ==> curve_point(s)
            == Err::<(), ErrorCode>(ErrorCode::InvalidHexFormat),
{
}

} // verus!
