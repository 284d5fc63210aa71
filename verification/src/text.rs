//! Reading numbers out of text: the optional `0x` prefix, digits, and the
//! value of a run of digits.

use vstd::prelude::*;

verus! {

/// Whether `c` is one of `0` to `9`.
pub open spec fn is_dec_digit(c: char) -> bool {
    0x30 <= c as u32 <= 0x39
}

/// Whether `c` is one of `0` to `9`, `a` to `f` or `A` to `F`.
pub open spec fn is_hex_digit(c: char) -> bool {
    is_dec_digit(c) || 0x61 <= c as u32 <= 0x66 || 0x41 <= c as u32 <= 0x46
}

/// What the digit `c` counts for.
pub open spec fn digit_value(c: char) -> nat {
    if is_dec_digit(c) {
        (c as u32 - 0x30) as nat
    } else if 0x61 <= c as u32 <= 0x66 {
        (c as u32 - 0x61 + 10) as nat
    } else if 0x41 <= c as u32 <= 0x46 {
        (c as u32 - 0x41 + 10) as nat
    } else {
        0
    }
}

/// Whether every character of `s` is a decimal digit.
pub open spec fn all_dec(s: Seq<char>) -> bool {
    forall|i: int| 0 <= i < s.len() ==> is_dec_digit(#[trigger] s[i])
}

/// Whether every character of `s` is a hexadecimal digit.
pub open spec fn all_hex(s: Seq<char>) -> bool {
    forall|i: int| 0 <= i < s.len() ==> is_hex_digit(#[trigger] s[i])
}

/// Whether `s` begins with `0x`.
pub open spec fn has_prefix(s: Seq<char>) -> bool {
    s.len() >= 2 && s[0] == '0' && s[1] == 'x'
}

/// `s` without one leading `0x`, where it has one.
pub open spec fn strip_prefix(s: Seq<char>) -> Seq<char> {
    if has_prefix(s) {
        s.subrange(2, s.len() as int)
    } else {
        s
    }
}

/// The number that `digits` spell in `base`, the first digit counting most.
pub open spec fn value_in_base(digits: Seq<char>, base: nat) -> nat
    decreases digits.len(),
{
    if digits.len() == 0 {
        0
    } else {
        value_in_base(digits.drop_last(), base) * base + digit_value(digits.last())
    }
}

/// The integer that `s` spells. With the prefix `0x` the rest is read as
/// hexadecimal. Without it, a run of decimal digits is read as decimal and
/// any other run of hexadecimal digits as hexadecimal. Nothing else, and no
/// empty run, spells an integer.
pub open spec fn integer_of(s: Seq<char>) -> Option<nat> {
    let body = strip_prefix(s);
    if body.len() == 0 {
        None
    } else if !has_prefix(s) && all_dec(body) {
        Some(value_in_base(body, 10))
    } else if all_hex(body) {
        Some(value_in_base(body, 16))
    } else {
        None
    }
}

/// A longer run of digits spells no smaller a number than its beginning.
pub proof fn lemma_value_grows(digits: Seq<char>, k: int, base: nat)
    requires
        0 <= k <= digits.len(),
        base >= 1,
    ensures
        value_in_base(digits.subrange(0, k), base) <= value_in_base(digits, base),
    decreases digits.len() - k,
{
    if k == digits.len() {
        assert(digits.subrange(0, k) =~= digits);
    } else {
        assert(digits.drop_last().subrange(0, k) =~= digits.subrange(0, k));
        lemma_value_grows(digits.drop_last(), k, base);
        let shorter = value_in_base(digits.drop_last(), base);
        assert(shorter <= shorter * base) by (nonlinear_arith)
            requires
                base >= 1,
        ;
    }
}

/// The characters of `s`.
pub fn chars_of(s: &str) -> (r: Vec<char>)
    ensures
        r@ == s@,
{
    broadcast use vstd::string::group_string_axioms;

    let mut out: Vec<char> = Vec::new();
    for c in it: s.chars()
        invariant
            it.seq() == s@,
            out@ == s@.subrange(0, it.index() as int),
    {
        out.push(c);
        assert(out@ =~= s@.subrange(0, it.index() + 1));
    }
    assert(out@ =~= s@);
    out
}

/// What the hexadecimal digit `c` counts for, if it is one.
pub fn hex_digit(c: char) -> (r: Option<u8>)
    ensures
        r.is_some() == is_hex_digit(c),
        r matches Some(d) ==> d == digit_value(c) && d < 16 && (d < 10 <==> is_dec_digit(c)),
{
    let n: u32 = c as u32;
    if 0x30 <= n && n <= 0x39 {
        Some((n - 0x30) as u8)
    } else if 0x61 <= n && n <= 0x66 {
        Some((n - 0x61 + 10) as u8)
    } else if 0x41 <= n && n <= 0x46 {
        Some((n - 0x41 + 10) as u8)
    } else {
        None
    }
}

/// Where the digits of `chars` begin: behind the prefix `0x`, or at the start.
pub fn body_start(chars: &Vec<char>) -> (r: usize)
    ensures
        r == (if has_prefix(chars@) {
            2int
        } else {
            0int
        }),
        chars@.subrange(r as int, chars@.len() as int) == strip_prefix(chars@),
{
    if chars.len() >= 2 && chars[0] == '0' && chars[1] == 'x' {
        2
    } else {
        assert(chars@.subrange(0, chars@.len() as int) =~= chars@);
        0
    }
}

/// Whether the characters of `chars` from `start` on are all decimal digits,
/// and whether they are all hexadecimal digits.
pub fn classify(chars: &Vec<char>, start: usize) -> (r: (bool, bool))
    requires
        start <= chars@.len(),
    ensures
        r.0 == all_dec(chars@.subrange(start as int, chars@.len() as int)),
        r.1 == all_hex(chars@.subrange(start as int, chars@.len() as int)),
{
    let ghost body = chars@.subrange(start as int, chars@.len() as int);
    let mut dec: bool = true;
    let mut hex: bool = true;
    let mut i: usize = start;
    while i < chars.len()
        invariant
            start <= i <= chars@.len(),
            body == chars@.subrange(start as int, chars@.len() as int),
            dec == all_dec(body.subrange(0, i - start)),
            hex == all_hex(body.subrange(0, i - start)),
        decreases chars@.len() - i,
    {
        let ghost before = body.subrange(0, i - start);
        let ghost after = body.subrange(0, i - start + 1);
        let digit = hex_digit(chars[i]);
        proof {
            assert(after[i - start] == chars@[i as int]);
            assert(forall|j: int| 0 <= j < before.len() ==> before[j] == after[j]);
            if all_hex(before) && is_hex_digit(chars@[i as int]) {
                assert forall|j: int| 0 <= j < after.len() implies is_hex_digit(
                    #[trigger] after[j],
                ) by {
                    if j < before.len() {
                        assert(is_hex_digit(before[j]));
                    }
                }
            }
            if all_dec(before) && is_dec_digit(chars@[i as int]) {
                assert forall|j: int| 0 <= j < after.len() implies is_dec_digit(
                    #[trigger] after[j],
                ) by {
                    if j < before.len() {
                        assert(is_dec_digit(before[j]));
                    }
                }
            }
            if all_hex(after) {
                assert forall|j: int| 0 <= j < before.len() implies is_hex_digit(
                    #[trigger] before[j],
                ) by {
                    assert(is_hex_digit(after[j]));
                }
            }
            if all_dec(after) {
                assert forall|j: int| 0 <= j < before.len() implies is_dec_digit(
                    #[trigger] before[j],
                ) by {
                    assert(is_dec_digit(after[j]));
                }
            }
        }
        match digit {
            Some(d) => {
                if d >= 10 {
                    dec = false;
                }
            },
            None => {
                dec = false;
                hex = false;
            },
        }
        i += 1;
    }
    assert(body.subrange(0, i - start) =~= body);
    (dec, hex)
}

/// Whether `a` and `b` hold the same characters.
pub fn same_text(a: &str, b: &str) -> (r: bool)
    ensures
        r == (a@ == b@),
{
    let x = chars_of(a);
    let y = chars_of(b);
    if x.len() != y.len() {
        return false;
    }
    let mut i: usize = 0;
    while i < x.len()
        invariant
            i <= x@.len(),
            x@.len() == y@.len(),
            x@ == a@,
            y@ == b@,
            forall|j: int| 0 <= j < i ==> x@[j] == y@[j],
        decreases x@.len() - i,
    {
        if x[i] != y[i] {
            return false;
        }
        i += 1;
    }
    assert(x@ =~= y@);
    true
}

/// The texts of a list of strings.
pub open spec fn texts(strings: Seq<String>) -> Seq<Seq<char>> {
    Seq::new(strings.len(), |i: int| strings[i]@)
}

} // verus!
