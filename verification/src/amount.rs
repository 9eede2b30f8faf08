//! Decimal money amounts, parsed exactly into minor units.
//!
//! An amount token on a statement is a plain decimal string: one or more
//! digits, optionally followed by a dot and one or two fraction digits.  The
//! parsed value is held in minor units (two fractional digits), so `"574.42"`
//! becomes `57442` and `"100"` becomes `10000`.  Anything else — including a
//! value too large for `u64` minor units — is rejected.

use vstd::prelude::*;

verus! {

/// The character is a decimal digit.
pub open spec fn is_digit(c: char) -> bool {
    48 <= c as u32 <= 57
}

/// Numeric value of a digit character (0 for non-digits).
pub open spec fn digit_val(c: char) -> nat {
    if is_digit(c) {
        (c as u32 - 48) as nat
    } else {
        0nat
    }
}

/// Every character of the sequence is a decimal digit.
pub open spec fn all_digits(s: Seq<char>) -> bool {
    forall|i: int| 0 <= i < s.len() ==> is_digit(#[trigger] s[i])
}

/// The base-ten value of a digit sequence (most significant first).
pub open spec fn digits_val(s: Seq<char>) -> nat
    decreases s.len(),
{
    if s.len() == 0 {
        0nat
    } else {
        digits_val(s.drop_last()) * 10 + digit_val(s.last())
    }
}

/// Index of the first `'.'` at or after `i`, or `s.len()` if there is none.
pub open spec fn dot_pos(s: Seq<char>, i: int) -> int
    decreases s.len() - i,
{
    if i >= s.len() {
        s.len() as int
    } else if s[i] == '.' {
        i
    } else {
        dot_pos(s, i + 1)
    }
}

/// Characterization of [`dot_pos`]: it is the first dot position.
pub proof fn lemma_dot_pos(s: Seq<char>, i: int)
    requires
        0 <= i <= s.len(),
    ensures
        i <= dot_pos(s, i) <= s.len(),
        dot_pos(s, i) < s.len() ==> s[dot_pos(s, i)] == '.',
        forall|k: int| i <= k < dot_pos(s, i) ==> s[k] != '.',
    decreases s.len() - i,
{
    if i < s.len() && s[i] != '.' {
        lemma_dot_pos(s, i + 1);
    }
}

/// The value of a prefix of a digit sequence never exceeds the value of the
/// whole sequence.
pub proof fn lemma_digits_val_prefix_le(s: Seq<char>, i: int)
    requires
        0 <= i <= s.len(),
    ensures
        digits_val(s.subrange(0, i)) <= digits_val(s),
    decreases s.len() - i,
{
    if i == s.len() {
        assert(s.subrange(0, i) =~= s);
    } else {
        assert(s.subrange(0, i + 1).drop_last() =~= s.subrange(0, i));
        lemma_digits_val_prefix_le(s, i + 1);
    }
}

/// Value bounds for digit runs of at most two characters.
pub proof fn lemma_digits_val_small(s: Seq<char>)
    ensures
        s.len() == 0 ==> digits_val(s) == 0,
        s.len() <= 1 ==> digits_val(s) <= 9,
        s.len() <= 2 ==> digits_val(s) <= 99,
    decreases s.len(),
{
    if s.len() > 0 {
        lemma_digits_val_small(s.drop_last());
    }
}

/// The parsed digit run `s`, as a `u64`: `None` if some character is not a
/// digit or the value does not fit.
pub open spec fn seq_digits_u64(s: Seq<char>) -> Option<u64> {
    if all_digits(s) && digits_val(s) <= u64::MAX {
        Some(digits_val(s) as u64)
    } else {
        None
    }
}

/// The amount denoted by `s`, in minor units (two fractional digits):
/// `None` if `s` is not `digits` or `digits '.' (one or two digits)`, or if
/// the scaled value does not fit in `u64`.
pub open spec fn amount_u64(s: Seq<char>) -> Option<u64> {
    let d = dot_pos(s, 0);
    let ip = s.subrange(0, d);
    if !(ip.len() >= 1 && all_digits(ip)) {
        None
    } else {
        let iv = digits_val(ip);
        if d == s.len() {
            if iv * 100 <= u64::MAX {
                Some((iv * 100) as u64)
            } else {
                None
            }
        } else {
            let fp = s.subrange(d + 1, s.len() as int);
            if 1 <= fp.len() <= 2 && all_digits(fp) {
                let scale: nat = if fp.len() == 1 {
                    10nat
                } else {
                    1nat
                };
                let v = iv * 100 + digits_val(fp) * scale;
                if v <= u64::MAX {
                    Some(v as u64)
                } else {
                    None
                }
            } else {
                None
            }
        }
    }
}

/// Finds the first `'.'` of `s`, or returns its length.
fn find_dot(s: &str) -> (r: usize)
    ensures
        r as int == dot_pos(s@, 0),
        r <= s@.len(),
{
    let n: usize = s.unicode_len();
    let mut j: usize = 0;
    while j < n
        invariant
            j <= n,
            n == s@.len(),
            forall|k: int| 0 <= k < j ==> s@[k] != '.',
        decreases n - j,
    {
        if s.get_char(j) == '.' {
            proof {
                lemma_dot_pos(s@, 0);
            }
            return j;
        }
        j += 1;
    }
    proof {
        lemma_dot_pos(s@, 0);
    }
    n
}

/// Parses the digit run `s[from..to]` as a `u64`.
fn parse_digits(s: &str, from: usize, to: usize) -> (r: Option<u64>)
    requires
        from <= to <= s@.len(),
    ensures
        r == seq_digits_u64(s@.subrange(from as int, to as int)),
{
    let ghost whole = s@.subrange(from as int, to as int);
    let mut acc: u64 = 0;
    let mut j: usize = from;
    while j < to
        invariant
            from <= j <= to <= s@.len(),
            whole == s@.subrange(from as int, to as int),
            all_digits(s@.subrange(from as int, j as int)),
            acc as nat == digits_val(s@.subrange(from as int, j as int)),
        decreases to - j,
    {
        let c = s.get_char(j);
        let cv: u32 = c as u32;
        if cv < 48 || cv > 57 {
            proof {
                assert(whole[j - from] == s@[j as int]);
            }
            return None;
        }
        let dv: u64 = (cv - 48) as u64;
        let next = match acc.checked_mul(10) {
            Some(x) => x.checked_add(dv),
            None => None,
        };
        proof {
            assert(s@.subrange(from as int, j + 1).drop_last() =~= s@.subrange(
                from as int,
                j as int,
            ));
            assert(s@.subrange(from as int, j + 1).last() == s@[j as int]);
        }
        match next {
            Some(x) => {
                acc = x;
                j += 1;
            },
            None => {
                proof {
                    assert(digits_val(s@.subrange(from as int, j + 1)) > u64::MAX);
                    lemma_digits_val_prefix_le(whole, j + 1 - from);
                    assert(whole.subrange(0, j + 1 - from) =~= s@.subrange(from as int, j + 1));
                }
                return None;
            },
        }
    }
    proof {
        assert(s@.subrange(from as int, j as int) =~= whole);
    }
    Some(acc)
}

/// Parses a decimal amount string into minor units, exactly as
/// [`amount_u64`] describes.
pub fn parse_amount(s: &str) -> (r: Option<u64>)
    ensures
        r == amount_u64(s@),
{
    let n: usize = s.unicode_len();
    let d: usize = find_dot(s);
    if d == 0 {
        return None;
    }
    let iv: u64 = match parse_digits(s, 0, d) {
        Some(v) => v,
        None => {
            return None;
        },
    };
    if d == n {
        return iv.checked_mul(100);
    }
    let flen: usize = n - d - 1;
    if flen == 0 || flen > 2 {
        return None;
    }
    let fv: u64 = match parse_digits(s, d + 1, n) {
        Some(v) => v,
        None => {
            proof {
                lemma_digits_val_small(s@.subrange(d + 1, n as int));
            }
            return None;
        },
    };
    let scale: u64 = if flen == 1 {
        10
    } else {
        1
    };
    proof {
        lemma_digits_val_small(s@.subrange(d + 1, n as int));
    }
    let scaled_int: u64 = match iv.checked_mul(100) {
        Some(x) => x,
        None => {
            return None;
        },
    };
    scaled_int.checked_add(fv * scale)
}

} // verus!
