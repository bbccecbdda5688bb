//! Verified text utilities: string equality, lenient decimal parsing for
//! numeric table cells, and left-to-right substring replacement.

use vstd::prelude::*;

verus! {

/// Character-wise equality of two string slices.
pub fn str_eq(a: &str, b: &str) -> (r: bool)
    ensures
        r == (a@ == b@),
{
    let alen = a.unicode_len();
    let blen = b.unicode_len();
    if alen != blen {
        return false;
    }
    let mut i: usize = 0;
    while i < alen
        invariant
            i <= alen,
            alen == a@.len(),
            alen == b@.len(),
            forall|j: int| 0 <= j < i ==> a@[j] == b@[j],
        decreases alen - i,
    {
        if a.get_char(i) != b.get_char(i) {
            return false;
        }
        i += 1;
    }
    proof {
        assert(a@ =~= b@);
    }
    true
}

/// Whether `c` is a decimal digit.
pub open spec fn is_digit_char(c: char) -> bool {
    48 <= c as u32 <= 57
}

/// The value of a decimal digit.
pub open spec fn digit_val(c: char) -> int {
    c as u32 - 48
}

/// Whether every character of `s` is a decimal digit.
pub open spec fn all_digits(s: Seq<char>) -> bool {
    forall|i: int| 0 <= i < s.len() ==> is_digit_char(#[trigger] s[i])
}

/// The value of `s` read as a decimal numeral, most significant digit first.
pub open spec fn digits_value(s: Seq<char>) -> int
    decreases s.len(),
{
    if s.len() == 0 {
        0
    } else {
        digits_value(s.drop_last()) * 10 + digit_val(s.last())
    }
}

/// The digit run of a cell: the cell itself, or the remainder after one
/// optional leading `'+'`.
pub open spec fn cell_digits(s: Seq<char>) -> Seq<char> {
    if s.len() > 0 && s[0] == '+' {
        s.skip(1)
    } else {
        s
    }
}

/// The number a table cell yields: the decimal value of an optional leading
/// `'+'` followed by one or more digits, when that value fits the records'
/// attribute width, and 0 otherwise. Parse failures are swallowed, never
/// reported: dirty cells become 0. Two decisions are deliberate here: a
/// `'-'`-prefixed numeral has no place in the records' non-negative domain,
/// so it yields 0 like any other failure; and "in range" means within `u32`,
/// the width the record fields carry.
pub open spec fn cell_number(s: Seq<char>) -> u32 {
    let digits = cell_digits(s);
    if digits.len() > 0 && all_digits(digits) && digits_value(digits) <= u32::MAX {
        digits_value(digits) as u32
    } else {
        0
    }
}

proof fn lemma_digits_value_nonneg(s: Seq<char>)
    requires
        all_digits(s),
    ensures
        digits_value(s) >= 0,
    decreases s.len(),
{
    if s.len() > 0 {
        assert(all_digits(s.drop_last()));
        lemma_digits_value_nonneg(s.drop_last());
        assert(is_digit_char(s[s.len() - 1]));
        assert(s.last() == s[s.len() - 1]);
    }
}

/// A prefix of a digit string never exceeds the whole string's value.
proof fn lemma_digits_prefix_le(s: Seq<char>, i: int)
    requires
        0 <= i <= s.len(),
        all_digits(s),
    ensures
        digits_value(s.take(i)) <= digits_value(s),
    decreases s.len() - i,
{
    if i < s.len() {
        assert(s.take(i + 1).drop_last() =~= s.take(i));
        assert(s.take(i + 1).last() == s[i]);
        assert(all_digits(s.take(i)));
        lemma_digits_value_nonneg(s.take(i));
        assert(is_digit_char(s[i]));
        assert(digit_val(s[i]) >= 0);
        assert(digits_value(s.take(i + 1)) == digits_value(s.take(i)) * 10 + digit_val(s[i]));
        assert(digits_value(s.take(i + 1)) >= digits_value(s.take(i)));
        lemma_digits_prefix_le(s, i + 1);
    } else {
        assert(s.take(i) =~= s);
    }
}

/// Reads a table cell as a number, defaulting to 0 on anything that is not
/// a plain decimal numeral (with at most one leading `'+'`) in range.
pub fn parse_cell(s: &str) -> (r: u32)
    ensures
        r == cell_number(s@),
{
    let len = s.unicode_len();
    if len == 0 {
        return 0;
    }
    let start: usize = if s.get_char(0) == '+' {
        1
    } else {
        0
    };
    let ghost digits = cell_digits(s@);
    proof {
        assert(s@.skip(0) =~= s@);
        assert(digits =~= s@.skip(start as int));
    }
    if start == len {
        return 0;
    }
    let mut acc: u64 = 0;
    let mut i: usize = start;
    while i < len
        invariant
            len == s@.len(),
            start <= i <= len,
            start < len,
            digits == cell_digits(s@),
            digits == s@.skip(start as int),
            digits.len() == len - start,
            all_digits(digits.take(i - start)),
            acc == digits_value(digits.take(i - start)),
            acc <= u32::MAX,
        decreases len - i,
    {
        let c = s.get_char(i);
        let cu = c as u32;
        proof {
            assert(digits[i - start] == s@[i as int]);
        }
        if cu < 48 || cu > 57 {
            assert(!is_digit_char(digits[i - start]));
            return 0;
        }
        let d: u64 = (cu - 48) as u64;
        proof {
            assert(digits.take(i - start + 1).drop_last() =~= digits.take(i - start));
            assert(digits.take(i - start + 1).last() == digits[i - start]);
            assert(all_digits(digits.take(i - start + 1)));
        }
        let next: u64 = acc * 10 + d;
        if next > 0xffff_ffffu64 {
            proof {
                if all_digits(digits) {
                    lemma_digits_prefix_le(digits, i - start + 1);
                }
            }
            return 0;
        }
        acc = next;
        i += 1;
    }
    proof {
        assert(digits.take(len - start) =~= digits);
    }
    acc as u32
}

/// Left-to-right, non-overlapping replacement of `from` by `to`, as
/// `str::replace` performs it. An empty pattern replaces nothing.
pub open spec fn replace_text(s: Seq<char>, from: Seq<char>, to: Seq<char>) -> Seq<char>
    decreases s.len(),
{
    if from.len() == 0 || s.len() < from.len() {
        s
    } else if s.take(from.len() as int) == from {
        to + replace_text(s.skip(from.len() as int), from, to)
    } else {
        seq![s[0]] + replace_text(s.skip(1), from, to)
    }
}

/// Whether `pat` occurs in `s` at position `at`.
fn substr_matches(s: &str, pat: &str, at: usize) -> (r: bool)
    requires
        at + pat@.len() <= s@.len(),
    ensures
        r == (s@.subrange(at as int, at + pat@.len() as int) == pat@),
{
    let plen = pat.unicode_len();
    let slen = s.unicode_len();
    let mut j: usize = 0;
    while j < plen
        invariant
            j <= plen,
            plen == pat@.len(),
            slen == s@.len(),
            at + plen <= slen,
            forall|k: int| 0 <= k < j ==> s@[at + k] == pat@[k],
        decreases plen - j,
    {
        if s.get_char(at + j) != pat.get_char(j) {
            proof {
                assert(s@.subrange(at as int, at + plen as int)[j as int] == s@[at + j]);
            }
            return false;
        }
        j += 1;
    }
    proof {
        assert(s@.subrange(at as int, at + plen as int) =~= pat@);
    }
    true
}

/// Replaces every non-overlapping occurrence of `from` in `s` with `to`,
/// scanning left to right.
pub fn replace(s: &str, from: &str, to: &str) -> (r: String)
    ensures
        r@ == replace_text(s@, from@, to@),
{
    let flen = from.unicode_len();
    let slen = s.unicode_len();
    if flen == 0 {
        return s.to_owned();
    }
    let mut out = String::new();
    let mut i: usize = 0;
    proof {
        assert(s@.skip(0) =~= s@);
        assert(out@ + replace_text(s@, from@, to@) =~= replace_text(s@, from@, to@));
    }
    while i < slen
        invariant
            i <= slen,
            slen == s@.len(),
            flen == from@.len(),
            flen >= 1,
            replace_text(s@, from@, to@) == out@ + replace_text(
                s@.skip(i as int),
                from@,
                to@,
            ),
        decreases slen - i,
    {
        let in_range = flen <= slen - i;
        let matched = if in_range {
            substr_matches(s, from, i)
        } else {
            false
        };
        if matched {
            out.append(to);
            proof {
                assert(s@.skip(i as int).take(flen as int) =~= s@.subrange(
                    i as int,
                    i + flen as int,
                ));
                assert(s@.skip(i as int).skip(flen as int) =~= s@.skip(i + flen as int));
            }
            i += flen;
        } else {
            let piece = s.substring_char(i, i + 1);
            out.append(piece);
            proof {
                assert(piece@ =~= seq![s@[i as int]]);
                assert(s@.skip(i as int)[0] == s@[i as int]);
                assert(s@.skip(i as int).skip(1) =~= s@.skip(i + 1));
                if in_range {
                    assert(s@.skip(i as int).take(flen as int) =~= s@.subrange(
                        i as int,
                        i + flen as int,
                    ));
                } else {
                    assert(seq![s@[i as int]] + s@.skip(i + 1) =~= s@.skip(i as int));
                }
            }
            i += 1;
        }
    }
    proof {
        assert(s@.skip(slen as int) =~= Seq::<char>::empty());
        assert(out@ + Seq::<char>::empty() =~= out@);
    }
    out
}

} // verus!
