use vstd::prelude::*;

use unicode_segmentation::UnicodeSegmentation;

verus! {

/// The number of extended grapheme clusters of a sequence of characters,
/// as unicode-segmentation's `graphemes` iterator yields them.
pub uninterp spec fn grapheme_count(s: Seq<char>) -> nat;

/// True of the characters the library itself writes into cells: the
/// coordinate alphabet, the address and pointer prefixes and the decimal
/// digits. None of them takes part in any multi-character grapheme
/// cluster, so each is one cluster of its own.
pub open spec fn is_plain_char(c: char) -> bool {
    let u = c as u32;
    (65 <= u && u <= 90)  // A-Z
    || (97 <= u && u <= 122)  // a-z
    || (48 <= u && u <= 57)  // 0-9
    || u == 43  // +
    || u == 47  // /
    || u == 64  // @
    || u == 38  // &
}

/// True of text made only of [`is_plain_char`] characters.
pub open spec fn is_plain_text(s: Seq<char>) -> bool {
    forall|i: int| 0 <= i < s.len() ==> is_plain_char(s[i])
}

/// Relies on unicode-segmentation's `UnicodeSegmentation::graphemes`: it
/// splits a string into its extended grapheme clusters, whose
/// concatenation is the original string. A string of the characters of
/// [`is_plain_char`] has one cluster per character, since none of those
/// characters carries a grapheme-break property that joins it to a
/// neighbour.
#[verifier::external_body]
pub fn count_graphemes(s: &str) -> (n: usize)
    ensures
        n == grapheme_count(s@),
        is_plain_text(s@) ==> n == s@.len(),
{
    s.graphemes(true).count()
}

/// Relies on unicode-segmentation's `UnicodeSegmentation::graphemes`: the
/// concatenation of the clusters is the original string, so the first `n`
/// clusters form a prefix of it, that prefix ends on a cluster boundary
/// and therefore segments into those same clusters, and a string of
/// [`is_plain_char`] characters has one cluster per character.
#[verifier::external_body]
pub fn take_graphemes(s: &str, n: usize) -> (r: String)
    ensures
        grapheme_count(r@) <= n,
        r@.len() <= s@.len() && r@ == s@.subrange(0, r@.len() as int),
        grapheme_count(s@) <= n ==> r@ == s@,
        is_plain_text(s@) ==> r@ == s@.subrange(
            0,
            if s@.len() <= n { s@.len() as int } else { n as int },
        ),
{
    s.graphemes(true).take(n).collect::<String>()
}

/// Relies on std's `String::push`: it appends the character to the string.
#[verifier::external_body]
pub fn push_char(s: &mut String, c: char)
    ensures
        final(s)@ == old(s)@.push(c),
{
    s.push(c)
}

/// True of the decimal digit characters `0-9`.
pub open spec fn is_dec_digit(c: char) -> bool {
    48 <= c as u32 && c as u32 <= 57
}

/// The digit character of a value in `0 ..= 9`.
pub open spec fn dec_digit_char(d: int) -> char {
    ((48 + d) as u32) as char
}

/// The decimal representation of a non-negative integer, most significant
/// digit first, without leading zeros (`0` is `"0"`).
pub open spec fn dec_rep(n: int) -> Seq<char>
    decreases n,
{
    if n < 10 {
        seq![dec_digit_char(if n < 0 { 0 } else { n })]
    } else {
        dec_rep(n / 10).push(dec_digit_char(n % 10))
    }
}

/// The decimal representation holds only digits, and its length follows
/// the magnitude: one digit below ten, two below a hundred, three below a
/// thousand, more above.
pub proof fn lemma_dec_rep_shape(n: int)
    requires
        n >= 0,
    ensures
        forall|i: int| 0 <= i < dec_rep(n).len() ==> is_dec_digit(#[trigger] dec_rep(n)[i]),
        is_plain_text(dec_rep(n)),
        n < 10 ==> dec_rep(n).len() == 1,
        10 <= n < 100 ==> dec_rep(n).len() == 2,
        100 <= n < 1000 ==> dec_rep(n).len() == 3,
        n >= 1000 ==> dec_rep(n).len() >= 4,
        n <= 999 <==> dec_rep(n).len() <= 3,
    decreases n,
{
    if n < 10 {
    } else {
        lemma_dec_rep_shape(n / 10);
        assert(dec_rep(n) == dec_rep(n / 10).push(dec_digit_char(n % 10)));
    }
}

/// The decimal text of a number: exactly [`dec_rep`] of it.
pub fn u32_to_decimal(n: u32) -> (r: String)
    ensures
        r@ == dec_rep(n as int),
    decreases n,
{
    let digit = ((n % 10) as u8 + 48) as char;
    if n < 10 {
        let mut s = String::new();
        push_char(&mut s, digit);
        proof {
            assert(s@ =~= dec_rep(n as int));
        }
        s
    } else {
        let mut s = u32_to_decimal(n / 10);
        push_char(&mut s, digit);
        proof {
            assert(s@ =~= dec_rep(n as int));
        }
        s
    }
}

/// The numeric value of a sequence of decimal digits, most significant
/// first.
pub open spec fn digits_val(s: Seq<char>) -> int
    decreases s.len(),
{
    if s.len() == 0 {
        0
    } else {
        digits_val(s.drop_last()) * 10 + (s.last() as u32 - 48)
    }
}

/// True of a non-empty sequence of decimal digits.
pub open spec fn all_dec_digits(s: Seq<char>) -> bool {
    forall|i: int| 0 <= i < s.len() ==> is_dec_digit(#[trigger] s[i])
}

/// What `u32` parsing accepts: an optional leading `+`, then at least one
/// decimal digit, with a value that fits in a `u32`.
pub open spec fn parse_u32_spec(s: Seq<char>) -> Option<u32> {
    let body = if s.len() >= 1 && s[0] == '+' {
        s.subrange(1, s.len() as int)
    } else {
        s
    };
    if body.len() >= 1 && all_dec_digits(body) && digits_val(body) <= u32::MAX {
        Some(digits_val(body) as u32)
    } else {
        None
    }
}

/// The value of a digit sequence is non-negative.
proof fn lemma_digits_val_nonneg(s: Seq<char>)
    requires
        all_dec_digits(s),
    ensures
        digits_val(s) >= 0,
    decreases s.len(),
{
    if s.len() > 0 {
        assert(all_dec_digits(s.drop_last()));
        lemma_digits_val_nonneg(s.drop_last());
    }
}

/// Extending a digit sequence by one digit multiplies its value by ten
/// and adds the digit.
proof fn lemma_digits_val_step(s: Seq<char>, i: int)
    requires
        0 <= i < s.len(),
    ensures
        digits_val(s.subrange(0, i + 1)) == digits_val(s.subrange(0, i)) * 10 + (s[i] as u32 - 48),
{
    let t = s.subrange(0, i + 1);
    assert(t.drop_last() =~= s.subrange(0, i));
    assert(t.last() == s[i]);
}

/// The value of a digit sequence dominates the value of any of its
/// prefixes.
proof fn lemma_digits_val_prefix_le(s: Seq<char>, i: int)
    requires
        all_dec_digits(s),
        0 <= i <= s.len(),
    ensures
        digits_val(s.subrange(0, i)) <= digits_val(s),
    decreases s.len() - i,
{
    if i == s.len() {
        assert(s.subrange(0, i) =~= s);
    } else {
        lemma_digits_val_prefix_le(s, i + 1);
        lemma_digits_val_step(s, i);
        let p = digits_val(s.subrange(0, i));
        assert(all_dec_digits(s.subrange(0, i)));
        lemma_digits_val_nonneg(s.subrange(0, i));
        assert(p * 10 >= p) by (nonlinear_arith)
            requires
                p >= 0,
        ;
    }
}

/// Reads a string as an unsigned number, as `u32` parsing does: an
/// optional leading `+`, then decimal digits. Yields nothing on any other
/// text, or when the value does not fit.
pub fn parse_u32(s: &str) -> (r: Option<u32>)
    ensures
        r == parse_u32_spec(s@),
{
    let n = s.unicode_len();
    let ghost body = if s@.len() >= 1 && s@[0] == '+' {
        s@.subrange(1, s@.len() as int)
    } else {
        s@
    };
    let start: usize = if n >= 1 && s.get_char(0) == '+' {
        1
    } else {
        0
    };
    proof {
        assert(body =~= s@.subrange(start as int, s@.len() as int));
    }
    if n == start {
        return None;
    }
    let mut acc: u32 = 0;
    let mut i: usize = start;
    while i < n
        invariant
            start <= i <= n,
            n == s@.len(),
            body == s@.subrange(start as int, s@.len() as int),
            body == (if s@.len() >= 1 && s@[0] == '+' {
                s@.subrange(1, s@.len() as int)
            } else {
                s@
            }),
            all_dec_digits(s@.subrange(start as int, i as int)),
            acc == digits_val(s@.subrange(start as int, i as int)),
        decreases n - i,
    {
        let c = s.get_char(i);
        let u = c as u32;
        if u < 48 || u > 57 {
            proof {
                assert(body[i - start] == s@[i as int]);
                assert(!all_dec_digits(body));
            }
            return None;
        }
        let d = u - 48;
        proof {
            assert(s@.subrange(start as int, i + 1).drop_last() =~= s@.subrange(
                start as int,
                i as int,
            ));
            assert(s@.subrange(start as int, i + 1).last() == s@[i as int]);
        }
        if acc > (u32::MAX - d) / 10 {
            proof {
                let done = s@.subrange(start as int, i + 1);
                let q = (u32::MAX - d) / 10;
                vstd::arithmetic::div_mod::lemma_fundamental_div_mod((u32::MAX - d) as int, 10);
                assert(acc * 10 >= (q + 1) * 10) by (nonlinear_arith)
                    requires
                        acc >= q + 1,
                ;
                assert(acc * 10 + d > u32::MAX);
                assert(digits_val(done) == acc * 10 + d);
                if all_dec_digits(body) {
                    assert(done =~= body.subrange(0, i - start + 1));
                    assert(digits_val(body.subrange(0, i - start + 1)) <= digits_val(body)) by {
                        assert(body.subrange(0, i - start + 1).len() == i - start + 1);
                        lemma_digits_val_prefix_le(body, i - start + 1);
                    };
                    assert(digits_val(body) > u32::MAX);
                }
            }
            return None;
        }
        acc = acc * 10 + d;
        i = i + 1;
    }
    proof {
        assert(s@.subrange(start as int, i as int) =~= body);
    }
    Some(acc)
}

/// True exactly when the two strings hold the same characters.
pub fn str_eq(a: &str, b: &str) -> (r: bool)
    ensures
        r == (a@ == b@),
{
    let an = a.unicode_len();
    let bn = b.unicode_len();
    if an != bn {
        return false;
    }
    let mut i: usize = 0;
    while i < an
        invariant
            0 <= i <= an,
            an == a@.len(),
            an == b@.len(),
            forall|j: int| 0 <= j < i ==> a@[j] == b@[j],
        decreases an - i,
    {
        if a.get_char(i) != b.get_char(i) {
            return false;
        }
        i = i + 1;
    }
    proof {
        assert(a@ =~= b@);
    }
    true
}

} // verus!
