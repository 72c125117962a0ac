//! Small verified building blocks: decimal rendering of counters and
//! process identifiers, and the one trusted string primitive they rest on.

use vstd::prelude::*;

verus! {

/// The digit character for one decimal digit.
pub open spec fn digit_char(d: int) -> char {
    if d == 0 {
        '0'
    } else if d == 1 {
        '1'
    } else if d == 2 {
        '2'
    } else if d == 3 {
        '3'
    } else if d == 4 {
        '4'
    } else if d == 5 {
        '5'
    } else if d == 6 {
        '6'
    } else if d == 7 {
        '7'
    } else if d == 8 {
        '8'
    } else {
        '9'
    }
}

/// The usual decimal rendering of a number, most significant digit first,
/// no leading zeros (a lone zero for zero).
pub open spec fn dec_of(n: nat) -> Seq<char>
    decreases n,
{
    if n < 10 {
        seq![digit_char(n as int)]
    } else {
        dec_of(n / 10).push(digit_char((n % 10) as int))
    }
}

/// Appends one character to a string.
///
/// Relies on `String::push`: appends the given char to the end of this
/// `String`.
#[verifier::external_body]
pub(crate) fn push_char(s: &mut String, c: char)
    ensures
        final(s)@ == old(s)@.push(c),
{
    s.push(c);
}

/// The digit character of one decimal digit.
fn digit(d: u64) -> (c: char)
    requires
        d < 10,
    ensures
        c == digit_char(d as int),
{
    match d {
        0 => '0',
        1 => '1',
        2 => '2',
        3 => '3',
        4 => '4',
        5 => '5',
        6 => '6',
        7 => '7',
        8 => '8',
        _ => '9',
    }
}

/// Renders a number in decimal.
pub fn u64_to_dec(n: u64) -> (r: String)
    ensures
        r@ == dec_of(n as nat),
    decreases n,
{
    if n < 10 {
        let mut s = String::new();
        push_char(&mut s, digit(n));
        proof {
            assert(s@ =~= dec_of(n as nat));
        }
        s
    } else {
        let mut s = u64_to_dec(n / 10);
        push_char(&mut s, digit(n % 10));
        s
    }
}

/// An ASCII whitespace character: space, tab, carriage return, line feed.
pub open spec fn is_space_char(c: char) -> bool {
    c == ' ' || c == '\t' || c == '\r' || c == '\n'
}

/// Executable twin of [`is_space_char`].
pub fn is_space(c: char) -> (r: bool)
    ensures
        r == is_space_char(c),
{
    c == ' ' || c == '\t' || c == '\r' || c == '\n'
}

/// Whether the string holds nothing but whitespace.
pub fn is_blank(s: &str) -> (r: bool)
    ensures
        r == forall|i: int| 0 <= i < s@.len() ==> is_space_char(#[trigger] s@[i]),
{
    let n = s.unicode_len();
    let mut i: usize = 0;
    while i < n
        invariant
            n == s@.len(),
            0 <= i <= n,
            forall|k: int| 0 <= k < i ==> is_space_char(#[trigger] s@[k]),
        decreases n - i,
    {
        if !is_space(s.get_char(i)) {
            return false;
        }
        i = i + 1;
    }
    true
}

/// First position at or after `k` holding a non-whitespace character, or
/// `s.len()` if only whitespace remains.
pub open spec fn ws_run_end(s: Seq<char>, k: int) -> int
    recommends
        0 <= k <= s.len(),
    decreases s.len() - k when 0 <= k <= s.len()
{
    if k >= s.len() {
        s.len() as int
    } else if is_space_char(s[k]) {
        ws_run_end(s, k + 1)
    } else {
        k
    }
}

/// First position at or after `k` holding a whitespace character, or
/// `s.len()` if the word runs to the end.
pub open spec fn word_end(s: Seq<char>, k: int) -> int
    recommends
        0 <= k <= s.len(),
    decreases s.len() - k when 0 <= k <= s.len()
{
    if k >= s.len() {
        s.len() as int
    } else if is_space_char(s[k]) {
        k
    } else {
        word_end(s, k + 1)
    }
}

proof fn lemma_ws_run_end_range(s: Seq<char>, k: int)
    requires
        0 <= k <= s.len(),
    ensures
        k <= ws_run_end(s, k) <= s.len(),
    decreases s.len() - k,
{
    if k < s.len() && is_space_char(s[k]) {
        lemma_ws_run_end_range(s, k + 1);
    }
}

proof fn lemma_word_end_range(s: Seq<char>, k: int)
    requires
        0 <= k <= s.len(),
    ensures
        k <= word_end(s, k) <= s.len(),
        k < s.len() && !is_space_char(s[k]) ==> k < word_end(s, k),
    decreases s.len() - k,
{
    if k < s.len() && !is_space_char(s[k]) {
        lemma_word_end_range(s, k + 1);
    }
}

/// The whitespace-separated words of the suffix of `s` from position `i`,
/// in order.
pub open spec fn words_from(s: Seq<char>, i: int) -> Seq<Seq<char>>
    recommends
        0 <= i <= s.len(),
    decreases s.len() - i when 0 <= i <= s.len()
    via words_from_decreases
{
    if i >= s.len() {
        Seq::<Seq<char>>::empty()
    } else {
        let j = ws_run_end(s, i);
        if j >= s.len() {
            Seq::<Seq<char>>::empty()
        } else {
            let e = word_end(s, j);
            seq![s.subrange(j, e)].add(words_from(s, e))
        }
    }
}

#[via_fn]
proof fn words_from_decreases(s: Seq<char>, i: int) {
    if 0 <= i < s.len() {
        lemma_ws_run_end_range(s, i);
        let j = ws_run_end(s, i);
        if j < s.len() {
            lemma_word_end_range(s, j);
            lemma_ws_at_run_end(s, i);
        }
    }
}

/// The run of whitespace starting at `k` ends at a non-whitespace
/// character or at the end of the string.
proof fn lemma_ws_at_run_end(s: Seq<char>, k: int)
    requires
        0 <= k <= s.len(),
    ensures
        ws_run_end(s, k) < s.len() ==> !is_space_char(s[ws_run_end(s, k)]),
    decreases s.len() - k,
{
    if k < s.len() && is_space_char(s[k]) {
        lemma_ws_at_run_end(s, k + 1);
    }
}

/// The whitespace-separated words of a string, in order.
pub open spec fn spec_words(s: Seq<char>) -> Seq<Seq<char>> {
    words_from(s, 0)
}

/// Splits a string into its whitespace-separated words, in order (no
/// quoting; a plain split, as a pre-action command line uses).
pub fn split_ws(s: &str) -> (r: Vec<String>)
    ensures
        r@.map_values(|t: String| t@) == spec_words(s@),
{
    let n = s.unicode_len();
    let mut out: Vec<String> = Vec::new();
    let mut i: usize = 0;
    while i < n
        invariant
            n == s@.len(),
            0 <= i <= n,
            spec_words(s@) == out@.map_values(|t: String| t@).add(words_from(s@, i as int)),
        decreases n - i,
    {
        if is_space(s.get_char(i)) {
            proof {
                assert(words_from(s@, i as int) == words_from(s@, i + 1)) by {
                    assert(ws_run_end(s@, i as int) == ws_run_end(s@, i + 1));
                };
            }
            i = i + 1;
        } else {
            // A word starts here; scan to its end.
            let mut e: usize = i;
            while e < n && !is_space(s.get_char(e))
                invariant
                    n == s@.len(),
                    i <= e <= n,
                    word_end(s@, i as int) == word_end(s@, e as int),
                decreases n - e,
            {
                e = e + 1;
            }
            assert(word_end(s@, i as int) == e);
            let word = s.substring_char(i, e);
            let ghost before = out@;
            out.push(word.to_owned());
            proof {
                assert(ws_run_end(s@, i as int) == i);
                assert(words_from(s@, i as int) == seq![s@.subrange(i as int, e as int)].add(
                    words_from(s@, e as int),
                ));
                assert(out@.map_values(|t: String| t@) =~= before.map_values(
                    |t: String| t@,
                ).push(s@.subrange(i as int, e as int)));
            }
            i = e;
        }
    }
    proof {
        assert(words_from(s@, n as int) =~= Seq::<Seq<char>>::empty());
        assert(out@.map_values(|t: String| t@).add(Seq::<Seq<char>>::empty()) =~= out@.map_values(
            |t: String| t@,
        ));
    }
    out
}

/// Compares two strings character by character.
pub fn str_eq_chars(a: &str, b: &str) -> (r: bool)
    ensures
        r == (a@ == b@),
{
    let n = a.unicode_len();
    let m = b.unicode_len();
    if n != m {
        proof {
            assert(a@ != b@);
        }
        return false;
    }
    let mut i: usize = 0;
    while i < n
        invariant
            n == a@.len(),
            n == b@.len(),
            0 <= i <= n,
            forall|k: int| 0 <= k < i ==> a@[k] == b@[k],
        decreases n - i,
    {
        if a.get_char(i) != b.get_char(i) {
            return false;
        }
        i = i + 1;
    }
    proof {
        assert(a@ =~= b@);
    }
    true
}

/// The numeric value of a digit character (meaningful for digits).
pub open spec fn digit_val(c: char) -> int {
    c as u32 - 0x30
}

/// Whether the character is a decimal digit.
pub open spec fn is_digit_char(c: char) -> bool {
    0x30 <= c as u32 && c as u32 <= 0x39
}

/// The value of a digit string read in decimal.
pub open spec fn dec_val(s: Seq<char>) -> int
    decreases s.len(),
{
    if s.len() == 0 {
        0
    } else {
        dec_val(s.drop_last()) * 10 + digit_val(s.last())
    }
}

/// A digit string's value only grows as digits are appended.
proof fn lemma_dec_val_monotone(s: Seq<char>, i: int)
    requires
        0 <= i <= s.len(),
        forall|k: int| 0 <= k < s.len() ==> is_digit_char(#[trigger] s[k]),
    ensures
        0 <= dec_val(s.take(i)) <= dec_val(s),
    decreases s.len() - i,
{
    if i < s.len() {
        lemma_dec_val_monotone(s, i + 1);
        assert(s.take(i + 1).drop_last() =~= s.take(i));
        let v = dec_val(s.take(i));
        let d = digit_val(s.take(i + 1).last());
        assert(v >= 0 && d >= 0 ==> v * 10 + d >= v) by (nonlinear_arith);
        assert(dec_val(s.take(i)) >= 0) by {
            lemma_dec_val_nonneg(s.take(i));
        };
    } else {
        assert(s.take(i) =~= s);
        lemma_dec_val_nonneg(s);
    }
}

proof fn lemma_dec_val_nonneg(s: Seq<char>)
    requires
        forall|k: int| 0 <= k < s.len() ==> is_digit_char(#[trigger] s[k]),
    ensures
        dec_val(s) >= 0,
    decreases s.len(),
{
    if s.len() > 0 {
        assert(forall|k: int|
            0 <= k < s.drop_last().len() ==> is_digit_char(#[trigger] s.drop_last()[k]));
        lemma_dec_val_nonneg(s.drop_last());
        let v = dec_val(s.drop_last());
        let d = digit_val(s.last());
        assert(v >= 0 && d >= 0 ==> v * 10 + d >= 0) by (nonlinear_arith);
    }
}

/// Reads an unsigned number written in decimal digits. Rejects anything
/// else: an empty string, a sign, a non-digit, or a value that does not
/// fit.
pub fn parse_u32_digits(s: &str) -> (r: Option<u32>)
    ensures
        r is Some <==> (s@.len() > 0 && (forall|i: int|
            0 <= i < s@.len() ==> is_digit_char(#[trigger] s@[i])) && dec_val(s@) <= u32::MAX),
        r is Some ==> r->0 == dec_val(s@),
{
    let n = s.unicode_len();
    if n == 0 {
        return None;
    }
    let mut value: u32 = 0;
    let mut i: usize = 0;
    while i < n
        invariant
            n == s@.len(),
            0 <= i <= n,
            forall|k: int| 0 <= k < i ==> is_digit_char(#[trigger] s@[k]),
            value == dec_val(s@.take(i as int)),
        decreases n - i,
    {
        let c = s.get_char(i);
        let u = c as u32;
        if u < 0x30 || u > 0x39 {
            return None;
        }
        let d = u - 0x30;
        if value > (u32::MAX - d) / 10 {
            // The next digit would overflow, so the full value cannot fit.
            proof {
                assert(s@.take(i + 1).drop_last() =~= s@.take(i as int));
                assert(dec_val(s@.take(i + 1)) == value * 10 + d);
                if forall|k: int| 0 <= k < s@.len() ==> is_digit_char(#[trigger] s@[k]) {
                    lemma_dec_val_monotone(s@, i + 1);
                    assert(value * 10 + d > u32::MAX) by (nonlinear_arith)
                        requires
                            value > (u32::MAX - d) / 10,
                            d < 10,
                    ;
                }
            }
            return None;
        }
        proof {
            assert(s@.take(i + 1).drop_last() =~= s@.take(i as int));
            assert(value * 10 + d <= u32::MAX) by (nonlinear_arith)
                requires
                    value <= (u32::MAX - d) / 10,
                    d < 10,
            ;
        }
        value = value * 10 + d;
        i = i + 1;
    }
    proof {
        assert(s@.take(n as int) =~= s@);
    }
    Some(value)
}

/// Reads an unsigned 64-bit number written in decimal digits, as the
/// device descriptors carry their method masks.
pub fn parse_u64_digits(s: &str) -> (r: Option<u64>)
    ensures
        r is Some <==> (s@.len() > 0 && (forall|i: int|
            0 <= i < s@.len() ==> is_digit_char(#[trigger] s@[i])) && dec_val(s@) <= u64::MAX),
        r is Some ==> r->0 == dec_val(s@),
{
    let n = s.unicode_len();
    if n == 0 {
        return None;
    }
    let mut value: u64 = 0;
    let mut i: usize = 0;
    while i < n
        invariant
            n == s@.len(),
            0 <= i <= n,
            forall|k: int| 0 <= k < i ==> is_digit_char(#[trigger] s@[k]),
            value == dec_val(s@.take(i as int)),
        decreases n - i,
    {
        let c = s.get_char(i);
        let u = c as u32;
        if u < 0x30 || u > 0x39 {
            return None;
        }
        let d = (u - 0x30) as u64;
        if value > (u64::MAX - d) / 10 {
            // The next digit would overflow, so the full value cannot fit.
            proof {
                assert(s@.take(i + 1).drop_last() =~= s@.take(i as int));
                assert(dec_val(s@.take(i + 1)) == value * 10 + d);
                if forall|k: int| 0 <= k < s@.len() ==> is_digit_char(#[trigger] s@[k]) {
                    lemma_dec_val_monotone(s@, i + 1);
                    assert(value * 10 + d > u64::MAX) by (nonlinear_arith)
                        requires
                            value > (u64::MAX - d) / 10,
                            d < 10,
                    ;
                }
            }
            return None;
        }
        proof {
            assert(s@.take(i + 1).drop_last() =~= s@.take(i as int));
            assert(value * 10 + d <= u64::MAX) by (nonlinear_arith)
                requires
                    value <= (u64::MAX - d) / 10,
                    d < 10,
            ;
        }
        value = value * 10 + d;
        i = i + 1;
    }
    proof {
        assert(s@.take(n as int) =~= s@);
    }
    Some(value)
}

} // verus!
