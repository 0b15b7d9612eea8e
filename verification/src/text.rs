//! Character-level text utilities used by the extractor: whitespace
//! trimming, size-field cleaning, and decimal parsing of identifiers.

use vstd::prelude::*;
use vstd::string::StrSliceExecFns;

verus! {

/// The Unicode `White_Space` characters, the set that `str::trim` removes.
pub open spec fn is_ws(c: char) -> bool {
    let u = c as u32;
    u == 0x20 || (0x09 <= u && u <= 0x0d) || u == 0x85 || u == 0xa0 || u == 0x1680
        || (0x2000 <= u && u <= 0x200a) || u == 0x2028 || u == 0x2029 || u == 0x202f
        || u == 0x205f || u == 0x3000
}

/// Executable test for [`is_ws`].
pub fn is_ws_char(c: char) -> (r: bool)
    ensures
        r == is_ws(c),
{
    let u = c as u32;
    u == 0x20 || (0x09 <= u && u <= 0x0d) || u == 0x85 || u == 0xa0 || u == 0x1680
        || (0x2000 <= u && u <= 0x200a) || u == 0x2028 || u == 0x2029 || u == 0x202f
        || u == 0x205f || u == 0x3000
}

/// The sequence with its leading whitespace removed.
pub open spec fn trim_front(s: Seq<char>) -> Seq<char>
    decreases s.len(),
{
    if s.len() > 0 && is_ws(s[0]) {
        trim_front(s.skip(1))
    } else {
        s
    }
}

/// The sequence with its trailing whitespace removed.
pub open spec fn trim_back(s: Seq<char>) -> Seq<char>
    decreases s.len(),
{
    if s.len() > 0 && is_ws(s[s.len() - 1]) {
        trim_back(s.take(s.len() - 1))
    } else {
        s
    }
}

/// The sequence with leading and trailing whitespace removed, as `str::trim`
/// leaves it.
pub open spec fn trim(s: Seq<char>) -> Seq<char> {
    trim_back(trim_front(s))
}

proof fn lemma_trim_front_skip(s: Seq<char>, k: int)
    requires
        0 <= k <= s.len(),
        forall|j: int| 0 <= j < k ==> is_ws(s[j]),
        k == s.len() || !is_ws(s[k]),
    ensures
        trim_front(s) == s.skip(k),
    decreases k,
{
    if k == 0 {
        assert(s.skip(0) =~= s);
    } else {
        lemma_trim_front_skip(s.skip(1), k - 1);
        assert(s.skip(1).skip(k - 1) =~= s.skip(k));
    }
}

proof fn lemma_trim_back_take(s: Seq<char>, k: int)
    requires
        0 <= k <= s.len(),
        forall|j: int| k <= j < s.len() ==> is_ws(s[j]),
        k == 0 || !is_ws(s[k - 1]),
    ensures
        trim_back(s) == s.take(k),
    decreases s.len() - k,
{
    if k == s.len() {
        assert(s.take(k) =~= s);
    } else {
        assert(is_ws(s[s.len() - 1]));
        lemma_trim_back_take(s.take(s.len() - 1), k);
        assert(s.take(s.len() - 1).take(k) =~= s.take(k));
    }
}

/// Removes leading and trailing whitespace, as `str::trim` does.
pub fn trim_str(s: &str) -> (r: String)
    ensures
        r@ == trim(s@),
{
    let n = s.unicode_len();
    let mut start: usize = 0;
    while start < n && is_ws_char(s.get_char(start))
        invariant
            n == s@.len(),
            0 <= start <= n,
            forall|j: int| 0 <= j < start ==> is_ws(s@[j]),
        decreases n - start,
    {
        start = start + 1;
    }
    let mut end: usize = n;
    while end > start && is_ws_char(s.get_char(end - 1))
        invariant
            n == s@.len(),
            start <= end <= n,
            forall|j: int| end <= j < n ==> is_ws(s@[j]),
        decreases end,
    {
        end = end - 1;
    }
    proof {
        lemma_trim_front_skip(s@, start as int);
        let t = s@.skip(start as int);
        lemma_trim_back_take(t, end - start);
        assert(t.take(end - start) =~= s@.subrange(start as int, end as int));
    }
    s.substring_char(start, end).to_owned()
}

/// Relies on `String::push`: appends exactly the one character at the end.
#[verifier::external_body]
fn push_char(s: &mut String, c: char)
    ensures
        final(s)@ == old(s)@.push(c),
{
    s.push(c);
}

/// The down-arrow sort-indicator glyph that the source renders inside the
/// size cell.
pub open spec fn down_arrow() -> char {
    '\u{2193}'
}

/// The cleaned form of a raw size cell: every occurrence of a space followed
/// by the down-arrow marker is dropped as a pair, scanning left to right, and
/// every remaining space is dropped as well.
pub open spec fn clean_size(s: Seq<char>) -> Seq<char>
    decreases s.len(),
{
    if s.len() == 0 {
        Seq::empty()
    } else if s[0] == ' ' && s.len() >= 2 && s[1] == down_arrow() {
        clean_size(s.skip(2))
    } else if s[0] == ' ' {
        clean_size(s.skip(1))
    } else {
        seq![s[0]] + clean_size(s.skip(1))
    }
}

/// Cleans a raw size cell as the extractor stores it: drops each
/// space-plus-down-arrow pair and all remaining spaces.
pub fn clean_size_str(s: &str) -> (r: String)
    ensures
        r@ == clean_size(s@),
{
    let n = s.unicode_len();
    let mut out = String::new();
    let mut i: usize = 0;
    proof {
        assert(s@.skip(0) =~= s@);
        assert(out@ + clean_size(s@) =~= clean_size(s@));
    }
    while i < n
        invariant
            n == s@.len(),
            0 <= i <= n,
            out@ + clean_size(s@.skip(i as int)) == clean_size(s@),
        decreases n - i,
    {
        let c = s.get_char(i);
        proof {
            assert(s@.skip(i as int)[0] == s@[i as int]);
        }
        if c == ' ' {
            if i + 1 < n && s.get_char(i + 1) == '\u{2193}' {
                proof {
                    assert(s@.skip(i as int).skip(2) =~= s@.skip(i + 2));
                }
                i = i + 2;
            } else {
                proof {
                    assert(s@.skip(i as int).skip(1) =~= s@.skip(i + 1));
                    if i + 1 < n {
                        assert(s@.skip(i as int)[1] == s@[i + 1]);
                    }
                }
                i = i + 1;
            }
        } else {
            push_char(&mut out, c);
            proof {
                assert(s@.skip(i as int).skip(1) =~= s@.skip(i + 1));
                assert(out@ =~= (out@.drop_last() + seq![c]));
                assert((out@.drop_last() + seq![c]) + clean_size(s@.skip(i + 1)) =~= out@.drop_last()
                    + (seq![c] + clean_size(s@.skip(i + 1))));
            }
            i = i + 1;
        }
    }
    proof {
        assert(s@.skip(n as int) =~= Seq::<char>::empty());
        assert(out@ + Seq::<char>::empty() =~= out@);
    }
    out
}

/// No character of a cleaned size value is a space.
pub proof fn lemma_clean_size_no_space(s: Seq<char>)
    ensures
        forall|i: int| 0 <= i < clean_size(s).len() ==> clean_size(s)[i] != ' ',
    decreases s.len(),
{
    if s.len() == 0 {
        assert(clean_size(s).len() == 0);
    } else if s[0] == ' ' && s.len() >= 2 && s[1] == down_arrow() {
        lemma_clean_size_no_space(s.skip(2));
        assert(clean_size(s) == clean_size(s.skip(2)));
    } else if s[0] == ' ' {
        lemma_clean_size_no_space(s.skip(1));
        assert(clean_size(s) == clean_size(s.skip(1)));
    } else {
        lemma_clean_size_no_space(s.skip(1));
        assert(clean_size(s) == seq![s[0]] + clean_size(s.skip(1)));
        assert forall|i: int| 0 <= i < clean_size(s).len() implies clean_size(s)[i] != ' ' by {
            if i == 0 {
                assert(clean_size(s)[0] == s[0]);
            } else {
                assert(clean_size(s)[i] == clean_size(s.skip(1))[i - 1]);
            }
        }
    }
}

/// Cleaning leaves a value that holds no space unchanged.
pub proof fn lemma_clean_size_identity(s: Seq<char>)
    requires
        forall|i: int| 0 <= i < s.len() ==> s[i] != ' ',
    ensures
        clean_size(s) == s,
    decreases s.len(),
{
    if s.len() == 0 {
        assert(clean_size(s) =~= s);
    } else {
        assert(forall|i: int| 0 <= i < s.skip(1).len() ==> s.skip(1)[i] != ' ');
        lemma_clean_size_identity(s.skip(1));
        assert(seq![s[0]] + s.skip(1) =~= s);
    }
}

/// Size-field cleaning is idempotent: cleaning an already-cleaned value
/// changes nothing.
pub proof fn lemma_clean_size_idempotent(s: Seq<char>)
    ensures
        clean_size(clean_size(s)) == clean_size(s),
{
    lemma_clean_size_no_space(s);
    lemma_clean_size_identity(clean_size(s));
}

/// A decimal digit.
pub open spec fn is_digit(c: char) -> bool {
    0x30 <= c as u32 && c as u32 <= 0x39
}

/// The numeric value of a decimal digit.
pub open spec fn digit_val(c: char) -> int {
    c as u32 - 0x30
}

/// Every character of the sequence is a decimal digit.
pub open spec fn all_digits(s: Seq<char>) -> bool {
    forall|i: int| 0 <= i < s.len() ==> is_digit(s[i])
}

/// The value of a digit sequence read in base ten.
pub open spec fn digits_val(s: Seq<char>) -> int
    decreases s.len(),
{
    if s.len() == 0 {
        0
    } else {
        digits_val(s.drop_last()) * 10 + digit_val(s.last())
    }
}

/// The digit part of an unsigned decimal literal: an optional leading `+`
/// sign is dropped, as `u64::from_str` drops it.
pub open spec fn unsigned_body(s: Seq<char>) -> Seq<char> {
    if s.len() > 0 && s[0] == '+' {
        s.skip(1)
    } else {
        s
    }
}

/// What `str::parse::<u64>` returns: the value of the digits after an
/// optional `+` sign, or nothing when the text is empty, holds a non-digit,
/// or names a value above `u64::MAX`.
pub open spec fn parse_u64(s: Seq<char>) -> Option<u64> {
    let t = unsigned_body(s);
    if t.len() > 0 && all_digits(t) && digits_val(t) <= u64::MAX {
        Some(digits_val(t) as u64)
    } else {
        None
    }
}

proof fn lemma_digits_val_nonneg(s: Seq<char>)
    requires
        all_digits(s),
    ensures
        digits_val(s) >= 0,
    decreases s.len(),
{
    if s.len() > 0 {
        assert(forall|i: int| 0 <= i < s.drop_last().len() ==> is_digit(s.drop_last()[i]));
        lemma_digits_val_nonneg(s.drop_last());
        assert(digit_val(s.last()) >= 0);
    }
}

proof fn lemma_digits_val_take_succ(s: Seq<char>, k: int)
    requires
        0 <= k < s.len(),
    ensures
        digits_val(s.take(k + 1)) == digits_val(s.take(k)) * 10 + digit_val(s[k]),
{
    assert(s.take(k + 1).drop_last() =~= s.take(k));
    assert(s.take(k + 1).last() == s[k]);
}

proof fn lemma_digits_val_prefix_le(s: Seq<char>, k: int)
    requires
        all_digits(s),
        0 <= k <= s.len(),
    ensures
        digits_val(s.take(k)) <= digits_val(s),
    decreases s.len() - k,
{
    if k == s.len() {
        assert(s.take(k) =~= s);
    } else {
        lemma_digits_val_take_succ(s, k);
        assert(forall|i: int| 0 <= i < s.take(k).len() ==> is_digit(s.take(k)[i]));
        lemma_digits_val_nonneg(s.take(k));
        assert(is_digit(s[k]));
        assert(digit_val(s[k]) >= 0);
        lemma_digits_val_prefix_le(s, k + 1);
    }
}

fn digit_char(d: u64) -> (c: char)
    requires
        d < 10,
    ensures
        is_digit(c),
        digit_val(c) == d,
{
    match d {
        0 => '0',
        1 => '1',
        2 => '2',
        3 => '3',
        4 => '4',
        5 => '5',
        6 => '6',
        7 => '7',
        8 => '8',
        _ => '9',
    }
}

/// Renders a value in decimal, as `u64` itself renders it: digits only, no
/// leading zero except for the value zero.
pub fn u64_to_string(n: u64) -> (r: String)
    ensures
        r@.len() >= 1,
        all_digits(r@),
        digits_val(r@) == n,
        n > 0 ==> r@[0] != '0',
        n == 0 ==> r@ == seq!['0'],
    decreases n,
{
    if n < 10 {
        let mut s = String::new();
        let c = digit_char(n);
        push_char(&mut s, c);
        proof {
            assert(s@.drop_last() =~= Seq::<char>::empty());
            assert(digits_val(Seq::<char>::empty()) == 0);
            assert(s@.last() == c);
            assert(digits_val(s@) == digits_val(s@.drop_last()) * 10 + digit_val(s@.last()));
            if n == 0 {
                assert(s@ =~= seq!['0']);
            }
        }
        s
    } else {
        let mut s = u64_to_string(n / 10);
        let ghost prefix = s@;
        let c = digit_char(n % 10);
        push_char(&mut s, c);
        proof {
            assert(s@.drop_last() =~= prefix);
            assert(s@.last() == c);
            assert(digits_val(s@) == digits_val(prefix) * 10 + digit_val(c));
            assert(n / 10 * 10 + n % 10 == n);
            assert(forall|i: int| 0 <= i < s@.len() ==> is_digit(s@[i]));
            assert(s@[0] == prefix[0]);
        }
        s
    }
}

/// Decimal rendering and decimal parsing agree: a non-empty digit string
/// whose value is `n` parses back to `n`, as every result of
/// [`u64_to_string`] does.
pub proof fn lemma_decimal_round_trip(n: u64, s: Seq<char>)
    requires
        s.len() >= 1,
        all_digits(s),
        digits_val(s) == n,
    ensures
        parse_u64(s) == Some(n),
{
    assert(is_digit(s[0]));
    assert(s[0] != '+') by {
        if s[0] == '+' {
            assert(s[0] as u32 == 0x2b);
        }
    }
    assert(unsigned_body(s) == s);
}

/// Parses an unsigned decimal value as `str::parse::<u64>` reads it.
pub fn parse_u64_str(s: &str) -> (r: Option<u64>)
    ensures
        r == parse_u64(s@),
{
    let n = s.unicode_len();
    let mut i: usize = 0;
    if n > 0 && s.get_char(0) == '+' {
        i = 1;
    }
    let ghost t = s@.skip(i as int);
    proof {
        if !(s@.len() > 0 && s@[0] == '+') {
            assert(s@.skip(0) =~= s@);
        }
        assert(t == unsigned_body(s@));
    }
    if i == n {
        return None;
    }
    let mut acc: u64 = 0;
    let mut j: usize = i;
    proof {
        assert(t.take(0) =~= Seq::<char>::empty());
    }
    while j < n
        invariant
            n == s@.len(),
            i <= j <= n,
            t == s@.skip(i as int),
            t == unsigned_body(s@),
            t.len() == n - i,
            all_digits(t.take(j as int - i as int)),
            acc == digits_val(t.take(j as int - i as int)),
        decreases n - j,
    {
        let c = s.get_char(j);
        let u = c as u32;
        proof {
            assert(t[j as int - i as int] == s@[j as int]);
        }
        if u < 0x30 || u > 0x39 {
            proof {
                assert(!is_digit(t[j as int - i as int]));
                assert(!all_digits(t));
            }
            return None;
        }
        let d = (u - 0x30) as u64;
        proof {
            lemma_digits_val_take_succ(t, j as int - i as int);
            assert(forall|p: int|
                0 <= p < t.take(j + 1 - i as int).len() ==> is_digit(
                    #[trigger] t.take(j + 1 - i as int)[p],
                ));
        }
        if acc > u64::MAX / 10 || (acc == u64::MAX / 10 && d > u64::MAX % 10) {
            proof {
                if all_digits(t) {
                    lemma_digits_val_prefix_le(t, j + 1 - i as int);
                    assert(digits_val(t) > u64::MAX);
                }
            }
            return None;
        }
        acc = acc * 10 + d;
        j = j + 1;
    }
    proof {
        assert(t.take(n as int - i as int) =~= t);
    }
    Some(acc)
}

} // verus!
