//! Parsing the requested target size, written `WIDTHxHEIGHT`.
//!
//! The separator is an `x` or the multiplication sign, whitespace may
//! surround either part, and each part is a decimal number with an
//! optional leading plus sign, as standard unsigned parsing takes it.
//! The accepted ranges keep the request sane: width 160 to 7680 pixels,
//! height 120 to 4320.

use vstd::prelude::*;

verus! {

/// Whitespace the size argument may carry around its parts: the Unicode
/// white-space characters, as standard string trimming removes them.
pub open spec fn is_space(c: char) -> bool {
    ||| (0x09 <= c as u32 && c as u32 <= 0x0D)
    ||| c as u32 == 0x20
    ||| c as u32 == 0x85
    ||| c as u32 == 0xA0
    ||| c as u32 == 0x1680
    ||| (0x2000 <= c as u32 && c as u32 <= 0x200A)
    ||| c as u32 == 0x2028
    ||| c as u32 == 0x2029
    ||| c as u32 == 0x202F
    ||| c as u32 == 0x205F
    ||| c as u32 == 0x3000
}

/// The separator between width and height: an `x`, or the multiplication
/// sign some tools emit.
pub open spec fn is_sep(c: char) -> bool {
    c == 'x' || c == '\u{d7}'
}

/// A decimal digit.
pub open spec fn is_digit(c: char) -> bool {
    48 <= c as u32 && c as u32 <= 57
}

/// The numeric value of a decimal digit character.
pub open spec fn digit_value(c: char) -> nat {
    (c as u32 - 48) as nat
}

/// Every character of `s` is a decimal digit.
pub open spec fn all_digits(s: Seq<char>) -> bool {
    forall|i: int| 0 <= i < s.len() ==> is_digit(s[i])
}

/// The number the digit string `s` denotes, most significant first.
pub open spec fn digits_val(s: Seq<char>) -> nat
    decreases s.len(),
{
    if s.len() == 0 {
        0
    } else {
        digits_val(s.drop_last()) * 10 + digit_value(s.last())
    }
}

/// `s` without its leading whitespace.
pub open spec fn trim_start_spec(s: Seq<char>) -> Seq<char>
    decreases s.len(),
{
    if s.len() > 0 && is_space(s[0]) {
        trim_start_spec(s.drop_first())
    } else {
        s
    }
}

/// `s` without its trailing whitespace.
pub open spec fn trim_end_spec(s: Seq<char>) -> Seq<char>
    decreases s.len(),
{
    if s.len() > 0 && is_space(s.last()) {
        trim_end_spec(s.drop_last())
    } else {
        s
    }
}

/// `s` without leading or trailing whitespace.
pub open spec fn trim_spec(s: Seq<char>) -> Seq<char> {
    trim_end_spec(trim_start_spec(s))
}

/// The digits of a numeral: standard unsigned parsing takes an optional
/// leading plus sign before them.
pub open spec fn numeral_body(s: Seq<char>) -> Seq<char> {
    if s.len() > 0 && s[0] == '+' {
        s.drop_first()
    } else {
        s
    }
}

/// A numeral: an optional leading plus sign, then at least one digit and
/// nothing else.
pub open spec fn is_numeral(s: Seq<char>) -> bool {
    numeral_body(s).len() > 0 && all_digits(numeral_body(s))
}

/// The number a numeral denotes.
pub open spec fn numeral_val(s: Seq<char>) -> nat {
    digits_val(numeral_body(s))
}

/// How many separators `s` holds.
pub open spec fn count_seps(s: Seq<char>) -> nat
    decreases s.len(),
{
    if s.len() == 0 {
        0
    } else {
        count_seps(s.drop_last()) + (if is_sep(s.last()) {
            1nat
        } else {
            0nat
        })
    }
}

/// The index of the first separator in `s`.
pub open spec fn sep_index(s: Seq<char>) -> int
    decreases s.len(),
{
    if s.len() == 0 {
        0
    } else if is_sep(s[0]) {
        0
    } else {
        1 + sep_index(s.drop_first())
    }
}

/// Why a size argument was refused.
#[derive(Clone, Copy, Debug, PartialEq, Eq)]
pub enum SizeError {
    /// Not two nonempty parts joined by a single separator.
    Format,
    /// The width part is not a number the platform can hold.
    Width,
    /// The height part is not a number the platform can hold.
    Height,
    /// The width is outside the accepted range.
    WidthRange,
    /// The height is outside the accepted range.
    HeightRange,
}

/// Smallest accepted width, in pixels.
pub const MIN_WIDTH: u32 = 160;

/// Largest accepted width, in pixels.
pub const MAX_WIDTH: u32 = 7680;

/// Smallest accepted height, in pixels.
pub const MIN_HEIGHT: u32 = 120;

/// Largest accepted height, in pixels.
pub const MAX_HEIGHT: u32 = 4320;

/// What parsing a size argument yields: the width and height, or the
/// first failure in the order format, width, height, width range, height
/// range.
pub open spec fn parse_dimensions_spec(s: Seq<char>) -> Result<(u32, u32), SizeError> {
    let t = trim_spec(s);
    if count_seps(t) != 1 {
        Err(SizeError::Format)
    } else {
        let i = sep_index(t);
        let left = trim_spec(t.subrange(0, i));
        let right = trim_spec(t.subrange(i + 1, t.len() as int));
        if left.len() == 0 || right.len() == 0 {
            Err(SizeError::Format)
        } else if !is_numeral(left) || numeral_val(left) > u32::MAX {
            Err(SizeError::Width)
        } else if !is_numeral(right) || numeral_val(right) > u32::MAX {
            Err(SizeError::Height)
        } else if numeral_val(left) < MIN_WIDTH || numeral_val(left) > MAX_WIDTH {
            Err(SizeError::WidthRange)
        } else if numeral_val(right) < MIN_HEIGHT || numeral_val(right) > MAX_HEIGHT {
            Err(SizeError::HeightRange)
        } else {
            Ok((numeral_val(left) as u32, numeral_val(right) as u32))
        }
    }
}

proof fn lemma_trim_start_skip(s: Seq<char>, k: int)
    requires
        0 <= k <= s.len(),
        forall|j: int| 0 <= j < k ==> is_space(s[j]),
        k == s.len() || !is_space(s[k]),
    ensures
        trim_start_spec(s) =~= s.subrange(k, s.len() as int),
    decreases k,
{
    if k == 0 {
        assert(trim_start_spec(s) =~= s.subrange(0, s.len() as int));
    } else {
        assert(is_space(s[0]));
        lemma_trim_start_skip(s.drop_first(), k - 1);
        assert(s.drop_first().subrange(k - 1, s.drop_first().len() as int) =~= s.subrange(
            k,
            s.len() as int,
        ));
    }
}

proof fn lemma_trim_end_skip(s: Seq<char>, k: int)
    requires
        0 <= k <= s.len(),
        forall|j: int| k <= j < s.len() ==> is_space(s[j]),
        k == 0 || !is_space(s[k - 1]),
    ensures
        trim_end_spec(s) =~= s.subrange(0, k),
    decreases s.len(),
{
    if k == s.len() {
        if s.len() > 0 && is_space(s.last()) {
            assert(!is_space(s[k - 1]));
            assert(false);
        }
        assert(trim_end_spec(s) =~= s.subrange(0, k));
    } else {
        assert(is_space(s.last()));
        lemma_trim_end_skip(s.drop_last(), k);
        assert(s.drop_last().subrange(0, k) =~= s.subrange(0, k));
    }
}

proof fn lemma_trim_bounds(s: Seq<char>, lo: int, hi: int, a: int, b: int)
    requires
        0 <= lo <= a <= b <= hi <= s.len(),
        forall|j: int| lo <= j < a ==> is_space(s[j]),
        forall|j: int| b <= j < hi ==> is_space(s[j]),
        a == hi || !is_space(s[a]),
        b == a || !is_space(s[b - 1]),
    ensures
        trim_spec(s.subrange(lo, hi)) =~= s.subrange(a, b),
{
    let u = s.subrange(lo, hi);
    assert(forall|j: int| 0 <= j < a - lo ==> is_space(u[j]));
    lemma_trim_start_skip(u, a - lo);
    let v = u.subrange(a - lo, hi - lo);
    assert(v =~= s.subrange(a, hi));
    assert(forall|j: int| b - a <= j < v.len() ==> is_space(v[j]));
    lemma_trim_end_skip(v, b - a);
    assert(trim_end_spec(v) =~= s.subrange(a, b));
}

proof fn lemma_sep_index_first(s: Seq<char>, p: int)
    requires
        0 <= p < s.len(),
        is_sep(s[p]),
        forall|j: int| 0 <= j < p ==> !is_sep(s[j]),
    ensures
        sep_index(s) == p,
    decreases p,
{
    if p > 0 {
        lemma_sep_index_first(s.drop_first(), p - 1);
    }
}

proof fn lemma_digits_val_prefix_mono(s: Seq<char>, i: int)
    requires
        0 <= i <= s.len(),
    ensures
        digits_val(s.take(i)) <= digits_val(s),
    decreases s.len() - i,
{
    if i == s.len() {
        assert(s.take(i) =~= s);
    } else {
        assert(s.take(i + 1).drop_last() =~= s.take(i));
        assert(digits_val(s.take(i + 1)) == digits_val(s.take(i)) * 10 + digit_value(
            s.take(i + 1).last(),
        ));
        lemma_digits_val_prefix_mono(s, i + 1);
    }
}

/// Whether `c` is whitespace.
fn space_char(c: char) -> (b: bool)
    ensures
        b == is_space(c),
{
    let v = c as u32;
    (0x09 <= v && v <= 0x0D) || v == 0x20 || v == 0x85 || v == 0xA0 || v == 0x1680 || (0x2000 <= v
        && v <= 0x200A) || v == 0x2028 || v == 0x2029 || v == 0x202F || v == 0x205F || v == 0x3000
}

/// Whether `c` separates the width part from the height part.
fn sep_char(c: char) -> (b: bool)
    ensures
        b == is_sep(c),
{
    c == 'x' || c == '\u{d7}'
}

/// Read the numeral in `s[from..to]`: an optional leading plus sign,
/// then at least one digit, refusing anything else and any value above
/// the platform's 32-bit range.
fn parse_u32_numeral(s: &Vec<char>, from: usize, to: usize) -> (r: Option<u32>)
    requires
        from <= to <= s@.len(),
    ensures
        ({
            let part = s@.subrange(from as int, to as int);
            match r {
                Some(v) => is_numeral(part) && numeral_val(part) == v,
                None => !(is_numeral(part) && numeral_val(part) <= u32::MAX),
            }
        }),
{
    let ghost part = s@.subrange(from as int, to as int);
    let start: usize = if from < to && s[from] == '+' {
        from + 1
    } else {
        from
    };
    let ghost d = s@.subrange(start as int, to as int);
    proof {
        assert(numeral_body(part) =~= d);
    }
    if start == to {
        // Empty, or a lone plus sign: no digits at all.
        return None;
    }
    let mut acc: u64 = 0;
    let mut i: usize = start;
    while i < to
        invariant
            start <= i <= to,
            to <= s@.len(),
            d == s@.subrange(start as int, to as int),
            part == s@.subrange(from as int, to as int),
            numeral_body(part) == d,
            d.len() > 0,
            acc <= u32::MAX,
            all_digits(d.take(i - start)),
            acc == digits_val(d.take(i - start)),
        decreases to - i,
    {
        let c = s[i];
        let cv = c as u32;
        if cv < 48 || cv > 57 {
            proof {
                assert(d[i - start] == c);
                assert(!is_digit(c));
            }
            return None;
        }
        proof {
            assert(d.take(i - start + 1).drop_last() =~= d.take(i - start));
            assert(d.take(i - start + 1).last() == d[i - start]);
        }
        acc = acc * 10 + ((cv - 48) as u64);
        if acc > u32::MAX as u64 {
            proof {
                lemma_digits_val_prefix_mono(d, i - start + 1);
            }
            return None;
        }
        i = i + 1;
    }
    proof {
        assert(d.take(to - start) =~= d);
    }
    Some(acc as u32)
}

/// First index at or after `from`, below `to`, holding a non-space, or
/// `to` if there is none.
fn skip_spaces_forward(s: &Vec<char>, from: usize, to: usize) -> (a: usize)
    requires
        from <= to <= s@.len(),
    ensures
        from <= a <= to,
        forall|j: int| from <= j < a ==> is_space(s@[j]),
        a == to || !is_space(s@[a as int]),
{
    let mut a: usize = from;
    while a < to && space_char(s[a])
        invariant
            from <= a <= to,
            to <= s@.len(),
            forall|j: int| from <= j < a ==> is_space(s@[j]),
        decreases to - a,
    {
        a = a + 1;
    }
    a
}

/// One past the last non-space before `to`, at or after `from`, or
/// `from` if there is none.
fn skip_spaces_backward(s: &Vec<char>, from: usize, to: usize) -> (b: usize)
    requires
        from <= to <= s@.len(),
    ensures
        from <= b <= to,
        forall|j: int| b <= j < to ==> is_space(s@[j]),
        b == from || !is_space(s@[b - 1]),
{
    let mut b: usize = to;
    while b > from && space_char(s[b - 1])
        invariant
            from <= b <= to,
            to <= s@.len(),
            forall|j: int| b <= j < to ==> is_space(s@[j]),
        decreases b,
    {
        b = b - 1;
    }
    b
}

/// Parse a size argument.  Accepts `1920x1080` and its multiplication-sign
/// form, with optional whitespace around either part, and checks both
/// parts against the accepted ranges.
#[verifier::rlimit(100)]
pub fn parse_dimensions(s: &Vec<char>) -> (r: Result<(u32, u32), SizeError>)
    ensures
        r == parse_dimensions_spec(s@),
{
    let len = s.len();
    let a = skip_spaces_forward(s, 0, len);
    let b = skip_spaces_backward(s, a, len);
    let ghost t = s@.subrange(a as int, b as int);
    proof {
        lemma_trim_bounds(s@, 0, len as int, a as int, b as int);
        assert(s@.subrange(0, len as int) =~= s@);
        assert(trim_spec(s@) == t);
    }
    // Count the separators in the trimmed argument and note the first.
    let mut count: usize = 0;
    let mut first_sep: usize = 0;
    let mut found = false;
    let mut i: usize = a;
    while i < b
        invariant
            a <= i <= b <= len,
            len == s@.len(),
            t == s@.subrange(a as int, b as int),
            count == count_seps(t.take(i - a)),
            count <= i,
            !found ==> (count == 0 && forall|j: int| a <= j < i ==> !is_sep(s@[j])),
            found ==> (a <= first_sep < i && is_sep(s@[first_sep as int]) && forall|j: int|
                a <= j < first_sep ==> !is_sep(s@[j])),
        decreases b - i,
    {
        proof {
            assert(t.take(i - a + 1).drop_last() =~= t.take(i - a));
            assert(t.take(i - a + 1).last() == s@[i as int]);
        }
        if sep_char(s[i]) {
            if !found {
                first_sep = i;
                found = true;
            }
            count = count + 1;
        }
        i = i + 1;
    }
    proof {
        assert(t.take((b - a) as int) =~= t);
    }
    if count != 1 {
        return Err(SizeError::Format);
    }
    let p = first_sep;
    proof {
        assert(forall|j: int| 0 <= j < p - a ==> t[j] == s@[a + j] && !is_sep(t[j]));
        lemma_sep_index_first(t, p - a);
    }
    // Trim the width part, to the left of the separator, and the height
    // part, to its right.
    let a2 = skip_spaces_forward(s, a, p);
    let b2 = skip_spaces_backward(s, a2, p);
    proof {
        assert(t.subrange(0, (p - a) as int) =~= s@.subrange(a as int, p as int));
        lemma_trim_bounds(s@, a as int, p as int, a2 as int, b2 as int);
    }
    let a3 = skip_spaces_forward(s, p + 1, b);
    let b3 = skip_spaces_backward(s, a3, b);
    proof {
        assert(t.subrange((p - a + 1) as int, t.len() as int) =~= s@.subrange(
            (p + 1) as int,
            b as int,
        ));
        lemma_trim_bounds(s@, (p + 1) as int, b as int, a3 as int, b3 as int);
    }
    if b2 == a2 || b3 == a3 {
        return Err(SizeError::Format);
    }
    let width = match parse_u32_numeral(s, a2, b2) {
        Some(v) => v,
        None => {
            return Err(SizeError::Width);
        },
    };
    let height = match parse_u32_numeral(s, a3, b3) {
        Some(v) => v,
        None => {
            return Err(SizeError::Height);
        },
    };
    if width < MIN_WIDTH || width > MAX_WIDTH {
        return Err(SizeError::WidthRange);
    }
    if height < MIN_HEIGHT || height > MAX_HEIGHT {
        return Err(SizeError::HeightRange);
    }
    Ok((width, height))
}

} // verus!
