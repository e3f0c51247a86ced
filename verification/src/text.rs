//! Reading of the text forms that a remote row may hold: decimal integers,
//! booleans, decimal floating-point literals, and a marker inside a message.

use vstd::prelude::*;
use vstd::string::StringExecFns;

verus! {

/// `c` is one of the ten ASCII digits.
pub open spec fn is_digit(c: char) -> bool {
    '0' <= c && c <= '9'
}

/// The number that an ASCII digit stands for.
pub open spec fn digit_value(c: char) -> int {
    c as int - 48
}

/// Every character of `s` is an ASCII digit.
pub open spec fn all_digits(s: Seq<char>) -> bool {
    forall|i: int| 0 <= i < s.len() ==> is_digit(#[trigger] s[i])
}

/// The number that a run of digits writes in base ten, most significant digit
/// first. The empty run writes zero.
pub open spec fn decimal_value(s: Seq<char>) -> int
    decreases s.len(),
{
    if s.len() == 0 {
        0
    } else {
        decimal_value(s.drop_last()) * 10 + digit_value(s.last())
    }
}

/// The integer that `s` writes: an optional `+` or `-`, then one digit or more.
/// Anything else writes no integer.
pub open spec fn integer_literal(s: Seq<char>) -> Option<int> {
    if s.len() == 0 {
        None
    } else if s[0] == '-' || s[0] == '+' {
        let digits = s.skip(1);
        if digits.len() > 0 && all_digits(digits) {
            Some(
                if s[0] == '-' {
                    -decimal_value(digits)
                } else {
                    decimal_value(digits)
                },
            )
        } else {
            None
        }
    } else if all_digits(s) {
        Some(decimal_value(s))
    } else {
        None
    }
}

/// What a run of characters after the sign writes: a number if it is one
/// digit or more, negated where the sign was `-`.
pub open spec fn literal_of_digits(digits: Seq<char>, negative: bool) -> Option<int> {
    if digits.len() > 0 && all_digits(digits) {
        Some(
            if negative {
                -decimal_value(digits)
            } else {
                decimal_value(digits)
            },
        )
    } else {
        None
    }
}

/// The integer that `s` writes, if it lies between `lo` and `hi`.
pub open spec fn bounded_integer(s: Seq<char>, lo: int, hi: int) -> Option<int> {
    match integer_literal(s) {
        Some(v) => if lo <= v && v <= hi {
            Some(v)
        } else {
            None
        },
        None => None,
    }
}

/// The truth value that `s` writes: `true` or `1`, `false` or `0`.
pub open spec fn bool_literal(s: Seq<char>) -> Option<bool> {
    if s == seq!['t', 'r', 'u', 'e'] || s == seq!['1'] {
        Some(true)
    } else if s == seq!['f', 'a', 'l', 's', 'e'] || s == seq!['0'] {
        Some(false)
    } else {
        None
    }
}

/// The number of digits that `s` starts with.
pub open spec fn leading_digits(s: Seq<char>) -> nat
    decreases s.len(),
{
    if s.len() > 0 && is_digit(s[0]) {
        1 + leading_digits(s.skip(1))
    } else {
        0
    }
}

/// An ASCII capital letter turned into its small letter; any other character
/// is left as it is.
pub open spec fn ascii_lower(c: char) -> char {
    if 'A' <= c && c <= 'Z' {
        ((c as u8) + 32) as char
    } else {
        c
    }
}

/// `s` is `word`, the case of ASCII letters set aside. `word` is in small letters.
pub open spec fn is_word(s: Seq<char>, word: Seq<char>) -> bool {
    &&& s.len() == word.len()
    &&& forall|i: int| 0 <= i < s.len() ==> ascii_lower(#[trigger] s[i]) == word[i]
}

/// `s` without a leading `+` or `-`.
pub open spec fn unsigned_part(s: Seq<char>) -> Seq<char> {
    if s.len() > 0 && (s[0] == '+' || s[0] == '-') {
        s.skip(1)
    } else {
        s
    }
}

/// What may follow the `e` of a decimal literal: an optional sign, then one
/// digit or more.
pub open spec fn is_exponent(s: Seq<char>) -> bool {
    unsigned_part(s).len() > 0 && all_digits(unsigned_part(s))
}

/// `s` is digits with at most one `.` among them, at least one digit in all,
/// and then nothing or an exponent after `e` or `E`.
pub open spec fn is_decimal_number(s: Seq<char>) -> bool {
    let whole = leading_digits(s);
    let after_whole = s.skip(whole as int);
    let dotted = after_whole.len() > 0 && after_whole[0] == '.';
    let fraction_on = if dotted {
        after_whole.skip(1)
    } else {
        after_whole
    };
    let fraction = if dotted {
        leading_digits(fraction_on)
    } else {
        0
    };
    let rest = fraction_on.skip(fraction as int);
    &&& whole + fraction >= 1
    &&& (rest.len() == 0 || ((rest[0] == 'e' || rest[0] == 'E') && is_exponent(rest.skip(1))))
}

/// `s` names infinity or not-a-number.
pub open spec fn is_special_float(s: Seq<char>) -> bool {
    ||| is_word(s, seq!['i', 'n', 'f'])
    ||| is_word(s, seq!['i', 'n', 'f', 'i', 'n', 'i', 't', 'y'])
    ||| is_word(s, seq!['n', 'a', 'n'])
}

/// `s` is a decimal floating-point literal: an optional sign, then `inf`,
/// `infinity`, `nan` or a decimal number.
pub open spec fn is_float_literal(s: Seq<char>) -> bool {
    is_special_float(unsigned_part(s)) || is_decimal_number(unsigned_part(s))
}

/// `needle` occurs in `haystack` as a run of neighbouring characters.
pub open spec fn contains_text(haystack: Seq<char>, needle: Seq<char>) -> bool {
    exists|i: int| occurs_at(haystack, needle, i)
}

/// `needle` occurs in `haystack` from position `i` on.
pub open spec fn occurs_at(haystack: Seq<char>, needle: Seq<char>, i: int) -> bool {
    &&& 0 <= i
    &&& i + needle.len() <= haystack.len()
    &&& haystack.subrange(i, i + needle.len()) == needle
}

/// A run of digits writes no negative number.
pub proof fn lemma_decimal_value_nonnegative(s: Seq<char>)
    requires
        all_digits(s),
    ensures
        decimal_value(s) >= 0,
    decreases s.len(),
{
    if s.len() > 0 {
        lemma_decimal_value_nonnegative(s.drop_last());
    }
}

/// What the first `k` digits of a run write is no more than what the whole
/// run writes.
pub proof fn lemma_decimal_value_prefix(s: Seq<char>, k: int)
    requires
        all_digits(s),
        0 <= k <= s.len(),
    ensures
        0 <= decimal_value(s.take(k)) <= decimal_value(s),
    decreases s.len(),
{
    if k == s.len() {
        assert(s.take(k) =~= s);
        lemma_decimal_value_nonnegative(s);
    } else {
        lemma_decimal_value_prefix(s.drop_last(), k);
        assert(s.drop_last().take(k) =~= s.take(k));
    }
}

/// The characters of a string slice, in order.
pub fn chars_of(s: &str) -> (r: Vec<char>)
    ensures
        r@ == s@,
{
    let mut out: Vec<char> = Vec::new();
    for c in it: s.chars()
        invariant
            out@ == it.seq().take(it.index() as int),
            it.seq() == s@,
    {
        out.push(c);
    }
    out
}

/// Tells whether `c` is an ASCII digit.
pub fn char_is_digit(c: char) -> (r: bool)
    ensures
        r == is_digit(c),
{
    c >= '0' && c <= '9'
}

/// Reads `s` as a 64-bit signed integer written in base ten.
pub fn parse_i64(s: &str) -> (r: Option<i64>)
    ensures
        match r {
            Some(v) => bounded_integer(s@, i64::MIN as int, i64::MAX as int) == Some(v as int),
            None => bounded_integer(s@, i64::MIN as int, i64::MAX as int) is None,
        },
{
    let chars = chars_of(s);
    let n = chars.len();
    if n == 0 {
        return None;
    }
    let negative = chars[0] == '-';
    let start: usize = if chars[0] == '-' || chars[0] == '+' {
        1
    } else {
        0
    };
    let ghost digits = chars@.skip(start as int);
    if start == n {
        return None;
    }
    proof {
        if start == 0 {
            assert(digits =~= s@);
        }
        assert(integer_literal(s@) == literal_of_digits(digits, negative));
    }
    let limit: i128 = 9223372036854775808;
    let mut acc: i128 = 0;
    let mut i: usize = start;
    while i < n
        invariant
            start <= i <= n,
            n == chars.len(),
            digits == chars@.skip(start as int),
            integer_literal(s@) == literal_of_digits(digits, negative),
            all_digits(digits.take(i - start)),
            acc == decimal_value(digits.take(i - start)),
            0 <= acc <= limit,
            limit == 9223372036854775808,
        decreases n - i,
    {
        let c = chars[i];
        if !char_is_digit(c) {
            assert(digits[i - start] == c);
            return None;
        }
        let d: i128 = (c as u32 - 48) as i128;
        proof {
            let next = digits.take(i - start + 1);
            assert(next.drop_last() =~= digits.take(i - start));
            assert(next.last() == c);
            assert forall|k: int| 0 <= k < next.len() implies is_digit(#[trigger] next[k]) by {
                if k < i - start {
                    assert(digits.take(i - start)[k] == next[k]);
                }
            }
        }
        acc = acc * 10 + d;
        if acc > limit {
            proof {
                if all_digits(digits) {
                    lemma_decimal_value_prefix(digits, i - start + 1);
                }
            }
            return None;
        }
        i = i + 1;
    }
    assert(digits.take(n - start) =~= digits);
    let v: i128 = if negative {
        -acc
    } else {
        acc
    };
    if v < -9223372036854775808 || v > 9223372036854775807 {
        None
    } else {
        Some(v as i64)
    }
}

/// Reads `s` as a 32-bit signed integer written in base ten.
pub fn parse_i32(s: &str) -> (r: Option<i32>)
    ensures
        match r {
            Some(v) => bounded_integer(s@, i32::MIN as int, i32::MAX as int) == Some(v as int),
            None => bounded_integer(s@, i32::MIN as int, i32::MAX as int) is None,
        },
{
    match parse_i64(s) {
        Some(v) => if v < -2147483648 || v > 2147483647 {
            None
        } else {
            Some(v as i32)
        },
        None => None,
    }
}

/// Reads `s` as a truth value.
pub fn parse_bool_text(s: &str) -> (r: Option<bool>)
    ensures
        r == bool_literal(s@),
{
    let chars = chars_of(s);
    let n = chars.len();
    if n == 1 && chars[0] == '1' {
        assert(chars@ =~= seq!['1']);
        Some(true)
    } else if n == 1 && chars[0] == '0' {
        assert(chars@ =~= seq!['0']);
        Some(false)
    } else if n == 4 && chars[0] == 't' && chars[1] == 'r' && chars[2] == 'u' && chars[3] == 'e' {
        assert(chars@ =~= seq!['t', 'r', 'u', 'e']);
        Some(true)
    } else if n == 5 && chars[0] == 'f' && chars[1] == 'a' && chars[2] == 'l' && chars[3] == 's'
        && chars[4] == 'e' {
        assert(chars@ =~= seq!['f', 'a', 'l', 's', 'e']);
        Some(false)
    } else {
        proof {
            let s1 = seq!['1'];
            let s0 = seq!['0'];
            let st = seq!['t', 'r', 'u', 'e'];
            let sf = seq!['f', 'a', 'l', 's', 'e'];
            if chars@ == s1 {
                assert(chars@[0] == s1[0]);
            }
            if chars@ == s0 {
                assert(chars@[0] == s0[0]);
            }
            if chars@ == st {
                assert(chars@[0] == st[0] && chars@[1] == st[1] && chars@[2] == st[2] && chars@[3]
                    == st[3]);
            }
            if chars@ == sf {
                assert(chars@[0] == sf[0] && chars@[1] == sf[1] && chars@[2] == sf[2] && chars@[3]
                    == sf[3] && chars@[4] == sf[4]);
            }
        }
        None
    }
}

/// Skipping `a` characters and then `b` more is skipping `a + b`.
proof fn lemma_skip_twice(s: Seq<char>, a: int, b: int)
    requires
        0 <= a,
        0 <= b,
        a + b <= s.len(),
    ensures
        s.skip(a).skip(b) == s.skip(a + b),
{
    assert(s.skip(a).skip(b) =~= s.skip(a + b));
}

/// A text is all digits exactly when its leading digits are the whole of it.
pub proof fn lemma_leading_digits_all(s: Seq<char>)
    ensures
        leading_digits(s) <= s.len(),
        all_digits(s) <==> leading_digits(s) == s.len(),
    decreases s.len(),
{
    if s.len() > 0 {
        let t = s.skip(1);
        lemma_leading_digits_all(t);
        if is_digit(s[0]) {
            if all_digits(t) {
                assert forall|i: int| 0 <= i < s.len() implies is_digit(#[trigger] s[i]) by {
                    if i > 0 {
                        assert(t[i - 1] == s[i]);
                    }
                }
            }
            if all_digits(s) {
                assert forall|i: int| 0 <= i < t.len() implies is_digit(#[trigger] t[i]) by {
                    assert(t[i] == s[i + 1]);
                }
            }
        }
    }
}

/// Counts the digits that stand in `chars` from position `from` on.
fn count_digits(chars: &Vec<char>, from: usize) -> (n: usize)
    requires
        from <= chars.len(),
    ensures
        n == leading_digits(chars@.skip(from as int)),
        from + n <= chars.len(),
{
    let mut i: usize = from;
    while i < chars.len() && char_is_digit(chars[i])
        invariant
            from <= i <= chars.len(),
            leading_digits(chars@.skip(from as int)) == (i - from) + leading_digits(
                chars@.skip(i as int),
            ),
        decreases chars.len() - i,
    {
        proof {
            lemma_skip_twice(chars@, i as int, 1);
        }
        i = i + 1;
    }
    i - from
}

/// Tells whether `c` is the small letter `small` or its capital.
fn is_letter(c: char, small: char) -> (r: bool)
    requires
        'a' <= small && small <= 'z',
    ensures
        r == (ascii_lower(c) == small),
{
    c == small || (c >= 'A' && c <= 'Z' && (c as u32) + 32 == (small as u32))
}

/// Tells whether what stands in `chars` from `from` on is `word`, the case of
/// letters set aside.
fn word_at(chars: &Vec<char>, from: usize, word: &Vec<char>) -> (r: bool)
    requires
        from <= chars.len(),
        forall|i: int| 0 <= i < word.len() ==> 'a' <= #[trigger] word[i] && word[i] <= 'z',
    ensures
        r == is_word(chars@.skip(from as int), word@),
{
    let ghost rest = chars@.skip(from as int);
    if chars.len() - from != word.len() {
        return false;
    }
    let mut k: usize = 0;
    while k < word.len()
        invariant
            from <= chars.len(),
            chars.len() - from == word.len(),
            rest == chars@.skip(from as int),
            0 <= k <= word.len(),
            forall|i: int| 0 <= i < word.len() ==> 'a' <= #[trigger] word[i] && word[i] <= 'z',
            forall|i: int| 0 <= i < k ==> ascii_lower(#[trigger] rest[i]) == word[i],
        decreases word.len() - k,
    {
        if !is_letter(chars[from + k], word[k]) {
            assert(rest[k as int] == chars[from + k]);
            return false;
        }
        assert(rest[k as int] == chars[from + k]);
        k = k + 1;
    }
    true
}

/// Tells whether what stands in `chars` from `from` on names infinity or
/// not-a-number.
fn special_float_at(chars: &Vec<char>, from: usize) -> (r: bool)
    requires
        from <= chars.len(),
    ensures
        r == is_special_float(chars@.skip(from as int)),
{
    let inf: Vec<char> = vec!['i', 'n', 'f'];
    let infinity: Vec<char> = vec!['i', 'n', 'f', 'i', 'n', 'i', 't', 'y'];
    let nan: Vec<char> = vec!['n', 'a', 'n'];
    assert(inf@ =~= seq!['i', 'n', 'f']);
    assert(infinity@ =~= seq!['i', 'n', 'f', 'i', 'n', 'i', 't', 'y']);
    assert(nan@ =~= seq!['n', 'a', 'n']);
    word_at(chars, from, &inf) || word_at(chars, from, &infinity) || word_at(chars, from, &nan)
}

/// Tells whether what stands in `chars` from `from` on is an exponent.
fn exponent_at(chars: &Vec<char>, from: usize) -> (r: bool)
    requires
        from <= chars.len(),
    ensures
        r == is_exponent(chars@.skip(from as int)),
{
    let n = chars.len();
    let ghost rest = chars@.skip(from as int);
    let signed = from < n && (chars[from] == '+' || chars[from] == '-');
    let digits_at: usize = if signed {
        from + 1
    } else {
        from
    };
    proof {
        if signed {
            assert(rest[0] == chars[from as int]);
            lemma_skip_twice(chars@, from as int, 1);
        } else if from < n {
            assert(rest[0] == chars[from as int]);
        }
        assert(unsigned_part(rest) == chars@.skip(digits_at as int));
        lemma_leading_digits_all(chars@.skip(digits_at as int));
    }
    if digits_at == n {
        return false;
    }
    count_digits(chars, digits_at) == n - digits_at
}

/// Tells whether what stands in `chars` from `from` on is a decimal number.
fn decimal_number_at(chars: &Vec<char>, from: usize) -> (r: bool)
    requires
        from <= chars.len(),
    ensures
        r == is_decimal_number(chars@.skip(from as int)),
{
    let n = chars.len();
    let ghost body = chars@.skip(from as int);
    let whole = count_digits(chars, from);
    let dot_at = from + whole;
    let dotted = dot_at < n && chars[dot_at] == '.';
    let fraction_at: usize = if dotted {
        dot_at + 1
    } else {
        dot_at
    };
    let fraction: usize = if dotted {
        count_digits(chars, fraction_at)
    } else {
        0
    };
    let rest_at = fraction_at + fraction;
    proof {
        lemma_skip_twice(chars@, from as int, whole as int);
        let after_whole = body.skip(whole as int);
        assert(after_whole == chars@.skip(dot_at as int));
        if dot_at < n {
            assert(after_whole[0] == chars[dot_at as int]);
        }
        if dotted {
            lemma_skip_twice(chars@, dot_at as int, 1);
        }
        lemma_skip_twice(chars@, fraction_at as int, fraction as int);
        if rest_at < n {
            assert(chars@.skip(rest_at as int)[0] == chars[rest_at as int]);
            lemma_skip_twice(chars@, rest_at as int, 1);
        }
    }
    if whole + fraction == 0 {
        return false;
    }
    if rest_at == n {
        return true;
    }
    if chars[rest_at] != 'e' && chars[rest_at] != 'E' {
        return false;
    }
    exponent_at(chars, rest_at + 1)
}

/// Tells whether `s` is a decimal floating-point literal.
pub fn is_float_text(s: &str) -> (r: bool)
    ensures
        r == is_float_literal(s@),
{
    let chars = chars_of(s);
    let start: usize = if chars.len() > 0 && (chars[0] == '+' || chars[0] == '-') {
        1
    } else {
        0
    };
    proof {
        if start == 0 {
            assert(chars@.skip(0) =~= chars@);
        }
        assert(unsigned_part(s@) == chars@.skip(start as int));
    }
    special_float_at(&chars, start) || decimal_number_at(&chars, start)
}

/// Tells whether `needle` occurs in `haystack`.
pub fn text_contains(haystack: &str, needle: &str) -> (r: bool)
    ensures
        r == contains_text(haystack@, needle@),
{
    let h = chars_of(haystack);
    let nd = chars_of(needle);
    if nd.len() > h.len() {
        return false;
    }
    let last = h.len() - nd.len();
    let mut i: usize = 0;
    while i <= last
        invariant
            h@ == haystack@,
            nd@ == needle@,
            nd.len() <= h.len(),
            last == h.len() - nd.len(),
            0 <= i <= last + 1,
            forall|j: int| 0 <= j < i ==> !occurs_at(h@, nd@, j),
        decreases last + 1 - i,
    {
        let mut k: usize = 0;
        let mut same = true;
        while k < nd.len()
            invariant_except_break
                same,
                forall|m: int| 0 <= m < k ==> h@[i + m] == nd@[m],
            invariant
                nd.len() <= h.len(),
                last == h.len() - nd.len(),
                i <= last,
                0 <= k <= nd.len(),
            ensures
                same ==> k == nd.len() && forall|m: int| 0 <= m < k ==> h@[i + m] == nd@[m],
                !same ==> k < nd.len() && h@[i + k] != nd@[k as int],
            decreases nd.len() - k,
        {
            if h[i + k] != nd[k] {
                same = false;
                break;
            }
            k = k + 1;
        }
        if same {
            assert(h@.subrange(i as int, i + nd.len()) =~= nd@);
            assert(occurs_at(h@, nd@, i as int));
            return true;
        }
        proof {
            let piece = h@.subrange(i as int, i + nd.len());
            assert(piece[k as int] == h@[i + k]);
        }
        i = i + 1;
    }
    assert forall|j: int| !occurs_at(h@, nd@, j) by {
        if 0 <= j && j + nd.len() <= h.len() {
            assert(j < i);
        }
    }
    false
}

/// The ASCII digit that stands for `d`, a number below ten.
pub open spec fn digit_char(d: nat) -> char {
    if d == 0 {
        '0'
    } else if d == 1 {
        '1'
    } else if d == 2 {
        '2'
    } else if d == 3 {
        '3'
    } else if d == 4 {
        '4'
    } else if d == 5 {
        '5'
    } else if d == 6 {
        '6'
    } else if d == 7 {
        '7'
    } else if d == 8 {
        '8'
    } else {
        '9'
    }
}

/// The digits that write `n` in base ten, without leading zeros.
pub open spec fn decimal_digits(n: nat) -> Seq<char>
    decreases n,
{
    if n < 10 {
        seq![digit_char(n)]
    } else {
        decimal_digits(n / 10).push(digit_char(n % 10))
    }
}

/// The digits that write a number are digits, and write that number.
pub proof fn lemma_decimal_digits_value(n: nat)
    ensures
        decimal_digits(n).len() > 0,
        all_digits(decimal_digits(n)),
        decimal_value(decimal_digits(n)) == n,
    decreases n,
{
    if n < 10 {
        let s = seq![digit_char(n)];
        assert(s.drop_last() =~= Seq::<char>::empty());
        assert(decimal_value(s.drop_last()) == 0);
    } else {
        lemma_decimal_digits_value(n / 10);
        let s = decimal_digits(n);
        assert(s.drop_last() =~= decimal_digits(n / 10));
        assert(s.last() == digit_char(n % 10));
    }
}

/// The text of one digit.
fn digit_text(d: usize) -> (r: &'static str)
    requires
        d < 10,
    ensures
        r@ == seq![digit_char(d as nat)],
{
    proof {
        reveal_strlit("0");
        reveal_strlit("1");
        reveal_strlit("2");
        reveal_strlit("3");
        reveal_strlit("4");
        reveal_strlit("5");
        reveal_strlit("6");
        reveal_strlit("7");
        reveal_strlit("8");
        reveal_strlit("9");
    }
    let r = if d == 0 {
        "0"
    } else if d == 1 {
        "1"
    } else if d == 2 {
        "2"
    } else if d == 3 {
        "3"
    } else if d == 4 {
        "4"
    } else if d == 5 {
        "5"
    } else if d == 6 {
        "6"
    } else if d == 7 {
        "7"
    } else if d == 8 {
        "8"
    } else {
        "9"
    };
    assert(r@ =~= seq![digit_char(d as nat)]);
    r
}

/// Writes `n` in base ten.
pub fn decimal_text(n: usize) -> (r: String)
    ensures
        r@ == decimal_digits(n as nat),
    decreases n,
{
    if n < 10 {
        String::from_str(digit_text(n))
    } else {
        let head = decimal_text(n / 10);
        let r = head.concat(digit_text(n % 10));
        assert(r@ =~= decimal_digits(n as nat));
        r
    }
}

} // verus!
