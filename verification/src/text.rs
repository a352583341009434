//! Small text utilities on `String` values: decimal formatting and parsing.
use vstd::prelude::*;

verus! {

/// The decimal digit character for a value in `0..10`.
pub open spec fn digit_char(d: int) -> char {
    if d == 0 { '0' } else if d == 1 { '1' } else if d == 2 { '2' } else if d == 3 { '3' }
    else if d == 4 { '4' } else if d == 5 { '5' } else if d == 6 { '6' } else if d == 7 { '7' }
    else if d == 8 { '8' } else { '9' }
}

/// The decimal representation of a natural number, without leading zeros.
pub open spec fn nat_decimal(n: nat) -> Seq<char>
    decreases n,
{
    if n < 10 {
        seq![digit_char(n as int)]
    } else {
        nat_decimal(n / 10).push(digit_char((n % 10) as int))
    }
}

/// The decimal representation of an integer, with a leading `-` when negative.
pub open spec fn int_decimal(n: int) -> Seq<char> {
    if n < 0 {
        seq!['-'] + nat_decimal((-n) as nat)
    } else {
        nat_decimal(n as nat)
    }
}

/// An owned copy of a string slice (`str::to_owned`).
pub fn owned(s: &str) -> (r: String)
    ensures
        r@ == s@,
{
    s.to_owned()
}

/// Whether two string slices hold the same characters.
pub fn same_text(a: &str, b: &str) -> (r: bool)
    ensures
        r == (a@ == b@),
{
    let n = a.unicode_len();
    if n != b.unicode_len() {
        return false;
    }
    let mut i: usize = 0;
    while i < n
        invariant
            n == a@.len(),
            n == b@.len(),
            i <= n,
            forall|k: int| 0 <= k < i ==> a@[k] == b@[k],
        decreases n - i,
    {
        if a.get_char(i) != b.get_char(i) {
            return false;
        }
        i = i + 1;
    }
    assert(a@ =~= b@);
    true
}

/// Appends one character to a string (`String::push`).
#[verifier::external_body]
pub(crate) fn push_char(s: &mut String, c: char)
    ensures
        final(s)@ == old(s)@.push(c),
{
    s.push(c);
}

fn digit_of(d: u32) -> (c: char)
    requires
        d < 10,
    ensures
        c == digit_char(d as int),
{
    if d == 0 { '0' } else if d == 1 { '1' } else if d == 2 { '2' } else if d == 3 { '3' }
    else if d == 4 { '4' } else if d == 5 { '5' } else if d == 6 { '6' } else if d == 7 { '7' }
    else if d == 8 { '8' } else { '9' }
}

fn append_u32_decimal(s: &mut String, n: u32)
    ensures
        final(s)@ == old(s)@ + nat_decimal(n as nat),
    decreases n,
{
    if n >= 10 {
        append_u32_decimal(s, n / 10);
    }
    push_char(s, digit_of(n % 10));
    proof {
        if n < 10 {
            assert(nat_decimal(n as nat) == seq![digit_char(n as int)]);
        }
    }
    assert(final(s)@ == old(s)@ + nat_decimal(n as nat)) by {
        if n >= 10 {
            assert(nat_decimal(n as nat) == nat_decimal((n / 10) as nat).push(digit_char((n % 10) as int)));
        }
    }
}

/// Appends the decimal representation of `n` to `s`.
pub fn append_i32_decimal(s: &mut String, n: i32)
    ensures
        final(s)@ == old(s)@ + int_decimal(n as int),
{
    if n < 0 {
        push_char(s, '-');
        let magnitude: u32 = (-(n as i64)) as u32;
        append_u32_decimal(s, magnitude);
    } else {
        append_u32_decimal(s, n as u32);
    }
}


/// A decimal digit.
pub open spec fn is_digit(c: char) -> bool {
    '0' <= c && c <= '9'
}

/// The value of a decimal digit.
pub open spec fn digit_value(c: char) -> int {
    c as int - '0' as int
}

/// The value of a run of decimal digits (0 for none).
pub open spec fn digits_value(s: Seq<char>) -> nat
    decreases s.len(),
{
    if s.len() == 0 {
        0
    } else {
        (digits_value(s.drop_last()) * 10 + digit_value(s.last())) as nat
    }
}

/// Every character is a decimal digit.
pub open spec fn all_digits(s: Seq<char>) -> bool {
    forall|i: int| 0 <= i < s.len() ==> is_digit(#[trigger] s[i])
}

/// The text of an unsigned number without its optional leading `+`.
pub open spec fn unsigned_digits(s: Seq<char>) -> Seq<char> {
    if s.len() > 0 && s[0] == '+' {
        s.drop_first()
    } else {
        s
    }
}

/// What parsing the text as a `usize` gives: an optional `+` and at least one
/// decimal digit, whose value fits in a `usize`; `None` for anything else.
pub open spec fn usize_of_text(s: Seq<char>) -> Option<usize> {
    let digits = unsigned_digits(s);
    if digits.len() > 0 && all_digits(digits) && digits_value(digits) <= usize::MAX {
        Some(digits_value(digits) as usize)
    } else {
        None
    }
}

/// Appending digits never lowers the value of a run of digits.
proof fn lemma_digits_value_grows(s: Seq<char>, i: int, j: int)
    requires
        0 <= i <= j <= s.len(),
        all_digits(s),
    ensures
        digits_value(s.take(i)) <= digits_value(s.take(j)),
    decreases j - i,
{
    if i < j {
        lemma_digits_value_grows(s, i, j - 1);
        assert(s.take(j).drop_last() =~= s.take(j - 1));
        assert(is_digit(s[j - 1]));
    }
}

/// Parses a number of bytes the way `str::parse::<usize>` does.
pub fn parse_usize(text: &str) -> (r: Option<usize>)
    ensures
        r == usize_of_text(text@),
{
    let n = text.unicode_len();
    let mut start: usize = 0;
    if n > 0 && text.get_char(0) == '+' {
        start = 1;
    }
    let ghost digits = unsigned_digits(text@);
    assert(digits =~= text@.skip(start as int));
    if start == n {
        return None;
    }
    let mut value: usize = 0;
    let mut i: usize = start;
    while i < n
        invariant
            n == text@.len(),
            start <= i <= n,
            start < n,
            digits =~= text@.skip(start as int),
            digits == unsigned_digits(text@),
            all_digits(text@.subrange(start as int, i as int)),
            value as nat == digits_value(text@.subrange(start as int, i as int)),
        decreases n - i,
    {
        let c = text.get_char(i);
        if !('0' <= c && c <= '9') {
            assert(digits[i - start] == c);
            assert(!is_digit(digits[i - start]));
            return None;
        }
        let d: usize = (c as u32 - '0' as u32) as usize;
        let ghost next = text@.subrange(start as int, i + 1);
        assert(next.drop_last() =~= text@.subrange(start as int, i as int));
        assert(next.last() == c);
        assert(d == digit_value(c));
        assert(digits_value(next) == value * 10 + d);
        if value > (usize::MAX - d) / 10 {
            assert(value * 10 + d > usize::MAX) by (nonlinear_arith)
                requires
                    value > (usize::MAX - d) / 10,
                    d <= 9,
            ;
            proof {
                if all_digits(digits) {
                    assert(next =~= digits.take((i + 1 - start) as int));
                    lemma_digits_value_grows(digits, (i + 1 - start) as int, digits.len() as int);
                    assert(digits.take(digits.len() as int) =~= digits);
                }
            }
            return None;
        }
        assert(value * 10 + d <= usize::MAX) by (nonlinear_arith)
            requires
                value <= (usize::MAX - d) / 10,
                d <= 9,
        ;
        value = value * 10 + d;
        i = i + 1;
        assert(all_digits(text@.subrange(start as int, i as int))) by {
            assert forall|k: int| 0 <= k < next.len() implies is_digit(#[trigger] next[k]) by {
                if k < next.len() - 1 {
                    assert(next[k] == next.drop_last()[k]);
                }
            }
        }
    }
    assert(text@.subrange(start as int, n as int) =~= digits);
    Some(value)
}

/// What follows the last `.` of a text, or the whole text when it has none
/// (the last piece of `split('.')`).
pub open spec fn after_last_dot(s: Seq<char>) -> Seq<char>
    decreases s.len(),
{
    if s.len() == 0 {
        s
    } else if s.last() == '.' {
        Seq::empty()
    } else {
        after_last_dot(s.drop_last()).push(s.last())
    }
}

/// The extension of a file name: what follows its last `.`, or the whole name.
pub fn extension_of(name: &str) -> (r: String)
    ensures
        r@ == after_last_dot(name@),
{
    let n = name.unicode_len();
    let mut start: usize = 0;
    let mut i: usize = 0;
    while i < n
        invariant
            n == name@.len(),
            start <= i <= n,
            after_last_dot(name@.take(i as int)) == name@.subrange(start as int, i as int),
        decreases n - i,
    {
        let c = name.get_char(i);
        assert(name@.take(i + 1).drop_last() =~= name@.take(i as int));
        assert(name@.take(i + 1).last() == c);
        if c == '.' {
            start = i + 1;
            assert(name@.subrange(start as int, i + 1) =~= Seq::<char>::empty());
        } else {
            assert(name@.subrange(start as int, i + 1) =~= name@.subrange(start as int, i as int).push(c));
        }
        i = i + 1;
    }
    assert(name@.take(n as int) =~= name@);
    name.substring_char(start, n).to_owned()
}

/// The text of the error that `String::from_utf8` gives for these bytes.
pub uninterp spec fn utf8_error_text(bytes: Seq<u8>) -> Seq<char>;

/// Text decoded from bytes (`String::from_utf8`): the characters that the
/// bytes encode when they are valid UTF-8; otherwise the text of the error,
/// named `utf8_error_text` of the bytes.
#[verifier::external_body]
pub(crate) fn utf8_text(bytes: Vec<u8>) -> (r: Result<String, String>)
    ensures
        r is Ok <==> vstd::utf8::valid_utf8(bytes@),
        r matches Ok(s) ==> s@ == vstd::utf8::decode_utf8(bytes@),
        r matches Err(m) ==> m@ == utf8_error_text(bytes@),
{
    match String::from_utf8(bytes) {
        Ok(s) => Ok(s),
        Err(e) => Err(e.to_string()),
    }
}

/// The decimal representation of a number is a non-empty run of digits,
/// not starting with `+`, whose value is the number.
proof fn lemma_decimal_digits(n: nat)
    ensures
        nat_decimal(n).len() > 0,
        all_digits(nat_decimal(n)),
        nat_decimal(n)[0] != '+',
        digits_value(nat_decimal(n)) == n,
    decreases n,
{
    let d = nat_decimal(n);
    if n < 10 {
        assert(d.drop_last() =~= Seq::<char>::empty());
        assert(digits_value(Seq::<char>::empty()) == 0);
        assert(digit_value(digit_char(n as int)) == n);
    } else {
        lemma_decimal_digits(n / 10);
        let prefix = nat_decimal(n / 10);
        assert(d == prefix.push(digit_char((n % 10) as int)));
        assert(d.drop_last() =~= prefix);
        assert(digit_value(digit_char((n % 10) as int)) == n % 10);
        assert(is_digit(digit_char((n % 10) as int)));
        assert forall|i: int| 0 <= i < d.len() implies is_digit(#[trigger] d[i]) by {
            if i < prefix.len() {
                assert(d[i] == prefix[i]);
            }
        }
        assert(d[0] == prefix[0]);
    }
}

/// A length written in decimal, with or without a leading `+`, parses as
/// that very number: for every `n`, the text of `n` and `+` followed by it
/// both read as `n`.
pub proof fn law_decimal_text_parses(n: usize)
    ensures
        usize_of_text(nat_decimal(n as nat)) == Some(n),
        usize_of_text(seq!['+'] + nat_decimal(n as nat)) == Some(n),
{
    lemma_decimal_digits(n as nat);
    let d = nat_decimal(n as nat);
    assert(unsigned_digits(d) == d);
    let plus = seq!['+'] + d;
    assert(plus[0] == '+');
    assert(plus.drop_first() =~= d);
    assert(unsigned_digits(plus) == d);
}

/// A leading zero adds nothing to the value of a run of digits.
proof fn lemma_leading_zero(d: Seq<char>)
    requires
        all_digits(d),
    ensures
        digits_value(seq!['0'] + d) == digits_value(d),
    decreases d.len(),
{
    let z = seq!['0'] + d;
    if d.len() == 0 {
        assert(z.drop_last() =~= Seq::<char>::empty());
        assert(digit_value('0') == 0);
        assert(digits_value(z) == digits_value(z.drop_last()) * 10 + digit_value(z.last()));
        assert(digits_value(d) == 0);
    } else {
        assert(z.drop_last() =~= seq!['0'] + d.drop_last());
        assert(z.last() == d.last());
        assert(is_digit(d[d.len() - 1]));
        assert(all_digits(d.drop_last())) by {
            assert forall|i: int| 0 <= i < d.drop_last().len() implies is_digit(#[trigger] d.drop_last()[i]) by {
                assert(d.drop_last()[i] == d[i]);
            }
        }
        lemma_leading_zero(d.drop_last());
        assert(digits_value(z) == digits_value(z.drop_last()) * 10 + digit_value(z.last()));
        assert(digits_value(d) == digits_value(d.drop_last()) * 10 + digit_value(d.last()));
    }
}

/// A decimal length written with a leading zero still reads as that length.
pub proof fn law_leading_zero_parses(n: usize)
    ensures
        usize_of_text(seq!['0'] + nat_decimal(n as nat)) == Some(n),
{
    lemma_decimal_digits(n as nat);
    let d = nat_decimal(n as nat);
    let z = seq!['0'] + d;
    lemma_leading_zero(d);
    assert(z[0] == '0');
    assert(unsigned_digits(z) == z);
    assert forall|i: int| 0 <= i < z.len() implies is_digit(#[trigger] z[i]) by {
        if i > 0 {
            assert(z[i] == d[i - 1]);
        }
    }
}

/// What follows the last `.` of a name that ends in `.` and a text without
/// `.` is that text, whatever comes before.
pub proof fn law_extension_after_last_dot(prefix: Seq<char>, ext: Seq<char>)
    requires
        !ext.contains('.'),
    ensures
        after_last_dot(prefix + seq!['.'] + ext) == ext,
    decreases ext.len(),
{
    let s = prefix + seq!['.'] + ext;
    if ext.len() == 0 {
        assert(s.last() == '.');
    } else {
        assert(s.drop_last() =~= prefix + seq!['.'] + ext.drop_last());
        assert(s.last() == ext.last());
        assert(!ext.drop_last().contains('.')) by {
            if ext.drop_last().contains('.') {
                let k = choose|k: int| 0 <= k < ext.drop_last().len() && ext.drop_last()[k] == '.';
                assert(ext[k] == '.');
            }
        }
        assert(ext.last() != '.') by {
            assert(ext[ext.len() - 1] == ext.last());
        }
        law_extension_after_last_dot(prefix, ext.drop_last());
        assert(ext.drop_last().push(ext.last()) =~= ext);
    }
}

} // verus!
