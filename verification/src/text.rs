//! Character-sequence utilities shared by the protocol encoder and the
//! wallpaper components: decimal rendering of integers, JSON string
//! escaping, and small helpers for moving between `&str`, `String` and
//! `Vec<char>`.

use vstd::prelude::*;
use vstd::string::StrSliceExecFns;

verus! {

/// The decimal digit character for a value below ten.
pub open spec fn digit_char(d: int) -> char {
    if d == 0 {
        '0'
    } else if d == 1 {
        '1'
    } else if d == 2 {
        '2'
    } else if d == 3 {
        '3'
    } else if d == 4 {
        '4'
    } else if d == 5 {
        '5'
    } else if d == 6 {
        '6'
    } else if d == 7 {
        '7'
    } else if d == 8 {
        '8'
    } else {
        '9'
    }
}

/// The decimal rendering of `n`, most significant digit first, with no
/// leading zeroes (zero itself renders as "0").
pub open spec fn dec_digits(n: nat) -> Seq<char>
    decreases n,
{
    if n < 10 {
        seq![digit_char(n as int)]
    } else {
        dec_digits(n / 10).push(digit_char((n % 10) as int))
    }
}

fn digit_char_exec(d: u64) -> (c: char)
    requires
        d < 10,
    ensures
        c == digit_char(d as int),
{
    if d == 0 {
        '0'
    } else if d == 1 {
        '1'
    } else if d == 2 {
        '2'
    } else if d == 3 {
        '3'
    } else if d == 4 {
        '4'
    } else if d == 5 {
        '5'
    } else if d == 6 {
        '6'
    } else if d == 7 {
        '7'
    } else if d == 8 {
        '8'
    } else {
        '9'
    }
}

/// Appends the decimal rendering of `n` to `out`.
pub fn push_dec(out: &mut Vec<char>, n: u64)
    ensures
        final(out)@ == old(out)@ + dec_digits(n as nat),
    decreases n,
{
    if n < 10 {
        let c = digit_char_exec(n);
        out.push(c);
    } else {
        push_dec(out, n / 10);
        let c = digit_char_exec(n % 10);
        out.push(c);
    }
}

/// Appends every character of `s` to `out`.
pub fn push_str_chars(out: &mut Vec<char>, s: &str)
    ensures
        final(out)@ == old(out)@ + s@,
{
    let n = s.unicode_len();
    for i in 0..n
        invariant
            n == s@.len(),
            out@ == old(out)@ + s@.take(i as int),
    {
        let c = s.get_char(i);
        out.push(c);
        proof {
            assert(out@ =~= old(out)@ + s@.take(i + 1));
        }
    }
    proof {
        assert(out@ =~= old(out)@ + s@);
    }
}

/// The characters of `s`, in order.
pub fn str_to_chars(s: &str) -> (v: Vec<char>)
    ensures
        v@ == s@,
{
    let mut v: Vec<char> = Vec::new();
    push_str_chars(&mut v, s);
    proof {
        assert(v@ =~= s@);
    }
    v
}

/// Whether two string slices hold the same characters.
pub fn str_eq(a: &str, b: &str) -> (r: bool)
    ensures
        r == (a@ == b@),
{
    let n = a.unicode_len();
    if n != b.unicode_len() {
        return false;
    }
    for i in 0..n
        invariant
            n == a@.len(),
            n == b@.len(),
            forall|j: int| 0 <= j < i ==> a@[j] == b@[j],
    {
        if a.get_char(i) != b.get_char(i) {
            return false;
        }
    }
    proof {
        assert(a@ =~= b@);
    }
    true
}

/// Whether `c` is a decimal digit character.
pub open spec fn is_dec_digit(c: char) -> bool {
    48 <= (c as u32) && (c as u32) <= 57
}

/// The value of a decimal digit character (zero on any other character).
pub open spec fn digit_val(c: char) -> nat {
    if is_dec_digit(c) {
        ((c as u32) - 48) as nat
    } else {
        0
    }
}

/// The value of a string of decimal digit characters, most significant
/// first.
pub open spec fn digits_val(s: Seq<char>) -> nat
    decreases s.len(),
{
    if s.len() == 0 {
        0
    } else {
        digits_val(s.drop_last()) * 10 + digit_val(s.last())
    }
}

/// Whether `s` is a canonical decimal rendering: at least one digit, every
/// character a digit, and no leading zero.
pub open spec fn valid_digits(s: Seq<char>) -> bool {
    s.len() > 0 && (forall|i: int| 0 <= i < s.len() ==> is_dec_digit(s[i])) && (s.len() == 1 || s[0]
        != '0')
}

/// The decimal rendering of `n` is a canonical digit string.
pub proof fn lemma_dec_digits_valid(n: nat)
    ensures
        valid_digits(dec_digits(n)),
        dec_digits(n)[0] == '0' <==> n == 0,
    decreases n,
{
    if n < 10 {
        assert(dec_digits(n) =~= seq![digit_char(n as int)]);
    } else {
        lemma_dec_digits_valid(n / 10);
        let prev = dec_digits(n / 10);
        let whole = dec_digits(n);
        assert(whole =~= prev.push(digit_char((n % 10) as int)));
        assert(forall|i: int| 0 <= i < whole.len() ==> is_dec_digit(whole[i])) by {
            assert(forall|i: int| 0 <= i < prev.len() ==> whole[i] == prev[i]);
        }
        assert(whole[0] == prev[0]);
    }
}

/// Rendering a value and reading the digits back yields the value.
pub proof fn lemma_digits_val_dec(n: nat)
    ensures
        digits_val(dec_digits(n)) == n,
    decreases n,
{
    if n < 10 {
        let s = dec_digits(n);
        assert(s =~= seq![digit_char(n as int)]);
        reveal_with_fuel(digits_val, 2);
        assert(s.drop_last() =~= Seq::<char>::empty());
        assert(s.last() == digit_char(n as int));
        assert(digits_val(s) == digit_val(digit_char(n as int)));
    } else {
        lemma_digits_val_dec(n / 10);
        let prev = dec_digits(n / 10);
        let s = dec_digits(n);
        assert(s =~= prev.push(digit_char((n % 10) as int)));
        assert(s.drop_last() =~= prev);
        assert(s.last() == digit_char((n % 10) as int));
        assert(digits_val(s) == (n / 10) * 10 + (n % 10));
    }
}

/// A digit string's value only grows as more digits follow.
pub proof fn lemma_digits_val_grows(s: Seq<char>, k: int)
    requires
        0 <= k <= s.len(),
    ensures
        digits_val(s) >= digits_val(s.take(k)),
    decreases s.len(),
{
    if k == s.len() {
        assert(s.take(k) =~= s);
    } else {
        assert(s.len() > 0);
        lemma_digits_val_grows(s.drop_last(), k);
        assert(s.drop_last().take(k) =~= s.take(k));
        assert(digits_val(s) == digits_val(s.drop_last()) * 10 + digit_val(s.last()));
        assert(digits_val(s.drop_last()) * 10 >= digits_val(s.drop_last())) by (nonlinear_arith);
    }
}

/// The lowercase hexadecimal digit character for a value below sixteen.
pub open spec fn hex_char(d: int) -> char {
    if d < 10 {
        digit_char(d)
    } else if d == 10 {
        'a'
    } else if d == 11 {
        'b'
    } else if d == 12 {
        'c'
    } else if d == 13 {
        'd'
    } else if d == 14 {
        'e'
    } else {
        'f'
    }
}

/// How one character appears inside a JSON string literal: quotes and
/// backslashes are escaped, the common control characters get their short
/// escapes, the remaining control characters the `\u00XX` form, and every
/// other character stands as itself.
pub open spec fn escape_char(c: char) -> Seq<char> {
    if c == '"' {
        seq!['\\', '"']
    } else if c == '\\' {
        seq!['\\', '\\']
    } else if c == '\u{08}' {
        seq!['\\', 'b']
    } else if c == '\t' {
        seq!['\\', 't']
    } else if c == '\n' {
        seq!['\\', 'n']
    } else if c == '\u{0c}' {
        seq!['\\', 'f']
    } else if c == '\r' {
        seq!['\\', 'r']
    } else if (c as u32) < 32 {
        seq!['\\', 'u', '0', '0', hex_char(((c as u32) as int) / 16), hex_char(((c as u32) as int) % 16)]
    } else {
        seq![c]
    }
}

/// The body of a JSON string literal holding the text `s`.
pub open spec fn json_escape(s: Seq<char>) -> Seq<char>
    decreases s.len(),
{
    if s.len() == 0 {
        Seq::empty()
    } else {
        escape_char(s[0]) + json_escape(s.drop_first())
    }
}

/// Whether `c` is a lowercase hexadecimal digit character.
pub open spec fn is_hex_digit(c: char) -> bool {
    (48 <= (c as u32) && (c as u32) <= 57) || (97 <= (c as u32) && (c as u32) <= 102)
}

/// The value of a lowercase hexadecimal digit character (zero on any
/// other character).
pub open spec fn hex_val(c: char) -> int {
    if 48 <= (c as u32) && (c as u32) <= 57 {
        (c as u32) - 48
    } else if 97 <= (c as u32) && (c as u32) <= 102 {
        (c as u32) - 87
    } else {
        0
    }
}

/// Reads a JSON string-literal body back into the text it holds, for the
/// escapes this library produces; an escape it never produces is dropped.
pub open spec fn spec_unescape(s: Seq<char>) -> Seq<char>
    decreases s.len(),
{
    if s.len() == 0 {
        Seq::empty()
    } else if s[0] != '\\' {
        seq![s[0]] + spec_unescape(s.drop_first())
    } else if s.len() == 1 {
        Seq::empty()
    } else if s[1] == '"' {
        seq!['"'] + spec_unescape(s.skip(2))
    } else if s[1] == '\\' {
        seq!['\\'] + spec_unescape(s.skip(2))
    } else if s[1] == 'b' {
        seq!['\u{08}'] + spec_unescape(s.skip(2))
    } else if s[1] == 't' {
        seq!['\t'] + spec_unescape(s.skip(2))
    } else if s[1] == 'n' {
        seq!['\n'] + spec_unescape(s.skip(2))
    } else if s[1] == 'f' {
        seq!['\u{0c}'] + spec_unescape(s.skip(2))
    } else if s[1] == 'r' {
        seq!['\r'] + spec_unescape(s.skip(2))
    } else if s[1] == 'u' && s.len() >= 6 && s[2] == '0' && s[3] == '0' && is_hex_digit(s[4])
        && is_hex_digit(s[5]) {
        seq![(((hex_val(s[4]) * 16 + hex_val(s[5])) as u32) as char)] + spec_unescape(s.skip(6))
    } else {
        spec_unescape(s.skip(2))
    }
}

/// A hexadecimal digit character reads back as its value.
proof fn lemma_hex_char_val(d: int)
    requires
        0 <= d < 16,
    ensures
        is_hex_digit(hex_char(d)),
        hex_val(hex_char(d)) == d,
{
}

/// Escaping loses nothing: reading an escaped text back as a JSON string
/// literal yields exactly the original text.
pub proof fn lemma_unescape_escape(s: Seq<char>)
    ensures
        spec_unescape(json_escape(s)) == s,
    decreases s.len(),
{
    if s.len() == 0 {
        assert(json_escape(s) =~= Seq::<char>::empty());
        assert(spec_unescape(json_escape(s)) =~= s);
    } else {
        let c = s[0];
        let rest = s.drop_first();
        lemma_unescape_escape(rest);
        let e = escape_char(c);
        let whole = json_escape(s);
        assert(whole == e + json_escape(rest));
        if c == '"' || c == '\\' || c == '\u{08}' || c == '\t' || c == '\n' || c == '\u{0c}'
            || c == '\r' {
            assert(whole.skip(2) =~= json_escape(rest));
            assert(spec_unescape(whole) =~= seq![c] + rest);
        } else if (c as u32) < 32 {
            let code = (c as u32) as int;
            lemma_hex_char_val(code / 16);
            lemma_hex_char_val(code % 16);
            assert(whole.skip(6) =~= json_escape(rest));
            assert(hex_val(whole[4]) * 16 + hex_val(whole[5]) == code);
            vstd::utf8::char_u32_cast(c, c as u32);
            assert(spec_unescape(whole) =~= seq![c] + rest);
        } else {
            assert(whole[0] == c && c != '\\');
            assert(whole.drop_first() =~= json_escape(rest));
            assert(spec_unescape(whole) =~= seq![c] + rest);
        }
        assert(seq![c] + rest =~= s);
    }
}

fn hex_char_exec(d: u32) -> (c: char)
    requires
        d < 16,
    ensures
        c == hex_char(d as int),
{
    if d < 10 {
        digit_char_exec(d as u64)
    } else if d == 10 {
        'a'
    } else if d == 11 {
        'b'
    } else if d == 12 {
        'c'
    } else if d == 13 {
        'd'
    } else if d == 14 {
        'e'
    } else {
        'f'
    }
}

/// Appends `s` to `out` in JSON string-literal form.
pub fn push_escaped(out: &mut Vec<char>, s: &Vec<char>)
    ensures
        final(out)@ == old(out)@ + json_escape(s@),
{
    let n = s.len();
    proof {
        assert(s@.skip(0) =~= s@);
    }
    for i in 0..n
        invariant
            n == s@.len(),
            old(out)@ + json_escape(s@) == out@ + json_escape(s@.skip(i as int)),
    {
        let ghost prev = out@;
        let c = s[i];
        if c == '"' {
            out.push('\\');
            out.push('"');
        } else if c == '\\' {
            out.push('\\');
            out.push('\\');
        } else if c == '\u{08}' {
            out.push('\\');
            out.push('b');
        } else if c == '\t' {
            out.push('\\');
            out.push('t');
        } else if c == '\n' {
            out.push('\\');
            out.push('n');
        } else if c == '\u{0c}' {
            out.push('\\');
            out.push('f');
        } else if c == '\r' {
            out.push('\\');
            out.push('r');
        } else if (c as u32) < 32 {
            out.push('\\');
            out.push('u');
            out.push('0');
            out.push('0');
            let h = hex_char_exec(c as u32 / 16);
            out.push(h);
            let l = hex_char_exec(c as u32 % 16);
            out.push(l);
        } else {
            out.push(c);
        }
        proof {
            assert(out@ =~= prev + escape_char(s@[i as int]));
            assert(s@.skip(i as int).drop_first() =~= s@.skip(i + 1));
            assert(json_escape(s@.skip(i as int)) == escape_char(s@[i as int]) + json_escape(
                s@.skip(i + 1),
            ));
            assert(prev + json_escape(s@.skip(i as int)) =~= out@ + json_escape(s@.skip(i + 1)));
        }
    }
    proof {
        assert(out@ + json_escape(s@.skip(n as int)) =~= out@);
    }
}

/// Relies on `String: FromIterator<char>`: collecting characters builds the
/// string that holds exactly those characters in order.
#[verifier::external_body]
pub fn chars_to_string(v: &Vec<char>) -> (s: String)
    ensures
        s@ == v@,
{
    v.iter().collect()
}

} // verus!
