//! Text: numbers written out and read, blanks, and the spelling of keys.

use vstd::prelude::*;
use vstd::string::*;

use crate::fixed::{round_to, Micro};

verus! {

/// `String::push` appends one character.
pub assume_specification[ String::push ](s: &mut String, c: char)
    ensures
        final(s)@ == old(s)@.push(c),
;

/// The character of a decimal digit.
pub open spec fn digit(d: nat) -> char {
    (48 + d) as char
}

/// `n` in decimal, without leading zeros.
pub open spec fn decimal(n: nat) -> Seq<char>
    decreases n,
{
    if n < 10 {
        seq![digit(n)]
    } else {
        decimal(n / 10).push(digit(n % 10))
    }
}

/// `n` in decimal, with a minus sign where it is negative.
pub open spec fn integer(n: int) -> Seq<char> {
    if n < 0 {
        seq!['-'] + decimal((-n) as nat)
    } else {
        decimal(n as nat)
    }
}

/// Appends `n` in decimal.
pub fn push_decimal(s: &mut String, n: u64)
    ensures
        final(s)@ == old(s)@ + decimal(n as nat),
    decreases n,
{
    if n >= 10 {
        push_decimal(s, n / 10);
    }
    let d: u8 = (n % 10) as u8;
    let c: char = (48 + d) as char;
    s.push(c);
}

/// `n` in decimal.
pub fn decimal_text(n: u64) -> (r: String)
    ensures
        r@ == decimal(n as nat),
{
    let mut s: String = String::new();
    push_decimal(&mut s, n);
    assert(Seq::<char>::empty() + decimal(n as nat) =~= decimal(n as nat));
    s
}

/// `n` in decimal, with its sign where it is negative.
pub fn integer_text(n: i64) -> (r: String)
    ensures
        r@ == integer(n as int),
{
    let mut s: String = String::new();
    if n < 0 {
        s.push('-');
        let size: u64 = (-(n as i128)) as u64;
        push_decimal(&mut s, size);
        assert(s@ =~= seq!['-'] + decimal((-n) as nat));
    } else {
        push_decimal(&mut s, n as u64);
        assert(s@ =~= decimal(n as nat));
    }
    s
}

/// Whether a character is a decimal digit.
pub open spec fn is_digit(c: char) -> bool {
    '0' <= c <= '9'
}

/// Whether every character is a decimal digit.
pub open spec fn all_digits(s: Seq<char>) -> bool {
    forall|i: int| 0 <= i < s.len() ==> is_digit(#[trigger] s[i])
}

/// The number that a row of digits stands for.
pub open spec fn numeral(s: Seq<char>) -> nat
    decreases s.len(),
{
    if s.len() == 0 {
        0
    } else {
        (numeral(s.drop_last()) * 10 + (s.last() as int - 48)) as nat
    }
}

/// `s` without one leading plus sign.
pub open spec fn unsigned_part(s: Seq<char>) -> Seq<char> {
    if s.len() > 0 && s[0] == '+' {
        s.skip(1)
    } else {
        s
    }
}

/// The number that a text stands for: digits, at least one, behind an optional
/// plus sign, and no more than fits in 64 bits.
pub open spec fn number_in(s: Seq<char>) -> Option<u64> {
    let d = unsigned_part(s);
    if d.len() > 0 && all_digits(d) && numeral(d) <= u64::MAX {
        Some(numeral(d) as u64)
    } else {
        None
    }
}

/// Reads a number.
pub fn parse_u64(s: &str) -> (r: Option<u64>)
    ensures
        r == number_in(s@),
{
    let n: usize = s.unicode_len();
    let mut i: usize = 0;
    if n > 0 && s.get_char(0) == '+' {
        i = 1;
    }
    let start: usize = i;
    let ghost d = unsigned_part(s@);
    if start == n {
        return None;
    }
    let mut value: u64 = 0;
    while i < n
        invariant
            n == s@.len(),
            start <= i <= n,
            start <= 1,
            d == s@.skip(start as int),
            d.len() == n - start,
            d == unsigned_part(s@),
            all_digits(d.take(i - start)),
            value == numeral(d.take(i - start)),
        decreases n - i,
    {
        let c: char = s.get_char(i);
        proof {
            assert(c == d[i - start]);
            assert(d.take(i - start + 1).drop_last() =~= d.take(i - start));
        }
        if c < '0' || c > '9' {
            return None;
        }
        let x: u64 = (c as u32 - 48) as u64;
        proof {
            lemma_numeral_grows(d, i - start + 1);
        }
        if value > (u64::MAX - x) / 10 {
            return None;
        }
        value = value * 10 + x;
        i = i + 1;
    }
    proof {
        assert(d.take(n - start) =~= d);
    }
    Some(value)
}

/// A row of digits stands for no less than any of its beginnings.
proof fn lemma_numeral_grows(d: Seq<char>, k: int)
    requires
        0 <= k <= d.len(),
    ensures
        all_digits(d) ==> numeral(d.take(k)) <= numeral(d),
    decreases d.len(),
{
    if k == d.len() {
        assert(d.take(k) =~= d);
    } else {
        lemma_numeral_grows(d.drop_last(), k);
        assert(d.drop_last().take(k) =~= d.take(k));
        if all_digits(d) {
            assert(is_digit(d[d.len() - 1]));
            assert(all_digits(d.drop_last())) by {
                assert forall|i: int| 0 <= i < d.len() - 1 implies is_digit(
                    #[trigger] d.drop_last()[i],
                ) by {
                    assert(is_digit(d[i]));
                }
            }
        }
    }
}

/// Whether a character is white space.
pub open spec fn is_space(c: char) -> bool {
    let x = c as u32;
    ||| 0x9 <= x <= 0xd
    ||| x == 0x20
    ||| x == 0x85
    ||| x == 0xa0
    ||| x == 0x1680
    ||| 0x2000 <= x <= 0x200a
    ||| x == 0x2028
    ||| x == 0x2029
    ||| x == 0x202f
    ||| x == 0x205f
    ||| x == 0x3000
}

/// Whether a text holds nothing but white space.
pub open spec fn blank(s: Seq<char>) -> bool {
    forall|i: int| 0 <= i < s.len() ==> is_space(#[trigger] s[i])
}

fn space(c: char) -> (r: bool)
    ensures
        r == is_space(c),
{
    let x: u32 = c as u32;
    (0x9 <= x && x <= 0xd) || x == 0x20 || x == 0x85 || x == 0xa0 || x == 0x1680 || (0x2000 <= x
        && x <= 0x200a) || x == 0x2028 || x == 0x2029 || x == 0x202f || x == 0x205f || x == 0x3000
}

/// Whether a text holds nothing but white space.
pub fn is_blank(s: &str) -> (r: bool)
    ensures
        r == blank(s@),
{
    let n: usize = s.unicode_len();
    let mut i: usize = 0;
    while i < n
        invariant
            n == s@.len(),
            i <= n,
            forall|j: int| 0 <= j < i ==> is_space(#[trigger] s@[j]),
        decreases n - i,
    {
        if !space(s.get_char(i)) {
            return false;
        }
        i = i + 1;
    }
    true
}

/// The capital of a lower-case ASCII letter; any other character is its own.
pub open spec fn ascii_upper(c: char) -> char {
    if 'a' <= c <= 'z' {
        (c as int - 32) as char
    } else {
        c
    }
}

/// The capital of a lower-case ASCII letter; any other character is its own.
pub fn to_ascii_upper(c: char) -> (r: char)
    ensures
        r == ascii_upper(c),
{
    if 'a' <= c && c <= 'z' {
        let x: u8 = c as u8;
        (x - 32) as char
    } else {
        c
    }
}

/// `camelCase` spelling of a `snake_case` key from place `i` on: underscores
/// go, and the letter behind them is a capital.
pub open spec fn camel_from(s: Seq<char>, i: int, up: bool) -> Seq<char>
    decreases s.len() - i,
{
    if i < 0 || i >= s.len() {
        Seq::empty()
    } else if s[i] == '_' {
        camel_from(s, i + 1, true)
    } else {
        seq![
            if up {
                ascii_upper(s[i])
            } else {
                s[i]
            },
        ] + camel_from(s, i + 1, false)
    }
}

/// `camelCase` spelling of a `snake_case` key.
pub open spec fn camel(s: Seq<char>) -> Seq<char> {
    camel_from(s, 0, false)
}

/// `camelCase` spelling of a `snake_case` key.
pub fn snake_to_camel(s: &str) -> (r: String)
    ensures
        r@ == camel(s@),
{
    let n: usize = s.unicode_len();
    let mut out: String = String::new();
    let mut up: bool = false;
    let mut i: usize = 0;
    assert(Seq::<char>::empty() + camel(s@) =~= camel(s@));
    while i < n
        invariant
            n == s@.len(),
            i <= n,
            out@ + camel_from(s@, i as int, up) == camel(s@),
        decreases n - i,
    {
        let c: char = s.get_char(i);
        let ghost before = out@;
        let ghost was_up = up;
        if c == '_' {
            up = true;
        } else if up {
            out.push(to_ascii_upper(c));
            up = false;
        } else {
            out.push(c);
        }
        proof {
            assert(out@ + camel_from(s@, i + 1, up) =~= before + camel_from(s@, i as int, was_up));
        }
        i = i + 1;
    }
    assert(out@ + Seq::<char>::empty() =~= out@);
    out
}

/// A key without underscores is its own `camelCase` spelling.
pub proof fn camel_keeps_plain_keys(s: Seq<char>)
    requires
        forall|i: int| 0 <= i < s.len() ==> #[trigger] s[i] != '_',
    ensures
        camel(s) == s,
{
    lemma_camel_suffix(s, 0);
    assert(s.skip(0) =~= s);
}

proof fn lemma_camel_suffix(s: Seq<char>, i: int)
    requires
        0 <= i <= s.len(),
        forall|j: int| 0 <= j < s.len() ==> #[trigger] s[j] != '_',
    ensures
        camel_from(s, i, false) == s.skip(i),
    decreases s.len() - i,
{
    if i < s.len() {
        lemma_camel_suffix(s, i + 1);
        assert(s.skip(i) =~= seq![s[i]] + s.skip(i + 1));
    } else {
        assert(s.skip(i) =~= Seq::<char>::empty());
    }
}

/// No `camelCase` spelling holds an underscore.
pub proof fn camel_has_no_underscore(s: Seq<char>, k: int)
    requires
        0 <= k < camel(s).len(),
    ensures
        camel(s)[k] != '_',
{
    lemma_camel_from_has_no_underscore(s, 0, false, k);
}

proof fn lemma_camel_from_has_no_underscore(s: Seq<char>, i: int, up: bool, k: int)
    requires
        0 <= k < camel_from(s, i, up).len(),
    ensures
        camel_from(s, i, up)[k] != '_',
    decreases s.len() - i,
{
    if 0 <= i < s.len() {
        if s[i] == '_' {
            lemma_camel_from_has_no_underscore(s, i + 1, true, k);
        } else if k > 0 {
            lemma_camel_from_has_no_underscore(s, i + 1, false, k - 1);
        }
    }
}

/// Reading a number that was written out gives it back.
pub proof fn number_in_decimal(n: u64)
    ensures
        number_in(decimal(n as nat)) == Some(n),
{
    lemma_decimal_digits(n as nat);
    assert(is_digit(decimal(n as nat)[0]));
}

/// The digits of a number are digits and stand for it.
pub proof fn lemma_decimal_digits(n: nat)
    ensures
        decimal(n).len() > 0,
        all_digits(decimal(n)),
        numeral(decimal(n)) == n,
    decreases n,
{
    if n >= 10 {
        lemma_decimal_digits(n / 10);
        let s = decimal(n / 10);
        assert(s.push(digit(n % 10)).drop_last() =~= s);
    } else {
        let s = seq![digit(n)];
        assert(s.drop_last() =~= Seq::<char>::empty());
        assert(numeral(s.drop_last()) == 0);
        assert(numeral(s) == n);
    }
}

/// A quantity with one decimal.
pub open spec fn one_decimal(m: Micro) -> Seq<char> {
    let t = crate::fixed::rounded(m as int, 100_000);
    if t < 0 {
        seq!['-'] + decimal((-t) as nat / 10) + "."@ + decimal((-t) as nat % 10)
    } else {
        decimal(t as nat / 10) + "."@ + decimal(t as nat % 10)
    }
}

/// Appends a quantity with one decimal.
pub fn push_one_decimal(s: &mut String, m: Micro)
    ensures
        final(s)@ == old(s)@ + one_decimal(m),
{
    let t: i64 = round_to(m, 100_000);
    let ghost before = s@;
    let size: u64 = if t < 0 {
        s.push('-');
        (-(t as i128)) as u64
    } else {
        t as u64
    };
    push_decimal(s, size / 10);
    s.append(".");
    push_decimal(s, size % 10);
    assert(s@ =~= before + one_decimal(m));
}

/// Whether a text begins with another.
pub fn begins_with(s: &str, head: &str) -> (r: bool)
    ensures
        r == head@.is_prefix_of(s@),
{
    let n: usize = head.unicode_len();
    if s.unicode_len() < n {
        return false;
    }
    let mut i: usize = 0;
    while i < n
        invariant
            n == head@.len(),
            n <= s@.len(),
            i <= n,
            forall|k: int| 0 <= k < i ==> #[trigger] s@[k] == head@[k],
        decreases n - i,
    {
        if s.get_char(i) != head.get_char(i) {
            assert(head@ != s@.take(n as int)) by {
                assert(s@.take(n as int)[i as int] == s@[i as int]);
            }
            return false;
        }
        i = i + 1;
    }
    assert(head@ =~= s@.take(n as int));
    true
}

/// A text with spaces in front, up to a width.
pub open spec fn padded_left(s: Seq<char>, width: nat) -> Seq<char> {
    if s.len() < width {
        Seq::new((width - s.len()) as nat, |i: int| ' ') + s
    } else {
        s
    }
}

/// A text with spaces behind, up to a width.
pub open spec fn padded_right(s: Seq<char>, width: nat) -> Seq<char> {
    if s.len() < width {
        s + Seq::new((width - s.len()) as nat, |i: int| ' ')
    } else {
        s
    }
}

fn push_spaces(s: &mut String, n: usize)
    ensures
        final(s)@ == old(s)@ + Seq::new(n as nat, |i: int| ' '),
{
    let ghost before = s@;
    let mut i: usize = 0;
    assert(s@ =~= before + Seq::new(0, |i: int| ' '));
    while i < n
        invariant
            i <= n,
            s@ == before + Seq::new(i as nat, |i: int| ' '),
        decreases n - i,
    {
        s.push(' ');
        assert(s@ =~= before + Seq::new((i + 1) as nat, |i: int| ' '));
        i = i + 1;
    }
}

/// Appends a text with spaces in front, up to a width.
pub fn push_padded_left(s: &mut String, text: &str, width: usize)
    ensures
        final(s)@ == old(s)@ + padded_left(text@, width as nat),
{
    let ghost before = s@;
    let n: usize = text.unicode_len();
    if n < width {
        push_spaces(s, width - n);
    }
    s.append(text);
    assert(s@ =~= before + padded_left(text@, width as nat));
}

/// Appends a text with spaces behind, up to a width.
pub fn push_padded_right(s: &mut String, text: &str, width: usize)
    ensures
        final(s)@ == old(s)@ + padded_right(text@, width as nat),
{
    let ghost before = s@;
    let n: usize = text.unicode_len();
    s.append(text);
    if n < width {
        push_spaces(s, width - n);
    }
    assert(s@ =~= before + padded_right(text@, width as nat));
}

/// Sixteen ways a digit can look.
pub open spec fn hex_digit(d: nat) -> char {
    if d < 10 {
        (48 + d) as char
    } else {
        (87 + d) as char
    }
}

/// The `n` lowest hexadecimal digits of a number.
pub open spec fn hex(x: nat, n: nat) -> Seq<char>
    decreases n,
{
    if n == 0 {
        Seq::empty()
    } else {
        hex(x / 16, (n - 1) as nat).push(hex_digit(x % 16))
    }
}

/// Appends the `n` lowest hexadecimal digits of a number.
pub fn push_hex(s: &mut String, x: u32, n: u32)
    ensures
        final(s)@ == old(s)@ + hex(x as nat, n as nat),
    decreases n,
{
    let ghost before = s@;
    if n > 0 {
        push_hex(s, x / 16, n - 1);
        let d: u8 = (x % 16) as u8;
        let c: char = if d < 10 {
            (48 + d) as char
        } else {
            (87 + d) as char
        };
        s.push(c);
    }
    assert(s@ =~= before + hex(x as nat, n as nat));
}

/// The lower-case form of a text, as Unicode has it.
pub uninterp spec fn lower_text(s: Seq<char>) -> Seq<char>;

/// The small form of an ASCII capital; any other character is its own.
pub open spec fn ascii_lower(c: char) -> char {
    if 'A' <= c <= 'Z' {
        (c as int + 32) as char
    } else {
        c
    }
}

/// `str::to_lowercase` depends on the characters alone. Of a text that is all
/// ASCII, each capital becomes its small letter and nothing else changes.
pub assume_specification[ str::to_lowercase ](s: &str) -> (r: String)
    ensures
        r@ == lower_text(s@),
        s.is_ascii() ==> r@ == s@.map_values(|c: char| ascii_lower(c)),
;

/// The capital form of a text, as Unicode has it.
pub uninterp spec fn upper_text(s: Seq<char>) -> Seq<char>;

/// `str::to_uppercase` depends on the characters alone. Of a text that is all
/// ASCII, each small letter becomes its capital and nothing else changes.
pub assume_specification[ str::to_uppercase ](s: &str) -> (r: String)
    ensures
        r@ == upper_text(s@),
        s.is_ascii() ==> r@ == s@.map_values(|c: char| ascii_upper(c)),
;

/// A quantity with one decimal: its sign, whole units, a point, and one digit, which
/// together are no more than half a tenth off.
pub proof fn one_decimal_is_half_a_tenth_off_at_most(m: Micro) -> (parts: (nat, nat))
    requires
        m >= 0,
    ensures
        ({
            let (units, tenth) = parts;
            &&& tenth < 10
            &&& one_decimal(m) == decimal(units) + "."@ + seq![digit(tenth)]
            &&& -50_000 <= m - (10 * units + tenth) * 100_000 <= 50_000
        }),
{
    crate::fixed::rounding_is_half_a_unit_off_at_most(m as int, 100_000);
    let t = crate::fixed::rounded(m as int, 100_000);
    assert(t >= 0);
    ((t / 10) as nat, (t % 10) as nat)
}

/// A quantity below zero is that of its size behind a minus sign, but for one that rounds
/// to nothing.
pub proof fn one_decimal_has_its_sign(m: Micro)
    requires
        i64::MIN < m < -50_000,
    ensures
        one_decimal(m) == seq!['-'] + one_decimal((-m) as i64),
{
    crate::fixed::rounding_is_half_a_unit_off_at_most(m as int, 100_000);
    crate::fixed::rounding_is_half_a_unit_off_at_most(-m, 100_000);
    let a = crate::fixed::rounded(m as int, 100_000);
    let b = crate::fixed::rounded(-m, 100_000);
    assert(a == -b);
    assert(b > 0);
    assert(one_decimal(m) =~= seq!['-'] + one_decimal((-m) as i64));
}

/// A padded text is as wide as it is asked to be, or as wide as it was, and the text
/// stands at its end or at its beginning with nothing but spaces beside it.
pub proof fn padding_adds_spaces_only(s: Seq<char>, width: nat)
    ensures
        padded_left(s, width).len() == if s.len() < width {
            width
        } else {
            s.len()
        },
        padded_right(s, width).len() == padded_left(s, width).len(),
        padded_left(s, width).skip(padded_left(s, width).len() - s.len()) == s,
        padded_right(s, width).take(s.len() as int) == s,
        forall|i: int|
            0 <= i < padded_left(s, width).len() - s.len() ==> #[trigger] padded_left(s, width)[i]
                == ' ',
        forall|i: int|
            s.len() <= i < padded_right(s, width).len() ==> #[trigger] padded_right(s, width)[i]
                == ' ',
{
    assert(padded_left(s, width).skip(padded_left(s, width).len() - s.len()) =~= s);
    assert(padded_right(s, width).take(s.len() as int) =~= s);
}

/// What a hexadecimal digit stands for.
pub open spec fn hex_value(c: char) -> int {
    if '0' <= c <= '9' {
        c as int - '0' as int
    } else {
        c as int - 'a' as int + 10
    }
}

/// What a row of hexadecimal digits stands for.
pub open spec fn hex_numeral(s: Seq<char>) -> int
    decreases s.len(),
{
    if s.len() == 0 {
        0
    } else {
        16 * hex_numeral(s.drop_last()) + hex_value(s.last())
    }
}

/// How many numbers `n` hexadecimal digits can stand for.
pub open spec fn hex_room(n: nat) -> int
    decreases n,
{
    if n == 0 {
        1
    } else {
        16 * hex_room((n - 1) as nat)
    }
}

/// The hexadecimal digits of a number that they have room for stand for that number.
pub proof fn hex_stands_for_its_number(x: nat, n: nat)
    requires
        x < hex_room(n),
    ensures
        hex(x, n).len() == n,
        hex_numeral(hex(x, n)) == x,
    decreases n,
{
    if n > 0 {
        let front = hex(x / 16, (n - 1) as nat);
        hex_stands_for_its_number(x / 16, (n - 1) as nat);
        assert(front.push(hex_digit(x % 16)).drop_last() =~= front);
    }
}

proof fn lemma_camel_shift(s: Seq<char>, k: int, i: int, up: bool)
    requires
        0 <= k,
        k <= i <= s.len(),
    ensures
        camel_from(s, i, up) == camel_from(s.skip(k), i - k, up),
    decreases s.len() - i,
{
    if i < s.len() {
        assert(s.skip(k)[i - k] == s[i]);
        lemma_camel_shift(s, k, i + 1, true);
        lemma_camel_shift(s, k, i + 1, false);
    }
}

proof fn lemma_camel_word(s: Seq<char>, i: int, n: int)
    requires
        0 <= i <= n <= s.len(),
        forall|j: int| i <= j < n ==> #[trigger] s[j] != '_',
    ensures
        camel_from(s, i, false) == s.subrange(i, n) + camel_from(s, n, false),
    decreases n - i,
{
    if i < n {
        lemma_camel_word(s, i + 1, n);
        assert(s.subrange(i, n) =~= seq![s[i]] + s.subrange(i + 1, n));
        assert(camel_from(s, i, false) =~= s.subrange(i, n) + camel_from(s, n, false));
    } else {
        assert(s.subrange(i, n) =~= Seq::<char>::empty());
        assert(camel_from(s, i, false) =~= s.subrange(i, n) + camel_from(s, n, false));
    }
}

/// Two words that an underscore joins are spelled in one: the first as it is, the second
/// with a capital where it begins with a small letter, and what follows like a key of its
/// own.
pub proof fn a_joined_word_begins_with_a_capital(word: Seq<char>, c: char, rest: Seq<char>)
    requires
        forall|i: int| 0 <= i < word.len() ==> #[trigger] word[i] != '_',
        c != '_',
    ensures
        ({
            let s = camel(word + seq!['_', c] + rest);
            &&& s.len() == word.len() + 1 + camel(rest).len()
            &&& s.take(word.len() as int) == word
            &&& s.skip((word.len() + 1) as int) == camel(rest)
            &&& 'a' <= c <= 'z' ==> s[word.len() as int] as int == c as int - 'a' as int
                + 'A' as int
            &&& !('a' <= c <= 'z') ==> s[word.len() as int] == c
        }),
{
    let whole = word + seq!['_', c] + rest;
    let n = word.len() as int;
    assert forall|j: int| 0 <= j < n implies #[trigger] whole[j] != '_' by {
        assert(whole[j] == word[j]);
    }
    lemma_camel_word(whole, 0, n);
    lemma_camel_shift(whole, n + 2, n + 2, false);
    assert(whole.skip(n + 2) =~= rest);
    assert(whole[n] == '_');
    assert(whole[n + 1] == c);
    assert(whole.subrange(0, n) =~= word);
    let s = camel(whole);
    assert(camel_from(whole, n, false) == camel_from(whole, n + 1, true));
    assert(camel_from(whole, n + 1, true) == seq![ascii_upper(c)] + camel_from(
        whole,
        n + 2,
        false,
    ));
    assert(s =~= word + (seq![ascii_upper(c)] + camel(rest)));
    assert(s.take(n) =~= word);
    assert(s.skip(n + 1) =~= camel(rest));
}

/// A number may stand behind a plus sign, and a text that is empty or holds anything but
/// digits behind it is none.
pub proof fn only_digits_make_a_number(s: Seq<char>)
    ensures
        s.len() == 0 ==> number_in(s) is None,
        s.len() > 0 && s[0] != '+' ==> number_in(seq!['+'] + s) == number_in(s),
        (exists|i: int| 1 <= i < s.len() && !is_digit(#[trigger] s[i])) ==> number_in(s) is None,
{
    let t = seq!['+'] + s;
    assert(t.skip(1) =~= s);
    if exists|i: int| 1 <= i < s.len() && !is_digit(#[trigger] s[i]) {
        let i = choose|i: int| 1 <= i < s.len() && !is_digit(#[trigger] s[i]);
        let d = unsigned_part(s);
        if s[0] == '+' {
            assert(d[i - 1] == s[i]);
        } else {
            assert(d[i] == s[i]);
        }
    }
}

} // verus!
