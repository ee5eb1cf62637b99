use unicode_width::UnicodeWidthStr;
use vstd::prelude::*;

verus! {

/// A sequence made of `n` copies of `s`, one after the other.
pub open spec fn seq_repeat(s: Seq<char>, n: nat) -> Seq<char>
    decreases n,
{
    if n == 0 {
        Seq::empty()
    } else {
        seq_repeat(s, (n - 1) as nat) + s
    }
}

/// Appends one character to a string (`String::push`).
#[verifier::external_body]
pub(crate) fn push_char(s: &mut String, c: char)
    ensures
        final(s)@ == old(s)@.push(c),
{
    s.push(c);
}

/// `s` written `n` times in a row (`str::repeat`).
pub fn repeat_str(s: &str, n: usize) -> (r: String)
    ensures
        r@ == seq_repeat(s@, n as nat),
{
    let mut r = String::new();
    let mut i: usize = 0;
    while i < n
        invariant
            i <= n,
            r@ == seq_repeat(s@, i as nat),
        decreases n - i,
    {
        r.append(s);
        i = i + 1;
    }
    r
}

/// A sequence of `n` blanks.
pub open spec fn spaces(n: nat) -> Seq<char> {
    Seq::new(n, |i: int| ' ')
}

/// The number of terminal columns a text takes, as `unicode_width` measures it.
pub uninterp spec fn display_width(s: Seq<char>) -> nat;

/// `UnicodeWidthStr::width`: the number of terminal columns `s` takes. The
/// contract claims only that the result is `display_width` of the text; the
/// width tables of `unicode_width` are not restated here.
#[verifier::external_body]
pub(crate) fn str_width(s: &str) -> (w: usize)
    ensures
        w as nat == display_width(s@),
{
    s.width()
}

/// `s` followed by blanks up to `total_width` columns; `s` itself when it is
/// already that wide.
pub open spec fn padded(s: Seq<char>, total_width: nat) -> Seq<char> {
    if display_width(s) >= total_width {
        s
    } else {
        s + spaces((total_width - display_width(s)) as nat)
    }
}

/// Appends `n` blanks.
pub fn push_spaces(r: &mut String, n: usize)
    ensures
        final(r)@ == old(r)@ + spaces(n as nat),
{
    let ghost start = r@;
    let mut i: usize = 0;
    while i < n
        invariant
            i <= n,
            r@ == start + spaces(i as nat),
        decreases n - i,
    {
        push_char(r, ' ');
        proof {
            assert(start + spaces((i + 1) as nat) =~= start + spaces(i as nat) + seq![' ']);
        }
        i = i + 1;
    }
}

pub fn pad_string_to_width(s: &str, total_width: usize) -> (r: String)
    ensures
        r@ == padded(s@, total_width as nat),
{
    let current_width = str_width(s);
    if current_width >= total_width {
        s.to_string()
    } else {
        let padding = total_width - current_width;
        let mut r = s.to_string();
        push_spaces(&mut r, padding);
        r
    }
}

/// `s` centred among blanks in `width` characters, as `{:^width}` lays it
/// out: half the blanks on the left, the odd one on the right; `s` itself
/// when it already has that many characters.
pub open spec fn centered(s: Seq<char>, width: nat) -> Seq<char> {
    if s.len() >= width {
        s
    } else {
        let pad = (width - s.len()) as nat;
        spaces(pad / 2) + s + spaces((pad - pad / 2) as nat)
    }
}

/// `s` centred in `width` characters.
pub fn center_in(s: &str, width: usize) -> (r: String)
    ensures
        r@ == centered(s@, width as nat),
{
    let len = s.unicode_len();
    if len >= width {
        s.to_string()
    } else {
        let pad = width - len;
        let mut r = String::new();
        push_spaces(&mut r, pad / 2);
        r.append(s);
        push_spaces(&mut r, pad - pad / 2);
        proof {
            assert(spaces(0) =~= Seq::<char>::empty());
            assert(r@ =~= centered(s@, width as nat));
        }
        r
    }
}

/// The decimal digits of `n`, most significant first; empty for zero.
pub open spec fn decimal_digits(n: nat) -> Seq<nat>
    decreases n,
{
    if n == 0 {
        Seq::empty()
    } else {
        decimal_digits(n / 10).push(n % 10)
    }
}

/// The superscript or subscript glyph of a digit.
pub open spec fn digit_glyph(d: nat, sub: bool) -> char {
    if sub {
        if d == 0 { '₀' } else if d == 1 { '₁' } else if d == 2 { '₂' } else if d == 3 { '₃' }
        else if d == 4 { '₄' } else if d == 5 { '₅' } else if d == 6 { '₆' } else if d == 7 { '₇' }
        else if d == 8 { '₈' } else { '₉' }
    } else {
        if d == 0 { '⁰' } else if d == 1 { '¹' } else if d == 2 { '²' } else if d == 3 { '³' }
        else if d == 4 { '⁴' } else if d == 5 { '⁵' } else if d == 6 { '⁶' } else if d == 7 { '⁷' }
        else if d == 8 { '⁸' } else { '⁹' }
    }
}

/// A number written with subscript (`sub`) or superscript digits: a raised or
/// lowered minus sign for negative numbers, then the digits without leading zeros.
pub open spec fn styled_number(num: int, sub: bool) -> Seq<char> {
    if num == 0 {
        seq![digit_glyph(0, sub)]
    } else {
        let sign = if num < 0 { seq![if sub { '₋' } else { '⁻' }] } else { Seq::empty() };
        let magnitude: nat = if num < 0 { (-num) as nat } else { num as nat };
        sign + decimal_digits(magnitude).map_values(|d: nat| digit_glyph(d, sub))
    }
}

/// A number is written digit by digit in subscript (`₀` to `₉`) or
/// superscript (`⁰` to `⁹`): one more digit on the right is one more glyph at
/// the end, a negative number is its magnitude after a lowered or raised
/// minus sign, and zero is the one glyph of 0.
pub proof fn lemma_styled_number_digits(q: int, r: int, sub: bool)
    requires
        q > 0,
        0 <= r < 10,
    ensures
        digit_glyph(0, true) == '₀' && digit_glyph(0, false) == '⁰',
        digit_glyph(1, true) == '₁' && digit_glyph(1, false) == '¹',
        digit_glyph(2, true) == '₂' && digit_glyph(2, false) == '²',
        digit_glyph(3, true) == '₃' && digit_glyph(3, false) == '³',
        digit_glyph(4, true) == '₄' && digit_glyph(4, false) == '⁴',
        digit_glyph(5, true) == '₅' && digit_glyph(5, false) == '⁵',
        digit_glyph(6, true) == '₆' && digit_glyph(6, false) == '⁶',
        digit_glyph(7, true) == '₇' && digit_glyph(7, false) == '⁷',
        digit_glyph(8, true) == '₈' && digit_glyph(8, false) == '⁸',
        digit_glyph(9, true) == '₉' && digit_glyph(9, false) == '⁹',
        styled_number(0, sub) == seq![if sub { '₀' } else { '⁰' }],
        r > 0 ==> styled_number(r, sub) == seq![digit_glyph(r as nat, sub)],
        styled_number(10 * q + r, sub) == styled_number(q, sub).push(digit_glyph(r as nat, sub)),
        styled_number(-q, sub) == seq![if sub { '₋' } else { '⁻' }] + styled_number(q, sub),
{
    let n = (10 * q + r) as nat;
    assert(n / 10 == q && n % 10 == r) by (nonlinear_arith)
        requires
            n == 10 * q + r,
            0 <= r < 10,
    ;
    assert(decimal_digits(n) == decimal_digits(q as nat).push(r as nat));
    assert(decimal_digits(n).map_values(|d: nat| digit_glyph(d, sub)) =~= decimal_digits(q as nat).map_values(
        |d: nat| digit_glyph(d, sub),
    ).push(digit_glyph(r as nat, sub)));
    if r > 0 {
        assert(decimal_digits(r as nat) =~= decimal_digits(0).push(r as nat));
        assert(decimal_digits(r as nat).map_values(|d: nat| digit_glyph(d, sub)) =~= seq![digit_glyph(r as nat, sub)]);
    }
}

fn digit_char(d: u32, sub: bool) -> (c: char)
    requires
        d < 10,
    ensures
        c == digit_glyph(d as nat, sub),
{
    if sub {
        match d {
            0 => '₀', 1 => '₁', 2 => '₂', 3 => '₃', 4 => '₄',
            5 => '₅', 6 => '₆', 7 => '₇', 8 => '₈', _ => '₉',
        }
    } else {
        match d {
            0 => '⁰', 1 => '¹', 2 => '²', 3 => '³', 4 => '⁴',
            5 => '⁵', 6 => '⁶', 7 => '⁷', 8 => '⁸', _ => '⁹',
        }
    }
}

pub fn style_number(num: i32, sub: bool) -> (r: String)
    requires
        num != i32::MIN,
    ensures
        r@ == styled_number(num as int, sub),
{
    let mut result = String::new();
    if num == 0 {
        push_char(&mut result, digit_char(0, sub));
        return result;
    }
    let mut n: u32;
    if num < 0 {
        push_char(&mut result, if sub { '₋' } else { '⁻' });
        n = (-num) as u32;
    } else {
        n = num as u32;
    }
    let ghost magnitude: nat = n as nat;
    let ghost sign = result@;
    // Digits from the least significant one.
    let mut low: Vec<u32> = Vec::new();
    while n > 0
        invariant
            forall|k: int| 0 <= k < low.len() ==> low[k] < 10,
            decimal_digits(magnitude) == decimal_digits(n as nat) + low@.reverse().map_values(|d: u32| d as nat),
        decreases n,
    {
        let d = n % 10;
        proof {
            let prev = low@.reverse().map_values(|d: u32| d as nat);
            let next = low@.push(d).reverse().map_values(|d: u32| d as nat);
            assert(next =~= seq![d as nat] + prev);
            assert(decimal_digits(n as nat) == decimal_digits((n / 10) as nat).push((n % 10) as nat));
            assert(decimal_digits(n as nat) + prev =~= decimal_digits((n / 10) as nat) + next);
        }
        low.push(d);
        n = n / 10;
    }
    let ghost digits = low@.reverse().map_values(|d: u32| d as nat);
    assert(decimal_digits(magnitude) =~= digits);
    let mut i = low.len();
    while i > 0
        invariant
            i <= low.len(),
            forall|k: int| 0 <= k < low.len() ==> low[k] < 10,
            digits == low@.reverse().map_values(|d: u32| d as nat),
            result@ == sign + digits.subrange(0, low.len() - i).map_values(|d: nat| digit_glyph(d, sub)),
        decreases i,
    {
        i = i - 1;
        let c = digit_char(low[i], sub);
        proof {
            let k = low.len() - i;
            assert(digits[k - 1] == low[i as int] as nat);
            assert(digits.subrange(0, k).map_values(|d: nat| digit_glyph(d, sub))
                =~= digits.subrange(0, k - 1).map_values(|d: nat| digit_glyph(d, sub)).push(c));
        }
        push_char(&mut result, c);
    }
    assert(digits.subrange(0, low.len() as int) =~= digits);
    result
}

/// Whether two texts are the same, character by character.
pub fn str_equal(a: &str, b: &str) -> (r: bool)
    ensures
        r == (a@ == b@),
{
    let n = a.unicode_len();
    if n != b.unicode_len() {
        return false;
    }
    let mut i: usize = 0;
    while i < n
        invariant
            i <= n,
            n == a@.len(),
            n == b@.len(),
            forall|k: int| 0 <= k < i ==> a@[k] == b@[k],
        decreases n - i,
    {
        if a.get_char(i) != b.get_char(i) {
            return false;
        }
        i = i + 1;
    }
    assert(a@ =~= b@);
    true
}

/// The character of a decimal digit.
pub open spec fn ascii_digit(d: nat) -> char {
    if d == 0 { '0' } else if d == 1 { '1' } else if d == 2 { '2' } else if d == 3 { '3' }
    else if d == 4 { '4' } else if d == 5 { '5' } else if d == 6 { '6' } else if d == 7 { '7' }
    else if d == 8 { '8' } else { '9' }
}

/// A number written in decimal, as `{}` writes it.
pub open spec fn decimal_text(n: nat) -> Seq<char> {
    if n == 0 {
        seq!['0']
    } else {
        decimal_digits(n).map_values(|d: nat| ascii_digit(d))
    }
}

fn ascii_digit_char(d: u64) -> (c: char)
    requires
        d < 10,
    ensures
        c == ascii_digit(d as nat),
{
    match d {
        0 => '0', 1 => '1', 2 => '2', 3 => '3', 4 => '4',
        5 => '5', 6 => '6', 7 => '7', 8 => '8', _ => '9',
    }
}

/// Appends a number in decimal.
pub fn push_decimal(r: &mut String, num: u64)
    ensures
        final(r)@ == old(r)@ + decimal_text(num as nat),
{
    if num == 0 {
        push_char(r, '0');
        return;
    }
    let ghost start = r@;
    let mut n = num;
    let mut low: Vec<u64> = Vec::new();
    while n > 0
        invariant
            forall|k: int| 0 <= k < low.len() ==> low[k] < 10,
            decimal_digits(num as nat) == decimal_digits(n as nat) + low@.reverse().map_values(|d: u64| d as nat),
        decreases n,
    {
        let d = n % 10;
        proof {
            let prev = low@.reverse().map_values(|d: u64| d as nat);
            let next = low@.push(d).reverse().map_values(|d: u64| d as nat);
            assert(next =~= seq![d as nat] + prev);
            assert(decimal_digits(n as nat) == decimal_digits((n / 10) as nat).push((n % 10) as nat));
            assert(decimal_digits(n as nat) + prev =~= decimal_digits((n / 10) as nat) + next);
        }
        low.push(d);
        n = n / 10;
    }
    let ghost digits = low@.reverse().map_values(|d: u64| d as nat);
    assert(decimal_digits(num as nat) =~= digits);
    let mut i = low.len();
    while i > 0
        invariant
            i <= low.len(),
            forall|k: int| 0 <= k < low.len() ==> low[k] < 10,
            digits == low@.reverse().map_values(|d: u64| d as nat),
            r@ == start + digits.subrange(0, low.len() - i).map_values(|d: nat| ascii_digit(d)),
        decreases i,
    {
        i = i - 1;
        let c = ascii_digit_char(low[i]);
        proof {
            let k = low.len() - i;
            assert(digits[k - 1] == low[i as int] as nat);
            assert(digits.subrange(0, k).map_values(|d: nat| ascii_digit(d))
                =~= digits.subrange(0, k - 1).map_values(|d: nat| ascii_digit(d)).push(c));
        }
        push_char(r, c);
    }
    assert(digits.subrange(0, low.len() as int) =~= digits);
}

/// `s` followed by blanks up to `n` characters, as `{: <n}` writes it.
pub open spec fn left_aligned(s: Seq<char>, n: nat) -> Seq<char> {
    if s.len() >= n {
        s
    } else {
        s + spaces((n - s.len()) as nat)
    }
}

/// Blanks and then `s`, `n` characters in all, as `{: >n}` writes it.
pub open spec fn right_aligned(s: Seq<char>, n: nat) -> Seq<char> {
    if s.len() >= n {
        s
    } else {
        spaces((n - s.len()) as nat) + s
    }
}

/// Appends `s` aligned to the left in `n` characters.
pub fn push_left_aligned(r: &mut String, s: &str, n: usize)
    ensures
        final(r)@ == old(r)@ + left_aligned(s@, n as nat),
{
    let len = s.unicode_len();
    r.append(s);
    if len < n {
        push_spaces(r, n - len);
    }
    assert(final(r)@ =~= old(r)@ + left_aligned(s@, n as nat));
}

/// Appends `s` aligned to the right in `n` characters.
pub fn push_right_aligned(r: &mut String, s: &str, n: usize)
    ensures
        final(r)@ == old(r)@ + right_aligned(s@, n as nat),
{
    let len = s.unicode_len();
    if len < n {
        push_spaces(r, n - len);
    }
    r.append(s);
    assert(final(r)@ =~= old(r)@ + right_aligned(s@, n as nat));
}

/// The value of a decimal digit character, if it is one.
pub open spec fn digit_value(c: char) -> Option<nat> {
    if '0' <= c && c <= '9' {
        Some((c as nat - '0' as nat) as nat)
    } else {
        None
    }
}

/// What `usize::from_str` makes of a two-character text, or 0 where it fails
/// (`parse::<usize>().unwrap_or_default()`): an optional plus sign, then digits.
pub open spec fn two_char_number(t: Seq<char>) -> nat {
    match (digit_value(t[0]), digit_value(t[1])) {
        (Some(a), Some(b)) => 10 * a + b,
        (None, Some(b)) => if t[0] == '+' { b } else { 0 },
        _ => 0,
    }
}

fn digit_of(c: char) -> (r: Option<u64>)
    ensures
        r matches Some(v) ==> digit_value(c) == Some(v as nat),
        r is None ==> digit_value(c) is None,
{
    if '0' <= c && c <= '9' {
        Some((c as u32 - '0' as u32) as u64)
    } else {
        None
    }
}

/// The number written at characters `from` and `from + 1` of a text.
pub fn parse_two_chars(s: &str, from: usize) -> (r: usize)
    requires
        from + 2 <= s@.len(),
    ensures
        r == two_char_number(s@.subrange(from as int, from + 2)),
        r < 100,
{
    let n = s.unicode_len();
    assert(from + 1 < n);
    let a = s.get_char(from);
    let b = s.get_char(from + 1);
    match (digit_of(a), digit_of(b)) {
        (Some(x), Some(y)) => (10 * x + y) as usize,
        (None, Some(y)) => if a == '+' { y as usize } else { 0 },
        _ => 0,
    }
}

} // verus!
