//! Building the sentences the screens state: decimal numbers, percentages
//! from basis points, counted nouns, joined lists, calendar dates, and the
//! text a search is read as (trimmed, lowercased).

use vstd::prelude::*;

verus! {

/// Appends one character to a string (`String::push`).
#[verifier::external_body]
pub(crate) fn push_char(s: &mut String, c: char)
    ensures
        final(s)@ == old(s)@.push(c),
{
    s.push(c);
}

/// The character of one decimal digit.
pub open spec fn digit_char(d: int) -> char {
    if d == 0 { '0' }
    else if d == 1 { '1' }
    else if d == 2 { '2' }
    else if d == 3 { '3' }
    else if d == 4 { '4' }
    else if d == 5 { '5' }
    else if d == 6 { '6' }
    else if d == 7 { '7' }
    else if d == 8 { '8' }
    else { '9' }
}

/// The decimal digits of a natural number, most significant first, with no
/// leading zero (zero itself is `0`).
pub open spec fn decimal(n: nat) -> Seq<char>
    decreases n,
{
    if n < 10 {
        seq![digit_char(n as int)]
    } else {
        decimal(n / 10).push(digit_char((n % 10) as int))
    }
}

fn digit(d: u64) -> (c: char)
    requires
        d < 10,
    ensures
        c == digit_char(d as int),
{
    if d == 0 { '0' }
    else if d == 1 { '1' }
    else if d == 2 { '2' }
    else if d == 3 { '3' }
    else if d == 4 { '4' }
    else if d == 5 { '5' }
    else if d == 6 { '6' }
    else if d == 7 { '7' }
    else if d == 8 { '8' }
    else { '9' }
}

/// Appends the decimal digits of `n`.
pub fn push_decimal(s: &mut String, n: u64)
    ensures
        final(s)@ == old(s)@ + decimal(n as nat),
    decreases n,
{
    if n >= 10 {
        push_decimal(s, n / 10);
    }
    push_char(s, digit(n % 10));
    proof {
        assert(old(s)@ + decimal((n / 10) as nat) + seq![digit_char((n % 10) as int)]
            =~= old(s)@ + decimal((n / 10) as nat).push(digit_char((n % 10) as int)));
    }
}

/// The decimal text of a count.
pub fn decimal_text(n: u64) -> (r: String)
    ensures
        r@ == decimal(n as nat),
{
    let mut s = String::new();
    push_decimal(&mut s, n);
    proof { assert(Seq::<char>::empty() + decimal(n as nat) =~= decimal(n as nat)); }
    s
}

/// The decimal text of a signed number: a minus sign before the digits of a
/// negative one.
pub open spec fn signed_decimal(n: int) -> Seq<char> {
    if n < 0 { "-"@ + decimal((-n) as nat) } else { decimal(n as nat) }
}

/// Appends the decimal text of a signed number.
pub fn push_signed(s: &mut String, n: i64)
    ensures
        final(s)@ == old(s)@ + signed_decimal(n as int),
{
    if n < 0 {
        push_char(s, '-');
        let wide: i128 = n as i128;
        let magnitude: u64 = (-wide) as u64;
        push_decimal(s, magnitude);
        proof {
            assert(old(s)@.push('-') + decimal(magnitude as nat) =~= old(s)@ + ("-"@ + decimal((-n) as nat))) by {
                reveal_strlit("-");
            }
        }
    } else {
        push_decimal(s, n as u64);
    }
}

/// Appends text to a string.
pub fn push_str(s: &mut String, t: &str)
    ensures
        final(s)@ == old(s)@ + t@,
{
    s.append(t);
}

/// `1 person`, `3 people`: a count with the noun that agrees with it.
pub open spec fn counted(n: nat, one: Seq<char>, many: Seq<char>) -> Seq<char> {
    if n == 1 {
        "1 "@ + one
    } else {
        decimal(n) + " "@ + many
    }
}

pub fn counted_text(n: u64, one: &str, many: &str) -> (r: String)
    ensures
        r@ == counted(n as nat, one@, many@),
{
    let mut s = String::new();
    if n == 1 {
        push_str(&mut s, "1 ");
        push_str(&mut s, one);
    } else {
        push_decimal(&mut s, n);
        push_str(&mut s, " ");
        push_str(&mut s, many);
    }
    proof {
        assert(Seq::<char>::empty() + "1 "@ =~= "1 "@);
        assert(Seq::<char>::empty() + decimal(n as nat) =~= decimal(n as nat));
    }
    s
}

/// Two decimal digits, a leading zero where needed (`{:02}` of a number
/// below one hundred).
pub open spec fn two_digits(n: nat) -> Seq<char> {
    seq![digit_char((n / 10) as int), digit_char((n % 10) as int)]
}

/// Appends a number below one hundred as two digits.
pub fn push_two_digits(s: &mut String, n: u64)
    requires
        n < 100,
    ensures
        final(s)@ == old(s)@ + two_digits(n as nat),
{
    push_char(s, digit(n / 10));
    push_char(s, digit(n % 10));
    proof {
        assert(old(s)@.push(digit_char((n / 10) as int)).push(digit_char((n % 10) as int)) =~= old(s)@ + two_digits(n as nat));
    }
}

/// A rate in basis points as a percentage with two decimals: `125` is
/// `1.25%`, `5` is `0.05%`.
pub open spec fn percent(basis_points: nat) -> Seq<char> {
    decimal(basis_points / 100) + "."@ + two_digits(basis_points % 100) + "%"@
}

pub fn percent_text(basis_points: u32) -> (r: String)
    ensures
        r@ == percent(basis_points as nat),
{
    let mut s = String::new();
    push_decimal(&mut s, (basis_points / 100) as u64);
    push_str(&mut s, ".");
    let rest = basis_points % 100;
    push_char(&mut s, digit((rest / 10) as u64));
    push_char(&mut s, digit((rest % 10) as u64));
    push_str(&mut s, "%");
    proof {
        assert(s@ =~= percent(basis_points as nat));
    }
    s
}

/// A list joined by a separator, the way `Vec::join` does.
pub open spec fn joined(items: Seq<Seq<char>>, sep: Seq<char>) -> Seq<char>
    decreases items.len(),
{
    if items.len() == 0 {
        Seq::empty()
    } else if items.len() == 1 {
        items[0]
    } else {
        joined(items.drop_last(), sep) + sep + items.last()
    }
}

/// The views of a list of strings.
pub open spec fn texts(items: Seq<String>) -> Seq<Seq<char>> {
    items.map_values(|t: String| t@)
}

pub fn join_texts(items: &Vec<String>, sep: &str) -> (r: String)
    ensures
        r@ == joined(texts(items@), sep@),
{
    let mut s = String::new();
    let n = items.len();
    for i in 0..n
        invariant
            n == items@.len(),
            s@ == joined(texts(items@).take(i as int), sep@),
    {
        if i > 0 {
            push_str(&mut s, sep);
        }
        push_str(&mut s, items[i].as_str());
        proof {
            let t = texts(items@);
            assert(t.take(i + 1).drop_last() =~= t.take(i as int));
            assert(t.take(i + 1).last() == items@[i as int]@);
            if i == 0 {
                assert(t.take(1).len() == 1);
                assert(s@ =~= t.take(1)[0]);
            }
        }
    }
    proof { assert(texts(items@).take(n as int) =~= texts(items@)); }
    s
}

/// The first day that the calendar can name, counted from 1 January of the
/// year 1 as day 1.
pub open spec fn first_calendar_day() -> int { -95746129 }

/// The last day that the calendar can name.
pub open spec fn last_calendar_day() -> int { 95745399 }

/// Whether a day number names a calendar date.
pub open spec fn valid_day(day: int) -> bool {
    first_calendar_day() <= day <= last_calendar_day()
}

/// How a date is written.
#[derive(Clone, Copy, PartialEq, Eq, Debug)]
pub enum DatePattern {
    /// `05 Mar 2024`
    DayMonthYear,
    /// `05 Mar 24`
    DayMonthShortYear,
    /// `05 Mar`
    DayMonth,
    /// `Mar 2024`
    MonthYear,
}

/// The `strftime`-style format of a pattern.
pub open spec fn pattern_format(pattern: DatePattern) -> Seq<char> {
    match pattern {
        DatePattern::DayMonthYear => "%d %b %Y"@,
        DatePattern::DayMonthShortYear => "%d %b %y"@,
        DatePattern::DayMonth => "%d %b"@,
        DatePattern::MonthYear => "%b %Y"@,
    }
}

/// What chrono writes for a day number in a format.
pub uninterp spec fn formatted_day(day: i32, format: Seq<char>) -> Seq<char>;

/// The calendar's rendering of a day in a pattern.
pub open spec fn calendar_text(day: i32, pattern: DatePattern) -> Seq<char> {
    formatted_day(day, pattern_format(pattern))
}

/// A day number (days from the common era, 1 January of the year 1 being
/// day 1) written in a format by chrono: `NaiveDate::from_num_days_from_ce_opt`,
/// then `format`. The text is named, not stated. Every day that `valid_day`
/// admits is one that `from_num_days_from_ce_opt` accepts, and the format is
/// one of the four patterns, which chrono writes without error (a wrong
/// format string would make the writing panic).
#[verifier::external_body]
fn format_day(day: i32, format: &str) -> (r: String)
    requires
        valid_day(day as int),
        exists|p: DatePattern| format@ == pattern_format(p),
    ensures
        r@ == formatted_day(day, format@),
{
    chrono::NaiveDate::from_num_days_from_ce_opt(day).unwrap().format(format).to_string()
}

/// A day number written in a pattern.
pub(crate) fn date_text(day: i32, pattern: DatePattern) -> (r: String)
    requires
        valid_day(day as int),
    ensures
        r@ == calendar_text(day, pattern),
{
    let format = match pattern {
        DatePattern::DayMonthYear => "%d %b %Y",
        DatePattern::DayMonthShortYear => "%d %b %y",
        DatePattern::DayMonth => "%d %b",
        DatePattern::MonthYear => "%b %Y",
    };
    proof { assert(format@ == pattern_format(pattern)); }
    format_day(day, format)
}

/// What `str::to_lowercase` makes of a text.
pub uninterp spec fn lowercased(s: Seq<char>) -> Seq<char>;

/// `str::to_lowercase`: the text with every character mapped to its Unicode
/// lowercase. The mapping is named, not stated.
#[verifier::external_body]
pub(crate) fn lowercase(s: &str) -> (r: String)
    ensures
        r@ == lowercased(s@),
{
    s.to_lowercase()
}

/// Whether a character has Unicode's White_Space property, the white space
/// that `str::trim` removes.
pub open spec fn white_space(c: char) -> bool {
    let u = c as u32;
    (0x9 <= u && u <= 0xD) || u == 0x20 || u == 0x85 || u == 0xA0 || u == 0x1680 || (0x2000 <= u && u <= 0x200A)
        || u == 0x2028 || u == 0x2029 || u == 0x202F || u == 0x205F || u == 0x3000
}

/// How many characters of white space a text starts with.
pub open spec fn leading_space(s: Seq<char>) -> nat
    decreases s.len(),
{
    if s.len() > 0 && white_space(s[0]) { 1 + leading_space(s.drop_first()) } else { 0 }
}

/// How many characters of white space a text ends with.
pub open spec fn trailing_space(s: Seq<char>) -> nat
    decreases s.len(),
{
    if s.len() > 0 && white_space(s.last()) { 1 + trailing_space(s.drop_last()) } else { 0 }
}

/// What `str::trim` leaves of a text: the text without its leading and
/// trailing white space.
pub open spec fn trimmed(s: Seq<char>) -> Seq<char> {
    let rest = s.subrange(leading_space(s) as int, s.len() as int);
    rest.subrange(0, rest.len() - trailing_space(rest))
}

/// Whether a character is white space.
fn is_white_space(c: char) -> (r: bool)
    ensures
        r == white_space(c),
{
    let u = c as u32;
    (0x9 <= u && u <= 0xD) || u == 0x20 || u == 0x85 || u == 0xA0 || u == 0x1680 || (0x2000 <= u && u <= 0x200A)
        || u == 0x2028 || u == 0x2029 || u == 0x202F || u == 0x205F || u == 0x3000
}

/// A text whose first `a` characters are white space, followed by an end or
/// by a character that is not, starts with exactly `a` of them.
proof fn lemma_leading_space(s: Seq<char>, a: int)
    requires
        0 <= a <= s.len(),
        forall|i: int| 0 <= i < a ==> white_space(#[trigger] s[i]),
        a == s.len() || !white_space(s[a]),
    ensures
        leading_space(s) == a,
    decreases a,
{
    if a > 0 {
        let t = s.drop_first();
        assert forall|i: int| 0 <= i < a - 1 implies white_space(#[trigger] t[i]) by {
            assert(t[i] == s[i + 1]);
        }
        lemma_leading_space(t, a - 1);
    }
}

/// A text whose last `b` characters are white space, preceded by its start or
/// by a character that is not, ends with exactly `b` of them.
proof fn lemma_trailing_space(s: Seq<char>, b: int)
    requires
        0 <= b <= s.len(),
        forall|i: int| 0 <= i < b ==> white_space(#[trigger] s[s.len() - 1 - i]),
        b == s.len() || !white_space(s[s.len() - 1 - b]),
    ensures
        trailing_space(s) == b,
    decreases b,
{
    if b > 0 {
        let t = s.drop_last();
        assert forall|i: int| 0 <= i < b - 1 implies white_space(#[trigger] t[t.len() - 1 - i]) by {
            assert(t[t.len() - 1 - i] == s[s.len() - 1 - (i + 1)]);
        }
        assert(b - 1 == t.len() || t[t.len() - 1 - (b - 1)] == s[s.len() - 1 - b]);
        lemma_trailing_space(t, b - 1);
    }
}

/// The text without its leading and trailing white space, as `str::trim`
/// leaves it.
pub(crate) fn trim(s: &str) -> (r: String)
    ensures
        r@ == trimmed(s@),
{
    let n = s.unicode_len();
    let mut a: usize = 0;
    while a < n && is_white_space(s.get_char(a))
        invariant
            n == s@.len(),
            a <= n,
            forall|i: int| 0 <= i < a ==> white_space(#[trigger] s@[i]),
        decreases n - a,
    {
        a = a + 1;
    }
    proof { lemma_leading_space(s@, a as int); }
    let ghost rest = s@.subrange(a as int, n as int);
    let mut b: usize = 0;
    while b < n - a && is_white_space(s.get_char(n - 1 - b))
        invariant
            n == s@.len(),
            a <= n,
            b <= n - a,
            rest == s@.subrange(a as int, n as int),
            forall|i: int| 0 <= i < b ==> white_space(#[trigger] rest[rest.len() - 1 - i]),
        decreases n - a - b,
    {
        assert(rest[rest.len() - 1 - b] == s@[n - 1 - b]);
        b = b + 1;
    }
    proof {
        if b < n - a {
            assert(rest[rest.len() - 1 - b] == s@[n - 1 - b]);
        }
        lemma_trailing_space(rest, b as int);
    }
    let kept = s.substring_char(a, n - b);
    let r = String::from_str(kept);
    proof { assert(r@ =~= trimmed(s@)); }
    r
}

/// Whether two texts are the same text.
pub fn same_text(a: &str, b: &str) -> (r: bool)
    ensures
        r == (a@ == b@),
{
    let n = a.unicode_len();
    if n != b.unicode_len() {
        return false;
    }
    for i in 0..n
        invariant
            n == a@.len(),
            n == b@.len(),
            forall|j: int| 0 <= j < i ==> a@[j] == b@[j],
    {
        if a.get_char(i) != b.get_char(i) {
            return false;
        }
    }
    proof { assert(a@ =~= b@); }
    true
}

/// Whether `needle` stands in `hay` starting at position `i`.
pub open spec fn occurs_at(hay: Seq<char>, needle: Seq<char>, i: int) -> bool {
    0 <= i && i + needle.len() <= hay.len() && hay.subrange(i, i + needle.len()) =~= needle
}

/// Whether `needle` stands anywhere in `hay` (the empty text stands in every text).
pub open spec fn contains_seq(hay: Seq<char>, needle: Seq<char>) -> bool {
    exists|i: int| occurs_at(hay, needle, i)
}

/// The characters of a text.
pub fn chars_of(s: &str) -> (r: Vec<char>)
    ensures
        r@ == s@,
{
    let n = s.unicode_len();
    let mut v: Vec<char> = Vec::new();
    for i in 0..n
        invariant
            n == s@.len(),
            v@ =~= s@.take(i as int),
    {
        v.push(s.get_char(i));
        proof { assert(s@.take(i + 1) =~= s@.take(i as int).push(s@[i as int])); }
    }
    proof { assert(s@.take(n as int) =~= s@); }
    v
}

/// Whether `needle` matches `hay` at `i`, character by character.
fn matches_at(hay: &Vec<char>, needle: &Vec<char>, i: usize) -> (r: bool)
    requires
        i + needle@.len() <= hay@.len(),
    ensures
        r == occurs_at(hay@, needle@, i as int),
{
    let m = needle.len();
    let n = hay.len();
    for j in 0..m
        invariant
            m == needle@.len(),
            n == hay@.len(),
            i + m <= hay@.len(),
            forall|k: int| 0 <= k < j ==> hay@[i + k] == needle@[k],
    {
        if hay[i + j] != needle[j] {
            proof { assert(hay@.subrange(i as int, i + m)[j as int] != needle@[j as int]); }
            return false;
        }
    }
    proof { assert(hay@.subrange(i as int, i + m) =~= needle@); }
    true
}

/// The first position at which `needle` stands in `hay`, if any.
pub fn find_seq(hay: &Vec<char>, needle: &Vec<char>) -> (r: Option<usize>)
    ensures
        match r {
            Some(i) => occurs_at(hay@, needle@, i as int)
                && forall|k: int| 0 <= k < i ==> !occurs_at(hay@, needle@, k),
            None => !contains_seq(hay@, needle@),
        },
{
    let n = hay.len();
    let m = needle.len();
    if m > n {
        return None;
    }
    let last = n - m;
    let mut i: usize = 0;
    while i <= last
        invariant
            n == hay@.len(),
            m == needle@.len(),
            last == n - m,
            i <= last + 1,
            forall|k: int| 0 <= k < i ==> !occurs_at(hay@, needle@, k),
        decreases last + 1 - i,
    {
        if matches_at(hay, needle, i) {
            return Some(i);
        }
        i = i + 1;
    }
    None
}

/// Whether `needle` stands anywhere in `hay` (`str::contains`).
pub fn contains_text(hay: &str, needle: &str) -> (r: bool)
    ensures
        r == contains_seq(hay@, needle@),
{
    let h = chars_of(hay);
    let n = chars_of(needle);
    find_seq(&h, &n).is_some()
}

} // verus!
