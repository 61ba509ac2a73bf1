//! Text helpers over character sequences: blank detection, substring search,
//! lower-casing and decimal rendering.

use vstd::prelude::*;
use vstd::string::StringExecFns;

verus! {

/// The characters of `s`, in order.
pub fn chars_of(s: &str) -> (v: Vec<char>)
    ensures
        v@ == s@,
{
    let mut v: Vec<char> = Vec::new();
    for c in it: s.chars()
        invariant
            it.seq() == s@,
            v@ == it.seq().take(it.index() as int),
    {
        v.push(c);
    }
    v
}

/// Whether `c` is a white-space character: one of the code points that the
/// Unicode character database lists under the property White_Space.
pub open spec fn is_whitespace(c: char) -> bool {
    let n = c as u32;
    ||| 0x09 <= n <= 0x0D
    ||| n == 0x20
    ||| n == 0x85
    ||| n == 0xA0
    ||| n == 0x1680
    ||| 0x2000 <= n <= 0x200A
    ||| n == 0x2028
    ||| n == 0x2029
    ||| n == 0x202F
    ||| n == 0x205F
    ||| n == 0x3000
}

/// Decides `is_whitespace`.
pub fn char_is_whitespace(c: char) -> (b: bool)
    ensures
        b == is_whitespace(c),
{
    let n: u32 = c as u32;
    (0x09 <= n && n <= 0x0D) || n == 0x20 || n == 0x85 || n == 0xA0 || n == 0x1680 || (0x2000 <= n
        && n <= 0x200A) || n == 0x2028 || n == 0x2029 || n == 0x202F || n == 0x205F || n == 0x3000
}

/// A text is blank when nothing is left of it once leading and trailing white
/// space is removed, that is when every character of it is white space.
pub open spec fn is_blank(s: Seq<char>) -> bool {
    forall|i: int| 0 <= i < s.len() ==> is_whitespace(#[trigger] s[i])
}

/// Decides `is_blank`.
pub fn blank(s: &str) -> (b: bool)
    ensures
        b == is_blank(s@),
{
    let mut all: bool = true;
    for c in it: s.chars()
        invariant
            it.seq() == s@,
            all == is_blank(it.seq().take(it.index() as int)),
    {
        proof {
            if !is_whitespace(c) {
                assert(it.seq().take(it.index() as int + 1)[it.index() as int] == c);
            }
        }
        all = all && char_is_whitespace(c);
    }
    proof {
        assert(s@.take(s@.len() as int) == s@);
    }
    all
}

/// Decides whether two texts hold the same characters.
pub fn same_text(a: &str, b: &str) -> (same: bool)
    ensures
        same == (a@ == b@),
{
    let x = chars_of(a);
    let y = chars_of(b);
    same_chars(&x, &y)
}

/// Decides whether two character vectors are equal.
pub fn same_chars(a: &Vec<char>, b: &Vec<char>) -> (same: bool)
    ensures
        same == (a@ == b@),
{
    if a.len() != b.len() {
        return false;
    }
    let mut i: usize = 0;
    while i < a.len()
        invariant
            a@.len() == b@.len(),
            i <= a@.len(),
            forall|j: int| 0 <= j < i ==> a@[j] == b@[j],
        decreases a@.len() - i,
    {
        if a[i] != b[i] {
            return false;
        }
        i += 1;
    }
    assert(a@ =~= b@);
    true
}

/// `needle` stands in `hay` at position `at`.
pub open spec fn occurs_at(hay: Seq<char>, needle: Seq<char>, at: int) -> bool {
    &&& 0 <= at
    &&& at + needle.len() <= hay.len()
    &&& hay.subrange(at, at + needle.len()) == needle
}

/// `needle` stands somewhere in `hay`.
pub open spec fn has_substring(hay: Seq<char>, needle: Seq<char>) -> bool {
    exists|at: int| occurs_at(hay, needle, at)
}

fn matches_at(hay: &Vec<char>, needle: &Vec<char>, at: usize) -> (b: bool)
    requires
        at + needle@.len() <= hay@.len(),
    ensures
        b == occurs_at(hay@, needle@, at as int),
{
    let limit: usize = hay.len();
    let mut j: usize = 0;
    while j < needle.len()
        invariant
            at + needle@.len() <= hay@.len(),
            hay@.len() == limit,
            j <= needle@.len(),
            forall|k: int| 0 <= k < j ==> hay@[at + k] == needle@[k],
        decreases needle@.len() - j,
    {
        if hay[at + j] != needle[j] {
            return false;
        }
        j += 1;
    }
    assert(hay@.subrange(at as int, at + needle@.len()) =~= needle@);
    true
}

/// Decides `has_substring` on character vectors.
pub fn contains_chars(hay: &Vec<char>, needle: &Vec<char>) -> (b: bool)
    ensures
        b == has_substring(hay@, needle@),
{
    if needle.len() > hay.len() {
        return false;
    }
    let last: usize = hay.len() - needle.len();
    let mut at: usize = 0;
    while at < last
        invariant
            last == hay@.len() - needle@.len(),
            at <= last,
            forall|k: int| 0 <= k < at ==> !occurs_at(hay@, needle@, k),
        decreases last - at,
    {
        if matches_at(hay, needle, at) {
            return true;
        }
        at += 1;
    }
    matches_at(hay, needle, at)
}

/// Decides `has_substring`.
pub fn contains_text(hay: &str, needle: &str) -> (b: bool)
    ensures
        b == has_substring(hay@, needle@),
{
    let h = chars_of(hay);
    let n = chars_of(needle);
    contains_chars(&h, &n)
}

/// The lower-case form of a text, as the standard library computes it from the
/// Unicode case mappings.
pub uninterp spec fn lowercase_of(s: Seq<char>) -> Seq<char>;

/// Calls `str::to_lowercase`. The contract only gives the result its name:
/// the same text always has the same lower-case form.
#[verifier::external_body]
pub(crate) fn to_lowercase(s: &str) -> (lowered: String)
    ensures
        lowered@ == lowercase_of(s@),
{
    s.to_lowercase()
}

/// The character that writes the digit `d`.
pub open spec fn digit_char(d: nat) -> char {
    if d == 0 {
        '0'
    } else if d == 1 {
        '1'
    } else if d == 2 {
        '2'
    } else if d == 3 {
        '3'
    } else if d == 4 {
        '4'
    } else if d == 5 {
        '5'
    } else if d == 6 {
        '6'
    } else if d == 7 {
        '7'
    } else if d == 8 {
        '8'
    } else {
        '9'
    }
}

/// The decimal notation of `n`, without leading zeros.
pub open spec fn decimal(n: nat) -> Seq<char>
    decreases n,
{
    if n < 10 {
        seq![digit_char(n)]
    } else {
        decimal(n / 10).push(digit_char(n % 10))
    }
}

/// The decimal notation of an integer, with a minus sign where it is negative.
pub open spec fn signed_decimal(n: int) -> Seq<char> {
    if n < 0 {
        seq!['-'] + decimal((-n) as nat)
    } else {
        decimal(n as nat)
    }
}

fn digit_text(d: u64) -> (t: &'static str)
    requires
        d < 10,
    ensures
        t@ == seq![digit_char(d as nat)],
{
    proof {
        reveal_strlit("0");
        reveal_strlit("1");
        reveal_strlit("2");
        reveal_strlit("3");
        reveal_strlit("4");
        reveal_strlit("5");
        reveal_strlit("6");
        reveal_strlit("7");
        reveal_strlit("8");
        reveal_strlit("9");
    }
    let t = if d == 0 {
        "0"
    } else if d == 1 {
        "1"
    } else if d == 2 {
        "2"
    } else if d == 3 {
        "3"
    } else if d == 4 {
        "4"
    } else if d == 5 {
        "5"
    } else if d == 6 {
        "6"
    } else if d == 7 {
        "7"
    } else if d == 8 {
        "8"
    } else {
        "9"
    };
    t
}

/// Writes `n` in decimal notation.
pub fn decimal_string(n: u64) -> (s: String)
    ensures
        s@ == decimal(n as nat),
    decreases n,
{
    if n < 10 {
        String::from_str(digit_text(n))
    } else {
        let mut s = decimal_string(n / 10);
        s.append(digit_text(n % 10));
        s
    }
}

/// Writes a signed integer in decimal notation.
pub fn signed_decimal_string(n: i64) -> (s: String)
    ensures
        s@ == signed_decimal(n as int),
{
    if n < 0 {
        let below: u64 = (-(n + 1)) as u64;
        let magnitude: u64 = below + 1;
        let mut s = String::from_str("-");
        let digits = decimal_string(magnitude);
        s.append(digits.as_str());
        proof {
            reveal_strlit("-");
        }
        s
    } else {
        decimal_string(n as u64)
    }
}

/// `text` begins with `prefix`.
pub open spec fn has_prefix(text: Seq<char>, prefix: Seq<char>) -> bool {
    prefix.len() <= text.len() && text.take(prefix.len() as int) == prefix
}

/// Decides `has_prefix`.
pub fn starts_with(text: &Vec<char>, prefix: &Vec<char>) -> (b: bool)
    ensures
        b == has_prefix(text@, prefix@),
{
    if prefix.len() > text.len() {
        return false;
    }
    let found = matches_at(text, prefix, 0);
    found
}

/// The characters of `text` from position `from` on.
pub fn tail_from(text: &Vec<char>, from: usize) -> (tail: Vec<char>)
    requires
        from <= text@.len(),
    ensures
        tail@ == text@.skip(from as int),
{
    let mut tail: Vec<char> = Vec::new();
    let mut i: usize = from;
    while i < text.len()
        invariant
            from <= i <= text@.len(),
            tail@ == text@.subrange(from as int, i as int),
        decreases text@.len() - i,
    {
        tail.push(text[i]);
        i += 1;
    }
    tail
}

/// The first `upto` characters of `text`.
pub fn head_upto(text: &Vec<char>, upto: usize) -> (head: Vec<char>)
    requires
        upto <= text@.len(),
    ensures
        head@ == text@.take(upto as int),
{
    let mut head: Vec<char> = Vec::new();
    let mut i: usize = 0;
    while i < upto
        invariant
            i <= upto <= text@.len(),
            head@ == text@.take(i as int),
        decreases upto - i,
    {
        head.push(text[i]);
        i += 1;
    }
    head
}

/// `c` is one of the digits `0` to `9`.
pub open spec fn is_digit(c: char) -> bool {
    '0' <= c <= '9'
}

/// The number that a digit writes.
pub open spec fn digit_value(c: char) -> nat {
    (c as u32 - '0' as u32) as nat
}

/// Every character of `s` is a digit.
pub open spec fn all_digits(s: Seq<char>) -> bool {
    forall|i: int| 0 <= i < s.len() ==> is_digit(#[trigger] s[i])
}

/// The number that a run of digits writes in decimal notation.
pub open spec fn digits_value(s: Seq<char>) -> nat
    decreases s.len(),
{
    if s.len() == 0 {
        0
    } else {
        digits_value(s.drop_last()) * 10 + digit_value(s.last())
    }
}

/// The port number that a text writes: a run of one or more digits, with a
/// plus sign before it or not, whose value is at most 65535. Any other text
/// writes none.
pub open spec fn port_number(s: Seq<char>) -> Option<u16> {
    if s.len() > 0 && s[0] == '+' {
        number_of_digits(s.skip(1))
    } else {
        number_of_digits(s)
    }
}

/// The port number that a run of one or more digits writes, where its value
/// is at most 65535.
pub open spec fn number_of_digits(digits: Seq<char>) -> Option<u16> {
    if digits.len() > 0 && all_digits(digits) && digits_value(digits) <= u16::MAX {
        Some(digits_value(digits) as u16)
    } else {
        None
    }
}

/// A run of digits writes at least what any of its beginnings writes.
pub proof fn lemma_digits_value_grows(s: Seq<char>, upto: int)
    requires
        0 <= upto <= s.len(),
    ensures
        digits_value(s.take(upto)) <= digits_value(s),
    decreases s.len() - upto,
{
    if upto == s.len() {
        assert(s.take(upto) == s);
    } else {
        lemma_digits_value_grows(s, upto + 1);
        assert(s.take(upto + 1).drop_last() == s.take(upto));
        assert(digits_value(s.take(upto + 1)) >= digits_value(s.take(upto)) * 10) by {
            assert(digits_value(s.take(upto + 1)) == digits_value(s.take(upto)) * 10 + digit_value(
                s.take(upto + 1).last(),
            ));
        }
    }
}

/// The decimal notation of a number is a run of one or more digits that
/// writes that number.
pub proof fn lemma_decimal_writes(n: nat)
    ensures
        decimal(n).len() > 0,
        all_digits(decimal(n)),
        digits_value(decimal(n)) == n,
    decreases n,
{
    if n < 10 {
        let s = decimal(n);
        assert(digits_value(s) == digits_value(s.drop_last()) * 10 + digit_value(s.last()));
    } else {
        lemma_decimal_writes(n / 10);
        let s = decimal(n);
        assert(s.drop_last() == decimal(n / 10));
    }
}

/// Where a text ends in a run of digits with a character before it that is
/// no digit, the text decides the run: two such texts that are equal end in
/// the same run.
pub proof fn lemma_digit_run_is_decided(
    head: Seq<char>,
    run: Seq<char>,
    other_head: Seq<char>,
    other_run: Seq<char>,
)
    requires
        head.len() > 0,
        other_head.len() > 0,
        !is_digit(head.last()),
        !is_digit(other_head.last()),
        all_digits(run),
        all_digits(other_run),
        head + run == other_head + other_run,
    ensures
        run == other_run,
{
    let text = head + run;
    let other = other_head + other_run;
    assert(text.len() == other.len());
    if run.len() < other_run.len() {
        let at = head.len() - 1;
        assert(other[at] == other_run[at - other_head.len()]);
    } else if other_run.len() < run.len() {
        let at = other_head.len() - 1;
        assert(text[at] == run[at - head.len()]);
    } else {
        assert forall|k: int| 0 <= k < run.len() implies run[k] == other_run[k] by {
            assert(other[other_head.len() + k] == other_run[k]);
        }
    }
}

/// Reads the port number that `text` writes.
pub fn parse_port(text: &Vec<char>) -> (port: Option<u16>)
    ensures
        port == port_number(text@),
{
    let start: usize = if text.len() > 0 && text[0] == '+' {
        1
    } else {
        0
    };
    let ghost digits = text@.skip(start as int);
    proof {
        assert(text@.skip(0) == text@);
    }
    if start >= text.len() {
        return None;
    }
    let mut value: u32 = 0;
    let mut i: usize = start;
    while i < text.len()
        invariant
            start <= i <= text@.len(),
            digits == text@.skip(start as int),
            port_number(text@) == number_of_digits(digits),
            all_digits(digits.take(i - start)),
            value == digits_value(digits.take(i - start)),
            value <= u16::MAX,
        decreases text@.len() - i,
    {
        let c: char = text[i];
        proof {
            assert(digits.take(i - start + 1).drop_last() == digits.take(i - start));
        }
        if !('0' <= c && c <= '9') {
            proof {
                if all_digits(digits) {
                    assert(is_digit(digits[i - start]));
                }
            }
            return None;
        }
        let d: u32 = c as u32 - '0' as u32;
        let next: u32 = value * 10 + d;
        if next > 65535 {
            proof {
                lemma_digits_value_grows(digits, i - start + 1);
            }
            return None;
        }
        value = next;
        i += 1;
    }
    proof {
        assert(digits.take(i - start) == digits);
    }
    Some(value as u16)
}

/// The position of the only occurrence of `mark` in `text`.
pub open spec fn is_only_occurrence(text: Seq<char>, mark: char, at: int) -> bool {
    &&& 0 <= at < text.len()
    &&& text[at] == mark
    &&& forall|j: int| 0 <= j < text.len() && j != at ==> text[j] != mark
}

/// Finds the only occurrence of `mark` in `text`. Gives nothing where the
/// text holds no occurrence or more than one.
pub fn only_occurrence(text: &Vec<char>, mark: char) -> (found: Option<usize>)
    ensures
        match found {
            Some(at) => is_only_occurrence(text@, mark, at as int),
            None => forall|at: int| !is_only_occurrence(text@, mark, at),
        },
{
    let mut found: Option<usize> = None;
    let mut i: usize = 0;
    while i < text.len()
        invariant
            i <= text@.len(),
            match found {
                Some(at) => at < i && text@[at as int] == mark && forall|j: int|
                    0 <= j < i && j != at ==> text@[j] != mark,
                None => forall|j: int| 0 <= j < i ==> text@[j] != mark,
            },
        decreases text@.len() - i,
    {
        if text[i] == mark {
            match found {
                Some(at) => {
                    return None;
                },
                None => {
                    found = Some(i);
                },
            }
        }
        i += 1;
    }
    found
}

} // verus!
