//! Text as sequences of characters: searching, trimming, splitting into lines
//! and the decimal notation.

use vstd::prelude::*;
use vstd::string::*;

verus! {

/// `pattern` stands in `text` at position `at`.
pub open spec fn occurs_at(text: Seq<char>, pattern: Seq<char>, at: int) -> bool {
    &&& 0 <= at
    &&& at + pattern.len() <= text.len()
    &&& text.subrange(at, at + pattern.len()) == pattern
}

/// `pattern` stands somewhere in `text`.
pub open spec fn has_text(text: Seq<char>, pattern: Seq<char>) -> bool {
    exists|at: int| occurs_at(text, pattern, at)
}

/// `text` begins with `prefix`.
pub open spec fn begins_with(text: Seq<char>, prefix: Seq<char>) -> bool {
    occurs_at(text, prefix, 0)
}

/// The characters with the Unicode property `White_Space`.
pub open spec fn white(c: char) -> bool {
    let n = c as u32;
    ||| 0x09 <= n <= 0x0d
    ||| n == 0x20
    ||| n == 0x85
    ||| n == 0xa0
    ||| n == 0x1680
    ||| 0x2000 <= n <= 0x200a
    ||| n == 0x2028
    ||| n == 0x2029
    ||| n == 0x202f
    ||| n == 0x205f
    ||| n == 0x3000
}

/// `text` without its leading white space.
pub open spec fn trimmed_start(text: Seq<char>) -> Seq<char>
    decreases text.len(),
{
    if text.len() > 0 && white(text[0]) {
        trimmed_start(text.drop_first())
    } else {
        text
    }
}

/// `text` without its trailing white space.
pub open spec fn trimmed_end(text: Seq<char>) -> Seq<char>
    decreases text.len(),
{
    if text.len() > 0 && white(text.last()) {
        trimmed_end(text.drop_last())
    } else {
        text
    }
}

/// `text` without the white space around it.
pub open spec fn trimmed(text: Seq<char>) -> Seq<char> {
    trimmed_end(trimmed_start(text))
}

/// `text` trimmed, or nothing where only white space is left.
pub open spec fn nonempty_text(text: Seq<char>) -> Option<Seq<char>> {
    if trimmed(text).len() == 0 {
        None
    } else {
        Some(trimmed(text))
    }
}

/// The number of characters ahead of the first line feed at or after `at`.
pub open spec fn line_end(text: Seq<char>, at: int) -> int
    decreases text.len() - at,
{
    if 0 <= at < text.len() && text[at] != '\n' {
        line_end(text, at + 1)
    } else {
        at
    }
}

/// A line without the carriage return that stood ahead of its line feed.
pub open spec fn without_return(line: Seq<char>) -> Seq<char> {
    if line.len() > 0 && line.last() == '\r' {
        line.drop_last()
    } else {
        line
    }
}

/// The lines of `text` from position `at` on. A line ends with a line feed,
/// or with a carriage return and a line feed, or with the text.
pub open spec fn lines_from(text: Seq<char>, at: int) -> Seq<Seq<char>>
    decreases text.len() - at,
    when 0 <= at <= text.len()
{
    let end = line_end(text, at);
    if at == text.len() {
        seq![]
    } else if end < text.len() && at <= end {
        seq![without_return(text.subrange(at, end))] + lines_from(text, end + 1)
    } else {
        seq![text.subrange(at, text.len() as int)]
    }
}

/// The lines of `text`.
pub open spec fn lines_of(text: Seq<char>) -> Seq<Seq<char>> {
    lines_from(text, 0)
}

/// The digit character of `d`, for `d` below ten.
pub open spec fn digit_char(d: nat) -> char {
    (('0' as u32) + d) as char
}

/// `n` in decimal notation.
pub open spec fn decimal(n: nat) -> Seq<char>
    decreases n,
{
    if n < 10 {
        seq![digit_char(n)]
    } else {
        decimal(n / 10).push(digit_char(n % 10))
    }
}

/// `n` in decimal notation, with a minus sign where it is negative.
pub open spec fn signed_decimal(n: int) -> Seq<char> {
    if n < 0 {
        seq!['-'] + decimal((-n) as nat)
    } else {
        decimal(n as nat)
    }
}

/// Whether `c` is an ASCII digit.
pub open spec fn is_digit(c: char) -> bool {
    '0' as u32 <= c as u32 <= '9' as u32
}

/// Whether every character of `text` is an ASCII digit.
pub open spec fn all_digits(text: Seq<char>) -> bool {
    forall|i: int| 0 <= i < text.len() ==> is_digit(#[trigger] text[i])
}

/// The number that the digits of `text` denote.
pub open spec fn digits_value(text: Seq<char>) -> nat
    decreases text.len(),
{
    if text.len() == 0 {
        0
    } else {
        digits_value(text.drop_last()) * 10 + ((text.last() as u32) - ('0' as u32)) as nat
    }
}

/// `String::push` appends one character.
pub assume_specification[ String::push ](s: &mut String, ch: char)
    ensures
        final(s)@ == old(s)@.push(ch),
;

/// The characters of `text`.
pub fn chars_of(text: &str) -> (chars: Vec<char>)
    ensures
        chars@ == text@,
{
    let mut chars: Vec<char> = Vec::new();
    for c in it: text.chars()
        invariant
            it.seq() == text@,
            chars@ == text@.take(it.index() as int),
    {
        chars.push(c);
    }
    chars
}

/// The text of `chars[from..to]`.
pub fn text_of(chars: &Vec<char>, from: usize, to: usize) -> (text: String)
    requires
        from <= to <= chars@.len(),
    ensures
        text@ == chars@.subrange(from as int, to as int),
{
    let mut text = String::new();
    let mut i: usize = from;
    while i < to
        invariant
            from <= i <= to <= chars@.len(),
            text@ == chars@.subrange(from as int, i as int),
        decreases to - i,
    {
        text.push(chars[i]);
        i = i + 1;
    }
    text
}

/// Whether two texts are the same.
pub fn same(a: &str, b: &str) -> (r: bool)
    ensures
        r == (a@ == b@),
{
    a.to_owned() == b.to_owned()
}

/// Whether `text` is `expected`.
pub fn is(text: &Option<String>, expected: &str) -> (r: bool)
    ensures
        r == (text.deep_view() == Some(expected@)),
{
    match text {
        Some(value) => same(value.as_str(), expected),
        None => false,
    }
}

/// Whether two optional texts are the same.
pub fn same_opt(a: &Option<String>, b: &Option<String>) -> (r: bool)
    ensures
        r == (a.deep_view() == b.deep_view()),
{
    match (a, b) {
        (Some(x), Some(y)) => same(x.as_str(), y.as_str()),
        (None, None) => true,
        _ => false,
    }
}

/// Whether `c` is an ASCII digit.
pub fn is_ascii_digit(c: char) -> (r: bool)
    ensures
        r == is_digit(c),
{
    '0' as u32 <= c as u32 && c as u32 <= '9' as u32
}

/// Whether `names` holds `name`.
pub open spec fn listed(names: Seq<Seq<char>>, name: Seq<char>) -> bool {
    names.contains(name)
}

/// Whether `names` holds `name`.
pub fn contains_name(names: &Vec<String>, name: &str) -> (r: bool)
    ensures
        r == listed(names.deep_view(), name@),
{
    let mut i: usize = 0;
    while i < names.len()
        invariant
            i <= names@.len(),
            forall|j: int| 0 <= j < i ==> #[trigger] names@[j]@ != name@,
        decreases names@.len() - i,
    {
        if same(names[i].as_str(), name) {
            assert(names.deep_view()[i as int] == name@);
            return true;
        }
        i = i + 1;
    }
    assert(!names.deep_view().contains(name@)) by {
        if names.deep_view().contains(name@) {
            let j = choose|j: int|
                0 <= j < names.deep_view().len() && names.deep_view()[j] == name@;
            assert(names@[j]@ == name@);
        }
    }
    false
}

fn matches_at(text: &Vec<char>, pattern: &Vec<char>, at: usize) -> (r: bool)
    ensures
        r == occurs_at(text@, pattern@, at as int),
{
    if pattern.len() > text.len() || at > text.len() - pattern.len() {
        return false;
    }
    let mut i: usize = 0;
    while i < pattern.len()
        invariant
            i <= pattern@.len(),
            at + pattern@.len() <= text@.len(),
            text@.len() <= usize::MAX,
            forall|j: int| 0 <= j < i ==> text@[at + j] == #[trigger] pattern@[j],
        decreases pattern@.len() - i,
    {
        if text[at + i] != pattern[i] {
            assert(text@.subrange(at as int, at + pattern@.len())[i as int] != pattern@[i as int]);
            return false;
        }
        i = i + 1;
    }
    assert(text@.subrange(at as int, at + pattern@.len()) =~= pattern@);
    true
}

/// Whether `pattern` stands somewhere in `text`.
pub fn contains(text: &str, pattern: &str) -> (r: bool)
    ensures
        r == has_text(text@, pattern@),
{
    let t = chars_of(text);
    let p = chars_of(pattern);
    if p.len() > t.len() {
        return false;
    }
    let last: usize = t.len() - p.len();
    let mut at: usize = 0;
    loop
        invariant
            t@ == text@,
            p@ == pattern@,
            last == t@.len() - p@.len(),
            at <= last,
            forall|i: int| 0 <= i < at ==> !occurs_at(text@, pattern@, i),
        decreases last - at,
    {
        if matches_at(&t, &p, at) {
            return true;
        }
        if at == last {
            return false;
        }
        at = at + 1;
    }
}

/// Whether `text` begins with `prefix`.
pub fn starts_with(text: &str, prefix: &str) -> (r: bool)
    ensures
        r == begins_with(text@, prefix@),
{
    let t = chars_of(text);
    let p = chars_of(prefix);
    matches_at(&t, &p, 0)
}

/// Whether `c` is white space.
pub fn is_white(c: char) -> (r: bool)
    ensures
        r == white(c),
{
    let n = c as u32;
    (0x09 <= n && n <= 0x0d) || n == 0x20 || n == 0x85 || n == 0xa0 || n == 0x1680 || (0x2000 <= n
        && n <= 0x200a) || n == 0x2028 || n == 0x2029 || n == 0x202f || n == 0x205f || n == 0x3000
}


/// `text` without its leading white space.
pub fn trim_start(text: &str) -> (r: String)
    ensures
        r@ == trimmed_start(text@),
{
    let chars = chars_of(text);
    let mut from: usize = 0;
    proof {
        assert(chars@.skip(0) =~= chars@);
    }
    while from < chars.len() && is_white(chars[from])
        invariant
            from <= chars@.len(),
            trimmed_start(chars@) == trimmed_start(chars@.skip(from as int)),
        decreases chars@.len() - from,
    {
        proof {
            assert(chars@.skip(from as int).drop_first() =~= chars@.skip(from + 1));
        }
        from = from + 1;
    }
    let to: usize = chars.len();
    proof {
        assert(chars@.skip(from as int) =~= chars@.subrange(from as int, to as int));
    }
    text_of(&chars, from, to)
}

/// `text` without its trailing white space.
pub fn trim_end(text: &str) -> (r: String)
    ensures
        r@ == trimmed_end(text@),
{
    let chars = chars_of(text);
    let mut to: usize = chars.len();
    proof {
        assert(chars@.take(to as int) =~= chars@);
    }
    while to > 0 && is_white(chars[to - 1])
        invariant
            to <= chars@.len(),
            trimmed_end(chars@) == trimmed_end(chars@.take(to as int)),
        decreases to,
    {
        proof {
            assert(chars@.take(to as int).drop_last() =~= chars@.take(to - 1));
        }
        to = to - 1;
    }
    proof {
        assert(chars@.take(to as int) =~= chars@.subrange(0, to as int));
    }
    text_of(&chars, 0, to)
}

/// `text` without the white space around it.
pub fn trim(text: &str) -> (r: String)
    ensures
        r@ == trimmed(text@),
{
    let start = trim_start(text);
    trim_end(start.as_str())
}

/// `text` trimmed, or nothing where only white space is left.
pub fn nonempty(text: &str) -> (r: Option<String>)
    ensures
        r.deep_view() == nonempty_text(text@),
{
    let trimmed = trim(text);
    if same(trimmed.as_str(), "") {
        proof {
            reveal_strlit("");
        }
        None
    } else {
        proof {
            reveal_strlit("");
            if trimmed@.len() == 0 {
                assert(trimmed@ =~= ""@);
            }
        }
        Some(trimmed)
    }
}

/// Whether `text` has no character.
pub fn is_empty(text: &str) -> (r: bool)
    ensures
        r == (text@.len() == 0),
{
    proof {
        reveal_strlit("");
        if text@.len() == 0 {
            assert(text@ =~= ""@);
        }
    }
    same(text, "")
}

/// `a` and `b` one after the other.
pub fn cat(a: &str, b: &str) -> (r: String)
    ensures
        r@ == a@ + b@,
{
    let mut r = a.to_owned();
    r.append(b);
    r
}

proof fn lemma_line_end(text: Seq<char>, at: int)
    requires
        0 <= at <= text.len(),
    ensures
        at <= line_end(text, at) <= text.len(),
        forall|i: int| at <= i < line_end(text, at) ==> text[i] != '\n',
        line_end(text, at) < text.len() ==> text[line_end(text, at)] == '\n',
    decreases text.len() - at,
{
    if at < text.len() && text[at] != '\n' {
        lemma_line_end(text, at + 1);
    }
}

/// The lines of `text`.
pub fn lines(text: &str) -> (r: Vec<String>)
    ensures
        r.deep_view() == lines_of(text@),
{
    let chars = chars_of(text);
    let mut r: Vec<String> = Vec::new();
    let mut at: usize = 0;
    proof {
        assert(r.deep_view() + lines_from(chars@, 0) =~= lines_from(chars@, 0));
    }
    while at < chars.len()
        invariant
            at <= chars@.len(),
            r.deep_view() + lines_from(chars@, at as int) == lines_of(chars@),
        decreases chars@.len() - at,
    {
        let mut end: usize = at;
        while end < chars.len() && chars[end] != '\n'
            invariant
                at <= end <= chars@.len(),
                line_end(chars@, at as int) == line_end(chars@, end as int),
            decreases chars@.len() - end,
        {
            end = end + 1;
        }
        let ghost before = r.deep_view();
        let ghost line = if end < chars@.len() {
            without_return(chars@.subrange(at as int, end as int))
        } else {
            chars@.subrange(at as int, chars@.len() as int)
        };
        proof {
            lemma_line_end(chars@, at as int);
        }
        let mut to: usize = end;
        if end < chars.len() && end > at && chars[end - 1] == '\r' {
            to = end - 1;
        }
        let piece = text_of(&chars, at, to);
        proof {
            assert(piece@ =~= line);
        }
        r.push(piece);
        at = if end < chars.len() {
            end + 1
        } else {
            end
        };
        proof {
            assert(r.deep_view() =~= before.push(line));
            assert(r.deep_view() + lines_from(chars@, at as int) =~= before + (seq![line]
                + lines_from(chars@, at as int)));
            if end >= chars@.len() {
                assert(seq![line] + lines_from(chars@, at as int) =~= seq![line]);
            }
        }
    }
    proof {
        assert(r.deep_view() + lines_from(chars@, at as int) =~= r.deep_view());
    }
    r
}

proof fn lemma_digit_char(d: nat)
    requires
        d < 10,
    ensures
        is_digit(digit_char(d)),
        digit_char(d) as u32 == '0' as u32 + d,
{
}

/// The decimal notation of a number is made of digits.
pub proof fn lemma_decimal_digits(n: nat)
    ensures
        decimal(n).len() > 0,
        all_digits(decimal(n)),
    decreases n,
{
    if n < 10 {
        lemma_digit_char(n);
    } else {
        lemma_decimal_digits(n / 10);
        lemma_digit_char(n % 10);
    }
}

/// Different numbers have different decimal notations.
pub proof fn lemma_decimal_injective(m: nat, n: nat)
    requires
        decimal(m) == decimal(n),
    ensures
        m == n,
    decreases m,
{
    lemma_decimal_digits(m / 10);
    lemma_decimal_digits(n / 10);
    if m < 10 && n < 10 {
        lemma_digit_char(m);
        lemma_digit_char(n);
        assert(decimal(m)[0] == digit_char(m));
        assert(decimal(n)[0] == digit_char(n));
    } else if m < 10 {
        assert(decimal(m) =~= seq![digit_char(m)]);
        assert(decimal(n) =~= decimal(n / 10).push(digit_char(n % 10)));
    } else if n < 10 {
        assert(decimal(n) =~= seq![digit_char(n)]);
        assert(decimal(m) =~= decimal(m / 10).push(digit_char(m % 10)));
    } else {
        lemma_digit_char(m % 10);
        lemma_digit_char(n % 10);
        assert(decimal(m).last() == digit_char(m % 10));
        assert(decimal(n).last() == digit_char(n % 10));
        assert(decimal(m).drop_last() =~= decimal(m / 10));
        assert(decimal(n).drop_last() =~= decimal(n / 10));
        lemma_decimal_injective(m / 10, n / 10);
    }
}

fn digit_of(d: u64) -> (c: char)
    requires
        d < 10,
    ensures
        c == digit_char(d as nat),
{
    if d == 0 {
        '0'
    } else if d == 1 {
        '1'
    } else if d == 2 {
        '2'
    } else if d == 3 {
        '3'
    } else if d == 4 {
        '4'
    } else if d == 5 {
        '5'
    } else if d == 6 {
        '6'
    } else if d == 7 {
        '7'
    } else if d == 8 {
        '8'
    } else {
        '9'
    }
}

/// `n` in decimal notation.
pub fn decimal_text(n: u64) -> (r: String)
    ensures
        r@ == decimal(n as nat),
    decreases n,
{
    if n < 10 {
        let mut r = String::new();
        r.push(digit_of(n));
        proof {
            assert(r@ =~= seq![digit_char(n as nat)]);
        }
        r
    } else {
        let mut r = decimal_text(n / 10);
        r.push(digit_of(n % 10));
        r
    }
}

/// `n` in decimal notation, with a minus sign where it is negative.
pub fn signed_text(n: i64) -> (r: String)
    ensures
        r@ == signed_decimal(n as int),
{
    if n < 0 {
        let positive: u64 = if n == i64::MIN {
            0x8000_0000_0000_0000
        } else {
            (-n) as u64
        };
        let mut r = String::new();
        r.push('-');
        proof {
            assert(r@ =~= seq!['-']);
        }
        let digits = decimal_text(positive);
        r.append(digits.as_str());
        r
    } else {
        decimal_text(n as u64)
    }
}

/// What `u64::from_str` reads from `text`: an optional plus sign and at least
/// one digit, denoting a number of 64 bits.
pub open spec fn u64_of(text: Seq<char>) -> Option<u64> {
    let digits = if text.len() > 0 && text[0] == '+' {
        text.drop_first()
    } else {
        text
    };
    if digits.len() > 0 && all_digits(digits) && digits_value(digits) <= u64::MAX {
        Some(digits_value(digits) as u64)
    } else {
        None
    }
}

proof fn lemma_digits_grow(text: Seq<char>, n: int)
    requires
        0 <= n <= text.len(),
        all_digits(text),
    ensures
        digits_value(text.take(n)) <= digits_value(text),
    decreases text.len() - n,
{
    if n < text.len() {
        lemma_digits_grow(text, n + 1);
        assert(text.take(n + 1).drop_last() =~= text.take(n));
        assert(is_digit(text[n]));
    } else {
        assert(text.take(n) =~= text);
    }
}

fn are_digits(chars: &Vec<char>) -> (r: bool)
    ensures
        r == all_digits(chars@),
{
    let mut i: usize = 0;
    while i < chars.len()
        invariant
            i <= chars@.len(),
            forall|j: int| 0 <= j < i ==> is_digit(#[trigger] chars@[j]),
        decreases chars@.len() - i,
    {
        if !is_ascii_digit(chars[i]) {
            return false;
        }
        i = i + 1;
    }
    true
}

fn value_of_digits(chars: &Vec<char>) -> (r: Option<u64>)
    requires
        all_digits(chars@),
    ensures
        r == (if digits_value(chars@) <= u64::MAX {
            Some(digits_value(chars@) as u64)
        } else {
            None
        }),
{
    let mut value: u64 = 0;
    let mut i: usize = 0;
    while i < chars.len()
        invariant
            i <= chars@.len(),
            all_digits(chars@),
            value == digits_value(chars@.take(i as int)),
        decreases chars@.len() - i,
    {
        assert(is_digit(chars@[i as int]));
        let d: u64 = (chars[i] as u32 - '0' as u32) as u64;
        proof {
            assert(chars@.take(i + 1).drop_last() =~= chars@.take(i as int));
            assert(chars@.take(i + 1).last() == chars@[i as int]);
            lemma_digits_grow(chars@, i + 1);
        }
        if value > 1844674407370955161 || (value == 1844674407370955161 && d > 5) {
            return None;
        }
        value = value * 10 + d;
        i = i + 1;
    }
    proof {
        assert(chars@.take(i as int) =~= chars@);
    }
    Some(value)
}

/// The number that `text` denotes, as `u64::from_str` reads it.
pub fn parse_u64(text: &str) -> (r: Option<u64>)
    ensures
        r == u64_of(text@),
{
    let mut chars = chars_of(text);
    if chars.len() > 0 && chars[0] == '+' {
        chars.remove(0);
        proof {
            assert(chars@ =~= text@.drop_first());
        }
    }
    if chars.len() > 0 && are_digits(&chars) {
        value_of_digits(&chars)
    } else {
        None
    }
}

/// `text` with the characters that `str::to_lowercase` gives for its own.
pub uninterp spec fn lowercase_of(text: Seq<char>) -> Seq<char>;

/// `str::to_lowercase`: the result is a function of the text alone, here
/// called [`lowercase_of`]; which characters map to which is not stated.
#[verifier::external_body]
fn lowercase(text: &str) -> (r: String)
    ensures
        r@ == lowercase_of(text@),
{
    text.to_lowercase()
}

/// `text` without its underscores.
pub open spec fn without_underscores(text: Seq<char>) -> Seq<char> {
    text.filter(|c: char| c != '_')
}

/// The form in which two identifiers are held to be the same: without
/// underscores and in lower case.
pub open spec fn normalized(text: Seq<char>) -> Seq<char> {
    lowercase_of(without_underscores(text))
}

/// `text` without its underscores and in lower case.
pub fn normalize(text: &str) -> (r: String)
    ensures
        r@ == normalized(text@),
{
    let chars = chars_of(text);
    let mut kept = String::new();
    let mut i: usize = 0;
    let ghost keep = |c: char| c != '_';
    proof {
        assert(chars@.take(0).filter(keep) =~= Seq::<char>::empty()) by {
            reveal(Seq::filter);
        }
    }
    while i < chars.len()
        invariant
            i <= chars@.len(),
            keep == (|c: char| c != '_'),
            kept@ == chars@.take(i as int).filter(keep),
        decreases chars@.len() - i,
    {
        let c = chars[i];
        proof {
            reveal(Seq::filter);
            assert(chars@.take(i + 1).drop_last() =~= chars@.take(i as int));
        }
        if c != '_' {
            kept.push(c);
        }
        i = i + 1;
    }
    proof {
        assert(chars@.take(i as int) =~= chars@);
    }
    lowercase(kept.as_str())
}

/// Whether a text holds nothing but white space.
pub open spec fn blank(text: Seq<char>) -> bool {
    forall|i: int| 0 <= i < text.len() ==> white(#[trigger] text[i])
}

proof fn lemma_trimmed_start_cuts(text: Seq<char>) -> (cut: int)
    ensures
        0 <= cut <= text.len(),
        trimmed_start(text) == text.skip(cut),
        blank(text.take(cut)),
        cut < text.len() ==> !white(text[cut]),
    decreases text.len(),
{
    if text.len() > 0 && white(text[0]) {
        let rest = text.drop_first();
        let more = lemma_trimmed_start_cuts(rest);
        assert(rest.skip(more) =~= text.skip(more + 1));
        assert forall|i: int| 0 <= i < more + 1 implies white(#[trigger] text.take(more + 1)[i]) by {
            if i > 0 {
                assert(rest.take(more)[i - 1] == text[i]);
            }
        }
        more + 1
    } else {
        assert(text.skip(0) =~= text);
        0
    }
}

proof fn lemma_trimmed_end_cuts(text: Seq<char>) -> (left: int)
    ensures
        0 <= left <= text.len(),
        trimmed_end(text) == text.take(left),
        blank(text.skip(left)),
        left > 0 ==> !white(text[left - 1]),
    decreases text.len(),
{
    if text.len() > 0 && white(text.last()) {
        let rest = text.drop_last();
        let left = lemma_trimmed_end_cuts(rest);
        assert(rest.take(left) =~= text.take(left));
        assert forall|i: int| 0 <= i < text.len() - left implies white(
            #[trigger] text.skip(left)[i],
        ) by {
            if i < rest.len() - left {
                assert(rest.skip(left)[i] == text[left + i]);
            }
        }
        left
    } else {
        assert(text.take(text.len() as int) =~= text);
        text.len() as int
    }
}

/// Trimming cuts white space off both ends and nothing else: what is left
/// stands in the text as it is, has no white space at its ends, and only white
/// space stood around it.
pub proof fn law_trimming_cuts_white_space_only(text: Seq<char>)
    ensures
        exists|from: int, to: int|
            0 <= from <= to <= text.len() && trimmed(text) == #[trigger] text.subrange(from, to)
                && blank(text.take(from)) && blank(text.skip(to)),
        trimmed(text).len() > 0 ==> !white(trimmed(text)[0]) && !white(trimmed(text).last()),
        blank(text) <==> trimmed(text).len() == 0,
{
    let cut = lemma_trimmed_start_cuts(text);
    let rest = text.skip(cut);
    let left = lemma_trimmed_end_cuts(rest);
    let to = cut + left;
    assert(rest.take(left) =~= text.subrange(cut, to));
    assert forall|i: int| 0 <= i < text.len() - to implies white(#[trigger] text.skip(to)[i]) by {
        assert(rest.skip(left)[i] == text[to + i]);
    }
    if left > 0 {
        assert(!white(text[cut]));
        assert(trimmed(text)[0] == text[cut]);
        assert(trimmed(text).last() == rest[left - 1]);
    } else {
        assert forall|i: int| 0 <= i < text.len() implies white(#[trigger] text[i]) by {
            if i < cut {
                assert(text.take(cut)[i] == text[i]);
            } else {
                assert(rest.skip(left)[i - cut] == text[i]);
            }
        }
    }
}

/// A blank text counts as none; any other is given trimmed.
pub proof fn law_blank_texts_are_none(text: Seq<char>)
    ensures
        nonempty_text(text) is None <==> blank(text),
        !blank(text) ==> nonempty_text(text) == Some(trimmed(text)),
{
    law_trimming_cuts_white_space_only(text);
}

/// Spaces, tabs and line ends are white space; visible ASCII is not.
pub proof fn law_visible_characters_are_not_white(c: char)
    ensures
        c == ' ' || c == '\t' || c == '\n' || c == '\r' ==> white(c),
        '!' as u32 <= c as u32 <= '~' as u32 ==> !white(c),
{
}

proof fn lemma_digits_value_of_decimal(n: nat)
    ensures
        digits_value(decimal(n)) == n,
    decreases n,
{
    lemma_digit_char(n % 10);
    if n < 10 {
        lemma_digit_char(n);
        let one = seq![digit_char(n)];
        assert(one.drop_last() =~= Seq::<char>::empty());
        assert(digits_value(one.drop_last()) == 0);
    } else {
        lemma_digits_value_of_decimal(n / 10);
        assert(decimal(n).drop_last() =~= decimal(n / 10));
    }
}

/// A number that is written out and read again is the same number, with or
/// without a plus sign, and it is written without leading zeros.
pub proof fn law_written_numbers_are_read_back(n: u64)
    ensures
        u64_of(decimal(n as nat)) == Some(n),
        u64_of(seq!['+'] + decimal(n as nat)) == Some(n),
        n > 0 ==> decimal(n as nat)[0] != '0',
{
    lemma_digits_value_of_decimal(n as nat);
    lemma_decimal_digits(n as nat);
    assert(is_digit(decimal(n as nat)[0]));
    assert((seq!['+'] + decimal(n as nat)).drop_first() =~= decimal(n as nat));
    lemma_no_leading_zero(n as nat);
}

proof fn lemma_no_leading_zero(n: nat)
    ensures
        n > 0 ==> decimal(n)[0] != '0',
    decreases n,
{
    if n >= 10 {
        lemma_no_leading_zero(n / 10);
        lemma_decimal_digits(n / 10);
        assert(decimal(n)[0] == decimal(n / 10)[0]);
    } else {
        lemma_digit_char(n);
        lemma_digit_char(0);
    }
}

/// Only digits, with a plus sign at most ahead of them, are read as a number.
pub proof fn law_only_digits_are_numbers(text: Seq<char>, i: int)
    requires
        0 <= i < text.len(),
        !('0' as u32 <= text[i] as u32 <= '9' as u32),
        i > 0 || text[i] != '+' || text.len() == 1,
    ensures
        u64_of(text) is None,
        u64_of(Seq::empty()) is None,
{
    if text[0] == '+' {
        let digits = text.drop_first();
        if i > 0 {
            assert(digits[i - 1] == text[i]);
        }
    }
}

/// The text ends at the first line feed, and goes on behind it.
pub proof fn law_lines_end_at_line_feeds(line: Seq<char>, rest: Seq<char>)
    requires
        !line.contains('\n'),
    ensures
        line.len() > 0 ==> lines_of(line) == seq![line],
        lines_of(Seq::empty()) == Seq::<Seq<char>>::empty(),
        lines_of(line + seq!['\n'] + rest) == seq![
            if line.len() > 0 && line.last() == '\r' {
                line.drop_last()
            } else {
                line
            },
        ] + lines_of(rest),
{
    let whole = line + seq!['\n'] + rest;
    lemma_line_end_is(line, 0, line.len() as int);
    lemma_line_end_is(whole, 0, line.len() as int);
    assert(line.subrange(0, line.len() as int) =~= line);
    assert(whole.subrange(0, line.len() as int) =~= line);
    assert(whole.skip(line.len() as int + 1) =~= rest);
    lemma_lines_from_shift(whole, rest, line.len() as int + 1, 0);
}

proof fn lemma_line_end_is(text: Seq<char>, at: int, end: int)
    requires
        0 <= at <= end <= text.len(),
        forall|i: int| at <= i < end ==> #[trigger] text[i] != '\n',
        end == text.len() || text[end] == '\n',
    ensures
        line_end(text, at) == end,
    decreases end - at,
{
    if at < end {
        lemma_line_end_is(text, at + 1, end);
    }
}

proof fn lemma_line_end_shift(whole: Seq<char>, rest: Seq<char>, by: int, at: int)
    requires
        0 <= by,
        whole.len() == by + rest.len(),
        whole.skip(by) == rest,
        0 <= at <= rest.len(),
    ensures
        line_end(whole, by + at) == by + line_end(rest, at),
        at <= line_end(rest, at) <= rest.len(),
    decreases rest.len() - at,
{
    if at < rest.len() {
        assert(whole.skip(by)[at] == whole[by + at]);
        if rest[at] != '\n' {
            lemma_line_end_shift(whole, rest, by, at + 1);
        }
    }
}

proof fn lemma_lines_from_shift(whole: Seq<char>, rest: Seq<char>, by: int, at: int)
    requires
        0 <= by,
        whole.len() == by + rest.len(),
        whole.skip(by) == rest,
        0 <= at <= rest.len(),
    ensures
        lines_from(whole, by + at) == lines_from(rest, at),
    decreases rest.len() - at,
{
    lemma_line_end_shift(whole, rest, by, at);
    let end = line_end(rest, at);
    assert(whole.subrange(by + at, by + end) =~= whole.skip(by).subrange(at, end));
    assert(whole.subrange(by + at, whole.len() as int) =~= whole.skip(by).subrange(
        at,
        rest.len() as int,
    ));
    if at < rest.len() && end < rest.len() {
        lemma_lines_from_shift(whole, rest, by, end + 1);
    }
}

/// Underscores make no difference between identifiers.
pub proof fn law_underscores_make_no_difference(a: Seq<char>, b: Seq<char>)
    ensures
        normalized(a + seq!['_'] + b) == normalized(a + b),
{
    let keep = |c: char| c != '_';
    Seq::filter_distributes_over_add(a + seq!['_'], b, keep);
    Seq::filter_distributes_over_add(a, seq!['_'], keep);
    Seq::filter_distributes_over_add(a, b, keep);
    assert(seq!['_'].filter(keep) =~= Seq::<char>::empty()) by {
        reveal_with_fuel(Seq::filter, 2);
        assert(seq!['_'].drop_last() =~= Seq::<char>::empty());
    }
    assert(a.filter(keep) + Seq::<char>::empty() + b.filter(keep) =~= a.filter(keep) + b.filter(
        keep,
    ));
}

/// A text holds whatever it was put together from, and begins with its first
/// part.
pub proof fn law_parts_are_found(a: Seq<char>, b: Seq<char>, c: Seq<char>)
    ensures
        has_text(a + b + c, b),
        begins_with(a + b, a),
{
    assert((a + b + c).subrange(a.len() as int, (a.len() + b.len()) as int) =~= b);
    assert(occurs_at(a + b + c, b, a.len() as int));
    assert((a + b).subrange(0, a.len() as int) =~= a);
}

}
