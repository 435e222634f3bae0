//! Text as sequences of characters: searching, splitting, and the decimal
//! form of numbers. The protocol messages and the device rules are stated in
//! these terms.

use std::borrow::Cow;
use vstd::prelude::*;
use vstd::string::StringExecFns;

verus! {

/// What `str::to_lowercase` makes of a text: its lowercase form as Unicode
/// defines it. Nothing more is said of it here than that equal texts have
/// equal lowercase forms.
pub uninterp spec fn lowercase(text: Seq<char>) -> Seq<char>;

/// What `char::is_alphanumeric` says of a character: whether Unicode counts
/// it as a letter or a number. Nothing more is said of it here than that
/// the answer goes by the character alone.
pub uninterp spec fn alphanumeric(c: char) -> bool;

/// What `String::from_utf8_lossy` reads out of a run of bytes: the decoded
/// text, with a replacement character wherever the bytes are not UTF-8.
/// What it is on bytes that are not UTF-8 is not said here.
pub uninterp spec fn utf8_lossy(bytes: Seq<u8>) -> Seq<char>;

/// Assumed of `String::push`, not proved: it puts the character at the end
/// of the string and changes nothing before it.
pub assume_specification[ String::push ](text: &mut String, c: char)
    ensures
        final(text)@ == old(text)@.push(c),
;

/// Assumed of `str::to_lowercase`, not proved: the string it returns goes
/// by the characters of its argument alone. The contract gives that string
/// the name `lowercase` and says nothing of what it holds.
pub assume_specification[ str::to_lowercase ](text: &str) -> (lower: String)
    ensures
        lower@ == lowercase(text@),
;

/// Assumed of `char::is_alphanumeric`, not proved: its answer goes by the
/// character alone. The contract gives that answer the name `alphanumeric`
/// and says nothing of which characters it holds for.
pub assume_specification[ char::is_alphanumeric ](c: char) -> (b: bool)
    ensures
        b == alphanumeric(c),
;

/// Assumed of `String::from_utf8_lossy`, not proved: the text it returns
/// goes by the bytes alone, and for bytes that are valid UTF-8 it is the
/// text that those bytes encode. The contract gives the text the name
/// `utf8_lossy`.
pub assume_specification<'a>[ String::from_utf8_lossy ](bytes: &'a [u8]) -> (text: Cow<'a, str>)
    ensures
        text@ == utf8_lossy(bytes@),
        vstd::utf8::valid_utf8(bytes@) ==> text@ == vstd::utf8::decode_utf8(bytes@),
;

/// The characters of a string, in order.
pub fn chars_of(text: &str) -> (chars: Vec<char>)
    ensures
        chars@ == text@,
{
    let mut chars: Vec<char> = Vec::new();
    for c in it: text.chars()
        invariant
            chars@ == it.seq().take(it.index() as int),
    {
        chars.push(c);
    }
    chars
}

/// The string made of the given characters.
pub fn text_of(chars: &[char]) -> (text: String)
    ensures
        text@ == chars@,
{
    let mut text = String::new();
    let mut i: usize = 0;
    while i < chars.len()
        invariant
            i <= chars.len(),
            text@ == chars@.take(i as int),
        decreases chars.len() - i,
    {
        text.push(chars[i]);
        i = i + 1;
    }
    text
}

/// The text that a run of bytes carries, read leniently: bytes that are
/// valid UTF-8 give the text they encode, and any others give a text all
/// the same.
pub fn lossy_text(bytes: &[u8]) -> (text: String)
    ensures
        text@ == utf8_lossy(bytes@),
        vstd::utf8::valid_utf8(bytes@) ==> text@ == vstd::utf8::decode_utf8(bytes@),
{
    match String::from_utf8_lossy(bytes) {
        Cow::Borrowed(s) => String::from_str(s),
        Cow::Owned(s) => s,
    }
}

/// Whether two strings hold the same characters.
pub fn same_text(a: &str, b: &str) -> (same: bool)
    ensures
        same == (a@ == b@),
{
    let x = chars_of(a);
    let y = chars_of(b);
    if x.len() != y.len() {
        return false;
    }
    let mut i: usize = 0;
    while i < x.len()
        invariant
            i <= x.len(),
            x.len() == y.len(),
            x@ == a@,
            y@ == b@,
            forall|k: int| 0 <= k < i ==> x@[k] == y@[k],
        decreases x.len() - i,
    {
        if x[i] != y[i] {
            return false;
        }
        i = i + 1;
    }
    assert(a@ =~= b@);
    true
}

/// `pattern` stands in `text` at position `at`.
pub open spec fn occurs_at(text: Seq<char>, pattern: Seq<char>, at: int) -> bool {
    &&& 0 <= at
    &&& at + pattern.len() <= text.len()
    &&& text.subrange(at, at + pattern.len()) == pattern
}

/// `pattern` stands somewhere in `text`.
pub open spec fn contains_text(text: Seq<char>, pattern: Seq<char>) -> bool {
    exists|at: int| occurs_at(text, pattern, at)
}

fn matches_at(text: &Vec<char>, pattern: &Vec<char>, at: usize) -> (found: bool)
    requires
        at + pattern.len() <= text.len(),
    ensures
        found == occurs_at(text@, pattern@, at as int),
{
    let mut k: usize = 0;
    while k < pattern.len()
        invariant
            k <= pattern.len(),
            at + pattern.len() <= text.len(),
            forall|j: int| 0 <= j < k ==> text@[at + j] == pattern@[j],
        decreases pattern.len() - k,
    {
        if text[at + k] != pattern[k] {
            return false;
        }
        k = k + 1;
    }
    assert(text@.subrange(at as int, at + pattern.len()) =~= pattern@);
    true
}

/// Whether `text` begins with `prefix`.
pub fn starts_with(text: &str, prefix: &str) -> (found: bool)
    ensures
        found == prefix@.is_prefix_of(text@),
{
    let t = chars_of(text);
    let p = chars_of(prefix);
    if p.len() > t.len() {
        return false;
    }
    let found = matches_at(&t, &p, 0);
    found
}

/// Whether `pattern` stands somewhere in `text`. The empty pattern stands in
/// every text.
pub fn contains(text: &str, pattern: &str) -> (found: bool)
    ensures
        found == contains_text(text@, pattern@),
{
    let t = chars_of(text);
    let p = chars_of(pattern);
    if p.len() == 0 {
        assert(occurs_at(text@, pattern@, 0)) by {
            assert(text@.subrange(0, 0) =~= pattern@);
        }
        return true;
    }
    if p.len() > t.len() {
        return false;
    }
    let mut at: usize = 0;
    while at <= t.len() - p.len()
        invariant
            0 < p.len() <= t.len(),
            at <= t.len() - p.len() + 1,
            t@ == text@,
            p@ == pattern@,
            forall|k: int| 0 <= k < at ==> !occurs_at(text@, pattern@, k),
        decreases t.len() - at,
    {
        if matches_at(&t, &p, at) {
            return true;
        }
        at = at + 1;
    }
    false
}

/// Where a text is cut into parts.
#[derive(Clone, Copy, Debug)]
pub enum Separator {
    /// At every occurrence of this character.
    Char(char),
    /// At every character that is neither a letter nor a number.
    NonAlphanumeric,
}

impl Separator {
    /// Whether the text is cut at the character `c`.
    pub open spec fn cuts(self, c: char) -> bool {
        match self {
            Separator::Char(sep) => c == sep,
            Separator::NonAlphanumeric => !alphanumeric(c),
        }
    }

    /// Whether the text is cut at the character `c`.
    pub fn cuts_at(&self, c: char) -> (cut: bool)
        ensures
            cut == self.cuts(c),
    {
        match self {
            Separator::Char(sep) => c == *sep,
            Separator::NonAlphanumeric => !c.is_alphanumeric(),
        }
    }
}

/// The position of the first separator in `text`, or the length of `text`
/// where it holds none.
pub open spec fn first_cut(text: Seq<char>, sep: Separator) -> int
    decreases text.len(),
{
    if text.len() == 0 || sep.cuts(text[0]) {
        0
    } else {
        1 + first_cut(text.skip(1), sep)
    }
}

/// The parts of `text` between its separators, in order. A text without a
/// separator is its own single part; two separators in a row enclose an
/// empty part.
pub open spec fn split(text: Seq<char>, sep: Separator) -> Seq<Seq<char>>
    decreases text.len(),
{
    let at = first_cut(text, sep);
    if 0 <= at < text.len() {
        seq![text.take(at)] + split(text.skip(at + 1), sep)
    } else {
        seq![text]
    }
}

/// `first_cut` is the least position that holds a separator.
pub proof fn lemma_first_cut(text: Seq<char>, sep: Separator)
    ensures
        0 <= first_cut(text, sep) <= text.len(),
        forall|j: int| 0 <= j < first_cut(text, sep) ==> !sep.cuts(#[trigger] text[j]),
        first_cut(text, sep) < text.len() ==> sep.cuts(text[first_cut(text, sep)]),
    decreases text.len(),
{
    if text.len() == 0 || sep.cuts(text[0]) {
    } else {
        let rest = text.skip(1);
        lemma_first_cut(rest, sep);
        assert forall|j: int| 0 <= j < first_cut(text, sep) implies !sep.cuts(
            #[trigger] text[j],
        ) by {
            if j > 0 {
                assert(text[j] == rest[j - 1]);
            }
        }
    }
}

/// A position that holds a separator, with none before it, is `first_cut`;
/// so is the length of a text that holds none.
pub proof fn lemma_first_cut_is(text: Seq<char>, sep: Separator, at: int)
    requires
        0 <= at <= text.len(),
        forall|j: int| 0 <= j < at ==> !sep.cuts(#[trigger] text[j]),
        at < text.len() ==> sep.cuts(text[at]),
    ensures
        first_cut(text, sep) == at,
{
    lemma_first_cut(text, sep);
}

/// A text without a separator is its own single part.
pub proof fn lemma_split_whole(text: Seq<char>, sep: Separator)
    requires
        forall|j: int| 0 <= j < text.len() ==> !sep.cuts(#[trigger] text[j]),
    ensures
        split(text, sep) == seq![text],
{
    lemma_first_cut_is(text, sep, text.len() as int);
}

/// A text that begins with a part without a separator, then has a
/// separator, is cut there: the part comes first, and the parts of the rest
/// follow.
pub proof fn lemma_split_first(head: Seq<char>, cut: char, tail: Seq<char>, sep: Separator)
    requires
        forall|j: int| 0 <= j < head.len() ==> !sep.cuts(#[trigger] head[j]),
        sep.cuts(cut),
    ensures
        split(head + seq![cut] + tail, sep) == seq![head] + split(tail, sep),
{
    let text = head + seq![cut] + tail;
    assert forall|j: int| 0 <= j < head.len() implies !sep.cuts(#[trigger] text[j]) by {}
    lemma_first_cut_is(text, sep, head.len() as int);
    assert(text.take(head.len() as int) =~= head);
    assert(text.skip(head.len() as int + 1) =~= tail);
}

/// Cuts `text` at every separator and returns the parts in order.
pub fn split_text(text: &str, sep: Separator) -> (parts: Vec<String>)
    ensures
        parts.deep_view() == split(text@, sep),
{
    let chars = chars_of(text);
    let mut parts: Vec<String> = Vec::new();
    let mut current = String::new();
    let mut start: usize = 0;
    let mut i: usize = 0;
    assert(chars@.skip(0) =~= chars@);
    while i < chars.len()
        invariant
            start <= i <= chars.len(),
            current@ == chars@.subrange(start as int, i as int),
            forall|j: int| start <= j < i ==> !sep.cuts(#[trigger] chars@[j]),
            split(chars@, sep) == parts.deep_view() + split(chars@.skip(start as int), sep),
        decreases chars.len() - i,
    {
        let c = chars[i];
        if sep.cuts_at(c) {
            proof {
                let rest = chars@.skip(start as int);
                assert forall|j: int| 0 <= j < i - start implies !sep.cuts(#[trigger] rest[j]) by {}
                lemma_first_cut_is(rest, sep, i - start);
                assert(rest.take(i - start) =~= current@);
                assert(rest.skip(i - start + 1) =~= chars@.skip(i + 1));
                assert(parts.deep_view().push(current@) + split(chars@.skip(i + 1), sep)
                    =~= parts.deep_view() + split(rest, sep));
            }
            parts.push(current);
            current = String::new();
            start = i + 1;
        } else {
            current.push(c);
        }
        i = i + 1;
    }
    proof {
        let rest = chars@.skip(start as int);
        assert forall|j: int| 0 <= j < rest.len() implies !sep.cuts(#[trigger] rest[j]) by {}
        lemma_first_cut_is(rest, sep, rest.len() as int);
    }
    parts.push(current);
    parts
}

/// The position of the first `c` in `text`, if it holds one.
pub fn find_char(text: &str, c: char) -> (found: Option<usize>)
    ensures
        match found {
            Some(at) => at == first_cut(text@, Separator::Char(c)) && at < text@.len(),
            None => first_cut(text@, Separator::Char(c)) == text@.len(),
        },
{
    let chars = chars_of(text);
    let mut i: usize = 0;
    while i < chars.len()
        invariant
            i <= chars.len(),
            chars@ == text@,
            forall|j: int| 0 <= j < i ==> !Separator::Char(c).cuts(#[trigger] chars@[j]),
        decreases chars.len() - i,
    {
        if chars[i] == c {
            proof {
                lemma_first_cut_is(chars@, Separator::Char(c), i as int);
            }
            return Some(i);
        }
        i = i + 1;
    }
    proof {
        lemma_first_cut_is(chars@, Separator::Char(c), chars@.len() as int);
    }
    None
}

/// The character that writes the digit `d`.
pub open spec fn digit(d: nat) -> char
    recommends
        d < 10,
{
    if d == 0 {
        '0'
    } else if d == 1 {
        '1'
    } else if d == 2 {
        '2'
    } else if d == 3 {
        '3'
    } else if d == 4 {
        '4'
    } else if d == 5 {
        '5'
    } else if d == 6 {
        '6'
    } else if d == 7 {
        '7'
    } else if d == 8 {
        '8'
    } else {
        '9'
    }
}

/// The decimal form of `n`, without sign or leading zeros.
pub open spec fn decimal(n: nat) -> Seq<char>
    decreases n,
{
    if n < 10 {
        seq![digit(n)]
    } else {
        decimal(n / 10).push(digit(n % 10))
    }
}

fn digit_char(d: u64) -> (c: char)
    requires
        d < 10,
    ensures
        c == digit(d as nat),
{
    if d == 0 {
        '0'
    } else if d == 1 {
        '1'
    } else if d == 2 {
        '2'
    } else if d == 3 {
        '3'
    } else if d == 4 {
        '4'
    } else if d == 5 {
        '5'
    } else if d == 6 {
        '6'
    } else if d == 7 {
        '7'
    } else if d == 8 {
        '8'
    } else {
        '9'
    }
}

/// Appends the decimal form of `n` to `text`.
pub fn push_decimal(text: &mut String, n: u64)
    ensures
        final(text)@ == old(text)@ + decimal(n as nat),
    decreases n,
{
    if n >= 10 {
        push_decimal(text, n / 10);
    }
    text.push(digit_char(n % 10));
}

/// The decimal form of `n`.
pub fn decimal_text(n: u64) -> (text: String)
    ensures
        text@ == decimal(n as nat),
{
    let mut text = String::new();
    push_decimal(&mut text, n);
    text
}

/// Whether `c` is one of the digits `0` to `9`.
pub open spec fn is_digit(c: char) -> bool {
    '0' as u32 <= c as u32 <= '9' as u32
}

/// The number that a run of digits writes; leading zeros count for nothing.
pub open spec fn digits_value(digits: Seq<char>) -> nat
    decreases digits.len(),
{
    if digits.len() == 0 {
        0
    } else {
        digits_value(digits.drop_last()) * 10 + (digits.last() as u32 - '0' as u32) as nat
    }
}

/// Whether every character of `text` is a digit.
pub open spec fn all_digits(text: Seq<char>) -> bool {
    forall|i: int| 0 <= i < text.len() ==> is_digit(#[trigger] text[i])
}

/// `text` without the `+` that may lead it.
pub open spec fn unsigned_part(text: Seq<char>) -> Seq<char> {
    if text.len() > 0 && text[0] == '+' {
        text.skip(1)
    } else {
        text
    }
}

/// What a text means as a 16-bit number: an optional `+`, then one or more
/// digits, nothing else, and a value that fits.
pub open spec fn parsed_u16(text: Seq<char>) -> Option<u16> {
    let digits = unsigned_part(text);
    if digits.len() > 0 && all_digits(digits) && digits_value(digits) <= u16::MAX {
        Some(digits_value(digits) as u16)
    } else {
        None
    }
}

/// The decimal form of a number is a run of digits that writes that number.
pub proof fn lemma_decimal_is_digits(n: nat)
    ensures
        decimal(n).len() > 0,
        all_digits(decimal(n)),
        digits_value(decimal(n)) == n,
    decreases n,
{
    if n < 10 {
        assert(digits_value(decimal(n).drop_last()) == 0);
    } else {
        lemma_decimal_is_digits(n / 10);
        assert(decimal(n).drop_last() =~= decimal(n / 10));
    }
}

/// A 16-bit number that is written in decimal is read back as itself.
pub proof fn lemma_decimal_reads_back(n: nat)
    requires
        n <= u16::MAX,
    ensures
        parsed_u16(decimal(n)) == Some(n as u16),
{
    lemma_decimal_is_digits(n);
}

/// Reads a text as a 16-bit number.
pub fn parse_u16(text: &str) -> (value: Option<u16>)
    ensures
        value == parsed_u16(text@),
{
    let chars = chars_of(text);
    let mut i: usize = 0;
    if chars.len() > 0 && chars[0] == '+' {
        i = 1;
    }
    let first: usize = i;
    if i >= chars.len() {
        return None;
    }
    let ghost digits = chars@.skip(first as int);
    assert(digits == unsigned_part(text@));
    let mut value: u32 = 0;
    let mut fits: bool = true;
    while i < chars.len()
        invariant
            first <= i <= chars.len(),
            first < chars.len(),
            digits == chars@.skip(first as int),
            digits == unsigned_part(text@),
            forall|j: int| 0 <= j < i - first ==> is_digit(#[trigger] digits[j]),
            fits ==> value == digits_value(digits.take(i - first)) && value <= u16::MAX,
            !fits ==> digits_value(digits.take(i - first)) > u16::MAX,
        decreases chars.len() - i,
    {
        let c: u32 = chars[i] as u32;
        if c < 48 || c > 57 {
            assert(!is_digit(digits[i - first]));
            return None;
        }
        assert(digits.take(i - first + 1).drop_last() =~= digits.take(i - first));
        if fits {
            value = value * 10 + (c - 48);
            if value > 65535 {
                fits = false;
            }
        }
        i = i + 1;
    }
    assert(digits.take(i - first) =~= digits);
    if fits {
        Some(value as u16)
    } else {
        None
    }
}

/// The texts of `parts` in order, with `sep` between each two of them.
pub open spec fn joined(parts: Seq<Seq<char>>, sep: Seq<char>) -> Seq<char>
    decreases parts.len(),
{
    if parts.len() == 0 {
        Seq::empty()
    } else if parts.len() == 1 {
        parts[0]
    } else {
        joined(parts.drop_last(), sep) + sep + parts.last()
    }
}

/// Joins the texts of `parts`, with `sep` between each two of them.
pub fn join(parts: &Vec<String>, sep: &str) -> (text: String)
    ensures
        text@ == joined(parts.deep_view(), sep@),
{
    let mut text = String::new();
    let mut i: usize = 0;
    while i < parts.len()
        invariant
            i <= parts.len(),
            text@ == joined(parts.deep_view().take(i as int), sep@),
        decreases parts.len() - i,
    {
        assert(parts.deep_view().take(i + 1).drop_last() =~= parts.deep_view().take(i as int));
        if i > 0 {
            text.append(sep);
        }
        text.append(parts[i].as_str());
        i = i + 1;
    }
    assert(parts.deep_view().take(i as int) =~= parts.deep_view());
    text
}

} // verus!
