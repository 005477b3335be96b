//! Searching, trimming and reading text.
//!
//! Positions count characters, not bytes.

use vstd::prelude::*;
use vstd::string::*;

verus! {

/// `p` stands in `s` at position `i`.
pub open spec fn occurs_at(s: Seq<char>, p: Seq<char>, i: int) -> bool {
    0 <= i && i + p.len() <= s.len() && s.subrange(i, i + p.len()) == p
}

/// `p` stands somewhere in `s`.
pub open spec fn has_text(s: Seq<char>, p: Seq<char>) -> bool {
    exists|i: int| occurs_at(s, p, i)
}

/// `i` is the last position at which `p` stands in `s`.
pub open spec fn last_occurrence(s: Seq<char>, p: Seq<char>, i: int) -> bool {
    occurs_at(s, p, i) && forall|j: int| i < j ==> !occurs_at(s, p, j)
}

/// `s` begins with `p`.
pub open spec fn begins_with(s: Seq<char>, p: Seq<char>) -> bool {
    occurs_at(s, p, 0)
}

/// The characters with the Unicode property White_Space.
pub open spec fn white_space(c: char) -> bool {
    let n = c as int;
    ||| 0x9 <= n <= 0xd
    ||| n == 0x20
    ||| n == 0x85
    ||| n == 0xa0
    ||| n == 0x1680
    ||| 0x2000 <= n <= 0x200a
    ||| n == 0x2028
    ||| n == 0x2029
    ||| n == 0x202f
    ||| n == 0x205f
    ||| n == 0x3000
}

/// `s` holds nothing but white space.
pub open spec fn blank(s: Seq<char>) -> bool {
    forall|i: int| 0 <= i < s.len() ==> white_space(#[trigger] s[i])
}

/// `s` without the white space in front.
pub open spec fn trim_start(s: Seq<char>) -> Seq<char>
    decreases s.len(),
{
    if s.len() > 0 && white_space(s[0]) {
        trim_start(s.drop_first())
    } else {
        s
    }
}

/// `s` without the white space at the end.
pub open spec fn trim_end(s: Seq<char>) -> Seq<char>
    decreases s.len(),
{
    if s.len() > 0 && white_space(s.last()) {
        trim_end(s.drop_last())
    } else {
        s
    }
}

/// `s` without the white space at both ends.
pub open spec fn trimmed(s: Seq<char>) -> Seq<char> {
    trim_end(trim_start(s))
}

/// An ASCII capital as its small letter, any other character as it is.
pub open spec fn ascii_lower(c: char) -> char {
    if 'A' <= c <= 'Z' {
        (c as u32 + 32) as char
    } else {
        c
    }
}

/// `s` with its ASCII capitals as small letters.
pub open spec fn ascii_lowercase(s: Seq<char>) -> Seq<char> {
    Seq::new(s.len(), |i: int| ascii_lower(s[i]))
}

/// `s` holds only ASCII characters.
pub open spec fn ascii_text(s: Seq<char>) -> bool {
    forall|i: int| 0 <= i < s.len() ==> (#[trigger] s[i] as int) < 128
}

/// What stands after the first `-`, where there is one.
pub open spec fn after_dash(s: Seq<char>) -> Option<Seq<char>>
    decreases s.len(),
{
    if s.len() == 0 {
        None
    } else if s[0] == '-' {
        Some(s.drop_first())
    } else {
        after_dash(s.drop_first())
    }
}

/// A text that may be missing, or the empty text.
pub open spec fn or_empty(text: Option<Seq<char>>) -> Seq<char> {
    match text {
        Some(t) => t,
        None => Seq::empty(),
    }
}

/// The characters `0` to `9`.
pub open spec fn digit(c: char) -> bool {
    '0' <= c <= '9'
}

/// The number that the decimal digits `s` write.
pub open spec fn decimal(s: Seq<char>) -> int
    decreases s.len(),
{
    if s.len() == 0 {
        0
    } else {
        decimal(s.drop_last()) * 10 + (s.last() as int - '0' as int)
    }
}

/// `s` holds only decimal digits.
pub open spec fn all_digits(s: Seq<char>) -> bool {
    forall|i: int| 0 <= i < s.len() ==> digit(#[trigger] s[i])
}

/// `s` without one `+` in front.
pub open spec fn without_plus(s: Seq<char>) -> Seq<char> {
    if s.len() > 0 && s[0] == '+' {
        s.drop_first()
    } else {
        s
    }
}

/// The number that `s` writes: one or more decimal digits, with or without a `+` in
/// front, and no more than a `u64` holds.
pub open spec fn unsigned_number(s: Seq<char>) -> Option<u64> {
    let digits = without_plus(s);
    if digits.len() > 0 && all_digits(digits) && decimal(digits) <= u64::MAX {
        Some(decimal(digits) as u64)
    } else {
        None
    }
}

/// `char::is_whitespace` answers whether the character has the Unicode property
/// White_Space.
pub assume_specification[ char::is_whitespace ](c: char) -> (b: bool)
    ensures
        b == white_space(c),
;

/// `str::to_ascii_lowercase` maps the ASCII letters `A` to `Z` to `a` to `z` and leaves
/// every other character as it is.
pub assume_specification[ str::to_ascii_lowercase ](s: &str) -> (r: String)
    ensures
        r@ == ascii_lowercase(s@),
;

/// The lower-case form of a text by Unicode's rules, as `str::to_lowercase` gives it.
pub uninterp spec fn unicode_lowercase(s: Seq<char>) -> Seq<char>;

/// `str::to_lowercase` maps a text to its Unicode lower-case form, which for ASCII text
/// is the text with its ASCII capitals as small letters.
pub assume_specification[ str::to_lowercase ](s: &str) -> (r: String)
    ensures
        r@ == unicode_lowercase(s@),
        ascii_text(s@) ==> r@ == ascii_lowercase(s@),
;

/// The two texts hold the same characters.
pub fn same_text(a: &str, b: &str) -> (same: bool)
    ensures
        same == (a@ == b@),
{
    a.to_owned() == b.to_owned()
}

/// A copy of a text that may be missing.
pub fn copied(text: &Option<String>) -> (copy: Option<String>)
    ensures
        copy == *text,
        copy.deep_view() == text.deep_view(),
{
    match text {
        Some(t) => Some(t.clone()),
        None => None,
    }
}

/// The characters of a text.
fn chars_of(s: &str) -> (v: Vec<char>)
    ensures
        v@ == s@,
{
    let mut v: Vec<char> = Vec::new();
    for c in it: s.chars()
        invariant
            it.seq() == s@,
            v@ == it.seq().take(it.index() as int),
    {
        v.push(c);
    }
    v
}

/// Whether the text `p` stands in `s` at position `i`.
fn matches_at(s: &Vec<char>, p: &Vec<char>, i: usize) -> (found: bool)
    requires
        i <= s.len(),
    ensures
        found == occurs_at(s@, p@, i as int),
{
    if p.len() > s.len() - i {
        return false;
    }
    let mut k: usize = 0;
    while k < p.len()
        invariant
            k <= p.len(),
            i + p.len() <= s.len(),
            forall|m: int| 0 <= m < k ==> s[i + m] == #[trigger] p[m],
        decreases p.len() - k,
    {
        if s[i + k] != p[k] {
            assert(s@.subrange(i as int, i + p.len())[k as int] != p@[k as int]);
            return false;
        }
        k += 1;
    }
    assert(s@.subrange(i as int, i + p.len()) =~= p@);
    true
}

/// The last position at which `p` stands in `s`.
pub fn rfind(s: &str, p: &str) -> (at: Option<usize>)
    ensures
        match at {
            Some(i) => i <= s@.len() && last_occurrence(s@, p@, i as int),
            None => !has_text(s@, p@),
        },
{
    let text: Vec<char> = chars_of(s);
    let part: Vec<char> = chars_of(p);
    if matches_at(&text, &part, text.len()) {
        return Some(text.len());
    }
    let mut i: usize = text.len();
    while i > 0
        invariant
            i <= text.len(),
            text@ == s@,
            part@ == p@,
            forall|j: int| i <= j ==> !occurs_at(s@, p@, j),
        decreases i,
    {
        i -= 1;
        if matches_at(&text, &part, i) {
            return Some(i);
        }
    }
    None
}

/// Whether `p` stands somewhere in `s`.
pub fn contains(s: &str, p: &str) -> (found: bool)
    ensures
        found == has_text(s@, p@),
{
    match rfind(s, p) {
        Some(_) => true,
        None => false,
    }
}

/// Whether `s` begins with `p`.
pub fn starts_with(s: &str, p: &str) -> (found: bool)
    ensures
        found == begins_with(s@, p@),
{
    matches_at(&chars_of(s), &chars_of(p), 0)
}

/// Whether a text holds nothing but white space.
pub fn is_blank(s: &str) -> (b: bool)
    ensures
        b == blank(s@),
{
    let text: Vec<char> = chars_of(s);
    let mut i: usize = 0;
    while i < text.len()
        invariant
            i <= text.len(),
            text@ == s@,
            forall|j: int| 0 <= j < i ==> white_space(#[trigger] text@[j]),
        decreases text.len() - i,
    {
        if !text[i].is_whitespace() {
            assert(!white_space(s@[i as int]));
            return false;
        }
        i += 1;
    }
    true
}

/// A text without the white space at both ends.
pub fn trim(s: &str) -> (r: &str)
    ensures
        r@ == trimmed(s@),
{
    let text: Vec<char> = chars_of(s);
    let mut from: usize = 0;
    assert(s@.skip(0) =~= s@);
    while from < text.len() && text[from].is_whitespace()
        invariant
            from <= text.len(),
            text@ == s@,
            trim_start(s@) == trim_start(s@.skip(from as int)),
        decreases text.len() - from,
    {
        assert(s@.skip(from as int).drop_first() =~= s@.skip(from + 1));
        from += 1;
    }
    let ghost rest = s@.skip(from as int);
    assert(trim_start(s@) == rest);
    let mut to: usize = text.len();
    assert(rest.take(to - from) =~= rest);
    while to > from && text[to - 1].is_whitespace()
        invariant
            from <= to <= text.len(),
            text@ == s@,
            rest == s@.skip(from as int),
            trim_end(rest) == trim_end(rest.take(to - from)),
        decreases to,
    {
        assert(rest.take(to - from).drop_last() =~= rest.take(to - from - 1));
        to -= 1;
    }
    assert(trim_end(rest) == rest.take(to - from));
    assert(rest.take(to - from) =~= s@.subrange(from as int, to as int));
    s.substring_char(from, to)
}

/// What stands after the first `-`, where there is one.
pub fn tail_after_dash(s: &str) -> (tail: Option<String>)
    ensures
        tail.deep_view() == after_dash(s@),
{
    let text: Vec<char> = chars_of(s);
    let mut i: usize = 0;
    assert(s@.skip(0) =~= s@);
    while i < text.len()
        invariant
            i <= text.len(),
            text@ == s@,
            after_dash(s@) == after_dash(s@.skip(i as int)),
        decreases text.len() - i,
    {
        assert(s@.skip(i as int).drop_first() =~= s@.skip(i + 1));
        if text[i] == '-' {
            let tail: String = s.substring_char(i + 1, text.len()).to_owned();
            assert(tail@ =~= s@.skip(i + 1));
            return Some(tail);
        }
        i += 1;
    }
    None
}

/// Every digit that follows can only make the number larger.
proof fn lemma_decimal_grows(s: Seq<char>, n: int)
    requires
        0 <= n <= s.len(),
        forall|i: int| 0 <= i < s.len() ==> digit(#[trigger] s[i]),
    ensures
        0 <= decimal(s.take(n)) <= decimal(s),
    decreases s.len(),
{
    if n == s.len() {
        assert(s.take(n) =~= s);
        if n > 0 {
            lemma_decimal_grows(s.drop_last(), n - 1);
            assert(s.drop_last().take(n - 1) =~= s.drop_last());
        }
    } else {
        lemma_decimal_grows(s.drop_last(), n);
        assert(s.drop_last().take(n) =~= s.take(n));
    }
}

/// A text that may be missing, or the empty text.
pub fn given_or_empty(text: Option<String>) -> (t: String)
    ensures
        t@ == or_empty(text.deep_view()),
{
    match text {
        Some(t) => t,
        None => String::new(),
    }
}

/// Reads an unsigned decimal number.
pub fn parse_u64(s: &str) -> (number: Option<u64>)
    ensures
        number == unsigned_number(s@),
{
    let text: Vec<char> = chars_of(s);
    let start: usize = if text.len() > 0 && text[0] == '+' {
        1
    } else {
        0
    };
    let ghost digits = s@.skip(start as int);
    assert(digits =~= without_plus(s@));
    if start == text.len() {
        return None;
    }
    let mut value: u64 = 0;
    let mut i: usize = start;
    while i < text.len()
        invariant
            start <= i <= text.len(),
            start < text.len(),
            text@ == s@,
            digits == s@.skip(start as int),
            digits == without_plus(s@),
            all_digits(digits.take(i - start)),
            value == decimal(digits.take(i - start)),
        decreases text.len() - i,
    {
        let c: char = text[i];
        let ghost seen = digits.take(i - start);
        let ghost longer = digits.take(i - start + 1);
        assert(longer.drop_last() =~= seen);
        assert(longer.last() == c);
        assert(c == digits[i - start]);
        if c < '0' || '9' < c {
            assert(!all_digits(digits));
            return None;
        }
        let unit: u64 = c as u64 - '0' as u64;
        assert(all_digits(longer)) by {
            assert forall|j: int| 0 <= j < longer.len() implies digit(#[trigger] longer[j]) by {
                assert(j < seen.len() ==> longer[j] == seen[j]);
            }
        }
        assert(decimal(longer) == value * 10 + unit);
        if value > (u64::MAX - unit) / 10 {
            proof {
                if all_digits(digits) {
                    lemma_decimal_grows(digits, i - start + 1);
                }
            }
            return None;
        }
        value = value * 10 + unit;
        i += 1;
    }
    assert(digits.take(text.len() - start) =~= digits);
    Some(value)
}

/// What is left once the front is trimmed does not begin with white space, and is blank
/// only if the whole text is.
proof fn lemma_trim_start(s: Seq<char>)
    ensures
        trim_start(s).len() > 0 ==> !white_space(trim_start(s)[0]),
        !blank(s) ==> !blank(trim_start(s)),
    decreases s.len(),
{
    if s.len() > 0 && white_space(s[0]) {
        lemma_trim_start(s.drop_first());
        if blank(s.drop_first()) {
            assert forall|i: int| 0 <= i < s.len() implies white_space(#[trigger] s[i]) by {
                if i > 0 {
                    assert(s[i] == s.drop_first()[i - 1]);
                }
            }
        }
    } else if !blank(s) {
        assert(!white_space(s[0]));
    }
}

/// What is left once the end is trimmed does not end with white space, begins as the
/// text did, and is empty only if the text is blank.
proof fn lemma_trim_end(s: Seq<char>)
    ensures
        trim_end(s).len() > 0 ==> !white_space(trim_end(s).last()) && trim_end(s)[0] == s[0],
        !blank(s) ==> trim_end(s).len() > 0,
    decreases s.len(),
{
    if s.len() > 0 && white_space(s.last()) {
        lemma_trim_end(s.drop_last());
        if blank(s.drop_last()) {
            assert forall|i: int| 0 <= i < s.len() implies white_space(#[trigger] s[i]) by {
                if i < s.len() - 1 {
                    assert(s[i] == s.drop_last()[i]);
                }
            }
        }
    }
}

/// Trimming leaves nothing to trim at either end, and leaves nothing at all only of a
/// blank text.
pub proof fn lemma_trimmed(s: Seq<char>)
    ensures
        trimmed(s).len() > 0 ==> !white_space(trimmed(s)[0]) && !white_space(trimmed(s).last()),
        !blank(s) ==> trimmed(s).len() > 0,
{
    lemma_trim_start(s);
    lemma_trim_end(trim_start(s));
}

/// A text stands in another exactly where the other is made of something, the text, and
/// something more.
pub proof fn law_parts_are_found(s: Seq<char>, p: Seq<char>)
    ensures
        has_text(s, p) <==> exists|before: Seq<char>, after: Seq<char>|
            s == #[trigger] (before + p + after),
{
    if has_text(s, p) {
        let i = choose|i: int| occurs_at(s, p, i);
        assert(s =~= s.take(i) + p + s.skip(i + p.len()));
    }
    if exists|before: Seq<char>, after: Seq<char>| s == #[trigger] (before + p + after) {
        let (before, after) = choose|before: Seq<char>, after: Seq<char>|
            s == #[trigger] (before + p + after);
        assert(s.subrange(before.len() as int, (before.len() + p.len()) as int) =~= p);
        assert(occurs_at(s, p, before.len() as int));
    }
}

/// A text begins with another exactly where it is made of the other and something more.
pub proof fn law_beginnings_are_found(s: Seq<char>, p: Seq<char>)
    ensures
        begins_with(s, p) <==> exists|rest: Seq<char>| s == #[trigger] (p + rest),
{
    if begins_with(s, p) {
        assert(s =~= p + s.skip(p.len() as int));
    }
    if exists|rest: Seq<char>| s == #[trigger] (p + rest) {
        let rest = choose|rest: Seq<char>| s == #[trigger] (p + rest);
        assert(s.subrange(0, p.len() as int) =~= p);
    }
}

/// What follows the first hyphen is found whatever it holds, and nothing is found where
/// there is no hyphen.
pub proof fn law_the_first_hyphen_splits(head: Seq<char>, tail: Seq<char>)
    requires
        forall|i: int| 0 <= i < head.len() ==> #[trigger] head[i] != '-',
    ensures
        after_dash(head + seq!['-'] + tail) == Some(tail),
        after_dash(head) is None,
    decreases head.len(),
{
    let s = head + seq!['-'] + tail;
    if head.len() == 0 {
        assert(s.drop_first() =~= tail);
    } else {
        law_the_first_hyphen_splits(head.drop_first(), tail);
        assert(s.drop_first() =~= head.drop_first() + seq!['-'] + tail);
        assert(s[0] == head[0]);
    }
}

/// White space goes from both ends of a text, and nothing else goes.
pub proof fn law_trimming_takes_the_ends(before: Seq<char>, core: Seq<char>, after: Seq<char>)
    requires
        forall|i: int| 0 <= i < before.len() ==> white_space(#[trigger] before[i]),
        forall|i: int| 0 <= i < after.len() ==> white_space(#[trigger] after[i]),
        core.len() > 0,
        !white_space(core[0]),
        !white_space(core.last()),
    ensures
        trimmed(before + core + after) == core,
    decreases before.len() + after.len(),
{
    let s = before + core + after;
    if before.len() > 0 {
        law_trimming_takes_the_ends(before.drop_first(), core, after);
        assert(s.drop_first() =~= before.drop_first() + core + after);
        assert(s[0] == before[0]);
    } else if after.len() > 0 {
        law_trimming_takes_the_ends(before, core, after.drop_last());
        assert(s.drop_last() =~= before + core + after.drop_last());
        assert(s.last() == after.last());
        assert(s[0] == core[0]);
        assert((before + core + after.drop_last())[0] == core[0]);
    } else {
        assert(s =~= core);
    }
}

/// An ASCII capital becomes its small letter, any other character stays, and none is lost
/// or added.
pub proof fn law_small_letters(s: Seq<char>)
    ensures
        ascii_lowercase(s).len() == s.len(),
        forall|i: int|
            0 <= i < s.len() ==> (#[trigger] ascii_lowercase(s)[i]) as int == (if 65 <= s[i] as int
                && s[i] as int <= 90 {
                s[i] as int + 32
            } else {
                s[i] as int
            }),
{
}

/// A text that is there is taken as it is, a missing one as empty.
pub proof fn law_missing_texts_are_empty(text: Seq<char>)
    ensures
        or_empty(Some(text)) == text,
        or_empty(None).len() == 0,
{
}

/// How a number is read, digit by digit: a single digit is its value, one more digit
/// behind a number makes ten times the number and the digit, unless a `u64` does not hold
/// that, and a `+` in front changes nothing. Digits that write too much stay too much.
pub proof fn law_numbers_grow_by_digits(s: Seq<char>, c: char)
    requires
        48 <= c as int <= 57,
    ensures
        unsigned_number(seq![c]) == Some((c as int - 48) as u64),
        (s.len() > 0 && s[0] != '+') ==> unsigned_number(seq!['+'] + s) == unsigned_number(s),
        s.len() > 0 && unsigned_number(s) is Some ==> unsigned_number(s.push(c)) == (
        if unsigned_number(s)->0 * 10 + (c as int - 48) <= 0xffff_ffff_ffff_ffff {
            Some((unsigned_number(s)->0 * 10 + (c as int - 48)) as u64)
        } else {
            None
        }),
        s.len() > 0 && unsigned_number(s) is None && (forall|i: int|
            0 <= i < s.len() ==> 48 <= (#[trigger] s[i]) as int <= 57) ==> unsigned_number(
            s.push(c),
        ) is None,
{
    reveal_with_fuel(decimal, 2);
    assert(without_plus(seq![c]) =~= seq![c]);
    assert(seq![c].drop_last() =~= Seq::<char>::empty());
    assert((seq!['+'] + s).drop_first() =~= s);
    let digits = without_plus(s);
    if s.len() > 0 && all_digits(digits) {
        let longer = digits.push(c);
        assert(without_plus(s.push(c)) =~= longer);
        assert(longer.drop_last() =~= digits);
        assert forall|i: int| 0 <= i < longer.len() implies digit(#[trigger] longer[i]) by {
            if i < digits.len() {
                assert(digit(digits[i]));
            }
        }
        lemma_decimal_grows(digits, digits.len() as int);
        assert(decimal(longer) == decimal(digits) * 10 + (c as int - 48));
    }
}

/// What holds any character but digits, save one `+` in front of them, is no number, nor
/// is what holds no digit at all.
pub proof fn law_only_digits_make_numbers(s: Seq<char>)
    ensures
        s.len() == 0 ==> unsigned_number(s) is None,
        s.len() == 1 && s[0] == '+' ==> unsigned_number(s) is None,
        (exists|i: int|
            0 <= i < s.len() && !(48 <= (#[trigger] s[i]) as int <= 57) && (i > 0 || s[0] != '+'))
            ==> unsigned_number(s) is None,
{
    if exists|i: int|
        0 <= i < s.len() && !(48 <= (#[trigger] s[i]) as int <= 57) && (i > 0 || s[0] != '+') {
        let i = choose|i: int|
            0 <= i < s.len() && !(48 <= (#[trigger] s[i]) as int <= 57) && (i > 0 || s[0] != '+');
        if s[0] == '+' {
            assert(without_plus(s)[i - 1] == s[i]);
        } else {
            assert(without_plus(s)[i] == s[i]);
        }
    }
}

/// Of white space alone nothing is left.
pub proof fn law_trimming_leaves_no_white_space(s: Seq<char>)
    requires
        forall|i: int| 0 <= i < s.len() ==> white_space(#[trigger] s[i]),
    ensures
        blank(s),
        trimmed(s).len() == 0,
    decreases s.len(),
{
    if s.len() > 0 {
        law_trimming_leaves_no_white_space(s.drop_first());
    }
}

} // verus!
