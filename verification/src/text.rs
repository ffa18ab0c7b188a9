//! Strings as sequences of characters: trimming, splitting, searching, and numbers in
//! decimal notation.

use vstd::prelude::*;
use vstd::string::StringExecFns;

verus! {

// ---------------------------------------------------------------------------
// Characters
// ---------------------------------------------------------------------------

/// The characters with the Unicode property `White_Space`.
pub open spec fn is_space(c: char) -> bool {
    ||| 0x09 <= c as u32 <= 0x0d
    ||| c as u32 == 0x20
    ||| c as u32 == 0x85
    ||| c as u32 == 0xa0
    ||| c as u32 == 0x1680
    ||| 0x2000 <= c as u32 <= 0x200a
    ||| c as u32 == 0x2028
    ||| c as u32 == 0x2029
    ||| c as u32 == 0x202f
    ||| c as u32 == 0x205f
    ||| c as u32 == 0x3000
}

/// The upper-case form of an ASCII letter; any other character is left as it is.
pub open spec fn ascii_upper(c: char) -> char {
    if 'a' <= c && c <= 'z' {
        (c as u8 - 32) as u8 as char
    } else {
        c
    }
}

/// Whether a character is white space.
pub fn is_space_char(c: char) -> (space: bool)
    ensures
        space == is_space(c),
{
    let n: u32 = c as u32;
    (0x09 <= n && n <= 0x0d) || n == 0x20 || n == 0x85 || n == 0xa0 || n == 0x1680 || (0x2000 <= n
        && n <= 0x200a) || n == 0x2028 || n == 0x2029 || n == 0x202f || n == 0x205f || n == 0x3000
}

/// The upper-case form of an ASCII letter.
pub fn ascii_upper_char(c: char) -> (upper: char)
    ensures
        upper == ascii_upper(c),
{
    if 'a' <= c && c <= 'z' {
        (c as u8 - 32) as char
    } else {
        c
    }
}

// ---------------------------------------------------------------------------
// Building and comparing strings
// ---------------------------------------------------------------------------

/// `String::push` appends one character at the end of the string.
pub assume_specification[ String::push ](s: &mut String, c: char)
    ensures
        final(s)@ == old(s)@.push(c),
;

/// Whether two strings hold the same characters.
pub fn str_eq(a: &str, b: &str) -> (equal: bool)
    ensures
        equal == (a@ == b@),
{
    a.to_owned() == b.to_owned()
}

/// Whether a string holds no characters.
pub fn is_empty_str(s: &str) -> (empty: bool)
    ensures
        empty == (s@.len() == 0),
{
    proof {
        reveal_strlit("");
    }
    let empty = str_eq(s, "");
    assert(s@.len() == 0 ==> s@ =~= ""@);
    empty
}

/// The characters of a string.
pub fn chars_of(s: &str) -> (chars: Vec<char>)
    ensures
        chars@ == s@,
{
    let mut chars: Vec<char> = Vec::new();
    for c in it: s.chars()
        invariant
            it.seq() == s@,
            chars@ == s@.take(it.index() as int),
    {
        chars.push(c);
    }
    chars
}

/// The string made of the characters from `from` up to `to`.
pub fn string_of(chars: &Vec<char>, from: usize, to: usize) -> (s: String)
    requires
        from <= to <= chars@.len(),
    ensures
        s@ == chars@.subrange(from as int, to as int),
{
    let mut s = String::new();
    let mut i: usize = from;
    while i < to
        invariant
            from <= i <= to <= chars@.len(),
            s@ == chars@.subrange(from as int, i as int),
        decreases to - i,
    {
        s.push(chars[i]);
        i += 1;
    }
    s
}

/// Two strings, one after the other.
pub fn concat(a: &str, b: &str) -> (s: String)
    ensures
        s@ == a@ + b@,
{
    let mut s = a.to_owned();
    s.append(b);
    s
}

/// Three strings, one after the other.
pub fn concat3(a: &str, b: &str, c: &str) -> (s: String)
    ensures
        s@ == a@ + b@ + c@,
{
    let mut s = concat(a, b);
    s.append(c);
    s
}

/// Four strings, one after the other.
pub fn concat4(a: &str, b: &str, c: &str, d: &str) -> (s: String)
    ensures
        s@ == a@ + b@ + c@ + d@,
{
    let mut s = concat3(a, b, c);
    s.append(d);
    s
}

/// The contents of an optional string.
pub open spec fn optional(s: Option<String>) -> Option<Seq<char>> {
    match s {
        Some(text) => Some(text@),
        None => None,
    }
}

/// The contents of a list of strings.
pub open spec fn texts(list: Seq<String>) -> Seq<Seq<char>> {
    list.map_values(|text: String| text@)
}

/// Another list with the same strings.
pub fn duplicate_texts(list: &Vec<String>) -> (copy: Vec<String>)
    ensures
        texts(copy@) == texts(list@),
{
    let mut copy: Vec<String> = Vec::new();
    let mut i: usize = 0;
    while i < list.len()
        invariant
            i <= list@.len(),
            copy@ == list@.take(i as int),
        decreases list@.len() - i,
    {
        copy.push(list[i].clone());
        i += 1;
    }
    assert(copy@ =~= list@);
    copy
}

// ---------------------------------------------------------------------------
// Lower case
// ---------------------------------------------------------------------------

/// What `str::to_lowercase` makes of a string.
pub uninterp spec fn lowercase(s: Seq<char>) -> Seq<char>;

/// `str::to_lowercase`: the lower-case form of a string, by the mapping that Unicode has for
/// that. It depends on the string alone.
#[verifier::external_body]
pub(crate) fn lowercase_str(s: &str) -> (lower: String)
    ensures
        lower@ == lowercase(s@),
{
    s.to_lowercase()
}

// ---------------------------------------------------------------------------
// Quoting
// ---------------------------------------------------------------------------

/// What formatting with `{:?}` makes of a string.
pub uninterp spec fn quoted(s: Seq<char>) -> Seq<char>;

/// `std::fmt::Debug` of a string, as `format!` writes it with `{:?}`: the string between
/// quotation marks, with what is not printable escaped. It depends on the string alone.
#[verifier::external_body]
pub(crate) fn quoted_str(s: &str) -> (text: String)
    ensures
        text@ == quoted(s@),
{
    format!("{:?}", s)
}

/// Strings one after the other, each after a comma and a space.
pub open spec fn after_commas(list: Seq<Seq<char>>) -> Seq<char>
    decreases list.len(),
{
    if list.len() == 0 {
        Seq::empty()
    } else {
        after_commas(list.drop_last()) + ", "@ + list.last()
    }
}

/// A list of strings between brackets, with commas between them.
pub open spec fn bracketed(list: Seq<Seq<char>>) -> Seq<char> {
    if list.len() == 0 {
        "[]"@
    } else {
        "["@ + list[0] + after_commas(list.skip(1)) + "]"@
    }
}

/// A list of strings, each as formatting with `{:?}` writes it.
pub open spec fn all_quoted(list: Seq<Seq<char>>) -> Seq<Seq<char>> {
    list.map_values(|s: Seq<char>| quoted(s))
}

/// A list of strings between brackets, with commas between them.
pub fn bracketed_texts(list: &Vec<String>) -> (text: String)
    ensures
        text@ == bracketed(texts(list@)),
{
    if list.len() == 0 {
        return "[]".to_owned();
    }
    let ghost rest = texts(list@).skip(1);
    let mut text = concat("[", list[0].as_str());
    let mut i: usize = 1;
    assert(text@ =~= "["@ + list@[0]@ + after_commas(rest.take(0)));
    while i < list.len()
        invariant
            1 <= i <= list@.len(),
            rest == texts(list@).skip(1),
            text@ == "["@ + list@[0]@ + after_commas(rest.take(i - 1)),
        decreases list@.len() - i,
    {
        assert(rest.take(i as int).drop_last() =~= rest.take(i - 1));
        assert(rest.take(i as int).last() == list@[i as int]@);
        text = concat3(text.as_str(), ", ", list[i].as_str());
        assert(text@ =~= "["@ + list@[0]@ + after_commas(rest.take(i as int)));
        i += 1;
    }
    assert(rest.take(list@.len() - 1) =~= rest);
    concat(text.as_str(), "]")
}

/// What formatting with `{:?}` makes of a list of strings.
pub fn quoted_texts(list: &Vec<String>) -> (text: String)
    ensures
        text@ == bracketed(all_quoted(texts(list@))),
{
    let mut parts: Vec<String> = Vec::new();
    let mut i: usize = 0;
    while i < list.len()
        invariant
            i <= list@.len(),
            parts@.len() == i,
            forall|j: int| 0 <= j < i ==> (#[trigger] parts@[j])@ == quoted(list@[j]@),
        decreases list@.len() - i,
    {
        parts.push(quoted_str(list[i].as_str()));
        i += 1;
    }
    assert(texts(parts@) =~= all_quoted(texts(list@)));
    bracketed_texts(&parts)
}

// ---------------------------------------------------------------------------
// Trimming
// ---------------------------------------------------------------------------

/// What is left without the white space at the start.
pub open spec fn trim_start(s: Seq<char>) -> Seq<char>
    decreases s.len(),
{
    if s.len() > 0 && is_space(s[0]) {
        trim_start(s.drop_first())
    } else {
        s
    }
}

/// What is left without the white space at the end.
pub open spec fn trim_end(s: Seq<char>) -> Seq<char>
    decreases s.len(),
{
    if s.len() > 0 && is_space(s.last()) {
        trim_end(s.drop_last())
    } else {
        s
    }
}

/// What is left without the white space at both ends.
pub open spec fn trim(s: Seq<char>) -> Seq<char> {
    trim_end(trim_start(s))
}

/// There is nothing but white space.
pub open spec fn is_blank(s: Seq<char>) -> bool {
    forall|i: int| 0 <= i < s.len() ==> is_space(#[trigger] s[i])
}

proof fn lemma_trim_start(s: Seq<char>, from: int)
    requires
        0 <= from <= s.len(),
        is_blank(s.take(from)),
        from < s.len() ==> !is_space(s[from]),
    ensures
        trim_start(s) == s.skip(from),
    decreases s.len(),
{
    if from > 0 {
        assert(s.take(from)[0] == s[0]);
        assert forall|i: int| 0 <= i < from - 1 implies is_space(
            #[trigger] s.drop_first().take(from - 1)[i],
        ) by {
            assert(s.take(from)[i + 1] == s[i + 1]);
        }
        lemma_trim_start(s.drop_first(), from - 1);
        assert(s.drop_first().skip(from - 1) =~= s.skip(from));
    } else {
        assert(s.skip(0) =~= s);
    }
}

proof fn lemma_trim_end(s: Seq<char>, to: int)
    requires
        0 <= to <= s.len(),
        is_blank(s.skip(to)),
        to > 0 ==> !is_space(s[to - 1]),
    ensures
        trim_end(s) == s.take(to),
    decreases s.len(),
{
    if to < s.len() {
        assert(s.skip(to)[s.len() - 1 - to] == s.last());
        assert forall|i: int| 0 <= i < s.len() - 1 - to implies is_space(
            #[trigger] s.drop_last().skip(to)[i],
        ) by {
            assert(s.skip(to)[i] == s[i + to]);
        }
        lemma_trim_end(s.drop_last(), to);
        assert(s.drop_last().take(to) =~= s.take(to));
    } else {
        assert(s.take(to) =~= s);
    }
}

/// A string is blank just when trimming leaves nothing of it.
pub proof fn law_blank_trims_to_nothing(s: Seq<char>)
    ensures
        is_blank(s) <==> trim(s).len() == 0,
    decreases s.len(),
{
    if s.len() > 0 {
        if is_space(s[0]) {
            law_blank_trims_to_nothing(s.drop_first());
            if is_blank(s) {
                assert forall|i: int| 0 <= i < s.len() - 1 implies is_space(
                    #[trigger] s.drop_first()[i],
                ) by {
                    assert(s.drop_first()[i] == s[i + 1]);
                }
            }
            if is_blank(s.drop_first()) {
                assert forall|i: int| 0 <= i < s.len() implies is_space(#[trigger] s[i]) by {
                    if i > 0 {
                        assert(s.drop_first()[i - 1] == s[i]);
                    }
                }
            }
        } else {
            lemma_trim_end_keeps_first(s);
        }
    }
}

proof fn lemma_trim_end_keeps_first(s: Seq<char>)
    requires
        s.len() > 0,
        !is_space(s[0]),
    ensures
        trim_end(s).len() > 0,
    decreases s.len(),
{
    if is_space(s.last()) {
        assert(s.drop_last()[0] == s[0]);
        lemma_trim_end_keeps_first(s.drop_last());
    }
}

/// Whether trimming leaves nothing.
pub fn is_blank_str(s: &str) -> (blank: bool)
    ensures
        blank == is_blank(s@),
{
    let chars = chars_of(s);
    let mut i: usize = 0;
    while i < chars.len()
        invariant
            chars@ == s@,
            i <= chars@.len(),
            is_blank(chars@.take(i as int)),
        decreases chars@.len() - i,
    {
        if !is_space_char(chars[i]) {
            return false;
        }
        assert(chars@.take(i + 1) =~= chars@.take(i as int).push(chars@[i as int]));
        i += 1;
    }
    assert(chars@.take(i as int) =~= chars@);
    true
}

/// The string without the white space at both ends.
pub fn trim_str(s: &str) -> (trimmed: String)
    ensures
        trimmed@ == trim(s@),
{
    let chars = chars_of(s);
    let mut from: usize = 0;
    while from < chars.len() && is_space_char(chars[from])
        invariant
            from <= chars@.len(),
            is_blank(chars@.take(from as int)),
        decreases chars@.len() - from,
    {
        assert(chars@.take(from + 1) =~= chars@.take(from as int).push(chars@[from as int]));
        from += 1;
    }
    proof {
        lemma_trim_start(chars@, from as int);
    }
    let ghost rest = chars@.skip(from as int);
    let mut to: usize = chars.len();
    while to > from && is_space_char(chars[to - 1])
        invariant
            from <= to <= chars@.len(),
            rest == chars@.skip(from as int),
            is_blank(rest.skip(to - from)),
        decreases to,
    {
        assert(rest.skip(to - 1 - from) =~= seq![chars@[to - 1]] + rest.skip(to - from));
        to -= 1;
    }
    proof {
        lemma_trim_end(rest, to - from);
        assert(rest.take(to - from) =~= chars@.subrange(from as int, to as int));
    }
    string_of(&chars, from, to)
}

// ---------------------------------------------------------------------------
// Splitting and searching
// ---------------------------------------------------------------------------

/// The place of the first `sep`, or the length where there is none.
pub open spec fn first_place(s: Seq<char>, sep: char) -> int
    decreases s.len(),
{
    if s.len() == 0 || s[0] == sep {
        0
    } else {
        1 + first_place(s.drop_first(), sep)
    }
}

/// The part before the first `sep`: all of it where there is none.
pub open spec fn before_first(s: Seq<char>, sep: char) -> Seq<char> {
    s.take(first_place(s, sep))
}

/// The part after the last `sep`: all of it where there is none.
pub open spec fn after_last(s: Seq<char>, sep: char) -> Seq<char>
    decreases s.len(),
{
    if s.len() == 0 || s.last() == sep {
        Seq::empty()
    } else {
        after_last(s.drop_last(), sep).push(s.last())
    }
}

/// The parts between one `sep` and the next, with those before the first and after the last.
pub open spec fn split(s: Seq<char>, sep: char) -> Seq<Seq<char>>
    decreases s.len(),
{
    if s.len() == 0 {
        seq![Seq::empty()]
    } else {
        let before = split(s.drop_last(), sep);
        if s.last() == sep {
            before.push(Seq::empty())
        } else {
            before.drop_last().push(before.last().push(s.last()))
        }
    }
}

/// Where there is no `sep`, there is nothing to split.
pub proof fn lemma_split_nothing(s: Seq<char>, sep: char)
    requires
        forall|i: int| 0 <= i < s.len() ==> #[trigger] s[i] != sep,
    ensures
        split(s, sep) == seq![s],
    decreases s.len(),
{
    if s.len() > 0 {
        let rest = s.drop_last();
        assert forall|i: int| 0 <= i < rest.len() implies #[trigger] rest[i] != sep by {
            assert(rest[i] == s[i]);
        }
        lemma_split_nothing(rest, sep);
        assert(s.last() == s[s.len() - 1]);
        assert(rest.push(s.last()) =~= s);
        assert(split(s, sep) =~= seq![s]);
    } else {
        assert(s =~= Seq::empty());
    }
}

/// The parts between one `sep` and the next, with those before the first and after the last.
pub fn split_str(s: &str, sep: char) -> (parts: Vec<String>)
    ensures
        texts(parts@) == split(s@, sep),
{
    let chars = chars_of(s);
    let mut parts: Vec<String> = Vec::new();
    let mut part = String::new();
    let mut i: usize = 0;
    assert(texts(parts@).push(part@) =~= split(chars@.take(0), sep));
    while i < chars.len()
        invariant
            i <= chars@.len(),
            texts(parts@).push(part@) == split(chars@.take(i as int), sep),
        decreases chars@.len() - i,
    {
        let ghost before = split(chars@.take(i as int), sep);
        let ghost done = parts@;
        let ghost open = part@;
        assert(chars@.take(i + 1).drop_last() =~= chars@.take(i as int));
        assert(before.drop_last() =~= texts(done));
        assert(before.last() == open);
        if chars[i] == sep {
            parts.push(part);
            part = String::new();
            assert(texts(parts@) =~= before);
            assert(part@ =~= Seq::<char>::empty());
        } else {
            part.push(chars[i]);
        }
        assert(texts(parts@).push(part@) =~= split(chars@.take(i + 1), sep));
        i += 1;
    }
    assert(chars@.take(chars@.len() as int) =~= chars@);
    let ghost done = parts@;
    let ghost open = part@;
    parts.push(part);
    assert(texts(parts@) =~= texts(done).push(open));
    parts
}

/// `part` occurs somewhere in `s`.
pub open spec fn occurs_in(part: Seq<char>, s: Seq<char>) -> bool {
    exists|i: int| occurs_at(part, s, i)
}

/// `part` occurs in `s` at the place `i`.
pub open spec fn occurs_at(part: Seq<char>, s: Seq<char>, i: int) -> bool {
    0 <= i && i + part.len() <= s.len() && s.subrange(i, i + part.len()) == part
}

/// The place of the first `sep` is known by what stands before it and at it.
pub proof fn lemma_first_place(s: Seq<char>, sep: char, i: int)
    requires
        0 <= i <= s.len(),
        forall|j: int| 0 <= j < i ==> s[j] != sep,
        i < s.len() ==> s[i] == sep,
    ensures
        first_place(s, sep) == i,
    decreases s.len(),
{
    if i > 0 {
        lemma_first_place(s.drop_first(), sep, i - 1);
    }
}

proof fn lemma_after_last(s: Seq<char>, sep: char, i: int)
    requires
        0 <= i <= s.len(),
        i > 0 ==> s[i - 1] == sep,
        forall|j: int| i <= j < s.len() ==> s[j] != sep,
    ensures
        after_last(s, sep) == s.skip(i),
    decreases s.len(),
{
    if i < s.len() {
        lemma_after_last(s.drop_last(), sep, i);
        assert(s.drop_last().skip(i).push(s.last()) =~= s.skip(i));
    } else {
        assert(s.skip(i) =~= Seq::<char>::empty());
    }
}

/// The place of the first `sep` among the characters, or their number.
pub fn first_place_of(chars: &Vec<char>, sep: char) -> (place: usize)
    ensures
        place == first_place(chars@, sep),
        place <= chars@.len(),
        place < chars@.len() ==> chars@[place as int] == sep,
        forall|j: int| 0 <= j < place ==> chars@[j] != sep,
{
    let mut i: usize = 0;
    while i < chars.len() && chars[i] != sep
        invariant
            i <= chars@.len(),
            forall|j: int| 0 <= j < i ==> chars@[j] != sep,
        decreases chars@.len() - i,
    {
        i += 1;
    }
    proof {
        lemma_first_place(chars@, sep, i as int);
    }
    i
}

/// The part of `s` before the first `sep`.
pub fn before_first_str(s: &str, sep: char) -> (part: String)
    ensures
        part@ == before_first(s@, sep),
{
    let chars = chars_of(s);
    let place = first_place_of(&chars, sep);
    string_of(&chars, 0, place)
}

/// The part of `s` after the last `sep`.
pub fn after_last_str(s: &str, sep: char) -> (part: String)
    ensures
        part@ == after_last(s@, sep),
{
    let chars = chars_of(s);
    let mut i: usize = chars.len();
    while i > 0 && chars[i - 1] != sep
        invariant
            i <= chars@.len(),
            forall|j: int| i <= j < chars@.len() ==> chars@[j] != sep,
        decreases i,
    {
        i -= 1;
    }
    proof {
        lemma_after_last(chars@, sep, i as int);
        assert(chars@.skip(i as int) =~= chars@.subrange(i as int, chars@.len() as int));
    }
    string_of(&chars, i, chars.len())
}

fn part_at(s: &Vec<char>, part: &Vec<char>, i: usize) -> (found: bool)
    requires
        i + part@.len() <= s@.len(),
    ensures
        found == occurs_at(part@, s@, i as int),
{
    let len: usize = s.len();
    let mut j: usize = 0;
    while j < part.len()
        invariant
            len == s@.len(),
            j <= part@.len(),
            i + part@.len() <= s@.len(),
            forall|k: int| 0 <= k < j ==> s@[i + k] == part@[k],
        decreases part@.len() - j,
    {
        if s[i + j] != part[j] {
            assert(s@.subrange(i as int, i + part@.len())[j as int] != part@[j as int]);
            return false;
        }
        j += 1;
    }
    assert(s@.subrange(i as int, i + part@.len()) =~= part@);
    true
}

/// Whether `part` occurs somewhere in `s`.
pub fn contains_str(s: &str, part: &str) -> (found: bool)
    ensures
        found == occurs_in(part@, s@),
{
    let text = chars_of(s);
    let wanted = chars_of(part);
    let mut i: usize = 0;
    while wanted.len() <= text.len() && i <= text.len() - wanted.len()
        invariant
            text@ == s@,
            wanted@ == part@,
            i <= text@.len() + 1,
            forall|k: int| 0 <= k < i ==> !occurs_at(part@, s@, k),
        decreases text@.len() + 1 - i,
    {
        if part_at(&text, &wanted, i) {
            return true;
        }
        if i == text.len() - wanted.len() {
            return false;
        }
        i += 1;
    }
    false
}

// ---------------------------------------------------------------------------
// Numbers in decimal notation
// ---------------------------------------------------------------------------

/// The character for a digit.
pub open spec fn digit_char(d: nat) -> char {
    (d + 48) as u8 as char
}

/// A decimal digit.
pub open spec fn is_digit(c: char) -> bool {
    '0' <= c && c <= '9'
}

/// The value of a digit character.
pub open spec fn digit_value(c: char) -> nat {
    (c as u8 - 48) as nat
}

/// The digits of a number, without leading zeros.
pub open spec fn digits(n: nat) -> Seq<char>
    decreases n,
{
    if n < 10 {
        seq![digit_char(n)]
    } else {
        digits(n / 10).push(digit_char(n % 10))
    }
}

/// An integer in decimal notation: a minus sign where it is negative, then its digits.
pub open spec fn decimal(n: int) -> Seq<char> {
    if n < 0 {
        seq!['-'] + digits((-n) as nat)
    } else {
        digits(n as nat)
    }
}

/// There is at least one character, and each is a digit.
pub open spec fn all_digits(s: Seq<char>) -> bool {
    s.len() > 0 && forall|i: int| 0 <= i < s.len() ==> is_digit(#[trigger] s[i])
}

/// The number that a sequence of digits stands for.
pub open spec fn digits_value(s: Seq<char>) -> nat
    decreases s.len(),
{
    if s.len() == 0 {
        0
    } else {
        digits_value(s.drop_last()) * 10 + digit_value(s.last())
    }
}

/// The `i64` that a string denotes: digits, perhaps after one plus or minus sign.
pub open spec fn parse_i64(s: Seq<char>) -> Option<i64> {
    let signed = s.len() > 0 && (s[0] == '-' || s[0] == '+');
    let magnitude = if signed {
        s.skip(1)
    } else {
        s
    };
    let value: int = if signed && s[0] == '-' {
        -(digits_value(magnitude) as int)
    } else {
        digits_value(magnitude) as int
    };
    if all_digits(magnitude) && i64::MIN <= value <= i64::MAX {
        Some(value as i64)
    } else {
        None
    }
}

/// The digits of a number.
pub fn digits_of(n: u128) -> (s: String)
    ensures
        s@ == digits(n as nat),
    decreases n,
{
    let last = (48 + (n % 10) as u8) as char;
    let mut s = if n < 10 {
        String::new()
    } else {
        digits_of(n / 10)
    };
    s.push(last);
    assert(n < 10 ==> s@ =~= digits(n as nat));
    s
}

/// An integer in decimal notation.
pub fn decimal_of(n: i64) -> (s: String)
    ensures
        s@ == decimal(n as int),
{
    if n < 0 {
        let magnitude: u128 = (-(n as i128)) as u128;
        let s = concat("-", digits_of(magnitude).as_str());
        proof {
            reveal_strlit("-");
            assert("-"@ =~= seq!['-']);
        }
        s
    } else {
        digits_of(n as u128)
    }
}

proof fn lemma_digits_value_grows(s: Seq<char>, i: int)
    requires
        0 <= i <= s.len(),
    ensures
        digits_value(s.take(i)) <= digits_value(s),
    decreases s.len() - i,
{
    if i < s.len() {
        lemma_digits_value_grows(s, i + 1);
        assert(s.take(i + 1).drop_last() =~= s.take(i));
    } else {
        assert(s.take(i) =~= s);
    }
}

/// The `i64` that the characters from `from` up to `to` denote.
#[verifier::loop_isolation(false)]
pub fn parse_i64_range(chars: &Vec<char>, from: usize, to: usize) -> (value: Option<i64>)
    requires
        from <= to <= chars@.len(),
    ensures
        value == parse_i64(chars@.subrange(from as int, to as int)),
{
    let ghost s = chars@.subrange(from as int, to as int);
    if from == to {
        return None;
    }
    let first = chars[from];
    assert(first == s[0]);
    let signed = first == '-' || first == '+';
    let start: usize = if signed {
        from + 1
    } else {
        from
    };
    let ghost magnitude = chars@.subrange(start as int, to as int);
    assert(magnitude =~= if signed {
        s.skip(1)
    } else {
        s
    });
    if start == to {
        return None;
    }
    let mut value: i128 = 0;
    let mut i: usize = start;
    while i < to
        invariant
            start <= i <= to <= chars@.len(),
            magnitude == chars@.subrange(start as int, to as int),
            forall|j: int| 0 <= j < i - start ==> is_digit(#[trigger] magnitude[j]),
            value == digits_value(magnitude.take(i - start)),
            0 <= value <= 0x8000_0000_0000_0000,
        decreases to - i,
    {
        let c = chars[i];
        assert(c == magnitude[i - start]);
        if !('0' <= c && c <= '9') {
            assert(!is_digit(magnitude[i - start]));
            return None;
        }
        assert(magnitude.take(i - start + 1).drop_last() =~= magnitude.take(i - start));
        value = value * 10 + (c as u8 - 48) as i128;
        if value > 0x8000_0000_0000_0000 {
            proof {
                lemma_digits_value_grows(magnitude, i - start + 1);
            }
            return None;
        }
        i += 1;
    }
    assert(magnitude.take(to - start) =~= magnitude);
    if first == '-' {
        Some((-value) as i64)
    } else if value <= 0x7fff_ffff_ffff_ffff {
        Some(value as i64)
    } else {
        None
    }
}

} // verus!
