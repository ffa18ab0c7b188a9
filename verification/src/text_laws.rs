//! What holds of texts: of their parts, and of the numbers that they write.

use crate::text::{
    after_last, all_digits, ascii_upper, before_first, bracketed, decimal, digits, digits_value, first_place,
    is_digit, is_space, parse_i64, split, trim, trim_end, trim_start,
};
use vstd::prelude::*;

verus! {

// ---------------------------------------------------------------------------
// Characters
// ---------------------------------------------------------------------------

/// The letters from `a` to `z` become those from `A` to `Z`, in their order, and no other
/// character changes. What is in upper case already stays.
pub proof fn law_upper_case(c: char)
    ensures
        'a' <= c && c <= 'z' ==> ascii_upper(c) as u32 - 'A' as u32 == c as u32 - 'a' as u32,
        !('a' <= c && c <= 'z') ==> ascii_upper(c) == c,
        ascii_upper(ascii_upper(c)) == ascii_upper(c),
{
}

/// Blanks, tabs and line ends are white space; letters, digits and punctuation are not.
pub proof fn law_ascii_space(c: char)
    requires
        c as u32 <= 0x7f,
    ensures
        is_space(c) <==> c == ' ' || c == '\t' || c == '\n' || c == '\r' || c as u32 == 0x0b
            || c as u32 == 0x0c,
{
}

// ---------------------------------------------------------------------------
// Parts
// ---------------------------------------------------------------------------

/// What trimming leaves stands in the text with nothing but white space on both sides, and
/// neither begins nor ends with white space.
pub proof fn law_trim(s: Seq<char>) -> (from: int)
    ensures
        0 <= from,
        from + trim(s).len() <= s.len(),
        s.subrange(from, from + trim(s).len()) == trim(s),
        forall|i: int|
            0 <= i < s.len() && !(from <= i < from + trim(s).len()) ==> is_space(#[trigger] s[i]),
        trim(s).len() > 0 ==> !is_space(trim(s)[0]) && !is_space(trim(s).last()),
{
    let a = lemma_trim_start_place(s);
    let rest = trim_start(s);
    lemma_trim_end_place(rest);
    assert forall|i: int|
        0 <= i < s.len() && !(a <= i < a + trim(s).len()) implies is_space(#[trigger] s[i]) by {
        if i >= a {
            assert(rest[i - a] == s[i]);
        }
    }
    assert(s.subrange(a, a + trim(s).len()) =~= trim(s));
    if trim(s).len() > 0 {
        assert(trim(s)[0] == rest[0]);
    }
    a
}

proof fn lemma_trim_start_place(s: Seq<char>) -> (from: int)
    ensures
        0 <= from <= s.len(),
        trim_start(s) == s.skip(from),
        forall|i: int| 0 <= i < from ==> is_space(#[trigger] s[i]),
        trim_start(s).len() > 0 ==> !is_space(trim_start(s)[0]),
    decreases s.len(),
{
    if s.len() > 0 && is_space(s[0]) {
        let rest = s.drop_first();
        let a = lemma_trim_start_place(rest);
        assert forall|i: int| 0 <= i < a + 1 implies is_space(#[trigger] s[i]) by {
            if i > 0 {
                assert(rest[i - 1] == s[i]);
            }
        }
        assert(s.skip(a + 1) =~= rest.skip(a));
        a + 1
    } else {
        assert(s.skip(0) =~= s);
        0
    }
}

proof fn lemma_trim_end_place(s: Seq<char>)
    ensures
        trim_end(s).len() <= s.len(),
        trim_end(s) == s.take(trim_end(s).len() as int),
        forall|i: int| trim_end(s).len() <= i < s.len() ==> is_space(#[trigger] s[i]),
        trim_end(s).len() > 0 ==> !is_space(trim_end(s).last()),
    decreases s.len(),
{
    if s.len() > 0 && is_space(s.last()) {
        let rest = s.drop_last();
        lemma_trim_end_place(rest);
        assert forall|i: int| trim_end(s).len() <= i < s.len() implies is_space(
            #[trigger] s[i],
        ) by {
            if i < rest.len() {
                assert(rest[i] == s[i]);
            }
        }
        assert(rest.take(trim_end(s).len() as int) =~= s.take(trim_end(s).len() as int));
    } else {
        assert(s.take(s.len() as int) =~= s);
    }
}

/// The part before the first separator has none in it; it is all of the text, or a separator
/// follows it.
pub proof fn law_before_first(s: Seq<char>, sep: char)
    ensures
        !before_first(s, sep).contains(sep),
        before_first(s, sep).len() <= s.len(),
        s.take(before_first(s, sep).len() as int) == before_first(s, sep),
        before_first(s, sep).len() < s.len() ==> s[before_first(s, sep).len() as int] == sep,
{
    lemma_first_place_found(s, sep);
}

proof fn lemma_first_place_found(s: Seq<char>, sep: char)
    ensures
        0 <= first_place(s, sep) <= s.len(),
        first_place(s, sep) < s.len() ==> s[first_place(s, sep)] == sep,
        forall|j: int| 0 <= j < first_place(s, sep) ==> #[trigger] s[j] != sep,
    decreases s.len(),
{
    if s.len() > 0 && s[0] != sep {
        let rest = s.drop_first();
        lemma_first_place_found(rest, sep);
        assert forall|j: int| 0 <= j < first_place(s, sep) implies #[trigger] s[j] != sep by {
            if j > 0 {
                assert(s[j] == rest[j - 1]);
            }
        }
    }
}

/// The part after the last separator has none in it; it is all of the text, or a separator
/// stands before it.
pub proof fn law_after_last(s: Seq<char>, sep: char)
    ensures
        !after_last(s, sep).contains(sep),
        after_last(s, sep).len() <= s.len(),
        s.skip(s.len() - after_last(s, sep).len()) == after_last(s, sep),
        after_last(s, sep).len() < s.len() ==> s[s.len() - after_last(s, sep).len() - 1] == sep,
    decreases s.len(),
{
    if s.len() > 0 && s.last() != sep {
        let rest = s.drop_last();
        let part = after_last(rest, sep);
        law_after_last(rest, sep);
        let whole = after_last(s, sep);
        assert forall|i: int| 0 <= i < whole.len() implies #[trigger] whole[i] != sep by {
            if i < part.len() {
                assert(part.contains(part[i]));
            }
        }
        assert(s.skip(s.len() - whole.len()) =~= whole);
    } else {
        assert(s.skip(s.len() as int) =~= Seq::<char>::empty());
    }
}

/// Parts with a separator between each two.
pub open spec fn with_separators(parts: Seq<Seq<char>>, sep: char) -> Seq<char>
    decreases parts.len(),
{
    if parts.len() <= 1 {
        if parts.len() == 0 {
            Seq::empty()
        } else {
            parts[0]
        }
    } else {
        with_separators(parts.drop_last(), sep).push(sep) + parts.last()
    }
}

/// The parts of a text have no separator in them, and make up the text again when one is put
/// between each two.
pub proof fn law_split_parts_make_up_text(s: Seq<char>, sep: char)
    ensures
        split(s, sep).len() > 0,
        forall|i: int| 0 <= i < split(s, sep).len() ==> !(#[trigger] split(s, sep)[i]).contains(sep),
        with_separators(split(s, sep), sep) == s,
    decreases s.len(),
{
    if s.len() == 0 {
        assert(s =~= Seq::empty());
    } else {
        let rest = s.drop_last();
        let before = split(rest, sep);
        let after = split(s, sep);
        law_split_parts_make_up_text(rest, sep);
        assert(s =~= rest.push(s.last()));
        if s.last() == sep {
            assert(after.drop_last() =~= before);
            assert(with_separators(after, sep) =~= s);
        } else {
            let whole = before.last().push(s.last());
            assert(!whole.contains(sep)) by {
                assert forall|i: int| 0 <= i < whole.len() implies #[trigger] whole[i] != sep by {
                    if i < before.last().len() {
                        assert(before.last().contains(before.last()[i]));
                        assert(!before[before.len() - 1].contains(sep));
                    }
                }
            }
            assert(after.drop_last() =~= before.drop_last());
            assert(with_separators(after, sep) =~= s);
        }
    }
}

// ---------------------------------------------------------------------------
// Numbers
// ---------------------------------------------------------------------------

/// A number that was written is read back.
pub proof fn law_written_number_is_read(n: i64)
    ensures
        parse_i64(decimal(n as int)) == Some(n),
{
    let magnitude: nat = if n < 0 {
        (-n) as nat
    } else {
        n as nat
    };
    lemma_digits(magnitude);
    if n < 0 {
        assert(decimal(n as int).skip(1) =~= digits(magnitude));
    } else {
        assert(is_digit(digits(magnitude)[0]));
    }
}

/// A number is written in digits alone, without zeros before it, and no two numbers are written
/// alike.
pub proof fn law_digits(n: nat, m: nat)
    ensures
        digits(n).len() > 0,
        forall|i: int|
            0 <= i < digits(n).len() ==> '0' <= #[trigger] digits(n)[i] && digits(n)[i] <= '9',
        digits(n).len() > 1 ==> digits(n)[0] != '0',
        digits(n) == digits(m) ==> n == m,
        n < 10 ==> digits(n).len() == 1 && digits(n)[0] as u32 == '0' as u32 + n,
        n >= 10 ==> digits(n) == digits(n / 10) + digits(n % 10),
{
    lemma_digits(n);
    lemma_digits(m);
    assert forall|i: int| 0 <= i < digits(n).len() implies '0' <= #[trigger] digits(n)[i] && digits(
        n,
    )[i] <= '9' by {
        assert(is_digit(digits(n)[i]));
    }
    if n >= 10 {
        assert(digits(n) =~= digits(n / 10) + digits(n % 10));
    }
}

proof fn lemma_digits(n: nat)
    ensures
        all_digits(digits(n)),
        digits_value(digits(n)) == n,
        digits(n).len() > 1 ==> digits(n)[0] != '0',
        n > 0 ==> digits(n)[0] != '0',
    decreases n,
{
    reveal_with_fuel(digits_value, 2);
    if n >= 10 {
        lemma_digits(n / 10);
        assert(digits(n).drop_last() =~= digits(n / 10));
        assert forall|i: int| 0 <= i < digits(n).len() implies is_digit(#[trigger] digits(n)[i]) by {
            if i < digits(n / 10).len() {
                assert(digits(n)[i] == digits(n / 10)[i]);
            }
        }
    } else {
        assert(digits(n).drop_last() =~= Seq::<char>::empty());
    }
}

/// A text that denotes a number is a sign or nothing, and then digits. A minus sign makes it
/// negative.
pub proof fn law_number_text(s: Seq<char>)
    ensures
        parse_i64(s) is Some ==> {
            &&& s.len() > 0
            &&& forall|i: int| 1 <= i < s.len() ==> '0' <= #[trigger] s[i] && s[i] <= '9'
            &&& s[0] == '-' || s[0] == '+' || ('0' <= s[0] && s[0] <= '9')
        },
        parse_i64(s) is Some && s[0] == '-' ==> parse_i64(s)->0 <= 0 && s.len() > 1,
        parse_i64(s) is Some && s[0] != '-' ==> parse_i64(s)->0 >= 0,
{
    if parse_i64(s) is Some {
        let signed = s[0] == '-' || s[0] == '+';
        assert forall|i: int| 1 <= i < s.len() implies '0' <= #[trigger] s[i] && s[i] <= '9' by {
            if signed {
                assert(is_digit(s.skip(1)[i - 1]));
            } else {
                assert(is_digit(s[i]));
            }
        }
        if !signed {
            assert(is_digit(s[0]));
        }
    }
}

/// One more digit makes a number ten times as large, and adds to it, away from zero. A number
/// that would then be too large is not read.
pub proof fn law_one_more_digit(s: Seq<char>, digit: char)
    requires
        parse_i64(s) is Some,
        '0' <= digit && digit <= '9',
    ensures
        ({
            let d = digit as int - '0' as int;
            let value = if s[0] == '-' {
                10 * parse_i64(s)->0 - d
            } else {
                10 * parse_i64(s)->0 + d
            };
            parse_i64(s.push(digit)) == if i64::MIN <= value <= i64::MAX {
                Some(value as i64)
            } else {
                None
            }
        }),
{
    let longer = s.push(digit);
    let signed = s[0] == '-' || s[0] == '+';
    let before = if signed {
        s.skip(1)
    } else {
        s
    };
    let after = before.push(digit);
    assert(is_digit(digit));
    if signed {
        assert(longer.skip(1) =~= after);
    }
    assert(after.drop_last() =~= before);
    assert forall|i: int| 0 <= i < after.len() implies is_digit(#[trigger] after[i]) by {
        if i < before.len() {
            assert(is_digit(before[i]));
        }
    }
}

/// A digit alone, with or without a sign before it, is read as its number.
pub proof fn law_one_digit(digit: char)
    requires
        '0' <= digit && digit <= '9',
    ensures
        ({
            let d = digit as int - '0' as int;
            &&& parse_i64(seq![digit]) == Some(d as i64)
            &&& parse_i64(seq!['+', digit]) == Some(d as i64)
            &&& parse_i64(seq!['-', digit]) == Some((-d) as i64)
        }),
{
    reveal_with_fuel(digits_value, 2);
    let one = seq![digit];
    assert(is_digit(digit));
    assert(one.drop_last() =~= Seq::<char>::empty());
    assert(seq!['+', digit].skip(1) =~= one);
    assert(seq!['-', digit].skip(1) =~= one);
}

// ---------------------------------------------------------------------------
// Lists
// ---------------------------------------------------------------------------

/// A list is written between brackets: nothing for the empty list, the text itself for a list of
/// one, and one more text after a comma and a space.
pub proof fn law_bracketed(list: Seq<Seq<char>>, last: Seq<char>)
    ensures
        bracketed(Seq::empty()) == seq!['[', ']'],
        bracketed(seq![last]) == seq!['['] + last + seq![']'],
        list.len() > 0 ==> bracketed(list.push(last)) == bracketed(list).drop_last() + seq![
            ',',
            ' ',
        ] + last + seq![']'],
{
    reveal_strlit("[]");
    reveal_strlit("[");
    reveal_strlit("]");
    reveal_strlit(", ");
    assert("[]"@ =~= seq!['[', ']']);
    assert("["@ =~= seq!['[']);
    assert("]"@ =~= seq![']']);
    assert(", "@ =~= seq![',', ' ']);
    assert(seq![last].skip(1) =~= Seq::<Seq<char>>::empty());
    assert(bracketed(seq![last]) =~= seq!['['] + last + seq![']']);
    if list.len() > 0 {
        let longer = list.push(last);
        assert(longer.skip(1) =~= list.skip(1).push(last));
        assert(longer.skip(1).drop_last() =~= list.skip(1));
        assert(bracketed(longer) =~= bracketed(list).drop_last() + seq![',', ' '] + last + seq![
            ']',
        ]);
    }
}

/// Beyond ASCII, white space is what Unicode calls so.
pub proof fn law_other_space(c: char)
    requires
        c as u32 > 0x7f,
    ensures
        is_space(c) <==> {
            let n = c as u32;
            ||| n == 0x85 || n == 0xa0 || n == 0x1680 || n == 0x3000
            ||| 0x2000 <= n && n <= 0x200a
            ||| n == 0x2028 || n == 0x2029 || n == 0x202f || n == 0x205f
        },
{
}

/// Splitting two texts with a separator between them gives the parts of the one and then the parts
/// of the other.
pub proof fn law_split_of_joined(a: Seq<char>, b: Seq<char>, sep: char)
    ensures
        split(a.push(sep) + b, sep) == split(a, sep) + split(b, sep),
    decreases b.len(),
{
    let whole = a.push(sep) + b;
    law_split_parts_make_up_text(b, sep);
    if b.len() == 0 {
        assert(whole =~= a.push(sep));
        assert(whole.drop_last() =~= a);
        assert(split(whole, sep) =~= split(a, sep) + split(b, sep));
    } else {
        let rest = b.drop_last();
        law_split_of_joined(a, rest, sep);
        law_split_parts_make_up_text(rest, sep);
        assert(whole.drop_last() =~= a.push(sep) + rest);
        assert(whole.last() == b.last());
        let before = split(a, sep) + split(rest, sep);
        assert(before.last() == split(rest, sep).last());
        assert(before.drop_last() =~= split(a, sep) + split(rest, sep).drop_last());
        assert(split(whole, sep) =~= split(a, sep) + split(b, sep));
    }
}

} // verus!
