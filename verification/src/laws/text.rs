//! What the operations on texts do to them.

use vstd::prelude::*;

use crate::text;

verus! {

/// The texts of a list are those of its strings, one for one.
pub proof fn law_texts_are_the_strings(list: Seq<String>)
    ensures
        text::texts(list).len() == list.len(),
        forall|i: int| 0 <= i < list.len() ==> #[trigger] text::texts(list)[i] == list[i]@,
{
}

/// What is set is taken as it is, and a default only where nothing is set.
pub proof fn law_defaults_stand_in(s: String, default: Seq<char>)
    ensures
        text::opt_text(Some(s)) == Some(s@),
        text::opt_text(None::<String>) is None,
        text::or_default(Some(s@), default) == s@,
        text::or_default(None::<Seq<char>>, default) == default,
        text::or_text(Some(s), default) == s@,
        text::or_text(None::<String>, default) == default,
{
}

proof fn trim_start_at(s: Seq<char>) -> (i: int)
    ensures
        0 <= i <= s.len(),
        text::trimmed_start(s) == s.skip(i),
        forall|k: int| 0 <= k < i ==> text::is_white_space(#[trigger] s[k]),
        i < s.len() ==> !text::is_white_space(s[i]),
    decreases s.len(),
{
    if s.len() > 0 && text::is_white_space(s[0]) {
        let rest = s.drop_first();
        let j = trim_start_at(rest);
        assert(rest.skip(j) =~= s.skip(j + 1));
        assert forall|k: int| 0 <= k < j + 1 implies text::is_white_space(#[trigger] s[k]) by {
            if k > 0 {
                assert(rest[k - 1] == s[k]);
            }
        }
        if j < rest.len() {
            assert(rest[j] == s[j + 1]);
        }
        j + 1
    } else {
        assert(s.skip(0) =~= s);
        0
    }
}

proof fn trim_end_at(s: Seq<char>) -> (j: int)
    ensures
        0 <= j <= s.len(),
        text::trimmed_end(s) == s.take(j),
        forall|k: int| j <= k < s.len() ==> text::is_white_space(#[trigger] s[k]),
        j > 0 ==> !text::is_white_space(s[j - 1]),
    decreases s.len(),
{
    if s.len() > 0 && text::is_white_space(s.last()) {
        let rest = s.drop_last();
        let j = trim_end_at(rest);
        assert(rest.take(j) =~= s.take(j));
        assert forall|k: int| j <= k < s.len() implies text::is_white_space(#[trigger] s[k]) by {
            if k < rest.len() {
                assert(rest[k] == s[k]);
            }
        }
        j
    } else {
        assert(s.take(s.len() as int) =~= s);
        s.len() as int
    }
}

/// White space is the tab and the four controls after it, the space, the next-line
/// control, and the spaces and separators that Unicode has beyond ASCII.
pub proof fn law_white_space_is_unicodes(c: char)
    ensures
        text::is_white_space(c) == (9 <= c as int <= 13 || c as int == 32 || c as int == 133
            || c as int == 160 || c as int == 5760 || 8192 <= c as int <= 8202 || c as int == 8232
            || c as int == 8233 || c as int == 8239 || c as int == 8287 || c as int == 12288),
{
}

/// The first place of a character is where it stands for the first time, or the end.
pub proof fn law_first_places_are_first(s: Seq<char>, c: char)
    ensures
        0 <= text::first_place(s, c) <= s.len(),
        text::first_place(s, c) < s.len() ==> s[text::first_place(s, c)] == c,
        forall|i: int| 0 <= i < text::first_place(s, c) ==> s[i] != c,
{
    text::lemma_first_place(s, c);
}

/// Trimming takes all white space off the two ends, and nothing else off: what goes
/// is blank, and the ends of what is left are not.
pub proof fn law_trim_takes_the_blank_ends(s: Seq<char>)
    ensures
        exists|i: int, j: int|
            {
                &&& text::trimmed(s) == #[trigger] s.subrange(i, j)
                &&& 0 <= i <= j <= s.len()
                &&& forall|k: int|
                    0 <= k < i || j <= k < s.len() ==> text::is_white_space(#[trigger] s[k])
                &&& i < j ==> !text::is_white_space(s[i]) && !text::is_white_space(s[j - 1])
            },
{
    let i = trim_start_at(s);
    let rest = s.skip(i);
    let m = trim_end_at(rest);
    let j = i + m;
    assert(rest.take(m) =~= s.subrange(i, j));
    assert forall|k: int| j <= k < s.len() implies text::is_white_space(#[trigger] s[k]) by {
        assert(rest[k - i] == s[k]);
    }
    if m > 0 {
        assert(rest[m - 1] == s[j - 1]);
        assert(rest[0] == s[i]);
    }
    assert(text::trimmed(s) == s.subrange(i, j));
}

/// A text without white space at its ends is trimmed already.
pub proof fn law_trimmed_texts_stay(s: Seq<char>)
    requires
        s.len() == 0 || (!text::is_white_space(s[0]) && !text::is_white_space(s.last())),
    ensures
        text::trimmed(s) == s,
{
}

/// A pattern occurs in a text just where the text is something, the pattern, and
/// something more.
pub proof fn law_occurrence_is_a_part(pattern: Seq<char>, s: Seq<char>)
    ensures
        text::occurs_in(pattern, s) <==> exists|a: Seq<char>, b: Seq<char>|
            s == #[trigger] (a + pattern + b),
{
    if text::occurs_in(pattern, s) {
        let i = choose|i: int| #[trigger] text::stands_at(s, pattern, i);
        let a = s.take(i);
        let b = s.skip(i + pattern.len());
        assert(s.subrange(i, i + pattern.len()) == pattern);
        assert(s =~= a + pattern + b);
    }
    if exists|a: Seq<char>, b: Seq<char>| s == #[trigger] (a + pattern + b) {
        let (a, b) = choose|a: Seq<char>, b: Seq<char>| s == #[trigger] (a + pattern + b);
        assert(s.subrange(a.len() as int, (a.len() + pattern.len()) as int) =~= pattern);
        assert(text::stands_at(s, pattern, a.len() as int));
    }
}

/// Replacing goes from the left: a pattern in front is replaced and what follows it
/// is gone through in turn, a character that begins no pattern stays, and in
/// nothing there is nothing to replace.
pub proof fn law_replacing_goes_from_the_left(
    from: Seq<char>,
    to: Seq<char>,
    c: char,
    rest: Seq<char>,
)
    requires
        from.len() > 0,
    ensures
        text::replaced(Seq::<char>::empty(), from, to) == Seq::<char>::empty(),
        text::replaced(from + rest, from, to) == to + text::replaced(rest, from, to),
        !text::stands_at(seq![c] + rest, from, 0) ==> text::replaced(seq![c] + rest, from, to)
            == seq![c] + text::replaced(rest, from, to),
{
    let s = from + rest;
    assert(s.take(from.len() as int) =~= from);
    assert(s.skip(from.len() as int) =~= rest);
    let t = seq![c] + rest;
    assert(t.drop_first() =~= rest);
    if t.len() >= from.len() {
        assert(t.take(from.len() as int) =~= t.subrange(0, from.len() as int));
    } else {
        assert(text::replaced(rest, from, to) == rest);
    }
}

/// A text without a newline is one line, if it is anything. What stands before a
/// newline is a line, and what follows it has the lines that come next.
pub proof fn law_lines_end_at_newlines(line: Seq<char>, rest: Seq<char>)
    requires
        !line.contains('\n'),
    ensures
        text::lines_of(line) == (if line.len() > 0 {
            seq![line]
        } else {
            seq![]
        }),
        text::lines_of(line + seq!['\n'] + rest) == seq![line] + text::lines_of(rest),
{
    text::lemma_first_place(line, '\n');
    if text::first_place(line, '\n') < line.len() {
        assert(line.contains(line[text::first_place(line, '\n')]));
    }
    assert(line.take(line.len() as int) =~= line);
    assert(seq![line] + Seq::<Seq<char>>::empty() =~= seq![line]);
    let s = line + seq!['\n'] + rest;
    text::lemma_first_place(s, '\n');
    let k = text::first_place(s, '\n');
    assert(s[line.len() as int] == '\n');
    if k < line.len() {
        assert(s[k] == line[k]);
        assert(line.contains(line[k]));
    }
    assert(k == line.len());
    assert(s.take(k) =~= line);
    assert(s.skip(k + 1) =~= rest);
}

/// A listing has its lines trimmed, in their order, and without those of which
/// nothing is left.
pub proof fn law_listings_go_line_by_line(line: Seq<char>, rest: Seq<char>)
    requires
        !line.contains('\n'),
    ensures
        text::filled_lines(Seq::<char>::empty()) == Seq::<Seq<char>>::empty(),
        ({
            let kept = if text::trimmed(line).len() > 0 {
                seq![text::trimmed(line)]
            } else {
                seq![]
            };
            &&& text::filled_lines(line) == kept
            &&& text::filled_lines(line + seq!['\n'] + rest) == kept + text::filled_lines(rest)
        }),
{
    law_lines_end_at_newlines(line, rest);
    let tr = |l: Seq<char>| text::trimmed(l);
    let full = |l: Seq<char>| l.len() > 0;
    reveal_with_fuel(Seq::filter, 2);
    let none = Seq::<Seq<char>>::empty();
    assert(text::lines_of(Seq::<char>::empty()) =~= none);
    assert(none.map_values(tr) =~= none);
    let one = seq![line].map_values(tr);
    assert(one =~= seq![text::trimmed(line)]);
    assert(one.drop_last() =~= none);
    assert(one.filter(full) =~= if text::trimmed(line).len() > 0 {
        seq![text::trimmed(line)]
    } else {
        none
    });
    if line.len() == 0 {
        assert(text::lines_of(line) =~= none);
    }
    let tail = text::lines_of(rest);
    assert((seq![line] + tail).map_values(tr) =~= one + tail.map_values(tr));
    Seq::filter_distributes_over_add(one, tail.map_values(tr), full);
}

/// The digits of a number stand for it: they are all digits, they do not begin with
/// a zero that says nothing, and read in base ten they give the number back.
pub proof fn law_decimal_stands_for_its_number(n: nat)
    ensures
        text::digits_value(text::decimal(n)) == n,
        text::all_digits(text::decimal(n)),
        n > 0 ==> text::decimal(n)[0] != '0',
        n < 10 ==> text::decimal(n).len() == 1,
    decreases n,
{
    let s = text::decimal(n);
    reveal_with_fuel(text::digits_value, 2);
    if n >= 10 {
        law_decimal_stands_for_its_number(n / 10);
        let front = text::decimal(n / 10);
        assert(s.drop_last() =~= front);
        assert(s[0] == front[0]);
        assert forall|i: int| 0 <= i < s.len() implies text::is_digit(s[i]) by {
            if i < front.len() {
                assert(front[i] == s[i]);
            }
        }
    } else {
        assert(s.drop_last() =~= Seq::<char>::empty());
    }
}

/// Digits count in base ten, the first one most.
pub proof fn law_digits_count_in_tens(s: Seq<char>, c: char)
    ensures
        text::digits_value(Seq::<char>::empty()) == 0,
        text::digits_value(s.push(c)) == 10 * text::digits_value(s) + (c as int - 48),
        text::is_digit(c) == (48 <= c as int <= 57),
{
    assert(s.push(c).drop_last() =~= s);
}

/// A signed number is written as its digits, with a minus sign in front of them
/// where it is below zero.
pub proof fn law_signs_stand_in_front(n: nat)
    ensures
        text::signed_decimal(n as int) == text::decimal(n),
        n > 0 ==> text::signed_decimal(-(n as int)) == seq!['-'] + text::decimal(n),
{
}

/// Digits are read as their number where it fits, with a sign in front or without
/// one, and nothing else is read as a number.
pub proof fn law_numbers_are_read(digits: Seq<char>, other: Seq<char>)
    requires
        text::all_digits(digits),
    ensures
        ({
            let n = text::digits_value(digits);
            &&& text::parsed_i32(digits) == (if n <= 2147483647 {
                Some(n)
            } else {
                None
            })
            &&& text::parsed_i32(seq!['+'] + digits) == text::parsed_i32(digits)
            &&& text::parsed_i32(seq!['-'] + digits) == (if n <= 2147483648 {
                Some(-n)
            } else {
                None
            })
        }),
        text::parsed_i32(other) is Some ==> text::all_digits(other) || (other.len() > 1 && (other[0]
            == '+' || other[0] == '-') && text::all_digits(other.drop_first())),
{
    assert(text::is_digit(digits[0]));
    assert((seq!['+'] + digits).drop_first() =~= digits);
    assert((seq!['-'] + digits).drop_first() =~= digits);
    lemma_value_not_negative(digits);
}

proof fn lemma_value_not_negative(s: Seq<char>)
    requires
        forall|i: int| 0 <= i < s.len() ==> text::is_digit(s[i]),
    ensures
        text::digits_value(s) >= 0,
    decreases s.len(),
{
    if s.len() > 0 {
        lemma_value_not_negative(s.drop_last());
        assert(text::is_digit(s.last()));
    }
}

/// Lowering moves the capital letters of ASCII to the small ones, and leaves every
/// other character.
pub proof fn law_lowering_moves_capitals(c: char)
    ensures
        65 <= c as int <= 90 ==> text::ascii_lower(c) as int == c as int + 32,
        !(65 <= c as int <= 90) ==> text::ascii_lower(c) == c,
{
}

} // verus!
