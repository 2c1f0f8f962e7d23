//! Building the text of diagnostics: decimal numbers and joined lists.

use vstd::prelude::*;

verus! {

/// The character that stands for a digit below ten.
pub open spec fn digit(value: nat) -> char {
    if value == 0 {
        '0'
    } else if value == 1 {
        '1'
    } else if value == 2 {
        '2'
    } else if value == 3 {
        '3'
    } else if value == 4 {
        '4'
    } else if value == 5 {
        '5'
    } else if value == 6 {
        '6'
    } else if value == 7 {
        '7'
    } else if value == 8 {
        '8'
    } else {
        '9'
    }
}

/// A number in decimal notation, most significant digit first, without leading zeros.
pub open spec fn decimal(value: nat) -> Seq<char>
    decreases value,
{
    if value < 10 {
        seq![digit(value)]
    } else {
        decimal(value / 10).push(digit(value % 10))
    }
}

/// The texts of `parts` one after the other, with `separator` between each two.
pub open spec fn joined(parts: Seq<Seq<char>>, separator: Seq<char>) -> Seq<char>
    decreases parts.len(),
{
    if parts.len() == 0 {
        Seq::empty()
    } else if parts.len() == 1 {
        parts[0]
    } else {
        joined(parts.drop_last(), separator) + separator + parts.last()
    }
}

/// The views of a list of strings.
pub open spec fn texts(parts: Seq<String>) -> Seq<Seq<char>> {
    parts.map_values(|part: String| part@)
}

/// Whether `needle` occurs in `text` as a run of adjacent characters.
pub open spec fn occurs_in(needle: Seq<char>, text: Seq<char>) -> bool {
    exists|at: int| occurs_at(needle, text, at)
}

/// Whether `needle` stands in `text` from position `at` on.
pub open spec fn occurs_at(needle: Seq<char>, text: Seq<char>, at: int) -> bool {
    0 <= at && at + needle.len() <= text.len() && text.subrange(at, at + needle.len()) == needle
}

fn digit_text(value: u64) -> (text: &'static str)
    requires
        value < 10,
    ensures
        text@ == seq![digit(value as nat)],
{
    proof {
        reveal_strlit("0");
        reveal_strlit("1");
        reveal_strlit("2");
        reveal_strlit("3");
        reveal_strlit("4");
        reveal_strlit("5");
        reveal_strlit("6");
        reveal_strlit("7");
        reveal_strlit("8");
        reveal_strlit("9");
    }
    let text = if value == 0 {
        "0"
    } else if value == 1 {
        "1"
    } else if value == 2 {
        "2"
    } else if value == 3 {
        "3"
    } else if value == 4 {
        "4"
    } else if value == 5 {
        "5"
    } else if value == 6 {
        "6"
    } else if value == 7 {
        "7"
    } else if value == 8 {
        "8"
    } else {
        "9"
    };
    assert(text@ =~= seq![digit(value as nat)]);
    text
}

/// Writes a number in decimal notation.
pub fn decimal_string(value: u64) -> (text: String)
    ensures
        text@ == decimal(value as nat),
    decreases value,
{
    if value < 10 {
        String::from_str(digit_text(value))
    } else {
        let mut text = decimal_string(value / 10);
        text.append(digit_text(value % 10));
        assert(text@ =~= decimal(value as nat));
        text
    }
}

/// Joins the strings of `parts`, with `separator` between each two.
pub fn join(parts: &Vec<String>, separator: &str) -> (text: String)
    ensures
        text@ == joined(texts(parts@), separator@),
{
    let mut text = String::new();
    let mut index: usize = 0;
    while index < parts.len()
        invariant
            index <= parts.len(),
            text@ == joined(texts(parts@.take(index as int)), separator@),
        decreases parts.len() - index,
    {
        let ghost before = texts(parts@.take(index as int));
        let ghost after = texts(parts@.take(index + 1));
        assert(after.drop_last() =~= before);
        assert(after.last() == parts@[index as int]@);
        if index > 0 {
            text.append(separator);
        } else {
            assert(text@ =~= Seq::<char>::empty());
        }
        text.append(parts[index].as_str());
        assert(text@ =~= joined(after, separator@));
        index += 1;
    }
    assert(parts@.take(index as int) =~= parts@);
    text
}

/// A text occurs in what it is a part of: with anything before it and anything
/// after it.
pub proof fn lemma_occurs_in_concat(before: Seq<char>, needle: Seq<char>, after: Seq<char>)
    ensures
        occurs_in(needle, before + needle + after),
{
    let text = before + needle + after;
    assert(text.subrange(before.len() as int, (before.len() + needle.len()) as int) =~= needle);
    assert(occurs_at(needle, text, before.len() as int));
}

/// What occurs in a text occurs in every text that the first is a part of.
pub proof fn lemma_occurs_in_larger(
    needle: Seq<char>,
    text: Seq<char>,
    before: Seq<char>,
    after: Seq<char>,
)
    requires
        occurs_in(needle, text),
    ensures
        occurs_in(needle, before + text + after),
{
    let at = choose|at: int| occurs_at(needle, text, at);
    let larger = before + text + after;
    assert(larger.subrange(before.len() + at, before.len() + at + needle.len()) =~= text.subrange(
        at,
        at + needle.len(),
    ));
    assert(occurs_at(needle, larger, before.len() + at));
}

/// Each joined part occurs in the joined text.
pub proof fn lemma_part_occurs_in_joined(parts: Seq<Seq<char>>, separator: Seq<char>, index: int)
    requires
        0 <= index < parts.len(),
    ensures
        occurs_in(parts[index], joined(parts, separator)),
    decreases parts.len(),
{
    let empty = Seq::<char>::empty();
    if parts.len() == 1 {
        lemma_occurs_in_concat(empty, parts[0], empty);
        assert(empty + parts[0] + empty =~= parts[0]);
    } else if index == parts.len() - 1 {
        let before = joined(parts.drop_last(), separator) + separator;
        lemma_occurs_in_concat(before, parts.last(), empty);
        assert(joined(parts.drop_last(), separator) + separator + parts.last() + empty =~= joined(
            parts,
            separator,
        ));
    } else {
        lemma_part_occurs_in_joined(parts.drop_last(), separator, index);
        lemma_occurs_in_larger(
            parts[index],
            joined(parts.drop_last(), separator),
            empty,
            separator + parts.last(),
        );
        assert(empty + joined(parts.drop_last(), separator) + (separator + parts.last())
            =~= joined(parts, separator));
    }
}

} // verus!
