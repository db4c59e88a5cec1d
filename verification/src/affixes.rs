//! The fixed per-person affix tables of the preterite: one prefix table for
//! the ordinary theme vowels, an alternate prefix table for an `e` theme,
//! and the common suffix table.

use vstd::prelude::*;

verus! {

/// The eight person/number/gender slots of the preterite paradigm.
#[derive(Clone, Copy, Debug, PartialEq, Eq, Structural)]
pub enum Person {
    FirstCs,
    SecondMs,
    SecondFs,
    ThirdCs,
    FirstCp,
    SecondCp,
    ThirdMp,
    ThirdFp,
}

/// The preterite prefix of each person slot under the ordinary (a-theme)
/// prefix table.
pub open spec fn prefix_a(p: Person) -> Seq<char> {
    match p {
        Person::FirstCs => seq!['a'],
        Person::SecondMs => seq!['t', 'a'],
        Person::SecondFs => seq!['t', 'a'],
        Person::ThirdCs => seq!['i'],
        Person::FirstCp => seq!['n', 'i'],
        Person::SecondCp => seq!['t', 'a'],
        Person::ThirdMp => seq!['i'],
        Person::ThirdFp => seq!['i'],
    }
}

/// The preterite prefix of each person slot under the alternate e-theme
/// prefix table.
pub open spec fn prefix_e(p: Person) -> Seq<char> {
    match p {
        Person::FirstCs => seq!['e'],
        Person::SecondMs => seq!['t', 'e'],
        Person::SecondFs => seq!['t', 'e'],
        Person::ThirdCs => seq!['i'],
        Person::FirstCp => seq!['n', 'i'],
        Person::SecondCp => seq!['t', 'e'],
        Person::ThirdMp => seq!['i'],
        Person::ThirdFp => seq!['i'],
    }
}

/// The preterite prefix table selected by the theme vowel: the alternate
/// table exactly when the theme vowel is `e`.
pub open spec fn spec_prefix(theme_vowel: char, p: Person) -> Seq<char> {
    if theme_vowel == 'e' {
        prefix_e(p)
    } else {
        prefix_a(p)
    }
}

/// The preterite suffix of each person slot.
pub open spec fn suffix(p: Person) -> Seq<char> {
    match p {
        Person::FirstCs => Seq::<char>::empty(),
        Person::SecondMs => Seq::<char>::empty(),
        Person::SecondFs => seq!['ī'],
        Person::ThirdCs => Seq::<char>::empty(),
        Person::FirstCp => Seq::<char>::empty(),
        Person::SecondCp => seq!['ā'],
        Person::ThirdMp => seq!['ū'],
        Person::ThirdFp => seq!['ā'],
    }
}

/// The a-theme prefix table, as characters.
pub fn prefix_a_chars(p: Person) -> (res: Vec<char>)
    ensures
        res@ == prefix_a(p),
{
    match p {
        Person::FirstCs => vec!['a'],
        Person::SecondMs => vec!['t', 'a'],
        Person::SecondFs => vec!['t', 'a'],
        Person::ThirdCs => vec!['i'],
        Person::FirstCp => vec!['n', 'i'],
        Person::SecondCp => vec!['t', 'a'],
        Person::ThirdMp => vec!['i'],
        Person::ThirdFp => vec!['i'],
    }
}

/// The e-theme prefix table, as characters.
pub fn prefix_e_chars(p: Person) -> (res: Vec<char>)
    ensures
        res@ == prefix_e(p),
{
    match p {
        Person::FirstCs => vec!['e'],
        Person::SecondMs => vec!['t', 'e'],
        Person::SecondFs => vec!['t', 'e'],
        Person::ThirdCs => vec!['i'],
        Person::FirstCp => vec!['n', 'i'],
        Person::SecondCp => vec!['t', 'e'],
        Person::ThirdMp => vec!['i'],
        Person::ThirdFp => vec!['i'],
    }
}

/// The prefix table keyed by the theme vowel, as characters.
pub fn prefix_chars(theme_vowel: char, p: Person) -> (res: Vec<char>)
    ensures
        res@ == spec_prefix(theme_vowel, p),
{
    if theme_vowel == 'e' {
        prefix_e_chars(p)
    } else {
        prefix_a_chars(p)
    }
}

/// Every non-empty preterite suffix begins with a recognized vowel.
pub proof fn lemma_suffix_starts_with_vowel(p: Person)
    requires
        suffix(p).len() != 0,
    ensures
        crate::phonology::is_vowel(suffix(p)[0]),
{
}

/// The suffix table, as characters.
pub fn suffix_chars(p: Person) -> (res: Vec<char>)
    ensures
        res@ == suffix(p),
{
    match p {
        Person::FirstCs => Vec::new(),
        Person::SecondMs => Vec::new(),
        Person::SecondFs => vec!['ī'],
        Person::ThirdCs => Vec::new(),
        Person::FirstCp => Vec::new(),
        Person::SecondCp => vec!['ā'],
        Person::ThirdMp => vec!['ū'],
        Person::ThirdFp => vec!['ā'],
    }
}

} // verus!
