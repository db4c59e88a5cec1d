//! Sound-change rules: consonant assimilation, vowel contraction and vowel
//! lengthening, over the closed vowel inventory of the transcription.

use vstd::prelude::*;

verus! {

/// The recognized vowels: the four qualities, each short, long (macron) or
/// over-long (circumflex).
pub open spec fn is_vowel(c: char) -> bool {
    ||| c == 'a' || c == 'e' || c == 'i' || c == 'u'
    ||| c == 'ā' || c == 'ē' || c == 'ī' || c == 'ū'
    ||| c == 'â' || c == 'ê' || c == 'î' || c == 'û'
}

/// What `n_assimilation` returns: an `n` assimilates completely to the
/// following consonant, which is then doubled; any other first consonant
/// leaves the pair unchanged.
pub open spec fn spec_n_assimilation(first: char, second: char) -> Seq<char> {
    if first == 'n' {
        seq![second, second]
    } else {
        seq![first, second]
    }
}

/// Total assimilation of `n`: `n` followed by a consonant becomes that
/// consonant doubled; any other pair is returned unchanged.
pub fn n_assimilation(first_char: char, second_char: char) -> (res: String)
    ensures
        res@ == spec_n_assimilation(first_char, second_char),
{
    let mut res = String::new();
    if first_char == 'n' {
        push_char(&mut res, second_char);
        push_char(&mut res, second_char);
    } else {
        push_char(&mut res, first_char);
        push_char(&mut res, second_char);
    }
    proof {
        assert(res@ =~= spec_n_assimilation(first_char, second_char));
    }
    res
}

/// What `vowel_assimilation` returns. The rules, in priority order: a pair
/// with no recognized vowel passes through; short or long `e`/`i` before
/// short or long `a` stays uncontracted, the long first vowel shortening to
/// its short counterpart; long `ā`/`ē` before short or long `i` contracts to
/// the fixed over-long `ê`; every other pair contracts to the over-long vowel
/// whose quality is the second vowel's.
pub open spec fn spec_vowel_assimilation(v1: char, v2: char) -> Seq<char> {
    if !is_vowel(v1) && !is_vowel(v2) {
        seq![v1, v2]
    } else if (v1 == 'e' || v1 == 'i') && (v2 == 'a' || v2 == 'ā') {
        seq![v1, v2]
    } else if v1 == 'ē' && (v2 == 'a' || v2 == 'ā') {
        seq!['e', v2]
    } else if v1 == 'ī' && (v2 == 'a' || v2 == 'ā') {
        seq!['i', v2]
    } else if (v1 == 'ā' || v1 == 'ē') && (v2 == 'i' || v2 == 'ī') {
        seq!['ê']
    } else if v2 == 'a' || v2 == 'ā' || v2 == 'â' {
        seq!['â']
    } else if v2 == 'e' || v2 == 'ē' || v2 == 'ê' {
        seq!['ê']
    } else if v2 == 'i' || v2 == 'ī' || v2 == 'î' {
        seq!['î']
    } else if v2 == 'u' || v2 == 'ū' || v2 == 'û' {
        seq!['û']
    } else {
        Seq::<char>::empty()
    }
}

/// Contraction of two adjacent vowels, per the fixed rule table of
/// `spec_vowel_assimilation`. A first vowel followed by a character outside
/// the closed inventory would be an internal invariant violation, so that
/// pair is excluded up front.
pub fn vowel_assimilation(first_vowel: char, second_vowel: char) -> (res: String)
    requires
        is_vowel(first_vowel) ==> is_vowel(second_vowel),
    ensures
        res@ == spec_vowel_assimilation(first_vowel, second_vowel),
{
    let mut res = String::new();
    if !is_vowel_exec(first_vowel) && !is_vowel_exec(second_vowel) {
        push_char(&mut res, first_vowel);
        push_char(&mut res, second_vowel);
    } else if (first_vowel == 'e' || first_vowel == 'i')
        && (second_vowel == 'a' || second_vowel == 'ā') {
        push_char(&mut res, first_vowel);
        push_char(&mut res, second_vowel);
    } else if first_vowel == 'ē' && (second_vowel == 'a' || second_vowel == 'ā') {
        push_char(&mut res, 'e');
        push_char(&mut res, second_vowel);
    } else if first_vowel == 'ī' && (second_vowel == 'a' || second_vowel == 'ā') {
        push_char(&mut res, 'i');
        push_char(&mut res, second_vowel);
    } else if (first_vowel == 'ā' || first_vowel == 'ē')
        && (second_vowel == 'i' || second_vowel == 'ī') {
        push_char(&mut res, 'ê');
    } else if second_vowel == 'a' || second_vowel == 'ā' || second_vowel == 'â' {
        push_char(&mut res, 'â');
    } else if second_vowel == 'e' || second_vowel == 'ē' || second_vowel == 'ê' {
        push_char(&mut res, 'ê');
    } else if second_vowel == 'i' || second_vowel == 'ī' || second_vowel == 'î' {
        push_char(&mut res, 'î');
    } else {
        push_char(&mut res, 'û');
    }
    proof {
        assert(res@ =~= spec_vowel_assimilation(first_vowel, second_vowel));
    }
    res
}

/// The vowels the lengthening table accepts: the short and long (macron)
/// vowels. Over-long vowels cannot be lengthened further.
pub open spec fn lengthenable(v: char) -> bool {
    ||| v == 'a' || v == 'e' || v == 'i' || v == 'u'
    ||| v == 'ā' || v == 'ē' || v == 'ī' || v == 'ū'
}

/// What `lengten` returns: each short vowel becomes its long counterpart and
/// each long vowel its over-long counterpart.
pub open spec fn spec_lengten(v: char) -> char {
    if v == 'a' {
        'ā'
    } else if v == 'e' {
        'ē'
    } else if v == 'i' {
        'ī'
    } else if v == 'u' {
        'ū'
    } else if v == 'ā' {
        'â'
    } else if v == 'ē' {
        'ê'
    } else if v == 'ī' {
        'î'
    } else if v == 'ū' {
        'û'
    } else {
        v
    }
}

/// Lengthens a vowel one step: short to long, long to over-long. Callers must
/// pass a vowel from the closed eight-element inventory; `try_lengten` is the
/// checked entry point for unvalidated input.
pub fn lengten(vowel: char) -> (res: char)
    requires
        lengthenable(vowel),
    ensures
        res == spec_lengten(vowel),
{
    if vowel == 'a' {
        'ā'
    } else if vowel == 'e' {
        'ē'
    } else if vowel == 'i' {
        'ī'
    } else if vowel == 'u' {
        'ū'
    } else if vowel == 'ā' {
        'â'
    } else if vowel == 'ē' {
        'ê'
    } else if vowel == 'ī' {
        'î'
    } else {
        'û'
    }
}

/// Lengthening over arbitrary input: succeeds exactly on the closed
/// eight-element vowel inventory and reports any other character as an
/// unknown phoneme.
pub fn try_lengten(vowel: char) -> (res: Result<char, crate::MorphologyError>)
    ensures
        lengthenable(vowel) <==> res is Ok,
        res is Ok ==> res->Ok_0 == spec_lengten(vowel),
        res is Err ==> res->Err_0 == crate::MorphologyError::UnknownPhoneme,
{
    if vowel == 'a' || vowel == 'e' || vowel == 'i' || vowel == 'u' || vowel == 'ā'
        || vowel == 'ē' || vowel == 'ī' || vowel == 'ū' {
        Ok(lengten(vowel))
    } else {
        Err(crate::MorphologyError::UnknownPhoneme)
    }
}

/// Law: lengthening is injective on the closed eight-vowel inventory —
/// distinct vowels lengthen to distinct vowels — and never leaves the
/// recognized vowel inventory.
pub proof fn lemma_lengten_injective(v1: char, v2: char)
    requires
        lengthenable(v1),
        lengthenable(v2),
        v1 != v2,
    ensures
        spec_lengten(v1) != spec_lengten(v2),
        is_vowel(spec_lengten(v1)),
{
}

/// The over-long vowel of the same quality family as the given vowel.
pub open spec fn same_quality_overlong(v: char) -> char {
    if v == 'a' || v == 'ā' || v == 'â' {
        'â'
    } else if v == 'e' || v == 'ē' || v == 'ê' {
        'ê'
    } else if v == 'i' || v == 'ī' || v == 'î' {
        'î'
    } else {
        'û'
    }
}

/// Law: whenever two vowels contract — that is, outside the uncontracted
/// `e`/`i`-before-`a` sequences and the fixed `ā`/`ē`-before-`i` output —
/// the result is the single over-long vowel whose quality is the second
/// vowel's, whatever the first vowel was.
pub proof fn lemma_contraction_follows_second_vowel(v1: char, v2: char)
    requires
        is_vowel(v1),
        is_vowel(v2),
        !((v1 == 'e' || v1 == 'i' || v1 == 'ē' || v1 == 'ī') && (v2 == 'a' || v2 == 'ā')),
        !((v1 == 'ā' || v1 == 'ē') && (v2 == 'i' || v2 == 'ī')),
    ensures
        spec_vowel_assimilation(v1, v2) == seq![same_quality_overlong(v2)],
{
    assert(spec_vowel_assimilation(v1, v2) =~= seq![same_quality_overlong(v2)]);
}

/// Whether the character is in the recognized vowel inventory.
pub fn is_vowel_exec(c: char) -> (res: bool)
    ensures
        res == is_vowel(c),
{
    c == 'a' || c == 'e' || c == 'i' || c == 'u' || c == 'ā' || c == 'ē' || c == 'ī'
        || c == 'ū' || c == 'â' || c == 'ê' || c == 'î' || c == 'û'
}

/// Relies on `String::push`: appends the character to the end of the string.
#[verifier::external_body]
pub(crate) fn push_char(s: &mut String, c: char)
    ensures
        final(s)@ == old(s)@.push(c),
{
    s.push(c)
}

} // verus!
