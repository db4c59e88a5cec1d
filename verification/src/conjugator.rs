//! The word builder: produces the eight preterite person forms and the two
//! verbal-adjective forms for a classified verb record, dispatching on the
//! derived stem variant and applying the phonological repair rules at
//! morpheme boundaries.

use vstd::prelude::*;
use crate::MorphologyError;
use crate::affixes::{Person, prefix_a, prefix_a_chars, prefix_chars, spec_prefix, suffix, suffix_chars};
use crate::phonology::{
    lengthenable, push_char, spec_lengten, spec_n_assimilation, spec_vowel_assimilation,
    n_assimilation, try_lengten, vowel_assimilation,
};
use crate::verb::{VerbData, VerbStem, VerbType};

verus! {

/// The eight preterite person forms of one verb.
#[derive(Debug, Clone)]
pub struct VerbForms {
    pub first_cs: String,
    pub second_ms: String,
    pub second_fs: String,
    pub third_cs: String,
    pub first_cp: String,
    pub second_cp: String,
    pub third_mp: String,
    pub third_fp: String,
}

impl VerbForms {
    /// The form in the given person slot, as its character sequence.
    pub open spec fn slot(self, p: Person) -> Seq<char> {
        match p {
            Person::FirstCs => self.first_cs@,
            Person::SecondMs => self.second_ms@,
            Person::SecondFs => self.second_fs@,
            Person::ThirdCs => self.third_cs@,
            Person::FirstCp => self.first_cp@,
            Person::SecondCp => self.second_cp@,
            Person::ThirdMp => self.third_mp@,
            Person::ThirdFp => self.third_fp@,
        }
    }
}

/// A fully conjugated verb: the looked-up spelling, its preterite paradigm,
/// its two adjective forms, and the source record it was built from.
#[derive(Debug, Clone)]
pub struct Verb {
    pub verb: String,
    pub preterite: VerbForms,
    pub adjective: [String; 2],
    pub data: VerbData,
}

/// The root the word-building templates actually see: a weak-initial-`n`
/// root is rewritten so that the lost `n` doubles the second consonant.
pub open spec fn effective_root(stem: VerbStem, root: Seq<char>) -> Seq<char> {
    match stem {
        VerbStem::GStemWeakIn => seq![root[1], root[1], root[2]],
        _ => root,
    }
}

/// Whether the root has the consonant count its stem variant demands.
pub open spec fn root_len_ok(stem: VerbStem, root: Seq<char>) -> bool {
    match stem {
        VerbStem::GStemWeakIII => root.len() == 2,
        _ => root.len() == 3,
    }
}

/// The preterite form of one person slot. A triliteral stem concatenates
/// prefix, effective root around the theme vowel, and suffix. A biliteral
/// stem selects its prefix table by the theme vowel and, where a suffix is
/// present, contracts the theme vowel with the suffix's leading vowel.
pub open spec fn spec_preterite_form(
    stem: VerbStem,
    root: Seq<char>,
    theme_vowel: char,
    p: Person,
) -> Seq<char> {
    match stem {
        VerbStem::GStem | VerbStem::GStemWeakIn => {
            let er = effective_root(stem, root);
            prefix_a(p) + seq![er[0], er[1], theme_vowel, er[2]] + suffix(p)
        },
        VerbStem::GStemWeakIII => {
            let pre = spec_prefix(theme_vowel, p);
            if suffix(p).len() == 0 {
                pre + seq![root[0], root[1], theme_vowel]
            } else {
                pre + seq![root[0], root[1]] + spec_vowel_assimilation(theme_vowel, suffix(p)[0])
            }
        },
    }
}

/// The masculine verbal adjective: the triliteral `R1 a R2 R3 um` pattern,
/// or `R1 a R2 ûm` for a biliteral root.
pub open spec fn spec_adjective_masculine(root: Seq<char>) -> Seq<char> {
    if root.len() == 3 {
        seq![root[0], 'a', root[1], root[2], 'u', 'm']
    } else {
        seq![root[0], 'a', root[1], 'û', 'm']
    }
}

/// The feminine verbal adjective. For a triliteral root, in priority order:
/// an adjectival verb with identical second and third consonants doubles
/// them literally; a dental third consonant forces the suffix consonant to
/// `t`; a sibilant third consonant forces it to `š`; otherwise the third
/// consonant meets the suffix `t` under `n`-assimilation. A biliteral root
/// takes the lengthened adjectival vowel before `tum`.
pub open spec fn spec_adjective_feminine(
    root: Seq<char>,
    verb_type: VerbType,
    adj_vowel: char,
) -> Seq<char> {
    if root.len() == 3 {
        if verb_type == VerbType::Adjectival && root[1] == root[2] {
            seq![root[0], 'a', root[1], root[2], 'a', 't', 'u', 'm']
        } else if root[2] == 'd' || root[2] == 'ṭ' {
            seq![root[0], 'a', root[1], adj_vowel, 't', 't', 'u', 'm']
        } else if root[2] == 's' || root[2] == 'ṣ' || root[2] == 'z' {
            seq![root[0], 'a', root[1], adj_vowel, 'š', 't', 'u', 'm']
        } else {
            seq![root[0], 'a', root[1], adj_vowel] + spec_n_assimilation(root[2], 't')
                + seq!['u', 'm']
        }
    } else {
        seq![root[0], 'a', root[1], spec_lengten(adj_vowel), 't', 'u', 'm']
    }
}

/// Law: every preterite form of a strong triliteral stem is, character for
/// character, prefix + R1 + R2 + theme vowel + R3 + suffix for its person
/// slot.
pub proof fn lemma_strong_form_shape(root: Seq<char>, theme_vowel: char, p: Person)
    requires
        root.len() == 3,
    ensures
        spec_preterite_form(VerbStem::GStem, root, theme_vowel, p) == prefix_a(p) + seq![
            root[0],
            root[1],
            theme_vowel,
            root[2],
        ] + suffix(p),
{
}

/// Law: in a weak-initial-`n` preterite form the first two consonants of the
/// generated stem are the doubled second radical; whenever that radical is
/// not itself `n`, the original first radical never opens the stem.
pub proof fn lemma_weak_initial_n_shape(root: Seq<char>, theme_vowel: char, p: Person)
    requires
        root.len() == 3,
        root[0] == 'n',
    ensures
        ({
            let form = spec_preterite_form(VerbStem::GStemWeakIn, root, theme_vowel, p);
            let stem_start = prefix_a(p).len() as int;
            &&& form[stem_start] == root[1]
            &&& form[stem_start] == form[stem_start + 1]
            &&& root[1] != 'n' ==> form[stem_start] != root[0]
        }),
{
}

/// Law: the feminine verbal adjective of a biliteral root always ends in the
/// lengthened adjectival vowel followed by the literal `tum`.
pub proof fn lemma_biliteral_feminine_ending(root: Seq<char>, verb_type: VerbType, adj_vowel: char)
    requires
        root.len() == 2,
    ensures
        ({
            let fem = spec_adjective_feminine(root, verb_type, adj_vowel);
            &&& fem.len() == 7
            &&& fem.subrange(3, 7) == seq![spec_lengten(adj_vowel), 't', 'u', 'm']
        }),
{
    assert(spec_adjective_feminine(root, verb_type, adj_vowel).subrange(3, 7) =~= seq![
        spec_lengten(adj_vowel),
        't',
        'u',
        'm',
    ]);
}

/// Whether a record can be conjugated at all: the root length matches the
/// stem variant, and a biliteral root's adjectival vowel lies in the closed
/// lengthening inventory.
pub open spec fn spec_conjugable(stem: VerbStem, root: Seq<char>, adj_vowel: char) -> bool {
    root_len_ok(stem, root) && (root.len() == 2 ==> lengthenable(adj_vowel))
}

/// Appends every character of `cs` to `s`, in order.
fn push_chars(s: &mut String, cs: &Vec<char>)
    ensures
        final(s)@ == old(s)@ + cs@,
{
    let mut i: usize = 0;
    while i < cs.len()
        invariant
            i <= cs.len(),
            s@ == old(s)@ + cs@.subrange(0, i as int),
        decreases cs.len() - i,
    {
        push_char(s, cs[i]);
        proof {
            assert(old(s)@ + cs@.subrange(0, i as int).push(cs@[i as int]) =~= old(s)@ + cs@.subrange(
                0,
                i + 1,
            ));
        }
        i += 1;
    }
    proof {
        assert(old(s)@ + cs@.subrange(0, cs@.len() as int) =~= old(s)@ + cs@);
    }
}

/// One preterite form of a triliteral stem: prefix, the root's consonants
/// around the theme vowel, suffix.
fn build_triliteral_preterit(root: &Vec<char>, theme_vowel: char, p: Person) -> (res: String)
    requires
        root@.len() == 3,
    ensures
        res@ == prefix_a(p) + seq![root@[0], root@[1], theme_vowel, root@[2]] + suffix(p),
{
    let mut s = String::new();
    let pre = prefix_a_chars(p);
    push_chars(&mut s, &pre);
    push_char(&mut s, root[0]);
    push_char(&mut s, root[1]);
    push_char(&mut s, theme_vowel);
    push_char(&mut s, root[2]);
    let suf = suffix_chars(p);
    push_chars(&mut s, &suf);
    proof {
        assert(s@ =~= prefix_a(p) + seq![root@[0], root@[1], theme_vowel, root@[2]] + suffix(p));
    }
    s
}

/// One preterite form of a biliteral (weak-final) stem: with no suffix the
/// theme vowel closes the word; before a suffix the theme vowel and the
/// suffix's leading vowel contract.
fn build_biliteral_preterit(root: &Vec<char>, theme_vowel: char, p: Person) -> (res: String)
    requires
        root@.len() == 2,
    ensures
        res@ == spec_preterite_form(VerbStem::GStemWeakIII, root@, theme_vowel, p),
{
    let mut s = String::new();
    let pre = prefix_chars(theme_vowel, p);
    push_chars(&mut s, &pre);
    push_char(&mut s, root[0]);
    push_char(&mut s, root[1]);
    let suf = suffix_chars(p);
    if suf.len() == 0 {
        push_char(&mut s, theme_vowel);
        proof {
            assert(s@ =~= spec_preterite_form(VerbStem::GStemWeakIII, root@, theme_vowel, p));
        }
    } else {
        proof {
            crate::affixes::lemma_suffix_starts_with_vowel(p);
        }
        let contracted = vowel_assimilation(theme_vowel, suf[0]);
        s.append(contracted.as_str());
        proof {
            assert(s@ =~= spec_preterite_form(VerbStem::GStemWeakIII, root@, theme_vowel, p));
        }
    }
    s
}

/// Builds the eight preterite person forms for a classified record. Succeeds
/// exactly when the root length matches the stem variant; the forms then
/// follow `spec_preterite_form` slot by slot.
pub fn to_preterite(data: &VerbData) -> (res: Result<VerbForms, MorphologyError>)
    ensures
        res is Ok <==> root_len_ok(data.stem, data.root@),
        res is Ok ==> forall|p: Person| #[trigger]
            res->Ok_0.slot(p) == spec_preterite_form(
                data.stem,
                data.root@,
                data.theme_vowel,
                p,
            ),
        res is Err ==> res->Err_0 == MorphologyError::InvalidRootLength,
{
    match data.stem {
        VerbStem::GStem => {
            if data.root.len() == 3 {
                let forms = VerbForms {
                    first_cs: build_triliteral_preterit(&data.root, data.theme_vowel, Person::FirstCs),
                    second_ms: build_triliteral_preterit(&data.root, data.theme_vowel, Person::SecondMs),
                    second_fs: build_triliteral_preterit(&data.root, data.theme_vowel, Person::SecondFs),
                    third_cs: build_triliteral_preterit(&data.root, data.theme_vowel, Person::ThirdCs),
                    first_cp: build_triliteral_preterit(&data.root, data.theme_vowel, Person::FirstCp),
                    second_cp: build_triliteral_preterit(&data.root, data.theme_vowel, Person::SecondCp),
                    third_mp: build_triliteral_preterit(&data.root, data.theme_vowel, Person::ThirdMp),
                    third_fp: build_triliteral_preterit(&data.root, data.theme_vowel, Person::ThirdFp),
                };
                Ok(forms)
            } else {
                Err(MorphologyError::InvalidRootLength)
            }
        },
        VerbStem::GStemWeakIn => {
            if data.root.len() == 3 {
                let root = vec![data.root[1], data.root[1], data.root[2]];
                let forms = VerbForms {
                    first_cs: build_triliteral_preterit(&root, data.theme_vowel, Person::FirstCs),
                    second_ms: build_triliteral_preterit(&root, data.theme_vowel, Person::SecondMs),
                    second_fs: build_triliteral_preterit(&root, data.theme_vowel, Person::SecondFs),
                    third_cs: build_triliteral_preterit(&root, data.theme_vowel, Person::ThirdCs),
                    first_cp: build_triliteral_preterit(&root, data.theme_vowel, Person::FirstCp),
                    second_cp: build_triliteral_preterit(&root, data.theme_vowel, Person::SecondCp),
                    third_mp: build_triliteral_preterit(&root, data.theme_vowel, Person::ThirdMp),
                    third_fp: build_triliteral_preterit(&root, data.theme_vowel, Person::ThirdFp),
                };
                Ok(forms)
            } else {
                Err(MorphologyError::InvalidRootLength)
            }
        },
        VerbStem::GStemWeakIII => {
            if data.root.len() == 2 {
                let forms = VerbForms {
                    first_cs: build_biliteral_preterit(&data.root, data.theme_vowel, Person::FirstCs),
                    second_ms: build_biliteral_preterit(&data.root, data.theme_vowel, Person::SecondMs),
                    second_fs: build_biliteral_preterit(&data.root, data.theme_vowel, Person::SecondFs),
                    third_cs: build_biliteral_preterit(&data.root, data.theme_vowel, Person::ThirdCs),
                    first_cp: build_biliteral_preterit(&data.root, data.theme_vowel, Person::FirstCp),
                    second_cp: build_biliteral_preterit(&data.root, data.theme_vowel, Person::SecondCp),
                    third_mp: build_biliteral_preterit(&data.root, data.theme_vowel, Person::ThirdMp),
                    third_fp: build_biliteral_preterit(&data.root, data.theme_vowel, Person::ThirdFp),
                };
                Ok(forms)
            } else {
                Err(MorphologyError::InvalidRootLength)
            }
        },
    }
}

/// Builds the masculine and feminine verbal adjective for a classified
/// record. Succeeds exactly when the root has two or three consonants and,
/// for a biliteral root, the adjectival vowel can be lengthened; the two
/// forms then follow `spec_adjective_masculine` and
/// `spec_adjective_feminine`.
pub fn to_adjective(data: &VerbData) -> (res: Result<[String; 2], MorphologyError>)
    ensures
        res is Ok <==> (data.root@.len() == 3 || (data.root@.len() == 2 && lengthenable(
            data.verb_adjectival_vowel,
        ))),
        res is Ok ==> res->Ok_0@[0]@ == spec_adjective_masculine(data.root@),
        res is Ok ==> res->Ok_0@[1]@ == spec_adjective_feminine(
            data.root@,
            data.verb_type,
            data.verb_adjectival_vowel,
        ),
        res is Err ==> res->Err_0 == (if data.root@.len() == 2 {
            MorphologyError::UnknownPhoneme
        } else {
            MorphologyError::InvalidRootLength
        }),
{
    if data.root.len() == 3 {
        let r1 = data.root[0];
        let r2 = data.root[1];
        let r3 = data.root[2];
        let av = data.verb_adjectival_vowel;

        let mut masculine = String::new();
        push_char(&mut masculine, r1);
        push_char(&mut masculine, 'a');
        push_char(&mut masculine, r2);
        push_char(&mut masculine, r3);
        push_char(&mut masculine, 'u');
        push_char(&mut masculine, 'm');
        proof {
            assert(masculine@ =~= spec_adjective_masculine(data.root@));
        }

        let mut feminine = String::new();
        push_char(&mut feminine, r1);
        push_char(&mut feminine, 'a');
        push_char(&mut feminine, r2);
        if data.verb_type == VerbType::Adjectival && r2 == r3 {
            push_char(&mut feminine, r3);
            push_char(&mut feminine, 'a');
            push_char(&mut feminine, 't');
        } else if r3 == 'd' || r3 == 'ṭ' {
            push_char(&mut feminine, av);
            push_char(&mut feminine, 't');
            push_char(&mut feminine, 't');
        } else if r3 == 's' || r3 == 'ṣ' || r3 == 'z' {
            push_char(&mut feminine, av);
            push_char(&mut feminine, 'š');
            push_char(&mut feminine, 't');
        } else {
            push_char(&mut feminine, av);
            let assimilated = n_assimilation(r3, 't');
            feminine.append(assimilated.as_str());
        }
        push_char(&mut feminine, 'u');
        push_char(&mut feminine, 'm');
        proof {
            assert(feminine@ =~= spec_adjective_feminine(
                data.root@,
                data.verb_type,
                data.verb_adjectival_vowel,
            ));
        }

        Ok([masculine, feminine])
    } else if data.root.len() == 2 {
        let r1 = data.root[0];
        let r2 = data.root[1];
        let lengthened = match try_lengten(data.verb_adjectival_vowel) {
            Ok(v) => v,
            Err(e) => {
                return Err(e);
            },
        };

        let mut masculine = String::new();
        push_char(&mut masculine, r1);
        push_char(&mut masculine, 'a');
        push_char(&mut masculine, r2);
        push_char(&mut masculine, 'û');
        push_char(&mut masculine, 'm');
        proof {
            assert(masculine@ =~= spec_adjective_masculine(data.root@));
        }

        let mut feminine = String::new();
        push_char(&mut feminine, r1);
        push_char(&mut feminine, 'a');
        push_char(&mut feminine, r2);
        push_char(&mut feminine, lengthened);
        push_char(&mut feminine, 't');
        push_char(&mut feminine, 'u');
        push_char(&mut feminine, 'm');
        proof {
            assert(feminine@ =~= spec_adjective_feminine(
                data.root@,
                data.verb_type,
                data.verb_adjectival_vowel,
            ));
        }

        Ok([masculine, feminine])
    } else {
        Err(MorphologyError::InvalidRootLength)
    }
}

/// Conjugates one verb: builds the preterite paradigm and the adjective pair
/// and bundles them with the spelling and the source record. The first
/// failure — a root length that does not match the stem variant, then an
/// adjectival vowel outside the closed inventory — is reported and no
/// partial bundle is returned.
pub fn conjugate(verb: &String, data: &VerbData) -> (res: Result<Verb, MorphologyError>)
    ensures
        res is Ok <==> spec_conjugable(data.stem, data.root@, data.verb_adjectival_vowel),
        res is Ok ==> res->Ok_0.verb@ == verb@,
        res is Ok ==> res->Ok_0.data@ == data@,
        res is Ok ==> forall|p: Person| #[trigger]
            res->Ok_0.preterite.slot(p) == spec_preterite_form(
                data.stem,
                data.root@,
                data.theme_vowel,
                p,
            ),
        res is Ok ==> res->Ok_0.adjective@[0]@ == spec_adjective_masculine(data.root@),
        res is Ok ==> res->Ok_0.adjective@[1]@ == spec_adjective_feminine(
            data.root@,
            data.verb_type,
            data.verb_adjectival_vowel,
        ),
        res is Err ==> res->Err_0 == (if !root_len_ok(data.stem, data.root@) {
            MorphologyError::InvalidRootLength
        } else {
            MorphologyError::UnknownPhoneme
        }),
{
    let preterite = match to_preterite(data) {
        Ok(forms) => forms,
        Err(e) => {
            return Err(e);
        },
    };
    let adjective = match to_adjective(data) {
        Ok(adj) => adj,
        Err(e) => {
            return Err(e);
        },
    };
    Ok(Verb { verb: verb.clone(), preterite, adjective, data: data.clone() })
}

} // verus!
