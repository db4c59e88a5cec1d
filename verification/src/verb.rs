//! Root data, stem classification, and interpretation of raw dictionary
//! records into classified verb data.

use vstd::prelude::*;
use crate::MorphologyError;

verus! {

/// A raw dictionary record, exactly as the lookup collaborator hands it
/// over: the type and stem family still as free text, the root as its
/// consonant sequence.
#[derive(Debug, Clone)]
pub struct VerbDataFromJson {
    pub transcription: String,
    pub verb_type: String,
    pub stem: String,
    pub verb_adjectival_vowel: char,
    pub theme_vowel: char,
    pub root: Vec<char>,
    pub meaning: Vec<String>,
}

/// The derived stem variant that selects the word-building rule.
#[derive(Clone, Copy, Debug, PartialEq, Eq, Structural)]
pub enum VerbStem {
    /// Default triliteral stem, first consonant not `n`.
    GStem,
    /// Triliteral stem whose first consonant `n` assimilates away.
    GStemWeakIn,
    /// Biliteral root that lost its third consonant.
    GStemWeakIII,
}

/// The declared grammatical type of the verb.
#[derive(Clone, Copy, Debug, PartialEq, Eq, Structural)]
pub enum VerbType {
    Active,
    Adjectival,
}

/// A classified verb record: the declared strings resolved to closed
/// variants, everything else carried over from the raw record.
#[derive(Debug)]
pub struct VerbData {
    pub transcription: String,
    pub verb_type: VerbType,
    pub stem: VerbStem,
    pub theme_vowel: char,
    pub verb_adjectival_vowel: char,
    pub root: Vec<char>,
    pub meaning: Vec<String>,
}

/// The mathematical value of a `VerbData`: each text field as its character
/// sequence.
#[verifier::ext_equal]
pub ghost struct VerbDataView {
    pub transcription: Seq<char>,
    pub verb_type: VerbType,
    pub stem: VerbStem,
    pub theme_vowel: char,
    pub verb_adjectival_vowel: char,
    pub root: Seq<char>,
    pub meaning: Seq<String>,
}

impl View for VerbData {
    type V = VerbDataView;

    open spec fn view(&self) -> VerbDataView {
        VerbDataView {
            transcription: self.transcription@,
            verb_type: self.verb_type,
            stem: self.stem,
            theme_vowel: self.theme_vowel,
            verb_adjectival_vowel: self.verb_adjectival_vowel,
            root: self.root@,
            meaning: self.meaning@,
        }
    }
}

impl Clone for VerbData {
    fn clone(&self) -> (res: Self)
        ensures
            res@ == self@,
    {
        let res = VerbData {
            transcription: self.transcription.clone(),
            verb_type: self.verb_type,
            stem: self.stem,
            theme_vowel: self.theme_vowel,
            verb_adjectival_vowel: self.verb_adjectival_vowel,
            root: copy_chars(&self.root),
            meaning: copy_strings(&self.meaning),
        };
        proof {
            assert(res@ =~= self@);
        }
        res
    }
}

fn copy_chars(v: &Vec<char>) -> (res: Vec<char>)
    ensures
        res@ == v@,
{
    let mut res: Vec<char> = Vec::new();
    let mut i: usize = 0;
    while i < v.len()
        invariant
            i <= v.len(),
            res@ == v@.subrange(0, i as int),
        decreases v.len() - i,
    {
        res.push(v[i]);
        proof {
            assert(v@.subrange(0, i as int).push(v@[i as int]) =~= v@.subrange(0, i + 1));
        }
        i += 1;
    }
    proof {
        assert(v@.subrange(0, v@.len() as int) =~= v@);
    }
    res
}

fn copy_strings(v: &Vec<String>) -> (res: Vec<String>)
    ensures
        res@ == v@,
{
    let mut res: Vec<String> = Vec::new();
    let mut i: usize = 0;
    while i < v.len()
        invariant
            i <= v.len(),
            res@ == v@.subrange(0, i as int),
        decreases v.len() - i,
    {
        res.push(v[i].clone());
        proof {
            assert(v@.subrange(0, i as int).push(v@[i as int]) =~= v@.subrange(0, i + 1));
        }
        i += 1;
    }
    proof {
        assert(v@.subrange(0, v@.len() as int) =~= v@);
    }
    res
}

/// The stem variant a root derives, as a total function of root length and
/// first consonant: a biliteral root is weak-final, a triliteral root
/// starting with `n` is weak-initial, any other triliteral root is strong,
/// and every other length is unclassifiable.
pub open spec fn spec_classify(root: Seq<char>) -> Option<VerbStem> {
    if root.len() == 2 {
        Some(VerbStem::GStemWeakIII)
    } else if root.len() == 3 && root[0] == 'n' {
        Some(VerbStem::GStemWeakIn)
    } else if root.len() == 3 {
        Some(VerbStem::GStem)
    } else {
        None
    }
}

/// The declared verb type a type string resolves to, if any.
pub open spec fn spec_verb_type(s: Seq<char>) -> Option<VerbType> {
    if s == "active"@ {
        Some(VerbType::Active)
    } else if s == "adjectival"@ {
        Some(VerbType::Adjectival)
    } else {
        None
    }
}

/// Derives the concrete stem variant from the root and the declared stem
/// family. Fails when the family is not the one recognized family, or when
/// the root has other than two or three consonants.
pub fn classify(root: &Vec<char>, stem_family: &String) -> (res: Result<
    VerbStem,
    MorphologyError,
>)
    ensures
        match res {
            Ok(stem) => stem_family@ == "g-stem"@ && Some(stem) == spec_classify(root@),
            Err(e) => if stem_family@ != "g-stem"@ {
                e == MorphologyError::UnrecognizedStemFamily
            } else {
                spec_classify(root@) is None && e == MorphologyError::InvalidRootLength
            },
        },
{
    let recognized = String::from_str("g-stem");
    if *stem_family != recognized {
        Err(MorphologyError::UnrecognizedStemFamily)
    } else if root.len() == 2 {
        Ok(VerbStem::GStemWeakIII)
    } else if root.len() == 3 {
        if root[0] == 'n' {
            Ok(VerbStem::GStemWeakIn)
        } else {
            Ok(VerbStem::GStem)
        }
    } else {
        Err(MorphologyError::InvalidRootLength)
    }
}

/// Resolves a raw dictionary record into classified verb data: the type
/// string must name a recognized verb type and the stem string a recognized
/// family, and the root must classify; the first failure is reported.
pub fn resolve_verb_data(raw: &VerbDataFromJson) -> (res: Result<VerbData, MorphologyError>)
    ensures
        match res {
            Ok(d) => {
                &&& spec_verb_type(raw.verb_type@) == Some(d.verb_type)
                &&& raw.stem@ == "g-stem"@
                &&& spec_classify(raw.root@) == Some(d.stem)
                &&& d.transcription@ == raw.transcription@
                &&& d.theme_vowel == raw.theme_vowel
                &&& d.verb_adjectival_vowel == raw.verb_adjectival_vowel
                &&& d.root@ == raw.root@
                &&& d.meaning@ == raw.meaning@
            },
            Err(e) => if spec_verb_type(raw.verb_type@) is None {
                e == MorphologyError::UnrecognizedVerbType
            } else if raw.stem@ != "g-stem"@ {
                e == MorphologyError::UnrecognizedStemFamily
            } else {
                spec_classify(raw.root@) is None && e == MorphologyError::InvalidRootLength
            },
        },
{
    let active = String::from_str("active");
    let adjectival = String::from_str("adjectival");
    let verb_type = if raw.verb_type == active {
        VerbType::Active
    } else if raw.verb_type == adjectival {
        VerbType::Adjectival
    } else {
        return Err(MorphologyError::UnrecognizedVerbType);
    };
    let stem = match classify(&raw.root, &raw.stem) {
        Ok(stem) => stem,
        Err(e) => {
            return Err(e);
        },
    };
    Ok(VerbData {
        transcription: raw.transcription.clone(),
        verb_type,
        stem,
        theme_vowel: raw.theme_vowel,
        verb_adjectival_vowel: raw.verb_adjectival_vowel,
        root: copy_chars(&raw.root),
        meaning: copy_strings(&raw.meaning),
    })
}

} // verus!
