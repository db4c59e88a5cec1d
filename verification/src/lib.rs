//! A rule-based morphological generator for Akkadian G-stem verbs.
//!
//! Given a verb root (two or three consonants), its declared stem family and
//! type, and its phonetic parameters, the library derives the concrete stem
//! variant, builds the eight preterite person forms, and builds the two
//! verbal-adjective forms, applying the language's assimilation and
//! vowel-contraction rules at morpheme boundaries.

pub mod affixes;
pub mod conjugator;
pub mod phonology;
pub mod verb;

use vstd::prelude::*;

verus! {

/// The closed set of failures the engine can report. All of them mean
/// malformed input data; none is retried.
#[derive(Clone, Copy, Debug, PartialEq, Eq, Structural)]
pub enum MorphologyError {
    /// The declared stem family is not the one recognized family.
    UnrecognizedStemFamily,
    /// The root has fewer than two or more than three consonants.
    InvalidRootLength,
    /// A vowel outside the closed lengthening inventory was supplied.
    UnknownPhoneme,
    /// The declared verb type is neither active nor adjectival.
    UnrecognizedVerbType,
}

} // verus!
