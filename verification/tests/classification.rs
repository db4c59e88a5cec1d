use akkadian_conjugator::verb::{classify, resolve_verb_data, VerbDataFromJson, VerbStem, VerbType};
use akkadian_conjugator::MorphologyError;

fn raw_record(verb_type: &str, stem: &str, root: Vec<char>) -> VerbDataFromJson {
    VerbDataFromJson {
        transcription: String::from("parāsum"),
        verb_type: String::from(verb_type),
        stem: String::from(stem),
        verb_adjectival_vowel: 'u',
        theme_vowel: 'a',
        root,
        meaning: vec![String::from("to cut")],
    }
}

#[test]
fn classify_strong_triliteral_root() {
    let root = vec!['p', 'r', 's'];
    assert_eq!(classify(&root, &String::from("g-stem")), Ok(VerbStem::GStem));
}

#[test]
fn classify_weak_initial_n_root() {
    let root = vec!['n', 'd', 'n'];
    assert_eq!(classify(&root, &String::from("g-stem")), Ok(VerbStem::GStemWeakIn));
}

#[test]
fn classify_biliteral_root_as_weak_final() {
    let root = vec!['š', 'q'];
    assert_eq!(classify(&root, &String::from("g-stem")), Ok(VerbStem::GStemWeakIII));
}

#[test]
fn classify_rejects_root_of_length_one() {
    let root = vec!['p'];
    assert_eq!(
        classify(&root, &String::from("g-stem")),
        Err(MorphologyError::InvalidRootLength)
    );
}

#[test]
fn classify_rejects_root_of_length_four() {
    let root = vec!['p', 'r', 's', 'd'];
    assert_eq!(
        classify(&root, &String::from("g-stem")),
        Err(MorphologyError::InvalidRootLength)
    );
}

#[test]
fn classify_rejects_unrecognized_stem_family() {
    let root = vec!['p', 'r', 's'];
    assert_eq!(
        classify(&root, &String::from("d-stem")),
        Err(MorphologyError::UnrecognizedStemFamily)
    );
}

#[test]
fn resolve_verb_data_builds_classified_record() {
    let raw = raw_record("active", "g-stem", vec!['p', 'r', 's']);
    let data = resolve_verb_data(&raw).unwrap();
    assert_eq!(data.transcription, "parāsum");
    assert_eq!(data.verb_type, VerbType::Active);
    assert_eq!(data.stem, VerbStem::GStem);
    assert_eq!(data.theme_vowel, 'a');
    assert_eq!(data.verb_adjectival_vowel, 'u');
    assert_eq!(data.root, vec!['p', 'r', 's']);
    assert_eq!(data.meaning, vec![String::from("to cut")]);
}

#[test]
fn resolve_verb_data_recognizes_adjectival_type() {
    let raw = raw_record("adjectival", "g-stem", vec!['d', 'n', 'n']);
    let data = resolve_verb_data(&raw).unwrap();
    assert_eq!(data.verb_type, VerbType::Adjectival);
}

#[test]
fn resolve_verb_data_rejects_unknown_type() {
    let raw = raw_record("stative", "g-stem", vec!['p', 'r', 's']);
    assert_eq!(
        resolve_verb_data(&raw).unwrap_err(),
        MorphologyError::UnrecognizedVerbType
    );
}

#[test]
fn resolve_verb_data_rejects_unknown_stem_family() {
    let raw = raw_record("active", "n-stem", vec!['p', 'r', 's']);
    assert_eq!(
        resolve_verb_data(&raw).unwrap_err(),
        MorphologyError::UnrecognizedStemFamily
    );
}

#[test]
fn resolve_verb_data_rejects_invalid_root_length() {
    let raw = raw_record("active", "g-stem", vec!['p', 'r', 's', 'd']);
    assert_eq!(
        resolve_verb_data(&raw).unwrap_err(),
        MorphologyError::InvalidRootLength
    );
}
