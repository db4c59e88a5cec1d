use akkadian_conjugator::conjugator::{conjugate, to_adjective, to_preterite};
use akkadian_conjugator::verb::{VerbData, VerbStem, VerbType};
use akkadian_conjugator::MorphologyError;

fn verb_data(
    verb_type: VerbType,
    stem: VerbStem,
    theme_vowel: char,
    adj_vowel: char,
    root: Vec<char>,
) -> VerbData {
    VerbData {
        transcription: String::from("parāsum"),
        verb_type,
        stem,
        theme_vowel,
        verb_adjectival_vowel: adj_vowel,
        root,
        meaning: vec![String::from("to cut")],
    }
}

#[test]
fn strong_preterite_paradigm() {
    let data = verb_data(VerbType::Active, VerbStem::GStem, 'u', 'u', vec!['p', 'r', 's']);
    let forms = to_preterite(&data).unwrap();
    assert_eq!(forms.first_cs, "aprus");
    assert_eq!(forms.second_ms, "taprus");
    assert_eq!(forms.second_fs, "taprusī");
    assert_eq!(forms.third_cs, "iprus");
    assert_eq!(forms.first_cp, "niprus");
    assert_eq!(forms.second_cp, "taprusā");
    assert_eq!(forms.third_mp, "iprusū");
    assert_eq!(forms.third_fp, "iprusā");
}

#[test]
fn weak_initial_n_preterite_doubles_second_radical() {
    let data = verb_data(VerbType::Active, VerbStem::GStemWeakIn, 'i', 'i', vec!['n', 'd', 'n']);
    let forms = to_preterite(&data).unwrap();
    assert_eq!(forms.third_cs, "iddin");
    assert_eq!(forms.first_cs, "addin");
    assert_eq!(forms.second_fs, "taddinī");
    assert_eq!(forms.third_mp, "iddinū");
}

#[test]
fn weak_final_preterite_with_e_theme_contracts() {
    let data = verb_data(VerbType::Active, VerbStem::GStemWeakIII, 'e', 'u', vec!['š', 'q']);
    let forms = to_preterite(&data).unwrap();
    assert_eq!(forms.first_cs, "ešqe");
    assert_eq!(forms.second_ms, "tešqe");
    assert_eq!(forms.second_fs, "tešqî");
    assert_eq!(forms.third_cs, "išqe");
    assert_eq!(forms.first_cp, "nišqe");
    assert_eq!(forms.second_cp, "tešqeā");
    assert_eq!(forms.third_mp, "išqû");
    assert_eq!(forms.third_fp, "išqeā");
}

#[test]
fn weak_final_preterite_with_i_theme_uses_ordinary_prefixes() {
    let data = verb_data(VerbType::Active, VerbStem::GStemWeakIII, 'i', 'u', vec!['q', 'b']);
    let forms = to_preterite(&data).unwrap();
    assert_eq!(forms.first_cs, "aqbi");
    assert_eq!(forms.third_cs, "iqbi");
    assert_eq!(forms.second_fs, "taqbî");
    assert_eq!(forms.third_fp, "iqbiā");
}

#[test]
fn preterite_rejects_root_shorter_than_stem_demands() {
    let data = verb_data(VerbType::Active, VerbStem::GStem, 'u', 'u', vec!['p', 'r']);
    assert_eq!(to_preterite(&data).unwrap_err(), MorphologyError::InvalidRootLength);
}

#[test]
fn preterite_rejects_triliteral_root_on_weak_final_stem() {
    let data = verb_data(VerbType::Active, VerbStem::GStemWeakIII, 'u', 'u', vec!['p', 'r', 's']);
    assert_eq!(to_preterite(&data).unwrap_err(), MorphologyError::InvalidRootLength);
}

#[test]
fn adjective_of_strong_root_with_sibilant_ending() {
    let data = verb_data(VerbType::Active, VerbStem::GStem, 'a', 'u', vec!['p', 'r', 's']);
    let adjective = to_adjective(&data).unwrap();
    assert_eq!(adjective[0], "parsum");
    assert_eq!(adjective[1], "paruštum");
}

#[test]
fn adjective_general_case_keeps_suffix_t() {
    let data = verb_data(VerbType::Active, VerbStem::GStem, 'a', 'u', vec!['p', 'r', 'k']);
    let adjective = to_adjective(&data).unwrap();
    assert_eq!(adjective[0], "parkum");
    assert_eq!(adjective[1], "paruktum");
}

#[test]
fn adjective_general_case_assimilates_final_n() {
    let data = verb_data(VerbType::Active, VerbStem::GStem, 'a', 'i', vec!['n', 'd', 'n']);
    let adjective = to_adjective(&data).unwrap();
    assert_eq!(adjective[0], "nadnum");
    assert_eq!(adjective[1], "nadittum");
}

#[test]
fn adjective_with_dental_ending_forces_t() {
    let data = verb_data(VerbType::Active, VerbStem::GStem, 'a', 'u', vec!['m', 'r', 'ṭ']);
    let adjective = to_adjective(&data).unwrap();
    assert_eq!(adjective[0], "marṭum");
    assert_eq!(adjective[1], "maruttum");
}

#[test]
fn adjectival_verb_with_doubled_radical() {
    let data = verb_data(VerbType::Adjectival, VerbStem::GStem, 'a', 'i', vec!['d', 'n', 'n']);
    let adjective = to_adjective(&data).unwrap();
    assert_eq!(adjective[0], "dannum");
    assert_eq!(adjective[1], "dannatum");
}

#[test]
fn adjective_of_biliteral_root_lengthens_the_vowel() {
    let data = verb_data(VerbType::Active, VerbStem::GStemWeakIII, 'e', 'u', vec!['š', 'q']);
    let adjective = to_adjective(&data).unwrap();
    assert_eq!(adjective[0], "šaqûm");
    assert_eq!(adjective[1], "šaqūtum");
}

#[test]
fn adjective_of_biliteral_root_rejects_unknown_vowel() {
    let data = verb_data(VerbType::Active, VerbStem::GStemWeakIII, 'e', 'x', vec!['š', 'q']);
    assert_eq!(to_adjective(&data).unwrap_err(), MorphologyError::UnknownPhoneme);
}

#[test]
fn conjugate_bundles_paradigm_and_adjective() {
    let data = verb_data(VerbType::Active, VerbStem::GStem, 'u', 'u', vec!['p', 'r', 's']);
    let verb = String::from("parāsum");
    let conjugated = conjugate(&verb, &data).unwrap();
    assert_eq!(conjugated.verb, "parāsum");
    assert_eq!(conjugated.preterite.third_cs, "iprus");
    assert_eq!(conjugated.preterite.second_cp, "taprusā");
    assert_eq!(conjugated.adjective[0], "parsum");
    assert_eq!(conjugated.adjective[1], "paruštum");
    assert_eq!(conjugated.data.transcription, "parāsum");
    assert_eq!(conjugated.data.root, vec!['p', 'r', 's']);
}

#[test]
fn conjugate_reports_root_length_mismatch() {
    let data = verb_data(VerbType::Active, VerbStem::GStem, 'u', 'u', vec!['p', 'r']);
    let verb = String::from("parāsum");
    assert_eq!(conjugate(&verb, &data).unwrap_err(), MorphologyError::InvalidRootLength);
}

#[test]
fn conjugate_reports_unknown_adjectival_vowel() {
    let data = verb_data(VerbType::Active, VerbStem::GStemWeakIII, 'e', 'x', vec!['š', 'q']);
    let verb = String::from("šaqûm");
    assert_eq!(conjugate(&verb, &data).unwrap_err(), MorphologyError::UnknownPhoneme);
}
