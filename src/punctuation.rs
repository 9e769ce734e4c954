//! Script-aware punctuation: per-script mark tables and the decoration of
//! generated word sequences.
use vstd::prelude::*;

use crate::language::Language;
use crate::strings::{push_char, string_views};

verus! {

/// A kind of decoration. The order of the variants is the order in which the
/// kinds are applied.
#[derive(Clone, Copy, Debug, PartialEq, Eq, Structural)]
pub enum PunctuationKind {
    AfterNumber,
    BetweenWordsWithSpace,
    EndOfWord,
    Upcase,
    AroundWord,
    BetweenWordsWithoutSpace,
    OtherKinds,
}

/// The punctuation conventions a language follows.
#[derive(Clone, Copy, Debug, PartialEq, Eq, Structural)]
pub enum PunctuationLanguage {
    Latin,
    Chinese,
    Japanese,
    Korean,
    ArabicPersian,
    Hebrew,
    Devanagari,
    Thai,
    Burmese,
    Khmer,
    Ethiopic,
    Armenian,
    Greek,
    Mongolian,
    Unmapped,
}

/// The script family of each language; every language not listed here writes
/// with Latin punctuation.
pub open spec fn script_of(language: Language) -> PunctuationLanguage {
    match language {
        Language::Amharic1k => PunctuationLanguage::Ethiopic,
        Language::Amharic5k => PunctuationLanguage::Ethiopic,
        Language::Amharic => PunctuationLanguage::Ethiopic,
        Language::Arabic10k => PunctuationLanguage::ArabicPersian,
        Language::ArabicEgypt1k => PunctuationLanguage::ArabicPersian,
        Language::ArabicEgypt => PunctuationLanguage::ArabicPersian,
        Language::ArabicMorocco => PunctuationLanguage::ArabicPersian,
        Language::Arabic => PunctuationLanguage::ArabicPersian,
        Language::Armenian1k => PunctuationLanguage::Armenian,
        Language::ArmenianWestern1k => PunctuationLanguage::Armenian,
        Language::ArmenianWestern => PunctuationLanguage::Armenian,
        Language::Armenian => PunctuationLanguage::Armenian,
        Language::Bangla10k => PunctuationLanguage::Devanagari,
        Language::BanglaLetters => PunctuationLanguage::Devanagari,
        Language::Bangla => PunctuationLanguage::Devanagari,
        Language::ChineseSimplified10k => PunctuationLanguage::Chinese,
        Language::ChineseSimplified1k => PunctuationLanguage::Chinese,
        Language::ChineseSimplified50k => PunctuationLanguage::Chinese,
        Language::ChineseSimplified5k => PunctuationLanguage::Chinese,
        Language::ChineseSimplified => PunctuationLanguage::Chinese,
        Language::ChineseTraditional => PunctuationLanguage::Chinese,
        Language::Greek10k => PunctuationLanguage::Greek,
        Language::Greek1k => PunctuationLanguage::Greek,
        Language::Greek25k => PunctuationLanguage::Greek,
        Language::Greek5k => PunctuationLanguage::Greek,
        Language::Greek => PunctuationLanguage::Greek,
        Language::Gujarati1k => PunctuationLanguage::Devanagari,
        Language::Gujarati => PunctuationLanguage::Devanagari,
        Language::Hebrew10k => PunctuationLanguage::Hebrew,
        Language::Hebrew1k => PunctuationLanguage::Hebrew,
        Language::Hebrew5k => PunctuationLanguage::Hebrew,
        Language::Hebrew => PunctuationLanguage::Hebrew,
        Language::Hindi1k => PunctuationLanguage::Devanagari,
        Language::Hindi => PunctuationLanguage::Devanagari,
        Language::JapaneseHiragana => PunctuationLanguage::Japanese,
        Language::JapaneseKatakana => PunctuationLanguage::Japanese,
        Language::Khmer => PunctuationLanguage::Khmer,
        Language::Korean1k => PunctuationLanguage::Korean,
        Language::Korean5k => PunctuationLanguage::Korean,
        Language::Korean => PunctuationLanguage::Korean,
        Language::Marathi => PunctuationLanguage::Devanagari,
        Language::Mongolian10k => PunctuationLanguage::Mongolian,
        Language::Mongolian => PunctuationLanguage::Mongolian,
        Language::MyanmarBurmese => PunctuationLanguage::Burmese,
        Language::Nepali1k => PunctuationLanguage::Devanagari,
        Language::Nepali => PunctuationLanguage::Devanagari,
        Language::Pashto => PunctuationLanguage::ArabicPersian,
        Language::Persian1k => PunctuationLanguage::ArabicPersian,
        Language::Persian20k => PunctuationLanguage::ArabicPersian,
        Language::Persian5k => PunctuationLanguage::ArabicPersian,
        Language::Persian => PunctuationLanguage::ArabicPersian,
        Language::Sanskrit => PunctuationLanguage::Devanagari,
        Language::Tamil1k => PunctuationLanguage::Devanagari,
        Language::TamilOld => PunctuationLanguage::Devanagari,
        Language::Tamil => PunctuationLanguage::Devanagari,
        Language::Telugu1k => PunctuationLanguage::Devanagari,
        Language::Telugu => PunctuationLanguage::Devanagari,
        Language::Thai10k => PunctuationLanguage::Thai,
        Language::Thai1k => PunctuationLanguage::Thai,
        Language::Thai20k => PunctuationLanguage::Thai,
        Language::Thai50k => PunctuationLanguage::Thai,
        Language::Thai5k => PunctuationLanguage::Thai,
        Language::Thai60k => PunctuationLanguage::Thai,
        Language::Thai => PunctuationLanguage::Thai,
        Language::Tibetan1k => PunctuationLanguage::Devanagari,
        Language::Tibetan => PunctuationLanguage::Devanagari,
        Language::Urdish => PunctuationLanguage::ArabicPersian,
        Language::Urdu1k => PunctuationLanguage::ArabicPersian,
        Language::Urdu5k => PunctuationLanguage::ArabicPersian,
        Language::Urdu => PunctuationLanguage::ArabicPersian,
        Language::Yiddish => PunctuationLanguage::Hebrew,
        _ => PunctuationLanguage::Latin,
    }
}

impl From<Language> for PunctuationLanguage {
    fn from(value: Language) -> (r: PunctuationLanguage)
        ensures
            r == script_of(value),
    {
        match value {
            Language::Afrikaans10k => PunctuationLanguage::Latin,
            Language::Afrikaans1k => PunctuationLanguage::Latin,
            Language::Afrikaans => PunctuationLanguage::Latin,
            Language::Albanian1k => PunctuationLanguage::Latin,
            Language::Albanian => PunctuationLanguage::Latin,
            Language::Amharic1k => PunctuationLanguage::Ethiopic,
            Language::Amharic5k => PunctuationLanguage::Ethiopic,
            Language::Amharic => PunctuationLanguage::Ethiopic,
            Language::Arabic10k => PunctuationLanguage::ArabicPersian,
            Language::ArabicEgypt1k => PunctuationLanguage::ArabicPersian,
            Language::ArabicEgypt => PunctuationLanguage::ArabicPersian,
            Language::ArabicMorocco => PunctuationLanguage::ArabicPersian,
            Language::Arabic => PunctuationLanguage::ArabicPersian,
            Language::Armenian1k => PunctuationLanguage::Armenian,
            Language::ArmenianWestern1k => PunctuationLanguage::Armenian,
            Language::ArmenianWestern => PunctuationLanguage::Armenian,
            Language::Armenian => PunctuationLanguage::Armenian,
            Language::Azerbaijani1k => PunctuationLanguage::Latin,
            Language::Azerbaijani => PunctuationLanguage::Latin,
            Language::Bangla10k => PunctuationLanguage::Devanagari,
            Language::BanglaLetters => PunctuationLanguage::Devanagari,
            Language::Bangla => PunctuationLanguage::Devanagari,
            Language::Belarusian100k => PunctuationLanguage::Latin,
            Language::Belarusian10k => PunctuationLanguage::Latin,
            Language::Belarusian1k => PunctuationLanguage::Latin,
            Language::Belarusian25k => PunctuationLanguage::Latin,
            Language::Belarusian50k => PunctuationLanguage::Latin,
            Language::Belarusian5k => PunctuationLanguage::Latin,
            Language::BelarusianLacinka1k => PunctuationLanguage::Latin,
            Language::BelarusianLacinka => PunctuationLanguage::Latin,
            Language::Belarusian => PunctuationLanguage::Latin,
            Language::Bosnian4k => PunctuationLanguage::Latin,
            Language::Bosnian => PunctuationLanguage::Latin,
            Language::BulgarianLatin => PunctuationLanguage::Latin,
            Language::Bulgarian => PunctuationLanguage::Latin,
            Language::Catalan1k => PunctuationLanguage::Latin,
            Language::Catalan => PunctuationLanguage::Latin,
            Language::ChineseSimplified10k => PunctuationLanguage::Chinese,
            Language::ChineseSimplified1k => PunctuationLanguage::Chinese,
            Language::ChineseSimplified50k => PunctuationLanguage::Chinese,
            Language::ChineseSimplified5k => PunctuationLanguage::Chinese,
            Language::ChineseSimplified => PunctuationLanguage::Chinese,
            Language::ChineseTraditional => PunctuationLanguage::Chinese,
            Language::Croatian1k => PunctuationLanguage::Latin,
            Language::Croatian => PunctuationLanguage::Latin,
            Language::Czech10k => PunctuationLanguage::Latin,
            Language::Czech1k => PunctuationLanguage::Latin,
            Language::Czech => PunctuationLanguage::Latin,
            Language::Danish10k => PunctuationLanguage::Latin,
            Language::Danish1k => PunctuationLanguage::Latin,
            Language::Danish => PunctuationLanguage::Latin,
            Language::Dutch10k => PunctuationLanguage::Latin,
            Language::Dutch1k => PunctuationLanguage::Latin,
            Language::Dutch => PunctuationLanguage::Latin,
            Language::English10k => PunctuationLanguage::Latin,
            Language::English1k => PunctuationLanguage::Latin,
            Language::English25k => PunctuationLanguage::Latin,
            Language::English450k => PunctuationLanguage::Latin,
            Language::English5k => PunctuationLanguage::Latin,
            Language::EnglishCommonlyMisspelled => PunctuationLanguage::Latin,
            Language::EnglishContractions => PunctuationLanguage::Latin,
            Language::EnglishDoubleletter => PunctuationLanguage::Latin,
            Language::EnglishMedical => PunctuationLanguage::Latin,
            Language::EnglishOld => PunctuationLanguage::Latin,
            Language::EnglishShakespearean => PunctuationLanguage::Latin,
            Language::English => PunctuationLanguage::Latin,
            Language::Esperanto10k => PunctuationLanguage::Latin,
            Language::Esperanto1k => PunctuationLanguage::Latin,
            Language::Esperanto25k => PunctuationLanguage::Latin,
            Language::Esperanto36k => PunctuationLanguage::Latin,
            Language::EsperantoHSistemo10k => PunctuationLanguage::Latin,
            Language::EsperantoHSistemo1k => PunctuationLanguage::Latin,
            Language::EsperantoHSistemo25k => PunctuationLanguage::Latin,
            Language::EsperantoHSistemo36k => PunctuationLanguage::Latin,
            Language::EsperantoHSistemo => PunctuationLanguage::Latin,
            Language::EsperantoXSistemo10k => PunctuationLanguage::Latin,
            Language::EsperantoXSistemo1k => PunctuationLanguage::Latin,
            Language::EsperantoXSistemo25k => PunctuationLanguage::Latin,
            Language::EsperantoXSistemo36k => PunctuationLanguage::Latin,
            Language::EsperantoXSistemo => PunctuationLanguage::Latin,
            Language::Esperanto => PunctuationLanguage::Latin,
            Language::Estonian10k => PunctuationLanguage::Latin,
            Language::Estonian1k => PunctuationLanguage::Latin,
            Language::Estonian5k => PunctuationLanguage::Latin,
            Language::Estonian => PunctuationLanguage::Latin,
            Language::Euskera => PunctuationLanguage::Latin,
            Language::Filipino1k => PunctuationLanguage::Latin,
            Language::Filipino => PunctuationLanguage::Latin,
            Language::Finnish10k => PunctuationLanguage::Latin,
            Language::Finnish1k => PunctuationLanguage::Latin,
            Language::Finnish => PunctuationLanguage::Latin,
            Language::French10k => PunctuationLanguage::Latin,
            Language::French1k => PunctuationLanguage::Latin,
            Language::French2k => PunctuationLanguage::Latin,
            Language::French600k => PunctuationLanguage::Latin,
            Language::FrenchBitoduc => PunctuationLanguage::Latin,
            Language::French => PunctuationLanguage::Latin,
            Language::Frisian1k => PunctuationLanguage::Latin,
            Language::Frisian => PunctuationLanguage::Latin,
            Language::Galician => PunctuationLanguage::Latin,
            Language::Georgian => PunctuationLanguage::Latin,
            Language::German10k => PunctuationLanguage::Latin,
            Language::German1k => PunctuationLanguage::Latin,
            Language::German250k => PunctuationLanguage::Latin,
            Language::German => PunctuationLanguage::Latin,
            Language::Greek10k => PunctuationLanguage::Greek,
            Language::Greek1k => PunctuationLanguage::Greek,
            Language::Greek25k => PunctuationLanguage::Greek,
            Language::Greek5k => PunctuationLanguage::Greek,
            Language::Greek => PunctuationLanguage::Greek,
            Language::Gujarati1k => PunctuationLanguage::Devanagari,
            Language::Gujarati => PunctuationLanguage::Devanagari,
            Language::Hausa1k => PunctuationLanguage::Latin,
            Language::Hausa => PunctuationLanguage::Latin,
            Language::Hawaiian1k => PunctuationLanguage::Latin,
            Language::Hawaiian => PunctuationLanguage::Latin,
            Language::Hebrew10k => PunctuationLanguage::Hebrew,
            Language::Hebrew1k => PunctuationLanguage::Hebrew,
            Language::Hebrew5k => PunctuationLanguage::Hebrew,
            Language::Hebrew => PunctuationLanguage::Hebrew,
            Language::Hindi1k => PunctuationLanguage::Devanagari,
            Language::Hindi => PunctuationLanguage::Devanagari,
            Language::Hungarian2k => PunctuationLanguage::Latin,
            Language::Hungarian => PunctuationLanguage::Latin,
            Language::Icelandic1k => PunctuationLanguage::Latin,
            Language::Icelandic => PunctuationLanguage::Latin,
            Language::Indonesian10k => PunctuationLanguage::Latin,
            Language::Indonesian1k => PunctuationLanguage::Latin,
            Language::Indonesian => PunctuationLanguage::Latin,
            Language::Irish => PunctuationLanguage::Latin,
            Language::Italian1k => PunctuationLanguage::Latin,
            Language::Italian280k => PunctuationLanguage::Latin,
            Language::Italian60k => PunctuationLanguage::Latin,
            Language::Italian7k => PunctuationLanguage::Latin,
            Language::Italian => PunctuationLanguage::Latin,
            Language::JapaneseHiragana => PunctuationLanguage::Japanese,
            Language::JapaneseKatakana => PunctuationLanguage::Japanese,
            Language::JapaneseRomaji1k => PunctuationLanguage::Latin,
            Language::JapaneseRomaji => PunctuationLanguage::Latin,
            Language::Kazakh1k => PunctuationLanguage::Latin,
            Language::Kazakh => PunctuationLanguage::Latin,
            Language::Khmer => PunctuationLanguage::Khmer,
            Language::Korean1k => PunctuationLanguage::Korean,
            Language::Korean5k => PunctuationLanguage::Korean,
            Language::Korean => PunctuationLanguage::Korean,
            Language::KurdishCentral2k => PunctuationLanguage::Latin,
            Language::KurdishCentral4k => PunctuationLanguage::Latin,
            Language::KurdishCentral => PunctuationLanguage::Latin,
            Language::Kyrgyz1k => PunctuationLanguage::Latin,
            Language::Kyrgyz => PunctuationLanguage::Latin,
            Language::Latin => PunctuationLanguage::Latin,
            Language::Latvian1k => PunctuationLanguage::Latin,
            Language::Latvian => PunctuationLanguage::Latin,
            Language::Lithuanian1k => PunctuationLanguage::Latin,
            Language::Lithuanian3k => PunctuationLanguage::Latin,
            Language::Lithuanian => PunctuationLanguage::Latin,
            Language::Macedonian10k => PunctuationLanguage::Latin,
            Language::Macedonian1k => PunctuationLanguage::Latin,
            Language::Macedonian75k => PunctuationLanguage::Latin,
            Language::Macedonian => PunctuationLanguage::Latin,
            Language::Malay1k => PunctuationLanguage::Latin,
            Language::Malay => PunctuationLanguage::Latin,
            Language::Maltese1k => PunctuationLanguage::Latin,
            Language::Maltese => PunctuationLanguage::Latin,
            Language::Maori1k => PunctuationLanguage::Latin,
            Language::Marathi => PunctuationLanguage::Devanagari,
            Language::Mongolian10k => PunctuationLanguage::Mongolian,
            Language::Mongolian => PunctuationLanguage::Mongolian,
            Language::MyanmarBurmese => PunctuationLanguage::Burmese,
            Language::Nepali1k => PunctuationLanguage::Devanagari,
            Language::NepaliRomanized => PunctuationLanguage::Latin,
            Language::Nepali => PunctuationLanguage::Devanagari,
            Language::NorwegianBokmal10k => PunctuationLanguage::Latin,
            Language::NorwegianBokmal150k => PunctuationLanguage::Latin,
            Language::NorwegianBokmal1k => PunctuationLanguage::Latin,
            Language::NorwegianBokmal5k => PunctuationLanguage::Latin,
            Language::NorwegianBokmal600k => PunctuationLanguage::Latin,
            Language::NorwegianBokmal => PunctuationLanguage::Latin,
            Language::NorwegianNynorsk100k => PunctuationLanguage::Latin,
            Language::NorwegianNynorsk10k => PunctuationLanguage::Latin,
            Language::NorwegianNynorsk1k => PunctuationLanguage::Latin,
            Language::NorwegianNynorsk400k => PunctuationLanguage::Latin,
            Language::NorwegianNynorsk5k => PunctuationLanguage::Latin,
            Language::NorwegianNynorsk => PunctuationLanguage::Latin,
            Language::Occitan10k => PunctuationLanguage::Latin,
            Language::Occitan1k => PunctuationLanguage::Latin,
            Language::Occitan2k => PunctuationLanguage::Latin,
            Language::Occitan5k => PunctuationLanguage::Latin,
            Language::Occitan => PunctuationLanguage::Latin,
            Language::Pashto => PunctuationLanguage::ArabicPersian,
            Language::Persian1k => PunctuationLanguage::ArabicPersian,
            Language::Persian20k => PunctuationLanguage::ArabicPersian,
            Language::Persian5k => PunctuationLanguage::ArabicPersian,
            Language::PersianRomanized => PunctuationLanguage::Latin,
            Language::Persian => PunctuationLanguage::ArabicPersian,
            Language::Polish10k => PunctuationLanguage::Latin,
            Language::Polish200k => PunctuationLanguage::Latin,
            Language::Polish20k => PunctuationLanguage::Latin,
            Language::Polish2k => PunctuationLanguage::Latin,
            Language::Polish40k => PunctuationLanguage::Latin,
            Language::Polish5k => PunctuationLanguage::Latin,
            Language::Polish => PunctuationLanguage::Latin,
            Language::Portuguese1k => PunctuationLanguage::Latin,
            Language::Portuguese320k => PunctuationLanguage::Latin,
            Language::Portuguese3k => PunctuationLanguage::Latin,
            Language::Portuguese550k => PunctuationLanguage::Latin,
            Language::Portuguese5k => PunctuationLanguage::Latin,
            Language::PortugueseAcentosECedilha => PunctuationLanguage::Latin,
            Language::Portuguese => PunctuationLanguage::Latin,
            Language::Romanian100k => PunctuationLanguage::Latin,
            Language::Romanian10k => PunctuationLanguage::Latin,
            Language::Romanian1k => PunctuationLanguage::Latin,
            Language::Romanian200k => PunctuationLanguage::Latin,
            Language::Romanian25k => PunctuationLanguage::Latin,
            Language::Romanian50k => PunctuationLanguage::Latin,
            Language::Romanian5k => PunctuationLanguage::Latin,
            Language::Romanian => PunctuationLanguage::Latin,
            Language::Russian10k => PunctuationLanguage::Latin,
            Language::Russian1k => PunctuationLanguage::Latin,
            Language::Russian25k => PunctuationLanguage::Latin,
            Language::Russian375k => PunctuationLanguage::Latin,
            Language::Russian50k => PunctuationLanguage::Latin,
            Language::Russian5k => PunctuationLanguage::Latin,
            Language::RussianAbbreviations => PunctuationLanguage::Latin,
            Language::RussianContractions1k => PunctuationLanguage::Latin,
            Language::RussianContractions => PunctuationLanguage::Latin,
            Language::Russian => PunctuationLanguage::Latin,
            Language::SanskritRoman => PunctuationLanguage::Latin,
            Language::Sanskrit => PunctuationLanguage::Devanagari,
            Language::Serbian10k => PunctuationLanguage::Latin,
            Language::SerbianLatin10k => PunctuationLanguage::Latin,
            Language::SerbianLatin => PunctuationLanguage::Latin,
            Language::Serbian => PunctuationLanguage::Latin,
            Language::Slovak10k => PunctuationLanguage::Latin,
            Language::Slovak1k => PunctuationLanguage::Latin,
            Language::Slovak => PunctuationLanguage::Latin,
            Language::Slovenian1k => PunctuationLanguage::Latin,
            Language::Slovenian5k => PunctuationLanguage::Latin,
            Language::Slovenian => PunctuationLanguage::Latin,
            Language::Spanish10k => PunctuationLanguage::Latin,
            Language::Spanish1k => PunctuationLanguage::Latin,
            Language::Spanish650k => PunctuationLanguage::Latin,
            Language::Spanish => PunctuationLanguage::Latin,
            Language::Swahili1k => PunctuationLanguage::Latin,
            Language::Swedish1k => PunctuationLanguage::Latin,
            Language::SwedishDiacritics => PunctuationLanguage::Latin,
            Language::Swedish => PunctuationLanguage::Latin,
            Language::SwissGerman1k => PunctuationLanguage::Latin,
            Language::SwissGerman2k => PunctuationLanguage::Latin,
            Language::SwissGerman => PunctuationLanguage::Latin,
            Language::Tamil1k => PunctuationLanguage::Devanagari,
            Language::TamilOld => PunctuationLanguage::Devanagari,
            Language::Tamil => PunctuationLanguage::Devanagari,
            Language::Tanglish => PunctuationLanguage::Latin,
            Language::Tatar1k => PunctuationLanguage::Latin,
            Language::Tatar5k => PunctuationLanguage::Latin,
            Language::Tatar9k => PunctuationLanguage::Latin,
            Language::TatarCrimean10k => PunctuationLanguage::Latin,
            Language::TatarCrimean15k => PunctuationLanguage::Latin,
            Language::TatarCrimean1k => PunctuationLanguage::Latin,
            Language::TatarCrimean5k => PunctuationLanguage::Latin,
            Language::TatarCrimeanCyrillic10k => PunctuationLanguage::Latin,
            Language::TatarCrimeanCyrillic15k => PunctuationLanguage::Latin,
            Language::TatarCrimeanCyrillic1k => PunctuationLanguage::Latin,
            Language::TatarCrimeanCyrillic5k => PunctuationLanguage::Latin,
            Language::TatarCrimeanCyrillic => PunctuationLanguage::Latin,
            Language::TatarCrimean => PunctuationLanguage::Latin,
            Language::Tatar => PunctuationLanguage::Latin,
            Language::Telugu1k => PunctuationLanguage::Devanagari,
            Language::Telugu => PunctuationLanguage::Devanagari,
            Language::Thai10k => PunctuationLanguage::Thai,
            Language::Thai1k => PunctuationLanguage::Thai,
            Language::Thai20k => PunctuationLanguage::Thai,
            Language::Thai50k => PunctuationLanguage::Thai,
            Language::Thai5k => PunctuationLanguage::Thai,
            Language::Thai60k => PunctuationLanguage::Thai,
            Language::Thai => PunctuationLanguage::Thai,
            Language::Tibetan1k => PunctuationLanguage::Devanagari,
            Language::Tibetan => PunctuationLanguage::Devanagari,
            Language::Turkish1k => PunctuationLanguage::Latin,
            Language::Turkish5k => PunctuationLanguage::Latin,
            Language::Turkish => PunctuationLanguage::Latin,
            Language::Udmurt => PunctuationLanguage::Latin,
            Language::Ukrainian10k => PunctuationLanguage::Latin,
            Language::Ukrainian1k => PunctuationLanguage::Latin,
            Language::Ukrainian50k => PunctuationLanguage::Latin,
            Language::UkrainianEndings => PunctuationLanguage::Latin,
            Language::UkrainianLatynka10k => PunctuationLanguage::Latin,
            Language::UkrainianLatynka1k => PunctuationLanguage::Latin,
            Language::UkrainianLatynka50k => PunctuationLanguage::Latin,
            Language::UkrainianLatynkaEndings => PunctuationLanguage::Latin,
            Language::UkrainianLatynka => PunctuationLanguage::Latin,
            Language::Ukrainian => PunctuationLanguage::Latin,
            Language::Urdish => PunctuationLanguage::ArabicPersian,
            Language::Urdu1k => PunctuationLanguage::ArabicPersian,
            Language::Urdu5k => PunctuationLanguage::ArabicPersian,
            Language::Urdu => PunctuationLanguage::ArabicPersian,
            Language::Uzbek1k => PunctuationLanguage::Latin,
            Language::Uzbek70k => PunctuationLanguage::Latin,
            Language::Uzbek => PunctuationLanguage::Latin,
            Language::Vietnamese1k => PunctuationLanguage::Latin,
            Language::Vietnamese5k => PunctuationLanguage::Latin,
            Language::Vietnamese => PunctuationLanguage::Latin,
            Language::Welsh1k => PunctuationLanguage::Latin,
            Language::Welsh => PunctuationLanguage::Latin,
            Language::Xhosa3k => PunctuationLanguage::Latin,
            Language::Xhosa => PunctuationLanguage::Latin,
            Language::Yiddish => PunctuationLanguage::Hebrew,
            Language::Yoruba1k => PunctuationLanguage::Latin,
            Language::Zulu => PunctuationLanguage::Latin,
        }
    }
}

impl vstd::std_specs::convert::FromSpecImpl<Language> for PunctuationLanguage {
    open spec fn obeys_from_spec() -> bool {
        true
    }

    open spec fn from_spec(value: Language) -> PunctuationLanguage {
        script_of(value)
    }
}

/// The marks of `kind` that `script` writes with; empty where the script has
/// no such marks.
pub open spec fn marks_for(kind: PunctuationKind, script: PunctuationLanguage) -> Seq<char> {
    match kind {
        PunctuationKind::EndOfWord => match script {
            PunctuationLanguage::Latin => seq!['.', ',', ';', ':', '?', '!', '-'],
            PunctuationLanguage::Chinese => seq!['。', '、'],
            PunctuationLanguage::Japanese => seq!['。', '、'],
            PunctuationLanguage::Korean => seq!['.', ',', '?', '!'],
            PunctuationLanguage::ArabicPersian => seq!['،', '؛', '؟'],
            PunctuationLanguage::Hebrew => seq!['׃'],
            PunctuationLanguage::Devanagari => seq!['।', '॥'],
            PunctuationLanguage::Thai => seq!['ฯ'],
            PunctuationLanguage::Burmese => seq!['၊', '။'],
            PunctuationLanguage::Khmer => seq!['។', '៖'],
            PunctuationLanguage::Ethiopic => seq!['።', '፣'],
            PunctuationLanguage::Armenian => seq!['։', '՝', '՞'],
            PunctuationLanguage::Greek => seq!['.', ',', ';', '·'],
            PunctuationLanguage::Mongolian => seq!['᠂', '᠃'],
            _ => Seq::empty(),
        },
        PunctuationKind::AroundWord => match script {
            PunctuationLanguage::Latin => seq!['\'', '"', '(', ')', '[', ']', '{', '}', '<', '>'],
            PunctuationLanguage::Chinese => seq!['「', '」', '『', '』', '《', '》'],
            PunctuationLanguage::Japanese => seq!['「', '」', '『', '』', '《', '》'],
            PunctuationLanguage::ArabicPersian => seq!['«', '»'],
            PunctuationLanguage::Hebrew => seq!['«', '»', '„', '”'],
            PunctuationLanguage::Devanagari | PunctuationLanguage::Thai | PunctuationLanguage::Burmese | PunctuationLanguage::Khmer => seq!['(', ')'],
            PunctuationLanguage::Ethiopic => seq!['፨'],
            PunctuationLanguage::Armenian => seq!['«', '»'],
            PunctuationLanguage::Greek => seq!['«', '»', '“', '”'],
            PunctuationLanguage::Mongolian => seq!['᠁'],
            _ => Seq::empty(),
        },
        PunctuationKind::AfterNumber => match script {
            PunctuationLanguage::Latin => seq!['%'],
            PunctuationLanguage::ArabicPersian => seq!['٪'],
            _ => Seq::empty(),
        },
        PunctuationKind::BetweenWordsWithSpace => match script {
            PunctuationLanguage::Latin => seq!['–', '&'],
            PunctuationLanguage::Korean => seq!['·'],
            _ => Seq::empty(),
        },
        PunctuationKind::BetweenWordsWithoutSpace => match script {
            PunctuationLanguage::Latin => seq!['-', '/'],
            PunctuationLanguage::Thai => seq!['ๆ'],
            PunctuationLanguage::Khmer => seq!['々'],
            _ => Seq::empty(),
        },
        PunctuationKind::OtherKinds => match script {
            PunctuationLanguage::Latin => seq!['@', '#', '*', '^', '_'],
            PunctuationLanguage::Chinese | PunctuationLanguage::Japanese | PunctuationLanguage::Korean => seq!['〜'],
            PunctuationLanguage::Ethiopic => seq!['፨'],
            PunctuationLanguage::Armenian => seq!['՛'],
            PunctuationLanguage::Greek => seq!['·'],
            _ => Seq::empty(),
        },
        PunctuationKind::Upcase => Seq::empty(),
    }
}

/// The marks of `p_kind` that `p_lang` writes with.
pub fn get_punctuation(p_kind: PunctuationKind, p_lang: PunctuationLanguage) -> (r: Vec<char>)
    ensures
        r@ == marks_for(p_kind, p_lang),
{
    let kind = p_kind;
    let script = p_lang;
        match kind {
            PunctuationKind::EndOfWord => match script {
                PunctuationLanguage::Latin => vec!['.', ',', ';', ':', '?', '!', '-'],
                PunctuationLanguage::Chinese => vec!['。', '、'],
                PunctuationLanguage::Japanese => vec!['。', '、'],
                PunctuationLanguage::Korean => vec!['.', ',', '?', '!'],
                PunctuationLanguage::ArabicPersian => vec!['،', '؛', '؟'],
                PunctuationLanguage::Hebrew => vec!['׃'],
                PunctuationLanguage::Devanagari => vec!['।', '॥'],
                PunctuationLanguage::Thai => vec!['ฯ'],
                PunctuationLanguage::Burmese => vec!['၊', '။'],
                PunctuationLanguage::Khmer => vec!['។', '៖'],
                PunctuationLanguage::Ethiopic => vec!['።', '፣'],
                PunctuationLanguage::Armenian => vec!['։', '՝', '՞'],
                PunctuationLanguage::Greek => vec!['.', ',', ';', '·'],
                PunctuationLanguage::Mongolian => vec!['᠂', '᠃'],
                _ => Vec::new(),
            },
            PunctuationKind::AroundWord => match script {
                PunctuationLanguage::Latin => vec!['\'', '"', '(', ')', '[', ']', '{', '}', '<', '>'],
                PunctuationLanguage::Chinese => vec!['「', '」', '『', '』', '《', '》'],
                PunctuationLanguage::Japanese => vec!['「', '」', '『', '』', '《', '》'],
                PunctuationLanguage::ArabicPersian => vec!['«', '»'],
                PunctuationLanguage::Hebrew => vec!['«', '»', '„', '”'],
                PunctuationLanguage::Devanagari | PunctuationLanguage::Thai | PunctuationLanguage::Burmese | PunctuationLanguage::Khmer => vec!['(', ')'],
                PunctuationLanguage::Ethiopic => vec!['፨'],
                PunctuationLanguage::Armenian => vec!['«', '»'],
                PunctuationLanguage::Greek => vec!['«', '»', '“', '”'],
                PunctuationLanguage::Mongolian => vec!['᠁'],
                _ => Vec::new(),
            },
            PunctuationKind::AfterNumber => match script {
                PunctuationLanguage::Latin => vec!['%'],
                PunctuationLanguage::ArabicPersian => vec!['٪'],
                _ => Vec::new(),
            },
            PunctuationKind::BetweenWordsWithSpace => match script {
                PunctuationLanguage::Latin => vec!['–', '&'],
                PunctuationLanguage::Korean => vec!['·'],
                _ => Vec::new(),
            },
            PunctuationKind::BetweenWordsWithoutSpace => match script {
                PunctuationLanguage::Latin => vec!['-', '/'],
                PunctuationLanguage::Thai => vec!['ๆ'],
                PunctuationLanguage::Khmer => vec!['々'],
                _ => Vec::new(),
            },
            PunctuationKind::OtherKinds => match script {
                PunctuationLanguage::Latin => vec!['@', '#', '*', '^', '_'],
                PunctuationLanguage::Chinese | PunctuationLanguage::Japanese | PunctuationLanguage::Korean => vec!['〜'],
                PunctuationLanguage::Ethiopic => vec!['፨'],
                PunctuationLanguage::Armenian => vec!['՛'],
                PunctuationLanguage::Greek => vec!['·'],
                _ => Vec::new(),
            },
            PunctuationKind::Upcase => Vec::new(),
        }
}

/// The kinds in the order in which they are applied.
pub open spec fn priority_order() -> Seq<PunctuationKind> {
    seq![
        PunctuationKind::AfterNumber,
        PunctuationKind::BetweenWordsWithSpace,
        PunctuationKind::EndOfWord,
        PunctuationKind::Upcase,
        PunctuationKind::AroundWord,
        PunctuationKind::BetweenWordsWithoutSpace,
        PunctuationKind::OtherKinds,
    ]
}

pub open spec fn is_digit(c: char) -> bool {
    c == '0' || c == '1' || c == '2' || c == '3' || c == '4' || c == '5' || c == '6' || c == '7'
        || c == '8' || c == '9'
}

/// A word made of decimal digits only.
pub open spec fn is_number_word(w: Seq<char>) -> bool {
    w.len() > 0 && forall|i: int| 0 <= i < w.len() ==> #[trigger] is_digit(w[i])
}

/// Marks after a number only go on number words; every other kind goes on any word.
pub open spec fn applies_to(kind: PunctuationKind, w: Seq<char>) -> bool {
    kind == PunctuationKind::AfterNumber ==> is_number_word(w)
}

/// A mark that closes a bracket or a quotation.
pub open spec fn is_closing(m: char) -> bool {
    m == ')' || m == ']' || m == '}' || m == '>' || m == '」' || m == '』' || m == '》' || m
        == '»' || m == '”'
}

/// The mark that closes what `m` opens; a mark that is its own pair closes itself.
pub open spec fn closing_of(m: char) -> char {
    if m == '(' {
        ')'
    } else if m == '[' {
        ']'
    } else if m == '{' {
        '}'
    } else if m == '<' {
        '>'
    } else if m == '「' {
        '」'
    } else if m == '『' {
        '』'
    } else if m == '《' {
        '》'
    } else if m == '«' {
        '»'
    } else if m == '„' || m == '“' {
        '”'
    } else {
        m
    }
}

/// The marks among the first `n` that do not close anything, in order.
pub open spec fn opening_marks(marks: Seq<char>, n: int) -> Seq<char>
    decreases n,
{
    if n <= 0 {
        Seq::empty()
    } else if is_closing(marks[n - 1]) {
        opening_marks(marks, n - 1)
    } else {
        opening_marks(marks, n - 1).push(marks[n - 1])
    }
}

/// The marks a pass of `kind` chooses from: around a word only opening marks,
/// each paired with its closing one.
pub open spec fn pass_marks(kind: PunctuationKind, script: PunctuationLanguage) -> Seq<char> {
    let marks = marks_for(kind, script);
    if kind == PunctuationKind::AroundWord {
        opening_marks(marks, marks.len() as int)
    } else {
        marks
    }
}

/// The word `w` decorated with mark `m` of `kind`.
pub open spec fn decorate(kind: PunctuationKind, w: Seq<char>, m: char) -> Seq<char> {
    match kind {
        PunctuationKind::AfterNumber
        | PunctuationKind::EndOfWord
        | PunctuationKind::BetweenWordsWithoutSpace => w.push(m),
        PunctuationKind::BetweenWordsWithSpace => w.push(' ').push(m),
        PunctuationKind::AroundWord => seq![m] + w + seq![closing_of(m)],
        PunctuationKind::Upcase | PunctuationKind::OtherKinds => seq![m] + w,
    }
}

/// The number of words to decorate: `percentage` (at most 100) of `n`, rounded
/// to the nearest integer, halves up.
pub open spec fn target_count(n: nat, percentage: nat) -> nat {
    let p = if percentage < 100 { percentage } else { 100 };
    (n * p + 50) / 100
}

/// Decoration state: the words, which of them are decorated, and how many.
pub type DecorationState = (Seq<Seq<char>>, Seq<bool>, nat);

/// One pass of `kind` over the words from index `j` on: while fewer than
/// `target` words are decorated, each undecorated word that the kind applies to
/// gets the mark at its index modulo the number of marks.
pub open spec fn kind_pass(
    st: DecorationState,
    target: nat,
    kind: PunctuationKind,
    marks: Seq<char>,
    j: nat,
) -> DecorationState
    decreases st.0.len() - j,
{
    if j >= st.0.len() {
        st
    } else {
        let w = st.0[j as int];
        if st.2 < target && !st.1[j as int] && marks.len() > 0 && applies_to(kind, w) {
            let m = marks[(j % marks.len()) as int];
            kind_pass(
                (st.0.update(j as int, decorate(kind, w, m)), st.1.update(j as int, true), st.2 + 1),
                target,
                kind,
                marks,
                j + 1,
            )
        } else {
            kind_pass(st, target, kind, marks, j + 1)
        }
    }
}

/// The passes of the requested kinds, in priority order from position `p` on.
pub open spec fn all_passes(
    st: DecorationState,
    target: nat,
    kinds: Seq<PunctuationKind>,
    script: PunctuationLanguage,
    p: nat,
) -> DecorationState
    decreases 7 - p,
{
    if p >= 7 {
        st
    } else {
        let kind = priority_order()[p as int];
        let next = if kinds.contains(kind) {
            kind_pass(st, target, kind, pass_marks(kind, script), 0)
        } else {
            st
        };
        all_passes(next, target, kinds, script, p + 1)
    }
}

/// The words decorated with the punctuation of `language`.
pub open spec fn punctuated(
    words: Seq<Seq<char>>,
    language: Language,
    kinds: Seq<PunctuationKind>,
    percentage: nat,
) -> Seq<Seq<char>> {
    let start = (words, Seq::new(words.len(), |i: int| false), 0nat);
    all_passes(start, target_count(words.len(), percentage), kinds, script_of(language), 0).0
}

/// Number of `true` entries among the first `n`.
pub open spec fn count_true(done: Seq<bool>, n: int) -> nat
    decreases n,
{
    if n <= 0 {
        0
    } else {
        count_true(done, n - 1) + if done[n - 1] {
            1nat
        } else {
            0nat
        }
    }
}

/// Number of positions among the first `n` where `a` and `b` differ.
pub open spec fn count_changed(a: Seq<Seq<char>>, b: Seq<Seq<char>>, n: int) -> nat
    decreases n,
{
    if n <= 0 {
        0
    } else {
        count_changed(a, b, n - 1) + if a[n - 1] != b[n - 1] {
            1nat
        } else {
            0nat
        }
    }
}

/// `w` is `orig` with one decoration.
pub open spec fn is_decoration(w: Seq<char>, orig: Seq<char>) -> bool {
    exists|k: PunctuationKind, m: char| w == #[trigger] decorate(k, orig, m)
}

/// The decoration state of `orig`: undecorated words are unchanged, each
/// decorated word carries one decoration, and the count is that of the
/// decorated words.
pub open spec fn tracks(orig: Seq<Seq<char>>, st: DecorationState) -> bool {
    &&& st.0.len() == orig.len()
    &&& st.1.len() == orig.len()
    &&& forall|j: int|
        0 <= j < orig.len() ==> (!st.1[j] ==> st.0[j] == orig[j]) && (#[trigger] st.1[j]
            ==> is_decoration(st.0[j], orig[j]))
    &&& count_true(st.1, orig.len() as int) == st.2
}

proof fn lemma_count_mark(done: Seq<bool>, j: int, n: int)
    requires
        0 <= j < n <= done.len(),
        !done[j],
    ensures
        count_true(done.update(j, true), n) == count_true(done, n) + 1,
    decreases n,
{
    if n - 1 > j {
        lemma_count_mark(done, j, n - 1);
    } else {
        assert forall|i: int| 0 <= i < j implies done.update(j, true)[i] == done[i] by {}
        lemma_count_same(done, done.update(j, true), j);
    }
}

proof fn lemma_count_same(a: Seq<bool>, b: Seq<bool>, n: int)
    requires
        n <= a.len(),
        n <= b.len(),
        forall|i: int| 0 <= i < n ==> a[i] == b[i],
    ensures
        count_true(a, n) == count_true(b, n),
    decreases n,
{
    if n > 0 {
        lemma_count_same(a, b, n - 1);
    }
}

proof fn lemma_count_none(n: int)
    requires
        n >= 0,
    ensures
        count_true(Seq::new(n as nat, |i: int| false), n) == 0,
    decreases n,
{
    if n > 0 {
        let all = Seq::new(n as nat, |i: int| false);
        let fewer = Seq::new((n - 1) as nat, |i: int| false);
        lemma_count_none(n - 1);
        lemma_count_same(all, fewer, n - 1);
    }
}

proof fn lemma_changed_within_done(orig: Seq<Seq<char>>, st: DecorationState, n: int)
    requires
        tracks(orig, st),
        n <= orig.len(),
    ensures
        count_changed(orig, st.0, n) <= count_true(st.1, n),
    decreases n,
{
    if n > 0 {
        lemma_changed_within_done(orig, st, n - 1);
    }
}

proof fn lemma_kind_pass_tracks(
    orig: Seq<Seq<char>>,
    st: DecorationState,
    target: nat,
    kind: PunctuationKind,
    marks: Seq<char>,
    j: nat,
)
    requires
        tracks(orig, st),
        st.2 <= target,
    ensures
        tracks(orig, kind_pass(st, target, kind, marks, j)),
        kind_pass(st, target, kind, marks, j).2 <= target,
    decreases st.0.len() - j,
{
    if j < st.0.len() {
        let w = st.0[j as int];
        if st.2 < target && !st.1[j as int] && marks.len() > 0 && applies_to(kind, w) {
            let m = marks[(j % marks.len()) as int];
            let next = (
                st.0.update(j as int, decorate(kind, w, m)),
                st.1.update(j as int, true),
                st.2 + 1,
            );
            lemma_count_mark(st.1, j as int, orig.len() as int);
            assert forall|i: int| 0 <= i < orig.len() implies (!next.1[i] ==> next.0[i] == orig[i])
                && (#[trigger] next.1[i] ==> is_decoration(next.0[i], orig[i])) by {
                if i == j {
                    assert(next.0[i] == decorate(kind, orig[i], m));
                }
            }
            lemma_kind_pass_tracks(orig, next, target, kind, marks, j + 1);
        } else {
            lemma_kind_pass_tracks(orig, st, target, kind, marks, j + 1);
        }
    }
}

proof fn lemma_all_passes_tracks(
    orig: Seq<Seq<char>>,
    st: DecorationState,
    target: nat,
    kinds: Seq<PunctuationKind>,
    script: PunctuationLanguage,
    p: nat,
)
    requires
        tracks(orig, st),
        st.2 <= target,
    ensures
        tracks(orig, all_passes(st, target, kinds, script, p)),
        all_passes(st, target, kinds, script, p).2 <= target,
    decreases 7 - p,
{
    if p < 7 {
        let kind = priority_order()[p as int];
        let next = if kinds.contains(kind) {
            kind_pass(st, target, kind, pass_marks(kind, script), 0)
        } else {
            st
        };
        if kinds.contains(kind) {
            lemma_kind_pass_tracks(orig, st, target, kind, pass_marks(kind, script), 0);
        }
        lemma_all_passes_tracks(orig, next, target, kinds, script, p + 1);
    }
}

/// Punctuation keeps the number and order of the words: each word stays as
/// it was or carries exactly one decoration, and at most the target number of
/// words change.
pub proof fn lemma_punctuated_shape(
    words: Seq<Seq<char>>,
    language: Language,
    kinds: Seq<PunctuationKind>,
    percentage: nat,
)
    ensures
        punctuated(words, language, kinds, percentage).len() == words.len(),
        forall|j: int|
            0 <= j < words.len() ==> #[trigger] punctuated(words, language, kinds, percentage)[j]
                == words[j] || is_decoration(
                punctuated(words, language, kinds, percentage)[j],
                words[j],
            ),
        count_changed(
            words,
            punctuated(words, language, kinds, percentage),
            words.len() as int,
        ) <= target_count(words.len(), percentage),
{
    let start = (words, Seq::new(words.len(), |i: int| false), 0nat);
    let target = target_count(words.len(), percentage);
    lemma_count_none(words.len() as int);
    assert(tracks(words, start));
    lemma_all_passes_tracks(words, start, target, kinds, script_of(language), 0);
    let end = all_passes(start, target, kinds, script_of(language), 0);
    lemma_changed_within_done(words, end, words.len() as int);
    assert forall|j: int| 0 <= j < words.len() implies #[trigger] end.0[j] == words[j]
        || is_decoration(end.0[j], words[j]) by {
        if end.1[j] {
        }
    }
}

fn is_number(word: &String) -> (r: bool)
    ensures
        r == is_number_word(word@),
{
    let s = word.as_str();
    let len = s.unicode_len();
    if len == 0 {
        return false;
    }
    let mut i: usize = 0;
    while i < len
        invariant
            len == s@.len(),
            s@ == word@,
            i <= len,
            forall|k: int| 0 <= k < i ==> #[trigger] is_digit(s@[k]),
        decreases len - i,
    {
        let c = s.get_char(i);
        let digit = c == '0' || c == '1' || c == '2' || c == '3' || c == '4' || c == '5' || c
            == '6' || c == '7' || c == '8' || c == '9';
        if !digit {
            assert(!is_digit(s@[i as int]));
            return false;
        }
        i += 1;
    }
    true
}

fn closing_mark(m: char) -> (r: char)
    ensures
        r == closing_of(m),
{
    if m == '(' {
        ')'
    } else if m == '[' {
        ']'
    } else if m == '{' {
        '}'
    } else if m == '<' {
        '>'
    } else if m == '「' {
        '」'
    } else if m == '『' {
        '』'
    } else if m == '《' {
        '》'
    } else if m == '«' {
        '»'
    } else if m == '„' || m == '“' {
        '”'
    } else {
        m
    }
}

fn openers(marks: &Vec<char>) -> (r: Vec<char>)
    ensures
        r@ == opening_marks(marks@, marks@.len() as int),
{
    let mut r: Vec<char> = Vec::new();
    let mut i: usize = 0;
    while i < marks.len()
        invariant
            i <= marks@.len(),
            r@ == opening_marks(marks@, i as int),
        decreases marks@.len() - i,
    {
        let m = marks[i];
        let closing = m == ')' || m == ']' || m == '}' || m == '>' || m == '」' || m == '』' || m
            == '》' || m == '»' || m == '”';
        if !closing {
            r.push(m);
        }
        i += 1;
    }
    r
}

fn decorate_word(kind: PunctuationKind, word: &String, m: char) -> (r: String)
    ensures
        r@ == decorate(kind, word@, m),
{
    match kind {
        PunctuationKind::AfterNumber
        | PunctuationKind::EndOfWord
        | PunctuationKind::BetweenWordsWithoutSpace => {
            let mut s = word.clone();
            push_char(&mut s, m);
            s
        },
        PunctuationKind::BetweenWordsWithSpace => {
            let mut s = word.clone();
            push_char(&mut s, ' ');
            push_char(&mut s, m);
            s
        },
        PunctuationKind::AroundWord => {
            let mut s = String::new();
            push_char(&mut s, m);
            s.append(word.as_str());
            push_char(&mut s, closing_mark(m));
            assert(s@ =~= seq![m] + word@ + seq![closing_of(m)]);
            s
        },
        PunctuationKind::Upcase | PunctuationKind::OtherKinds => {
            let mut s = String::new();
            push_char(&mut s, m);
            s.append(word.as_str());
            assert(s@ =~= seq![m] + word@);
            s
        },
    }
}

fn contains_kind(kinds: &Vec<PunctuationKind>, kind: PunctuationKind) -> (r: bool)
    ensures
        r == kinds@.contains(kind),
{
    let mut i: usize = 0;
    while i < kinds.len()
        invariant
            i <= kinds.len(),
            forall|k: int| 0 <= k < i ==> kinds@[k] != kind,
        decreases kinds.len() - i,
    {
        if kinds[i] == kind {
            return true;
        }
        i += 1;
    }
    false
}

fn run_kind_pass(
    words: &mut Vec<String>,
    done: &mut Vec<bool>,
    count: &mut usize,
    target: usize,
    kind: PunctuationKind,
    marks: &Vec<char>,
)
    requires
        old(done).len() == old(words).len(),
        *old(count) <= target,
    ensures
        (string_views(final(words)@), final(done)@, *final(count) as nat) == kind_pass(
            (string_views(old(words)@), old(done)@, *old(count) as nat),
            target as nat,
            kind,
            marks@,
            0,
        ),
        final(words).len() == old(words).len(),
        final(done).len() == old(words).len(),
        *final(count) <= target,
{
    let ghost start = (string_views(words@), done@, *count as nat);
    let n = words.len();
    let mut j: usize = 0;
    while j < n
        invariant
            n == words.len(),
            done.len() == n,
            j <= n,
            *count <= target,
            kind_pass((string_views(words@), done@, *count as nat), target as nat, kind, marks@, j as nat)
                == kind_pass(start, target as nat, kind, marks@, 0),
        decreases n - j,
    {
        let ghost before = (string_views(words@), done@, *count as nat);
        if *count < target && !done[j] && marks.len() > 0 && (kind != PunctuationKind::AfterNumber
            || is_number(&words[j])) {
            let m = marks[j % marks.len()];
            let decorated = decorate_word(kind, &words[j], m);
            words[j] = decorated;
            done[j] = true;
            *count = *count + 1;
            assert(string_views(words@) =~= before.0.update(j as int, decorated@));
            assert(done@ =~= before.1.update(j as int, true));
        }
        j += 1;
    }
}

/// Decorates `percentage` percent (rounded, at most 100) of the words with the
/// punctuation of `language`, applying the requested kinds in priority order
/// and decorating no word twice. The number and order of the words are kept.
pub fn apply(
    words: Vec<String>,
    language: Language,
    kinds: Vec<PunctuationKind>,
    percentage: usize,
) -> (r: Vec<String>)
    ensures
        string_views(r@) == punctuated(string_views(words@), language, kinds@, percentage as nat),
        r.len() == words.len(),
{
    let script = PunctuationLanguage::from(language);
    let n = words.len();
    let pct: u128 = if percentage < 100 {
        percentage as u128
    } else {
        100
    };
    assert((n * pct + 50) / 100 <= n) by (nonlinear_arith)
        requires
            pct <= 100,
    ;
    let target = ((n as u128 * pct + 50) / 100) as usize;
    let order = vec![
        PunctuationKind::AfterNumber,
        PunctuationKind::BetweenWordsWithSpace,
        PunctuationKind::EndOfWord,
        PunctuationKind::Upcase,
        PunctuationKind::AroundWord,
        PunctuationKind::BetweenWordsWithoutSpace,
        PunctuationKind::OtherKinds,
    ];
    assert(order@ =~= priority_order());
    let mut words = words;
    let mut done: Vec<bool> = vec![false; n];
    let mut count: usize = 0;
    let ghost start = (string_views(words@), done@, 0nat);
    assert(done@ =~= Seq::new(n as nat, |i: int| false));
    let mut p: usize = 0;
    while p < 7
        invariant
            p <= 7,
            order@ == priority_order(),
            words.len() == n,
            done.len() == n,
            count <= target,
            target as nat == target_count(n as nat, percentage as nat),
            script == script_of(language),
            all_passes((string_views(words@), done@, count as nat), target as nat, kinds@, script, p as nat)
                == all_passes(start, target as nat, kinds@, script, 0),
        decreases 7 - p,
    {
        let kind = order[p];
        if contains_kind(&kinds, kind) {
            let all_marks = get_punctuation(kind, script);
            let marks = if kind == PunctuationKind::AroundWord {
                openers(&all_marks)
            } else {
                all_marks
            };
            run_kind_pass(&mut words, &mut done, &mut count, target, kind, &marks);
        }
        p += 1;
    }
    words
}

} // verus!
