//! The per-language metadata table: native script, romanization scheme and
//! teaching notes, keyed by the lowered language name, with one generic
//! fallback record for unrecognized languages.

use vstd::prelude::*;

use crate::text::{lower_of, lowercase, str_eq};

verus! {

/// Metadata that parameterizes the instruction document of a workspace.
pub struct LanguageInfo {
    pub native_script: &'static str,
    pub romanization: &'static str,
    pub notes: &'static str,
}

pub const NOTES_CHINESE: &'static str = "## Chinese-Specific Considerations\n\n- **Tones**: Pay attention to tone usage in learner's pinyin (if provided)\n- **Characters vs Pinyin**: Track if learner uses characters or pinyin\n- **Measure words**: Track these as grammar constructs\n- **Common structures**: shi...de, ba-sentences, bei-passive, le/guo/zhe aspects\n- **Cold start**: Use \"ni hao\" - one word with pinyin";

pub const NOTES_KOREAN: &'static str = "## Korean-Specific Considerations\n\n- **Politeness levels**: Track which speech levels the learner knows\n- **Particles**: Track subject/topic/object particles as grammar\n- **Verb conjugation**: Track tense and politeness conjugation patterns\n- **Honorifics**: Note when learner uses/should use honorific forms\n- **Cold start**: Use \"annyeong\" - one word with romanization";

pub const NOTES_JAPANESE: &'static str = "## Japanese-Specific Considerations\n\n- **Politeness levels**: Track desu/masu vs casual forms\n- **Particles**: Track particles (wa, ga, o, ni, de, etc.) as grammar\n- **Verb groups**: Note which verb conjugation patterns learner knows\n- **Kanji vs Kana**: Track which kanji the learner knows\n- **Cold start**: Use \"konnichiwa\" - one word with romaji";

pub const NOTES_SPANISH: &'static str = "## Spanish-Specific Considerations\n\n- **Verb conjugation**: Track which tenses and moods learner knows\n- **Ser vs Estar**: Track as separate grammar constructs\n- **Subjunctive**: Introduce gradually, it's complex\n- **Gender agreement**: Track as grammar construct\n- **Cold start**: Use \"Hola\" - one word";

pub const NOTES_FRENCH: &'static str = "## French-Specific Considerations\n\n- **Verb conjugation**: Track which tenses and moods learner knows\n- **Gender and articles**: Track as grammar constructs\n- **Liaisons**: Note pronunciation patterns\n- **Formal vs informal (tu/vous)**: Track which the learner uses\n- **Cold start**: Use \"Bonjour\" - one word";

pub const NOTES_GERMAN: &'static str = "## German-Specific Considerations\n\n- **Cases**: Track nominative, accusative, dative, genitive separately\n- **Verb position**: Track V2 rule, subordinate clause order\n- **Gender and articles**: Track der/die/das patterns\n- **Formal vs informal (Sie/du)**: Track which the learner uses\n- **Cold start**: Use \"Hallo\" - one word";

pub const NOTES_DEFAULT: &'static str = "## Language-Specific Considerations\n\n- Research and add language-specific grammar patterns as you encounter them\n- Pay attention to any unique features of this language\n- Adapt greeting and teaching style to cultural norms\n- Start with the simplest possible greeting and self-introduction";

/// The metadata record for a lowered language name, as a triple of views:
/// native script, romanization, notes.
pub open spec fn info_spec(l: Seq<char>) -> (Seq<char>, Seq<char>, Seq<char>) {
    if l == "chinese"@ || l == "mandarin"@ {
        ("汉字"@, "pinyin"@, NOTES_CHINESE@)
    } else if l == "korean"@ {
        ("한글"@, "none"@, NOTES_KOREAN@)
    } else if l == "japanese"@ {
        ("日本語"@, "romaji"@, NOTES_JAPANESE@)
    } else if l == "spanish"@ {
        ("Español"@, "none"@, NOTES_SPANISH@)
    } else if l == "french"@ {
        ("Français"@, "none"@, NOTES_FRENCH@)
    } else if l == "german"@ {
        ("Deutsch"@, "none"@, NOTES_GERMAN@)
    } else {
        ("Native Script"@, "none"@, NOTES_DEFAULT@)
    }
}

/// Looks the language up in the metadata table, case-insensitively;
/// unrecognized languages get the generic fallback record.
pub fn get_language_info(language: &str) -> (r: LanguageInfo)
    ensures
        (r.native_script@, r.romanization@, r.notes@) == info_spec(lower_of(language@)),
{
    let low = lowercase(language);
    let l = low.as_str();
    if str_eq(l, "chinese") || str_eq(l, "mandarin") {
        LanguageInfo { native_script: "汉字", romanization: "pinyin", notes: NOTES_CHINESE }
    } else if str_eq(l, "korean") {
        LanguageInfo { native_script: "한글", romanization: "none", notes: NOTES_KOREAN }
    } else if str_eq(l, "japanese") {
        LanguageInfo { native_script: "日本語", romanization: "romaji", notes: NOTES_JAPANESE }
    } else if str_eq(l, "spanish") {
        LanguageInfo { native_script: "Español", romanization: "none", notes: NOTES_SPANISH }
    } else if str_eq(l, "french") {
        LanguageInfo { native_script: "Français", romanization: "none", notes: NOTES_FRENCH }
    } else if str_eq(l, "german") {
        LanguageInfo { native_script: "Deutsch", romanization: "none", notes: NOTES_GERMAN }
    } else {
        LanguageInfo { native_script: "Native Script", romanization: "none", notes: NOTES_DEFAULT }
    }
}

} // verus!
