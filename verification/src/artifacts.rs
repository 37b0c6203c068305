//! The artifact files a freshly bootstrapped workspace is populated with:
//! the tutor instruction document, the empty vocabulary and grammar stores,
//! the default preference overrides, and the dated config record.

use vstd::prelude::*;

use crate::lang_info::{get_language_info, info_spec};
use crate::text::{lower_of, push_char, replace, replace_seq};

verus! {

pub const FILE_INSTRUCTIONS: &'static str = "AGENTS.md";

pub const FILE_VOCABULARY: &'static str = "vocabulary.json";

pub const FILE_GRAMMAR: &'static str = "grammar.json";

pub const FILE_OVERRIDES: &'static str = "user-overrides.json";

pub const FILE_CONFIG: &'static str = "config.json";

pub const VOCABULARY_TEMPLATE: &'static str = "{\n  \"language\": \"{{LANGUAGE_NAME}}\",\n  \"words\": []\n}";

pub const GRAMMAR_TEMPLATE: &'static str = "{\n  \"language\": \"{{LANGUAGE_NAME}}\",\n  \"rules\": []\n}";

pub const USER_OVERRIDES_TEMPLATE: &'static str = "{\n  \"language\": \"{{LANGUAGE_NAME}}\",\n  \"mode\": \"learning\",\n  \"preferences\": {\n    \"new_vocab_per_exchange\": 2,\n    \"show_romanization\": true\n  },\n  \"notes\": \"\"\n}";

/// The instruction document handed to the responder agent, with its four
/// substitution placeholders.
pub const TUTOR_TEMPLATE: &'static str = "# {{LANGUAGE_NAME}} Tutor\n\nYou are a patient {{LANGUAGE_NAME}} tutor. The learner is chatting with you to practice {{LANGUAGE_NAME}} ({{LANGUAGE_NATIVE}}).\n\n## Teaching Style\n\n- Reply briefly and conversationally, in {{LANGUAGE_NAME}} with short explanations in English\n- Romanization scheme to show alongside native script: {{ROMANIZATION}}\n- Introduce new vocabulary gradually; follow the preferences in user-overrides.json\n- Gently correct mistakes, then continue the conversation\n\n## Learner State\n\n- vocabulary.json holds the tracked words with their spaced-repetition data\n- grammar.json holds the tracked grammar constructs with star ratings\n- Read them to match your level to the learner; a separate tracker updates them\n\n{{LANGUAGE_SPECIFIC_NOTES}}\n";

pub open spec fn vocabulary_json_spec(lang: Seq<char>) -> Seq<char> {
    replace_seq(VOCABULARY_TEMPLATE@, "{{LANGUAGE_NAME}}"@, lang)
}

pub open spec fn grammar_json_spec(lang: Seq<char>) -> Seq<char> {
    replace_seq(GRAMMAR_TEMPLATE@, "{{LANGUAGE_NAME}}"@, lang)
}

pub open spec fn overrides_json_spec(lang: Seq<char>) -> Seq<char> {
    replace_seq(USER_OVERRIDES_TEMPLATE@, "{{LANGUAGE_NAME}}"@, lang)
}

/// The instruction document: the template with the language name, its
/// native script, romanization scheme and notes substituted in.
pub open spec fn instructions_spec(lang: Seq<char>) -> Seq<char> {
    let info = info_spec(lower_of(lang));
    replace_seq(
        replace_seq(
            replace_seq(
                replace_seq(TUTOR_TEMPLATE@, "{{LANGUAGE_NAME}}"@, lang),
                "{{LANGUAGE_NATIVE}}"@,
                info.0,
            ),
            "{{ROMANIZATION}}"@,
            info.1,
        ),
        "{{LANGUAGE_SPECIFIC_NOTES}}"@,
        info.2,
    )
}

pub open spec fn dec_digit(n: int) -> char {
    (48 + n) as char
}

/// The decimal digits of `n`, most significant first.
pub open spec fn dec_str(n: nat) -> Seq<char>
    decreases n,
{
    if n < 10 {
        seq![dec_digit(n as int)]
    } else {
        dec_str(n / 10) + seq![dec_digit((n % 10) as int)]
    }
}

/// `n` in decimal, zero-padded to at least two digits.
pub open spec fn pad2(n: nat) -> Seq<char> {
    if n < 10 {
        "0"@ + dec_str(n)
    } else {
        dec_str(n)
    }
}

/// `n` in decimal, zero-padded to at least four digits.
pub open spec fn pad4(n: nat) -> Seq<char> {
    if n < 10 {
        "000"@ + dec_str(n)
    } else if n < 100 {
        "00"@ + dec_str(n)
    } else if n < 1000 {
        "0"@ + dec_str(n)
    } else {
        dec_str(n)
    }
}

/// A calendar date in `YYYY-MM-DD` form; a negative year keeps its sign.
pub open spec fn date_spec(y: int, m: int, d: int) -> Seq<char> {
    (if y < 0 {
        seq!['-'] + pad4((-y) as nat)
    } else {
        pad4(y as nat)
    }) + "-"@ + pad2(m as nat) + "-"@ + pad2(d as nat)
}

/// The dated config record, in the pretty two-space-indented JSON shape.
pub open spec fn config_json_spec(lang: Seq<char>, date: Seq<char>) -> Seq<char> {
    let info = info_spec(lower_of(lang));
    "{\n  \"language\": \""@ + lang + "\",\n  \"native_script\": \""@ + info.0
        + "\",\n  \"romanization\": \""@ + info.1 + "\",\n  \"started\": \""@ + date + "\"\n}"@
}

fn dec_digit_exec(n: u32) -> (c: char)
    requires
        n < 10,
    ensures
        c == dec_digit(n as int),
{
    let b: u8 = (48 + n) as u8;
    proof {
        assert(b as u32 == 48 + n) by (bit_vector)
            requires
                n < 10,
                b == (48 + n) as u8,
        ;
    }
    b as char
}

fn push_digits(out: &mut String, n: u32)
    ensures
        final(out)@ == old(out)@ + dec_str(n as nat),
    decreases n,
{
    if n < 10 {
        let c = dec_digit_exec(n);
        push_char(out, c);
        proof {
            assert(final(out)@ =~= old(out)@ + dec_str(n as nat));
        }
    } else {
        push_digits(out, n / 10);
        let c = dec_digit_exec(n % 10);
        push_char(out, c);
        proof {
            assert(final(out)@ =~= old(out)@ + dec_str(n as nat));
        }
    }
}

fn push_pad2(out: &mut String, n: u32)
    ensures
        final(out)@ == old(out)@ + pad2(n as nat),
{
    if n < 10 {
        out.append("0");
    }
    push_digits(out, n);
    proof {
        assert(final(out)@ =~= old(out)@ + pad2(n as nat));
    }
}

fn push_pad4(out: &mut String, n: u32)
    ensures
        final(out)@ == old(out)@ + pad4(n as nat),
{
    if n < 10 {
        out.append("000");
    } else if n < 100 {
        out.append("00");
    } else if n < 1000 {
        out.append("0");
    }
    push_digits(out, n);
    proof {
        assert(final(out)@ =~= old(out)@ + pad4(n as nat));
    }
}

/// Formats a calendar date as `YYYY-MM-DD`.
pub fn format_date(y: i32, m: u32, d: u32) -> (r: String)
    requires
        y > i32::MIN,
    ensures
        r@ == date_spec(y as int, m as int, d as int),
{
    let mut out = String::new();
    if y < 0 {
        push_char(&mut out, '-');
        let ay: u32 = (-y) as u32;
        push_pad4(&mut out, ay);
    } else {
        push_pad4(&mut out, y as u32);
    }
    out.append("-");
    push_pad2(&mut out, m);
    out.append("-");
    push_pad2(&mut out, d);
    proof {
        assert(out@ =~= date_spec(y as int, m as int, d as int));
    }
    out
}

/// Relies on `chrono::Local::now` and the `Datelike` accessors: the current
/// local calendar date. chrono documents the month in `1..=12`, the day in
/// `1..=31`, and bounds `NaiveDate` years to about plus or minus 262,000.
#[verifier::external_body]
pub(crate) fn current_date() -> (r: (i32, u32, u32))
    ensures
        -262143 <= r.0 <= 262142,
        1 <= r.1 <= 12,
        1 <= r.2 <= 31,
{
    let date = chrono::Local::now().date_naive();
    (
        chrono::Datelike::year(&date),
        chrono::Datelike::month(&date),
        chrono::Datelike::day(&date),
    )
}

/// The five artifact files of one freshly bootstrapped workspace.
pub struct LangArtifacts {
    pub instructions: String,
    pub vocabulary: String,
    pub grammar: String,
    pub overrides: String,
    pub config: String,
}

impl LangArtifacts {
    /// All five contents are exactly the derived artifact texts for this
    /// language and creation date.
    pub open spec fn wf(&self, lang: Seq<char>, date: Seq<char>) -> bool {
        &&& self.instructions@ == instructions_spec(lang)
        &&& self.vocabulary@ == vocabulary_json_spec(lang)
        &&& self.grammar@ == grammar_json_spec(lang)
        &&& self.overrides@ == overrides_json_spec(lang)
        &&& self.config@ == config_json_spec(lang, date)
    }
}

/// Derives the five artifact files for a language and a creation date.
pub fn generate_language_files(language: &str, y: i32, m: u32, d: u32) -> (r: LangArtifacts)
    requires
        y > i32::MIN,
    ensures
        r.wf(language@, date_spec(y as int, m as int, d as int)),
{
    proof {
        reveal_strlit("{{LANGUAGE_NAME}}");
        reveal_strlit("{{LANGUAGE_NATIVE}}");
        reveal_strlit("{{ROMANIZATION}}");
        reveal_strlit("{{LANGUAGE_SPECIFIC_NOTES}}");
    }
    let info = get_language_info(language);
    let instructions = replace(
        replace(
            replace(
                replace(TUTOR_TEMPLATE, "{{LANGUAGE_NAME}}", language).as_str(),
                "{{LANGUAGE_NATIVE}}",
                info.native_script,
            ).as_str(),
            "{{ROMANIZATION}}",
            info.romanization,
        ).as_str(),
        "{{LANGUAGE_SPECIFIC_NOTES}}",
        info.notes,
    );
    let vocabulary = replace(VOCABULARY_TEMPLATE, "{{LANGUAGE_NAME}}", language);
    let grammar = replace(GRAMMAR_TEMPLATE, "{{LANGUAGE_NAME}}", language);
    let overrides = replace(USER_OVERRIDES_TEMPLATE, "{{LANGUAGE_NAME}}", language);
    let date = format_date(y, m, d);
    let config = String::from_str("{\n  \"language\": \"").concat(language).concat(
        "\",\n  \"native_script\": \"",
    ).concat(info.native_script).concat("\",\n  \"romanization\": \"").concat(
        info.romanization,
    ).concat("\",\n  \"started\": \"").concat(date.as_str()).concat("\"\n}");
    proof {
        assert(config@ =~= config_json_spec(language@, date_spec(y as int, m as int, d as int)));
    }
    LangArtifacts { instructions, vocabulary, grammar, overrides, config }
}

} // verus!
