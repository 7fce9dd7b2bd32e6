use vstd::prelude::*;

use crate::domain::OcrRisk;
use crate::text::{byte_len, char_count, str_eq, utf8};
use crate::word_pack::{compiled, regex_accepts, RuleModel, WordPack, WordPackError, WordRule, WordRuleKind};

verus! {

/// The word-pack format this library reads.
pub const WORD_PACK_FORMAT_VERSION: u16 = 1;

/// The largest word-pack document that is parsed, in bytes.
pub const MAXIMUM_WORD_PACK_BYTES: usize = 65_536;

/// The most rules a word pack may hold.
pub const MAXIMUM_WORD_PACK_RULES: usize = 128;

/// The most characters a category or pattern may hold.
pub const MAXIMUM_WORD_PACK_FIELD_CHARACTERS: usize = 256;

/// Why a word-pack document was refused.
#[derive(Debug, Clone, Copy, PartialEq, Eq, Structural)]
pub enum WordPackSourceError {
    InvalidJson,
    InvalidRules,
}

/// How a rule of a document matches.
#[derive(Debug, Clone, Copy, PartialEq, Eq, Structural)]
pub enum WordPackRuleKind {
    Literal,
    Regex,
    Exemption,
}

/// A rule as a word-pack document writes it.
pub struct WordPackRule {
    pub category: String,
    pub pattern: String,
    pub kind: WordPackRuleKind,
    pub risk: OcrRisk,
}

/// A parsed word-pack document.
pub struct WordPackDocument {
    pub format_version: u16,
    pub rules: Vec<WordPackRule>,
}

/// Whether a document of `json` may be parsed at all: it is at most 64 KiB.
pub fn word_pack_source_size_ok(json: &str) -> (ok: bool)
    ensures
        ok == (utf8(json@).len() <= MAXIMUM_WORD_PACK_BYTES),
{
    byte_len(json) <= MAXIMUM_WORD_PACK_BYTES
}

proof fn lemma_category_names_differ()
    ensures
        "explicit_term"@ != "adult_service"@,
        "explicit_term"@ != "medical_education"@,
        "adult_service"@ != "medical_education"@,
{
    reveal_strlit("explicit_term");
    reveal_strlit("adult_service");
    reveal_strlit("medical_education");
    assert("explicit_term"@[0] != "adult_service"@[0]);
    assert("explicit_term"@.len() != "medical_education"@.len());
    assert("adult_service"@.len() != "medical_education"@.len());
}

/// Each category carries fixed semantics: explicit terms are high-risk literal or regex
/// rules, adult services are keyword literal or regex rules, and medical education is an
/// exemption without risk.
pub open spec fn semantics_ok(category: Seq<char>, kind: WordPackRuleKind, risk: OcrRisk) -> bool {
    ||| category == "explicit_term"@ && (kind == WordPackRuleKind::Literal || kind
        == WordPackRuleKind::Regex) && risk == OcrRisk::HighRiskPhrase
    ||| category == "adult_service"@ && (kind == WordPackRuleKind::Literal || kind
        == WordPackRuleKind::Regex) && risk == OcrRisk::Keyword
    ||| category == "medical_education"@ && kind == WordPackRuleKind::Exemption && risk
        == OcrRisk::NoRisk
}

/// A rule is acceptable: a known category with its fixed semantics, and a pattern that is
/// not empty; neither field over 256 characters.
pub open spec fn rule_ok(rule: WordPackRule) -> bool {
    &&& rule.category@.len() <= MAXIMUM_WORD_PACK_FIELD_CHARACTERS
    &&& 0 < rule.pattern@.len() <= MAXIMUM_WORD_PACK_FIELD_CHARACTERS
    &&& semantics_ok(rule.category@, rule.kind, rule.risk)
}

/// Some rule has `category`.
pub open spec fn has_category(rules: Seq<WordPackRule>, category: Seq<char>) -> bool {
    exists|i: int| 0 <= i < rules.len() && #[trigger] rules[i].category@ == category
}

/// A document is acceptable: the current format, 1 to 128 acceptable rules, and every
/// category present.
pub open spec fn document_ok(document: WordPackDocument) -> bool {
    &&& document.format_version == WORD_PACK_FORMAT_VERSION
    &&& 0 < document.rules@.len() <= MAXIMUM_WORD_PACK_RULES
    &&& forall|i: int| 0 <= i < document.rules@.len() ==> rule_ok(#[trigger] document.rules@[i])
    &&& has_category(document.rules@, "explicit_term"@)
    &&& has_category(document.rules@, "adult_service"@)
    &&& has_category(document.rules@, "medical_education"@)
}

/// The configured rule a document rule stands for.
pub open spec fn word_rule_of(rule: WordPackRule) -> WordRule {
    WordRule {
        category: rule.category,
        pattern: rule.pattern,
        kind: match rule.kind {
            WordPackRuleKind::Literal => WordRuleKind::Literal,
            WordPackRuleKind::Regex => WordRuleKind::Regex,
            WordPackRuleKind::Exemption => WordRuleKind::Exemption,
        },
        risk: rule.risk,
    }
}

/// Every regex pattern of the document builds.
pub open spec fn regexes_build(rules: Seq<WordPackRule>) -> bool {
    forall|i: int|
        0 <= i < rules.len() ==> (#[trigger] rules[i]).kind == WordPackRuleKind::Regex ==> regex_accepts(
            rules[i].pattern@,
        )
}

fn rule_acceptable(rule: &WordPackRule) -> (ok: bool)
    ensures
        ok == rule_ok(*rule),
{
    proof {
        lemma_category_names_differ();
    }
    if char_count(rule.category.as_str()) > MAXIMUM_WORD_PACK_FIELD_CHARACTERS {
        return false;
    }
    let pattern_characters = char_count(rule.pattern.as_str());
    if pattern_characters == 0 || pattern_characters > MAXIMUM_WORD_PACK_FIELD_CHARACTERS {
        return false;
    }
    let category = rule.category.as_str();
    let literal_or_regex = match rule.kind {
        WordPackRuleKind::Literal | WordPackRuleKind::Regex => true,
        WordPackRuleKind::Exemption => false,
    };
    if str_eq(category, "explicit_term") {
        literal_or_regex && rule.risk == OcrRisk::HighRiskPhrase
    } else if str_eq(category, "adult_service") {
        literal_or_regex && rule.risk == OcrRisk::Keyword
    } else if str_eq(category, "medical_education") {
        rule.kind == WordPackRuleKind::Exemption && rule.risk == OcrRisk::NoRisk
    } else {
        false
    }
}

fn word_rule(rule: &WordPackRule) -> (r: WordRule)
    ensures
        r.category@ == rule.category@,
        r.pattern@ == rule.pattern@,
        r.kind == word_rule_of(*rule).kind,
        compiled(r) == compiled(word_rule_of(*rule)),
{
    match rule.kind {
        WordPackRuleKind::Regex => WordRule::regex(rule.category.as_str(), rule.pattern.as_str(), rule.risk),
        WordPackRuleKind::Literal => WordRule::literal(rule.category.as_str(), rule.pattern.as_str(), rule.risk),
        WordPackRuleKind::Exemption => WordRule::exemption(rule.category.as_str(), rule.pattern.as_str()),
    }
}

/// Checks a parsed document and compiles its rules into a word pack. Every refusal is
/// `InvalidRules`: a wrong format version, no rules or too many, a rule that is not
/// acceptable, a missing category, or a regex that does not build.
pub fn compile_word_pack_document(document: &WordPackDocument) -> (r: Result<WordPack, WordPackSourceError>)
    ensures
        match r {
            Ok(pack) => {
                &&& document_ok(*document)
                &&& regexes_build(document.rules@)
                &&& pack.rules() == document.rules@.map_values(|rule: WordPackRule| compiled(word_rule_of(rule)))
            },
            Err(e) => e == WordPackSourceError::InvalidRules && !(document_ok(*document) && regexes_build(
                document.rules@,
            )),
        },
{
    let rules = &document.rules;
    if document.format_version != WORD_PACK_FORMAT_VERSION || rules.len() == 0 || rules.len()
        > MAXIMUM_WORD_PACK_RULES {
        return Err(WordPackSourceError::InvalidRules);
    }
    // Every acceptable rule names one of the three categories, so the categories are
    // complete exactly when each of the three was seen: one flag each records that.
    let mut explicit = false;
    let mut adult = false;
    let mut medical = false;
    let mut word_rules: Vec<WordRule> = Vec::new();
    let mut i: usize = 0;
    while i < rules.len()
        invariant
            rules@ == document.rules@,
            i <= rules@.len(),
            word_rules@.len() == i,
            forall|k: int| 0 <= k < i ==> rule_ok(#[trigger] rules@[k]),
            forall|k: int|
                0 <= k < i ==> compiled(#[trigger] word_rules@[k]) == compiled(word_rule_of(rules@[k])),
            forall|k: int|
                0 <= k < i ==> (#[trigger] word_rules@[k]).kind == word_rule_of(rules@[k]).kind
                    && word_rules@[k].pattern@ == rules@[k].pattern@,
            explicit == exists|k: int| 0 <= k < i && #[trigger] rules@[k].category@ == "explicit_term"@,
            adult == exists|k: int| 0 <= k < i && #[trigger] rules@[k].category@ == "adult_service"@,
            medical == exists|k: int| 0 <= k < i && #[trigger] rules@[k].category@ == "medical_education"@,
        decreases rules@.len() - i,
    {
        let rule = &rules[i];
        if !rule_acceptable(rule) {
            assert(!rule_ok(rules@[i as int]));
            return Err(WordPackSourceError::InvalidRules);
        }
        if str_eq(rule.category.as_str(), "explicit_term") {
            explicit = true;
        }
        if str_eq(rule.category.as_str(), "adult_service") {
            adult = true;
        }
        if str_eq(rule.category.as_str(), "medical_education") {
            medical = true;
        }
        let next = word_rule(rule);
        assert(compiled(next) == compiled(word_rule_of(*rule)));
        word_rules.push(next);
        i = i + 1;
    }
    if !(explicit && adult && medical) {
        assert(!has_category(rules@, "explicit_term"@) || !has_category(rules@, "adult_service"@)
            || !has_category(rules@, "medical_education"@));
        return Err(WordPackSourceError::InvalidRules);
    }
    let ghost configured = word_rules@;
    match WordPack::compile(word_rules) {
        Ok(pack) => {
            proof {
                assert forall|k: int| 0 <= k < rules@.len() && (#[trigger] rules@[k]).kind
                    == WordPackRuleKind::Regex implies regex_accepts(rules@[k].pattern@) by {
                    assert(configured[k].kind == WordRuleKind::Regex);
                }
                assert(pack.rules() =~= document.rules@.map_values(
                    |rule: WordPackRule| compiled(word_rule_of(rule)),
                ));
            }
            Ok(pack)
        },
        Err(WordPackError::InvalidRegex { .. }) => {
            proof {
                let index = choose|index: int| crate::word_pack::first_bad_regex(configured, index);
                assert(rules@[index].kind == WordPackRuleKind::Regex);
            }
            Err(WordPackSourceError::InvalidRules)
        },
    }
}

/// In a compiled word pack, explicit terms always carry high risk and never exempt, and
/// medical education is always an exemption without risk: the categories' meaning cannot be
/// turned around by the document.
pub proof fn lemma_category_semantics_are_fixed(document: WordPackDocument, rules: Seq<RuleModel>, j: int)
    requires
        document_ok(document),
        rules == document.rules@.map_values(|rule: WordPackRule| compiled(word_rule_of(rule))),
        0 <= j < rules.len(),
    ensures
        rules[j].category == "explicit_term"@ ==> rules[j].kind != WordRuleKind::Exemption && rules[j].risk
            == OcrRisk::HighRiskPhrase,
        rules[j].category == "adult_service"@ ==> rules[j].kind != WordRuleKind::Exemption && rules[j].risk
            == OcrRisk::Keyword,
        rules[j].category == "medical_education"@ ==> rules[j].kind == WordRuleKind::Exemption
            && rules[j].risk == OcrRisk::NoRisk,
{
    lemma_category_names_differ();
    assert(rule_ok(document.rules@[j]));
    assert(rules[j] == compiled(word_rule_of(document.rules@[j])));
}

} // verus!
