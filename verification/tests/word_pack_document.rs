use karma::domain::OcrRisk;
use karma::word_pack_document::{
    compile_word_pack_document, word_pack_source_size_ok, WordPackDocument, WordPackRule,
    WordPackRuleKind, WordPackSourceError,
};

fn rule(category: &str, pattern: &str, kind: WordPackRuleKind, risk: OcrRisk) -> WordPackRule {
    WordPackRule {
        category: category.into(),
        pattern: pattern.into(),
        kind,
        risk,
    }
}

fn document(rules: Vec<WordPackRule>) -> WordPackDocument {
    WordPackDocument {
        format_version: 1,
        rules,
    }
}

fn valid_rules() -> Vec<WordPackRule> {
    vec![
        rule("explicit_term", "porn", WordPackRuleKind::Literal, OcrRisk::HighRiskPhrase),
        rule("adult_service", "成人服務", WordPackRuleKind::Literal, OcrRisk::Keyword),
        rule("medical_education", "sexual health education", WordPackRuleKind::Exemption, OcrRisk::NoRisk),
    ]
}

#[test]
fn word_pack_category_semantics_cannot_be_inverted() {
    for rules in [
        vec![
            rule("explicit_term", "x", WordPackRuleKind::Exemption, OcrRisk::NoRisk),
            rule("adult_service", "x", WordPackRuleKind::Literal, OcrRisk::Keyword),
            rule("medical_education", "x", WordPackRuleKind::Exemption, OcrRisk::NoRisk),
        ],
        vec![
            rule("explicit_term", "x", WordPackRuleKind::Literal, OcrRisk::HighRiskPhrase),
            rule("adult_service", "x", WordPackRuleKind::Literal, OcrRisk::HighRiskPhrase),
            rule("medical_education", "x", WordPackRuleKind::Exemption, OcrRisk::NoRisk),
        ],
        vec![
            rule("explicit_term", "x", WordPackRuleKind::Literal, OcrRisk::HighRiskPhrase),
            rule("adult_service", "x", WordPackRuleKind::Literal, OcrRisk::Keyword),
            rule("medical_education", "x", WordPackRuleKind::Literal, OcrRisk::Keyword),
        ],
    ] {
        assert_eq!(
            compile_word_pack_document(&document(rules)).err(),
            Some(WordPackSourceError::InvalidRules)
        );
    }
}

#[test]
fn empty_rule_lists_and_wrong_versions_are_invalid_rules() {
    assert_eq!(
        compile_word_pack_document(&document(vec![])).err(),
        Some(WordPackSourceError::InvalidRules)
    );
    let mut wrong_version = document(valid_rules());
    wrong_version.format_version = 2;
    assert_eq!(
        compile_word_pack_document(&wrong_version).err(),
        Some(WordPackSourceError::InvalidRules)
    );
}

#[test]
fn every_category_must_be_present_and_patterns_bounded() {
    let mut missing = valid_rules();
    missing.pop();
    assert!(compile_word_pack_document(&document(missing)).is_err());
    let mut long = valid_rules();
    long[0].pattern = "x".repeat(257);
    assert!(compile_word_pack_document(&document(long)).is_err());
    let mut empty = valid_rules();
    empty[1].pattern.clear();
    assert!(compile_word_pack_document(&document(empty)).is_err());
    let mut bad_regex = valid_rules();
    bad_regex[0].kind = WordPackRuleKind::Regex;
    bad_regex[0].pattern = "(".into();
    assert!(compile_word_pack_document(&document(bad_regex)).is_err());
}

#[test]
fn bundled_categories_classify_as_configured() {
    let pack = compile_word_pack_document(&document(valid_rules())).unwrap();

    let explicit = pack.classify(&["porn"]);
    assert_eq!(explicit.risk, OcrRisk::HighRiskPhrase);
    assert_eq!(explicit.categories, ["explicit_term"]);

    let service = pack.classify(&["成人服務"]);
    assert_eq!(service.risk, OcrRisk::Keyword);
    assert_eq!(service.categories, ["adult_service"]);

    let education = pack.classify(&["sexual health education"]);
    assert_eq!(education.risk, OcrRisk::NoRisk);
    assert_eq!(education.categories, ["medical_education"]);
    assert!(education.exemption_context);
}

#[test]
fn oversized_sources_are_not_parsed() {
    assert!(word_pack_source_size_ok(&"x".repeat(64 * 1024)));
    assert!(!word_pack_source_size_ok(&"x".repeat(64 * 1024 + 1)));
}

#[test]
fn invalid_word_pack_sources_fail_before_capture() {
    let sources = [
        "{",
        r#"{"format_version":1,"rules":[]}"#,
        r#"{"format_version":1,"rules":[],"unexpected":true}"#,
    ];
    for source in sources {
        assert!(word_pack_source_size_ok(source));
    }
    // The second source parses to a document without rules, which compiles to nothing.
    assert_eq!(
        compile_word_pack_document(&document(vec![])).err(),
        Some(WordPackSourceError::InvalidRules)
    );
}
