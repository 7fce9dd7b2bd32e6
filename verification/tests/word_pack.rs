use karma::domain::OcrRisk;
use karma::ocr_text::{OcrTextBatch, OcrTextError};
use karma::word_pack::{merge_summary, OcrMatchSummary, WordPack, WordPackError, WordRule};

#[test]
fn literal_matching_normalizes_width_and_case() {
    let pack = WordPack::compile(vec![WordRule::literal(
        "adult_service",
        "ＡＤＵＬＴ",
        OcrRisk::Keyword,
    )])
    .unwrap();
    let result = pack.classify(&["adult"]);
    assert_eq!(result.risk, OcrRisk::Keyword);
    assert_eq!(result.categories, vec!["adult_service"]);
}

#[test]
fn regex_can_mark_high_risk_phrase() {
    let pack = WordPack::compile(vec![WordRule::regex(
        "explicit_term",
        r"explicit\s+phrase",
        OcrRisk::HighRiskPhrase,
    )])
    .unwrap();
    assert_eq!(pack.classify(&["Explicit phrase"]).risk, OcrRisk::HighRiskPhrase);
}

#[test]
fn exemption_is_reported_without_raw_text() {
    let pack = WordPack::compile(vec![WordRule::exemption("medical", "anatomy")]).unwrap();
    let value = pack.classify(&["Anatomy lesson"]);
    assert!(value.exemption_context);
    assert_eq!(value.categories, vec!["medical"]);
    assert!(!format!("{value:?}").contains("anatomy lesson"));
}

#[test]
fn invalid_regex_is_rejected() {
    assert!(matches!(
        WordPack::compile(vec![WordRule::regex("bad", "(", OcrRisk::Keyword)]),
        Err(WordPackError::InvalidRegex { .. })
    ));
}

#[test]
fn categories_are_sorted_without_repeats_and_the_highest_risk_wins() {
    let pack = WordPack::compile(vec![
        WordRule::literal("zeta", "alpha", OcrRisk::Keyword),
        WordRule::literal("beta", "alpha", OcrRisk::HighRiskPhrase),
        WordRule::literal("zeta", "gamma", OcrRisk::Keyword),
    ])
    .unwrap();
    let summary = pack.classify(&["alpha gamma", "ALPHA"]);
    assert_eq!(summary.categories, vec!["beta", "zeta"]);
    assert_eq!(summary.risk, OcrRisk::HighRiskPhrase);
    assert!(!summary.exemption_context);
}

#[test]
fn unmatched_text_reports_nothing() {
    let pack = WordPack::compile(vec![WordRule::literal("x", "needle", OcrRisk::Keyword)]).unwrap();
    let summary = pack.classify(&["haystack"]);
    assert_eq!(summary.risk, OcrRisk::NoRisk);
    assert!(summary.categories.is_empty());
    assert!(!summary.exemption_context);
}

#[test]
fn first_invalid_regex_names_its_category() {
    let result = WordPack::compile(vec![
        WordRule::literal("ok", "fine", OcrRisk::Keyword),
        WordRule::regex("first_bad", "[", OcrRisk::Keyword),
        WordRule::regex("second_bad", "(", OcrRisk::Keyword),
    ]);
    assert!(matches!(result, Err(WordPackError::InvalidRegex { category }) if category == "first_bad"));
}

#[test]
fn ocr_text_enforces_the_character_limit() {
    assert!(matches!(
        OcrTextBatch::from_lines(vec!["four".into(), "five!".into()], 8),
        Err(OcrTextError::CharacterLimitExceeded)
    ));
}

#[test]
fn ocr_text_counts_lines_and_characters() {
    let batch = OcrTextBatch::from_lines(vec!["sensitive fixture phrase".into()], 64).unwrap();
    assert_eq!(batch.line_count(), 1);
    assert_eq!(batch.character_count(), 24);
    let wide = OcrTextBatch::from_lines(vec!["中文".into(), "ab".into()], 4).unwrap();
    assert_eq!(wide.character_count(), 4);
}

#[test]
fn word_pack_classifies_a_private_text_batch_without_public_line_refs() {
    let pack = WordPack::compile(vec![WordRule::literal(
        "fixture_category",
        "fixture match",
        OcrRisk::Keyword,
    )])
    .unwrap();
    let batch = OcrTextBatch::from_lines(vec!["contains fixture match".into()], 64).unwrap();
    let summary = pack.classify_batch(&batch);
    assert_eq!(summary.risk, OcrRisk::Keyword);
    assert_eq!(summary.categories, vec!["fixture_category"]);
}

#[test]
fn merged_summaries_keep_the_higher_risk_and_every_category_once() {
    let mut summary = OcrMatchSummary {
        risk: OcrRisk::Keyword,
        categories: vec!["gambling".into(), "adult".into()],
        exemption_context: false,
    };
    merge_summary(
        &mut summary,
        OcrMatchSummary {
            risk: OcrRisk::HighRiskPhrase,
            categories: vec!["drugs".into(), "adult".into()],
            exemption_context: true,
        },
    );
    assert_eq!(summary.risk, OcrRisk::HighRiskPhrase);
    assert_eq!(summary.categories, vec!["adult", "drugs", "gambling"]);
    assert!(summary.exemption_context);

    merge_summary(
        &mut summary,
        OcrMatchSummary {
            risk: OcrRisk::NoRisk,
            categories: vec![],
            exemption_context: false,
        },
    );
    assert_eq!(summary.risk, OcrRisk::HighRiskPhrase);
    assert_eq!(summary.categories.len(), 3);
    assert!(summary.exemption_context);
}
