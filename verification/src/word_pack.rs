use vstd::prelude::*;

use unicode_normalization::UnicodeNormalization;

use crate::domain::OcrRisk;
use crate::text::{
    char_count, contains_spec, contains_str, lemma_seq_lt_irreflexive, lemma_seq_lt_total,
    lemma_seq_lt_transitive, seq_lt, str_eq, str_lt,
};

verus! {

// ---------------------------------------------------------------------------
// Outside text functions.
// ---------------------------------------------------------------------------

/// The Unicode NFKC normal form of `s`, as the `unicode-normalization` crate computes it.
pub uninterp spec fn nfkc_form(s: Seq<char>) -> Seq<char>;

/// The characters of `char::to_lowercase(c)`.
pub uninterp spec fn lowercase_form(c: char) -> Seq<char>;

/// Whether `RegexBuilder::new(pattern).case_insensitive(true).unicode(true).build()` succeeds.
pub uninterp spec fn regex_accepts(pattern: Seq<char>) -> bool;

/// Whether the regex built from `pattern` (case-insensitive, Unicode) matches somewhere in
/// `text`.
pub uninterp spec fn regex_matches(pattern: Seq<char>, text: Seq<char>) -> bool;

/// Calls `UnicodeNormalization::nfkc` on `value` and collects the characters. The result
/// is a function of `value` alone.
#[verifier::external_body]
fn nfkc(value: &str) -> (normalized: String)
    ensures
        normalized@ == nfkc_form(value@),
{
    value.nfkc().collect::<String>()
}

/// Calls `char::to_lowercase` and collects the characters. The result is a function of `c`
/// alone.
#[verifier::external_body]
fn lowercase(c: char) -> (lower: String)
    ensures
        lower@ == lowercase_form(c),
{
    c.to_lowercase().collect::<String>()
}

/// Builds a case-insensitive Unicode regex from `pattern` with `regex::RegexBuilder` and
/// reports whether `build` succeeded.
#[verifier::external_body]
fn regex_compiles(pattern: &str) -> (ok: bool)
    ensures
        ok == regex_accepts(pattern@),
{
    regex::RegexBuilder::new(pattern).case_insensitive(true).unicode(true).build().is_ok()
}

/// Builds a case-insensitive Unicode regex from `pattern` and calls `Regex::is_match` on
/// `text`; gives `None` where `build` fails.
#[verifier::external_body]
fn regex_search(pattern: &str, text: &str) -> (found: Option<bool>)
    ensures
        found == (if regex_accepts(pattern@) {
            Some(regex_matches(pattern@, text@))
        } else {
            None
        }),
{
    match regex::RegexBuilder::new(pattern).case_insensitive(true).unicode(true).build() {
        Ok(re) => Some(re.is_match(text)),
        Err(_) => None,
    }
}

// ---------------------------------------------------------------------------
// Normalisation.
// ---------------------------------------------------------------------------

/// The lower-case forms of `chars`, one after another.
pub open spec fn lowercase_all(chars: Seq<char>) -> Seq<char>
    decreases chars.len(),
{
    if chars.len() == 0 {
        Seq::empty()
    } else {
        lowercase_all(chars.drop_last()) + lowercase_form(chars.last())
    }
}

/// The form in which text and literal patterns are compared: NFKC, then lower case.
pub open spec fn normalized(s: Seq<char>) -> Seq<char> {
    lowercase_all(nfkc_form(s))
}

fn normalize(value: &str) -> (out: String)
    ensures
        out@ == normalized(value@),
{
    let composed = nfkc(value);
    let mut out = String::new();
    for c in it: composed.as_str().chars()
        invariant
            it.seq() == composed@,
            composed@ == nfkc_form(value@),
            out@ == lowercase_all(composed@.take(it.index())),
    {
        let lower = lowercase(c);
        assert(composed@.take(it.index() + 1).drop_last() =~= composed@.take(it.index()));
        out.append(lower.as_str());
    }
    assert(composed@.take(composed@.len() as int) =~= composed@);
    out
}

// ---------------------------------------------------------------------------
// Sorted category lists.
// ---------------------------------------------------------------------------

/// The strings are strictly increasing, so each occurs once.
pub open spec fn strictly_sorted(v: Seq<String>) -> bool {
    forall|i: int, j: int| 0 <= i < j < v.len() ==> seq_lt(#[trigger] v[i]@, #[trigger] v[j]@)
}

/// `c` is one of the strings.
pub open spec fn holds(v: Seq<String>, c: Seq<char>) -> bool {
    exists|i: int| 0 <= i < v.len() && #[trigger] v[i]@ == c
}

fn insert_sorted(v: &mut Vec<String>, c: String)
    requires
        strictly_sorted(old(v)@),
    ensures
        strictly_sorted(final(v)@),
        forall|x: Seq<char>| #[trigger] holds(final(v)@, x) <==> (holds(old(v)@, x) || x == c@),
{
    let mut i: usize = 0;
    while i < v.len() && str_lt(v[i].as_str(), c.as_str())
        invariant
            v@ == old(v)@,
            strictly_sorted(v@),
            i <= v@.len(),
            forall|k: int| 0 <= k < i ==> seq_lt(#[trigger] v@[k]@, c@),
        decreases v@.len() - i,
    {
        i = i + 1;
    }
    if i < v.len() && str_eq(v[i].as_str(), c.as_str()) {
        assert(holds(v@, c@)) by {
            assert(v@[i as int]@ == c@);
        }
        return;
    }
    proof {
        if i < v@.len() {
            lemma_seq_lt_total(v@[i as int]@, c@);
        }
    }
    let ghost before = v@;
    v.insert(i, c);
    proof {
        assert forall|a: int, b: int| 0 <= a < b < v@.len() implies seq_lt(#[trigger] v@[a]@, #[trigger] v@[b]@) by {
            if b == i {
                assert(v@[a] == before[a]);
            } else if a == i {
                assert(v@[b] == before[b - 1]);
                if b - 1 > i {
                    lemma_seq_lt_transitive(c@, before[i as int]@, before[b - 1]@);
                }
            } else {
                let a0 = if a < i { a } else { a - 1 };
                let b0 = if b < i { b } else { b - 1 };
                assert(v@[a] == before[a0]);
                assert(v@[b] == before[b0]);
            }
        }
        assert forall|x: Seq<char>| #[trigger] holds(v@, x) <==> (holds(before, x) || x == c@) by {
            if holds(v@, x) {
                let k = choose|k: int| 0 <= k < v@.len() && #[trigger] v@[k]@ == x;
                if k < i {
                    assert(before[k]@ == x);
                } else if k > i {
                    assert(before[k - 1]@ == x);
                }
            }
            if holds(before, x) {
                let k = choose|k: int| 0 <= k < before.len() && #[trigger] before[k]@ == x;
                if k < i {
                    assert(v@[k]@ == x);
                } else {
                    assert(v@[k + 1]@ == x);
                }
            }
            if x == c@ {
                assert(v@[i as int]@ == x);
            }
        }
    }
}

fn insert_all(v: &mut Vec<String>, items: &Vec<String>)
    requires
        strictly_sorted(old(v)@),
    ensures
        strictly_sorted(final(v)@),
        forall|x: Seq<char>| #[trigger] holds(final(v)@, x) <==> (holds(old(v)@, x) || holds(items@, x)),
{
    let ghost start = v@;
    let mut i: usize = 0;
    while i < items.len()
        invariant
            i <= items@.len(),
            strictly_sorted(v@),
            forall|x: Seq<char>|
                #[trigger] holds(v@, x) <==> (holds(start, x) || holds(items@.take(i as int), x)),
        decreases items@.len() - i,
    {
        let ghost before = v@;
        insert_sorted(v, items[i].clone());
        proof {
            assert forall|x: Seq<char>| #[trigger] holds(v@, x) <==> (holds(start, x) || holds(
                items@.take(i + 1),
                x,
            )) by {
                if holds(items@.take(i as int), x) {
                    let k = choose|k: int| 0 <= k < i && #[trigger] items@.take(i as int)[k]@ == x;
                    assert(items@.take(i + 1)[k]@ == x);
                }
                if holds(items@.take(i + 1), x) {
                    let k = choose|k: int| 0 <= k < i + 1 && #[trigger] items@.take(i + 1)[k]@ == x;
                    if k < i {
                        assert(items@.take(i as int)[k]@ == x);
                    } else {
                        assert(x == items@[i as int]@);
                    }
                }
                if x == items@[i as int]@ {
                    assert(items@.take(i + 1)[i as int]@ == x);
                }
            }
        }
        i = i + 1;
    }
    assert(items@.take(items@.len() as int) =~= items@);
}

/// Combines the summaries of two batches of lines: the higher risk, the categories of either
/// sorted without repeats, and an exemption where either saw one.
pub fn merge_summary(summary: &mut OcrMatchSummary, next: OcrMatchSummary)
    ensures
        final(summary).risk == (if risk_rank(next.risk) > risk_rank(old(summary).risk) {
            next.risk
        } else {
            old(summary).risk
        }),
        strictly_sorted(final(summary).categories@),
        forall|x: Seq<char>|
            #[trigger] holds(final(summary).categories@, x) <==> (holds(old(summary).categories@, x)
                || holds(next.categories@, x)),
        final(summary).exemption_context == (old(summary).exemption_context
            || next.exemption_context),
{
    if risk_rank_of(next.risk) > risk_rank_of(summary.risk) {
        summary.risk = next.risk;
    }
    let mut merged: Vec<String> = Vec::new();
    proof {
        assert forall|x: Seq<char>| #[trigger] holds(merged@, x) <==> false by {}
    }
    insert_all(&mut merged, &summary.categories);
    insert_all(&mut merged, &next.categories);
    summary.categories = merged;
    summary.exemption_context = summary.exemption_context || next.exemption_context;
}

// ---------------------------------------------------------------------------
// Rules.
// ---------------------------------------------------------------------------

/// How a rule matches.
#[derive(Debug, Clone, Copy, PartialEq, Eq, Structural)]
pub enum WordRuleKind {
    Literal,
    Regex,
    Exemption,
}

/// A rule as configured: a category, a pattern, how it matches and the risk it signals.
pub struct WordRule {
    pub category: String,
    pub pattern: String,
    pub kind: WordRuleKind,
    pub risk: OcrRisk,
}

impl WordRule {
    /// A rule that matches where the normalised pattern occurs in the normalised text.
    pub fn literal(category: &str, pattern: &str, risk: OcrRisk) -> (rule: Self)
        ensures
            rule.category@ == category@,
            rule.pattern@ == pattern@,
            rule.kind == WordRuleKind::Literal,
            rule.risk == risk,
    {
        WordRule { category: category.to_owned(), pattern: pattern.to_owned(), kind: WordRuleKind::Literal, risk }
    }

    /// A rule that matches where a case-insensitive regex finds the normalised text.
    pub fn regex(category: &str, pattern: &str, risk: OcrRisk) -> (rule: Self)
        ensures
            rule.category@ == category@,
            rule.pattern@ == pattern@,
            rule.kind == WordRuleKind::Regex,
            rule.risk == risk,
    {
        WordRule { category: category.to_owned(), pattern: pattern.to_owned(), kind: WordRuleKind::Regex, risk }
    }

    /// A rule that marks an exemption context and carries no risk.
    pub fn exemption(category: &str, pattern: &str) -> (rule: Self)
        ensures
            rule.category@ == category@,
            rule.pattern@ == pattern@,
            rule.kind == WordRuleKind::Exemption,
            rule.risk == OcrRisk::NoRisk,
    {
        WordRule {
            category: category.to_owned(),
            pattern: pattern.to_owned(),
            kind: WordRuleKind::Exemption,
            risk: OcrRisk::NoRisk,
        }
    }
}

/// A summary of which rules matched a batch of text; it holds no text.
#[derive(Debug, Clone, PartialEq, Eq)]
pub struct OcrMatchSummary {
    pub risk: OcrRisk,
    pub categories: Vec<String>,
    pub exemption_context: bool,
}

/// Why a word pack was refused.
#[derive(Debug, Clone, PartialEq, Eq)]
pub enum WordPackError {
    InvalidRegex { category: String },
}

/// A compiled rule: literal and exemption patterns are kept normalised, regex patterns as
/// written.
pub struct RuleModel {
    pub category: Seq<char>,
    pub value: Seq<char>,
    pub kind: WordRuleKind,
    pub risk: OcrRisk,
}

/// What a configured rule compiles to.
pub open spec fn compiled(rule: WordRule) -> RuleModel {
    match rule.kind {
        WordRuleKind::Literal => RuleModel {
            category: rule.category@,
            value: normalized(rule.pattern@),
            kind: WordRuleKind::Literal,
            risk: rule.risk,
        },
        WordRuleKind::Exemption => RuleModel {
            category: rule.category@,
            value: normalized(rule.pattern@),
            kind: WordRuleKind::Exemption,
            risk: OcrRisk::NoRisk,
        },
        WordRuleKind::Regex => RuleModel {
            category: rule.category@,
            value: rule.pattern@,
            kind: WordRuleKind::Regex,
            risk: rule.risk,
        },
    }
}

/// Whether a compiled rule matches a normalised line.
pub open spec fn rule_matches(rule: RuleModel, line: Seq<char>) -> bool {
    match rule.kind {
        WordRuleKind::Regex => regex_matches(rule.value, line),
        _ => contains_spec(line, rule.value),
    }
}

/// The order of risks: none, keyword, high-risk phrase.
pub open spec fn risk_rank(risk: OcrRisk) -> nat {
    match risk {
        OcrRisk::NoRisk => 0,
        OcrRisk::Keyword => 1,
        OcrRisk::HighRiskPhrase => 2,
    }
}

fn risk_rank_of(risk: OcrRisk) -> (rank: u8)
    ensures
        rank == risk_rank(risk),
{
    match risk {
        OcrRisk::NoRisk => 0,
        OcrRisk::Keyword => 1,
        OcrRisk::HighRiskPhrase => 2,
    }
}

struct CompiledRule {
    category: String,
    value: String,
    kind: WordRuleKind,
    risk: OcrRisk,
}

impl CompiledRule {
    spec fn model(self) -> RuleModel {
        RuleModel { category: self.category@, value: self.value@, kind: self.kind, risk: self.risk }
    }
}

/// The first regex rule whose pattern does not compile, if any.
pub open spec fn first_bad_regex(rules: Seq<WordRule>, index: int) -> bool {
    &&& 0 <= index < rules.len()
    &&& rules[index].kind == WordRuleKind::Regex
    &&& !regex_accepts(rules[index].pattern@)
    &&& forall|k: int|
        0 <= k < index ==> !(#[trigger] rules[k].kind == WordRuleKind::Regex && !regex_accepts(
            rules[k].pattern@,
        ))
}

/// Rules compiled for matching against OCR text.
pub struct WordPack {
    rules: Vec<CompiledRule>,
}

impl WordPack {
    #[verifier::type_invariant]
    closed spec fn regexes_compile(self) -> bool {
        forall|j: int|
            0 <= j < self.rules@.len() ==> (#[trigger] self.rules@[j]).kind == WordRuleKind::Regex
                ==> regex_accepts(self.rules@[j].value@)
    }

    /// The compiled rules, in order.
    pub closed spec fn rules(&self) -> Seq<RuleModel> {
        self.rules@.map_values(|r: CompiledRule| r.model())
    }

    /// Compiles each rule in order; refuses the pack at the first regex that does not build.
    pub fn compile(rules: Vec<WordRule>) -> (r: Result<Self, WordPackError>)
        ensures
            match r {
                Ok(pack) => {
                    &&& pack.rules() == rules@.map_values(|rule: WordRule| compiled(rule))
                    &&& forall|k: int|
                        0 <= k < rules@.len() ==> !(#[trigger] rules@[k].kind == WordRuleKind::Regex
                            && !regex_accepts(rules@[k].pattern@))
                },
                Err(WordPackError::InvalidRegex { category }) => exists|index: int|
                    first_bad_regex(rules@, index) && rules@[index].category@ == category@,
            },
    {
        let mut compiled_rules: Vec<CompiledRule> = Vec::new();
        let mut i: usize = 0;
        while i < rules.len()
            invariant
                i <= rules@.len(),
                compiled_rules@.len() == i,
                forall|k: int|
                    0 <= k < i ==> (#[trigger] compiled_rules@[k]).model() == compiled(rules@[k]),
                forall|k: int|
                    0 <= k < i ==> !(#[trigger] rules@[k].kind == WordRuleKind::Regex && !regex_accepts(
                        rules@[k].pattern@,
                    )),
                forall|j: int|
                    0 <= j < compiled_rules@.len() ==> (#[trigger] compiled_rules@[j]).kind
                        == WordRuleKind::Regex ==> regex_accepts(compiled_rules@[j].value@),
            decreases rules@.len() - i,
        {
            let rule = &rules[i];
            let next = match rule.kind {
                WordRuleKind::Literal => CompiledRule {
                    category: rule.category.clone(),
                    value: normalize(rule.pattern.as_str()),
                    kind: WordRuleKind::Literal,
                    risk: rule.risk,
                },
                WordRuleKind::Exemption => CompiledRule {
                    category: rule.category.clone(),
                    value: normalize(rule.pattern.as_str()),
                    kind: WordRuleKind::Exemption,
                    risk: OcrRisk::NoRisk,
                },
                WordRuleKind::Regex => {
                    if !regex_compiles(rule.pattern.as_str()) {
                        assert(first_bad_regex(rules@, i as int));
                        return Err(WordPackError::InvalidRegex { category: rule.category.clone() });
                    }
                    CompiledRule {
                        category: rule.category.clone(),
                        value: rule.pattern.clone(),
                        kind: WordRuleKind::Regex,
                        risk: rule.risk,
                    }
                },
            };
            compiled_rules.push(next);
            i = i + 1;
        }
        let pack = WordPack { rules: compiled_rules };
        assert(pack.rules() =~= rules@.map_values(|rule: WordRule| compiled(rule)));
        Ok(pack)
    }

    /// Matches every rule against every normalised line and summarises the matches: the
    /// highest risk, the matched categories sorted and without repeats, and whether an
    /// exemption matched.
    pub fn classify(&self, lines: &[&str]) -> (summary: OcrMatchSummary)
        ensures
            summarizes(self.rules(), lines@.map_values(|l: &str| l@), summary),
    {
        proof {
            use_type_invariant(self);
        }
        let ghost rules = self.rules();
        let ghost texts = lines@.map_values(|l: &str| l@);
        let mut risk = OcrRisk::NoRisk;
        let mut categories: Vec<String> = Vec::new();
        let mut exemption_context = false;
        let mut i: usize = 0;
        while i < lines.len()
            invariant
                rules == self.rules(),
                rules.len() == self.rules@.len(),
                forall|j: int| 0 <= j < self.rules@.len() ==> #[trigger] rules[j] == self.rules@[j].model(),
                forall|j: int|
                    0 <= j < self.rules@.len() ==> (#[trigger] self.rules@[j]).kind == WordRuleKind::Regex
                        ==> regex_accepts(self.rules@[j].value@),
                texts == lines@.map_values(|l: &str| l@),
                i <= lines@.len(),
                partial_summary(rules, texts, i as int, 0, risk, categories@, exemption_context),
            decreases lines@.len() - i,
        {
            let line = normalize(lines[i]);
            let mut j: usize = 0;
            while j < self.rules.len()
                invariant
                    rules == self.rules(),
                    rules.len() == self.rules@.len(),
                    forall|k: int| 0 <= k < self.rules@.len() ==> #[trigger] rules[k] == self.rules@[k].model(),
                    forall|k: int|
                        0 <= k < self.rules@.len() ==> (#[trigger] self.rules@[k]).kind
                            == WordRuleKind::Regex ==> regex_accepts(self.rules@[k].value@),
                    texts == lines@.map_values(|l: &str| l@),
                    i < lines@.len(),
                    line@ == normalized(texts[i as int]),
                    j <= self.rules@.len(),
                    partial_summary(rules, texts, i as int, j as int, risk, categories@, exemption_context),
                decreases self.rules@.len() - j,
            {
                let rule = &self.rules[j];
                assert(rules[j as int] == rule.model());
                let matched = match rule.kind {
                    WordRuleKind::Regex => match regex_search(rule.value.as_str(), line.as_str()) {
                        Some(found) => found,
                        None => false,
                    },
                    _ => contains_str(line.as_str(), rule.value.as_str()),
                };
                assert(matched == hit(rules, texts, i as int, j as int));
                let ghost old_categories = categories@;
                let ghost old_risk = risk;
                let ghost old_exemption = exemption_context;
                if matched {
                    insert_sorted(&mut categories, rule.category.clone());
                    if rule.kind == WordRuleKind::Exemption {
                        exemption_context = true;
                    }
                    if risk_rank_of(rule.risk) > risk_rank_of(risk) {
                        risk = rule.risk;
                    }
                }
                proof {
                    lemma_summary_step(rules, texts, i as int, j as int, old_risk, old_categories, old_exemption, risk, categories@, exemption_context);
                }
                j = j + 1;
            }
            proof {
                lemma_summary_next_line(rules, texts, i as int, risk, categories@, exemption_context);
            }
            i = i + 1;
        }
        OcrMatchSummary { risk, categories, exemption_context }
    }
}

/// Exemption and literal rules match text after the same normalisation, NFKC then lower
/// case, on both sides: in a pack compiled from `rules` and a summary `classify` gives for
/// `lines`, a line whose normalised form contains the normalised pattern of an exemption
/// rule reports an exemption context and the rule's category, and one that contains the
/// normalised pattern of a literal rule reports its category and at least its risk,
/// whatever the case or width the pattern was written in.
pub proof fn lemma_rules_match_normalized_text(
    rules: Seq<WordRule>,
    pack: WordPack,
    lines: Seq<Seq<char>>,
    summary: OcrMatchSummary,
    k: int,
    i: int,
)
    requires
        pack.rules() == rules.map_values(|rule: WordRule| compiled(rule)),
        summarizes(pack.rules(), lines, summary),
        0 <= k < rules.len(),
        0 <= i < lines.len(),
        rules[k].kind == WordRuleKind::Exemption || rules[k].kind == WordRuleKind::Literal,
        contains_spec(normalized(lines[i]), normalized(rules[k].pattern@)),
    ensures
        holds(summary.categories@, rules[k].category@),
        rules[k].kind == WordRuleKind::Exemption ==> summary.exemption_context,
        rules[k].kind == WordRuleKind::Literal ==> risk_rank(rules[k].risk) <= risk_rank(summary.risk),
{
    let models = pack.rules();
    assert(models[k] == compiled(rules[k]));
    assert(hit(models, lines, i, k));
    assert(before_pair(i, k, lines.len() as int, 0));
}

/// Patterns that normalise alike compile alike: two exemption or literal rules whose
/// patterns have the same NFKC lower-case form, with the same category, kind and risk,
/// compile to the same rule, so no text tells them apart.
pub proof fn lemma_patterns_compare_by_normal_form(a: WordRule, b: WordRule)
    requires
        a.kind == b.kind,
        a.kind == WordRuleKind::Exemption || a.kind == WordRuleKind::Literal,
        a.category@ == b.category@,
        a.risk == b.risk,
        normalized(a.pattern@) == normalized(b.pattern@),
    ensures
        compiled(a) == compiled(b),
        forall|line: Seq<char>| rule_matches(compiled(a), line) <==> contains_spec(line, normalized(a.pattern@)),
{
}

/// Whether normalised line `i` matches rule `j`.
pub open spec fn hit(rules: Seq<RuleModel>, lines: Seq<Seq<char>>, i: int, j: int) -> bool {
    rule_matches(rules[j], normalized(lines[i]))
}

/// Pair (`a`, `b`) comes before line `i`, rule `j` in the order lines, then rules, are read.
pub open spec fn before_pair(a: int, b: int, i: int, j: int) -> bool {
    a < i || (a == i && b < j)
}

/// The summary of the matches among the pairs before line `i`, rule `j`.
pub open spec fn partial_summary(
    rules: Seq<RuleModel>,
    lines: Seq<Seq<char>>,
    i: int,
    j: int,
    risk: OcrRisk,
    categories: Seq<String>,
    exemption: bool,
) -> bool {
    &&& strictly_sorted(categories)
    &&& forall|c: Seq<char>|
        #[trigger] holds(categories, c) <==> exists|a: int, b: int|
            0 <= a < lines.len() && 0 <= b < rules.len() && before_pair(a, b, i, j) && #[trigger] hit(
                rules,
                lines,
                a,
                b,
            ) && rules[b].category == c
    &&& exemption <==> exists|a: int, b: int|
        0 <= a < lines.len() && 0 <= b < rules.len() && before_pair(a, b, i, j) && #[trigger] hit(
            rules,
            lines,
            a,
            b,
        ) && rules[b].kind == WordRuleKind::Exemption
    &&& forall|a: int, b: int|
        0 <= a < lines.len() && 0 <= b < rules.len() && before_pair(a, b, i, j) && #[trigger] hit(
            rules,
            lines,
            a,
            b,
        ) ==> risk_rank(rules[b].risk) <= risk_rank(risk)
    &&& (risk == OcrRisk::NoRisk || exists|a: int, b: int|
        0 <= a < lines.len() && 0 <= b < rules.len() && before_pair(a, b, i, j) && #[trigger] hit(
            rules,
            lines,
            a,
            b,
        ) && rules[b].risk == risk)
}

/// `summary` reports exactly the matches of `rules` over all of `lines`.
pub open spec fn summarizes(rules: Seq<RuleModel>, lines: Seq<Seq<char>>, summary: OcrMatchSummary) -> bool {
    partial_summary(
        rules,
        lines,
        lines.len() as int,
        0,
        summary.risk,
        summary.categories@,
        summary.exemption_context,
    )
}

proof fn lemma_summary_step(
    rules: Seq<RuleModel>,
    lines: Seq<Seq<char>>,
    i: int,
    j: int,
    risk0: OcrRisk,
    categories0: Seq<String>,
    exemption0: bool,
    risk1: OcrRisk,
    categories1: Seq<String>,
    exemption1: bool,
)
    requires
        0 <= i < lines.len(),
        0 <= j < rules.len(),
        partial_summary(rules, lines, i, j, risk0, categories0, exemption0),
        hit(rules, lines, i, j) ==> {
            &&& strictly_sorted(categories1)
            &&& forall|x: Seq<char>| #[trigger] holds(categories1, x) <==> (holds(categories0, x) || x == rules[j].category)
            &&& exemption1 == (exemption0 || rules[j].kind == WordRuleKind::Exemption)
            &&& risk1 == (if risk_rank(rules[j].risk) > risk_rank(risk0) { rules[j].risk } else { risk0 })
        },
        !hit(rules, lines, i, j) ==> risk1 == risk0 && categories1 == categories0 && exemption1 == exemption0,
    ensures
        partial_summary(rules, lines, i, j + 1, risk1, categories1, exemption1),
{
    if hit(rules, lines, i, j) {
        assert forall|c: Seq<char>| #[trigger] holds(categories1, c) <==> exists|a: int, b: int|
            0 <= a < lines.len() && 0 <= b < rules.len() && before_pair(a, b, i, j + 1) && #[trigger] hit(
                rules,
                lines,
                a,
                b,
            ) && rules[b].category == c by {
            if holds(categories0, c) {
                let (a, b) = choose|a: int, b: int|
                    0 <= a < lines.len() && 0 <= b < rules.len() && before_pair(a, b, i, j) && #[trigger] hit(
                        rules,
                        lines,
                        a,
                        b,
                    ) && rules[b].category == c;
                assert(before_pair(a, b, i, j + 1));
            }
        }
        if rules[j].kind == WordRuleKind::Exemption {
            assert(before_pair(i, j, i, j + 1));
        }
        if exemption0 {
            let (a, b) = choose|a: int, b: int|
                0 <= a < lines.len() && 0 <= b < rules.len() && before_pair(a, b, i, j) && #[trigger] hit(
                    rules,
                    lines,
                    a,
                    b,
                ) && rules[b].kind == WordRuleKind::Exemption;
            assert(before_pair(a, b, i, j + 1));
        }
        if risk0 != OcrRisk::NoRisk && risk1 == risk0 {
            let (a, b) = choose|a: int, b: int|
                0 <= a < lines.len() && 0 <= b < rules.len() && before_pair(a, b, i, j) && #[trigger] hit(
                    rules,
                    lines,
                    a,
                    b,
                ) && rules[b].risk == risk0;
            assert(before_pair(a, b, i, j + 1));
        }
        if risk1 != risk0 {
            assert(before_pair(i, j, i, j + 1));
        }
    } else {
        assert forall|c: Seq<char>| #[trigger] holds(categories1, c) <==> exists|a: int, b: int|
            0 <= a < lines.len() && 0 <= b < rules.len() && before_pair(a, b, i, j + 1) && #[trigger] hit(
                rules,
                lines,
                a,
                b,
            ) && rules[b].category == c by {
            if holds(categories0, c) {
                let (a, b) = choose|a: int, b: int|
                    0 <= a < lines.len() && 0 <= b < rules.len() && before_pair(a, b, i, j) && #[trigger] hit(
                        rules,
                        lines,
                        a,
                        b,
                    ) && rules[b].category == c;
                assert(before_pair(a, b, i, j + 1));
            }
        }
        if exemption0 {
            let (a, b) = choose|a: int, b: int|
                0 <= a < lines.len() && 0 <= b < rules.len() && before_pair(a, b, i, j) && #[trigger] hit(
                    rules,
                    lines,
                    a,
                    b,
                ) && rules[b].kind == WordRuleKind::Exemption;
            assert(before_pair(a, b, i, j + 1));
        }
        if risk0 != OcrRisk::NoRisk {
            let (a, b) = choose|a: int, b: int|
                0 <= a < lines.len() && 0 <= b < rules.len() && before_pair(a, b, i, j) && #[trigger] hit(
                    rules,
                    lines,
                    a,
                    b,
                ) && rules[b].risk == risk0;
            assert(before_pair(a, b, i, j + 1));
        }
    }
}

proof fn lemma_summary_next_line(
    rules: Seq<RuleModel>,
    lines: Seq<Seq<char>>,
    i: int,
    risk: OcrRisk,
    categories: Seq<String>,
    exemption: bool,
)
    requires
        0 <= i < lines.len(),
        partial_summary(rules, lines, i, rules.len() as int, risk, categories, exemption),
    ensures
        partial_summary(rules, lines, i + 1, 0, risk, categories, exemption),
{
    assert forall|a: int, b: int| 0 <= b < rules.len() implies before_pair(a, b, i, rules.len() as int)
        == before_pair(a, b, i + 1, 0) by {}
}

} // verus!
