//! The analyzer: a registry of rules under their names, which runs every
//! rule on a source text and turns what they report into metrics and a score.

use crate::models::{
    default_weights, effective_weights, issue_views, AnalysisResults, AnalysisResultsView,
    AnalyzerConfig, AnalyzerConfigView, Category, Issue, IssueView, Metrics, Severity, Weights,
};
use crate::rules::catalog::{
    default_rules, get_default_rules, lemma_default_identifiers_differ, Rule,
};
use crate::rules::AnalysisRule;
use crate::scoring::{
    category_count, count_rediscovered, count_severity, counted_score, in_range,
    lemma_metric_of_held_count, lemma_score_bounded, metrics_of, normalized, overall_score,
    score_of, security_score, severity_count, stands_for, GAS_COST, PERFORMANCE_COST,
    QUALITY_COST,
};
use vstd::prelude::*;

verus! {

/// What the rules report on `code`, one rule after the other.
pub open spec fn all_findings<R: AnalysisRule>(rules: Seq<R>, code: Seq<char>) -> Seq<IssueView>
    decreases rules.len(),
{
    if rules.len() == 0 {
        Seq::empty()
    } else {
        all_findings(rules.drop_last(), code) + rules.last().findings(code)
    }
}

/// The result of running the rules on `code` and scoring under `weights`.
pub open spec fn analysis_of<R: AnalysisRule>(
    rules: Seq<R>,
    weights: Weights,
    code: Seq<char>,
) -> AnalysisResultsView {
    let issues = all_findings(rules, code);
    let metrics = metrics_of(rules, issues, code);
    AnalysisResultsView {
        score: score_of(metrics, weights, severity_count(issues, Severity::High)) as u8,
        metrics,
        issues,
    }
}

/// The identifiers of the rules, in the same order.
pub open spec fn identifiers<R: AnalysisRule>(rules: Seq<R>) -> Seq<Seq<char>> {
    rules.map_values(|rule: R| rule.identifier())
}

/// Whether a list of enabled rules admits the rule with the identifier
/// `id`: it names the rule, or it holds `"all"`.
pub open spec fn is_enabled(enabled: Seq<Seq<char>>, id: Seq<char>) -> bool {
    enabled.contains("all"@) || enabled.contains(id)
}

/// Those of `rules` that `enabled` admits, in the same order.
pub open spec fn enabled_rules<R: AnalysisRule>(rules: Seq<R>, enabled: Seq<Seq<char>>) -> Seq<R> {
    rules.filter(|rule: R| is_enabled(enabled, rule.identifier()))
}

/// A rule under the name it was registered with.
struct Entry<R> {
    name: String,
    rule: R,
}

/// Main analyzer for smart contracts
pub struct Analyzer<R: AnalysisRule = Rule> {
    entries: Vec<Entry<R>>,
    config: AnalyzerConfig,
}

impl<R: AnalysisRule> Analyzer<R> {
    /// No two rules are registered under one name.
    #[verifier::type_invariant]
    spec fn names_differ(&self) -> bool {
        forall|i: int, j: int|
            0 <= i < j < self.entries@.len() ==> self.entries@[i].name@ != self.entries@[j].name@
    }

    /// The names under which the rules are registered, in the order of
    /// registration.
    pub closed spec fn names(&self) -> Seq<Seq<char>> {
        self.entries@.map_values(|entry: Entry<R>| entry.name@)
    }

    /// The registered rules, in the order of registration.
    pub closed spec fn rules(&self) -> Seq<R> {
        self.entries@.map_values(|entry: Entry<R>| entry.rule)
    }

    /// The configuration that the analyzer was made with.
    pub closed spec fn config(&self) -> AnalyzerConfigView {
        self.config@
    }

    /// The weights under which the analyzer scores.
    pub open spec fn weights(&self) -> Weights {
        effective_weights(self.config().custom_weights)
    }

    /// What the analyzer returns for `code`.
    pub open spec fn analysis(&self, code: Seq<char>) -> AnalysisResultsView {
        analysis_of(self.rules(), self.weights(), code)
    }

    /// An analyzer with the given configuration and no rule.
    pub fn empty(config: AnalyzerConfig) -> (analyzer: Self)
        ensures
            analyzer.names() == Seq::<Seq<char>>::empty(),
            analyzer.rules() == Seq::<R>::empty(),
            analyzer.config() == config@,
    {
        let analyzer = Analyzer { entries: Vec::new(), config };
        assert(analyzer.names() =~= Seq::<Seq<char>>::empty());
        assert(analyzer.rules() =~= Seq::<R>::empty());
        analyzer
    }

    /// The number of registered rules.
    pub fn rule_count(&self) -> (count: usize)
        ensures
            count == self.rules().len(),
            count == self.names().len(),
    {
        self.entries.len()
    }

    /// Whether the configuration admits the rule with the identifier `id`.
    pub fn enables(&self, id: &str) -> (enabled: bool)
        ensures
            enabled == is_enabled(self.config().enabled_rules, id@),
    {
        let all = "all".to_string();
        let wanted = id.to_string();
        let ghost listed = self.config().enabled_rules;
        let mut index: usize = 0;
        while index < self.config.enabled_rules.len()
            invariant
                index <= self.config.enabled_rules@.len(),
                listed == self.config().enabled_rules,
                all@ == "all"@,
                wanted@ == id@,
                forall|j: int| 0 <= j < index ==> listed[j] != "all"@ && listed[j] != id@,
            decreases self.config.enabled_rules@.len() - index,
        {
            if self.config.enabled_rules[index] == all || self.config.enabled_rules[index]
                == wanted {
                assert(listed[index as int] == "all"@ || listed[index as int] == id@);
                return true;
            }
            index += 1;
        }
        false
    }

    /// Register a new analysis rule. A rule registered under a name that
    /// is taken replaces the rule of that name, in its place.
    pub fn register_rule(&mut self, name: &str, rule: R)
        ensures
            final(self).config() == old(self).config(),
            final(self).names().no_duplicates(),
            old(self).names().contains(name@) ==> {
                &&& final(self).names() == old(self).names()
                &&& final(self).rules() == old(self).rules().update(
                    old(self).names().index_of(name@),
                    rule,
                )
            },
            !old(self).names().contains(name@) ==> {
                &&& final(self).names() == old(self).names().push(name@)
                &&& final(self).rules() == old(self).rules().push(rule)
            },
    {
        proof {
            use_type_invariant(&*self);
        }
        let ghost names = self.names();
        let ghost rules = self.rules();
        let mut entries: Vec<Entry<R>> = Vec::new();
        std::mem::swap(&mut entries, &mut self.entries);
        let key = name.to_string();
        let mut at: usize = 0;
        while at < entries.len() && !(entries[at].name == key)
            invariant
                at <= entries@.len(),
                key@ == name@,
                forall|j: int| 0 <= j < at ==> entries@[j].name@ != name@,
            decreases entries@.len() - at,
        {
            at += 1;
        }
        if at < entries.len() {
            proof {
                assert(names[at as int] == name@);
                let chosen = names.index_of(name@);
                assert(0 <= chosen < names.len() && names[chosen] == name@);
                assert(chosen == at);
            }
            entries[at] = Entry { name: key, rule };
        } else {
            assert(!names.contains(name@));
            entries.push(Entry { name: key, rule });
        }
        self.entries = entries;
        proof {
            if at < names.len() {
                assert(self.names() =~= names);
                assert(self.rules() =~= rules.update(at as int, rule));
            } else {
                assert(self.names() =~= names.push(name@));
                assert(self.rules() =~= rules.push(rule));
            }
        }
    }

    /// Analyze a smart contract and return results
    pub fn analyze(&self, code: &str) -> (results: AnalysisResults)
        ensures
            results@ == self.analysis(code@),
            in_range(results.metrics),
            normalized(self.weights()) ==> results.score <= 100,
    {
        let mut all_issues: Vec<Issue> = Vec::new();
        assert(issue_views(all_issues@) =~= Seq::<IssueView>::empty());
        let ghost rules = self.rules();

        // Collect issues from all rules
        let mut index: usize = 0;
        while index < self.entries.len()
            invariant
                index <= self.entries@.len(),
                rules == self.rules(),
                issue_views(all_issues@) == all_findings(rules.take(index as int), code@),
            decreases self.entries@.len() - index,
        {
            let ghost collected = all_issues@;
            let mut issues = self.entries[index].rule.analyze(code);
            let ghost found = issues@;
            all_issues.append(&mut issues);
            proof {
                assert(issue_views(collected + found) =~= issue_views(collected) + issue_views(
                    found,
                ));
                assert(rules.take(index + 1).drop_last() =~= rules.take(index as int));
            }
            index += 1;
        }
        assert(rules.take(rules.len() as int) =~= rules);

        // Calculate metrics based on issues
        let metrics = self.calculate_metrics(all_issues.as_slice(), code);

        // Calculate overall score
        let score = self.calculate_score(&metrics, all_issues.as_slice());
        proof {
            if normalized(self.weights()) {
                lemma_score_bounded(
                    metrics,
                    self.weights(),
                    severity_count(issue_views(all_issues@), Severity::High),
                );
            }
        }

        AnalysisResults { score, metrics, issues: all_issues }
    }

    /// Calculate metrics based on issues and code
    pub fn calculate_metrics(&self, issues: &[Issue], code: &str) -> (metrics: Metrics)
        ensures
            metrics == metrics_of(self.rules(), issue_views(issues@), code@),
            in_range(metrics),
    {
        // Count issues by severity
        let high_count = count_severity(issues, Severity::High);
        let medium_count = count_severity(issues, Severity::Medium);
        let low_count = count_severity(issues, Severity::Low);

        let mut performance_issues: usize = 0;
        let mut gas_issues: usize = 0;
        let mut quality_issues: usize = 0;
        let ghost rules = self.rules();
        let ghost reported = issue_views(issues@);
        let ghost mut run = rules.take(0);

        // Count issues by category
        let mut index: usize = 0;
        while index < self.entries.len()
            invariant
                index <= self.entries@.len(),
                rules == self.rules(),
                reported == issue_views(issues@),
                run == rules.take(index as int),
                stands_for(
                    performance_issues,
                    category_count(run, Category::Performance, reported, code@),
                ),
                stands_for(
                    gas_issues,
                    category_count(run, Category::GasEfficiency, reported, code@),
                ),
                stands_for(
                    quality_issues,
                    category_count(run, Category::CodeQuality, reported, code@),
                ),
            decreases self.entries@.len() - index,
        {
            let rule = &self.entries[index].rule;
            assert(rules.take(index + 1).drop_last() =~= rules.take(index as int));
            assert(rules.take(index + 1).last() == *rule);
            match rule.category() {
                Category::Performance => {
                    let found = rule.analyze(code);
                    performance_issues = performance_issues.saturating_add(
                        count_rediscovered(issues, found.as_slice()),
                    );
                },
                Category::GasEfficiency => {
                    let found = rule.analyze(code);
                    gas_issues = gas_issues.saturating_add(
                        count_rediscovered(issues, found.as_slice()),
                    );
                },
                Category::CodeQuality => {
                    let found = rule.analyze(code);
                    quality_issues = quality_issues.saturating_add(
                        count_rediscovered(issues, found.as_slice()),
                    );
                },
                Category::Security => {},
            }
            index += 1;
            proof {
                run = rules.take(index as int);
            }
        }
        proof {
            assert(rules.take(rules.len() as int) =~= rules);
            lemma_metric_of_held_count(
                performance_issues,
                category_count(rules, Category::Performance, reported, code@),
                PERFORMANCE_COST as int,
            );
            lemma_metric_of_held_count(
                gas_issues,
                category_count(rules, Category::GasEfficiency, reported, code@),
                GAS_COST as int,
            );
            lemma_metric_of_held_count(
                quality_issues,
                category_count(rules, Category::CodeQuality, reported, code@),
                QUALITY_COST as int,
            );
        }

        Metrics {
            performance: counted_score(performance_issues, PERFORMANCE_COST),
            security: security_score(high_count, medium_count, low_count),
            gas_efficiency: counted_score(gas_issues, GAS_COST),
            code_quality: counted_score(quality_issues, QUALITY_COST),
        }
    }

    /// Calculate overall score based on metrics and issues
    pub fn calculate_score(&self, metrics: &Metrics, issues: &[Issue]) -> (score: u8)
        ensures
            score == score_of(
                *metrics,
                self.weights(),
                severity_count(issue_views(issues@), Severity::High),
            ),
    {
        // Get weights from config or use defaults
        let weights = self.config.weights();

        // Adjust for critical issues
        let critical = count_severity(issues, Severity::High);

        overall_score(metrics, &weights, critical)
    }
}

impl Analyzer<Rule> {
    /// Create a new analyzer with default rules
    pub fn new() -> (analyzer: Self)
        ensures
            analyzer.rules() == default_rules(),
            analyzer.names() == identifiers(default_rules()),
            analyzer.config().enabled_rules == seq!["all"@],
            analyzer.config().custom_weights is None,
    {
        let analyzer = Self::with_config(AnalyzerConfig::default());
        proof {
            assert(analyzer.config().enabled_rules[0] == "all"@);
            lemma_all_enables_every_rule(default_rules(), analyzer.config().enabled_rules);
        }
        analyzer
    }

    /// Create a new analyzer with custom configuration
    pub fn with_config(config: AnalyzerConfig) -> (analyzer: Self)
        ensures
            analyzer.rules() == enabled_rules(default_rules(), config@.enabled_rules),
            analyzer.names() == identifiers(analyzer.rules()),
            analyzer.names().no_duplicates(),
            analyzer.config() == config@,
    {
        let ghost settings = config@;
        let mut analyzer = Self::empty(config);
        let ghost enabled = settings.enabled_rules;
        let rules = get_default_rules();
        let ghost catalog = rules@;

        // Register default rules
        for rule in iter: rules
            invariant
                catalog == default_rules(),
                iter.seq() == catalog,
                analyzer.config() == settings,
                enabled == settings.enabled_rules,
                analyzer.rules() == enabled_rules(catalog.take(iter.index() as int), enabled),
                analyzer.names() == identifiers(analyzer.rules()),
                analyzer.names().no_duplicates(),
        {
            let ghost index = iter.index() as int;
            proof {
                assert(catalog.take(index + 1).drop_last() =~= catalog.take(index));
                reveal(Seq::filter);
            }
            // Only register rules that are enabled in the config
            if analyzer.enables(rule.id()) {
                proof {
                    lemma_identifier_is_new(index, enabled);
                }
                analyzer.register_rule(rule.id(), rule);
                assert(analyzer.names() =~= identifiers(analyzer.rules()));
            }
        }
        assert(catalog.take(catalog.len() as int) =~= catalog);
        analyzer
    }
}

/// The identifier of a default rule is not among those of the enabled
/// rules before it.
proof fn lemma_identifier_is_new(index: int, enabled: Seq<Seq<char>>)
    requires
        0 <= index < default_rules().len(),
    ensures
        !identifiers(enabled_rules(default_rules().take(index), enabled)).contains(
            default_rules()[index].identifier(),
        ),
{
    let earlier = default_rules().take(index);
    let chosen = enabled_rules(earlier, enabled);
    let id = default_rules()[index].identifier();
    if identifiers(chosen).contains(id) {
        let k = choose|k: int| 0 <= k < identifiers(chosen).len() && identifiers(chosen)[k] == id;
        let rule = chosen[k];
        assert(chosen.contains(rule));
        earlier.lemma_filter_contains_rev(
            |rule: Rule| is_enabled(enabled, rule.identifier()),
            rule,
        );
        let m = choose|m: int| 0 <= m < earlier.len() && earlier[m] == rule;
        lemma_default_identifiers_differ();
        assert(default_rules()[m].identifier() == default_rules()[index].identifier());
    }
}

/// An issue is among what the rules report exactly when one of the rules
/// reports it.
pub proof fn lemma_findings_come_from_rules<R: AnalysisRule>(
    rules: Seq<R>,
    code: Seq<char>,
    issue: IssueView,
)
    ensures
        all_findings(rules, code).contains(issue) <==> exists|k: int|
            0 <= k < rules.len() && (#[trigger] rules[k]).findings(code).contains(issue),
    decreases rules.len(),
{
    if rules.len() > 0 {
        let earlier = rules.drop_last();
        let last = rules.last().findings(code);
        lemma_findings_come_from_rules(earlier, code, issue);
        if all_findings(rules, code).contains(issue) {
            let at = choose|at: int|
                0 <= at < all_findings(rules, code).len() && all_findings(rules, code)[at]
                    == issue;
            if at < all_findings(earlier, code).len() {
                assert(all_findings(earlier, code)[at] == issue);
                let k = choose|k: int|
                    0 <= k < earlier.len() && (#[trigger] earlier[k]).findings(code).contains(
                        issue,
                    );
                assert(rules[k].findings(code).contains(issue));
            } else {
                assert(last[at - all_findings(earlier, code).len()] == issue);
                assert(rules[rules.len() - 1].findings(code).contains(issue));
            }
        }
        if exists|k: int|
            0 <= k < rules.len() && (#[trigger] rules[k]).findings(code).contains(issue) {
            let k = choose|k: int|
                0 <= k < rules.len() && (#[trigger] rules[k]).findings(code).contains(issue);
            if k < earlier.len() {
                assert(earlier[k].findings(code).contains(issue));
                let at = choose|at: int|
                    0 <= at < all_findings(earlier, code).len() && all_findings(earlier, code)[at]
                        == issue;
                assert(all_findings(rules, code)[at] == issue);
            } else {
                let at = choose|at: int| 0 <= at < last.len() && last[at] == issue;
                assert(all_findings(rules, code)[all_findings(earlier, code).len() + at]
                    == issue);
            }
        }
    }
}

/// Every issue that an analyzer reports under a configuration is one that
/// the analyzer with all default rules reports on the same source, and it
/// comes from a default rule that the configuration enables: to enable
/// fewer rules never brings a new issue.
pub proof fn lemma_configured_issues_are_among_all(
    enabled: Seq<Seq<char>>,
    code: Seq<char>,
    issue: IssueView,
)
    requires
        all_findings(enabled_rules(default_rules(), enabled), code).contains(issue),
    ensures
        all_findings(default_rules(), code).contains(issue),
        exists|k: int|
            0 <= k < default_rules().len() && is_enabled(
                enabled,
                (#[trigger] default_rules()[k]).identifier(),
            ) && default_rules()[k].findings(code).contains(issue),
{
    let all = default_rules();
    let admits = |rule: Rule| is_enabled(enabled, rule.identifier());
    let chosen = enabled_rules(all, enabled);
    lemma_findings_come_from_rules(chosen, code, issue);
    let n = choose|n: int|
        0 <= n < chosen.len() && (#[trigger] chosen[n]).findings(code).contains(issue);
    let rule = chosen[n];
    assert(chosen.contains(rule));
    all.lemma_filter_contains_rev(admits, rule);
    all.lemma_filter_pred(admits, n);
    let k = choose|k: int| 0 <= k < all.len() && all[k] == rule;
    assert(is_enabled(enabled, all[k].identifier()) && all[k].findings(code).contains(issue));
    lemma_findings_come_from_rules(all, code, issue);
}

/// Analyzers with the same rules and the same configuration return the
/// same result for the same source: an analysis depends on nothing else.
pub proof fn lemma_analysis_is_repeatable<R: AnalysisRule>(
    first: Analyzer<R>,
    second: Analyzer<R>,
    code: Seq<char>,
)
    requires
        first.rules() == second.rules(),
        first.config() == second.config(),
    ensures
        first.analysis(code) == second.analysis(code),
{
}

/// A list that holds `"all"` admits every rule.
pub proof fn lemma_all_enables_every_rule<R: AnalysisRule>(rules: Seq<R>, enabled: Seq<Seq<char>>)
    requires
        enabled.contains("all"@),
    ensures
        enabled_rules(rules, enabled) == rules,
    decreases rules.len(),
{
    reveal(Seq::filter);
    if rules.len() > 0 {
        lemma_all_enables_every_rule(rules.drop_last(), enabled);
        assert(rules.drop_last().push(rules.last()) =~= rules);
    }
}

/// Convenience function to analyze a contract with default settings
pub fn analyze_contract(code: &str) -> (results: AnalysisResults)
    ensures
        results@ == analysis_of(default_rules(), default_weights(), code@),
        in_range(results.metrics),
        results.score <= 100,
{
    let analyzer = Analyzer::new();
    analyzer.analyze(code)
}

} // verus!
