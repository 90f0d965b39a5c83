//! Tests of the metrics and of the overall score.

use mjolnir_analyzer::scoring::{
    count_rediscovered, count_severity, counted_score, deduction, is_among, overall_score,
    security_score,
};
use mjolnir_analyzer::{
    AnalysisRule, Analyzer, AnalyzerConfig, Category, CustomWeights, Issue, Metrics, Rule,
    Severity, Weights,
};
use mjolnir_analyzer::rules::{GasAnalysisRule, MissingVisibilityRule};

fn issue(severity: Severity, message: &str, line: Option<usize>) -> Issue {
    Issue {
        severity,
        message: message.to_string(),
        line,
        recommendation: None,
    }
}

fn metrics(security: u8, performance: u8, gas_efficiency: u8, code_quality: u8) -> Metrics {
    Metrics {
        performance,
        security,
        gas_efficiency,
        code_quality,
    }
}

fn weights(security: i32, performance: i32, gas_efficiency: i32, code_quality: i32) -> Weights {
    Weights {
        security,
        performance,
        gas_efficiency,
        code_quality,
    }
}

#[test]
fn deduction_is_held_to_the_cap() {
    assert_eq!(deduction(0, 10), 0);
    assert_eq!(deduction(1, 10), 10);
    assert_eq!(deduction(2, 10), 20);
    assert_eq!(deduction(3, 10), 30);
    assert_eq!(deduction(4, 10), 30);
    assert_eq!(deduction(5, 5), 25);
    assert_eq!(deduction(6, 5), 30);
    assert_eq!(deduction(7, 5), 30);
    assert_eq!(deduction(29, 1), 29);
    assert_eq!(deduction(30, 1), 30);
    assert_eq!(deduction(usize::MAX, 1), 30);
    assert_eq!(deduction(usize::MAX, 30), 30);
}

#[test]
fn counted_score_takes_the_cost_of_each_issue() {
    assert_eq!(counted_score(0, 10), 100);
    assert_eq!(counted_score(1, 10), 90);
    assert_eq!(counted_score(2, 10), 80);
    assert_eq!(counted_score(3, 10), 70);
    assert_eq!(counted_score(1000, 10), 70);
    assert_eq!(counted_score(1, 5), 95);
    assert_eq!(counted_score(5, 5), 75);
    assert_eq!(counted_score(6, 5), 70);
    assert_eq!(counted_score(usize::MAX, 5), 70);
}

#[test]
fn security_score_weighs_the_severities() {
    assert_eq!(security_score(0, 0, 0), 100);
    assert_eq!(security_score(1, 0, 0), 85);
    assert_eq!(security_score(0, 1, 0), 93);
    assert_eq!(security_score(0, 0, 1), 98);
    assert_eq!(security_score(1, 1, 1), 76);
    assert_eq!(security_score(1, 2, 0), 71);
    assert_eq!(security_score(1, 2, 1), 70);
    assert_eq!(security_score(2, 0, 0), 70);
    assert_eq!(security_score(0, 4, 0), 72);
    assert_eq!(security_score(0, 4, 1), 70);
    assert_eq!(security_score(0, 5, 0), 70);
    assert_eq!(security_score(0, 0, 14), 72);
    assert_eq!(security_score(0, 0, 15), 70);
    assert_eq!(security_score(usize::MAX, usize::MAX, usize::MAX), 70);
    assert_eq!(security_score(0, usize::MAX, 0), 70);
}

// Raising the severity of an issue never raises the security metric.
#[test]
fn security_score_never_rises_with_severity() {
    for high in 0..5 {
        for medium in 0..7 {
            for low in 0..18 {
                let before = security_score(high, medium, low + 1);
                assert!(security_score(high, medium + 1, low) <= before);
                assert!(security_score(high + 1, medium, low) <= before);
                assert!(
                    security_score(high + 1, medium, low) <= security_score(high, medium + 1, low)
                );
            }
        }
    }
}

#[test]
fn overall_score_with_default_weights() {
    let default = Weights::default();
    assert_eq!(default, weights(400_000, 200_000, 300_000, 100_000));
    assert_eq!(overall_score(&metrics(100, 100, 100, 100), &default, 0), 100);
    assert_eq!(overall_score(&metrics(70, 100, 80, 100), &default, 0), 82);
    assert_eq!(overall_score(&metrics(70, 100, 80, 100), &default, 4), 62);
    assert_eq!(overall_score(&metrics(84, 100, 70, 100), &default, 0), 84);
    assert_eq!(overall_score(&metrics(76, 100, 100, 95), &default, 1), 84);
    assert_eq!(overall_score(&metrics(0, 0, 0, 0), &default, 0), 0);
}

#[test]
fn overall_score_cuts_fractions_off() {
    let default = Weights::default();
    // 33.6 + 20 + 21 + 10 = 84.6
    assert_eq!(overall_score(&metrics(84, 100, 70, 100), &default, 0), 84);
    // 39.6 + 20 + 30 + 10 = 99.6
    assert_eq!(overall_score(&metrics(99, 100, 100, 100), &default, 0), 99);
    assert_eq!(overall_score(&metrics(1, 1, 1, 1), &default, 0), 1);
    assert_eq!(overall_score(&metrics(1, 1, 1, 0), &default, 0), 0);
}

#[test]
fn overall_score_takes_five_for_each_issue_of_high_severity() {
    let default = Weights::default();
    let all = metrics(100, 100, 100, 100);
    assert_eq!(overall_score(&all, &default, 1), 95);
    assert_eq!(overall_score(&all, &default, 19), 5);
    assert_eq!(overall_score(&all, &default, 20), 0);
    assert_eq!(overall_score(&all, &default, 21), 0);
    assert_eq!(overall_score(&all, &default, 51), 0);
    assert_eq!(overall_score(&all, &default, 52), 0);
    assert_eq!(overall_score(&all, &default, usize::MAX), 0);
}

#[test]
fn overall_score_applies_weights_as_given() {
    let all = metrics(100, 100, 100, 100);
    // Weights that add up to 2 double the score.
    assert_eq!(overall_score(&all, &weights(800_000, 400_000, 600_000, 200_000), 0), 200);
    assert_eq!(overall_score(&all, &weights(800_000, 400_000, 600_000, 200_000), 31), 45);
    // A sum over 255 counts as 255.
    assert_eq!(overall_score(&all, &weights(1_000_000, 1_000_000, 1_000_000, 1_000_000), 0), 255);
    assert_eq!(overall_score(&all, &weights(i32::MAX, i32::MAX, i32::MAX, i32::MAX), 0), 255);
    assert_eq!(overall_score(&all, &weights(i32::MAX, i32::MAX, i32::MAX, i32::MAX), 50), 5);
    assert_eq!(overall_score(&all, &weights(i32::MAX, i32::MAX, i32::MAX, i32::MAX), 51), 0);
    // A negative sum counts as 0.
    assert_eq!(overall_score(&all, &weights(-1_000_000, 0, 0, 0), 0), 0);
    assert_eq!(overall_score(&all, &weights(i32::MIN, i32::MIN, i32::MIN, i32::MIN), 0), 0);
    assert_eq!(overall_score(&all, &weights(-400_000, 200_000, 300_000, 100_000), 0), 20);
    assert_eq!(overall_score(&all, &weights(0, 0, 0, 0), 0), 0);
    assert_eq!(overall_score(&metrics(255, 255, 255, 255), &weights(250_000, 250_000, 250_000, 250_000), 0), 255);
}

#[test]
fn overall_score_follows_the_weights() {
    let uneven = metrics(84, 100, 70, 100);
    // 67.2 + 10 + 3.5 + 5 = 85.7
    assert_eq!(overall_score(&uneven, &weights(800_000, 100_000, 50_000, 50_000), 0), 85);
    // 0.4 more weight on security, 0.1 less on performance, 0.25 less on gas
    // efficiency and 0.05 less on code quality change the sum by
    // 33.6 - 10 - 17.5 - 5 = 1.1.
    assert_eq!(overall_score(&uneven, &Weights::default(), 0), 84);
    // Even metrics give the same score under all weights that add up to 1.
    let even = metrics(90, 90, 90, 90);
    assert_eq!(overall_score(&even, &Weights::default(), 0), 90);
    assert_eq!(overall_score(&even, &weights(800_000, 100_000, 50_000, 50_000), 0), 90);
}

#[test]
fn severities_are_counted() {
    let issues = vec![
        issue(Severity::High, "a", None),
        issue(Severity::Low, "b", Some(1)),
        issue(Severity::High, "c", Some(2)),
        issue(Severity::Medium, "d", None),
        issue(Severity::High, "a", None),
    ];
    assert_eq!(count_severity(&issues, Severity::High), 3);
    assert_eq!(count_severity(&issues, Severity::Medium), 1);
    assert_eq!(count_severity(&issues, Severity::Low), 1);
    assert_eq!(count_severity(&[], Severity::High), 0);
}

#[test]
fn issues_are_equal_when_all_fields_are() {
    let base = Issue {
        severity: Severity::Low,
        message: "m".to_string(),
        line: Some(1),
        recommendation: Some("r".to_string()),
    };
    assert!(base == base.clone());
    assert!(base != Issue { severity: Severity::Medium, ..base.clone() });
    assert!(base != Issue { message: "n".to_string(), ..base.clone() });
    assert!(base != Issue { line: Some(2), ..base.clone() });
    assert!(base != Issue { line: None, ..base.clone() });
    assert!(base != Issue { recommendation: Some("s".to_string()), ..base.clone() });
    assert!(base != Issue { recommendation: None, ..base.clone() });
    let bare = Issue { line: None, recommendation: None, ..base.clone() };
    assert!(bare == bare.clone());
}

#[test]
fn rediscovered_issues_are_counted_as_often_as_they_stand() {
    let a = issue(Severity::High, "a", Some(1));
    let b = issue(Severity::Low, "b", Some(2));
    let c = issue(Severity::Low, "c", None);
    let issues = vec![a.clone(), b.clone(), a.clone(), c.clone()];
    assert!(is_among(&a, &issues));
    assert!(!is_among(&a, &[b.clone(), c.clone()]));
    assert!(!is_among(&a, &[]));
    assert_eq!(count_rediscovered(&issues, &[a.clone()]), 2);
    assert_eq!(count_rediscovered(&issues, &[a.clone(), a.clone()]), 2);
    assert_eq!(count_rediscovered(&issues, &[b.clone(), c.clone()]), 2);
    assert_eq!(count_rediscovered(&issues, &issues), 4);
    assert_eq!(count_rediscovered(&issues, &[]), 0);
    assert_eq!(count_rediscovered(&[], &issues), 0);
    assert_eq!(
        count_rediscovered(&issues, &[issue(Severity::High, "a", Some(2))]),
        0
    );
}

// The count behind a category metric goes by rule: an issue that two rules
// of the category report counts for each of them.
#[test]
fn category_counts_go_by_rule() {
    let code = "function a() {}\nfunction b() {}\n";
    let mut once: Analyzer<Rule> = Analyzer::empty(AnalyzerConfig::default());
    once.register_rule("first", Rule::MissingVisibility(MissingVisibilityRule {}));
    let results = once.analyze(code);
    assert_eq!(results.issues.len(), 2);
    assert_eq!(results.metrics.code_quality, 90);

    let mut twice: Analyzer<Rule> = Analyzer::empty(AnalyzerConfig::default());
    twice.register_rule("first", Rule::MissingVisibility(MissingVisibilityRule {}));
    twice.register_rule("second", Rule::MissingVisibility(MissingVisibilityRule {}));
    let results = twice.analyze(code);
    // Each rule reports two issues, and each rule finds all four again.
    assert_eq!(results.issues.len(), 4);
    assert_eq!(results.metrics.code_quality, 70);
    assert_eq!(
        twice.calculate_metrics(&results.issues[..1], code).code_quality,
        90
    );
    assert_eq!(results.metrics.security, 92);
    assert_eq!(results.metrics.performance, 100);
    assert_eq!(results.metrics.gas_efficiency, 100);
    // 36.8 + 20 + 30 + 7 = 93.8
    assert_eq!(results.score, 93);
}

#[test]
fn metrics_count_only_what_the_rules_report_again() {
    let analyzer = Analyzer::new();
    let foreign = vec![
        issue(Severity::Medium, "unknown to every rule", Some(1)),
        issue(Severity::High, "unknown as well", None),
    ];
    let metrics = analyzer.calculate_metrics(&foreign, "function a() {}");
    assert_eq!(metrics.security, 78);
    assert_eq!(metrics.code_quality, 100);
    assert_eq!(metrics.gas_efficiency, 100);
    assert_eq!(metrics.performance, 100);
    assert_eq!(analyzer.calculate_score(&metrics, &foreign), 86);
}

#[test]
fn gas_analysis_counts_towards_gas_efficiency() {
    let mut analyzer: Analyzer<Rule> = Analyzer::empty(AnalyzerConfig::default());
    analyzer.register_rule("gas_analysis", Rule::GasAnalysis(GasAnalysisRule {}));
    let results = analyzer.analyze("fn pay() {\n    storage.transfer();\n}\n");
    assert_eq!(results.issues.len(), 2);
    assert_eq!(results.metrics.gas_efficiency, 80);
    assert_eq!(results.metrics.security, 91);
    // 36.4 + 20 + 24 + 10 = 90.4
    assert_eq!(results.score, 90);
    assert_eq!(GasAnalysisRule {}.id(), "gas_analysis");
}

#[test]
fn custom_weights_fall_back_key_by_key() {
    let config = AnalyzerConfig {
        enabled_rules: vec!["all".to_string()],
        custom_weights: Some(CustomWeights {
            security: Some(1_000_000),
            performance: None,
            gas_efficiency: Some(0),
            code_quality: None,
        }),
    };
    assert_eq!(config.weights(), weights(1_000_000, 200_000, 0, 100_000));
    let none = AnalyzerConfig {
        enabled_rules: vec![],
        custom_weights: None,
    };
    assert_eq!(none.weights(), Weights::default());
    let empty = AnalyzerConfig {
        enabled_rules: vec![],
        custom_weights: Some(CustomWeights {
            security: None,
            performance: None,
            gas_efficiency: None,
            code_quality: None,
        }),
    };
    assert_eq!(empty.weights(), Weights::default());
}

#[test]
fn categories_are_found_by_name() {
    assert_eq!(Category::from_name("security"), Some(Category::Security));
    assert_eq!(Category::from_name("performance"), Some(Category::Performance));
    assert_eq!(Category::from_name("gas_efficiency"), Some(Category::GasEfficiency));
    assert_eq!(Category::from_name("code_quality"), Some(Category::CodeQuality));
    assert_eq!(Category::from_name("Security"), None);
    assert_eq!(Category::from_name("gas"), None);
    assert_eq!(Category::from_name(""), None);
    assert_eq!(Category::from_name("security "), None);
}

#[test]
fn custom_weights_are_set_by_name() {
    let mut custom = CustomWeights::new();
    assert_eq!(
        custom,
        CustomWeights {
            security: None,
            performance: None,
            gas_efficiency: None,
            code_quality: None,
        }
    );
    custom.set("security", 800_000);
    custom.set("gas_efficiency", 50_000);
    custom.set("unknown", 1);
    custom.set("", 2);
    assert_eq!(
        custom,
        CustomWeights {
            security: Some(800_000),
            performance: None,
            gas_efficiency: Some(50_000),
            code_quality: None,
        }
    );
    custom.set("security", -1);
    custom.set("performance", 100_000);
    custom.set("code_quality", 0);
    assert_eq!(
        custom,
        CustomWeights {
            security: Some(-1),
            performance: Some(100_000),
            gas_efficiency: Some(50_000),
            code_quality: Some(0),
        }
    );
}
