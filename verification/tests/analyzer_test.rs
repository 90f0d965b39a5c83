//! Tests for the analyzer and for requests to it

use mjolnir_analyzer::api::{process_request, AnalyzeRequest};
use mjolnir_analyzer::rules::{ReentrancyRule, SecurityAnalysisRule};
use mjolnir_analyzer::{
    analyze_contract, Analyzer, AnalyzerConfig, CustomWeights, Issue, Metrics, Rule, Severity,
};

const TRANSFER_CONTRACT: &str = r#"
            contract MyContract {
                function transfer(address to, uint amount) public {
                    // Missing checks-effects-interactions pattern
                    payable(to).transfer(amount);
                    balances[msg.sender] -= amount;
                }
                
                // Other contract code...
            }
        "#;

fn reentrancy_only() -> AnalyzerConfig {
    AnalyzerConfig {
        enabled_rules: vec!["reentrancy".to_string()],
        custom_weights: Some(CustomWeights {
            security: Some(800_000),
            performance: Some(100_000),
            gas_efficiency: Some(50_000),
            code_quality: Some(50_000),
        }),
    }
}

#[test]
fn lib_test_analyzer() {
    let analyzer = Analyzer::new();
    let code = TRANSFER_CONTRACT;

    let results = analyzer.analyze(code);

    // Verify we have at least one issue
    assert!(!results.issues.is_empty());

    // Verify metrics are calculated
    assert!(results.metrics.security <= 100);
    assert!(results.metrics.performance <= 100);
    assert!(results.metrics.gas_efficiency <= 100);
    assert!(results.metrics.code_quality <= 100);

    // Verify overall score is calculated
    assert!(results.score <= 100);
}

#[test]
fn mod_test_analyzer() {
    let analyzer = Analyzer::new();
    let code = TRANSFER_CONTRACT;

    let results = analyzer.analyze(code);

    // Verify we have at least one issue
    assert!(!results.issues.is_empty());

    // Verify metrics are calculated
    assert!(results.metrics.security <= 100);
    assert!(results.metrics.performance <= 100);
    assert!(results.metrics.gas_efficiency <= 100);
    assert!(results.metrics.code_quality <= 100);

    // Verify overall score is calculated
    assert!(results.score <= 100);
}

#[test]
fn lib_test_custom_config() {
    let config = reentrancy_only();

    let analyzer = Analyzer::with_config(config);
    let code = "function transfer() { /* code */ }";

    analyzer.analyze(code);
    // With custom config, we should only have reentrancy rule enabled
    assert!(analyzer.rule_count() == 1);
}

#[test]
fn mod_test_custom_config() {
    let config = reentrancy_only();

    let analyzer = Analyzer::with_config(config);
    let code = "function transfer() { /* code */ }";

    analyzer.analyze(code);
    // With custom config, we should only have reentrancy rule enabled
    assert!(analyzer.rule_count() == 1);
}

#[test]
fn test_process_request() {
    let request = AnalyzeRequest {
        code: "contract Test { function transfer() { /* code */ } }".to_string(),
        config: None,
    };

    let response = process_request(request);

    assert!(response.results.score <= 100);
    assert!(response.results.metrics.security <= 100);
    assert!(!response.results.issues.is_empty());
}

#[test]
fn test_process_request_with_config() {
    let request = AnalyzeRequest {
        code: "contract Test { function transfer() { /* code */ } }".to_string(),
        config: Some(reentrancy_only()),
    };

    let response = process_request(request);

    assert!(response.results.score <= 100);
}

fn config(enabled: &[&str], custom_weights: Option<CustomWeights>) -> AnalyzerConfig {
    AnalyzerConfig {
        enabled_rules: enabled.iter().map(|id| id.to_string()).collect(),
        custom_weights,
    }
}

fn weights(security: i32, performance: i32, gas_efficiency: i32, code_quality: i32) -> CustomWeights {
    CustomWeights {
        security: Some(security),
        performance: Some(performance),
        gas_efficiency: Some(gas_efficiency),
        code_quality: Some(code_quality),
    }
}

const PAYOUT: &str = "function pay() {\n    msg.sender.transfer(amount);\n    balances[msg.sender] = 0;\n}\n";

const STORAGE_LOOP: &str = "let a = storage.read();\nfor i in 0..n { loop_body(storage) }\n";

const SOURCES: [&str; 8] = [
    "",
    "function transfer() { /* code */ }",
    PAYOUT,
    STORAGE_LOOP,
    TRANSFER_CONTRACT,
    "tx.origin\nselfdestruct(x)\nprice = a + b\n.call{value: 1}()\nnow random\n",
    "pragma solidity ^0.8.0;\nassembly {\n}\nthrow;\nstate\n",
    "for (i = 0; i < list.length; i++) { list[i].send(1); }\r\necrecover(h)\r\n",
];

#[test]
fn transfer_contract_is_scored() {
    let results = analyze_contract(TRANSFER_CONTRACT);
    let found: Vec<(Severity, Option<usize>, &str)> = results
        .issues
        .iter()
        .map(|issue| (issue.severity, issue.line, issue.message.as_str()))
        .collect();
    assert_eq!(
        found,
        vec![
            (
                Severity::High,
                Some(3),
                "Potential reentrancy vulnerability in withdraw function"
            ),
            (
                Severity::Medium,
                Some(3),
                "Function may lack proper access control"
            ),
            (
                Severity::High,
                Some(4),
                "Potential integer overflow/underflow vulnerability"
            ),
            (Severity::Medium, Some(5), "Potential unchecked send/transfer"),
        ]
    );
    assert_eq!(
        results.metrics,
        Metrics {
            performance: 100,
            security: 70,
            gas_efficiency: 100,
            code_quality: 100,
        }
    );
    // 28 + 20 + 30 + 10 = 88, less 5 for each of the two issues of high severity
    assert_eq!(results.score, 78);
}

#[test]
fn issues_come_in_the_order_of_the_rules() {
    let results = analyze_contract(
        "tx.origin\nselfdestruct(x)\nprice = a + b\n.call{value: 1}()\nnow random\n",
    );
    let messages: Vec<&str> = results
        .issues
        .iter()
        .map(|issue| issue.message.as_str())
        .collect();
    assert_eq!(
        messages,
        vec![
            "Unchecked external call result",
            "Potential integer overflow/underflow vulnerability",
            "Unprotected self-destruct functionality",
            "Contract logic depends on block timestamp",
            "Potential front-running vulnerability",
            "Unchecked return value from low-level call",
            "Use of tx.origin for authorization",
            "Contract uses selfdestruct which can force-send ether",
            "Weak randomness using now",
        ]
    );
    assert_eq!(results.metrics.security, 70);
    // 28 + 20 + 30 + 10 = 88, less 5 for each of the six issues of high severity
    assert_eq!(results.score, 58);
}

// For every source the four metrics and the score lie between 0 and 100.
#[test]
fn metrics_and_score_stay_in_range() {
    for source in SOURCES {
        let results = analyze_contract(source);
        assert!(results.metrics.security >= 70 && results.metrics.security <= 100);
        assert!(results.metrics.performance >= 70 && results.metrics.performance <= 100);
        assert!(results.metrics.gas_efficiency >= 70 && results.metrics.gas_efficiency <= 100);
        assert!(results.metrics.code_quality >= 70 && results.metrics.code_quality <= 100);
        assert!(results.score <= 100);
        let skewed = Analyzer::with_config(config(
            &["all"],
            Some(weights(700_000, 0, 300_000, 0)),
        ));
        assert!(skewed.analyze(source).score <= 100);
    }
}

// Weights that add up to more than 1 can lift the score over 100.
#[test]
fn score_leaves_the_range_under_heavy_weights() {
    let heavy = Analyzer::with_config(config(
        &["all"],
        Some(weights(1_000_000, 1_000_000, 1_000_000, 1_000_000)),
    ));
    assert_eq!(heavy.analyze("").score, 255);
    let results = heavy.analyze(STORAGE_LOOP);
    assert_eq!(results.score, 255);
    assert!(results.metrics.security <= 100);
    assert!(results.metrics.gas_efficiency <= 100);
}

// Enabling some of the rules never brings an issue that the run of all
// rules lacks.
#[test]
fn enabled_rules_report_a_part_of_all_issues() {
    let choices: [&[&str]; 7] = [
        &[],
        &["reentrancy"],
        &["gas_optimization", "event_emission", "nonsense"],
        &["tx_origin_auth", "weak_randomness", "force_send_ether"],
        &["missing_visibility", "security_best_practices", "unchecked_return"],
        &["all"],
        &["reentrancy", "all"],
    ];
    for source in SOURCES {
        let all = analyze_contract(source).issues;
        for enabled in choices {
            let part = Analyzer::with_config(config(enabled, None))
                .analyze(source)
                .issues;
            assert!(part.len() <= all.len());
            for issue in &part {
                assert!(all.contains(issue), "{:?} on {:?}", issue, source);
            }
        }
    }
}

#[test]
fn enabled_rules_are_run_in_the_order_of_the_catalog() {
    let analyzer = Analyzer::with_config(config(
        &["weak_randomness", "force_send_ether", "tx_origin_auth"],
        None,
    ));
    assert_eq!(analyzer.rule_count(), 3);
    let results =
        analyzer.analyze("tx.origin\nselfdestruct(x)\nprice = a + b\n.call{value: 1}()\nnow random\n");
    let messages: Vec<&str> = results
        .issues
        .iter()
        .map(|issue| issue.message.as_str())
        .collect();
    assert_eq!(
        messages,
        vec![
            "Use of tx.origin for authorization",
            "Contract uses selfdestruct which can force-send ether",
            "Weak randomness using now",
        ]
    );
    assert_eq!(results.metrics.security, 70);
    assert_eq!(results.score, 78);
}

// Two analyses of one source under one configuration give the same.
#[test]
fn analysis_is_repeatable() {
    for source in SOURCES {
        let analyzer = Analyzer::with_config(reentrancy_only());
        let first = analyzer.analyze(source);
        let second = analyzer.analyze(source);
        let third = Analyzer::with_config(reentrancy_only()).analyze(source);
        assert_eq!(first.issues, second.issues);
        assert_eq!(first.metrics, second.metrics);
        assert_eq!(first.score, second.score);
        assert_eq!(first.issues, third.issues);
        assert_eq!(first.metrics, third.metrics);
        assert_eq!(first.score, third.score);

        let first = analyze_contract(source);
        let second = analyze_contract(source);
        assert_eq!(first.issues, second.issues);
        assert_eq!(first.metrics, second.metrics);
        assert_eq!(first.score, second.score);
    }
}

// A transfer followed on a later line by an assignment to the balances,
// with no check anywhere, gives exactly one issue of reentrancy, of high
// severity, and a security metric under 100.
#[test]
fn transfer_before_balance_update_is_reentrancy() {
    let results = analyze_contract(PAYOUT);
    let reentrancy: Vec<&Issue> = results
        .issues
        .iter()
        .filter(|issue| issue.message.contains("reentrancy"))
        .collect();
    assert_eq!(reentrancy.len(), 1);
    assert_eq!(reentrancy[0].severity, Severity::High);
    assert_eq!(reentrancy[0].line, Some(2));
    assert!(results.metrics.security < 100);
    assert_eq!(results.metrics.security, 70);
    assert_eq!(results.metrics.code_quality, 95);
    assert_eq!(results.issues.len(), 4);
    assert_eq!(results.score, 82);

    let alone = Analyzer::with_config(config(&["reentrancy"], None)).analyze(PAYOUT);
    assert_eq!(alone.issues.len(), 1);
    assert_eq!(alone.issues[0], *reentrancy[0]);
    assert_eq!(alone.metrics.security, 85);
    // 34 + 20 + 30 + 10 = 94, less 5 for the issue of high severity
    assert_eq!(alone.score, 89);
}

// With only the reentrancy rule enabled, no issue comes from another rule.
#[test]
fn only_the_enabled_rule_reports() {
    let analyzer = Analyzer::with_config(config(&["reentrancy"], None));
    let results = analyzer.analyze("function transfer() { /* code */ }");
    assert_eq!(results.issues, vec![]);
    assert_eq!(results.score, 100);
    let all = analyze_contract("function transfer() { /* code */ }");
    assert_eq!(all.issues.len(), 3);
    assert_eq!(all.metrics.security, 76);
    assert_eq!(all.metrics.code_quality, 95);
    assert_eq!(all.score, 84);

    for source in SOURCES {
        for issue in analyzer.analyze(source).issues {
            assert_eq!(
                issue.message,
                "Potential reentrancy vulnerability in withdraw function"
            );
            assert_eq!(issue.severity, Severity::High);
        }
    }
}

// The empty source has no issue, metrics of 100 and, under weights that add
// up to 1, a score of 100.
#[test]
fn empty_source_is_flawless() {
    let results = analyze_contract("");
    assert_eq!(results.issues, vec![]);
    assert_eq!(
        results.metrics,
        Metrics {
            performance: 100,
            security: 100,
            gas_efficiency: 100,
            code_quality: 100,
        }
    );
    assert_eq!(results.score, 100);
    let custom = Analyzer::with_config(config(
        &["all"],
        Some(weights(800_000, 100_000, 50_000, 50_000)),
    ));
    assert_eq!(custom.analyze("").score, 100);
    let half = Analyzer::with_config(config(
        &["all"],
        Some(weights(200_000, 100_000, 150_000, 50_000)),
    ));
    assert_eq!(half.analyze("").score, 50);
}

// Custom weights change the score of a source with uneven metrics by the
// metrics times the change of the weights.
#[test]
fn custom_weights_change_the_score() {
    let custom = Some(weights(800_000, 100_000, 50_000, 50_000));
    let default = analyze_contract(STORAGE_LOOP);
    let weighted = Analyzer::with_config(config(&["all"], custom)).analyze(STORAGE_LOOP);
    assert_eq!(default.metrics, weighted.metrics);
    assert_eq!(default.issues, weighted.issues);
    assert_eq!(
        default.metrics,
        Metrics {
            performance: 100,
            security: 84,
            gas_efficiency: 70,
            code_quality: 100,
        }
    );
    // 33.6 + 20 + 21 + 10 = 84.6
    assert_eq!(default.score, 84);
    // 67.2 + 10 + 3.5 + 5 = 85.7
    assert_eq!(weighted.score, 85);

    let default = analyze_contract(PAYOUT);
    let weighted = Analyzer::with_config(config(&["all"], custom)).analyze(PAYOUT);
    assert_eq!(default.score, 82);
    // 56 + 10 + 5 + 4.75 = 75.75, less 5 for the issue of high severity
    assert_eq!(weighted.score, 70);
}

#[test]
fn unknown_rules_are_not_registered() {
    let analyzer = Analyzer::with_config(config(&["nonsense", "Reentrancy", ""], None));
    assert_eq!(analyzer.rule_count(), 0);
    let results = analyzer.analyze(PAYOUT);
    assert_eq!(results.issues, vec![]);
    assert_eq!(results.score, 100);
    assert_eq!(Analyzer::with_config(config(&[], None)).rule_count(), 0);
}

#[test]
fn all_enables_every_rule() {
    assert_eq!(Analyzer::new().rule_count(), 21);
    assert_eq!(Analyzer::with_config(AnalyzerConfig::default()).rule_count(), 21);
    assert_eq!(
        Analyzer::with_config(config(&["reentrancy", "all"], None)).rule_count(),
        21
    );
    assert_eq!(
        Analyzer::with_config(config(&["reentrancy", "reentrancy", "weak_randomness"], None))
            .rule_count(),
        2
    );
}

#[test]
fn default_configuration_enables_all() {
    let config = AnalyzerConfig::default();
    assert_eq!(config.enabled_rules, vec!["all".to_string()]);
    assert_eq!(config.custom_weights, None);
}

#[test]
fn enables_goes_by_the_configuration() {
    let analyzer = Analyzer::with_config(config(&["reentrancy", "gas_analysis"], None));
    assert!(analyzer.enables("reentrancy"));
    assert!(analyzer.enables("gas_analysis"));
    assert!(!analyzer.enables("weak_randomness"));
    assert!(!analyzer.enables("all"));
    assert!(Analyzer::new().enables("anything"));
}

#[test]
fn registered_rule_is_run_last() {
    let mut analyzer = Analyzer::with_config(config(&["tx_origin_auth"], None));
    analyzer.register_rule("transfers", Rule::Reentrancy(ReentrancyRule {}));
    assert_eq!(analyzer.rule_count(), 2);
    let results = analyzer.analyze("a.transfer(1)\nb = tx.origin\n");
    let messages: Vec<&str> = results
        .issues
        .iter()
        .map(|issue| issue.message.as_str())
        .collect();
    assert_eq!(
        messages,
        vec![
            "Use of tx.origin for authorization",
            "Potential reentrancy vulnerability in withdraw function",
        ]
    );
}

#[test]
fn rule_registered_under_a_taken_name_replaces_the_other() {
    let mut analyzer = Analyzer::with_config(config(&["tx_origin_auth", "reentrancy"], None));
    assert_eq!(analyzer.rule_count(), 2);
    analyzer.register_rule(
        "reentrancy",
        Rule::SecurityAnalysis(SecurityAnalysisRule {}),
    );
    assert_eq!(analyzer.rule_count(), 2);
    let results = analyzer.analyze("a.transfer(1)\nb = tx.origin\n");
    let messages: Vec<&str> = results
        .issues
        .iter()
        .map(|issue| issue.message.as_str())
        .collect();
    // The new rule runs in the place of the one it replaced.
    assert_eq!(
        messages,
        vec![
            "Unchecked return value from external call",
            "Use of tx.origin for authorization",
        ]
    );
}

#[test]
fn empty_analyzer_has_no_rule() {
    let analyzer: Analyzer<Rule> = Analyzer::empty(AnalyzerConfig::default());
    assert_eq!(analyzer.rule_count(), 0);
    let results = analyzer.analyze(PAYOUT);
    assert_eq!(results.issues, vec![]);
    assert_eq!(results.score, 100);
}

#[test]
fn request_without_configuration_uses_the_defaults() {
    let response = process_request(AnalyzeRequest {
        code: PAYOUT.to_string(),
        config: None,
    });
    let direct = analyze_contract(PAYOUT);
    assert_eq!(response.results.issues, direct.issues);
    assert_eq!(response.results.metrics, direct.metrics);
    assert_eq!(response.results.score, 82);
}

#[test]
fn request_with_configuration_uses_it() {
    let response = process_request(AnalyzeRequest {
        code: PAYOUT.to_string(),
        config: Some(reentrancy_only()),
    });
    assert_eq!(response.results.issues.len(), 1);
    assert_eq!(response.results.metrics.security, 85);
    // 68 + 10 + 5 + 5 = 88, less 5 for the issue of high severity
    assert_eq!(response.results.score, 83);
}

// Wherever a line that changes state comes after a line that makes a call,
// the issue of reentrancy comes first and once, and lowers the security
// metric to 85 at most.
#[test]
fn state_change_after_call_is_always_reentrancy() {
    let sources = [
        PAYOUT,
        TRANSFER_CONTRACT,
        "x.call(y)\nz = 1",
        "require(ok);\nassert(ok);\nto.transfer(1);\nlist[] next",
        "onlyOwner\r\ntransfer\r\nbalances\r\n",
        "a = transfer(b)\n\n\nbalances",
        "pragma solidity ^0.8.0;\nfunction f() {\n  target.call(data);\n  done = true;\n}",
    ];
    for source in sources {
        let results = analyze_contract(source);
        let named = results
            .issues
            .iter()
            .filter(|issue| issue.message == "Potential reentrancy vulnerability in withdraw function")
            .count();
        assert_eq!(named, 1, "on {:?}", source);
        assert_eq!(
            results.issues[0].message,
            "Potential reentrancy vulnerability in withdraw function"
        );
        assert_eq!(results.issues[0].severity, Severity::High);
        assert!(results.metrics.security <= 85, "on {:?}", source);
        let mentioned = results
            .issues
            .iter()
            .filter(|issue| issue.message.contains("reentrancy"))
            .count();
        assert_eq!(mentioned, 1, "on {:?}", source);
    }
}
