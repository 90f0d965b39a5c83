//! What the default rules report on every source in which a state change
//! follows an external call: the issue of reentrancy, first and once, and a
//! security metric that it lowers.

use crate::analyzer::{all_findings, analysis_of, lemma_findings_come_from_rules};
use crate::models::{IssueView, Severity, Weights};
use crate::rules::catalog::{default_rules, Rule};
use crate::rules::advanced_vulnerabilities::weak_source_use;
use crate::rules::contract_patterns::{assembly_findings, deprecated_use, visibility_findings};
use crate::rules::{
    changes_state, makes_call, reentrancy_issue, state_change_after_call, AnalysisRule,
    AssemblyUsageRule, BlockGasLimitRule, DeprecatedPatternsRule, DoSVulnerabilityRule,
    DosWithRevertRule, EventEmissionRule, FloatingPragmaRule, ForceSendEtherRule,
    FrontRunningRule, GasOptimizationRule, IntegerOverflowRule, MissingVisibilityRule,
    ReentrancyRule, SecurityBestPracticesRule, SelfDestructRule, SignatureMalleabilityRule,
    StorageEfficiencyRule, TimestampDependenceRule, TxOriginAuthRule, UncheckedReturnRule,
    WeakRandomnessRule,
};
use crate::scoring::{
    security_metric_of, severity_count, BASE_SCORE, HIGH_PENALTY, LOW_PENALTY, MEDIUM_PENALTY,
};
use crate::text::{contains, lemma_line_holds_no_more, lines};
use vstd::prelude::*;

verus! {

/// The message under which the reentrancy rule reports.
pub open spec fn reentrancy_message() -> Seq<char> {
    "Potential reentrancy vulnerability in withdraw function"@
}

/// The number of issues that carry the message of the reentrancy rule.
pub open spec fn reentrancy_count(issues: Seq<IssueView>) -> nat {
    issues.filter(|issue: IssueView| issue.message == reentrancy_message()).len()
}

/// None of the issues carries the message of the reentrancy rule.
pub open spec fn speaks_of_else(issues: Seq<IssueView>) -> bool {
    forall|k: int| 0 <= k < issues.len() ==> (#[trigger] issues[k]).message != reentrancy_message()
}

/// The message of each of the issues is longer or shorter than the message
/// of the reentrancy rule.
pub open spec fn differs_in_length(issues: Seq<IssueView>) -> bool {
    forall|k: int|
        0 <= k < issues.len() ==> (#[trigger] issues[k]).message.len()
            != reentrancy_message().len()
}

/// What the rules report, the first part of them and the rest of them
/// report together.
pub proof fn lemma_findings_of_joined_rules<R: AnalysisRule>(
    first: Seq<R>,
    rest: Seq<R>,
    code: Seq<char>,
)
    ensures
        all_findings(first + rest, code) == all_findings(first, code) + all_findings(rest, code),
    decreases rest.len(),
{
    if rest.len() == 0 {
        assert(first + rest =~= first);
        assert(all_findings(first, code) + all_findings(rest, code) =~= all_findings(first, code));
    } else {
        lemma_findings_of_joined_rules(first, rest.drop_last(), code);
        assert((first + rest).drop_last() =~= first + rest.drop_last());
        assert((first + rest).last() == rest.last());
        assert(all_findings(first + rest, code) =~= all_findings(first, code) + all_findings(
            rest,
            code,
        ));
    }
}

/// Issues of which none carries the message count for nothing.
pub proof fn lemma_other_issues_count_nothing(issues: Seq<IssueView>)
    requires
        speaks_of_else(issues),
    ensures
        reentrancy_count(issues) == 0,
    decreases issues.len(),
{
    reveal(Seq::filter);
    if issues.len() > 0 {
        assert(issues[issues.len() - 1].message != reentrancy_message());
        assert(speaks_of_else(issues.drop_last())) by {
            assert forall|k: int| 0 <= k < issues.drop_last().len() implies (
            #[trigger] issues.drop_last()[k]).message != reentrancy_message() by {
                assert(issues.drop_last()[k] == issues[k]);
            }
        }
        lemma_other_issues_count_nothing(issues.drop_last());
    }
}

/// Rules that never use the message of the reentrancy rule do not use it
/// together.
pub proof fn lemma_other_rules_speak_of_else<R: AnalysisRule>(rules: Seq<R>, code: Seq<char>)
    requires
        forall|k: int|
            0 <= k < rules.len() ==> speaks_of_else((#[trigger] rules[k]).findings(code)),
    ensures
        speaks_of_else(all_findings(rules, code)),
{
    let all = all_findings(rules, code);
    assert forall|n: int| 0 <= n < all.len() implies (#[trigger] all[n]).message
        != reentrancy_message() by {
        let issue = all[n];
        assert(all.contains(issue));
        lemma_findings_come_from_rules(rules, code, issue);
        let k = choose|k: int|
            0 <= k < rules.len() && (#[trigger] rules[k]).findings(code).contains(issue);
        let found = rules[k].findings(code);
        assert(speaks_of_else(found));
        let m = choose|m: int| 0 <= m < found.len() && found[m] == issue;
        assert(found[m].message != reentrancy_message());
    }
}

/// The basic rules other than the reentrancy rule never use its message.
proof fn lemma_basic_rules_speak_of_else(code: Seq<char>)
    ensures
        speaks_of_else(StorageEfficiencyRule {}.findings(code)),
        speaks_of_else(EventEmissionRule {}.findings(code)),
        speaks_of_else(GasOptimizationRule {}.findings(code)),
        speaks_of_else(SecurityBestPracticesRule {}.findings(code)),
{
    reveal_strlit("Potential reentrancy vulnerability in withdraw function");
    reveal_strlit("Inefficient storage usage");
    reveal_strlit("Missing event emission after state change");
    reveal_strlit("Expensive operation inside loop");
    reveal_strlit("Multiple storage reads that could be cached");
    reveal_strlit("Unchecked external call result");
    reveal_strlit("Function may lack proper access control");
    assert(differs_in_length(StorageEfficiencyRule {}.findings(code)));
    assert(differs_in_length(EventEmissionRule {}.findings(code)));
    assert(differs_in_length(GasOptimizationRule {}.findings(code)));
    assert(differs_in_length(SecurityBestPracticesRule {}.findings(code)));
}

/// The vulnerability rules never use the message of the reentrancy rule.
proof fn lemma_vulnerability_rules_speak_of_else(code: Seq<char>)
    ensures
        speaks_of_else(IntegerOverflowRule {}.findings(code)),
        speaks_of_else(SelfDestructRule {}.findings(code)),
        speaks_of_else(TimestampDependenceRule {}.findings(code)),
        speaks_of_else(FrontRunningRule {}.findings(code)),
        speaks_of_else(UncheckedReturnRule {}.findings(code)),
        speaks_of_else(DoSVulnerabilityRule {}.findings(code)),
{
    reveal_strlit("Potential reentrancy vulnerability in withdraw function");
    reveal_strlit("Potential integer overflow/underflow vulnerability");
    reveal_strlit("Unprotected self-destruct functionality");
    reveal_strlit("Contract logic depends on block timestamp");
    reveal_strlit("Potential front-running vulnerability");
    reveal_strlit("Unchecked return value from low-level call");
    reveal_strlit("Potential unchecked send/transfer");
    reveal_strlit("DoS vulnerability: unbounded loop with external calls");
    assert(differs_in_length(IntegerOverflowRule {}.findings(code)));
    assert(differs_in_length(SelfDestructRule {}.findings(code)));
    assert(differs_in_length(TimestampDependenceRule {}.findings(code)));
    assert(differs_in_length(FrontRunningRule {}.findings(code)));
    assert(differs_in_length(UncheckedReturnRule {}.findings(code)));
    assert(differs_in_length(DoSVulnerabilityRule {}.findings(code)));
}

/// The advanced rules that report under a fixed message never use the
/// message of the reentrancy rule.
proof fn lemma_advanced_rules_speak_of_else(code: Seq<char>)
    ensures
        speaks_of_else(DosWithRevertRule {}.findings(code)),
        speaks_of_else(BlockGasLimitRule {}.findings(code)),
        speaks_of_else(ForceSendEtherRule {}.findings(code)),
        speaks_of_else(SignatureMalleabilityRule {}.findings(code)),
{
    reveal_strlit("Potential reentrancy vulnerability in withdraw function");
    reveal_strlit("Potential DoS with unexpected revert vulnerability");
    reveal_strlit("Potential block gas limit vulnerability with unbounded operation");
    reveal_strlit("Contract uses selfdestruct which can force-send ether");
    reveal_strlit("Potential signature malleability vulnerability");
    assert(differs_in_length(DosWithRevertRule {}.findings(code)));
    assert(differs_in_length(BlockGasLimitRule {}.findings(code)));
    assert(differs_in_length(ForceSendEtherRule {}.findings(code)));
    assert(differs_in_length(SignatureMalleabilityRule {}.findings(code)));
}

/// The pattern rules that report at most once never use the message of the
/// reentrancy rule.
proof fn lemma_pattern_rules_speak_of_else(code: Seq<char>)
    ensures
        speaks_of_else(FloatingPragmaRule {}.findings(code)),
        speaks_of_else(TxOriginAuthRule {}.findings(code)),
{
    reveal_strlit("Potential reentrancy vulnerability in withdraw function");
    reveal_strlit("Floating pragma version");
    reveal_strlit("Use of tx.origin for authorization");
    assert(differs_in_length(FloatingPragmaRule {}.findings(code)));
    assert(differs_in_length(TxOriginAuthRule {}.findings(code)));
}

/// A report of which each part speaks of something else does so as a whole.
proof fn lemma_joined_reports_speak_of_else(first: Seq<IssueView>, second: Seq<IssueView>)
    requires
        speaks_of_else(first),
        speaks_of_else(second),
    ensures
        speaks_of_else(first + second),
{
    let both = first + second;
    assert forall|k: int| 0 <= k < both.len() implies (#[trigger] both[k]).message
        != reentrancy_message() by {
        if k < first.len() {
            assert(both[k] == first[k]);
        } else {
            assert(both[k] == second[k - first.len()]);
        }
    }
}

/// The use of a deprecated pattern is never reported under the message of
/// the reentrancy rule.
proof fn lemma_deprecated_use_speaks_of_else(code: Seq<char>, token: Seq<char>)
    ensures
        speaks_of_else(deprecated_use(code, token)),
{
    reveal_strlit("Potential reentrancy vulnerability in withdraw function");
    reveal_strlit("Use of deprecated function or pattern: ");
    let message = "Use of deprecated function or pattern: "@ + token;
    assert(message[0] == 'U');
}

/// The deprecated patterns rule never uses the message of the reentrancy
/// rule.
proof fn lemma_deprecated_patterns_speak_of_else(code: Seq<char>)
    ensures
        speaks_of_else(DeprecatedPatternsRule {}.findings(code)),
{
    let a = deprecated_use(code, "suicide"@);
    let b = deprecated_use(code, "block.blockhash"@);
    let c = deprecated_use(code, "sha3"@);
    let d = deprecated_use(code, "throw"@);
    let e = deprecated_use(code, "msg.gas"@);
    lemma_deprecated_use_speaks_of_else(code, "suicide"@);
    lemma_deprecated_use_speaks_of_else(code, "block.blockhash"@);
    lemma_deprecated_use_speaks_of_else(code, "sha3"@);
    lemma_deprecated_use_speaks_of_else(code, "throw"@);
    lemma_deprecated_use_speaks_of_else(code, "msg.gas"@);
    lemma_joined_reports_speak_of_else(a, b);
    lemma_joined_reports_speak_of_else(a + b, c);
    lemma_joined_reports_speak_of_else(a + b + c, d);
    lemma_joined_reports_speak_of_else(a + b + c + d, e);
}

/// The use of a weak source of randomness is never reported under the
/// message of the reentrancy rule.
proof fn lemma_weak_source_use_speaks_of_else(code: Seq<char>, token: Seq<char>)
    ensures
        speaks_of_else(weak_source_use(code, token)),
{
    reveal_strlit("Potential reentrancy vulnerability in withdraw function");
    reveal_strlit("Weak randomness using ");
    let message = "Weak randomness using "@ + token;
    assert(message[0] == 'W');
}

/// The weak randomness rule never uses the message of the reentrancy rule.
proof fn lemma_weak_randomness_speaks_of_else(code: Seq<char>)
    ensures
        speaks_of_else(WeakRandomnessRule {}.findings(code)),
{
    let a = weak_source_use(code, "block.timestamp"@);
    let b = weak_source_use(code, "now"@);
    let c = weak_source_use(code, "block.number"@);
    let d = weak_source_use(code, "blockhash"@);
    let e = weak_source_use(code, "block.difficulty"@);
    let f = weak_source_use(code, "block.coinbase"@);
    let g = weak_source_use(code, "block.gaslimit"@);
    let h = weak_source_use(code, "msg.gas"@);
    let i = weak_source_use(code, "tx.gasprice"@);
    lemma_weak_source_use_speaks_of_else(code, "block.timestamp"@);
    lemma_weak_source_use_speaks_of_else(code, "now"@);
    lemma_weak_source_use_speaks_of_else(code, "block.number"@);
    lemma_weak_source_use_speaks_of_else(code, "blockhash"@);
    lemma_weak_source_use_speaks_of_else(code, "block.difficulty"@);
    lemma_weak_source_use_speaks_of_else(code, "block.coinbase"@);
    lemma_weak_source_use_speaks_of_else(code, "block.gaslimit"@);
    lemma_weak_source_use_speaks_of_else(code, "msg.gas"@);
    lemma_weak_source_use_speaks_of_else(code, "tx.gasprice"@);
    lemma_joined_reports_speak_of_else(a, b);
    lemma_joined_reports_speak_of_else(a + b, c);
    lemma_joined_reports_speak_of_else(a + b + c, d);
    lemma_joined_reports_speak_of_else(a + b + c + d, e);
    lemma_joined_reports_speak_of_else(a + b + c + d + e, f);
    lemma_joined_reports_speak_of_else(a + b + c + d + e + f, g);
    lemma_joined_reports_speak_of_else(a + b + c + d + e + f + g, h);
    lemma_joined_reports_speak_of_else(a + b + c + d + e + f + g + h, i);
}

/// Missing visibilities are never reported under the message of the
/// reentrancy rule.
proof fn lemma_visibility_findings_speak_of_else(lines: Seq<Seq<char>>, count: int)
    ensures
        speaks_of_else(visibility_findings(lines, count)),
    decreases count,
{
    if count > 0 {
        reveal_strlit("Potential reentrancy vulnerability in withdraw function");
        reveal_strlit("Function missing explicit visibility specifier");
        lemma_visibility_findings_speak_of_else(lines, count - 1);
        let before = visibility_findings(lines, count - 1);
        let all = visibility_findings(lines, count);
        assert forall|k: int| 0 <= k < all.len() implies (#[trigger] all[k]).message
            != reentrancy_message() by {
            if k < before.len() {
                assert(all[k] == before[k]);
            } else {
                assert(all[k].message.len() != reentrancy_message().len());
            }
        }
    }
}

/// Assembly blocks are never reported under the message of the reentrancy
/// rule.
proof fn lemma_assembly_findings_speak_of_else(lines: Seq<Seq<char>>, count: int)
    ensures
        speaks_of_else(assembly_findings(lines, count)),
    decreases count,
{
    if count > 0 {
        reveal_strlit("Potential reentrancy vulnerability in withdraw function");
        reveal_strlit("Assembly block without documentation");
        lemma_assembly_findings_speak_of_else(lines, count - 1);
        let before = assembly_findings(lines, count - 1);
        let all = assembly_findings(lines, count);
        assert forall|k: int| 0 <= k < all.len() implies (#[trigger] all[k]).message
            != reentrancy_message() by {
            if k < before.len() {
                assert(all[k] == before[k]);
            } else {
                assert(all[k].message.len() != reentrancy_message().len());
            }
        }
    }
}

/// The default rules that come after the reentrancy rule.
pub open spec fn later_default_rules() -> Seq<Rule> {
    default_rules().skip(1)
}

/// No default rule but the reentrancy rule uses its message.
pub proof fn lemma_later_default_rules_speak_of_else(code: Seq<char>)
    ensures
        speaks_of_else(all_findings(later_default_rules(), code)),
{
    let later = later_default_rules();
    lemma_basic_rules_speak_of_else(code);
    lemma_vulnerability_rules_speak_of_else(code);
    lemma_pattern_rules_speak_of_else(code);
    lemma_advanced_rules_speak_of_else(code);
    lemma_deprecated_patterns_speak_of_else(code);
    lemma_weak_randomness_speaks_of_else(code);
    lemma_visibility_findings_speak_of_else(lines(code), lines(code).len() as int);
    lemma_assembly_findings_speak_of_else(lines(code), lines(code).len() as int);
    assert(later[0] == Rule::StorageEfficiency(StorageEfficiencyRule {}));
    assert(later[1] == Rule::EventEmission(EventEmissionRule {}));
    assert(later[2] == Rule::GasOptimization(GasOptimizationRule {}));
    assert(later[3] == Rule::SecurityBestPractices(SecurityBestPracticesRule {}));
    assert(later[4] == Rule::IntegerOverflow(IntegerOverflowRule {}));
    assert(later[5] == Rule::SelfDestruct(SelfDestructRule {}));
    assert(later[6] == Rule::TimestampDependence(TimestampDependenceRule {}));
    assert(later[7] == Rule::FrontRunning(FrontRunningRule {}));
    assert(later[8] == Rule::UncheckedReturn(UncheckedReturnRule {}));
    assert(later[9] == Rule::DoSVulnerability(DoSVulnerabilityRule {}));
    assert(later[10] == Rule::MissingVisibility(MissingVisibilityRule {}));
    assert(later[11] == Rule::FloatingPragma(FloatingPragmaRule {}));
    assert(later[12] == Rule::DeprecatedPatterns(DeprecatedPatternsRule {}));
    assert(later[13] == Rule::TxOriginAuth(TxOriginAuthRule {}));
    assert(later[14] == Rule::AssemblyUsage(AssemblyUsageRule {}));
    assert(later[15] == Rule::DosWithRevert(DosWithRevertRule {}));
    assert(later[16] == Rule::BlockGasLimit(BlockGasLimitRule {}));
    assert(later[17] == Rule::ForceSendEther(ForceSendEtherRule {}));
    assert(later[18] == Rule::SignatureMalleability(SignatureMalleabilityRule {}));
    assert(later[19] == Rule::WeakRandomness(WeakRandomnessRule {}));
    assert forall|k: int| 0 <= k < later.len() implies speaks_of_else(
        (#[trigger] later[k]).findings(code),
    ) by {}
    lemma_other_rules_speak_of_else(later, code);
}

/// One issue of a severity among the issues makes their count of that
/// severity at least one.
pub proof fn lemma_first_issue_is_counted(first: IssueView, rest: Seq<IssueView>)
    ensures
        severity_count(seq![first] + rest, first.severity) >= 1,
{
    let counts = |issue: IssueView| issue.severity == first.severity;
    Seq::filter_distributes_over_add(seq![first], rest, counts);
    reveal(Seq::filter);
    assert(seq![first].drop_last() =~= Seq::<IssueView>::empty());
    assert(seq![first].filter(counts).len() == 1);
}

/// Where a line that changes state comes after a line that makes a call,
/// the reentrancy rule reports its issue, and nothing else.
pub proof fn lemma_reentrancy_rule_fires(code: Seq<char>)
    requires
        state_change_after_call(lines(code)),
    ensures
        ((ReentrancyRule {}).findings(code) == seq![reentrancy_issue(code)]),
{
    let all = lines(code);
    let (i, j) = choose|i: int, j: int|
        0 <= i < j < all.len() && makes_call(#[trigger] all[i]) && changes_state(
            #[trigger] all[j],
        );
    if contains(all[i], "transfer"@) {
        lemma_line_holds_no_more(code, i, "transfer"@);
    } else {
        lemma_line_holds_no_more(code, i, ".call"@);
    }
    assert(makes_call(code));
}

/// What the default rules report is what the reentrancy rule reports,
/// followed by what the rules after it report.
pub proof fn lemma_default_findings_start_with_reentrancy(code: Seq<char>)
    ensures
        (all_findings(default_rules(), code) == (ReentrancyRule {}).findings(code) + all_findings(
            later_default_rules(),
            code,
        )),
{
    let head = seq![default_rules()[0]];
    let later = later_default_rules();
    assert(default_rules() =~= head + later);
    lemma_findings_of_joined_rules(head, later, code);
    assert(head.drop_last() =~= Seq::<Rule>::empty());
    assert(head.last() == Rule::Reentrancy(ReentrancyRule {}));
    assert(all_findings(head.drop_last(), code) =~= Seq::<IssueView>::empty());
    assert(all_findings(head, code) =~= ReentrancyRule {}.findings(code));
}

/// Among an issue with the message of the reentrancy rule and issues
/// without it, one issue carries the message.
pub proof fn lemma_one_issue_is_named(first: IssueView, rest: Seq<IssueView>)
    requires
        first.message == reentrancy_message(),
        speaks_of_else(rest),
    ensures
        reentrancy_count(seq![first] + rest) == 1,
{
    let named = |issue: IssueView| issue.message == reentrancy_message();
    Seq::filter_distributes_over_add(seq![first], rest, named);
    lemma_other_issues_count_nothing(rest);
    reveal(Seq::filter);
    assert(seq![first].drop_last() =~= Seq::<IssueView>::empty());
    assert(seq![first].filter(named).len() == 1);
}

/// Issues of which one is of high severity leave a security metric of 85
/// at most.
pub proof fn lemma_high_issue_lowers_security(issues: Seq<IssueView>)
    requires
        severity_count(issues, Severity::High) >= 1,
    ensures
        security_metric_of(issues) <= BASE_SCORE - HIGH_PENALTY,
{
    let high = severity_count(issues, Severity::High);
    let medium = severity_count(issues, Severity::Medium);
    let low = severity_count(issues, Severity::Low);
    assert(HIGH_PENALTY * high + MEDIUM_PENALTY * medium + LOW_PENALTY * low >= HIGH_PENALTY)
        by (nonlinear_arith)
        requires
            high >= 1,
            medium >= 0,
            low >= 0,
    ;
}

/// In a source in which a line that changes state comes after a line that
/// makes a call, the default rules report the issue of reentrancy first and
/// under its message only once, and the security metric is 85 at most,
/// whatever the weights.
pub proof fn lemma_state_change_after_call_is_reentrancy(code: Seq<char>, weights: Weights)
    requires
        state_change_after_call(lines(code)),
    ensures
        ({
            let results = analysis_of(default_rules(), weights, code);
            &&& results.issues.len() >= 1
            &&& results.issues[0] == reentrancy_issue(code)
            &&& results.issues[0].severity == Severity::High
            &&& reentrancy_count(results.issues) == 1
            &&& results.metrics.security <= BASE_SCORE - HIGH_PENALTY
        }),
{
    let first = reentrancy_issue(code);
    let rest = all_findings(later_default_rules(), code);
    let issues = all_findings(default_rules(), code);
    lemma_reentrancy_rule_fires(code);
    lemma_default_findings_start_with_reentrancy(code);
    assert(issues == seq![first] + rest);
    lemma_later_default_rules_speak_of_else(code);
    lemma_one_issue_is_named(first, rest);
    lemma_first_issue_is_counted(first, rest);
    lemma_high_issue_lowers_security(issues);
}

} // verus!
