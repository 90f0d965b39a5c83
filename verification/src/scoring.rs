//! From the issues of an analysis to its four metrics and its overall score.

use crate::models::{
    issue_views, Category, Issue, IssueView, Metrics, Severity, Weights, WEIGHT_UNIT,
};
use crate::rules::AnalysisRule;
use vstd::prelude::*;

verus! {

/// What an issue of high severity takes from the security metric.
pub const HIGH_PENALTY: usize = 15;

/// What an issue of medium severity takes from the security metric.
pub const MEDIUM_PENALTY: usize = 7;

/// What an issue of low severity takes from the security metric.
pub const LOW_PENALTY: usize = 2;

/// What each counted issue takes from the performance metric.
pub const PERFORMANCE_COST: usize = 10;

/// What each counted issue takes from the gas efficiency metric.
pub const GAS_COST: usize = 10;

/// What each counted issue takes from the code quality metric.
pub const QUALITY_COST: usize = 5;

/// The most that issues can take from a metric.
pub const DEDUCTION_CAP: usize = 30;

/// What each issue of high severity takes from the overall score.
pub const CRITICAL_PENALTY: usize = 5;

/// The best value of a metric.
pub const BASE_SCORE: u8 = 100;

/// The number of issues of the given severity.
pub open spec fn severity_count(issues: Seq<IssueView>, severity: Severity) -> nat {
    issues.filter(|issue: IssueView| issue.severity == severity).len()
}

/// The number of issues, each counted as often as it stands in `issues`,
/// that are also among `found`.
pub open spec fn rediscovered(issues: Seq<IssueView>, found: Seq<IssueView>) -> nat {
    issues.filter(|issue: IssueView| found.contains(issue)).len()
}

/// The count behind the metric of a category: for each rule of the
/// category, the number of issues that the rule alone reports again on the
/// same source. An issue that two rules of one category report counts twice.
pub open spec fn category_count<R: AnalysisRule>(
    rules: Seq<R>,
    category: Category,
    issues: Seq<IssueView>,
    code: Seq<char>,
) -> nat
    decreases rules.len(),
{
    if rules.len() == 0 {
        0
    } else {
        category_count(rules.drop_last(), category, issues, code) + if rules.last().category_of()
            == category {
            rediscovered(issues, rules.last().findings(code))
        } else {
            0
        }
    }
}

/// A deduction, held to the cap.
pub open spec fn capped(points: int) -> int {
    if points < DEDUCTION_CAP {
        points
    } else {
        DEDUCTION_CAP as int
    }
}

/// The metric of a category in which `count` issues cost `cost` each.
pub open spec fn counted_metric(count: nat, cost: int) -> int {
    BASE_SCORE - capped(cost * count)
}

/// The security metric for the given numbers of issues of each severity,
/// whatever rule reported them.
pub open spec fn security_metric(high: nat, medium: nat, low: nat) -> int {
    BASE_SCORE - capped(HIGH_PENALTY * high + MEDIUM_PENALTY * medium + LOW_PENALTY * low)
}

/// The security metric of a list of issues.
pub open spec fn security_metric_of(issues: Seq<IssueView>) -> int {
    security_metric(
        severity_count(issues, Severity::High),
        severity_count(issues, Severity::Medium),
        severity_count(issues, Severity::Low),
    )
}

/// The four metrics of the issues `issues` that the rules `rules` gave on `code`.
pub open spec fn metrics_of<R: AnalysisRule>(
    rules: Seq<R>,
    issues: Seq<IssueView>,
    code: Seq<char>,
) -> Metrics {
    Metrics {
        performance: counted_metric(
            category_count(rules, Category::Performance, issues, code),
            PERFORMANCE_COST as int,
        ) as u8,
        security: security_metric_of(issues) as u8,
        gas_efficiency: counted_metric(
            category_count(rules, Category::GasEfficiency, issues, code),
            GAS_COST as int,
        ) as u8,
        code_quality: counted_metric(
            category_count(rules, Category::CodeQuality, issues, code),
            QUALITY_COST as int,
        ) as u8,
    }
}

/// The sum of the metrics, each times its weight, in millionths.
pub open spec fn weighted_total(metrics: Metrics, weights: Weights) -> int {
    metrics.security * weights.security + metrics.performance * weights.performance
        + metrics.gas_efficiency * weights.gas_efficiency + metrics.code_quality
        * weights.code_quality
}

/// The weighted sum as a whole number: fractions are cut off, a negative
/// sum counts as 0, and a sum over 255 as 255.
pub open spec fn weighted_score(metrics: Metrics, weights: Weights) -> int {
    let total = weighted_total(metrics, weights);
    if total <= 0 {
        0
    } else if total / (WEIGHT_UNIT as int) >= u8::MAX {
        u8::MAX as int
    } else {
        total / (WEIGHT_UNIT as int)
    }
}

/// The overall score: the weighted score less the penalty for each issue
/// of high severity, and never under 0.
pub open spec fn score_of(metrics: Metrics, weights: Weights, high: nat) -> int {
    let score = weighted_score(metrics, weights) - CRITICAL_PENALTY * high;
    if score < 0 {
        0
    } else {
        score
    }
}

/// The weights are none of them negative and add up to no more than 1.
pub open spec fn normalized(weights: Weights) -> bool {
    &&& weights.security >= 0
    &&& weights.performance >= 0
    &&& weights.gas_efficiency >= 0
    &&& weights.code_quality >= 0
    &&& weights.security + weights.performance + weights.gas_efficiency + weights.code_quality
        <= WEIGHT_UNIT
}

/// Every metric lies between 0 and 100.
pub open spec fn in_range(metrics: Metrics) -> bool {
    &&& metrics.performance <= BASE_SCORE
    &&& metrics.security <= BASE_SCORE
    &&& metrics.gas_efficiency <= BASE_SCORE
    &&& metrics.code_quality <= BASE_SCORE
}

/// The count stands for the number: it is the number itself, or the
/// largest `usize` where the number is larger than that.
pub open spec fn stands_for(count: usize, number: nat) -> bool {
    count == number || (count == usize::MAX && number > usize::MAX)
}

/// How severe a severity is: the higher, the more severe.
pub open spec fn severity_rank(severity: Severity) -> int {
    match severity {
        Severity::Low => 0,
        Severity::Medium => 1,
        Severity::High => 2,
    }
}

/// The issue with another severity.
pub open spec fn with_severity(issue: IssueView, severity: Severity) -> IssueView {
    IssueView {
        severity,
        message: issue.message,
        line: issue.line,
        recommendation: issue.recommendation,
    }
}

/// One for a true statement, zero for a false one.
pub open spec fn one_if(holds: bool) -> int {
    if holds {
        1
    } else {
        0
    }
}

/// Whether `issue` holds the same values as one of `found`.
pub fn is_among(issue: &Issue, found: &[Issue]) -> (among: bool)
    ensures
        among == issue_views(found@).contains(issue@),
{
    let mut index: usize = 0;
    while index < found.len()
        invariant
            index <= found@.len(),
            forall|j: int| 0 <= j < index ==> issue_views(found@)[j] != issue@,
        decreases found@.len() - index,
    {
        if *issue == found[index] {
            assert(issue_views(found@)[index as int] == issue@);
            return true;
        }
        index += 1;
    }
    false
}

/// The number of issues of the given severity.
pub fn count_severity(issues: &[Issue], severity: Severity) -> (count: usize)
    ensures
        count == severity_count(issue_views(issues@), severity),
{
    let mut count: usize = 0;
    let mut index: usize = 0;
    while index < issues.len()
        invariant
            index <= issues@.len(),
            count <= index,
            count == severity_count(issue_views(issues@).take(index as int), severity),
        decreases issues@.len() - index,
    {
        proof {
            let views = issue_views(issues@);
            lemma_severity_count_push(views.take(index as int), views[index as int], severity);
            assert(views.take(index + 1) =~= views.take(index as int).push(views[index as int]));
        }
        if issues[index].severity == severity {
            count += 1;
        }
        index += 1;
    }
    assert(issue_views(issues@).take(issues@.len() as int) =~= issue_views(issues@));
    count
}

/// The number of issues, each counted as often as it stands in `issues`,
/// that are also among `found`.
pub fn count_rediscovered(issues: &[Issue], found: &[Issue]) -> (count: usize)
    ensures
        count == rediscovered(issue_views(issues@), issue_views(found@)),
{
    let mut count: usize = 0;
    let mut index: usize = 0;
    while index < issues.len()
        invariant
            index <= issues@.len(),
            count <= index,
            count == rediscovered(issue_views(issues@).take(index as int), issue_views(found@)),
        decreases issues@.len() - index,
    {
        proof {
            let views = issue_views(issues@);
            lemma_rediscovered_push(
                views.take(index as int),
                views[index as int],
                issue_views(found@),
            );
            assert(views.take(index + 1) =~= views.take(index as int).push(views[index as int]));
        }
        if is_among(&issues[index], found) {
            count += 1;
        }
        index += 1;
    }
    assert(issue_views(issues@).take(issues@.len() as int) =~= issue_views(issues@));
    count
}

/// What `count` issues that cost `cost` each take from a metric.
pub fn deduction(count: usize, cost: usize) -> (points: usize)
    ensures
        points == capped(cost * count),
        points <= DEDUCTION_CAP,
{
    if count == 0 || cost == 0 {
        assert(cost * count == 0) by (nonlinear_arith)
            requires
                count == 0 || cost == 0,
        ;
        0
    } else if count >= DEDUCTION_CAP || cost >= DEDUCTION_CAP {
        assert(cost * count >= DEDUCTION_CAP) by (nonlinear_arith)
            requires
                count >= 1,
                cost >= 1,
                count >= DEDUCTION_CAP || cost >= DEDUCTION_CAP,
        ;
        DEDUCTION_CAP
    } else {
        assert(0 <= cost * count <= DEDUCTION_CAP * DEDUCTION_CAP) by (nonlinear_arith)
            requires
                0 <= count < DEDUCTION_CAP,
                0 <= cost < DEDUCTION_CAP,
        ;
        let points = cost * count;
        if points < DEDUCTION_CAP {
            points
        } else {
            DEDUCTION_CAP
        }
    }
}

/// The metric of a category in which `count` issues cost `cost` each.
pub fn counted_score(count: usize, cost: usize) -> (metric: u8)
    ensures
        metric == counted_metric(count as nat, cost as int),
        BASE_SCORE - DEDUCTION_CAP <= metric <= BASE_SCORE,
{
    BASE_SCORE - deduction(count, cost) as u8
}

/// The security metric for the given numbers of issues of each severity.
pub fn security_score(high: usize, medium: usize, low: usize) -> (metric: u8)
    ensures
        metric == security_metric(high as nat, medium as nat, low as nat),
        BASE_SCORE - DEDUCTION_CAP <= metric <= BASE_SCORE,
{
    let points = deduction(high, HIGH_PENALTY) + deduction(medium, MEDIUM_PENALTY) + deduction(
        low,
        LOW_PENALTY,
    );
    assert(HIGH_PENALTY * high >= 0 && MEDIUM_PENALTY * medium >= 0 && LOW_PENALTY * low >= 0)
        by (nonlinear_arith);
    if points < DEDUCTION_CAP {
        BASE_SCORE - points as u8
    } else {
        BASE_SCORE - DEDUCTION_CAP as u8
    }
}

/// A metric times its weight, in millionths.
fn weighted_part(metric: u8, weight: i32) -> (part: i64)
    ensures
        part == metric * weight,
        -0x80_0000_0000 <= part <= 0x80_0000_0000,
{
    assert(-0x80_0000_0000 <= metric * weight <= 0x80_0000_0000) by (nonlinear_arith)
        requires
            0 <= metric <= 0xff,
            -0x8000_0000 <= weight <= 0x8000_0000,
    ;
    metric as i64 * weight as i64
}

/// The overall score of the metrics under the weights, with `high` issues
/// of high severity.
pub fn overall_score(metrics: &Metrics, weights: &Weights, high: usize) -> (score: u8)
    ensures
        score == score_of(*metrics, *weights, high as nat),
{
    let total = weighted_part(metrics.security, weights.security) + weighted_part(
        metrics.performance,
        weights.performance,
    ) + weighted_part(metrics.gas_efficiency, weights.gas_efficiency) + weighted_part(
        metrics.code_quality,
        weights.code_quality,
    );
    let weighted: u8 = if total <= 0 {
        0
    } else {
        let whole = total / (WEIGHT_UNIT as i64);
        if whole >= u8::MAX as i64 {
            u8::MAX
        } else {
            whole as u8
        }
    };
    // 52 issues of high severity outweigh the highest weighted score.
    if high >= 52 {
        0
    } else {
        let penalty = (CRITICAL_PENALTY * high) as u8;
        if penalty >= weighted {
            0
        } else {
            weighted - penalty
        }
    }
}

/// Weights that are normalized keep the overall score of metrics between
/// 0 and 100 within that range, however many issues there are.
pub proof fn lemma_score_bounded(metrics: Metrics, weights: Weights, high: nat)
    requires
        in_range(metrics),
        normalized(weights),
    ensures
        0 <= score_of(metrics, weights, high) <= BASE_SCORE,
{
    let unit = WEIGHT_UNIT as int;
    let total = weighted_total(metrics, weights);
    assert(metrics.security * weights.security <= BASE_SCORE * weights.security)
        by (nonlinear_arith)
        requires
            metrics.security <= BASE_SCORE,
            weights.security >= 0,
    ;
    assert(metrics.performance * weights.performance <= BASE_SCORE * weights.performance)
        by (nonlinear_arith)
        requires
            metrics.performance <= BASE_SCORE,
            weights.performance >= 0,
    ;
    assert(metrics.gas_efficiency * weights.gas_efficiency <= BASE_SCORE
        * weights.gas_efficiency) by (nonlinear_arith)
        requires
            metrics.gas_efficiency <= BASE_SCORE,
            weights.gas_efficiency >= 0,
    ;
    assert(metrics.code_quality * weights.code_quality <= BASE_SCORE * weights.code_quality)
        by (nonlinear_arith)
        requires
            metrics.code_quality <= BASE_SCORE,
            weights.code_quality >= 0,
    ;
    assert(total <= BASE_SCORE * unit);
    assert(total / unit <= BASE_SCORE) by (nonlinear_arith)
        requires
            total <= BASE_SCORE * unit,
            unit > 0,
    ;
}

/// The overall score is at most 100 exactly when there are 31 issues of
/// high severity or more, or the weighted sum stays under 101 plus the
/// penalty for the issues of high severity.
pub proof fn lemma_score_within_hundred(metrics: Metrics, weights: Weights, high: nat)
    ensures
        score_of(metrics, weights, high) <= BASE_SCORE <==> high >= 31 || weighted_total(
            metrics,
            weights,
        ) < (BASE_SCORE + 1 + CRITICAL_PENALTY * high) * WEIGHT_UNIT,
{
    let unit = WEIGHT_UNIT as int;
    let total = weighted_total(metrics, weights);
    let bound = BASE_SCORE + 1 + CRITICAL_PENALTY * high;
    assert(total / unit < bound <==> total < bound * unit) by (nonlinear_arith)
        requires
            unit > 0,
    ;
}

/// The sum of the metrics under one set of weights differs from the sum
/// under another by the metrics times the differences of the weights.
pub proof fn lemma_weight_change(metrics: Metrics, first: Weights, second: Weights)
    ensures
        weighted_total(metrics, first) - weighted_total(metrics, second) == metrics.security * (
        first.security - second.security) + metrics.performance * (first.performance
            - second.performance) + metrics.gas_efficiency * (first.gas_efficiency
            - second.gas_efficiency) + metrics.code_quality * (first.code_quality
            - second.code_quality),
{
    assert(metrics.security * first.security - metrics.security * second.security
        == metrics.security * (first.security - second.security)) by (nonlinear_arith);
    assert(metrics.performance * first.performance - metrics.performance * second.performance
        == metrics.performance * (first.performance - second.performance)) by (nonlinear_arith);
    assert(metrics.gas_efficiency * first.gas_efficiency - metrics.gas_efficiency
        * second.gas_efficiency == metrics.gas_efficiency * (first.gas_efficiency
        - second.gas_efficiency)) by (nonlinear_arith);
    assert(metrics.code_quality * first.code_quality - metrics.code_quality * second.code_quality
        == metrics.code_quality * (first.code_quality - second.code_quality))
        by (nonlinear_arith);
}

/// Raising the severity of an issue never raises the security metric.
pub proof fn lemma_escalation_never_raises_security(
    issues: Seq<IssueView>,
    at: int,
    severity: Severity,
)
    requires
        0 <= at < issues.len(),
        severity_rank(severity) >= severity_rank(issues[at].severity),
    ensures
        security_metric_of(issues.update(at, with_severity(issues[at], severity)))
            <= security_metric_of(issues),
{
    let raised = with_severity(issues[at], severity);
    lemma_severity_count_update(issues, at, raised, Severity::High);
    lemma_severity_count_update(issues, at, raised, Severity::Medium);
    lemma_severity_count_update(issues, at, raised, Severity::Low);
}

/// An issue put in the place of another takes the other out of the count
/// of its severity and comes into the count of its own.
pub proof fn lemma_severity_count_update(
    issues: Seq<IssueView>,
    at: int,
    issue: IssueView,
    severity: Severity,
)
    requires
        0 <= at < issues.len(),
    ensures
        severity_count(issues.update(at, issue), severity) == severity_count(issues, severity)
            - one_if(issues[at].severity == severity) + one_if(issue.severity == severity),
    decreases issues.len(),
{
    reveal(Seq::filter);
    let changed = issues.update(at, issue);
    if at == issues.len() - 1 {
        assert(changed.drop_last() =~= issues.drop_last());
    } else {
        assert(changed.drop_last() =~= issues.drop_last().update(at, issue));
        lemma_severity_count_update(issues.drop_last(), at, issue, severity);
    }
}

/// One more issue adds one to the count of its severity and nothing to the
/// counts of the others.
pub proof fn lemma_severity_count_push(
    issues: Seq<IssueView>,
    issue: IssueView,
    severity: Severity,
)
    ensures
        severity_count(issues.push(issue), severity) == severity_count(issues, severity)
            + one_if(issue.severity == severity),
{
    reveal(Seq::filter);
    assert(issues.push(issue).drop_last() =~= issues);
}

/// One more issue adds one to the number of rediscovered issues if it is
/// among those found, and nothing otherwise.
pub proof fn lemma_rediscovered_push(
    issues: Seq<IssueView>,
    issue: IssueView,
    found: Seq<IssueView>,
)
    ensures
        rediscovered(issues.push(issue), found) == rediscovered(issues, found) + one_if(
            found.contains(issue),
        ),
{
    reveal(Seq::filter);
    assert(issues.push(issue).drop_last() =~= issues);
}

/// A count that stands for a number leads to the metric of the number.
pub proof fn lemma_metric_of_held_count(count: usize, number: nat, cost: int)
    requires
        stands_for(count, number),
        cost >= 1,
    ensures
        counted_metric(count as nat, cost) == counted_metric(number, cost),
{
    if count != number {
        assert(cost * number >= DEDUCTION_CAP && cost * count >= DEDUCTION_CAP)
            by (nonlinear_arith)
            requires
                number >= DEDUCTION_CAP,
                count >= DEDUCTION_CAP,
                cost >= 1,
        ;
    }
}

} // verus!
