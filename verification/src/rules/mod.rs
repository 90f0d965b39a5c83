//! The detection rules and what each of them reports.

pub mod advanced_vulnerabilities;
pub mod catalog;
pub mod contract_patterns;
pub mod contract_vulnerabilities;
pub mod gas_analysis;
pub mod security_analysis;

pub use advanced_vulnerabilities::{
    BlockGasLimitRule, DosWithRevertRule, ForceSendEtherRule, SignatureMalleabilityRule,
    WeakRandomnessRule,
};
pub use catalog::{get_default_rules, Rule};
pub use contract_patterns::{
    AssemblyUsageRule, DeprecatedPatternsRule, FloatingPragmaRule, MissingVisibilityRule,
    TxOriginAuthRule,
};
pub use contract_vulnerabilities::{
    DoSVulnerabilityRule, FrontRunningRule, IntegerOverflowRule, SelfDestructRule,
    TimestampDependenceRule, UncheckedReturnRule,
};
pub use gas_analysis::GasAnalysisRule;
pub use security_analysis::SecurityAnalysisRule;

use crate::models::{issue_views, located_issue, Category, Issue, IssueView, Severity};
use crate::text::{
    contains, find_line, is_first_hit, line_number, line_views, lines, mentions, some_line_hits,
    Source,
};
use vstd::prelude::*;
use vstd::string::StringExecFns;

verus! {

/// What every detection rule offers. A rule reads nothing but the source
/// text it is given, so it reports the same on the same text.
pub trait AnalysisRule {
    /// The issues that the rule reports on `code`, in order.
    spec fn findings(&self, code: Seq<char>) -> Seq<IssueView>;

    /// The category that the rule counts towards.
    spec fn category_of(&self) -> Category;

    /// The identifier by which a configuration selects the rule.
    spec fn identifier(&self) -> Seq<char>;

    /// What the rule looks for, in words.
    spec fn summary(&self) -> Seq<char>;

    /// Analyze the code and return any issues found
    fn analyze(&self, code: &str) -> (issues: Vec<Issue>)
        ensures
            issue_views(issues@) == self.findings(code@),
    ;

    /// Get the category this rule belongs to
    fn category(&self) -> (category: Category)
        ensures
            category == self.category_of(),
    ;

    /// Get a unique identifier for this rule
    fn id(&self) -> (id: &'static str)
        ensures
            id@ == self.identifier(),
    ;

    /// Get a human-readable description of this rule
    fn description(&self) -> (text: &'static str)
        ensures
            text@ == self.summary(),
    ;
}

/// Adds an issue at the end of a report.
pub fn report(issues: &mut Vec<Issue>, issue: Issue)
    ensures
        issue_views(final(issues)@) == issue_views(old(issues)@).push(issue@),
{
    issues.push(issue);
    assert(issue_views(issues@) =~= issue_views(old(issues)@).push(issue@));
}

/// An empty report.
pub fn no_issues() -> (issues: Vec<Issue>)
    ensures
        issues@ == Seq::<Issue>::empty(),
        issue_views(issues@) == Seq::<IssueView>::empty(),
{
    let issues: Vec<Issue> = Vec::new();
    assert(issue_views(issues@) =~= Seq::<IssueView>::empty());
    issues
}

/// What one check adds to a report: its issue when the check fires, and
/// nothing when it does not.
pub open spec fn issue_if(fires: bool, issue: IssueView) -> Seq<IssueView> {
    if fires {
        seq![issue]
    } else {
        Seq::empty()
    }
}

/// The text made of `head`, `middle` and `tail`, in this order.
pub fn joined(head: &str, middle: &str, tail: &str) -> (text: String)
    ensures
        text@ == head@ + middle@ + tail@,
{
    let mut text = head.to_string();
    text.append(middle);
    text.append(tail);
    text
}

/// The text made of `head` and `tail`, in this order.
pub fn followed_by(head: &str, tail: &str) -> (text: String)
    ensures
        text@ == head@ + tail@,
{
    let mut text = head.to_string();
    text.append(tail);
    text
}

/// The text makes an external call.
pub open spec fn makes_call(text: Seq<char>) -> bool {
    contains(text, "transfer"@) || contains(text, ".call"@)
}

/// The text assigns, or touches an array or the balances.
pub open spec fn changes_state(text: Seq<char>) -> bool {
    contains(text, "="@) || contains(text, "[]"@) || contains(text, "balances"@)
}

/// Some line that changes state comes after a line that makes a call.
pub open spec fn state_change_after_call(lines: Seq<Seq<char>>) -> bool {
    exists|i: int, j: int|
        0 <= i < j < lines.len() && makes_call(#[trigger] lines[i]) && changes_state(
            #[trigger] lines[j],
        )
}

/// Whether the text makes an external call.
fn is_call(text: &[char]) -> (hit: bool)
    ensures
        hit == makes_call(text@),
{
    mentions(text, "transfer") || mentions(text, ".call")
}

/// Whether the text assigns, or touches an array or the balances.
fn is_state_change(text: &[char]) -> (hit: bool)
    ensures
        hit == changes_state(text@),
{
    mentions(text, "=") || mentions(text, "[]") || mentions(text, "balances")
}

/// The issue of reentrancy in `code`, attributed to the first line that
/// makes a call.
pub open spec fn reentrancy_issue(code: Seq<char>) -> IssueView {
    located_issue(
        Severity::High,
        "Potential reentrancy vulnerability in withdraw function"@,
        line_number(lines(code), |line: Seq<char>| makes_call(line)),
        "Implement checks-effects-interactions pattern: perform all state changes before making external calls"@,
    )
}

/// Rule to detect reentrancy vulnerabilities
pub struct ReentrancyRule {}

impl AnalysisRule for ReentrancyRule {
    open spec fn findings(&self, code: Seq<char>) -> Seq<IssueView> {
        issue_if(
            makes_call(code) && state_change_after_call(lines(code)),
            reentrancy_issue(code),
        )
    }

    open spec fn category_of(&self) -> Category {
        Category::Security
    }

    open spec fn identifier(&self) -> Seq<char> {
        "reentrancy"@
    }

    open spec fn summary(&self) -> Seq<char> {
        "Detects potential reentrancy vulnerabilities in contract functions"@
    }

    fn analyze(&self, code: &str) -> (issues: Vec<Issue>) {
        let source = Source::new(code);
        let mut issues = no_issues();
        let has_transfer = is_call(source.text.as_slice());
        let ghost calls = |line: Seq<char>| makes_call(line);
        let ghost changes = |line: Seq<char>| changes_state(line);
        let first_call = find_line(&source.lines, 0, is_call, Ghost(calls));
        let has_state_change_after_call = match first_call {
            Some(at) => find_line(&source.lines, at + 1, is_state_change, Ghost(changes)).is_some(),
            None => false,
        };
        proof {
            let views = line_views(source.lines@);
            if state_change_after_call(views) {
                let (i, j) = choose|i: int, j: int|
                    0 <= i < j < views.len() && makes_call(#[trigger] views[i]) && changes_state(
                        #[trigger] views[j],
                    );
                assert(calls(views[i]));
                assert(some_line_hits(views, calls, 0));
                let at = first_call->0 as int;
                assert(at <= i);
                assert(changes(views[j]));
                assert(some_line_hits(views, changes, at + 1));
            }
            if has_state_change_after_call {
                let at = first_call->0 as int;
                let start = at + 1;
                let next = choose|next: int| is_first_hit(views, changes, start, next);
                assert(makes_call(views[at]) && changes_state(views[next]));
            }
        }
        if has_transfer && has_state_change_after_call {
            let line = source.locate(is_call, Ghost(calls));
            report(
                &mut issues,
                Issue::located(
                    Severity::High,
                    "Potential reentrancy vulnerability in withdraw function".to_string(),
                    line,
                    "Implement checks-effects-interactions pattern: perform all state changes before making external calls",
                ),
            );
        }
        issues
    }

    fn category(&self) -> (category: Category) {
        Category::Security
    }

    fn id(&self) -> (id: &'static str) {
        "reentrancy"
    }

    fn description(&self) -> (text: &'static str) {
        "Detects potential reentrancy vulnerabilities in contract functions"
    }
}

/// Rule to check for efficient storage usage
pub struct StorageEfficiencyRule {}

impl AnalysisRule for StorageEfficiencyRule {
    open spec fn findings(&self, code: Seq<char>) -> Seq<IssueView> {
        issue_if(
            contains(code, "storage"@) && !contains(code, "packed"@),
            located_issue(
                Severity::Medium,
                "Inefficient storage usage"@,
                line_number(lines(code), |line: Seq<char>| contains(line, "storage"@)),
                "Consider using packed storage or a more efficient data structure"@,
            ),
        )
    }

    open spec fn category_of(&self) -> Category {
        Category::GasEfficiency
    }

    open spec fn identifier(&self) -> Seq<char> {
        "storage_efficiency"@
    }

    open spec fn summary(&self) -> Seq<char> {
        "Checks for efficient storage usage patterns"@
    }

    fn analyze(&self, code: &str) -> (issues: Vec<Issue>) {
        let source = Source::new(code);
        let mut issues = no_issues();
        if source.mentions("storage") && !source.mentions("packed") {
            let hit = |line: &[char]| -> (hit: bool)
                ensures
                    hit == contains(line@, "storage"@),
                {
                    mentions(line, "storage")
                };
            let line = source.locate(hit, Ghost(|line: Seq<char>| contains(line, "storage"@)));
            report(
                &mut issues,
                Issue::located(
                    Severity::Medium,
                    "Inefficient storage usage".to_string(),
                    line,
                    "Consider using packed storage or a more efficient data structure",
                ),
            );
        }
        issues
    }

    fn category(&self) -> (category: Category) {
        Category::GasEfficiency
    }

    fn id(&self) -> (id: &'static str) {
        "storage_efficiency"
    }

    fn description(&self) -> (text: &'static str) {
        "Checks for efficient storage usage patterns"
    }
}

/// Rule to check for event emissions after state changes
pub struct EventEmissionRule {}

impl AnalysisRule for EventEmissionRule {
    open spec fn findings(&self, code: Seq<char>) -> Seq<IssueView> {
        issue_if(
            contains(code, "state"@) && !contains(code, "emit"@),
            located_issue(
                Severity::Low,
                "Missing event emission after state change"@,
                line_number(lines(code), |line: Seq<char>| contains(line, "state"@)),
                "Emit events after significant state changes for better off-chain tracking"@,
            ),
        )
    }

    open spec fn category_of(&self) -> Category {
        Category::CodeQuality
    }

    open spec fn identifier(&self) -> Seq<char> {
        "event_emission"@
    }

    open spec fn summary(&self) -> Seq<char> {
        "Checks for event emissions after state changes"@
    }

    fn analyze(&self, code: &str) -> (issues: Vec<Issue>) {
        let source = Source::new(code);
        let mut issues = no_issues();
        if source.mentions("state") && !source.mentions("emit") {
            let hit = |line: &[char]| -> (hit: bool)
                ensures
                    hit == contains(line@, "state"@),
                {
                    mentions(line, "state")
                };
            let line = source.locate(hit, Ghost(|line: Seq<char>| contains(line, "state"@)));
            report(
                &mut issues,
                Issue::located(
                    Severity::Low,
                    "Missing event emission after state change".to_string(),
                    line,
                    "Emit events after significant state changes for better off-chain tracking",
                ),
            );
        }
        issues
    }

    fn category(&self) -> (category: Category) {
        Category::CodeQuality
    }

    fn id(&self) -> (id: &'static str) {
        "event_emission"
    }

    fn description(&self) -> (text: &'static str) {
        "Checks for event emissions after state changes"
    }
}

/// Rule to check for gas optimization patterns
pub struct GasOptimizationRule {}

impl AnalysisRule for GasOptimizationRule {
    open spec fn findings(&self, code: Seq<char>) -> Seq<IssueView> {
        issue_if(
            contains(code, "for"@) && (contains(code, "storage"@) || contains(code, "call"@)),
            located_issue(
                Severity::Medium,
                "Expensive operation inside loop"@,
                line_number(lines(code), |line: Seq<char>| contains(line, "for"@)),
                "Move expensive operations outside of loops when possible"@,
            ),
        ) + issue_if(
            contains(code, "storage"@) && contains(code, "read"@) && contains(code, "loop"@),
            located_issue(
                Severity::Low,
                "Multiple storage reads that could be cached"@,
                line_number(
                    lines(code),
                    |line: Seq<char>| contains(line, "storage"@) && contains(line, "read"@),
                ),
                "Cache storage values in memory when reading multiple times"@,
            ),
        )
    }

    open spec fn category_of(&self) -> Category {
        Category::GasEfficiency
    }

    open spec fn identifier(&self) -> Seq<char> {
        "gas_optimization"@
    }

    open spec fn summary(&self) -> Seq<char> {
        "Identifies patterns that could be optimized for gas efficiency"@
    }

    fn analyze(&self, code: &str) -> (issues: Vec<Issue>) {
        let source = Source::new(code);
        let mut issues = no_issues();
        // Check for expensive operations in loops
        if source.mentions("for") && (source.mentions("storage") || source.mentions("call")) {
            let hit = |line: &[char]| -> (hit: bool)
                ensures
                    hit == contains(line@, "for"@),
                {
                    mentions(line, "for")
                };
            let line = source.locate(hit, Ghost(|line: Seq<char>| contains(line, "for"@)));
            report(
                &mut issues,
                Issue::located(
                    Severity::Medium,
                    "Expensive operation inside loop".to_string(),
                    line,
                    "Move expensive operations outside of loops when possible",
                ),
            );
        }
        // Check for unnecessary storage reads
        if source.mentions("storage") && source.mentions("read") && source.mentions("loop") {
            let hit = |line: &[char]| -> (hit: bool)
                ensures
                    hit == (contains(line@, "storage"@) && contains(line@, "read"@)),
                {
                    mentions(line, "storage") && mentions(line, "read")
                };
            let line = source.locate(
                hit,
                Ghost(|line: Seq<char>| contains(line, "storage"@) && contains(line, "read"@)),
            );
            report(
                &mut issues,
                Issue::located(
                    Severity::Low,
                    "Multiple storage reads that could be cached".to_string(),
                    line,
                    "Cache storage values in memory when reading multiple times",
                ),
            );
        }
        assert(issue_views(issues@) =~= self.findings(code@));
        issues
    }

    fn category(&self) -> (category: Category) {
        Category::GasEfficiency
    }

    fn id(&self) -> (id: &'static str) {
        "gas_optimization"
    }

    fn description(&self) -> (text: &'static str) {
        "Identifies patterns that could be optimized for gas efficiency"
    }
}

/// Rule to check for security best practices
pub struct SecurityBestPracticesRule {}

impl AnalysisRule for SecurityBestPracticesRule {
    open spec fn findings(&self, code: Seq<char>) -> Seq<IssueView> {
        issue_if(
            contains(code, "call"@) && !contains(code, "require"@) && !contains(code, "assert"@),
            located_issue(
                Severity::High,
                "Unchecked external call result"@,
                line_number(lines(code), |line: Seq<char>| contains(line, "call"@)),
                "Always check the return value of external calls"@,
            ),
        ) + issue_if(
            contains(code, "function"@) && !contains(code, "onlyOwner"@)
                && !contains(code, "require(msg.sender"@),
            located_issue(
                Severity::Medium,
                "Function may lack proper access control"@,
                line_number(
                    lines(code),
                    |line: Seq<char>| contains(line, "function"@) && !contains(line, "private"@),
                ),
                "Implement access control for sensitive functions"@,
            ),
        )
    }

    open spec fn category_of(&self) -> Category {
        Category::Security
    }

    open spec fn identifier(&self) -> Seq<char> {
        "security_best_practices"@
    }

    open spec fn summary(&self) -> Seq<char> {
        "Checks for adherence to security best practices"@
    }

    fn analyze(&self, code: &str) -> (issues: Vec<Issue>) {
        let source = Source::new(code);
        let mut issues = no_issues();
        // Check for unchecked external calls
        if source.mentions("call") && !source.mentions("require") && !source.mentions("assert") {
            let hit = |line: &[char]| -> (hit: bool)
                ensures
                    hit == contains(line@, "call"@),
                {
                    mentions(line, "call")
                };
            let line = source.locate(hit, Ghost(|line: Seq<char>| contains(line, "call"@)));
            report(
                &mut issues,
                Issue::located(
                    Severity::High,
                    "Unchecked external call result".to_string(),
                    line,
                    "Always check the return value of external calls",
                ),
            );
        }
        // Check for proper access control
        if source.mentions("function") && !source.mentions("onlyOwner")
            && !source.mentions("require(msg.sender") {
            let hit = |line: &[char]| -> (hit: bool)
                ensures
                    hit == (contains(line@, "function"@) && !contains(line@, "private"@)),
                {
                    mentions(line, "function") && !mentions(line, "private")
                };
            let line = source.locate(
                hit,
                Ghost(|line: Seq<char>| contains(line, "function"@) && !contains(line, "private"@)),
            );
            report(
                &mut issues,
                Issue::located(
                    Severity::Medium,
                    "Function may lack proper access control".to_string(),
                    line,
                    "Implement access control for sensitive functions",
                ),
            );
        }
        assert(issue_views(issues@) =~= self.findings(code@));
        issues
    }

    fn category(&self) -> (category: Category) {
        Category::Security
    }

    fn id(&self) -> (id: &'static str) {
        "security_best_practices"
    }

    fn description(&self) -> (text: &'static str) {
        "Checks for adherence to security best practices"
    }
}

} // verus!
