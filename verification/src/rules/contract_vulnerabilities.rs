//! Rules for detecting common smart contract vulnerabilities and anti-patterns

use crate::models::{issue_views, located_issue, Category, Issue, IssueView, Severity};
use crate::rules::{issue_if, no_issues, report, AnalysisRule};
use crate::text::{contains, line_number, lines, mentions, Source};
use vstd::prelude::*;

verus! {

/// Rule to detect DoS vulnerabilities
pub struct DoSVulnerabilityRule {}

impl AnalysisRule for DoSVulnerabilityRule {
    open spec fn findings(&self, code: Seq<char>) -> Seq<IssueView> {
        issue_if(
            contains(code, "for"@) && (contains(code, "transfer"@) || contains(code, ".call"@)),
            located_issue(
                Severity::High,
                "DoS vulnerability: unbounded loop with external calls"@,
                line_number(lines(code), |line: Seq<char>| contains(line, "for"@)),
                "Use pull payment pattern instead of push payments in loops"@,
            ),
        )
    }

    open spec fn category_of(&self) -> Category {
        Category::Security
    }

    open spec fn identifier(&self) -> Seq<char> {
        "dos_vulnerability"@
    }

    open spec fn summary(&self) -> Seq<char> {
        "Detects potential DoS vulnerabilities"@
    }

    fn analyze(&self, code: &str) -> (issues: Vec<Issue>) {
        let source = Source::new(code);
        let mut issues = no_issues();
        // Check for unbounded loops with external calls
        if source.mentions("for") && (source.mentions("transfer") || source.mentions(".call")) {
            let hit = |line: &[char]| -> (hit: bool)
                ensures
                    hit == contains(line@, "for"@),
                {
                    mentions(line, "for")
                };
            let line = source.locate(hit, Ghost(|line: Seq<char>| contains(line, "for"@)));
            report(
                &mut issues,
                Issue::located(
                    Severity::High,
                    "DoS vulnerability: unbounded loop with external calls".to_string(),
                    line,
                    "Use pull payment pattern instead of push payments in loops",
                ),
            );
        }
        issues
    }

    fn category(&self) -> (category: Category) {
        Category::Security
    }

    fn id(&self) -> (id: &'static str) {
        "dos_vulnerability"
    }

    fn description(&self) -> (text: &'static str) {
        "Detects potential DoS vulnerabilities"
    }
}

/// The text computes with `+`, `-`, `*` or `/`.
pub open spec fn computes(text: Seq<char>) -> bool {
    contains(text, "+"@) || contains(text, "-"@) || contains(text, "*"@) || contains(text, "/"@)
}

/// Whether the text computes with `+`, `-`, `*` or `/`.
fn is_computation(text: &[char]) -> (hit: bool)
    ensures
        hit == computes(text@),
{
    mentions(text, "+") || mentions(text, "-") || mentions(text, "*") || mentions(text, "/")
}

/// Rule to detect integer overflow/underflow vulnerabilities
pub struct IntegerOverflowRule {}

impl AnalysisRule for IntegerOverflowRule {
    open spec fn findings(&self, code: Seq<char>) -> Seq<IssueView> {
        issue_if(
            computes(code) && !contains(code, "SafeMath"@) && !contains(code, "checked_add"@)
                && !contains(code, "checked_sub"@) && !contains(code, "checked_mul"@)
                && !contains(code, "checked_div"@),
            located_issue(
                Severity::High,
                "Potential integer overflow/underflow vulnerability"@,
                line_number(lines(code), |line: Seq<char>| computes(line)),
                "Use SafeMath library or checked arithmetic operations"@,
            ),
        )
    }

    open spec fn category_of(&self) -> Category {
        Category::Security
    }

    open spec fn identifier(&self) -> Seq<char> {
        "integer_overflow"@
    }

    open spec fn summary(&self) -> Seq<char> {
        "Detects potential integer overflow/underflow vulnerabilities"@
    }

    fn analyze(&self, code: &str) -> (issues: Vec<Issue>) {
        let source = Source::new(code);
        let mut issues = no_issues();
        // Check for arithmetic operations without SafeMath or overflow checks
        if is_computation(source.text.as_slice()) && !source.mentions("SafeMath")
            && !source.mentions("checked_add") && !source.mentions("checked_sub")
            && !source.mentions("checked_mul") && !source.mentions("checked_div") {
            let line = source.locate(is_computation, Ghost(|line: Seq<char>| computes(line)));
            report(
                &mut issues,
                Issue::located(
                    Severity::High,
                    "Potential integer overflow/underflow vulnerability".to_string(),
                    line,
                    "Use SafeMath library or checked arithmetic operations",
                ),
            );
        }
        issues
    }

    fn category(&self) -> (category: Category) {
        Category::Security
    }

    fn id(&self) -> (id: &'static str) {
        "integer_overflow"
    }

    fn description(&self) -> (text: &'static str) {
        "Detects potential integer overflow/underflow vulnerabilities"
    }
}

/// The text speaks of destroying the contract.
pub open spec fn destroys_contract(text: Seq<char>) -> bool {
    contains(text, "selfdestruct"@) || contains(text, "self-destruct"@)
        || contains(text, "suicide"@)
}

/// Whether the text speaks of destroying the contract.
fn is_destruction(text: &[char]) -> (hit: bool)
    ensures
        hit == destroys_contract(text@),
{
    mentions(text, "selfdestruct") || mentions(text, "self-destruct") || mentions(text, "suicide")
}

/// Rule to detect unprotected self-destruct vulnerabilities
pub struct SelfDestructRule {}

impl AnalysisRule for SelfDestructRule {
    open spec fn findings(&self, code: Seq<char>) -> Seq<IssueView> {
        issue_if(
            destroys_contract(code) && !contains(code, "onlyOwner"@)
                && !contains(code, "require(msg.sender"@),
            located_issue(
                Severity::High,
                "Unprotected self-destruct functionality"@,
                line_number(lines(code), |line: Seq<char>| destroys_contract(line)),
                "Add proper access control to self-destruct functionality"@,
            ),
        )
    }

    open spec fn category_of(&self) -> Category {
        Category::Security
    }

    open spec fn identifier(&self) -> Seq<char> {
        "unprotected_selfdestruct"@
    }

    open spec fn summary(&self) -> Seq<char> {
        "Detects unprotected self-destruct functionality"@
    }

    fn analyze(&self, code: &str) -> (issues: Vec<Issue>) {
        let source = Source::new(code);
        let mut issues = no_issues();
        if is_destruction(source.text.as_slice()) && !source.mentions("onlyOwner")
            && !source.mentions("require(msg.sender") {
            let line = source.locate(
                is_destruction,
                Ghost(|line: Seq<char>| destroys_contract(line)),
            );
            report(
                &mut issues,
                Issue::located(
                    Severity::High,
                    "Unprotected self-destruct functionality".to_string(),
                    line,
                    "Add proper access control to self-destruct functionality",
                ),
            );
        }
        issues
    }

    fn category(&self) -> (category: Category) {
        Category::Security
    }

    fn id(&self) -> (id: &'static str) {
        "unprotected_selfdestruct"
    }

    fn description(&self) -> (text: &'static str) {
        "Detects unprotected self-destruct functionality"
    }
}

/// The text reads the time of the block.
pub open spec fn reads_block_time(text: Seq<char>) -> bool {
    contains(text, "block.timestamp"@) || contains(text, "now"@)
}

/// Whether the text reads the time of the block.
fn is_time_read(text: &[char]) -> (hit: bool)
    ensures
        hit == reads_block_time(text@),
{
    mentions(text, "block.timestamp") || mentions(text, "now")
}

/// Rule to detect timestamp dependence vulnerabilities
pub struct TimestampDependenceRule {}

impl AnalysisRule for TimestampDependenceRule {
    open spec fn findings(&self, code: Seq<char>) -> Seq<IssueView> {
        issue_if(
            reads_block_time(code),
            located_issue(
                Severity::Medium,
                "Contract logic depends on block timestamp"@,
                line_number(lines(code), |line: Seq<char>| reads_block_time(line)),
                "Avoid using block.timestamp for critical logic as it can be manipulated by miners"@,
            ),
        )
    }

    open spec fn category_of(&self) -> Category {
        Category::Security
    }

    open spec fn identifier(&self) -> Seq<char> {
        "timestamp_dependence"@
    }

    open spec fn summary(&self) -> Seq<char> {
        "Detects timestamp dependence vulnerabilities"@
    }

    fn analyze(&self, code: &str) -> (issues: Vec<Issue>) {
        let source = Source::new(code);
        let mut issues = no_issues();
        if is_time_read(source.text.as_slice()) {
            let line = source.locate(is_time_read, Ghost(|line: Seq<char>| reads_block_time(line)));
            report(
                &mut issues,
                Issue::located(
                    Severity::Medium,
                    "Contract logic depends on block timestamp".to_string(),
                    line,
                    "Avoid using block.timestamp for critical logic as it can be manipulated by miners",
                ),
            );
        }
        issues
    }

    fn category(&self) -> (category: Category) {
        Category::Security
    }

    fn id(&self) -> (id: &'static str) {
        "timestamp_dependence"
    }

    fn description(&self) -> (text: &'static str) {
        "Detects timestamp dependence vulnerabilities"
    }
}

/// The text speaks of a price, a rate or a swap.
pub open spec fn speaks_of_price(text: Seq<char>) -> bool {
    contains(text, "price"@) || contains(text, "rate"@) || contains(text, "swap"@)
}

/// Whether the text speaks of a price, a rate or a swap.
fn is_about_price(text: &[char]) -> (hit: bool)
    ensures
        hit == speaks_of_price(text@),
{
    mentions(text, "price") || mentions(text, "rate") || mentions(text, "swap")
}

/// Rule to detect front-running vulnerabilities
pub struct FrontRunningRule {}

impl AnalysisRule for FrontRunningRule {
    open spec fn findings(&self, code: Seq<char>) -> Seq<IssueView> {
        issue_if(
            speaks_of_price(code) && !contains(code, "commit-reveal"@)
                && !contains(code, "timelock"@),
            located_issue(
                Severity::Medium,
                "Potential front-running vulnerability"@,
                line_number(lines(code), |line: Seq<char>| speaks_of_price(line)),
                "Consider implementing commit-reveal pattern or timelock mechanisms"@,
            ),
        )
    }

    open spec fn category_of(&self) -> Category {
        Category::Security
    }

    open spec fn identifier(&self) -> Seq<char> {
        "front_running"@
    }

    open spec fn summary(&self) -> Seq<char> {
        "Detects potential front-running vulnerabilities"@
    }

    fn analyze(&self, code: &str) -> (issues: Vec<Issue>) {
        let source = Source::new(code);
        let mut issues = no_issues();
        if is_about_price(source.text.as_slice()) && !source.mentions("commit-reveal")
            && !source.mentions("timelock") {
            let line = source.locate(
                is_about_price,
                Ghost(|line: Seq<char>| speaks_of_price(line)),
            );
            report(
                &mut issues,
                Issue::located(
                    Severity::Medium,
                    "Potential front-running vulnerability".to_string(),
                    line,
                    "Consider implementing commit-reveal pattern or timelock mechanisms",
                ),
            );
        }
        issues
    }

    fn category(&self) -> (category: Category) {
        Category::Security
    }

    fn id(&self) -> (id: &'static str) {
        "front_running"
    }

    fn description(&self) -> (text: &'static str) {
        "Detects potential front-running vulnerabilities"
    }
}

/// The text makes a low-level call.
pub open spec fn makes_low_level_call(text: Seq<char>) -> bool {
    contains(text, ".call{"@) || contains(text, ".call("@)
}

/// Whether the text makes a low-level call.
fn is_low_level_call(text: &[char]) -> (hit: bool)
    ensures
        hit == makes_low_level_call(text@),
{
    mentions(text, ".call{") || mentions(text, ".call(")
}

/// The text sends or transfers value.
pub open spec fn sends_value(text: Seq<char>) -> bool {
    contains(text, ".send("@) || contains(text, ".transfer("@)
}

/// Whether the text sends or transfers value.
fn is_payment(text: &[char]) -> (hit: bool)
    ensures
        hit == sends_value(text@),
{
    mentions(text, ".send(") || mentions(text, ".transfer(")
}

/// Rule to detect unchecked return values
pub struct UncheckedReturnRule {}

impl AnalysisRule for UncheckedReturnRule {
    open spec fn findings(&self, code: Seq<char>) -> Seq<IssueView> {
        issue_if(
            makes_low_level_call(code) && !contains(code, "require("@)
                && !contains(code, "assert("@),
            located_issue(
                Severity::High,
                "Unchecked return value from low-level call"@,
                line_number(lines(code), |line: Seq<char>| makes_low_level_call(line)),
                "Always check return values from low-level calls"@,
            ),
        ) + issue_if(
            sends_value(code) && !contains(code, "require("@),
            located_issue(
                Severity::Medium,
                "Potential unchecked send/transfer"@,
                line_number(lines(code), |line: Seq<char>| sends_value(line)),
                "Check return value of .send() or use .transfer() with proper error handling"@,
            ),
        )
    }

    open spec fn category_of(&self) -> Category {
        Category::Security
    }

    open spec fn identifier(&self) -> Seq<char> {
        "unchecked_return"@
    }

    open spec fn summary(&self) -> Seq<char> {
        "Detects unchecked return values from external calls"@
    }

    fn analyze(&self, code: &str) -> (issues: Vec<Issue>) {
        let source = Source::new(code);
        let mut issues = no_issues();
        // Check for low-level calls without return value checks
        if is_low_level_call(source.text.as_slice()) && !source.mentions("require(")
            && !source.mentions("assert(") {
            let line = source.locate(
                is_low_level_call,
                Ghost(|line: Seq<char>| makes_low_level_call(line)),
            );
            report(
                &mut issues,
                Issue::located(
                    Severity::High,
                    "Unchecked return value from low-level call".to_string(),
                    line,
                    "Always check return values from low-level calls",
                ),
            );
        }
        // Check for send/transfer without proper error handling
        if is_payment(source.text.as_slice()) && !source.mentions("require(") {
            let line = source.locate(is_payment, Ghost(|line: Seq<char>| sends_value(line)));
            report(
                &mut issues,
                Issue::located(
                    Severity::Medium,
                    "Potential unchecked send/transfer".to_string(),
                    line,
                    "Check return value of .send() or use .transfer() with proper error handling",
                ),
            );
        }
        assert(issue_views(issues@) =~= self.findings(code@));
        issues
    }

    fn category(&self) -> (category: Category) {
        Category::Security
    }

    fn id(&self) -> (id: &'static str) {
        "unchecked_return"
    }

    fn description(&self) -> (text: &'static str) {
        "Detects unchecked return values from external calls"
    }
}

} // verus!
