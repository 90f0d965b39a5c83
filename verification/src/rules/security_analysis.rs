//! A rule that looks, line by line, for common security weaknesses.

use crate::models::{issue_views, located_issue, Category, Issue, IssueView, Severity};
use crate::rules::{issue_if, no_issues, report, AnalysisRule};
use crate::text::{contains, line_views, lines, mentions, trim, trimmed, Source};
use vstd::prelude::*;

verus! {

/// An external call whose line checks nothing.
pub open spec fn unchecked_call(line: Seq<char>, number: nat) -> Seq<IssueView> {
    issue_if(
        (contains(line, ".call"@) || contains(line, "transfer"@)) && !contains(line, "require"@)
            && !contains(line, "assert"@),
        located_issue(
            Severity::High,
            "Unchecked return value from external call"@,
            number,
            "Always check return values from external calls"@,
        ),
    )
}

/// Plain arithmetic, which may overflow.
pub open spec fn unchecked_arithmetic(line: Seq<char>, number: nat) -> Seq<IssueView> {
    issue_if(
        (contains(line, "+"@) || contains(line, "-"@) || contains(line, "*"@)) && !contains(
            line,
            "checked_"@,
        ) && !contains(line, "SafeMath"@),
        located_issue(
            Severity::High,
            "Potential integer overflow/underflow"@,
            number,
            "Use checked arithmetic operations or SafeMath library"@,
        ),
    )
}

/// A public function that nothing protects.
pub open spec fn unprotected_function(line: Seq<char>, number: nat) -> Seq<IssueView> {
    issue_if(
        contains(line, "pub fn"@) && !contains(line, "#[access_control]"@) && !contains(
            line,
            "onlyOwner"@,
        ),
        located_issue(
            Severity::Medium,
            "Unprotected public function"@,
            number,
            "Consider adding access control to sensitive functions"@,
        ),
    )
}

/// A read of the time of the block.
pub open spec fn timestamp_dependency(line: Seq<char>, number: nat) -> Seq<IssueView> {
    issue_if(
        contains(line, "block.timestamp"@) || contains(line, "now"@),
        located_issue(
            Severity::Medium,
            "Timestamp dependency"@,
            number,
            "Be aware that timestamps can be manipulated by miners"@,
        ),
    )
}

/// A transfer inside a loop.
pub open spec fn transfer_in_loop(line: Seq<char>, number: nat) -> Seq<IssueView> {
    issue_if(
        contains(line, "for"@) && contains(line, "transfer"@),
        located_issue(
            Severity::High,
            "Potential DoS vector in loop with transfers"@,
            number,
            "Implement pull payment pattern instead of push payments in loops"@,
        ),
    )
}

/// What the line with the one-based number `number` adds to the report.
pub open spec fn security_line_findings(line: Seq<char>, number: nat) -> Seq<IssueView> {
    unchecked_call(line, number) + unchecked_arithmetic(line, number) + unprotected_function(
        line,
        number,
    ) + timestamp_dependency(line, number) + transfer_in_loop(line, number)
}

/// The report on the first `count` lines, each taken without the whitespace
/// around it.
pub open spec fn security_findings(lines: Seq<Seq<char>>, count: int) -> Seq<IssueView>
    decreases count,
{
    if count <= 0 {
        Seq::empty()
    } else {
        security_findings(lines, count - 1) + security_line_findings(
            trim(lines[count - 1]),
            count as nat,
        )
    }
}

/// Check for unchecked external calls
fn check_unchecked_call(issues: &mut Vec<Issue>, line: &[char], number: usize)
    ensures
        issue_views(final(issues)@) == issue_views(old(issues)@) + unchecked_call(
            line@,
            number as nat,
        ),
{
    if (mentions(line, ".call") || mentions(line, "transfer")) && !mentions(line, "require")
        && !mentions(line, "assert") {
        report(
            issues,
            Issue::located(
                Severity::High,
                "Unchecked return value from external call".to_string(),
                number,
                "Always check return values from external calls",
            ),
        );
    }
    assert(issue_views(issues@) =~= issue_views(old(issues)@) + unchecked_call(
        line@,
        number as nat,
    ));
}

/// Check for integer overflow vulnerabilities
fn check_unchecked_arithmetic(issues: &mut Vec<Issue>, line: &[char], number: usize)
    ensures
        issue_views(final(issues)@) == issue_views(old(issues)@) + unchecked_arithmetic(
            line@,
            number as nat,
        ),
{
    if mentions(line, "+") || mentions(line, "-") || mentions(line, "*") {
        if !mentions(line, "checked_") && !mentions(line, "SafeMath") {
            report(
                issues,
                Issue::located(
                    Severity::High,
                    "Potential integer overflow/underflow".to_string(),
                    number,
                    "Use checked arithmetic operations or SafeMath library",
                ),
            );
        }
    }
    assert(issue_views(issues@) =~= issue_views(old(issues)@) + unchecked_arithmetic(
        line@,
        number as nat,
    ));
}

/// Check for unprotected function calls
fn check_unprotected_function(issues: &mut Vec<Issue>, line: &[char], number: usize)
    ensures
        issue_views(final(issues)@) == issue_views(old(issues)@) + unprotected_function(
            line@,
            number as nat,
        ),
{
    if mentions(line, "pub fn") && !mentions(line, "#[access_control]") && !mentions(
        line,
        "onlyOwner",
    ) {
        report(
            issues,
            Issue::located(
                Severity::Medium,
                "Unprotected public function".to_string(),
                number,
                "Consider adding access control to sensitive functions",
            ),
        );
    }
    assert(issue_views(issues@) =~= issue_views(old(issues)@) + unprotected_function(
        line@,
        number as nat,
    ));
}

/// Check for timestamp dependencies
fn check_timestamp_dependency(issues: &mut Vec<Issue>, line: &[char], number: usize)
    ensures
        issue_views(final(issues)@) == issue_views(old(issues)@) + timestamp_dependency(
            line@,
            number as nat,
        ),
{
    if mentions(line, "block.timestamp") || mentions(line, "now") {
        report(
            issues,
            Issue::located(
                Severity::Medium,
                "Timestamp dependency".to_string(),
                number,
                "Be aware that timestamps can be manipulated by miners",
            ),
        );
    }
    assert(issue_views(issues@) =~= issue_views(old(issues)@) + timestamp_dependency(
        line@,
        number as nat,
    ));
}

/// Check for potential DoS vectors
fn check_transfer_in_loop(issues: &mut Vec<Issue>, line: &[char], number: usize)
    ensures
        issue_views(final(issues)@) == issue_views(old(issues)@) + transfer_in_loop(
            line@,
            number as nat,
        ),
{
    if mentions(line, "for") && mentions(line, "transfer") {
        report(
            issues,
            Issue::located(
                Severity::High,
                "Potential DoS vector in loop with transfers".to_string(),
                number,
                "Implement pull payment pattern instead of push payments in loops",
            ),
        );
    }
    assert(issue_views(issues@) =~= issue_views(old(issues)@) + transfer_in_loop(
        line@,
        number as nat,
    ));
}

/// Rule to analyze security vulnerabilities
pub struct SecurityAnalysisRule {}

impl AnalysisRule for SecurityAnalysisRule {
    open spec fn findings(&self, code: Seq<char>) -> Seq<IssueView> {
        security_findings(lines(code), lines(code).len() as int)
    }

    open spec fn category_of(&self) -> Category {
        Category::Security
    }

    open spec fn identifier(&self) -> Seq<char> {
        "security_analysis"@
    }

    open spec fn summary(&self) -> Seq<char> {
        "Analyzes common security vulnerabilities in smart contracts"@
    }

    fn analyze(&self, code: &str) -> (issues: Vec<Issue>) {
        let source = Source::new(code);
        let mut issues = no_issues();
        let ghost all = line_views(source.lines@);
        let mut index: usize = 0;
        while index < source.lines.len()
            invariant
                index <= source.lines@.len(),
                all == line_views(source.lines@),
                issue_views(issues@) == security_findings(all, index as int),
            decreases source.lines@.len() - index,
        {
            let line = trimmed(source.lines[index].as_slice());
            let ghost reported = issue_views(issues@);
            assert(line@ == trim(all[index as int]));
            check_unchecked_call(&mut issues, line, index + 1);
            check_unchecked_arithmetic(&mut issues, line, index + 1);
            check_unprotected_function(&mut issues, line, index + 1);
            check_timestamp_dependency(&mut issues, line, index + 1);
            check_transfer_in_loop(&mut issues, line, index + 1);
            assert(issue_views(issues@) =~= reported + security_line_findings(
                line@,
                (index + 1) as nat,
            ));
            index += 1;
        }
        issues
    }

    fn category(&self) -> (category: Category) {
        Category::Security
    }

    fn id(&self) -> (id: &'static str) {
        "security_analysis"
    }

    fn description(&self) -> (text: &'static str) {
        "Analyzes common security vulnerabilities in smart contracts"
    }
}

} // verus!
