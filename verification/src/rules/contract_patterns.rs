//! Rules for detecting common smart contract anti-patterns and code quality issues

use crate::models::{issue_views, located_issue, Category, Issue, IssueView, Severity};
use crate::rules::{followed_by, issue_if, no_issues, report, AnalysisRule};
use crate::text::{
    contains, line_number, line_views, lines, mentions, some_line_hits, Source,
};
use vstd::prelude::*;

verus! {

/// The line declares a function and names no visibility.
pub open spec fn lacks_visibility(line: Seq<char>) -> bool {
    contains(line, "function"@) && !contains(line, "public"@) && !contains(line, "private"@)
        && !contains(line, "internal"@) && !contains(line, "external"@)
}

/// The report on the first `count` lines: one issue for each line that
/// declares a function without a visibility.
pub open spec fn visibility_findings(lines: Seq<Seq<char>>, count: int) -> Seq<IssueView>
    decreases count,
{
    if count <= 0 {
        Seq::empty()
    } else {
        visibility_findings(lines, count - 1) + issue_if(
            lacks_visibility(lines[count - 1]),
            located_issue(
                Severity::Low,
                "Function missing explicit visibility specifier"@,
                count as nat,
                "Always specify function visibility (public, private, internal, or external)"@,
            ),
        )
    }
}

/// Rule to detect missing function visibility specifiers
pub struct MissingVisibilityRule {}

impl AnalysisRule for MissingVisibilityRule {
    open spec fn findings(&self, code: Seq<char>) -> Seq<IssueView> {
        visibility_findings(lines(code), lines(code).len() as int)
    }

    open spec fn category_of(&self) -> Category {
        Category::CodeQuality
    }

    open spec fn identifier(&self) -> Seq<char> {
        "missing_visibility"@
    }

    open spec fn summary(&self) -> Seq<char> {
        "Detects functions missing explicit visibility specifiers"@
    }

    fn analyze(&self, code: &str) -> (issues: Vec<Issue>) {
        let source = Source::new(code);
        let mut issues = no_issues();
        let ghost all = line_views(source.lines@);
        let mut index: usize = 0;
        // Check for function declarations without visibility specifiers
        while index < source.lines.len()
            invariant
                index <= source.lines@.len(),
                all == line_views(source.lines@),
                issue_views(issues@) == visibility_findings(all, index as int),
            decreases source.lines@.len() - index,
        {
            let line = source.lines[index].as_slice();
            let ghost reported = issue_views(issues@);
            assert(line@ == all[index as int]);
            if mentions(line, "function") && !mentions(line, "public") && !mentions(line, "private")
                && !mentions(line, "internal") && !mentions(line, "external") {
                report(
                    &mut issues,
                    Issue::located(
                        Severity::Low,
                        "Function missing explicit visibility specifier".to_string(),
                        index + 1,
                        "Always specify function visibility (public, private, internal, or external)",
                    ),
                );
            }
            assert(issue_views(issues@) =~= visibility_findings(all, index + 1));
            index += 1;
        }
        issues
    }

    fn category(&self) -> (category: Category) {
        Category::CodeQuality
    }

    fn id(&self) -> (id: &'static str) {
        "missing_visibility"
    }

    fn description(&self) -> (text: &'static str) {
        "Detects functions missing explicit visibility specifiers"
    }
}

/// The text holds a sign that opens a range of versions.
pub open spec fn holds_range_sign(text: Seq<char>) -> bool {
    contains(text, "^"@) || contains(text, ">"@) || contains(text, "<"@) || contains(text, "~"@)
}

/// Whether the text holds a sign that opens a range of versions.
fn is_ranged(text: &[char]) -> (hit: bool)
    ensures
        hit == holds_range_sign(text@),
{
    mentions(text, "^") || mentions(text, ">") || mentions(text, "<") || mentions(text, "~")
}

/// The line names the version of the compiler and leaves it open: it holds
/// the pragma and a sign that opens a range of versions.
pub open spec fn floats_version(line: Seq<char>) -> bool {
    contains(line, "pragma solidity"@) && holds_range_sign(line)
}

/// Whether the line names the version of the compiler and leaves it open.
fn is_floating_version(line: &[char]) -> (hit: bool)
    ensures
        hit == floats_version(line@),
{
    mentions(line, "pragma solidity") && is_ranged(line)
}

/// Rule to detect floating pragma versions
pub struct FloatingPragmaRule {}

impl AnalysisRule for FloatingPragmaRule {
    open spec fn findings(&self, code: Seq<char>) -> Seq<IssueView> {
        issue_if(
            some_line_hits(lines(code), |line: Seq<char>| floats_version(line), 0),
            located_issue(
                Severity::Medium,
                "Floating pragma version"@,
                line_number(lines(code), |line: Seq<char>| floats_version(line)),
                "Lock pragma to specific compiler version for consistency and security"@,
            ),
        )
    }

    open spec fn category_of(&self) -> Category {
        Category::Security
    }

    open spec fn identifier(&self) -> Seq<char> {
        "floating_pragma"@
    }

    open spec fn summary(&self) -> Seq<char> {
        "Detects floating pragma versions"@
    }

    fn analyze(&self, code: &str) -> (issues: Vec<Issue>) {
        let source = Source::new(code);
        let mut issues = no_issues();
        let floating = source.first_hit(
            is_floating_version,
            Ghost(|line: Seq<char>| floats_version(line)),
        );
        if let Some(line) = floating {
            report(
                &mut issues,
                Issue::located(
                    Severity::Medium,
                    "Floating pragma version".to_string(),
                    line,
                    "Lock pragma to specific compiler version for consistency and security",
                ),
            );
        }
        issues
    }

    fn category(&self) -> (category: Category) {
        Category::Security
    }

    fn id(&self) -> (id: &'static str) {
        "floating_pragma"
    }

    fn description(&self) -> (text: &'static str) {
        "Detects floating pragma versions"
    }
}

/// What the use of one deprecated function or pattern adds to the report.
pub open spec fn deprecated_use(code: Seq<char>, token: Seq<char>) -> Seq<IssueView> {
    issue_if(
        contains(code, token),
        located_issue(
            Severity::Medium,
            "Use of deprecated function or pattern: "@ + token,
            line_number(lines(code), |line: Seq<char>| contains(line, token)),
            "Replace with recommended alternative according to Solidity documentation"@,
        ),
    )
}

/// Reports the use of `token`, if the source uses it.
fn check_deprecated(issues: &mut Vec<Issue>, source: &Source, token: &str)
    requires
        source.well_formed(),
    ensures
        issue_views(final(issues)@) == issue_views(old(issues)@) + deprecated_use(
            source.text@,
            token@,
        ),
{
    if source.mentions(token) {
        let hit = |line: &[char]| -> (hit: bool)
            ensures
                hit == contains(line@, token@),
            {
                mentions(line, token)
            };
        let line = source.locate(hit, Ghost(|line: Seq<char>| contains(line, token@)));
        report(
            issues,
            Issue::located(
                Severity::Medium,
                followed_by("Use of deprecated function or pattern: ", token),
                line,
                "Replace with recommended alternative according to Solidity documentation",
            ),
        );
    }
    assert(issue_views(issues@) =~= issue_views(old(issues)@) + deprecated_use(
        source.text@,
        token@,
    ));
}

/// Rule to detect use of deprecated functions or patterns
pub struct DeprecatedPatternsRule {}

impl AnalysisRule for DeprecatedPatternsRule {
    open spec fn findings(&self, code: Seq<char>) -> Seq<IssueView> {
        deprecated_use(code, "suicide"@) + deprecated_use(code, "block.blockhash"@)
            + deprecated_use(code, "sha3"@) + deprecated_use(code, "throw"@) + deprecated_use(
            code,
            "msg.gas"@,
        )
    }

    open spec fn category_of(&self) -> Category {
        Category::CodeQuality
    }

    open spec fn identifier(&self) -> Seq<char> {
        "deprecated_patterns"@
    }

    open spec fn summary(&self) -> Seq<char> {
        "Detects use of deprecated functions or patterns"@
    }

    fn analyze(&self, code: &str) -> (issues: Vec<Issue>) {
        let source = Source::new(code);
        let mut issues = no_issues();
        // Check for deprecated functions
        check_deprecated(&mut issues, &source, "suicide");
        check_deprecated(&mut issues, &source, "block.blockhash");
        check_deprecated(&mut issues, &source, "sha3");
        check_deprecated(&mut issues, &source, "throw");
        check_deprecated(&mut issues, &source, "msg.gas");
        assert(issue_views(issues@) =~= self.findings(code@));
        issues
    }

    fn category(&self) -> (category: Category) {
        Category::CodeQuality
    }

    fn id(&self) -> (id: &'static str) {
        "deprecated_patterns"
    }

    fn description(&self) -> (text: &'static str) {
        "Detects use of deprecated functions or patterns"
    }
}

/// Rule to detect tx.origin usage for authorization
pub struct TxOriginAuthRule {}

impl AnalysisRule for TxOriginAuthRule {
    open spec fn findings(&self, code: Seq<char>) -> Seq<IssueView> {
        issue_if(
            contains(code, "tx.origin"@),
            located_issue(
                Severity::High,
                "Use of tx.origin for authorization"@,
                line_number(lines(code), |line: Seq<char>| contains(line, "tx.origin"@)),
                "Use msg.sender instead of tx.origin for authorization checks"@,
            ),
        )
    }

    open spec fn category_of(&self) -> Category {
        Category::Security
    }

    open spec fn identifier(&self) -> Seq<char> {
        "tx_origin_auth"@
    }

    open spec fn summary(&self) -> Seq<char> {
        "Detects use of tx.origin for authorization"@
    }

    fn analyze(&self, code: &str) -> (issues: Vec<Issue>) {
        let source = Source::new(code);
        let mut issues = no_issues();
        if source.mentions("tx.origin") {
            let hit = |line: &[char]| -> (hit: bool)
                ensures
                    hit == contains(line@, "tx.origin"@),
                {
                    mentions(line, "tx.origin")
                };
            let line = source.locate(hit, Ghost(|line: Seq<char>| contains(line, "tx.origin"@)));
            report(
                &mut issues,
                Issue::located(
                    Severity::High,
                    "Use of tx.origin for authorization".to_string(),
                    line,
                    "Use msg.sender instead of tx.origin for authorization checks",
                ),
            );
        }
        issues
    }

    fn category(&self) -> (category: Category) {
        Category::Security
    }

    fn id(&self) -> (id: &'static str) {
        "tx_origin_auth"
    }

    fn description(&self) -> (text: &'static str) {
        "Detects use of tx.origin for authorization"
    }
}

/// What the scan for assembly blocks remembers from line to line: whether
/// it is inside a block, the one-based line on which the last block opened,
/// and whether a comment was seen in it.
pub ghost struct AssemblyScan {
    pub in_assembly: bool,
    pub start: nat,
    pub has_comment: bool,
}

/// The line holds the start of a comment.
pub open spec fn has_comment_mark(line: Seq<char>) -> bool {
    contains(line, "//"@) || contains(line, "/*"@)
}

/// The scan after the line with the one-based number `number`. Outside a
/// block, a line that names assembly opens one. Inside a block, a closing
/// brace ends it, and a comment on any other line documents it.
pub open spec fn assembly_scan_step(
    scan: AssemblyScan,
    line: Seq<char>,
    number: nat,
) -> AssemblyScan {
    if contains(line, "assembly"@) && !scan.in_assembly {
        AssemblyScan { in_assembly: true, start: number, has_comment: has_comment_mark(line) }
    } else if scan.in_assembly && contains(line, "}"@) {
        AssemblyScan { in_assembly: false, start: scan.start, has_comment: scan.has_comment }
    } else if scan.in_assembly && has_comment_mark(line) {
        AssemblyScan { in_assembly: true, start: scan.start, has_comment: true }
    } else {
        scan
    }
}

/// The line ends a block in which no comment was seen.
pub open spec fn ends_undocumented_block(scan: AssemblyScan, line: Seq<char>) -> bool {
    scan.in_assembly && contains(line, "}"@) && !scan.has_comment
}

/// The scan after the first `count` lines.
pub open spec fn assembly_scan_after(lines: Seq<Seq<char>>, count: int) -> AssemblyScan
    decreases count,
{
    if count <= 0 {
        AssemblyScan { in_assembly: false, start: 0, has_comment: false }
    } else {
        assembly_scan_step(assembly_scan_after(lines, count - 1), lines[count - 1], count as nat)
    }
}

/// The report on the first `count` lines: one issue for each block that
/// ends without a comment, attributed to the line on which it opened.
pub open spec fn assembly_findings(lines: Seq<Seq<char>>, count: int) -> Seq<IssueView>
    decreases count,
{
    if count <= 0 {
        Seq::empty()
    } else {
        assembly_findings(lines, count - 1) + issue_if(
            ends_undocumented_block(assembly_scan_after(lines, count - 1), lines[count - 1]),
            located_issue(
                Severity::Medium,
                "Assembly block without documentation"@,
                assembly_scan_after(lines, count - 1).start,
                "Document assembly blocks with detailed comments explaining the purpose and behavior"@,
            ),
        )
    }
}

/// Rule to detect assembly usage without comments
pub struct AssemblyUsageRule {}

impl AnalysisRule for AssemblyUsageRule {
    open spec fn findings(&self, code: Seq<char>) -> Seq<IssueView> {
        assembly_findings(lines(code), lines(code).len() as int)
    }

    open spec fn category_of(&self) -> Category {
        Category::CodeQuality
    }

    open spec fn identifier(&self) -> Seq<char> {
        "assembly_usage"@
    }

    open spec fn summary(&self) -> Seq<char> {
        "Detects assembly usage without proper documentation"@
    }

    fn analyze(&self, code: &str) -> (issues: Vec<Issue>) {
        let source = Source::new(code);
        let mut issues = no_issues();
        let mut in_assembly = false;
        let mut assembly_start_line: usize = 0;
        let mut has_comment = false;
        let ghost all = line_views(source.lines@);
        let mut index: usize = 0;
        while index < source.lines.len()
            invariant
                index <= source.lines@.len(),
                all == line_views(source.lines@),
                assembly_scan_after(all, index as int) == (AssemblyScan {
                    in_assembly,
                    start: assembly_start_line as nat,
                    has_comment,
                }),
                issue_views(issues@) == assembly_findings(all, index as int),
            decreases source.lines@.len() - index,
        {
            let line = source.lines[index].as_slice();
            assert(line@ == all[index as int]);
            if mentions(line, "assembly") && !in_assembly {
                in_assembly = true;
                assembly_start_line = index + 1;
                has_comment = mentions(line, "//") || mentions(line, "/*");
                assert(issue_views(issues@) =~= assembly_findings(all, index + 1));
            } else if in_assembly {
                if mentions(line, "}") {
                    if !has_comment {
                        report(
                            &mut issues,
                            Issue::located(
                                Severity::Medium,
                                "Assembly block without documentation".to_string(),
                                assembly_start_line,
                                "Document assembly blocks with detailed comments explaining the purpose and behavior",
                            ),
                        );
                    }
                    in_assembly = false;
                    assert(issue_views(issues@) =~= assembly_findings(all, index + 1));
                } else {
                    if mentions(line, "//") || mentions(line, "/*") {
                        has_comment = true;
                    }
                    assert(issue_views(issues@) =~= assembly_findings(all, index + 1));
                }
            } else {
                assert(issue_views(issues@) =~= assembly_findings(all, index + 1));
            }
            index += 1;
        }
        issues
    }

    fn category(&self) -> (category: Category) {
        Category::CodeQuality
    }

    fn id(&self) -> (id: &'static str) {
        "assembly_usage"
    }

    fn description(&self) -> (text: &'static str) {
        "Detects assembly usage without proper documentation"
    }
}

} // verus!
