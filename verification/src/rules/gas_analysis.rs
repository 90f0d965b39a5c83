//! A rule that estimates, function by function, where gas is spent.

use crate::models::{issue_views, located_issue, Category, Issue, IssueView, Severity};
use crate::rules::{issue_if, joined, no_issues, report, AnalysisRule};
use crate::text::{
    after, before, contains, line_views, lines, mentions, part_after, part_before, string_of, trim,
    trimmed, Source,
};
use vstd::prelude::*;

verus! {

/// What the scan remembers from line to line: whether it is inside a
/// function, and the name of the function declared last.
pub ghost struct GasScan {
    pub in_function: bool,
    pub function: Seq<char>,
}

/// The scan before the first line.
pub open spec fn gas_scan_start() -> GasScan {
    GasScan { in_function: false, function: Seq::empty() }
}

/// The line declares a function.
pub open spec fn declares_function(line: Seq<char>) -> bool {
    contains(line, "fn "@) && contains(line, "("@)
}

/// The name of the function that a line declares: what stands between the
/// first `fn ` and the next one, up to the first opening parenthesis, without
/// the whitespace around it.
pub open spec fn declared_name(line: Seq<char>) -> Seq<char> {
    trim(before(before(after(line, "fn "@), "fn "@), "("@))
}

/// The scan while a line is examined: a declaration opens a function.
pub open spec fn gas_scan_entering(scan: GasScan, line: Seq<char>) -> GasScan {
    if declares_function(line) {
        GasScan { in_function: true, function: declared_name(line) }
    } else {
        scan
    }
}

/// The scan after a line: a closing brace ends the function.
pub open spec fn gas_scan_leaving(scan: GasScan, line: Seq<char>) -> GasScan {
    if contains(line, "}"@) && scan.in_function {
        GasScan { in_function: false, function: scan.function }
    } else {
        scan
    }
}

/// The scan after the first `count` lines, each taken without the
/// whitespace around it.
pub open spec fn gas_scan_after(lines: Seq<Seq<char>>, count: int) -> GasScan
    decreases count,
{
    if count <= 0 {
        gas_scan_start()
    } else {
        let line = trim(lines[count - 1]);
        gas_scan_leaving(gas_scan_entering(gas_scan_after(lines, count - 1), line), line)
    }
}

/// What a line inside the function `function` costs: one issue for a
/// storage operation, one for an external call, one for a loop.
pub open spec fn gas_costs(function: Seq<char>, line: Seq<char>, number: nat) -> Seq<IssueView> {
    issue_if(
        contains(line, "storage"@),
        located_issue(
            Severity::Low,
            "Storage operation in function '"@ + function + "' costs ~20,000 gas"@,
            number,
            "Consider caching storage values in memory if accessed multiple times"@,
        ),
    ) + issue_if(
        contains(line, ".call"@) || contains(line, "transfer"@),
        located_issue(
            Severity::Medium,
            "External call in function '"@ + function + "' costs ~2,600 gas"@,
            number,
            "Batch external calls when possible to save gas"@,
        ),
    ) + issue_if(
        contains(line, "for"@) || contains(line, "while"@),
        located_issue(
            Severity::Medium,
            "Loop in function '"@ + function + "' has variable gas cost"@,
            number,
            "Consider implementing gas limits for loops"@,
        ),
    )
}

/// What the line with the one-based number `number` adds to the report,
/// given the scan of the lines before it.
pub open spec fn gas_line_findings(before: GasScan, line: Seq<char>, number: nat) -> Seq<
    IssueView,
> {
    let scan = gas_scan_entering(before, line);
    if scan.in_function {
        gas_costs(scan.function, line, number)
    } else {
        Seq::empty()
    }
}

/// The report on the first `count` lines.
pub open spec fn gas_findings(lines: Seq<Seq<char>>, count: int) -> Seq<IssueView>
    decreases count,
{
    if count <= 0 {
        Seq::empty()
    } else {
        gas_findings(lines, count - 1) + gas_line_findings(
            gas_scan_after(lines, count - 1),
            trim(lines[count - 1]),
            count as nat,
        )
    }
}

/// Rule to analyze gas costs per function
pub struct GasAnalysisRule {}

impl AnalysisRule for GasAnalysisRule {
    open spec fn findings(&self, code: Seq<char>) -> Seq<IssueView> {
        gas_findings(lines(code), lines(code).len() as int)
    }

    open spec fn category_of(&self) -> Category {
        Category::GasEfficiency
    }

    open spec fn identifier(&self) -> Seq<char> {
        "gas_analysis"@
    }

    open spec fn summary(&self) -> Seq<char> {
        "Analyzes gas costs for each function in the contract"@
    }

    fn analyze(&self, code: &str) -> (issues: Vec<Issue>) {
        let source = Source::new(code);
        let mut issues = no_issues();
        let mut current_function = String::new();
        let mut in_function = false;
        let ghost all = line_views(source.lines@);
        let mut index: usize = 0;
        while index < source.lines.len()
            invariant
                index <= source.lines@.len(),
                all == line_views(source.lines@),
                gas_scan_after(all, index as int) == (GasScan {
                    in_function,
                    function: current_function@,
                }),
                issue_views(issues@) == gas_findings(all, index as int),
            decreases source.lines@.len() - index,
        {
            let line = trimmed(source.lines[index].as_slice());
            let ghost before_line = gas_scan_after(all, index as int);
            let ghost reported = issue_views(issues@);
            assert(line@ == trim(all[index as int]));

            // Detect function declarations
            if mentions(line, "fn ") && mentions(line, "(") {
                in_function = true;
                let name = trimmed(part_before(part_before(part_after(line, "fn "), "fn "), "("));
                current_function = string_of(name);
            }
            assert(gas_scan_entering(before_line, line@) == (GasScan {
                in_function,
                function: current_function@,
            }));

            if in_function {
                // Analyze storage operations
                if mentions(line, "storage") {
                    report(
                        &mut issues,
                        Issue::located(
                            Severity::Low,
                            joined(
                                "Storage operation in function '",
                                current_function.as_str(),
                                "' costs ~20,000 gas",
                            ),
                            index + 1,
                            "Consider caching storage values in memory if accessed multiple times",
                        ),
                    );
                }
                // Analyze external calls
                if mentions(line, ".call") || mentions(line, "transfer") {
                    report(
                        &mut issues,
                        Issue::located(
                            Severity::Medium,
                            joined(
                                "External call in function '",
                                current_function.as_str(),
                                "' costs ~2,600 gas",
                            ),
                            index + 1,
                            "Batch external calls when possible to save gas",
                        ),
                    );
                }
                // Analyze loops
                if mentions(line, "for") || mentions(line, "while") {
                    report(
                        &mut issues,
                        Issue::located(
                            Severity::Medium,
                            joined(
                                "Loop in function '",
                                current_function.as_str(),
                                "' has variable gas cost",
                            ),
                            index + 1,
                            "Consider implementing gas limits for loops",
                        ),
                    );
                }
            }
            assert(issue_views(issues@) =~= reported + gas_line_findings(
                before_line,
                line@,
                (index + 1) as nat,
            ));

            if mentions(line, "}") && in_function {
                in_function = false;
            }
            index += 1;
        }
        issues
    }

    fn category(&self) -> (category: Category) {
        Category::GasEfficiency
    }

    fn id(&self) -> (id: &'static str) {
        "gas_analysis"
    }

    fn description(&self) -> (text: &'static str) {
        "Analyzes gas costs for each function in the contract"
    }
}

} // verus!
