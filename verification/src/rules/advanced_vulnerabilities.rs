//! Advanced rules for detecting complex smart contract vulnerabilities

use crate::models::{issue_views, located_issue, Category, Issue, IssueView, Severity};
use crate::rules::{followed_by, issue_if, no_issues, report, AnalysisRule};
use crate::text::{contains, line_number, lines, mentions, Source};
use vstd::prelude::*;

verus! {

/// The text holds a loop.
pub open spec fn loops(text: Seq<char>) -> bool {
    contains(text, "for"@) || contains(text, "while"@)
}

/// Whether the text holds a loop.
fn is_loop(text: &[char]) -> (hit: bool)
    ensures
        hit == loops(text@),
{
    mentions(text, "for") || mentions(text, "while")
}

/// The text hands value out of the contract.
pub open spec fn pays_out(text: Seq<char>) -> bool {
    contains(text, ".transfer"@) || contains(text, ".send"@) || contains(text, ".call"@)
}

/// Whether the text hands value out of the contract.
fn is_payout(text: &[char]) -> (hit: bool)
    ensures
        hit == pays_out(text@),
{
    mentions(text, ".transfer") || mentions(text, ".send") || mentions(text, ".call")
}

/// Rule to detect DoS with unexpected revert vulnerabilities
pub struct DosWithRevertRule {}

impl AnalysisRule for DosWithRevertRule {
    open spec fn findings(&self, code: Seq<char>) -> Seq<IssueView> {
        issue_if(
            loops(code) && pays_out(code),
            located_issue(
                Severity::High,
                "Potential DoS with unexpected revert vulnerability"@,
                line_number(lines(code), |line: Seq<char>| loops(line) && pays_out(line)),
                "Use pull payment pattern instead of pushing payments in loops"@,
            ),
        )
    }

    open spec fn category_of(&self) -> Category {
        Category::Security
    }

    open spec fn identifier(&self) -> Seq<char> {
        "dos_with_revert"@
    }

    open spec fn summary(&self) -> Seq<char> {
        "Detects potential DoS with unexpected revert vulnerabilities"@
    }

    fn analyze(&self, code: &str) -> (issues: Vec<Issue>) {
        let source = Source::new(code);
        let mut issues = no_issues();
        // Check for loops that iterate over arrays with external calls inside
        if is_loop(source.text.as_slice()) && is_payout(source.text.as_slice()) {
            let hit = |line: &[char]| -> (hit: bool)
                ensures
                    hit == (loops(line@) && pays_out(line@)),
                {
                    is_loop(line) && is_payout(line)
                };
            let line = source.locate(hit, Ghost(|line: Seq<char>| loops(line) && pays_out(line)));
            report(
                &mut issues,
                Issue::located(
                    Severity::High,
                    "Potential DoS with unexpected revert vulnerability".to_string(),
                    line,
                    "Use pull payment pattern instead of pushing payments in loops",
                ),
            );
        }
        issues
    }

    fn category(&self) -> (category: Category) {
        Category::Security
    }

    fn id(&self) -> (id: &'static str) {
        "dos_with_revert"
    }

    fn description(&self) -> (text: &'static str) {
        "Detects potential DoS with unexpected revert vulnerabilities"
    }
}

/// The text speaks of an array or a mapping.
pub open spec fn holds_collection(text: Seq<char>) -> bool {
    contains(text, "array"@) || contains(text, "mapping"@) || contains(text, "[]"@)
}

/// Whether the text speaks of an array or a mapping.
fn is_about_collection(text: &[char]) -> (hit: bool)
    ensures
        hit == holds_collection(text@),
{
    mentions(text, "array") || mentions(text, "mapping") || mentions(text, "[]")
}

/// The text speaks of an array or a mapping, or indexes one.
pub open spec fn uses_collection(text: Seq<char>) -> bool {
    contains(text, "array"@) || contains(text, "mapping"@) || contains(text, "["@)
}

/// Whether the text speaks of an array or a mapping, or indexes one.
fn is_collection_use(text: &[char]) -> (hit: bool)
    ensures
        hit == uses_collection(text@),
{
    mentions(text, "array") || mentions(text, "mapping") || mentions(text, "[")
}

/// Rule to detect block gas limit vulnerabilities
pub struct BlockGasLimitRule {}

impl AnalysisRule for BlockGasLimitRule {
    open spec fn findings(&self, code: Seq<char>) -> Seq<IssueView> {
        issue_if(
            loops(code) && holds_collection(code),
            located_issue(
                Severity::Medium,
                "Potential block gas limit vulnerability with unbounded operation"@,
                line_number(lines(code), |line: Seq<char>| loops(line) && uses_collection(line)),
                "Implement pagination or limit the number of iterations to avoid hitting block gas limit"@,
            ),
        )
    }

    open spec fn category_of(&self) -> Category {
        Category::GasEfficiency
    }

    open spec fn identifier(&self) -> Seq<char> {
        "block_gas_limit"@
    }

    open spec fn summary(&self) -> Seq<char> {
        "Detects operations that might hit block gas limit"@
    }

    fn analyze(&self, code: &str) -> (issues: Vec<Issue>) {
        let source = Source::new(code);
        let mut issues = no_issues();
        // Check for unbounded operations that might hit block gas limit
        if is_loop(source.text.as_slice()) && is_about_collection(source.text.as_slice()) {
            let hit = |line: &[char]| -> (hit: bool)
                ensures
                    hit == (loops(line@) && uses_collection(line@)),
                {
                    is_loop(line) && is_collection_use(line)
                };
            let line = source.locate(
                hit,
                Ghost(|line: Seq<char>| loops(line) && uses_collection(line)),
            );
            report(
                &mut issues,
                Issue::located(
                    Severity::Medium,
                    "Potential block gas limit vulnerability with unbounded operation".to_string(),
                    line,
                    "Implement pagination or limit the number of iterations to avoid hitting block gas limit",
                ),
            );
        }
        issues
    }

    fn category(&self) -> (category: Category) {
        Category::GasEfficiency
    }

    fn id(&self) -> (id: &'static str) {
        "block_gas_limit"
    }

    fn description(&self) -> (text: &'static str) {
        "Detects operations that might hit block gas limit"
    }
}

/// The text destroys the contract.
pub open spec fn self_destructs(text: Seq<char>) -> bool {
    contains(text, "selfdestruct"@) || contains(text, "suicide"@)
}

/// Whether the text destroys the contract.
fn is_self_destruct(text: &[char]) -> (hit: bool)
    ensures
        hit == self_destructs(text@),
{
    mentions(text, "selfdestruct") || mentions(text, "suicide")
}

/// Rule to detect force-sending ether vulnerabilities
pub struct ForceSendEtherRule {}

impl AnalysisRule for ForceSendEtherRule {
    open spec fn findings(&self, code: Seq<char>) -> Seq<IssueView> {
        issue_if(
            self_destructs(code),
            located_issue(
                Severity::Medium,
                "Contract uses selfdestruct which can force-send ether"@,
                line_number(lines(code), |line: Seq<char>| self_destructs(line)),
                "Be aware that contracts can receive ether via selfdestruct even without fallback or receive functions"@,
            ),
        )
    }

    open spec fn category_of(&self) -> Category {
        Category::Security
    }

    open spec fn identifier(&self) -> Seq<char> {
        "force_send_ether"@
    }

    open spec fn summary(&self) -> Seq<char> {
        "Detects force-sending ether vulnerabilities"@
    }

    fn analyze(&self, code: &str) -> (issues: Vec<Issue>) {
        let source = Source::new(code);
        let mut issues = no_issues();
        if is_self_destruct(source.text.as_slice()) {
            let line = source.locate(
                is_self_destruct,
                Ghost(|line: Seq<char>| self_destructs(line)),
            );
            report(
                &mut issues,
                Issue::located(
                    Severity::Medium,
                    "Contract uses selfdestruct which can force-send ether".to_string(),
                    line,
                    "Be aware that contracts can receive ether via selfdestruct even without fallback or receive functions",
                ),
            );
        }
        issues
    }

    fn category(&self) -> (category: Category) {
        Category::Security
    }

    fn id(&self) -> (id: &'static str) {
        "force_send_ether"
    }

    fn description(&self) -> (text: &'static str) {
        "Detects force-sending ether vulnerabilities"
    }
}

/// Rule to detect signature malleability vulnerabilities
pub struct SignatureMalleabilityRule {}

impl AnalysisRule for SignatureMalleabilityRule {
    open spec fn findings(&self, code: Seq<char>) -> Seq<IssueView> {
        issue_if(
            contains(code, "ecrecover"@) && !contains(code, "ecrecover(hash, v, r, s)"@),
            located_issue(
                Severity::Medium,
                "Potential signature malleability vulnerability"@,
                line_number(lines(code), |line: Seq<char>| contains(line, "ecrecover"@)),
                "Ensure signatures are properly validated and consider using OpenZeppelin's ECDSA library"@,
            ),
        )
    }

    open spec fn category_of(&self) -> Category {
        Category::Security
    }

    open spec fn identifier(&self) -> Seq<char> {
        "signature_malleability"@
    }

    open spec fn summary(&self) -> Seq<char> {
        "Detects potential signature malleability vulnerabilities"@
    }

    fn analyze(&self, code: &str) -> (issues: Vec<Issue>) {
        let source = Source::new(code);
        let mut issues = no_issues();
        if source.mentions("ecrecover") && !source.mentions("ecrecover(hash, v, r, s)") {
            let hit = |line: &[char]| -> (hit: bool)
                ensures
                    hit == contains(line@, "ecrecover"@),
                {
                    mentions(line, "ecrecover")
                };
            let line = source.locate(hit, Ghost(|line: Seq<char>| contains(line, "ecrecover"@)));
            report(
                &mut issues,
                Issue::located(
                    Severity::Medium,
                    "Potential signature malleability vulnerability".to_string(),
                    line,
                    "Ensure signatures are properly validated and consider using OpenZeppelin's ECDSA library",
                ),
            );
        }
        issues
    }

    fn category(&self) -> (category: Category) {
        Category::Security
    }

    fn id(&self) -> (id: &'static str) {
        "signature_malleability"
    }

    fn description(&self) -> (text: &'static str) {
        "Detects potential signature malleability vulnerabilities"
    }
}

/// The source speaks of drawing at random.
pub open spec fn draws_at_random(code: Seq<char>) -> bool {
    contains(code, "random"@) || contains(code, "lottery"@) || contains(code, "select"@)
        || contains(code, "winner"@)
}

/// What one weak source of randomness adds to the report.
pub open spec fn weak_source_use(code: Seq<char>, token: Seq<char>) -> Seq<IssueView> {
    issue_if(
        contains(code, token) && draws_at_random(code),
        located_issue(
            Severity::High,
            "Weak randomness using "@ + token,
            line_number(lines(code), |line: Seq<char>| contains(line, token)),
            "Use a secure source of randomness such as Chainlink VRF or commit-reveal schemes"@,
        ),
    )
}

/// Reports the weak source `token`, if the source text draws at random
/// and uses it.
fn check_weak_source(issues: &mut Vec<Issue>, source: &Source, token: &str)
    requires
        source.well_formed(),
    ensures
        issue_views(final(issues)@) == issue_views(old(issues)@) + weak_source_use(
            source.text@,
            token@,
        ),
{
    if source.mentions(token) && (source.mentions("random") || source.mentions("lottery")
        || source.mentions("select") || source.mentions("winner")) {
        let hit = |line: &[char]| -> (hit: bool)
            ensures
                hit == contains(line@, token@),
            {
                mentions(line, token)
            };
        let line = source.locate(hit, Ghost(|line: Seq<char>| contains(line, token@)));
        report(
            issues,
            Issue::located(
                Severity::High,
                followed_by("Weak randomness using ", token),
                line,
                "Use a secure source of randomness such as Chainlink VRF or commit-reveal schemes",
            ),
        );
    }
    assert(issue_views(issues@) =~= issue_views(old(issues)@) + weak_source_use(
        source.text@,
        token@,
    ));
}

/// Rule to detect weak randomness vulnerabilities
pub struct WeakRandomnessRule {}

impl AnalysisRule for WeakRandomnessRule {
    open spec fn findings(&self, code: Seq<char>) -> Seq<IssueView> {
        weak_source_use(code, "block.timestamp"@) + weak_source_use(code, "now"@)
            + weak_source_use(code, "block.number"@) + weak_source_use(code, "blockhash"@)
            + weak_source_use(code, "block.difficulty"@) + weak_source_use(code, "block.coinbase"@)
            + weak_source_use(code, "block.gaslimit"@) + weak_source_use(code, "msg.gas"@)
            + weak_source_use(code, "tx.gasprice"@)
    }

    open spec fn category_of(&self) -> Category {
        Category::Security
    }

    open spec fn identifier(&self) -> Seq<char> {
        "weak_randomness"@
    }

    open spec fn summary(&self) -> Seq<char> {
        "Detects weak sources of randomness"@
    }

    fn analyze(&self, code: &str) -> (issues: Vec<Issue>) {
        let source = Source::new(code);
        let mut issues = no_issues();
        // Check for common weak sources of randomness
        check_weak_source(&mut issues, &source, "block.timestamp");
        check_weak_source(&mut issues, &source, "now");
        check_weak_source(&mut issues, &source, "block.number");
        check_weak_source(&mut issues, &source, "blockhash");
        check_weak_source(&mut issues, &source, "block.difficulty");
        check_weak_source(&mut issues, &source, "block.coinbase");
        check_weak_source(&mut issues, &source, "block.gaslimit");
        check_weak_source(&mut issues, &source, "msg.gas");
        check_weak_source(&mut issues, &source, "tx.gasprice");
        assert(issue_views(issues@) =~= self.findings(code@));
        issues
    }

    fn category(&self) -> (category: Category) {
        Category::Security
    }

    fn id(&self) -> (id: &'static str) {
        "weak_randomness"
    }

    fn description(&self) -> (text: &'static str) {
        "Detects weak sources of randomness"
    }
}

} // verus!
