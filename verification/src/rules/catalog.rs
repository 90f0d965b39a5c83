//! The catalog: every rule of the library as one type, and the rules that
//! an analyzer runs when nothing else is configured.

use crate::models::{Category, Issue, IssueView};
use crate::rules::advanced_vulnerabilities::{
    BlockGasLimitRule, DosWithRevertRule, ForceSendEtherRule, SignatureMalleabilityRule,
    WeakRandomnessRule,
};
use crate::rules::contract_patterns::{
    AssemblyUsageRule, DeprecatedPatternsRule, FloatingPragmaRule, MissingVisibilityRule,
    TxOriginAuthRule,
};
use crate::rules::contract_vulnerabilities::{
    DoSVulnerabilityRule, FrontRunningRule, IntegerOverflowRule, SelfDestructRule,
    TimestampDependenceRule, UncheckedReturnRule,
};
use crate::rules::gas_analysis::GasAnalysisRule;
use crate::rules::security_analysis::SecurityAnalysisRule;
use crate::rules::{
    AnalysisRule, EventEmissionRule, GasOptimizationRule, ReentrancyRule,
    SecurityBestPracticesRule, StorageEfficiencyRule,
};
use vstd::prelude::*;

verus! {

/// Any rule of the library. It does what the rule it holds does.
pub enum Rule {
    Reentrancy(ReentrancyRule),
    StorageEfficiency(StorageEfficiencyRule),
    EventEmission(EventEmissionRule),
    GasOptimization(GasOptimizationRule),
    SecurityBestPractices(SecurityBestPracticesRule),
    IntegerOverflow(IntegerOverflowRule),
    SelfDestruct(SelfDestructRule),
    TimestampDependence(TimestampDependenceRule),
    FrontRunning(FrontRunningRule),
    UncheckedReturn(UncheckedReturnRule),
    DoSVulnerability(DoSVulnerabilityRule),
    MissingVisibility(MissingVisibilityRule),
    FloatingPragma(FloatingPragmaRule),
    DeprecatedPatterns(DeprecatedPatternsRule),
    TxOriginAuth(TxOriginAuthRule),
    AssemblyUsage(AssemblyUsageRule),
    DosWithRevert(DosWithRevertRule),
    BlockGasLimit(BlockGasLimitRule),
    ForceSendEther(ForceSendEtherRule),
    SignatureMalleability(SignatureMalleabilityRule),
    WeakRandomness(WeakRandomnessRule),
    GasAnalysis(GasAnalysisRule),
    SecurityAnalysis(SecurityAnalysisRule),
}

impl AnalysisRule for Rule {
    open spec fn findings(&self, code: Seq<char>) -> Seq<IssueView> {
        match self {
            Rule::Reentrancy(rule) => rule.findings(code),
            Rule::StorageEfficiency(rule) => rule.findings(code),
            Rule::EventEmission(rule) => rule.findings(code),
            Rule::GasOptimization(rule) => rule.findings(code),
            Rule::SecurityBestPractices(rule) => rule.findings(code),
            Rule::IntegerOverflow(rule) => rule.findings(code),
            Rule::SelfDestruct(rule) => rule.findings(code),
            Rule::TimestampDependence(rule) => rule.findings(code),
            Rule::FrontRunning(rule) => rule.findings(code),
            Rule::UncheckedReturn(rule) => rule.findings(code),
            Rule::DoSVulnerability(rule) => rule.findings(code),
            Rule::MissingVisibility(rule) => rule.findings(code),
            Rule::FloatingPragma(rule) => rule.findings(code),
            Rule::DeprecatedPatterns(rule) => rule.findings(code),
            Rule::TxOriginAuth(rule) => rule.findings(code),
            Rule::AssemblyUsage(rule) => rule.findings(code),
            Rule::DosWithRevert(rule) => rule.findings(code),
            Rule::BlockGasLimit(rule) => rule.findings(code),
            Rule::ForceSendEther(rule) => rule.findings(code),
            Rule::SignatureMalleability(rule) => rule.findings(code),
            Rule::WeakRandomness(rule) => rule.findings(code),
            Rule::GasAnalysis(rule) => rule.findings(code),
            Rule::SecurityAnalysis(rule) => rule.findings(code),
        }
    }

    open spec fn category_of(&self) -> Category {
        match self {
            Rule::Reentrancy(rule) => rule.category_of(),
            Rule::StorageEfficiency(rule) => rule.category_of(),
            Rule::EventEmission(rule) => rule.category_of(),
            Rule::GasOptimization(rule) => rule.category_of(),
            Rule::SecurityBestPractices(rule) => rule.category_of(),
            Rule::IntegerOverflow(rule) => rule.category_of(),
            Rule::SelfDestruct(rule) => rule.category_of(),
            Rule::TimestampDependence(rule) => rule.category_of(),
            Rule::FrontRunning(rule) => rule.category_of(),
            Rule::UncheckedReturn(rule) => rule.category_of(),
            Rule::DoSVulnerability(rule) => rule.category_of(),
            Rule::MissingVisibility(rule) => rule.category_of(),
            Rule::FloatingPragma(rule) => rule.category_of(),
            Rule::DeprecatedPatterns(rule) => rule.category_of(),
            Rule::TxOriginAuth(rule) => rule.category_of(),
            Rule::AssemblyUsage(rule) => rule.category_of(),
            Rule::DosWithRevert(rule) => rule.category_of(),
            Rule::BlockGasLimit(rule) => rule.category_of(),
            Rule::ForceSendEther(rule) => rule.category_of(),
            Rule::SignatureMalleability(rule) => rule.category_of(),
            Rule::WeakRandomness(rule) => rule.category_of(),
            Rule::GasAnalysis(rule) => rule.category_of(),
            Rule::SecurityAnalysis(rule) => rule.category_of(),
        }
    }

    open spec fn identifier(&self) -> Seq<char> {
        match self {
            Rule::Reentrancy(rule) => rule.identifier(),
            Rule::StorageEfficiency(rule) => rule.identifier(),
            Rule::EventEmission(rule) => rule.identifier(),
            Rule::GasOptimization(rule) => rule.identifier(),
            Rule::SecurityBestPractices(rule) => rule.identifier(),
            Rule::IntegerOverflow(rule) => rule.identifier(),
            Rule::SelfDestruct(rule) => rule.identifier(),
            Rule::TimestampDependence(rule) => rule.identifier(),
            Rule::FrontRunning(rule) => rule.identifier(),
            Rule::UncheckedReturn(rule) => rule.identifier(),
            Rule::DoSVulnerability(rule) => rule.identifier(),
            Rule::MissingVisibility(rule) => rule.identifier(),
            Rule::FloatingPragma(rule) => rule.identifier(),
            Rule::DeprecatedPatterns(rule) => rule.identifier(),
            Rule::TxOriginAuth(rule) => rule.identifier(),
            Rule::AssemblyUsage(rule) => rule.identifier(),
            Rule::DosWithRevert(rule) => rule.identifier(),
            Rule::BlockGasLimit(rule) => rule.identifier(),
            Rule::ForceSendEther(rule) => rule.identifier(),
            Rule::SignatureMalleability(rule) => rule.identifier(),
            Rule::WeakRandomness(rule) => rule.identifier(),
            Rule::GasAnalysis(rule) => rule.identifier(),
            Rule::SecurityAnalysis(rule) => rule.identifier(),
        }
    }

    open spec fn summary(&self) -> Seq<char> {
        match self {
            Rule::Reentrancy(rule) => rule.summary(),
            Rule::StorageEfficiency(rule) => rule.summary(),
            Rule::EventEmission(rule) => rule.summary(),
            Rule::GasOptimization(rule) => rule.summary(),
            Rule::SecurityBestPractices(rule) => rule.summary(),
            Rule::IntegerOverflow(rule) => rule.summary(),
            Rule::SelfDestruct(rule) => rule.summary(),
            Rule::TimestampDependence(rule) => rule.summary(),
            Rule::FrontRunning(rule) => rule.summary(),
            Rule::UncheckedReturn(rule) => rule.summary(),
            Rule::DoSVulnerability(rule) => rule.summary(),
            Rule::MissingVisibility(rule) => rule.summary(),
            Rule::FloatingPragma(rule) => rule.summary(),
            Rule::DeprecatedPatterns(rule) => rule.summary(),
            Rule::TxOriginAuth(rule) => rule.summary(),
            Rule::AssemblyUsage(rule) => rule.summary(),
            Rule::DosWithRevert(rule) => rule.summary(),
            Rule::BlockGasLimit(rule) => rule.summary(),
            Rule::ForceSendEther(rule) => rule.summary(),
            Rule::SignatureMalleability(rule) => rule.summary(),
            Rule::WeakRandomness(rule) => rule.summary(),
            Rule::GasAnalysis(rule) => rule.summary(),
            Rule::SecurityAnalysis(rule) => rule.summary(),
        }
    }

    fn analyze(&self, code: &str) -> (issues: Vec<Issue>) {
        match self {
            Rule::Reentrancy(rule) => rule.analyze(code),
            Rule::StorageEfficiency(rule) => rule.analyze(code),
            Rule::EventEmission(rule) => rule.analyze(code),
            Rule::GasOptimization(rule) => rule.analyze(code),
            Rule::SecurityBestPractices(rule) => rule.analyze(code),
            Rule::IntegerOverflow(rule) => rule.analyze(code),
            Rule::SelfDestruct(rule) => rule.analyze(code),
            Rule::TimestampDependence(rule) => rule.analyze(code),
            Rule::FrontRunning(rule) => rule.analyze(code),
            Rule::UncheckedReturn(rule) => rule.analyze(code),
            Rule::DoSVulnerability(rule) => rule.analyze(code),
            Rule::MissingVisibility(rule) => rule.analyze(code),
            Rule::FloatingPragma(rule) => rule.analyze(code),
            Rule::DeprecatedPatterns(rule) => rule.analyze(code),
            Rule::TxOriginAuth(rule) => rule.analyze(code),
            Rule::AssemblyUsage(rule) => rule.analyze(code),
            Rule::DosWithRevert(rule) => rule.analyze(code),
            Rule::BlockGasLimit(rule) => rule.analyze(code),
            Rule::ForceSendEther(rule) => rule.analyze(code),
            Rule::SignatureMalleability(rule) => rule.analyze(code),
            Rule::WeakRandomness(rule) => rule.analyze(code),
            Rule::GasAnalysis(rule) => rule.analyze(code),
            Rule::SecurityAnalysis(rule) => rule.analyze(code),
        }
    }

    fn category(&self) -> (category: Category) {
        match self {
            Rule::Reentrancy(rule) => rule.category(),
            Rule::StorageEfficiency(rule) => rule.category(),
            Rule::EventEmission(rule) => rule.category(),
            Rule::GasOptimization(rule) => rule.category(),
            Rule::SecurityBestPractices(rule) => rule.category(),
            Rule::IntegerOverflow(rule) => rule.category(),
            Rule::SelfDestruct(rule) => rule.category(),
            Rule::TimestampDependence(rule) => rule.category(),
            Rule::FrontRunning(rule) => rule.category(),
            Rule::UncheckedReturn(rule) => rule.category(),
            Rule::DoSVulnerability(rule) => rule.category(),
            Rule::MissingVisibility(rule) => rule.category(),
            Rule::FloatingPragma(rule) => rule.category(),
            Rule::DeprecatedPatterns(rule) => rule.category(),
            Rule::TxOriginAuth(rule) => rule.category(),
            Rule::AssemblyUsage(rule) => rule.category(),
            Rule::DosWithRevert(rule) => rule.category(),
            Rule::BlockGasLimit(rule) => rule.category(),
            Rule::ForceSendEther(rule) => rule.category(),
            Rule::SignatureMalleability(rule) => rule.category(),
            Rule::WeakRandomness(rule) => rule.category(),
            Rule::GasAnalysis(rule) => rule.category(),
            Rule::SecurityAnalysis(rule) => rule.category(),
        }
    }

    fn id(&self) -> (id: &'static str) {
        match self {
            Rule::Reentrancy(rule) => rule.id(),
            Rule::StorageEfficiency(rule) => rule.id(),
            Rule::EventEmission(rule) => rule.id(),
            Rule::GasOptimization(rule) => rule.id(),
            Rule::SecurityBestPractices(rule) => rule.id(),
            Rule::IntegerOverflow(rule) => rule.id(),
            Rule::SelfDestruct(rule) => rule.id(),
            Rule::TimestampDependence(rule) => rule.id(),
            Rule::FrontRunning(rule) => rule.id(),
            Rule::UncheckedReturn(rule) => rule.id(),
            Rule::DoSVulnerability(rule) => rule.id(),
            Rule::MissingVisibility(rule) => rule.id(),
            Rule::FloatingPragma(rule) => rule.id(),
            Rule::DeprecatedPatterns(rule) => rule.id(),
            Rule::TxOriginAuth(rule) => rule.id(),
            Rule::AssemblyUsage(rule) => rule.id(),
            Rule::DosWithRevert(rule) => rule.id(),
            Rule::BlockGasLimit(rule) => rule.id(),
            Rule::ForceSendEther(rule) => rule.id(),
            Rule::SignatureMalleability(rule) => rule.id(),
            Rule::WeakRandomness(rule) => rule.id(),
            Rule::GasAnalysis(rule) => rule.id(),
            Rule::SecurityAnalysis(rule) => rule.id(),
        }
    }

    fn description(&self) -> (text: &'static str) {
        match self {
            Rule::Reentrancy(rule) => rule.description(),
            Rule::StorageEfficiency(rule) => rule.description(),
            Rule::EventEmission(rule) => rule.description(),
            Rule::GasOptimization(rule) => rule.description(),
            Rule::SecurityBestPractices(rule) => rule.description(),
            Rule::IntegerOverflow(rule) => rule.description(),
            Rule::SelfDestruct(rule) => rule.description(),
            Rule::TimestampDependence(rule) => rule.description(),
            Rule::FrontRunning(rule) => rule.description(),
            Rule::UncheckedReturn(rule) => rule.description(),
            Rule::DoSVulnerability(rule) => rule.description(),
            Rule::MissingVisibility(rule) => rule.description(),
            Rule::FloatingPragma(rule) => rule.description(),
            Rule::DeprecatedPatterns(rule) => rule.description(),
            Rule::TxOriginAuth(rule) => rule.description(),
            Rule::AssemblyUsage(rule) => rule.description(),
            Rule::DosWithRevert(rule) => rule.description(),
            Rule::BlockGasLimit(rule) => rule.description(),
            Rule::ForceSendEther(rule) => rule.description(),
            Rule::SignatureMalleability(rule) => rule.description(),
            Rule::WeakRandomness(rule) => rule.description(),
            Rule::GasAnalysis(rule) => rule.description(),
            Rule::SecurityAnalysis(rule) => rule.description(),
        }
    }
}

/// The rules that an analyzer runs by default, in the order in which it
/// runs them.
pub open spec fn default_rules() -> Seq<Rule> {
    seq![
        Rule::Reentrancy(ReentrancyRule {}),
        Rule::StorageEfficiency(StorageEfficiencyRule {}),
        Rule::EventEmission(EventEmissionRule {}),
        Rule::GasOptimization(GasOptimizationRule {}),
        Rule::SecurityBestPractices(SecurityBestPracticesRule {}),
        Rule::IntegerOverflow(IntegerOverflowRule {}),
        Rule::SelfDestruct(SelfDestructRule {}),
        Rule::TimestampDependence(TimestampDependenceRule {}),
        Rule::FrontRunning(FrontRunningRule {}),
        Rule::UncheckedReturn(UncheckedReturnRule {}),
        Rule::DoSVulnerability(DoSVulnerabilityRule {}),
        Rule::MissingVisibility(MissingVisibilityRule {}),
        Rule::FloatingPragma(FloatingPragmaRule {}),
        Rule::DeprecatedPatterns(DeprecatedPatternsRule {}),
        Rule::TxOriginAuth(TxOriginAuthRule {}),
        Rule::AssemblyUsage(AssemblyUsageRule {}),
        Rule::DosWithRevert(DosWithRevertRule {}),
        Rule::BlockGasLimit(BlockGasLimitRule {}),
        Rule::ForceSendEther(ForceSendEtherRule {}),
        Rule::SignatureMalleability(SignatureMalleabilityRule {}),
        Rule::WeakRandomness(WeakRandomnessRule {}),
    ]
}

/// The length of an identifier together with its first character, which
/// tell the identifiers of the default rules apart.
pub open spec fn initial(id: Seq<char>) -> (nat, char) {
    (id.len(), id[0])
}

/// No two of the default rules have the same identifier.
pub proof fn lemma_default_identifiers_differ()
    ensures
        forall|i: int, j: int|
            0 <= i < j < default_rules().len() ==> default_rules()[i].identifier()
                != default_rules()[j].identifier(),
{
    reveal_strlit("reentrancy");
    reveal_strlit("storage_efficiency");
    reveal_strlit("event_emission");
    reveal_strlit("gas_optimization");
    reveal_strlit("security_best_practices");
    reveal_strlit("integer_overflow");
    reveal_strlit("unprotected_selfdestruct");
    reveal_strlit("timestamp_dependence");
    reveal_strlit("front_running");
    reveal_strlit("unchecked_return");
    reveal_strlit("dos_vulnerability");
    reveal_strlit("missing_visibility");
    reveal_strlit("floating_pragma");
    reveal_strlit("deprecated_patterns");
    reveal_strlit("tx_origin_auth");
    reveal_strlit("assembly_usage");
    reveal_strlit("dos_with_revert");
    reveal_strlit("block_gas_limit");
    reveal_strlit("force_send_ether");
    reveal_strlit("signature_malleability");
    reveal_strlit("weak_randomness");
    assert(initial(default_rules()[0].identifier()) == (10nat, 'r'));
    assert(initial(default_rules()[1].identifier()) == (18nat, 's'));
    assert(initial(default_rules()[2].identifier()) == (14nat, 'e'));
    assert(initial(default_rules()[3].identifier()) == (16nat, 'g'));
    assert(initial(default_rules()[4].identifier()) == (23nat, 's'));
    assert(initial(default_rules()[5].identifier()) == (16nat, 'i'));
    assert(initial(default_rules()[6].identifier()) == (24nat, 'u'));
    assert(initial(default_rules()[7].identifier()) == (20nat, 't'));
    assert(initial(default_rules()[8].identifier()) == (13nat, 'f'));
    assert(initial(default_rules()[9].identifier()) == (16nat, 'u'));
    assert(initial(default_rules()[10].identifier()) == (17nat, 'd'));
    assert(initial(default_rules()[11].identifier()) == (18nat, 'm'));
    assert(initial(default_rules()[12].identifier()) == (15nat, 'f'));
    assert(initial(default_rules()[13].identifier()) == (19nat, 'd'));
    assert(initial(default_rules()[14].identifier()) == (14nat, 't'));
    assert(initial(default_rules()[15].identifier()) == (14nat, 'a'));
    assert(initial(default_rules()[16].identifier()) == (15nat, 'd'));
    assert(initial(default_rules()[17].identifier()) == (15nat, 'b'));
    assert(initial(default_rules()[18].identifier()) == (16nat, 'f'));
    assert(initial(default_rules()[19].identifier()) == (22nat, 's'));
    assert(initial(default_rules()[20].identifier()) == (15nat, 'w'));
    assert forall|i: int, j: int| 0 <= i < j < default_rules().len() implies initial(
        default_rules()[i].identifier(),
    ) != initial(default_rules()[j].identifier()) by {}
}

/// Get all default rules
pub fn get_default_rules() -> (rules: Vec<Rule>)
    ensures
        rules@ == default_rules(),
{
    let mut rules: Vec<Rule> = Vec::new();
    // Basic rules
    rules.push(Rule::Reentrancy(ReentrancyRule {}));
    rules.push(Rule::StorageEfficiency(StorageEfficiencyRule {}));
    rules.push(Rule::EventEmission(EventEmissionRule {}));
    rules.push(Rule::GasOptimization(GasOptimizationRule {}));
    rules.push(Rule::SecurityBestPractices(SecurityBestPracticesRule {}));
    // Vulnerability rules
    rules.push(Rule::IntegerOverflow(IntegerOverflowRule {}));
    rules.push(Rule::SelfDestruct(SelfDestructRule {}));
    rules.push(Rule::TimestampDependence(TimestampDependenceRule {}));
    rules.push(Rule::FrontRunning(FrontRunningRule {}));
    rules.push(Rule::UncheckedReturn(UncheckedReturnRule {}));
    rules.push(Rule::DoSVulnerability(DoSVulnerabilityRule {}));
    // Pattern rules
    rules.push(Rule::MissingVisibility(MissingVisibilityRule {}));
    rules.push(Rule::FloatingPragma(FloatingPragmaRule {}));
    rules.push(Rule::DeprecatedPatterns(DeprecatedPatternsRule {}));
    rules.push(Rule::TxOriginAuth(TxOriginAuthRule {}));
    rules.push(Rule::AssemblyUsage(AssemblyUsageRule {}));
    // Advanced vulnerability rules
    rules.push(Rule::DosWithRevert(DosWithRevertRule {}));
    rules.push(Rule::BlockGasLimit(BlockGasLimitRule {}));
    rules.push(Rule::ForceSendEther(ForceSendEtherRule {}));
    rules.push(Rule::SignatureMalleability(SignatureMalleabilityRule {}));
    rules.push(Rule::WeakRandomness(WeakRandomnessRule {}));
    assert(rules@ =~= default_rules());
    rules
}

} // verus!
