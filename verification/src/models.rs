//! The values an analysis works with: issues, metrics, results and the
//! analyzer's configuration.

use vstd::prelude::*;
use vstd::std_specs::cmp::PartialEqSpecImpl;

verus! {

/// How serious an issue is.
#[derive(Debug, Clone, Copy, PartialEq, Eq, Structural)]
pub enum Severity {
    High,
    Medium,
    Low,
}

/// One finding of a rule.
#[derive(Debug, Clone)]
pub struct Issue {
    pub severity: Severity,
    pub message: String,
    /// The one-based line that the finding is attributed to.
    pub line: Option<usize>,
    pub recommendation: Option<String>,
}

/// What an [`Issue`] holds, as mathematical values.
pub ghost struct IssueView {
    pub severity: Severity,
    pub message: Seq<char>,
    pub line: Option<nat>,
    pub recommendation: Option<Seq<char>>,
}

impl View for Issue {
    type V = IssueView;

    open spec fn view(&self) -> IssueView {
        IssueView {
            severity: self.severity,
            message: self.message@,
            line: match self.line {
                Some(n) => Some(n as nat),
                None => None,
            },
            recommendation: match self.recommendation {
                Some(text) => Some(text@),
                None => None,
            },
        }
    }
}

/// The views of a sequence of issues, in the same order.
pub open spec fn issue_views(issues: Seq<Issue>) -> Seq<IssueView> {
    issues.map_values(|issue: Issue| issue@)
}

/// The issue that a rule reports with a line and a recommendation.
pub open spec fn located_issue(
    severity: Severity,
    message: Seq<char>,
    line: nat,
    recommendation: Seq<char>,
) -> IssueView {
    IssueView { severity, message, line: Some(line), recommendation: Some(recommendation) }
}

impl Issue {
    /// An issue attributed to `line`, with advice on how to mend it.
    pub fn located(
        severity: Severity,
        message: String,
        line: usize,
        recommendation: &str,
    ) -> (issue: Issue)
        ensures
            issue@ == located_issue(severity, message@, line as nat, recommendation@),
    {
        Issue {
            severity,
            message,
            line: Some(line),
            recommendation: Some(recommendation.to_string()),
        }
    }
}

impl PartialEq for Issue {
    /// Whether two issues hold the same values in every field.
    fn eq(&self, other: &Issue) -> (same: bool) {
        let severity = self.severity == other.severity;
        let message = self.message == other.message;
        let line = match (self.line, other.line) {
            (Some(a), Some(b)) => a == b,
            (None, None) => true,
            _ => false,
        };
        let recommendation = match (&self.recommendation, &other.recommendation) {
            (Some(a), Some(b)) => *a == *b,
            (None, None) => true,
            _ => false,
        };
        severity && message && line && recommendation
    }
}

impl PartialEqSpecImpl for Issue {
    open spec fn obeys_eq_spec() -> bool {
        true
    }

    open spec fn eq_spec(&self, other: &Issue) -> bool {
        self@ == other@
    }
}

/// The four scores of an analysis, each from 0 to 100.
#[derive(Debug, Clone, Copy, PartialEq, Eq, Structural)]
pub struct Metrics {
    pub performance: u8,
    pub security: u8,
    pub gas_efficiency: u8,
    pub code_quality: u8,
}

/// What an analysis returns.
#[derive(Debug, Clone)]
pub struct AnalysisResults {
    pub score: u8,
    pub metrics: Metrics,
    pub issues: Vec<Issue>,
}

/// What an [`AnalysisResults`] holds, as mathematical values.
pub ghost struct AnalysisResultsView {
    pub score: u8,
    pub metrics: Metrics,
    pub issues: Seq<IssueView>,
}

impl View for AnalysisResults {
    type V = AnalysisResultsView;

    open spec fn view(&self) -> AnalysisResultsView {
        AnalysisResultsView {
            score: self.score,
            metrics: self.metrics,
            issues: issue_views(self.issues@),
        }
    }
}

/// The bucket whose metric a rule counts towards.
#[derive(Debug, Clone, Copy, PartialEq, Eq, Hash, Structural)]
pub enum Category {
    Security,
    Performance,
    GasEfficiency,
    CodeQuality,
}

impl Category {
    /// The name under which a configuration refers to the category.
    pub open spec fn name(self) -> Seq<char> {
        match self {
            Category::Security => "security"@,
            Category::Performance => "performance"@,
            Category::GasEfficiency => "gas_efficiency"@,
            Category::CodeQuality => "code_quality"@,
        }
    }

    /// The name of the category.
    pub fn as_str(&self) -> (name: &'static str)
        ensures
            name@ == self.name(),
    {
        match self {
            Category::Security => "security",
            Category::Performance => "performance",
            Category::GasEfficiency => "gas_efficiency",
            Category::CodeQuality => "code_quality",
        }
    }

    /// The category of the given name, if there is one.
    pub fn from_name(name: &str) -> (category: Option<Category>)
        ensures
            match category {
                Some(category) => category.name() == name@,
                None => forall|category: Category| category.name() != name@,
            },
    {
        let wanted = name.to_string();
        if wanted == Category::Security.as_str().to_string() {
            Some(Category::Security)
        } else if wanted == Category::Performance.as_str().to_string() {
            Some(Category::Performance)
        } else if wanted == Category::GasEfficiency.as_str().to_string() {
            Some(Category::GasEfficiency)
        } else if wanted == Category::CodeQuality.as_str().to_string() {
            Some(Category::CodeQuality)
        } else {
            None
        }
    }
}

/// No two categories have the same name.
pub proof fn lemma_category_names_differ()
    ensures
        forall|first: Category, second: Category|
            first != second ==> first.name() != second.name(),
{
    reveal_strlit("security");
    reveal_strlit("performance");
    reveal_strlit("gas_efficiency");
    reveal_strlit("code_quality");
    assert forall|first: Category, second: Category| first != second implies first.name()
        != second.name() by {
        assert(first.name().len() != second.name().len());
    }
}

/// The number that stands for the weight 1: weights are counted in millionths.
pub const WEIGHT_UNIT: i32 = 1_000_000;

/// The weight of the security metric when none is configured: 0.4.
pub const DEFAULT_SECURITY_WEIGHT: i32 = 400_000;

/// The weight of the performance metric when none is configured: 0.2.
pub const DEFAULT_PERFORMANCE_WEIGHT: i32 = 200_000;

/// The weight of the gas efficiency metric when none is configured: 0.3.
pub const DEFAULT_GAS_EFFICIENCY_WEIGHT: i32 = 300_000;

/// The weight of the code quality metric when none is configured: 0.1.
pub const DEFAULT_CODE_QUALITY_WEIGHT: i32 = 100_000;

/// The weight of each metric in the overall score, in millionths. Weights
/// need not add up to [`WEIGHT_UNIT`], and may be negative.
#[derive(Debug, Clone, Copy, PartialEq, Eq, Structural)]
pub struct Weights {
    pub security: i32,
    pub performance: i32,
    pub gas_efficiency: i32,
    pub code_quality: i32,
}

/// The weights that apply when a configuration sets none.
pub open spec fn default_weights() -> Weights {
    Weights {
        security: DEFAULT_SECURITY_WEIGHT,
        performance: DEFAULT_PERFORMANCE_WEIGHT,
        gas_efficiency: DEFAULT_GAS_EFFICIENCY_WEIGHT,
        code_quality: DEFAULT_CODE_QUALITY_WEIGHT,
    }
}

impl Default for Weights {
    fn default() -> (weights: Weights)
        ensures
            weights == default_weights(),
    {
        Weights {
            security: DEFAULT_SECURITY_WEIGHT,
            performance: DEFAULT_PERFORMANCE_WEIGHT,
            gas_efficiency: DEFAULT_GAS_EFFICIENCY_WEIGHT,
            code_quality: DEFAULT_CODE_QUALITY_WEIGHT,
        }
    }
}

/// Weights set by a configuration, in millionths, each under the name of
/// its category. A category without a weight keeps its default.
#[derive(Debug, Clone, Copy, PartialEq, Eq, Structural)]
pub struct CustomWeights {
    pub security: Option<i32>,
    pub performance: Option<i32>,
    pub gas_efficiency: Option<i32>,
    pub code_quality: Option<i32>,
}

impl CustomWeights {
    /// The weights after the category of the name `name` was given the
    /// weight `weight`. A name that belongs to no category changes nothing.
    pub open spec fn with(self, name: Seq<char>, weight: i32) -> CustomWeights {
        if name == Category::Security.name() {
            CustomWeights { security: Some(weight), ..self }
        } else if name == Category::Performance.name() {
            CustomWeights { performance: Some(weight), ..self }
        } else if name == Category::GasEfficiency.name() {
            CustomWeights { gas_efficiency: Some(weight), ..self }
        } else if name == Category::CodeQuality.name() {
            CustomWeights { code_quality: Some(weight), ..self }
        } else {
            self
        }
    }

    /// No custom weight: every category keeps its default.
    pub fn new() -> (weights: CustomWeights)
        ensures
            weights == (CustomWeights {
                security: None,
                performance: None,
                gas_efficiency: None,
                code_quality: None,
            }),
    {
        CustomWeights {
            security: None,
            performance: None,
            gas_efficiency: None,
            code_quality: None,
        }
    }

    /// Gives the category of the name `name` the weight `weight`. A name
    /// that belongs to no category changes nothing.
    pub fn set(&mut self, name: &str, weight: i32)
        ensures
            *final(self) == old(self).with(name@, weight),
    {
        proof {
            lemma_category_names_differ();
        }
        match Category::from_name(name) {
            Some(Category::Security) => {
                self.security = Some(weight);
            },
            Some(Category::Performance) => {
                self.performance = Some(weight);
            },
            Some(Category::GasEfficiency) => {
                self.gas_efficiency = Some(weight);
            },
            Some(Category::CodeQuality) => {
                self.code_quality = Some(weight);
            },
            None => {},
        }
    }
}

/// The configured weight, or the default where none is configured.
pub open spec fn weight_or(custom: Option<i32>, default: i32) -> i32 {
    match custom {
        Some(weight) => weight,
        None => default,
    }
}

/// The weights that a configuration leads to.
pub open spec fn effective_weights(custom: Option<CustomWeights>) -> Weights {
    match custom {
        Some(custom) => Weights {
            security: weight_or(custom.security, DEFAULT_SECURITY_WEIGHT),
            performance: weight_or(custom.performance, DEFAULT_PERFORMANCE_WEIGHT),
            gas_efficiency: weight_or(custom.gas_efficiency, DEFAULT_GAS_EFFICIENCY_WEIGHT),
            code_quality: weight_or(custom.code_quality, DEFAULT_CODE_QUALITY_WEIGHT),
        },
        None => default_weights(),
    }
}

/// Which rules an analyzer runs, and how it weighs the metrics.
#[derive(Debug, Clone)]
pub struct AnalyzerConfig {
    /// The identifiers of the rules to run; `"all"` stands for every rule.
    pub enabled_rules: Vec<String>,
    pub custom_weights: Option<CustomWeights>,
}

/// What an [`AnalyzerConfig`] holds, as mathematical values.
pub ghost struct AnalyzerConfigView {
    pub enabled_rules: Seq<Seq<char>>,
    pub custom_weights: Option<CustomWeights>,
}

/// The views of a sequence of strings, in the same order.
pub open spec fn string_views(strings: Seq<String>) -> Seq<Seq<char>> {
    strings.map_values(|s: String| s@)
}

impl View for AnalyzerConfig {
    type V = AnalyzerConfigView;

    open spec fn view(&self) -> AnalyzerConfigView {
        AnalyzerConfigView {
            enabled_rules: string_views(self.enabled_rules@),
            custom_weights: self.custom_weights,
        }
    }
}

impl AnalyzerConfig {
    /// The weights that this configuration leads to.
    pub fn weights(&self) -> (weights: Weights)
        ensures
            weights == effective_weights(self.custom_weights),
    {
        match self.custom_weights {
            Some(custom) => Weights {
                security: custom.security.unwrap_or(DEFAULT_SECURITY_WEIGHT),
                performance: custom.performance.unwrap_or(DEFAULT_PERFORMANCE_WEIGHT),
                gas_efficiency: custom.gas_efficiency.unwrap_or(DEFAULT_GAS_EFFICIENCY_WEIGHT),
                code_quality: custom.code_quality.unwrap_or(DEFAULT_CODE_QUALITY_WEIGHT),
            },
            None => Weights::default(),
        }
    }
}

impl Default for AnalyzerConfig {
    /// Every rule, with the default weights.
    fn default() -> (config: AnalyzerConfig)
        ensures
            config@.enabled_rules == seq!["all"@],
            config@.custom_weights is None,
    {
        let mut enabled_rules: Vec<String> = Vec::new();
        enabled_rules.push("all".to_string());
        assert(string_views(enabled_rules@) =~= seq!["all"@]);
        AnalyzerConfig { enabled_rules, custom_weights: None }
    }
}

} // verus!
