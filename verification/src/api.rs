//! API integration for the analyzer: requests for an analysis and the
//! responses to them, as values.

use crate::analyzer::{analysis_of, analyze_contract, enabled_rules, Analyzer};
use crate::models::{
    default_weights, effective_weights, AnalysisResults, AnalysisResultsView, AnalyzerConfig,
    AnalyzerConfigView, Weights,
};
use crate::rules::catalog::default_rules;
use crate::scoring::{in_range, normalized};
use vstd::prelude::*;

verus! {

/// Request format for the analyzer API
#[derive(Debug)]
pub struct AnalyzeRequest {
    /// The smart contract code to analyze
    pub code: String,
    /// Optional configuration for the analyzer
    pub config: Option<AnalyzerConfig>,
}

/// Response format for the analyzer API
#[derive(Debug)]
pub struct AnalyzeResponse {
    /// The analysis results
    pub results: AnalysisResults,
}

/// The configuration of a request, as mathematical values.
pub open spec fn config_view(config: Option<AnalyzerConfig>) -> Option<AnalyzerConfigView> {
    match config {
        Some(config) => Some(config@),
        None => None,
    }
}

/// The results that answer a request: those of the default rules that the
/// configuration enables, scored under its weights, or those of all default
/// rules under the default weights when the request has no configuration.
pub open spec fn answer(
    code: Seq<char>,
    config: Option<AnalyzerConfigView>,
) -> AnalysisResultsView {
    match config {
        Some(config) => analysis_of(
            enabled_rules(default_rules(), config.enabled_rules),
            effective_weights(config.custom_weights),
            code,
        ),
        None => analysis_of(default_rules(), default_weights(), code),
    }
}

/// The weights under which a request is scored.
pub open spec fn weights_of(config: Option<AnalyzerConfig>) -> Weights {
    match config {
        Some(config) => effective_weights(config.custom_weights),
        None => default_weights(),
    }
}

/// Process an analysis request and return a response
pub fn process_request(request: AnalyzeRequest) -> (response: AnalyzeResponse)
    ensures
        response.results@ == answer(request.code@, config_view(request.config)),
        in_range(response.results.metrics),
        normalized(weights_of(request.config)) ==> response.results.score <= 100,
{
    // Analyze the contract
    let results = match request.config {
        Some(config) => {
            let analyzer = Analyzer::with_config(config);
            analyzer.analyze(request.code.as_str())
        },
        None => analyze_contract(request.code.as_str()),
    };

    // Create the response
    AnalyzeResponse { results }
}

} // verus!
