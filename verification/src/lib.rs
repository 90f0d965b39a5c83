//! A tool for analyzing smart contracts.
//!
//! This crate analyzes the source text of a smart contract and gives
//! metrics on security, performance, gas efficiency and code quality.

pub mod analyzer;
pub mod api;
pub mod guarantees;
pub mod models;
pub mod rules;
pub mod scoring;
pub mod text;

pub use analyzer::{analyze_contract, Analyzer};
pub use models::{
    AnalysisResults, AnalyzerConfig, Category, CustomWeights, Issue, Metrics, Severity, Weights,
};
pub use rules::{get_default_rules, AnalysisRule, Rule};
