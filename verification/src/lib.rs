//! Static analysis of Dart sources and a language-server proxy that merges
//! the analysis results into the diagnostics published by the wrapped server.

pub mod analyzer;
pub mod config;
pub mod error;
pub mod json;
pub mod lsp;
pub mod mcp;
pub mod parser;
pub mod paths;
pub mod pattern;
pub mod project;
pub mod rules;
pub mod text;
pub mod treesitter;
