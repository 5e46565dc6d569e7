//! Errors of theme loading.

use vstd::prelude::*;

use spectrum_theme::config::TomlThemeSourceError;

use super::source::TokenError;

verus! {

/// Error of an input/output operation.
#[verifier::external_type_specification]
#[verifier::external_body]
pub struct ExIoError(std::io::Error);

/// Error returned while loading a theme pack.
#[derive(Debug)]
pub enum ThemeLoadError {
    /// TOML parsing failed.
    ParseToml(TomlThemeSourceError),
    /// Typed token construction failed.
    Build(TokenError),
    /// Failed to load theme from file.
    Load(std::io::Error),
}

} // verus!
