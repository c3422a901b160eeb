//! Why a load fails.

use serde::de::Error;
use vstd::prelude::*;
use vstd::std_specs::convert::FromSpecImpl;

verus! {

/// The error of `std::io`, carried through as it came.
#[verifier::external_type_specification]
#[verifier::external_body]
pub struct ExIoError(std::io::Error);

/// The error of `serde_json`, carried through as it came.
#[verifier::external_type_specification]
#[verifier::external_body]
pub struct ExJsonError(serde_json::Error);

/// Makes the error of `serde_json` that says `message`, by the `custom`
/// constructor that `serde::de::Error` gives every such error. Nothing is
/// claimed of the error.
#[verifier::external_body]
pub(crate) fn schema_error(message: &str) -> (error: serde_json::Error) {
    serde_json::Error::custom(message)
}

/// Why a descriptor at a known place could not be loaded.
#[derive(Debug)]
pub enum ProjectLoadExactError {
    /// The file could not be read.
    IoError(std::io::Error),
    /// The text is no JSON, or no descriptor.
    JsonError(serde_json::Error),
}

/// Why no descriptor could be loaded from a starting location.
#[derive(Debug)]
pub enum ProjectLoadFuzzyError {
    /// Neither the location nor a folder above it holds a descriptor.
    NotFound,
    /// The file could not be read.
    IoError(std::io::Error),
    /// The text is no JSON, or no descriptor.
    JsonError(serde_json::Error),
}

/// The error of a fuzzy load that stands for `error` of an exact load.
pub open spec fn widened(error: ProjectLoadExactError) -> ProjectLoadFuzzyError {
    match error {
        ProjectLoadExactError::IoError(inner) => ProjectLoadFuzzyError::IoError(inner),
        ProjectLoadExactError::JsonError(inner) => ProjectLoadFuzzyError::JsonError(inner),
    }
}

impl From<ProjectLoadExactError> for ProjectLoadFuzzyError {
    fn from(error: ProjectLoadExactError) -> (widened_error: ProjectLoadFuzzyError) {
        match error {
            ProjectLoadExactError::IoError(inner) => ProjectLoadFuzzyError::IoError(inner),
            ProjectLoadExactError::JsonError(inner) => ProjectLoadFuzzyError::JsonError(inner),
        }
    }
}

impl FromSpecImpl<ProjectLoadExactError> for ProjectLoadFuzzyError {
    open spec fn obeys_from_spec() -> bool {
        true
    }

    open spec fn from_spec(error: ProjectLoadExactError) -> ProjectLoadFuzzyError {
        widened(error)
    }
}

impl ProjectLoadExactError {
    /// What the error says, without the cause.
    pub fn message(&self) -> (text: &'static str)
        ensures
            text@ == (match *self {
                ProjectLoadExactError::IoError(_) => "IO error"@,
                ProjectLoadExactError::JsonError(_) => "JSON error"@,
            }),
    {
        match self {
            ProjectLoadExactError::IoError(_) => "IO error",
            ProjectLoadExactError::JsonError(_) => "JSON error",
        }
    }
}

impl ProjectLoadFuzzyError {
    /// What the error says, without the cause.
    pub fn message(&self) -> (text: &'static str)
        ensures
            text@ == (match *self {
                ProjectLoadFuzzyError::NotFound => "Project not found"@,
                ProjectLoadFuzzyError::IoError(_) => "IO error"@,
                ProjectLoadFuzzyError::JsonError(_) => "JSON error"@,
            }),
    {
        match self {
            ProjectLoadFuzzyError::NotFound => "Project not found",
            ProjectLoadFuzzyError::IoError(_) => "IO error",
            ProjectLoadFuzzyError::JsonError(_) => "JSON error",
        }
    }
}

/// A project could not be set up.
#[derive(Debug)]
pub struct ProjectInitError;

/// A project could not be written back.
#[derive(Debug)]
pub struct ProjectSaveError;

} // verus!
