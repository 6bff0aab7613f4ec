//! The error type of a run.
use vstd::prelude::*;
use fin_primitives::FinError;

verus! {

/// `std::io::Error`, carried through as an opaque value.
#[verifier::external_type_specification]
#[verifier::external_body]
pub struct ExIoError(std::io::Error);

/// `csv::Error`, carried through as an opaque value.
#[verifier::external_type_specification]
#[verifier::external_body]
pub struct ExCsvError(csv::Error);

/// `serde_json::Error`, carried through as an opaque value.
#[verifier::external_type_specification]
#[verifier::external_body]
pub struct ExSerdeJsonError(serde_json::Error);

/// What can go wrong in a run: reading or writing files, the CSV codec,
/// indicator construction, JSON decoding, model inference, configuration,
/// or anything else described by a message.
pub enum DataAnalysisError {
    Io(std::io::Error),
    Csv(csv::Error),
    Fin(FinError),
    SerdeJson(serde_json::Error),
    Ort(String),
    Config(String),
    Other(String),
}

impl From<std::io::Error> for DataAnalysisError {
    fn from(e: std::io::Error) -> (r: Self) {
        DataAnalysisError::Io(e)
    }
}

impl vstd::std_specs::convert::FromSpecImpl<std::io::Error> for DataAnalysisError {
    open spec fn obeys_from_spec() -> bool {
        true
    }

    open spec fn from_spec(e: std::io::Error) -> Self {
        DataAnalysisError::Io(e)
    }
}

impl From<csv::Error> for DataAnalysisError {
    fn from(e: csv::Error) -> (r: Self) {
        DataAnalysisError::Csv(e)
    }
}

impl vstd::std_specs::convert::FromSpecImpl<csv::Error> for DataAnalysisError {
    open spec fn obeys_from_spec() -> bool {
        true
    }

    open spec fn from_spec(e: csv::Error) -> Self {
        DataAnalysisError::Csv(e)
    }
}

impl From<FinError> for DataAnalysisError {
    fn from(e: FinError) -> (r: Self) {
        DataAnalysisError::Fin(e)
    }
}

impl vstd::std_specs::convert::FromSpecImpl<FinError> for DataAnalysisError {
    open spec fn obeys_from_spec() -> bool {
        true
    }

    open spec fn from_spec(e: FinError) -> Self {
        DataAnalysisError::Fin(e)
    }
}

impl From<serde_json::Error> for DataAnalysisError {
    fn from(e: serde_json::Error) -> (r: Self) {
        DataAnalysisError::SerdeJson(e)
    }
}

impl vstd::std_specs::convert::FromSpecImpl<serde_json::Error> for DataAnalysisError {
    open spec fn obeys_from_spec() -> bool {
        true
    }

    open spec fn from_spec(e: serde_json::Error) -> Self {
        DataAnalysisError::SerdeJson(e)
    }
}

impl From<String> for DataAnalysisError {
    fn from(e: String) -> (r: Self) {
        DataAnalysisError::Other(e)
    }
}

impl vstd::std_specs::convert::FromSpecImpl<String> for DataAnalysisError {
    open spec fn obeys_from_spec() -> bool {
        true
    }

    open spec fn from_spec(e: String) -> Self {
        DataAnalysisError::Other(e)
    }
}

impl DataAnalysisError {
    /// The `Other` error carrying `message`.
    pub fn from_message(message: &str) -> (r: Self)
        ensures
            r matches DataAnalysisError::Other(m) && m@ == message@,
    {
        DataAnalysisError::Other(message.to_owned())
    }
}

} // verus!
