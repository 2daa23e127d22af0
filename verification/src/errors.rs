use vstd::prelude::*;

verus! {

/// The errors that the library's logic reports to its callers.
///
/// `ConfigurationError` carries a headline and a detail line, as shown to the
/// operator.  `MissingProgramParameter` names a required parameter that no
/// source (command line, file name, config file) supplied.
/// `MissingDBParameters` is returned when database parameters are asked for
/// before any were recorded.
#[derive(Debug)]
pub enum AppError {
    ConfigurationError(String, String),
    MissingProgramParameter(String),
    MissingDBParameters,
}

/// The mathematical value of an error.
#[verifier::ext_equal]
pub enum AppErrV {
    Config(Seq<char>, Seq<char>),
    MissingParam(Seq<char>),
    MissingDB,
}

impl View for AppError {
    type V = AppErrV;

    open spec fn view(&self) -> AppErrV {
        match self {
            AppError::ConfigurationError(a, b) => AppErrV::Config(a@, b@),
            AppError::MissingProgramParameter(p) => AppErrV::MissingParam(p@),
            AppError::MissingDBParameters => AppErrV::MissingDB,
        }
    }
}

impl AppError {
    /// True when the error is a configuration error with the given headline.
    pub fn is_configuration_error(&self) -> (r: bool)
        ensures
            r == (self matches AppError::ConfigurationError(_, _)),
    {
        match self {
            AppError::ConfigurationError(_, _) => true,
            _ => false,
        }
    }

    /// True when the error reports a missing program parameter.
    pub fn is_missing_parameter(&self) -> (r: bool)
        ensures
            r == (self matches AppError::MissingProgramParameter(_)),
    {
        match self {
            AppError::MissingProgramParameter(_) => true,
            _ => false,
        }
    }
}

} // verus!
