use vstd::prelude::*;

verus! {

#[verifier::external_type_specification]
#[verifier::external_body]
pub struct ExTeraError(tera::Error);

#[verifier::external_type_specification]
#[verifier::external_body]
pub struct ExSystemTimeError(std::time::SystemTimeError);

/// What can go wrong while serving a page.
#[derive(Debug)]
pub enum AppError {
    TemplateError(tera::Error),
    PageNotFound(String),
    SessionError(String),
    EnvironmentError(String),
    DateTimeError(std::time::SystemTimeError),
    MutexError(String),
    OtherError(String),
}

impl From<String> for AppError {
    fn from(error: String) -> (r: AppError) {
        AppError::OtherError(error)
    }
}

impl vstd::std_specs::convert::FromSpecImpl<String> for AppError {
    open spec fn obeys_from_spec() -> bool {
        true
    }

    open spec fn from_spec(error: String) -> AppError {
        AppError::OtherError(error)
    }
}

} // verus!
