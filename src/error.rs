//! The library's error type, and how an outcome maps to a webhook response.

use vstd::prelude::*;

verus! {

/// What can go wrong while handling a webhook delivery. Errors that arise in
/// outside services carry that service's message.
#[derive(Debug)]
pub enum Error {
    EmptyWebhookSecret,
    InvalidWebhookSignature,
    MissingSignatureHeader,
    PayloadDeserialization(String),
    MalformedDocument(String),
    JiraApi(String),
    BadUrlGenerated(String),
    HttpClient(String),
    EnvVarNotSet { env_var_name: String },
    EnvVarBadValue { env_var_name: String },
    AwsKms(String),
    Internal(String),
    InvalidEventType(String),
}

/// The response a webhook delivery gets.
#[derive(Clone, Copy, Debug, PartialEq, Eq, Structural)]
pub enum HttpOutcome {
    /// Answer 200.
    Success,
    /// Answer 404.
    NotFound,
    /// The service is set up wrongly; it cannot go on.
    ConfigurationFault,
}

/// The response for the result of handling a delivery: success, and an
/// unexpected event type, answer 200; a configuration error is a fault; every
/// other error answers 404.
pub open spec fn outcome_of(result: Result<(), Error>) -> HttpOutcome {
    match result {
        Ok(()) => HttpOutcome::Success,
        Err(e) => match e {
            Error::InvalidEventType(_) => HttpOutcome::Success,
            Error::BadUrlGenerated(_) | Error::EmptyWebhookSecret | Error::EnvVarNotSet { .. }
            | Error::EnvVarBadValue { .. } => HttpOutcome::ConfigurationFault,
            _ => HttpOutcome::NotFound,
        },
    }
}

/// The response for the result of handling a delivery.
pub fn response_for(result: &Result<(), Error>) -> (r: HttpOutcome)
    ensures
        r == outcome_of(*result),
{
    match result {
        Ok(()) => HttpOutcome::Success,
        Err(e) => match e {
            Error::InvalidEventType(_) => HttpOutcome::Success,
            Error::BadUrlGenerated(_) | Error::EmptyWebhookSecret | Error::EnvVarNotSet { .. }
            | Error::EnvVarBadValue { .. } => HttpOutcome::ConfigurationFault,
            Error::MissingSignatureHeader | Error::InvalidWebhookSignature
            | Error::PayloadDeserialization(_) | Error::MalformedDocument(_) | Error::JiraApi(_)
            | Error::HttpClient(_) | Error::AwsKms(_) | Error::Internal(_) => HttpOutcome::NotFound,
        },
    }
}

} // verus!
