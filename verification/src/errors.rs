//! Errors that an ingest request is answered with.

use vstd::prelude::*;

verus! {

/// Why an ingest request is refused, with the message for the client.
#[derive(Debug)]
pub enum AppError {
    BadRequest(String),
    Forbidden(String),
}

/// A refusal, its message as a text.
pub enum Refusal {
    BadRequest(Seq<char>),
    Forbidden(Seq<char>),
}

impl View for AppError {
    type V = Refusal;

    open spec fn view(&self) -> Refusal {
        match self {
            AppError::BadRequest(message) => Refusal::BadRequest(message@),
            AppError::Forbidden(message) => Refusal::Forbidden(message@),
        }
    }
}

} // verus!
