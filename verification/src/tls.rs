//! Key material and certificate requests.

use vstd::prelude::*;

pub mod csr;

verus! {

/// Why key material or a certificate could not be made.
#[derive(Debug)]
pub enum Error {
    /// A key or a certificate was refused; the text says what was tried and why it failed.
    CertificateParseError(String),
    /// `rcgen` refused; the text is its own.
    Rcgen(String),
}

/// What an [`Error`] says.
pub enum ErrorView {
    CertificateParseError(Seq<char>),
    Rcgen(Seq<char>),
}

impl View for Error {
    type V = ErrorView;

    open spec fn view(&self) -> ErrorView {
        match self {
            Error::CertificateParseError(text) => ErrorView::CertificateParseError(text@),
            Error::Rcgen(text) => ErrorView::Rcgen(text@),
        }
    }
}

} // verus!
