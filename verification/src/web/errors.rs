//! The errors of the site, and the page that each becomes.

use vstd::prelude::*;

use crate::data::DataError;
use crate::rest::{INTERNAL_SERVER_ERROR, NOT_FOUND};

verus! {

/// The error with which `tinytemplate` refuses to render a page.
#[verifier::external_type_specification]
#[verifier::external_body]
pub struct ExTemplateError(tinytemplate::error::Error);

/// Why a page cannot be shown.
#[derive(Debug)]
pub enum WebError {
    /// A statement on the tables was refused.
    DataError(DataError),
    /// The page could not be rendered.
    TemplateError(tinytemplate::error::Error),
    /// There is no such page.
    NotFound,
}

/// The page that is shown in place of the one asked for.
#[derive(Clone, Copy, Debug, PartialEq, Eq, Structural)]
pub enum ErrorPage {
    NotFound,
    ServerError,
}

/// The answer for a failure of the site itself.
pub fn server_error_response() -> (r: (u16, ErrorPage))
    ensures
        r == (INTERNAL_SERVER_ERROR, ErrorPage::ServerError),
{
    (INTERNAL_SERVER_ERROR, ErrorPage::ServerError)
}

/// The answer for a page that is not there.
pub fn not_found_response() -> (r: (u16, ErrorPage))
    ensures
        r == (NOT_FOUND, ErrorPage::NotFound),
{
    (NOT_FOUND, ErrorPage::NotFound)
}

/// Whether an error means that what was asked for is not there: the site says
/// so itself, or the store found no row.
pub open spec fn is_absence(error: WebError) -> bool {
    error is NotFound || error == WebError::DataError(DataError::RowNotFound)
}

impl WebError {
    /// The answer that this error becomes: the page for what is not there, or
    /// the page for a failure of the site. What went wrong is not shown.
    pub fn into_response(self) -> (r: (u16, ErrorPage))
        ensures
            r == if is_absence(self) {
                (NOT_FOUND, ErrorPage::NotFound)
            } else {
                (INTERNAL_SERVER_ERROR, ErrorPage::ServerError)
            },
    {
        match self {
            WebError::DataError(err) => match err {
                DataError::RowNotFound => not_found_response(),
                _ => server_error_response(),
            },
            WebError::TemplateError(_) => server_error_response(),
            WebError::NotFound => not_found_response(),
        }
    }
}

} // verus!
