//! The errors that a request can end with.

use vstd::prelude::*;

verus! {

/// Why a request failed, each with the text that is reported.
#[derive(Debug)]
pub enum AppError<S = String> {
    /// Another service failed, or its answer was of no use.
    ExternalService(S),
    /// The caller could not be identified.
    Authentication(S),
    /// The database failed; `cause` is its own report, where it is kept apart.
    Database { message: S, cause: Option<S> },
    /// What was asked for does not exist.
    NotFound(S),
    /// The request cannot be served as it stands.
    BadRequest(S),
    /// A query through the object mapper failed.
    SeaOrm(S),
}

impl View for AppError {
    type V = AppError<Seq<char>>;

    open spec fn view(&self) -> AppError<Seq<char>> {
        match self {
            AppError::ExternalService(m) => AppError::ExternalService(m@),
            AppError::Authentication(m) => AppError::Authentication(m@),
            AppError::Database { message, cause } => AppError::Database {
                message: message@,
                cause: cause.deep_view(),
            },
            AppError::NotFound(m) => AppError::NotFound(m@),
            AppError::BadRequest(m) => AppError::BadRequest(m@),
            AppError::SeaOrm(m) => AppError::SeaOrm(m@),
        }
    }
}

impl AppError<Seq<char>> {
    /// The text that is reported.
    pub open spec fn text(self) -> Seq<char> {
        match self {
            AppError::ExternalService(m) => m,
            AppError::Authentication(m) => m,
            AppError::Database { message, .. } => message,
            AppError::NotFound(m) => m,
            AppError::BadRequest(m) => m,
            AppError::SeaOrm(m) => m,
        }
    }
}

impl AppError {
    /// The text that is reported.
    pub fn message(&self) -> (m: &String)
        ensures
            m@ == self@.text(),
    {
        match self {
            AppError::ExternalService(m) => m,
            AppError::Authentication(m) => m,
            AppError::Database { message, .. } => message,
            AppError::NotFound(m) => m,
            AppError::BadRequest(m) => m,
            AppError::SeaOrm(m) => m,
        }
    }
}

/// A result in terms of the models of what it holds.
pub open spec fn result_view<T: View, E: View>(r: Result<T, E>) -> Result<T::V, E::V> {
    match r {
        Ok(value) => Ok(value@),
        Err(error) => Err(error@),
    }
}

/// Every error reports the text that it carries, and its model carries the same.
pub proof fn law_errors_report_their_text(m: Seq<char>, cause: Option<Seq<char>>, text: String)
    ensures
        AppError::ExternalService(m).text() == m,
        AppError::Authentication(m).text() == m,
        (AppError::Database { message: m, cause }).text() == m,
        AppError::NotFound(m).text() == m,
        AppError::BadRequest(m).text() == m,
        AppError::SeaOrm(m).text() == m,
        AppError::ExternalService(text)@ == AppError::ExternalService(text@),
        AppError::Authentication(text)@ == AppError::Authentication(text@),
        AppError::NotFound(text)@ == AppError::NotFound(text@),
        AppError::BadRequest(text)@ == AppError::BadRequest(text@),
        AppError::SeaOrm(text)@ == AppError::SeaOrm(text@),
{
}

/// The model of a failure of the database holds its report and its cause.
pub proof fn law_database_failures_keep_their_cause(message: String, cause: Option<String>)
    ensures
        (AppError::Database { message, cause })@ == (AppError::Database {
            message: message@,
            cause: cause.deep_view(),
        }),
{
}

/// A success stays a success and a failure a failure.
pub proof fn law_results_keep_their_side<T: View, E: View>(value: T, error: E)
    ensures
        result_view(Ok::<T, E>(value)) == Ok::<T::V, E::V>(value@),
        result_view(Err::<T, E>(error)) == Err::<T::V, E::V>(error@),
{
}

} // verus!
