//! The failures that the store and the engine report to their callers.

use vstd::prelude::*;
use vstd::std_specs::cmp::PartialEqSpecImpl;

verus! {

/// Every way an operation of this library can fail. None of them ends the
/// process: each is handed back to the caller, who can show
/// [`Error::message`] to the user and carry on.
#[derive(Debug)]
pub enum Error {
    /// The store was used before it was connected.
    NotConnected,
    /// A record with the same name is already stored.
    AlreadyExists,
    /// No record with the given name is stored.
    NotFound,
    /// A load was asked for before any configuration was chosen.
    ConfigMissing,
    /// A prediction was asked for while no model is loaded.
    ModelNotLoaded,
    /// A load or a prediction is in progress.
    Busy,
    /// The inference engine could not load the model.
    LoadFailure(String),
    /// The inference engine failed while predicting.
    InferenceFailure(String),
    /// The store could not be opened.
    ConnectionFailure(String),
}

/// Mathematical value of an [`Error`].
pub enum ErrorView {
    NotConnected,
    AlreadyExists,
    NotFound,
    ConfigMissing,
    ModelNotLoaded,
    Busy,
    LoadFailure(Seq<char>),
    InferenceFailure(Seq<char>),
    ConnectionFailure(Seq<char>),
}

impl View for Error {
    type V = ErrorView;

    open spec fn view(&self) -> ErrorView {
        match self {
            Error::NotConnected => ErrorView::NotConnected,
            Error::AlreadyExists => ErrorView::AlreadyExists,
            Error::NotFound => ErrorView::NotFound,
            Error::ConfigMissing => ErrorView::ConfigMissing,
            Error::ModelNotLoaded => ErrorView::ModelNotLoaded,
            Error::Busy => ErrorView::Busy,
            Error::LoadFailure(reason) => ErrorView::LoadFailure(reason@),
            Error::InferenceFailure(reason) => ErrorView::InferenceFailure(reason@),
            Error::ConnectionFailure(reason) => ErrorView::ConnectionFailure(reason@),
        }
    }
}

impl ErrorView {
    /// The short text shown to the user for a failure. Failures of the
    /// inference engine and of the store's backend are shown by their reason.
    pub open spec fn message(self) -> Seq<char> {
        match self {
            ErrorView::NotConnected => "Database not connected, please reconnect to the database"@,
            ErrorView::AlreadyExists => "Model config already exists"@,
            ErrorView::NotFound => "Model config not found"@,
            ErrorView::ConfigMissing => "Model config not found"@,
            ErrorView::ModelNotLoaded => "Model not found"@,
            ErrorView::Busy => "Model is busy"@,
            ErrorView::LoadFailure(reason) => reason,
            ErrorView::InferenceFailure(reason) => reason,
            ErrorView::ConnectionFailure(reason) => reason,
        }
    }
}

impl Clone for Error {
    fn clone(&self) -> (copy: Self)
        ensures
            copy@ == self@,
    {
        match self {
            Error::NotConnected => Error::NotConnected,
            Error::AlreadyExists => Error::AlreadyExists,
            Error::NotFound => Error::NotFound,
            Error::ConfigMissing => Error::ConfigMissing,
            Error::ModelNotLoaded => Error::ModelNotLoaded,
            Error::Busy => Error::Busy,
            Error::LoadFailure(reason) => Error::LoadFailure(reason.clone()),
            Error::InferenceFailure(reason) => Error::InferenceFailure(reason.clone()),
            Error::ConnectionFailure(reason) => Error::ConnectionFailure(reason.clone()),
        }
    }
}

impl PartialEq for Error {
    fn eq(&self, other: &Self) -> (equal: bool) {
        match (self, other) {
            (Error::NotConnected, Error::NotConnected) => true,
            (Error::AlreadyExists, Error::AlreadyExists) => true,
            (Error::NotFound, Error::NotFound) => true,
            (Error::ConfigMissing, Error::ConfigMissing) => true,
            (Error::ModelNotLoaded, Error::ModelNotLoaded) => true,
            (Error::Busy, Error::Busy) => true,
            (Error::LoadFailure(left), Error::LoadFailure(right)) => *left == *right,
            (Error::InferenceFailure(left), Error::InferenceFailure(right)) => *left == *right,
            (Error::ConnectionFailure(left), Error::ConnectionFailure(right)) => *left == *right,
            _ => false,
        }
    }
}

impl PartialEqSpecImpl for Error {
    open spec fn obeys_eq_spec() -> bool {
        true
    }

    open spec fn eq_spec(&self, other: &Self) -> bool {
        self@ == other@
    }
}

impl Error {
    /// The short text shown to the user for this failure.
    pub fn message(&self) -> (text: String)
        ensures
            text@ == self@.message(),
    {
        match self {
            Error::NotConnected => "Database not connected, please reconnect to the database".to_owned(),
            Error::AlreadyExists => "Model config already exists".to_owned(),
            Error::NotFound => "Model config not found".to_owned(),
            Error::ConfigMissing => "Model config not found".to_owned(),
            Error::ModelNotLoaded => "Model not found".to_owned(),
            Error::Busy => "Model is busy".to_owned(),
            Error::LoadFailure(reason) => reason.clone(),
            Error::InferenceFailure(reason) => reason.clone(),
            Error::ConnectionFailure(reason) => reason.clone(),
        }
    }
}

/// The plain value of an operation that yields nothing but may fail.
pub open spec fn unit_view(done: Result<(), Error>) -> Option<ErrorView> {
    match done {
        Ok(_) => None,
        Err(error) => Some(error@),
    }
}

/// The plain value of a command's answer: a status message or a failure.
pub open spec fn reply_view(reply: Result<String, Error>) -> Result<Seq<char>, ErrorView> {
    match reply {
        Ok(message) => Ok(message@),
        Err(error) => Err(error@),
    }
}

/// The answer of a command that succeeds with a fixed message unless
/// something stands in its way.
pub open spec fn reply_unless(error: Option<ErrorView>, message: Seq<char>) -> Result<
    Seq<char>,
    ErrorView,
> {
    match error {
        Some(error) => Err(error),
        None => Ok(message),
    }
}

} // verus!
