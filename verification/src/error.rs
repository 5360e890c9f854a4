//! The failures that an operation can report.

use vstd::prelude::*;

verus! {

/// Why an operation failed. Each kind carries a message for the caller.
#[derive(Debug, Clone, PartialEq, Eq)]
pub enum MyError {
    /// The store could not carry out a statement.
    DBError(String),
    /// The requested entity is absent.
    NotFound(String),
    /// A page could not be rendered.
    TeraError(String),
}

/// The mathematical form of [`MyError`].
pub enum MyErrorView {
    DBError(Seq<char>),
    NotFound(Seq<char>),
    TeraError(Seq<char>),
}

impl View for MyError {
    type V = MyErrorView;

    open spec fn view(&self) -> MyErrorView {
        match self {
            MyError::DBError(message) => MyErrorView::DBError(message@),
            MyError::NotFound(message) => MyErrorView::NotFound(message@),
            MyError::TeraError(message) => MyErrorView::TeraError(message@),
        }
    }
}

impl DeepView for MyError {
    type V = MyErrorView;

    open spec fn deep_view(&self) -> MyErrorView {
        self@
    }
}

impl MyErrorView {
    /// The HTTP status that answers a request which failed this way.
    pub open spec fn status_code(self) -> u16 {
        match self {
            MyErrorView::NotFound(_) => 404,
            MyErrorView::DBError(_) => 500,
            MyErrorView::TeraError(_) => 500,
        }
    }

    /// The message that the failure carries.
    pub open spec fn message(self) -> Seq<char> {
        match self {
            MyErrorView::DBError(message) => message,
            MyErrorView::NotFound(message) => message,
            MyErrorView::TeraError(message) => message,
        }
    }
}

impl MyError {
    /// The HTTP status that answers a request which failed this way: 404 for
    /// an absent entity, 500 for a failure of the store or of rendering.
    pub fn status_code(&self) -> (code: u16)
        ensures
            code == self@.status_code(),
            400 <= code < 600,
    {
        match self {
            MyError::NotFound(_) => 404,
            MyError::DBError(_) => 500,
            MyError::TeraError(_) => 500,
        }
    }

    /// The message that the failure carries.
    pub fn message(&self) -> (message: String)
        ensures
            message@ == self@.message(),
    {
        match self {
            MyError::DBError(message) => message.clone(),
            MyError::NotFound(message) => message.clone(),
            MyError::TeraError(message) => message.clone(),
        }
    }
}

} // verus!
