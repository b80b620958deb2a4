use vstd::prelude::*;

verus! {

/// The single error shape shared by the scanner, the parser and the
/// evaluator: a source column and a human-readable message.  An error from
/// any stage aborts the pipeline and reaches the caller unchanged.
#[derive(Debug)]
pub struct Error {
    pub column: u32,
    pub message: String,
}

/// Mathematical image of an [`Error`]: the column together with the message
/// text as a sequence of characters.
pub ghost struct ErrorView {
    pub column: u32,
    pub message: Seq<char>,
}

impl View for Error {
    type V = ErrorView;

    open spec fn view(&self) -> ErrorView {
        ErrorView { column: self.column, message: self.message@ }
    }
}

impl Error {
    /// Builds an error carrying `column` and `message`.
    pub fn new(column: u32, message: String) -> (r: Error)
        ensures
            r@ == (ErrorView { column, message: message@ }),
    {
        Error { column, message }
    }
}

} // verus!
