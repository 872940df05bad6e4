use vstd::prelude::*;

verus! {

/// A failure reported by the rendering engine, with its diagnostic message.
pub struct FormatterError {
    pub message: String,
}

impl FormatterError {
    pub fn new(string: String) -> (r: FormatterError)
        ensures
            r.message@ == string@,
    {
        FormatterError { message: string }
    }
}

/// Every failure that the library reports to its caller.
pub enum TablerError {
    /// A color name that matches none of the known colors; holds the input as given.
    InvalidColorName(String),
    /// The rendering engine could not lay out the table.
    Formatting(FormatterError),
    /// The rendering engine produced bytes that are not valid UTF-8 text.
    Encoding,
}

} // verus!
