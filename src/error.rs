use vstd::prelude::*;

verus! {

/// An error that a route reports; its text is logged, never shown to clients.
#[derive(Debug)]
pub struct AppError {
    pub t: String,
}

impl AppError {
    /// An error that wraps the text of an underlying failure under a context line.
    pub fn new(m: &str, e: &str) -> (r: Self)
        ensures
            r.t@ == m@ + ": "@ + e@,
    {
        let mut t = String::from_str(m);
        t.append(": ");
        t.append(e);
        AppError { t }
    }

    /// An error made of a message alone.
    pub fn new_plain(m: &str) -> (r: Self)
        ensures
            r.t@ == m@,
    {
        AppError { t: String::from_str(m) }
    }

    /// The text of the error.
    pub fn message(&self) -> (r: String)
        ensures
            r@ == self.t@,
    {
        self.t.clone()
    }
}

} // verus!
