use vstd::prelude::*;

verus! {

/// An error answered to the client as plain text.
#[derive(Clone, Debug, PartialEq, Eq)]
pub enum AxumHelloError {
    BadRequest(String),
}

impl AxumHelloError {
    /// The HTTP status code of the error.
    pub fn status_code(&self) -> (r: u16)
        ensures
            self is BadRequest ==> r == 400,
    {
        match self {
            AxumHelloError::BadRequest(_) => 400,
        }
    }

    /// The content type of the error's body.
    pub fn content_type(&self) -> (r: &'static str)
        ensures
            r@ == "text/plain"@,
    {
        "text/plain"
    }

    /// The body of the error: its message.
    pub fn body(&self) -> (r: String)
        ensures
            match self {
                AxumHelloError::BadRequest(m) => r@ == m@,
            },
    {
        match self {
            AxumHelloError::BadRequest(m) => m.clone(),
        }
    }
}

} // verus!
