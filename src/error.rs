use vstd::prelude::*;

verus! {

/// An error of a run: a message, and whether it marks the token as a honeypot
/// (`Some(true)`), clears it (`Some(false)`), or says nothing either way.
#[derive(Clone, Debug)]
pub struct HPError {
    pub message: String,
    pub is_honeypot: Option<bool>,
}

impl HPError {
    pub fn new(message: String, is_honeypot: Option<bool>) -> (r: HPError)
        ensures
            r.message@ == message@,
            r.is_honeypot == is_honeypot,
    {
        HPError { message, is_honeypot }
    }

    /// An error that says nothing about the token.
    pub fn err_msg(message: String) -> (r: HPError)
        ensures
            r.message@ == message@,
            r.is_honeypot == None::<bool>,
    {
        Self::new(message, None)
    }

    /// An error of the remote provider, given by its description.
    pub fn rpc_error(description: String) -> (r: HPError)
        ensures
            r.message@ == description@,
            r.is_honeypot == None::<bool>,
    {
        Self::new(description, None)
    }

    /// An address that did not parse, given by the parser's description.
    pub fn parse_error(description: String) -> (r: HPError)
        ensures
            r.message@ == description@,
            r.is_honeypot == None::<bool>,
    {
        Self::new(description, None)
    }

    /// Any other error, given by its description.
    pub fn error(description: String) -> (r: HPError)
        ensures
            r.message@ == description@,
            r.is_honeypot == None::<bool>,
    {
        Self::new(description, None)
    }

    pub fn message(&self) -> (r: &String)
        ensures
            r@ == self.message@,
    {
        &self.message
    }
}

} // verus!
