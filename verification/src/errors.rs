//! The ways in which the work of a tool can fail.

use vstd::prelude::*;
use vstd::string::StringExecFns;

verus! {

/// A failure, with the message that tells what went wrong.
#[derive(Debug)]
pub enum EctusError {
    /// The upstream service could not be reached, or answered with an error.
    Http(String),
    /// The caller's arguments cannot be used.
    Input(String),
    /// The orchestrator backend failed.
    Backend(String),
}

/// What a failure holds.
pub ghost enum Failure {
    Http(Seq<char>),
    Input(Seq<char>),
    Backend(Seq<char>),
}

impl View for EctusError {
    type V = Failure;

    open spec fn view(&self) -> Failure {
        match self {
            EctusError::Http(m) => Failure::Http(m@),
            EctusError::Input(m) => Failure::Input(m@),
            EctusError::Backend(m) => Failure::Backend(m@),
        }
    }
}

impl Failure {
    /// The message alone.
    pub open spec fn message(self) -> Seq<char> {
        match self {
            Failure::Http(m) => m,
            Failure::Input(m) => m,
            Failure::Backend(m) => m,
        }
    }

    /// The message behind the name of the kind of failure.
    pub open spec fn text(self) -> Seq<char> {
        match self {
            Failure::Http(m) => "HTTP error: "@ + m,
            Failure::Input(m) => "Invalid input: "@ + m,
            Failure::Backend(m) => "Backend error: "@ + m,
        }
    }
}

impl EctusError {
    /// The message alone.
    pub fn message(&self) -> (m: &str)
        ensures
            m@ == self@.message(),
    {
        match self {
            EctusError::Http(m) => m.as_str(),
            EctusError::Input(m) => m.as_str(),
            EctusError::Backend(m) => m.as_str(),
        }
    }

    /// The failure in words: the message behind the name of its kind.
    pub fn to_text(&self) -> (s: String)
        ensures
            s@ == self@.text(),
    {
        let mut s = String::new();
        match self {
            EctusError::Http(m) => {
                s.append("HTTP error: ");
                s.append(m.as_str());
            },
            EctusError::Input(m) => {
                s.append("Invalid input: ");
                s.append(m.as_str());
            },
            EctusError::Backend(m) => {
                s.append("Backend error: ");
                s.append(m.as_str());
            },
        }
        s
    }
}

/// What the result of a tool holds: the text it gives, or the failure.
pub open spec fn outcome(r: Result<String, EctusError>) -> Result<Seq<char>, Failure> {
    match r {
        Ok(s) => Ok(s@),
        Err(e) => Err(e@),
    }
}

} // verus!
