//! The failure payload raised by a probe or by the adversarial streams.

use vstd::prelude::*;

verus! {

/// An abnormal, catchable termination signal raised by an assertion failure
/// inside probe code, or by the harness itself on caller misuse.
///
/// A fault carries an optional human-readable message. Two faults are
/// considered the same defect exactly when their messages are equal (or both
/// absent).
#[derive(Debug)]
pub struct Fault {
    message: Option<String>,
}

impl View for Fault {
    type V = Option<Seq<char>>;

    closed spec fn view(&self) -> Option<Seq<char>> {
        match self.message {
            Some(m) => Some(m@),
            None => None,
        }
    }
}

impl Fault {
    /// A fault carrying the given diagnostic message.
    pub fn with_message(message: String) -> (r: Fault)
        ensures
            r@ == Some(message@),
    {
        Fault { message: Some(message) }
    }

    /// A fault that carries no message at all.
    pub fn without_message() -> (r: Fault)
        ensures
            r@ == Option::<Seq<char>>::None,
    {
        Fault { message: None }
    }

    /// A second fault carrying the same message: the same defect.
    pub fn duplicate(&self) -> (r: Fault)
        ensures
            r@ == self@,
    {
        match &self.message {
            Some(m) => Fault { message: Some(m.clone()) },
            None => Fault { message: None },
        }
    }
}

/// Extracts the human-readable message of a fault payload, when it has one.
pub fn get_panic_message(fault: &Fault) -> (r: Option<&str>)
    ensures
        match r {
            Some(s) => fault@ == Some(s@),
            None => fault@ is None,
        },
{
    match &fault.message {
        Some(m) => Some(m.as_str()),
        None => None,
    }
}

} // verus!
