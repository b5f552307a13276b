//! Error representations that a resolution failure can be reported in.
use vstd::prelude::*;

verus! {

#[verifier::external_type_specification]
#[verifier::external_body]
pub struct ExValueError(serde::de::value::Error);

/// An error representation that can be built from a diagnostic message. Each
/// deserialization front-end brings its own; resolution is written once
/// against this capability.
pub trait CustomError: Sized {
    /// Whether this error reports the diagnostic `msg`.
    spec fn reports(&self, msg: Seq<char>) -> bool;

    /// An error that reports `msg`.
    fn custom(msg: String) -> (e: Self)
        ensures
            e.reports(msg@),
    ;
}

/// A plain error that holds its diagnostic message.
#[derive(Debug)]
pub struct MessageError {
    message: String,
}

impl View for MessageError {
    type V = Seq<char>;

    closed spec fn view(&self) -> Seq<char> {
        self.message@
    }
}

impl MessageError {
    /// The diagnostic message.
    pub fn message(&self) -> (r: &str)
        ensures
            r@ == self@,
    {
        self.message.as_str()
    }
}

impl CustomError for MessageError {
    open spec fn reports(&self, msg: Seq<char>) -> bool {
        self@ == msg
    }

    fn custom(msg: String) -> (e: MessageError) {
        MessageError { message: msg }
    }
}

/// Relies on `serde::de::Error::custom` for serde's `value::Error`, which
/// keeps the text of the message it is given.
#[verifier::external_body]
fn value_error_custom(msg: String) -> (e: serde::de::value::Error) {
    <serde::de::value::Error as serde::de::Error>::custom(msg)
}

/// serde's general-purpose deserialization error. Its message is private to
/// serde, so nothing is stated of which message it reports.
impl CustomError for serde::de::value::Error {
    open spec fn reports(&self, msg: Seq<char>) -> bool {
        true
    }

    fn custom(msg: String) -> (e: serde::de::value::Error) {
        value_error_custom(msg)
    }
}

} // verus!
