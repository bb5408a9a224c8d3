//! Failures, with the message that each shows and what stands behind it.

use crate::text;
use vstd::prelude::*;

verus! {

#[verifier::external_type_specification]
#[verifier::external_body]
pub struct ExDecodeError(base64::DecodeError);

/// Why something did not work.
pub enum Fault {
    /// A message.
    Plain(String),
    /// A message about another failure.
    Wrapping(String, Box<Fault>),
    /// A text that is not JSON, or a document that cannot be printed.
    Json(serde_json::Error),
    /// A text that is not base64.
    Base64(base64::DecodeError),
}

/// A failure without the details of the crates that report it.
pub enum FaultView {
    Plain(Seq<char>),
    Wrapping(Seq<char>, Box<FaultView>),
    Json,
    Base64,
}

pub open spec fn plain(message: Seq<char>) -> FaultView {
    FaultView::Plain(message)
}

pub open spec fn wrapping(message: Seq<char>, inner: FaultView) -> FaultView {
    FaultView::Wrapping(message, Box::new(inner))
}

impl Fault {
    pub open spec fn view(self) -> FaultView
        decreases self,
    {
        match self {
            Fault::Plain(m) => FaultView::Plain(m@),
            Fault::Wrapping(m, inner) => FaultView::Wrapping(m@, Box::new((*inner).view())),
            Fault::Json(_) => FaultView::Json,
            Fault::Base64(_) => FaultView::Base64,
        }
    }

    pub fn plain(message: &str) -> (r: Fault)
        ensures
            r@ == plain(message@),
    {
        Fault::Plain(text::owned(message))
    }

    /// The failure, under a message of its own.
    pub fn under(self, message: &str) -> (r: Fault)
        ensures
            r@ == wrapping(message@, self@),
    {
        Fault::Wrapping(text::owned(message), Box::new(self))
    }
}

/// A result by the views of its two sides.
pub open spec fn outcome<T: View>(r: Result<T, Fault>) -> Result<T::V, FaultView> {
    match r {
        Ok(x) => Ok(x@),
        Err(f) => Err(f@),
    }
}

} // verus!
