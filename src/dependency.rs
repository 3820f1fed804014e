use vstd::prelude::*;

use crate::capability::{chain_of, Cause, ServiceErrorMapping};
use crate::code::ErrorCode;

verus! {

/// A failure of a collaborator that a service depends on (a store, a remote
/// service, a timeout), carrying the collaborator's own chain of causes. It
/// supplies no overrides, so its details are the joined chain.
pub struct DependencyFailure {
    category: ErrorCode,
    text: String,
    cause: Option<Cause>,
}

impl DependencyFailure {
    #[verifier::type_invariant]
    spec fn inv(&self) -> bool {
        self.text@.len() > 0
    }

    /// A failure in `category`, described by `text`, caused by `cause`.
    pub fn new(category: ErrorCode, text: String, cause: Option<Cause>) -> (r: DependencyFailure)
        requires
            text@.len() > 0,
        ensures
            r.spec_category() == category,
            r.spec_text() == text@,
            r.spec_causes() == chain_of(cause),
    {
        DependencyFailure { category, text, cause }
    }
}

impl ServiceErrorMapping for DependencyFailure {
    closed spec fn spec_category(&self) -> ErrorCode {
        self.category
    }

    closed spec fn spec_text(&self) -> Seq<char> {
        self.text@
    }

    open spec fn spec_user_message(&self) -> Option<Seq<char>> {
        None
    }

    open spec fn spec_description(&self) -> Option<Seq<char>> {
        None
    }

    open spec fn spec_details(&self) -> Option<Seq<char>> {
        None
    }

    closed spec fn spec_causes(&self) -> Seq<Seq<char>> {
        chain_of(self.cause)
    }

    fn category(&self) -> (r: ErrorCode) {
        self.category
    }

    fn default_text(&self) -> (r: String) {
        proof {
            use_type_invariant(self);
        }
        self.text.clone()
    }

    fn user_message(&self) -> (r: Option<String>) {
        None
    }

    fn technical_description(&self) -> (r: Option<String>) {
        None
    }

    fn technical_details(&self) -> (r: Option<String>) {
        None
    }

    fn source(&self) -> (r: Option<Cause>) {
        match &self.cause {
            Some(c) => Some(c.duplicate()),
            None => None,
        }
    }
}

} // verus!
