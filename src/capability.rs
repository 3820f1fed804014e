use vstd::prelude::*;
use vstd::string::*;

use crate::code::{status_of, ErrorCode};

verus! {

/// One link of a cause chain: the textual form of an underlying error and,
/// optionally, the error that caused it in turn.
pub struct Cause {
    pub text: String,
    pub source: Option<Box<Cause>>,
}

impl Cause {
    /// The texts of this cause and of everything beneath it, immediate cause
    /// first and root cause last.
    pub open spec fn chain(self) -> Seq<Seq<char>>
        decreases self,
    {
        match self.source {
            Some(below) => seq![self.text@] + (*below).chain(),
            None => seq![self.text@],
        }
    }

    /// A copy of this cause and of everything beneath it.
    pub fn duplicate(&self) -> (r: Cause)
        ensures
            r.chain() == self.chain(),
        decreases self,
    {
        match &self.source {
            Some(below) => Cause { text: self.text.clone(), source: Some(Box::new(below.duplicate())) },
            None => Cause { text: self.text.clone(), source: None },
        }
    }

    /// A cause with nothing beneath it.
    pub fn root(text: String) -> (r: Cause)
        ensures
            r.chain() == seq![text@],
    {
        Cause { text, source: None }
    }

    /// A cause whose own cause is `below`.
    pub fn caused_by(text: String, below: Cause) -> (r: Cause)
        ensures
            r.chain() == seq![text@] + below.chain(),
    {
        Cause { text, source: Some(Box::new(below)) }
    }
}

/// The texts of an optional cause chain; empty when there is no cause.
pub open spec fn chain_of(c: Option<Cause>) -> Seq<Seq<char>> {
    match c {
        Some(c) => c.chain(),
        None => Seq::empty(),
    }
}

/// The lines joined with a single newline between neighbours.
pub open spec fn join_lines(lines: Seq<Seq<char>>) -> Seq<char>
    decreases lines.len(),
{
    if lines.len() == 0 {
        Seq::empty()
    } else if lines.len() == 1 {
        lines[0]
    } else {
        lines[0] + seq!['\n'] + join_lines(lines.drop_first())
    }
}

/// The newline-joined texts of a cause chain, immediate cause first.
pub fn join_causes(c: &Cause) -> (r: String)
    ensures
        r@ == join_lines(c.chain()),
    decreases c,
{
    let mut out = c.text.clone();
    match &c.source {
        Some(below) => {
            let rest = join_causes(below);
            proof {
                reveal_strlit("\n");
                let lines = c.chain();
                assert(lines.drop_first() =~= below.chain());
            }
            out.append("\n");
            out.append(rest.as_str());
        },
        None => {},
    }
    out
}

/// What each domain error supplies: its category, its own descriptive text,
/// optional overrides of the rendered text, and its chain of underlying causes.
pub trait ServiceErrorMapping: Sized {
    /// The category, as a value.
    spec fn spec_category(&self) -> ErrorCode;

    /// The error's own descriptive text.
    spec fn spec_text(&self) -> Seq<char>;

    /// The user-facing override of the descriptive text, if any.
    spec fn spec_user_message(&self) -> Option<Seq<char>>;

    /// The operator-facing one-line context, if any.
    spec fn spec_description(&self) -> Option<Seq<char>>;

    /// The full diagnostic text that replaces the cause chain, if any.
    spec fn spec_details(&self) -> Option<Seq<char>>;

    /// The texts of the underlying causes, immediate cause first; empty when
    /// there is none.
    spec fn spec_causes(&self) -> Seq<Seq<char>>;

    /// The client-visible category of this error.
    fn category(&self) -> (r: ErrorCode)
        ensures
            r == self.spec_category(),
    ;

    /// The error's own descriptive text, never empty.
    fn default_text(&self) -> (r: String)
        ensures
            r@ == self.spec_text(),
            r@.len() > 0,
    ;

    /// A user-facing text that replaces the descriptive one, if any.
    fn user_message(&self) -> (r: Option<String>)
        ensures
            r.deep_view() == self.spec_user_message(),
            r matches Some(m) ==> m@.len() > 0,
    ;

    /// Operator-facing context on what happened, if any.
    fn technical_description(&self) -> (r: Option<String>)
        ensures
            r.deep_view() == self.spec_description(),
    ;

    /// Full diagnostic text that replaces the cause chain, if any.
    fn technical_details(&self) -> (r: Option<String>)
        ensures
            r.deep_view() == self.spec_details(),
    ;

    /// The immediate underlying cause, which carries the rest of the chain.
    fn source(&self) -> (r: Option<Cause>)
        ensures
            chain_of(r) == self.spec_causes(),
    ;
}

/// The user-facing message of an error: its override, or else its own text.
pub open spec fn message_of<E: ServiceErrorMapping>(e: E) -> Seq<char> {
    match e.spec_user_message() {
        Some(m) => m,
        None => e.spec_text(),
    }
}

/// The diagnostic details of an error: its override, or else its joined cause
/// chain, or nothing when it has neither.
pub open spec fn details_of<E: ServiceErrorMapping>(e: E) -> Option<Seq<char>> {
    match e.spec_details() {
        Some(d) => Some(d),
        None => if e.spec_causes().len() == 0 {
            None
        } else {
            Some(join_lines(e.spec_causes()))
        },
    }
}

/// The rendering-facing view of an error, derived from its mapping.
pub trait ResponseError: ServiceErrorMapping {
    /// The transport status, always derived from the category.
    fn status_code(&self) -> (r: u16)
        ensures
            r == status_of(self.spec_category()),
    ;

    /// The category, as the code clients branch on.
    fn error_code(&self) -> (r: ErrorCode)
        ensures
            r == self.spec_category(),
    ;

    /// The user-facing message: the override, or else the error's own text.
    fn message(&self) -> (r: String)
        ensures
            r@ == message_of(*self),
            r@.len() > 0,
    ;

    /// The operator-facing context, with no fallback: absence means none.
    fn error_description(&self) -> (r: Option<String>)
        ensures
            r.deep_view() == self.spec_description(),
    ;

    /// The diagnostic details: the override, or else the joined cause chain.
    fn error_details(&self) -> (r: Option<String>)
        ensures
            r.deep_view() == details_of(*self),
    ;
}

/// Every mapped error renders the same way, so no error type restates it.
impl<T: ServiceErrorMapping> ResponseError for T {
    fn status_code(&self) -> (r: u16) {
        self.category().status()
    }

    fn error_code(&self) -> (r: ErrorCode) {
        self.category()
    }

    fn message(&self) -> (r: String) {
        match self.user_message() {
            Some(m) => m,
            None => self.default_text(),
        }
    }

    fn error_description(&self) -> (r: Option<String>) {
        self.technical_description()
    }

    fn error_details(&self) -> (r: Option<String>) {
        match self.technical_details() {
            Some(d) => Some(d),
            None => match self.source() {
                Some(c) => Some(join_causes(&c)),
                None => None,
            },
        }
    }
}

} // verus!
