use vstd::prelude::*;

use crate::capability::{message_of, Cause, ResponseError, ServiceErrorMapping};
use crate::code::ErrorCode;
use crate::templates::ServiceError;
use crate::text::concat2;
use crate::users::UserServiceError;

verus! {

/// The errors a handler may meet, one variant per service. Each delegates its
/// classification and texts to the service error it wraps, which is also its
/// immediate cause; its user-facing message is the wrapped error's message.
#[derive(Debug)]
pub enum ControllerError {
    TemplateService(ServiceError),
    UserService(UserServiceError),
}

/// The cause chain of an error headed by the error itself.
fn cause_of<E: ServiceErrorMapping>(e: &E) -> (r: Cause)
    ensures
        r.chain() == seq![e.spec_text()] + e.spec_causes(),
{
    let text = e.default_text();
    match e.source() {
        Some(below) => Cause::caused_by(text, below),
        None => {
            let r = Cause::root(text);
            proof {
                assert(r.chain() =~= seq![e.spec_text()] + e.spec_causes());
            }
            r
        },
    }
}

impl ServiceErrorMapping for ControllerError {
    open spec fn spec_category(&self) -> ErrorCode {
        match self {
            ControllerError::TemplateService(e) => e.spec_category(),
            ControllerError::UserService(e) => e.spec_category(),
        }
    }

    open spec fn spec_text(&self) -> Seq<char> {
        match self {
            ControllerError::TemplateService(e) => "TemplateError: "@ + e.spec_text(),
            ControllerError::UserService(e) => "UserError: "@ + e.spec_text(),
        }
    }

    open spec fn spec_user_message(&self) -> Option<Seq<char>> {
        match self {
            ControllerError::TemplateService(e) => Some(message_of(*e)),
            ControllerError::UserService(e) => Some(message_of(*e)),
        }
    }

    open spec fn spec_description(&self) -> Option<Seq<char>> {
        match self {
            ControllerError::TemplateService(e) => e.spec_description(),
            ControllerError::UserService(e) => e.spec_description(),
        }
    }

    open spec fn spec_details(&self) -> Option<Seq<char>> {
        match self {
            ControllerError::TemplateService(e) => e.spec_details(),
            ControllerError::UserService(e) => e.spec_details(),
        }
    }

    open spec fn spec_causes(&self) -> Seq<Seq<char>> {
        match self {
            ControllerError::TemplateService(e) => seq![e.spec_text()] + e.spec_causes(),
            ControllerError::UserService(e) => seq![e.spec_text()] + e.spec_causes(),
        }
    }

    fn category(&self) -> (r: ErrorCode) {
        match self {
            ControllerError::TemplateService(e) => e.category(),
            ControllerError::UserService(e) => e.category(),
        }
    }

    fn default_text(&self) -> (r: String) {
        match self {
            ControllerError::TemplateService(e) => {
                let inner = e.default_text();
                concat2("TemplateError: ", inner.as_str())
            },
            ControllerError::UserService(e) => {
                let inner = e.default_text();
                concat2("UserError: ", inner.as_str())
            },
        }
    }

    fn user_message(&self) -> (r: Option<String>) {
        match self {
            ControllerError::TemplateService(e) => Some(e.message()),
            ControllerError::UserService(e) => Some(e.message()),
        }
    }

    fn technical_description(&self) -> (r: Option<String>) {
        match self {
            ControllerError::TemplateService(e) => e.technical_description(),
            ControllerError::UserService(e) => e.technical_description(),
        }
    }

    fn technical_details(&self) -> (r: Option<String>) {
        match self {
            ControllerError::TemplateService(e) => e.technical_details(),
            ControllerError::UserService(e) => e.technical_details(),
        }
    }

    fn source(&self) -> (r: Option<Cause>) {
        match self {
            ControllerError::TemplateService(e) => Some(cause_of(e)),
            ControllerError::UserService(e) => Some(cause_of(e)),
        }
    }
}

impl From<ServiceError> for ControllerError {
    fn from(e: ServiceError) -> (r: ControllerError) {
        ControllerError::TemplateService(e)
    }
}

impl vstd::std_specs::convert::FromSpecImpl<ServiceError> for ControllerError {
    open spec fn obeys_from_spec() -> bool {
        true
    }

    open spec fn from_spec(e: ServiceError) -> ControllerError {
        ControllerError::TemplateService(e)
    }
}

impl From<UserServiceError> for ControllerError {
    fn from(e: UserServiceError) -> (r: ControllerError) {
        ControllerError::UserService(e)
    }
}

impl vstd::std_specs::convert::FromSpecImpl<UserServiceError> for ControllerError {
    open spec fn obeys_from_spec() -> bool {
        true
    }

    open spec fn from_spec(e: UserServiceError) -> ControllerError {
        ControllerError::UserService(e)
    }
}

} // verus!
