//! Which request a client makes, and how every answer begins.

use vstd::prelude::*;

use crate::api::error::{ApiError, ApiErrorModel};
use crate::protocol::registry::{Method, NAME, VERSION};
use crate::record::Record;
use crate::text::{joined, joined3};

verus! {

/// The name of the daemon on the message bus.
pub const BUS_NAME: &'static str = "org.laufan.BarDaemon";

/// The path of the daemon's object.
pub const OBJECT_PATH: &'static str = "/org/laufan/BarDaemon";

/// The interface of the daemon's object.
pub const INTERFACE: &'static str = "org.laufan.BarDaemon1";

/// Finds the method that a client names.
pub fn dispatch(name: &str) -> (method: Result<Method, ApiError>)
    ensures
        match method {
            Ok(method) => method.name_text() == name@,
            Err(error) => (forall|method: Method| #[trigger] method.name_text() != name@)
                && error.deep_view() == ApiErrorModel::of(
                "unsupported-method"@,
                "Unsupported bar-api method: "@ + name@,
            ),
        },
{
    match Method::from_name(name) {
        Some(method) => Ok(method),
        None => {
            let message = joined("Unsupported bar-api method: ", name);
            Err(ApiError::new("unsupported-method", message.as_str()))
        },
    }
}

/// Reports that the parameters of a request do not fit its method.
pub fn invalid_parameters(method: Method, detail: &str) -> (error: ApiError)
    ensures
        error.deep_view() == ApiErrorModel::of(
            "validation-error"@,
            method.name_text() + " parameters are invalid: "@ + detail@,
        ),
{
    let message = joined3(method.name(), " parameters are invalid: ", detail);
    ApiError::new("validation-error", message.as_str())
}

/// Reports that the parameters of a request cannot be read.
pub fn unreadable_parameters(detail: &str) -> (error: ApiError)
    ensures
        error.deep_view() == ApiErrorModel::of(
            "validation-error"@,
            "invalid params JSON: "@ + detail@,
        ),
{
    let message = joined("invalid params JSON: ", detail);
    ApiError::new("validation-error", message.as_str())
}

/// Reports that no daemon answers a client.
pub fn daemon_unavailable() -> (error: ApiError)
    ensures
        error.deep_view() == ApiErrorModel::of(
            "daemon-unavailable"@,
            "bar-daemon session service is unavailable"@,
        ),
{
    ApiError::new("daemon-unavailable", "bar-daemon session service is unavailable")
}

/// How every answer begins: with the protocol that it is part of, whether the
/// request was granted, and why it was not.
#[derive(Debug, PartialEq, Eq)]
pub struct AnswerHead {
    pub protocol: String,
    pub version: u8,
    pub ok: bool,
    pub error: Option<ApiError>,
}

/// What a [`AnswerHead`] holds.
#[verifier::ext_equal]
pub struct AnswerHeadModel {
    pub protocol: Seq<char>,
    pub version: u8,
    pub ok: bool,
    pub error: Option<ApiErrorModel>,
}

impl DeepView for AnswerHead {
    type V = AnswerHeadModel;

    open spec fn deep_view(&self) -> AnswerHeadModel {
        AnswerHeadModel {
            protocol: self.protocol.deep_view(),
            version: self.version.deep_view(),
            ok: self.ok.deep_view(),
            error: self.error.deep_view(),
        }
    }
}

impl Record for AnswerHead {
    fn same(&self, other: &Self) -> (same: bool) {
        self.protocol.same(&other.protocol)
            && self.version.same(&other.version)
            && self.ok.same(&other.ok)
            && self.error.same(&other.error)
    }

    fn copy(&self) -> (copy: Self) {
        AnswerHead {
            protocol: self.protocol.copy(),
            version: self.version.copy(),
            ok: self.ok.copy(),
            error: self.error.copy(),
        }
    }
}

impl Clone for AnswerHead {
    fn clone(&self) -> (copy: Self)
        ensures
            copy.deep_view() == self.deep_view(),
    {
        self.copy()
    }
}

/// How the answer to a request begins that was granted, or refused for a reason.
pub fn answer_head(refusal: Option<ApiError>) -> (head: AnswerHead)
    ensures
        head.deep_view() == (AnswerHeadModel {
            protocol: NAME@,
            version: VERSION,
            ok: refusal is None,
            error: refusal.deep_view(),
        }),
{
    AnswerHead {
        protocol: NAME.to_string(),
        version: VERSION,
        ok: refusal.is_none(),
        error: refusal,
    }
}

} // verus!
