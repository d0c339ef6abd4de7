//! What a request that fails is answered.

use vstd::prelude::*;

use crate::record::Record;

verus! {

/// A stable code for programs, and a sentence for people.
#[derive(Debug, PartialEq, Eq)]
pub struct ApiError {
    pub code: String,
    pub message: String,
}

/// What a [`ApiError`] holds.
#[verifier::ext_equal]
pub struct ApiErrorModel {
    pub code: Seq<char>,
    pub message: Seq<char>,
}

impl DeepView for ApiError {
    type V = ApiErrorModel;

    open spec fn deep_view(&self) -> ApiErrorModel {
        ApiErrorModel {
            code: self.code.deep_view(),
            message: self.message.deep_view(),
        }
    }
}

impl Record for ApiError {
    fn same(&self, other: &Self) -> (same: bool) {
        self.code.same(&other.code)
            && self.message.same(&other.message)
    }

    fn copy(&self) -> (copy: Self) {
        ApiError {
            code: self.code.copy(),
            message: self.message.copy(),
        }
    }
}

impl Clone for ApiError {
    fn clone(&self) -> (copy: Self)
        ensures
            copy.deep_view() == self.deep_view(),
    {
        self.copy()
    }
}

impl ApiErrorModel {
    /// An error with a code and a message.
    pub open spec fn of(code: Seq<char>, message: Seq<char>) -> ApiErrorModel {
        ApiErrorModel { code, message }
    }
}

impl ApiError {
    /// An error with a code and a message.
    pub fn new(code: &str, message: &str) -> (error: ApiError)
        ensures
            error.deep_view() == ApiErrorModel::of(code@, message@),
    {
        ApiError { code: code.to_string(), message: message.to_string() }
    }
}

} // verus!
