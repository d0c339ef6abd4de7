//! Limits on notifications.

use vstd::prelude::*;
use vstd::utf8::encode_utf8;

use crate::activity::notifications::model::{IncomingNotification, IncomingNotificationModel};
use crate::record::Record;
use crate::text::{byte_length, is_empty};

verus! {

/// How much notifications may take up.
#[derive(Clone, Copy, Debug, PartialEq, Eq, Structural)]
pub struct NotificationPolicy {
    pub maximum_active: usize,
    pub maximum_summary_bytes: usize,
    pub maximum_body_bytes: usize,
    pub maximum_actions: usize,
}

impl Default for NotificationPolicy {
    fn default() -> (policy: NotificationPolicy)
        ensures
            policy.maximum_active == 200,
            policy.maximum_summary_bytes == 4096,
            policy.maximum_body_bytes == 65536,
            policy.maximum_actions == 64,
    {
        NotificationPolicy {
            maximum_active: 200,
            maximum_summary_bytes: 4096,
            maximum_body_bytes: 65536,
            maximum_actions: 64,
        }
    }
}

/// Why a notification is refused.
#[derive(Clone, Copy, Debug, PartialEq, Eq, Structural)]
pub enum PolicyError {
    SummaryTooLong,
    BodyTooLong,
    TooManyActions,
    EmptyActionKey,
}

impl DeepView for PolicyError {
    type V = PolicyError;

    open spec fn deep_view(&self) -> PolicyError {
        *self
    }
}

impl Record for PolicyError {
    fn same(&self, other: &Self) -> (same: bool) {
        *self == *other
    }

    fn copy(&self) -> (copy: Self) {
        *self
    }
}

impl PolicyError {
    /// The sentence that reports the error.
    pub open spec fn text(self) -> Seq<char> {
        match self {
            PolicyError::SummaryTooLong => "notification summary exceeds configured size limit"@,
            PolicyError::BodyTooLong => "notification body exceeds configured size limit"@,
            PolicyError::TooManyActions => "notification has too many actions"@,
            PolicyError::EmptyActionKey => "notification action key cannot be empty"@,
        }
    }

    /// The sentence that reports the error.
    pub fn message(&self) -> (message: &'static str)
        ensures
            message@ == self.text(),
    {
        match self {
            PolicyError::SummaryTooLong => "notification summary exceeds configured size limit",
            PolicyError::BodyTooLong => "notification body exceeds configured size limit",
            PolicyError::TooManyActions => "notification has too many actions",
            PolicyError::EmptyActionKey => "notification action key cannot be empty",
        }
    }
}

impl NotificationPolicy {
    /// Why a notification is refused.
    pub open spec fn error(&self, notification: IncomingNotificationModel) -> Option<PolicyError> {
        if encode_utf8(notification.summary).len() > self.maximum_summary_bytes {
            Some(PolicyError::SummaryTooLong)
        } else if encode_utf8(notification.body).len() > self.maximum_body_bytes {
            Some(PolicyError::BodyTooLong)
        } else if notification.actions.len() > self.maximum_actions {
            Some(PolicyError::TooManyActions)
        } else if exists|i: int|
            0 <= i < notification.actions.len() && (#[trigger] notification.actions[i]).key.len()
                == 0 {
            Some(PolicyError::EmptyActionKey)
        } else {
            None
        }
    }

    /// Refuses a notification that is too long or has too many actions or one without a key.
    pub fn validate(&self, notification: &IncomingNotification) -> (result: Result<(), PolicyError>)
        ensures
            match result {
                Ok(()) => self.error(notification.deep_view()) is None,
                Err(error) => self.error(notification.deep_view()) == Some(error),
            },
    {
        if byte_length(notification.summary.as_str()) > self.maximum_summary_bytes {
            return Err(PolicyError::SummaryTooLong);
        }
        if byte_length(notification.body.as_str()) > self.maximum_body_bytes {
            return Err(PolicyError::BodyTooLong);
        }
        if notification.actions.len() > self.maximum_actions {
            return Err(PolicyError::TooManyActions);
        }
        let ghost actions = notification.deep_view().actions;
        let mut i: usize = 0;
        while i < notification.actions.len()
            invariant
                i <= notification.actions@.len(),
                actions == notification.deep_view().actions,
                encode_utf8(notification.summary@).len() <= self.maximum_summary_bytes,
                encode_utf8(notification.body@).len() <= self.maximum_body_bytes,
                notification.actions@.len() <= self.maximum_actions,
                forall|k: int| 0 <= k < i ==> (#[trigger] actions[k]).key.len() > 0,
            decreases notification.actions@.len() - i,
        {
            assert(actions[i as int] == notification.actions@[i as int].deep_view());
            if is_empty(notification.actions[i].key.as_str()) {
                assert(actions[i as int].key.len() == 0);
                return Err(PolicyError::EmptyActionKey);
            }
            i = i + 1;
        }
        Ok(())
    }
}

// Laws

/// A notification that breaks a limit is told which.
pub proof fn broken_limits_are_told(error: PolicyError)
    ensures
        error == PolicyError::SummaryTooLong ==> error.text()
            == "notification summary exceeds configured size limit"@,
        error == PolicyError::BodyTooLong ==> error.text()
            == "notification body exceeds configured size limit"@,
        error == PolicyError::TooManyActions ==> error.text()
            == "notification has too many actions"@,
        error == PolicyError::EmptyActionKey ==> error.text()
            == "notification action key cannot be empty"@,
{
}

} // verus!
