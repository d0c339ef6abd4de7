//! Alerts about the battery.

use vstd::prelude::*;

use crate::activity::notifications::model::{IncomingNotification, IncomingNotificationModel};
use crate::activity::notifications::server::{internal, internal_notification};
use crate::model::{BatteryState, BatteryStateModel};
use crate::text::{decimal, decimal_text, joined3};

verus! {

/// Something that the user should know.
#[derive(Clone, Copy, Debug, PartialEq, Eq, Structural)]
pub enum BatteryAlert {
    Warning,
    Critical,
    /// The battery is charged as far as it may, to a percentage.
    ChargeComplete(u8),
}

/// What the user has been told.
#[derive(Clone, Copy, Debug, PartialEq, Eq, Structural)]
pub struct AlertTracker {
    pub initialized: bool,
    pub warning_sent: bool,
    pub critical_sent: bool,
    pub full_sent: bool,
}

impl AlertTracker {
    /// Nothing yet.
    pub open spec fn initial() -> AlertTracker {
        AlertTracker {
            initialized: false,
            warning_sent: false,
            critical_sent: false,
            full_sent: false,
        }
    }
}

impl Default for AlertTracker {
    fn default() -> (tracker: AlertTracker)
        ensures
            tracker == AlertTracker::initial(),
    {
        AlertTracker {
            initialized: false,
            warning_sent: false,
            critical_sent: false,
            full_sent: false,
        }
    }
}

/// The charge at which the battery is charged as far as it may.
pub open spec fn complete_percent(state: BatteryStateModel) -> u8 {
    if state.protection.charge_once_active || !state.protection.enabled {
        100
    } else {
        match state.protection.end_percent {
            Some(end) => end,
            None => 100,
        }
    }
}

/// What the user has been told after a look at the battery, and what to tell now.
pub open spec fn after_look(tracker: AlertTracker, state: BatteryStateModel, notify_full: bool) -> (
    AlertTracker,
    Option<BatteryAlert>,
) {
    let complete = complete_percent(state);
    if !state.available {
        (AlertTracker { initialized: true, ..tracker }, None)
    } else if !tracker.initialized {
        (
            AlertTracker {
                initialized: true,
                warning_sent: state.warning,
                critical_sent: state.critical,
                full_sent: state.plugged && state.percentage >= complete,
            },
            None,
        )
    } else if state.plugged {
        let full = state.percentage >= complete;
        (
            AlertTracker {
                initialized: true,
                warning_sent: false,
                critical_sent: false,
                full_sent: full,
            },
            if full && !tracker.full_sent && notify_full {
                Some(BatteryAlert::ChargeComplete(complete))
            } else {
                None
            },
        )
    } else if state.critical && !tracker.critical_sent {
        (
            AlertTracker {
                initialized: true,
                warning_sent: true,
                critical_sent: true,
                full_sent: false,
            },
            Some(BatteryAlert::Critical),
        )
    } else if state.warning && !tracker.warning_sent {
        (
            AlertTracker { warning_sent: true, full_sent: false, ..tracker },
            Some(BatteryAlert::Warning),
        )
    } else {
        (AlertTracker { full_sent: false, ..tracker }, None)
    }
}

impl AlertTracker {
    /// Looks at the battery. Gives what to tell the user.
    pub fn observe(&mut self, state: &BatteryState, notify_when_full: bool) -> (alert: Option<
        BatteryAlert,
    >)
        ensures
            (*final(self), alert) == after_look(*old(self), state.deep_view(), notify_when_full),
    {
        if !state.available {
            self.initialized = true;
            return None;
        }
        let complete: u8 = if state.protection.charge_once_active || !state.protection.enabled {
            100
        } else {
            match state.protection.end_percent {
                Some(end) => end,
                None => 100,
            }
        };
        if !self.initialized {
            self.initialized = true;
            self.warning_sent = state.warning;
            self.critical_sent = state.critical;
            self.full_sent = state.plugged && state.percentage >= complete;
            return None;
        }
        if state.plugged {
            self.warning_sent = false;
            self.critical_sent = false;
            if state.percentage < complete {
                self.full_sent = false;
            }
            if state.percentage >= complete && !self.full_sent {
                self.full_sent = true;
                if notify_when_full {
                    return Some(BatteryAlert::ChargeComplete(complete));
                }
            }
            return None;
        }
        self.full_sent = false;
        if state.critical && !self.critical_sent {
            self.critical_sent = true;
            self.warning_sent = true;
            return Some(BatteryAlert::Critical);
        }
        if state.warning && !self.warning_sent {
            self.warning_sent = true;
            return Some(BatteryAlert::Warning);
        }
        None
    }
}

/// What the user has been told after looks at the battery, and what was told at each.
pub open spec fn after_looks(
    tracker: AlertTracker,
    states: Seq<BatteryStateModel>,
    notify_full: bool,
) -> (AlertTracker, Seq<Option<BatteryAlert>>)
    decreases states.len(),
{
    if states.len() == 0 {
        (tracker, Seq::empty())
    } else {
        let (before, alerts) = after_looks(tracker, states.drop_last(), notify_full);
        let (after, alert) = after_look(before, states.last(), notify_full);
        (after, alerts.push(alert))
    }
}

/// Whether a list of what was told holds an alert.
pub open spec fn told(alerts: Seq<Option<BatteryAlert>>, alert: BatteryAlert) -> bool {
    alerts.contains(Some(alert))
}

proof fn lemma_told(alerts: Seq<Option<BatteryAlert>>, next: Option<BatteryAlert>, alert: BatteryAlert)
    ensures
        told(alerts.push(next), alert) <==> told(alerts, alert) || next == Some(alert),
{
    let longer = alerts.push(next);
    if told(alerts, alert) {
        let k = choose|k: int| 0 <= k < alerts.len() && alerts[k] == Some(alert);
        assert(longer[k] == Some(alert));
    }
    if next == Some(alert) {
        assert(longer[alerts.len() as int] == Some(alert));
    }
    if told(longer, alert) {
        let k = choose|k: int| 0 <= k < longer.len() && longer[k] == Some(alert);
        if k < alerts.len() {
            assert(alerts[k] == Some(alert));
        }
    }
}

/// As long as no look at the battery shows external power, the user is warned,
/// or told that it is critical, only if that has not been told before; a warning
/// does not follow the news that it is critical.
pub proof fn alerts_come_once_per_discharge(
    tracker: AlertTracker,
    states: Seq<BatteryStateModel>,
    next: BatteryStateModel,
    notify_full: bool,
)
    requires
        forall|i: int|
            0 <= i < states.len() && (#[trigger] states[i]).available ==> !states[i].plugged,
    ensures
        ({
            let (before, alerts) = after_looks(tracker, states, notify_full);
            let alert = after_look(before, next, notify_full).1;
            &&& told(alerts, BatteryAlert::Warning) || told(alerts, BatteryAlert::Critical)
                ==> alert != Some(BatteryAlert::Warning)
            &&& told(alerts, BatteryAlert::Critical) ==> alert != Some(BatteryAlert::Critical)
        }),
{
    lemma_told_is_remembered(tracker, states, notify_full);
}

proof fn lemma_told_is_remembered(
    tracker: AlertTracker,
    states: Seq<BatteryStateModel>,
    notify_full: bool,
)
    requires
        forall|i: int|
            0 <= i < states.len() && (#[trigger] states[i]).available ==> !states[i].plugged,
    ensures
        told(after_looks(tracker, states, notify_full).1, BatteryAlert::Warning) || told(
            after_looks(tracker, states, notify_full).1,
            BatteryAlert::Critical,
        ) ==> after_looks(tracker, states, notify_full).0.initialized,
        told(after_looks(tracker, states, notify_full).1, BatteryAlert::Warning) ==> after_looks(
            tracker,
            states,
            notify_full,
        ).0.warning_sent,
        told(after_looks(tracker, states, notify_full).1, BatteryAlert::Critical) ==> after_looks(
            tracker,
            states,
            notify_full,
        ).0.warning_sent && after_looks(tracker, states, notify_full).0.critical_sent,
    decreases states.len(),
{
    if states.len() > 0 {
        let shorter = states.drop_last();
        assert forall|i: int|
            0 <= i < shorter.len() && (#[trigger] shorter[i]).available implies !shorter[i].plugged by {
            assert(shorter[i] == states[i]);
        }
        lemma_told_is_remembered(tracker, shorter, notify_full);
        assert(states[states.len() - 1] == states.last());
        let (before, alerts) = after_looks(tracker, shorter, notify_full);
        let alert = after_look(before, states.last(), notify_full).1;
        lemma_told(alerts, alert, BatteryAlert::Warning);
        lemma_told(alerts, alert, BatteryAlert::Critical);
    }
}

/// An alert as a notification.
pub open spec fn alert_notification(alert: BatteryAlert) -> IncomingNotificationModel {
    match alert {
        BatteryAlert::Warning => internal(
            "battery-caution"@,
            "Battery low"@,
            "Plug in soon."@,
            1,
        ),
        BatteryAlert::Critical => internal(
            "battery-empty"@,
            "Battery critical"@,
            "Plug in now."@,
            2,
        ),
        BatteryAlert::ChargeComplete(percent) => if percent < 100 {
            internal(
                "battery-full-charged"@,
                "Charge limit reached"@,
                "Charging paused at the protected limit of "@ + decimal_text(percent as nat)
                    + "%."@,
                0,
            )
        } else {
            internal("battery-full-charged"@, "Battery full"@, "Unplug to reduce wear."@, 0)
        },
    }
}

/// An alert as a notification.
pub fn notification_for(alert: BatteryAlert) -> (notification: IncomingNotification)
    ensures
        notification.deep_view() == alert_notification(alert),
{
    match alert {
        BatteryAlert::Warning => internal_notification(
            "battery-caution",
            "Battery low",
            "Plug in soon.",
            1,
        ),
        BatteryAlert::Critical => internal_notification(
            "battery-empty",
            "Battery critical",
            "Plug in now.",
            2,
        ),
        BatteryAlert::ChargeComplete(percent) => if percent < 100 {
            let body = joined3(
                "Charging paused at the protected limit of ",
                decimal(percent as u64).as_str(),
                "%.",
            );
            internal_notification("battery-full-charged", "Charge limit reached", body.as_str(), 0)
        } else {
            internal_notification(
                "battery-full-charged",
                "Battery full",
                "Unplug to reduce wear.",
                0,
            )
        },
    }
}

// Laws

/// When alerts come: none on the first look, nor while there is no battery. One
/// that runs without external power is told of when it becomes critical and was
/// not told of as such, or else when it becomes low and was not told of at all.
/// One with external power is told of when it is charged as far as it may, if
/// that is wanted and was not told of.
pub proof fn alerts_come_when_due(
    tracker: AlertTracker,
    state: BatteryStateModel,
    notify_full: bool,
)
    ensures
        ({
            let (after, alert) = after_look(tracker, state, notify_full);
            let looks = tracker.initialized && state.available;
            let done = if state.protection.charge_once_active || !state.protection.enabled
                || state.protection.end_percent is None {
                100u8
            } else {
                state.protection.end_percent->0
            };
            &&& after.initialized
            &&& alert == Some(BatteryAlert::Critical) <==> looks && !state.plugged && state.critical
                && !tracker.critical_sent
            &&& alert == Some(BatteryAlert::Warning) <==> looks && !state.plugged && state.warning
                && !tracker.warning_sent && !(state.critical && !tracker.critical_sent)
            &&& alert matches Some(BatteryAlert::ChargeComplete(percent)) ==> percent == done
            &&& alert is Some && alert->0 is ChargeComplete <==> looks && state.plugged && notify_full
                && !tracker.full_sent && state.percentage >= done
            &&& looks && state.plugged ==> !after.warning_sent && !after.critical_sent && (
            after.full_sent <==> state.percentage >= done)
            &&& looks && !state.plugged ==> !after.full_sent
            &&& alert == Some(BatteryAlert::Critical) ==> after.critical_sent && after.warning_sent
            &&& alert == Some(BatteryAlert::Warning) ==> after.warning_sent
            &&& !tracker.initialized && state.available ==> after.warning_sent == state.warning
                && after.critical_sent == state.critical && (after.full_sent <==> state.plugged
                && state.percentage >= done)
            &&& !state.available ==> after.warning_sent == tracker.warning_sent
                && after.critical_sent == tracker.critical_sent && after.full_sent
                == tracker.full_sent
        }),
{
}

/// What is told with an alert: a critical battery is an urgent matter, a low one an
/// ordinary one, and one that is charged a minor one, which names the limit where
/// it is one.
pub proof fn alerts_tell_what_happened(alert: BatteryAlert)
    ensures
        alert == BatteryAlert::Critical ==> alert_notification(alert).hints.urgency == 2
            && alert_notification(alert).summary == "Battery critical"@,
        alert == BatteryAlert::Warning ==> alert_notification(alert).hints.urgency == 1
            && alert_notification(alert).summary == "Battery low"@,
        alert matches BatteryAlert::ChargeComplete(percent) ==> {
            &&& alert_notification(alert).hints.urgency == 0
            &&& percent >= 100 ==> alert_notification(alert).summary == "Battery full"@
            &&& percent < 100 ==> alert_notification(alert).summary == "Charge limit reached"@
                && alert_notification(alert).body == "Charging paused at the protected limit of "@
                + decimal_text(percent as nat) + "%."@
        },
{
}

} // verus!
