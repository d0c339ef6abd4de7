//! The desktop notification service on the message bus.

use vstd::prelude::*;

use crate::activity::notifications::model::{
    IncomingNotification, IncomingNotificationModel, NotificationAction, NotificationActionModel,
    NotificationHints, NotificationHintsModel,
};
use crate::properties::{
    byte_under, find_value, flag_under, property_bool, property_byte, property_string_or_empty,
    text_or_empty, text_under, value_of, Property, PropertyModel, PropertyValue, PropertyValueModel,
};
use crate::text::is_empty;

verus! {

/// Name of the service.
pub const BUS_NAME: &'static str = "org.freedesktop.Notifications";

/// Path of its object.
pub const OBJECT_PATH: &'static str = "/org/freedesktop/Notifications";

/// The sentence that refuses a list of actions.
pub const UNPAIRED_ACTIONS: &'static str = "notification actions must contain key/label pairs";

/// What the service can do.
pub open spec fn capability_names() -> Seq<Seq<char>> {
    seq![
        "actions"@,
        "action-icons"@,
        "body"@,
        "body-markup"@,
        "icon-static"@,
        "persistence"@,
    ]
}

/// What the service can do.
pub fn capabilities() -> (names: Vec<String>)
    ensures
        names.deep_view() == capability_names(),
{
    let mut names: Vec<String> = Vec::new();
    names.push("actions".to_string());
    names.push("action-icons".to_string());
    names.push("body".to_string());
    names.push("body-markup".to_string());
    names.push("icon-static".to_string());
    names.push("persistence".to_string());
    assert(names.deep_view() =~= capability_names());
    names
}

/// The actions that a list of keys and labels, one behind the other, describes.
pub open spec fn paired(words: Seq<Seq<char>>) -> Seq<NotificationActionModel> {
    Seq::new(
        words.len() / 2,
        |i: int| NotificationActionModel { key: words[2 * i], label: words[2 * i + 1] },
    )
}

/// The keys and labels of actions, one behind the other.
pub open spec fn flattened(actions: Seq<NotificationActionModel>) -> Seq<Seq<char>> {
    Seq::new(
        actions.len() * 2,
        |i: int|
            if i % 2 == 0 {
                actions[i / 2].key
            } else {
                actions[i / 2].label
            },
    )
}

/// Pairs keys with labels. There are no actions in a list of odd length.
pub fn pair_actions(words: &Vec<String>) -> (actions: Option<Vec<NotificationAction>>)
    ensures
        match actions {
            Some(actions) => words@.len() % 2 == 0 && actions.deep_view() == paired(
                words.deep_view(),
            ),
            None => words@.len() % 2 != 0,
        },
{
    if words.len() % 2 != 0 {
        return None;
    }
    let mut actions: Vec<NotificationAction> = Vec::new();
    let count: usize = words.len() / 2;
    let mut i: usize = 0;
    while i < count
        invariant
            i <= count,
            count == words@.len() / 2,
            words@.len() <= usize::MAX,
            actions@.len() == i,
            forall|k: int|
                0 <= k < i ==> (#[trigger] actions@[k]).deep_view() == paired(
                    words.deep_view(),
                )[k],
        decreases count - i,
    {
        actions.push(
            NotificationAction { key: words[2 * i].clone(), label: words[2 * i + 1].clone() },
        );
        i = i + 1;
    }
    assert(actions.deep_view() =~= paired(words.deep_view()));
    Some(actions)
}

/// Lists the keys and labels of actions.
pub fn flatten_actions(actions: &Vec<NotificationAction>) -> (words: Vec<String>)
    ensures
        words.deep_view() == flattened(actions.deep_view()),
{
    let mut words: Vec<String> = Vec::new();
    let mut i: usize = 0;
    while i < actions.len()
        invariant
            i <= actions@.len(),
            words@.len() == 2 * i,
            forall|k: int|
                0 <= k < 2 * i ==> (#[trigger] words@[k])@ == flattened(actions.deep_view())[k],
        decreases actions@.len() - i,
    {
        words.push(actions[i].key.clone());
        words.push(actions[i].label.clone());
        assert forall|k: int| 0 <= k < 2 * i + 2 implies (#[trigger] words@[k])@ == flattened(
            actions.deep_view(),
        )[k] by {
            if k == 2 * i {
                assert(k / 2 == i && k % 2 == 0);
            } else if k == 2 * i + 1 {
                assert(k / 2 == i && k % 2 == 1);
            }
        }
        i = i + 1;
    }
    assert(words.deep_view() =~= flattened(actions.deep_view()));
    words
}

/// Actions that are sent to a service come out of it as they were.
pub proof fn pairing_undoes_flattening(actions: Seq<NotificationActionModel>)
    ensures
        flattened(actions).len() % 2 == 0,
        paired(flattened(actions)) == actions,
{
    let words = flattened(actions);
    assert(words.len() / 2 == actions.len());
    assert forall|i: int| 0 <= i < actions.len() implies #[trigger] paired(words)[i]
        == actions[i] by {
        assert((2 * i) / 2 == i && (2 * i) % 2 == 0);
        assert((2 * i + 1) / 2 == i && (2 * i + 1) % 2 == 1);
    }
    assert(paired(words) =~= actions);
}

/// What the hints of a notification say.
pub open spec fn hints_of(hints: Seq<PropertyModel>) -> NotificationHintsModel {
    let urgency = match byte_under(hints, "urgency"@) {
        Some(urgency) => urgency,
        None => 1,
    };
    let image_path = text_or_empty(hints, "image-path"@);
    NotificationHintsModel {
        urgency: if urgency > 2 {
            2
        } else {
            urgency
        },
        category: text_or_empty(hints, "category"@),
        desktop_entry: text_or_empty(hints, "desktop-entry"@),
        image_path: if image_path.len() == 0 {
            text_or_empty(hints, "image_path"@)
        } else {
            image_path
        },
        sound_name: text_or_empty(hints, "sound-name"@),
        sound_file: text_or_empty(hints, "sound-file"@),
        resident: flag_under(hints, "resident"@) == Some(true),
        transient: flag_under(hints, "transient"@) == Some(true),
        suppress_sound: flag_under(hints, "suppress-sound"@) == Some(true),
        image_data_present: value_of(hints, "image-data"@) is Some || value_of(
            hints,
            "image_data"@,
        ) is Some,
    }
}

fn is_set(hints: &Vec<Property>, key: &str) -> (set: bool)
    ensures
        set == (flag_under(hints.deep_view(), key@) == Some(true)),
{
    match property_bool(hints, key) {
        Some(flag) => flag,
        None => false,
    }
}

/// Reads the hints of a notification.
pub fn normalize_hints(hints: &Vec<Property>) -> (normalized: NotificationHints)
    ensures
        normalized.deep_view() == hints_of(hints.deep_view()),
{
    let urgency: u8 = match property_byte(hints, "urgency") {
        Some(urgency) => urgency,
        None => 1,
    };
    let image_path = property_string_or_empty(hints, "image-path");
    NotificationHints {
        urgency: if urgency > 2 {
            2
        } else {
            urgency
        },
        category: property_string_or_empty(hints, "category"),
        desktop_entry: property_string_or_empty(hints, "desktop-entry"),
        image_path: if is_empty(image_path.as_str()) {
            property_string_or_empty(hints, "image_path")
        } else {
            image_path
        },
        sound_name: property_string_or_empty(hints, "sound-name"),
        sound_file: property_string_or_empty(hints, "sound-file"),
        resident: is_set(hints, "resident"),
        transient: is_set(hints, "transient"),
        suppress_sound: is_set(hints, "suppress-sound"),
        image_data_present: find_value(hints, "image-data").is_some() || find_value(
            hints,
            "image_data",
        ).is_some(),
    }
}

/// A notification that the daemon itself sends.
pub open spec fn internal(
    icon: Seq<char>,
    summary: Seq<char>,
    body: Seq<char>,
    urgency: u8,
) -> IncomingNotificationModel {
    IncomingNotificationModel {
        app_name: "bar-daemon"@,
        app_icon: icon,
        summary,
        body,
        actions: Seq::empty(),
        hints: NotificationHintsModel {
            urgency: if urgency > 2 {
                2
            } else {
                urgency
            },
            category: "device"@,
            ..NotificationHintsModel::initial()
        },
        expire_timeout: (-1) as i32,
    }
}

/// A notification that the daemon itself sends.
pub fn internal_notification(icon: &str, summary: &str, body: &str, urgency: u8) -> (notification:
    IncomingNotification)
    ensures
        notification.deep_view() == internal(icon@, summary@, body@, urgency),
{
    let notification = IncomingNotification {
        app_name: "bar-daemon".to_string(),
        app_icon: icon.to_string(),
        summary: summary.to_string(),
        body: body.to_string(),
        actions: Vec::new(),
        hints: NotificationHints {
            urgency: if urgency > 2 {
                2
            } else {
                urgency
            },
            category: "device".to_string(),
            ..NotificationHints::default()
        },
        expire_timeout: -1,
    };
    assert(notification.deep_view() =~= internal(icon@, summary@, body@, urgency));
    notification
}

/// The hints that a notification is sent with to another program.
pub open spec fn sent_hints(hints: NotificationHintsModel) -> Seq<PropertyModel> {
    let urgency = PropertyModel {
        key: "urgency"@,
        value: PropertyValueModel::Byte(hints.urgency),
    };
    if hints.category.len() == 0 {
        seq![urgency]
    } else {
        seq![
            urgency,
            PropertyModel {
                key: "category"@,
                value: PropertyValueModel::Text(hints.category),
            },
        ]
    }
}

/// Writes the hints that a notification is sent with to another program.
pub fn outgoing_hints(hints: &NotificationHints) -> (sent: Vec<Property>)
    ensures
        sent.deep_view() == sent_hints(hints.deep_view()),
{
    let mut sent: Vec<Property> = Vec::new();
    sent.push(
        Property { key: "urgency".to_string(), value: PropertyValue::Byte(hints.urgency) },
    );
    if !is_empty(hints.category.as_str()) {
        sent.push(
            Property {
                key: "category".to_string(),
                value: PropertyValue::Text(hints.category.clone()),
            },
        );
    }
    assert(sent.deep_view() =~= sent_hints(hints.deep_view()));
    sent
}

/// The program that a notification is sent to reads how urgent it is and of
/// what category.
pub proof fn sent_hints_are_read(hints: NotificationHintsModel)
    ensures
        hints_of(sent_hints(hints)).category == hints.category,
        hints_of(sent_hints(hints)).urgency == if hints.urgency > 2 {
            2
        } else {
            hints.urgency
        },
{
    reveal_strlit("urgency");
    reveal_strlit("category");
    assert("urgency"@.len() == 7);
    assert("category"@.len() == 8);
    let sent = sent_hints(hints);
    reveal_with_fuel(value_of, 3);
    if hints.category.len() > 0 {
        assert(sent.skip(1)[0] == sent[1]);
    } else {
        assert(hints.category =~= Seq::<char>::empty());
    }
}

// Laws

/// The words of actions come in pairs: what each is called by, then what it is
/// shown as.
pub proof fn actions_come_in_pairs(words: Seq<Seq<char>>, i: int)
    requires
        words.len() % 2 == 0,
        0 <= i < words.len() / 2,
    ensures
        paired(words).len() * 2 == words.len(),
        paired(words)[i].key == words[2 * i],
        paired(words)[i].label == words[2 * i + 1],
{
}

/// Each hint is read from under its own name. How urgent a notification is goes
/// from 0 to 2, and is 1 where it does not tell; it is resident, transient or
/// silent only where it says so.
pub proof fn hints_are_read_by_name(hints: Seq<PropertyModel>)
    ensures
        ({
            let read = hints_of(hints);
            &&& byte_under(hints, "urgency"@) is None ==> read.urgency == 1
            &&& byte_under(hints, "urgency"@) matches Some(told) ==> (told <= 2 ==> read.urgency
                == told) && (told > 2 ==> read.urgency == 2)
            &&& text_under(hints, "category"@) matches Some(text) ==> read.category == text
            &&& text_under(hints, "desktop-entry"@) matches Some(text) ==> read.desktop_entry
                == text
            &&& text_under(hints, "desktop-entry"@) is None ==> read.desktop_entry.len() == 0
            &&& text_under(hints, "image-path"@) matches Some(text) ==> text.len() > 0
                ==> read.image_path == text
            &&& text_under(hints, "image-path"@) is None ==> read.image_path == text_or_empty(
                hints,
                "image_path"@,
            )
            &&& text_under(hints, "sound-name"@) matches Some(text) ==> read.sound_name == text
            &&& text_under(hints, "sound-file"@) matches Some(text) ==> read.sound_file == text
            &&& read.resident <==> flag_under(hints, "resident"@) == Some(true)
            &&& read.transient <==> flag_under(hints, "transient"@) == Some(true)
            &&& read.suppress_sound <==> flag_under(hints, "suppress-sound"@) == Some(true)
            &&& read.image_data_present <==> value_of(hints, "image-data"@) is Some || value_of(
                hints,
                "image_data"@,
            ) is Some
        }),
{
}

/// A notification of this program's own says what it is given, under this
/// program's name, and leaves open when it ends.
pub proof fn own_notifications_say_what_is_given(
    icon: Seq<char>,
    summary: Seq<char>,
    body: Seq<char>,
    urgency: u8,
)
    ensures
        ({
            let sent = internal(icon, summary, body, urgency);
            &&& sent.app_name == "bar-daemon"@
            &&& sent.app_icon == icon
            &&& sent.summary == summary
            &&& sent.body == body
            &&& urgency <= 2 ==> sent.hints.urgency == urgency
            &&& urgency > 2 ==> sent.hints.urgency == 2
            &&& sent.hints.category == "device"@
            &&& sent.actions.len() == 0
            &&& sent.expire_timeout == -1
        }),
{
}

} // verus!
