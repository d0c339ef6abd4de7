//! What of the notifications outlives the session.

use vstd::prelude::*;

use crate::activity::notifications::model::ActiveNotification;
use crate::text::{
    all_digits, chars_of, decimal, decimal_text, decimal_text_round_trip, parse_unsigned,
    same_text, unsigned_digits, unsigned_value,
};

verus! {

/// Whether a notification is stored. A transient one is not, and takes the
/// place of one that was.
pub fn is_stored(notification: &ActiveNotification) -> (stored: bool)
    ensures
        stored == !notification.deep_view().hints.transient,
{
    !notification.hints.transient
}

/// How the wish not to be disturbed is stored: whether there is one, and when
/// it ends.
pub open spec fn dnd_texts(enabled: bool, until: Option<u64>) -> (Seq<char>, Option<Seq<char>>) {
    (
        if enabled {
            "true"@
        } else {
            "false"@
        },
        match until {
            Some(until) if enabled => Some(decimal_text(until as nat)),
            _ => None,
        },
    )
}

/// What stored texts say of the wish not to be disturbed.
pub open spec fn dnd_of(enabled: Option<Seq<char>>, until: Option<Seq<char>>) -> (
    bool,
    Option<u64>,
) {
    if enabled == Some("true"@) {
        (
            true,
            match until {
                Some(text) => match unsigned_value(text, u64::MAX as nat) {
                    Some(until) => Some(until as u64),
                    None => None,
                },
                None => None,
            },
        )
    } else {
        (false, None)
    }
}

/// Writes the wish not to be disturbed.
pub fn write_dnd(enabled: bool, until_unix_ms: Option<u64>) -> (texts: (
    &'static str,
    Option<String>,
))
    ensures
        (texts.0@, texts.1.deep_view()) == dnd_texts(enabled, until_unix_ms),
{
    if enabled {
        match until_unix_ms {
            Some(until) => ("true", Some(decimal(until))),
            None => ("true", None),
        }
    } else {
        ("false", None)
    }
}

/// Reads the wish not to be disturbed.
pub fn read_dnd(enabled: Option<&str>, until_unix_ms: Option<&str>) -> (dnd: (bool, Option<u64>))
    ensures
        dnd == dnd_of(enabled.deep_view(), until_unix_ms.deep_view()),
{
    let set = match enabled {
        Some(text) => same_text(text, "true"),
        None => false,
    };
    if !set {
        return (false, None);
    }
    match until_unix_ms {
        Some(text) => {
            let chars = chars_of(text);
            (true, parse_unsigned(&chars, u64::MAX))
        },
        None => (true, None),
    }
}

/// A wish not to be disturbed comes back as it was stored. The end of one that
/// is not there is forgotten.
pub proof fn stored_dnd_comes_back(enabled: bool, until: Option<u64>)
    ensures
        ({
            let texts = dnd_texts(enabled, until);
            dnd_of(Some(texts.0), texts.1) == (
                enabled,
                if enabled {
                    until
                } else {
                    None
                },
            )
        }),
{
    reveal_strlit("true");
    reveal_strlit("false");
    assert("true"@.len() == 4);
    assert("false"@.len() == 5);
    if let Some(until) = until {
        decimal_text_round_trip(until as nat);
        let text = decimal_text(until as nat);
        assert(unsigned_digits(text) == text);
        assert(all_digits(text));
    }
}

// Laws

/// The wish not to be disturbed is stored as `true` or `false`, and its end, where
/// there is one, as a number; only what is stored as `true` is such a wish.
pub proof fn dnd_is_stored_as_words(enabled: bool, until: u64, stored: Seq<char>)
    ensures
        dnd_texts(enabled, Some(until)).0 == if enabled {
            "true"@
        } else {
            "false"@
        },
        enabled ==> dnd_texts(enabled, Some(until)).1 == Some(decimal_text(until as nat)),
        !enabled ==> dnd_texts(enabled, Some(until)).1 is None,
        dnd_texts(enabled, None).1 is None,
        dnd_of(Some(stored), None).0 <==> stored == "true"@,
        !dnd_of(None, Some(stored)).0,
{
}

} // verus!
