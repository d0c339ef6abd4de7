//! Notification status of another notification daemon.

use vstd::prelude::*;

use crate::model::{NotificationState, NotificationStateModel};
use crate::record::Record;
use crate::text::{
    all_digits, chars_of, contains_text, decimal_text, decimal_text_round_trip,
    equals_ignoring_case, is_digit, joined3, lowercase, parse_unsigned, same_ignoring_case,
    slice_chars, text_contains, to_lowercase, unsigned_value, written_numbers_are_read,
};

verus! {

/// How long to wait before the first attempt to subscribe again, in milliseconds.
pub const INITIAL_RETRY_MS: u64 = 1_500;

/// The longest time to wait before an attempt to subscribe again, in milliseconds.
pub const MAXIMUM_RETRY_MS: u64 = 30_000;

/// One line of status.
#[derive(Debug, PartialEq, Eq)]
pub struct WaybarStatus {
    pub text: String,
    pub alt: String,
    pub tooltip: String,
    pub class_name: String,
}

/// What a [`WaybarStatus`] holds.
#[verifier::ext_equal]
pub struct WaybarStatusModel {
    pub text: Seq<char>,
    pub alt: Seq<char>,
    pub tooltip: Seq<char>,
    pub class_name: Seq<char>,
}

impl DeepView for WaybarStatus {
    type V = WaybarStatusModel;

    open spec fn deep_view(&self) -> WaybarStatusModel {
        WaybarStatusModel {
            text: self.text.deep_view(),
            alt: self.alt.deep_view(),
            tooltip: self.tooltip.deep_view(),
            class_name: self.class_name.deep_view(),
        }
    }
}

impl Record for WaybarStatus {
    fn same(&self, other: &Self) -> (same: bool) {
        self.text.same(&other.text)
            && self.alt.same(&other.alt)
            && self.tooltip.same(&other.tooltip)
            && self.class_name.same(&other.class_name)
    }

    fn copy(&self) -> (copy: Self) {
        WaybarStatus {
            text: self.text.copy(),
            alt: self.alt.copy(),
            tooltip: self.tooltip.copy(),
            class_name: self.class_name.copy(),
        }
    }
}

impl Clone for WaybarStatus {
    fn clone(&self) -> (copy: Self)
        ensures
            copy.deep_view() == self.deep_view(),
    {
        self.copy()
    }
}

impl WaybarStatusModel {
    /// What a default [`WaybarStatus`] holds.
    pub open spec fn initial() -> WaybarStatusModel {
        WaybarStatusModel {
            text: Seq::empty(),
            alt: Seq::empty(),
            tooltip: Seq::empty(),
            class_name: Seq::empty(),
        }
    }
}

impl Default for WaybarStatus {
    fn default() -> (value: WaybarStatus)
        ensures
            value.deep_view() == WaybarStatusModel::initial(),
    {
        let value = WaybarStatus {
            text: String::new(),
            alt: String::new(),
            tooltip: String::new(),
            class_name: String::new(),
        };
        assert(value.deep_view() =~= WaybarStatusModel::initial());
        value
    }
}

/// How long to wait the next time.
pub fn next_retry(current: u64) -> (next: u64)
    ensures
        next == if current * 2 < MAXIMUM_RETRY_MS {
            current * 2
        } else {
            MAXIMUM_RETRY_MS as int
        },
{
    if current < MAXIMUM_RETRY_MS / 2 {
        current * 2
    } else {
        MAXIMUM_RETRY_MS
    }
}

/// The digits that a text begins with.
pub open spec fn leading_digits(text: Seq<char>) -> Seq<char>
    decreases text.len(),
{
    if text.len() == 0 || !is_digit(text[0]) {
        Seq::empty()
    } else {
        seq![text[0]] + leading_digits(text.skip(1))
    }
}

/// The first run of digits in a text.
pub open spec fn first_digits(text: Seq<char>) -> Seq<char>
    decreases text.len(),
{
    if text.len() == 0 {
        text
    } else if is_digit(text[0]) {
        leading_digits(text)
    } else {
        first_digits(text.skip(1))
    }
}

/// The first number in a text, zero where there is none or it is too great.
pub open spec fn count_in(text: Seq<char>) -> u32 {
    match unsigned_value(first_digits(text), u32::MAX as nat) {
        Some(count) => count as u32,
        None => 0,
    }
}

proof fn lemma_leading_digits(text: Seq<char>, end: int)
    requires
        0 <= end <= text.len(),
        forall|i: int| 0 <= i < end ==> is_digit(#[trigger] text[i]),
        end < text.len() ==> !is_digit(text[end]),
    ensures
        leading_digits(text) == text.take(end),
    decreases end,
{
    if end > 0 {
        let rest = text.skip(1);
        assert forall|i: int| 0 <= i < end - 1 implies is_digit(#[trigger] rest[i]) by {
            assert(rest[i] == text[i + 1]);
        }
        lemma_leading_digits(rest, end - 1);
        assert(seq![text[0]] + rest.take(end - 1) =~= text.take(end));
    } else {
        assert(text.take(0) =~= Seq::<char>::empty());
    }
}

fn is_digit_char(c: char) -> (digit: bool)
    ensures
        digit == is_digit(c),
{
    '0' <= c && c <= '9'
}

/// The first number in a text, zero where there is none or it is too great.
pub fn notification_count(text: &str) -> (count: u32)
    ensures
        count == count_in(text@),
{
    let chars = chars_of(text);
    let mut start: usize = 0;
    assert(chars@.skip(0) =~= chars@);
    while start < chars.len() && !is_digit_char(chars[start])
        invariant
            start <= chars@.len(),
            first_digits(chars@) == first_digits(chars@.skip(start as int)),
        decreases chars@.len() - start,
    {
        assert(chars@.skip(start as int).skip(1) =~= chars@.skip(start + 1));
        start = start + 1;
    }
    let mut end: usize = start;
    while end < chars.len() && is_digit_char(chars[end])
        invariant
            start <= end <= chars@.len(),
            forall|i: int| start <= i < end ==> is_digit(#[trigger] chars@[i]),
        decreases chars@.len() - end,
    {
        end = end + 1;
    }
    let digits = slice_chars(&chars, start, end);
    proof {
        let rest = chars@.skip(start as int);
        assert forall|i: int| 0 <= i < end - start implies is_digit(#[trigger] rest[i]) by {
            assert(rest[i] == chars@[start + i]);
        }
        if end < chars@.len() {
            assert(rest[end - start] == chars@[end as int]);
        }
        lemma_leading_digits(rest, end - start);
        assert(rest.take(end - start) =~= digits@);
        if start == chars@.len() {
            assert(rest =~= digits@);
        }
    }
    match parse_unsigned(&digits, u32::MAX as u64) {
        Some(count) => count as u32,
        None => 0,
    }
}

/// The words that say how notifications are treated, in lower case.
pub open spec fn status_words(status: WaybarStatusModel) -> Seq<char> {
    lowercase(status.alt + " "@ + status.class_name)
}

/// What a line of status says.
pub open spec fn state_of(status: WaybarStatusModel, words: Seq<char>) -> NotificationStateModel {
    NotificationStateModel {
        available: true,
        count: count_in(status.text),
        dnd: text_contains(words, "dnd"@) || text_contains(words, "do-not-disturb"@),
        dnd_until_unix_ms: None,
        inhibited: text_contains(words, "inhibited"@),
        text: status.text,
        tooltip: status.tooltip,
        alt: status.alt,
        class_name: status.class_name,
        backend: "swaync"@,
        history_revision: 0,
        error: None,
    }
}

/// What a line of status says, given its words in lower case.
pub fn status_state_in(status: WaybarStatus, words: &str) -> (state: NotificationState)
    ensures
        state.deep_view() == state_of(status.deep_view(), words@),
{
    NotificationState {
        available: true,
        count: notification_count(status.text.as_str()),
        dnd: contains_text(words, "dnd") || contains_text(words, "do-not-disturb"),
        dnd_until_unix_ms: None,
        inhibited: contains_text(words, "inhibited"),
        text: status.text,
        tooltip: status.tooltip,
        alt: status.alt,
        class_name: status.class_name,
        backend: "swaync".to_string(),
        history_revision: 0,
        error: None,
    }
}

/// What a line of status says.
pub fn status_state(status: WaybarStatus) -> (state: NotificationState)
    ensures
        state.deep_view() == state_of(status.deep_view(), status_words(status.deep_view())),
{
    let words = to_lowercase(
        joined3(status.alt.as_str(), " ", status.class_name.as_str()).as_str(),
    );
    status_state_in(status, words.as_str())
}

/// The state once a subscription has ended.
pub fn ended_state(current: NotificationState) -> (state: NotificationState)
    ensures
        state.deep_view() == (NotificationStateModel {
            available: false,
            error: Some("SwayNC subscription ended"@),
            ..current.deep_view()
        }),
{
    NotificationState {
        available: false,
        error: Some("SwayNC subscription ended".to_string()),
        ..current
    }
}

/// Whether a setting chooses this daemon, in letters of either case.
pub fn is_chosen(setting: Option<&str>) -> (chosen: bool)
    ensures
        chosen == (setting matches Some(text) && same_ignoring_case(text@, "swaync"@)),
{
    match setting {
        Some(text) => equals_ignoring_case(text, "swaync"),
        None => false,
    }
}

// Laws

proof fn lemma_digits(digits: Seq<char>, rest: Seq<char>)
    requires
        all_digits(digits),
        rest.len() > 0 ==> !is_digit(rest[0]),
    ensures
        leading_digits(digits + rest) == digits,
    decreases digits.len(),
{
    if digits.len() == 0 {
        assert(digits + rest =~= rest);
        assert(leading_digits(rest) =~= digits);
    } else {
        let fewer = digits.skip(1);
        assert forall|i: int| 0 <= i < fewer.len() implies is_digit(#[trigger] fewer[i]) by {
            assert(fewer[i] == digits[i + 1]);
        }
        lemma_digits(fewer, rest);
        assert((digits + rest).skip(1) =~= fewer + rest);
        assert((digits + rest)[0] == digits[0]);
        assert(seq![digits[0]] + fewer =~= digits);
    }
}

proof fn lemma_first_digits(before: Seq<char>, digits: Seq<char>, rest: Seq<char>)
    requires
        forall|i: int| 0 <= i < before.len() ==> !is_digit(#[trigger] before[i]),
        all_digits(digits),
        digits.len() > 0,
        rest.len() > 0 ==> !is_digit(rest[0]),
    ensures
        first_digits(before + (digits + rest)) == digits,
    decreases before.len(),
{
    let text = before + (digits + rest);
    if before.len() == 0 {
        assert(text =~= digits + rest);
        assert(text[0] == digits[0]);
        lemma_digits(digits, rest);
    } else {
        let fewer = before.skip(1);
        assert forall|i: int| 0 <= i < fewer.len() implies !is_digit(#[trigger] fewer[i]) by {
            assert(fewer[i] == before[i + 1]);
        }
        lemma_first_digits(fewer, digits, rest);
        assert(text.skip(1) =~= fewer + (digits + rest));
        assert(text[0] == before[0]);
    }
}

/// The number of notifications is the first that the text holds.
pub proof fn first_number_counts(before: Seq<char>, count: u32, rest: Seq<char>)
    requires
        forall|i: int| 0 <= i < before.len() ==> !is_digit(#[trigger] before[i]),
        rest.len() > 0 ==> !is_digit(rest[0]),
    ensures
        count_in(before + (decimal_text(count as nat) + rest)) == count,
{
    decimal_text_round_trip(count as nat);
    lemma_first_digits(before, decimal_text(count as nat), rest);
    written_numbers_are_read(count as nat, u32::MAX as nat, Seq::empty());
}

/// What is shown is what the other program tells; the user is not to be disturbed,
/// or it is held back, where its words say so.
pub proof fn other_program_is_shown(status: WaybarStatusModel, words: Seq<char>)
    ensures
        ({
            let state = state_of(status, words);
            &&& state.available && state.error is None
            &&& state.count == count_in(status.text)
            &&& state.dnd <==> text_contains(words, "dnd"@) || text_contains(
                words,
                "do-not-disturb"@,
            )
            &&& state.inhibited <==> text_contains(words, "inhibited"@)
            &&& state.text == status.text && state.tooltip == status.tooltip && state.alt
                == status.alt && state.class_name == status.class_name
            &&& state.backend == "swaync"@
        }),
        status_words(status) == lowercase(status.alt + " "@ + status.class_name),
{
}

/// A text without a number counts nothing.
pub proof fn nothing_counts_without_number(text: Seq<char>)
    requires
        forall|i: int| 0 <= i < text.len() ==> !is_digit(#[trigger] text[i]),
    ensures
        count_in(text) == 0,
{
    lemma_no_digits(text);
    written_numbers_are_read(0, u32::MAX as nat, Seq::empty());
    assert(first_digits(text) =~= Seq::<char>::empty());
}

proof fn lemma_no_digits(text: Seq<char>)
    requires
        forall|i: int| 0 <= i < text.len() ==> !is_digit(#[trigger] text[i]),
    ensures
        first_digits(text).len() == 0,
    decreases text.len(),
{
    if text.len() > 0 {
        let rest = text.skip(1);
        assert forall|i: int| 0 <= i < rest.len() implies !is_digit(#[trigger] rest[i]) by {
            assert(rest[i] == text[i + 1]);
        }
        lemma_no_digits(rest);
    }
}

/// The other program is asked again after a second and a half at first, and after
/// half a minute at most.
pub proof fn waits_are_bounded()
    ensures
        INITIAL_RETRY_MS == 1_500,
        MAXIMUM_RETRY_MS == 30 * 1_000,
{
}

} // verus!
