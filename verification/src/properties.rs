//! Dictionaries of named values, as services on the message bus give them.

use vstd::prelude::*;

use crate::record::Record;
use crate::text::same_text;

verus! {

/// A value of one of the types that are told apart.
#[derive(Debug, PartialEq, Eq)]
pub enum PropertyValue {
    Text(String),
    Flag(bool),
    Byte(u8),
    Signed(i64),
    Unsigned(u64),
    Texts(Vec<String>),
    /// A value of any other type.
    Other,
}

/// What a [`PropertyValue`] holds.
pub enum PropertyValueModel {
    Text(Seq<char>),
    Flag(bool),
    Byte(u8),
    Signed(i64),
    Unsigned(u64),
    Texts(Seq<Seq<char>>),
    Other,
}

impl DeepView for PropertyValue {
    type V = PropertyValueModel;

    open spec fn deep_view(&self) -> PropertyValueModel {
        match self {
            PropertyValue::Text(text) => PropertyValueModel::Text(text@),
            PropertyValue::Flag(flag) => PropertyValueModel::Flag(*flag),
            PropertyValue::Byte(byte) => PropertyValueModel::Byte(*byte),
            PropertyValue::Signed(number) => PropertyValueModel::Signed(*number),
            PropertyValue::Unsigned(number) => PropertyValueModel::Unsigned(*number),
            PropertyValue::Texts(texts) => PropertyValueModel::Texts(texts.deep_view()),
            PropertyValue::Other => PropertyValueModel::Other,
        }
    }
}

/// A named value.
#[derive(Debug, PartialEq, Eq)]
pub struct Property {
    pub key: String,
    pub value: PropertyValue,
}

/// What a [`Property`] holds.
pub struct PropertyModel {
    pub key: Seq<char>,
    pub value: PropertyValueModel,
}

impl DeepView for Property {
    type V = PropertyModel;

    open spec fn deep_view(&self) -> PropertyModel {
        PropertyModel { key: self.key@, value: self.value.deep_view() }
    }
}

/// The value under a key.
pub open spec fn value_of(properties: Seq<PropertyModel>, key: Seq<char>) -> Option<
    PropertyValueModel,
>
    decreases properties.len(),
{
    if properties.len() == 0 {
        None
    } else if properties[0].key == key {
        Some(properties[0].value)
    } else {
        value_of(properties.skip(1), key)
    }
}

/// The text under a key, where there is one.
pub open spec fn text_under(properties: Seq<PropertyModel>, key: Seq<char>) -> Option<Seq<char>> {
    match value_of(properties, key) {
        Some(PropertyValueModel::Text(text)) => Some(text),
        _ => None,
    }
}

/// The text under a key, or none at all.
pub open spec fn text_or_empty(properties: Seq<PropertyModel>, key: Seq<char>) -> Seq<char> {
    match text_under(properties, key) {
        Some(text) => text,
        None => Seq::empty(),
    }
}

/// The flag under a key, where there is one.
pub open spec fn flag_under(properties: Seq<PropertyModel>, key: Seq<char>) -> Option<bool> {
    match value_of(properties, key) {
        Some(PropertyValueModel::Flag(flag)) => Some(flag),
        _ => None,
    }
}

/// The byte under a key, where there is one.
pub open spec fn byte_under(properties: Seq<PropertyModel>, key: Seq<char>) -> Option<u8> {
    match value_of(properties, key) {
        Some(PropertyValueModel::Byte(byte)) => Some(byte),
        _ => None,
    }
}

/// The number under a key, signed or not, where it fits.
pub open spec fn number_under(properties: Seq<PropertyModel>, key: Seq<char>) -> Option<i64> {
    match value_of(properties, key) {
        Some(PropertyValueModel::Signed(number)) => Some(number),
        Some(PropertyValueModel::Unsigned(number)) => if number <= i64::MAX {
            Some(number as i64)
        } else {
            None
        },
        _ => None,
    }
}

/// The texts under a key, or none.
pub open spec fn texts_under(properties: Seq<PropertyModel>, key: Seq<char>) -> Seq<Seq<char>> {
    match value_of(properties, key) {
        Some(PropertyValueModel::Texts(texts)) => texts,
        _ => Seq::empty(),
    }
}

/// Finds the value under a key.
pub fn find_value<'a>(properties: &'a Vec<Property>, key: &str) -> (value: Option<
    &'a PropertyValue,
>)
    ensures
        match value {
            Some(value) => value_of(properties.deep_view(), key@) == Some(value.deep_view()),
            None => value_of(properties.deep_view(), key@) is None,
        },
{
    let ghost all = properties.deep_view();
    let mut i: usize = 0;
    assert(all.skip(0) =~= all);
    while i < properties.len()
        invariant
            i <= properties@.len(),
            all == properties.deep_view(),
            value_of(all, key@) == value_of(all.skip(i as int), key@),
        decreases properties@.len() - i,
    {
        assert(all.skip(i as int)[0] == properties@[i as int].deep_view());
        if same_text(properties[i].key.as_str(), key) {
            return Some(&properties[i].value);
        }
        assert(all.skip(i as int).skip(1) =~= all.skip(i + 1));
        i = i + 1;
    }
    None
}

/// The text under a key, where there is one.
pub fn property_string(properties: &Vec<Property>, key: &str) -> (text: Option<String>)
    ensures
        text.deep_view() == text_under(properties.deep_view(), key@),
{
    match find_value(properties, key) {
        Some(PropertyValue::Text(text)) => Some(text.clone()),
        _ => None,
    }
}

/// The text under a key, or none at all.
pub fn property_string_or_empty(properties: &Vec<Property>, key: &str) -> (text: String)
    ensures
        text@ == text_or_empty(properties.deep_view(), key@),
{
    match property_string(properties, key) {
        Some(text) => text,
        None => String::new(),
    }
}

/// The flag under a key, where there is one.
pub fn property_bool(properties: &Vec<Property>, key: &str) -> (flag: Option<bool>)
    ensures
        flag == flag_under(properties.deep_view(), key@),
{
    match find_value(properties, key) {
        Some(PropertyValue::Flag(flag)) => Some(*flag),
        _ => None,
    }
}

/// The byte under a key, where there is one.
pub fn property_byte(properties: &Vec<Property>, key: &str) -> (byte: Option<u8>)
    ensures
        byte == byte_under(properties.deep_view(), key@),
{
    match find_value(properties, key) {
        Some(PropertyValue::Byte(byte)) => Some(*byte),
        _ => None,
    }
}

/// The number under a key, signed or not, where it fits.
pub fn property_i64(properties: &Vec<Property>, key: &str) -> (number: Option<i64>)
    ensures
        number == number_under(properties.deep_view(), key@),
{
    match find_value(properties, key) {
        Some(PropertyValue::Signed(number)) => Some(*number),
        Some(PropertyValue::Unsigned(number)) => if *number <= i64::MAX as u64 {
            Some(*number as i64)
        } else {
            None
        },
        _ => None,
    }
}

/// The texts under a key, or none.
pub fn property_strings(properties: &Vec<Property>, key: &str) -> (texts: Vec<String>)
    ensures
        texts.deep_view() == texts_under(properties.deep_view(), key@),
{
    match find_value(properties, key) {
        Some(PropertyValue::Texts(texts)) => texts.copy(),
        _ => {
            let none: Vec<String> = Vec::new();
            assert(none.deep_view() =~= Seq::<Seq<char>>::empty());
            none
        },
    }
}

// Laws

/// What stands under a key is the value of the first property with it; there is
/// nothing where no property has it.
pub proof fn first_property_counts(properties: Seq<PropertyModel>, key: Seq<char>, at: int)
    requires
        0 <= at <= properties.len(),
        forall|i: int| 0 <= i < at ==> (#[trigger] properties[i]).key != key,
        at < properties.len() ==> properties[at].key == key,
    ensures
        at == properties.len() ==> value_of(properties, key) is None,
        at < properties.len() ==> value_of(properties, key) == Some(properties[at].value),
    decreases properties.len(),
{
    if at > 0 {
        assert(properties[0].key != key);
        let rest = properties.skip(1);
        assert forall|i: int| 0 <= i < at - 1 implies (#[trigger] rest[i]).key != key by {
            assert(rest[i] == properties[i + 1]);
        }
        if at < properties.len() {
            assert(rest[at - 1] == properties[at]);
        }
        first_property_counts(rest, key, at - 1);
    }
}

/// A value is read as what it is, and as nothing else.
pub proof fn values_are_read_by_type(properties: Seq<PropertyModel>, key: Seq<char>)
    ensures
        match value_of(properties, key) {
            Some(PropertyValueModel::Text(text)) => text_under(properties, key) == Some(text)
                && text_or_empty(properties, key) == text,
            _ => text_under(properties, key) is None && text_or_empty(properties, key).len() == 0,
        },
        match value_of(properties, key) {
            Some(PropertyValueModel::Flag(flag)) => flag_under(properties, key) == Some(flag),
            _ => flag_under(properties, key) is None,
        },
        match value_of(properties, key) {
            Some(PropertyValueModel::Byte(byte)) => byte_under(properties, key) == Some(byte),
            _ => byte_under(properties, key) is None,
        },
        match value_of(properties, key) {
            Some(PropertyValueModel::Signed(number)) => number_under(properties, key) == Some(
                number,
            ),
            Some(PropertyValueModel::Unsigned(number)) => if number > i64::MAX {
                number_under(properties, key) is None
            } else {
                number_under(properties, key) matches Some(read) && read == number
            },
            _ => number_under(properties, key) is None,
        },
        match value_of(properties, key) {
            Some(PropertyValueModel::Texts(texts)) => texts_under(properties, key) == texts,
            _ => texts_under(properties, key).len() == 0,
        },
{
}

} // verus!
