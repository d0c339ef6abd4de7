//! Text primitives over the characters of a string.
//!
//! Every operation is stated over `Seq<char>`, the view of `str` and `String`.

use vstd::prelude::*;
use vstd::utf8::{encode_utf8, encode_utf8_decode_utf8};

verus! {

/// The characters of `text`, in order.
pub fn chars_of(text: &str) -> (chars: Vec<char>)
    ensures
        chars@ == text@,
{
    let mut chars: Vec<char> = Vec::new();
    for c in it: text.chars()
        invariant
            chars@ == text@.take(it.index() as int),
            it.seq() == text@,
    {
        chars.push(c);
        assert(text@.take(it.index() as int).push(c) =~= text@.take(it.index() + 1));
    }
    assert(text@.take(text@.len() as int) =~= text@);
    chars
}

/// `String::push` appends a character to the end of a string.
pub assume_specification[ String::push ](text: &mut String, c: char)
    ensures
        final(text)@ == old(text)@.push(c),
;

/// The string of these characters, in order.
pub fn text_of(chars: &Vec<char>) -> (text: String)
    ensures
        text@ == chars@,
{
    let mut text = String::new();
    let mut i: usize = 0;
    assert(text@ =~= chars@.take(0));
    while i < chars.len()
        invariant
            i <= chars@.len(),
            text@ == chars@.take(i as int),
        decreases chars@.len() - i,
    {
        text.push(chars[i]);
        i = i + 1;
        assert(text@ =~= chars@.take(i as int));
    }
    assert(chars@.take(i as int) =~= chars@);
    text
}

/// The lower-case form that `str::to_lowercase` gives to a text.
pub uninterp spec fn lowercase(text: Seq<char>) -> Seq<char>;

/// Calls `str::to_lowercase`, whose Unicode case mapping depends on the text alone.
#[verifier::external_body]
pub(crate) fn to_lowercase(text: &str) -> (lower: String)
    ensures
        lower@ == lowercase(text@),
{
    text.to_lowercase()
}

/// Whether a text has no characters.
pub fn is_empty(text: &str) -> (empty: bool)
    ensures
        empty == (text@.len() == 0),
{
    proof {
        reveal_strlit("");
    }
    let empty = same_text(text, "");
    assert(empty ==> text@ == ""@);
    assert(text@.len() == 0 ==> text@ =~= ""@);
    empty
}

/// The number of bytes that a text takes in UTF-8.
pub fn byte_length(text: &str) -> (length: usize)
    ensures
        length == encode_utf8(text@).len(),
{
    text.as_bytes().len()
}

/// Tests whether one of the texts is the given one.
pub fn contains_name(names: &Vec<String>, name: &str) -> (found: bool)
    ensures
        found == names.deep_view().contains(name@),
{
    let mut i: usize = 0;
    while i < names.len()
        invariant
            i <= names@.len(),
            forall|k: int| 0 <= k < i ==> (#[trigger] names.deep_view()[k]) != name@,
        decreases names@.len() - i,
    {
        assert(names.deep_view()[i as int] == names@[i as int]@);
        if same_text(names[i].as_str(), name) {
            return true;
        }
        i = i + 1;
    }
    false
}

/// Whether two strings hold the same characters.
pub fn same_text(a: &str, b: &str) -> (same: bool)
    ensures
        same == (a@ == b@),
{
    let left: &[u8] = a.as_bytes();
    let right: &[u8] = b.as_bytes();
    proof {
        encode_utf8_decode_utf8(a@);
        encode_utf8_decode_utf8(b@);
    }
    if left.len() != right.len() {
        return false;
    }
    let mut i: usize = 0;
    while i < left.len()
        invariant
            i <= left@.len(),
            left@.len() == right@.len(),
            left@ == encode_utf8(a@),
            right@ == encode_utf8(b@),
            left@.take(i as int) == right@.take(i as int),
        decreases left@.len() - i,
    {
        if left[i] != right[i] {
            assert(left@[i as int] != right@[i as int]);
            return false;
        }
        assert(left@.take(i + 1) =~= left@.take(i as int).push(left@[i as int]));
        assert(right@.take(i + 1) =~= right@.take(i as int).push(right@[i as int]));
        i = i + 1;
    }
    assert(left@.take(i as int) =~= left@);
    assert(right@.take(i as int) =~= right@);
    true
}

/// Whether two character lists are equal.
pub fn same_chars(a: &Vec<char>, b: &Vec<char>) -> (same: bool)
    ensures
        same == (a@ == b@),
{
    if a.len() != b.len() {
        return false;
    }
    let mut i: usize = 0;
    while i < a.len()
        invariant
            i <= a@.len(),
            a@.len() == b@.len(),
            forall|j: int| 0 <= j < i ==> a@[j] == b@[j],
        decreases a@.len() - i,
    {
        if a[i] != b[i] {
            return false;
        }
        i = i + 1;
    }
    assert(a@ =~= b@);
    true
}

/// The characters of `chars` from `from` up to `to`.
pub fn slice_chars(chars: &Vec<char>, from: usize, to: usize) -> (part: Vec<char>)
    requires
        from <= to <= chars@.len(),
    ensures
        part@ == chars@.subrange(from as int, to as int),
{
    let mut part: Vec<char> = Vec::new();
    let mut i: usize = from;
    while i < to
        invariant
            from <= i <= to <= chars@.len(),
            part@ == chars@.subrange(from as int, i as int),
        decreases to - i,
    {
        part.push(chars[i]);
        assert(chars@.subrange(from as int, i as int).push(chars@[i as int])
            =~= chars@.subrange(from as int, i + 1));
        i = i + 1;
    }
    part
}

/// Two texts joined.
pub fn joined(a: &str, b: &str) -> (text: String)
    ensures
        text@ == a@ + b@,
{
    let mut text = a.to_owned();
    text.append(b);
    text
}

/// Three texts joined.
pub fn joined3(a: &str, b: &str, c: &str) -> (text: String)
    ensures
        text@ == a@ + b@ + c@,
{
    let mut text = a.to_owned();
    text.append(b);
    text.append(c);
    text
}

// ---------------------------------------------------------------------------
// Order

/// Lexicographic order by character code, which is the byte order of UTF-8.
pub open spec fn text_lt(a: Seq<char>, b: Seq<char>) -> bool
    decreases a.len(),
{
    if b.len() == 0 {
        false
    } else if a.len() == 0 {
        true
    } else if a[0] != b[0] {
        a[0] < b[0]
    } else {
        text_lt(a.drop_first(), b.drop_first())
    }
}

/// Whether `a` comes before `b`.
pub fn text_less(a: &str, b: &str) -> (less: bool)
    ensures
        less == text_lt(a@, b@),
{
    let left = chars_of(a);
    let right = chars_of(b);
    let mut i: usize = 0;
    assert(left@.skip(0) =~= left@);
    assert(right@.skip(0) =~= right@);
    while i < left.len() && i < right.len()
        invariant
            i <= left@.len(),
            i <= right@.len(),
            left@ == a@,
            right@ == b@,
            text_lt(left@, right@) == text_lt(left@.skip(i as int), right@.skip(i as int)),
        decreases left@.len() - i,
    {
        assert(left@.skip(i as int)[0] == left@[i as int]);
        assert(right@.skip(i as int)[0] == right@[i as int]);
        assert(left@.skip(i as int).drop_first() =~= left@.skip(i + 1));
        assert(right@.skip(i as int).drop_first() =~= right@.skip(i + 1));
        if left[i] != right[i] {
            return left[i] < right[i];
        }
        i = i + 1;
    }
    left.len() <= i && i < right.len()
}

/// No text precedes itself, and no two texts precede each other.
pub proof fn text_lt_asymmetric(a: Seq<char>, b: Seq<char>)
    ensures
        text_lt(a, b) ==> !text_lt(b, a),
    decreases a.len(),
{
    if a.len() > 0 && b.len() > 0 && a[0] == b[0] {
        text_lt_asymmetric(a.drop_first(), b.drop_first());
    }
}

/// Of two different texts one precedes the other.
pub proof fn text_lt_total(a: Seq<char>, b: Seq<char>)
    ensures
        a == b || text_lt(a, b) || text_lt(b, a),
    decreases a.len(),
{
    if a.len() > 0 && b.len() > 0 && a[0] == b[0] {
        text_lt_total(a.drop_first(), b.drop_first());
        if a.drop_first() == b.drop_first() {
            assert(a =~= seq![a[0]] + a.drop_first());
            assert(b =~= seq![b[0]] + b.drop_first());
        }
    } else if a.len() == 0 && b.len() == 0 {
        assert(a =~= b);
    }
}

/// The text order is transitive.
pub proof fn text_lt_transitive(a: Seq<char>, b: Seq<char>, c: Seq<char>)
    requires
        text_lt(a, b),
        text_lt(b, c),
    ensures
        text_lt(a, c),
    decreases a.len(),
{
    if a.len() > 0 && b.len() > 0 && c.len() > 0 && a[0] == b[0] && b[0] == c[0] {
        text_lt_transitive(a.drop_first(), b.drop_first(), c.drop_first());
    }
}

// ---------------------------------------------------------------------------
// ASCII case

/// The ASCII upper-case form of a character; other characters stay.
pub open spec fn ascii_upper(c: char) -> char {
    if 'a' <= c <= 'z' {
        ((c as u32) - 32) as char
    } else {
        c
    }
}

/// A text with its ASCII letters in upper case.
pub open spec fn ascii_upper_text(text: Seq<char>) -> Seq<char> {
    text.map_values(|c: char| ascii_upper(c))
}

/// Upper-cases one ASCII letter.
pub fn upper_char(c: char) -> (upper: char)
    ensures
        upper == ascii_upper(c),
{
    if 'a' <= c && c <= 'z' {
        let code: u8 = c as u8 - 32;
        code as char
    } else {
        c
    }
}

/// The characters of a text with ASCII letters in upper case.
pub fn upper_chars(chars: &Vec<char>) -> (upper: Vec<char>)
    ensures
        upper@ == ascii_upper_text(chars@),
{
    let mut upper: Vec<char> = Vec::new();
    let mut i: usize = 0;
    while i < chars.len()
        invariant
            i <= chars@.len(),
            upper@ == ascii_upper_text(chars@.take(i as int)),
        decreases chars@.len() - i,
    {
        upper.push(upper_char(chars[i]));
        assert(ascii_upper_text(chars@.take(i + 1)) =~= ascii_upper_text(chars@.take(i as int)).push(
            ascii_upper(chars@[i as int]),
        ));
        i = i + 1;
    }
    assert(chars@.take(i as int) =~= chars@);
    upper
}

/// Whether two texts are equal up to the case of ASCII letters.
pub open spec fn same_ignoring_case(a: Seq<char>, b: Seq<char>) -> bool {
    ascii_upper_text(a) == ascii_upper_text(b)
}

/// Compares two texts up to the case of ASCII letters.
pub fn equals_ignoring_case(a: &str, b: &str) -> (same: bool)
    ensures
        same == same_ignoring_case(a@, b@),
{
    same_chars(&upper_chars(&chars_of(a)), &upper_chars(&chars_of(b)))
}

// ---------------------------------------------------------------------------
// Search

/// Whether `text` begins with `prefix`.
pub open spec fn has_prefix(text: Seq<char>, prefix: Seq<char>) -> bool {
    prefix.len() <= text.len() && text.take(prefix.len() as int) == prefix
}

/// Whether `part` stands in `text` at position `at`.
pub open spec fn occurs_at(text: Seq<char>, part: Seq<char>, at: int) -> bool {
    0 <= at && at + part.len() <= text.len() && text.subrange(at, at + part.len()) == part
}

/// Whether `part` stands anywhere in `text`.
pub open spec fn text_contains(text: Seq<char>, part: Seq<char>) -> bool {
    exists|at: int| occurs_at(text, part, at)
}

/// Tests whether `part` stands in `text` at position `at`.
fn chars_occur_at(text: &Vec<char>, part: &Vec<char>, at: usize) -> (found: bool)
    requires
        at <= text@.len(),
    ensures
        found == occurs_at(text@, part@, at as int),
{
    if part.len() > text.len() - at {
        return false;
    }
    let mut i: usize = 0;
    while i < part.len()
        invariant
            i <= part@.len(),
            at + part@.len() <= text@.len(),
            text@.len() <= usize::MAX,
            forall|j: int| 0 <= j < i ==> text@[at + j] == part@[j],
        decreases part@.len() - i,
    {
        if text[at + i] != part[i] {
            assert(text@.subrange(at as int, at + part@.len())[i as int] != part@[i as int]);
            return false;
        }
        i = i + 1;
    }
    assert(text@.subrange(at as int, at + part@.len()) =~= part@);
    true
}

/// Tests whether `text` begins with `prefix`.
pub fn starts_with(text: &str, prefix: &str) -> (found: bool)
    ensures
        found == has_prefix(text@, prefix@),
{
    let whole = chars_of(text);
    let part = chars_of(prefix);
    proof {
        if prefix@.len() <= text@.len() {
            assert(text@.subrange(0, prefix@.len() as int) =~= text@.take(prefix@.len() as int));
        }
    }
    chars_occur_at(&whole, &part, 0)
}

/// Tests whether `part` stands anywhere in `text`.
pub fn contains_text(text: &str, part: &str) -> (found: bool)
    ensures
        found == text_contains(text@, part@),
{
    let whole = chars_of(text);
    let needle = chars_of(part);
    let mut at: usize = 0;
    while at < whole.len()
        invariant
            at <= whole@.len(),
            whole@ == text@,
            needle@ == part@,
            forall|j: int| 0 <= j < at ==> !occurs_at(text@, part@, j),
        decreases whole@.len() - at,
    {
        if chars_occur_at(&whole, &needle, at) {
            return true;
        }
        at = at + 1;
    }
    let found = chars_occur_at(&whole, &needle, at);
    proof {
        if !found {
            assert forall|j: int| !occurs_at(text@, part@, j) by {
                if j > at {
                }
            }
        }
    }
    found
}

/// The position of the first `c` in `text`, or its length where there is none.
pub open spec fn first_position(text: Seq<char>, c: char) -> nat
    decreases text.len(),
{
    if text.len() == 0 || text[0] == c {
        0
    } else {
        1 + first_position(text.drop_first(), c)
    }
}

/// What `first_position` says: no `c` stands before it, and one stands there if any does.
pub proof fn lemma_first_position(text: Seq<char>, c: char)
    ensures
        first_position(text, c) <= text.len(),
        forall|i: int| 0 <= i < first_position(text, c) ==> text[i] != c,
        first_position(text, c) < text.len() ==> text[first_position(text, c) as int] == c,
    decreases text.len(),
{
    if text.len() > 0 && text[0] != c {
        lemma_first_position(text.drop_first(), c);
        assert forall|i: int| 0 <= i < first_position(text, c) implies text[i] != c by {
            if i > 0 {
                assert(text[i] == text.drop_first()[i - 1]);
            }
        }
    }
}

/// Any position with what `first_position` says of it is that position.
proof fn lemma_first_position_unique(text: Seq<char>, c: char, at: int)
    requires
        0 <= at <= text.len(),
        forall|i: int| 0 <= i < at ==> text[i] != c,
        at < text.len() ==> text[at] == c,
    ensures
        first_position(text, c) == at,
{
    lemma_first_position(text, c);
    if first_position(text, c) < at {
        assert(text[first_position(text, c) as int] != c);
    }
}

/// Finds the first `c` in `chars`.
pub fn position_of(chars: &Vec<char>, c: char) -> (at: usize)
    ensures
        at == first_position(chars@, c),
        at <= chars@.len(),
{
    let mut i: usize = 0;
    while i < chars.len()
        invariant
            i <= chars@.len(),
            forall|j: int| 0 <= j < i ==> chars@[j] != c,
        decreases chars@.len() - i,
    {
        if chars[i] == c {
            proof {
                lemma_first_position_unique(chars@, c, i as int);
            }
            return i;
        }
        i = i + 1;
    }
    proof {
        lemma_first_position_unique(chars@, c, i as int);
    }
    i
}

/// The pieces of `text` between the occurrences of `c`.
pub open spec fn split_on(text: Seq<char>, c: char) -> Seq<Seq<char>>
    decreases text.len(),
    via split_on_decreases
{
    let at = first_position(text, c) as int;
    if at >= text.len() {
        seq![text]
    } else {
        seq![text.take(at)] + split_on(text.skip(at + 1), c)
    }
}

#[via_fn]
proof fn split_on_decreases(text: Seq<char>, c: char) {
    lemma_first_position(text, c);
}

/// A text that ends in `c`, or is empty, is cut apart from what follows it.
pub proof fn lemma_split_joined(a: Seq<char>, b: Seq<char>, c: char)
    requires
        a.len() == 0 || a.last() == c,
    ensures
        split_on(a, c).len() > 0,
        split_on(a, c).last().len() == 0,
        split_on(a + b, c) == split_on(a, c).drop_last() + split_on(b, c),
    decreases a.len(),
{
    lemma_first_position(a, c);
    if a.len() == 0 {
        assert(a + b =~= b);
        assert(split_on(a, c).drop_last() + split_on(b, c) =~= split_on(b, c));
    } else {
        let at = first_position(a, c) as int;
        if at == a.len() {
            assert(a[a.len() - 1] != c);
        }
        let rest = a.skip(at + 1);
        lemma_split_joined(rest, b, c);
        assert forall|i: int| 0 <= i < at implies (a + b)[i] != c by {
            assert((a + b)[i] == a[i]);
        }
        lemma_first_position_unique(a + b, c, at);
        assert((a + b).take(at) =~= a.take(at));
        assert((a + b).skip(at + 1) =~= rest + b);
        assert(split_on(a, c) =~= seq![a.take(at)] + split_on(rest, c));
        assert(split_on(a + b, c) =~= split_on(a, c).drop_last() + split_on(b, c));
    }
}

/// A text without the `c`s at its end begins as the text does.
pub proof fn lemma_trimmed_end_of(text: Seq<char>, c: char)
    ensures
        trimmed_end_of(text, c).is_prefix_of(text),
    decreases text.len(),
{
    if text.len() > 0 && text.last() == c {
        lemma_trimmed_end_of(text.drop_last(), c);
    }
}

/// Cuts `chars` at every `c`.
pub fn split_chars(chars: &Vec<char>, c: char) -> (pieces: Vec<Vec<char>>)
    ensures
        char_views(pieces@) == split_on(chars@, c),
        pieces@.len() > 0,
{
    let mut pieces: Vec<Vec<char>> = Vec::new();
    let mut start: usize = 0;
    let mut i: usize = 0;
    assert(chars@.skip(0) =~= chars@);
    assert(char_views(pieces@) + split_on(chars@, c) =~= split_on(chars@, c));
    while i < chars.len()
        invariant
            start <= i <= chars@.len(),
            forall|j: int| start <= j < i ==> chars@[j] != c,
            char_views(pieces@) + split_on(chars@.skip(start as int), c)
                == split_on(chars@, c),
        decreases chars@.len() - i,
    {
        if chars[i] == c {
            let ghost rest = chars@.skip(start as int);
            let ghost before = pieces@;
            proof {
                lemma_first_position_unique(rest, c, i - start);
                assert(rest.take(i - start) =~= chars@.subrange(start as int, i as int));
                assert(rest.skip(i - start + 1) =~= chars@.skip(i + 1));
            }
            pieces.push(slice_chars(chars, start, i));
            assert(char_views(pieces@) =~= char_views(before).push(rest.take(i - start)));
            assert(char_views(before).push(rest.take(i - start)) + split_on(
                chars@.skip(i + 1),
                c,
            ) =~= char_views(before) + (seq![rest.take(i - start)] + split_on(
                chars@.skip(i + 1),
                c,
            )));
            start = i + 1;
        }
        i = i + 1;
    }
    let ghost rest = chars@.skip(start as int);
    let ghost before = pieces@;
    proof {
        lemma_first_position_unique(rest, c, rest.len() as int);
        assert(rest =~= chars@.subrange(start as int, i as int));
    }
    pieces.push(slice_chars(chars, start, i));
    assert(char_views(pieces@) =~= char_views(before) + seq![
        rest,
    ]);
    pieces
}

/// The parts of `text` in front of and behind the first `c`.
pub open spec fn split_once(text: Seq<char>, c: char) -> Option<(Seq<char>, Seq<char>)> {
    let at = first_position(text, c) as int;
    if at >= text.len() {
        None
    } else {
        Some((text.take(at), text.skip(at + 1)))
    }
}

/// Cuts `chars` at the first `c`.
pub fn split_chars_once(chars: &Vec<char>, c: char) -> (parts: Option<(Vec<char>, Vec<char>)>)
    ensures
        match parts {
            Some((front, back)) => split_once(chars@, c) == Some((front@, back@)),
            None => split_once(chars@, c) is None,
        },
{
    let at: usize = position_of(chars, c);
    if at >= chars.len() {
        return None;
    }
    assert(chars@.subrange(0, at as int) =~= chars@.take(at as int));
    assert(chars@.subrange(at + 1, chars@.len() as int) =~= chars@.skip(at + 1));
    Some((slice_chars(chars, 0, at), slice_chars(chars, at + 1, chars.len())))
}

/// `text` without the `c`s that it ends in.
pub open spec fn trimmed_end_of(text: Seq<char>, c: char) -> Seq<char>
    decreases text.len(),
{
    if text.len() > 0 && text.last() == c {
        trimmed_end_of(text.drop_last(), c)
    } else {
        text
    }
}

/// `text` without the `c`s that it begins with.
pub open spec fn trimmed_start_of(text: Seq<char>, c: char) -> Seq<char>
    decreases text.len(),
{
    if text.len() > 0 && text[0] == c {
        trimmed_start_of(text.skip(1), c)
    } else {
        text
    }
}

/// Cuts off the `c`s at the end.
pub fn trim_end_of(chars: &Vec<char>, c: char) -> (part: Vec<char>)
    ensures
        part@ == trimmed_end_of(chars@, c),
{
    let mut end: usize = chars.len();
    assert(chars@.take(end as int) =~= chars@);
    while end > 0 && chars[end - 1] == c
        invariant
            end <= chars@.len(),
            trimmed_end_of(chars@.take(end as int), c) == trimmed_end_of(chars@, c),
        decreases end,
    {
        assert(chars@.take(end as int).drop_last() =~= chars@.take(end - 1));
        end = end - 1;
    }
    assert(chars@.subrange(0, end as int) =~= chars@.take(end as int));
    slice_chars(chars, 0, end)
}

/// Cuts off the `c`s at the front.
pub fn trim_start_of(chars: &Vec<char>, c: char) -> (part: Vec<char>)
    ensures
        part@ == trimmed_start_of(chars@, c),
{
    let mut start: usize = 0;
    assert(chars@.skip(start as int) =~= chars@);
    while start < chars.len() && chars[start] == c
        invariant
            start <= chars@.len(),
            trimmed_start_of(chars@.skip(start as int), c) == trimmed_start_of(chars@, c),
        decreases chars@.len() - start,
    {
        assert(chars@.skip(start as int).skip(1) =~= chars@.skip(start + 1));
        start = start + 1;
    }
    assert(chars@.subrange(start as int, chars@.len() as int) =~= chars@.skip(start as int));
    slice_chars(chars, start, chars.len())
}

/// The part of `text` behind the last `c`: all of it where there is none.
pub open spec fn after_last(text: Seq<char>, c: char) -> Seq<char>
    decreases text.len(),
{
    if text.len() == 0 || text.last() == c {
        Seq::empty()
    } else {
        after_last(text.drop_last(), c).push(text.last())
    }
}

proof fn lemma_after_last(text: Seq<char>, c: char, from: int)
    requires
        0 <= from <= text.len(),
        forall|i: int| from <= i < text.len() ==> text[i] != c,
        from > 0 ==> text[from - 1] == c,
    ensures
        after_last(text, c) == text.skip(from),
    decreases text.len(),
{
    if from == text.len() {
        assert(text.skip(from) =~= Seq::<char>::empty());
    } else {
        lemma_after_last(text.drop_last(), c, from);
        assert(text.skip(from) =~= text.drop_last().skip(from).push(text.last()));
    }
}

/// The characters behind the last `c`.
pub fn chars_after_last(chars: &Vec<char>, c: char) -> (tail: Vec<char>)
    ensures
        tail@ == after_last(chars@, c),
{
    let mut from: usize = chars.len();
    while from > 0 && chars[from - 1] != c
        invariant
            from <= chars@.len(),
            forall|i: int| from <= i < chars@.len() ==> chars@[i] != c,
        decreases from,
    {
        from = from - 1;
    }
    proof {
        lemma_after_last(chars@, c, from as int);
        assert(chars@.skip(from as int) =~= chars@.subrange(from as int, chars@.len() as int));
    }
    slice_chars(chars, from, chars.len())
}

/// `text` with every `from` replaced by `to`.
pub open spec fn replaced(text: Seq<char>, from: char, to: char) -> Seq<char> {
    text.map_values(
        |c: char|
            if c == from {
                to
            } else {
                c
            },
    )
}

/// Replaces every `from` by `to`.
pub fn replace_chars(chars: &Vec<char>, from: char, to: char) -> (result: Vec<char>)
    ensures
        result@ == replaced(chars@, from, to),
{
    let mut result: Vec<char> = Vec::new();
    let mut i: usize = 0;
    while i < chars.len()
        invariant
            i <= chars@.len(),
            result@ == replaced(chars@.take(i as int), from, to),
        decreases chars@.len() - i,
    {
        let next: char = if chars[i] == from {
            to
        } else {
            chars[i]
        };
        result.push(next);
        assert(replaced(chars@.take(i + 1), from, to) =~= replaced(
            chars@.take(i as int),
            from,
            to,
        ).push(next));
        i = i + 1;
    }
    assert(chars@.take(i as int) =~= chars@);
    result
}

/// `text` with every pair `a` `b`, read from the left, replaced by `to`.
pub open spec fn pair_replaced(text: Seq<char>, a: char, b: char, to: char) -> Seq<char>
    decreases text.len(),
{
    if text.len() == 0 {
        Seq::empty()
    } else if text.len() >= 2 && text[0] == a && text[1] == b {
        seq![to] + pair_replaced(text.skip(2), a, b, to)
    } else {
        seq![text[0]] + pair_replaced(text.skip(1), a, b, to)
    }
}

/// Replaces every pair `a` `b`, read from the left, by `to`.
pub fn replace_pair(chars: &Vec<char>, a: char, b: char, to: char) -> (result: Vec<char>)
    ensures
        result@ == pair_replaced(chars@, a, b, to),
{
    let mut result: Vec<char> = Vec::new();
    let mut i: usize = 0;
    assert(chars@.skip(0) =~= chars@);
    assert(result@ + pair_replaced(chars@, a, b, to) =~= pair_replaced(chars@, a, b, to));
    while i < chars.len()
        invariant
            i <= chars@.len(),
            result@ + pair_replaced(chars@.skip(i as int), a, b, to) == pair_replaced(
                chars@,
                a,
                b,
                to,
            ),
        decreases chars@.len() - i,
    {
        let ghost rest = chars@.skip(i as int);
        let ghost before = result@;
        if chars[i] == a && chars.len() - i >= 2 && chars[i + 1] == b {
            result.push(to);
            proof {
                assert(rest.skip(2) =~= chars@.skip(i + 2));
                assert(result@ + pair_replaced(chars@.skip(i + 2), a, b, to) =~= before + (seq![to]
                    + pair_replaced(chars@.skip(i + 2), a, b, to)));
            }
            i = i + 2;
        } else {
            result.push(chars[i]);
            proof {
                assert(rest.skip(1) =~= chars@.skip(i + 1));
                assert(result@ + pair_replaced(chars@.skip(i + 1), a, b, to) =~= before + (
                seq![rest[0]] + pair_replaced(chars@.skip(i + 1), a, b, to)));
            }
            i = i + 1;
        }
    }
    proof {
        assert(chars@.skip(i as int) =~= Seq::<char>::empty());
        assert(result@ + Seq::<char>::empty() =~= result@);
    }
    result
}

// ---------------------------------------------------------------------------
// White space

/// The characters with Unicode's `White_Space` property.
pub open spec fn is_white(c: char) -> bool {
    let code = c as u32;
    ||| 0x9 <= code <= 0xd
    ||| code == 0x20
    ||| code == 0x85
    ||| code == 0xa0
    ||| code == 0x1680
    ||| 0x2000 <= code <= 0x200a
    ||| code == 0x2028
    ||| code == 0x2029
    ||| code == 0x202f
    ||| code == 0x205f
    ||| code == 0x3000
}

/// Tests for white space.
pub fn white_char(c: char) -> (white: bool)
    ensures
        white == is_white(c),
{
    let code: u32 = c as u32;
    (0x9 <= code && code <= 0xd) || code == 0x20 || code == 0x85 || code == 0xa0 || code == 0x1680
        || (0x2000 <= code && code <= 0x200a) || code == 0x2028 || code == 0x2029 || code == 0x202f
        || code == 0x205f || code == 0x3000
}

/// `text` without its leading white space.
pub open spec fn trimmed_start(text: Seq<char>) -> Seq<char>
    decreases text.len(),
{
    if text.len() > 0 && is_white(text[0]) {
        trimmed_start(text.drop_first())
    } else {
        text
    }
}

/// `text` without its trailing white space.
pub open spec fn trimmed_end(text: Seq<char>) -> Seq<char>
    decreases text.len(),
{
    if text.len() > 0 && is_white(text.last()) {
        trimmed_end(text.drop_last())
    } else {
        text
    }
}

/// `text` without the white space at both ends.
pub open spec fn trimmed(text: Seq<char>) -> Seq<char> {
    trimmed_end(trimmed_start(text))
}

proof fn lemma_trimmed_start(text: Seq<char>, from: int)
    requires
        0 <= from <= text.len(),
        forall|i: int| 0 <= i < from ==> is_white(text[i]),
        from < text.len() ==> !is_white(text[from]),
    ensures
        trimmed_start(text) == text.skip(from),
    decreases from,
{
    if from > 0 {
        lemma_trimmed_start(text.drop_first(), from - 1);
        assert(text.drop_first().skip(from - 1) =~= text.skip(from));
    } else {
        assert(text.skip(0) =~= text);
    }
}

proof fn lemma_trimmed_end(text: Seq<char>, to: int)
    requires
        0 <= to <= text.len(),
        forall|i: int| to <= i < text.len() ==> is_white(text[i]),
        to > 0 ==> !is_white(text[to - 1]),
    ensures
        trimmed_end(text) == text.take(to),
    decreases text.len(),
{
    if to < text.len() {
        lemma_trimmed_end(text.drop_last(), to);
        assert(text.drop_last().take(to) =~= text.take(to));
    } else {
        assert(text.take(to) =~= text);
    }
}

/// The characters without the white space at both ends.
pub fn trim_chars(chars: &Vec<char>) -> (part: Vec<char>)
    ensures
        part@ == trimmed(chars@),
{
    let mut from: usize = 0;
    while from < chars.len() && white_char(chars[from])
        invariant
            from <= chars@.len(),
            forall|i: int| 0 <= i < from ==> is_white(chars@[i]),
        decreases chars@.len() - from,
    {
        from = from + 1;
    }
    let mut to: usize = chars.len();
    while to > from && white_char(chars[to - 1])
        invariant
            from <= to <= chars@.len(),
            forall|i: int| to <= i < chars@.len() ==> is_white(chars@[i]),
        decreases to,
    {
        to = to - 1;
    }
    proof {
        lemma_trimmed_start(chars@, from as int);
        let rest = chars@.skip(from as int);
        assert(to > from ==> rest[to - from - 1] == chars@[to - 1]);
        assert forall|i: int| to - from <= i < rest.len() implies is_white(rest[i]) by {
            assert(rest[i] == chars@[from + i]);
        }
        lemma_trimmed_end(rest, to - from);
        assert(rest.take(to - from) =~= chars@.subrange(from as int, to as int));
    }
    slice_chars(chars, from, to)
}

/// The text without the white space at its front.
pub fn trim_start(text: &str) -> (part: String)
    ensures
        part@ == trimmed_start(text@),
{
    let chars = chars_of(text);
    let mut from: usize = 0;
    while from < chars.len() && white_char(chars[from])
        invariant
            from <= chars@.len(),
            forall|i: int| 0 <= i < from ==> is_white(chars@[i]),
        decreases chars@.len() - from,
    {
        from = from + 1;
    }
    proof {
        lemma_trimmed_start(chars@, from as int);
        assert(chars@.subrange(from as int, chars@.len() as int) =~= chars@.skip(from as int));
    }
    text_of(&slice_chars(&chars, from, chars.len()))
}

/// The text without the white space at both ends.
pub fn trim(text: &str) -> (part: String)
    ensures
        part@ == trimmed(text@),
{
    text_of(&trim_chars(&chars_of(text)))
}

/// Whether a text holds nothing but white space.
pub fn is_blank(text: &str) -> (blank: bool)
    ensures
        blank == (trimmed(text@).len() == 0),
{
    trim_chars(&chars_of(text)).len() == 0
}

/// How many characters at the front of `text` are not white space.
pub open spec fn run_length(text: Seq<char>) -> nat
    decreases text.len(),
{
    if text.len() == 0 || is_white(text[0]) {
        0
    } else {
        1 + run_length(text.drop_first())
    }
}

/// The maximal runs of characters that are not white space, in order.
pub open spec fn words_of(text: Seq<char>) -> Seq<Seq<char>>
    decreases text.len(),
    via words_of_decreases
{
    if text.len() == 0 {
        Seq::empty()
    } else if is_white(text[0]) {
        words_of(text.drop_first())
    } else {
        let n = run_length(text) as int;
        seq![text.take(n)] + words_of(text.skip(n))
    }
}

#[via_fn]
proof fn words_of_decreases(text: Seq<char>) {
    lemma_run_length_bound(text);
}

proof fn lemma_run_length_bound(text: Seq<char>)
    ensures
        run_length(text) <= text.len(),
        text.len() > 0 && !is_white(text[0]) ==> run_length(text) >= 1,
    decreases text.len(),
{
    if text.len() > 0 && !is_white(text[0]) {
        lemma_run_length_bound(text.drop_first());
    }
}

proof fn lemma_run_length(text: Seq<char>, to: int)
    requires
        0 <= to <= text.len(),
        forall|i: int| 0 <= i < to ==> !is_white(text[i]),
        to < text.len() ==> is_white(text[to]),
    ensures
        run_length(text) == to,
    decreases to,
{
    if to > 0 {
        assert forall|i: int| 0 <= i < to - 1 implies !is_white(text.drop_first()[i]) by {
            assert(text.drop_first()[i] == text[i + 1]);
        }
        lemma_run_length(text.drop_first(), to - 1);
    }
}

/// The characters of each list.
pub open spec fn char_views(lists: Seq<Vec<char>>) -> Seq<Seq<char>> {
    lists.map_values(|list: Vec<char>| list@)
}

/// Cuts `chars` into its words.
pub fn split_words(chars: &Vec<char>) -> (words: Vec<Vec<char>>)
    ensures
        char_views(words@) == words_of(chars@),
{
    let mut words: Vec<Vec<char>> = Vec::new();
    let mut i: usize = 0;
    assert(chars@.skip(0) =~= chars@);
    assert(char_views(words@) + words_of(chars@) =~= words_of(chars@));
    while i < chars.len()
        invariant
            i <= chars@.len(),
            char_views(words@) + words_of(chars@.skip(i as int)) == words_of(chars@),
        decreases chars@.len() - i,
    {
        let ghost rest = chars@.skip(i as int);
        if white_char(chars[i]) {
            assert(rest.drop_first() =~= chars@.skip(i + 1));
            i = i + 1;
        } else {
            let mut to: usize = i;
            while to < chars.len() && !white_char(chars[to])
                invariant
                    i <= to <= chars@.len(),
                    forall|j: int| i <= j < to ==> !is_white(chars@[j]),
                decreases chars@.len() - to,
            {
                to = to + 1;
            }
            let ghost before = words@;
            proof {
                assert forall|j: int| 0 <= j < to - i implies !is_white(rest[j]) by {
                    assert(rest[j] == chars@[i + j]);
                }
                lemma_run_length(rest, to - i);
                lemma_run_length_bound(rest);
                assert(rest.take(to - i) =~= chars@.subrange(i as int, to as int));
                assert(rest.skip(to - i) =~= chars@.skip(to as int));
            }
            words.push(slice_chars(chars, i, to));
            proof {
                assert(char_views(words@) =~= char_views(before).push(rest.take(to - i)));
                assert(char_views(words@) + words_of(chars@.skip(to as int)) =~= char_views(before)
                    + (seq![rest.take(to - i)] + words_of(chars@.skip(to as int))));
            }
            i = to;
        }
    }
    proof {
        assert(chars@.skip(i as int) =~= Seq::<char>::empty());
        assert(char_views(words@) + Seq::<Seq<char>>::empty() =~= char_views(words@));
    }
    words
}

// ---------------------------------------------------------------------------
// Numbers

/// Whether a character is an ASCII digit.
pub open spec fn is_digit(c: char) -> bool {
    '0' <= c <= '9'
}

/// Whether every character is an ASCII digit.
pub open spec fn all_digits(text: Seq<char>) -> bool {
    forall|i: int| 0 <= i < text.len() ==> is_digit(#[trigger] text[i])
}

/// The value of one ASCII digit.
pub open spec fn digit_value(c: char) -> nat {
    ((c as u32) - ('0' as u32)) as nat
}

/// The character of one decimal digit.
pub open spec fn digit_char(n: nat) -> char {
    (('0' as u32) + n) as char
}

/// The number that a run of digits stands for.
pub open spec fn decimal_value(text: Seq<char>) -> nat
    decreases text.len(),
{
    if text.len() == 0 {
        0
    } else {
        decimal_value(text.drop_last()) * 10 + digit_value(text.last())
    }
}

/// The digits of a number, without leading zeros.
pub open spec fn decimal_text(n: nat) -> Seq<char>
    decreases n,
{
    if n < 10 {
        seq![digit_char(n)]
    } else {
        decimal_text(n / 10).push(digit_char(n % 10))
    }
}

/// The decimal form of an integer.
pub open spec fn integer_text(n: int) -> Seq<char> {
    if n < 0 {
        seq!['-'] + decimal_text((-n) as nat)
    } else {
        decimal_text(n as nat)
    }
}

/// What the decimal form of a number stands for is that number.
pub proof fn decimal_text_round_trip(n: nat)
    ensures
        decimal_text(n).len() > 0,
        all_digits(decimal_text(n)),
        decimal_value(decimal_text(n)) == n,
    decreases n,
{
    if n < 10 {
        assert(decimal_text(n).drop_last() =~= Seq::<char>::empty());
        assert(decimal_value(Seq::<char>::empty()) == 0);
        assert(decimal_text(n).last() == digit_char(n));
    } else {
        decimal_text_round_trip(n / 10);
        let text = decimal_text(n);
        assert(text.drop_last() =~= decimal_text(n / 10));
        assert(text.last() == digit_char(n % 10));
        assert forall|i: int| 0 <= i < text.len() implies is_digit(#[trigger] text[i]) by {
            if i < text.len() - 1 {
                assert(text[i] == decimal_text(n / 10)[i]);
            }
        }
    }
}

/// Writes a number in decimal.
pub fn decimal_chars(n: u64) -> (digits: Vec<char>)
    ensures
        digits@ == decimal_text(n as nat),
    decreases n,
{
    let last: u8 = (n % 10) as u8;
    let c: char = (48u8 + last) as char;
    let mut digits: Vec<char> = if n < 10 {
        Vec::new()
    } else {
        decimal_chars(n / 10)
    };
    digits.push(c);
    assert(digits@ =~= decimal_text(n as nat));
    digits
}

/// Writes a number in decimal.
pub fn decimal(n: u64) -> (text: String)
    ensures
        text@ == decimal_text(n as nat),
{
    text_of(&decimal_chars(n))
}

/// Writes an integer in decimal.
pub fn signed_decimal(n: i64) -> (text: String)
    ensures
        text@ == integer_text(n as int),
{
    if n < 0 {
        let magnitude: u64 = if n == i64::MIN {
            9_223_372_036_854_775_808
        } else {
            (-n) as u64
        };
        let digits = decimal(magnitude);
        proof {
            reveal_strlit("-");
            assert("-"@ =~= seq!['-']);
        }
        joined("-", digits.as_str())
    } else {
        decimal(n as u64)
    }
}

/// The digits of a number in the form that integer parsing accepts: a sign `+` may stand first.
pub open spec fn unsigned_digits(text: Seq<char>) -> Seq<char> {
    if text.len() > 0 && text[0] == '+' {
        text.drop_first()
    } else {
        text
    }
}

/// The number that a text stands for, where it stands for one that is at most `max`.
pub open spec fn unsigned_value(text: Seq<char>, max: nat) -> Option<nat> {
    let digits = unsigned_digits(text);
    if digits.len() > 0 && all_digits(digits) && decimal_value(digits) <= max {
        Some(decimal_value(digits))
    } else {
        None
    }
}

proof fn lemma_decimal_value_prefix(text: Seq<char>, n: int)
    requires
        0 <= n <= text.len(),
    ensures
        decimal_value(text.take(n)) <= decimal_value(text),
    decreases text.len() - n,
{
    if n == text.len() {
        assert(text.take(n) =~= text);
    } else {
        lemma_decimal_value_prefix(text, n + 1);
        assert(text.take(n + 1).drop_last() =~= text.take(n));
    }
}

/// Reads a number of at most `max`.
pub fn parse_unsigned(chars: &Vec<char>, max: u64) -> (value: Option<u64>)
    ensures
        match value {
            Some(n) => unsigned_value(chars@, max as nat) == Some(n as nat),
            None => unsigned_value(chars@, max as nat) is None,
        },
{
    let start: usize = if chars.len() > 0 && chars[0] == '+' {
        1
    } else {
        0
    };
    let ghost digits = unsigned_digits(chars@);
    assert(digits =~= chars@.skip(start as int));
    if start == chars.len() {
        return None;
    }
    let mut value: u64 = 0;
    let mut i: usize = start;
    assert(digits.take(0) =~= Seq::<char>::empty());
    while i < chars.len()
        invariant
            start <= i <= chars@.len(),
            digits == chars@.skip(start as int),
            digits == unsigned_digits(chars@),
            forall|j: int| 0 <= j < i - start ==> is_digit(#[trigger] digits[j]),
            value == decimal_value(digits.take(i - start)),
            value <= max,
        decreases chars@.len() - i,
    {
        let c: char = chars[i];
        assert(digits[i - start] == c);
        if !('0' <= c && c <= '9') {
            assert(!all_digits(digits));
            return None;
        }
        let digit: u64 = (c as u8 - 48) as u64;
        assert(digit == digit_value(c));
        proof {
            assert(digits.take(i + 1 - start).drop_last() =~= digits.take(i - start));
            assert(digits.take(i + 1 - start).last() == c);
            lemma_decimal_value_prefix(digits, i + 1 - start);
        }
        match value.checked_mul(10) {
            None => {
                return None;
            },
            Some(tens) => {
                match tens.checked_add(digit) {
                    None => {
                        return None;
                    },
                    Some(next) => {
                        if next > max {
                            return None;
                        }
                        value = next;
                    },
                }
            },
        }
        i = i + 1;
    }
    assert(digits.take(i - start) =~= digits);
    Some(value)
}

// Laws

/// Texts are the same but for case if and only if they are of one length and,
/// place by place, hold the same character or a letter from `a` to `z` in its two
/// cases.
pub proof fn case_is_that_of_ascii_letters(a: Seq<char>, b: Seq<char>)
    ensures
        same_ignoring_case(a, b) <==> a.len() == b.len() && forall|i: int|
            0 <= i < a.len() ==> {
                let x = #[trigger] a[i];
                let y = b[i];
                ||| x == y
                ||| 'a' <= x <= 'z' && y as u32 == x as u32 - 32
                ||| 'a' <= y <= 'z' && x as u32 == y as u32 - 32
            },
{
    let u = ascii_upper_text(a);
    let v = ascii_upper_text(b);
    if same_ignoring_case(a, b) {
        assert(u.len() == v.len());
        assert forall|i: int| 0 <= i < a.len() implies {
            let x = #[trigger] a[i];
            let y = b[i];
            ||| x == y
            ||| 'a' <= x <= 'z' && y as u32 == x as u32 - 32
            ||| 'a' <= y <= 'z' && x as u32 == y as u32 - 32
        } by {
            assert(u[i] == v[i]);
            assert(u[i] == ascii_upper(a[i]) && v[i] == ascii_upper(b[i]));
            lemma_upper_code(a[i]);
            lemma_upper_code(b[i]);
        }
    }
    if a.len() == b.len() && forall|i: int|
        0 <= i < a.len() ==> {
            let x = #[trigger] a[i];
            let y = b[i];
            ||| x == y
            ||| 'a' <= x <= 'z' && y as u32 == x as u32 - 32
            ||| 'a' <= y <= 'z' && x as u32 == y as u32 - 32
        } {
        assert forall|i: int| 0 <= i < a.len() implies u[i] == v[i] by {
            lemma_upper_code(a[i]);
            lemma_upper_code(b[i]);
            assert(a[i] == a[i]);
        }
        assert(u =~= v);
    }
}

proof fn lemma_upper_code(c: char)
    ensures
        'a' <= c <= 'z' ==> ascii_upper(c) as u32 == c as u32 - 32,
        !('a' <= c <= 'z') ==> ascii_upper(c) == c,
{
    if 'a' <= c <= 'z' {
        let code = (c as u32 - 32) as u32;
        assert(65 <= code <= 90);
        assert(code as char as u32 == code);
    }
}

/// A text comes before another if and only if it is the start of it and shorter,
/// or holds the smaller character at the first place at which they differ.
pub proof fn texts_are_ordered_by_first_difference(a: Seq<char>, b: Seq<char>, at: int)
    requires
        0 <= at <= a.len(),
        at <= b.len(),
        a.take(at) == b.take(at),
    ensures
        at == a.len() ==> (text_lt(a, b) <==> a.len() < b.len()),
        at == b.len() ==> !text_lt(a, b),
        at < a.len() && at < b.len() && a[at] != b[at] ==> (text_lt(a, b) <==> a[at] < b[at]),
    decreases at,
{
    if at > 0 {
        assert(a[0] == a.take(at)[0] && b[0] == b.take(at)[0]);
        assert(a.drop_first().take(at - 1) =~= a.take(at).skip(1));
        assert(b.drop_first().take(at - 1) =~= b.take(at).skip(1));
        texts_are_ordered_by_first_difference(a.drop_first(), b.drop_first(), at - 1);
    }
}

/// Splitting a text at a character gives pieces that do not hold it: a text
/// without it is its own only piece, and a piece that ends at it comes first.
pub proof fn splitting_stops_at_each_character(piece: Seq<char>, c: char, rest: Seq<char>)
    requires
        !piece.contains(c),
    ensures
        split_on(piece, c) == seq![piece],
        split_on(piece.push(c) + rest, c) == seq![piece] + split_on(rest, c),
        split_once(piece, c) is None,
        split_once(piece.push(c) + rest, c) == Some((piece, rest)),
{
    let text = piece.push(c) + rest;
    lemma_first_position(piece, c);
    lemma_first_position(text, c);
    let at = first_position(text, c) as int;
    let own = first_position(piece, c) as int;
    if own < piece.len() {
        assert(piece.contains(piece[own]));
    }
    assert(text[piece.len() as int] == c);
    if at < piece.len() {
        assert(text[at] == piece[at]);
        assert(piece.contains(piece[at]));
    }
    assert(at == piece.len());
    assert(text.take(at) =~= piece);
    assert(text.skip(at + 1) =~= rest);
}

proof fn lemma_start_kept(text: Seq<char>)
    ensures
        trimmed_start(text).len() <= text.len(),
        trimmed_start(text).len() > 0 ==> !is_white(trimmed_start(text)[0]),
        trimmed_start(text) == text.skip(text.len() - trimmed_start(text).len()),
        forall|i: int|
            0 <= i < text.len() - trimmed_start(text).len() ==> is_white(#[trigger] text[i]),
    decreases text.len(),
{
    if text.len() > 0 && is_white(text[0]) {
        let rest = text.drop_first();
        lemma_start_kept(rest);
        let n = rest.len() - trimmed_start(rest).len();
        assert(rest.skip(n) =~= text.skip(n + 1));
        assert forall|i: int|
            0 <= i < text.len() - trimmed_start(text).len() implies is_white(#[trigger] text[i]) by {
            if i > 0 {
                assert(rest[i - 1] == text[i]);
            }
        }
    } else {
        assert(text.skip(0) =~= text);
    }
}

proof fn lemma_end_kept(text: Seq<char>)
    ensures
        trimmed_end(text).len() <= text.len(),
        trimmed_end(text).len() > 0 ==> !is_white(trimmed_end(text).last()),
        trimmed_end(text) == text.take(trimmed_end(text).len() as int),
        forall|i: int| trimmed_end(text).len() <= i < text.len() ==> is_white(#[trigger] text[i]),
    decreases text.len(),
{
    if text.len() > 0 && is_white(text.last()) {
        let rest = text.drop_last();
        lemma_end_kept(rest);
        let n = trimmed_end(rest).len() as int;
        assert(rest.take(n) =~= text.take(n));
        assert forall|i: int| trimmed_end(text).len() <= i < text.len() implies is_white(
            #[trigger] text[i],
        ) by {
            if i < text.len() - 1 {
                assert(rest[i] == text[i]);
            }
        }
    } else {
        assert(text.take(text.len() as int) =~= text);
    }
}

/// A trimmed text neither starts nor ends with white space, and is what stands in
/// the text between white space alone. Blanks, tabs and ends of lines are white
/// space; no printable character of ASCII is.
pub proof fn trimming_takes_white_space_off(text: Seq<char>, c: char)
    ensures
        ({
            let kept = trimmed(text);
            &&& kept.len() > 0 ==> !is_white(kept[0]) && !is_white(kept.last())
            &&& exists|at: int|
                {
                    &&& 0 <= at && at + kept.len() <= text.len()
                    &&& kept == #[trigger] text.subrange(at, at + kept.len())
                    &&& forall|i: int| 0 <= i < at ==> is_white(#[trigger] text[i])
                    &&& forall|i: int|
                        at + kept.len() <= i < text.len() ==> is_white(#[trigger] text[i])
                }
        }),
        is_white(' ') && is_white('\t') && is_white('\n') && is_white('\r'),
        '!' <= c && c <= '~' ==> !is_white(c),
{
    let start = trimmed_start(text);
    let kept = trimmed(text);
    lemma_start_kept(text);
    lemma_end_kept(start);
    let at = text.len() - start.len();
    assert(kept =~= text.subrange(at, at + kept.len()));
    assert forall|i: int| at + kept.len() <= i < text.len() implies is_white(#[trigger] text[i]) by {
        assert(start[i - at] == text[i]);
    }
    if kept.len() > 0 {
        assert(kept[0] == start[0]);
    }
}

proof fn lemma_run(word: Seq<char>, rest: Seq<char>)
    requires
        forall|i: int| 0 <= i < word.len() ==> !is_white(#[trigger] word[i]),
        rest.len() > 0 ==> is_white(rest[0]),
    ensures
        run_length(word + rest) == word.len(),
    decreases word.len(),
{
    if word.len() == 0 {
        assert(word + rest =~= rest);
    } else {
        let shorter = word.drop_first();
        assert forall|i: int| 0 <= i < shorter.len() implies !is_white(#[trigger] shorter[i]) by {
            assert(shorter[i] == word[i + 1]);
        }
        lemma_run(shorter, rest);
        assert((word + rest).drop_first() =~= shorter + rest);
        assert((word + rest)[0] == word[0]);
    }
}

/// The words of a text are what stands between white space: white space at the
/// start is passed over, and a word goes up to the next white space.
pub proof fn words_stand_between_white_space(word: Seq<char>, white: char, rest: Seq<char>)
    requires
        word.len() > 0,
        forall|i: int| 0 <= i < word.len() ==> !is_white(#[trigger] word[i]),
        is_white(white),
    ensures
        words_of(Seq::empty()).len() == 0,
        words_of(seq![white] + rest) == words_of(rest),
        words_of(word) == seq![word],
        words_of(word.push(white) + rest) == seq![word] + words_of(rest),
{
    let blank = seq![white] + rest;
    assert(blank.drop_first() =~= rest);
    let text = word + blank;
    assert(word.push(white) + rest =~= text);
    lemma_run(word, blank);
    lemma_run(word, Seq::empty());
    assert(word + Seq::<char>::empty() =~= word);
    assert(text[0] == word[0]);
    assert(text.take(word.len() as int) =~= word);
    assert(text.skip(word.len() as int) =~= blank);
    assert(word.take(word.len() as int) =~= word);
    assert(word.skip(word.len() as int) =~= Seq::<char>::empty());
    assert(words_of(blank) == words_of(rest));
    assert(words_of(Seq::<char>::empty()) =~= Seq::<Seq<char>>::empty());
    assert(words_of(text) == seq![word] + words_of(blank));
    assert(words_of(word) == seq![word] + words_of(Seq::<char>::empty()));
    assert(words_of(word) =~= seq![word]);
}

/// What trimming one character off an end leaves: nothing is taken but that
/// character, and all of it is.
pub proof fn one_character_is_trimmed_off(text: Seq<char>, c: char)
    ensures
        text.len() == 0 || text.last() != c ==> trimmed_end_of(text, c) == text,
        trimmed_end_of(text.push(c), c) == trimmed_end_of(text, c),
        text.len() == 0 || text[0] != c ==> trimmed_start_of(text, c) == text,
        trimmed_start_of(seq![c] + text, c) == trimmed_start_of(text, c),
{
    assert(text.push(c).drop_last() =~= text);
    assert((seq![c] + text).skip(1) =~= text);
}

/// What stands behind the last of a character is the end of the text without it;
/// the whole text where it does not occur.
pub proof fn end_stands_behind_last_character(before: Seq<char>, c: char, tail: Seq<char>)
    requires
        !tail.contains(c),
    ensures
        after_last(before.push(c) + tail, c) == tail,
        after_last(tail, c) == tail,
    decreases tail.len(),
{
    let text = before.push(c) + tail;
    if tail.len() == 0 {
        assert(text =~= before.push(c));
    } else {
        let shorter = tail.drop_last();
        assert(tail.contains(tail.last()));
        assert forall|i: int| 0 <= i < shorter.len() implies shorter[i] != c by {
            assert(tail.contains(tail[i]));
        }
        end_stands_behind_last_character(before, c, shorter);
        assert(text.drop_last() =~= before.push(c) + shorter);
        assert(text.last() == tail.last());
        assert(shorter.push(tail.last()) =~= tail);
    }
}

/// A number is read as it is written: its digits count by tens, a plus may stand
/// before it, and it is not read where it is too large, empty or holds
/// anything else.
pub proof fn written_numbers_are_read(n: nat, max: nat, text: Seq<char>)
    ensures
        n <= max ==> unsigned_value(decimal_text(n), max) == Some(n),
        n > max ==> unsigned_value(decimal_text(n), max) is None,
        n <= max ==> unsigned_value(seq!['+'] + decimal_text(n), max) == Some(n),
        unsigned_value(Seq::empty(), max) is None,
        (exists|i: int|
            0 < i < text.len() && !('0' <= #[trigger] text[i] && text[i] <= '9'))
            ==> unsigned_value(text, max) is None,
        forall|c: char|
            '0' <= c && c <= '9' ==> #[trigger] decimal_value(text.push(c)) == 10 * decimal_value(
                text,
            ) + (c as u32 - 48),
        integer_text(n as int) == decimal_text(n),
        n > 0 ==> integer_text(-(n as int)) == seq!['-'] + decimal_text(n),
        n > 0 ==> decimal_text(n)[0] != '0',
        text.len() > 0 && text[0] != '+' && !('0' <= text[0] && text[0] <= '9') ==> unsigned_value(
            text,
            max,
        ) is None,
{
    decimal_text_round_trip(n);
    lemma_first_digit(n);
    let digits = decimal_text(n);
    assert forall|c: char| '0' <= c && c <= '9' implies #[trigger] decimal_value(text.push(c)) == 10
        * decimal_value(text) + (c as u32 - 48) by {
        assert(text.push(c).drop_last() =~= text);
    }
    assert((seq!['+'] + digits).drop_first() =~= digits);
    assert(is_digit(digits[0]));
    if exists|i: int| 0 < i < text.len() && !('0' <= #[trigger] text[i] && text[i] <= '9') {
        let k = choose|i: int| 0 < i < text.len() && !('0' <= #[trigger] text[i] && text[i] <= '9');
        if text[0] == '+' {
            assert(text.drop_first()[k - 1] == text[k]);
        }
        assert(!is_digit(text[k]));
    }
}

proof fn lemma_first_digit(n: nat)
    ensures
        n > 0 ==> decimal_text(n)[0] != '0',
        decimal_text(n).len() > 0,
    decreases n,
{
    if n >= 10 {
        lemma_first_digit(n / 10);
        assert(decimal_text(n)[0] == decimal_text(n / 10)[0]);
    }
}

proof fn lemma_white_start(white: Seq<char>, text: Seq<char>)
    requires
        forall|i: int| 0 <= i < white.len() ==> is_white(#[trigger] white[i]),
        text.len() > 0 ==> !is_white(text[0]),
    ensures
        trimmed_start(white + text) == text,
    decreases white.len(),
{
    if white.len() == 0 {
        assert(white + text =~= text);
    } else {
        let rest = white.drop_first();
        assert forall|i: int| 0 <= i < rest.len() implies is_white(#[trigger] rest[i]) by {
            assert(rest[i] == white[i + 1]);
        }
        lemma_white_start(rest, text);
        assert((white + text).drop_first() =~= rest + text);
        assert((white + text)[0] == white[0]);
    }
}

proof fn lemma_white_end(text: Seq<char>, white: Seq<char>)
    requires
        forall|i: int| 0 <= i < white.len() ==> is_white(#[trigger] white[i]),
        text.len() > 0 ==> !is_white(text.last()),
    ensures
        trimmed_end(text + white) == text,
    decreases white.len(),
{
    if white.len() == 0 {
        assert(text + white =~= text);
    } else {
        let rest = white.drop_last();
        assert forall|i: int| 0 <= i < rest.len() implies is_white(#[trigger] rest[i]) by {
            assert(rest[i] == white[i]);
        }
        lemma_white_end(text, rest);
        assert((text + white).drop_last() =~= text + rest);
        assert((text + white).last() == white[white.len() - 1]);
    }
}

/// White space around a text is taken off, and no more.
pub proof fn text_between_white_space_stays(before: Seq<char>, text: Seq<char>, after: Seq<char>)
    requires
        forall|i: int| 0 <= i < before.len() ==> is_white(#[trigger] before[i]),
        forall|i: int| 0 <= i < after.len() ==> is_white(#[trigger] after[i]),
        text.len() > 0,
        !is_white(text[0]),
        !is_white(text.last()),
    ensures
        trimmed(before + text + after) == text,
{
    assert(before + text + after =~= before + (text + after));
    lemma_white_start(before, text + after);
    lemma_white_end(text, after);
}

/// A text holds another if and only if it is that other with something before it and
/// something behind it, which may be nothing; it starts with it where nothing is
/// before it.
pub proof fn parts_are_found(before: Seq<char>, part: Seq<char>, after: Seq<char>, text: Seq<char>)
    ensures
        text_contains(before + part + after, part),
        has_prefix(part + after, part),
        text_contains(text, part) ==> exists|at: int|
            0 <= at && at + part.len() <= text.len() && text == #[trigger] text.take(at) + part
                + text.skip(at + part.len()),
        has_prefix(text, part) ==> text == part + text.skip(part.len() as int),
        text.len() < part.len() ==> !text_contains(text, part) && !has_prefix(text, part),
{
    let whole = before + part + after;
    let at = before.len() as int;
    assert(whole.subrange(at, at + part.len()) =~= part);
    assert(occurs_at(whole, part, at));
    assert((part + after).take(part.len() as int) =~= part);
    if text_contains(text, part) {
        let k = choose|at: int| occurs_at(text, part, at);
        assert(text =~= text.take(k) + part + text.skip(k + part.len()));
    }
    if has_prefix(text, part) {
        assert(text =~= part + text.skip(part.len() as int));
    }
}

/// Replacing a character by another changes each place that holds it, and no
/// other.
pub proof fn characters_are_replaced_in_place(text: Seq<char>, from: char, to: char, i: int)
    requires
        0 <= i < text.len(),
    ensures
        replaced(text, from, to).len() == text.len(),
        text[i] == from ==> replaced(text, from, to)[i] == to,
        text[i] != from ==> replaced(text, from, to)[i] == text[i],
{
}

} // verus!
