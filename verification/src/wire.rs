//! How the fields of a response are read from the members of a JSON
//! object, and written as members.
//!
//! A field that is left out when it is empty is read as empty when its
//! member is missing; a field that is always written must be there. A time
//! is always written, and read as "not known" when its member is missing.

use crate::json::items_view;
use crate::json::json_document;
use crate::json::lacks;
use crate::json::lemma_list_view;
use crate::json::lemma_member_lacks;
use crate::json::lemma_object_view;
use crate::json::lookup;
use crate::json::member;
use crate::json::members_view;
use crate::json::parse_json;
use crate::json::Json;
use crate::json::JsonView;
use crate::timestamp::default_time;
use crate::timestamp::duration_of_text;
use crate::timestamp::format_duration;
use crate::timestamp::format_timestamp;
use crate::timestamp::parse_duration;
use crate::timestamp::parse_timestamp;
use crate::timestamp::sentinel;
use crate::timestamp::text_of_duration;
use crate::timestamp::text_of_timestamp;
use crate::timestamp::timestamp_of_text;
use crate::timestamp::Duration;
use crate::timestamp::Timestamp;
use vstd::prelude::*;

verus! {

/// A type whose values are written as JSON objects.
pub trait Record: Sized + DeepView {
    /// The value that the members of an object stand for, if they stand for
    /// one.
    spec fn from_members(members: Seq<(Seq<char>, JsonView)>) -> Option<Self::V>;

    /// The members that stand for a value, in the order of its fields.
    spec fn to_members(value: Self::V) -> Seq<(Seq<char>, JsonView)>;

    /// Reads a value from the members of an object.
    fn decode_members(members: &Vec<(String, Json)>) -> (r: Option<Self>)
        ensures
            r.deep_view() == Self::from_members(members_view(*members)),
    ;

    /// Writes a value as members of an object, after those that `out`
    /// holds.
    fn encode_members(&self, out: &mut Vec<(String, Json)>)
        ensures
            members_view(*final(out)) == members_view(*old(out)) + Self::to_members(
                self.deep_view(),
            ),
    ;
}

/// The value that a document stands for: it must be an object.
pub open spec fn record_of<T: Record>(j: JsonView) -> Option<T::V> {
    match j {
        JsonView::Object(members) => T::from_members(members),
        _ => None,
    }
}

/// The values that the items of a list stand for, if each stands for one.
pub open spec fn records_of<T: Record>(items: Seq<JsonView>) -> Option<Seq<T::V>>
    decreases items.len(),
{
    if items.len() == 0 {
        Some(Seq::empty())
    } else {
        match (records_of::<T>(items.drop_last()), record_of::<T>(items.last())) {
            (Some(head), Some(last)) => Some(head.push(last)),
            _ => None,
        }
    }
}

/// The texts that the items of a list hold, if each is a text.
pub open spec fn texts_of(items: Seq<JsonView>) -> Option<Seq<Seq<char>>>
    decreases items.len(),
{
    if items.len() == 0 {
        Some(Seq::empty())
    } else {
        match (texts_of(items.drop_last()), items.last()) {
            (Some(head), JsonView::Text(last)) => Some(head.push(last)),
            _ => None,
        }
    }
}

/// A text field: the text of its member. A missing member gives the empty
/// text unless the field is required.
pub open spec fn text_field(
    members: Seq<(Seq<char>, JsonView)>,
    key: Seq<char>,
    required: bool,
) -> Option<Seq<char>> {
    match member(members, key) {
        Some(JsonView::Text(s)) => Some(s),
        Some(_) => None,
        None => if required {
            None
        } else {
            Some(Seq::empty())
        },
    }
}

/// A count: the integer of its member, which must fit the machine's word.
/// A missing member gives zero unless the field is required.
pub open spec fn integer_field(
    members: Seq<(Seq<char>, JsonView)>,
    key: Seq<char>,
    required: bool,
) -> Option<isize> {
    match member(members, key) {
        Some(JsonView::Number(Some(n))) => if isize::MIN <= n <= isize::MAX {
            Some(n as isize)
        } else {
            None
        },
        Some(_) => None,
        None => if required {
            None
        } else {
            Some(0isize)
        },
    }
}

/// A flag that is left out when it is false.
pub open spec fn flag_field(members: Seq<(Seq<char>, JsonView)>, key: Seq<char>) -> Option<bool> {
    match member(members, key) {
        Some(JsonView::Bool(b)) => Some(b),
        Some(_) => None,
        None => Some(false),
    }
}

/// A time: what the text of its member stands for. A missing member gives
/// the time that stands for "not known".
pub open spec fn time_field(members: Seq<(Seq<char>, JsonView)>, key: Seq<char>) -> Option<
    Timestamp,
> {
    match member(members, key) {
        Some(JsonView::Text(s)) => timestamp_of_text(s),
        Some(_) => None,
        None => Some(sentinel()),
    }
}

/// A span of time: what the text of its member stands for. The member must
/// be there.
pub open spec fn duration_field(members: Seq<(Seq<char>, JsonView)>, key: Seq<char>) -> Option<
    Duration,
> {
    match member(members, key) {
        Some(JsonView::Text(s)) => duration_of_text(s),
        _ => None,
    }
}

/// A list of texts. A missing member gives the empty list unless the field
/// is required.
pub open spec fn texts_field(
    members: Seq<(Seq<char>, JsonView)>,
    key: Seq<char>,
    required: bool,
) -> Option<Seq<Seq<char>>> {
    match member(members, key) {
        Some(JsonView::List(items)) => texts_of(items),
        Some(_) => None,
        None => if required {
            None
        } else {
            Some(Seq::empty())
        },
    }
}

/// A list of records that is left out when it is empty.
pub open spec fn records_field<T: Record>(
    members: Seq<(Seq<char>, JsonView)>,
    key: Seq<char>,
) -> Option<Seq<T::V>> {
    match member(members, key) {
        Some(JsonView::List(items)) => records_of::<T>(items),
        Some(_) => None,
        None => Some(Seq::empty()),
    }
}

/// A record that may be absent: a missing member and `null` both give
/// none.
pub open spec fn optional_field<T: Record>(
    members: Seq<(Seq<char>, JsonView)>,
    key: Seq<char>,
) -> Option<Option<T::V>> {
    match member(members, key) {
        Some(JsonView::Null) => Some(None),
        Some(j) => match record_of::<T>(j) {
            Some(v) => Some(Some(v)),
            None => None,
        },
        None => Some(None),
    }
}

/// A record that must be there.
pub open spec fn record_field<T: Record>(
    members: Seq<(Seq<char>, JsonView)>,
    key: Seq<char>,
) -> Option<T::V> {
    match member(members, key) {
        Some(j) => record_of::<T>(j),
        None => None,
    }
}

/// Reads a record from a document.
pub fn decode<T: Record>(j: &Json) -> (r: Option<T>)
    ensures
        r.deep_view() == record_of::<T>(j@),
{
    match j {
        Json::Object(members) => {
            proof {
                lemma_object_view(*members);
            }
            T::decode_members(members)
        },
        _ => None,
    }
}

/// Reads a record from each item of a list.
pub fn decode_all<T: Record>(items: &Vec<Json>) -> (r: Option<Vec<T>>)
    ensures
        r.deep_view() == records_of::<T>(items_view(*items)),
{
    let mut out: Vec<T> = Vec::new();
    let mut i: usize = 0;
    let ghost all = items_view(*items);
    assert(out.deep_view() =~= Seq::<T::V>::empty());
    assert(all.take(0) =~= Seq::<JsonView>::empty());
    while i < items.len()
        invariant
            i <= items.len(),
            all == items_view(*items),
            records_of::<T>(all.take(i as int)) == Some(out.deep_view()),
        decreases items.len() - i,
    {
        let ghost before = out.deep_view();
        proof {
            let next = all.take(i + 1);
            assert(next.drop_last() =~= all.take(i as int));
            assert(next.last() == items[i as int]@);
        }
        match decode::<T>(&items[i]) {
            Some(v) => {
                out.push(v);
                assert(out.deep_view() =~= before.push(v.deep_view()));
            },
            None => {
                proof {
                    lemma_records_prefix::<T>(all, i + 1);
                }
                return None;
            },
        }
        i = i + 1;
    }
    assert(all.take(i as int) =~= all);
    Some(out)
}

/// Where the first `n` items stand for no list of records, neither do all.
pub proof fn lemma_records_prefix<T: Record>(items: Seq<JsonView>, n: int)
    requires
        0 <= n <= items.len(),
        records_of::<T>(items.take(n)) is None,
    ensures
        records_of::<T>(items) is None,
    decreases items.len(),
{
    if n < items.len() {
        assert(items.drop_last().take(n) =~= items.take(n));
        lemma_records_prefix::<T>(items.drop_last(), n);
    } else {
        assert(items.take(n) =~= items);
    }
}

/// Where the first `n` items are not all texts, neither are all.
pub proof fn lemma_texts_prefix(items: Seq<JsonView>, n: int)
    requires
        0 <= n <= items.len(),
        texts_of(items.take(n)) is None,
    ensures
        texts_of(items) is None,
    decreases items.len(),
{
    if n < items.len() {
        assert(items.drop_last().take(n) =~= items.take(n));
        lemma_texts_prefix(items.drop_last(), n);
    } else {
        assert(items.take(n) =~= items);
    }
}

/// Reads the text of each item of a list.
pub fn decode_texts(items: &Vec<Json>) -> (r: Option<Vec<String>>)
    ensures
        r.deep_view() == texts_of(items_view(*items)),
{
    let mut out: Vec<String> = Vec::new();
    let mut i: usize = 0;
    let ghost all = items_view(*items);
    assert(out.deep_view() =~= Seq::<Seq<char>>::empty());
    assert(all.take(0) =~= Seq::<JsonView>::empty());
    while i < items.len()
        invariant
            i <= items.len(),
            all == items_view(*items),
            texts_of(all.take(i as int)) == Some(out.deep_view()),
        decreases items.len() - i,
    {
        let ghost before = out.deep_view();
        proof {
            let next = all.take(i + 1);
            assert(next.drop_last() =~= all.take(i as int));
            assert(next.last() == items[i as int]@);
        }
        match &items[i] {
            Json::Text(s) => {
                out.push(s.clone());
                assert(out.deep_view() =~= before.push(s@));
            },
            _ => {
                proof {
                    lemma_texts_prefix(all, i + 1);
                }
                return None;
            },
        }
        i = i + 1;
    }
    assert(all.take(i as int) =~= all);
    Some(out)
}

/// Reads a text field.
pub fn read_text(members: &Vec<(String, Json)>, key: &str, required: bool) -> (r: Option<String>)
    ensures
        r.deep_view() == text_field(members_view(*members), key@, required),
{
    match lookup(members, key) {
        Some(Json::Text(s)) => Some(s.clone()),
        Some(_) => None,
        None => if required {
            None
        } else {
            Some(String::new())
        },
    }
}

/// Reads a count.
pub fn read_integer(members: &Vec<(String, Json)>, key: &str, required: bool) -> (r: Option<isize>)
    ensures
        r == integer_field(members_view(*members), key@, required),
{
    match lookup(members, key) {
        Some(Json::Number(Some(n))) => {
            let n: i64 = *n;
            if isize::MIN as i64 <= n && n <= isize::MAX as i64 {
                Some(n as isize)
            } else {
                None
            }
        },
        Some(_) => None,
        None => if required {
            None
        } else {
            Some(0)
        },
    }
}

/// Reads a flag.
pub fn read_flag(members: &Vec<(String, Json)>, key: &str) -> (r: Option<bool>)
    ensures
        r == flag_field(members_view(*members), key@),
{
    match lookup(members, key) {
        Some(Json::Bool(b)) => Some(*b),
        Some(_) => None,
        None => Some(false),
    }
}

/// Reads a time.
pub fn read_time(members: &Vec<(String, Json)>, key: &str) -> (r: Option<Timestamp>)
    ensures
        r == time_field(members_view(*members), key@),
{
    match lookup(members, key) {
        Some(Json::Text(s)) => parse_timestamp(s.as_str()),
        Some(_) => None,
        None => Some(default_time()),
    }
}

/// Reads a span of time.
pub fn read_duration(members: &Vec<(String, Json)>, key: &str) -> (r: Option<Duration>)
    ensures
        r == duration_field(members_view(*members), key@),
{
    match lookup(members, key) {
        Some(Json::Text(s)) => parse_duration(s.as_str()),
        _ => None,
    }
}

/// Reads a list of texts.
pub fn read_texts(members: &Vec<(String, Json)>, key: &str, required: bool) -> (r: Option<
    Vec<String>,
>)
    ensures
        r.deep_view() == texts_field(members_view(*members), key@, required),
{
    match lookup(members, key) {
        Some(Json::List(items)) => {
            proof {
                lemma_list_view(*items);
            }
            decode_texts(items)
        },
        Some(_) => None,
        None => if required {
            None
        } else {
            let empty: Vec<String> = Vec::new();
            assert(empty.deep_view() =~= Seq::<Seq<char>>::empty());
            Some(empty)
        },
    }
}

/// Reads a list of records.
pub fn read_records<T: Record>(members: &Vec<(String, Json)>, key: &str) -> (r: Option<Vec<T>>)
    ensures
        r.deep_view() == records_field::<T>(members_view(*members), key@),
{
    match lookup(members, key) {
        Some(Json::List(items)) => {
            proof {
                lemma_list_view(*items);
            }
            decode_all::<T>(items)
        },
        Some(_) => None,
        None => {
            let empty: Vec<T> = Vec::new();
            assert(empty.deep_view() =~= Seq::<T::V>::empty());
            Some(empty)
        },
    }
}

/// Reads a record that may be absent.
pub fn read_optional<T: Record>(members: &Vec<(String, Json)>, key: &str) -> (r: Option<
    Option<T>,
>)
    ensures
        r.deep_view() == optional_field::<T>(members_view(*members), key@),
{
    match lookup(members, key) {
        Some(Json::Null) => Some(None),
        Some(j) => match decode::<T>(j) {
            Some(v) => Some(Some(v)),
            None => None,
        },
        None => Some(None),
    }
}

/// Reads a record that must be there.
pub fn read_record<T: Record>(members: &Vec<(String, Json)>, key: &str) -> (r: Option<T>)
    ensures
        r.deep_view() == record_field::<T>(members_view(*members), key@),
{
    match lookup(members, key) {
        Some(j) => decode::<T>(j),
        None => None,
    }
}

/// The list of records that a text stands for: the text must be a JSON
/// list, each item an object that stands for a record.
pub open spec fn records_of_text<T: Record>(text: Seq<char>) -> Option<Seq<T::V>> {
    match json_document(text) {
        Some(JsonView::List(items)) => records_of::<T>(items),
        _ => None,
    }
}

/// Reads a list of records from JSON text.
pub fn decode_list_text<T: Record>(text: &str) -> (r: Option<Vec<T>>)
    ensures
        r.deep_view() == records_of_text::<T>(text@),
{
    match parse_json(text) {
        Some(Json::List(items)) => {
            proof {
                lemma_list_view(items);
            }
            decode_all::<T>(&items)
        },
        _ => None,
    }
}

/// The record that a text stands for: the text must be a JSON object that
/// stands for one.
pub open spec fn record_of_text<T: Record>(text: Seq<char>) -> Option<T::V> {
    match json_document(text) {
        Some(j) => record_of::<T>(j),
        None => None,
    }
}

/// Reads one record from JSON text.
pub fn decode_text<T: Record>(text: &str) -> (r: Option<T>)
    ensures
        r.deep_view() == record_of_text::<T>(text@),
{
    match parse_json(text) {
        Some(j) => decode::<T>(&j),
        None => None,
    }
}

/// A time whose member is missing is read as the time that stands for "not
/// known": it is no error.
pub proof fn lemma_missing_time(members: Seq<(Seq<char>, JsonView)>, key: Seq<char>)
    requires
        lacks(members, key),
    ensures
        time_field(members, key) == Some(sentinel()),
{
    lemma_member_lacks(members, key);
}

/// A field that may be left out is read as empty when its member is
/// missing: a text as the empty text, a count as zero, a flag as false, a
/// list as the empty list, a record that may be absent as none.
pub proof fn lemma_missing_defaults<T: Record>(members: Seq<(Seq<char>, JsonView)>, key: Seq<char>)
    requires
        lacks(members, key),
    ensures
        text_field(members, key, false) == Some(Seq::<char>::empty()),
        integer_field(members, key, false) == Some(0isize),
        flag_field(members, key) == Some(false),
        texts_field(members, key, false) == Some(Seq::<Seq<char>>::empty()),
        records_field::<T>(members, key) == Some(Seq::<T::V>::empty()),
        optional_field::<T>(members, key) == Some(None::<T::V>),
        text_field(members, key, true) is None,
        integer_field(members, key, true) is None,
        texts_field(members, key, true) is None,
        record_field::<T>(members, key) is None,
        duration_field(members, key) is None,
{
    lemma_member_lacks(members, key);
}

/// What is found under a name in the member of a text field.
pub proof fn lemma_text_member(key: Seq<char>, value: Seq<char>, omit_empty: bool, name: Seq<char>)
    ensures
        member(text_member(key, value, omit_empty), name) == if name == key && !(omit_empty
            && value.len() == 0) {
            Some(JsonView::Text(value))
        } else {
            None
        },
{
    reveal_with_fuel(member, 2);
}

/// What is found under a name in the member of a list of texts.
pub proof fn lemma_texts_member(
    key: Seq<char>,
    values: Seq<Seq<char>>,
    omit_empty: bool,
    name: Seq<char>,
)
    ensures
        member(texts_member(key, values, omit_empty), name) == if name == key && !(omit_empty
            && values.len() == 0) {
            Some(JsonView::List(text_documents(values)))
        } else {
            None
        },
{
    reveal_with_fuel(member, 2);
}

/// What is found under a name in the member of a record that may be
/// absent.
pub proof fn lemma_optional_member<T: Record>(
    key: Seq<char>,
    value: Option<T::V>,
    omit_none: bool,
    name: Seq<char>,
)
    ensures
        member(optional_member::<T>(key, value, omit_none), name) == if name == key {
            match value {
                Some(v) => Some(document_of::<T>(v)),
                None => if omit_none {
                    None
                } else {
                    Some(JsonView::Null)
                },
            }
        } else {
            None
        },
{
    reveal_with_fuel(member, 2);
}

/// The texts of a list are read back from their documents.
pub proof fn lemma_texts_round_trip(values: Seq<Seq<char>>)
    ensures
        texts_of(text_documents(values)) == Some(values),
    decreases values.len(),
{
    if values.len() > 0 {
        lemma_texts_round_trip(values.drop_last());
        let documents = text_documents(values);
        assert(documents.drop_last() =~= text_documents(values.drop_last()));
        assert(values.drop_last().push(values.last()) =~= values);
    }
}

/// The document that stands for a record.
pub open spec fn document_of<T: Record>(value: T::V) -> JsonView {
    JsonView::Object(T::to_members(value))
}

/// The documents that stand for a list of records.
pub open spec fn documents_of<T: Record>(values: Seq<T::V>) -> Seq<JsonView>
    decreases values.len(),
{
    if values.len() == 0 {
        Seq::empty()
    } else {
        documents_of::<T>(values.drop_last()).push(document_of::<T>(values.last()))
    }
}

/// The documents that stand for a list of texts.
pub open spec fn text_documents(values: Seq<Seq<char>>) -> Seq<JsonView>
    decreases values.len(),
{
    if values.len() == 0 {
        Seq::empty()
    } else {
        text_documents(values.drop_last()).push(JsonView::Text(values.last()))
    }
}

/// The member of a text field; none for an empty text that is left out.
pub open spec fn text_member(key: Seq<char>, value: Seq<char>, omit_empty: bool) -> Seq<
    (Seq<char>, JsonView),
> {
    if omit_empty && value.len() == 0 {
        Seq::empty()
    } else {
        seq![(key, JsonView::Text(value))]
    }
}

/// The member of a count; none for a zero that is left out.
pub open spec fn integer_member(key: Seq<char>, value: isize, omit_zero: bool) -> Seq<
    (Seq<char>, JsonView),
> {
    if omit_zero && value == 0 {
        Seq::empty()
    } else {
        seq![(key, JsonView::Number(Some(value as i64)))]
    }
}

/// The member of a flag that is left out when it is false.
pub open spec fn flag_member(key: Seq<char>, value: bool) -> Seq<(Seq<char>, JsonView)> {
    if value {
        seq![(key, JsonView::Bool(true))]
    } else {
        Seq::empty()
    }
}

/// The member of a time: its text, or `null` where the fields name no
/// time.
pub open spec fn time_member(key: Seq<char>, value: Timestamp) -> Seq<(Seq<char>, JsonView)> {
    seq![
        (
            key,
            match text_of_timestamp(value) {
                Some(text) => JsonView::Text(text),
                None => JsonView::Null,
            },
        ),
    ]
}

/// The member of a span of time: its text, or `null` where the fields name
/// no span.
pub open spec fn duration_member(key: Seq<char>, value: Duration) -> Seq<(Seq<char>, JsonView)> {
    seq![
        (
            key,
            match text_of_duration(value) {
                Some(text) => JsonView::Text(text),
                None => JsonView::Null,
            },
        ),
    ]
}

/// The member of a list of texts; none for an empty list that is left
/// out.
pub open spec fn texts_member(key: Seq<char>, values: Seq<Seq<char>>, omit_empty: bool) -> Seq<
    (Seq<char>, JsonView),
> {
    if omit_empty && values.len() == 0 {
        Seq::empty()
    } else {
        seq![(key, JsonView::List(text_documents(values)))]
    }
}

/// The member of a list of records that is left out when it is empty.
pub open spec fn records_member<T: Record>(key: Seq<char>, values: Seq<T::V>) -> Seq<
    (Seq<char>, JsonView),
> {
    if values.len() == 0 {
        Seq::empty()
    } else {
        seq![(key, JsonView::List(documents_of::<T>(values)))]
    }
}

/// The member of a record that may be absent: an absent one is left out,
/// or written as `null`.
pub open spec fn optional_member<T: Record>(
    key: Seq<char>,
    value: Option<T::V>,
    omit_none: bool,
) -> Seq<(Seq<char>, JsonView)> {
    match value {
        Some(v) => seq![(key, document_of::<T>(v))],
        None => if omit_none {
            Seq::empty()
        } else {
            seq![(key, JsonView::Null)]
        },
    }
}

/// The member of a record that is always written.
pub open spec fn record_member<T: Record>(key: Seq<char>, value: T::V) -> Seq<
    (Seq<char>, JsonView),
> {
    seq![(key, document_of::<T>(value))]
}

/// Appends one member.
pub fn push_member(out: &mut Vec<(String, Json)>, key: &str, value: Json)
    ensures
        members_view(*final(out)) == members_view(*old(out)) + seq![(key@, value@)],
{
    let ghost before = members_view(*out);
    out.push((key.to_string(), value));
    assert(members_view(*out) =~= before + seq![(key@, value@)]);
}

/// Writes nothing: the field is left out.
pub fn put_nothing(out: &mut Vec<(String, Json)>)
    ensures
        *final(out) == *old(out),
        members_view(*final(out)) == members_view(*old(out)) + Seq::<
            (Seq<char>, JsonView),
        >::empty(),
{
    assert(members_view(*out) =~= members_view(*out) + Seq::<(Seq<char>, JsonView)>::empty());
}

/// Writes a record as a document.
pub fn encode<T: Record>(value: &T) -> (j: Json)
    ensures
        j@ == document_of::<T>(value.deep_view()),
{
    let mut members: Vec<(String, Json)> = Vec::new();
    assert(members_view(members) =~= Seq::<(Seq<char>, JsonView)>::empty());
    value.encode_members(&mut members);
    proof {
        lemma_object_view(members);
        assert(members_view(members) =~= T::to_members(value.deep_view()));
    }
    Json::Object(members)
}

/// Writes each record of a list as a document.
pub fn encode_all<T: Record>(values: &Vec<T>) -> (r: Vec<Json>)
    ensures
        items_view(r) == documents_of::<T>(values.deep_view()),
{
    let mut out: Vec<Json> = Vec::new();
    let mut i: usize = 0;
    let ghost all = values.deep_view();
    assert(items_view(out) =~= documents_of::<T>(all.take(0)));
    while i < values.len()
        invariant
            i <= values.len(),
            all == values.deep_view(),
            items_view(out) == documents_of::<T>(all.take(i as int)),
        decreases values.len() - i,
    {
        let ghost before = items_view(out);
        let j = encode::<T>(&values[i]);
        out.push(j);
        proof {
            let next = all.take(i + 1);
            assert(next.drop_last() =~= all.take(i as int));
            assert(next.last() == values[i as int].deep_view());
            assert(items_view(out) =~= before.push(j@));
        }
        i = i + 1;
    }
    assert(all.take(i as int) =~= all);
    out
}

/// Writes each text of a list as a document.
pub fn encode_texts(values: &Vec<String>) -> (r: Vec<Json>)
    ensures
        items_view(r) == text_documents(values.deep_view()),
{
    let mut out: Vec<Json> = Vec::new();
    let mut i: usize = 0;
    let ghost all = values.deep_view();
    assert(items_view(out) =~= text_documents(all.take(0)));
    while i < values.len()
        invariant
            i <= values.len(),
            all == values.deep_view(),
            items_view(out) == text_documents(all.take(i as int)),
        decreases values.len() - i,
    {
        let ghost before = items_view(out);
        let j = Json::Text(values[i].clone());
        out.push(j);
        proof {
            let next = all.take(i + 1);
            assert(next.drop_last() =~= all.take(i as int));
            assert(next.last() == values[i as int]@);
            assert(items_view(out) =~= before.push(j@));
        }
        i = i + 1;
    }
    assert(all.take(i as int) =~= all);
    out
}

/// Writes a text field.
pub fn put_text(out: &mut Vec<(String, Json)>, key: &str, value: &String, omit_empty: bool)
    ensures
        members_view(*final(out)) == members_view(*old(out)) + text_member(
            key@,
            value@,
            omit_empty,
        ),
{
    if omit_empty && value.as_str().is_empty() {
        put_nothing(out);
    } else {
        push_member(out, key, Json::Text(value.clone()));
    }
}

/// Writes a count.
pub fn put_integer(out: &mut Vec<(String, Json)>, key: &str, value: isize, omit_zero: bool)
    ensures
        members_view(*final(out)) == members_view(*old(out)) + integer_member(
            key@,
            value,
            omit_zero,
        ),
{
    if omit_zero && value == 0 {
        put_nothing(out);
    } else {
        push_member(out, key, Json::Number(Some(value as i64)));
    }
}

/// Writes a flag.
pub fn put_flag(out: &mut Vec<(String, Json)>, key: &str, value: bool)
    ensures
        members_view(*final(out)) == members_view(*old(out)) + flag_member(key@, value),
{
    if value {
        push_member(out, key, Json::Bool(true));
    } else {
        put_nothing(out);
    }
}

/// Writes a time.
pub fn put_time(out: &mut Vec<(String, Json)>, key: &str, value: Timestamp)
    ensures
        members_view(*final(out)) == members_view(*old(out)) + time_member(key@, value),
{
    match format_timestamp(value) {
        Some(text) => push_member(out, key, Json::Text(text)),
        None => push_member(out, key, Json::Null),
    }
}

/// Writes a span of time.
pub fn put_duration(out: &mut Vec<(String, Json)>, key: &str, value: Duration)
    ensures
        members_view(*final(out)) == members_view(*old(out)) + duration_member(key@, value),
{
    match format_duration(value) {
        Some(text) => push_member(out, key, Json::Text(text)),
        None => push_member(out, key, Json::Null),
    }
}

/// Writes a list of texts.
pub fn put_texts(out: &mut Vec<(String, Json)>, key: &str, values: &Vec<String>, omit_empty: bool)
    ensures
        members_view(*final(out)) == members_view(*old(out)) + texts_member(
            key@,
            values.deep_view(),
            omit_empty,
        ),
{
    if omit_empty && values.len() == 0 {
        put_nothing(out);
    } else {
        let items = encode_texts(values);
        proof {
            lemma_list_view(items);
        }
        push_member(out, key, Json::List(items));
    }
}

/// Writes a list of records.
pub fn put_records<T: Record>(out: &mut Vec<(String, Json)>, key: &str, values: &Vec<T>)
    ensures
        members_view(*final(out)) == members_view(*old(out)) + records_member::<T>(
            key@,
            values.deep_view(),
        ),
{
    if values.len() == 0 {
        put_nothing(out);
    } else {
        let items = encode_all::<T>(values);
        proof {
            lemma_list_view(items);
        }
        push_member(out, key, Json::List(items));
    }
}

/// Writes a record that may be absent.
pub fn put_optional<T: Record>(
    out: &mut Vec<(String, Json)>,
    key: &str,
    value: &Option<T>,
    omit_none: bool,
)
    ensures
        members_view(*final(out)) == members_view(*old(out)) + optional_member::<T>(
            key@,
            value.deep_view(),
            omit_none,
        ),
{
    match value {
        Some(v) => push_member(out, key, encode::<T>(v)),
        None => if omit_none {
            put_nothing(out);
        } else {
            push_member(out, key, Json::Null);
        },
    }
}

/// Writes a record that is always written.
pub fn put_record<T: Record>(out: &mut Vec<(String, Json)>, key: &str, value: &T)
    ensures
        members_view(*final(out)) == members_view(*old(out)) + record_member::<T>(
            key@,
            value.deep_view(),
        ),
{
    push_member(out, key, encode::<T>(value));
}

} // verus!
