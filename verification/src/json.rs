//! JSON documents as values, and the two places where JSON text is read and
//! written.

use vstd::prelude::*;

verus! {

/// A JSON document.
#[derive(Debug)]
pub enum Json {
    Null,
    Bool(bool),
    /// A number; `None` where it is no integer of 64 bits.
    Number(Option<i64>),
    Text(String),
    List(Vec<Json>),
    /// The members of an object, in the order of the document.
    Object(Vec<(String, Json)>),
}

/// A JSON document with its texts as sequences of characters.
pub ghost enum JsonView {
    Null,
    Bool(bool),
    Number(Option<i64>),
    Text(Seq<char>),
    List(Seq<JsonView>),
    Object(Seq<(Seq<char>, JsonView)>),
}

/// The view of a document.
pub open spec fn document_view(j: Json) -> JsonView
    decreases j, 0nat,
{
    match j {
        Json::Null => JsonView::Null,
        Json::Bool(b) => JsonView::Bool(b),
        Json::Number(n) => JsonView::Number(n),
        Json::Text(s) => JsonView::Text(s@),
        Json::List(items) => JsonView::List(first_items_view(items, items.len() as nat)),
        Json::Object(members) => JsonView::Object(
            first_members_view(members, members.len() as nat),
        ),
    }
}

/// The views of the first `n` items of a list.
pub open spec fn first_items_view(items: Vec<Json>, n: nat) -> Seq<JsonView>
    decreases items, n,
{
    if n == 0 || n > items.len() {
        Seq::empty()
    } else {
        first_items_view(items, (n - 1) as nat).push(document_view(items[n - 1]))
    }
}

/// The views of the first `n` members of an object.
pub open spec fn first_members_view(members: Vec<(String, Json)>, n: nat) -> Seq<
    (Seq<char>, JsonView),
>
    decreases members, n,
{
    if n == 0 || n > members.len() {
        Seq::empty()
    } else {
        first_members_view(members, (n - 1) as nat).push(
            (members[n - 1].0@, document_view(members[n - 1].1)),
        )
    }
}

impl View for Json {
    type V = JsonView;

    open spec fn view(&self) -> JsonView {
        document_view(*self)
    }
}

impl DeepView for Json {
    type V = JsonView;

    open spec fn deep_view(&self) -> JsonView {
        self@
    }
}

/// The views of the items of a list.
pub open spec fn items_view(items: Vec<Json>) -> Seq<JsonView> {
    Seq::new(items.len() as nat, |i: int| items[i]@)
}

/// The views of the members of an object.
pub open spec fn members_view(members: Vec<(String, Json)>) -> Seq<(Seq<char>, JsonView)> {
    Seq::new(members.len() as nat, |i: int| (members[i].0@, members[i].1@))
}

proof fn lemma_first_items(items: Vec<Json>, n: nat)
    requires
        n <= items.len(),
    ensures
        first_items_view(items, n) == items_view(items).take(n as int),
    decreases n,
{
    if n > 0 {
        lemma_first_items(items, (n - 1) as nat);
    }
    assert(first_items_view(items, n) =~= items_view(items).take(n as int));
}

proof fn lemma_first_members(members: Vec<(String, Json)>, n: nat)
    requires
        n <= members.len(),
    ensures
        first_members_view(members, n) == members_view(members).take(n as int),
    decreases n,
{
    if n > 0 {
        lemma_first_members(members, (n - 1) as nat);
    }
    assert(first_members_view(members, n) =~= members_view(members).take(n as int));
}

/// The view of a list is the list of its items' views.
pub proof fn lemma_list_view(items: Vec<Json>)
    ensures
        Json::List(items)@ == JsonView::List(items_view(items)),
{
    lemma_first_items(items, items.len() as nat);
    assert(items_view(items).take(items.len() as int) =~= items_view(items));
}

/// The view of an object is the list of its members' views.
pub proof fn lemma_object_view(members: Vec<(String, Json)>)
    ensures
        Json::Object(members)@ == JsonView::Object(members_view(members)),
{
    lemma_first_members(members, members.len() as nat);
    assert(members_view(members).take(members.len() as int) =~= members_view(members));
}

/// The value of the first member named `key`, if there is one.
pub open spec fn member(members: Seq<(Seq<char>, JsonView)>, key: Seq<char>) -> Option<JsonView>
    decreases members.len(),
{
    if members.len() == 0 {
        None
    } else if members[0].0 == key {
        Some(members[0].1)
    } else {
        member(members.drop_first(), key)
    }
}

/// Whether no member is named `key`.
pub open spec fn lacks(members: Seq<(Seq<char>, JsonView)>, key: Seq<char>) -> bool {
    forall|i: int| 0 <= i < members.len() ==> (#[trigger] members[i]).0 != key
}

/// `member` finds nothing exactly where no member has the name.
pub proof fn lemma_member_lacks(members: Seq<(Seq<char>, JsonView)>, key: Seq<char>)
    ensures
        member(members, key) is None <==> lacks(members, key),
    decreases members.len(),
{
    if members.len() > 0 {
        let rest = members.drop_first();
        lemma_member_lacks(rest, key);
        if members[0].0 != key {
            if lacks(rest, key) {
                assert forall|i: int| 0 <= i < members.len() implies (#[trigger] members[i]).0
                    != key by {
                    if i > 0 {
                        assert(rest[i - 1] == members[i]);
                    }
                }
            }
            if lacks(members, key) {
                assert forall|i: int| 0 <= i < rest.len() implies (#[trigger] rest[i]).0
                    != key by {
                    assert(rest[i] == members[i + 1]);
                }
            }
        } else {
            assert(members[0].0 == key);
        }
    }
}

/// Among the members of two lists, one after the other, a name is found in
/// the first list, or else in the second.
pub proof fn lemma_member_concat(
    first: Seq<(Seq<char>, JsonView)>,
    second: Seq<(Seq<char>, JsonView)>,
    key: Seq<char>,
)
    ensures
        member(first + second, key) == match member(first, key) {
            Some(j) => Some(j),
            None => member(second, key),
        },
    decreases first.len(),
{
    if first.len() == 0 {
        assert(first + second =~= second);
    } else {
        assert((first + second).drop_first() =~= first.drop_first() + second);
        lemma_member_concat(first.drop_first(), second, key);
    }
}

/// Finds the first member named `key` among the members of an object.
pub fn lookup<'a>(members: &'a Vec<(String, Json)>, key: &str) -> (r: Option<&'a Json>)
    ensures
        match r {
            Some(j) => member(members_view(*members), key@) == Some(j@),
            None => member(members_view(*members), key@) is None,
        },
{
    let wanted = key.to_string();
    let ghost all = members_view(*members);
    let mut i: usize = 0;
    assert(all.skip(0) =~= all);
    while i < members.len()
        invariant
            i <= members.len(),
            all == members_view(*members),
            wanted@ == key@,
            member(all, key@) == member(all.skip(i as int), key@),
        decreases members.len() - i,
    {
        proof {
            assert(all.skip(i as int).drop_first() =~= all.skip(i + 1));
            assert(all.skip(i as int)[0] == all[i as int]);
        }
        if members[i].0 == wanted {
            return Some(&members[i].1);
        }
        i = i + 1;
    }
    None
}

#[verifier::external_type_specification]
#[verifier::external_body]
pub struct ExValue(serde_json::Value);

/// The document that a text holds: `None` where the text is no JSON, as
/// `serde_json::from_str` decides it.
pub uninterp spec fn json_document(text: Seq<char>) -> Option<JsonView>;

/// The document that a parsed value holds.
pub uninterp spec fn value_document(value: serde_json::Value) -> JsonView;

/// The JSON string literal for a text, quotes and escapes included, as
/// `serde_json::to_string` writes it.
pub uninterp spec fn json_string_literal(text: Seq<char>) -> Seq<char>;

/// Calls `serde_json::from_str` for a `serde_json::Value`. The contract
/// claims only that the outcome is a function of the text: success and the
/// document parsed are the same for the same characters.
#[verifier::external_body]
fn parse_value(text: &str) -> (r: Option<serde_json::Value>)
    ensures
        r is Some <==> json_document(text@) is Some,
        r matches Some(v) ==> json_document(text@) == Some(value_document(v)),
{
    serde_json::from_str::<serde_json::Value>(text).ok()
}

/// Moves a `serde_json::Value` into a `Json`, variant by variant; a number
/// goes through `serde_json::Number::as_i64`. The contract claims that the
/// result holds the document of the value.
#[verifier::external_body]
fn value_to_json(value: serde_json::Value) -> (r: Json)
    ensures
        r@ == value_document(value),
{
    match value {
        serde_json::Value::Null => Json::Null,
        serde_json::Value::Bool(b) => Json::Bool(b),
        serde_json::Value::Number(n) => Json::Number(n.as_i64()),
        serde_json::Value::String(s) => Json::Text(s),
        serde_json::Value::Array(a) => Json::List(a.into_iter().map(value_to_json).collect()),
        serde_json::Value::Object(o) => Json::Object(
            o.into_iter().map(|(k, v)| (k, value_to_json(v))).collect(),
        ),
    }
}

/// Calls `serde_json::to_string` on a `str`, which writes the text as one
/// JSON string literal and, for a `str`, cannot fail. The contract claims
/// only that the literal is a function of the text.
#[verifier::external_body]
pub(crate) fn json_quote(text: &str) -> (r: String)
    ensures
        r@ == json_string_literal(text@),
{
    serde_json::to_string(text).unwrap_or_default()
}

/// Reads a JSON document from text.
pub fn parse_json(text: &str) -> (r: Option<Json>)
    ensures
        r.deep_view() == json_document(text@),
{
    match parse_value(text) {
        Some(value) => Some(value_to_json(value)),
        None => None,
    }
}

} // verus!
