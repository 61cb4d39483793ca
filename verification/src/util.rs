//! A text that is never empty.

use crate::error::outcome;
use crate::error::Error;
use crate::error::ErrorView;
use crate::error::ValidationFault;
use crate::json::Json;
use crate::json::JsonView;
use vstd::prelude::*;

verus! {

/// A string that holds at least one character.
#[derive(Debug)]
pub struct NonEmptyString {
    inner: String,
}

impl View for NonEmptyString {
    type V = Seq<char>;

    closed spec fn view(&self) -> Seq<char> {
        self.inner@
    }
}

impl DeepView for NonEmptyString {
    type V = Seq<char>;

    open spec fn deep_view(&self) -> Seq<char> {
        self@
    }
}

/// What building a non-empty string from `text` gives.
pub open spec fn non_empty(text: Seq<char>) -> Result<Seq<char>, ErrorView> {
    if text.len() == 0 {
        Err(ErrorView::Validation(ValidationFault::EmptyText))
    } else {
        Ok(text)
    }
}

/// The non-empty string that a document stands for: the document must be
/// a text, and the text must hold a character.
pub open spec fn non_empty_of(j: JsonView) -> Option<Seq<char>> {
    match j {
        JsonView::Text(s) => if s.len() > 0 {
            Some(s)
        } else {
            None
        },
        _ => None,
    }
}

impl NonEmptyString {
    #[verifier::type_invariant]
    spec fn well_formed(&self) -> bool {
        self.inner@.len() > 0
    }

    /// Builds the value from `s`. An empty `s` is refused: it never gives an
    /// absent or empty value.
    pub fn new(s: &str) -> (r: Result<NonEmptyString, Error>)
        ensures
            outcome(r) == non_empty(s@),
    {
        if s.is_empty() {
            return Err(Error::Validation(ValidationFault::EmptyText));
        }
        Ok(NonEmptyString { inner: s.to_string() })
    }

    /// The text, borrowed.
    pub fn as_str(&self) -> (r: &str)
        ensures
            r@ == self@,
            r@.len() > 0,
    {
        proof {
            use_type_invariant(self);
        }
        self.inner.as_str()
    }

    /// The text, owned by the caller.
    pub fn into_string(self) -> (r: String)
        ensures
            r@ == self@,
            r@.len() > 0,
    {
        proof {
            use_type_invariant(&self);
        }
        self.inner
    }

    /// The text as an owned copy.
    pub fn to_text(&self) -> (r: String)
        ensures
            r@ == self@,
            r@.len() > 0,
    {
        proof {
            use_type_invariant(self);
        }
        self.inner.clone()
    }

    /// Builds the value from an owned string; an empty one is refused.
    pub fn try_from_string(value: String) -> (r: Result<NonEmptyString, Error>)
        ensures
            outcome(r) == non_empty(value@),
    {
        if value.as_str().is_empty() {
            return Err(Error::Validation(ValidationFault::EmptyText));
        }
        Ok(NonEmptyString { inner: value })
    }

    /// Reads the value from a document; an empty text is refused, and so is
    /// what is no text.
    pub fn from_json(j: &Json) -> (r: Option<NonEmptyString>)
        ensures
            r.deep_view() == non_empty_of(j@),
    {
        match j {
            Json::Text(s) => {
                if s.as_str().is_empty() {
                    None
                } else {
                    Some(NonEmptyString { inner: s.clone() })
                }
            },
            _ => None,
        }
    }

    /// Writes the value as a document: the text itself.
    pub fn to_json(&self) -> (j: Json)
        ensures
            j@ == JsonView::Text(self@),
            non_empty_of(j@) == Some(self@),
    {
        proof {
            use_type_invariant(self);
        }
        Json::Text(self.inner.clone())
    }
}

impl From<NonEmptyString> for String {
    fn from(value: NonEmptyString) -> (r: String) {
        value.inner
    }
}

impl vstd::std_specs::convert::FromSpecImpl<NonEmptyString> for String {
    open spec fn obeys_from_spec() -> bool {
        true
    }

    closed spec fn from_spec(value: NonEmptyString) -> String {
        value.inner
    }
}

/// The string made from a non-empty string holds its text.
pub proof fn lemma_string_from(value: NonEmptyString)
    ensures
        <String as vstd::std_specs::convert::FromSpec<NonEmptyString>>::from_spec(value)@
            == value@,
{
}

impl TryFrom<String> for NonEmptyString {
    type Error = Error;

    fn try_from(value: String) -> (r: Result<NonEmptyString, Error>) {
        if value.as_str().is_empty() {
            return Err(Error::Validation(ValidationFault::EmptyText));
        }
        Ok(NonEmptyString { inner: value })
    }
}

impl vstd::std_specs::convert::TryFromSpecImpl<String> for NonEmptyString {
    open spec fn obeys_try_from_spec() -> bool {
        true
    }

    closed spec fn try_from_spec(value: String) -> Result<NonEmptyString, Error> {
        if value@.len() == 0 {
            Err(Error::Validation(ValidationFault::EmptyText))
        } else {
            Ok(NonEmptyString { inner: value })
        }
    }
}

/// Making a non-empty string from a string gives what `new` gives.
pub proof fn lemma_try_from_string(value: String)
    ensures
        outcome(
            <NonEmptyString as vstd::std_specs::convert::TryFromSpec<String>>::try_from_spec(value),
        ) == non_empty(value@),
{
}

impl Clone for NonEmptyString {
    fn clone(&self) -> (r: Self)
        ensures
            r@ == self@,
    {
        proof {
            use_type_invariant(self);
        }
        NonEmptyString { inner: self.inner.clone() }
    }
}

} // verus!
