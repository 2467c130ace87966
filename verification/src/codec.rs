//! The JSON codec that every protocol type implements, and what follows from it for lists,
//! optional values and members of objects.
use vstd::prelude::*;
use vstd::string::StringExecFns;
use serde_json::Value;
use crate::document::{
    array_value, deref_opt, elements, is_absent, json_elements, json_is_null, json_parsed,
    null_value, parse_document, spec_is_absent,
};
use crate::errors::{X402Error, X402Result};
use crate::wire::{joined, json_array};

verus! {

/// A protocol type with its JSON codec: how a value is written as text, how it is read
/// from a parsed document, and how it is built as a document.
///
/// The text is fixed character for character by `spec_json`. Reading is fixed by
/// `spec_read`. Building and reading are inverse: the document that `to_document` builds
/// from a value reads back as that value.
pub trait JsonCodec: Sized + View {
    /// The JSON text of a value.
    spec fn spec_json(v: Self::V) -> Seq<char>;

    /// What a JSON value reads as. The members of an object are read in the order in
    /// which they are written; the first that is missing or malformed decides the error.
    spec fn spec_read(doc: Value) -> Result<Self::V, X402Error>;

    /// Writes the value as JSON text.
    fn to_json(&self) -> (r: String)
        ensures
            r@ == Self::spec_json(self@),
    ;

    /// Reads a value from a JSON value.
    fn from_document(doc: &Value) -> (r: X402Result<Self>)
        ensures
            match r {
                Ok(v) => Self::spec_read(*doc) == Ok::<Self::V, X402Error>(v@),
                Err(e) => Self::spec_read(*doc) == Err::<Self::V, X402Error>(e),
            },
    ;

    /// Builds the JSON value of the value. What is built reads back as the value it was
    /// built from.
    fn to_document(&self) -> (r: Value)
        ensures
            Self::spec_read(r) == Ok::<Self::V, X402Error>(self@),
            !json_is_null(r),
    ;

    /// Reads a value from JSON text. A text that is not well-formed JSON is
    /// `InvalidPayload`; a well-formed one reads as the value that it holds does.
    fn from_json(text: &str) -> (r: X402Result<Self>)
        ensures
            match r {
                Ok(v) => json_parsed(text@) matches Some(doc) && Self::spec_read(doc) == Ok::<
                    Self::V,
                    X402Error,
                >(v@),
                Err(e) => match json_parsed(text@) {
                    Some(doc) => Self::spec_read(doc) == Err::<Self::V, X402Error>(e),
                    None => e == X402Error::InvalidPayload,
                },
            },
    {
        match parse_document(text) {
            Some(doc) => Self::from_document(&doc),
            None => Err(X402Error::InvalidPayload),
        }
    }
}

/// What a JSON text reads as: a text that is not well-formed JSON is `InvalidPayload`.
pub open spec fn spec_from_json<T: JsonCodec>(text: Seq<char>) -> Result<T::V, X402Error> {
    match json_parsed(text) {
        Some(doc) => T::spec_read(doc),
        None => Err(X402Error::InvalidPayload),
    }
}

/// The mathematical values of a list of values, in order.
pub open spec fn views<T: View>(items: Seq<T>) -> Seq<T::V> {
    items.map_values(|item: T| item@)
}

/// The mathematical value of an optional value.
pub open spec fn opt_view<T: View>(value: Option<T>) -> Option<T::V> {
    match value {
        Some(inner) => Some(inner@),
        None => None,
    }
}

/// The JSON texts of a list of values, in order.
pub open spec fn spec_json_each<T: JsonCodec>(items: Seq<T::V>) -> Seq<Seq<char>> {
    items.map_values(|v: T::V| T::spec_json(v))
}

/// The JSON text of an optional value: `null` when it is absent.
pub open spec fn spec_json_or_null<T: JsonCodec>(value: Option<T::V>) -> Seq<char> {
    match value {
        Some(inner) => T::spec_json(inner),
        None => "null"@,
    }
}

/// What a member reads as: a missing member is `InvalidPayload`.
pub open spec fn spec_read_member<T: JsonCodec>(value: Option<Value>) -> Result<T::V, X402Error> {
    match value {
        Some(doc) => T::spec_read(doc),
        None => Err(X402Error::InvalidPayload),
    }
}

/// What an optional member reads as: absent or `null` is no value.
pub open spec fn spec_read_optional_member<T: JsonCodec>(value: Option<Value>) -> Result<
    Option<T::V>,
    X402Error,
> {
    if spec_is_absent(value) {
        Ok(None)
    } else {
        match spec_read_member::<T>(value) {
            Ok(v) => Ok(Some(v)),
            Err(e) => Err(e),
        }
    }
}

/// What the elements of an array read as, in order: the first element that is malformed
/// decides the error.
pub open spec fn spec_read_each<T: JsonCodec>(items: Seq<Value>) -> Result<Seq<T::V>, X402Error>
    decreases items.len(),
{
    if items.len() == 0 {
        Ok(Seq::empty())
    } else {
        match spec_read_each::<T>(items.drop_last()) {
            Ok(head) => match T::spec_read(items.last()) {
                Ok(v) => Ok(head.push(v)),
                Err(e) => Err(e),
            },
            Err(e) => Err(e),
        }
    }
}

/// What a member reads as a list: it must be there and be an array.
pub open spec fn spec_read_list<T: JsonCodec>(value: Option<Value>) -> Result<
    Seq<T::V>,
    X402Error,
> {
    match value {
        Some(doc) => match json_elements(doc) {
            Some(items) => spec_read_each::<T>(items),
            None => Err(X402Error::InvalidPayload),
        },
        None => Err(X402Error::InvalidPayload),
    }
}

/// An error among the first elements of an array is the error of the whole array.
pub proof fn lemma_read_each_error<T: JsonCodec>(items: Seq<Value>, n: int, e: X402Error)
    requires
        0 <= n <= items.len(),
        spec_read_each::<T>(items.take(n)) == Err::<Seq<T::V>, X402Error>(e),
    ensures
        spec_read_each::<T>(items) == Err::<Seq<T::V>, X402Error>(e),
    decreases items.len() - n,
{
    if n == items.len() {
        assert(items.take(n) =~= items);
    } else {
        assert(items.take(n + 1).drop_last() =~= items.take(n));
        lemma_read_each_error::<T>(items, n + 1, e);
    }
}

/// A list that reads without error has as many entries as the array has elements, and
/// each entry is what the element at its index reads as.
pub proof fn lemma_read_each_elementwise<T: JsonCodec>(items: Seq<Value>)
    requires
        spec_read_each::<T>(items) is Ok,
    ensures
        spec_read_each::<T>(items).unwrap().len() == items.len(),
        forall|i: int|
            0 <= i < items.len() ==> T::spec_read(#[trigger] items[i]) == Ok::<T::V, X402Error>(
                spec_read_each::<T>(items).unwrap()[i],
            ),
    decreases items.len(),
{
    if items.len() > 0 {
        lemma_read_each_elementwise::<T>(items.drop_last());
        assert forall|i: int| 0 <= i < items.len() implies T::spec_read(#[trigger] items[i])
            == Ok::<T::V, X402Error>(spec_read_each::<T>(items).unwrap()[i]) by {
            if i < items.len() - 1 {
                assert(items.drop_last()[i] == items[i]);
            }
        }
    }
}

/// Appends an element to an array that is being written.
fn put_element(
    out: &mut String,
    written: Ghost<Seq<Seq<char>>>,
    first: bool,
    element: &str,
)
    requires
        old(out)@ == "["@ + joined(written@),
        first == (written@.len() == 0),
    ensures
        final(out)@ == "["@ + joined(written@.push(element@)),
{
    let ghost items = written@.push(element@);
    proof {
        assert(items.drop_last() =~= written@);
        assert(items.last() == element@);
        assert(items.len() == written@.len() + 1);
    }
    if !first {
        out.append(",");
    }
    out.append(element);
    proof {
        if first {
            assert(joined(written@) =~= Seq::<char>::empty());
            assert(joined(items) == element@);
        } else {
            assert(joined(items) == joined(written@) + ","@ + element@);
        }
        assert(out@ =~= "["@ + joined(items));
    }
}

/// Writes a list of values as a JSON array, in order.
pub fn list_to_json<T: JsonCodec>(items: &[T]) -> (r: String)
    ensures
        r@ == json_array(spec_json_each::<T>(views(items@))),
{
    let mut out = "[".to_owned();
    let ghost mut written: Seq<Seq<char>> = Seq::empty();
    let mut i: usize = 0;
    proof {
        assert(joined(written) =~= Seq::<char>::empty());
        assert(out@ =~= "["@ + joined(written));
    }
    while i < items.len()
        invariant
            i <= items.len(),
            out@ == "["@ + joined(written),
            written == spec_json_each::<T>(views(items@)).take(i as int),
        decreases items.len() - i,
    {
        let element = items[i].to_json();
        put_element(&mut out, Ghost(written), i == 0, element.as_str());
        proof {
            let all = spec_json_each::<T>(views(items@));
            assert(all.take(i + 1) =~= all.take(i as int).push(all[i as int]));
            written = written.push(element@);
        }
        i = i + 1;
    }
    proof {
        let all = spec_json_each::<T>(views(items@));
        assert(all.take(i as int) =~= all);
    }
    out.append("]");
    out
}

/// Writes an optional value as JSON text.
pub fn to_json_or_null<T: JsonCodec>(value: &Option<T>) -> (r: String)
    ensures
        r@ == spec_json_or_null::<T>(opt_view(*value)),
{
    match value {
        Some(inner) => inner.to_json(),
        None => "null".to_owned(),
    }
}

/// Reads a value from a member of an object.
pub fn read_member<T: JsonCodec>(value: Option<&Value>) -> (r: X402Result<T>)
    ensures
        match r {
            Ok(v) => spec_read_member::<T>(deref_opt(value)) == Ok::<T::V, X402Error>(v@),
            Err(e) => spec_read_member::<T>(deref_opt(value)) == Err::<T::V, X402Error>(e),
        },
{
    match value {
        Some(doc) => T::from_document(doc),
        None => Err(X402Error::InvalidPayload),
    }
}

/// Reads an optional value from a member of an object.
pub fn read_optional_member<T: JsonCodec>(value: Option<&Value>) -> (r: X402Result<Option<T>>)
    ensures
        match r {
            Ok(v) => spec_read_optional_member::<T>(deref_opt(value)) == Ok::<
                Option<T::V>,
                X402Error,
            >(opt_view(v)),
            Err(e) => spec_read_optional_member::<T>(deref_opt(value)) == Err::<
                Option<T::V>,
                X402Error,
            >(e),
        },
{
    if is_absent(value) {
        Ok(None)
    } else {
        match read_member::<T>(value) {
            Ok(v) => Ok(Some(v)),
            Err(e) => Err(e),
        }
    }
}

/// Reads a list from a member of an object.
pub fn read_list<T: JsonCodec>(value: Option<&Value>) -> (r: X402Result<Vec<T>>)
    ensures
        match r {
            Ok(v) => spec_read_list::<T>(deref_opt(value)) == Ok::<Seq<T::V>, X402Error>(
                views(v@),
            ),
            Err(e) => spec_read_list::<T>(deref_opt(value)) == Err::<Seq<T::V>, X402Error>(e),
        },
{
    let items = match value {
        Some(doc) => match elements(doc) {
            Some(items) => items,
            None => {
                return Err(X402Error::InvalidPayload);
            },
        },
        None => {
            return Err(X402Error::InvalidPayload);
        },
    };
    let mut out: Vec<T> = Vec::new();
    let mut i: usize = 0;
    proof {
        assert(items@.take(0) =~= Seq::<Value>::empty());
        assert(views(out@) =~= Seq::<T::V>::empty());
    }
    while i < items.len()
        invariant
            i <= items.len(),
            spec_read_list::<T>(deref_opt(value)) == spec_read_each::<T>(items@),
            spec_read_each::<T>(items@.take(i as int)) == Ok::<Seq<T::V>, X402Error>(views(out@)),
        decreases items.len() - i,
    {
        let ghost before = out@;
        proof {
            assert(items@.take(i + 1).drop_last() =~= items@.take(i as int));
            assert(items@.take(i + 1).last() == items@[i as int]);
        }
        match T::from_document(&items[i]) {
            Ok(v) => {
                out.push(v);
                proof {
                    assert(views(out@) =~= views(before).push(v@));
                }
            },
            Err(e) => {
                proof {
                    lemma_read_each_error::<T>(items@, i + 1, e);
                }
                return Err(e);
            },
        }
        i = i + 1;
    }
    proof {
        assert(items@.take(i as int) =~= items@);
    }
    Ok(out)
}

/// Builds the JSON array of a list of values, in order. What is built reads back as the
/// list.
pub fn list_to_document<T: JsonCodec>(items: &[T]) -> (r: Value)
    ensures
        spec_read_list::<T>(Some(r)) == Ok::<Seq<T::V>, X402Error>(views(items@)),
        !json_is_null(r),
{
    let mut out: Vec<Value> = Vec::new();
    let mut i: usize = 0;
    proof {
        assert(views(items@).take(0) =~= Seq::<T::V>::empty());
    }
    while i < items.len()
        invariant
            i <= items.len(),
            out@.len() == i,
            spec_read_each::<T>(out@) == Ok::<Seq<T::V>, X402Error>(views(items@).take(i as int)),
        decreases items.len() - i,
    {
        let ghost before = out@;
        let element = items[i].to_document();
        out.push(element);
        proof {
            assert(out@.drop_last() =~= before);
            assert(out@.last() == element);
            assert(views(items@).take(i + 1) =~= views(items@).take(i as int).push(
                items@[i as int]@,
            ));
        }
        i = i + 1;
    }
    proof {
        assert(views(items@).take(i as int) =~= views(items@));
    }
    array_value(out)
}

/// Builds the JSON value of an optional value: `null` when it is absent. What is built
/// reads back as the optional value.
pub fn to_document_or_null<T: JsonCodec>(value: &Option<T>) -> (r: Value)
    ensures
        spec_read_optional_member::<T>(Some(r)) == Ok::<Option<T::V>, X402Error>(
            opt_view(*value),
        ),
{
    match value {
        Some(inner) => inner.to_document(),
        None => null_value(),
    }
}

} // verus!
