//! Whole values, as plain data, and the JSON that they become in a response.

use crate::bigint::{
    integer_view, is_infinite, is_js_safe, is_nan, is_sign_negative, non_finite_view,
};
use crate::body::{law_response_reads_back, writes, InvokeResponseBody, IpcResponse, Serialized};
use crate::error::{fails, yields, IpcError};
use crate::json::{
    bytes_view, nesting_limit, no_members, number_contents, reads_back, JsonView, NumberView,
};
use crate::laws::{
    law_array_stays_safe, law_bytes_are_safe, law_integer_is_safe, law_non_finite_is_safe,
    law_object_stays_safe, law_variant_stays_safe, tree_is_safe,
};
use crate::serializer::{key_text, tagged_view, IpcResponseSerializer};
use vstd::prelude::*;

verus! {

/// A serializable value. An option that is there and a newtype struct are the
/// value inside.
#[derive(Debug)]
pub enum Data {
    /// An option that is not there, a unit or a unit struct.
    Unit,
    Bool(bool),
    /// A signed integer of any width.
    Signed(i128),
    /// An unsigned integer of any width.
    Unsigned(u128),
    /// A floating point number, given by its bits and by what
    /// `serde_json::Number::from_f64` made of it.
    Float(u64, Option<serde_json::Number>),
    Char(char),
    Text(String),
    Bytes(Vec<u8>),
    /// A sequence, a tuple or a tuple struct.
    Sequence(Vec<Data>),
    /// A map.
    Mapping(Vec<(Data, Data)>),
    /// A struct.
    Record(Vec<(&'static str, Data)>),
    UnitVariant(&'static str),
    NewtypeVariant(&'static str, Box<Data>),
    TupleVariant(&'static str, Vec<Data>),
    StructVariant(&'static str, Vec<(&'static str, Data)>),
}

/// What a floating point number is serialized to.
pub open spec fn float_outcome(bits: u64, number: Option<serde_json::Number>) -> Result<
    JsonView,
    IpcError,
> {
    if is_nan(bits) {
        Ok(non_finite_view("$bigint_nan"@, false))
    } else if is_infinite(bits) {
        Ok(non_finite_view("$bigint_infinity"@, is_sign_negative(bits)))
    } else {
        match number {
            Some(n) => Ok(JsonView::Number(number_contents(n))),
            None => Err(IpcError::InvalidFloat),
        }
    }
}

/// What a value is serialized to, or the error that the first part of it that
/// cannot be serialized gives.
pub open spec fn serialized(data: Data) -> Result<JsonView, IpcError>
    decreases data,
{
    match data {
        Data::Unit => Ok(JsonView::Null),
        Data::Bool(b) => Ok(JsonView::Bool(b)),
        Data::Signed(n) => Ok(integer_view(n as int)),
        Data::Unsigned(n) => Ok(integer_view(n as int)),
        Data::Float(bits, number) => float_outcome(bits, number),
        Data::Char(c) => Ok(JsonView::String(seq![c])),
        Data::Text(text) => Ok(JsonView::String(text@)),
        Data::Bytes(bytes) => Ok(bytes_view(bytes@)),
        Data::Sequence(items) => match serialized_items(items@) {
            Ok(trees) => Ok(JsonView::Array(trees)),
            Err(error) => Err(error),
        },
        Data::Mapping(entries) => match serialized_entries(entries@) {
            Ok(members) => Ok(JsonView::Object(members)),
            Err(error) => Err(error),
        },
        Data::Record(fields) => match serialized_fields(fields@) {
            Ok(members) => Ok(JsonView::Object(members)),
            Err(error) => Err(error),
        },
        Data::UnitVariant(tag) => Ok(JsonView::String(tag@)),
        Data::NewtypeVariant(tag, content) => match serialized(*content) {
            Ok(tree) => Ok(tagged_view(tag@, tree)),
            Err(error) => Err(error),
        },
        Data::TupleVariant(tag, items) => match serialized_items(items@) {
            Ok(trees) => Ok(tagged_view(tag@, JsonView::Array(trees))),
            Err(error) => Err(error),
        },
        Data::StructVariant(tag, fields) => match serialized_fields(fields@) {
            Ok(members) => Ok(tagged_view(tag@, JsonView::Object(members))),
            Err(error) => Err(error),
        },
    }
}

/// What the items of an array are serialized to.
pub open spec fn serialized_items(items: Seq<Data>) -> Result<Seq<JsonView>, IpcError>
    decreases items,
{
    if items.len() == 0 {
        Ok(seq![])
    } else {
        match serialized_items(items.drop_last()) {
            Ok(trees) => match serialized(items.last()) {
                Ok(tree) => Ok(trees.push(tree)),
                Err(error) => Err(error),
            },
            Err(error) => Err(error),
        }
    }
}

/// What the entries of a map are serialized to. Of two with the same key, the
/// last stays.
pub open spec fn serialized_entries(entries: Seq<(Data, Data)>) -> Result<
    Map<Seq<char>, JsonView>,
    IpcError,
>
    decreases entries,
{
    if entries.len() == 0 {
        Ok(no_members())
    } else {
        match serialized_entries(entries.drop_last()) {
            Ok(members) => match key_outcome(serialized(entries.last().0)) {
                Ok(key) => match serialized(entries.last().1) {
                    Ok(tree) => Ok(members.insert(key, tree)),
                    Err(error) => Err(error),
                },
                Err(error) => Err(error),
            },
            Err(error) => Err(error),
        }
    }
}

/// The text of a map key, given what the key is serialized to.
pub open spec fn key_outcome(key: Result<JsonView, IpcError>) -> Result<Seq<char>, IpcError> {
    match key {
        Ok(tree) => match key_text(tree) {
            Some(text) => Ok(text),
            None => Err(IpcError::InvalidMapKey),
        },
        Err(error) => Err(error),
    }
}

/// What the fields of a struct are serialized to.
pub open spec fn serialized_fields(fields: Seq<(&'static str, Data)>) -> Result<
    Map<Seq<char>, JsonView>,
    IpcError,
>
    decreases fields,
{
    if fields.len() == 0 {
        Ok(no_members())
    } else {
        match serialized_fields(fields.drop_last()) {
            Ok(members) => match serialized(fields.last().1) {
                Ok(tree) => Ok(members.insert(fields.last().0@, tree)),
                Err(error) => Err(error),
            },
            Err(error) => Err(error),
        }
    }
}

proof fn lemma_items_step(items: Seq<Data>, n: int)
    requires
        0 <= n < items.len(),
    ensures
        serialized_items(items.take(n + 1)) == match serialized_items(items.take(n)) {
            Ok(trees) => match serialized(items[n]) {
                Ok(tree) => Ok(trees.push(tree)),
                Err(error) => Err(error),
            },
            Err(error) => Err(error),
        },
{
    assert(items.take(n + 1).drop_last() =~= items.take(n));
}

proof fn lemma_items_fail(items: Seq<Data>, n: int)
    requires
        0 <= n <= items.len(),
        serialized_items(items.take(n)) is Err,
    ensures
        serialized_items(items) == serialized_items(items.take(n)),
    decreases items.len() - n,
{
    if n < items.len() {
        lemma_items_step(items, n);
        lemma_items_fail(items, n + 1);
    } else {
        assert(items.take(n) =~= items);
    }
}

proof fn lemma_entries_step(entries: Seq<(Data, Data)>, n: int)
    requires
        0 <= n < entries.len(),
    ensures
        serialized_entries(entries.take(n + 1)) == match serialized_entries(entries.take(n)) {
            Ok(members) => match key_outcome(serialized(entries[n].0)) {
                Ok(key) => match serialized(entries[n].1) {
                    Ok(tree) => Ok(members.insert(key, tree)),
                    Err(error) => Err(error),
                },
                Err(error) => Err(error),
            },
            Err(error) => Err(error),
        },
{
    assert(entries.take(n + 1).drop_last() =~= entries.take(n));
}

proof fn lemma_entries_fail(entries: Seq<(Data, Data)>, n: int)
    requires
        0 <= n <= entries.len(),
        serialized_entries(entries.take(n)) is Err,
    ensures
        serialized_entries(entries) == serialized_entries(entries.take(n)),
    decreases entries.len() - n,
{
    if n < entries.len() {
        lemma_entries_step(entries, n);
        lemma_entries_fail(entries, n + 1);
    } else {
        assert(entries.take(n) =~= entries);
    }
}

proof fn lemma_fields_step(fields: Seq<(&'static str, Data)>, n: int)
    requires
        0 <= n < fields.len(),
    ensures
        serialized_fields(fields.take(n + 1)) == match serialized_fields(fields.take(n)) {
            Ok(members) => match serialized(fields[n].1) {
                Ok(tree) => Ok(members.insert(fields[n].0@, tree)),
                Err(error) => Err(error),
            },
            Err(error) => Err(error),
        },
{
    assert(fields.take(n + 1).drop_last() =~= fields.take(n));
}

proof fn lemma_fields_fail(fields: Seq<(&'static str, Data)>, n: int)
    requires
        0 <= n <= fields.len(),
        serialized_fields(fields.take(n)) is Err,
    ensures
        serialized_fields(fields) == serialized_fields(fields.take(n)),
    decreases fields.len() - n,
{
    if n < fields.len() {
        lemma_fields_step(fields, n);
        lemma_fields_fail(fields, n + 1);
    } else {
        assert(fields.take(n) =~= fields);
    }
}

/// Whether the result is the given outcome.
pub open spec fn comes_to(
    result: Result<serde_json::Value, IpcError>,
    outcome: Result<JsonView, IpcError>,
) -> bool {
    match outcome {
        Ok(tree) => yields(result, tree),
        Err(error) => fails(result, error),
    }
}

impl Data {
    /// Serializes the value.
    pub fn serialize(self) -> (result: Result<serde_json::Value, IpcError>)
        ensures
            comes_to(result, serialized(self)),
        decreases self,
    {
        match self {
            Data::Unit => IpcResponseSerializer.serialize_unit(),
            Data::Bool(b) => IpcResponseSerializer.serialize_bool(b),
            Data::Signed(n) => IpcResponseSerializer.serialize_i128(n),
            Data::Unsigned(n) => IpcResponseSerializer.serialize_u128(n),
            Data::Float(bits, number) => IpcResponseSerializer.serialize_f64(bits, number),
            Data::Char(c) => IpcResponseSerializer.serialize_char(c),
            Data::Text(text) => IpcResponseSerializer.serialize_str(text.as_str()),
            Data::Bytes(bytes) => IpcResponseSerializer.serialize_bytes(bytes.as_slice()),
            Data::Sequence(items) => Self::serialize_sequence(items),
            Data::Mapping(entries) => Self::serialize_mapping(entries),
            Data::Record(fields) => Self::serialize_record(fields),
            Data::UnitVariant(tag) => IpcResponseSerializer.serialize_unit_variant("", 0, tag),
            Data::NewtypeVariant(tag, content) => {
                let content = *content;
                IpcResponseSerializer.serialize_newtype_variant("", 0, tag, content.serialize())
            },
            Data::TupleVariant(tag, items) => Self::serialize_tuple_variant(tag, items),
            Data::StructVariant(tag, fields) => Self::serialize_struct_variant(tag, fields),
        }
    }

    fn serialize_sequence(items: Vec<Data>) -> (result: Result<serde_json::Value, IpcError>)
        ensures
            comes_to(result, serialized(Data::Sequence(items))),
        decreases items,
    {
        let mut array = IpcResponseSerializer.serialize_seq(Some(items.len()))?;
        assert(array@ =~= seq![]);
        for item in iter: items
            invariant
                iter.seq() == items@,
                serialized_items(items@.take(iter.index() as int)) == Ok::<
                    Seq<JsonView>,
                    IpcError,
                >(array@),
        {
            proof {
                lemma_items_step(items@, iter.index() as int);
                if serialized(item) is Err {
                    lemma_items_fail(items@, iter.index() + 1);
                }
            }
            array.serialize_element(item.serialize())?;
        }
        assert(items@.take(items@.len() as int) =~= items@);
        array.end()
    }

    fn serialize_tuple_variant(tag: &'static str, items: Vec<Data>) -> (result: Result<
        serde_json::Value,
        IpcError,
    >)
        ensures
            comes_to(result, serialized(Data::TupleVariant(tag, items))),
        decreases items,
    {
        let mut array = IpcResponseSerializer.serialize_tuple_variant("", 0, tag, items.len())?;
        assert(array@ =~= seq![]);
        for item in iter: items
            invariant
                iter.seq() == items@,
                array.tag() == tag@,
                serialized_items(items@.take(iter.index() as int)) == Ok::<
                    Seq<JsonView>,
                    IpcError,
                >(array@),
        {
            proof {
                lemma_items_step(items@, iter.index() as int);
                if serialized(item) is Err {
                    lemma_items_fail(items@, iter.index() + 1);
                }
            }
            array.serialize_field(item.serialize())?;
        }
        assert(items@.take(items@.len() as int) =~= items@);
        array.end()
    }

    fn serialize_mapping(entries: Vec<(Data, Data)>) -> (result: Result<
        serde_json::Value,
        IpcError,
    >)
        ensures
            comes_to(result, serialized(Data::Mapping(entries))),
        decreases entries,
    {
        let mut object = IpcResponseSerializer.serialize_map(Some(entries.len()))?;
        for entry in iter: entries
            invariant
                iter.seq() == entries@,
                serialized_entries(entries@.take(iter.index() as int)) == Ok::<
                    Map<Seq<char>, JsonView>,
                    IpcError,
                >(object@),
        {
            proof {
                lemma_entries_step(entries@, iter.index() as int);
                if serialized_entries(entries@.take(iter.index() + 1)) is Err {
                    lemma_entries_fail(entries@, iter.index() + 1);
                }
            }
            let (key, value) = entry;
            object.serialize_key(key.serialize())?;
            let given = value.serialize();
            let hand_over = move || -> (r: Result<serde_json::Value, IpcError>)
                ensures
                    r == given,
                { given };
            object.serialize_value(hand_over)?;
        }
        assert(entries@.take(entries@.len() as int) =~= entries@);
        object.end()
    }

    fn serialize_record(fields: Vec<(&'static str, Data)>) -> (result: Result<
        serde_json::Value,
        IpcError,
    >)
        ensures
            comes_to(result, serialized(Data::Record(fields))),
        decreases fields,
    {
        let mut object = IpcResponseSerializer.serialize_struct("", fields.len())?;
        for field in iter: fields
            invariant
                iter.seq() == fields@,
                serialized_fields(fields@.take(iter.index() as int)) == Ok::<
                    Map<Seq<char>, JsonView>,
                    IpcError,
                >(object@),
        {
            proof {
                lemma_fields_step(fields@, iter.index() as int);
                if serialized(field.1) is Err {
                    lemma_fields_fail(fields@, iter.index() + 1);
                }
            }
            let (name, value) = field;
            object.serialize_field(name, value.serialize())?;
        }
        assert(fields@.take(fields@.len() as int) =~= fields@);
        object.end()
    }

    fn serialize_struct_variant(tag: &'static str, fields: Vec<(&'static str, Data)>) -> (result:
        Result<serde_json::Value, IpcError>)
        ensures
            comes_to(result, serialized(Data::StructVariant(tag, fields))),
        decreases fields,
    {
        let mut object = IpcResponseSerializer.serialize_struct_variant("", 0, tag, fields.len())?;
        for field in iter: fields
            invariant
                iter.seq() == fields@,
                object.tag() == tag@,
                serialized_fields(fields@.take(iter.index() as int)) == Ok::<
                    Map<Seq<char>, JsonView>,
                    IpcError,
                >(object@),
        {
            proof {
                lemma_fields_step(fields@, iter.index() as int);
                if serialized(field.1) is Err {
                    lemma_fields_fail(fields@, iter.index() + 1);
                }
            }
            let (name, value) = field;
            object.serialize_field(name, value.serialize())?;
        }
        assert(fields@.take(fields@.len() as int) =~= fields@);
        object.end()
    }
}

impl IpcResponse for Data {
    fn body(self) -> (result: Result<InvokeResponseBody, IpcError>)
        ensures
            match serialized(self) {
                Ok(tree) => result matches Ok(body) && writes(body, tree),
                Err(error) => fails(result, error),
            },
    {
        Serialized(self.serialize()).body()
    }
}

/// Whether each finite floating point number in a value comes with the
/// `serde_json::Number` that has its bits, if with any.
pub open spec fn is_valid(data: Data) -> bool
    decreases data,
{
    match data {
        Data::Float(bits, number) => is_nan(bits) || is_infinite(bits) || (number matches Some(n)
            ==> number_contents(n) == NumberView::Float(bits)),
        Data::Sequence(items) => forall|i: int|
            0 <= i < items@.len() ==> is_valid(#[trigger] items@[i]),
        Data::Mapping(entries) => forall|i: int|
            0 <= i < entries@.len() ==> is_valid((#[trigger] entries@[i]).0) && is_valid(
                entries@[i].1,
            ),
        Data::Record(fields) => forall|i: int|
            0 <= i < fields@.len() ==> is_valid((#[trigger] fields@[i]).1),
        Data::NewtypeVariant(_, content) => is_valid(*content),
        Data::TupleVariant(_, items) => forall|i: int|
            0 <= i < items@.len() ==> is_valid(#[trigger] items@[i]),
        Data::StructVariant(_, fields) => forall|i: int|
            0 <= i < fields@.len() ==> is_valid((#[trigger] fields@[i]).1),
        _ => true,
    }
}

/// Whatever value is serialized, the result is safe for JavaScript.
pub proof fn law_serialized_is_safe(data: Data)
    requires
        is_valid(data),
    ensures
        serialized(data) matches Ok(tree) ==> tree_is_safe(tree),
    decreases data,
{
    match data {
        Data::Signed(n) => law_integer_is_safe(n as int),
        Data::Unsigned(n) => law_integer_is_safe(n as int),
        Data::Float(bits, _) => {
            law_non_finite_is_safe("$bigint_nan"@, false);
            law_non_finite_is_safe("$bigint_infinity"@, is_sign_negative(bits));
        },
        Data::Bytes(bytes) => law_bytes_are_safe(bytes@),
        Data::Sequence(items) => lemma_items_are_safe(items@),
        Data::Mapping(entries) => lemma_entries_are_safe(entries@),
        Data::Record(fields) => lemma_fields_are_safe(fields@),
        Data::NewtypeVariant(tag, content) => {
            law_serialized_is_safe(*content);
            if let Ok(tree) = serialized(*content) {
                law_variant_stays_safe(tag@, tree);
            }
        },
        Data::TupleVariant(tag, items) => {
            lemma_items_are_safe(items@);
            if let Ok(trees) = serialized_items(items@) {
                law_variant_stays_safe(tag@, JsonView::Array(trees));
            }
        },
        Data::StructVariant(tag, fields) => {
            lemma_fields_are_safe(fields@);
            if let Ok(members) = serialized_fields(fields@) {
                law_variant_stays_safe(tag@, JsonView::Object(members));
            }
        },
        _ => {},
    }
}

proof fn lemma_items_are_safe(items: Seq<Data>)
    requires
        forall|i: int| 0 <= i < items.len() ==> is_valid(#[trigger] items[i]),
    ensures
        serialized_items(items) matches Ok(trees) ==> tree_is_safe(JsonView::Array(trees)),
    decreases items,
{
    if items.len() == 0 {
        law_array_stays_safe(seq![], JsonView::Null);
    } else {
        lemma_items_are_safe(items.drop_last());
        law_serialized_is_safe(items.last());
        if let (Ok(trees), Ok(tree)) = (
            serialized_items(items.drop_last()),
            serialized(items.last()),
        ) {
            law_array_stays_safe(trees, tree);
        }
    }
}

proof fn lemma_entries_are_safe(entries: Seq<(Data, Data)>)
    requires
        forall|i: int|
            0 <= i < entries.len() ==> is_valid((#[trigger] entries[i]).0) && is_valid(
                entries[i].1,
            ),
    ensures
        serialized_entries(entries) matches Ok(members) ==> tree_is_safe(
            JsonView::Object(members),
        ),
    decreases entries,
{
    if entries.len() > 0 {
        let (key, value) = entries[entries.len() - 1];
        lemma_entries_are_safe(entries.drop_last());
        law_serialized_is_safe(value);
        if let (Ok(members), Ok(text), Ok(tree)) = (
            serialized_entries(entries.drop_last()),
            key_outcome(serialized(key)),
            serialized(value),
        ) {
            law_object_stays_safe(members, text, tree);
        }
    }
}

proof fn lemma_fields_are_safe(fields: Seq<(&'static str, Data)>)
    requires
        forall|i: int| 0 <= i < fields.len() ==> is_valid((#[trigger] fields[i]).1),
    ensures
        serialized_fields(fields) matches Ok(members) ==> tree_is_safe(JsonView::Object(members)),
    decreases fields,
{
    if fields.len() > 0 {
        let (name, value) = fields[fields.len() - 1];
        lemma_fields_are_safe(fields.drop_last());
        law_serialized_is_safe(value);
        if let (Ok(members), Ok(tree)) = (
            serialized_fields(fields.drop_last()),
            serialized(value),
        ) {
            law_object_stays_safe(members, name@, tree);
        }
    }
}

/// The text that a map key is, if it is a text.
pub open spec fn key_name(key: Data) -> Option<Seq<char>> {
    match key {
        Data::Char(c) => Some(seq![c]),
        Data::Text(text) => Some(text@),
        Data::UnitVariant(tag) => Some(tag@),
        _ => None,
    }
}

/// Whether JavaScript can hold every number in a value, and every map key in it
/// is a text.
pub open spec fn is_ordinary(data: Data) -> bool
    decreases data,
{
    match data {
        Data::Signed(n) => is_js_safe(n as int),
        Data::Unsigned(n) => is_js_safe(n as int),
        Data::Float(bits, number) => !is_nan(bits) && !is_infinite(bits) && number is Some,
        Data::Sequence(items) => forall|i: int|
            0 <= i < items@.len() ==> is_ordinary(#[trigger] items@[i]),
        Data::Mapping(entries) => forall|i: int|
            0 <= i < entries@.len() ==> key_name((#[trigger] entries@[i]).0) is Some && is_ordinary(
                entries@[i].1,
            ),
        Data::Record(fields) => forall|i: int|
            0 <= i < fields@.len() ==> is_ordinary((#[trigger] fields@[i]).1),
        Data::NewtypeVariant(_, content) => is_ordinary(*content),
        Data::TupleVariant(_, items) => forall|i: int|
            0 <= i < items@.len() ==> is_ordinary(#[trigger] items@[i]),
        Data::StructVariant(_, fields) => forall|i: int|
            0 <= i < fields@.len() ==> is_ordinary((#[trigger] fields@[i]).1),
        _ => true,
    }
}

/// The plain JSON form of a value: every number is a number, and a variant with
/// content is an object whose only member has its name. For a value of which
/// [`is_ordinary`] holds.
pub open spec fn plain(data: Data) -> JsonView
    decreases data,
{
    match data {
        Data::Unit => JsonView::Null,
        Data::Bool(b) => JsonView::Bool(b),
        Data::Signed(n) => JsonView::Number(NumberView::Int(n as int)),
        Data::Unsigned(n) => JsonView::Number(NumberView::Int(n as int)),
        Data::Float(_, number) => JsonView::Number(number_contents(number->0)),
        Data::Char(c) => JsonView::String(seq![c]),
        Data::Text(text) => JsonView::String(text@),
        Data::Bytes(bytes) => bytes_view(bytes@),
        Data::Sequence(items) => JsonView::Array(plain_items(items@)),
        Data::Mapping(entries) => JsonView::Object(plain_entries(entries@)),
        Data::Record(fields) => JsonView::Object(plain_fields(fields@)),
        Data::UnitVariant(tag) => JsonView::String(tag@),
        Data::NewtypeVariant(tag, content) => tagged_view(tag@, plain(*content)),
        Data::TupleVariant(tag, items) => tagged_view(
            tag@,
            JsonView::Array(plain_items(items@)),
        ),
        Data::StructVariant(tag, fields) => tagged_view(
            tag@,
            JsonView::Object(plain_fields(fields@)),
        ),
    }
}

/// The plain forms of the items of an array.
pub open spec fn plain_items(items: Seq<Data>) -> Seq<JsonView>
    decreases items,
{
    if items.len() == 0 {
        seq![]
    } else {
        plain_items(items.drop_last()).push(plain(items.last()))
    }
}

/// The plain forms of the entries of a map.
pub open spec fn plain_entries(entries: Seq<(Data, Data)>) -> Map<Seq<char>, JsonView>
    decreases entries,
{
    if entries.len() == 0 {
        no_members()
    } else {
        plain_entries(entries.drop_last()).insert(
            key_name(entries.last().0)->0,
            plain(entries.last().1),
        )
    }
}

/// The plain forms of the fields of a struct.
pub open spec fn plain_fields(fields: Seq<(&'static str, Data)>) -> Map<Seq<char>, JsonView>
    decreases fields,
{
    if fields.len() == 0 {
        no_members()
    } else {
        plain_fields(fields.drop_last()).insert(fields.last().0@, plain(fields.last().1))
    }
}

/// A value whose numbers JavaScript can hold, with texts as map keys, is
/// serialized to its plain JSON form.
pub proof fn law_ordinary_is_plain(data: Data)
    requires
        is_ordinary(data),
    ensures
        serialized(data) == Ok::<JsonView, IpcError>(plain(data)),
    decreases data,
{
    match data {
        Data::Sequence(items) => lemma_items_are_plain(items@),
        Data::Mapping(entries) => lemma_entries_are_plain(entries@),
        Data::Record(fields) => lemma_fields_are_plain(fields@),
        Data::NewtypeVariant(_, content) => law_ordinary_is_plain(*content),
        Data::TupleVariant(_, items) => lemma_items_are_plain(items@),
        Data::StructVariant(_, fields) => lemma_fields_are_plain(fields@),
        _ => {},
    }
}

proof fn lemma_items_are_plain(items: Seq<Data>)
    requires
        forall|i: int| 0 <= i < items.len() ==> is_ordinary(#[trigger] items[i]),
    ensures
        serialized_items(items) == Ok::<Seq<JsonView>, IpcError>(plain_items(items)),
    decreases items,
{
    if items.len() > 0 {
        lemma_items_are_plain(items.drop_last());
        law_ordinary_is_plain(items.last());
    }
}

proof fn lemma_entries_are_plain(entries: Seq<(Data, Data)>)
    requires
        forall|i: int|
            0 <= i < entries.len() ==> key_name((#[trigger] entries[i]).0) is Some && is_ordinary(
                entries[i].1,
            ),
    ensures
        serialized_entries(entries) == Ok::<Map<Seq<char>, JsonView>, IpcError>(
            plain_entries(entries),
        ),
    decreases entries,
{
    if entries.len() > 0 {
        let (key, value) = entries[entries.len() - 1];
        lemma_entries_are_plain(entries.drop_last());
        law_ordinary_is_plain(value);
        assert(key_outcome(serialized(key)) == Ok::<Seq<char>, IpcError>(key_name(key)->0));
    }
}

proof fn lemma_fields_are_plain(fields: Seq<(&'static str, Data)>)
    requires
        forall|i: int| 0 <= i < fields.len() ==> is_ordinary((#[trigger] fields[i]).1),
    ensures
        serialized_fields(fields) == Ok::<Map<Seq<char>, JsonView>, IpcError>(
            plain_fields(fields),
        ),
    decreases fields,
{
    if fields.len() > 0 {
        let (name, value) = fields[fields.len() - 1];
        lemma_fields_are_plain(fields.drop_last());
        law_ordinary_is_plain(value);
    }
}

/// Whether a value without floating point numbers becomes at most `levels` arrays
/// and objects inside each other.
pub open spec fn nests(data: Data, levels: nat) -> bool
    decreases data,
{
    match data {
        Data::Float(_, _) => false,
        Data::Bytes(_) => levels > 0,
        Data::Sequence(items) => levels > 0 && forall|i: int|
            0 <= i < items@.len() ==> nests(#[trigger] items@[i], (levels - 1) as nat),
        Data::Mapping(entries) => levels > 0 && forall|i: int|
            0 <= i < entries@.len() ==> nests((#[trigger] entries@[i]).1, (levels - 1) as nat),
        Data::Record(fields) => levels > 0 && forall|i: int|
            0 <= i < fields@.len() ==> nests((#[trigger] fields@[i]).1, (levels - 1) as nat),
        Data::NewtypeVariant(_, content) => levels > 0 && nests(*content, (levels - 1) as nat),
        Data::TupleVariant(_, items) => levels > 1 && forall|i: int|
            0 <= i < items@.len() ==> nests(#[trigger] items@[i], (levels - 2) as nat),
        Data::StructVariant(_, fields) => levels > 1 && forall|i: int|
            0 <= i < fields@.len() ==> nests((#[trigger] fields@[i]).1, (levels - 2) as nat),
        _ => true,
    }
}

proof fn lemma_array_reads_back(tree: JsonView, levels: nat)
    requires
        tree is Array,
        levels > 0,
        forall|i: int|
            0 <= i < tree->Array_0.len() ==> reads_back(
                #[trigger] tree->Array_0[i],
                (levels - 1) as nat,
            ),
    ensures
        reads_back(tree, levels),
{
}

proof fn lemma_object_reads_back(tree: JsonView, levels: nat)
    requires
        tree is Object,
        levels > 0,
        forall|key: Seq<char>|
            tree->Object_0.contains_key(key) ==> reads_back(
                #[trigger] tree->Object_0[key],
                (levels - 1) as nat,
            ),
    ensures
        reads_back(tree, levels),
{
}

proof fn lemma_tagged_reads_back(tag: Seq<char>, content: JsonView, levels: nat)
    requires
        levels > 0,
        reads_back(content, (levels - 1) as nat),
    ensures
        reads_back(tagged_view(tag, content), levels),
{
    let tree = tagged_view(tag, content);
    assert forall|key: Seq<char>| tree->Object_0.contains_key(key) implies reads_back(
        #[trigger] tree->Object_0[key],
        (levels - 1) as nat,
    ) by {
        assert(key == tag);
    }
    lemma_object_reads_back(tree, levels);
}

/// A value without floating point numbers has a plain form that reads back, if it
/// nests no deeper than can be read.
pub proof fn law_plain_reads_back(data: Data, levels: nat)
    requires
        nests(data, levels),
    ensures
        reads_back(plain(data), levels),
    decreases data,
{
    match data {
        Data::Bytes(bytes) => {
            let items = plain(data)->Array_0;
            assert forall|i: int| 0 <= i < items.len() implies reads_back(
                #[trigger] items[i],
                (levels - 1) as nat,
            ) by {
                assert(items[i] == JsonView::Number(NumberView::Int(bytes@[i] as int)));
            }
            lemma_array_reads_back(plain(data), levels);
        },
        Data::Sequence(items) => lemma_items_read_back(items@, levels),
        Data::Mapping(entries) => lemma_entries_read_back(entries@, levels),
        Data::Record(fields) => lemma_fields_read_back(fields@, levels),
        Data::NewtypeVariant(tag, content) => {
            law_plain_reads_back(*content, (levels - 1) as nat);
            lemma_tagged_reads_back(tag@, plain(*content), levels);
        },
        Data::TupleVariant(tag, items) => {
            lemma_items_read_back(items@, (levels - 1) as nat);
            lemma_tagged_reads_back(tag@, JsonView::Array(plain_items(items@)), levels);
        },
        Data::StructVariant(tag, fields) => {
            lemma_fields_read_back(fields@, (levels - 1) as nat);
            lemma_tagged_reads_back(tag@, JsonView::Object(plain_fields(fields@)), levels);
        },
        _ => {},
    }
}

proof fn lemma_items_read_back(items: Seq<Data>, levels: nat)
    requires
        levels > 0,
        forall|i: int| 0 <= i < items.len() ==> nests(#[trigger] items[i], (levels - 1) as nat),
    ensures
        reads_back(JsonView::Array(plain_items(items)), levels),
    decreases items,
{
    let trees = plain_items(items);
    if items.len() > 0 {
        let shorter = JsonView::Array(plain_items(items.drop_last()));
        lemma_items_read_back(items.drop_last(), levels);
        law_plain_reads_back(items.last(), (levels - 1) as nat);
        assert forall|i: int| 0 <= i < trees.len() implies reads_back(
            #[trigger] trees[i],
            (levels - 1) as nat,
        ) by {
            if i < shorter->Array_0.len() {
                assert(trees[i] == shorter->Array_0[i]);
            }
        }
    }
    lemma_array_reads_back(JsonView::Array(trees), levels);
}

proof fn lemma_entries_read_back(entries: Seq<(Data, Data)>, levels: nat)
    requires
        levels > 0,
        forall|i: int|
            0 <= i < entries.len() ==> nests((#[trigger] entries[i]).1, (levels - 1) as nat),
    ensures
        reads_back(JsonView::Object(plain_entries(entries)), levels),
    decreases entries,
{
    let members = plain_entries(entries);
    if entries.len() > 0 {
        let (last, value) = entries[entries.len() - 1];
        let shorter = JsonView::Object(plain_entries(entries.drop_last()));
        lemma_entries_read_back(entries.drop_last(), levels);
        law_plain_reads_back(value, (levels - 1) as nat);
        assert forall|key: Seq<char>| members.contains_key(key) implies reads_back(
            #[trigger] members[key],
            (levels - 1) as nat,
        ) by {
            if key != key_name(last)->0 {
                assert(members[key] == shorter->Object_0[key]);
            }
        }
    }
    lemma_object_reads_back(JsonView::Object(members), levels);
}

proof fn lemma_fields_read_back(fields: Seq<(&'static str, Data)>, levels: nat)
    requires
        levels > 0,
        forall|i: int|
            0 <= i < fields.len() ==> nests((#[trigger] fields[i]).1, (levels - 1) as nat),
    ensures
        reads_back(JsonView::Object(plain_fields(fields)), levels),
    decreases fields,
{
    let members = plain_fields(fields);
    if fields.len() > 0 {
        let (last, value) = fields[fields.len() - 1];
        let shorter = JsonView::Object(plain_fields(fields.drop_last()));
        lemma_fields_read_back(fields.drop_last(), levels);
        law_plain_reads_back(value, (levels - 1) as nat);
        assert forall|key: Seq<char>| members.contains_key(key) implies reads_back(
            #[trigger] members[key],
            (levels - 1) as nat,
        ) by {
            if key != last@ {
                assert(members[key] == shorter->Object_0[key]);
            }
        }
    }
    lemma_object_reads_back(JsonView::Object(members), levels);
}

/// A response for a value whose integers JavaScript can hold, without floating
/// point numbers, with texts as map keys and nested no deeper than can be read, is
/// read as the plain JSON form of the value.
pub proof fn law_ordinary_response_is_plain(data: Data, body: InvokeResponseBody)
    requires
        is_ordinary(data),
        nests(data, nesting_limit()),
        serialized(data) matches Ok(tree) && writes(body, tree),
    ensures
        body.json() == Some(plain(data)),
{
    law_ordinary_is_plain(data);
    law_plain_reads_back(data, nesting_limit());
    law_response_reads_back(body, plain(data));
}

} // verus!
