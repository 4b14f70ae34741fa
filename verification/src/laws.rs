//! What holds of the JSON that the serializer produces, kind by kind.
//!
//! The modules below say of each operation how its results follow from its
//! arguments, and how the results of several calls go together.

pub mod answers;
pub mod bodies;
pub mod messages;
pub mod numbers;
pub mod pieces;
pub mod values;

use crate::bigint::{integer_view, is_js_safe, non_finite_flags, non_finite_view};
use crate::body::{law_response_reads_back, writes, InvokeResponseBody};
use crate::decimal::{decimal, law_decimal_denotes};
use crate::json::{bytes_view, nesting_limit, no_members, reads_back, JsonView, NumberView};
use crate::serializer::{key_text, tagged_view};
use vstd::prelude::*;

verus! {

/// Whether JavaScript reads every number in a tree as what it is: each integer
/// is in the safe range.
pub open spec fn tree_is_safe(tree: JsonView) -> bool
    decreases tree,
{
    match tree {
        JsonView::Number(NumberView::Int(i)) => is_js_safe(i),
        JsonView::Array(items) => forall|i: int|
            0 <= i < items.len() ==> tree_is_safe(#[trigger] items[i]),
        JsonView::Object(members) => members.dom().finite() && forall|key: Seq<char>|
            members.dom().contains(key) ==> tree_is_safe(#[trigger] members[key]),
        _ => true,
    }
}

/// A tree is safe where its integers are: an integer if its magnitude is below two
/// to the power of fifty-three, an array or object of which all parts are.
pub proof fn law_safe_trees(tree: JsonView)
    ensures
        tree matches JsonView::Number(NumberView::Int(i)) ==> (tree_is_safe(tree)
            <==> -0x20_0000_0000_0000 < i < 0x20_0000_0000_0000),
        tree matches JsonView::Array(items) ==> (tree_is_safe(tree) <==> forall|i: int|
            0 <= i < items.len() ==> tree_is_safe(#[trigger] items[i])),
        tree matches JsonView::Object(members) ==> members.dom().finite() ==> (tree_is_safe(tree)
            <==> forall|key: Seq<char>|
            members.dom().contains(key) ==> tree_is_safe(#[trigger] members[key])),
{
}

/// What null, a bool, a text and a finite floating point number are serialized
/// to is safe for JavaScript.
pub proof fn law_scalar_is_safe(b: bool, text: Seq<char>, bits: u64)
    ensures
        tree_is_safe(JsonView::Null),
        tree_is_safe(JsonView::Bool(b)),
        tree_is_safe(JsonView::String(text)),
        tree_is_safe(JsonView::Number(NumberView::Float(bits))),
{
}

/// Whatever integer is serialized, the result is safe for JavaScript.
pub proof fn law_integer_is_safe(i: int)
    ensures
        tree_is_safe(integer_view(i)),
{
    if !is_js_safe(i) {
        law_variant_stays_safe("$bigint"@, JsonView::String(decimal(i)));
    }
}

/// A floating point number that is not finite is serialized to what is safe for
/// JavaScript.
pub proof fn law_non_finite_is_safe(kind: Seq<char>, negative: bool)
    ensures
        tree_is_safe(non_finite_view(kind, negative)),
{
    let members = non_finite_view(kind, negative)->Object_0;
    assert(members.dom() =~= non_finite_flags(kind, negative));
    assert forall|flag: Seq<char>| members.dom().contains(flag) implies tree_is_safe(
        #[trigger] members[flag],
    ) by {
        assert(members[flag] == JsonView::Bool(true));
    }
}

/// Serialized bytes are safe for JavaScript.
pub proof fn law_bytes_are_safe(bytes: Seq<u8>)
    ensures
        tree_is_safe(bytes_view(bytes)),
{
    let items = bytes_view(bytes)->Array_0;
    assert forall|i: int| 0 <= i < items.len() implies tree_is_safe(#[trigger] items[i]) by {
        assert(items[i] == JsonView::Number(NumberView::Int(bytes[i] as int)));
    }
}

proof fn lemma_items_are_safe(tree: JsonView, i: int)
    requires
        tree is Array,
        tree_is_safe(tree),
        0 <= i < tree->Array_0.len(),
    ensures
        tree_is_safe(tree->Array_0[i]),
{
}

/// Appending a safe item keeps an array safe, and the empty array is safe.
pub proof fn law_array_stays_safe(items: Seq<JsonView>, item: JsonView)
    ensures
        tree_is_safe(JsonView::Array(seq![])),
        tree_is_safe(JsonView::Array(items)) && tree_is_safe(item) ==> tree_is_safe(
            JsonView::Array(items.push(item)),
        ),
{
    if tree_is_safe(JsonView::Array(items)) && tree_is_safe(item) {
        let longer = items.push(item);
        assert forall|i: int| 0 <= i < longer.len() implies tree_is_safe(#[trigger] longer[i]) by {
            if i < items.len() {
                lemma_items_are_safe(JsonView::Array(items), i);
            }
        }
    }
}

/// Adding a safe member keeps an object safe, and the empty object is safe.
pub proof fn law_object_stays_safe(
    members: Map<Seq<char>, JsonView>,
    key: Seq<char>,
    member: JsonView,
)
    ensures
        tree_is_safe(JsonView::Object(no_members())),
        tree_is_safe(JsonView::Object(members)) && tree_is_safe(member) ==> tree_is_safe(
            JsonView::Object(members.insert(key, member)),
        ),
{
}

/// An enum variant is safe for JavaScript if and only if its content is.
pub proof fn law_variant_stays_safe(tag: Seq<char>, content: JsonView)
    ensures
        tree_is_safe(tagged_view(tag, content)) <==> tree_is_safe(content),
{
    let members = tagged_view(tag, content)->Object_0;
    assert(members.dom().contains(tag) && members[tag] == content);
}

/// A response body that was written for a safe tree is read as a safe tree, if it
/// nests no deeper than can be read and its floating point numbers read back.
pub proof fn law_response_is_safe(body: InvokeResponseBody, tree: JsonView)
    requires
        writes(body, tree),
        tree_is_safe(tree),
        reads_back(tree, nesting_limit()),
    ensures
        body.json() matches Some(read) && tree_is_safe(read),
{
    law_response_reads_back(body, tree);
}

/// An integer that is sent as a response arrives as that integer where it is in
/// the safe range. Beyond it the response holds an object, of which no integer is
/// read.
pub proof fn law_integer_reads_back(body: InvokeResponseBody, i: i64)
    requires
        writes(body, integer_view(i as int)),
    ensures
        body.json() == Some(integer_view(i as int)),
        body.integer() == if is_js_safe(i as int) {
            Some(i as int)
        } else {
            None
        },
{
    let tree = integer_view(i as int);
    if !is_js_safe(i as int) {
        assert forall|key: Seq<char>| tree->Object_0.contains_key(key) implies reads_back(
            #[trigger] tree->Object_0[key],
            (nesting_limit() - 1) as nat,
        ) by {
            assert(tree->Object_0[key] is String);
        }
    }
    assert(reads_back(tree, nesting_limit()));
    law_response_reads_back(body, tree);
}

/// The order in which two members of different keys are added does not show.
pub proof fn law_member_order_does_not_show(
    members: Map<Seq<char>, JsonView>,
    first: Seq<char>,
    a: JsonView,
    second: Seq<char>,
    b: JsonView,
)
    requires
        first != second,
    ensures
        members.insert(first, a).insert(second, b) == members.insert(second, b).insert(first, a),
{
    assert(members.insert(first, a).insert(second, b) =~= members.insert(second, b).insert(
        first,
        a,
    ));
}

/// No two integers are serialized to the same JSON: nothing of their value is
/// lost.
pub proof fn law_integers_stay_apart(i: int, j: int)
    ensures
        integer_view(i) == integer_view(j) ==> i == j,
{
    if integer_view(i) == integer_view(j) && !is_js_safe(i) {
        assert(integer_view(i)->Object_0["$bigint"@] == JsonView::String(decimal(i)));
        assert(integer_view(j)->Object_0["$bigint"@] == JsonView::String(decimal(j)));
        law_decimal_denotes(i);
        law_decimal_denotes(j);
    }
}

/// NaN and the two infinities are serialized to three different objects, none of
/// which an integer is serialized to.
pub proof fn law_non_finite_stay_apart(i: int)
    ensures
        non_finite_view("$bigint_nan"@, false) != non_finite_view("$bigint_infinity"@, false),
        non_finite_view("$bigint_nan"@, false) != non_finite_view("$bigint_infinity"@, true),
        non_finite_view("$bigint_infinity"@, false) != non_finite_view("$bigint_infinity"@, true),
        integer_view(i) != non_finite_view("$bigint_nan"@, false),
        integer_view(i) != non_finite_view("$bigint_infinity"@, false),
        integer_view(i) != non_finite_view("$bigint_infinity"@, true),
{
    reveal_strlit("$bigint");
    reveal_strlit("$bigint_nan");
    reveal_strlit("$bigint_infinity");
    reveal_strlit("$bigint_negative");
    assert("$bigint"@.len() == 7);
    assert("$bigint_nan"@.len() == 11);
    assert("$bigint_infinity"@.len() == 16);
    assert("$bigint_negative"@.len() == 16 && "$bigint_negative"@[8] == 'n');
    assert("$bigint_infinity"@[8] == 'i');
    let nan = non_finite_view("$bigint_nan"@, false)->Object_0;
    let positive = non_finite_view("$bigint_infinity"@, false)->Object_0;
    let negative = non_finite_view("$bigint_infinity"@, true)->Object_0;
    assert(nan.dom().contains("$bigint_nan"@));
    assert(!positive.dom().contains("$bigint_nan"@));
    assert(negative.dom().contains("$bigint_infinity"@));
    assert(!nan.dom().contains("$bigint_infinity"@));
    assert(negative.dom().contains("$bigint_negative"@));
    assert(!positive.dom().contains("$bigint_negative"@));
    if !is_js_safe(i) {
        let integer = integer_view(i)->Object_0;
        assert(integer["$bigint"@] is String);
        assert(nan["$bigint"@] is Bool);
        assert(positive["$bigint"@] is Bool);
        assert(negative["$bigint"@] is Bool);
    }
}

/// An integer can be a map key if and only if it is in the safe range; its text
/// is then its decimal text.
pub proof fn law_integer_keys(i: int)
    ensures
        is_js_safe(i) ==> key_text(integer_view(i)) == Some(decimal(i)),
        !is_js_safe(i) ==> key_text(integer_view(i)) is None,
{
}

} // verus!
