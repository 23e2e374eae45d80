//! Generic JSON value trees and the spec-level vocabulary used by the
//! decoder and encoder contracts: deep views of value trees, first-match
//! lookup in an object's entry list, and detection of keys outside a schema.

use vstd::prelude::*;

verus! {

broadcast use vstd::std_specs::vec::axiom_vec_index_decreases;

/// A JSON value, as the decoder receives it and the encoder produces it.
///
/// Object entries keep their textual order; duplicate keys are kept as they
/// stand and lookup takes the first occurrence. A number that does not fit
/// `i64` is carried as `NonIntNumber`: the schema has no field that accepts
/// one, so decoding it always fails with a value error, and the encoder
/// never produces it.
pub enum JsonValue {
    Null,
    Bool(bool),
    Int(i64),
    NonIntNumber,
    Str(String),
    Arr(Vec<JsonValue>),
    Obj(Vec<(String, JsonValue)>),
}

/// The mathematical form of a JSON value: strings as character sequences,
/// arrays and objects as sequences.
#[verifier::ext_equal]
pub enum JsonVal {
    Null,
    Bool(bool),
    Int(i64),
    NonIntNumber,
    Str(Seq<char>),
    Arr(Seq<JsonVal>),
    Obj(Seq<(Seq<char>, JsonVal)>),
}

/// The view of a JSON value, defined structurally.
pub open spec fn jv_view(v: JsonValue) -> JsonVal
    decreases v,
{
    match v {
        JsonValue::Null => JsonVal::Null,
        JsonValue::Bool(b) => JsonVal::Bool(b),
        JsonValue::Int(i) => JsonVal::Int(i),
        JsonValue::NonIntNumber => JsonVal::NonIntNumber,
        JsonValue::Str(s) => JsonVal::Str(s@),
        JsonValue::Arr(a) => JsonVal::Arr(
            Seq::new(
                a@.len(),
                |i: int| if 0 <= i < a.len() {
                    jv_view(a[i])
                } else {
                    JsonVal::Null
                },
            ),
        ),
        JsonValue::Obj(es) => JsonVal::Obj(
            Seq::new(
                es@.len(),
                |i: int| if 0 <= i < es.len() {
                    (es[i].0@, jv_view(es[i].1))
                } else {
                    ("".view(), JsonVal::Null)
                },
            ),
        ),
    }
}

impl View for JsonValue {
    type V = JsonVal;

    open spec fn view(&self) -> JsonVal {
        jv_view(*self)
    }
}

/// Deep view of an object's entry list.
pub open spec fn entries_view(es: Seq<(String, JsonValue)>) -> Seq<(Seq<char>, JsonVal)> {
    Seq::new(es.len(), |i: int| (es[i].0@, es[i].1@))
}

/// The value of the first entry named `n`, if any.
pub open spec fn lookup(es: Seq<(Seq<char>, JsonVal)>, n: Seq<char>) -> Option<JsonVal>
    decreases es.len(),
{
    if es.len() == 0 {
        None
    } else if es[0].0 == n {
        Some(es[0].1)
    } else {
        lookup(es.skip(1), n)
    }
}

/// The first entry key that the schema predicate `allowed` refuses, if any.
pub open spec fn first_unknown(
    es: Seq<(Seq<char>, JsonVal)>,
    allowed: spec_fn(Seq<char>) -> bool,
) -> Option<Seq<char>>
    decreases es.len(),
{
    if es.len() == 0 {
        None
    } else if !allowed(es[0].0) {
        Some(es[0].0)
    } else {
        first_unknown(es.skip(1), allowed)
    }
}

/// The entry list a single field contributes: nothing when the value is
/// absent, one pair otherwise.
pub open spec fn opt_entry(n: Seq<char>, v: Option<JsonVal>) -> Seq<(Seq<char>, JsonVal)> {
    match v {
        None => seq![],
        Some(x) => seq![(n, x)],
    }
}

/// Deep view of an array's element list.
pub open spec fn list_view(a: Seq<JsonValue>) -> Seq<JsonVal> {
    Seq::new(a.len(), |i: int| a[i]@)
}

/// An array value's view is its element list's view.
pub proof fn lemma_arr_view(a: Vec<JsonValue>)
    ensures
        JsonValue::Arr(a)@ == JsonVal::Arr(list_view(a@)),
{
    let v = JsonValue::Arr(a);
    assert(v@ is Arr);
    assert(v@->Arr_0 =~= list_view(a@));
}

/// An object value's view is its entry list's view.
pub proof fn lemma_obj_view(es: Vec<(String, JsonValue)>)
    ensures
        JsonValue::Obj(es)@ == JsonVal::Obj(entries_view(es@)),
{
    let v = JsonValue::Obj(es);
    assert(v@ is Obj);
    assert(v@->Obj_0 =~= entries_view(es@));
}

/// Looking a name up in a concatenation tries the front part first.
pub broadcast proof fn lemma_lookup_append(
    a: Seq<(Seq<char>, JsonVal)>,
    b: Seq<(Seq<char>, JsonVal)>,
    n: Seq<char>,
)
    ensures
        #[trigger] lookup(a + b, n) == (match lookup(a, n) {
            Some(v) => Some(v),
            None => lookup(b, n),
        }),
    decreases a.len(),
{
    if a.len() == 0 {
        assert(a + b =~= b);
    } else {
        assert((a + b).skip(1) =~= a.skip(1) + b);
        lemma_lookup_append(a.skip(1), b, n);
    }
}

/// Looking a name up in a single field's contribution.
pub broadcast proof fn lemma_lookup_entry(n0: Seq<char>, v0: Option<JsonVal>, n: Seq<char>)
    ensures
        #[trigger] lookup(opt_entry(n0, v0), n) == (if n0 == n {
            v0
        } else {
            None
        }),
{
    match v0 {
        None => {
            let e = opt_entry(n0, v0);
            assert(e.len() == 0);
            assert(lookup(e, n) is None);
        },
        Some(x) => {
            reveal_with_fuel(lookup, 2);
            assert(seq![(n0, x)].skip(1) =~= Seq::<(Seq<char>, JsonVal)>::empty());
        },
    }
}

/// The first unknown key of a concatenation comes from the front part if
/// it has one.
pub broadcast proof fn lemma_first_unknown_append(
    a: Seq<(Seq<char>, JsonVal)>,
    b: Seq<(Seq<char>, JsonVal)>,
    allowed: spec_fn(Seq<char>) -> bool,
)
    ensures
        #[trigger] first_unknown(a + b, allowed) == (match first_unknown(a, allowed) {
            Some(k) => Some(k),
            None => first_unknown(b, allowed),
        }),
    decreases a.len(),
{
    if a.len() == 0 {
        assert(a + b =~= b);
    } else {
        assert((a + b).skip(1) =~= a.skip(1) + b);
        lemma_first_unknown_append(a.skip(1), b, allowed);
    }
}

/// The first unknown key of a single field's contribution.
pub broadcast proof fn lemma_first_unknown_entry(
    n0: Seq<char>,
    v0: Option<JsonVal>,
    allowed: spec_fn(Seq<char>) -> bool,
)
    ensures
        #[trigger] first_unknown(opt_entry(n0, v0), allowed) == (if v0 is Some
            && !allowed(n0) {
            Some(n0)
        } else {
            None
        }),
{
    match v0 {
        None => {
            let e = opt_entry(n0, v0);
            assert(e.len() == 0);
            assert(first_unknown(e, allowed) is None);
        },
        Some(x) => {
            reveal_with_fuel(first_unknown, 2);
            assert(seq![(n0, x)].skip(1) =~= Seq::<(Seq<char>, JsonVal)>::empty());
        },
    }
}

/// The looked-up value is the one at the first index carrying the name.
pub proof fn lemma_lookup_at(es: Seq<(Seq<char>, JsonVal)>, n: Seq<char>, i: int)
    requires
        0 <= i < es.len(),
        es[i].0 == n,
        forall|j: int| 0 <= j < i ==> (#[trigger] es[j]).0 != n,
    ensures
        lookup(es, n) == Some(es[i].1),
    decreases i,
{
    if i > 0 {
        lemma_lookup_at(es.skip(1), n, i - 1);
    }
}

/// A name carried by no entry looks up to nothing.
pub proof fn lemma_lookup_none(es: Seq<(Seq<char>, JsonVal)>, n: Seq<char>)
    requires
        forall|j: int| 0 <= j < es.len() ==> (#[trigger] es[j]).0 != n,
    ensures
        lookup(es, n) is None,
    decreases es.len(),
{
    if es.len() > 0 {
        lemma_lookup_none(es.skip(1), n);
    }
}

/// The first unknown key is the one at the first index outside `allowed`.
pub proof fn lemma_first_unknown_at(
    es: Seq<(Seq<char>, JsonVal)>,
    allowed: spec_fn(Seq<char>) -> bool,
    i: int,
)
    requires
        0 <= i < es.len(),
        !allowed(es[i].0),
        forall|j: int| 0 <= j < i ==> allowed((#[trigger] es[j]).0),
    ensures
        first_unknown(es, allowed) == Some(es[i].0),
    decreases i,
{
    if i > 0 {
        lemma_first_unknown_at(es.skip(1), allowed, i - 1);
    }
}

/// When every key is allowed there is no unknown key.
pub proof fn lemma_first_unknown_none(
    es: Seq<(Seq<char>, JsonVal)>,
    allowed: spec_fn(Seq<char>) -> bool,
)
    requires
        forall|j: int| 0 <= j < es.len() ==> allowed((#[trigger] es[j]).0),
    ensures
        first_unknown(es, allowed) is None,
    decreases es.len(),
{
    if es.len() > 0 {
        lemma_first_unknown_none(es.skip(1), allowed);
    }
}

} // verus!

