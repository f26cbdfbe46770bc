//! A generic structured value: a JSON-like tree.
//!
//! Tool callables accept and return values of this type, and tool schemas are
//! written in it. Numbers are carried as integers; where an outside service
//! speaks another structured-value dialect, the boundary code converts at the
//! edge.

use vstd::prelude::*;

use crate::node::Duplicable;

verus! {

broadcast use vstd::std_specs::vec::group_vec_axioms, vstd::seq::group_seq_axioms;

/// Mathematical mirror of [`Value`], with strings as character sequences.
pub ghost enum ValueV {
    /// The null value.
    Null,
    /// A boolean.
    Bool(bool),
    /// A signed integer.
    Int(i64),
    /// An unsigned integer.
    UInt(u64),
    /// A string.
    Text(Seq<char>),
    /// An ordered list of values.
    Array(Seq<ValueV>),
    /// An ordered list of named fields.
    Object(Seq<(Seq<char>, ValueV)>),
}

/// A generic structured value: null, boolean, number, string, array or
/// object. Object fields keep their order.
pub enum Value {
    /// The null value.
    Null,
    /// A boolean.
    Bool(bool),
    /// A signed integer.
    Int(i64),
    /// An unsigned integer.
    UInt(u64),
    /// A string.
    Text(String),
    /// An ordered list of values.
    Array(Vec<Value>),
    /// An ordered list of named fields.
    Object(Vec<(String, Value)>),
}

/// The views of a sequence of values, element by element.
pub open spec fn deep_view_items(s: Seq<Value>) -> Seq<ValueV>
    decreases s,
{
    Seq::new(
        s.len(),
        |i: int|
            if 0 <= i < s.len() {
                s[i].deep_view()
            } else {
                ValueV::Null
            },
    )
}

/// The views of a sequence of named fields, element by element.
pub open spec fn deep_view_fields(s: Seq<(String, Value)>) -> Seq<(Seq<char>, ValueV)>
    decreases s,
{
    Seq::new(
        s.len(),
        |i: int|
            if 0 <= i < s.len() {
                (s[i].0@, s[i].1.deep_view())
            } else {
                (Seq::empty(), ValueV::Null)
            },
    )
}

impl DeepView for Value {
    type V = ValueV;

    open spec fn deep_view(&self) -> ValueV
        decreases self,
    {
        match self {
            Value::Null => ValueV::Null,
            Value::Bool(b) => ValueV::Bool(*b),
            Value::Int(n) => ValueV::Int(*n),
            Value::UInt(n) => ValueV::UInt(*n),
            Value::Text(s) => ValueV::Text(s@),
            Value::Array(items) => ValueV::Array(deep_view_items(items@)),
            Value::Object(fields) => ValueV::Object(deep_view_fields(fields@)),
        }
    }
}

/// The value of the first field named `k`, if any.
pub open spec fn spec_field(fields: Seq<(Seq<char>, ValueV)>, k: Seq<char>) -> Option<ValueV>
    decreases fields.len(),
{
    if fields.len() == 0 {
        None
    } else if fields.first().0 == k {
        Some(fields.first().1)
    } else {
        spec_field(fields.drop_first(), k)
    }
}

/// The value of the first field named `k` of an object value, if `v` is an
/// object and has such a field.
pub open spec fn spec_get(v: ValueV, k: Seq<char>) -> Option<ValueV> {
    match v {
        ValueV::Object(fields) => spec_field(fields, k),
        _ => None,
    }
}

impl Value {
    /// Returns the value of the first field named `key`, when `self` is an
    /// object that has one.
    pub fn get<'a>(&'a self, key: &String) -> (r: Option<&'a Value>)
        ensures
            match r {
                Some(v) => spec_get(self.deep_view(), key@) == Some(v.deep_view()),
                None => spec_get(self.deep_view(), key@) is None,
            },
    {
        match self {
            Value::Object(fields) => {
                let n = fields.len();
                let mut i: usize = 0;
                while i < n
                    invariant
                        n == fields@.len(),
                        i <= n,
                        forall|j: int| 0 <= j < i ==> fields@[j].0@ != key@,
                        spec_get(self.deep_view(), key@) == spec_field(
                            deep_view_fields(fields@),
                            key@,
                        ),
                    decreases n - i,
                {
                    if fields[i].0 == *key {
                        proof {
                            lemma_spec_field_at(deep_view_fields(fields@), key@, i as int);
                        }
                        return Some(&fields[i].1);
                    }
                    i += 1;
                }
                proof {
                    lemma_spec_field_absent(deep_view_fields(fields@), key@);
                }
                None
            },
            _ => None,
        }
    }
}

proof fn lemma_spec_field_at(fields: Seq<(Seq<char>, ValueV)>, k: Seq<char>, i: int)
    requires
        0 <= i < fields.len(),
        fields[i].0 == k,
        forall|j: int| 0 <= j < i ==> fields[j].0 != k,
    ensures
        spec_field(fields, k) == Some(fields[i].1),
    decreases fields.len(),
{
    if i > 0 {
        lemma_spec_field_at(fields.drop_first(), k, i - 1);
    }
}

proof fn lemma_spec_field_absent(fields: Seq<(Seq<char>, ValueV)>, k: Seq<char>)
    requires
        forall|j: int| 0 <= j < fields.len() ==> fields[j].0 != k,
    ensures
        spec_field(fields, k) is None,
    decreases fields.len(),
{
    if fields.len() > 0 {
        lemma_spec_field_absent(fields.drop_first(), k);
    }
}

/// Whether a named field is not the object-kind marker field.
pub open spec fn spec_not_type_field(p: (Seq<char>, ValueV)) -> bool {
    p.0 != "type"@
}

/// The field filter keeping everything but the object-kind marker field.
pub open spec fn spec_not_type_pred() -> spec_fn((Seq<char>, ValueV)) -> bool {
    |p: (Seq<char>, ValueV)| spec_not_type_field(p)
}

/// The views of a sequence of values after tagging each element.
pub open spec fn spec_tag_items(items: Seq<ValueV>) -> Seq<ValueV>
    decreases items,
{
    Seq::new(
        items.len(),
        |i: int|
            if 0 <= i < items.len() {
                spec_tag(items[i])
            } else {
                ValueV::Null
            },
    )
}

/// The fields of an object after tagging each field value.
pub open spec fn spec_tag_fields(fields: Seq<(Seq<char>, ValueV)>) -> Seq<(Seq<char>, ValueV)>
    decreases fields,
{
    Seq::new(
        fields.len(),
        |i: int|
            if 0 <= i < fields.len() {
                (fields[i].0, spec_tag(fields[i].1))
            } else {
                (Seq::empty(), ValueV::Null)
            },
    )
}

/// The view of [`Value::tag_objects`]: every object, recursively, has its
/// existing marker fields replaced by one final `type: object` field.
pub open spec fn spec_tag(v: ValueV) -> ValueV
    decreases v,
{
    match v {
        ValueV::Array(items) => ValueV::Array(spec_tag_items(items)),
        ValueV::Object(fields) => ValueV::Object(
            spec_tag_fields(fields).filter(spec_not_type_pred()).push(
                ("type"@, ValueV::Text("object"@)),
            ),
        ),
        _ => v,
    }
}

/// The views of a sequence of values after untagging each element.
pub open spec fn spec_untag_items(items: Seq<ValueV>) -> Seq<ValueV>
    decreases items,
{
    Seq::new(
        items.len(),
        |i: int|
            if 0 <= i < items.len() {
                spec_untag(items[i])
            } else {
                ValueV::Null
            },
    )
}

/// The fields of an object after untagging each field value.
pub open spec fn spec_untag_fields(fields: Seq<(Seq<char>, ValueV)>) -> Seq<(Seq<char>, ValueV)>
    decreases fields,
{
    Seq::new(
        fields.len(),
        |i: int|
            if 0 <= i < fields.len() {
                (fields[i].0, spec_untag(fields[i].1))
            } else {
                (Seq::empty(), ValueV::Null)
            },
    )
}

/// The view of [`Value::untag_objects`]: every object, recursively, has its
/// marker fields removed.
pub open spec fn spec_untag(v: ValueV) -> ValueV
    decreases v,
{
    match v {
        ValueV::Array(items) => ValueV::Array(spec_untag_items(items)),
        ValueV::Object(fields) => ValueV::Object(
            spec_untag_fields(fields).filter(spec_not_type_pred()),
        ),
        _ => v,
    }
}

impl Value {
    /// Marks every object of the value, recursively, with a final
    /// `type: object` field, replacing any marker field already present.
    /// Structured-value dialects of tool-configuration mechanisms expect
    /// objects marked this way.
    #[verifier::loop_isolation(false)]
    pub fn tag_objects(&self) -> (r: Value)
        ensures
            r.deep_view() == spec_tag(self.deep_view()),
        decreases self,
    {
        match self {
            Value::Null => Value::Null,
            Value::Bool(b) => Value::Bool(*b),
            Value::Int(n) => Value::Int(*n),
            Value::UInt(n) => Value::UInt(*n),
            Value::Text(s) => Value::Text(s.clone()),
            Value::Array(items) => {
                let n = items.len();
                let mut out: Vec<Value> = Vec::new();
                let mut i: usize = 0;
                while i < n
                    invariant
                        i <= n,
                        out@.len() == i,
                        forall|j: int| 0 <= j < i ==> #[trigger] out@[j].deep_view() == spec_tag(
                            items@[j].deep_view(),
                        ),
                    decreases n - i,
                {
                    proof {
                        assert(decreases_to!(self => items@[i as int]));
                    }
                    out.push(items[i].tag_objects());
                    i += 1;
                }
                let r = Value::Array(out);
                proof {
                    let inner = deep_view_items(items@);
                    assert(self.deep_view() == ValueV::Array(inner));
                    assert forall|j: int| 0 <= j < inner.len() implies #[trigger] deep_view_items(
                        out@,
                    )[j] == spec_tag(inner[j]) by {
                        assert(inner[j] == items@[j].deep_view());
                        assert(out@[j].deep_view() == spec_tag(items@[j].deep_view()));
                    }
                    assert(deep_view_items(out@) =~= spec_tag_items(inner));
                }
                r
            },
            Value::Object(fields) => {
                let ghost mapped = spec_tag_fields(deep_view_fields(fields@));
                let type_key = String::from_str("type");
                let n = fields.len();
                let mut out: Vec<(String, Value)> = Vec::new();
                proof {
                    reveal(Seq::filter);
                    assert(mapped.take(0).filter(spec_not_type_pred()) =~= Seq::<
                        (Seq<char>, ValueV),
                    >::empty());
                }
                let mut i: usize = 0;
                while i < n
                    invariant
                        i <= n,
                        type_key@ == "type"@,
                        deep_view_fields(out@) =~= mapped.take(i as int).filter(spec_not_type_pred()),
                    decreases n - i,
                {
                    let ghost prev = deep_view_fields(out@);
                    proof {
                        reveal(Seq::filter);
                        let pred = spec_not_type_pred();
                        let single = seq![mapped[i as int]];
                        assert(pred(mapped[i as int]) == spec_not_type_field(mapped[i as int]));
                        assert(single.last() == mapped[i as int]);
                        assert(mapped.take(i + 1) =~= mapped.take(i as int) + single);
                        Seq::filter_distributes_over_add(mapped.take(i as int), single, pred);
                        assert(single.drop_last() =~= Seq::<(Seq<char>, ValueV)>::empty());
                        assert(Seq::<(Seq<char>, ValueV)>::empty().filter(pred) =~= Seq::<
                            (Seq<char>, ValueV),
                        >::empty());
                        if spec_not_type_field(mapped[i as int]) {
                            assert(single.filter(pred) =~= single);
                            assert(mapped.take(i + 1).filter(pred) =~= mapped.take(
                                i as int,
                            ).filter(pred).push(mapped[i as int]));
                        } else {
                            assert(single.filter(pred) =~= Seq::<(Seq<char>, ValueV)>::empty());
                            assert(mapped.take(i + 1).filter(pred) =~= mapped.take(
                                i as int,
                            ).filter(pred));
                        }
                    }
                    if !(fields[i].0 == type_key) {
                        proof {
                            assert(decreases_to!(self => fields@[i as int].1));
                        }
                        let name = fields[i].0.clone();
                        let tagged = fields[i].1.tag_objects();
                        let ghost entry = (name@, tagged.deep_view());
                        out.push((name, tagged));
                        proof {
                            assert(entry == mapped[i as int]);
                            assert(spec_not_type_field(mapped[i as int]));
                            assert(deep_view_fields(out@) =~= prev.push(entry));
                        }
                    } else {
                        proof {
                            assert(!spec_not_type_field(mapped[i as int]));
                        }
                    }
                    i += 1;
                }
                proof {
                    assert(mapped.take(n as int) =~= mapped);
                }
                let ghost filtered = deep_view_fields(out@);
                let mut tagged_out = out;
                tagged_out.push((String::from_str("type"), Value::Text(String::from_str("object"))));
                let r = Value::Object(tagged_out);
                proof {
                    assert(deep_view_fields(tagged_out@) =~= filtered.push(
                        ("type"@, ValueV::Text("object"@)),
                    ));
                    let inner = deep_view_fields(fields@);
                    assert(self.deep_view() == ValueV::Object(inner));
                    assert(r.deep_view() == spec_tag(self.deep_view()));
                }
                r
            },
        }
    }

    /// Removes every marker field added by [`Value::tag_objects`] from every
    /// object of the value, recursively.
    #[verifier::loop_isolation(false)]
    pub fn untag_objects(&self) -> (r: Value)
        ensures
            r.deep_view() == spec_untag(self.deep_view()),
        decreases self,
    {
        match self {
            Value::Null => Value::Null,
            Value::Bool(b) => Value::Bool(*b),
            Value::Int(n) => Value::Int(*n),
            Value::UInt(n) => Value::UInt(*n),
            Value::Text(s) => Value::Text(s.clone()),
            Value::Array(items) => {
                let n = items.len();
                let mut out: Vec<Value> = Vec::new();
                let mut i: usize = 0;
                while i < n
                    invariant
                        i <= n,
                        out@.len() == i,
                        forall|j: int| 0 <= j < i ==> #[trigger] out@[j].deep_view() == spec_untag(
                            items@[j].deep_view(),
                        ),
                    decreases n - i,
                {
                    proof {
                        assert(decreases_to!(self => items@[i as int]));
                    }
                    out.push(items[i].untag_objects());
                    i += 1;
                }
                let r = Value::Array(out);
                proof {
                    let inner = deep_view_items(items@);
                    assert(self.deep_view() == ValueV::Array(inner));
                    assert forall|j: int| 0 <= j < inner.len() implies #[trigger] deep_view_items(
                        out@,
                    )[j] == spec_untag(inner[j]) by {
                        assert(inner[j] == items@[j].deep_view());
                        assert(out@[j].deep_view() == spec_untag(items@[j].deep_view()));
                    }
                    assert(deep_view_items(out@) =~= spec_untag_items(inner));
                }
                r
            },
            Value::Object(fields) => {
                let ghost mapped = spec_untag_fields(deep_view_fields(fields@));
                let type_key = String::from_str("type");
                let n = fields.len();
                let mut out: Vec<(String, Value)> = Vec::new();
                proof {
                    reveal(Seq::filter);
                    assert(mapped.take(0).filter(spec_not_type_pred()) =~= Seq::<
                        (Seq<char>, ValueV),
                    >::empty());
                }
                let mut i: usize = 0;
                while i < n
                    invariant
                        i <= n,
                        type_key@ == "type"@,
                        deep_view_fields(out@) =~= mapped.take(i as int).filter(spec_not_type_pred()),
                    decreases n - i,
                {
                    let ghost prev = deep_view_fields(out@);
                    proof {
                        reveal(Seq::filter);
                        let pred = spec_not_type_pred();
                        let single = seq![mapped[i as int]];
                        assert(pred(mapped[i as int]) == spec_not_type_field(mapped[i as int]));
                        assert(single.last() == mapped[i as int]);
                        assert(mapped.take(i + 1) =~= mapped.take(i as int) + single);
                        Seq::filter_distributes_over_add(mapped.take(i as int), single, pred);
                        assert(single.drop_last() =~= Seq::<(Seq<char>, ValueV)>::empty());
                        assert(Seq::<(Seq<char>, ValueV)>::empty().filter(pred) =~= Seq::<
                            (Seq<char>, ValueV),
                        >::empty());
                        if spec_not_type_field(mapped[i as int]) {
                            assert(single.filter(pred) =~= single);
                            assert(mapped.take(i + 1).filter(pred) =~= mapped.take(
                                i as int,
                            ).filter(pred).push(mapped[i as int]));
                        } else {
                            assert(single.filter(pred) =~= Seq::<(Seq<char>, ValueV)>::empty());
                            assert(mapped.take(i + 1).filter(pred) =~= mapped.take(
                                i as int,
                            ).filter(pred));
                        }
                    }
                    if !(fields[i].0 == type_key) {
                        proof {
                            assert(decreases_to!(self => fields@[i as int].1));
                        }
                        let name = fields[i].0.clone();
                        let untagged = fields[i].1.untag_objects();
                        let ghost entry = (name@, untagged.deep_view());
                        out.push((name, untagged));
                        proof {
                            assert(entry == mapped[i as int]);
                            assert(spec_not_type_field(mapped[i as int]));
                            assert(deep_view_fields(out@) =~= prev.push(entry));
                        }
                    } else {
                        proof {
                            assert(!spec_not_type_field(mapped[i as int]));
                        }
                    }
                    i += 1;
                }
                proof {
                    assert(mapped.take(n as int) =~= mapped);
                }
                let r = Value::Object(out);
                proof {
                    let inner = deep_view_fields(fields@);
                    assert(self.deep_view() == ValueV::Object(inner));
                    assert(r.deep_view() == spec_untag(self.deep_view()));
                }
                r
            },
        }
    }
}

/// Whether no object of the value, recursively, carries a marker field of
/// its own.
pub open spec fn spec_marker_free(v: ValueV) -> bool
    decreases v,
{
    match v {
        ValueV::Array(items) => forall|i: int|
            0 <= i < items.len() ==> spec_marker_free(#[trigger] items[i]),
        ValueV::Object(fields) => forall|i: int|
            0 <= i < fields.len() ==> spec_not_type_field(#[trigger] fields[i])
                && spec_marker_free(fields[i].1),
        _ => true,
    }
}

proof fn lemma_filter_all_pass(s: Seq<(Seq<char>, ValueV)>)
    requires
        forall|i: int| 0 <= i < s.len() ==> spec_not_type_field(#[trigger] s[i]),
    ensures
        s.filter(spec_not_type_pred()) == s,
    decreases s.len(),
{
    reveal(Seq::filter);
    if s.len() > 0 {
        assert(forall|i: int| 0 <= i < s.len() - 1 ==> s.drop_last()[i] == s[i]);
        lemma_filter_all_pass(s.drop_last());
        assert(spec_not_type_pred()(s.last()) == spec_not_type_field(s.last()));
        assert(s.filter(spec_not_type_pred()) =~= s);
    }
}

/// Tagging and untagging are inverse on values without marker fields of
/// their own: what [`Value::tag_objects`] adds, [`Value::untag_objects`]
/// removes, leaving the value as it was.
pub proof fn lemma_untag_tag_round_trip(v: ValueV)
    requires
        spec_marker_free(v),
    ensures
        spec_untag(spec_tag(v)) == v,
    decreases v,
{
    reveal(Seq::filter);
    match v {
        ValueV::Array(items) => {
            let tagged = spec_tag_items(items);
            assert forall|i: int| 0 <= i < tagged.len() implies #[trigger] spec_untag_items(
                tagged,
            )[i] == items[i] by {
                assert(spec_marker_free(items[i]));
                lemma_untag_tag_round_trip(items[i]);
            }
            assert(spec_untag_items(tagged) =~= items);
        },
        ValueV::Object(fields) => {
            let tagged_fields = spec_tag_fields(fields);
            assert forall|i: int|
                0 <= i < tagged_fields.len() implies spec_not_type_field(
                #[trigger] tagged_fields[i],
            ) by {
                assert(spec_not_type_field(fields[i]));
            }
            lemma_filter_all_pass(tagged_fields);
            let pair = ("type"@, ValueV::Text("object"@));
            let tagged = tagged_fields.push(pair);
            assert(spec_tag(v) == ValueV::Object(tagged));
            let untagged = spec_untag_fields(tagged);
            assert forall|i: int| 0 <= i < tagged_fields.len() implies #[trigger] untagged[i] == (
                fields[i].0,
                fields[i].1,
            ) by {
                assert(tagged[i] == tagged_fields[i]);
                assert(tagged_fields[i] == (fields[i].0, spec_tag(fields[i].1)));
                assert(spec_marker_free(fields[i].1));
                lemma_untag_tag_round_trip(fields[i].1);
            }
            assert(untagged.drop_last() =~= Seq::new(
                fields.len(),
                |i: int|
                    if 0 <= i < fields.len() {
                        (fields[i].0, fields[i].1)
                    } else {
                        (Seq::empty(), ValueV::Null)
                    },
            ));
            assert(untagged.last() == (pair.0, spec_untag(pair.1)));
            assert(untagged =~= untagged.drop_last().push(untagged.last()));
            Seq::filter_distributes_over_add(
                untagged.drop_last(),
                seq![untagged.last()],
                spec_not_type_pred(),
            );
            assert(untagged.drop_last() + seq![untagged.last()] =~= untagged);
            assert(seq![untagged.last()].drop_last() =~= Seq::<(Seq<char>, ValueV)>::empty());
            assert(!spec_not_type_pred()(untagged.last()));
            assert(seq![untagged.last()].filter(spec_not_type_pred()) =~= Seq::<
                (Seq<char>, ValueV),
            >::empty());
            assert forall|i: int|
                0 <= i < untagged.drop_last().len() implies spec_not_type_field(
                #[trigger] untagged.drop_last()[i],
            ) by {
                assert(untagged.drop_last()[i] == (fields[i].0, fields[i].1));
                assert(spec_not_type_field(fields[i]));
            }
            lemma_filter_all_pass(untagged.drop_last());
            assert(untagged.filter(spec_not_type_pred()) =~= untagged.drop_last());
            assert(untagged.drop_last() =~= fields);
            assert(spec_untag(spec_tag(v)) == ValueV::Object(
                untagged.filter(spec_not_type_pred()),
            ));
        },
        _ => {
        },
    }
}

impl Clone for Value {
    /// Returns a value with the same view as `self`.
    #[verifier::loop_isolation(false)]
    fn clone(&self) -> (res: Value)
        ensures
            res.deep_view() == self.deep_view(),
        decreases self,
    {
        match self {
            Value::Null => Value::Null,
            Value::Bool(b) => Value::Bool(*b),
            Value::Int(n) => Value::Int(*n),
            Value::UInt(n) => Value::UInt(*n),
            Value::Text(s) => Value::Text(s.clone()),
            Value::Array(items) => {
                let n = items.len();
                let mut out: Vec<Value> = Vec::new();
                let mut i: usize = 0;
                while i < n
                    invariant
                        n == items@.len(),
                        i <= n,
                        out@.len() == i,
                        forall|j: int| 0 <= j < i ==> #[trigger] out@[j].deep_view()
                            == items@[j].deep_view(),
                    decreases n - i,
                {
                    proof {
                        assert(decreases_to!(self => items@[i as int]));
                    }
                    out.push(items[i].clone());
                    i += 1;
                }
                proof {
                    assert(out@.len() == items@.len());
                    assert forall|j: int|
                        0 <= j < items@.len() implies deep_view_items(out@)[j]
                        == deep_view_items(items@)[j] by {
                        assert(deep_view_items(out@)[j] == out@[j].deep_view());
                        assert(deep_view_items(items@)[j] == items@[j].deep_view());
                    }
                    assert(deep_view_items(out@) =~= deep_view_items(items@));
                }
                Value::Array(out)
            },
            Value::Object(fields) => {
                let n = fields.len();
                let mut out: Vec<(String, Value)> = Vec::new();
                let mut i: usize = 0;
                while i < n
                    invariant
                        n == fields@.len(),
                        i <= n,
                        out@.len() == i,
                        forall|j: int| 0 <= j < i ==> (#[trigger] out@[j].0)@ == fields@[j].0@
                            && out@[j].1.deep_view() == fields@[j].1.deep_view(),
                    decreases n - i,
                {
                    proof {
                        assert(decreases_to!(self => fields@[i as int].1));
                    }
                    let name = fields[i].0.clone();
                    let value = fields[i].1.clone();
                    out.push((name, value));
                    i += 1;
                }
                proof {
                    assert(deep_view_fields(out@) =~= deep_view_fields(fields@));
                }
                Value::Object(out)
            },
        }
    }
}

impl Duplicable for Value {
    fn dup(&self) -> (r: Self)
        ensures
            r.deep_view() == self.deep_view(),
    {
        self.clone()
    }
}

} // verus!
