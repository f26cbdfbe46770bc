//! Construction of tool parameter schemas.
//!
//! A tool schema describes a tool to a model's tool-configuration mechanism:
//! its name, a free-text description, and a parameter object whose properties
//! and required-field list are derived from the declared parameter names and
//! types of the underlying function.

use vstd::prelude::*;
use vstd::string::StringExecFns;

use crate::error::{AnchorChainError, ErrorV};
use crate::value::{Value, ValueV};

verus! {

/// A one-field object `{ "type": <kind> }`.
pub open spec fn spec_type_object(kind: Seq<char>) -> ValueV {
    ValueV::Object(seq![("type"@, ValueV::Text(kind))])
}

/// The schema type describing a declared parameter type, if the type is
/// supported: strings map to `string`, integer and floating-point numbers to
/// `number`, and `bool` to `boolean`.
pub open spec fn spec_schema_type(declared_type: Seq<char>) -> Option<ValueV> {
    if declared_type == "String"@ || declared_type == "str"@ {
        Some(spec_type_object("string"@))
    } else if declared_type == "i32"@ || declared_type == "i64"@ || declared_type == "f32"@ || declared_type
        == "f64"@ {
        Some(spec_type_object("number"@))
    } else if declared_type == "bool"@ {
        Some(spec_type_object("boolean"@))
    } else {
        None
    }
}

/// The property list of a tool schema: one named schema type per parameter,
/// in declaration order. Meaningful when every parameter type is supported.
pub open spec fn spec_properties(params: Seq<(Seq<char>, Seq<char>)>) -> Seq<(Seq<char>, ValueV)> {
    Seq::new(params.len(), |i: int| (params[i].0, spec_schema_type(params[i].1)->Some_0))
}

/// The required-field list of a tool schema: every parameter name, in
/// declaration order.
pub open spec fn spec_required(params: Seq<(Seq<char>, Seq<char>)>) -> Seq<ValueV> {
    Seq::new(params.len(), |i: int| ValueV::Text(params[i].0))
}

/// Whether every declared parameter type is supported.
pub open spec fn spec_params_supported(params: Seq<(Seq<char>, Seq<char>)>) -> bool {
    forall|i: int| 0 <= i < params.len() ==> (#[trigger] spec_schema_type(params[i].1)) is Some
}

/// The schema handed to a model's tool-configuration mechanism for a tool
/// with the given name, description and parameters.
pub open spec fn spec_tool_schema(
    name: Seq<char>,
    description: Seq<char>,
    params: Seq<(Seq<char>, Seq<char>)>,
) -> ValueV {
    ValueV::Object(
        seq![
            ("name"@, ValueV::Text(name)),
            ("description"@, ValueV::Text(description)),
            (
                "input_schema"@,
                ValueV::Object(
                    seq![
                        ("type"@, ValueV::Text("object"@)),
                        ("properties"@, ValueV::Object(spec_properties(params))),
                        ("required"@, ValueV::Array(spec_required(params))),
                    ],
                ),
            ),
        ],
    )
}

fn type_object(kind: &str) -> (r: Value)
    ensures
        r.deep_view() == spec_type_object(kind@),
{
    let mut fields: Vec<(String, Value)> = Vec::new();
    fields.push((String::from_str("type"), Value::Text(String::from_str(kind))));
    let r = Value::Object(fields);
    proof {
        assert(fields@.len() == 1);
        assert(fields@[0].0@ == "type"@);
        assert(fields@[0].1.deep_view() == ValueV::Text(kind@));
        assert(crate::value::deep_view_fields(fields@) =~= seq![("type"@, ValueV::Text(kind@))]);
    }
    r
}

/// The schema type for one declared parameter type, or an error naming the
/// type when it is not supported.
pub fn schema_type_for(declared_type: &String) -> (r: Result<Value, AnchorChainError>)
    ensures
        match spec_schema_type(declared_type@) {
            Some(v) => r matches Ok(val) && val.deep_view() == v,
            None => r matches Err(e) && e.deep_view() == ErrorV::InvalidInput(
                "Unsupported argument type: "@ + declared_type@,
            ),
        },
{
    if *declared_type == String::from_str("String") || *declared_type == String::from_str("str") {
        Ok(type_object("string"))
    } else if *declared_type == String::from_str("i32") || *declared_type == String::from_str("i64")
        || *declared_type == String::from_str("f32") || *declared_type == String::from_str("f64") {
        Ok(type_object("number"))
    } else if *declared_type == String::from_str("bool") {
        Ok(type_object("boolean"))
    } else {
        let mut m = String::new();
        m.append("Unsupported argument type: ");
        m.append(declared_type.as_str());
        proof {
            assert(m@ =~= "Unsupported argument type: "@ + declared_type@);
        }
        Err(AnchorChainError::InvalidInputError(m))
    }
}

/// Builds the schema for a tool derived from a function: `params` lists the
/// function's parameters as name and declared type, in order. Fails on the
/// first parameter whose type is not supported.
pub fn build_tool_schema(name: String, description: String, params: Vec<(String, String)>) -> (r:
    Result<Value, AnchorChainError>)
    ensures
        spec_params_supported(params.deep_view()) ==> (r matches Ok(v) && v.deep_view()
            == spec_tool_schema(name@, description@, params.deep_view())),
        !spec_params_supported(params.deep_view()) ==> (r matches Err(e) && (exists|i: int|
            0 <= i < params.deep_view().len() && spec_schema_type(
                #[trigger] params.deep_view()[i].1,
            ) is None && (forall|j: int|
                0 <= j < i ==> spec_schema_type(#[trigger] params.deep_view()[j].1) is Some)
                && e.deep_view() == ErrorV::InvalidInput(
                "Unsupported argument type: "@ + params.deep_view()[i].1,
            ))),
{
    let ghost pv = params.deep_view();
    let n = params.len();
    let mut properties: Vec<(String, Value)> = Vec::new();
    let mut required: Vec<Value> = Vec::new();
    let mut i: usize = 0;
    while i < n
        invariant
            n == params@.len(),
            pv == params.deep_view(),
            i <= n,
            forall|j: int| 0 <= j < i ==> (#[trigger] spec_schema_type(pv[j].1)) is Some,
            crate::value::deep_view_fields(properties@) =~= spec_properties(pv.take(i as int)),
            crate::value::deep_view_items(required@) =~= spec_required(pv.take(i as int)),
        decreases n - i,
    {
        let ghost props_prev = crate::value::deep_view_fields(properties@);
        let ghost req_prev = crate::value::deep_view_items(required@);
        match schema_type_for(&params[i].1) {
            Ok(v) => {
                let ghost dv = v.deep_view();
                properties.push((params[i].0.clone(), v));
                required.push(Value::Text(params[i].0.clone()));
                proof {
                    assert(crate::value::deep_view_fields(properties@) =~= props_prev.push(
                        (pv[i as int].0, dv),
                    ));
                    assert(crate::value::deep_view_fields(properties@) =~= spec_properties(
                        pv.take(i + 1),
                    ));
                    assert(crate::value::deep_view_items(required@) =~= req_prev.push(
                        ValueV::Text(pv[i as int].0),
                    ));
                    assert(crate::value::deep_view_items(required@) =~= spec_required(
                        pv.take(i + 1),
                    ));
                }
            },
            Err(e) => {
                proof {
                    assert(spec_schema_type(pv[i as int].1) is None);
                }
                return Err(e);
            },
        }
        i += 1;
    }
    proof {
        assert(pv.take(n as int) =~= pv);
        assert(spec_params_supported(pv));
    }
    let mut input_schema_fields: Vec<(String, Value)> = Vec::new();
    input_schema_fields.push((String::from_str("type"), Value::Text(String::from_str("object"))));
    input_schema_fields.push((String::from_str("properties"), Value::Object(properties)));
    input_schema_fields.push((String::from_str("required"), Value::Array(required)));
    let input_schema = Value::Object(input_schema_fields);
    proof {
        assert(input_schema_fields@.len() == 3);
        assert(input_schema_fields@[0].0@ == "type"@);
        assert(input_schema_fields@[0].1.deep_view() == ValueV::Text("object"@));
        assert(input_schema_fields@[1].0@ == "properties"@);
        assert(input_schema_fields@[1].1.deep_view() == ValueV::Object(spec_properties(pv)));
        assert(input_schema_fields@[2].0@ == "required"@);
        assert(input_schema_fields@[2].1.deep_view() == ValueV::Array(spec_required(pv)));
        assert(crate::value::deep_view_fields(input_schema_fields@) =~= seq![
            ("type"@, ValueV::Text("object"@)),
            ("properties"@, ValueV::Object(spec_properties(pv))),
            ("required"@, ValueV::Array(spec_required(pv))),
        ]);
    }
    let ghost isv = input_schema.deep_view();
    let mut fields: Vec<(String, Value)> = Vec::new();
    fields.push((String::from_str("name"), Value::Text(name)));
    fields.push((String::from_str("description"), Value::Text(description)));
    fields.push((String::from_str("input_schema"), input_schema));
    let r = Value::Object(fields);
    proof {
        assert(fields@.len() == 3);
        assert(fields@[0].0@ == "name"@ && fields@[0].1.deep_view() == ValueV::Text(name@));
        assert(fields@[1].0@ == "description"@ && fields@[1].1.deep_view() == ValueV::Text(
            description@,
        ));
        assert(fields@[2].0@ == "input_schema"@ && fields@[2].1.deep_view() == isv);
        assert(crate::value::deep_view_fields(fields@) =~= seq![
            ("name"@, ValueV::Text(name@)),
            ("description"@, ValueV::Text(description@)),
            ("input_schema"@, isv),
        ]);
    }
    Ok(r)
}

} // verus!
