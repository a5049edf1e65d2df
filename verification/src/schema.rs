//! Tool parameter schemas: reading an MCP tool's JSON schema into a tool
//! definition, and writing the JSON schema object that the tool servers
//! announce.

use vstd::prelude::*;
use crate::json::{Json, lookup, JsonV, jv, jv_seq, jv_entries, jstr, get, get_str, get_array, get_object,
    lemma_jv_seq_len, lemma_jv_entries_len, lemma_jv_seq_push, lemma_jv_entries_push};
use crate::models::{ToolParameter, ToolParameterType, ToolParametersDefinition, ToolDefinition, str_seq,
    lemma_str_seq, lemma_str_seq_push};
use crate::text::{str_eq, to_owned};

verus! {

/// The parameter type that a JSON schema type name stands for; names
/// other than the six JSON types read as `string`.
pub open spec fn param_type_of(name: Seq<char>) -> ToolParameterType {
    if name == "string"@ {
        ToolParameterType::String
    } else if name == "integer"@ {
        ToolParameterType::Integer
    } else if name == "number"@ {
        ToolParameterType::Number
    } else if name == "boolean"@ {
        ToolParameterType::Boolean
    } else if name == "array"@ {
        ToolParameterType::Array
    } else if name == "object"@ {
        ToolParameterType::Object
    } else {
        ToolParameterType::String
    }
}

/// The parameter type that a JSON schema type name stands for.
pub fn parse_param_type(name: &str) -> (t: ToolParameterType)
    ensures
        t == param_type_of(name@),
{
    proof {
        reveal_strlit("string");
        reveal_strlit("integer");
        reveal_strlit("number");
        reveal_strlit("boolean");
        reveal_strlit("array");
        reveal_strlit("object");
    }
    if str_eq(name, "string") {
        ToolParameterType::String
    } else if str_eq(name, "integer") {
        ToolParameterType::Integer
    } else if str_eq(name, "number") {
        ToolParameterType::Number
    } else if str_eq(name, "boolean") {
        ToolParameterType::Boolean
    } else if str_eq(name, "array") {
        ToolParameterType::Array
    } else if str_eq(name, "object") {
        ToolParameterType::Object
    } else {
        ToolParameterType::String
    }
}

/// A parameter read from a schema property: its type (default `string`)
/// and description (default empty).
pub struct PropertySpec {
    pub param_type: ToolParameterType,
    pub description: Seq<char>,
}

/// What a schema property reads as, if it is an object.
pub open spec fn property_spec(v: JsonV) -> Option<PropertySpec> {
    match v {
        JsonV::Object(_) => Some(PropertySpec {
            param_type: param_type_of(match get_str(v, "type"@) { Some(t) => t, None => "string"@ }),
            description: match get_str(v, "description"@) { Some(d) => d, None => Seq::empty() },
        }),
        _ => None,
    }
}

/// The parameters read from the first `n` schema properties; properties
/// that are not objects are left out.
pub open spec fn property_specs(es: Seq<(Seq<char>, JsonV)>, n: nat) -> Seq<(Seq<char>, PropertySpec)>
    decreases n,
{
    if n == 0 {
        Seq::empty()
    } else {
        let prev = property_specs(es, (n - 1) as nat);
        match property_spec(es[n - 1].1) {
            Some(p) => prev.push((es[n - 1].0, p)),
            None => prev,
        }
    }
}

/// The strings among the first `n` values.
pub open spec fn string_items(a: Seq<JsonV>, n: nat) -> Seq<Seq<char>>
    decreases n,
{
    if n == 0 {
        Seq::empty()
    } else {
        match a[n - 1] {
            JsonV::String(s) => string_items(a, (n - 1) as nat).push(s),
            _ => string_items(a, (n - 1) as nat),
        }
    }
}

/// Whether a parameter is the plain one a schema property reads as.
pub open spec fn param_matches(p: ToolParameter, s: PropertySpec) -> bool {
    &&& p.param_type == s.param_type
    &&& p.description@ == s.description
    &&& p.enum_values is None
    &&& p.items is None
    &&& p.properties is None
    &&& p.required is None
}

/// Whether named parameters are those the specs describe, in order.
pub open spec fn params_match(ps: Seq<(String, ToolParameter)>, ss: Seq<(Seq<char>, PropertySpec)>) -> bool {
    &&& ps.len() == ss.len()
    &&& forall|i: int| 0 <= i < ps.len() ==> (#[trigger] ps[i]).0@ == ss[i].0 && param_matches(ps[i].1, ss[i].1)
}

/// The schema's properties read as parameters, if it has a `properties` object.
pub open spec fn schema_properties(schema: Seq<(Seq<char>, JsonV)>) -> Seq<(Seq<char>, PropertySpec)> {
    match get_object(JsonV::Object(schema), "properties"@) {
        Some(es) => property_specs(es, es.len()),
        None => Seq::empty(),
    }
}

/// The schema's required names, the strings of its `required` array.
pub open spec fn schema_required(schema: Seq<(Seq<char>, JsonV)>) -> Seq<Seq<char>> {
    match get_array(JsonV::Object(schema), "required"@) {
        Some(a) => string_items(a, a.len()),
        None => Seq::empty(),
    }
}

/// The parameter a schema property reads as.
fn property_to_param(v: &Json) -> (r: Option<ToolParameter>)
    ensures
        match property_spec(v@) {
            Some(s) => r matches Some(p) && param_matches(p, s),
            None => r is None,
        },
{
    proof { reveal_strlit("type"); reveal_strlit("description"); reveal_strlit("string"); }
    match v {
        Json::Object(_) => {
            let kind_name = match v.get("type") {
                Some(t) => match t.as_str() {
                    Some(s) => s,
                    None => "string",
                },
                None => "string",
            };
            let description = match v.get("description") {
                Some(d) => match d.as_str() {
                    Some(s) => to_owned(s),
                    None => String::new(),
                },
                None => String::new(),
            };
            Some(ToolParameter {
                param_type: parse_param_type(kind_name),
                description,
                enum_values: None,
                items: None,
                properties: None,
                required: None,
            })
        },
        _ => None,
    }
}

/// Whether no name occurs twice among named entries.
pub open spec fn distinct_names<T>(es: Seq<(Seq<char>, T)>) -> bool {
    forall|i: int, j: int| 0 <= i < j < es.len() ==> (#[trigger] es[i]).0 != (#[trigger] es[j]).0
}

/// Whether no name occurs twice among a tool's parameters.
pub open spec fn distinct_param_names(ps: Seq<(String, ToolParameter)>) -> bool {
    forall|i: int, j: int| 0 <= i < j < ps.len() ==> (#[trigger] ps[i]).0@ != (#[trigger] ps[j]).0@
}

/// Whether the schema's `properties` object, if it has one, names no
/// property twice.
pub open spec fn schema_names_distinct(schema: Seq<(Seq<char>, JsonV)>) -> bool {
    match get_object(JsonV::Object(schema), "properties"@) {
        Some(es) => distinct_names(es),
        None => true,
    }
}

/// The parameters read from a schema's properties keep the properties'
/// names, in order, so they name nothing twice where the properties do not.
proof fn lemma_property_specs_names(es: Seq<(Seq<char>, JsonV)>, n: nat)
    requires
        n <= es.len(),
        distinct_names(es),
    ensures
        distinct_names(property_specs(es, n)),
        forall|k: int| 0 <= k < property_specs(es, n).len() ==>
            exists|m: int| 0 <= m < n && (#[trigger] property_specs(es, n)[k]).0 == es[m].0,
    decreases n,
{
    if n > 0 {
        lemma_property_specs_names(es, (n - 1) as nat);
        let prev = property_specs(es, (n - 1) as nat);
        let cur = property_specs(es, n);
        if property_spec(es[n - 1].1) is Some {
            assert forall|k: int| 0 <= k < prev.len() implies (#[trigger] prev[k]).0 != es[n - 1].0 by {
                let m = choose|m: int| 0 <= m < n - 1 && (#[trigger] prev[k]).0 == es[m].0;
                assert(es[m].0 != es[n - 1].0);
            }
            assert forall|i: int, j: int| 0 <= i < j < cur.len() implies (#[trigger] cur[i]).0 != (#[trigger] cur[j]).0 by {
                if j < prev.len() {
                    assert(cur[i] == prev[i] && cur[j] == prev[j]);
                } else {
                    assert(cur[i] == prev[i]);
                }
            }
            assert forall|k: int| 0 <= k < cur.len() implies
                exists|m: int| 0 <= m < n && (#[trigger] cur[k]).0 == es[m].0 by {
                if k < prev.len() {
                    assert(cur[k] == prev[k]);
                    let m = choose|m: int| 0 <= m < n - 1 && (#[trigger] prev[k]).0 == es[m].0;
                    assert(cur[k].0 == es[m].0);
                } else {
                    assert(cur[k].0 == es[n - 1].0);
                }
            }
        }
    }
}

/// Reads an MCP tool's input schema into tool parameters: each object-valued
/// property becomes a parameter of its `type` (default `string`) with its
/// `description` (default empty), and the strings of `required` are the
/// required names. Without a schema there are no parameters.
pub fn mcp_schema_to_tool_params(schema_val: Option<&Vec<(String, Json)>>) -> (r: ToolParametersDefinition)
    ensures
        r.param_type@ == "object"@,
        match schema_val {
            Some(es) => params_match(r.properties@, schema_properties(jv_entries(es@)))
                && str_seq(r.required@) == schema_required(jv_entries(es@)),
            None => r.properties@.len() == 0 && r.required@.len() == 0,
        },
        match schema_val {
            Some(es) => schema_names_distinct(jv_entries(es@)) ==> distinct_param_names(r.properties@),
            None => true,
        },
{
    proof { reveal_strlit("object"); reveal_strlit("properties"); reveal_strlit("required"); }
    let schema = match schema_val {
        Some(s) => s,
        None => {
            return ToolParametersDefinition {
                param_type: to_owned("object"),
                properties: Vec::new(),
                required: Vec::new(),
            };
        },
    };
    let mut properties: Vec<(String, ToolParameter)> = Vec::new();
    match lookup(schema, "properties") {
        Some(pv) => match pv.as_object() {
            Some(props) => {
                proof { lemma_jv_entries_len(props@); }
                let ghost es = jv_entries(props@);
                let mut i: usize = 0;
                while i < props.len()
                    invariant
                        i <= props.len(),
                        es == jv_entries(props@),
                        es.len() == props.len(),
                        forall|j: int| 0 <= j < props.len() ==> #[trigger] es[j] == (props@[j].0@, jv(props@[j].1)),
                        params_match(properties@, property_specs(es, i as nat)),
                    decreases props.len() - i,
                {
                    match property_to_param(&props[i].1) {
                        Some(p) => {
                            let ghost before = properties@;
                            properties.push((props[i].0.clone(), p));
                            proof {
                                let ss = property_specs(es, (i + 1) as nat);
                                assert forall|j: int| 0 <= j < properties@.len() implies
                                    (#[trigger] properties@[j]).0@ == ss[j].0 && param_matches(properties@[j].1, ss[j].1) by {
                                    if j < before.len() {
                                        assert(properties@[j] == before[j]);
                                    }
                                }
                            }
                        },
                        None => {},
                    }
                    i = i + 1;
                }
            },
            None => {},
        },
        None => {},
    }
    let mut required: Vec<String> = Vec::new();
    match lookup(schema, "required") {
        Some(rv) => match rv.as_array() {
            Some(arr) => {
                proof { lemma_jv_seq_len(arr@); }
                let ghost a = jv_seq(arr@);
                let mut i: usize = 0;
                while i < arr.len()
                    invariant
                        i <= arr.len(),
                        a == jv_seq(arr@),
                        a.len() == arr.len(),
                        forall|j: int| 0 <= j < arr.len() ==> #[trigger] a[j] == jv(arr@[j]),
                        str_seq(required@) == string_items(a, i as nat),
                    decreases arr.len() - i,
                {
                    match arr[i].as_str() {
                        Some(s) => {
                            let x = to_owned(s);
                            proof { lemma_str_seq_push(required@, x); }
                            required.push(x);
                        },
                        None => {},
                    }
                    i = i + 1;
                }
            },
            None => {},
        },
        None => {},
    }
    proof {
        let sch = jv_entries(schema@);
        assert(params_match(properties@, schema_properties(sch)));
        if schema_names_distinct(sch) {
            match get_object(JsonV::Object(sch), "properties"@) {
                Some(es) => { lemma_property_specs_names(es, es.len()); },
                None => {},
            }
            let ss = schema_properties(sch);
            assert forall|i: int, j: int| 0 <= i < j < properties@.len() implies
                (#[trigger] properties@[i]).0@ != (#[trigger] properties@[j]).0@ by {
                assert(properties@[i].0@ == ss[i].0);
                assert(properties@[j].0@ == ss[j].0);
            }
        }
    }
    ToolParametersDefinition { param_type: to_owned("object"), properties, required }
}

} // verus!
