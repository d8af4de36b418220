use vstd::prelude::*;

use crate::json::{JsonMember, JsonV, JsonValue, MemberV};
use crate::json::{json_list_view, json_view, lemma_json_list_view, lemma_member_list_view,
    member_list_view};
use crate::schema::{NamedSchema, NamedSchemaV, PropV, Property, Schema, SchemaRef, SchemaRefV,
    SchemaV};
use crate::schema::{is_primitive, lemma_prop_list_view, named_list_view, prop_list_view,
    schema_view, spec_is_primitive};
use convert_case::Casing;

verus! {

/// The component name a key is extracted under: the PascalCase form of
/// the key, as convert_case produces it.
pub uninterp spec fn pascal_of(s: Seq<char>) -> Seq<char>;

/// Relies on convert_case's `Casing::to_case` with `Case::Pascal`: the
/// conversion is a pure function of the input characters alone.
#[verifier::external_body]
fn to_pascal(s: &str) -> (r: String)
    ensures
        r@ == pascal_of(s@),
{
    s.to_case(convert_case::Case::Pascal)
}

/// What inference returns: the derived schema, and the named component
/// schemas it depends on, in the order they were extracted.
#[derive(Debug, PartialEq)]
pub struct Inferred {
    pub schema: Schema,
    pub deps: Vec<NamedSchema>,
}

/// The model of an inference result.
#[verifier::ext_equal]
pub struct InferredV {
    pub schema: SchemaV,
    pub deps: Seq<NamedSchemaV>,
}

/// The model of the partial result of walking an object's members.
#[verifier::ext_equal]
pub struct ObjPartsV {
    pub props: Seq<PropV>,
    pub required: Seq<Seq<char>>,
    pub deps: Seq<NamedSchemaV>,
}

/// The schema a JSON null maps to: an object with no properties.
pub open spec fn empty_object_v() -> SchemaV {
    SchemaV::Object { props: Seq::empty(), required: Seq::empty() }
}

/// What `infer` returns, by the kind of the value:
/// - null maps to an empty object schema;
/// - booleans, numbers and strings map to the matching scalar schema;
/// - an empty array maps to an array schema with no item type;
/// - a non-empty array takes its item schema from the first element
///   alone, inlined when primitive and otherwise extracted under the
///   fixed placeholder name `Inner`;
/// - an object gets one property per key, every property required;
///   a primitive property schema is inlined, any other is extracted
///   under the PascalCase form of its key and referenced by that name.
///
/// No kind of value fails: inference is total.
pub open spec fn spec_infer(v: JsonV) -> InferredV
    decreases v,
{
    match v {
        JsonV::Null => InferredV { schema: empty_object_v(), deps: Seq::empty() },
        JsonV::Bool => InferredV { schema: SchemaV::Boolean, deps: Seq::empty() },
        JsonV::Number { integral } => InferredV {
            schema: if integral {
                SchemaV::Integer
            } else {
                SchemaV::Number
            },
            deps: Seq::empty(),
        },
        JsonV::Str => InferredV { schema: SchemaV::Str, deps: Seq::empty() },
        JsonV::Array(elems) => {
            if elems.len() == 0 {
                InferredV { schema: SchemaV::Array(Option::None), deps: Seq::empty() }
            } else {
                let inner = spec_infer(elems[0]);
                if spec_is_primitive(inner.schema) {
                    InferredV {
                        schema: SchemaV::Array(
                            Option::Some(SchemaRefV::Inline(Box::new(inner.schema))),
                        ),
                        deps: inner.deps,
                    }
                } else {
                    InferredV {
                        schema: SchemaV::Array(Option::Some(SchemaRefV::Named("Inner"@))),
                        deps: inner.deps.push(
                            NamedSchemaV { name: "Inner"@, schema: inner.schema },
                        ),
                    }
                }
            }
        },
        JsonV::Object(members) => {
            let parts = spec_infer_members(members);
            InferredV {
                schema: SchemaV::Object { props: parts.props, required: parts.required },
                deps: parts.deps,
            }
        },
    }
}

/// Folds inference over an object's members in order. Every key becomes
/// a property and is marked required; a non-primitive property schema
/// is pushed onto the dependency list under its derived name, and the
/// dependencies of the member's own inference always follow.
pub open spec fn spec_infer_members(ms: Seq<MemberV>) -> ObjPartsV
    decreases ms,
{
    if ms.len() == 0 {
        ObjPartsV { props: Seq::empty(), required: Seq::empty(), deps: Seq::empty() }
    } else {
        let prev = spec_infer_members(ms.drop_last());
        let m = ms.last();
        let inner = spec_infer(m.value);
        if spec_is_primitive(inner.schema) {
            ObjPartsV {
                props: prev.props.push(
                    PropV { name: m.key, schema: SchemaRefV::Inline(Box::new(inner.schema)) },
                ),
                required: prev.required.push(m.key),
                deps: prev.deps + inner.deps,
            }
        } else {
            ObjPartsV {
                props: prev.props.push(
                    PropV { name: m.key, schema: SchemaRefV::Named(pascal_of(m.key)) },
                ),
                required: prev.required.push(m.key),
                deps: prev.deps.push(
                    NamedSchemaV { name: pascal_of(m.key), schema: inner.schema },
                ) + inner.deps,
            }
        }
    }
}

/// For a primitive JSON value (null, a boolean, a number or a string),
/// inference returns no dependencies and a schema the classifier calls
/// primitive.
pub proof fn lemma_infer_primitive_value(v: JsonV)
    requires
        v is Null || v is Bool || v is Number || v is Str,
    ensures
        spec_infer(v).deps.len() == 0,
        spec_is_primitive(spec_infer(v).schema),
{
}

/// For an empty JSON array, inference returns an any-typed array
/// schema, one whose item type is left unset, and no dependencies.
pub proof fn lemma_infer_empty_array()
    ensures
        spec_infer(JsonV::Array(Seq::empty())) == (InferredV {
            schema: SchemaV::Array(Option::None),
            deps: Seq::<NamedSchemaV>::empty(),
        }),
{
}

/// A non-empty array is inferred from its first element alone: two
/// arrays whose first elements are equal infer equally, whatever the
/// later elements hold.
pub proof fn lemma_infer_array_first_element_only(a: Seq<JsonV>, b: Seq<JsonV>)
    requires
        a.len() > 0,
        b.len() > 0,
        a[0] == b[0],
    ensures
        spec_infer(JsonV::Array(a)) == spec_infer(JsonV::Array(b)),
{
}

/// Walking an object's members yields one property and one required
/// name per member, each carrying the member's key, in order.
pub proof fn lemma_infer_members_keys(ms: Seq<MemberV>)
    ensures
        spec_infer_members(ms).props.len() == ms.len(),
        spec_infer_members(ms).required.len() == ms.len(),
        forall|i: int|
            0 <= i < ms.len() ==> #[trigger] spec_infer_members(ms).props[i].name == ms[i].key,
        forall|i: int|
            0 <= i < ms.len() ==> #[trigger] spec_infer_members(ms).required[i] == ms[i].key,
    decreases ms.len(),
{
    if ms.len() > 0 {
        lemma_infer_members_keys(ms.drop_last());
    }
}

/// A JSON object's schema has exactly the object's keys as its
/// property names, in the object's order, and every property is
/// marked required.
pub proof fn lemma_infer_object_keys(ms: Seq<MemberV>)
    ensures
        spec_infer(JsonV::Object(ms)).schema matches SchemaV::Object { props, required }
            && props.len() == ms.len() && required.len() == ms.len() && (forall|i: int|
            0 <= i < ms.len() ==> #[trigger] props[i].name == ms[i].key) && (forall|i: int|
            0 <= i < ms.len() ==> #[trigger] required[i] == ms[i].key),
{
    lemma_infer_members_keys(ms);
}

/// Derives a schema for a JSON value together with the named component
/// schemas the result depends on, exactly as `spec_infer` states.
#[verifier::loop_isolation(false)]
pub fn infer(value: &JsonValue) -> (r: Inferred)
    ensures
        schema_view(r.schema) == spec_infer(json_view(*value)).schema,
        named_list_view(r.deps@) == spec_infer(json_view(*value)).deps,
    decreases *value,
{
    match value {
        JsonValue::Null => {
            let r = Inferred {
                schema: Schema::Object { properties: Vec::new(), required: Vec::new() },
                deps: Vec::new(),
            };
            proof {
                assert(schema_view(r.schema) =~= empty_object_v());
                assert(named_list_view(r.deps@) =~= Seq::<NamedSchemaV>::empty());
            }
            r
        },
        JsonValue::Bool => {
            let r = Inferred { schema: Schema::Boolean, deps: Vec::new() };
            proof {
                assert(named_list_view(r.deps@) =~= Seq::<NamedSchemaV>::empty());
            }
            r
        },
        JsonValue::Number { integral } => {
            let r = Inferred {
                schema: if *integral {
                    Schema::Integer
                } else {
                    Schema::Number
                },
                deps: Vec::new(),
            };
            proof {
                assert(named_list_view(r.deps@) =~= Seq::<NamedSchemaV>::empty());
            }
            r
        },
        JsonValue::Str => {
            let r = Inferred { schema: Schema::Str, deps: Vec::new() };
            proof {
                assert(named_list_view(r.deps@) =~= Seq::<NamedSchemaV>::empty());
            }
            r
        },
        JsonValue::Array(elems) => {
            proof {
                lemma_json_list_view(elems@);
            }
            if elems.len() == 0 {
                let r = Inferred { schema: Schema::Array(Option::None), deps: Vec::new() };
                proof {
                    assert(json_list_view(elems@) =~= Seq::<JsonV>::empty());
                    assert(named_list_view(r.deps@) =~= Seq::<NamedSchemaV>::empty());
                }
                r
            } else {
                let inner = infer(&elems[0]);
                let ghost spec_inner = spec_infer(json_list_view(elems@)[0]);
                if is_primitive(&inner.schema) {
                    Inferred {
                        schema: Schema::Array(
                            Option::Some(SchemaRef::Inline(Box::new(inner.schema))),
                        ),
                        deps: inner.deps,
                    }
                } else {
                    let mut deps = inner.deps;
                    deps.push(NamedSchema { name: "Inner".to_owned(), schema: inner.schema });
                    proof {
                        assert(named_list_view(deps@) =~= spec_inner.deps.push(
                            NamedSchemaV { name: "Inner"@, schema: spec_inner.schema },
                        ));
                    }
                    Inferred {
                        schema: Schema::Array(Option::Some(SchemaRef::Named("Inner".to_owned()))),
                        deps,
                    }
                }
            }
        },
        JsonValue::Object(members) => {
            proof {
                lemma_member_list_view(members@);
            }
            let ghost mlv = member_list_view(members@);
            let mut properties: Vec<Property> = Vec::new();
            let mut required: Vec<String> = Vec::new();
            let mut deps: Vec<NamedSchema> = Vec::new();
            let mut i: usize = 0;
            proof {
                assert(mlv.take(0int) =~= Seq::<MemberV>::empty());
                assert(prop_list_view(properties@) =~= Seq::<PropV>::empty());
                assert(required@.map_values(|k: String| k@) =~= Seq::<Seq<char>>::empty());
                assert(named_list_view(deps@) =~= Seq::<NamedSchemaV>::empty());
            }
            while i < members.len()
                invariant
                    i <= members.len(),
                    *value == JsonValue::Object(*members),
                    mlv == member_list_view(members@),
                    mlv.len() == members@.len(),
                    forall|j: int|
                        0 <= j < members@.len() ==> #[trigger] mlv[j] == (MemberV {
                            key: members@[j].key@,
                            value: json_view(members@[j].value),
                        }),
                    prop_list_view(properties@) == spec_infer_members(mlv.take(i as int)).props,
                    required@.map_values(|k: String| k@) == spec_infer_members(
                        mlv.take(i as int),
                    ).required,
                    named_list_view(deps@) == spec_infer_members(mlv.take(i as int)).deps,
                decreases members.len() - i,
            {
                let ghost props0 = properties@;
                let member = &members[i];
                let inner = infer(&member.value);
                proof {
                    assert(mlv.take(i + 1int).drop_last() =~= mlv.take(i as int));
                    assert(mlv.take(i + 1int).last() == mlv[i as int]);
                    lemma_prop_list_view(props0);
                }
                let ghost parts = spec_infer_members(mlv.take(i + 1int));
                if is_primitive(&inner.schema) {
                    properties.push(
                        Property {
                            name: member.key.clone(),
                            schema: SchemaRef::Inline(Box::new(inner.schema)),
                        },
                    );
                    required.push(member.key.clone());
                    let mut extra = inner.deps;
                    deps.append(&mut extra);
                    proof {
                        lemma_prop_list_view(properties@);
                        assert(prop_list_view(properties@) =~= parts.props);
                        assert(required@.map_values(|k: String| k@) =~= parts.required);
                        assert(named_list_view(deps@) =~= parts.deps);
                    }
                } else {
                    let name = to_pascal(member.key.as_str());
                    properties.push(
                        Property {
                            name: member.key.clone(),
                            schema: SchemaRef::Named(name.clone()),
                        },
                    );
                    required.push(member.key.clone());
                    deps.push(NamedSchema { name, schema: inner.schema });
                    let mut extra = inner.deps;
                    deps.append(&mut extra);
                    proof {
                        lemma_prop_list_view(properties@);
                        assert(prop_list_view(properties@) =~= parts.props);
                        assert(required@.map_values(|k: String| k@) =~= parts.required);
                        assert(named_list_view(deps@) =~= parts.deps);
                    }
                }
                i += 1;
            }
            proof {
                assert(mlv.take(members@.len() as int) =~= mlv);
            }
            Inferred { schema: Schema::Object { properties, required }, deps }
        },
    }
}

} // verus!
