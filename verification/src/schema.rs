use vstd::prelude::*;

verus! {

/// An OpenAPI schema node, restricted to the shapes inference produces
/// and the classifier reads.
#[derive(Debug, PartialEq)]
pub enum Schema {
    Boolean,
    Integer,
    Number,
    Str,
    Any,
    /// An array schema; `None` means the item type is left unset.
    Array(Option<SchemaRef>),
    /// An object schema: ordered properties and the names marked required.
    Object { properties: Vec<Property>, required: Vec<String> },
}

/// Either an inline schema or a reference to a named component.
#[derive(Debug, PartialEq)]
pub enum SchemaRef {
    Inline(Box<Schema>),
    Named(String),
}

/// One property of an object schema.
#[derive(Debug, PartialEq)]
pub struct Property {
    pub name: String,
    pub schema: SchemaRef,
}

/// A schema stored under a component name.
#[derive(Debug, PartialEq)]
pub struct NamedSchema {
    pub name: String,
    pub schema: Schema,
}

/// The mathematical model of a schema node.
#[verifier::ext_equal]
pub enum SchemaV {
    Boolean,
    Integer,
    Number,
    Str,
    Any,
    Array(Option<SchemaRefV>),
    Object { props: Seq<PropV>, required: Seq<Seq<char>> },
}

/// The model of an inline-or-named schema reference.
#[verifier::ext_equal]
pub enum SchemaRefV {
    Inline(Box<SchemaV>),
    Named(Seq<char>),
}

/// The model of one object property.
#[verifier::ext_equal]
pub struct PropV {
    pub name: Seq<char>,
    pub schema: SchemaRefV,
}

/// The model of a named component schema.
#[verifier::ext_equal]
pub struct NamedSchemaV {
    pub name: Seq<char>,
    pub schema: SchemaV,
}

pub open spec fn schema_view(s: Schema) -> SchemaV
    decreases s,
{
    match s {
        Schema::Boolean => SchemaV::Boolean,
        Schema::Integer => SchemaV::Integer,
        Schema::Number => SchemaV::Number,
        Schema::Str => SchemaV::Str,
        Schema::Any => SchemaV::Any,
        Schema::Array(item) => SchemaV::Array(
            match item {
                Option::None => Option::None,
                Option::Some(r) => Option::Some(ref_view(r)),
            },
        ),
        Schema::Object { properties, required } => SchemaV::Object {
            props: prop_list_view(properties@),
            required: required@.map_values(|k: String| k@),
        },
    }
}

pub open spec fn ref_view(r: SchemaRef) -> SchemaRefV
    decreases r,
{
    match r {
        SchemaRef::Inline(b) => SchemaRefV::Inline(Box::new(schema_view(*b))),
        SchemaRef::Named(n) => SchemaRefV::Named(n@),
    }
}

/// The models of a sequence of properties, elementwise.
pub open spec fn prop_list_view(s: Seq<Property>) -> Seq<PropV>
    decreases s,
{
    if s.len() == 0 {
        Seq::empty()
    } else {
        prop_list_view(s.drop_last()).push(
            PropV { name: s.last().name@, schema: ref_view(s.last().schema) },
        )
    }
}

/// The models of a sequence of named schemas, elementwise.
pub open spec fn named_list_view(s: Seq<NamedSchema>) -> Seq<NamedSchemaV> {
    s.map_values(|n: NamedSchema| NamedSchemaV { name: n.name@, schema: schema_view(n.schema) })
}

pub proof fn lemma_prop_list_view(s: Seq<Property>)
    ensures
        prop_list_view(s).len() == s.len(),
        forall|i: int|
            0 <= i < s.len() ==> #[trigger] prop_list_view(s)[i]
                == (PropV { name: s[i].name@, schema: ref_view(s[i].schema) }),
    decreases s.len(),
{
    if s.len() > 0 {
        lemma_prop_list_view(s.drop_last());
    }
}

/// A schema is primitive when there is nothing in it worth extracting
/// as a named component: an object with no properties, an array with no
/// item type, or any scalar kind.
pub open spec fn spec_is_primitive(s: SchemaV) -> bool {
    match s {
        SchemaV::Object { props, .. } => props.len() == 0,
        SchemaV::Array(item) => item is None,
        _ => true,
    }
}

/// Decides whether a schema can stay inline or must be extracted under
/// a component name.
pub fn is_primitive(schema: &Schema) -> (r: bool)
    ensures
        r == spec_is_primitive(schema_view(*schema)),
{
    match schema {
        Schema::Object { properties, .. } => {
            proof {
                lemma_prop_list_view(properties@);
            }
            properties.len() == 0
        },
        Schema::Array(item) => item.is_none(),
        _ => true,
    }
}

} // verus!
