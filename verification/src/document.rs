use vstd::prelude::*;

use crate::infer::{infer, spec_infer};
use crate::json::{json_view, JsonValue};
use crate::schema::{NamedSchema, NamedSchemaV, Schema, SchemaV};
use crate::schema::{named_list_view, schema_view};

verus! {

/// The HTTP methods an operation can be inserted under.
#[derive(Clone, Copy, Debug, PartialEq, Eq, Structural)]
pub enum Method {
    Get,
    Post,
    Put,
    Delete,
}

/// Where a parameter lives in the request.
#[derive(Clone, Copy, Debug, PartialEq, Eq, Structural)]
pub enum ParamLocation {
    Path,
    Query,
}

/// A parameter of an operation, already extracted by the caller.
#[derive(Debug, PartialEq)]
pub struct Parameter {
    pub name: String,
    pub location: ParamLocation,
}

/// The model of a parameter.
#[verifier::ext_equal]
pub struct ParameterV {
    pub name: Seq<char>,
    pub location: ParamLocation,
}

/// One HTTP method's behaviour at a path: its id, parameters, and the
/// JSON schemas of its request body and success response.
#[derive(Debug, PartialEq)]
pub struct Operation {
    pub operation_id: Option<String>,
    pub parameters: Vec<Parameter>,
    pub request_body: Option<Schema>,
    pub response_success: Option<Schema>,
}

/// The model of an operation.
#[verifier::ext_equal]
pub struct OperationV {
    pub operation_id: Option<Seq<char>>,
    pub parameters: Seq<ParameterV>,
    pub request_body: Option<SchemaV>,
    pub response_success: Option<SchemaV>,
}

/// The operations a path holds, one slot per method.
#[derive(Debug, PartialEq)]
pub struct PathItem {
    pub get: Option<Operation>,
    pub post: Option<Operation>,
    pub put: Option<Operation>,
    pub delete: Option<Operation>,
}

/// The model of a path's method slots.
#[verifier::ext_equal]
pub struct PathItemV {
    pub get: Option<OperationV>,
    pub post: Option<OperationV>,
    pub put: Option<OperationV>,
    pub delete: Option<OperationV>,
}

/// One URL path and its operations.
#[derive(Debug, PartialEq)]
pub struct PathEntry {
    pub url: String,
    pub item: PathItem,
}

/// The model of a path entry.
#[verifier::ext_equal]
pub struct PathEntryV {
    pub url: Seq<char>,
    pub item: PathItemV,
}

/// The parts of an OpenAPI document this library edits: the component
/// registry, the top-level named-schema map, the paths with their
/// operations, and the servers' URLs.
#[derive(Debug, PartialEq)]
pub struct Document {
    pub components: Vec<NamedSchema>,
    pub schemas: Vec<NamedSchema>,
    pub paths: Vec<PathEntry>,
    pub servers: Vec<String>,
}

/// The model of a document.
#[verifier::ext_equal]
pub struct DocumentV {
    pub components: Seq<NamedSchemaV>,
    pub schemas: Seq<NamedSchemaV>,
    pub paths: Seq<PathEntryV>,
    pub servers: Seq<Seq<char>>,
}

/// Outcome of trying to register a named component schema.
#[derive(Clone, Copy, Debug, PartialEq, Eq, Structural)]
pub enum RegistrationOutcome {
    Inserted,
    AlreadyExists,
}

pub open spec fn param_list_view(s: Seq<Parameter>) -> Seq<ParameterV> {
    s.map_values(|p: Parameter| ParameterV { name: p.name@, location: p.location })
}

pub open spec fn opt_schema_view(s: Option<Schema>) -> Option<SchemaV> {
    match s {
        Option::None => Option::None,
        Option::Some(sch) => Option::Some(schema_view(sch)),
    }
}

pub open spec fn opt_string_view(s: Option<String>) -> Option<Seq<char>> {
    match s {
        Option::None => Option::None,
        Option::Some(t) => Option::Some(t@),
    }
}

pub open spec fn operation_view(op: Operation) -> OperationV {
    OperationV {
        operation_id: opt_string_view(op.operation_id),
        parameters: param_list_view(op.parameters@),
        request_body: opt_schema_view(op.request_body),
        response_success: opt_schema_view(op.response_success),
    }
}

pub open spec fn opt_operation_view(op: Option<Operation>) -> Option<OperationV> {
    match op {
        Option::None => Option::None,
        Option::Some(o) => Option::Some(operation_view(o)),
    }
}

pub open spec fn path_item_view(p: PathItem) -> PathItemV {
    PathItemV {
        get: opt_operation_view(p.get),
        post: opt_operation_view(p.post),
        put: opt_operation_view(p.put),
        delete: opt_operation_view(p.delete),
    }
}

pub open spec fn path_list_view(s: Seq<PathEntry>) -> Seq<PathEntryV> {
    s.map_values(|p: PathEntry| PathEntryV { url: p.url@, item: path_item_view(p.item) })
}

pub open spec fn doc_view(d: Document) -> DocumentV {
    DocumentV {
        components: named_list_view(d.components@),
        schemas: named_list_view(d.schemas@),
        paths: path_list_view(d.paths@),
        servers: d.servers@.map_values(|s: String| s@),
    }
}

/// Whether some entry of a named-schema list carries `name`.
pub open spec fn contains_name(s: Seq<NamedSchemaV>, name: Seq<char>) -> bool {
    exists|i: int| 0 <= i < s.len() && s[i].name == name
}

/// Registering one named schema: a name already present is never
/// overwritten, otherwise the pair is appended.
pub open spec fn reg_insert(s: Seq<NamedSchemaV>, name: Seq<char>, schema: SchemaV) -> Seq<
    NamedSchemaV,
> {
    if contains_name(s, name) {
        s
    } else {
        s.push(NamedSchemaV { name, schema })
    }
}

/// Registering a dependency list, pair by pair, in order.
pub open spec fn reg_insert_all(s: Seq<NamedSchemaV>, deps: Seq<NamedSchemaV>) -> Seq<
    NamedSchemaV,
>
    decreases deps.len(),
{
    if deps.len() == 0 {
        s
    } else {
        reg_insert(reg_insert_all(s, deps.drop_last()), deps.last().name, deps.last().schema)
    }
}

/// The names reported while registering a dependency list: each name
/// that was already taken when its turn came.
pub open spec fn reg_warnings(s: Seq<NamedSchemaV>, deps: Seq<NamedSchemaV>) -> Seq<Seq<char>>
    decreases deps.len(),
{
    if deps.len() == 0 {
        Seq::empty()
    } else {
        let w = reg_warnings(s, deps.drop_last());
        if contains_name(reg_insert_all(s, deps.drop_last()), deps.last().name) {
            w.push(deps.last().name)
        } else {
            w
        }
    }
}

/// No two entries of a named-schema list share a name.
pub open spec fn unique_names(s: Seq<NamedSchemaV>) -> bool {
    forall|i: int, j: int| 0 <= i < j < s.len() ==> s[i].name != s[j].name
}

/// No two path entries share a URL.
pub open spec fn unique_urls(s: Seq<PathEntryV>) -> bool {
    forall|i: int, j: int| 0 <= i < j < s.len() ==> s[i].url != s[j].url
}

/// A well-formed document: its three maps have unique keys.
pub open spec fn doc_wf(d: DocumentV) -> bool {
    &&& unique_names(d.components)
    &&& unique_names(d.schemas)
    &&& unique_urls(d.paths)
}

/// Storing a top-level named schema: an existing entry under the name
/// is overwritten in place, a new name is appended.
pub open spec fn upsert(s: Seq<NamedSchemaV>, name: Seq<char>, schema: SchemaV) -> Seq<
    NamedSchemaV,
> {
    if contains_name(s, name) {
        s.update(
            choose|i: int| 0 <= i < s.len() && s[i].name == name,
            NamedSchemaV { name, schema },
        )
    } else {
        s.push(NamedSchemaV { name, schema })
    }
}

/// Whether some path entry carries `url`.
pub open spec fn contains_url(s: Seq<PathEntryV>, url: Seq<char>) -> bool {
    exists|i: int| 0 <= i < s.len() && s[i].url == url
}

/// The path item stored under `url`; meaningful when the URL is there.
pub open spec fn item_at(s: Seq<PathEntryV>, url: Seq<char>) -> PathItemV {
    s[choose|i: int| 0 <= i < s.len() && s[i].url == url].item
}

/// Storing a path item: an existing entry for the URL is replaced in
/// place, a new URL is appended.
pub open spec fn upsert_path(s: Seq<PathEntryV>, url: Seq<char>, item: PathItemV) -> Seq<
    PathEntryV,
> {
    if contains_url(s, url) {
        s.update(
            choose|i: int| 0 <= i < s.len() && s[i].url == url,
            PathEntryV { url, item },
        )
    } else {
        s.push(PathEntryV { url, item })
    }
}

/// A path item with no operations.
pub open spec fn empty_item_v() -> PathItemV {
    PathItemV { get: Option::None, post: Option::None, put: Option::None, delete: Option::None }
}

/// The operation a path item holds under a method.
pub open spec fn slot_of(item: PathItemV, m: Method) -> Option<OperationV> {
    match m {
        Method::Get => item.get,
        Method::Post => item.post,
        Method::Put => item.put,
        Method::Delete => item.delete,
    }
}

/// The path item with the operation under `m` set to `op`.
pub open spec fn with_slot(item: PathItemV, m: Method, op: OperationV) -> PathItemV {
    match m {
        Method::Get => PathItemV {
            get: Option::Some(op),
            post: item.post,
            put: item.put,
            delete: item.delete,
        },
        Method::Post => PathItemV {
            get: item.get,
            post: Option::Some(op),
            put: item.put,
            delete: item.delete,
        },
        Method::Put => PathItemV {
            get: item.get,
            post: item.post,
            put: Option::Some(op),
            delete: item.delete,
        },
        Method::Delete => PathItemV {
            get: item.get,
            post: item.post,
            put: item.put,
            delete: Option::Some(op),
        },
    }
}

/// How one insertion leaves the operation in its slot: an existing
/// operation is mutated, not replaced. Its id is overwritten only when
/// a new one was given, its parameters become the given list, a request
/// schema is attached only when one was inferred, and the success
/// response schema is always set.
pub open spec fn spec_updated_operation(
    prev: Option<OperationV>,
    operation_id: Option<Seq<char>>,
    parameters: Seq<ParameterV>,
    request: Option<SchemaV>,
    response: SchemaV,
) -> OperationV {
    let base = match prev {
        Option::Some(op) => op,
        Option::None => OperationV {
            operation_id: Option::None,
            parameters: Seq::empty(),
            request_body: Option::None,
            response_success: Option::None,
        },
    };
    OperationV {
        operation_id: if operation_id is Some {
            operation_id
        } else {
            base.operation_id
        },
        parameters,
        request_body: if request is Some {
            request
        } else {
            base.request_body
        },
        response_success: Option::Some(response),
    }
}

/// The dependency list of the request body, when there is one.
pub open spec fn opt_request_deps(request_body: Option<&JsonValue>) -> Seq<NamedSchemaV> {
    match request_body {
        Option::Some(v) => spec_infer(json_view(*v)).deps,
        Option::None => Seq::empty(),
    }
}

/// The inferred request-body schema, when there is one.
pub open spec fn opt_request_schema(request_body: Option<&JsonValue>) -> Option<SchemaV> {
    match request_body {
        Option::Some(v) => Option::Some(spec_infer(json_view(*v)).schema),
        Option::None => Option::None,
    }
}

/// Registering one pair keeps the names unique.
pub proof fn lemma_reg_insert_unique(s: Seq<NamedSchemaV>, name: Seq<char>, schema: SchemaV)
    requires
        unique_names(s),
    ensures
        unique_names(reg_insert(s, name, schema)),
{
}

/// Registering a whole dependency list keeps the names unique.
pub proof fn lemma_reg_insert_all_unique(s: Seq<NamedSchemaV>, deps: Seq<NamedSchemaV>)
    requires
        unique_names(s),
    ensures
        unique_names(reg_insert_all(s, deps)),
    decreases deps.len(),
{
    if deps.len() > 0 {
        lemma_reg_insert_all_unique(s, deps.drop_last());
        lemma_reg_insert_unique(
            reg_insert_all(s, deps.drop_last()),
            deps.last().name,
            deps.last().schema,
        );
    }
}

/// Overwriting or appending a top-level schema keeps the names unique.
pub proof fn lemma_upsert_unique(s: Seq<NamedSchemaV>, name: Seq<char>, schema: SchemaV)
    requires
        unique_names(s),
    ensures
        unique_names(upsert(s, name, schema)),
{
    if contains_name(s, name) {
        let c = choose|i: int| 0 <= i < s.len() && s[i].name == name;
        assert forall|i: int, j: int|
            0 <= i < j < upsert(s, name, schema).len() implies upsert(s, name, schema)[i].name
            != upsert(s, name, schema)[j].name by {
            assert(s[i].name != s[j].name);
        }
    }
}

/// Replacing or appending a path entry keeps the URLs unique.
pub proof fn lemma_upsert_path_unique(s: Seq<PathEntryV>, url: Seq<char>, item: PathItemV)
    requires
        unique_urls(s),
    ensures
        unique_urls(upsert_path(s, url, item)),
{
    if contains_url(s, url) {
        let c = choose|i: int| 0 <= i < s.len() && s[i].url == url;
        assert forall|i: int, j: int|
            0 <= i < j < upsert_path(s, url, item).len() implies upsert_path(s, url, item)[i].url
            != upsert_path(s, url, item)[j].url by {
            assert(s[i].url != s[j].url);
        }
    }
}

/// Registering a name twice keeps the first schema: once the name is
/// in, a second attempt under it changes nothing, whatever schema it
/// carries.
pub proof fn lemma_register_idempotent(
    s: Seq<NamedSchemaV>,
    name: Seq<char>,
    first: SchemaV,
    second: SchemaV,
)
    requires
        !contains_name(s, name),
    ensures
        contains_name(reg_insert(s, name, first), name),
        reg_insert(reg_insert(s, name, first), name, second) == reg_insert(s, name, first),
        reg_insert(s, name, first)[s.len() as int] == (NamedSchemaV { name, schema: first }),
{
    assert(reg_insert(s, name, first)[s.len() as int].name == name);
}

impl Document {
    /// A document with nothing in it.
    pub fn new() -> (d: Document)
        ensures
            doc_view(d) == (DocumentV {
                components: Seq::<NamedSchemaV>::empty(),
                schemas: Seq::<NamedSchemaV>::empty(),
                paths: Seq::<PathEntryV>::empty(),
                servers: Seq::<Seq<char>>::empty(),
            }),
            doc_wf(doc_view(d)),
    {
        let d = Document {
            components: Vec::new(),
            schemas: Vec::new(),
            paths: Vec::new(),
            servers: Vec::new(),
        };
        proof {
            assert(doc_view(d) =~= DocumentV {
                components: Seq::<NamedSchemaV>::empty(),
                schemas: Seq::<NamedSchemaV>::empty(),
                paths: Seq::<PathEntryV>::empty(),
                servers: Seq::<Seq<char>>::empty(),
            });
        }
        d
    }

    /// Merges one named schema into the component registry. A name
    /// already present is reported and the existing entry wins; a new
    /// name is appended.
    pub fn register(&mut self, name: String, schema: Schema) -> (r: RegistrationOutcome)
        ensures
            doc_view(*final(self)).components == reg_insert(
                doc_view(*old(self)).components,
                name@,
                schema_view(schema),
            ),
            (r == RegistrationOutcome::AlreadyExists) == contains_name(
                doc_view(*old(self)).components,
                name@,
            ),
            doc_view(*final(self)).schemas == doc_view(*old(self)).schemas,
            doc_view(*final(self)).paths == doc_view(*old(self)).paths,
            doc_view(*final(self)).servers == doc_view(*old(self)).servers,
    {
        let ghost comps = named_list_view(self.components@);
        let mut j: usize = 0;
        while j < self.components.len()
            invariant
                j <= self.components.len(),
                *self == *old(self),
                comps == named_list_view(self.components@),
                forall|k: int| 0 <= k < j ==> #[trigger] comps[k].name != name@,
            decreases self.components.len() - j,
        {
            if self.components[j].name == name {
                proof {
                    assert(comps[j as int].name == name@);
                }
                return RegistrationOutcome::AlreadyExists;
            }
            j += 1;
        }
        proof {
            assert(!contains_name(comps, name@));
        }
        self.components.push(NamedSchema { name, schema });
        proof {
            assert(named_list_view(self.components@) =~= comps.push(
                NamedSchemaV { name: name@, schema: schema_view(schema) },
            ));
        }
        RegistrationOutcome::Inserted
    }

    /// Registers a dependency list in order, first entry first, and
    /// returns the names that were already taken, in the order they
    /// were encountered.
    pub fn register_dependencies(&mut self, deps: Vec<NamedSchema>) -> (warnings: Vec<String>)
        ensures
            doc_view(*final(self)).components == reg_insert_all(
                doc_view(*old(self)).components,
                named_list_view(deps@),
            ),
            warnings@.map_values(|w: String| w@) == reg_warnings(
                doc_view(*old(self)).components,
                named_list_view(deps@),
            ),
            doc_view(*final(self)).schemas == doc_view(*old(self)).schemas,
            doc_view(*final(self)).paths == doc_view(*old(self)).paths,
            doc_view(*final(self)).servers == doc_view(*old(self)).servers,
    {
        let ghost comps0 = doc_view(*self).components;
        let ghost all = named_list_view(deps@);
        let mut warnings: Vec<String> = Vec::new();
        let mut remaining = deps;
        proof {
            assert(all.take(0int) =~= Seq::<NamedSchemaV>::empty());
            assert(warnings@.map_values(|w: String| w@) =~= Seq::<Seq<char>>::empty());
            assert(named_list_view(remaining@) =~= all.subrange(0int, all.len() as int));
        }
        while remaining.len() > 0
            invariant
                remaining@.len() <= all.len(),
                named_list_view(remaining@) == all.subrange(
                    all.len() - remaining@.len(),
                    all.len() as int,
                ),
                doc_view(*self).components == reg_insert_all(
                    comps0,
                    all.take(all.len() - remaining@.len()),
                ),
                warnings@.map_values(|w: String| w@) == reg_warnings(
                    comps0,
                    all.take(all.len() - remaining@.len()),
                ),
                comps0 == doc_view(*old(self)).components,
                doc_view(*self).schemas == doc_view(*old(self)).schemas,
                doc_view(*self).paths == doc_view(*old(self)).paths,
                doc_view(*self).servers == doc_view(*old(self)).servers,
            decreases remaining.len(),
        {
            let ghost k = all.len() - remaining@.len();
            let ghost rem_old = remaining@;
            let d = remaining.remove(0);
            let reported = d.name.clone();
            proof {
                assert(named_list_view(rem_old)[0] == all[k]);
                assert(remaining@ =~= rem_old.subrange(1int, rem_old.len() as int));
            }
            let outcome = self.register(d.name, d.schema);
            if outcome == RegistrationOutcome::AlreadyExists {
                warnings.push(reported);
            }
            proof {
                assert(all.take(k + 1).drop_last() =~= all.take(k));
                assert(all.take(k + 1).last() == all[k]);
                assert forall|j: int| 0 <= j < remaining@.len() implies named_list_view(
                    remaining@,
                )[j] == all.subrange(k + 1, all.len() as int)[j] by {
                    assert(named_list_view(rem_old)[j + 1] == all.subrange(
                        k,
                        all.len() as int,
                    )[j + 1]);
                }
                assert(named_list_view(remaining@) =~= all.subrange(k + 1, all.len() as int));
                assert(warnings@.map_values(|w: String| w@) =~= reg_warnings(
                    comps0,
                    all.take(k + 1),
                ));
            }
        }
        proof {
            assert(all.take(all.len() as int) =~= all);
        }
        warnings
    }

    /// Stores `schema` under `name` in the top-level schema map,
    /// overwriting any prior entry under that name.
    fn upsert_schema_slot(&mut self, name: String, schema: Schema)
        requires
            unique_names(doc_view(*old(self)).schemas),
        ensures
            doc_view(*final(self)).schemas == upsert(
                doc_view(*old(self)).schemas,
                name@,
                schema_view(schema),
            ),
            doc_view(*final(self)).components == doc_view(*old(self)).components,
            doc_view(*final(self)).paths == doc_view(*old(self)).paths,
            doc_view(*final(self)).servers == doc_view(*old(self)).servers,
    {
        let ghost slots = named_list_view(self.schemas@);
        let mut j: usize = 0;
        while j < self.schemas.len()
            invariant
                j <= self.schemas.len(),
                *self == *old(self),
                slots == named_list_view(self.schemas@),
                unique_names(slots),
                forall|k: int| 0 <= k < j ==> #[trigger] slots[k].name != name@,
            decreases self.schemas.len() - j,
        {
            if self.schemas[j].name == name {
                proof {
                    assert(slots[j as int].name == name@);
                }
                self.schemas.remove(j);
                self.schemas.insert(j, NamedSchema { name, schema });
                proof {
                    let c = choose|i: int| 0 <= i < slots.len() && slots[i].name == name@;
                    if c < j {
                        assert(slots[c].name != slots[j as int].name);
                    }
                    if j < c {
                        assert(slots[j as int].name != slots[c].name);
                    }
                    assert(c == j);
                    assert(named_list_view(self.schemas@) =~= slots.update(
                        j as int,
                        NamedSchemaV { name: name@, schema: schema_view(schema) },
                    ));
                }
                return;
            }
            j += 1;
        }
        proof {
            assert(!contains_name(slots, name@));
        }
        self.schemas.push(NamedSchema { name, schema });
        proof {
            assert(named_list_view(self.schemas@) =~= slots.push(
                NamedSchemaV { name: name@, schema: schema_view(schema) },
            ));
        }
    }

    /// Infers a schema for the body, registers every dependency
    /// (existing names win and are reported back), then stores the
    /// top-level schema under `name`, overwriting any prior entry
    /// under that name.
    pub fn insert_schema(&mut self, name: String, value: &JsonValue) -> (warnings: Vec<String>)
        requires
            doc_wf(doc_view(*old(self))),
        ensures
            doc_wf(doc_view(*final(self))),
            doc_view(*final(self)).components == reg_insert_all(
                doc_view(*old(self)).components,
                spec_infer(json_view(*value)).deps,
            ),
            doc_view(*final(self)).schemas == upsert(
                doc_view(*old(self)).schemas,
                name@,
                spec_infer(json_view(*value)).schema,
            ),
            doc_view(*final(self)).paths == doc_view(*old(self)).paths,
            doc_view(*final(self)).servers == doc_view(*old(self)).servers,
            warnings@.map_values(|w: String| w@) == reg_warnings(
                doc_view(*old(self)).components,
                spec_infer(json_view(*value)).deps,
            ),
    {
        let inferred = infer(value);
        let warnings = self.register_dependencies(inferred.deps);
        self.upsert_schema_slot(name, inferred.schema);
        proof {
            lemma_reg_insert_all_unique(
                doc_view(*old(self)).components,
                spec_infer(json_view(*value)).deps,
            );
            lemma_upsert_unique(
                doc_view(*old(self)).schemas,
                name@,
                spec_infer(json_view(*value)).schema,
            );
        }
        warnings
    }

    /// Locates or creates the path entry for `url` and the operation
    /// slot for `method` on it; an existing operation is mutated, not
    /// replaced. Sets the operation id when one was given, stores the
    /// given parameter list, attaches the request-body schema inferred
    /// for POST or PUT, always attaches the success-response schema,
    /// and registers the dependencies of both inferences, request
    /// first.
    pub fn insert_operation(
        &mut self,
        url: String,
        method: Method,
        operation_id: Option<String>,
        parameters: Vec<Parameter>,
        request_body: Option<&JsonValue>,
        response_body: &JsonValue,
    ) -> (warnings: Vec<String>)
        requires
            doc_wf(doc_view(*old(self))),
            request_body is Some <==> (method == Method::Post || method == Method::Put),
        ensures
            doc_wf(doc_view(*final(self))),
            doc_view(*final(self)).components == reg_insert_all(
                reg_insert_all(doc_view(*old(self)).components, opt_request_deps(request_body)),
                spec_infer(json_view(*response_body)).deps,
            ),
            doc_view(*final(self)).schemas == doc_view(*old(self)).schemas,
            doc_view(*final(self)).servers == doc_view(*old(self)).servers,
            doc_view(*final(self)).paths == ({
                let base = if contains_url(doc_view(*old(self)).paths, url@) {
                    item_at(doc_view(*old(self)).paths, url@)
                } else {
                    empty_item_v()
                };
                let op = spec_updated_operation(
                    slot_of(base, method),
                    opt_string_view(operation_id),
                    param_list_view(parameters@),
                    opt_request_schema(request_body),
                    spec_infer(json_view(*response_body)).schema,
                );
                upsert_path(doc_view(*old(self)).paths, url@, with_slot(base, method, op))
            }),
            warnings@.map_values(|w: String| w@) == reg_warnings(
                doc_view(*old(self)).components,
                opt_request_deps(request_body),
            ) + reg_warnings(
                reg_insert_all(doc_view(*old(self)).components, opt_request_deps(request_body)),
                spec_infer(json_view(*response_body)).deps,
            ),
    {
        let ghost comps0 = doc_view(*self).components;
        let mut warnings: Vec<String>;
        let request_schema: Option<Schema>;
        match request_body {
            Option::Some(v) => {
                let inferred = infer(v);
                warnings = self.register_dependencies(inferred.deps);
                request_schema = Option::Some(inferred.schema);
            },
            Option::None => {
                warnings = Vec::new();
                request_schema = Option::None;
                proof {
                    assert(opt_request_deps(request_body) =~= Seq::<NamedSchemaV>::empty());
                    assert(reg_insert_all(comps0, opt_request_deps(request_body)) =~= comps0);
                    assert(reg_warnings(comps0, opt_request_deps(request_body)) =~= Seq::<
                        Seq<char>,
                    >::empty());
                }
            },
        }
        let inferred_resp = infer(response_body);
        let mut more = self.register_dependencies(inferred_resp.deps);
        let ghost warns1 = warnings@;
        let ghost warns2 = more@;
        warnings.append(&mut more);
        proof {
            assert(warnings@.map_values(|w: String| w@) =~= warns1.map_values(|w: String| w@)
                + warns2.map_values(|w: String| w@));
            lemma_reg_insert_all_unique(comps0, opt_request_deps(request_body));
            lemma_reg_insert_all_unique(
                reg_insert_all(comps0, opt_request_deps(request_body)),
                spec_infer(json_view(*response_body)).deps,
            );
            lemma_upsert_path_unique(
                doc_view(*old(self)).paths,
                url@,
                with_slot(
                    if contains_url(doc_view(*old(self)).paths, url@) {
                        item_at(doc_view(*old(self)).paths, url@)
                    } else {
                        empty_item_v()
                    },
                    method,
                    spec_updated_operation(
                        slot_of(
                            if contains_url(doc_view(*old(self)).paths, url@) {
                                item_at(doc_view(*old(self)).paths, url@)
                            } else {
                                empty_item_v()
                            },
                            method,
                        ),
                        opt_string_view(operation_id),
                        param_list_view(parameters@),
                        opt_request_schema(request_body),
                        spec_infer(json_view(*response_body)).schema,
                    ),
                ),
            );
        }
        let ghost paths0 = path_list_view(self.paths@);
        match find_path_index(&self.paths, &url) {
            Option::Some(i) => {
                let entry = self.paths.remove(i);
                let ghost entry_v = paths0[i as int];
                let (rest, prev) = take_slot(entry.item, method);
                let op = updated_operation(
                    prev,
                    operation_id,
                    parameters,
                    request_schema,
                    inferred_resp.schema,
                );
                let item = put_slot(rest, method, op);
                self.paths.insert(i, PathEntry { url, item });
                proof {
                    let c = choose|k: int| 0 <= k < paths0.len() && paths0[k].url == entry_v.url;
                    if c < i {
                        assert(paths0[c].url != paths0[i as int].url);
                    }
                    if i < c {
                        assert(paths0[i as int].url != paths0[c].url);
                    }
                    assert(c == i);
                    assert(path_list_view(self.paths@) =~= paths0.update(
                        i as int,
                        PathEntryV {
                            url: entry_v.url,
                            item: path_item_view(item),
                        },
                    ));
                }
            },
            Option::None => {
                let op = updated_operation(
                    Option::None,
                    operation_id,
                    parameters,
                    request_schema,
                    inferred_resp.schema,
                );
                let item = put_slot(
                    PathItem {
                        get: Option::None,
                        post: Option::None,
                        put: Option::None,
                        delete: Option::None,
                    },
                    method,
                    op,
                );
                self.paths.push(PathEntry { url, item });
                proof {
                    assert(path_list_view(self.paths@) =~= paths0.push(
                        PathEntryV { url: url@, item: path_item_view(item) },
                    ));
                }
            },
        }
        warnings
    }
}

/// Finds the position of the entry carrying `url`, if any.
fn find_path_index(paths: &Vec<PathEntry>, url: &String) -> (r: Option<usize>)
    ensures
        match r {
            Option::Some(i) => i < paths@.len() && path_list_view(paths@)[i as int].url == url@
                && contains_url(path_list_view(paths@), url@),
            Option::None => !contains_url(path_list_view(paths@), url@),
        },
{
    let ghost pv = path_list_view(paths@);
    let mut j: usize = 0;
    while j < paths.len()
        invariant
            j <= paths@.len(),
            pv == path_list_view(paths@),
            forall|k: int| 0 <= k < j ==> #[trigger] pv[k].url != url@,
        decreases paths@.len() - j,
    {
        if paths[j].url == *url {
            proof {
                assert(pv[j as int].url == url@);
            }
            return Option::Some(j);
        }
        j += 1;
    }
    Option::None
}

/// Moves the operation under `m` out of the item, leaving that slot
/// empty.
fn take_slot(item: PathItem, m: Method) -> (r: (PathItem, Option<Operation>))
    ensures
        opt_operation_view(r.1) == slot_of(path_item_view(item), m),
        path_item_view(r.0) == without_slot(path_item_view(item), m),
{
    match m {
        Method::Get => {
            let prev = item.get;
            (
                PathItem {
                    get: Option::None,
                    post: item.post,
                    put: item.put,
                    delete: item.delete,
                },
                prev,
            )
        },
        Method::Post => {
            let prev = item.post;
            (
                PathItem { get: item.get, post: Option::None, put: item.put, delete: item.delete },
                prev,
            )
        },
        Method::Put => {
            let prev = item.put;
            (
                PathItem {
                    get: item.get,
                    post: item.post,
                    put: Option::None,
                    delete: item.delete,
                },
                prev,
            )
        },
        Method::Delete => {
            let prev = item.delete;
            (
                PathItem { get: item.get, post: item.post, put: item.put, delete: Option::None },
                prev,
            )
        },
    }
}

/// The path item with the operation under `m` removed.
pub open spec fn without_slot(item: PathItemV, m: Method) -> PathItemV {
    match m {
        Method::Get => PathItemV {
            get: Option::None,
            post: item.post,
            put: item.put,
            delete: item.delete,
        },
        Method::Post => PathItemV {
            get: item.get,
            post: Option::None,
            put: item.put,
            delete: item.delete,
        },
        Method::Put => PathItemV {
            get: item.get,
            post: item.post,
            put: Option::None,
            delete: item.delete,
        },
        Method::Delete => PathItemV {
            get: item.get,
            post: item.post,
            put: item.put,
            delete: Option::None,
        },
    }
}

/// Writes the operation into the slot for `m`.
fn put_slot(item: PathItem, m: Method, op: Operation) -> (r: PathItem)
    ensures
        path_item_view(r) == with_slot(path_item_view(item), m, operation_view(op)),
{
    match m {
        Method::Get => PathItem {
            get: Option::Some(op),
            post: item.post,
            put: item.put,
            delete: item.delete,
        },
        Method::Post => PathItem {
            get: item.get,
            post: Option::Some(op),
            put: item.put,
            delete: item.delete,
        },
        Method::Put => PathItem {
            get: item.get,
            post: item.post,
            put: Option::Some(op),
            delete: item.delete,
        },
        Method::Delete => PathItem {
            get: item.get,
            post: item.post,
            put: item.put,
            delete: Option::Some(op),
        },
    }
}

/// Builds the operation an insertion leaves in its slot, as
/// `spec_updated_operation` states.
fn updated_operation(
    prev: Option<Operation>,
    operation_id: Option<String>,
    parameters: Vec<Parameter>,
    request_schema: Option<Schema>,
    response_schema: Schema,
) -> (op: Operation)
    ensures
        operation_view(op) == spec_updated_operation(
            opt_operation_view(prev),
            opt_string_view(operation_id),
            param_list_view(parameters@),
            opt_schema_view(request_schema),
            schema_view(response_schema),
        ),
{
    let base = match prev {
        Option::Some(op0) => op0,
        Option::None => Operation {
            operation_id: Option::None,
            parameters: Vec::new(),
            request_body: Option::None,
            response_success: Option::None,
        },
    };
    Operation {
        operation_id: match operation_id {
            Option::Some(id) => Option::Some(id),
            Option::None => base.operation_id,
        },
        parameters,
        request_body: match request_schema {
            Option::Some(s) => Option::Some(s),
            Option::None => base.request_body,
        },
        response_success: Option::Some(response_schema),
    }
}

} // verus!
