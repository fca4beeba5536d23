use vstd::prelude::*;

verus! {

/// A schema source with a namespace, for multi-schema deployments. `M` is the
/// schema module's configuration.
pub struct SchemaSource<M> {
    /// Namespace prefix for tables from this schema (e.g., "UserService",
    /// "Analytics")
    pub namespace: String,
    /// The schema module configuration
    pub module: M,
    /// Whether this schema can override tables from other sources
    pub allow_override: bool,
}

/// The module of an optional configuration, as a sequence of none or one.
pub open spec fn option_modules<M>(o: Option<M>) -> Seq<M> {
    match o {
        Some(m) => seq![m],
        None => Seq::empty(),
    }
}

/// The modules of schema sources, in order.
pub open spec fn schema_modules<M>(s: Seq<SchemaSource<M>>) -> Seq<M> {
    s.map_values(|x: SchemaSource<M>| x.module)
}

/// Every schema source gives exactly one module, its own, in place: whatever
/// it says of overriding, none is left out and none is added.
pub proof fn law_every_schema_source_listed<M>(s: Seq<SchemaSource<M>>)
    ensures
        schema_modules(s).len() == s.len(),
        forall|j: int| 0 <= j < s.len() ==> #[trigger] schema_modules(s)[j] == s[j].module,
{
}

/// The values behind a list of references.
pub open spec fn deref_all<M>(s: Seq<&M>) -> Seq<M> {
    s.map_values(|r: &M| *r)
}

/// The module-bearing parts of an app definition: its bundled definition,
/// its schema and its additional namespaced schemas. `M` is a module's
/// configuration.
pub struct AppDefinitionConfig<M> {
    /// Bundled `convex.config.js` if present.
    pub definition: Option<M>,
    /// Optional schema.js.
    pub schema: Option<M>,
    /// Additional namespaced schemas for multi-source deployments; each
    /// schema gets its own namespace to prevent table name conflicts.
    pub additional_schemas: Vec<SchemaSource<M>>,
}

/// The module-bearing parts of a component definition: its bundled
/// definition, its schema, its additional namespaced schemas and its
/// function modules. `M` is a module's configuration.
pub struct ComponentDefinitionConfig<M> {
    /// Bundled component definition at `convex.config.js`.
    pub definition: M,
    /// Optional schema.js.
    pub schema: Option<M>,
    /// Additional namespaced schemas for multi-source deployments.
    pub additional_schemas: Vec<SchemaSource<M>>,
    /// All modules available at runtime.
    pub functions: Vec<M>,
}

/// Appends a reference to each of `items`, in order.
fn push_each<'a, M>(res: &mut Vec<&'a M>, items: &'a [M])
    ensures
        deref_all(final(res)@) == deref_all(old(res)@) + items@,
{
    let ghost start = deref_all(res@);
    for i in 0..items.len()
        invariant
            deref_all(res@) == start + items@.take(i as int),
    {
        let ghost prev = res@;
        res.push(&items[i]);
        assert(deref_all(res@) =~= deref_all(prev).push(items@[i as int]));
        assert(items@.take(i + 1) =~= items@.take(i as int).push(items@[i as int]));
        assert(deref_all(res@) =~= start + items@.take(i + 1));
    }
    assert(items@.take(items@.len() as int) =~= items@);
}

/// Appends a reference to the module of `o`, if there is one.
fn push_option<'a, M>(res: &mut Vec<&'a M>, o: &'a Option<M>)
    ensures
        deref_all(final(res)@) == deref_all(old(res)@) + option_modules(*o),
{
    match o {
        Some(m) => {
            res.push(m);
            assert(deref_all(res@) =~= deref_all(old(res)@) + option_modules(*o));
        },
        None => {
            assert(deref_all(res@) =~= deref_all(old(res)@) + option_modules(*o));
        },
    }
}

/// Appends a reference to the module of each schema source, in order.
fn push_schema_modules<'a, M>(res: &mut Vec<&'a M>, sources: &'a Vec<SchemaSource<M>>)
    ensures
        deref_all(final(res)@) == deref_all(old(res)@) + schema_modules(sources@),
{
    let ghost start = deref_all(res@);
    for i in 0..sources.len()
        invariant
            deref_all(res@) == start + schema_modules(sources@.take(i as int)),
    {
        let ghost prev = res@;
        res.push(&sources[i].module);
        assert(deref_all(res@) =~= deref_all(prev).push(sources@[i as int].module));
        assert(sources@.take(i + 1) =~= sources@.take(i as int).push(sources@[i as int]));
        assert(schema_modules(sources@.take(i + 1)) =~= schema_modules(sources@.take(i as int)).push(
            sources@[i as int].module,
        ));
        assert(deref_all(res@) =~= start + schema_modules(sources@.take(i + 1)));
    }
    assert(sources@.take(sources@.len() as int) =~= sources@);
}

impl<M> AppDefinitionConfig<M> {
    /// All app modules: the runtime functions (passed in, since the modules
    /// of unchanged hashes may have to be fetched first), then the schema,
    /// then each additional namespaced schema, then the definition.
    pub fn all_modules<'a>(&'a self, app_functions: &'a [M]) -> (res: Vec<&'a M>)
        ensures
            deref_all(res@) == app_functions@ + option_modules(self.schema) + schema_modules(
                self.additional_schemas@,
            ) + option_modules(self.definition),
            res@.len() == app_functions@.len() + option_modules(self.schema).len()
                + self.additional_schemas@.len() + option_modules(self.definition).len(),
            forall|i: int| 0 <= i < app_functions@.len() ==> *#[trigger] res@[i] == app_functions@[i],
            self.schema matches Some(m) ==> *res@[app_functions@.len() as int] == m,
            forall|j: int|
                0 <= j < self.additional_schemas@.len() ==> *#[trigger] res@[app_functions@.len()
                    + option_modules(self.schema).len() + j] == self.additional_schemas@[j].module,
            self.definition matches Some(m) ==> *res@[res@.len() - 1] == m,
    {
        let mut res: Vec<&'a M> = Vec::new();
        assert(deref_all(res@) =~= Seq::empty());
        push_each(&mut res, app_functions);
        push_option(&mut res, &self.schema);
        push_schema_modules(&mut res, &self.additional_schemas);
        push_option(&mut res, &self.definition);
        assert(deref_all(res@) =~= app_functions@ + option_modules(self.schema) + schema_modules(
            self.additional_schemas@,
        ) + option_modules(self.definition));
        proof {
            law_every_schema_source_listed(self.additional_schemas@);
            let d = deref_all(res@);
            assert(d.len() == res@.len());
            assert forall|i: int| 0 <= i < app_functions@.len() implies *#[trigger] res@[i] == app_functions@[i] by {
                assert(d[i] == *res@[i]);
            }
            let base = app_functions@.len() + option_modules(self.schema).len();
            assert forall|j: int| 0 <= j < self.additional_schemas@.len() implies *#[trigger] res@[app_functions@.len()
                + option_modules(self.schema).len() + j] == self.additional_schemas@[j].module by {
                assert(d[base + j] == *res@[base + j]);
            }
            if self.schema is Some {
                assert(d[app_functions@.len() as int] == *res@[app_functions@.len() as int]);
            }
            if self.definition is Some {
                assert(d[d.len() - 1] == *res@[res@.len() - 1]);
            }
        }
        res
    }
}

impl<M> ComponentDefinitionConfig<M> {
    /// All modules of the component: the definition, then the schema, then
    /// each additional namespaced schema, then the function modules.
    pub fn modules(&self) -> (res: Vec<&M>)
        ensures
            deref_all(res@) == seq![self.definition] + option_modules(self.schema) + schema_modules(
                self.additional_schemas@,
            ) + self.functions@,
            res@.len() == 1 + option_modules(self.schema).len() + self.additional_schemas@.len()
                + self.functions@.len(),
            *res@[0] == self.definition,
            self.schema matches Some(m) ==> *res@[1] == m,
            forall|j: int|
                0 <= j < self.additional_schemas@.len() ==> *#[trigger] res@[1 + option_modules(self.schema).len()
                    + j] == self.additional_schemas@[j].module,
            forall|k: int|
                0 <= k < self.functions@.len() ==> *#[trigger] res@[1 + option_modules(self.schema).len()
                    + self.additional_schemas@.len() + k] == self.functions@[k],
    {
        let mut res: Vec<&M> = Vec::new();
        res.push(&self.definition);
        assert(deref_all(res@) =~= seq![self.definition]);
        push_option(&mut res, &self.schema);
        push_schema_modules(&mut res, &self.additional_schemas);
        push_each(&mut res, self.functions.as_slice());
        assert(deref_all(res@) =~= seq![self.definition] + option_modules(self.schema) + schema_modules(
            self.additional_schemas@,
        ) + self.functions@);
        proof {
            law_every_schema_source_listed(self.additional_schemas@);
            let d = deref_all(res@);
            assert(d[0] == *res@[0]);
            if self.schema is Some {
                assert(d[1] == *res@[1]);
            }
            let base = 1 + option_modules(self.schema).len();
            assert forall|j: int| 0 <= j < self.additional_schemas@.len() implies *#[trigger] res@[1
                + option_modules(self.schema).len() + j] == self.additional_schemas@[j].module by {
                assert(d[base + j] == *res@[base + j]);
            }
            let base2 = base + self.additional_schemas@.len();
            assert forall|k: int| 0 <= k < self.functions@.len() implies *#[trigger] res@[1
                + option_modules(self.schema).len() + self.additional_schemas@.len() + k] == self.functions@[k] by {
                assert(d[base2 + k] == *res@[base2 + k]);
            }
        }
        res
    }
}

} // verus!
