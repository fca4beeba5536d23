use vstd::prelude::*;

use crate::entry_map::{
    entries_map, has_key, keys_distinct, lemma_entries_map_dom, lemma_entries_map_lists,
    lemma_entries_map_update, lemma_entries_map_value, lemma_push_new_key, lists_entries,
};
use crate::clock::{clock_gives, read_clock};
use crate::types::{strings_view, ErrorModel, ProjectRegistration, RegistrationModel, RegistryError};

verus! {

/// System table name for storing project registrations (reserved for future
/// database persistence).
pub const PROJECT_REGISTRY_TABLE: &'static str = "_project_registry";

/// The registrations of a registry, keyed by namespace.
pub type RegistryModel = Map<Seq<char>, RegistrationModel>;

/// A registration made at time `now` by a project's first claim of a namespace.
pub open spec fn fresh_registration(namespace: Seq<char>, project_id: Seq<char>, now: i64) -> RegistrationModel {
    RegistrationModel {
        namespace,
        project_id,
        first_deployed: now,
        last_deployed: now,
        table_names: Seq::empty(),
    }
}

/// `r` redeployed at time `now`.
pub open spec fn redeployed(r: RegistrationModel, now: i64) -> RegistrationModel {
    RegistrationModel {
        namespace: r.namespace,
        project_id: r.project_id,
        first_deployed: r.first_deployed,
        last_deployed: now,
        table_names: r.table_names,
    }
}

/// `r` after a deployment at time `now` that left the tables `table_names`.
pub open spec fn with_tables(r: RegistrationModel, table_names: Seq<Seq<char>>, now: i64) -> RegistrationModel {
    RegistrationModel {
        namespace: r.namespace,
        project_id: r.project_id,
        first_deployed: r.first_deployed,
        last_deployed: now,
        table_names,
    }
}

/// Whether `project_id` may deploy to `namespace`: it may unless another
/// project owns the namespace.
pub open spec fn validate_spec(m: RegistryModel, namespace: Seq<char>, project_id: Seq<char>) -> Result<(), ErrorModel> {
    if m.contains_key(namespace) && m[namespace].project_id != project_id {
        Err(ErrorModel::NamespaceConflict { namespace, owner: m[namespace].project_id })
    } else {
        Ok(())
    }
}

/// A claim of `namespace` by `project_id` at time `now`: the registrations
/// after it and the answer.
/// - the same project again: `last_deployed` becomes `now`, the registration
///   is returned;
/// - another project: refused, nothing changes;
/// - a new namespace: a fresh registration.
pub open spec fn register_spec(m: RegistryModel, namespace: Seq<char>, project_id: Seq<char>, now: i64) -> (
    RegistryModel,
    Result<RegistrationModel, ErrorModel>,
) {
    if m.contains_key(namespace) {
        let r = m[namespace];
        if r.project_id == project_id {
            (m.insert(namespace, redeployed(r, now)), Ok(redeployed(r, now)))
        } else {
            (m, Err(ErrorModel::NamespaceConflict { namespace, owner: r.project_id }))
        }
    } else {
        (
            m.insert(namespace, fresh_registration(namespace, project_id, now)),
            Ok(fresh_registration(namespace, project_id, now)),
        )
    }
}

/// A deployment to `namespace` at time `now` that left the tables
/// `table_names`: the registrations after it and the answer.
pub open spec fn update_spec(m: RegistryModel, namespace: Seq<char>, table_names: Seq<Seq<char>>, now: i64) -> (
    RegistryModel,
    Result<(), ErrorModel>,
) {
    if m.contains_key(namespace) {
        (m.insert(namespace, with_tables(m[namespace], table_names, now)), Ok(()))
    } else {
        (m, Err(ErrorModel::NamespaceNotRegistered))
    }
}

/// `values` are the registrations of `m`, each once, in some order.
pub open spec fn lists_values(m: RegistryModel, values: Seq<RegistrationModel>) -> bool {
    exists|s: Seq<(Seq<char>, RegistrationModel)>|
        #[trigger] lists_entries(m, s) && values == s.map_values(|e: (Seq<char>, RegistrationModel)| e.1)
}

/// The mathematical value of a registration answer.
pub open spec fn registration_result_view(r: Result<ProjectRegistration, RegistryError>) -> Result<RegistrationModel, ErrorModel> {
    match r {
        Ok(reg) => Ok(reg@),
        Err(e) => Err(e@),
    }
}

/// The mathematical value of an answer that carries no value.
pub open spec fn unit_result_view(r: Result<(), RegistryError>) -> Result<(), ErrorModel> {
    match r {
        Ok(()) => Ok(()),
        Err(e) => Err(e@),
    }
}

/// The mathematical value of a stored pair of namespace and registration.
pub open spec fn entry_view(e: (String, ProjectRegistration)) -> (Seq<char>, RegistrationModel) {
    (e.0@, e.1@)
}

/// A list of stored pairs, as mathematical values.
pub open spec fn entries_view(v: Seq<(String, ProjectRegistration)>) -> Seq<(Seq<char>, RegistrationModel)> {
    v.map_values(|e: (String, ProjectRegistration)| entry_view(e))
}

/// Project registry for multi-project deployments.
/// Ownership is established by `project_id`: any client presenting the same
/// `project_id` may deploy to the same namespace.
pub struct ProjectRegistry {
    entries: Vec<(String, ProjectRegistration)>,
}

impl ProjectRegistry {
    /// The stored pairs, as mathematical values.
    pub closed spec fn entry_seq(&self) -> Seq<(Seq<char>, RegistrationModel)> {
        entries_view(self.entries@)
    }

    /// Well-formedness, kept by every registry: no namespace is stored twice.
    #[verifier::type_invariant]
    spec fn wf(&self) -> bool {
        keys_distinct(self.entry_seq())
    }
}

impl View for ProjectRegistry {
    type V = RegistryModel;

    closed spec fn view(&self) -> RegistryModel {
        entries_map(self.entry_seq())
    }
}

impl ProjectRegistry {
    /// An empty registry held in memory.
    pub fn new() -> (res: Self)
        ensures
            res@ == RegistryModel::empty(),
    {
        let res = ProjectRegistry { entries: Vec::new() };
        assert(res.entry_seq() =~= Seq::empty());
        res
    }

    /// The position of `namespace` among the stored pairs, if it is there.
    fn find(&self, namespace: &String) -> (res: Option<usize>)
        ensures
            match res {
                Some(i) => i < self.entries@.len() && self.entry_seq()[i as int].0 == namespace@
                    && self@.contains_key(namespace@)
                    && self@[namespace@] == self.entry_seq()[i as int].1,
                None => !self@.contains_key(namespace@),
            },
    {
        proof {
            use_type_invariant(self);
            lemma_entries_map_dom(self.entry_seq());
        }
        let n = self.entries.len();
        for i in 0..n
            invariant
                n == self.entries@.len(),
                keys_distinct(self.entry_seq()),
                forall|j: int| 0 <= j < i ==> self.entry_seq()[j].0 != namespace@,
        {
            if self.entries[i].0 == *namespace {
                proof {
                    lemma_entries_map_value(self.entry_seq(), i as int);
                }
                return Some(i);
            }
        }
        proof {
            if has_key(self.entry_seq(), namespace@) {
                let j = choose|j: int| 0 <= j < self.entry_seq().len() && #[trigger] self.entry_seq()[j].0 == namespace@;
                assert(false);
            }
        }
        None
    }

    /// Stores `registration` under `namespace`, replacing what was stored there.
    fn insert(&mut self, namespace: String, registration: ProjectRegistration)
        ensures
            final(self)@ == old(self)@.insert(namespace@, registration@),
    {
        proof {
            use_type_invariant(&*self);
        }
        let found = self.find(&namespace);
        let mut entries: Vec<(String, ProjectRegistration)> = Vec::new();
        std::mem::swap(&mut entries, &mut self.entries);
        let ghost before = entries_view(entries@);
        assert(before == old(self).entry_seq());
        match found {
            Some(i) => {
                proof {
                    lemma_entries_map_update(before, i as int, registration@);
                }
                entries.set(i, (namespace, registration));
                assert(entries_view(entries@) =~= before.update(i as int, (before[i as int].0, registration@)));
            },
            None => {
                proof {
                    lemma_entries_map_dom(before);
                    lemma_push_new_key(before, namespace@, registration@);
                }
                entries.push((namespace, registration));
                assert(entries_view(entries@) =~= before.push((namespace@, registration@)));
            },
        }
        self.entries = entries;
    }

    /// Registers (or re-registers) `namespace` for `project_id` at time `now`.
    ///
    /// - Same `project_id` on an existing namespace: sets `last_deployed` to
    ///   `now` and returns the registration, so several developers of one
    ///   project can deploy without conflict.
    /// - Different `project_id` on an existing namespace: refused with
    ///   [`RegistryError::NamespaceConflict`], nothing changes.
    /// - New namespace: creates a fresh registration.
    pub fn register_namespace_at(&mut self, namespace: String, project_id: String, now: i64) -> (res: Result<
        ProjectRegistration,
        RegistryError,
    >)
        ensures
            final(self)@ == register_spec(old(self)@, namespace@, project_id@, now).0,
            registration_result_view(res) == register_spec(old(self)@, namespace@, project_id@, now).1,
    {
        match self.find(&namespace) {
            Some(i) => {
                if self.entries[i].1.project_id == project_id {
                    let mut reg = self.entries[i].1.clone();
                    reg.last_deployed = now;
                    let answer = reg.clone();
                    self.insert(namespace, reg);
                    Ok(answer)
                } else {
                    let owner = self.entries[i].1.project_id.clone();
                    Err(RegistryError::NamespaceConflict { namespace, owner })
                }
            },
            None => {
                let reg = ProjectRegistration {
                    namespace: namespace.clone(),
                    project_id,
                    first_deployed: now,
                    last_deployed: now,
                    table_names: Vec::new(),
                };
                assert(reg@.table_names =~= Seq::empty());
                let answer = reg.clone();
                self.insert(namespace, reg);
                Ok(answer)
            },
        }
    }

    /// Registers (or re-registers) `namespace` for `project_id`, stamped with
    /// the current time: as [`Self::register_namespace_at`] at the time the
    /// system clock gives. When the clock reads a time before the Unix epoch
    /// it is refused with [`RegistryError::ClockBeforeEpoch`] and nothing
    /// changes.
    pub fn register_namespace(&mut self, namespace: String, project_id: String) -> (res: Result<
        ProjectRegistration,
        RegistryError,
    >)
        ensures
            (res matches Err(RegistryError::ClockBeforeEpoch)) ==> final(self)@ == old(self)@,
            (res matches Err(RegistryError::ClockBeforeEpoch)) ==> clock_gives(None),
            !(res matches Err(RegistryError::ClockBeforeEpoch)) ==> exists|now: i64|
                final(self)@ == #[trigger] register_spec(old(self)@, namespace@, project_id@, now).0
                    && registration_result_view(res) == register_spec(old(self)@, namespace@, project_id@, now).1
                    && clock_gives(Some(now)),
            res is Ok ==> validate_spec(old(self)@, namespace@, project_id@) is Ok,
    {
        match read_clock() {
            Some(now) => self.register_namespace_at(namespace, project_id, now),
            None => Err(RegistryError::ClockBeforeEpoch),
        }
    }

    /// Checks that `project_id` may deploy to `namespace`: the same project
    /// passes, a different one is refused, and an unregistered namespace
    /// passes (its first deployment will register it).
    pub fn validate_ownership(&self, namespace: &str, project_id: &str) -> (res: Result<(), RegistryError>)
        ensures
            unit_result_view(res) == validate_spec(self@, namespace@, project_id@),
    {
        let key = namespace.to_owned();
        match self.find(&key) {
            Some(i) => {
                let project = project_id.to_owned();
                if self.entries[i].1.project_id == project {
                    Ok(())
                } else {
                    let owner = self.entries[i].1.project_id.clone();
                    Err(RegistryError::NamespaceConflict { namespace: key, owner })
                }
            },
            None => Ok(()),
        }
    }

    /// The registration of `namespace`, if it has one.
    pub fn get_registration(&self, namespace: &str) -> (res: Result<Option<ProjectRegistration>, RegistryError>)
        ensures
            res matches Ok(found) && match found {
                Some(r) => self@.contains_key(namespace@) && r@ == self@[namespace@],
                None => !self@.contains_key(namespace@),
            },
    {
        let key = namespace.to_owned();
        match self.find(&key) {
            Some(i) => Ok(Some(self.entries[i].1.clone())),
            None => Ok(None),
        }
    }

    /// Records a successful deployment to `namespace` at time `now`: its
    /// table list becomes `table_names` and `last_deployed` becomes `now`.
    /// An unregistered namespace is refused with
    /// [`RegistryError::NamespaceNotRegistered`].
    pub fn update_registration_at(&mut self, namespace: &str, table_names: Vec<String>, now: i64) -> (res: Result<
        (),
        RegistryError,
    >)
        ensures
            final(self)@ == update_spec(old(self)@, namespace@, strings_view(table_names@), now).0,
            unit_result_view(res) == update_spec(old(self)@, namespace@, strings_view(table_names@), now).1,
    {
        let key = namespace.to_owned();
        match self.find(&key) {
            Some(i) => {
                let mut reg = self.entries[i].1.clone();
                reg.last_deployed = now;
                reg.table_names = table_names;
                self.insert(key, reg);
                Ok(())
            },
            None => Err(RegistryError::NamespaceNotRegistered),
        }
    }

    /// Records a successful deployment to `namespace` (table list and
    /// timestamp), stamped with the current time: as
    /// [`Self::update_registration_at`] at the time the system clock gives.
    /// The clock is read only for a registered namespace; when it reads a time
    /// before the Unix epoch the update is refused with
    /// [`RegistryError::ClockBeforeEpoch`] and nothing changes.
    pub fn update_registration(&mut self, namespace: &str, table_names: Vec<String>) -> (res: Result<(), RegistryError>)
        ensures
            !old(self)@.contains_key(namespace@) ==> (res matches Err(RegistryError::NamespaceNotRegistered)),
            !old(self)@.contains_key(namespace@) ==> final(self)@ == old(self)@,
            (res matches Err(RegistryError::ClockBeforeEpoch)) ==> old(self)@.contains_key(namespace@)
                && final(self)@ == old(self)@ && clock_gives(None),
            !(res matches Err(RegistryError::ClockBeforeEpoch)) ==> exists|now: i64|
                final(self)@ == #[trigger] update_spec(old(self)@, namespace@, strings_view(table_names@), now).0
                    && unit_result_view(res) == update_spec(old(self)@, namespace@, strings_view(table_names@), now).1
                    && (old(self)@.contains_key(namespace@) ==> clock_gives(Some(now))),
    {
        let key = namespace.to_owned();
        match self.find(&key) {
            Some(_) => match read_clock() {
                Some(now) => self.update_registration_at(namespace, table_names, now),
                None => Err(RegistryError::ClockBeforeEpoch),
            },
            None => {
                assert(update_spec(self@, namespace@, strings_view(table_names@), 0).0 == self@);
                Err(RegistryError::NamespaceNotRegistered)
            },
        }
    }

    /// Every stored pair of namespace and registration, each once.
    pub fn entries(&self) -> (res: Vec<(String, ProjectRegistration)>)
        ensures
            lists_entries(self@, res@.map_values(|e: (String, ProjectRegistration)| entry_view(e))),
    {
        let mut res: Vec<(String, ProjectRegistration)> = Vec::new();
        let n = self.entries.len();
        for i in 0..n
            invariant
                n == self.entries@.len(),
                res@.len() == i,
                res@.map_values(|e: (String, ProjectRegistration)| entry_view(e)) =~= self.entry_seq().take(i as int),
        {
            let key = self.entries[i].0.clone();
            let reg = self.entries[i].1.clone();
            let ghost before = res@;
            res.push((key, reg));
            assert(entry_view(res@[i as int]) == self.entry_seq()[i as int]);
            assert(res@.drop_last() == before);
            assert(res@.map_values(|e: (String, ProjectRegistration)| entry_view(e)) =~= self.entry_seq().take(i + 1));
        }
        proof {
            assert(self.entry_seq().take(n as int) =~= self.entry_seq());
            use_type_invariant(self);
            lemma_entries_map_lists(self.entry_seq());
        }
        res
    }

    /// Every registration, each once, in no particular order.
    pub fn get_all_registrations(&self) -> (res: Result<Vec<ProjectRegistration>, RegistryError>)
        ensures
            res matches Ok(all) && lists_values(self@, all@.map_values(|r: ProjectRegistration| r@)),
    {
        let mut res: Vec<ProjectRegistration> = Vec::new();
        let n = self.entries.len();
        let ghost values = self.entry_seq().map_values(|e: (Seq<char>, RegistrationModel)| e.1);
        for i in 0..n
            invariant
                n == self.entries@.len(),
                values == self.entry_seq().map_values(|e: (Seq<char>, RegistrationModel)| e.1),
                res@.len() == i,
                res@.map_values(|r: ProjectRegistration| r@) =~= values.take(i as int),
        {
            let reg = self.entries[i].1.clone();
            let ghost before = res@;
            res.push(reg);
            assert(res@[i as int]@ == values[i as int]);
            assert(res@.drop_last() == before);
            assert(res@.map_values(|r: ProjectRegistration| r@) =~= values.take(i + 1));
        }
        proof {
            assert(values.take(n as int) =~= values);
            use_type_invariant(self);
            lemma_entries_map_lists(self.entry_seq());
        }
        Ok(res)
    }

    /// A registry holding the given pairs, stored one after the other: a
    /// later pair for a namespace replaces an earlier one, as when a map of
    /// registrations is read back in.
    pub fn from_entries(entries: Vec<(String, ProjectRegistration)>) -> (res: Self)
        ensures
            res@ == entries_map(entries@.map_values(|e: (String, ProjectRegistration)| entry_view(e))),
    {
        let ghost input = entries@.map_values(|e: (String, ProjectRegistration)| entry_view(e));
        let mut res = ProjectRegistry::new();
        for e in iter: entries.into_iter()
            invariant
                input == iter.seq().map_values(|e: (String, ProjectRegistration)| entry_view(e)),
                res@ == entries_map(input.take(iter.index() as int)),
        {
            proof {
                assert(input.take(iter.index() + 1).drop_last() =~= input.take(iter.index() as int));
            }
            let (key, reg) = e;
            res.insert(key, reg);
        }
        proof {
            assert(input.take(input.len() as int) =~= input);
        }
        res
    }
}

impl Default for ProjectRegistry {
    /// An empty registry, as [`ProjectRegistry::new`].
    fn default() -> (res: Self)
        ensures
            res@ == RegistryModel::empty(),
    {
        Self::new()
    }
}

} // verus!
