use vstd::prelude::*;

use crate::entry_map::{entries_map, lemma_entries_map_of_listing, lists_entries};
use crate::project_registry::{register_spec, update_spec, validate_spec, RegistryModel};
use crate::types::{ErrorModel, RegistrationModel};

verus! {

/// A namespace that one project owns refuses every other project, whether it
/// asks to deploy or to claim the namespace; the refusal names the owner and
/// changes no registration.
pub proof fn law_owner_is_exclusive(m: RegistryModel, namespace: Seq<char>, other: Seq<char>, now: i64)
    requires
        m.contains_key(namespace),
        m[namespace].project_id != other,
    ensures
        validate_spec(m, namespace, other) == Err::<(), ErrorModel>(
            ErrorModel::NamespaceConflict { namespace, owner: m[namespace].project_id },
        ),
        register_spec(m, namespace, other, now) == (
            m,
            Err::<RegistrationModel, ErrorModel>(
                ErrorModel::NamespaceConflict { namespace, owner: m[namespace].project_id },
            ),
        ),
{
}

/// The first claim owns: once a project's claim of a namespace succeeds, that
/// project may deploy and claim it again, and every other project is refused.
pub proof fn law_first_claim_owns(
    m: RegistryModel,
    namespace: Seq<char>,
    project_id: Seq<char>,
    other: Seq<char>,
    t1: i64,
    t2: i64,
)
    requires
        register_spec(m, namespace, project_id, t1).1 is Ok,
        other != project_id,
    ensures
        ({
            let m1 = register_spec(m, namespace, project_id, t1).0;
            &&& m1.contains_key(namespace)
            &&& m1[namespace].project_id == project_id
            &&& validate_spec(m1, namespace, project_id) is Ok
            &&& register_spec(m1, namespace, project_id, t2).1 is Ok
            &&& validate_spec(m1, namespace, other) is Err
            &&& register_spec(m1, namespace, other, t2) == (
                m1,
                Err::<RegistrationModel, ErrorModel>(
                    ErrorModel::NamespaceConflict { namespace, owner: project_id },
                ),
            )
        }),
{
}

/// Validation answers as a claim would: a project passes validation of a
/// namespace exactly when its claim of it succeeds, at any time; a refused
/// claim gives the validation's error and changes nothing. In particular an
/// unregistered namespace passes.
pub proof fn law_validate_predicts_register(m: RegistryModel, namespace: Seq<char>, project_id: Seq<char>, now: i64)
    ensures
        validate_spec(m, namespace, project_id) is Ok <==> register_spec(m, namespace, project_id, now).1 is Ok,
        validate_spec(m, namespace, project_id) matches Err(e) ==> register_spec(m, namespace, project_id, now) == (
            m,
            Err::<RegistrationModel, ErrorModel>(e),
        ),
        !m.contains_key(namespace) ==> validate_spec(m, namespace, project_id) is Ok,
{
}

/// A project's second claim of its namespace keeps the first deployment's
/// time, the owner, the namespace and the table list, and moves only
/// `last_deployed`, to the time of the second claim.
pub proof fn law_reclaim_keeps_first_deployed(
    m: RegistryModel,
    namespace: Seq<char>,
    project_id: Seq<char>,
    t1: i64,
    t2: i64,
)
    requires
        register_spec(m, namespace, project_id, t1).1 is Ok,
    ensures
        ({
            let first = register_spec(m, namespace, project_id, t1).1->Ok_0;
            let m1 = register_spec(m, namespace, project_id, t1).0;
            let second = register_spec(m1, namespace, project_id, t2).1;
            &&& second is Ok
            &&& second->Ok_0.first_deployed == first.first_deployed
            &&& second->Ok_0.project_id == first.project_id
            &&& second->Ok_0.namespace == first.namespace
            &&& second->Ok_0.table_names == first.table_names
            &&& second->Ok_0.last_deployed == t2
        }),
{
}

/// What a successful claim returns is what the registry then holds for the
/// namespace.
pub proof fn law_read_after_register(m: RegistryModel, namespace: Seq<char>, project_id: Seq<char>, now: i64)
    ensures
        register_spec(m, namespace, project_id, now).1 matches Ok(r) ==> {
            let m1 = register_spec(m, namespace, project_id, now).0;
            m1.contains_key(namespace) && m1[namespace] == r
        },
{
}

/// An update succeeds exactly on a registered namespace, and a refused one
/// changes nothing; after a successful one the namespace holds the new table
/// list and time, under the same owner and first deployment time.
pub proof fn law_update_needs_registration(
    m: RegistryModel,
    namespace: Seq<char>,
    table_names: Seq<Seq<char>>,
    now: i64,
)
    ensures
        update_spec(m, namespace, table_names, now).1 is Ok <==> m.contains_key(namespace),
        !m.contains_key(namespace) ==> update_spec(m, namespace, table_names, now).0 == m,
        m.contains_key(namespace) ==> {
            let m1 = update_spec(m, namespace, table_names, now).0;
            &&& m1.contains_key(namespace)
            &&& m1[namespace].table_names == table_names
            &&& m1[namespace].last_deployed == now
            &&& m1[namespace].project_id == m[namespace].project_id
            &&& m1[namespace].first_deployed == m[namespace].first_deployed
        },
{
}

/// No claim and no update removes a registration or changes its owner or its
/// first deployment time, and neither touches any other namespace.
pub proof fn law_registrations_persist(
    m: RegistryModel,
    namespace: Seq<char>,
    project_id: Seq<char>,
    table_names: Seq<Seq<char>>,
    now: i64,
    key: Seq<char>,
)
    requires
        m.contains_key(key),
    ensures
        ({
            let after_claim = register_spec(m, namespace, project_id, now).0;
            let after_update = update_spec(m, namespace, table_names, now).0;
            &&& after_claim.contains_key(key)
            &&& after_claim[key].project_id == m[key].project_id
            &&& after_claim[key].first_deployed == m[key].first_deployed
            &&& key != namespace ==> after_claim[key] == m[key]
            &&& after_update.contains_key(key)
            &&& after_update[key].project_id == m[key].project_id
            &&& after_update[key].first_deployed == m[key].first_deployed
            &&& key != namespace ==> after_update[key] == m[key]
        }),
{
}

/// Storing, one after the other, the entries that a registry lists gives the
/// same registrations back: a registry written out and read in again holds
/// what it held.
pub proof fn law_rebuild_from_entries(m: RegistryModel, entries: Seq<(Seq<char>, RegistrationModel)>)
    requires
        lists_entries(m, entries),
    ensures
        entries_map(entries) == m,
{
    lemma_entries_map_of_listing(m, entries);
}

/// The owner of a namespace is never refused, whatever the registration
/// holds: validation passes, and a claim succeeds with the registration kept
/// (namespace, owner, first deployment time, tables) and stamped with the
/// claim's time, which is then what the registry holds.
pub proof fn law_owner_always_passes(m: RegistryModel, namespace: Seq<char>, project_id: Seq<char>, now: i64)
    requires
        m.contains_key(namespace),
        m[namespace].project_id == project_id,
    ensures
        validate_spec(m, namespace, project_id) == Ok::<(), ErrorModel>(()),
        register_spec(m, namespace, project_id, now).1 matches Ok(r) && {
            &&& r.namespace == m[namespace].namespace
            &&& r.project_id == project_id
            &&& r.first_deployed == m[namespace].first_deployed
            &&& r.table_names == m[namespace].table_names
            &&& r.last_deployed == now
            &&& register_spec(m, namespace, project_id, now).0.contains_key(namespace)
            &&& register_spec(m, namespace, project_id, now).0[namespace] == r
        },
{
}

/// A conflict is reported only when the namespace is registered to another
/// project, and it names that project; validation and claims agree on it.
pub proof fn law_conflict_only_with_other_owner(m: RegistryModel, namespace: Seq<char>, project_id: Seq<char>, now: i64)
    ensures
        (validate_spec(m, namespace, project_id) is Err) ==> (m.contains_key(namespace)
            && m[namespace].project_id != project_id),
        (register_spec(m, namespace, project_id, now).1 is Err) ==> (m.contains_key(namespace)
            && m[namespace].project_id != project_id),
        (validate_spec(m, namespace, project_id) is Err) ==> validate_spec(m, namespace, project_id)->Err_0 == (
        ErrorModel::NamespaceConflict { namespace, owner: m[namespace].project_id }),
        (register_spec(m, namespace, project_id, now).1 is Err) ==> register_spec(m, namespace, project_id, now).1->Err_0
            == (ErrorModel::NamespaceConflict { namespace, owner: m[namespace].project_id }),
{
}

/// Every successful claim is stamped with the claim's time as its last
/// deployment; a first claim also starts its first deployment then, under the
/// claiming project, with no tables.
pub proof fn law_claim_stamps_now(m: RegistryModel, namespace: Seq<char>, project_id: Seq<char>, now: i64)
    ensures
        register_spec(m, namespace, project_id, now).1 matches Ok(r) ==> r.last_deployed == now && r.project_id
            == project_id,
        !m.contains_key(namespace) ==> ({
            let r = register_spec(m, namespace, project_id, now).1->Ok_0;
            &&& register_spec(m, namespace, project_id, now).1 is Ok
            &&& r.namespace == namespace
            &&& r.project_id == project_id
            &&& r.first_deployed == now
            &&& r.last_deployed == now
            &&& r.table_names.len() == 0
        }),
{
}

} // verus!
