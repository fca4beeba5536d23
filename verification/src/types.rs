use vstd::prelude::*;

verus! {

/// Represents a project registration for multi-project deployments.
/// Each project owns a namespace and can deploy independently.
/// Ownership is established by `project_id` on first claim.
#[derive(Debug)]
pub struct ProjectRegistration {
    /// Unique namespace owned by this project (e.g., "ECommerce", "UserService")
    pub namespace: String,
    /// Project identifier provided at deploy time (first claim owns the namespace)
    pub project_id: String,
    /// Timestamp of first deployment
    pub first_deployed: i64,
    /// Timestamp of last deployment
    pub last_deployed: i64,
    /// List of table names in this namespace (without prefix)
    pub table_names: Vec<String>,
}

/// The mathematical value of a [`ProjectRegistration`]: strings as sequences
/// of characters.
pub struct RegistrationModel {
    pub namespace: Seq<char>,
    pub project_id: Seq<char>,
    pub first_deployed: i64,
    pub last_deployed: i64,
    pub table_names: Seq<Seq<char>>,
}

/// The character sequences of a list of strings.
pub open spec fn strings_view(v: Seq<String>) -> Seq<Seq<char>> {
    v.map_values(|s: String| s@)
}

impl View for ProjectRegistration {
    type V = RegistrationModel;

    open spec fn view(&self) -> RegistrationModel {
        RegistrationModel {
            namespace: self.namespace@,
            project_id: self.project_id@,
            first_deployed: self.first_deployed,
            last_deployed: self.last_deployed,
            table_names: strings_view(self.table_names@),
        }
    }
}

/// A copy of `v`, string by string.
fn clone_strings(v: &Vec<String>) -> (res: Vec<String>)
    ensures
        res@ == v@,
{
    let mut res: Vec<String> = Vec::new();
    for i in 0..v.len()
        invariant
            res@ == v@.take(i as int),
    {
        res.push(v[i].clone());
        assert(res@ =~= v@.take(i + 1));
    }
    assert(v@.take(v.len() as int) =~= v@);
    res
}

impl Clone for ProjectRegistration {
    fn clone(&self) -> (res: Self)
        ensures
            res@ == self@,
    {
        ProjectRegistration {
            namespace: self.namespace.clone(),
            project_id: self.project_id.clone(),
            first_deployed: self.first_deployed,
            last_deployed: self.last_deployed,
            table_names: clone_strings(&self.table_names),
        }
    }
}

/// Why the registry refused a request.
#[derive(Debug)]
pub enum RegistryError {
    /// The namespace is already owned by another project (`owner`).
    NamespaceConflict { namespace: String, owner: String },
    /// The namespace has no registration to update.
    NamespaceNotRegistered,
    /// The system clock reads a time before the Unix epoch, so no deployment
    /// time can be recorded.
    ClockBeforeEpoch,
}

/// The mathematical value of a [`RegistryError`].
pub enum ErrorModel {
    NamespaceConflict { namespace: Seq<char>, owner: Seq<char> },
    NamespaceNotRegistered,
    ClockBeforeEpoch,
}

impl View for RegistryError {
    type V = ErrorModel;

    open spec fn view(&self) -> ErrorModel {
        match self {
            RegistryError::NamespaceConflict { namespace, owner } => ErrorModel::NamespaceConflict {
                namespace: namespace@,
                owner: owner@,
            },
            RegistryError::NamespaceNotRegistered => ErrorModel::NamespaceNotRegistered,
            RegistryError::ClockBeforeEpoch => ErrorModel::ClockBeforeEpoch,
        }
    }
}

/// The text that reports an error to the client.
pub open spec fn error_message(e: ErrorModel) -> Seq<char> {
    match e {
        ErrorModel::NamespaceConflict { namespace, owner } => "Namespace '"@ + namespace
            + "' is already owned by project '"@ + owner
            + "'. Use a different namespace or the same project_id."@,
        ErrorModel::NamespaceNotRegistered => "Namespace not registered"@,
        ErrorModel::ClockBeforeEpoch => "System clock reads a time before the Unix epoch"@,
    }
}

impl RegistryError {
    /// The text that reports this error to the client.
    pub fn message(&self) -> (res: String)
        ensures
            res@ == error_message(self@),
    {
        match self {
            RegistryError::NamespaceConflict { namespace, owner } => {
                let mut res = "Namespace '".to_owned();
                res.append(namespace.as_str());
                res.append("' is already owned by project '");
                res.append(owner.as_str());
                res.append("'. Use a different namespace or the same project_id.");
                res
            },
            RegistryError::NamespaceNotRegistered => "Namespace not registered".to_owned(),
            RegistryError::ClockBeforeEpoch => "System clock reads a time before the Unix epoch".to_owned(),
        }
    }
}

} // verus!
