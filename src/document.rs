use vstd::prelude::*;

verus! {

/// Connection data of one cluster: its certificate authority and endpoint.
#[derive(Debug, Clone)]
pub struct ClusterConfig {
    pub certificate_authority_data: String,
    pub server: String,
}

/// A named cluster entry.
#[derive(Debug, Clone)]
pub struct ClustersConfig {
    pub cluster: ClusterConfig,
    pub name: String,
}

/// A context: which user connects to which cluster, both by name.
#[derive(Debug, Clone)]
pub struct ContextConfig {
    pub cluster: String,
    pub user: String,
}

/// A named context entry.
#[derive(Debug, Clone)]
pub struct ContextsConfig {
    pub context: ContextConfig,
    pub name: String,
}

/// Client credentials, kept as the opaque text they arrive in.
#[derive(Debug, Clone)]
pub struct UserConfig {
    pub client_certificate_data: String,
    pub client_key_data: String,
}

/// A named user entry.
#[derive(Debug, Clone)]
pub struct UsersConfig {
    pub user: UserConfig,
    pub name: String,
}

/// The preferences object, which carries no fields.
#[derive(Debug, Clone, PartialEq, Eq, Structural)]
pub struct PreferencesConfig {}

/// A whole configuration document.
#[derive(Debug, Clone)]
pub struct KubeConfig {
    pub api_version: String,
    pub clusters: Vec<ClustersConfig>,
    pub contexts: Vec<ContextsConfig>,
    pub preferences: PreferencesConfig,
    pub current_context: String,
    pub kind: String,
    pub users: Vec<UsersConfig>,
}

/// The names of a sequence of cluster entries, in order.
pub open spec fn cluster_names(s: Seq<ClustersConfig>) -> Seq<Seq<char>> {
    s.map_values(|c: ClustersConfig| c.name@)
}

/// No name occurs twice in `names`.
pub open spec fn names_unique(names: Seq<Seq<char>>) -> bool {
    forall|i: int, j: int| 0 <= i < names.len() && 0 <= j < names.len() && i != j ==> names[i] != names[j]
}

/// Some cluster entry of `doc` is called `name`.
pub open spec fn has_cluster_named(doc: KubeConfig, name: Seq<char>) -> bool {
    exists|i: int| 0 <= i < doc.clusters@.len() && #[trigger] doc.clusters@[i].name@ == name
}

/// The document describes at least one cluster and one user, as a fetched
/// single-cluster document does.
pub open spec fn describes_cluster(doc: KubeConfig) -> bool {
    doc.clusters@.len() >= 1 && doc.users@.len() >= 1
}

/// `u` with its certificate and key taken from `src`.
pub open spec fn refreshed_user(u: UsersConfig, src: UsersConfig) -> UsersConfig {
    UsersConfig {
        user: UserConfig {
            client_certificate_data: src.user.client_certificate_data,
            client_key_data: src.user.client_key_data,
        },
        name: u.name,
    }
}

/// Each user of `users` named as `src` is refreshed from it; the others stay.
pub open spec fn refresh_users(users: Seq<UsersConfig>, src: UsersConfig) -> Seq<UsersConfig> {
    users.map_values(
        |u: UsersConfig|
            if u.name@ == src.name@ {
                refreshed_user(u, src)
            } else {
                u
            },
    )
}

} // verus!
