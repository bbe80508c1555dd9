use vstd::prelude::*;

use crate::document::{
    cluster_names, describes_cluster, has_cluster_named, names_unique, refresh_users, ClustersConfig,
    KubeConfig, UserConfig, UsersConfig,
};

verus! {

/// `r` is `existing` with the credentials of the users named as the first user
/// of `incoming` replaced by that user's; everything else of `existing` stays.
pub open spec fn is_update_of(r: KubeConfig, existing: KubeConfig, incoming: KubeConfig) -> bool {
    &&& r.api_version == existing.api_version
    &&& r.clusters@ == existing.clusters@
    &&& r.contexts@ == existing.contexts@
    &&& r.preferences == existing.preferences
    &&& r.current_context == existing.current_context
    &&& r.kind == existing.kind
    &&& r.users@ == refresh_users(existing.users@, incoming.users@[0])
}

/// `r` is `existing` with the clusters, contexts and users of `incoming`
/// appended after its own; everything else of `existing` stays.
pub open spec fn is_addition_of(r: KubeConfig, existing: KubeConfig, incoming: KubeConfig) -> bool {
    &&& r.api_version == existing.api_version
    &&& r.clusters@ == existing.clusters@ + incoming.clusters@
    &&& r.contexts@ == existing.contexts@ + incoming.contexts@
    &&& r.preferences == existing.preferences
    &&& r.current_context == existing.current_context
    &&& r.kind == existing.kind
    &&& r.users@ == existing.users@ + incoming.users@
}

/// The document to keep after fetching `incoming`, given what was there before.
pub open spec fn resolved(r: KubeConfig, existing: Option<KubeConfig>, incoming: KubeConfig) -> bool {
    match existing {
        None => r == incoming,
        Some(e) => if has_cluster_named(e, incoming.clusters@[0].name@) {
            is_update_of(r, e, incoming)
        } else {
            is_addition_of(r, e, incoming)
        },
    }
}

/// Whether the first cluster of `new_config` is already in `current_config`,
/// by exact name.
pub fn do_config_present(current_config: &KubeConfig, new_config: &KubeConfig) -> (r: bool)
    requires
        new_config.clusters@.len() >= 1,
    ensures
        r == has_cluster_named(*current_config, new_config.clusters@[0].name@),
{
    let cluster_name = &new_config.clusters[0].name;
    let mut i: usize = 0;
    while i < current_config.clusters.len()
        invariant
            0 <= i <= current_config.clusters@.len(),
            cluster_name@ == new_config.clusters@[0].name@,
            forall|j: int| 0 <= j < i ==> current_config.clusters@[j].name@ != cluster_name@,
        decreases current_config.clusters@.len() - i,
    {
        if current_config.clusters[i].name == *cluster_name {
            return true;
        }
        i = i + 1;
    }
    false
}

/// Refreshes, in `current_config`, the credentials of the user named as the
/// first user of `new_config`, and returns the result.
pub fn update_config(current_config: KubeConfig, new_config: KubeConfig) -> (r: KubeConfig)
    requires
        new_config.users@.len() >= 1,
    ensures
        is_update_of(r, current_config, new_config),
{
    let mut config = current_config;
    let src = &new_config.users[0];
    let mut i: usize = 0;
    while i < config.users.len()
        invariant
            0 <= i <= config.users@.len(),
            config.users@.len() == current_config.users@.len(),
            *src == new_config.users@[0],
            config.api_version == current_config.api_version,
            config.clusters@ == current_config.clusters@,
            config.contexts@ == current_config.contexts@,
            config.preferences == current_config.preferences,
            config.current_context == current_config.current_context,
            config.kind == current_config.kind,
            forall|j: int|
                0 <= j < i ==> config.users@[j] == refresh_users(current_config.users@, *src)[j],
            forall|j: int| i <= j < config.users@.len() ==> config.users@[j] == current_config.users@[j],
        decreases config.users@.len() - i,
    {
        if config.users[i].name == src.name {
            let refreshed = UsersConfig {
                user: UserConfig {
                    client_certificate_data: src.user.client_certificate_data.clone(),
                    client_key_data: src.user.client_key_data.clone(),
                },
                name: config.users[i].name.clone(),
            };
            config.users.set(i, refreshed);
        }
        i = i + 1;
    }
    assert(config.users@ =~= refresh_users(current_config.users@, *src));
    config
}

/// Appends the clusters, contexts and users of `new_config` to those of
/// `current_config`, and returns the result.
pub fn add_config(current_config: KubeConfig, new_config: KubeConfig) -> (r: KubeConfig)
    ensures
        is_addition_of(r, current_config, new_config),
{
    let mut config = current_config;
    let mut incoming = new_config;
    config.clusters.append(&mut incoming.clusters);
    config.contexts.append(&mut incoming.contexts);
    config.users.append(&mut incoming.users);
    config
}

/// The document to keep: `new_config` alone when nothing was there before;
/// otherwise the existing document with the new cluster's user refreshed when
/// the cluster is already known, or with the new entries appended when not.
pub fn resolve(current_config: Option<KubeConfig>, new_config: KubeConfig) -> (r: KubeConfig)
    requires
        current_config is Some ==> describes_cluster(new_config),
    ensures
        resolved(r, current_config, new_config),
{
    match current_config {
        None => new_config,
        Some(existing) => {
            if do_config_present(&existing, &new_config) {
                update_config(existing, new_config)
            } else {
                add_config(existing, new_config)
            }
        },
    }
}

/// A document without clusters holds no cluster of any name, so nothing
/// fetched is ever found present in it.
pub proof fn lemma_nothing_present_in_empty(existing: KubeConfig, name: Seq<char>)
    requires
        existing.clusters@.len() == 0,
    ensures
        !has_cluster_named(existing, name),
{
}

/// When the existing document holds the one cluster `a` and the fetched one
/// describes a cluster `b` of another name, the result lists `a` then `b`, and
/// the contexts and users of both, existing ones first.
pub proof fn lemma_new_cluster_is_appended(
    existing: KubeConfig,
    incoming: KubeConfig,
    a: ClustersConfig,
    b: ClustersConfig,
    r: KubeConfig,
)
    requires
        existing.clusters@ == seq![a],
        incoming.clusters@ == seq![b],
        a.name@ != b.name@,
        resolved(r, Some(existing), incoming),
    ensures
        r.clusters@ == seq![a, b],
        r.contexts@ == existing.contexts@ + incoming.contexts@,
        r.users@ == existing.users@ + incoming.users@,
{
    if has_cluster_named(existing, b.name@) {
        let i = choose|i: int|
            0 <= i < existing.clusters@.len() && #[trigger] existing.clusters@[i].name@ == b.name@;
        assert(existing.clusters@[i] == a);
    }
    assert(seq![a] + seq![b] =~= seq![a, b]);
}

/// When the fetched cluster is already known, each existing user named as the
/// fetched user gets that user's certificate and key and keeps its name, and
/// every other user is left as it was.
pub proof fn lemma_update_targets_named_user(
    existing: KubeConfig,
    incoming: KubeConfig,
    r: KubeConfig,
    j: int,
)
    requires
        incoming.users@.len() >= 1,
        has_cluster_named(existing, incoming.clusters@[0].name@),
        resolved(r, Some(existing), incoming),
        0 <= j < existing.users@.len(),
    ensures
        r.users@.len() == existing.users@.len(),
        r.users@[j].name == existing.users@[j].name,
        existing.users@[j].name@ == incoming.users@[0].name@ ==> {
            &&& r.users@[j].user.client_certificate_data == incoming.users@[0].user.client_certificate_data
            &&& r.users@[j].user.client_key_data == incoming.users@[0].user.client_key_data
        },
        existing.users@[j].name@ != incoming.users@[0].name@ ==> r.users@[j] == existing.users@[j],
{
}

/// Cluster names stay unique: when the existing document has unique cluster
/// names and the fetched one describes exactly one cluster, so does the result.
pub proof fn lemma_cluster_names_stay_unique(
    existing: Option<KubeConfig>,
    incoming: KubeConfig,
    r: KubeConfig,
)
    requires
        incoming.clusters@.len() == 1,
        existing matches Some(e) ==> names_unique(cluster_names(e.clusters@)),
        resolved(r, existing, incoming),
    ensures
        names_unique(cluster_names(r.clusters@)),
{
    match existing {
        None => {},
        Some(e) => {
            if !has_cluster_named(e, incoming.clusters@[0].name@) {
                let names = cluster_names(r.clusters@);
                let n = e.clusters@.len();
                assert forall|i: int, j: int|
                    0 <= i < names.len() && 0 <= j < names.len() && i != j implies names[i]
                    != names[j] by {
                    if i < n && j < n {
                        assert(cluster_names(e.clusters@)[i] == names[i]);
                        assert(cluster_names(e.clusters@)[j] == names[j]);
                    } else if i < n {
                        assert(r.clusters@[i] == e.clusters@[i]);
                    } else {
                        assert(r.clusters@[j] == e.clusters@[j]);
                    }
                }
            }
        },
    }
}

} // verus!
