//! Merging the hook configurations of user and project settings.
use vstd::prelude::*;

use super::config::{groups_of_key, HookConfig};

verus! {

/// The groups of a configuration that may be missing.
pub open spec fn opt_groups(c: Option<HookConfig>, key: Seq<char>) -> Seq<super::config::HookGroup> {
    match c {
        Some(c) => groups_of_key(c.events@, key),
        None => seq![],
    }
}

/// Merge the user-level and project-level hook configurations: both
/// sources' hooks are kept, user hooks before project hooks, for every
/// event. A missing source counts as empty.
pub fn load_merged_hooks(user: Option<HookConfig>, project: Option<HookConfig>) -> (r: HookConfig)
    ensures
        forall|key: Seq<char>| #![trigger groups_of_key(r.events@, key)]
            groups_of_key(r.events@, key) == opt_groups(user, key) + opt_groups(project, key),
{
    let mut user_config = match user {
        Some(c) => c,
        None => HookConfig { events: Vec::new() },
    };
    let ghost u = user_config.events@;
    assert forall|key: Seq<char>| groups_of_key(u, key) == opt_groups(user, key) by {
        if user is None {
            assert(u.len() == 0);
        }
    }
    match project {
        Some(p) => {
            user_config.merge(p);
        },
        None => {
            assert forall|key: Seq<char>| #![trigger groups_of_key(user_config.events@, key)]
                groups_of_key(user_config.events@, key) == opt_groups(user, key) + opt_groups(project, key) by {
                assert(groups_of_key(u, key) + Seq::<super::config::HookGroup>::empty() == groups_of_key(u, key));
            }
        },
    }
    user_config
}

} // verus!
