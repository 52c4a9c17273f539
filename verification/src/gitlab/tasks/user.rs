//! Users, as GitLab reports them.

use vstd::prelude::*;
use crate::data::instance::Instance;
use crate::data::user::{User, UserView};
use crate::forge::{ForgeError, ForgeTask, ForgeTaskOutcome};
use crate::gitlab::forge::GitlabForge;
use crate::objects::vec::data::{Refs, Stamped};
use crate::objects::vec::{lemma_upsert, record_of, upsert, VecIndex, VecLookupView};
use crate::time::Timestamp;

verus! {

/// A user as GitLab reports it.
#[derive(Debug)]
pub struct GitlabUser {
    pub id: u64,
    pub name: String,
    pub username: String,
    pub email: Option<String>,
    pub public_email: String,
}

/// A user that a search by name found.
#[derive(Debug)]
pub struct GitlabUserSearch {
    pub id: u64,
}

/// The address of a user: the private one where GitLab gives it, else the
/// public one unless that is empty.
pub open spec fn user_email(gl: GitlabUser) -> Option<Seq<char>> {
    match gl.email {
        Some(email) => Some(email@),
        None => if gl.public_email@.len() == 0 {
            None
        } else {
            Some(gl.public_email@)
        },
    }
}

/// The record of a user of whom nothing but the ID and instance is known,
/// first seen at `now`.
pub open spec fn user_fresh(id: u64, instance: VecIndex<Instance>, now: Timestamp) -> UserView {
    UserView {
        handle: Seq::empty(),
        name: Seq::empty(),
        email: None,
        avatar: None,
        forge_id: id,
        instance,
        cim_fetched_at: now,
        cim_refreshed_at: now,
    }
}

/// The record `base` brought up to date with what GitLab reports at `now`.
pub open spec fn user_refreshed(base: UserView, gl: GitlabUser, now: Timestamp) -> UserView {
    UserView {
        name: gl.name@,
        handle: gl.username@,
        email: user_email(gl),
        cim_refreshed_at: base.cim_fetched_at.spec_latest(now),
        ..base
    }
}

/// The record that the store holds for the user after the report.
pub open spec fn user_record(
    storage: VecLookupView,
    instance: VecIndex<Instance>,
    gl: GitlabUser,
    now: Timestamp,
) -> UserView {
    match record_of(storage.users, gl.id) {
        Some(existing) => user_refreshed(existing, gl, now),
        None => user_refreshed(user_fresh(gl.id, instance, now), gl, now),
    }
}

/// Reconcile a user that GitLab reported at `now` into the store.
pub fn update_user_impl(forge: &mut GitlabForge, gl_user: GitlabUser, now: Timestamp) -> (r: Result<
    ForgeTaskOutcome,
    ForgeError,
>)
    ensures
        r matches Ok(outcome) && outcome.additional_tasks@ == Seq::<ForgeTask>::empty()
            && outcome.task_delay is None,
        final(forge).instance_idx == old(forge).instance_idx,
        final(forge).storage@ == (VecLookupView {
            users: upsert(
                old(forge).storage@.users,
                user_record(old(forge).storage@, old(forge).instance_idx, gl_user, now),
            ),
            ..old(forge).storage@
        }),
        old(forge).wf() && old(forge).storage@.refs_valid() ==> final(forge).wf()
            && final(forge).storage@.refs_valid(),
        old(forge).storage@.ids_unique() ==> final(forge).storage@.ids_unique(),
        old(forge).storage@.stamps_ordered() ==> final(forge).storage@.stamps_ordered(),
{
    let ghost before = forge.storage@;
    let user = gl_user.id;
    // Create a user entry.
    let mut user_entry = match forge.storage.find_user(user) {
        Some(idx) => match forge.storage.lookup_user(&idx) {
            Some(existing) => existing.clone(),
            None => {
                assert(false);
                return Err(ForgeError::Other { details: String::new() });
            },
        },
        None => {
            let built = User::builder().forge_id(user).instance(forge.instance_index()).build_at(
                now,
            );
            match built {
                Ok(fresh) => fresh,
                Err(_) => {
                    assert(false);
                    return Err(ForgeError::Other { details: String::new() });
                },
            }
        },
    };
    user_entry.name = gl_user.name;
    user_entry.handle = gl_user.username;
    user_entry.email = match gl_user.email {
        Some(email) => Some(email),
        None => if gl_user.public_email.as_str().is_empty() {
            None
        } else {
            Some(gl_user.public_email)
        },
    };
    user_entry.cim_refreshed_at = user_entry.cim_fetched_at.latest(now);
    proof {
        assert(user_entry@ == user_record(before, forge.instance_idx, gl_user, now));
        lemma_upsert(before.users, user_entry@);
        if forge.wf() && before.refs_valid() {
            match record_of(before.users, gl_user.id) {
                Some(existing) => {
                    assert(existing.refs_within(before.counts()));
                },
                None => {},
            }
        }
    }
    // Store the user in the storage.
    forge.storage.store_user(user_entry);
    proof {
        forge.storage.lemma_fits();
        if before.stamps_ordered() {
            match record_of(before.users, gl_user.id) {
                Some(existing) => {
                    assert(existing.in_order());
                },
                None => {},
            }
            before.lemma_store_user_keeps_stamps(
                user_record(before, old(forge).instance_idx, gl_user, now),
            );
        }
        if old(forge).wf() && before.refs_valid() {
            before.lemma_store_user_keeps_refs(
                user_record(before, old(forge).instance_idx, gl_user, now),
            );
        }
    }
    Ok(ForgeTaskOutcome::new())
}

/// Reconcile a user that GitLab just reported into the store.
pub fn update_user(forge: &mut GitlabForge, gl_user: GitlabUser) -> (r: Result<
    ForgeTaskOutcome,
    ForgeError,
>)
    ensures
        r matches Ok(outcome) && outcome.additional_tasks@ == Seq::<ForgeTask>::empty()
            && outcome.task_delay is None,
        final(forge).instance_idx == old(forge).instance_idx,
        exists|now: Timestamp|
            final(forge).storage@ == (VecLookupView {
                users: upsert(
                    old(forge).storage@.users,
                    #[trigger] user_record(
                        old(forge).storage@,
                        old(forge).instance_idx,
                        gl_user,
                        now,
                    ),
                ),
                ..old(forge).storage@
            }),
        old(forge).wf() && old(forge).storage@.refs_valid() ==> final(forge).wf()
            && final(forge).storage@.refs_valid(),
        old(forge).storage@.ids_unique() ==> final(forge).storage@.ids_unique(),
        old(forge).storage@.stamps_ordered() ==> final(forge).storage@.stamps_ordered(),
{
    update_user_impl(forge, gl_user, Timestamp::now())
}

/// What follows once a search by name has found a user: the user is updated
/// by its ID.
pub fn update_user_by_name(found: GitlabUserSearch) -> (r: ForgeTaskOutcome)
    ensures
        r.additional_tasks@ == seq![ForgeTask::UpdateUser { user: found.id }],
        r.task_delay is None,
{
    let mut tasks: Vec<ForgeTask> = Vec::new();
    tasks.push(ForgeTask::UpdateUser { user: found.id });
    ForgeTaskOutcome::with_tasks(tasks)
}

} // verus!
