//! Deleting an account: read the profile to learn the user name, delete the
//! profile, then delete the credentials. Each database call is made by the
//! caller; this state machine decides what comes next.

use crate::accounts::{attr_username, attr_uuid, key_request, profile_lookup, users_auth_table, users_profiles_table, KeyRequest};
use crate::item::Item;
use vstd::prelude::*;

verus! {

/// Where a deletion stands.
#[derive(Debug)]
pub enum DeleteState {
    /// The profile of `uuid` is being read.
    FetchingProfile { uuid: String },
    /// The profile of `uuid`, owned by `username`, is being deleted.
    DeletingProfile { uuid: String, username: String },
    /// The credentials of `username` are being deleted.
    DeletingAuth { username: String },
    /// The deletion is over; `deleted` tells whether it succeeded.
    Done { deleted: bool },
}

/// A `DeleteState` with its texts as character sequences.
pub enum DeleteStateView {
    FetchingProfile(Seq<char>),
    DeletingProfile(Seq<char>, Seq<char>),
    DeletingAuth(Seq<char>),
    Done(bool),
}

impl View for DeleteState {
    type V = DeleteStateView;

    open spec fn view(&self) -> DeleteStateView {
        match self {
            DeleteState::FetchingProfile { uuid } => DeleteStateView::FetchingProfile(uuid@),
            DeleteState::DeletingProfile { uuid, username } => DeleteStateView::DeletingProfile(uuid@, username@),
            DeleteState::DeletingAuth { username } => DeleteStateView::DeletingAuth(username@),
            DeleteState::Done { deleted } => DeleteStateView::Done(*deleted),
        }
    }
}

/// What the database answered to the last request.
#[derive(Debug)]
pub enum DeleteEvent {
    /// The profile read gave this record (`None`: no such profile).
    ProfileRead(Option<Item>),
    /// The profile read failed.
    ReadFailed,
    /// The deletion succeeded.
    Deleted,
    /// The deletion failed.
    DeleteFailed,
}

/// The next request to make, or the end of the deletion.
#[derive(Debug)]
pub enum DeleteAction {
    Read(KeyRequest),
    Delete(KeyRequest),
    Finish(bool),
}

/// The state after `event` in state `s`. Any answer but the expected success
/// ends the deletion as failed; a profile without a user name string ends it
/// too.
pub open spec fn delete_next(s: DeleteStateView, event: DeleteEvent) -> DeleteStateView {
    match s {
        DeleteStateView::FetchingProfile(uuid) => match event {
            DeleteEvent::ProfileRead(Some(item)) => match item.text_spec(attr_username()) {
                Some(username) => DeleteStateView::DeletingProfile(uuid, username),
                None => DeleteStateView::Done(false),
            },
            _ => DeleteStateView::Done(false),
        },
        DeleteStateView::DeletingProfile(_, username) => match event {
            DeleteEvent::Deleted => DeleteStateView::DeletingAuth(username),
            _ => DeleteStateView::Done(false),
        },
        DeleteStateView::DeletingAuth(_) => match event {
            DeleteEvent::Deleted => DeleteStateView::Done(true),
            _ => DeleteStateView::Done(false),
        },
        DeleteStateView::Done(b) => DeleteStateView::Done(b),
    }
}

/// `a` is the request that state `s` waits on: the read of the profile, the
/// deletion of the profile by user id, the deletion of the credentials by
/// user name, or the end.
pub open spec fn action_for(a: DeleteAction, s: DeleteStateView) -> bool {
    match s {
        DeleteStateView::FetchingProfile(uuid) => a matches DeleteAction::Read(r) && r.table@
            == users_profiles_table() && r.key_name@ == attr_uuid() && r.key_value@ == uuid,
        DeleteStateView::DeletingProfile(uuid, _) => a matches DeleteAction::Delete(r) && r.table@
            == users_profiles_table() && r.key_name@ == attr_uuid() && r.key_value@ == uuid,
        DeleteStateView::DeletingAuth(username) => a matches DeleteAction::Delete(r) && r.table@
            == users_auth_table() && r.key_name@ == attr_username() && r.key_value@ == username,
        DeleteStateView::Done(b) => a matches DeleteAction::Finish(x) && x == b,
    }
}

/// Starts the deletion of the account `uuid`.
pub fn delete_start(uuid: &str) -> (r: (DeleteState, DeleteAction))
    ensures
        r.0@ == DeleteStateView::FetchingProfile(uuid@),
        action_for(r.1, r.0@),
        r.1 matches DeleteAction::Read(req) && req.table@ == "users_profiles"@ && req.key_name@ == "uuid"@
            && req.key_value@ == uuid@,
{
    (DeleteState::FetchingProfile { uuid: uuid.to_owned() }, DeleteAction::Read(profile_lookup(uuid)))
}

fn action_of(s: &DeleteState) -> (a: DeleteAction)
    ensures
        action_for(a, s@),
{
    match s {
        DeleteState::FetchingProfile { uuid } => DeleteAction::Read(profile_lookup(uuid.as_str())),
        DeleteState::DeletingProfile { uuid, .. } => DeleteAction::Delete(
            key_request("users_profiles", "uuid", uuid.as_str()),
        ),
        DeleteState::DeletingAuth { username } => DeleteAction::Delete(
            key_request("users_auth", "username", username.as_str()),
        ),
        DeleteState::Done { deleted } => DeleteAction::Finish(*deleted),
    }
}

/// Takes in the answer to the last request and gives the next state and
/// request.
pub fn delete_step(state: DeleteState, event: DeleteEvent) -> (r: (DeleteState, DeleteAction))
    ensures
        r.0@ == delete_next(state@, event),
        action_for(r.1, r.0@),
        r.0@ matches DeleteStateView::DeletingProfile(uuid, _) ==> r.1 matches DeleteAction::Delete(req)
            && req.table@ == "users_profiles"@ && req.key_name@ == "uuid"@ && req.key_value@ == uuid,
        r.0@ matches DeleteStateView::DeletingAuth(username) ==> r.1 matches DeleteAction::Delete(req)
            && req.table@ == "users_auth"@ && req.key_name@ == "username"@ && req.key_value@ == username,
        r.0@ matches DeleteStateView::Done(b) ==> r.1 matches DeleteAction::Finish(x) && x == b,
{
    let next = match state {
        DeleteState::FetchingProfile { uuid } => match event {
            DeleteEvent::ProfileRead(Some(item)) => match item.get_text("username") {
                Some(username) => DeleteState::DeletingProfile { uuid, username: username.clone() },
                None => DeleteState::Done { deleted: false },
            },
            _ => DeleteState::Done { deleted: false },
        },
        DeleteState::DeletingProfile { username, .. } => match event {
            DeleteEvent::Deleted => DeleteState::DeletingAuth { username },
            _ => DeleteState::Done { deleted: false },
        },
        DeleteState::DeletingAuth { .. } => match event {
            DeleteEvent::Deleted => DeleteState::Done { deleted: true },
            _ => DeleteState::Done { deleted: false },
        },
        DeleteState::Done { deleted } => DeleteState::Done { deleted },
    };
    let action = action_of(&next);
    (next, action)
}

/// The state reached from `s` after the answers `events`, in turn.
pub open spec fn delete_run(s: DeleteStateView, events: Seq<DeleteEvent>) -> DeleteStateView
    decreases events.len(),
{
    if events.len() == 0 {
        s
    } else {
        delete_run(delete_next(s, events[0]), events.drop_first())
    }
}

/// A finished deletion stays finished, with the same result.
pub proof fn lemma_done_is_final(deleted: bool, events: Seq<DeleteEvent>)
    ensures
        delete_run(DeleteStateView::Done(deleted), events) == DeleteStateView::Done(deleted),
    decreases events.len(),
{
    if events.len() > 0 {
        lemma_done_is_final(deleted, events.drop_first());
    }
}

/// A deletion succeeds exactly when the profile read gives a record with a
/// user name, and then the profile and the credentials of that user name
/// are both deleted; it then no longer changes.
pub proof fn lemma_delete_success(uuid: Seq<char>, events: Seq<DeleteEvent>)
    ensures
        (delete_run(DeleteStateView::FetchingProfile(uuid), events) == DeleteStateView::Done(true)) <==> {
            &&& events.len() >= 3
            &&& events[0] matches DeleteEvent::ProfileRead(Some(item)) && item.text_spec(attr_username()) is Some
            &&& events[1] is Deleted
            &&& events[2] is Deleted
        },
{
    let s0 = DeleteStateView::FetchingProfile(uuid);
    if events.len() > 0 {
        let s1 = delete_next(s0, events[0]);
        let e1 = events.drop_first();
        assert(delete_run(s0, events) == delete_run(s1, e1));
        if s1 is Done {
            lemma_done_is_final(s1->Done_0, e1);
        } else if e1.len() > 0 {
            assert(e1[0] == events[1]);
            assert(s1 is DeletingProfile);
            let s2 = delete_next(s1, e1[0]);
            let e2 = e1.drop_first();
            assert(delete_run(s1, e1) == delete_run(s2, e2));
            if s2 is Done {
                lemma_done_is_final(s2->Done_0, e2);
            } else if e2.len() > 0 {
                assert(e2[0] == events[2]);
                assert(s2 is DeletingAuth);
                let s3 = delete_next(s2, e2[0]);
                assert(delete_run(s2, e2) == delete_run(s3, e2.drop_first()));
                lemma_done_is_final(s3->Done_0, e2.drop_first());
            }
        }
    }
}

/// Every request a deletion makes addresses a table by its own key: the
/// profile is read and deleted in `users_profiles` by `uuid`, with the id
/// being deleted; the credentials are deleted in `users_auth` by `username`,
/// with the user name read from the profile.
pub proof fn lemma_delete_requests(a: DeleteAction, s: DeleteStateView)
    requires
        action_for(a, s),
    ensures
        s matches DeleteStateView::FetchingProfile(uuid) ==> a matches DeleteAction::Read(r) && r.table@
            == "users_profiles"@ && r.key_name@ == "uuid"@ && r.key_value@ == uuid,
        s matches DeleteStateView::DeletingProfile(uuid, _) ==> a matches DeleteAction::Delete(r) && r.table@
            == "users_profiles"@ && r.key_name@ == "uuid"@ && r.key_value@ == uuid,
        s matches DeleteStateView::DeletingAuth(username) ==> a matches DeleteAction::Delete(r) && r.table@
            == "users_auth"@ && r.key_name@ == "username"@ && r.key_value@ == username,
        s matches DeleteStateView::Done(b) ==> a matches DeleteAction::Finish(x) && x == b,
{
}

/// A deletion of `uuid` that reads a profile holding the user name `n`
/// (under `username`) goes on to delete the profile of `uuid`; once that
/// succeeds it deletes the credentials of `n`, and once that succeeds it has
/// succeeded.
pub proof fn lemma_delete_progress(uuid: Seq<char>, item: Item, n: Seq<char>)
    requires
        item.text_spec("username"@) == Some(n),
    ensures
        delete_next(DeleteStateView::FetchingProfile(uuid), DeleteEvent::ProfileRead(Some(item)))
            == DeleteStateView::DeletingProfile(uuid, n),
        delete_next(DeleteStateView::DeletingProfile(uuid, n), DeleteEvent::Deleted) == DeleteStateView::DeletingAuth(n),
        delete_next(DeleteStateView::DeletingAuth(n), DeleteEvent::Deleted) == DeleteStateView::Done(true),
{
}

} // verus!
