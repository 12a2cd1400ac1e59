//! No fault becomes a success: whatever a run waits for, a fault ends it as that fault.

use vstd::prelude::*;

use crate::active::ActiveView;
use crate::authority::DirectoryReply;
use crate::failure::{Failure, PasskeyPluginError};
use crate::instant::Timestamp;
use crate::storage::{IssueReply, Reply};
use crate::{
    begin_authentication, begin_registration, finish_authentication, finish_registration,
    list_passkeys, revoke_passkey,
};

verus! {

/// A fault ends a run of begin-registration as that fault, and so does a directory that fails.
pub proof fn faults_end_begin_registration(
    active: ActiveView,
    run: begin_registration::BeginRegistration,
    error: PasskeyPluginError,
    now: Timestamp,
    next: begin_registration::Next,
)
    ensures
        begin_registration::advances(active, run, Reply::Failed(error), now, next) ==> next
            == begin_registration::failed(Failure::Plugin(error)),
        begin_registration::advances(
            active,
            run,
            Reply::Directory(DirectoryReply::Unavailable),
            now,
            next,
        ) ==> next is Failed,
{
}

/// A fault ends a run of begin-authentication as that fault, and so does a directory that fails.
pub proof fn faults_end_begin_authentication(
    active: ActiveView,
    run: begin_authentication::BeginAuthentication,
    error: PasskeyPluginError,
    now: Timestamp,
    next: begin_authentication::Next,
)
    ensures
        begin_authentication::advances(active, run, Reply::Failed(error), now, next) ==> next
            == begin_authentication::failed(Failure::Plugin(error)),
        begin_authentication::advances(
            active,
            run,
            Reply::Directory(DirectoryReply::Unavailable),
            now,
            next,
        ) ==> next is Failed,
{
}

/// A fault ends a run of finish-registration as that fault, and so does a directory that fails.
pub proof fn faults_end_finish_registration(
    active: ActiveView,
    run: finish_registration::FinishRegistration,
    error: PasskeyPluginError,
    now: Timestamp,
    next: finish_registration::Next,
)
    ensures
        finish_registration::advances(active, run, Reply::Failed(error), now, next) ==> next
            == finish_registration::failed(Failure::Plugin(error)),
        finish_registration::advances(
            active,
            run,
            Reply::Directory(DirectoryReply::Unavailable),
            now,
            next,
        ) ==> next is Failed,
{
}

/// A fault ends a run of finish-authentication as that fault, and so does a directory or an
/// issuer that fails.
pub proof fn faults_end_finish_authentication(
    active: ActiveView,
    run: finish_authentication::FinishAuthentication,
    error: PasskeyPluginError,
    now: Timestamp,
    next: finish_authentication::Next,
)
    ensures
        finish_authentication::advances(active, run, Reply::Failed(error), now, next) ==> next
            == finish_authentication::failed(Failure::Plugin(error)),
        finish_authentication::advances(
            active,
            run,
            Reply::Directory(DirectoryReply::Unavailable),
            now,
            next,
        ) ==> next is Failed,
        finish_authentication::advances(
            active,
            run,
            Reply::Issue(IssueReply::Unavailable),
            now,
            next,
        ) ==> next is Failed,
{
}

/// A fault ends a run of list-passkeys as that fault, and so does a directory that fails.
pub proof fn faults_end_list_passkeys(
    run: list_passkeys::ListPasskeys,
    error: PasskeyPluginError,
    next: list_passkeys::Next,
)
    ensures
        list_passkeys::advances(run, Reply::Failed(error), next) ==> next == list_passkeys::failed(
            Failure::Plugin(error),
        ),
        list_passkeys::advances(run, Reply::Directory(DirectoryReply::Unavailable), next)
            ==> next is Failed,
{
}

/// A fault ends a run of revoke-passkey as that fault, and so does a directory that fails.
pub proof fn faults_end_revoke_passkey(
    active: ActiveView,
    run: revoke_passkey::RevokePasskey,
    error: PasskeyPluginError,
    next: revoke_passkey::Next,
)
    ensures
        revoke_passkey::advances(active, run, Reply::Failed(error), next) ==> next
            == revoke_passkey::failed(Failure::Plugin(error)),
        revoke_passkey::advances(
            active,
            run,
            Reply::Directory(DirectoryReply::Unavailable),
            next,
        ) ==> next is Failed,
{
}

} // verus!
