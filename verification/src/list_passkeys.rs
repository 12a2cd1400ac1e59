//! Listing passkeys: what a user may see of their own credential set.

use lenso_kernel::InvocationContext;
use vstd::prelude::*;
use vstd::string::*;

use crate::active::{ActivePasskey, ActiveView};
use crate::authority::{directory_status, status_of, DirectoryStatus};
use crate::contract::{
    ListPasskeysError, ListPasskeysRequest, ListPasskeysResponse, PasskeySummary,
    LIST_PASSKEYS_OPERATION,
};
use crate::failure::Failure;
use crate::instant::{rfc3339, Timestamp};
use crate::passkeys::{passkey_summary, summarizes, written};
use crate::rows::{PasskeyRow, SubjectRow};
use crate::storage::{stray, stray_reply, Action, Progress, Reply};
use crate::text::{integer_text, is_token, signed_text, valid_subject};

verus! {

/// How far a run has come.
#[derive(Debug)]
pub enum Stage {
    ReadingDirectory,
    LoadingSubject,
    LoadingPasskeys(SubjectRow),
}

/// A run of list-passkeys that waits for a reply.
#[derive(Debug)]
pub struct ListPasskeys {
    pub request: ListPasskeysRequest,
    pub stage: Stage,
}

pub type Next = Progress<ListPasskeys, ListPasskeysResponse, ListPasskeysError>;

/// The run ends with a failure.
pub open spec fn failed(failure: Failure) -> Next {
    Progress::Failed(failure)
}

/// The run ends in a refusal.
pub open spec fn finished(error: ListPasskeysError) -> Next {
    Progress::Finished(Err(error))
}

/// Whether all times of a passkey can be written.
pub open spec fn writable(row: PasskeyRow) -> bool {
    &&& rfc3339(row.created_at.unix_nanos as int) is Ok
    &&& written(row.last_used_at) is Ok
    &&& written(row.revoked_at) is Ok
}

/// The passkeys are told one by one, in their order.
pub open spec fn lists(rows: Seq<PasskeyRow>, summaries: Seq<PasskeySummary>) -> bool {
    &&& summaries.len() == rows.len()
    &&& forall|i: int|
        0 <= i < rows.len() ==> summarizes(#[trigger] rows[i], Ok(summaries[i]))
}

/// The passkeys are listed, unless a time of one cannot be written.
pub open spec fn listed(subject: SubjectRow, rows: Seq<PasskeyRow>, next: Next) -> bool {
    match next {
        Progress::Finished(Ok(response)) => {
            &&& response.revision@ == integer_text(subject.revision as int)
            &&& lists(rows, response.passkeys@)
        },
        Progress::Failed(failure) => exists|i: int|
            {
                &&& 0 <= i < rows.len()
                &&& !writable(#[trigger] rows[i])
                &&& summarizes(rows[i], Err(failure))
                &&& forall|j: int| 0 <= j < i ==> writable(#[trigger] rows[j])
            },
        _ => false,
    }
}

/// How a run goes on from a reply.
pub open spec fn advances(run: ListPasskeys, reply: Reply, next: Next) -> bool {
    let request = run.request;
    match (run.stage, reply) {
        (Stage::ReadingDirectory, Reply::Directory(answer)) => next == (match status_of(
            answer,
            request.subject@,
        ) {
            Err(failure) => failed(failure),
            Ok(DirectoryStatus::Active) => Progress::Act(
                ListPasskeys { request, stage: Stage::LoadingSubject },
                Action::LoadSubject { subject: request.subject },
            ),
            Ok(_) => finished(ListPasskeysError::Disabled),
        }),
        (Stage::LoadingSubject, Reply::MaybeSubject(None)) => {
            &&& next matches Progress::Finished(Ok(response))
            &&& response.revision@ == "0"@
            &&& response.passkeys@.len() == 0
        },
        (Stage::LoadingSubject, Reply::MaybeSubject(Some(subject))) => next == Progress::Act::<
            ListPasskeys,
            ListPasskeysResponse,
            ListPasskeysError,
        >(
            ListPasskeys { request, stage: Stage::LoadingPasskeys(subject) },
            Action::LoadPasskeys {
                subject: request.subject,
                include_revoked: request.include_revoked,
            },
        ),
        (Stage::LoadingPasskeys(subject), Reply::Passkeys(rows)) => listed(subject, rows@, next),
        (_, reply) => next == failed(stray(reply)),
    }
}

/// How a run starts: who may not call is told so, then a request that is not well formed, and
/// otherwise the subject's status is asked for.
pub open spec fn starts(
    active: ActiveView,
    context: InvocationContext,
    request: ListPasskeysRequest,
    now: Timestamp,
    next: Next,
) -> bool {
    match active.manager(context, LIST_PASSKEYS_OPERATION@, request.subject@, now) {
        None => next == finished(ListPasskeysError::Forbidden),
        Some(_) => next == (if !is_token(request.subject@, 256) {
            finished(ListPasskeysError::InvalidRequest)
        } else {
            Progress::Act(
                ListPasskeys { request, stage: Stage::ReadingDirectory },
                Action::ReadDirectory { subject: request.subject },
            )
        }),
    }
}

/// Starts a run.
pub fn start(
    active: &ActivePasskey,
    context: &InvocationContext,
    request: ListPasskeysRequest,
    now: Timestamp,
) -> (next: Next)
    requires
        now.reaches(0),
    ensures
        starts(active@, *context, request, now, next),
{
    if active.management_caller(
        context,
        LIST_PASSKEYS_OPERATION,
        request.subject.as_str(),
        now,
    ).is_none() {
        return Progress::Finished(Err(ListPasskeysError::Forbidden));
    }
    if !valid_subject(request.subject.as_str()) {
        return Progress::Finished(Err(ListPasskeysError::InvalidRequest));
    }
    let action = Action::ReadDirectory { subject: request.subject.clone() };
    Progress::Act(ListPasskeys { request, stage: Stage::ReadingDirectory }, action)
}

fn list(subject: SubjectRow, rows: &Vec<PasskeyRow>) -> (next: Next)
    ensures
        listed(subject, rows@, next),
{
    let mut passkeys: Vec<PasskeySummary> = Vec::new();
    let mut i: usize = 0;
    while i < rows.len()
        invariant
            i <= rows.len(),
            passkeys.len() == i,
            forall|j: int| 0 <= j < i ==> summarizes(#[trigger] rows@[j], Ok(passkeys@[j])),
            forall|j: int| 0 <= j < i ==> writable(#[trigger] rows@[j]),
        decreases rows.len() - i,
    {
        match passkey_summary(&rows[i]) {
            Ok(summary) => {
                passkeys.push(summary);
            },
            Err(failure) => {
                assert(!writable(rows@[i as int]));
                return Progress::Failed(failure);
            },
        }
        i = i + 1;
    }
    Progress::Finished(
        Ok(ListPasskeysResponse { revision: signed_text(subject.revision), passkeys }),
    )
}

impl ListPasskeys {
    /// Goes on from the reply to the action that the run last asked for.
    pub fn resume(self, reply: Reply) -> (next: Next)
        ensures
            advances(self, reply, next),
    {
        let ListPasskeys { request, stage } = self;
        match (stage, reply) {
            (Stage::ReadingDirectory, Reply::Directory(answer)) => {
                match directory_status(answer, request.subject.as_str()) {
                    Err(failure) => Progress::Failed(failure),
                    Ok(DirectoryStatus::Active) => {
                        let action = Action::LoadSubject { subject: request.subject.clone() };
                        Progress::Act(
                            ListPasskeys { request, stage: Stage::LoadingSubject },
                            action,
                        )
                    },
                    Ok(_) => Progress::Finished(Err(ListPasskeysError::Disabled)),
                }
            },
            (Stage::LoadingSubject, Reply::MaybeSubject(None)) => Progress::Finished(
                Ok(ListPasskeysResponse { revision: "0".to_owned(), passkeys: Vec::new() }),
            ),
            (Stage::LoadingSubject, Reply::MaybeSubject(Some(subject))) => {
                let action = Action::LoadPasskeys {
                    subject: request.subject.clone(),
                    include_revoked: request.include_revoked,
                };
                Progress::Act(
                    ListPasskeys { request, stage: Stage::LoadingPasskeys(subject) },
                    action,
                )
            },
            (Stage::LoadingPasskeys(subject), Reply::Passkeys(rows)) => list(subject, &rows),
            (_, reply) => Progress::Failed(stray_reply(reply)),
        }
    }
}

} // verus!
