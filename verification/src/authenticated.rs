//! Recording a verified authentication: the passkey's counter moves on, the credential set's
//! revision advances, and the command moves to issuing, all in one transaction.

use vstd::prelude::*;

use crate::ceremony::{update_passkey, updated_passkey, Assertion};
use crate::command::{same_bytes, CommandKey};
use crate::failure::Failure;
use crate::rows::PasskeyRow;
use crate::storage::{stray, stray_reply, Action, Reply};

verus! {

/// How far the recording of an authentication has come.
#[derive(Debug)]
pub enum UpdateStage {
    Beginning,
    LockingSubject,
    LockingPasskeys,
    UpdatingPasskey { passkey_id: String },
    AdvancingSubject { passkey_id: String },
    MarkingIssuing { passkey_id: String, revision: i64 },
    Committing { passkey_id: String, revision: i64 },
    /// The authentication is of no use; the transaction is being abandoned.
    RollingBack,
    /// The command was not in verification; the transaction is being abandoned.
    Abandoning,
}

/// How the recording of an authentication goes on.
#[derive(Debug)]
pub enum Update {
    /// Perform the action and go on.
    Act(UpdateStage, Action),
    /// It is over: the passkey that was used and the credential set's new revision, or nothing
    /// where the authentication is of no use.
    Over(Option<(String, i64)>),
    /// It failed.
    Failed(Failure),
}

/// The first passkey with a credential identifier, if there is one.
pub open spec fn passkey_with(rows: Seq<PasskeyRow>, credential_id: Seq<u8>) -> Option<PasskeyRow>
    decreases rows.len(),
{
    if rows.len() == 0 {
        None
    } else if rows[0].credential_id@ == credential_id {
        Some(rows[0])
    } else {
        passkey_with(rows.drop_first(), credential_id)
    }
}

/// A counter that did not move on, where both sides count.
pub open spec fn is_stale(counter: int, stored: int) -> bool {
    counter > 0 && stored > 0 && counter <= stored
}

/// The transaction is abandoned because the authentication is of no use.
pub open spec fn give_up(label: &'static str) -> Update {
    Update::Act(UpdateStage::RollingBack, Action::Rollback { label })
}

/// How the recording of an authentication starts.
pub open spec fn update_start() -> Update {
    Update::Act(
        UpdateStage::Beginning,
        Action::Begin { label: "begin authenticated passkey update" },
    )
}

pub fn begin_update() -> (r: Update)
    ensures
        r == update_start(),
{
    Update::Act(
        UpdateStage::Beginning,
        Action::Begin { label: "begin authenticated passkey update" },
    )
}

/// What applying the result to the passkey that was used leads to: its new value is stored with
/// the counter, unless the result is another credential's.
pub open spec fn replaced(
    id: String,
    counter: u32,
    outcome: Result<Option<Seq<char>>, Seq<char>>,
    next: Update,
) -> bool {
    match outcome {
        Err(error) => next matches Update::Failed(Failure::Representation(text)) && text@ == error,
        Ok(None) => next == give_up("rollback mismatched passkey update"),
        Ok(Some(updated)) => {
            &&& next matches Update::Act(
                UpdateStage::UpdatingPasskey { passkey_id: used },
                Action::UpdatePasskey { passkey_id, passkey, sign_count },
            )
            &&& used == id
            &&& passkey_id == id
            &&& passkey@ == updated
            &&& sign_count == counter
        },
    }
}

/// What the subject's passkeys lead to: the one that was used must be among them, its counter
/// must have moved on, and its stored value must take the result.
pub open spec fn chosen(assertion: Assertion, rows: Seq<PasskeyRow>, next: Update) -> bool {
    match passkey_with(rows, assertion.credential_id@) {
        None => next == give_up("rollback unknown authenticated passkey"),
        Some(row) => if is_stale(assertion.counter as int, row.sign_count as int) {
            next == give_up("rollback stale passkey counter")
        } else {
            replaced(
                row.passkey_id,
                assertion.counter,
                updated_passkey(row.passkey@, assertion.result),
                next,
            )
        },
    }
}

/// How the recording of an authentication goes on from a reply.
pub open spec fn updates(
    key: CommandKey,
    subject: String,
    assertion: Assertion,
    stage: UpdateStage,
    reply: Reply,
    next: Update,
) -> bool {
    match (stage, reply) {
        (UpdateStage::Beginning, Reply::Done) => next == Update::Act(
            UpdateStage::LockingSubject,
            Action::LockSubjectOptional { subject },
        ),
        (UpdateStage::LockingSubject, Reply::MaybeSubject(row)) => next == (match row {
            None => give_up("rollback missing authenticated subject"),
            Some(_) => Update::Act(UpdateStage::LockingPasskeys, Action::LockPasskeys { subject }),
        }),
        (UpdateStage::LockingPasskeys, Reply::Passkeys(rows)) => chosen(assertion, rows@, next),
        (UpdateStage::UpdatingPasskey { passkey_id }, Reply::Done) => next == Update::Act(
            UpdateStage::AdvancingSubject { passkey_id },
            Action::AdvanceSubject {
                subject,
                label: "advance authenticated passkey collection revision",
            },
        ),
        (UpdateStage::AdvancingSubject { passkey_id }, Reply::Revision(revision)) => next
            == Update::Act(
            UpdateStage::MarkingIssuing { passkey_id, revision },
            Action::MarkIssuing { key },
        ),
        (UpdateStage::MarkingIssuing { passkey_id, revision }, Reply::Affected(changed)) => next
            == (if changed == 1 {
            Update::Act(
                UpdateStage::Committing { passkey_id, revision },
                Action::Commit { label: "commit authenticated passkey update" },
            )
        } else {
            Update::Act(
                UpdateStage::Abandoning,
                Action::Rollback { label: "rollback stale authentication command" },
            )
        }),
        (UpdateStage::Committing { passkey_id, revision }, Reply::Done) => next == Update::Over(
            Some((passkey_id, revision)),
        ),
        (UpdateStage::RollingBack, Reply::Done) => next == Update::Over(None),
        (UpdateStage::Abandoning, Reply::Done) => next == Update::Failed(
            Failure::CommandNotAdvanced,
        ),
        (_, reply) => next == Update::Failed(stray(reply)),
    }
}

fn find_passkey(rows: &Vec<PasskeyRow>, credential_id: &[u8]) -> (r: Option<usize>)
    ensures
        match r {
            Some(i) => i < rows.len() && passkey_with(rows@, credential_id@) == Some(
                rows@[i as int],
            ),
            None => passkey_with(rows@, credential_id@) is None,
        },
{
    let mut i: usize = 0;
    assert(rows@.subrange(0, rows.len() as int) =~= rows@);
    while i < rows.len()
        invariant
            i <= rows.len(),
            passkey_with(rows@, credential_id@) == passkey_with(
                rows@.subrange(i as int, rows.len() as int),
                credential_id@,
            ),
        decreases rows.len() - i,
    {
        let ghost rest = rows@.subrange(i as int, rows.len() as int);
        assert(rest[0] == rows@[i as int]);
        if same_bytes(rows[i].credential_id.as_slice(), credential_id) {
            return Some(i);
        }
        i = i + 1;
        assert(rest.drop_first() =~= rows@.subrange(i as int, rows.len() as int));
    }
    None
}

fn choose_passkey(assertion: &Assertion, rows: &Vec<PasskeyRow>) -> (next: Update)
    ensures
        chosen(*assertion, rows@, next),
{
    let i: usize = match find_passkey(rows, assertion.credential_id.as_slice()) {
        Some(i) => i,
        None => return Update::Act(
            UpdateStage::RollingBack,
            Action::Rollback { label: "rollback unknown authenticated passkey" },
        ),
    };
    let row = &rows[i];
    let counter: i64 = assertion.counter as i64;
    if counter > 0 && row.sign_count > 0 && counter <= row.sign_count {
        return Update::Act(
            UpdateStage::RollingBack,
            Action::Rollback { label: "rollback stale passkey counter" },
        );
    }
    let outcome = update_passkey(row.passkey.as_str(), &assertion.result);
    replace_passkey(&row.passkey_id, assertion.counter, outcome)
}

/// Goes on with the outcome of applying the result to the passkey that was used.
pub fn replace_passkey(
    id: &String,
    counter: u32,
    outcome: Result<Option<String>, String>,
) -> (next: Update)
    ensures
        replaced(
            *id,
            counter,
            match outcome {
                Ok(Some(passkey)) => Ok(Some(passkey@)),
                Ok(None) => Ok(None),
                Err(error) => Err(error@),
            },
            next,
        ),
{
    match outcome {
        Err(error) => Update::Failed(Failure::Representation(error)),
        Ok(None) => Update::Act(
            UpdateStage::RollingBack,
            Action::Rollback { label: "rollback mismatched passkey update" },
        ),
        Ok(Some(passkey)) => Update::Act(
            UpdateStage::UpdatingPasskey { passkey_id: id.clone() },
            Action::UpdatePasskey {
                passkey_id: id.clone(),
                passkey,
                sign_count: counter as i64,
            },
        ),
    }
}

/// Goes on from the reply to the action that was last asked for.
pub fn update_authenticated_passkey(
    key: &CommandKey,
    subject: &String,
    assertion: &Assertion,
    stage: UpdateStage,
    reply: Reply,
) -> (next: Update)
    ensures
        updates(*key, *subject, *assertion, stage, reply, next),
{
    match (stage, reply) {
        (UpdateStage::Beginning, Reply::Done) => Update::Act(
            UpdateStage::LockingSubject,
            Action::LockSubjectOptional { subject: subject.clone() },
        ),
        (UpdateStage::LockingSubject, Reply::MaybeSubject(row)) => match row {
            None => Update::Act(
                UpdateStage::RollingBack,
                Action::Rollback { label: "rollback missing authenticated subject" },
            ),
            Some(_) => Update::Act(
                UpdateStage::LockingPasskeys,
                Action::LockPasskeys { subject: subject.clone() },
            ),
        },
        (UpdateStage::LockingPasskeys, Reply::Passkeys(rows)) => choose_passkey(assertion, &rows),
        (UpdateStage::UpdatingPasskey { passkey_id }, Reply::Done) => Update::Act(
            UpdateStage::AdvancingSubject { passkey_id },
            Action::AdvanceSubject {
                subject: subject.clone(),
                label: "advance authenticated passkey collection revision",
            },
        ),
        (UpdateStage::AdvancingSubject { passkey_id }, Reply::Revision(revision)) => Update::Act(
            UpdateStage::MarkingIssuing { passkey_id, revision },
            Action::MarkIssuing { key: key.copy() },
        ),
        (UpdateStage::MarkingIssuing { passkey_id, revision }, Reply::Affected(changed)) => {
            if changed == 1 {
                Update::Act(
                    UpdateStage::Committing { passkey_id, revision },
                    Action::Commit { label: "commit authenticated passkey update" },
                )
            } else {
                Update::Act(
                    UpdateStage::Abandoning,
                    Action::Rollback { label: "rollback stale authentication command" },
                )
            }
        },
        (UpdateStage::Committing { passkey_id, revision }, Reply::Done) => Update::Over(
            Some((passkey_id, revision)),
        ),
        (UpdateStage::RollingBack, Reply::Done) => Update::Over(None),
        (UpdateStage::Abandoning, Reply::Done) => Update::Failed(Failure::CommandNotAdvanced),
        (_, reply) => Update::Failed(stray_reply(reply)),
    }
}

} // verus!
