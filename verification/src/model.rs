//! What the stored state is and what each action does to it.
//!
//! The operations' laws speak of this model: a store of commands, challenges, subjects and
//! passkeys, and a database that holds one committed store and at most one open transaction.

use vstd::prelude::*;

use crate::command::{CommandKeyView, CommandRow, CommandStatus};
use crate::instant::Timestamp;
use crate::rows::{ChallengeRow, PasskeyRow, SubjectRow};
use crate::storage::{Action, ChallengeKind, Reply};

verus! {

/// A day, in nanoseconds.
pub const DAY_NANOS: i128 = 86_400_000_000_000;

/// A command.
#[verifier::ext_equal]
pub struct CommandRecord {
    pub intent: Seq<u8>,
    pub status: CommandStatus,
    pub receipt: Option<(Seq<u8>, Seq<u8>)>,
    pub code: Option<Seq<char>>,
    pub completed_at: Option<int>,
}

/// A challenge.
#[verifier::ext_equal]
pub struct ChallengeRecord {
    pub kind: ChallengeKind,
    pub caller: Seq<char>,
    pub subject: Seq<char>,
    pub expected_revision: int,
    pub state: Seq<char>,
    pub options: Seq<char>,
    pub expires_at: int,
    pub consumed_at: Option<int>,
    /// The operation and the key of the command that consumed it.
    pub consumed_by: Option<(Seq<char>, Seq<char>)>,
}

/// A subject.
#[verifier::ext_equal]
pub struct SubjectRecord {
    pub user_id: u128,
    pub revision: int,
}

/// A passkey.
#[verifier::ext_equal]
pub struct PasskeyRecord {
    pub subject: Seq<char>,
    pub credential_id: Seq<u8>,
    pub public_key: Seq<char>,
    pub passkey: Seq<char>,
    pub label: Seq<char>,
    pub sign_count: int,
    pub revision: int,
    pub created_at: int,
    pub last_used_at: Option<int>,
    pub revoked_at: Option<int>,
}

/// All that is stored.
#[verifier::ext_equal]
pub struct Store {
    pub commands: Map<CommandKeyView, CommandRecord>,
    pub challenges: Map<Seq<char>, ChallengeRecord>,
    pub subjects: Map<Seq<char>, SubjectRecord>,
    pub passkeys: Map<Seq<char>, PasskeyRecord>,
}

impl CommandRecord {
    /// A command that is not completed.
    pub open spec fn is_open(self) -> bool {
        self.status is Reserved || self.status is Verifying || self.status is Issuing
    }

    /// A successful command holds a receipt, a refused one a code, and only completed ones hold
    /// a time.
    pub open spec fn is_kept(self) -> bool {
        &&& self.receipt is Some <==> self.status is CompletedSuccess
        &&& self.code is Some <==> self.status is CompletedError
        &&& self.completed_at is Some <==> !self.is_open()
    }
}

impl Store {
    /// Whether some passkey has a credential identifier.
    pub open spec fn has_credential(self, credential_id: Seq<u8>) -> bool {
        exists|id: Seq<char>| #[trigger]
            self.passkeys.dom().contains(id) && self.passkeys[id].credential_id == credential_id
    }

    /// What every store keeps: its commands are in order, no two passkeys have one credential,
    /// every passkey and challenge has its subject, and nothing counts below zero.
    pub open spec fn is_kept(self) -> bool {
        &&& forall|key: CommandKeyView| #[trigger]
            self.commands.dom().contains(key) ==> self.commands[key].is_kept()
        &&& forall|a: Seq<char>, b: Seq<char>|
            #![trigger self.passkeys.dom().contains(a), self.passkeys.dom().contains(b)]
            self.passkeys.dom().contains(a) && self.passkeys.dom().contains(b)
                && self.passkeys[a].credential_id == self.passkeys[b].credential_id ==> a == b
        &&& forall|id: Seq<char>| #[trigger]
            self.passkeys.dom().contains(id) ==> {
                &&& self.subjects.dom().contains(self.passkeys[id].subject)
                &&& self.passkeys[id].sign_count >= 0
                &&& self.passkeys[id].revision >= 1
            }
        &&& forall|id: Seq<char>| #[trigger]
            self.challenges.dom().contains(id) ==> self.subjects.dom().contains(
                self.challenges[id].subject,
            )
        &&& forall|subject: Seq<char>| #[trigger]
            self.subjects.dom().contains(subject) ==> self.subjects[subject].revision >= 0
    }
}

/// A completed command.
pub open spec fn completed(
    record: CommandRecord,
    receipt: Option<(Seq<u8>, Seq<u8>)>,
    code: Option<Seq<char>>,
    now: int,
) -> CommandRecord {
    CommandRecord {
        status: if receipt is Some {
            CommandStatus::CompletedSuccess
        } else {
            CommandStatus::CompletedError
        },
        receipt,
        code,
        completed_at: Some(now),
        ..record
    }
}

/// What an action does to a store; one that only reads, or asks someone else, does nothing.
pub open spec fn effect(store: Store, action: Action, now: int) -> Store {
    match action {
        Action::PruneChallenges => Store {
            challenges: store.challenges.restrict(
                Set::new(|id: Seq<char>| store.challenges[id].expires_at >= now - DAY_NANOS),
            ),
            ..store
        },
        Action::PruneCommands { receipt_ttl_seconds } => Store {
            commands: store.commands.restrict(
                Set::new(
                    |key: CommandKeyView|
                        match store.commands[key].completed_at {
                            None => true,
                            Some(time) => time >= now - receipt_ttl_seconds * 1_000_000_000,
                        },
                ),
            ),
            ..store
        },
        Action::ReserveCommand { key, intent } => if store.commands.dom().contains(key@) {
            store
        } else {
            Store {
                commands: store.commands.insert(
                    key@,
                    CommandRecord {
                        intent: intent@,
                        status: CommandStatus::Reserved,
                        receipt: None,
                        code: None,
                        completed_at: None,
                    },
                ),
                ..store
            }
        },
        Action::SetCommandStatus { key, from, to } => move_command(store, key@, from, to),
        Action::MarkIssuing { key } => move_command(
            store,
            key@,
            CommandStatus::Verifying,
            CommandStatus::Issuing,
        ),
        Action::CompleteSuccess { key, nonce, ciphertext } => complete(
            store,
            key@,
            Some((nonce@, ciphertext@)),
            None,
            now,
        ),
        Action::CompleteError { key, code } => complete(store, key@, None, Some(code.text()), now),
        Action::EnsureSubject { subject, user_id } => if store.subjects.dom().contains(subject@) {
            store
        } else {
            Store {
                subjects: store.subjects.insert(subject@, SubjectRecord { user_id, revision: 0 }),
                ..store
            }
        },
        Action::AdvanceSubject { subject, .. } => if store.subjects.dom().contains(subject@) {
            Store {
                subjects: store.subjects.insert(
                    subject@,
                    SubjectRecord {
                        revision: store.subjects[subject@].revision + 1,
                        ..store.subjects[subject@]
                    },
                ),
                ..store
            }
        } else {
            store
        },
        Action::InsertPasskey(new) => if store.has_credential(new.credential_id@) {
            store
        } else {
            Store {
                passkeys: store.passkeys.insert(
                    new.passkey_id@,
                    PasskeyRecord {
                        subject: new.subject@,
                        credential_id: new.credential_id@,
                        public_key: new.public_key@,
                        passkey: new.passkey@,
                        label: new.label@,
                        sign_count: new.sign_count as int,
                        revision: 1,
                        created_at: now,
                        last_used_at: None,
                        revoked_at: None,
                    },
                ),
                ..store
            }
        },
        Action::UpdatePasskey { passkey_id, passkey, sign_count } => change_passkey(
            store,
            passkey_id@,
            PasskeyRecord {
                passkey: passkey@,
                sign_count: if sign_count > store.passkeys[passkey_id@].sign_count {
                    sign_count as int
                } else {
                    store.passkeys[passkey_id@].sign_count
                },
                revision: store.passkeys[passkey_id@].revision + 1,
                last_used_at: Some(now),
                ..store.passkeys[passkey_id@]
            },
        ),
        Action::RevokePasskey { passkey_id } => change_passkey(
            store,
            passkey_id@,
            PasskeyRecord {
                revision: store.passkeys[passkey_id@].revision + 1,
                revoked_at: Some(now),
                ..store.passkeys[passkey_id@]
            },
        ),
        Action::InsertChallenge(new) => Store {
            challenges: store.challenges.insert(
                new.challenge_id@,
                ChallengeRecord {
                    kind: new.kind,
                    caller: new.caller@,
                    subject: new.subject@,
                    expected_revision: new.expected_revision as int,
                    state: new.state@,
                    options: new.public_options@,
                    expires_at: new.expires_at.unix_nanos as int,
                    consumed_at: None,
                    consumed_by: None,
                },
            ),
            ..store
        },
        Action::ConsumeChallenge {
            challenge_id,
            operation,
            idempotency_key,
        } => if store.challenges.dom().contains(challenge_id@) {
            Store {
                challenges: store.challenges.insert(
                    challenge_id@,
                    ChallengeRecord {
                        consumed_at: Some(now),
                        consumed_by: Some((operation@, idempotency_key@)),
                        ..store.challenges[challenge_id@]
                    },
                ),
                ..store
            }
        } else {
            store
        },
        _ => store,
    }
}

/// A command moves from one status to another, if it has the first.
pub open spec fn move_command(
    store: Store,
    key: CommandKeyView,
    from: CommandStatus,
    to: CommandStatus,
) -> Store {
    if store.commands.dom().contains(key) && store.commands[key].status == from {
        Store {
            commands: store.commands.insert(
                key,
                CommandRecord { status: to, ..store.commands[key] },
            ),
            ..store
        }
    } else {
        store
    }
}

/// A command is completed, if it is open.
pub open spec fn complete(
    store: Store,
    key: CommandKeyView,
    receipt: Option<(Seq<u8>, Seq<u8>)>,
    code: Option<Seq<char>>,
    now: int,
) -> Store {
    if store.commands.dom().contains(key) && store.commands[key].is_open() {
        Store {
            commands: store.commands.insert(
                key,
                completed(store.commands[key], receipt, code, now),
            ),
            ..store
        }
    } else {
        store
    }
}

/// A passkey is replaced, if it is there.
pub open spec fn change_passkey(store: Store, id: Seq<char>, record: PasskeyRecord) -> Store {
    if store.passkeys.dom().contains(id) {
        Store { passkeys: store.passkeys.insert(id, record), ..store }
    } else {
        store
    }
}

/// A row that shows a command.
pub open spec fn shows_command(row: CommandRow, record: CommandRecord) -> bool {
    &&& row.intent_hash matches Ok(intent)
    &&& intent@ == record.intent
    &&& row.status matches Ok(status)
    &&& status@ == record.status.text()
    &&& record.receipt matches Some(receipt) ==> {
        &&& row.response_nonce matches Ok(nonce)
        &&& nonce@ == receipt.0
        &&& row.response_ciphertext matches Ok(ciphertext)
        &&& ciphertext@ == receipt.1
    }
    &&& record.code matches Some(code) ==> {
        &&& row.error_code matches Ok(text)
        &&& text@ == code
    }
}

/// An instant that may be absent.
pub open spec fn instant(value: Option<Timestamp>) -> Option<int> {
    match value {
        Some(value) => Some(value.unix_nanos as int),
        None => None,
    }
}

/// A row that shows a challenge.
pub open spec fn shows_challenge(row: ChallengeRow, record: ChallengeRecord) -> bool {
    &&& row.caller_instance@ == record.caller
    &&& row.subject@ == record.subject
    &&& row.expected_revision == record.expected_revision
    &&& row.state@ == record.state
    &&& row.expires_at.unix_nanos == record.expires_at
    &&& instant(row.consumed_at) == record.consumed_at
}

/// A row that shows a subject.
pub open spec fn shows_subject(row: SubjectRow, record: SubjectRecord) -> bool {
    row.user_id == record.user_id && row.revision == record.revision
}

/// A row that shows a passkey.
pub open spec fn shows_passkey(row: PasskeyRow, record: PasskeyRecord) -> bool {
    &&& row.credential_id@ == record.credential_id
    &&& row.passkey@ == record.passkey
    &&& row.label@ == record.label
    &&& row.sign_count == record.sign_count
    &&& row.revision == record.revision
    &&& row.created_at.unix_nanos == record.created_at
    &&& instant(row.last_used_at) == record.last_used_at
    &&& instant(row.revoked_at) == record.revoked_at
}

/// Rows that show a subject's passkeys: each once, oldest first, and all of them but the revoked
/// ones where those are left out. Of passkeys of one instant, the database's own order of texts
/// decides which comes first.
pub open spec fn shows_passkeys(
    rows: Seq<PasskeyRow>,
    store: Store,
    subject: Seq<char>,
    include_revoked: bool,
) -> bool {
    &&& forall|i: int|
        0 <= i < rows.len() ==> {
            let id = (#[trigger] rows[i]).passkey_id@;
            &&& store.passkeys.dom().contains(id)
            &&& store.passkeys[id].subject == subject
            &&& include_revoked || store.passkeys[id].revoked_at is None
            &&& shows_passkey(rows[i], store.passkeys[id])
        }
    &&& forall|i: int, j: int|
        0 <= i < j < rows.len() ==> {
            &&& (#[trigger] rows[i]).passkey_id@ != (#[trigger] rows[j]).passkey_id@
            &&& rows[i].created_at.unix_nanos <= rows[j].created_at.unix_nanos
        }
    &&& forall|id: Seq<char>| #[trigger]
        store.passkeys.dom().contains(id) && store.passkeys[id].subject == subject && (
        include_revoked || store.passkeys[id].revoked_at is None) ==> exists|i: int|
            0 <= i < rows.len() && (#[trigger] rows[i]).passkey_id@ == id
}

/// How many rows a change of one command affects.
pub open spec fn affects(reply: Reply, yes: bool) -> bool {
    reply matches Reply::Affected(count) && count == (if yes {
        1u64
    } else {
        0u64
    })
}

/// Whether a reply is what an action is answered of a store; any action may fail.
pub open spec fn answers(store: Store, action: Action, now: int, reply: Reply) -> bool {
    ||| reply is Failed
    ||| match action {
        Action::Begin { .. } => reply is Done,
        Action::Commit { .. } => reply is Done,
        Action::Rollback { .. } => reply is Done,
        Action::PruneChallenges => reply is Done,
        Action::PruneCommands { .. } => reply is Done,
        Action::ReserveCommand { key, .. } => affects(
            reply,
            !store.commands.dom().contains(key@),
        ),
        Action::LoadCommand { key } => {
            &&& store.commands.dom().contains(key@)
            &&& reply matches Reply::Command(row)
            &&& shows_command(row, store.commands[key@])
        },
        Action::SetCommandStatus { key, from, .. } => affects(
            reply,
            store.commands.dom().contains(key@) && store.commands[key@].status == from,
        ),
        Action::MarkIssuing { key } => affects(
            reply,
            store.commands.dom().contains(key@) && store.commands[key@].status is Verifying,
        ),
        Action::CompleteSuccess { key, .. } => affects(
            reply,
            store.commands.dom().contains(key@) && store.commands[key@].is_open(),
        ),
        Action::CompleteError { key, .. } => affects(
            reply,
            store.commands.dom().contains(key@) && store.commands[key@].is_open(),
        ),
        Action::EnsureSubject { .. } => reply is Done,
        Action::LockSubject { subject } => {
            &&& store.subjects.dom().contains(subject@)
            &&& reply matches Reply::Subject(row)
            &&& shows_subject(row, store.subjects[subject@])
        },
        Action::LockSubjectOptional { subject } => shows_optional_subject(
            store,
            subject@,
            reply,
        ),
        Action::LoadSubject { subject } => shows_optional_subject(store, subject@, reply),
        Action::AdvanceSubject { subject, .. } => {
            &&& store.subjects.dom().contains(subject@)
            &&& reply matches Reply::Revision(revision)
            &&& revision == store.subjects[subject@].revision + 1
        },
        Action::LockPasskeys { subject } => {
            &&& reply matches Reply::Passkeys(rows)
            &&& shows_passkeys(rows@, store, subject@, false)
        },
        Action::LoadPasskeys { subject, include_revoked } => {
            &&& reply matches Reply::Passkeys(rows)
            &&& shows_passkeys(rows@, store, subject@, include_revoked)
        },
        Action::InsertPasskey(new) => {
            &&& store.subjects.dom().contains(new.subject@)
            &&& reply matches Reply::Inserted(inserted)
            &&& if store.has_credential(new.credential_id@) {
                inserted is None
            } else {
                &&& !store.passkeys.dom().contains(new.passkey_id@)
                &&& inserted matches Some(inserted)
                &&& inserted.revision == 1
                &&& inserted.created_at.unix_nanos == now
            }
        },
        Action::UpdatePasskey { .. } => reply is Done,
        Action::LockPasskey { passkey_id, subject } => {
            &&& reply matches Reply::Revocable(row)
            &&& if store.passkeys.dom().contains(passkey_id@) && store.passkeys[passkey_id@].subject
                == subject@ {
                &&& row matches Some(row)
                &&& row.revision == store.passkeys[passkey_id@].revision
                &&& instant(row.revoked_at) == store.passkeys[passkey_id@].revoked_at
            } else {
                row is None
            }
        },
        Action::RevokePasskey { passkey_id } => {
            &&& store.passkeys.dom().contains(passkey_id@)
            &&& reply matches Reply::Revision(revision)
            &&& revision == store.passkeys[passkey_id@].revision + 1
        },
        Action::InsertChallenge(new) => {
            &&& reply is Done
            &&& store.subjects.dom().contains(new.subject@)
            &&& !store.challenges.dom().contains(new.challenge_id@)
        },
        Action::LockChallenge { challenge_id, kind } => {
            &&& reply matches Reply::Challenge(row)
            &&& if store.challenges.dom().contains(challenge_id@)
                && store.challenges[challenge_id@].kind == kind {
                &&& row matches Some(row)
                &&& shows_challenge(row, store.challenges[challenge_id@])
            } else {
                row is None
            }
        },
        Action::ConsumeChallenge { .. } => reply is Done,
        Action::ReadDirectory { .. } => reply is Directory,
        Action::IssueSession(_) => reply is Issue,
    }
}

/// A reply that tells of a subject that may be there.
pub open spec fn shows_optional_subject(store: Store, subject: Seq<char>, reply: Reply) -> bool {
    &&& reply matches Reply::MaybeSubject(row)
    &&& if store.subjects.dom().contains(subject) {
        &&& row matches Some(row)
        &&& shows_subject(row, store.subjects[subject])
    } else {
        row is None
    }
}

/// A database as one run sees it: what is committed, and what its open transaction holds.
#[verifier::ext_equal]
pub struct Database {
    pub committed: Store,
    pub open: Option<Store>,
}

impl Database {
    /// The store that the next statement sees.
    pub open spec fn current(self) -> Store {
        match self.open {
            Some(store) => store,
            None => self.committed,
        }
    }
}

/// A database after an action that was performed.
pub open spec fn performed(db: Database, action: Action, now: int) -> Database {
    match action {
        Action::Begin { .. } => Database { open: Some(db.committed), ..db },
        Action::Commit { .. } => Database { committed: db.current(), open: None },
        Action::Rollback { .. } => Database { open: None, ..db },
        _ => match db.open {
            Some(store) => Database { open: Some(effect(store, action, now)), ..db },
            None => Database { committed: effect(db.committed, action, now), ..db },
        },
    }
}

/// A database after a run that waited on it has ended, and its open transaction with it.
pub open spec fn abandoned(db: Database) -> Database {
    Database { open: None, ..db }
}

/// What an action and its reply may make of a database. Where the reply is that the action failed,
/// the run ends; the action, a commit too, may have been performed nevertheless, or not.
pub open spec fn leads_to(
    db: Database,
    action: Action,
    now: int,
    reply: Reply,
    after: Database,
) -> bool {
    if reply is Failed {
        after == abandoned(db) || after == abandoned(performed(db, action, now))
    } else {
        after == performed(db, action, now)
    }
}

/// Every action that is answered keeps what every store keeps.
pub proof fn actions_keep_the_store(store: Store, action: Action, now: int, reply: Reply)
    requires
        store.is_kept(),
        answers(store, action, now, reply),
        reply !is Failed,
        action matches Action::InsertPasskey(new) ==> new.sign_count >= 0,
        action matches Action::SetCommandStatus { from, to, .. } ==> from == CommandStatus::Reserved
            && to == CommandStatus::Verifying,
    ensures
        effect(store, action, now).is_kept(),
{
    let after = effect(store, action, now);
    match action {
        Action::InsertPasskey(new) => {
            if !store.has_credential(new.credential_id@) {
                assert forall|a: Seq<char>, b: Seq<char>|
                    #![trigger after.passkeys.dom().contains(a), after.passkeys.dom().contains(b)]
                    after.passkeys.dom().contains(a) && after.passkeys.dom().contains(b)
                        && after.passkeys[a].credential_id == after.passkeys[b].credential_id implies a
                    == b by {
                    if a != new.passkey_id@ {
                        assert(store.passkeys.dom().contains(a));
                    }
                    if b != new.passkey_id@ {
                        assert(store.passkeys.dom().contains(b));
                    }
                }
            }
        },
        _ => {},
    }
}

/// A command that is completed stays as it is, whatever is done, until it is pruned; and then
/// only after the retention time.
pub proof fn completed_commands_are_final(
    store: Store,
    action: Action,
    now: int,
    key: CommandKeyView,
)
    requires
        store.is_kept(),
        store.commands.dom().contains(key),
        !store.commands[key].is_open(),
        action matches Action::SetCommandStatus { from, .. } ==> from == CommandStatus::Reserved,
    ensures
        effect(store, action, now).commands.dom().contains(key) ==> effect(
            store,
            action,
            now,
        ).commands[key] == store.commands[key],
        !effect(store, action, now).commands.dom().contains(key) ==> {
            &&& action matches Action::PruneCommands { receipt_ttl_seconds }
            &&& store.commands[key].completed_at->0 < now - receipt_ttl_seconds * 1_000_000_000
        },
{
}

/// A command that is not completed is never removed.
pub proof fn open_commands_are_never_removed(
    store: Store,
    action: Action,
    now: int,
    key: CommandKeyView,
)
    requires
        store.is_kept(),
        store.commands.dom().contains(key),
        store.commands[key].is_open(),
    ensures
        effect(store, action, now).commands.dom().contains(key),
        effect(store, action, now).commands[key].intent == store.commands[key].intent,
{
}

/// A consumed challenge is never unconsumed; it can only be pruned, a day after its expiry.
pub proof fn consumption_is_final(store: Store, action: Action, now: int, id: Seq<char>)
    requires
        store.challenges.dom().contains(id),
        store.challenges[id].consumed_at is Some,
        action matches Action::InsertChallenge(new) ==> !store.challenges.dom().contains(
            new.challenge_id@,
        ),
    ensures
        effect(store, action, now).challenges.dom().contains(id) ==> effect(
            store,
            action,
            now,
        ).challenges[id].consumed_at is Some,
        !effect(store, action, now).challenges.dom().contains(id) ==> {
            &&& action is PruneChallenges
            &&& store.challenges[id].expires_at < now - DAY_NANOS
        },
{
}

/// A passkey is never removed, keeps its subject and credential, its counter and its revision
/// never go back, and once revoked it stays revoked.
pub proof fn passkeys_only_move_forward(store: Store, action: Action, now: int, id: Seq<char>)
    requires
        store.passkeys.dom().contains(id),
        action matches Action::InsertPasskey(new) ==> !store.passkeys.dom().contains(
            new.passkey_id@,
        ),
    ensures
        effect(store, action, now).passkeys.dom().contains(id),
        effect(store, action, now).passkeys[id].subject == store.passkeys[id].subject,
        effect(store, action, now).passkeys[id].credential_id == store.passkeys[id].credential_id,
        effect(store, action, now).passkeys[id].sign_count >= store.passkeys[id].sign_count,
        effect(store, action, now).passkeys[id].revision >= store.passkeys[id].revision,
        store.passkeys[id].revoked_at is Some ==> effect(store, action, now).passkeys[id].revoked_at
            is Some,
{
}

/// A subject is never removed, keeps its user handle, and its revision never goes back and
/// advances by one at a time.
pub proof fn subjects_only_move_forward(store: Store, action: Action, now: int, subject: Seq<char>)
    requires
        store.subjects.dom().contains(subject),
    ensures
        effect(store, action, now).subjects.dom().contains(subject),
        effect(store, action, now).subjects[subject].user_id == store.subjects[subject].user_id,
        store.subjects[subject].revision <= effect(store, action, now).subjects[subject].revision
            <= store.subjects[subject].revision + 1,
{
}

} // verus!
