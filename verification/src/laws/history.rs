//! Runs of an operation, step by step, and what they do to a database that they have to
//! themselves.

use vstd::prelude::*;

use crate::failure::{Failure, PasskeyPluginError};
use crate::instant::{rfc3339, Timestamp};
use crate::authority::DirectoryReply;
use crate::command::{
    claim_of, opened_receipt, CommandClaim, CommandKeyView, CommandRow, CommandStatus,
};
use crate::model::{answers, effect, leads_to, shows_command, Database, Store};
use crate::receipt::sealable;
use crate::storage::{Action, IssueReply, Progress, Reply};

verus! {

/// One step of a run: the reply that came, when, and how the run went on.
pub struct Step<S, R, E> {
    pub reply: Reply,
    pub now: Timestamp,
    pub next: Progress<S, R, E>,
}

/// The run that waits for a reply, if the progress is one that waits.
pub open spec fn waiting<S, R, E>(progress: Progress<S, R, E>) -> Option<S> {
    match progress {
        Progress::Act(run, _) => Some(run),
        Progress::Encode(run, _) => Some(run),
        _ => None,
    }
}

/// How far a run has come after so many steps.
pub open spec fn after_steps<S, R, E>(
    first: Progress<S, R, E>,
    steps: Seq<Step<S, R, E>>,
    count: int,
) -> Progress<S, R, E> {
    if count <= 0 {
        first
    } else {
        steps[count - 1].next
    }
}

/// What a step does to a database, if the reply is what the database answers.
pub open spec fn step_on<S, R, E>(
    progress: Progress<S, R, E>,
    step: Step<S, R, E>,
    before: Database,
    after: Database,
) -> bool {
    match progress {
        Progress::Act(_, action) => {
            &&& answers(before.current(), action, step.now.unix_nanos as int, step.reply)
            &&& leads_to(before, action, step.now.unix_nanos as int, step.reply, after)
        },
        _ => {
            &&& step.reply is Encoded || step.reply is Failed
            &&& after == before
        },
    }
}

/// The databases that a run goes through, one before each step and one after the last.
pub open spec fn run_on<S, R, E>(
    first: Progress<S, R, E>,
    steps: Seq<Step<S, R, E>>,
    databases: Seq<Database>,
) -> bool {
    &&& databases.len() == steps.len() + 1
    &&& databases[0].open is None
    &&& forall|i: int|
        0 <= i < steps.len() ==> step_on(
            after_steps(first, steps, i),
            #[trigger] steps[i],
            databases[i],
            databases[i + 1],
        )
}

/// What a run was told, beside what the database holds.
#[verifier::ext_equal]
pub struct Heard {
    /// Why an action failed.
    pub fault: Option<PasskeyPluginError>,
    /// What Identity Directory answered.
    pub directory: Option<DirectoryReply>,
    /// What Credential Issuer answered.
    pub issue: Option<IssueReply>,
    /// The bytes of the encoded response.
    pub bytes: Option<Seq<u8>>,
}

impl Heard {
    /// What a run was told that has not yet been answered anything.
    pub open spec fn nothing() -> Heard {
        Heard { fault: None, directory: None, issue: None, bytes: None }
    }

    /// What a run was told, and one reply more.
    pub open spec fn and(self, reply: Reply) -> Heard {
        match reply {
            Reply::Failed(error) => Heard { fault: Some(error), ..self },
            Reply::Directory(answer) => Heard { directory: Some(answer), ..self },
            Reply::Issue(answer) => Heard { issue: Some(answer), ..self },
            Reply::Encoded(bytes) => Heard { bytes: Some(bytes@), ..self },
            _ => self,
        }
    }

    /// Whether the directory called a subject active, and no other.
    pub open spec fn vouches(self, subject: Seq<char>) -> bool {
        self.directory matches Some(DirectoryReply::Status { subject: answered, active })
            && answered@ == subject && active
    }

    /// Whether the directory called a subject inactive, or did not know it.
    pub open spec fn denies(self, subject: Seq<char>) -> bool {
        match self.directory {
            Some(DirectoryReply::Status { subject: answered, active }) => answered@ == subject
                && !active,
            Some(DirectoryReply::NotFound) => true,
            _ => false,
        }
    }

    /// Whether a failure is the directory's: it answered of another subject, with an error that is
    /// not known, or not at all.
    pub open spec fn lacks_status(self, subject: Seq<char>, failure: Failure) -> bool {
        match self.directory {
            Some(DirectoryReply::Status { subject: answered, .. }) => answered@ != subject
                && failure == Failure::DirectoryOtherSubject,
            Some(DirectoryReply::Unknown(error)) => failure == Failure::DirectoryUnknown(error),
            Some(DirectoryReply::Unavailable) => failure == Failure::Dependency,
            _ => false,
        }
    }
}

/// What a run was told in its steps.
pub open spec fn heard<S, R, E>(steps: Seq<Step<S, R, E>>) -> Heard
    decreases steps.len(),
{
    if steps.len() == 0 {
        Heard::nothing()
    } else {
        heard(steps.drop_last()).and(steps.last().reply)
    }
}

/// Whether a progress asks Credential Issuer for a session.
pub open spec fn asks_session<S, R, E>(progress: Progress<S, R, E>) -> bool {
    progress matches Progress::Act(_, Action::IssueSession(_))
}

/// How often a run has asked Credential Issuer for a session, after so many steps.
pub open spec fn sessions_asked<S, R, E>(
    first: Progress<S, R, E>,
    steps: Seq<Step<S, R, E>>,
    count: int,
) -> nat
    decreases count,
{
    if count <= 0 {
        0
    } else if asks_session(after_steps(first, steps, count - 1)) {
        sessions_asked(first, steps, count - 1) + 1
    } else {
        sessions_asked(first, steps, count - 1)
    }
}

/// The store of a run that prunes, after its first two steps.
pub open spec fn after_pruning(databases: Seq<Database>) -> Store {
    if databases.len() < 3 {
        databases.last().committed
    } else {
        databases[2].committed
    }
}

/// Whether the first two steps of a run prune a store: challenges, then commands. A step that
/// failed may have pruned or not.
pub open spec fn prunes<S, R, E>(
    store: Store,
    steps: Seq<Step<S, R, E>>,
    receipt_ttl_seconds: u64,
    after: Store,
) -> bool {
    let fewer = effect(store, Action::PruneChallenges, steps[0].now.unix_nanos as int);
    let fewest = effect(
        fewer,
        Action::PruneCommands { receipt_ttl_seconds },
        steps[1].now.unix_nanos as int,
    );
    if steps.len() == 0 {
        after == store
    } else if steps[0].reply is Failed {
        after == store || after == fewer
    } else if steps.len() == 1 {
        after == fewer
    } else if steps[1].reply is Failed {
        after == fewer || after == fewest
    } else {
        after == fewest
    }
}

/// Two stores that differ in their commands at most.
pub open spec fn same_state(a: Store, b: Store) -> bool {
    a.subjects == b.subjects && a.passkeys == b.passkeys && a.challenges == b.challenges
}

/// Two stores whose commands differ in one at most.
pub open spec fn same_commands_but(a: Store, b: Store, key: CommandKeyView) -> bool {
    forall|other: CommandKeyView|
        other != key ==> {
            &&& #[trigger] b.commands.dom().contains(other) == a.commands.dom().contains(other)
            &&& b.commands.dom().contains(other) ==> b.commands[other] == a.commands[other]
        }
}

/// How a command stands, to one who comes with an intent.
pub enum Standing {
    /// It is not there.
    Fresh,
    /// It is there with another intent.
    Conflict,
    /// It is there and not completed.
    InProgress,
    /// It was refused, with a code.
    Refused(Seq<char>),
    /// It succeeded, with a receipt that opens to the bytes of a response, or does not open.
    Succeeded(Option<Seq<u8>>),
}

/// How a command stands in a store, to one who comes with an intent.
pub open spec fn standing(
    store: Store,
    key: CommandKeyView,
    intent: Seq<u8>,
    receipt_key: Seq<u8>,
) -> Standing {
    if !store.commands.dom().contains(key) {
        Standing::Fresh
    } else if store.commands[key].intent != intent {
        Standing::Conflict
    } else if store.commands[key].is_open() {
        Standing::InProgress
    } else if store.commands[key].status is CompletedError {
        Standing::Refused(store.commands[key].code->0)
    } else {
        let receipt = store.commands[key].receipt->0;
        Standing::Succeeded(opened_receipt(receipt_key, key, receipt.0, receipt.1))
    }
}

/// A stored command is read as it stands.
pub proof fn claims_read_the_standing(
    store: Store,
    key: CommandKeyView,
    intent: Seq<u8>,
    receipt_key: Seq<u8>,
    row: CommandRow,
)
    requires
        store.is_kept(),
        store.commands.dom().contains(key),
        shows_command(row, store.commands[key]),
    ensures
        match (standing(store, key, intent, receipt_key), claim_of(row, intent)) {
            (Standing::Conflict, Ok(CommandClaim::Conflict)) => true,
            (Standing::InProgress, Ok(CommandClaim::InProgress)) => true,
            (Standing::Refused(code), Ok(CommandClaim::CompletedError(text))) => text@ == code,
            (
                Standing::Succeeded(bytes),
                Ok(CommandClaim::CompletedSuccess { nonce, ciphertext }),
            ) => opened_receipt(receipt_key, key, nonce@, ciphertext@) == bytes,
            _ => false,
        },
{
    let record = store.commands[key];
    assert(record.is_kept());
    statuses_differ();
}

proof fn statuses_differ()
    ensures
        forall|a: CommandStatus, b: CommandStatus|
            #![trigger a.text(), b.text()]
            a.text() == b.text() ==> a == b,
{
    reveal_strlit("reserved");
    reveal_strlit("verifying");
    reveal_strlit("issuing");
    reveal_strlit("completed_success");
    reveal_strlit("completed_error");
    assert("reserved"@[0] == 'r');
    assert("verifying"@[0] == 'v');
    assert("issuing"@[0] == 'i');
    assert("completed_success"@[10] == 's');
    assert("completed_error"@[10] == 'e');
    assert("completed_error"@[0] == 'c');
    assert("completed_success"@[0] == 'c');
}

/// Whether an action reserves or changes a command.
pub open spec fn acts_on(action: Action, key: CommandKeyView) -> bool {
    match action {
        Action::ReserveCommand { key: changed, .. } => changed@ == key,
        Action::SetCommandStatus { key: changed, .. } => changed@ == key,
        Action::MarkIssuing { key: changed } => changed@ == key,
        Action::CompleteSuccess { key: changed, .. } => changed@ == key,
        Action::CompleteError { key: changed, .. } => changed@ == key,
        _ => false,
    }
}

/// What others do to a store, action by action and each at its time, without touching a command.
pub open spec fn meanwhile(
    stores: Seq<Store>,
    actions: Seq<(Action, int)>,
    key: CommandKeyView,
) -> bool {
    &&& stores.len() == actions.len() + 1
    &&& forall|i: int|
        0 <= i < actions.len() ==> {
            &&& !acts_on((#[trigger] actions[i]).0, key)
            &&& stores[i + 1] == effect(stores[i], actions[i].0, actions[i].1)
        }
}

/// Whether no pruning among the actions reaches a command that was completed at a time.
pub open spec fn within_retention(actions: Seq<(Action, int)>, completed_at: int) -> bool {
    forall|i: int|
        0 <= i < actions.len() ==> ((#[trigger] actions[i]).0 matches Action::PruneCommands {
            receipt_ttl_seconds,
        } ==> completed_at >= actions[i].1 - receipt_ttl_seconds * 1_000_000_000)
}

/// A command stays as it is while others act: an open one always, a completed one within the
/// retention time.
pub proof fn commands_stay_meanwhile(
    stores: Seq<Store>,
    actions: Seq<(Action, int)>,
    key: CommandKeyView,
)
    requires
        meanwhile(stores, actions, key),
        stores[0].commands.dom().contains(key),
        stores[0].commands[key].completed_at matches Some(time) ==> within_retention(actions, time),
    ensures
        stores.last().commands.dom().contains(key),
        stores.last().commands[key] == stores[0].commands[key],
{
    stays_so_long(stores, actions, key, actions.len() as int);
}

proof fn stays_so_long(
    stores: Seq<Store>,
    actions: Seq<(Action, int)>,
    key: CommandKeyView,
    count: int,
)
    requires
        meanwhile(stores, actions, key),
        stores[0].commands.dom().contains(key),
        stores[0].commands[key].completed_at matches Some(time) ==> within_retention(actions, time),
        0 <= count <= actions.len(),
    ensures
        stores[count].commands.dom().contains(key),
        stores[count].commands[key] == stores[0].commands[key],
    decreases count,
{
    if count > 0 {
        stays_so_long(stores, actions, key, count - 1);
        let action = actions[count - 1];
        assert(stores[count] == effect(stores[count - 1], action.0, action.1));
    }
}

/// A store that holds an open command with an intent.
pub open spec fn holds_open(store: Store, key: CommandKeyView, intent: Seq<u8>) -> bool {
    &&& store.commands.dom().contains(key)
    &&& store.commands[key].is_open()
    &&& store.commands[key].completed_at is None
    &&& store.commands[key].intent == intent
}

/// What a run leaves that is over without an answer: its command open and no other changed; or,
/// where an action failed, perhaps nothing at all.
pub open spec fn left_open(
    before: Store,
    after: Store,
    key: CommandKeyView,
    intent: Seq<u8>,
    told: Heard,
) -> bool {
    ||| told.fault is Some && after == before
    ||| same_commands_but(before, after, key) && holds_open(after, key, intent)
}

/// Whether a failure is of a draw of random bytes.
pub open spec fn cannot_draw(failure: Failure) -> bool {
    failure matches Failure::Plugin(PasskeyPluginError::Random(_))
}

/// Whether a failure is that the encoded response could not be sealed: it is too long.
pub open spec fn cannot_seal(told: Heard, key: CommandKeyView, failure: Failure) -> bool {
    &&& failure == Failure::Plugin(PasskeyPluginError::ReceiptEncryption)
    &&& told.bytes matches Some(bytes)
    &&& !sealable(key.aad(), bytes)
}

/// Whether a failure is of writing a time: one from `earliest` to `latest` has no text.
pub open spec fn cannot_write(earliest: int, latest: int, failure: Failure) -> bool {
    &&& failure matches Failure::Timestamp(error)
    &&& exists|time: int|
        earliest <= time <= latest && #[trigger] rfc3339(time) == Err::<Seq<char>, Seq<char>>(
            error@,
        )
}

/// Whether a failure is of writing a time: one that is so many seconds after a time from `earliest`
/// to `latest` has no text.
pub open spec fn cannot_write_later(
    earliest: int,
    latest: int,
    seconds: int,
    failure: Failure,
) -> bool {
    &&& failure matches Failure::Timestamp(error)
    &&& exists|now: Timestamp|
        earliest <= now.unix_nanos <= latest && rfc3339(
            (#[trigger] now.later(seconds)).unix_nanos as int,
        ) == Err::<Seq<char>, Seq<char>>(error@)
}

/// A store that holds a refused command with an intent and a code.
pub open spec fn holds_refusal(
    store: Store,
    key: CommandKeyView,
    intent: Seq<u8>,
    code: Seq<char>,
) -> bool {
    &&& store.commands.dom().contains(key)
    &&& store.commands[key].status is CompletedError
    &&& store.commands[key].intent == intent
    &&& store.commands[key].code == Some(code)
}

/// A store that holds a successful command with an intent, and a receipt of its response.
pub open spec fn holds_receipt(
    store: Store,
    key: CommandKeyView,
    intent: Seq<u8>,
    receipt_key: Seq<u8>,
    bytes: Seq<u8>,
) -> bool {
    &&& store.commands.dom().contains(key)
    &&& store.commands[key].status is CompletedSuccess
    &&& store.commands[key].intent == intent
    &&& store.commands[key].receipt matches Some(receipt)
    &&& opened_receipt(receipt_key, key, receipt.0, receipt.1) == Some(bytes)
}

} // verus!
