//! One-time challenges: how one is consumed, and when a consumed one is of use.

use vstd::prelude::*;

use crate::command::{CommandKey, ReceiptCode};
use crate::failure::Failure;
use crate::instant::Timestamp;
use crate::rows::ChallengeRow;
use crate::storage::{stray, stray_reply, Action, ChallengeKind, Reply};
use crate::text::same_text;

verus! {

/// How far the consumption of a challenge has come.
#[derive(Debug)]
pub enum ConsumeStage {
    /// A transaction is being opened.
    Beginning,
    /// The challenge is being locked.
    Locking,
    /// There is no such challenge; the transaction is being closed.
    Missing,
    /// The challenge is another caller's or was consumed before; the transaction is being closed.
    Spent(ChallengeRow),
    /// The challenge is being marked as consumed.
    Consuming(ChallengeRow),
    /// The challenge is marked as consumed; the transaction is being closed.
    Consumed(ChallengeRow),
}

/// How the consumption of a challenge goes on.
#[derive(Debug)]
pub enum Consumption {
    /// Perform the action and go on.
    Act(ConsumeStage, Action),
    /// It is over: the challenge as it was before, if there is one.
    Over(Option<ChallengeRow>),
    /// It failed.
    Failed(Failure),
}

/// How the consumption of a challenge by a command starts.
pub open spec fn consumption_start() -> Consumption {
    Consumption::Act(
        ConsumeStage::Beginning,
        Action::Begin { label: "begin passkey challenge consumption" },
    )
}

pub fn begin_consumption() -> (r: Consumption)
    ensures
        r == consumption_start(),
{
    Consumption::Act(
        ConsumeStage::Beginning,
        Action::Begin { label: "begin passkey challenge consumption" },
    )
}

/// How the consumption of a challenge by a command goes on: only a challenge of this caller that
/// was not consumed before is marked, and its mark is committed before it is given out.
pub open spec fn consumption(
    challenge_id: String,
    kind: ChallengeKind,
    key: CommandKey,
    stage: ConsumeStage,
    reply: Reply,
) -> Consumption {
    match (stage, reply) {
        (ConsumeStage::Beginning, Reply::Done) => Consumption::Act(
            ConsumeStage::Locking,
            Action::LockChallenge { challenge_id, kind },
        ),
        (ConsumeStage::Locking, Reply::Challenge(None)) => Consumption::Act(
            ConsumeStage::Missing,
            Action::Commit { label: "commit missing challenge lookup" },
        ),
        (ConsumeStage::Locking, Reply::Challenge(Some(row))) => if row.caller_instance@
            != key.caller@ || row.consumed_at is Some {
            Consumption::Act(
                ConsumeStage::Spent(row),
                Action::Commit { label: "commit used challenge lookup" },
            )
        } else {
            Consumption::Act(
                ConsumeStage::Consuming(row),
                Action::ConsumeChallenge {
                    challenge_id,
                    operation: key.operation,
                    idempotency_key: key.idempotency_key,
                },
            )
        },
        (ConsumeStage::Missing, Reply::Done) => Consumption::Over(None),
        (ConsumeStage::Spent(row), Reply::Done) => Consumption::Over(Some(row)),
        (ConsumeStage::Consuming(row), Reply::Done) => Consumption::Act(
            ConsumeStage::Consumed(row),
            Action::Commit { label: "commit passkey challenge consumption" },
        ),
        (ConsumeStage::Consumed(row), Reply::Done) => Consumption::Over(Some(row)),
        (_, reply) => Consumption::Failed(stray(reply)),
    }
}

pub fn consume_challenge(
    challenge_id: &String,
    kind: ChallengeKind,
    key: &CommandKey,
    stage: ConsumeStage,
    reply: Reply,
) -> (r: Consumption)
    ensures
        r == consumption(*challenge_id, kind, *key, stage, reply),
{
    match (stage, reply) {
        (ConsumeStage::Beginning, Reply::Done) => Consumption::Act(
            ConsumeStage::Locking,
            Action::LockChallenge { challenge_id: challenge_id.clone(), kind },
        ),
        (ConsumeStage::Locking, Reply::Challenge(None)) => Consumption::Act(
            ConsumeStage::Missing,
            Action::Commit { label: "commit missing challenge lookup" },
        ),
        (ConsumeStage::Locking, Reply::Challenge(Some(row))) => {
            if !same_text(row.caller_instance.as_str(), key.caller.as_str())
                || row.consumed_at.is_some() {
                Consumption::Act(
                    ConsumeStage::Spent(row),
                    Action::Commit { label: "commit used challenge lookup" },
                )
            } else {
                Consumption::Act(
                    ConsumeStage::Consuming(row),
                    Action::ConsumeChallenge {
                        challenge_id: challenge_id.clone(),
                        operation: key.operation,
                        idempotency_key: key.idempotency_key.clone(),
                    },
                )
            }
        },
        (ConsumeStage::Missing, Reply::Done) => Consumption::Over(None),
        (ConsumeStage::Spent(row), Reply::Done) => Consumption::Over(Some(row)),
        (ConsumeStage::Consuming(row), Reply::Done) => Consumption::Act(
            ConsumeStage::Consumed(row),
            Action::Commit { label: "commit passkey challenge consumption" },
        ),
        (ConsumeStage::Consumed(row), Reply::Done) => Consumption::Over(Some(row)),
        (_, reply) => Consumption::Failed(stray_reply(reply)),
    }
}

/// Why a challenge is of no use to its caller, if it is not: it was consumed before, or it has
/// expired.
pub open spec fn spent_challenge(challenge: ChallengeRow, now: Timestamp) -> Option<ReceiptCode> {
    if challenge.consumed_at is Some {
        Some(ReceiptCode::ChallengeUsed)
    } else if now.unix_nanos >= challenge.expires_at.unix_nanos {
        Some(ReceiptCode::ChallengeExpired)
    } else {
        None
    }
}

/// Why a challenge is of no use to a registration, if it is not.
pub open spec fn registration_challenge_fault(
    challenge: ChallengeRow,
    caller: Seq<char>,
    subject: Seq<char>,
    expected_revision: i64,
    now: Timestamp,
) -> Option<ReceiptCode> {
    if challenge.caller_instance@ != caller || challenge.subject@ != subject
        || challenge.expected_revision != expected_revision {
        Some(ReceiptCode::InvalidRequest)
    } else {
        spent_challenge(challenge, now)
    }
}

/// Why a challenge is of no use to an authentication, if it is not.
pub open spec fn authentication_challenge_fault(
    challenge: ChallengeRow,
    caller: Seq<char>,
    now: Timestamp,
) -> Option<ReceiptCode> {
    if challenge.caller_instance@ != caller {
        Some(ReceiptCode::InvalidRequest)
    } else {
        spent_challenge(challenge, now)
    }
}

fn check_spent(challenge: &ChallengeRow, now: Timestamp) -> (r: Option<ReceiptCode>)
    ensures
        r == spent_challenge(*challenge, now),
{
    if challenge.consumed_at.is_some() {
        Some(ReceiptCode::ChallengeUsed)
    } else if now.unix_nanos >= challenge.expires_at.unix_nanos {
        Some(ReceiptCode::ChallengeExpired)
    } else {
        None
    }
}

pub fn check_registration_challenge(
    challenge: &ChallengeRow,
    caller: &str,
    subject: &str,
    expected_revision: i64,
    now: Timestamp,
) -> (r: Option<ReceiptCode>)
    ensures
        r == registration_challenge_fault(*challenge, caller@, subject@, expected_revision, now),
{
    if !same_text(challenge.caller_instance.as_str(), caller) || !same_text(
        challenge.subject.as_str(),
        subject,
    ) || challenge.expected_revision != expected_revision {
        Some(ReceiptCode::InvalidRequest)
    } else {
        check_spent(challenge, now)
    }
}

pub fn check_authentication_challenge(
    challenge: &ChallengeRow,
    caller: &str,
    now: Timestamp,
) -> (r: Option<ReceiptCode>)
    ensures
        r == authentication_challenge_fault(*challenge, caller@, now),
{
    if !same_text(challenge.caller_instance.as_str(), caller) {
        Some(ReceiptCode::InvalidRequest)
    } else {
        check_spent(challenge, now)
    }
}

} // verus!
