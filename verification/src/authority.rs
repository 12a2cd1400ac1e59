//! Who may call: configured callers, and users that an Auth assertion vouches for.

use lenso_auth_sdk::{
    ActorAssertion, ActorAssertionVerifier, ActorProjectionError, AssertionValidationError,
    FixedClock, TypedActor,
};
use lenso_kernel::InvocationContext;
use time::OffsetDateTime;
use vstd::prelude::*;
use vstd::string::*;

use crate::ceremony::texts;
use crate::contract::CAPABILITY_ID;
use crate::failure::Failure;
use crate::instant::{Timestamp, EARLIEST_NANOS, END_NANOS};
use crate::origin::optional;
use crate::text::same_text;

verus! {

/// `lenso_auth_sdk`'s verifier of actor assertions.
#[verifier::external_type_specification]
#[verifier::external_body]
pub struct ExActorAssertionVerifier(ActorAssertionVerifier);

/// `lenso_auth_sdk`'s actor assertion.
#[verifier::external_type_specification]
#[verifier::external_body]
pub struct ExActorAssertion(ActorAssertion);

/// `lenso_auth_sdk`'s reason to refuse an assertion.
#[verifier::external_type_specification]
#[verifier::external_body]
pub struct ExAssertionValidationError(AssertionValidationError);

/// `lenso_auth_sdk`'s reason to refuse an actor.
#[verifier::external_type_specification]
pub struct ExActorProjectionError(ActorProjectionError);

/// `lenso_kernel`'s context of an invocation.
#[verifier::external_type_specification]
#[verifier::external_body]
pub struct ExInvocationContext(InvocationContext);

/// The verifier for an issuer and its public key, if the key is one.
pub uninterp spec fn assertion_verifier(
    issuer: Seq<char>,
    public_key: Seq<char>,
) -> Option<ActorAssertionVerifier>;

/// Makes a verifier with `lenso_auth_sdk`'s `ActorAssertionVerifier::from_public_key_base64`.
///
/// Whether there is one, and which, is a function of the issuer and the key.
#[verifier::external_body]
pub(crate) fn verifier_from_public_key(issuer: &str, public_key: &str) -> (r: Option<
    ActorAssertionVerifier,
>)
    ensures
        r == assertion_verifier(issuer@, public_key@),
{
    ActorAssertionVerifier::from_public_key_base64(issuer, public_key).ok()
}

/// The kind of the actor that an assertion is about.
pub uninterp spec fn asserted_kind(assertion: ActorAssertion) -> Seq<char>;

/// The subject that an assertion is about.
pub uninterp spec fn asserted_subject(assertion: ActorAssertion) -> Seq<char>;

/// Reads `lenso_auth_sdk`'s `ActorAssertion::actor_kind`.
#[verifier::external_body]
fn actor_kind(assertion: &ActorAssertion) -> (r: String)
    ensures
        r@ == asserted_kind(*assertion),
{
    assertion.actor_kind().to_owned()
}

/// Reads `lenso_auth_sdk`'s `ActorAssertion::subject`.
#[verifier::external_body]
fn actor_subject(assertion: &ActorAssertion) -> (r: String)
    ensures
        r@ == asserted_subject(*assertion),
{
    assertion.subject().to_owned()
}

/// A user that an assertion vouches for.
#[derive(Debug)]
pub struct UserActor {
    pub subject: String,
}

impl TypedActor for UserActor {
    fn from_assertion(assertion: &ActorAssertion) -> (r: Result<UserActor, ActorProjectionError>)
        ensures
            match r {
                Ok(actor) => {
                    &&& asserted_kind(*assertion) == "user"@
                    &&& actor.subject@ == asserted_subject(*assertion)
                },
                Err(ActorProjectionError::UnexpectedActorKind { expected, actual }) => {
                    &&& asserted_kind(*assertion) != "user"@
                    &&& expected@ == "user"@
                    &&& actual@ == asserted_kind(*assertion)
                },
                Err(_) => false,
            },
    {
        let kind = actor_kind(assertion);
        if !same_text(kind.as_str(), "user") {
            return Err(
                ActorProjectionError::UnexpectedActorKind {
                    expected: "user".to_owned(),
                    actual: kind,
                },
            );
        }
        Ok(UserActor { subject: actor_subject(assertion) })
    }
}

/// The assertion that a context carries for an operation, if the verifier accepts it at an
/// instant.
pub uninterp spec fn accepted_assertion(
    verifier: ActorAssertionVerifier,
    context: InvocationContext,
    capability: Seq<char>,
    operation: Seq<char>,
    unix_nanos: int,
) -> Option<ActorAssertion>;

/// Verifies and projects the assertion of a context with `lenso_auth_sdk`'s
/// `ActorAssertionVerifier::project_context`.
///
/// Which assertion is accepted is a function of the arguments; of an accepted one the projection
/// gives what `UserActor::from_assertion` gives, and nothing where that refuses.
#[verifier::external_body]
fn project_user(
    verifier: &ActorAssertionVerifier,
    context: &InvocationContext,
    capability: &str,
    operation: &str,
    unix_nanos: i128,
) -> (r: Option<UserActor>)
    requires
        EARLIEST_NANOS <= unix_nanos < END_NANOS,
    ensures
        asserted_user(
            accepted_assertion(
                *verifier,
                *context,
                capability@,
                operation@,
                unix_nanos as int,
            ),
        ) == (match r {
            Some(actor) => Some(actor.subject@),
            None => None,
        }),
{
    let clock = FixedClock::new(OffsetDateTime::from_unix_timestamp_nanos(unix_nanos).ok()?);
    verifier.project_context::<UserActor>(context, capability, operation, &clock).ok()
}

/// The subject of an accepted assertion, if it is about a user.
pub open spec fn asserted_user(assertion: Option<ActorAssertion>) -> Option<Seq<char>> {
    match assertion {
        Some(assertion) if asserted_kind(assertion) == "user"@ => Some(
            asserted_subject(assertion),
        ),
        _ => None,
    }
}

/// The instance that calls, if the context names one.
pub uninterp spec fn calling_instance(context: InvocationContext) -> Option<Seq<char>>;

/// Reads `lenso_kernel`'s `InvocationContext::caller_instance`.
#[verifier::external_body]
fn caller_instance(context: &InvocationContext) -> (r: Option<String>)
    ensures
        optional(r) == calling_instance(*context),
{
    context.caller_instance().map(str::to_owned)
}

/// The calling instance, if it is one of the configured callers.
pub open spec fn admitted_caller(
    callers: Seq<Seq<char>>,
    context: InvocationContext,
) -> Option<Seq<char>> {
    match calling_instance(context) {
        Some(caller) if callers.contains(caller) => Some(caller),
        _ => None,
    }
}

/// Whether a text is among others.
pub(crate) fn contains_text(values: &Vec<String>, value: &str) -> (r: bool)
    ensures
        r == texts(values@).contains(value@),
{
    let mut i: usize = 0;
    while i < values.len()
        invariant
            i <= values.len(),
            forall|j: int| 0 <= j < i ==> (#[trigger] values@[j])@ != value@,
        decreases values.len() - i,
    {
        if same_text(values[i].as_str(), value) {
            assert(texts(values@)[i as int] == value@);
            return true;
        }
        i = i + 1;
    }
    assert forall|j: int| 0 <= j < texts(values@).len() implies texts(values@)[j] != value@ by {
        assert(texts(values@)[j] == values@[j]@);
    }
    false
}

/// The calling instance, if it is one of `callers`.
pub fn allowed_caller(callers: &Vec<String>, context: &InvocationContext) -> (r: Option<String>)
    ensures
        optional(r) == admitted_caller(texts(callers@), *context),
{
    match caller_instance(context) {
        Some(caller) => {
            if contains_text(callers, caller.as_str()) {
                Some(caller)
            } else {
                None
            }
        },
        None => None,
    }
}

/// The calling instance of a management operation: a configured caller that brings an accepted
/// assertion about a user, and that user is the subject.
pub open spec fn admitted_manager(
    callers: Seq<Seq<char>>,
    verifier: ActorAssertionVerifier,
    context: InvocationContext,
    operation: Seq<char>,
    subject: Seq<char>,
    unix_nanos: int,
) -> Option<Seq<char>> {
    let assertion = accepted_assertion(
        verifier,
        context,
        CAPABILITY_ID@,
        operation,
        unix_nanos,
    );
    if asserted_user(assertion) == Some(subject) {
        admitted_caller(callers, context)
    } else {
        None
    }
}

/// The calling instance of a management operation on `subject`, if it may perform it.
pub fn managing_caller(
    callers: &Vec<String>,
    verifier: &ActorAssertionVerifier,
    context: &InvocationContext,
    operation: &str,
    subject: &str,
    now: Timestamp,
) -> (r: Option<String>)
    requires
        EARLIEST_NANOS <= now.unix_nanos < END_NANOS,
    ensures
        optional(r) == admitted_manager(
            texts(callers@),
            *verifier,
            *context,
            operation@,
            subject@,
            now.unix_nanos as int,
        ),
{
    let caller = match allowed_caller(callers, context) {
        Some(caller) => caller,
        None => return None,
    };
    match project_user(verifier, context, CAPABILITY_ID, operation, now.unix_nanos) {
        Some(actor) => {
            if same_text(actor.subject.as_str(), subject) {
                Some(caller)
            } else {
                None
            }
        },
        None => None,
    }
}

/// The status of a subject.
#[derive(Clone, Copy, Debug, PartialEq, Eq, Structural)]
pub enum DirectoryStatus {
    Active,
    Disabled,
    Missing,
}

/// What Identity Directory answered.
#[derive(Clone, Debug, PartialEq, Eq)]
pub enum DirectoryReply {
    /// The status of a subject.
    Status { subject: String, active: bool },
    /// There is no such subject, or none could be named so.
    NotFound,
    /// An error that the contract does not name.
    Unknown(String),
    /// The directory failed at run time.
    Unavailable,
}

/// What an answer says about the subject that was asked for.
pub open spec fn status_of(reply: DirectoryReply, subject: Seq<char>) -> Result<
    DirectoryStatus,
    Failure,
> {
    match reply {
        DirectoryReply::Status { subject: answered, active } => if answered@ != subject {
            Err(Failure::DirectoryOtherSubject)
        } else if active {
            Ok(DirectoryStatus::Active)
        } else {
            Ok(DirectoryStatus::Disabled)
        },
        DirectoryReply::NotFound => Ok(DirectoryStatus::Missing),
        DirectoryReply::Unknown(error) => Err(Failure::DirectoryUnknown(error)),
        DirectoryReply::Unavailable => Err(Failure::Dependency),
    }
}

/// What an answer says about `subject`.
pub fn directory_status(reply: DirectoryReply, subject: &str) -> (r: Result<
    DirectoryStatus,
    Failure,
>)
    ensures
        r == status_of(reply, subject@),
{
    match reply {
        DirectoryReply::Status { subject: answered, active } => {
            if !same_text(answered.as_str(), subject) {
                Err(Failure::DirectoryOtherSubject)
            } else if active {
                Ok(DirectoryStatus::Active)
            } else {
                Ok(DirectoryStatus::Disabled)
            }
        },
        DirectoryReply::NotFound => Ok(DirectoryStatus::Missing),
        DirectoryReply::Unknown(error) => Err(Failure::DirectoryUnknown(error)),
        DirectoryReply::Unavailable => Err(Failure::Dependency),
    }
}

} // verus!
