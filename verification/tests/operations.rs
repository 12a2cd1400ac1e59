use std::collections::BTreeMap;
use std::fmt::Debug;

use base64::engine::general_purpose::URL_SAFE_NO_PAD;
use base64::Engine as _;
use lenso_auth_passkey::active::ActivePasskey;
use lenso_auth_passkey::authority::DirectoryReply;
use lenso_auth_passkey::command::{CommandKey, CommandRow};
use lenso_auth_passkey::config::PasskeyAuthConfig;
use lenso_auth_passkey::contract::{
    BeginAuthenticationError, BeginAuthenticationRequest, BeginAuthenticationResponse,
    BeginRegistrationError, BeginRegistrationRequest, BeginRegistrationResponse,
    FinishAuthenticationError, FinishAuthenticationRequest, FinishAuthenticationResponse,
    FinishRegistrationError, FinishRegistrationRequest, FinishRegistrationResponse,
    ListPasskeysError, ListPasskeysRequest, ListPasskeysResponse, RevokePasskeyError,
    RevokePasskeyRequest, RevokePasskeyResponse, BEGIN_REGISTRATION_OPERATION, CAPABILITY_ID,
    FINISH_REGISTRATION_OPERATION, LIST_PASSKEYS_OPERATION, REVOKE_PASSKEY_OPERATION,
};
use lenso_auth_passkey::failure::{Failure, PasskeyPluginError};
use lenso_auth_passkey::instant::Timestamp;
use lenso_auth_passkey::rows::{
    ChallengeRow, InsertedPasskey, PasskeyRow, RevocablePasskey, SubjectRow,
};
use lenso_auth_passkey::storage::{Action, IssueReply, Progress, Reply, Session};
use lenso_auth_passkey::{
    begin_authentication, begin_registration, finish_authentication, finish_registration,
    list_passkeys, revoke_passkey,
};
use lenso_auth_sdk::{audience, ActorAssertionIssuer, Validity};
use lenso_kernel::{CancellationToken, InvocationContext};
use time::{Duration, OffsetDateTime};
use url::Url;
use webauthn_authenticator_rs::softpasskey::SoftPasskey;
use webauthn_authenticator_rs::WebauthnAuthenticator;
use webauthn_rs::prelude::{CreationChallengeResponse, RequestChallengeResponse};

const SECOND: i128 = 1_000_000_000;
const START: i128 = 1_800_000_000 * SECOND;
const ADA: &str = "usr_ada";
const MANAGER: &str = "account-settings";
const INGRESS: &str = "web-ingress";

type Name = (String, String, String);

#[derive(Clone)]
struct Command {
    intent: Vec<u8>,
    status: String,
    nonce: Option<Vec<u8>>,
    ciphertext: Option<Vec<u8>>,
    code: Option<String>,
    completed_at: Option<i128>,
}

#[derive(Clone)]
struct Challenge {
    kind: String,
    row: ChallengeRow,
}

#[derive(Clone, Default)]
struct Tables {
    commands: BTreeMap<Name, Command>,
    challenges: BTreeMap<String, Challenge>,
    subjects: BTreeMap<String, SubjectRow>,
    passkeys: Vec<(String, PasskeyRow)>,
}

struct World {
    active: ActivePasskey,
    issuer: ActorAssertionIssuer,
    committed: Tables,
    open: Option<Tables>,
    now: i128,
    directory: DirectoryReply,
    issue: IssueReply,
    issued: Vec<(String, String, String, Vec<String>, String)>,
    break_at: Option<&'static str>,
    lose_at: Option<&'static str>,
    labels: Vec<&'static str>,
    authenticator: WebauthnAuthenticator<SoftPasskey>,
}

#[derive(Debug, PartialEq)]
enum Outcome<R, E> {
    Over(Result<R, E>),
    Replay(Vec<u8>),
    Failed(Failure),
}

fn bytes_of(value: &impl Debug) -> Vec<u8> {
    format!("{value:?}").into_bytes()
}

fn stamp(nanos: i128) -> Timestamp {
    Timestamp { unix_nanos: nanos }
}

fn name(key: &CommandKey) -> Name {
    (key.caller.clone(), key.operation.to_owned(), key.idempotency_key.clone())
}

fn config(issuer: &ActorAssertionIssuer) -> PasskeyAuthConfig {
    PasskeyAuthConfig::new(
        "passkey_auth".to_owned(),
        "database-url".to_owned(),
        "receipt-key".to_owned(),
        "example.com".to_owned(),
        "Example".to_owned(),
        vec!["https://login.example.com/".to_owned()],
        "auth.users".to_owned(),
        issuer.public_key_base64(),
        vec![MANAGER.to_owned()],
        vec![INGRESS.to_owned(), "other-ingress".to_owned()],
        vec!["app".to_owned()],
        300,
        86_400,
        3_600,
        2,
    )
    .expect("valid test config")
}

impl World {
    fn new() -> World {
        let issuer = ActorAssertionIssuer::new("auth.users", b"test signing secret");
        let active = ActivePasskey::new(config(&issuer), b"at least thirty-two bytes of secret")
            .expect("an active plugin");
        World {
            active,
            issuer,
            committed: Tables::default(),
            open: None,
            now: START,
            directory: status(ADA, true),
            issue: IssueReply::Issued(Session {
                session_id: "ses_1".to_owned(),
                credential: "opaque".to_owned(),
                expires_at: "2027-01-16T08:00:00Z".to_owned(),
            }),
            issued: Vec::new(),
            break_at: None,
            lose_at: None,
            labels: Vec::new(),
            authenticator: WebauthnAuthenticator::new(SoftPasskey::new(true)),
        }
    }

    fn context(&self, caller: &str) -> InvocationContext {
        InvocationContext::new(1, None, CancellationToken::new()).with_caller_instance(caller)
    }

    fn asserted(&self, caller: &str, kind: &str, user: &str, operation: &str) -> InvocationContext {
        let now = OffsetDateTime::from_unix_timestamp_nanos(self.now).expect("a time");
        let assertion = self.issuer.issue(
            user,
            kind,
            "strong",
            [audience(CAPABILITY_ID, operation)],
            Validity::new(now - Duration::seconds(1), now + Duration::minutes(1))
                .expect("a validity"),
            BTreeMap::new(),
        );
        assertion.attach(self.context(caller)).expect("an attached assertion")
    }

    fn manager(&self, operation: &str) -> InvocationContext {
        self.asserted(MANAGER, "user", ADA, operation)
    }

    fn tables(&mut self) -> &mut Tables {
        match &mut self.open {
            Some(open) => open,
            None => &mut self.committed,
        }
    }

    fn set_status(&mut self, key: &CommandKey, from: &[&str], change: impl Fn(&mut Command)) -> Reply {
        match self.tables().commands.get_mut(&name(key)) {
            Some(command) if from.contains(&command.status.as_str()) => {
                change(command);
                Reply::Affected(1)
            }
            _ => Reply::Affected(0),
        }
    }

    fn label(action: &Action) -> &'static str {
        match action.database_fault(String::new()) {
            PasskeyPluginError::Database { operation, .. } => operation,
            _ => unreachable!(),
        }
    }

    fn perform(&mut self, action: Action) -> Reply {
        let label = World::label(&action);
        self.labels.push(label);
        if self.break_at == Some(label) {
            return Reply::Failed(action.database_fault("gone".to_owned()));
        }
        if self.lose_at == Some(label) {
            self.lose_at = None;
            let fault = action.database_fault("gone".to_owned());
            self.perform(action);
            return Reply::Failed(fault);
        }
        let now = self.now;
        match action {
            Action::Begin { .. } => {
                assert!(self.open.is_none());
                self.open = Some(self.committed.clone());
                Reply::Done
            }
            Action::Commit { .. } => {
                self.committed = self.open.take().expect("an open transaction");
                Reply::Done
            }
            Action::Rollback { .. } => {
                self.open.take().expect("an open transaction");
                Reply::Done
            }
            Action::PruneChallenges => {
                self.tables()
                    .challenges
                    .retain(|_, challenge| challenge.row.expires_at.unix_nanos >= now - 86_400 * SECOND);
                Reply::Done
            }
            Action::PruneCommands { receipt_ttl_seconds } => {
                let limit = now - i128::from(receipt_ttl_seconds) * SECOND;
                self.tables()
                    .commands
                    .retain(|_, command| command.completed_at.map_or(true, |time| time >= limit));
                Reply::Done
            }
            Action::ReserveCommand { key, intent } => {
                if self.tables().commands.contains_key(&name(&key)) {
                    return Reply::Affected(0);
                }
                let command = Command {
                    intent: intent.to_vec(),
                    status: "reserved".to_owned(),
                    nonce: None,
                    ciphertext: None,
                    code: None,
                    completed_at: None,
                };
                self.tables().commands.insert(name(&key), command);
                Reply::Affected(1)
            }
            Action::LoadCommand { key } => {
                let command = self.tables().commands[&name(&key)].clone();
                let absent = || "null".to_owned();
                Reply::Command(CommandRow {
                    intent_hash: Ok(command.intent),
                    status: Ok(command.status),
                    response_nonce: command.nonce.ok_or_else(absent),
                    response_ciphertext: command.ciphertext.ok_or_else(absent),
                    error_code: command.code.ok_or_else(absent),
                })
            }
            Action::SetCommandStatus { key, from, to } => {
                self.set_status(&key, &[from.as_str()], |command| command.status = to.as_str().to_owned())
            }
            Action::MarkIssuing { key } => {
                self.set_status(&key, &["verifying"], |command| command.status = "issuing".to_owned())
            }
            Action::CompleteSuccess { key, nonce, ciphertext } => {
                self.set_status(&key, &["reserved", "verifying", "issuing"], |command| {
                    command.status = "completed_success".to_owned();
                    command.nonce = Some(nonce.to_vec());
                    command.ciphertext = Some(ciphertext.clone());
                    command.completed_at = Some(now);
                })
            }
            Action::CompleteError { key, code } => {
                self.set_status(&key, &["reserved", "verifying", "issuing"], |command| {
                    command.status = "completed_error".to_owned();
                    command.code = Some(code.as_str().to_owned());
                    command.completed_at = Some(now);
                })
            }
            Action::EnsureSubject { subject, user_id } => {
                self.tables().subjects.entry(subject).or_insert(SubjectRow { user_id, revision: 0 });
                Reply::Done
            }
            Action::LockSubject { subject } => Reply::Subject(self.tables().subjects[&subject]),
            Action::LockSubjectOptional { subject } | Action::LoadSubject { subject } => {
                Reply::MaybeSubject(self.tables().subjects.get(&subject).copied())
            }
            Action::AdvanceSubject { subject, .. } => {
                let row = self.tables().subjects.get_mut(&subject).expect("a subject");
                row.revision += 1;
                Reply::Revision(row.revision)
            }
            Action::LockPasskeys { subject } => Reply::Passkeys(self.rows(&subject, false)),
            Action::LoadPasskeys { subject, include_revoked } => {
                Reply::Passkeys(self.rows(&subject, include_revoked))
            }
            Action::InsertPasskey(new) => {
                let tables = self.tables();
                if tables.passkeys.iter().any(|(_, row)| row.credential_id == new.credential_id) {
                    return Reply::Inserted(None);
                }
                let row = PasskeyRow {
                    passkey_id: new.passkey_id,
                    credential_id: new.credential_id,
                    passkey: new.passkey,
                    label: new.label,
                    sign_count: new.sign_count,
                    revision: 1,
                    created_at: stamp(now),
                    last_used_at: None,
                    revoked_at: None,
                };
                tables.passkeys.push((new.subject, row));
                Reply::Inserted(Some(InsertedPasskey { revision: 1, created_at: stamp(now) }))
            }
            Action::UpdatePasskey { passkey_id, passkey, sign_count } => {
                let row = self.passkey(&passkey_id).expect("a passkey");
                row.passkey = passkey;
                row.sign_count = row.sign_count.max(sign_count);
                row.revision += 1;
                row.last_used_at = Some(stamp(now));
                Reply::Done
            }
            Action::LockPasskey { passkey_id, subject } => Reply::Revocable(
                self.tables()
                    .passkeys
                    .iter()
                    .find(|(owner, row)| *owner == subject && row.passkey_id == passkey_id)
                    .map(|(_, row)| RevocablePasskey {
                        revision: row.revision,
                        revoked_at: row.revoked_at,
                    }),
            ),
            Action::RevokePasskey { passkey_id } => {
                let row = self.passkey(&passkey_id).expect("a passkey");
                row.revoked_at = Some(stamp(now));
                row.revision += 1;
                Reply::Revision(row.revision)
            }
            Action::InsertChallenge(new) => {
                let row = ChallengeRow {
                    caller_instance: new.caller,
                    subject: new.subject,
                    expected_revision: new.expected_revision,
                    state: new.state,
                    expires_at: new.expires_at,
                    consumed_at: None,
                };
                let challenge = Challenge { kind: new.kind.as_str().to_owned(), row };
                self.tables().challenges.insert(new.challenge_id, challenge);
                Reply::Done
            }
            Action::LockChallenge { challenge_id, kind } => Reply::Challenge(
                self.tables()
                    .challenges
                    .get(&challenge_id)
                    .filter(|challenge| challenge.kind == kind.as_str())
                    .map(|challenge| challenge.row.clone()),
            ),
            Action::ConsumeChallenge { challenge_id, .. } => {
                let challenge = self.tables().challenges.get_mut(&challenge_id).expect("a challenge");
                challenge.row.consumed_at = Some(stamp(now));
                Reply::Done
            }
            Action::ReadDirectory { .. } => Reply::Directory(self.directory.clone()),
            Action::IssueSession(session) => {
                self.issued.push((
                    session.subject,
                    session.actor_kind.to_owned(),
                    session.assurance.to_owned(),
                    session.audience,
                    session.expires_at,
                ));
                Reply::Issue(self.issue.clone())
            }
        }
    }

    fn rows(&mut self, subject: &str, include_revoked: bool) -> Vec<PasskeyRow> {
        self.tables()
            .passkeys
            .iter()
            .filter(|(owner, row)| owner == subject && (include_revoked || row.revoked_at.is_none()))
            .map(|(_, row)| row.clone())
            .collect()
    }

    fn passkey(&mut self, id: &str) -> Option<&mut PasskeyRow> {
        self.tables().passkeys.iter_mut().map(|(_, row)| row).find(|row| row.passkey_id == id)
    }

    fn drive<S, R: Debug, E>(
        &mut self,
        first: Progress<S, R, E>,
        resume: impl Fn(S, &ActivePasskey, Reply, Timestamp) -> Progress<S, R, E>,
    ) -> Outcome<R, E> {
        let mut progress = first;
        loop {
            progress = match progress {
                Progress::Act(run, action) => {
                    let reply = self.perform(action);
                    resume(run, &self.active, reply, stamp(self.now))
                }
                Progress::Encode(run, response) => {
                    let reply = Reply::Encoded(bytes_of(&response));
                    resume(run, &self.active, reply, stamp(self.now))
                }
                Progress::Finished(result) => {
                    assert!(self.open.is_none());
                    return Outcome::Over(result);
                }
                Progress::Replay(bytes) => {
                    assert!(self.open.is_none());
                    return Outcome::Replay(bytes);
                }
                Progress::Failed(failure) => {
                    self.open = None;
                    return Outcome::Failed(failure);
                }
            };
        }
    }

    fn begin_registration_as(
        &mut self,
        context: &InvocationContext,
        request: BeginRegistrationRequest,
    ) -> Outcome<BeginRegistrationResponse, BeginRegistrationError> {
        let json = bytes_of(&request);
        let first =
            begin_registration::start(&self.active, context, request, &json, stamp(self.now));
        self.drive(first, |run, active, reply, now| run.resume(active, reply, now))
    }

    fn begin_registration(
        &mut self,
        key: &str,
        revision: &str,
    ) -> Outcome<BeginRegistrationResponse, BeginRegistrationError> {
        let context = self.manager(BEGIN_REGISTRATION_OPERATION);
        self.begin_registration_as(&context, registration_request(key, revision))
    }

    fn finish_registration(
        &mut self,
        request: FinishRegistrationRequest,
    ) -> Outcome<FinishRegistrationResponse, FinishRegistrationError> {
        let context = self.manager(FINISH_REGISTRATION_OPERATION);
        let json = bytes_of(&request);
        let first =
            finish_registration::start(&self.active, &context, request, &json, stamp(self.now));
        self.drive(first, |run, active, reply, now| run.resume(active, reply, now))
    }

    fn begin_authentication(
        &mut self,
        caller: &str,
        key: &str,
        subject: &str,
    ) -> Outcome<BeginAuthenticationResponse, BeginAuthenticationError> {
        let request = BeginAuthenticationRequest {
            idempotency_key: key.to_owned(),
            subject: subject.to_owned(),
        };
        let json = bytes_of(&request);
        let context = self.context(caller);
        let first = begin_authentication::start(&self.active, &context, request, &json);
        self.drive(first, |run, active, reply, now| run.resume(active, reply, now))
    }

    fn finish_authentication(
        &mut self,
        caller: &str,
        request: FinishAuthenticationRequest,
    ) -> Outcome<FinishAuthenticationResponse, FinishAuthenticationError> {
        let json = bytes_of(&request);
        let context = self.context(caller);
        let first = finish_authentication::start(&self.active, &context, request, &json);
        self.drive(first, |run, active, reply, now| run.resume(active, reply, now))
    }

    fn list(&mut self, include_revoked: bool) -> Outcome<ListPasskeysResponse, ListPasskeysError> {
        let context = self.manager(LIST_PASSKEYS_OPERATION);
        let request = ListPasskeysRequest { subject: ADA.to_owned(), include_revoked };
        let first = list_passkeys::start(&self.active, &context, request, stamp(self.now));
        self.drive(first, |run, _, reply, _| run.resume(reply))
    }

    fn revoke(
        &mut self,
        key: &str,
        passkey_id: &str,
        revision: &str,
    ) -> Outcome<RevokePasskeyResponse, RevokePasskeyError> {
        let context = self.manager(REVOKE_PASSKEY_OPERATION);
        let request = RevokePasskeyRequest {
            idempotency_key: key.to_owned(),
            subject: ADA.to_owned(),
            passkey_id: passkey_id.to_owned(),
            expected_revision: revision.to_owned(),
        };
        let json = bytes_of(&request);
        let first = revoke_passkey::start(&self.active, &context, request, &json, stamp(self.now));
        self.drive(first, |run, active, reply, _| run.resume(active, reply))
    }

    fn attest(&mut self, options: &str, origin: &str) -> String {
        let options: CreationChallengeResponse =
            serde_json::from_str(options).expect("creation options");
        let response = self
            .authenticator
            .do_registration(Url::parse(origin).expect("origin"), options)
            .expect("an attestation");
        serde_json::to_string(&response).expect("a response")
    }

    fn assert_with(&mut self, options: &str) -> String {
        let options: RequestChallengeResponse =
            serde_json::from_str(options).expect("request options");
        let response = self
            .authenticator
            .do_authentication(Url::parse("https://login.example.com/").expect("origin"), options)
            .expect("an assertion");
        serde_json::to_string(&response).expect("a response")
    }

    fn challenge(&mut self, key: &str, revision: &str) -> BeginRegistrationResponse {
        match self.begin_registration(key, revision) {
            Outcome::Over(Ok(response)) => response,
            other => panic!("{other:?}"),
        }
    }

    fn registered(&mut self, key: &str, revision: &str) -> FinishRegistrationResponse {
        let challenge = self.challenge(&format!("begin-{key}"), revision);
        let credential = self.attest(&challenge.public_key_json, "https://login.example.com/");
        match self.finish_registration(completion(key, &challenge, revision, &credential)) {
            Outcome::Over(Ok(response)) => response,
            other => panic!("{other:?}"),
        }
    }

    fn sign_in_challenge(&mut self, key: &str) -> BeginAuthenticationResponse {
        match self.begin_authentication(INGRESS, key, ADA) {
            Outcome::Over(Ok(response)) => response,
            other => panic!("{other:?}"),
        }
    }
}

fn status(subject: &str, active: bool) -> DirectoryReply {
    DirectoryReply::Status { subject: subject.to_owned(), active }
}

fn registration_request(key: &str, revision: &str) -> BeginRegistrationRequest {
    BeginRegistrationRequest {
        idempotency_key: key.to_owned(),
        subject: ADA.to_owned(),
        user_name: "ada".to_owned(),
        display_name: "Ada".to_owned(),
        expected_revision: revision.to_owned(),
    }
}

fn completion(
    key: &str,
    challenge: &BeginRegistrationResponse,
    revision: &str,
    credential: &str,
) -> FinishRegistrationRequest {
    FinishRegistrationRequest {
        idempotency_key: key.to_owned(),
        challenge_id: challenge.challenge_id.clone(),
        subject: ADA.to_owned(),
        expected_revision: revision.to_owned(),
        label: " laptop ".to_owned(),
        credential_json: credential.to_owned(),
    }
}

fn sign_in(key: &str, challenge: &str, credential: &str) -> FinishAuthenticationRequest {
    FinishAuthenticationRequest {
        idempotency_key: key.to_owned(),
        challenge_id: challenge.to_owned(),
        credential_json: credential.to_owned(),
    }
}

fn over<R, E>(error: E) -> Outcome<R, E> {
    Outcome::Over(Err(error))
}

fn gone<R, E>(operation: &'static str) -> Outcome<R, E> {
    Outcome::Failed(Failure::Plugin(PasskeyPluginError::Database {
        operation,
        source: "gone".to_owned(),
    }))
}

#[test]
fn a_registration_stores_a_challenge_and_then_the_verified_passkey() {
    let mut world = World::new();
    let challenge = world.challenge("begin", "0");
    assert!(challenge.challenge_id.starts_with("pkr_"));
    assert_eq!(challenge.expires_at, "2027-01-15T08:05:00Z");
    assert_eq!(challenge.revision, "0");
    let stored = &world.committed.challenges[&challenge.challenge_id];
    assert_eq!(stored.kind, "registration");
    assert_eq!(stored.row.caller_instance, MANAGER);
    assert_eq!(stored.row.expires_at, stamp(START + 300 * SECOND));
    assert!(!challenge.public_key_json.contains(&stored.row.state));

    let credential = world.attest(&challenge.public_key_json, "https://login.example.com/");
    let request = completion("finish", &challenge, "0", &credential);
    let response = match world.finish_registration(request.clone()) {
        Outcome::Over(Ok(response)) => response,
        other => panic!("{other:?}"),
    };
    assert!(response.passkey.passkey_id.starts_with("pk_"));
    assert_eq!(response.passkey.label, "laptop");
    assert_eq!(response.passkey.sign_count, "0");
    assert_eq!(response.passkey.revision, "1");
    assert_eq!(response.passkey.created_at, "2027-01-15T08:00:00Z");
    assert_eq!(response.passkey.last_used_at.0, None);
    assert_eq!(response.passkey.revoked_at.0, None);
    assert_eq!(response.revision, "1");
    assert_eq!(world.committed.subjects[ADA].revision, 1);
    assert_eq!(world.committed.passkeys.len(), 1);
    assert_eq!(
        world.finish_registration(request),
        Outcome::Replay(bytes_of(&response))
    );
    assert_eq!(world.committed.passkeys.len(), 1);
}

#[test]
fn a_sign_in_records_the_counter_and_issues_one_session() {
    let mut world = World::new();
    let passkey = world.registered("reg", "0").passkey;
    let challenge = world.sign_in_challenge("begin");
    assert!(challenge.challenge_id.starts_with("pka_"));
    assert_eq!(challenge.revision, "1");
    let credential = world.assert_with(&challenge.public_key_json);
    let request = sign_in("finish", &challenge.challenge_id, &credential);
    let response = match world.finish_authentication(INGRESS, request.clone()) {
        Outcome::Over(Ok(response)) => response,
        other => panic!("{other:?}"),
    };
    assert_eq!(response.subject, ADA);
    assert_eq!(response.passkey_id, passkey.passkey_id);
    assert_eq!(response.revision, "2");
    assert_eq!(response.session_id, "ses_1");
    assert_eq!(response.credential, "opaque");
    assert_eq!(response.expires_at, "2027-01-16T08:00:00Z");
    assert_eq!(
        world.issued,
        [(
            ADA.to_owned(),
            "user".to_owned(),
            "passkey".to_owned(),
            vec!["app".to_owned()],
            "2027-01-16T08:00:00Z".to_owned(),
        )]
    );
    let row = &world.committed.passkeys[0].1;
    assert_eq!((row.sign_count, row.revision), (1, 2));
    assert_eq!(row.last_used_at, Some(stamp(START)));
    assert!(row.passkey.contains("\"counter\":1"));
    assert_eq!(
        world.finish_authentication(INGRESS, request),
        Outcome::Replay(bytes_of(&response))
    );
    assert_eq!(world.issued.len(), 1);
}

#[test]
fn listing_tells_what_is_stored() {
    let mut world = World::new();
    match world.list(true) {
        Outcome::Over(Ok(response)) => {
            assert_eq!(response.revision, "0");
            assert!(response.passkeys.is_empty());
        }
        other => panic!("{other:?}"),
    }
    let first = world.registered("one", "0").passkey;
    let second = world.registered("two", "1").passkey;
    assert!(matches!(world.revoke("r", &first.passkey_id, "2"), Outcome::Over(Ok(_))));
    let ids = |outcome: Outcome<ListPasskeysResponse, ListPasskeysError>| match outcome {
        Outcome::Over(Ok(response)) => (
            response.revision,
            response.passkeys.into_iter().map(|passkey| passkey.passkey_id).collect::<Vec<_>>(),
        ),
        other => panic!("{other:?}"),
    };
    assert_eq!(ids(world.list(false)), ("3".to_owned(), vec![second.passkey_id.clone()]));
    let (_, all) = ids(world.list(true));
    assert_eq!(all, [first.passkey_id.clone(), second.passkey_id]);
    if let Outcome::Over(Ok(response)) = world.list(true) {
        assert_eq!(response.passkeys[0].credential_id, first.credential_id);
        assert_eq!(response.passkeys[0].revision, "2");
        assert_eq!(
            response.passkeys[0].revoked_at.0.as_deref(),
            Some("2027-01-15T08:00:00Z")
        );
    }
    world.directory = status(ADA, false);
    assert_eq!(world.list(true), over(ListPasskeysError::Disabled));
    world.directory = DirectoryReply::NotFound;
    assert_eq!(world.list(true), over(ListPasskeysError::Disabled));
}

#[test]
fn times_that_cannot_be_written_fail_a_listing() {
    let mut world = World::new();
    world.registered("one", "0");
    world.committed.passkeys[0].1.last_used_at = Some(stamp(i128::MAX));
    match world.list(true) {
        Outcome::Failed(Failure::Timestamp(_)) => {}
        other => panic!("{other:?}"),
    }
}

#[test]
fn a_revocation_advances_both_revisions_once() {
    let mut world = World::new();
    let passkey = world.registered("reg", "0").passkey;
    let response = match world.revoke("one", &passkey.passkey_id, "1") {
        Outcome::Over(Ok(response)) => response,
        other => panic!("{other:?}"),
    };
    assert!(response.revoked);
    assert_eq!((response.revision.as_str(), response.passkey_revision.as_str()), ("2", "2"));
    assert_eq!(
        world.revoke("one", &passkey.passkey_id, "1"),
        Outcome::Replay(bytes_of(&response))
    );
    let again = match world.revoke("two", &passkey.passkey_id, "2") {
        Outcome::Over(Ok(response)) => response,
        other => panic!("{other:?}"),
    };
    assert!(!again.revoked);
    assert_eq!((again.revision.as_str(), again.passkey_revision.as_str()), ("2", "2"));
    assert_eq!(
        world.begin_authentication(INGRESS, "b", ADA),
        over(BeginAuthenticationError::InvalidCredentials)
    );
}

#[test]
fn a_refused_revocation_changes_no_credential_set() {
    let mut world = World::new();
    assert_eq!(
        world.revoke("a", "pk_none", "0"),
        over(RevokePasskeyError::PasskeyNotFound)
    );
    let passkey = world.registered("reg", "0").passkey;
    assert_eq!(
        world.revoke("b", &passkey.passkey_id, "0"),
        over(RevokePasskeyError::RevisionConflict)
    );
    assert_eq!(
        world.revoke("b", &passkey.passkey_id, "0"),
        over(RevokePasskeyError::RevisionConflict)
    );
    assert_eq!(world.revoke("c", "pk_none", "1"), over(RevokePasskeyError::PasskeyNotFound));
    world.directory = status(ADA, false);
    assert_eq!(
        world.revoke("d", &passkey.passkey_id, "1"),
        over(RevokePasskeyError::Disabled)
    );
    assert_eq!(
        world.revoke("d", "pk_other", "1"),
        over(RevokePasskeyError::IdempotencyConflict)
    );
    assert_eq!(world.committed.subjects[ADA].revision, 1);
    assert_eq!(world.committed.passkeys[0].1.revoked_at, None);
    assert_eq!(world.revoke("e", "a b", "1"), over(RevokePasskeyError::InvalidRequest));
}

#[test]
fn management_needs_the_subject_itself() {
    let mut world = World::new();
    let request = || registration_request("k", "0");
    let operation = BEGIN_REGISTRATION_OPERATION;
    let strangers = [
        world.context(MANAGER),
        world.asserted(INGRESS, "user", ADA, operation),
        world.asserted(MANAGER, "service", ADA, operation),
        world.asserted(MANAGER, "user", "usr_grace", operation),
        world.asserted(MANAGER, "user", ADA, LIST_PASSKEYS_OPERATION),
    ];
    for context in &strangers {
        assert_eq!(
            world.begin_registration_as(context, request()),
            over(BeginRegistrationError::Forbidden)
        );
    }
    let expired = world.manager(operation);
    world.now += 120 * SECOND;
    assert_eq!(
        world.begin_registration_as(&expired, request()),
        over(BeginRegistrationError::Forbidden)
    );
    assert!(world.labels.is_empty());
    let stranger = world.context(MANAGER);
    let list = ListPasskeysRequest { subject: ADA.to_owned(), include_revoked: true };
    let first = list_passkeys::start(&world.active, &stranger, list, stamp(world.now));
    assert!(matches!(first, Progress::Finished(Err(ListPasskeysError::Forbidden))));
    let finish = completion(
        "k",
        &BeginRegistrationResponse {
            challenge_id: "pkr_x".to_owned(),
            public_key_json: String::new(),
            expires_at: String::new(),
            revision: String::new(),
        },
        "0",
        "{}",
    );
    let first =
        finish_registration::start(&world.active, &stranger, finish, b"", stamp(world.now));
    assert!(matches!(first, Progress::Finished(Err(FinishRegistrationError::Forbidden))));
    let revoke = RevokePasskeyRequest {
        idempotency_key: "k".to_owned(),
        subject: ADA.to_owned(),
        passkey_id: "pk_x".to_owned(),
        expected_revision: "0".to_owned(),
    };
    let first = revoke_passkey::start(&world.active, &stranger, revoke, b"", stamp(world.now));
    assert!(matches!(first, Progress::Finished(Err(RevokePasskeyError::Forbidden))));
    let list = ListPasskeysRequest { subject: "usr ada".to_owned(), include_revoked: true };
    let context = world.asserted(MANAGER, "user", "usr ada", LIST_PASSKEYS_OPERATION);
    let first = list_passkeys::start(&world.active, &context, list, stamp(world.now));
    assert!(matches!(first, Progress::Finished(Err(ListPasskeysError::InvalidRequest))));
}

#[test]
fn authentication_needs_a_configured_caller() {
    let mut world = World::new();
    assert_eq!(
        world.begin_authentication(MANAGER, "k", ADA),
        over(BeginAuthenticationError::Forbidden)
    );
    assert_eq!(
        world.finish_authentication(MANAGER, sign_in("k", "pka_x", "{}")),
        over(FinishAuthenticationError::Forbidden)
    );
    assert!(world.labels.is_empty());
}

#[test]
fn malformed_requests_are_refused_before_anything_is_stored() {
    let mut world = World::new();
    let context = world.manager(BEGIN_REGISTRATION_OPERATION);
    for change in [
        |r: &mut BeginRegistrationRequest| r.idempotency_key = String::new(),
        |r: &mut BeginRegistrationRequest| r.user_name = " ".to_owned(),
        |r: &mut BeginRegistrationRequest| r.display_name = "a\u{0}".to_owned(),
        |r: &mut BeginRegistrationRequest| r.expected_revision = "01".to_owned(),
    ] {
        let mut request = registration_request("k", "0");
        change(&mut request);
        assert_eq!(
            world.begin_registration_as(&context, request),
            over(BeginRegistrationError::InvalidRequest)
        );
    }
    let challenge = BeginRegistrationResponse {
        challenge_id: "pkr_x".to_owned(),
        public_key_json: String::new(),
        expires_at: String::new(),
        revision: "0".to_owned(),
    };
    for change in [
        |r: &mut FinishRegistrationRequest| r.challenge_id = "a b".to_owned(),
        |r: &mut FinishRegistrationRequest| r.label = "l".repeat(129),
        |r: &mut FinishRegistrationRequest| r.credential_json = "x".repeat(65_537),
    ] {
        let mut request = completion("k", &challenge, "0", "{}");
        change(&mut request);
        assert_eq!(
            world.finish_registration(request),
            over(FinishRegistrationError::InvalidRequest)
        );
    }
    assert_eq!(
        world.begin_authentication(INGRESS, "k", "usr ada"),
        over(BeginAuthenticationError::InvalidRequest)
    );
    assert_eq!(
        world.finish_authentication(INGRESS, sign_in("k", "pka_x", &"x".repeat(65_537))),
        over(FinishAuthenticationError::InvalidRequest)
    );
    assert!(world.labels.is_empty());
}

#[test]
fn beginning_a_registration_is_refused_and_replayed() {
    let mut world = World::new();
    assert_eq!(
        world.begin_registration("a", "1"),
        over(BeginRegistrationError::RevisionConflict)
    );
    assert!(world.committed.subjects.is_empty());
    assert_eq!(
        world.begin_registration("a", "1"),
        over(BeginRegistrationError::RevisionConflict)
    );
    assert_eq!(
        world.begin_registration("a", "0"),
        over(BeginRegistrationError::IdempotencyConflict)
    );
    world.directory = DirectoryReply::NotFound;
    assert_eq!(world.begin_registration("b", "0"), over(BeginRegistrationError::Disabled));
    world.directory = status(ADA, true);
    assert_eq!(world.begin_registration("b", "0"), over(BeginRegistrationError::Disabled));
    let response = world.challenge("c", "0");
    assert_eq!(
        world.begin_registration("c", "0"),
        Outcome::Replay(bytes_of(&response))
    );
    assert_eq!(world.committed.challenges.len(), 1);
    world.registered("one", "0");
    world.registered("two", "1");
    assert_eq!(
        world.begin_registration("d", "2"),
        over(BeginRegistrationError::TooManyPasskeys)
    );
}

#[test]
fn registrations_begun_together_never_exceed_the_limit() {
    let mut world = World::new();
    world.registered("one", "0");
    let first = world.challenge("x", "1");
    let second = world.challenge("y", "1");
    let credential = world.attest(&first.public_key_json, "https://login.example.com/");
    assert!(matches!(
        world.finish_registration(completion("two", &first, "1", &credential)),
        Outcome::Over(Ok(_))
    ));
    let credential = world.attest(&second.public_key_json, "https://login.example.com/");
    assert_eq!(
        world.finish_registration(completion("three", &second, "1", &credential)),
        over(FinishRegistrationError::RevisionConflict)
    );
    assert_eq!(world.committed.passkeys.len(), 2);
}

#[test]
fn a_repeated_beginning_gives_back_the_same_bytes_within_the_retention_time() {
    let mut world = World::new();
    let response = world.challenge("x", "0");
    world.registered("one", "0");
    world.now += 3_600 * SECOND;
    world.directory = status(ADA, false);
    let stored = world.committed.challenges.len();
    assert_eq!(world.begin_registration("x", "0"), Outcome::Replay(bytes_of(&response)));
    assert_eq!(
        world.begin_registration("x", "1"),
        over(BeginRegistrationError::IdempotencyConflict)
    );
    assert_eq!(world.committed.challenges.len(), stored);
    world.now += SECOND;
    assert_eq!(world.begin_registration("x", "0"), over(BeginRegistrationError::Disabled));
}

#[test]
fn the_passkeys_of_a_subject_are_excluded_from_a_new_registration() {
    let mut world = World::new();
    let fresh = world.challenge("a", "0");
    assert!(!fresh.public_key_json.contains("excludeCredentials"));
    let passkey = world.registered("one", "0").passkey;
    let next = world.challenge("b", "1");
    assert!(next.public_key_json.contains("excludeCredentials"));
    assert!(next.public_key_json.contains(&passkey.credential_id));
}

#[test]
fn whoever_cannot_sign_in_is_answered_alike() {
    let mut world = World::new();
    let refused = || over(BeginAuthenticationError::InvalidCredentials);
    assert_eq!(world.begin_authentication(INGRESS, "a", ADA), refused());
    world.challenge("reg", "0");
    assert_eq!(world.begin_authentication(INGRESS, "b", ADA), refused());
    world.directory = status(ADA, false);
    assert_eq!(world.begin_authentication(INGRESS, "c", ADA), refused());
    world.directory = DirectoryReply::NotFound;
    assert_eq!(world.begin_authentication(INGRESS, "d", ADA), refused());
    assert_eq!(world.begin_authentication(INGRESS, "d", ADA), refused());
}

#[test]
fn commands_are_scoped_by_caller_and_bound_to_their_intent() {
    let mut world = World::new();
    world.registered("reg", "0");
    world.break_at = Some("read directory status");
    assert_eq!(
        world.begin_authentication(INGRESS, "begin-1", ADA),
        gone("read directory status")
    );
    world.break_at = None;
    assert_eq!(
        world.begin_authentication(INGRESS, "begin-1", ADA),
        over(BeginAuthenticationError::OperationInProgress)
    );
    assert_eq!(
        world.begin_authentication(INGRESS, "begin-1", "usr_grace"),
        over(BeginAuthenticationError::IdempotencyConflict)
    );
    assert!(matches!(
        world.begin_authentication("other-ingress", "begin-1", ADA),
        Outcome::Over(Ok(_))
    ));
}

#[test]
fn challenges_are_consumed_once_even_by_invalid_attempts() {
    let mut world = World::new();
    let challenge = world.challenge("begin", "0");
    assert_eq!(
        world.finish_registration(completion("one", &challenge, "0", "not json")),
        over(FinishRegistrationError::InvalidCredential)
    );
    let consumed = |world: &World| {
        world.committed.challenges[&challenge.challenge_id].row.consumed_at.is_some()
    };
    assert!(consumed(&world));
    let credential = world.attest(&challenge.public_key_json, "https://login.example.com/");
    assert_eq!(
        world.finish_registration(completion("two", &challenge, "0", &credential)),
        over(FinishRegistrationError::ChallengeUsed)
    );
    assert_eq!(
        world.finish_registration(completion("one", &challenge, "0", "not json")),
        over(FinishRegistrationError::InvalidCredential)
    );
    assert!(world.committed.passkeys.is_empty());
}

#[test]
fn another_caller_cannot_consume_a_challenge() {
    let mut world = World::new();
    world.registered("reg", "0");
    let challenge = world.sign_in_challenge("begin");
    let credential = world.assert_with(&challenge.public_key_json);
    let request = sign_in("finish", &challenge.challenge_id, &credential);
    assert_eq!(
        world.finish_authentication("other-ingress", request.clone()),
        over(FinishAuthenticationError::InvalidRequest)
    );
    let row = &world.committed.challenges[&challenge.challenge_id].row;
    assert_eq!(row.consumed_at, None);
    assert!(matches!(world.finish_authentication(INGRESS, request), Outcome::Over(Ok(_))));
}

#[test]
fn challenges_expire_and_fit_their_ceremony() {
    let mut world = World::new();
    let challenge = world.challenge("begin", "0");
    let credential = world.attest(&challenge.public_key_json, "https://login.example.com/");
    assert_eq!(
        world.finish_authentication(
            INGRESS,
            sign_in("kind", &challenge.challenge_id, &credential)
        ),
        over(FinishAuthenticationError::InvalidRequest)
    );
    world.now += 300 * SECOND;
    assert_eq!(
        world.finish_registration(completion("late", &challenge, "0", &credential)),
        over(FinishRegistrationError::ChallengeExpired)
    );
    let challenge = world.challenge("again", "0");
    assert_eq!(
        world.finish_registration(completion("revision", &challenge, "1", &credential)),
        over(FinishRegistrationError::InvalidRequest)
    );
    let mut missing = completion("missing", &challenge, "0", &credential);
    missing.challenge_id = "pkr_none".to_owned();
    assert_eq!(
        world.finish_registration(missing),
        over(FinishRegistrationError::InvalidRequest)
    );
}

#[test]
fn registrations_are_verified_against_the_origin_and_the_directory() {
    let mut world = World::new();
    let challenge = world.challenge("a", "0");
    let credential = world.attest(&challenge.public_key_json, "https://other.example.com/");
    assert_eq!(
        world.finish_registration(completion("a", &challenge, "0", &credential)),
        over(FinishRegistrationError::InvalidCredential)
    );
    let challenge = world.challenge("b", "0");
    let credential = world.attest(&challenge.public_key_json, "https://login.example.com/");
    world.directory = status(ADA, false);
    assert_eq!(
        world.finish_registration(completion("b", &challenge, "0", &credential)),
        over(FinishRegistrationError::Disabled)
    );
    assert!(world.committed.passkeys.is_empty());
}

#[test]
fn registrations_conflict_on_revision_and_credential() {
    let mut world = World::new();
    let early = world.challenge("a", "0");
    let early_credential = world.attest(&early.public_key_json, "https://login.example.com/");
    world.registered("one", "0");
    assert_eq!(
        world.finish_registration(completion("a", &early, "0", &early_credential)),
        over(FinishRegistrationError::RevisionConflict)
    );
    let late = world.challenge("b", "1");
    let credential = world.attest(&late.public_key_json, "https://login.example.com/");
    let id = {
        let value: serde_json::Value = serde_json::from_str(&credential).expect("a response");
        value["id"].as_str().expect("an id").to_owned()
    };
    let mut copy = world.committed.passkeys[0].1.clone();
    copy.credential_id = base64_of(&id);
    copy.passkey_id = "pk_elsewhere".to_owned();
    world.committed.passkeys.push(("usr_grace".to_owned(), copy));
    assert_eq!(
        world.finish_registration(completion("b", &late, "1", &credential)),
        over(FinishRegistrationError::CredentialExists)
    );
    assert_eq!(world.committed.subjects[ADA].revision, 1);
}

fn base64_of(text: &str) -> Vec<u8> {
    URL_SAFE_NO_PAD.decode(text).expect("base64")
}

#[test]
fn stale_counters_and_unknown_passkeys_do_not_sign_in() {
    let mut world = World::new();
    world.registered("reg", "0");
    let challenge = world.sign_in_challenge("a");
    let credential = world.assert_with(&challenge.public_key_json);
    world.committed.passkeys[0].1.sign_count = 1;
    assert_eq!(
        world.finish_authentication(INGRESS, sign_in("a", &challenge.challenge_id, &credential)),
        over(FinishAuthenticationError::InvalidCredentials)
    );
    assert_eq!(world.committed.passkeys[0].1.revision, 1);
    let challenge = world.sign_in_challenge("b");
    let credential = world.assert_with(&challenge.public_key_json);
    world.committed.passkeys[0].1.revoked_at = Some(stamp(START));
    assert_eq!(
        world.finish_authentication(INGRESS, sign_in("b", &challenge.challenge_id, &credential)),
        over(FinishAuthenticationError::InvalidCredentials)
    );
    world.committed.passkeys[0].1.revoked_at = None;
    let challenge = world.sign_in_challenge("c");
    assert_eq!(
        world.finish_authentication(INGRESS, sign_in("c", &challenge.challenge_id, "{}")),
        over(FinishAuthenticationError::InvalidCredentials)
    );
    let challenge = world.sign_in_challenge("d");
    let credential = world.assert_with(&challenge.public_key_json);
    world.directory = status(ADA, false);
    assert_eq!(
        world.finish_authentication(INGRESS, sign_in("d", &challenge.challenge_id, &credential)),
        over(FinishAuthenticationError::InvalidCredentials)
    );
    assert_eq!(
        world.finish_authentication(INGRESS, sign_in("d", &challenge.challenge_id, &credential)),
        over(FinishAuthenticationError::InvalidCredentials)
    );
    assert_eq!(
        world.finish_authentication(INGRESS, sign_in("e", &challenge.challenge_id, &credential)),
        over(FinishAuthenticationError::ChallengeUsed)
    );
    world.directory = status(ADA, true);
    let challenge = world.sign_in_challenge("g");
    let unknown = world.assert_with(&challenge.public_key_json);
    world.directory = DirectoryReply::NotFound;
    assert_eq!(
        world.finish_authentication(INGRESS, sign_in("g", &challenge.challenge_id, &unknown)),
        over(FinishAuthenticationError::InvalidCredentials)
    );
    world.directory = status(ADA, true);
    let challenge = world.sign_in_challenge("f");
    world.now += 300 * SECOND;
    assert_eq!(
        world.finish_authentication(INGRESS, sign_in("f", &challenge.challenge_id, &credential)),
        over(FinishAuthenticationError::ChallengeExpired)
    );
    assert!(world.issued.is_empty());
}

#[test]
fn an_ambiguous_issue_stays_in_progress_and_is_never_pruned() {
    let mut world = World::new();
    world.registered("reg", "0");
    for (key, reply, failure) in [
        ("a", IssueReply::Unavailable, Failure::Dependency),
        (
            "b",
            IssueReply::Rejected("Unknown".to_owned()),
            Failure::IssuerRejected("Unknown".to_owned()),
        ),
    ] {
        let challenge = world.sign_in_challenge(key);
        let credential = world.assert_with(&challenge.public_key_json);
        world.issue = reply;
        let request = sign_in(key, &challenge.challenge_id, &credential);
        assert_eq!(
            world.finish_authentication(INGRESS, request.clone()),
            Outcome::Failed(failure)
        );
        world.now += 10_000 * SECOND;
        world.sign_in_challenge(&format!("{key}-later"));
        assert_eq!(
            world.finish_authentication(INGRESS, request),
            over(FinishAuthenticationError::OperationInProgress)
        );
    }
    assert_eq!(world.issued.len(), 2);
    let challenge = world.sign_in_challenge("c");
    let credential = world.assert_with(&challenge.public_key_json);
    world.issue = IssueReply::Disabled;
    let request = sign_in("c", &challenge.challenge_id, &credential);
    assert_eq!(
        world.finish_authentication(INGRESS, request.clone()),
        over(FinishAuthenticationError::Disabled)
    );
    assert_eq!(
        world.finish_authentication(INGRESS, request),
        over(FinishAuthenticationError::Disabled)
    );
    assert_eq!(world.issued.len(), 3);
}

#[test]
fn completed_receipts_are_pruned_after_their_time() {
    let mut world = World::new();
    let first = world.challenge("k", "0");
    world.now += 3_600 * SECOND;
    assert_eq!(world.begin_registration("k", "0"), Outcome::Replay(bytes_of(&first)));
    world.now += SECOND;
    let second = world.challenge("k", "0");
    assert_ne!(first.challenge_id, second.challenge_id);
    assert_eq!(world.committed.challenges.len(), 2);
    world.now += 2 * 86_400 * SECOND;
    world.challenge("later", "0");
    assert_eq!(world.committed.challenges.len(), 1);
}

#[test]
fn a_fault_at_any_step_fails_the_operation() {
    let mut world = World::new();
    let passkey = world.registered("reg", "0").passkey;
    let challenge = world.sign_in_challenge("b");
    let credential = world.assert_with(&challenge.public_key_json);
    world.labels.clear();
    let request = sign_in("f", &challenge.challenge_id, &credential);
    assert!(matches!(
        world.finish_authentication(INGRESS, request),
        Outcome::Over(Ok(_))
    ));
    let labels = world.labels.clone();
    assert_eq!(
        labels,
        [
            "reserve passkey command",
            "advance passkey command",
            "begin passkey challenge consumption",
            "lock passkey challenge",
            "consume passkey challenge",
            "commit passkey challenge consumption",
            "read directory status",
            "begin authenticated passkey update",
            "lock optional passkey subject",
            "lock active passkeys",
            "update authenticated passkey",
            "advance authenticated passkey collection revision",
            "mark verified passkey authentication issuing",
            "commit authenticated passkey update",
            "issue session",
            "begin authentication receipt transaction",
            "complete passkey command",
            "commit authentication receipt",
        ]
    );
    for (n, label) in labels.into_iter().enumerate() {
        let challenge = world.sign_in_challenge(&format!("b{n}"));
        let credential = world.assert_with(&challenge.public_key_json);
        world.break_at = Some(label);
        let request = sign_in(&format!("f{n}"), &challenge.challenge_id, &credential);
        assert_eq!(world.finish_authentication(INGRESS, request), gone(label));
        world.break_at = None;
    }
    let revision = world.committed.subjects[ADA].revision.to_string();
    for (n, label) in [
        "reserve passkey command",
        "read directory status",
        "begin passkey revocation transaction",
        "lock optional passkey subject",
        "lock passkey for revocation",
        "revoke passkey",
        "advance revoked passkey collection revision",
        "complete passkey command",
        "commit passkey revocation",
    ]
    .into_iter()
    .enumerate()
    {
        world.break_at = Some(label);
        let key = format!("r{n}");
        assert_eq!(world.revoke(&key, &passkey.passkey_id, &revision), gone(label));
    }
    assert_eq!(world.committed.passkeys[0].1.revoked_at, None);
    assert_eq!(world.committed.subjects[ADA].revision.to_string(), revision);
}

#[test]
fn what_failed_but_was_done_is_answered_as_it_was_completed() {
    let mut world = World::new();
    let challenge = world.challenge("begin", "0");
    let credential = world.attest(&challenge.public_key_json, "https://login.example.com/");
    let request = completion("finish", &challenge, "0", &credential);
    world.lose_at = Some("commit passkey registration");
    assert_eq!(
        world.finish_registration(request.clone()),
        gone("commit passkey registration")
    );
    assert_eq!(world.committed.passkeys.len(), 1);
    let id = world.committed.passkeys[0].1.passkey_id.clone();
    match world.finish_registration(request) {
        Outcome::Replay(bytes) => {
            assert!(String::from_utf8(bytes).expect("a text").contains(&id));
        }
        other => panic!("{other:?}"),
    }
    assert_eq!(world.committed.passkeys.len(), 1);

    let challenge = world.challenge("begin-two", "1");
    let request = completion("refused", &challenge, "1", "not json");
    world.lose_at = Some("complete failed passkey command");
    assert_eq!(
        world.finish_registration(request.clone()),
        gone("complete failed passkey command")
    );
    assert_eq!(
        world.finish_registration(request),
        over(FinishRegistrationError::InvalidCredential)
    );

    world.lose_at = Some("reserve passkey command");
    assert_eq!(world.begin_registration("reserved", "1"), gone("reserve passkey command"));
    assert_eq!(
        world.begin_registration("reserved", "1"),
        over(BeginRegistrationError::OperationInProgress)
    );
    world.break_at = Some("reserve passkey command");
    assert_eq!(world.begin_registration("fresh", "1"), gone("reserve passkey command"));
    world.break_at = None;
    world.challenge("fresh", "1");

    let challenge = world.sign_in_challenge("sign");
    let credential = world.assert_with(&challenge.public_key_json);
    let request = sign_in("in", &challenge.challenge_id, &credential);
    world.lose_at = Some("commit authentication receipt");
    assert_eq!(
        world.finish_authentication(INGRESS, request.clone()),
        gone("commit authentication receipt")
    );
    assert!(matches!(
        world.finish_authentication(INGRESS, request),
        Outcome::Replay(_)
    ));
    assert_eq!(world.issued.len(), 1);
    assert_eq!(
        world.finish_authentication(
            INGRESS,
            sign_in("again", &challenge.challenge_id, &credential)
        ),
        over(FinishAuthenticationError::ChallengeUsed)
    );
    assert_eq!(world.issued.len(), 1);
}

#[test]
fn of_several_refusals_the_first_in_turn_is_given() {
    let mut world = World::new();
    let challenge = world.challenge("begin", "0");
    world.directory = status(ADA, false);
    assert_eq!(
        world.finish_registration(completion("disabled", &challenge, "0", "not json")),
        over(FinishRegistrationError::Disabled)
    );
    world.now += 300 * SECOND;
    assert_eq!(
        world.finish_registration(completion("used", &challenge, "0", "not json")),
        over(FinishRegistrationError::ChallengeUsed)
    );
    assert_eq!(
        world.finish_registration(completion("unfit", &challenge, "1", "not json")),
        over(FinishRegistrationError::InvalidRequest)
    );
    world.directory = status(ADA, true);
    let challenge = world.challenge("second", "0");
    world.registered("other", "0");
    assert_eq!(
        world.finish_registration(completion("bad", &challenge, "0", "not json")),
        over(FinishRegistrationError::InvalidCredential)
    );
    let passkeys = world.committed.passkeys.len();
    assert_eq!(world.revoke("none", "pk_none", "7"), over(RevokePasskeyError::RevisionConflict));
    assert_eq!(world.revoke("none-two", "pk_none", "1"), over(RevokePasskeyError::PasskeyNotFound));
    world.directory = status(ADA, false);
    assert_eq!(world.revoke("off", "pk_none", "7"), over(RevokePasskeyError::Disabled));
    assert_eq!(
        world.begin_registration("off-begin", "7"),
        over(BeginRegistrationError::Disabled)
    );
    assert_eq!(world.committed.passkeys.len(), passkeys);
}

#[test]
fn a_directory_that_misbehaves_fails_the_operation() {
    let mut world = World::new();
    world.directory = status("usr_grace", true);
    assert_eq!(world.list(true), Outcome::Failed(Failure::DirectoryOtherSubject));
    world.directory = DirectoryReply::Unknown("Odd".to_owned());
    assert_eq!(
        world.list(true),
        Outcome::Failed(Failure::DirectoryUnknown("Odd".to_owned()))
    );
    world.directory = DirectoryReply::Unavailable;
    assert_eq!(world.list(true), Outcome::Failed(Failure::Dependency));
    assert_eq!(world.begin_registration("k", "0"), Outcome::Failed(Failure::Dependency));
}

#[test]
fn stored_values_that_do_not_decode_fail_the_operation() {
    let mut world = World::new();
    world.registered("reg", "0");
    let challenge = world.sign_in_challenge("b");
    let credential = world.assert_with(&challenge.public_key_json);
    let mut broken = world.committed.passkeys[0].1.clone();
    std::mem::swap(&mut broken.passkey, &mut "{}".to_owned());
    world.committed.passkeys[0].1 = broken;
    let representation = |outcome: bool| assert!(outcome);
    representation(matches!(
        world.begin_registration("k", "1"),
        Outcome::Failed(Failure::Representation(_))
    ));
    representation(matches!(
        world.begin_authentication(INGRESS, "k", ADA),
        Outcome::Failed(Failure::Representation(_))
    ));
    let request = sign_in("f", &challenge.challenge_id, &credential);
    representation(matches!(
        world.finish_authentication(INGRESS, request),
        Outcome::Failed(Failure::Representation(_))
    ));
    let mut world = World::new();
    let challenge = world.challenge("begin", "0");
    let stored = world.committed.challenges.get_mut(&challenge.challenge_id).expect("stored");
    stored.row.state = "{}".to_owned();
    representation(matches!(
        world.finish_registration(completion("f", &challenge, "0", "{}")),
        Outcome::Failed(Failure::Representation(_))
    ));
}

#[test]
fn a_receipt_that_does_not_open_or_complete_is_a_fault() {
    let mut world = World::new();
    world.challenge("k", "0");
    for command in world.committed.commands.values_mut() {
        command.nonce = Some(vec![0; 12]);
    }
    assert_eq!(
        world.begin_registration("k", "0"),
        Outcome::Failed(Failure::Plugin(PasskeyPluginError::ReceiptDecryption))
    );
    let context = world.manager(REVOKE_PASSKEY_OPERATION);
    let request = RevokePasskeyRequest {
        idempotency_key: "r".to_owned(),
        subject: ADA.to_owned(),
        passkey_id: "pk_x".to_owned(),
        expected_revision: "0".to_owned(),
    };
    let first = revoke_passkey::start(&world.active, &context, request, b"json", stamp(START));
    let run = match first {
        Progress::Act(run, Action::ReserveCommand { .. }) => run,
        other => panic!("{other:?}"),
    };
    let run = match run.resume(&world.active, Reply::Affected(1)) {
        Progress::Act(run, Action::ReadDirectory { subject }) => {
            assert_eq!(subject, ADA);
            run
        }
        other => panic!("{other:?}"),
    };
    let run = match run.resume(&world.active, Reply::Directory(status(ADA, false))) {
        Progress::Act(run, Action::CompleteError { .. }) => run,
        other => panic!("{other:?}"),
    };
    match run.resume(&world.active, Reply::Affected(0)) {
        Progress::Failed(failure) => assert_eq!(
            failure.detail(),
            "Plugin invariant failed: passkey command error was not completable"
        ),
        other => panic!("{other:?}"),
    }
}

#[test]
fn a_reply_that_answers_something_else_is_a_fault() {
    let world = World::new();
    let context = world.manager(LIST_PASSKEYS_OPERATION);
    let request = ListPasskeysRequest { subject: ADA.to_owned(), include_revoked: true };
    match list_passkeys::start(&world.active, &context, request, stamp(START)) {
        Progress::Act(run, _) => match run.resume(Reply::Done) {
            Progress::Failed(failure) => {
                assert_eq!(failure.detail(), "Plugin invariant failed: unexpected reply");
            }
            other => panic!("{other:?}"),
        },
        other => panic!("{other:?}"),
    }
}
