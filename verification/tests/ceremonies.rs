use lenso_auth_passkey::ceremony::{update_passkey, verify_authentication, verify_registration};
use lenso_auth_passkey::command::CommandKey;
use lenso_auth_passkey::config::PasskeyAuthConfig;
use lenso_auth_passkey::contract::{FinishAuthenticationRequest, FINISH_AUTHENTICATION_OPERATION};
use lenso_auth_passkey::finish_authentication;
use lenso_auth_passkey::storage::{Action, Progress};
use lenso_auth_sdk::ActorAssertionIssuer;
use url::Url;
use uuid::Uuid;
use webauthn_authenticator_rs::softpasskey::SoftPasskey;
use webauthn_authenticator_rs::WebauthnAuthenticator;

fn config() -> PasskeyAuthConfig {
    let public_key =
        ActorAssertionIssuer::new("auth.users", b"test signing secret").public_key_base64();
    PasskeyAuthConfig::new(
        "passkey_auth".to_owned(),
        "database-url".to_owned(),
        "receipt-key".to_owned(),
        "example.com".to_owned(),
        "Example".to_owned(),
        vec!["https://login.example.com/".to_owned()],
        "auth.users".to_owned(),
        public_key,
        vec!["account-settings".to_owned()],
        vec!["web-ingress".to_owned()],
        vec!["app".to_owned()],
        300,
        86_400,
        3_600,
        16,
    )
    .expect("valid test config")
}

#[test]
fn webauthn_library_verifies_registration_authentication_and_origin() {
    let config = config();
    let webauthn = config.webauthn().expect("valid WebAuthn policy");
    let origin = Url::parse("https://login.example.com/").expect("origin");
    let (creation, registration_state) = webauthn
        .start_passkey_registration(Uuid::new_v4(), "ada", "Ada", None)
        .expect("begin registration");
    let mut authenticator = WebauthnAuthenticator::new(SoftPasskey::new(true));
    let registration = authenticator
        .do_registration(origin.clone(), creation)
        .expect("software authenticator registration");
    let credential = webauthn
        .finish_passkey_registration(&registration, &registration_state)
        .expect("verify registration");
    let (request, authentication_state) = webauthn
        .start_passkey_authentication(std::slice::from_ref(&credential))
        .expect("begin authentication");
    let authentication = authenticator
        .do_authentication(origin, request)
        .expect("software authenticator authentication");
    let result = webauthn
        .finish_passkey_authentication(&authentication, &authentication_state)
        .expect("verify authentication");
    assert_eq!(result.cred_id(), credential.cred_id());

    let (creation, registration_state) = webauthn
        .start_passkey_registration(Uuid::new_v4(), "grace", "Grace", None)
        .expect("begin registration with strict origin");
    let wrong_origin = Url::parse("https://other.example.com/").expect("wrong origin");
    let registration = authenticator
        .do_registration(wrong_origin, creation)
        .expect("authenticator creates wrong-origin response");
    assert!(webauthn
        .finish_passkey_registration(&registration, &registration_state)
        .is_err());
}

#[test]
fn every_configured_origin_is_allowed() {
    let mut config = config();
    config.allowed_origins.push("https://other.example.com/".to_owned());
    let webauthn = config.webauthn().expect("valid WebAuthn policy");
    let texts: Vec<&str> =
        webauthn.get_allowed_origins().iter().map(|origin| origin.as_str()).collect();
    assert_eq!(texts, ["https://login.example.com/", "https://other.example.com/"]);
    let parsed = config.parsed_origins().expect("exact origins");
    assert_eq!(parsed.len(), 2);
}

fn text<T: serde::Serialize>(value: &T) -> String {
    serde_json::to_value(value).expect("a JSON form").to_string()
}

#[test]
fn responses_are_verified_against_their_stored_state() {
    let webauthn = config().webauthn().expect("valid WebAuthn policy");
    let origin = Url::parse("https://login.example.com/").expect("origin");
    let mut authenticator = WebauthnAuthenticator::new(SoftPasskey::new(true));
    let (creation, state) = webauthn
        .start_passkey_registration(Uuid::new_v4(), "ada", "Ada", None)
        .expect("begin registration");
    let response = authenticator.do_registration(origin.clone(), creation).expect("a credential");
    let verified = verify_registration(&webauthn, &text(&state), &text(&response))
        .expect("a stored state")
        .expect("a proved response");
    let passkey: webauthn_rs::prelude::Passkey =
        serde_json::from_str(&verified.passkey).expect("a passkey");
    assert_eq!(verified.credential_id, passkey.cred_id().as_ref());
    assert_eq!(verified.public_key, text(passkey.get_public_key()));
    assert_eq!(verified.counter, 0);
    assert_eq!(verify_registration(&webauthn, &text(&state), "{}"), Ok(None));
    assert!(verify_registration(&webauthn, "{}", &text(&response)).is_err());

    let (request, other_state) = webauthn
        .start_passkey_authentication(std::slice::from_ref(&passkey))
        .expect("begin authentication");
    let other = authenticator.do_authentication(origin.clone(), request).expect("an assertion");
    let (request, state) = webauthn
        .start_passkey_authentication(std::slice::from_ref(&passkey))
        .expect("begin authentication");
    let response = authenticator.do_authentication(origin, request).expect("an assertion");
    let assertion = verify_authentication(&webauthn, &text(&state), &text(&response))
        .expect("a stored state")
        .expect("a proved response");
    assert_eq!(assertion.credential_id, passkey.cred_id().as_ref());
    assert_eq!(assertion.counter, assertion.result.counter());
    let refused = verify_authentication(&webauthn, &text(&state), &text(&other));
    assert!(matches!(refused, Ok(None)));
    assert!(matches!(verify_authentication(&webauthn, &text(&other_state), "{}"), Ok(None)));
    assert!(verify_authentication(&webauthn, "{}", &text(&response)).is_err());

    let mut expected = passkey.clone();
    expected.update_credential(&assertion.result).expect("its own result");
    assert_eq!(
        update_passkey(&verified.passkey, &assertion.result),
        Ok(Some(text(&expected)))
    );
    assert!(update_passkey("{}", &assertion.result).is_err());

    let task = finish_authentication::Task {
        key: CommandKey {
            caller: "web-ingress".to_owned(),
            operation: FINISH_AUTHENTICATION_OPERATION,
            idempotency_key: "key-1".to_owned(),
        },
        request: FinishAuthenticationRequest {
            idempotency_key: "key-1".to_owned(),
            challenge_id: "pka_1".to_owned(),
            credential_json: text(&response),
        },
        intent: [0; 32],
    };
    let asked =
        finish_authentication::take_outcome(task, "usr_ada".to_owned(), Ok(Some(assertion)));
    let Progress::Act(_, Action::ReadDirectory { subject }) = asked else { panic!("not asked") };
    assert_eq!(subject, "usr_ada");
}

#[test]
fn subdomains_and_other_ports_of_an_origin_are_refused() {
    let webauthn = config().webauthn().expect("valid WebAuthn policy");
    for origin in ["https://a.login.example.com/", "https://login.example.com:8443/"] {
        let mut authenticator = WebauthnAuthenticator::new(SoftPasskey::new(true));
        let (creation, state) = webauthn
            .start_passkey_registration(Uuid::new_v4(), "ada", "Ada", None)
            .expect("begin registration");
        let origin = Url::parse(origin).expect("an origin");
        let response = authenticator.do_registration(origin, creation).expect("a credential");
        assert_eq!(verify_registration(&webauthn, &text(&state), &text(&response)), Ok(None));
    }
}
