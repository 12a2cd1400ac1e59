//! WebAuthn ceremonies: what the relying party starts and what it verifies.
//!
//! Ceremony state, credentials and passkeys are carried as the text of their JSON form.

use std::time::Duration;

use serde_json::{from_str, from_value, to_value, Value};
use url::Url;
use uuid::Uuid;
use vstd::prelude::*;
use webauthn_rs::prelude::{
    AuthenticationResult, Credential, Passkey, PasskeyAuthentication, PasskeyRegistration,
    PublicKeyCredential, RegisterPublicKeyCredential, Webauthn, WebauthnBuilder,
};

use crate::instant::viewed;
use crate::origin::{belongs_to, url_view};

verus! {

/// `webauthn_rs`'s relying party.
#[verifier::external_type_specification]
#[verifier::external_body]
pub struct ExWebauthn(Webauthn);

/// `webauthn_rs`'s relying party in the making.
#[verifier::external_type_specification]
#[verifier::external_body]
pub struct ExWebauthnBuilder<'a>(WebauthnBuilder<'a>);

/// `webauthn_rs`'s passkey.
#[verifier::external_type_specification]
#[verifier::external_body]
pub struct ExPasskey(Passkey);

/// `webauthn_rs`'s state of a registration.
#[verifier::external_type_specification]
#[verifier::external_body]
pub struct ExPasskeyRegistration(PasskeyRegistration);

/// `webauthn_rs`'s response to a registration.
#[verifier::external_type_specification]
#[verifier::external_body]
pub struct ExRegisterPublicKeyCredential(RegisterPublicKeyCredential);

/// `webauthn_rs`'s state of an authentication.
#[verifier::external_type_specification]
#[verifier::external_body]
pub struct ExPasskeyAuthentication(PasskeyAuthentication);

/// `webauthn_rs`'s response to an authentication.
#[verifier::external_type_specification]
#[verifier::external_body]
pub struct ExPublicKeyCredential(PublicKeyCredential);

/// `webauthn_rs`'s result of an authentication.
#[verifier::external_type_specification]
#[verifier::external_body]
pub struct ExAuthenticationResult(AuthenticationResult);

/// What a relying party is: its identity, its name, the texts of its origins in order, how long
/// it waits for an authenticator, and whether it takes subdomains or other ports of its origins.
#[verifier::ext_equal]
pub struct RelyingParty {
    pub rp_id: Seq<char>,
    pub rp_name: Seq<char>,
    pub origins: Seq<Seq<char>>,
    pub timeout_seconds: int,
    pub allow_subdomains: bool,
    pub allow_any_port: bool,
}

/// What a relying party in the making is so far.
pub uninterp spec fn builder_relying_party(builder: WebauthnBuilder<'_>) -> RelyingParty;

/// What a relying party is.
pub uninterp spec fn relying_party(webauthn: Webauthn) -> RelyingParty;

/// Starts to make a relying party with `webauthn_rs`'s `WebauthnBuilder::new`, `rp_name` and
/// `timeout`.
///
/// It is refused exactly where the origin has no domain, or one that does not belong to the
/// identity. Subdomains and other ports of an origin are not taken.
#[verifier::external_body]
pub(crate) fn begin_relying_party<'a>(
    rp_id: &'a str,
    rp_name: &'a str,
    timeout_seconds: u64,
    origin: &'a Url,
) -> (r: Option<WebauthnBuilder<'a>>)
    ensures
        r is Some <==> may_be_origin(*origin, rp_id@),
        r matches Some(builder) ==> builder_relying_party(builder) == (RelyingParty {
            rp_id: rp_id@,
            rp_name: rp_name@,
            origins: seq![url_view(*origin).text],
            timeout_seconds: timeout_seconds as int,
            allow_subdomains: false,
            allow_any_port: false,
        }),
{
    let builder = WebauthnBuilder::new(rp_id, origin).ok()?;
    Some(builder.rp_name(rp_name).timeout(Duration::from_secs(timeout_seconds)))
}

/// Whether a URL has a domain that belongs to a relying party.
pub open spec fn may_be_origin(origin: Url, rp_id: Seq<char>) -> bool {
    url_view(origin).domain matches Some(domain) && belongs_to(domain, rp_id)
}

/// Adds an origin with `webauthn_rs`'s `WebauthnBuilder::append_allowed_origin`.
#[verifier::external_body]
pub(crate) fn append_origin<'a>(builder: WebauthnBuilder<'a>, origin: &Url) -> (r:
    WebauthnBuilder<'a>)
    ensures
        builder_relying_party(r) == (RelyingParty {
            origins: builder_relying_party(builder).origins.push(url_view(*origin).text),
            ..builder_relying_party(builder)
        }),
{
    builder.append_allowed_origin(origin)
}

/// Makes the relying party with `webauthn_rs`'s `WebauthnBuilder::build`, which never refuses.
#[verifier::external_body]
pub(crate) fn build_relying_party<'a>(builder: WebauthnBuilder<'a>) -> (r: Option<Webauthn>)
    ensures
        r is Some,
        relying_party(r->0) == builder_relying_party(builder),
{
    builder.build().ok()
}

/// What starting a ceremony gives: the options for the browser, and the state that stays here.
#[derive(Clone, Debug, PartialEq, Eq)]
pub struct Ceremony {
    pub options: String,
    pub state: String,
}

/// Byte strings as sequences.
pub open spec fn byte_strings(values: Seq<Vec<u8>>) -> Seq<Seq<u8>> {
    values.map_values(|v: Vec<u8>| v@)
}

/// Texts as sequences of characters.
pub open spec fn texts(values: Seq<String>) -> Seq<Seq<char>> {
    values.map_values(|v: String| v@)
}

/// The credentials that a registration excludes, if any are named.
pub open spec fn excluded(ids: Option<Vec<Vec<u8>>>) -> Option<Seq<Seq<u8>>> {
    match ids {
        Some(ids) => Some(byte_strings(ids@)),
        None => None,
    }
}

/// Whether starting a registration with these arguments may give these options and this state.
pub uninterp spec fn registration_may_start(
    party: RelyingParty,
    user_id: u128,
    user_name: Seq<char>,
    display_name: Seq<char>,
    exclude: Option<Seq<Seq<u8>>>,
    options: Seq<char>,
    state: Seq<char>,
) -> bool;

/// Starts a registration with `webauthn_rs`'s `Webauthn::start_passkey_registration`.
///
/// It is refused exactly where a name is empty. The challenge in it is random: of what comes,
/// the contract says only that it is an outcome of these arguments.
#[verifier::external_body]
pub(crate) fn start_registration(
    webauthn: &Webauthn,
    user_id: u128,
    user_name: &str,
    display_name: &str,
    exclude: Option<Vec<Vec<u8>>>,
) -> (r: Result<Ceremony, String>)
    requires
        relying_party(*webauthn).timeout_seconds * 1000 <= u32::MAX,
    ensures
        r is Err <==> user_name@.len() == 0 || display_name@.len() == 0,
        r matches Ok(ceremony) ==> registration_may_start(
            relying_party(*webauthn),
            user_id,
            user_name@,
            display_name@,
            excluded(exclude),
            ceremony.options@,
            ceremony.state@,
        ),
{
    let exclude = exclude.map(|ids| ids.into_iter().map(Into::into).collect());
    let (options, state) = webauthn
        .start_passkey_registration(Uuid::from_u128(user_id), user_name, display_name, exclude)
        .map_err(|error| error.to_string())?;
    let options = to_value(&options).map_err(|error| error.to_string())?;
    let state = to_value(&state).map_err(|error| error.to_string())?;
    Ok(Ceremony { options: options.to_string(), state: state.to_string() })
}

/// A credential that a registration verified.
#[derive(Clone, Debug, PartialEq, Eq)]
pub struct VerifiedPasskey {
    pub passkey: String,
    pub credential_id: Vec<u8>,
    pub public_key: String,
    pub counter: u32,
}

/// The contents of a verified credential.
#[verifier::ext_equal]
pub struct VerifiedPasskeyView {
    pub passkey: Seq<char>,
    pub credential_id: Seq<u8>,
    pub public_key: Seq<char>,
    pub counter: u32,
}

impl View for VerifiedPasskey {
    type V = VerifiedPasskeyView;

    open spec fn view(&self) -> VerifiedPasskeyView {
        VerifiedPasskeyView {
            passkey: self.passkey@,
            credential_id: self.credential_id@,
            public_key: self.public_key@,
            counter: self.counter,
        }
    }
}

/// The registration that a stored state denotes, or why the text is none.
pub uninterp spec fn registration_state(text: Seq<char>) -> Result<PasskeyRegistration, Seq<char>>;

/// Reads the state of a registration with `serde_json`: a function of the text.
#[verifier::external_body]
fn read_registration_state(text: &str) -> (r: Result<PasskeyRegistration, String>)
    ensures
        match r {
            Ok(value) => registration_state(text@) == Ok::<PasskeyRegistration, Seq<char>>(value),
            Err(error) => registration_state(text@) == Err::<PasskeyRegistration, Seq<char>>(error@),
        },
{
    from_str::<Value>(text).and_then(from_value).map_err(|error| error.to_string())
}

/// The registration response that a text denotes, if it denotes one.
pub uninterp spec fn registration_response(text: Seq<char>) -> Option<RegisterPublicKeyCredential>;

/// Reads a registration response with `serde_json`: a function of the text.
#[verifier::external_body]
fn read_registration_response(text: &str) -> (r: Option<RegisterPublicKeyCredential>)
    ensures
        r == registration_response(text@),
{
    from_str(text).ok()
}

/// The passkey that a registration response proves against a state, if it proves one.
pub uninterp spec fn finished_registration(
    party: RelyingParty,
    response: RegisterPublicKeyCredential,
    state: PasskeyRegistration,
) -> Option<Passkey>;

/// Verifies a registration with `webauthn_rs`'s `Webauthn::finish_passkey_registration`.
///
/// The outcome is a function of the relying party, the response and the state.
#[verifier::external_body]
fn finish_passkey_registration(
    webauthn: &Webauthn,
    response: &RegisterPublicKeyCredential,
    state: &PasskeyRegistration,
) -> (r: Option<Passkey>)
    ensures
        r == finished_registration(relying_party(*webauthn), *response, *state),
{
    webauthn.finish_passkey_registration(response, state).ok()
}

/// The credential identifier of a passkey.
pub uninterp spec fn passkey_credential_id(passkey: Passkey) -> Seq<u8>;

/// Reads `webauthn_rs`'s `Passkey::cred_id`.
#[verifier::external_body]
pub(crate) fn credential_id_of(passkey: &Passkey) -> (r: Vec<u8>)
    ensures
        r@ == passkey_credential_id(*passkey),
{
    passkey.cred_id().as_ref().to_vec()
}

/// The signature counter of a passkey.
pub uninterp spec fn passkey_counter(passkey: Passkey) -> u32;

/// Reads the counter of `webauthn_rs`'s `Credential`, which a `Passkey` converts to.
#[verifier::external_body]
fn counter_of(passkey: &Passkey) -> (r: u32)
    ensures
        r == passkey_counter(*passkey),
{
    Credential::from(passkey.clone()).counter
}

/// The text of a passkey's public key, or why there is none.
pub uninterp spec fn public_key_text(passkey: Passkey) -> Result<Seq<char>, Seq<char>>;

/// Writes `webauthn_rs`'s `Passkey::get_public_key` with `serde_json`: a function of the passkey.
#[verifier::external_body]
fn write_public_key(passkey: &Passkey) -> (r: Result<String, String>)
    ensures
        viewed(r) == public_key_text(*passkey),
{
    to_value(passkey.get_public_key()).map(|value| value.to_string()).map_err(|error| error.to_string())
}

/// The text of a passkey, or why there is none.
pub uninterp spec fn passkey_text(passkey: Passkey) -> Result<Seq<char>, Seq<char>>;

/// Writes a passkey with `serde_json`: a function of the passkey.
#[verifier::external_body]
fn write_passkey(passkey: &Passkey) -> (r: Result<String, String>)
    ensures
        viewed(r) == passkey_text(*passkey),
{
    to_value(passkey).map(|value| value.to_string()).map_err(|error| error.to_string())
}

/// What is taken of a passkey that was proved, or why one of its texts cannot be written.
pub open spec fn taken(passkey: Passkey) -> Result<Option<VerifiedPasskeyView>, Seq<char>> {
    match (public_key_text(passkey), passkey_text(passkey)) {
        (Err(error), _) => Err(error),
        (_, Err(error)) => Err(error),
        (Ok(public_key), Ok(text)) => Ok(
            Some(
                VerifiedPasskeyView {
                    passkey: text,
                    credential_id: passkey_credential_id(passkey),
                    public_key,
                    counter: passkey_counter(passkey),
                },
            ),
        ),
    }
}

/// What verifying a registration response against the stored state gives: the credential, or
/// nothing where the response is malformed or refused; an error where the state is malformed.
pub open spec fn verified_registration(
    party: RelyingParty,
    state: Seq<char>,
    response: Seq<char>,
) -> Result<Option<VerifiedPasskeyView>, Seq<char>> {
    match (registration_state(state), registration_response(response)) {
        (Err(error), _) => Err(error),
        (_, None) => Ok(None),
        (Ok(state), Some(response)) => match finished_registration(party, response, state) {
            None => Ok(None),
            Some(passkey) => taken(passkey),
        },
    }
}

/// The contents of the outcome of verifying a registration.
pub open spec fn verified(outcome: Result<Option<VerifiedPasskey>, String>) -> Result<
    Option<VerifiedPasskeyView>,
    Seq<char>,
> {
    match outcome {
        Ok(Some(verified)) => Ok(Some(verified@)),
        Ok(None) => Ok(None),
        Err(error) => Err(error@),
    }
}

/// Verifies a registration response against the stored state; a malformed and a refused response
/// are alike.
pub fn verify_registration(webauthn: &Webauthn, state: &str, response: &str) -> (r: Result<
    Option<VerifiedPasskey>,
    String,
>)
    ensures
        verified(r) == verified_registration(relying_party(*webauthn), state@, response@),
{
    let state = match read_registration_state(state) {
        Ok(state) => state,
        Err(error) => return Err(error),
    };
    let response = match read_registration_response(response) {
        Some(response) => response,
        None => return Ok(None),
    };
    let passkey = match finish_passkey_registration(webauthn, &response, &state) {
        Some(passkey) => passkey,
        None => return Ok(None),
    };
    let public_key = match write_public_key(&passkey) {
        Ok(public_key) => public_key,
        Err(error) => return Err(error),
    };
    let text = match write_passkey(&passkey) {
        Ok(text) => text,
        Err(error) => return Err(error),
    };
    Ok(
        Some(
            VerifiedPasskey {
                passkey: text,
                credential_id: credential_id_of(&passkey),
                public_key,
                counter: counter_of(&passkey),
            },
        ),
    )
}

/// The passkey that a stored text denotes, or why it denotes none.
pub uninterp spec fn stored_passkey(text: Seq<char>) -> Result<Passkey, Seq<char>>;

/// Reads a stored passkey with `serde_json`: a function of the text.
#[verifier::external_body]
pub(crate) fn read_passkey(text: &str) -> (r: Result<Passkey, String>)
    ensures
        match r {
            Ok(value) => stored_passkey(text@) == Ok::<Passkey, Seq<char>>(value),
            Err(error) => stored_passkey(text@) == Err::<Passkey, Seq<char>>(error@),
        },
{
    from_str::<Value>(text).and_then(from_value).map_err(|error| error.to_string())
}

/// Whether starting an authentication with these passkeys may give these options and this state.
pub uninterp spec fn authentication_may_start(
    party: RelyingParty,
    passkeys: Seq<Passkey>,
    options: Seq<char>,
    state: Seq<char>,
) -> bool;

/// Starts an authentication with `webauthn_rs`'s `Webauthn::start_passkey_authentication`, which
/// never refuses.
///
/// The challenge in it is random: of what comes, the contract says only that it is an outcome of
/// these arguments.
#[verifier::external_body]
pub(crate) fn start_authentication(webauthn: &Webauthn, passkeys: &Vec<Passkey>) -> (r: Result<
    Ceremony,
    String,
>)
    requires
        relying_party(*webauthn).timeout_seconds * 1000 <= u32::MAX,
    ensures
        r is Ok,
        authentication_may_start(
            relying_party(*webauthn),
            passkeys@,
            r->Ok_0.options@,
            r->Ok_0.state@,
        ),
{
    let (options, state) = webauthn.start_passkey_authentication(passkeys)
        .map_err(|error| error.to_string())?;
    let options = to_value(&options).map_err(|error| error.to_string())?;
    let state = to_value(&state).map_err(|error| error.to_string())?;
    Ok(Ceremony { options: options.to_string(), state: state.to_string() })
}

/// A verified authentication: the credential that was used, its counter, and the whole result.
#[derive(Debug)]
pub struct Assertion {
    pub credential_id: Vec<u8>,
    pub counter: u32,
    pub result: AuthenticationResult,
}

/// The contents of a verified authentication.
#[verifier::ext_equal]
pub struct AssertionView {
    pub credential_id: Seq<u8>,
    pub counter: u32,
    pub result: AuthenticationResult,
}

impl View for Assertion {
    type V = AssertionView;

    open spec fn view(&self) -> AssertionView {
        AssertionView {
            credential_id: self.credential_id@,
            counter: self.counter,
            result: self.result,
        }
    }
}

/// The authentication that a stored state denotes, or why the text is none.
pub uninterp spec fn authentication_state(text: Seq<char>) -> Result<PasskeyAuthentication, Seq<char>>;

/// Reads the state of an authentication with `serde_json`: a function of the text.
#[verifier::external_body]
fn read_authentication_state(text: &str) -> (r: Result<PasskeyAuthentication, String>)
    ensures
        match r {
            Ok(value) => authentication_state(text@) == Ok::<PasskeyAuthentication, Seq<char>>(value),
            Err(error) => authentication_state(text@) == Err::<PasskeyAuthentication, Seq<char>>(error@),
        },
{
    from_str::<Value>(text).and_then(from_value).map_err(|error| error.to_string())
}

/// The authentication response that a text denotes, if it denotes one.
pub uninterp spec fn authentication_response(text: Seq<char>) -> Option<PublicKeyCredential>;

/// Reads an authentication response with `serde_json`: a function of the text.
#[verifier::external_body]
fn read_authentication_response(text: &str) -> (r: Option<PublicKeyCredential>)
    ensures
        r == authentication_response(text@),
{
    from_str(text).ok()
}

/// The result that an authentication response proves against a state, if it proves one.
pub uninterp spec fn finished_authentication(
    party: RelyingParty,
    response: PublicKeyCredential,
    state: PasskeyAuthentication,
) -> Option<AuthenticationResult>;

/// Verifies an authentication with `webauthn_rs`'s `Webauthn::finish_passkey_authentication`.
///
/// The outcome is a function of the relying party, the response and the state.
#[verifier::external_body]
fn finish_passkey_authentication(
    webauthn: &Webauthn,
    response: &PublicKeyCredential,
    state: &PasskeyAuthentication,
) -> (r: Option<AuthenticationResult>)
    ensures
        r == finished_authentication(relying_party(*webauthn), *response, *state),
{
    webauthn.finish_passkey_authentication(response, state).ok()
}

/// The credential identifier of an authentication's result.
pub uninterp spec fn result_credential_id(result: AuthenticationResult) -> Seq<u8>;

/// Reads `webauthn_rs`'s `AuthenticationResult::cred_id`.
#[verifier::external_body]
fn used_credential_id(result: &AuthenticationResult) -> (r: Vec<u8>)
    ensures
        r@ == result_credential_id(*result),
{
    result.cred_id().as_ref().to_vec()
}

/// The signature counter of an authentication's result.
pub uninterp spec fn result_counter(result: AuthenticationResult) -> u32;

/// Reads `webauthn_rs`'s `AuthenticationResult::counter`.
#[verifier::external_body]
fn used_counter(result: &AuthenticationResult) -> (r: u32)
    ensures
        r == result_counter(*result),
{
    result.counter()
}

/// What verifying an authentication response against the stored state gives: the assertion, or
/// nothing where the response is malformed or refused; an error where the state is malformed.
pub open spec fn verified_authentication(
    party: RelyingParty,
    state: Seq<char>,
    response: Seq<char>,
) -> Result<Option<AssertionView>, Seq<char>> {
    match (authentication_state(state), authentication_response(response)) {
        (Err(error), _) => Err(error),
        (_, None) => Ok(None),
        (Ok(state), Some(response)) => match finished_authentication(party, response, state) {
            None => Ok(None),
            Some(result) => Ok(
                Some(
                    AssertionView {
                        credential_id: result_credential_id(result),
                        counter: result_counter(result),
                        result,
                    },
                ),
            ),
        },
    }
}

/// The contents of the outcome of verifying an authentication.
pub open spec fn asserted(outcome: Result<Option<Assertion>, String>) -> Result<
    Option<AssertionView>,
    Seq<char>,
> {
    match outcome {
        Ok(Some(assertion)) => Ok(Some(assertion@)),
        Ok(None) => Ok(None),
        Err(error) => Err(error@),
    }
}

/// Verifies an authentication response against the stored state; a malformed and a refused
/// response are alike.
pub fn verify_authentication(webauthn: &Webauthn, state: &str, response: &str) -> (r: Result<
    Option<Assertion>,
    String,
>)
    ensures
        asserted(r) == verified_authentication(relying_party(*webauthn), state@, response@),
{
    let state = match read_authentication_state(state) {
        Ok(state) => state,
        Err(error) => return Err(error),
    };
    let response = match read_authentication_response(response) {
        Some(response) => response,
        None => return Ok(None),
    };
    match finish_passkey_authentication(webauthn, &response, &state) {
        Some(result) => Ok(
            Some(
                Assertion {
                    credential_id: used_credential_id(&result),
                    counter: used_counter(&result),
                    result,
                },
            ),
        ),
        None => Ok(None),
    }
}

/// A passkey after an authentication's result, unless that is another credential's.
pub uninterp spec fn updated_credential(
    passkey: Passkey,
    result: AuthenticationResult,
) -> Option<Passkey>;

/// Applies an authentication's result with `webauthn_rs`'s `Passkey::update_credential`: a
/// function of the passkey and the result.
#[verifier::external_body]
fn update_credential(passkey: Passkey, result: &AuthenticationResult) -> (r: Option<Passkey>)
    ensures
        r == updated_credential(passkey, *result),
{
    let mut passkey = passkey;
    passkey.update_credential(result)?;
    Some(passkey)
}

/// What applying an authentication's result to a stored passkey gives: the passkey's new text, or
/// nothing where the result is another credential's; an error where a text is malformed.
pub open spec fn updated_passkey(passkey: Seq<char>, result: AuthenticationResult) -> Result<
    Option<Seq<char>>,
    Seq<char>,
> {
    match stored_passkey(passkey) {
        Err(error) => Err(error),
        Ok(passkey) => match updated_credential(passkey, result) {
            None => Ok(None),
            Some(updated) => match passkey_text(updated) {
                Ok(text) => Ok(Some(text)),
                Err(error) => Err(error),
            },
        },
    }
}

/// Applies an authentication's result to a stored passkey.
pub fn update_passkey(passkey: &str, result: &AuthenticationResult) -> (r: Result<
    Option<String>,
    String,
>)
    ensures
        updated_passkey(passkey@, *result) == (match r {
            Ok(Some(text)) => Ok(Some(text@)),
            Ok(None) => Ok(None),
            Err(error) => Err(error@),
        }),
{
    let stored = match read_passkey(passkey) {
        Ok(stored) => stored,
        Err(error) => return Err(error),
    };
    match update_credential(stored, result) {
        None => Ok(None),
        Some(updated) => match write_passkey(&updated) {
            Ok(text) => Ok(Some(text)),
            Err(error) => Err(error),
        },
    }
}

} // verus!
