//! What a ceremony is started over, and what is taken of its outcome.

use vstd::prelude::*;
use webauthn_rs::prelude::{
    AuthenticationResult, Passkey, PasskeyAuthentication, PasskeyRegistration, Webauthn,
};

use crate::begin_registration::exclusion;
use crate::ceremony::{
    authentication_response, authentication_state, byte_strings, finished_authentication,
    finished_registration, passkey_counter, passkey_credential_id, passkey_text, public_key_text,
    registration_response, registration_state, relying_party, result_counter,
    result_credential_id, stored_passkey, update_passkey, updated_credential,
    verify_authentication, verify_registration, Assertion, VerifiedPasskey,
};
use crate::failure::Failure;
use crate::passkeys::{credential_ids, decode_passkeys, decoded, ids_of, undecodable};
use crate::rows::PasskeyRow;

verus! {

/// As many passkeys as there are rows, each the one that the row in its place holds.
pub open spec fn reads_as(rows: Seq<PasskeyRow>, passkeys: Seq<Passkey>) -> bool {
    &&& passkeys.len() == rows.len()
    &&& forall|i: int|
        0 <= i < rows.len() ==> stored_passkey(rows[i].passkey@) == Ok::<Passkey, Seq<char>>(
            #[trigger] passkeys[i],
        )
}

/// As many credential identifiers as there are rows, each of the passkey that the row in its place
/// holds; and no list at all where there are no rows.
pub open spec fn excludes(rows: Seq<PasskeyRow>, ids: Option<Seq<Seq<u8>>>) -> bool {
    match ids {
        None => rows.len() == 0,
        Some(ids) => {
            &&& rows.len() > 0
            &&& ids.len() == rows.len()
            &&& forall|i: int|
                0 <= i < rows.len() ==> {
                    let passkey = stored_passkey(rows[i].passkey@);
                    passkey is Ok && #[trigger] ids[i] == passkey_credential_id(passkey->Ok_0)
                }
        },
    }
}

/// Whether every row holds a passkey.
pub open spec fn can_be_read(rows: Seq<PasskeyRow>) -> bool {
    forall|i: int| 0 <= i < rows.len() ==> stored_passkey((#[trigger] rows[i]).passkey@) is Ok
}

/// Whether an error is that of the first row that holds no passkey.
pub open spec fn cannot_be_read(rows: Seq<PasskeyRow>, error: Seq<char>) -> bool {
    exists|i: int|
        {
            &&& 0 <= i < rows.len()
            &&& stored_passkey((#[trigger] rows[i]).passkey@) == Err::<Passkey, Seq<char>>(error)
            &&& can_be_read(rows.subrange(0, i))
        }
}

/// Stored passkeys are read one by one and all of them, each in its place; or the first that cannot
/// be read is why they are not.
pub proof fn passkeys_are_read_one_by_one(rows: Seq<PasskeyRow>)
    ensures
        undecodable(rows) is None <==> can_be_read(rows),
        undecodable(rows) matches Some(error) ==> cannot_be_read(rows, error),
        undecodable(rows) is None ==> reads_as(rows, decoded(rows)) && excludes(
            rows,
            exclusion(rows),
        ),
    decreases rows.len(),
{
    if rows.len() > 0 {
        let front = rows.drop_last();
        passkeys_are_read_one_by_one(front);
        if let Some(error) = undecodable(front) {
            let i = choose|i: int|
                {
                    &&& 0 <= i < front.len()
                    &&& stored_passkey((#[trigger] front[i]).passkey@) == Err::<
                        Passkey,
                        Seq<char>,
                    >(error)
                    &&& can_be_read(front.subrange(0, i))
                };
            assert(rows[i] == front[i]);
            assert(rows.subrange(0, i) =~= front.subrange(0, i));
        } else {
            assert forall|i: int| 0 <= i < front.len() implies stored_passkey(
                (#[trigger] rows[i]).passkey@,
            ) is Ok by {
                assert(front[i] == rows[i]);
            }
            assert(rows.subrange(0, rows.len() - 1) =~= front);
            assert(rows[rows.len() - 1] == rows.last());
        }
    }
    if undecodable(rows) is None {
        assert forall|i: int| 0 <= i < rows.len() implies stored_passkey(rows[i].passkey@) == Ok::<
            Passkey,
            Seq<char>,
        >(#[trigger] decoded(rows)[i]) by {
            assert(stored_passkey(rows[i].passkey@) is Ok);
        }
        assert forall|i: int| 0 <= i < rows.len() implies {
            let passkey = stored_passkey(rows[i].passkey@);
            passkey is Ok && #[trigger] credential_ids(rows)[i] == passkey_credential_id(
                passkey->Ok_0,
            )
        } by {
            assert(stored_passkey(rows[i].passkey@) is Ok);
        }
    }
}

/// Stored passkeys are decoded all or not at all; and their identifiers are taken one of each.
pub proof fn decoding_takes_every_passkey(
    rows: &Vec<PasskeyRow>,
    r: Result<Vec<Passkey>, Failure>,
    passkeys: &Vec<Passkey>,
    ids: Vec<Vec<u8>>,
)
    ensures
        call_requires(decode_passkeys, (rows,)),
        call_ensures(decode_passkeys, (rows,), r) ==> match r {
            Ok(passkeys) => reads_as(rows@, passkeys@),
            Err(failure) => failure matches Failure::Representation(text) && cannot_be_read(
                rows@,
                text@,
            ),
        },
        call_requires(ids_of, (passkeys,)),
        call_ensures(ids_of, (passkeys,), ids) ==> ids.len() == passkeys.len() && forall|i: int|
            0 <= i < ids.len() ==> (#[trigger] ids@[i])@ == passkey_credential_id(passkeys@[i]),
{
    passkeys_are_read_one_by_one(rows@);
    let all = byte_strings(ids@);
    assert forall|i: int| 0 <= i < ids.len() implies #[trigger] all[i] == ids@[i]@ by {}
    if call_ensures(ids_of, (passkeys,), ids) {
        assert(all.len() == passkeys.len());
        assert forall|i: int| 0 <= i < ids.len() implies (#[trigger] ids@[i])@
            == passkey_credential_id(passkeys@[i]) by {
            assert(all[i] == passkey_credential_id(passkeys@[i]));
        }
    }
}

/// A registration response proves a passkey exactly where it and the ceremony's state are well
/// formed and WebAuthn takes it; what is then taken of the passkey is its own text, identifier, key
/// and counter.
pub proof fn registrations_are_verified_by_webauthn(
    webauthn: &Webauthn,
    state: &str,
    response: &str,
    r: Result<Option<VerifiedPasskey>, String>,
)
    ensures
        call_requires(verify_registration, (webauthn, state, response)),
        call_ensures(verify_registration, (webauthn, state, response), r) ==> {
            let ceremony = registration_state(state@);
            let brought = registration_response(response@);
            let proved = finished_registration(
                relying_party(*webauthn),
                brought->0,
                ceremony->Ok_0,
            );
            match r {
                Ok(Some(verified)) => {
                    &&& ceremony is Ok && brought is Some && proved is Some
                    &&& verified.credential_id@ == passkey_credential_id(proved->0)
                    &&& verified.counter == passkey_counter(proved->0)
                    &&& public_key_text(proved->0) == Ok::<Seq<char>, Seq<char>>(
                        verified.public_key@,
                    )
                    &&& passkey_text(proved->0) == Ok::<Seq<char>, Seq<char>>(verified.passkey@)
                },
                Ok(None) => ceremony is Ok && (brought is None || proved is None),
                Err(error) => {
                    ||| ceremony == Err::<PasskeyRegistration, Seq<char>>(error@)
                    ||| ceremony is Ok && brought is Some && proved is Some && (public_key_text(
                        proved->0,
                    ) == Err::<Seq<char>, Seq<char>>(error@) || passkey_text(proved->0) == Err::<
                        Seq<char>,
                        Seq<char>,
                    >(error@))
                },
            }
        },
{
}

/// An authentication response proves an assertion exactly where it and the ceremony's state are
/// well formed and WebAuthn takes it; the assertion's credential and counter are the result's own.
pub proof fn authentications_are_verified_by_webauthn(
    webauthn: &Webauthn,
    state: &str,
    response: &str,
    r: Result<Option<Assertion>, String>,
)
    ensures
        call_requires(verify_authentication, (webauthn, state, response)),
        call_ensures(verify_authentication, (webauthn, state, response), r) ==> {
            let ceremony = authentication_state(state@);
            let brought = authentication_response(response@);
            let proved = finished_authentication(
                relying_party(*webauthn),
                brought->0,
                ceremony->Ok_0,
            );
            match r {
                Ok(Some(assertion)) => {
                    &&& ceremony is Ok && brought is Some
                    &&& proved == Some(assertion.result)
                    &&& assertion.credential_id@ == result_credential_id(assertion.result)
                    &&& assertion.counter == result_counter(assertion.result)
                },
                Ok(None) => ceremony is Ok && (brought is None || proved is None),
                Err(error) => ceremony == Err::<PasskeyAuthentication, Seq<char>>(error@),
            }
        },
{
}

/// A stored passkey takes a result as WebAuthn applies it, and is written anew.
pub proof fn results_are_applied_by_webauthn(
    passkey: &str,
    result: &AuthenticationResult,
    r: Result<Option<String>, String>,
)
    ensures
        call_requires(update_passkey, (passkey, result)),
        call_ensures(update_passkey, (passkey, result), r) ==> {
            let stored = stored_passkey(passkey@);
            let updated = updated_credential(stored->Ok_0, *result);
            match r {
                Ok(Some(text)) => stored is Ok && updated is Some && passkey_text(updated->0)
                    == Ok::<Seq<char>, Seq<char>>(text@),
                Ok(None) => stored is Ok && updated is None,
                Err(error) => {
                    ||| stored == Err::<Passkey, Seq<char>>(error@)
                    ||| stored is Ok && updated is Some && passkey_text(updated->0) == Err::<
                        Seq<char>,
                        Seq<char>,
                    >(error@)
                },
            }
        },
{
}

} // verus!
