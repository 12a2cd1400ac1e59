//! What was answered once is answered again.

use vstd::prelude::*;

use crate::command::{
    begin_authentication_refusal, begin_registration_refusal, finish_authentication_refusal,
    finish_registration_refusal, revoke_refusal, CommandKeyView, ReceiptCode,
};
use crate::contract::{
    BeginAuthenticationError, BeginAuthenticationResponse, BeginRegistrationError,
    BeginRegistrationResponse, FinishAuthenticationError, FinishAuthenticationResponse,
    FinishRegistrationError, FinishRegistrationResponse, RevokePasskeyError,
    RevokePasskeyResponse,
};
use crate::failure::Failure;
use crate::laws::history::{holds_open, holds_receipt, holds_refusal, standing, Standing};
use crate::model::Store;
use crate::storage::Progress;
use crate::{
    begin_authentication, begin_registration, finish_authentication, finish_registration,
    revoke_passkey,
};

verus! {

/// A completed or open command stands as it was left, to whoever comes with its intent; and it
/// is a conflict to whoever comes with another.
pub proof fn commands_stand_as_they_were_left(
    store: Store,
    key: CommandKeyView,
    intent: Seq<u8>,
    other: Seq<u8>,
    receipt_key: Seq<u8>,
    bytes: Seq<u8>,
    code: Seq<char>,
)
    ensures
        holds_receipt(store, key, intent, receipt_key, bytes) ==> standing(
            store,
            key,
            intent,
            receipt_key,
        ) == Standing::Succeeded(Some(bytes)),
        holds_refusal(store, key, intent, code) ==> standing(store, key, intent, receipt_key)
            == Standing::Refused(code),
        holds_open(store, key, intent) ==> standing(store, key, intent, receipt_key)
            == Standing::InProgress,
        other != intent && (holds_receipt(store, key, intent, receipt_key, bytes) || holds_refusal(
            store,
            key,
            intent,
            code,
        ) || holds_open(store, key, intent)) ==> standing(store, key, other, receipt_key)
            == Standing::Conflict,
{
}

/// No two codes are stored alike.
pub proof fn codes_differ(a: ReceiptCode, b: ReceiptCode)
    requires
        a.text() == b.text(),
    ensures
        a == b,
{
    reveal_strlit("disabled");
    reveal_strlit("revision_conflict");
    reveal_strlit("too_many_passkeys");
    reveal_strlit("invalid_credentials");
    reveal_strlit("invalid_request");
    reveal_strlit("challenge_expired");
    reveal_strlit("challenge_used");
    reveal_strlit("invalid_credential");
    reveal_strlit("credential_exists");
    reveal_strlit("passkey_not_found");
    assert("disabled"@.len() == 8);
    assert("revision_conflict"@.len() == 17 && "revision_conflict"@[0] == 'r');
    assert("too_many_passkeys"@.len() == 17 && "too_many_passkeys"@[0] == 't');
    assert("invalid_credentials"@.len() == 19);
    assert("invalid_request"@.len() == 15);
    assert("challenge_expired"@.len() == 17 && "challenge_expired"@[0] == 'c'
        && "challenge_expired"@[1] == 'h');
    assert("challenge_used"@.len() == 14);
    assert("invalid_credential"@.len() == 18);
    assert("credential_exists"@.len() == 17 && "credential_exists"@[0] == 'c'
        && "credential_exists"@[1] == 'r');
    assert("passkey_not_found"@.len() == 17 && "passkey_not_found"@[0] == 'p');
}

/// A stored code is read back as the error that it was stored for, by every operation that
/// stores it.
pub proof fn codes_read_back_as_their_errors()
    ensures
        begin_registration_refusal(ReceiptCode::Disabled.text()) == Some(
            BeginRegistrationError::Disabled,
        ),
        begin_registration_refusal(ReceiptCode::RevisionConflict.text()) == Some(
            BeginRegistrationError::RevisionConflict,
        ),
        begin_registration_refusal(ReceiptCode::TooManyPasskeys.text()) == Some(
            BeginRegistrationError::TooManyPasskeys,
        ),
        begin_authentication_refusal(ReceiptCode::InvalidCredentials.text()) == Some(
            BeginAuthenticationError::InvalidCredentials,
        ),
        finish_registration_refusal(ReceiptCode::InvalidRequest.text()) == Some(
            FinishRegistrationError::InvalidRequest,
        ),
        finish_registration_refusal(ReceiptCode::Disabled.text()) == Some(
            FinishRegistrationError::Disabled,
        ),
        finish_registration_refusal(ReceiptCode::ChallengeExpired.text()) == Some(
            FinishRegistrationError::ChallengeExpired,
        ),
        finish_registration_refusal(ReceiptCode::ChallengeUsed.text()) == Some(
            FinishRegistrationError::ChallengeUsed,
        ),
        finish_registration_refusal(ReceiptCode::InvalidCredential.text()) == Some(
            FinishRegistrationError::InvalidCredential,
        ),
        finish_registration_refusal(ReceiptCode::CredentialExists.text()) == Some(
            FinishRegistrationError::CredentialExists,
        ),
        finish_registration_refusal(ReceiptCode::RevisionConflict.text()) == Some(
            FinishRegistrationError::RevisionConflict,
        ),
        finish_authentication_refusal(ReceiptCode::InvalidRequest.text()) == Some(
            FinishAuthenticationError::InvalidRequest,
        ),
        finish_authentication_refusal(ReceiptCode::InvalidCredentials.text()) == Some(
            FinishAuthenticationError::InvalidCredentials,
        ),
        finish_authentication_refusal(ReceiptCode::ChallengeExpired.text()) == Some(
            FinishAuthenticationError::ChallengeExpired,
        ),
        finish_authentication_refusal(ReceiptCode::ChallengeUsed.text()) == Some(
            FinishAuthenticationError::ChallengeUsed,
        ),
        finish_authentication_refusal(ReceiptCode::Disabled.text()) == Some(
            FinishAuthenticationError::Disabled,
        ),
        revoke_refusal(ReceiptCode::Disabled.text()) == Some(RevokePasskeyError::Disabled),
        revoke_refusal(ReceiptCode::PasskeyNotFound.text()) == Some(
            RevokePasskeyError::PasskeyNotFound,
        ),
        revoke_refusal(ReceiptCode::RevisionConflict.text()) == Some(
            RevokePasskeyError::RevisionConflict,
        ),
{
    assert forall|a: ReceiptCode, b: ReceiptCode|
        #![trigger a.text(), b.text()]
        a.text() == b.text() implies a == b by {
        codes_differ(a, b);
    }
}

/// A refusal of begin-registration is told as the error of its name, by whom it is recorded and by
/// whom it is found.
pub proof fn begin_registration_tells_refusals_by_name(
    error: BeginRegistrationError,
    failure: Failure,
)
    ensures
        begin_registration::refused(ReceiptCode::Disabled.text()) == Progress::Finished::<
            begin_registration::BeginRegistration,
            BeginRegistrationResponse,
            BeginRegistrationError,
        >(Err(BeginRegistrationError::Disabled)),
        begin_registration::refused(ReceiptCode::RevisionConflict.text()) == Progress::Finished::<
            begin_registration::BeginRegistration,
            BeginRegistrationResponse,
            BeginRegistrationError,
        >(Err(BeginRegistrationError::RevisionConflict)),
        begin_registration::refused(ReceiptCode::TooManyPasskeys.text()) == Progress::Finished::<
            begin_registration::BeginRegistration,
            BeginRegistrationResponse,
            BeginRegistrationError,
        >(Err(BeginRegistrationError::TooManyPasskeys)),
        begin_registration::finished(error) == Progress::Finished::<
            begin_registration::BeginRegistration,
            BeginRegistrationResponse,
            BeginRegistrationError,
        >(Err(error)),
        begin_registration::failed(failure) == Progress::Failed::<
            begin_registration::BeginRegistration,
            BeginRegistrationResponse,
            BeginRegistrationError,
        >(failure),
{
    codes_read_back_as_their_errors();
}

/// A refusal of begin-authentication is told as the error of its name, by whom it is recorded and
/// by whom it is found.
pub proof fn begin_authentication_tells_refusals_by_name(
    error: BeginAuthenticationError,
    failure: Failure,
)
    ensures
        begin_authentication::refused(
            ReceiptCode::InvalidCredentials.text(),
        ) == Progress::Finished::<
            begin_authentication::BeginAuthentication,
            BeginAuthenticationResponse,
            BeginAuthenticationError,
        >(Err(BeginAuthenticationError::InvalidCredentials)),
        begin_authentication::finished(error) == Progress::Finished::<
            begin_authentication::BeginAuthentication,
            BeginAuthenticationResponse,
            BeginAuthenticationError,
        >(Err(error)),
        begin_authentication::failed(failure) == Progress::Failed::<
            begin_authentication::BeginAuthentication,
            BeginAuthenticationResponse,
            BeginAuthenticationError,
        >(failure),
{
    codes_read_back_as_their_errors();
}

/// A refusal of finish-registration is told as the error of its name, by whom it is recorded and by
/// whom it is found.
pub proof fn finish_registration_tells_refusals_by_name(
    error: FinishRegistrationError,
    failure: Failure,
)
    ensures
        finish_registration::refused(ReceiptCode::InvalidRequest.text()) == Progress::Finished::<
            finish_registration::FinishRegistration,
            FinishRegistrationResponse,
            FinishRegistrationError,
        >(Err(FinishRegistrationError::InvalidRequest)),
        finish_registration::refused(ReceiptCode::Disabled.text()) == Progress::Finished::<
            finish_registration::FinishRegistration,
            FinishRegistrationResponse,
            FinishRegistrationError,
        >(Err(FinishRegistrationError::Disabled)),
        finish_registration::refused(ReceiptCode::ChallengeExpired.text()) == Progress::Finished::<
            finish_registration::FinishRegistration,
            FinishRegistrationResponse,
            FinishRegistrationError,
        >(Err(FinishRegistrationError::ChallengeExpired)),
        finish_registration::refused(ReceiptCode::ChallengeUsed.text()) == Progress::Finished::<
            finish_registration::FinishRegistration,
            FinishRegistrationResponse,
            FinishRegistrationError,
        >(Err(FinishRegistrationError::ChallengeUsed)),
        finish_registration::refused(ReceiptCode::InvalidCredential.text()) == Progress::Finished::<
            finish_registration::FinishRegistration,
            FinishRegistrationResponse,
            FinishRegistrationError,
        >(Err(FinishRegistrationError::InvalidCredential)),
        finish_registration::refused(ReceiptCode::CredentialExists.text()) == Progress::Finished::<
            finish_registration::FinishRegistration,
            FinishRegistrationResponse,
            FinishRegistrationError,
        >(Err(FinishRegistrationError::CredentialExists)),
        finish_registration::refused(ReceiptCode::RevisionConflict.text()) == Progress::Finished::<
            finish_registration::FinishRegistration,
            FinishRegistrationResponse,
            FinishRegistrationError,
        >(Err(FinishRegistrationError::RevisionConflict)),
        finish_registration::finished(error) == Progress::Finished::<
            finish_registration::FinishRegistration,
            FinishRegistrationResponse,
            FinishRegistrationError,
        >(Err(error)),
        finish_registration::failed(failure) == Progress::Failed::<
            finish_registration::FinishRegistration,
            FinishRegistrationResponse,
            FinishRegistrationError,
        >(failure),
{
    codes_read_back_as_their_errors();
}

/// A refusal of finish-authentication is told as the error of its name, by whom it is recorded and
/// by whom it is found.
pub proof fn finish_authentication_tells_refusals_by_name(
    error: FinishAuthenticationError,
    failure: Failure,
)
    ensures
        finish_authentication::refused(ReceiptCode::InvalidRequest.text()) == Progress::Finished::<
            finish_authentication::FinishAuthentication,
            FinishAuthenticationResponse,
            FinishAuthenticationError,
        >(Err(FinishAuthenticationError::InvalidRequest)),
        finish_authentication::refused(
            ReceiptCode::InvalidCredentials.text(),
        ) == Progress::Finished::<
            finish_authentication::FinishAuthentication,
            FinishAuthenticationResponse,
            FinishAuthenticationError,
        >(Err(FinishAuthenticationError::InvalidCredentials)),
        finish_authentication::refused(
            ReceiptCode::ChallengeExpired.text(),
        ) == Progress::Finished::<
            finish_authentication::FinishAuthentication,
            FinishAuthenticationResponse,
            FinishAuthenticationError,
        >(Err(FinishAuthenticationError::ChallengeExpired)),
        finish_authentication::refused(ReceiptCode::ChallengeUsed.text()) == Progress::Finished::<
            finish_authentication::FinishAuthentication,
            FinishAuthenticationResponse,
            FinishAuthenticationError,
        >(Err(FinishAuthenticationError::ChallengeUsed)),
        finish_authentication::refused(ReceiptCode::Disabled.text()) == Progress::Finished::<
            finish_authentication::FinishAuthentication,
            FinishAuthenticationResponse,
            FinishAuthenticationError,
        >(Err(FinishAuthenticationError::Disabled)),
        finish_authentication::finished(error) == Progress::Finished::<
            finish_authentication::FinishAuthentication,
            FinishAuthenticationResponse,
            FinishAuthenticationError,
        >(Err(error)),
        finish_authentication::failed(failure) == Progress::Failed::<
            finish_authentication::FinishAuthentication,
            FinishAuthenticationResponse,
            FinishAuthenticationError,
        >(failure),
{
    codes_read_back_as_their_errors();
}

/// A refusal of revoke-passkey is told as the error of its name, by whom it is recorded and by
/// whom it is found.
pub proof fn revoke_passkey_tells_refusals_by_name(error: RevokePasskeyError, failure: Failure)
    ensures
        revoke_passkey::refused(ReceiptCode::Disabled.text()) == Progress::Finished::<
            revoke_passkey::RevokePasskey,
            RevokePasskeyResponse,
            RevokePasskeyError,
        >(Err(RevokePasskeyError::Disabled)),
        revoke_passkey::refused(ReceiptCode::PasskeyNotFound.text()) == Progress::Finished::<
            revoke_passkey::RevokePasskey,
            RevokePasskeyResponse,
            RevokePasskeyError,
        >(Err(RevokePasskeyError::PasskeyNotFound)),
        revoke_passkey::refused(ReceiptCode::RevisionConflict.text()) == Progress::Finished::<
            revoke_passkey::RevokePasskey,
            RevokePasskeyResponse,
            RevokePasskeyError,
        >(Err(RevokePasskeyError::RevisionConflict)),
        revoke_passkey::finished(error) == Progress::Finished::<
            revoke_passkey::RevokePasskey,
            RevokePasskeyResponse,
            RevokePasskeyError,
        >(Err(error)),
        revoke_passkey::failed(failure) == Progress::Failed::<
            revoke_passkey::RevokePasskey,
            RevokePasskeyResponse,
            RevokePasskeyError,
        >(failure),
{
    codes_read_back_as_their_errors();
}

} // verus!
