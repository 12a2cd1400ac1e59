//! A subject's stored passkeys: what they decode to and how they are listed.

use vstd::prelude::*;
use webauthn_rs::prelude::Passkey;

use crate::ceremony::{
    byte_strings, credential_id_of, passkey_credential_id, read_passkey, stored_passkey,
};
use crate::contract::{Nullable, PasskeySummary};
use crate::failure::Failure;
use crate::identifier::{encode_url_safe, url_safe_base64};
use crate::instant::{format_time, rfc3339, Timestamp};
use crate::rows::PasskeyRow;
use crate::text::{integer_text, signed_text};

verus! {

/// Why the first stored passkey that does not decode does not, if there is one.
pub open spec fn undecodable(rows: Seq<PasskeyRow>) -> Option<Seq<char>>
    decreases rows.len(),
{
    if rows.len() == 0 {
        None
    } else if undecodable(rows.drop_last()) is Some {
        undecodable(rows.drop_last())
    } else {
        match stored_passkey(rows.last().passkey@) {
            Ok(_) => None,
            Err(error) => Some(error),
        }
    }
}

/// The passkeys that stored ones decode to.
pub open spec fn decoded(rows: Seq<PasskeyRow>) -> Seq<Passkey> {
    rows.map_values(|row: PasskeyRow| stored_passkey(row.passkey@)->Ok_0)
}

/// The credential identifiers in stored passkeys.
pub open spec fn credential_ids(rows: Seq<PasskeyRow>) -> Seq<Seq<u8>> {
    rows.map_values(|row: PasskeyRow| passkey_credential_id(stored_passkey(row.passkey@)->Ok_0))
}

proof fn first_undecodable(rows: Seq<PasskeyRow>, i: int)
    requires
        0 <= i < rows.len(),
        undecodable(rows.subrange(0, i)) is None,
        stored_passkey(rows[i].passkey@) is Err,
    ensures
        undecodable(rows) == Some(stored_passkey(rows[i].passkey@)->Err_0),
    decreases rows.len(),
{
    if i == rows.len() - 1 {
        assert(rows.drop_last() =~= rows.subrange(0, i));
    } else {
        assert(rows.drop_last().subrange(0, i) =~= rows.subrange(0, i));
        first_undecodable(rows.drop_last(), i);
    }
}

/// The passkeys that stored ones decode to, or why the first one that does not decode does not.
pub fn decode_passkeys(rows: &Vec<PasskeyRow>) -> (r: Result<Vec<Passkey>, Failure>)
    ensures
        match r {
            Ok(passkeys) => undecodable(rows@) is None && passkeys@ == decoded(rows@),
            Err(Failure::Representation(error)) => undecodable(rows@) == Some(error@),
            Err(_) => false,
        },
{
    let mut passkeys: Vec<Passkey> = Vec::new();
    let mut i: usize = 0;
    while i < rows.len()
        invariant
            i <= rows.len(),
            passkeys.len() == i,
            undecodable(rows@.subrange(0, i as int)) is None,
            forall|j: int|
                0 <= j < i ==> stored_passkey(rows@[j].passkey@) == Ok::<Passkey, Seq<char>>(
                    #[trigger] passkeys@[j],
                ),
        decreases rows.len() - i,
    {
        match read_passkey(rows[i].passkey.as_str()) {
            Ok(passkey) => {
                passkeys.push(passkey);
            },
            Err(error) => {
                proof {
                    first_undecodable(rows@, i as int);
                }
                return Err(Failure::Representation(error));
            },
        }
        i = i + 1;
        assert(rows@.subrange(0, i as int).drop_last() =~= rows@.subrange(0, i - 1));
    }
    assert(rows@.subrange(0, i as int) =~= rows@);
    assert(passkeys@ =~= decoded(rows@));
    Ok(passkeys)
}

/// The credential identifiers of passkeys.
pub fn ids_of(passkeys: &Vec<Passkey>) -> (r: Vec<Vec<u8>>)
    ensures
        byte_strings(r@) == passkeys@.map_values(|passkey: Passkey| passkey_credential_id(passkey)),
{
    let mut ids: Vec<Vec<u8>> = Vec::new();
    let mut i: usize = 0;
    while i < passkeys.len()
        invariant
            i <= passkeys.len(),
            ids.len() == i,
            forall|j: int|
                0 <= j < i ==> (#[trigger] ids@[j])@ == passkey_credential_id(passkeys@[j]),
        decreases passkeys.len() - i,
    {
        ids.push(credential_id_of(&passkeys[i]));
        i = i + 1;
    }
    assert(byte_strings(ids@) =~= passkeys@.map_values(
        |passkey: Passkey| passkey_credential_id(passkey),
    ));
    ids
}

/// What is told of a stored passkey, or why one of its times cannot be written.
pub open spec fn summarizes(row: PasskeyRow, r: Result<PasskeySummary, Failure>) -> bool {
    let created_at = rfc3339(row.created_at.unix_nanos as int);
    let last_used_at = written(row.last_used_at);
    let revoked_at = written(row.revoked_at);
    match r {
        Ok(summary) => {
            &&& summary.passkey_id == row.passkey_id
            &&& summary.label == row.label
            &&& summary.credential_id@ == url_safe_base64(row.credential_id@)
            &&& summary.sign_count@ == integer_text(row.sign_count as int)
            &&& summary.revision@ == integer_text(row.revision as int)
            &&& created_at == Ok::<Seq<char>, Seq<char>>(summary.created_at@)
            &&& last_used_at == Ok::<Option<Seq<char>>, Seq<char>>(
                crate::origin::optional(summary.last_used_at.0),
            )
            &&& revoked_at == Ok::<Option<Seq<char>>, Seq<char>>(
                crate::origin::optional(summary.revoked_at.0),
            )
        },
        Err(Failure::Timestamp(error)) => if created_at is Err {
            created_at == Err::<Seq<char>, Seq<char>>(error@)
        } else if last_used_at is Err {
            last_used_at == Err::<Option<Seq<char>>, Seq<char>>(error@)
        } else {
            revoked_at == Err::<Option<Seq<char>>, Seq<char>>(error@)
        },
        Err(_) => false,
    }
}

/// The text of an instant that may be absent.
pub open spec fn written(value: Option<Timestamp>) -> Result<Option<Seq<char>>, Seq<char>> {
    match value {
        None => Ok(None),
        Some(value) => match rfc3339(value.unix_nanos as int) {
            Ok(text) => Ok(Some(text)),
            Err(error) => Err(error),
        },
    }
}

fn format_optional(value: Option<Timestamp>) -> (r: Result<Nullable<String>, Failure>)
    ensures
        match r {
            Ok(text) => written(value) == Ok::<Option<Seq<char>>, Seq<char>>(
                crate::origin::optional(text.0),
            ),
            Err(Failure::Timestamp(error)) => written(value) == Err::<
                Option<Seq<char>>,
                Seq<char>,
            >(error@),
            Err(_) => false,
        },
{
    match value {
        None => Ok(Nullable(None)),
        Some(value) => match format_time(value) {
            Ok(text) => Ok(Nullable(Some(text))),
            Err(failure) => Err(failure),
        },
    }
}

/// What is told of a stored passkey.
pub fn passkey_summary(row: &PasskeyRow) -> (r: Result<PasskeySummary, Failure>)
    ensures
        summarizes(*row, r),
{
    let created_at = match format_time(row.created_at) {
        Ok(created_at) => created_at,
        Err(failure) => return Err(failure),
    };
    let last_used_at = match format_optional(row.last_used_at) {
        Ok(last_used_at) => last_used_at,
        Err(failure) => return Err(failure),
    };
    let revoked_at = match format_optional(row.revoked_at) {
        Ok(revoked_at) => revoked_at,
        Err(failure) => return Err(failure),
    };
    Ok(
        PasskeySummary {
            passkey_id: row.passkey_id.clone(),
            label: row.label.clone(),
            credential_id: encode_url_safe(row.credential_id.as_slice()),
            sign_count: signed_text(row.sign_count),
            revision: signed_text(row.revision),
            created_at,
            last_used_at,
            revoked_at,
        },
    )
}

} // verus!
