//! The configuration of the plugin and the rules it must keep.

use url::Url;
use vstd::prelude::*;
use vstd::string::*;
use vstd::utf8::encode_utf8;
use webauthn_rs::prelude::Webauthn;

use crate::authority::{assertion_verifier, contains_text, verifier_from_public_key};
use crate::ceremony::{
    append_origin, begin_relying_party, build_relying_party, builder_relying_party, may_be_origin,
    relying_party, texts, RelyingParty,
};
use crate::origin::{
    exact_origin, exact_origins, is_exact_origin, parse_url, parsed_url, url_parts, url_view,
};
use crate::schema::{is_schema_name, schema_plan};
use crate::text::{
    is_token, same_text, trim, trimmed, valid_name, valid_secret_reference, valid_token,
};

verus! {

/// The configuration of one plugin generation.
#[derive(Clone, Debug, PartialEq, Eq)]
pub struct PasskeyAuthConfig {
    pub schema: String,
    pub database_url_secret: String,
    pub receipt_encryption_key_secret: String,
    pub rp_id: String,
    pub rp_name: String,
    pub allowed_origins: Vec<String>,
    pub auth_issuer: String,
    pub auth_public_key: String,
    pub management_callers: Vec<String>,
    pub authentication_callers: Vec<String>,
    pub audience: Vec<String>,
    pub challenge_ttl_seconds: u64,
    pub session_ttl_seconds: u64,
    pub receipt_ttl_seconds: u64,
    pub max_passkeys_per_subject: u32,
}

/// The contents of a configuration.
#[verifier::ext_equal]
pub struct ConfigView {
    pub schema: Seq<char>,
    pub database_url_secret: Seq<char>,
    pub receipt_encryption_key_secret: Seq<char>,
    pub rp_id: Seq<char>,
    pub rp_name: Seq<char>,
    pub allowed_origins: Seq<Seq<char>>,
    pub auth_issuer: Seq<char>,
    pub auth_public_key: Seq<char>,
    pub management_callers: Seq<Seq<char>>,
    pub authentication_callers: Seq<Seq<char>>,
    pub audience: Seq<Seq<char>>,
    pub challenge_ttl_seconds: u64,
    pub session_ttl_seconds: u64,
    pub receipt_ttl_seconds: u64,
    pub max_passkeys_per_subject: u32,
}

impl View for PasskeyAuthConfig {
    type V = ConfigView;

    open spec fn view(&self) -> ConfigView {
        ConfigView {
            schema: self.schema@,
            database_url_secret: self.database_url_secret@,
            receipt_encryption_key_secret: self.receipt_encryption_key_secret@,
            rp_id: self.rp_id@,
            rp_name: self.rp_name@,
            allowed_origins: texts(self.allowed_origins@),
            auth_issuer: self.auth_issuer@,
            auth_public_key: self.auth_public_key@,
            management_callers: texts(self.management_callers@),
            authentication_callers: texts(self.authentication_callers@),
            audience: texts(self.audience@),
            challenge_ttl_seconds: self.challenge_ttl_seconds,
            session_ttl_seconds: self.session_ttl_seconds,
            receipt_ttl_seconds: self.receipt_ttl_seconds,
            max_passkeys_per_subject: self.max_passkeys_per_subject,
        }
    }
}

/// The rule that a configuration breaks.
#[derive(Clone, Copy, Debug, PartialEq, Eq)]
pub enum PasskeyConfigError {
    InvalidSchema,
    InvalidSecretReferences,
    InvalidAuthAuthority,
    InvalidRelyingParty,
    InvalidOrigin,
    InvalidAuthoritySet,
    InvalidLimits,
}

impl PasskeyConfigError {
    /// The message shown for a broken rule.
    pub open spec fn text(self) -> Seq<char> {
        match self {
            PasskeyConfigError::InvalidSchema => "invalid owned PostgreSQL schema"@,
            PasskeyConfigError::InvalidSecretReferences =>
                "database and receipt encryption require distinct valid secret references"@,
            PasskeyConfigError::InvalidAuthAuthority => "invalid Auth assertion authority"@,
            PasskeyConfigError::InvalidRelyingParty => "invalid WebAuthn relying party"@,
            PasskeyConfigError::InvalidOrigin => "invalid exact WebAuthn origin"@,
            PasskeyConfigError::InvalidAuthoritySet =>
                "invalid or duplicate caller/audience authority"@,
            PasskeyConfigError::InvalidLimits =>
                "invalid challenge, session, receipt, or passkey limit"@,
        }
    }

    pub fn message(&self) -> (r: String)
        ensures
            r@ == self.text(),
    {
        match self {
            PasskeyConfigError::InvalidSchema => "invalid owned PostgreSQL schema".to_owned(),
            PasskeyConfigError::InvalidSecretReferences =>
                "database and receipt encryption require distinct valid secret references".to_owned(),
            PasskeyConfigError::InvalidAuthAuthority =>
                "invalid Auth assertion authority".to_owned(),
            PasskeyConfigError::InvalidRelyingParty => "invalid WebAuthn relying party".to_owned(),
            PasskeyConfigError::InvalidOrigin => "invalid exact WebAuthn origin".to_owned(),
            PasskeyConfigError::InvalidAuthoritySet =>
                "invalid or duplicate caller/audience authority".to_owned(),
            PasskeyConfigError::InvalidLimits =>
                "invalid challenge, session, receipt, or passkey limit".to_owned(),
        }
    }
}

/// A set of callers or audiences: 1 to 64 distinct tokens of at most `max` characters.
pub open spec fn is_authority_set(values: Seq<Seq<char>>, max: nat) -> bool {
    &&& 0 < values.len() <= 64
    &&& forall|i: int| 0 <= i < values.len() ==> is_token(#[trigger] values[i], max)
    &&& values.no_duplicates()
}

impl ConfigView {
    /// Two secrets, each with a reference of its own.
    pub open spec fn has_secret_references(self) -> bool {
        &&& is_token(self.database_url_secret, 256)
        &&& is_token(self.receipt_encryption_key_secret, 256)
        &&& self.database_url_secret != self.receipt_encryption_key_secret
    }

    /// An issuer name and a key that can verify its assertions.
    pub open spec fn has_auth_authority(self) -> bool {
        &&& is_token(self.auth_issuer, 128)
        &&& assertion_verifier(self.auth_issuer, self.auth_public_key) is Some
    }

    /// An identity and a name of bounded size, and 1 to 16 origins.
    pub open spec fn names_relying_party(self) -> bool {
        &&& 0 < encode_utf8(self.rp_id).len() <= 253
        &&& trimmed(self.rp_name).len() > 0
        &&& encode_utf8(self.rp_name).len() <= 128
        &&& 0 < self.allowed_origins.len() <= 16
    }

    /// Callers and audiences.
    pub open spec fn has_authority_sets(self) -> bool {
        &&& is_authority_set(self.management_callers, 128)
        &&& is_authority_set(self.authentication_callers, 128)
        &&& is_authority_set(self.audience, 256)
    }

    /// Time spans and counts within bounds; a receipt outlives a challenge.
    pub open spec fn keeps_limits(self) -> bool {
        &&& 60 <= self.challenge_ttl_seconds <= 900
        &&& 1 <= self.session_ttl_seconds <= 2_592_000
        &&& 300 <= self.receipt_ttl_seconds <= 604_800
        &&& self.receipt_ttl_seconds > self.challenge_ttl_seconds
        &&& 1 <= self.max_passkeys_per_subject <= 64
    }

    /// The first rule that is broken, if any is.
    pub open spec fn broken_rule(self) -> Option<PasskeyConfigError> {
        if !is_schema_name(self.schema) {
            Some(PasskeyConfigError::InvalidSchema)
        } else if !self.has_secret_references() {
            Some(PasskeyConfigError::InvalidSecretReferences)
        } else if !self.has_auth_authority() {
            Some(PasskeyConfigError::InvalidAuthAuthority)
        } else if !self.names_relying_party() {
            Some(PasskeyConfigError::InvalidRelyingParty)
        } else if !exact_origins(self.allowed_origins, self.rp_id) {
            Some(PasskeyConfigError::InvalidOrigin)
        } else if !self.has_authority_sets() {
            Some(PasskeyConfigError::InvalidAuthoritySet)
        } else if !self.keeps_limits() {
            Some(PasskeyConfigError::InvalidLimits)
        } else {
            None
        }
    }

    /// What making the relying party gives: the one that is configured, if its origins are exact.
    pub open spec fn makes(self, r: Result<Webauthn, PasskeyConfigError>) -> bool {
        match r {
            Ok(webauthn) => {
                &&& exact_origins(self.allowed_origins, self.rp_id)
                &&& relying_party(webauthn) == self.relying_party()
            },
            Err(PasskeyConfigError::InvalidOrigin) => !exact_origins(
                self.allowed_origins,
                self.rp_id,
            ),
            Err(_) => false,
        }
    }

    /// The relying party that is configured: its own origins, and no subdomain or other port of
    /// them.
    pub open spec fn relying_party(self) -> RelyingParty {
        RelyingParty {
            rp_id: self.rp_id,
            rp_name: self.rp_name,
            origins: self.allowed_origins.map_values(|raw: Seq<char>| parsed_url(raw)->0.text),
            timeout_seconds: self.challenge_ttl_seconds as int,
            allow_subdomains: false,
            allow_any_port: false,
        }
    }
}

impl PasskeyAuthConfig {
    /// A configuration, if it breaks no rule; otherwise the first rule that it breaks.
    pub fn new(
        schema: String,
        database_url_secret: String,
        receipt_encryption_key_secret: String,
        rp_id: String,
        rp_name: String,
        allowed_origins: Vec<String>,
        auth_issuer: String,
        auth_public_key: String,
        management_callers: Vec<String>,
        authentication_callers: Vec<String>,
        audience: Vec<String>,
        challenge_ttl_seconds: u64,
        session_ttl_seconds: u64,
        receipt_ttl_seconds: u64,
        max_passkeys_per_subject: u32,
    ) -> (r: Result<PasskeyAuthConfig, PasskeyConfigError>)
        ensures
            ({
                let config = PasskeyAuthConfig {
                    schema,
                    database_url_secret,
                    receipt_encryption_key_secret,
                    rp_id,
                    rp_name,
                    allowed_origins,
                    auth_issuer,
                    auth_public_key,
                    management_callers,
                    authentication_callers,
                    audience,
                    challenge_ttl_seconds,
                    session_ttl_seconds,
                    receipt_ttl_seconds,
                    max_passkeys_per_subject,
                };
                r == (match config@.broken_rule() {
                    Some(error) => Err(error),
                    None => Ok(config),
                })
            }),
    {
        let config = PasskeyAuthConfig {
            schema,
            database_url_secret,
            receipt_encryption_key_secret,
            rp_id,
            rp_name,
            allowed_origins,
            auth_issuer,
            auth_public_key,
            management_callers,
            authentication_callers,
            audience,
            challenge_ttl_seconds,
            session_ttl_seconds,
            receipt_ttl_seconds,
            max_passkeys_per_subject,
        };
        match config.validate() {
            Ok(_) => Ok(config),
            Err(error) => Err(error),
        }
    }

    /// Whether the configuration keeps every rule; otherwise the first rule that it breaks.
    pub fn validate(&self) -> (r: Result<(), PasskeyConfigError>)
        ensures
            r == (match self@.broken_rule() {
                Some(error) => Err(error),
                None => Ok(()),
            }),
    {
        if schema_plan(self.schema.as_str()).is_err() {
            return Err(PasskeyConfigError::InvalidSchema);
        }
        if !valid_secret_reference(self.database_url_secret.as_str()) || !valid_secret_reference(
            self.receipt_encryption_key_secret.as_str(),
        ) || same_text(
            self.database_url_secret.as_str(),
            self.receipt_encryption_key_secret.as_str(),
        ) {
            return Err(PasskeyConfigError::InvalidSecretReferences);
        }
        if !valid_name(self.auth_issuer.as_str()) {
            return Err(PasskeyConfigError::InvalidAuthAuthority);
        }
        if verifier_from_public_key(
            self.auth_issuer.as_str(),
            self.auth_public_key.as_str(),
        ).is_none() {
            return Err(PasskeyConfigError::InvalidAuthAuthority);
        }
        if !self.is_relying_party_named() {
            return Err(PasskeyConfigError::InvalidRelyingParty);
        }
        match self.webauthn() {
            Ok(_) => {},
            Err(error) => return Err(error),
        }
        match validate_authority_set(&self.management_callers, 128) {
            Ok(_) => {},
            Err(error) => return Err(error),
        }
        match validate_authority_set(&self.authentication_callers, 128) {
            Ok(_) => {},
            Err(error) => return Err(error),
        }
        match validate_authority_set(&self.audience, 256) {
            Ok(_) => {},
            Err(error) => return Err(error),
        }
        if self.challenge_ttl_seconds < 60 || self.challenge_ttl_seconds > 900
            || self.session_ttl_seconds < 1 || self.session_ttl_seconds > 2_592_000
            || self.receipt_ttl_seconds < 300 || self.receipt_ttl_seconds > 604_800
            || self.receipt_ttl_seconds <= self.challenge_ttl_seconds
            || self.max_passkeys_per_subject < 1 || self.max_passkeys_per_subject > 64 {
            return Err(PasskeyConfigError::InvalidLimits);
        }
        Ok(())
    }

    fn is_relying_party_named(&self) -> (r: bool)
        ensures
            r == self@.names_relying_party(),
    {
        let rp_id = self.rp_id.as_str().as_bytes();
        let rp_name = self.rp_name.as_str().as_bytes();
        rp_id.len() > 0 && rp_id.len() <= 253 && trim(self.rp_name.as_str()).as_bytes().len() > 0
            && rp_name.len() <= 128 && self.allowed_origins.len() > 0
            && self.allowed_origins.len() <= 16
    }

    /// The configured origins, if all of them are exact origins of the relying party.
    pub fn parsed_origins(&self) -> (r: Result<Vec<Url>, PasskeyConfigError>)
        ensures
            match r {
                Ok(origins) => {
                    &&& exact_origins(self@.allowed_origins, self@.rp_id)
                    &&& origins.len() == self@.allowed_origins.len()
                    &&& forall|i: int|
                        0 <= i < origins.len() ==> parsed_url(self@.allowed_origins[i]) == Some(
                            url_view(#[trigger] origins@[i]),
                        )
                },
                Err(PasskeyConfigError::InvalidOrigin) => !exact_origins(
                    self@.allowed_origins,
                    self@.rp_id,
                ),
                Err(_) => false,
            },
    {
        let mut origins: Vec<Url> = Vec::new();
        let mut seen: Vec<String> = Vec::new();
        let mut i: usize = 0;
        let ghost raw = self@.allowed_origins;
        while i < self.allowed_origins.len()
            invariant
                i <= self.allowed_origins.len(),
                raw == self@.allowed_origins,
                origins.len() == i,
                seen.len() == i,
                forall|j: int|
                    0 <= j < i ==> parsed_url(raw[j]) == Some(url_view(#[trigger] origins@[j])),
                forall|j: int|
                    0 <= j < i ==> exact_origin(url_view(#[trigger] origins@[j]), self@.rp_id),
                forall|j: int|
                    0 <= j < i ==> (#[trigger] seen@[j])@ == url_view(origins@[j]).text,
                forall|j: int, k: int|
                    0 <= j < k < i ==> (#[trigger] seen@[j])@ != (#[trigger] seen@[k])@,
            decreases self.allowed_origins.len() - i,
        {
            assert(raw[i as int] == self.allowed_origins@[i as int]@);
            let origin = match parse_url(self.allowed_origins[i].as_str()) {
                Some(origin) => origin,
                None => return Err(PasskeyConfigError::InvalidOrigin),
            };
            let parts = url_parts(&origin);
            if !is_exact_origin(&parts, self.rp_id.as_str()) {
                return Err(PasskeyConfigError::InvalidOrigin);
            }
            if contains_text(&seen, parts.text.as_str()) {
                proof {
                    let j = choose|j: int|
                        0 <= j < texts(seen@).len() && texts(seen@)[j] == parts.text@;
                    assert(texts(seen@)[j] == seen@[j]@);
                    assert(parsed_url(raw[j]) == Some(url_view(origins@[j])));
                    assert(parsed_url(raw[i as int]) == Some(url_view(origin)));
                }
                return Err(PasskeyConfigError::InvalidOrigin);
            }
            proof {
                assert forall|j: int| 0 <= j < i implies (#[trigger] seen@[j])@ != parts.text@ by {
                    assert(texts(seen@)[j] == seen@[j]@);
                }
            }
            seen.push(parts.text);
            origins.push(origin);
            i = i + 1;
        }
        proof {
            assert forall|j: int| 0 <= j < raw.len() implies {
                &&& (#[trigger] parsed_url(raw[j])) is Some
                &&& exact_origin(parsed_url(raw[j])->0, self@.rp_id)
            } by {
                assert(parsed_url(raw[j]) == Some(url_view(origins@[j])));
            }
            assert forall|j: int, k: int| 0 <= j < k < raw.len() implies (#[trigger] parsed_url(
                raw[j],
            ))->0.text != (#[trigger] parsed_url(raw[k]))->0.text by {
                assert(parsed_url(raw[j]) == Some(url_view(origins@[j])));
                assert(parsed_url(raw[k]) == Some(url_view(origins@[k])));
                assert(seen@[j]@ != seen@[k]@);
            }
        }
        Ok(origins)
    }

    /// The configured relying party, if its origins are exact.
    pub fn webauthn(&self) -> (r: Result<Webauthn, PasskeyConfigError>)
        requires
            self.allowed_origins.len() > 0,
        ensures
            self@.makes(r),
    {
        let origins = match self.parsed_origins() {
            Ok(origins) => origins,
            Err(error) => return Err(error),
        };
        let ghost wanted = self@.relying_party();
        proof {
            assert(parsed_url(self@.allowed_origins[0]) == Some(url_view(origins@[0])));
            assert(may_be_origin(origins@[0], self@.rp_id));
        }
        let mut builder = match begin_relying_party(
            self.rp_id.as_str(),
            self.rp_name.as_str(),
            self.challenge_ttl_seconds,
            &origins[0],
        ) {
            Some(builder) => builder,
            None => return Err(PasskeyConfigError::InvalidRelyingParty),
        };
        let mut i: usize = 1;
        assert(builder_relying_party(builder).origins =~= wanted.origins.subrange(0, 1)) by {
            assert(wanted.origins[0] == url_view(origins@[0]).text);
        }
        while i < origins.len()
            invariant
                1 <= i <= origins.len(),
                wanted == self@.relying_party(),
                origins.len() == wanted.origins.len(),
                forall|j: int|
                    0 <= j < origins.len() ==> parsed_url(self@.allowed_origins[j]) == Some(
                        url_view(#[trigger] origins@[j]),
                    ),
                builder_relying_party(builder) == (RelyingParty {
                    origins: wanted.origins.subrange(0, i as int),
                    ..wanted
                }),
            decreases origins.len() - i,
        {
            builder = append_origin(builder, &origins[i]);
            proof {
                assert(parsed_url(self@.allowed_origins[i as int]) == Some(
                    url_view(origins@[i as int]),
                ));
                assert(wanted.origins[i as int] == url_view(origins@[i as int]).text);
                assert(wanted.origins.subrange(0, i as int).push(
                    url_view(origins@[i as int]).text,
                ) =~= wanted.origins.subrange(0, i + 1));
            }
            i = i + 1;
        }
        assert(wanted.origins.subrange(0, i as int) =~= wanted.origins);
        match build_relying_party(builder) {
            Some(webauthn) => Ok(webauthn),
            None => Err(PasskeyConfigError::InvalidRelyingParty),
        }
    }
}

/// A configuration that breaks no rule makes its relying party, with the configured identity, name
/// and timeout. It takes exactly the configured origins, each an exact one of the identity, no two
/// the same, and no subdomain or other port of any.
pub proof fn valid_configurations_make_exact_relying_parties(
    config: ConfigView,
    r: Result<Webauthn, PasskeyConfigError>,
)
    requires
        config.broken_rule() is None,
        config.makes(r),
    ensures
        r matches Ok(webauthn) && {
            let party = relying_party(webauthn);
            &&& party.rp_id == config.rp_id
            &&& party.rp_name == config.rp_name
            &&& party.timeout_seconds == config.challenge_ttl_seconds
            &&& !party.allow_subdomains
            &&& !party.allow_any_port
            &&& party.origins.len() == config.allowed_origins.len()
            &&& party.origins.no_duplicates()
            &&& forall|i: int|
                0 <= i < party.origins.len() ==> {
                    let url = parsed_url(config.allowed_origins[i]);
                    &&& url is Some
                    &&& exact_origin(url->0, config.rp_id)
                    &&& #[trigger] party.origins[i] == url->0.text
                }
        },
{
    let party = config.relying_party();
    assert forall|i: int| 0 <= i < party.origins.len() implies {
        let url = parsed_url(config.allowed_origins[i]);
        &&& url is Some
        &&& exact_origin(url->0, config.rp_id)
        &&& #[trigger] party.origins[i] == url->0.text
    } by {}
    assert forall|i: int, j: int|
        0 <= i < j < party.origins.len() implies party.origins[i] != party.origins[j] by {
        assert(parsed_url(config.allowed_origins[i])->0.text != parsed_url(
            config.allowed_origins[j],
        )->0.text);
    }
}

/// Whether `values` is a set of callers or audiences, each of at most `max_value_length`
/// characters.
pub fn validate_authority_set(values: &Vec<String>, max_value_length: usize) -> (r: Result<
    (),
    PasskeyConfigError,
>)
    ensures
        r == (if is_authority_set(texts(values@), max_value_length as nat) {
            Ok::<(), PasskeyConfigError>(())
        } else {
            Err(PasskeyConfigError::InvalidAuthoritySet)
        }),
{
    if values.len() == 0 || values.len() > 64 {
        return Err(PasskeyConfigError::InvalidAuthoritySet);
    }
    let ghost all = texts(values@);
    let mut i: usize = 0;
    while i < values.len()
        invariant
            i <= values.len(),
            all == texts(values@),
            forall|j: int| 0 <= j < i ==> is_token(#[trigger] all[j], max_value_length as nat),
            forall|j: int, k: int| 0 <= j < i && 0 <= k < i && j != k ==> all[j] != all[k],
        decreases values.len() - i,
    {
        assert(all[i as int] == values@[i as int]@);
        if !valid_token(values[i].as_str(), max_value_length) {
            return Err(PasskeyConfigError::InvalidAuthoritySet);
        }
        let mut j: usize = 0;
        while j < i
            invariant
                j <= i < values.len(),
                all == texts(values@),
                forall|k: int| 0 <= k < j ==> all[k] != all[i as int],
            decreases i - j,
        {
            assert(all[j as int] == values@[j as int]@);
            assert(all[i as int] == values@[i as int]@);
            if same_text(values[j].as_str(), values[i].as_str()) {
                return Err(PasskeyConfigError::InvalidAuthoritySet);
            }
            j = j + 1;
        }
        i = i + 1;
    }
    Ok(())
}

} // verus!
