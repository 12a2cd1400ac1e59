//! Which configurations are accepted, and what an accepted one makes.

use lenso_postgres_kit::SchemaPlan;
use url::Url;
use vstd::prelude::*;
use vstd::utf8::encode_utf8;
use webauthn_rs::prelude::Webauthn;

use crate::activation::{
    start, validate_config, Preparing, ResolvingDatabase, ResolvingReceiptKey, Secret, SecretReply,
};
use crate::active::ActivePasskey;
use crate::authority::assertion_verifier;
use crate::ceremony::{relying_party, texts};
use crate::config::{
    is_authority_set, validate_authority_set, PasskeyAuthConfig, PasskeyConfigError,
};
use crate::failure::Failure;
use crate::laws::notation::{
    is_blank, is_plain, tokens_are_plain, trimming_has_one_result,
    trimming_takes_white_space_off_the_ends,
};
use crate::origin::{
    belongs_to, domain_belongs_to, exact_origin, exact_origins, is_exact_origin, parsed_url,
    url_view, UrlParts, UrlView,
};
use crate::receipt::sha256;
use crate::schema::{is_schema_name, one_migration_plan, schema_plan, MIGRATION_SQL};
use crate::text::{is_token, trimmed};

verus! {

/// A schema that can be owned: 1 to 63 lower-case letters, digits and `_`, a letter first, and
/// none of the names that PostgreSQL keeps for itself.
pub open spec fn can_be_owned(s: Seq<char>) -> bool {
    &&& 1 <= s.len() <= 63
    &&& 97 <= s[0] as int <= 122
    &&& forall|i: int|
        0 <= i < s.len() ==> {
            let n = (#[trigger] s[i]) as int;
            97 <= n <= 122 || 48 <= n <= 57 || n == 95
        }
    &&& s != seq!['p', 'u', 'b', 'l', 'i', 'c']
    &&& s != "information_schema"@
    &&& !(s.len() >= 3 && s[0] == 'p' && s[1] == 'g' && s[2] == '_')
}

/// Two references to secrets, each a plain text and not the same.
pub open spec fn has_two_secrets(config: PasskeyAuthConfig) -> bool {
    &&& is_plain(config.database_url_secret@, 256)
    &&& is_plain(config.receipt_encryption_key_secret@, 256)
    &&& config.database_url_secret@ != config.receipt_encryption_key_secret@
}

/// A plain name of an authority, with a key that verifies what it asserts.
pub open spec fn has_an_authority(config: PasskeyAuthConfig) -> bool {
    &&& is_plain(config.auth_issuer@, 128)
    &&& assertion_verifier(config.auth_issuer@, config.auth_public_key@) is Some
}

/// An identity of 1 to 253 bytes, a name of at most 128 bytes that is not blank, and 1 to 16
/// origins.
pub open spec fn has_a_relying_party(config: PasskeyAuthConfig) -> bool {
    &&& 1 <= encode_utf8(config.rp_id@).len() <= 253
    &&& exists|i: int| 0 <= i < config.rp_name@.len() && !is_blank(#[trigger] config.rp_name@[i])
    &&& encode_utf8(config.rp_name@).len() <= 128
    &&& 1 <= config.allowed_origins.len() <= 16
}

/// A domain that is another one, or that one behind a dot.
pub open spec fn is_at_or_below(domain: Seq<char>, other: Seq<char>) -> bool {
    ||| domain == other
    ||| {
        &&& domain.len() > other.len()
        &&& domain[domain.len() - other.len() - 1] == '.'
        &&& forall|i: int|
            0 <= i < other.len() ==> domain[domain.len() - other.len() + i] == #[trigger] other[i]
    }
}

/// A URL that is an origin and nothing more, at or below an identity: HTTPS at its own port, or the
/// local host with HTTP too and at any port.
pub open spec fn is_origin_of(url: UrlView, identity: Seq<char>) -> bool {
    &&& url.domain matches Some(domain)
    &&& url.scheme == "https"@ || domain == "localhost"@ && url.scheme == "http"@
    &&& url.port is None || domain == "localhost"@
    &&& url.username.len() == 0
    &&& url.password is None
    &&& url.path == seq!['/']
    &&& url.query is None
    &&& url.fragment is None
    &&& is_at_or_below(domain, identity)
}

/// Origins that are all of the relying party, and no two the same.
pub open spec fn has_exact_origins(config: PasskeyAuthConfig) -> bool {
    &&& forall|i: int|
        0 <= i < config.allowed_origins.len() ==> {
            let url = parsed_url((#[trigger] config.allowed_origins@[i])@);
            url is Some && is_origin_of(url->0, config.rp_id@)
        }
    &&& forall|i: int, j: int|
        0 <= i < j < config.allowed_origins.len() ==> parsed_url(
            (#[trigger] config.allowed_origins@[i])@,
        )->0.text != parsed_url((#[trigger] config.allowed_origins@[j])@)->0.text
}

/// 1 to 64 plain texts of at most `max` characters, no two the same.
pub open spec fn is_set_of_names(values: Seq<String>, max: int) -> bool {
    &&& 1 <= values.len() <= 64
    &&& forall|i: int| 0 <= i < values.len() ==> is_plain((#[trigger] values[i])@, max)
    &&& forall|i: int, j: int|
        0 <= i < j < values.len() ==> (#[trigger] values[i])@ != (#[trigger] values[j])@
}

/// Callers and audiences.
pub open spec fn has_sets_of_names(config: PasskeyAuthConfig) -> bool {
    &&& is_set_of_names(config.management_callers@, 128)
    &&& is_set_of_names(config.authentication_callers@, 128)
    &&& is_set_of_names(config.audience@, 256)
}

/// A challenge that lives a minute to a quarter of an hour, a session up to thirty days, a receipt
/// five minutes to a week and longer than a challenge, and 1 to 64 passkeys.
pub open spec fn has_limits(config: PasskeyAuthConfig) -> bool {
    &&& 60 <= config.challenge_ttl_seconds <= 900
    &&& 1 <= config.session_ttl_seconds <= 2_592_000
    &&& 300 <= config.receipt_ttl_seconds <= 604_800
    &&& config.challenge_ttl_seconds < config.receipt_ttl_seconds
    &&& 1 <= config.max_passkeys_per_subject <= 64
}

/// The first rule that a configuration breaks, if it breaks one.
pub open spec fn first_broken(config: PasskeyAuthConfig) -> Option<PasskeyConfigError> {
    if !can_be_owned(config.schema@) {
        Some(PasskeyConfigError::InvalidSchema)
    } else if !has_two_secrets(config) {
        Some(PasskeyConfigError::InvalidSecretReferences)
    } else if !has_an_authority(config) {
        Some(PasskeyConfigError::InvalidAuthAuthority)
    } else if !has_a_relying_party(config) {
        Some(PasskeyConfigError::InvalidRelyingParty)
    } else if !has_exact_origins(config) {
        Some(PasskeyConfigError::InvalidOrigin)
    } else if !has_sets_of_names(config) {
        Some(PasskeyConfigError::InvalidAuthoritySet)
    } else if !has_limits(config) {
        Some(PasskeyConfigError::InvalidLimits)
    } else {
        None
    }
}

proof fn names_can_be_owned(s: Seq<char>)
    ensures
        is_schema_name(s) <==> can_be_owned(s),
{
    reveal_strlit("public");
    reveal_strlit("pg_");
    assert("public"@ =~= seq!['p', 'u', 'b', 'l', 'i', 'c']);
    if s.len() >= 3 {
        if s[0] == 'p' && s[1] == 'g' && s[2] == '_' {
            assert("pg_"@ =~= s.subrange(0, 3));
        }
        if "pg_"@.is_prefix_of(s) {
            assert("pg_"@ == s.subrange(0, 3));
            assert(s.subrange(0, 3)[0] == s[0]);
            assert(s.subrange(0, 3)[1] == s[1]);
            assert(s.subrange(0, 3)[2] == s[2]);
        }
    }
    if can_be_owned(s) {
        assert forall|i: int| 0 < i < s.len() implies crate::schema::schema_char(
            #[trigger] s[i],
        ) by {}
    }
    if is_schema_name(s) {
        assert forall|i: int| 0 <= i < s.len() implies {
            let n = (#[trigger] s[i]) as int;
            97 <= n <= 122 || 48 <= n <= 57 || n == 95
        } by {
            if i > 0 {
                assert(crate::schema::schema_char(s[i]));
            }
        }
    }
}

/// What can be owned is told by the characters of the name, and the plan of what can be is of that
/// schema and of the one migration.
pub proof fn schemas_are_owned_by_their_names(name: &str, r: Result<SchemaPlan, String>)
    ensures
        is_schema_name(name@) <==> can_be_owned(name@),
        call_requires(schema_plan, (name,)),
        call_ensures(schema_plan, (name,), r) ==> match r {
            Ok(plan) => can_be_owned(name@) && plan == one_migration_plan(
                name@,
                1,
                "create-passkey-state"@,
                MIGRATION_SQL@,
            ),
            Err(error) => !can_be_owned(name@) && error@ == "invalid owned schema name `"@ + name@
                + "`"@,
        },
{
    names_can_be_owned(name@);
}

proof fn domains_belong_by_their_ends(domain: Seq<char>, other: Seq<char>)
    ensures
        belongs_to(domain, other) <==> is_at_or_below(domain, other),
{
    reveal_strlit(".");
    let end = "."@ + other;
    if domain.len() > other.len() {
        let tail = domain.subrange(domain.len() - end.len(), domain.len() as int);
        if is_at_or_below(domain, other) && domain != other {
            assert forall|i: int| 0 <= i < end.len() implies tail[i] == end[i] by {
                if i > 0 {
                    assert(end[i] == other[i - 1]);
                }
            }
            assert(tail =~= end);
        }
        if end.is_suffix_of(domain) {
            assert(tail =~= end);
            assert(tail[0] == '.');
            assert forall|i: int| 0 <= i < other.len() implies domain[domain.len() - other.len()
                + i] == #[trigger] other[i] by {
                assert(tail[i + 1] == end[i + 1]);
                assert(end[i + 1] == other[i]);
            }
        }
    }
}

proof fn origins_are_told_by_their_parts(url: UrlView, identity: Seq<char>)
    ensures
        exact_origin(url, identity) <==> is_origin_of(url, identity),
{
    reveal_strlit("");
    reveal_strlit("/");
    assert(""@ =~= Seq::<char>::empty());
    assert("/"@ =~= seq!['/']);
    if url.username.len() == 0 {
        assert(url.username =~= ""@);
    }
    if let Some(domain) = url.domain {
        domains_belong_by_their_ends(domain, identity);
    }
}

/// Whether an origin is taken is told by its parts.
pub proof fn origin_functions_go_by_the_parts(
    domain: &str,
    identity: &str,
    url: &UrlParts,
    r: bool,
)
    ensures
        call_requires(domain_belongs_to, (domain, identity)),
        call_ensures(domain_belongs_to, (domain, identity), r) ==> r == is_at_or_below(
            domain@,
            identity@,
        ),
        call_requires(is_exact_origin, (url, identity)),
        call_ensures(is_exact_origin, (url, identity), r) ==> r == is_origin_of(url@, identity@),
{
    domains_belong_by_their_ends(domain@, identity@);
    origins_are_told_by_their_parts(url@, identity@);
}

proof fn sets_are_told_by_their_values(values: Seq<String>, max: nat)
    ensures
        is_authority_set(texts(values), max) <==> is_set_of_names(values, max as int),
{
    let all = texts(values);
    assert forall|i: int| 0 <= i < values.len() implies #[trigger] all[i] == values[i]@ by {}
    assert forall|i: int| 0 <= i < values.len() implies (is_token(#[trigger] all[i], max)
        <==> is_plain(values[i]@, max as int)) by {
        tokens_are_plain(values[i]@, max);
    }
    if is_authority_set(all, max) {
        assert forall|i: int| 0 <= i < values.len() implies is_plain(
            (#[trigger] values[i])@,
            max as int,
        ) by {
            assert(is_token(all[i], max));
        }
        assert forall|i: int, j: int| 0 <= i < j < values.len() implies (#[trigger] values[i])@ != (
        #[trigger] values[j])@ by {
            assert(all[i] != all[j]);
        }
    }
    if is_set_of_names(values, max as int) {
        assert forall|i: int| 0 <= i < all.len() implies is_token(#[trigger] all[i], max) by {
            assert(is_plain(values[i]@, max as int));
        }
        assert forall|i: int, j: int| 0 <= i < all.len() && 0 <= j < all.len() && i
            != j implies all[i] != all[j] by {
            if i < j {
                assert(values[i]@ != values[j]@);
            } else {
                assert(values[j]@ != values[i]@);
            }
        }
    }
}

proof fn origins_are_exact_one_by_one(config: PasskeyAuthConfig)
    ensures
        exact_origins(config@.allowed_origins, config@.rp_id) <==> has_exact_origins(config),
{
    let raw = config@.allowed_origins;
    let values = config.allowed_origins@;
    assert forall|i: int| 0 <= i < values.len() implies #[trigger] raw[i] == values[i]@ by {}
    assert forall|i: int| 0 <= i < values.len() implies (exact_origin(
        (#[trigger] parsed_url(raw[i]))->0,
        config@.rp_id,
    ) <==> is_origin_of(parsed_url(values[i]@)->0, config.rp_id@)) by {
        origins_are_told_by_their_parts(parsed_url(raw[i])->0, config@.rp_id);
    }
    if exact_origins(raw, config@.rp_id) {
        assert forall|i: int| 0 <= i < values.len() implies {
            let url = parsed_url((#[trigger] values[i])@);
            url is Some && is_origin_of(url->0, config.rp_id@)
        } by {
            assert(parsed_url(raw[i]) is Some);
        }
        assert forall|i: int, j: int| 0 <= i < j < values.len() implies parsed_url(
            (#[trigger] values[i])@,
        )->0.text != parsed_url((#[trigger] values[j])@)->0.text by {
            assert(parsed_url(raw[i])->0.text != parsed_url(raw[j])->0.text);
        }
    }
    if has_exact_origins(config) {
        assert forall|i: int| 0 <= i < raw.len() implies {
            &&& (#[trigger] parsed_url(raw[i])) is Some
            &&& exact_origin(parsed_url(raw[i])->0, config@.rp_id)
        } by {
            assert(parsed_url(values[i]@) is Some);
        }
        assert forall|i: int, j: int| 0 <= i < j < raw.len() implies (#[trigger] parsed_url(
            raw[i],
        ))->0.text != (#[trigger] parsed_url(raw[j]))->0.text by {
            assert(parsed_url(values[i]@)->0.text != parsed_url(values[j]@)->0.text);
        }
    }
}

proof fn rules_are_told_by_the_values(config: PasskeyAuthConfig)
    ensures
        config@.broken_rule() == first_broken(config),
{
    let name = config.schema@;
    assert(is_schema_name(name) <==> can_be_owned(name)) by {
        names_can_be_owned(name);
    }
    tokens_are_plain(config.database_url_secret@, 256);
    tokens_are_plain(config.receipt_encryption_key_secret@, 256);
    tokens_are_plain(config.auth_issuer@, 128);
    trimming_takes_white_space_off_the_ends(config.rp_name@);
    trimming_has_one_result(config.rp_name@, trimmed(config.rp_name@), trimmed(config.rp_name@));
    origins_are_exact_one_by_one(config);
    sets_are_told_by_their_values(config.management_callers@, 128);
    sets_are_told_by_their_values(config.authentication_callers@, 128);
    sets_are_told_by_their_values(config.audience@, 256);
}

/// A configuration is accepted exactly where it keeps every rule, told by its own values; otherwise
/// the first rule that it breaks is named.
pub proof fn configurations_are_accepted_by_their_values(
    config: &PasskeyAuthConfig,
    r: Result<(), PasskeyConfigError>,
    values: &Vec<String>,
    max: usize,
    set: Result<(), PasskeyConfigError>,
)
    ensures
        call_requires(PasskeyAuthConfig::validate, (config,)),
        call_ensures(PasskeyAuthConfig::validate, (config,), r) ==> match r {
            Ok(_) => first_broken(*config) is None,
            Err(error) => first_broken(*config) == Some(error),
        },
        call_requires(validate_authority_set, (values, max)),
        call_ensures(validate_authority_set, (values, max), set) ==> match set {
            Ok(_) => is_set_of_names(values@, max as int),
            Err(error) => !is_set_of_names(values@, max as int)
                && error is InvalidAuthoritySet,
        },
{
    rules_are_told_by_the_values(*config);
    sets_are_told_by_their_values(values@, max as nat);
}

/// Each broken rule has its own message.
pub proof fn broken_rules_have_their_messages(error: &PasskeyConfigError, message: String)
    requires
        call_ensures(PasskeyConfigError::message, (error,), message),
    ensures
        *error is InvalidSchema ==> message@ == "invalid owned PostgreSQL schema"@,
        *error is InvalidSecretReferences ==> message@
            == "database and receipt encryption require distinct valid secret references"@,
        *error is InvalidAuthAuthority ==> message@ == "invalid Auth assertion authority"@,
        *error is InvalidRelyingParty ==> message@ == "invalid WebAuthn relying party"@,
        *error is InvalidOrigin ==> message@ == "invalid exact WebAuthn origin"@,
        *error is InvalidAuthoritySet ==> message@
            == "invalid or duplicate caller/audience authority"@,
        *error is InvalidLimits ==> message@
            == "invalid challenge, session, receipt, or passkey limit"@,
{
}

/// A relying party has the configured identity, name, origins and timeout, each origin in its
/// place, and takes no subdomain or other port of them. There is one exactly where the origins are
/// exact.
pub proof fn relying_parties_are_as_configured(
    config: &PasskeyAuthConfig,
    r: Result<Webauthn, PasskeyConfigError>,
)
    requires
        call_ensures(PasskeyAuthConfig::webauthn, (config,), r),
    ensures
        r is Ok <==> has_exact_origins(*config),
        r matches Err(error) ==> error is InvalidOrigin,
        r matches Ok(webauthn) ==> {
            let party = relying_party(webauthn);
            &&& party.rp_id == config.rp_id@
            &&& party.rp_name == config.rp_name@
            &&& party.timeout_seconds == config.challenge_ttl_seconds
            &&& !party.allow_subdomains
            &&& !party.allow_any_port
            &&& party.origins.len() == config.allowed_origins.len()
            &&& forall|i: int|
                0 <= i < party.origins.len() ==> #[trigger] party.origins[i] == parsed_url(
                    config.allowed_origins@[i]@,
                )->0.text
        },
{
    origins_are_exact_one_by_one(*config);
    if let Ok(webauthn) = r {
        let party = relying_party(webauthn);
        assert forall|i: int| 0 <= i < party.origins.len() implies #[trigger] party.origins[i]
            == parsed_url(config.allowed_origins@[i]@)->0.text by {
            assert(config@.allowed_origins[i] == config.allowed_origins@[i]@);
        }
    }
}

/// Whether an active plugin works by a configuration and a receipt secret: every value as it is
/// configured, every entry of every list in its place, and the digest of the secret as the key of
/// its receipts.
pub open spec fn works_by(
    active: ActivePasskey,
    config: PasskeyAuthConfig,
    receipt_secret: Seq<u8>,
) -> bool {
    let view = active@.config;
    &&& active@.receipt_key == sha256(receipt_secret)
    &&& view.rp_id == config.rp_id@
    &&& view.rp_name == config.rp_name@
    &&& view.auth_issuer == config.auth_issuer@
    &&& view.auth_public_key == config.auth_public_key@
    &&& view.challenge_ttl_seconds == config.challenge_ttl_seconds
    &&& view.session_ttl_seconds == config.session_ttl_seconds
    &&& view.receipt_ttl_seconds == config.receipt_ttl_seconds
    &&& view.max_passkeys_per_subject == config.max_passkeys_per_subject
    &&& holds_each(view.allowed_origins, config.allowed_origins@)
    &&& holds_each(view.management_callers, config.management_callers@)
    &&& holds_each(view.authentication_callers, config.authentication_callers@)
    &&& holds_each(view.audience, config.audience@)
}

/// As many texts, each the same in its place.
pub open spec fn holds_each(values: Seq<Seq<char>>, strings: Seq<String>) -> bool {
    &&& values.len() == strings.len()
    &&& forall|i: int| 0 <= i < strings.len() ==> #[trigger] values[i] == strings[i]@
}

/// A plugin is active exactly by a configuration that keeps every rule, and works by its values and
/// the secret; otherwise the message of the first broken rule is told.
pub proof fn plugins_work_by_their_configuration(
    config: PasskeyAuthConfig,
    secret: &[u8],
    r: Result<ActivePasskey, Failure>,
)
    ensures
        call_requires(ActivePasskey::new, (config, secret)),
        call_ensures(ActivePasskey::new, (config, secret), r) ==> match r {
            Ok(active) => first_broken(config) is None && works_by(active, config, secret@),
            Err(failure) => {
                &&& first_broken(config) is Some
                &&& failure matches Failure::InvalidPlan(detail)
                &&& detail@ == first_broken(config)->0.text()
            },
        },
{
    rules_are_told_by_the_values(config);
}

/// What an active plugin hands out is what it works by.
pub proof fn plugins_hand_out_what_they_work_by(
    active: &ActivePasskey,
    seconds: u64,
    count: u32,
    audience: Vec<String>,
    webauthn: &Webauthn,
)
    ensures
        call_ensures(ActivePasskey::challenge_ttl_seconds, (active,), seconds) ==> seconds
            == active@.config.challenge_ttl_seconds,
        call_ensures(ActivePasskey::session_ttl_seconds, (active,), seconds) ==> seconds
            == active@.config.session_ttl_seconds,
        call_ensures(ActivePasskey::receipt_ttl_seconds, (active,), seconds) ==> seconds
            == active@.config.receipt_ttl_seconds,
        call_ensures(ActivePasskey::max_passkeys_per_subject, (active,), count) ==> count
            == active@.config.max_passkeys_per_subject,
        call_ensures(ActivePasskey::audience, (active,), audience) ==> holds_each(
            active@.config.audience,
            audience@,
        ),
        call_ensures(ActivePasskey::webauthn, (active,), webauthn) ==> {
            let party = relying_party(*webauthn);
            &&& party.rp_id == active@.config.rp_id
            &&& party.rp_name == active@.config.rp_name
            &&& party.timeout_seconds == active@.config.challenge_ttl_seconds
            &&& !party.allow_subdomains
            &&& !party.allow_any_port
            &&& party.origins.len() == active@.config.allowed_origins.len()
            &&& forall|i: int|
                0 <= i < party.origins.len() ==> #[trigger] party.origins[i] == parsed_url(
                    active@.config.allowed_origins[i],
                )->0.text
        },
{
    assert forall|i: int| 0 <= i < audience.len() implies #[trigger] texts(audience@)[i]
        == audience@[i]@ by {}
}

/// Whether a failure is that the configuration does not make a plan, in these words.
pub open spec fn is_refusal(failure: Failure, words: Seq<char>) -> bool {
    failure matches Failure::InvalidPlan(detail) && detail@ == words
}

/// An activation starts exactly by a configuration that keeps every rule. It resolves the reference
/// of the database first and that of the receipt secret then; takes a receipt secret of at least 32
/// bytes; prepares the configured schema with the database secret; and works by the configuration
/// and the receipt secret.
pub proof fn activations_use_each_secret_for_its_purpose(
    config: PasskeyAuthConfig,
    started: Result<(ResolvingDatabase, String), Failure>,
    database: ResolvingDatabase,
    receipt: ResolvingReceiptKey,
    preparing: Preparing,
    secret: Secret,
    next: Result<(ResolvingReceiptKey, String), Failure>,
    last: Result<(Preparing, Secret, SchemaPlan), Failure>,
    active: Result<ActivePasskey, Failure>,
    valid: Result<(), Failure>,
    error: String,
)
    ensures
        call_ensures(validate_config, (&config,), valid) ==> match valid {
            Ok(_) => first_broken(config) is None,
            Err(failure) => first_broken(config) is Some && is_refusal(
                failure,
                first_broken(config)->0.text(),
            ),
        },
        call_ensures(start, (config,), started) ==> match started {
            Ok((waiting, reference)) => first_broken(config) is None && waiting.config == config
                && reference@ == config.database_url_secret@,
            Err(failure) => first_broken(config) is Some && is_refusal(
                failure,
                first_broken(config)->0.text(),
            ),
        },
        call_ensures(ResolvingDatabase::resolved, (database, SecretReply::Value(secret)), next)
            ==> {
            &&& next matches Ok((waiting, reference))
            &&& waiting.config == database.config
            &&& waiting.database_url@ == secret@
            &&& reference@ == database.config.receipt_encryption_key_secret@
        },
        call_ensures(ResolvingDatabase::resolved, (database, SecretReply::Rejected), next) ==> next
            == Err::<(ResolvingReceiptKey, String), Failure>(Failure::DatabaseSecretRejected),
        call_ensures(ResolvingDatabase::resolved, (database, SecretReply::Unavailable), next)
            ==> next == Err::<(ResolvingReceiptKey, String), Failure>(Failure::Dependency),
        call_ensures(ResolvingReceiptKey::resolved, (receipt, SecretReply::Value(secret)), last)
            ==> match last {
            Ok((waiting, database_url, plan)) => {
                &&& encode_utf8(secret@).len() >= 32
                &&& can_be_owned(receipt.config.schema@)
                &&& waiting.config == receipt.config
                &&& waiting.receipt_secret@ == secret@
                &&& database_url@ == receipt.database_url@
                &&& plan == one_migration_plan(
                    receipt.config.schema@,
                    1,
                    "create-passkey-state"@,
                    MIGRATION_SQL@,
                )
            },
            Err(failure) => if encode_utf8(secret@).len() < 32 {
                failure == Failure::ReceiptSecretTooShort
            } else {
                !can_be_owned(receipt.config.schema@) && is_refusal(
                    failure,
                    "invalid owned schema name `"@ + receipt.config.schema@ + "`"@,
                )
            },
        },
        call_ensures(ResolvingReceiptKey::resolved, (receipt, SecretReply::Rejected), last) ==> last
            == Err::<(Preparing, Secret, SchemaPlan), Failure>(Failure::ReceiptSecretRejected),
        call_ensures(ResolvingReceiptKey::resolved, (receipt, SecretReply::Unavailable), last)
            ==> last == Err::<(Preparing, Secret, SchemaPlan), Failure>(Failure::Dependency),
        call_ensures(Preparing::prepared, (preparing, Ok(())), active) ==> match active {
            Ok(active) => first_broken(preparing.config) is None && works_by(
                active,
                preparing.config,
                encode_utf8(preparing.receipt_secret@),
            ),
            Err(failure) => first_broken(preparing.config) is Some && is_refusal(
                failure,
                first_broken(preparing.config)->0.text(),
            ),
        },
        call_ensures(Preparing::prepared, (preparing, Err(error)), active) ==> active == Err::<
            ActivePasskey,
            Failure,
        >(Failure::Preparation(error)),
{
    rules_are_told_by_the_values(config);
    rules_are_told_by_the_values(preparing.config);
    names_can_be_owned(receipt.config.schema@);
}

/// The origins are parsed all or not at all, each in its place.
pub proof fn origins_are_parsed_one_by_one(
    config: &PasskeyAuthConfig,
    r: Result<Vec<Url>, PasskeyConfigError>,
)
    ensures
        call_requires(PasskeyAuthConfig::parsed_origins, (config,)),
        call_ensures(PasskeyAuthConfig::parsed_origins, (config,), r) ==> match r {
            Ok(origins) => {
                &&& has_exact_origins(*config)
                &&& origins.len() == config.allowed_origins.len()
                &&& forall|i: int|
                    0 <= i < origins.len() ==> Some(url_view(#[trigger] origins@[i])) == parsed_url(
                        config.allowed_origins@[i]@,
                    )
            },
            Err(error) => error is InvalidOrigin && !has_exact_origins(*config),
        },
{
    origins_are_exact_one_by_one(*config);
    if let Ok(origins) = r {
        if call_ensures(PasskeyAuthConfig::parsed_origins, (config,), r) {
            assert forall|i: int| 0 <= i < origins.len() implies Some(
                url_view(#[trigger] origins@[i]),
            ) == parsed_url(config.allowed_origins@[i]@) by {
                assert(config@.allowed_origins[i] == config.allowed_origins@[i]@);
            }
        }
    }
}

/// A configuration is made of its values, each in its place, exactly where they keep every rule.
pub proof fn configurations_are_made_of_their_values(
    config: PasskeyAuthConfig,
    r: Result<PasskeyAuthConfig, PasskeyConfigError>,
)
    requires
        call_ensures(
            PasskeyAuthConfig::new,
            (
                config.schema,
                config.database_url_secret,
                config.receipt_encryption_key_secret,
                config.rp_id,
                config.rp_name,
                config.allowed_origins,
                config.auth_issuer,
                config.auth_public_key,
                config.management_callers,
                config.authentication_callers,
                config.audience,
                config.challenge_ttl_seconds,
                config.session_ttl_seconds,
                config.receipt_ttl_seconds,
                config.max_passkeys_per_subject,
            ),
            r,
        ),
    ensures
        match r {
            Ok(made) => made == config && first_broken(config) is None,
            Err(error) => first_broken(config) == Some(error),
        },
{
    rules_are_told_by_the_values(config);
}

} // verus!
