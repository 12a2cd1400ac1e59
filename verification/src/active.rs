//! The plugin while it is active: its configuration with what was made of it.

use lenso_auth_sdk::ActorAssertionVerifier;
use lenso_kernel::InvocationContext;
use vstd::prelude::*;
use webauthn_rs::prelude::Webauthn;

use crate::authority::{
    admitted_caller, admitted_manager, allowed_caller, assertion_verifier, managing_caller,
    verifier_from_public_key,
};
use crate::ceremony::{relying_party, texts};
use crate::config::{ConfigView, PasskeyAuthConfig};
use crate::failure::Failure;
use crate::instant::Timestamp;
use crate::origin::optional;
use crate::receipt::{sha256, ReceiptCipher};

verus! {

/// What an active plugin works with.
pub struct ActivePasskey {
    config: PasskeyAuthConfig,
    webauthn: Webauthn,
    actor_verifier: ActorAssertionVerifier,
    receipt_cipher: ReceiptCipher,
}

/// What an active plugin is determined by: a configuration that keeps the rules, and the key of
/// its receipts.
#[verifier::ext_equal]
pub struct ActiveView {
    pub config: ConfigView,
    pub receipt_key: Seq<u8>,
}

impl ActiveView {
    /// The verifier of the configured Auth authority.
    pub open spec fn actor_verifier(self) -> ActorAssertionVerifier {
        assertion_verifier(self.config.auth_issuer, self.config.auth_public_key)->0
    }

    /// Who calls a management operation on a subject, if they may.
    pub open spec fn manager(
        self,
        context: InvocationContext,
        operation: Seq<char>,
        subject: Seq<char>,
        now: Timestamp,
    ) -> Option<Seq<char>> {
        admitted_manager(
            self.config.management_callers,
            self.actor_verifier(),
            context,
            operation,
            subject,
            now.unix_nanos as int,
        )
    }

    /// Who calls an authentication operation, if they may.
    pub open spec fn ingress(self, context: InvocationContext) -> Option<Seq<char>> {
        admitted_caller(self.config.authentication_callers, context)
    }
}

impl View for ActivePasskey {
    type V = ActiveView;

    closed spec fn view(&self) -> ActiveView {
        ActiveView { config: self.config@, receipt_key: self.receipt_cipher.key() }
    }
}

impl ActivePasskey {
    #[verifier::type_invariant]
    spec fn agrees_with_configuration(self) -> bool {
        &&& self.config@.broken_rule() is None
        &&& relying_party(self.webauthn) == self.config@.relying_party()
        &&& assertion_verifier(self.config@.auth_issuer, self.config@.auth_public_key) == Some(
            self.actor_verifier,
        )
    }

    /// The plugin that a configuration and a receipt secret make; refused where the
    /// configuration breaks a rule, with that rule's message.
    pub fn new(config: PasskeyAuthConfig, receipt_secret: &[u8]) -> (r: Result<
        ActivePasskey,
        Failure,
    >)
        ensures
            match (config@.broken_rule(), r) {
                (None, Ok(active)) => active@ == (ActiveView {
                    config: config@,
                    receipt_key: sha256(receipt_secret@),
                }),
                (Some(error), Err(Failure::InvalidPlan(detail))) => detail@ == error.text(),
                _ => false,
            },
    {
        match config.validate() {
            Ok(_) => {},
            Err(error) => return Err(Failure::InvalidPlan(error.message())),
        }
        let webauthn = match config.webauthn() {
            Ok(webauthn) => webauthn,
            Err(error) => return Err(Failure::InvalidPlan(error.message())),
        };
        let actor_verifier = match verifier_from_public_key(
            config.auth_issuer.as_str(),
            config.auth_public_key.as_str(),
        ) {
            Some(actor_verifier) => actor_verifier,
            None => return Err(
                Failure::InvalidPlan("invalid passkey Auth verification key".to_owned()),
            ),
        };
        let receipt_cipher = ReceiptCipher::derive(receipt_secret);
        Ok(ActivePasskey { config, webauthn, actor_verifier, receipt_cipher })
    }

    pub fn challenge_ttl_seconds(&self) -> (r: u64)
        ensures
            r == self@.config.challenge_ttl_seconds,
            60 <= r <= 900,
    {
        proof {
            use_type_invariant(self);
        }
        self.config.challenge_ttl_seconds
    }

    pub fn session_ttl_seconds(&self) -> (r: u64)
        ensures
            r == self@.config.session_ttl_seconds,
            1 <= r <= 2_592_000,
    {
        proof {
            use_type_invariant(self);
        }
        self.config.session_ttl_seconds
    }

    pub fn receipt_ttl_seconds(&self) -> (r: u64)
        ensures
            r == self@.config.receipt_ttl_seconds,
            300 <= r <= 604_800,
    {
        proof {
            use_type_invariant(self);
        }
        self.config.receipt_ttl_seconds
    }

    pub fn max_passkeys_per_subject(&self) -> (r: u32)
        ensures
            r == self@.config.max_passkeys_per_subject,
            1 <= r <= 64,
    {
        proof {
            use_type_invariant(self);
        }
        self.config.max_passkeys_per_subject
    }

    /// A copy of the audience of issued sessions.
    pub fn audience(&self) -> (r: Vec<String>)
        ensures
            texts(r@) == self@.config.audience,
    {
        let mut audience: Vec<String> = Vec::new();
        let mut i: usize = 0;
        while i < self.config.audience.len()
            invariant
                i <= self.config.audience.len(),
                audience@ == self.config.audience@.subrange(0, i as int),
            decreases self.config.audience.len() - i,
        {
            audience.push(self.config.audience[i].clone());
            i = i + 1;
            assert(audience@ =~= self.config.audience@.subrange(0, i as int));
        }
        assert(audience@ =~= self.config.audience@);
        audience
    }

    /// The configured relying party.
    pub fn webauthn(&self) -> (r: &Webauthn)
        ensures
            relying_party(*r) == self@.config.relying_party(),
            relying_party(*r).timeout_seconds <= 900,
    {
        proof {
            use_type_invariant(self);
        }
        &self.webauthn
    }

    /// The cipher of the receipts.
    pub fn receipt_cipher(&self) -> (r: &ReceiptCipher)
        ensures
            r.key() == self@.receipt_key,
    {
        &self.receipt_cipher
    }

    /// Who calls a management operation on `subject`, if they may.
    pub fn management_caller(
        &self,
        context: &InvocationContext,
        operation: &str,
        subject: &str,
        now: Timestamp,
    ) -> (r: Option<String>)
        requires
            now.reaches(0),
        ensures
            optional(r) == self@.manager(*context, operation@, subject@, now),
    {
        proof {
            use_type_invariant(self);
        }
        managing_caller(
            &self.config.management_callers,
            &self.actor_verifier,
            context,
            operation,
            subject,
            now,
        )
    }

    /// Who calls an authentication operation, if they may.
    pub fn authentication_caller(&self, context: &InvocationContext) -> (r: Option<String>)
        ensures
            optional(r) == self@.ingress(*context),
    {
        allowed_caller(&self.config.authentication_callers, context)
    }
}

} // verus!
