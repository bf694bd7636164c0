//! PBKDF2-HMAC-SHA256 key derivation, carried out by the host's cryptographic
//! provider.
//!
//! The provider is asynchronous and lives outside this library, so a derivation
//! is a small protocol: the library says what to ask of the provider next
//! ([`DeriveAction`]), the caller performs it and reports what happened
//! ([`ProviderEvent`]). [`derive`] states the outcome of a whole run.

use crate::error::{CryptoError, CryptoErrorView};
use crate::text::join2;
use vstd::prelude::*;
use vstd::slice::slice_to_vec;

verus! {

/// Request to import raw key material into the provider.
#[derive(Debug, PartialEq, Eq)]
pub struct KeyImport {
    pub format: String,
    pub key_data: Vec<u8>,
    pub algorithm: String,
    pub extractable: bool,
    pub usage: String,
}

/// Mathematical value of a [`KeyImport`].
pub struct KeyImportView {
    pub format: Seq<char>,
    pub key_data: Seq<u8>,
    pub algorithm: Seq<char>,
    pub extractable: bool,
    pub usage: Seq<char>,
}

impl View for KeyImport {
    type V = KeyImportView;

    open spec fn view(&self) -> KeyImportView {
        KeyImportView {
            format: self.format@,
            key_data: self.key_data@,
            algorithm: self.algorithm@,
            extractable: self.extractable,
            usage: self.usage@,
        }
    }
}

/// Request to derive bits from the imported key.
#[derive(Debug, PartialEq, Eq)]
pub struct BitDerivation {
    pub algorithm: String,
    pub hash: String,
    pub iterations: u32,
    pub salt: Vec<u8>,
    pub length_bits: u32,
}

/// Mathematical value of a [`BitDerivation`].
pub struct BitDerivationView {
    pub algorithm: Seq<char>,
    pub hash: Seq<char>,
    pub iterations: u32,
    pub salt: Seq<u8>,
    pub length_bits: u32,
}

impl View for BitDerivation {
    type V = BitDerivationView;

    open spec fn view(&self) -> BitDerivationView {
        BitDerivationView {
            algorithm: self.algorithm@,
            hash: self.hash@,
            iterations: self.iterations,
            salt: self.salt@,
            length_bits: self.length_bits,
        }
    }
}

/// What the caller has to do next.
#[derive(Debug, PartialEq, Eq)]
pub enum DeriveAction {
    /// Obtain the host's cryptographic provider.
    AcquireProvider,
    /// Import the key material, then report whether the provider took it.
    ImportKey(KeyImport),
    /// Derive bits from the key imported last, then report them.
    DeriveBits(BitDerivation),
    /// The derivation is over, with this outcome.
    Finish(Result<Vec<u8>, CryptoError>),
}

/// Mathematical value of a [`DeriveAction`].
pub enum DeriveActionView {
    AcquireProvider,
    ImportKey(KeyImportView),
    DeriveBits(BitDerivationView),
    Finish(Result<Seq<u8>, CryptoErrorView>),
}

/// Mathematical value of a derivation's outcome.
pub open spec fn outcome_view(outcome: Result<Vec<u8>, CryptoError>) -> Result<
    Seq<u8>,
    CryptoErrorView,
> {
    match outcome {
        Ok(key) => Ok(key@),
        Err(e) => Err(e@),
    }
}

impl View for DeriveAction {
    type V = DeriveActionView;

    open spec fn view(&self) -> DeriveActionView {
        match self {
            DeriveAction::AcquireProvider => DeriveActionView::AcquireProvider,
            DeriveAction::ImportKey(request) => DeriveActionView::ImportKey(request@),
            DeriveAction::DeriveBits(request) => DeriveActionView::DeriveBits(request@),
            DeriveAction::Finish(outcome) => DeriveActionView::Finish(outcome_view(*outcome)),
        }
    }
}

/// What the provider did with the last request.
#[derive(Debug, PartialEq, Eq)]
pub enum ProviderEvent {
    /// The provider was obtained.
    ProviderReady,
    /// The host has no provider to offer.
    ProviderMissing,
    /// The key material was imported.
    KeyImported,
    /// The provider refused the key material.
    ImportRejected(String),
    /// The provider derived these bytes.
    BitsDerived(Vec<u8>),
    /// The provider refused to derive.
    DerivationRejected(String),
}

/// Mathematical value of a [`ProviderEvent`].
pub enum ProviderEventView {
    ProviderReady,
    ProviderMissing,
    KeyImported,
    ImportRejected(Seq<char>),
    BitsDerived(Seq<u8>),
    DerivationRejected(Seq<char>),
}

impl View for ProviderEvent {
    type V = ProviderEventView;

    open spec fn view(&self) -> ProviderEventView {
        match self {
            ProviderEvent::ProviderReady => ProviderEventView::ProviderReady,
            ProviderEvent::ProviderMissing => ProviderEventView::ProviderMissing,
            ProviderEvent::KeyImported => ProviderEventView::KeyImported,
            ProviderEvent::ImportRejected(reason) => ProviderEventView::ImportRejected(reason@),
            ProviderEvent::BitsDerived(bytes) => ProviderEventView::BitsDerived(bytes@),
            ProviderEvent::DerivationRejected(reason) => ProviderEventView::DerivationRejected(
                reason@,
            ),
        }
    }
}

/// A derivation in progress. Each stage keeps only what later stages still
/// need: the password is gone once the import has been requested, the salt
/// once the derivation has been requested.
#[derive(Debug, PartialEq, Eq)]
pub enum Derivation {
    AwaitingProvider { password: Vec<u8>, salt: Vec<u8>, iterations: u32, key_length_bits: u32 },
    AwaitingKey { salt: Vec<u8>, iterations: u32, key_length_bits: u32 },
    AwaitingBits { key_length_bits: u32 },
    Finished,
}

/// Mathematical value of a [`Derivation`].
pub enum DerivationView {
    AwaitingProvider { password: Seq<u8>, salt: Seq<u8>, iterations: u32, key_length_bits: u32 },
    AwaitingKey { salt: Seq<u8>, iterations: u32, key_length_bits: u32 },
    AwaitingBits { key_length_bits: u32 },
    Finished,
}

impl View for Derivation {
    type V = DerivationView;

    open spec fn view(&self) -> DerivationView {
        match self {
            Derivation::AwaitingProvider { password, salt, iterations, key_length_bits } => {
                DerivationView::AwaitingProvider {
                    password: password@,
                    salt: salt@,
                    iterations: *iterations,
                    key_length_bits: *key_length_bits,
                }
            },
            Derivation::AwaitingKey { salt, iterations, key_length_bits } => {
                DerivationView::AwaitingKey {
                    salt: salt@,
                    iterations: *iterations,
                    key_length_bits: *key_length_bits,
                }
            },
            Derivation::AwaitingBits { key_length_bits } => DerivationView::AwaitingBits {
                key_length_bits: *key_length_bits,
            },
            Derivation::Finished => DerivationView::Finished,
        }
    }
}

/// The parameters a derivation accepts: at least one iteration, and a
/// positive key length of whole bytes.
pub open spec fn valid_parameters(iterations: u32, key_length_bits: u32) -> bool {
    iterations >= 1 && key_length_bits >= 8 && key_length_bits % 8 == 0
}

/// The import request for a password: raw material, for PBKDF2, not
/// extractable, usable for deriving bits only.
pub open spec fn key_import(password: Seq<u8>) -> KeyImportView {
    KeyImportView {
        format: "raw"@,
        key_data: password,
        algorithm: "PBKDF2"@,
        extractable: false,
        usage: "deriveBits"@,
    }
}

/// The derivation request: PBKDF2 with HMAC-SHA256 over the given salt.
pub open spec fn bit_derivation(salt: Seq<u8>, iterations: u32, key_length_bits: u32)
    -> BitDerivationView {
    BitDerivationView {
        algorithm: "PBKDF2"@,
        hash: "SHA-256"@,
        iterations,
        salt,
        length_bits: key_length_bits,
    }
}

/// A finished derivation with a failure.
pub open spec fn failed(e: CryptoErrorView) -> (DerivationView, DeriveActionView) {
    (DerivationView::Finished, DeriveActionView::Finish(Err(e)))
}

/// Error text for a key import that the provider refused.
pub open spec fn import_failure(reason: Seq<char>) -> Seq<char> {
    "PBKDF2 import_key failed: "@ + reason
}

/// Error text for a derivation that the provider refused.
pub open spec fn derivation_failure(reason: Seq<char>) -> Seq<char> {
    "PBKDF2 derive_bits failed: "@ + reason
}

/// Error text for derived bytes of another length than was asked for.
pub open spec fn wrong_length_failure() -> Seq<char> {
    "PBKDF2 derive_bits returned a key of the wrong length"@
}

/// Error text for an event that does not answer the last request.
pub open spec fn unexpected_event_failure() -> Seq<char> {
    "unexpected provider event"@
}

/// How a derivation starts: invalid parameters end it at once, otherwise the
/// provider is asked for.
pub open spec fn begin(password: Seq<u8>, salt: Seq<u8>, iterations: u32, key_length_bits: u32) -> (
    DerivationView,
    DeriveActionView,
) {
    if valid_parameters(iterations, key_length_bits) {
        (
            DerivationView::AwaitingProvider { password, salt, iterations, key_length_bits },
            DeriveActionView::AcquireProvider,
        )
    } else {
        failed(CryptoErrorView::InvalidParameters)
    }
}

/// How a derivation goes on after an event.
pub open spec fn next(state: DerivationView, event: ProviderEventView) -> (
    DerivationView,
    DeriveActionView,
) {
    match (state, event) {
        (
            DerivationView::AwaitingProvider { password, salt, iterations, key_length_bits },
            ProviderEventView::ProviderReady,
        ) => (
            DerivationView::AwaitingKey { salt, iterations, key_length_bits },
            DeriveActionView::ImportKey(key_import(password)),
        ),
        (DerivationView::AwaitingProvider { .. }, ProviderEventView::ProviderMissing) => failed(
            CryptoErrorView::ProviderUnavailable,
        ),
        (
            DerivationView::AwaitingKey { salt, iterations, key_length_bits },
            ProviderEventView::KeyImported,
        ) => (
            DerivationView::AwaitingBits { key_length_bits },
            DeriveActionView::DeriveBits(bit_derivation(salt, iterations, key_length_bits)),
        ),
        (DerivationView::AwaitingKey { .. }, ProviderEventView::ImportRejected(reason)) => failed(
            CryptoErrorView::OperationFailed(import_failure(reason)),
        ),
        (
            DerivationView::AwaitingBits { key_length_bits },
            ProviderEventView::BitsDerived(bytes),
        ) => {
            if bytes.len() * 8 == key_length_bits {
                (DerivationView::Finished, DeriveActionView::Finish(Ok(bytes)))
            } else {
                failed(CryptoErrorView::OperationFailed(wrong_length_failure()))
            }
        },
        (
            DerivationView::AwaitingBits { .. },
            ProviderEventView::DerivationRejected(reason),
        ) => failed(CryptoErrorView::OperationFailed(derivation_failure(reason))),
        _ => failed(CryptoErrorView::OperationFailed(unexpected_event_failure())),
    }
}

/// Ends a derivation with a failure.
fn fail(e: CryptoError) -> (r: (Derivation, DeriveAction))
    ensures
        (r.0@, r.1@) == failed(e@),
{
    (Derivation::Finished, DeriveAction::Finish(Err(e)))
}

/// Builds the import request for a password.
fn key_import_request(password: Vec<u8>) -> (request: KeyImport)
    ensures
        request@ == key_import(password@),
{
    KeyImport {
        format: String::from_str("raw"),
        key_data: password,
        algorithm: String::from_str("PBKDF2"),
        extractable: false,
        usage: String::from_str("deriveBits"),
    }
}

/// Builds the derivation request for a salt and an iteration count.
fn bit_derivation_request(salt: Vec<u8>, iterations: u32, key_length_bits: u32) -> (request:
    BitDerivation)
    ensures
        request@ == bit_derivation(salt@, iterations, key_length_bits),
{
    BitDerivation {
        algorithm: String::from_str("PBKDF2"),
        hash: String::from_str("SHA-256"),
        iterations,
        salt,
        length_bits: key_length_bits,
    }
}

/// Starts the derivation of a key of `key_length_bits` bits from a password
/// and a salt. Parameters that are not valid end it at once with
/// `InvalidParameters`; otherwise the provider is to be acquired and the
/// derivation goes on with [`Derivation::step`].
pub fn pbkdf2_sha256(password: &[u8], salt: &[u8], iterations: u32, key_length_bits: u32) -> (r: (
    Derivation,
    DeriveAction,
))
    ensures
        (r.0@, r.1@) == begin(password@, salt@, iterations, key_length_bits),
{
    if iterations >= 1 && key_length_bits >= 8 && key_length_bits % 8 == 0 {
        (
            Derivation::AwaitingProvider {
                password: slice_to_vec(password),
                salt: slice_to_vec(salt),
                iterations,
                key_length_bits,
            },
            DeriveAction::AcquireProvider,
        )
    } else {
        fail(CryptoError::InvalidParameters)
    }
}

impl Derivation {
    /// Takes the provider's answer to the last request and says what to do
    /// next.
    pub fn step(self, event: ProviderEvent) -> (r: (Derivation, DeriveAction))
        ensures
            (r.0@, r.1@) == next(self@, event@),
    {
        match (self, event) {
            (
                Derivation::AwaitingProvider { password, salt, iterations, key_length_bits },
                ProviderEvent::ProviderReady,
            ) => (
                Derivation::AwaitingKey { salt, iterations, key_length_bits },
                DeriveAction::ImportKey(key_import_request(password)),
            ),
            (Derivation::AwaitingProvider { .. }, ProviderEvent::ProviderMissing) => fail(
                CryptoError::ProviderUnavailable,
            ),
            (
                Derivation::AwaitingKey { salt, iterations, key_length_bits },
                ProviderEvent::KeyImported,
            ) => (
                Derivation::AwaitingBits { key_length_bits },
                DeriveAction::DeriveBits(bit_derivation_request(salt, iterations, key_length_bits)),
            ),
            (Derivation::AwaitingKey { .. }, ProviderEvent::ImportRejected(reason)) => fail(
                CryptoError::OperationFailed(join2("PBKDF2 import_key failed: ", reason.as_str())),
            ),
            (Derivation::AwaitingBits { key_length_bits }, ProviderEvent::BitsDerived(bytes)) => {
                if key_length_bits % 8 == 0 && bytes.len() == (key_length_bits / 8) as usize {
                    (Derivation::Finished, DeriveAction::Finish(Ok(bytes)))
                } else {
                    fail(
                        CryptoError::OperationFailed(
                            String::from_str(
                                "PBKDF2 derive_bits returned a key of the wrong length",
                            ),
                        ),
                    )
                }
            },
            (Derivation::AwaitingBits { .. }, ProviderEvent::DerivationRejected(reason)) => fail(
                CryptoError::OperationFailed(join2("PBKDF2 derive_bits failed: ", reason.as_str())),
            ),
            _ => fail(CryptoError::OperationFailed(String::from_str("unexpected provider event"))),
        }
    }
}

/// Starts the derivation of the verification hash of a master key: one
/// iteration, 256 bits, with the master key as the password and the master
/// password as the salt.
pub fn hash_master_key(master_key: &[u8], master_password: &[u8]) -> (r: (
    Derivation,
    DeriveAction,
))
    ensures
        (r.0@, r.1@) == begin(master_key@, master_password@, 1, 256),
        r.1@ == DeriveActionView::AcquireProvider,
{
    pbkdf2_sha256(master_key, master_password, 1, 256)
}

/// A provider as the derivation sees it: whether the host offers one, what
/// it says to an import request, and what it derives from an imported key.
pub struct Provider {
    pub available: bool,
    pub import: spec_fn(KeyImportView) -> Result<(), Seq<char>>,
    pub derive: spec_fn(KeyImportView, BitDerivationView) -> Result<Seq<u8>, Seq<char>>,
}

/// The key derived from a password and a salt with a given provider, or the
/// reason why there is none.
pub open spec fn derive(
    password: Seq<u8>,
    salt: Seq<u8>,
    iterations: u32,
    key_length_bits: u32,
    provider: Provider,
) -> Result<Seq<u8>, CryptoErrorView> {
    let key = key_import(password);
    if !valid_parameters(iterations, key_length_bits) {
        Err(CryptoErrorView::InvalidParameters)
    } else if !provider.available {
        Err(CryptoErrorView::ProviderUnavailable)
    } else {
        match (provider.import)(key) {
            Err(reason) => Err(CryptoErrorView::OperationFailed(import_failure(reason))),
            Ok(_) => match (provider.derive)(
                key,
                bit_derivation(salt, iterations, key_length_bits),
            ) {
                Err(reason) => Err(CryptoErrorView::OperationFailed(derivation_failure(reason))),
                Ok(bytes) => if bytes.len() * 8 == key_length_bits {
                    Ok(bytes)
                } else {
                    Err(CryptoErrorView::OperationFailed(wrong_length_failure()))
                },
            },
        }
    }
}

/// The verification hash of a master key with a given provider.
pub open spec fn master_key_hash(
    master_key: Seq<u8>,
    master_password: Seq<u8>,
    provider: Provider,
) -> Result<Seq<u8>, CryptoErrorView> {
    derive(master_key, master_password, 1, 256, provider)
}

/// The event with which a provider answers a request; `key` is the key
/// material it has imported so far.
pub open spec fn answer(action: DeriveActionView, provider: Provider, key: Option<KeyImportView>)
    -> ProviderEventView {
    match action {
        DeriveActionView::ImportKey(request) => match (provider.import)(request) {
            Ok(_) => ProviderEventView::KeyImported,
            Err(reason) => ProviderEventView::ImportRejected(reason),
        },
        DeriveActionView::DeriveBits(request) => match key {
            Some(key) => match (provider.derive)(key, request) {
                Ok(bytes) => ProviderEventView::BitsDerived(bytes),
                Err(reason) => ProviderEventView::DerivationRejected(reason),
            },
            None => ProviderEventView::ProviderMissing,
        },
        _ => if provider.available {
            ProviderEventView::ProviderReady
        } else {
            ProviderEventView::ProviderMissing
        },
    }
}

/// The key material a provider holds after answering a request.
pub open spec fn imported(action: DeriveActionView, provider: Provider, key: Option<KeyImportView>)
    -> Option<KeyImportView> {
    match action {
        DeriveActionView::ImportKey(request) => if (provider.import)(request) is Ok {
            Some(request)
        } else {
            key
        },
        _ => key,
    }
}

/// The outcome of carrying a derivation on against a provider for at most
/// `rounds` requests; `None` if it is not over by then.
pub open spec fn run(
    state: DerivationView,
    action: DeriveActionView,
    provider: Provider,
    key: Option<KeyImportView>,
    rounds: nat,
) -> Option<Result<Seq<u8>, CryptoErrorView>>
    decreases rounds,
{
    match action {
        DeriveActionView::Finish(outcome) => Some(outcome),
        _ => if rounds == 0 {
            None
        } else {
            let following = next(state, answer(action, provider, key));
            run(
                following.0,
                following.1,
                provider,
                imported(action, provider, key),
                (rounds - 1) as nat,
            )
        },
    }
}

/// Carrying out the requests of a derivation against a provider, one after
/// the other, ends within three requests, and with the outcome that
/// [`derive`] states.
pub proof fn lemma_run_yields_derive(
    password: Seq<u8>,
    salt: Seq<u8>,
    iterations: u32,
    key_length_bits: u32,
    provider: Provider,
)
    ensures
        run(
            begin(password, salt, iterations, key_length_bits).0,
            begin(password, salt, iterations, key_length_bits).1,
            provider,
            None,
            3,
        ) == Some(derive(password, salt, iterations, key_length_bits, provider)),
{
    reveal_with_fuel(run, 4);
}

/// Deriving twice from the same password, salt, iteration count and length
/// with the same provider gives the same outcome, byte for byte.
pub proof fn lemma_derivation_is_deterministic(
    password: Seq<u8>,
    salt: Seq<u8>,
    iterations: u32,
    key_length_bits: u32,
    provider: Provider,
    other_password: Seq<u8>,
    other_salt: Seq<u8>,
    other_iterations: u32,
    other_key_length_bits: u32,
)
    requires
        password == other_password,
        salt == other_salt,
        iterations == other_iterations,
        key_length_bits == other_key_length_bits,
    ensures
        derive(password, salt, iterations, key_length_bits, provider) == derive(
            other_password,
            other_salt,
            other_iterations,
            other_key_length_bits,
            provider,
        ),
        begin(password, salt, iterations, key_length_bits) == begin(
            other_password,
            other_salt,
            other_iterations,
            other_key_length_bits,
        ),
{
}

/// A derived key has exactly `key_length_bits / 8` bytes, and a length that
/// is not a multiple of eight is refused as `InvalidParameters`, whatever the
/// provider would have done.
pub proof fn lemma_derived_key_length(
    password: Seq<u8>,
    salt: Seq<u8>,
    iterations: u32,
    key_length_bits: u32,
    provider: Provider,
)
    ensures
        derive(password, salt, iterations, key_length_bits, provider) matches Ok(key)
            ==> key.len() == key_length_bits / 8 && key_length_bits % 8 == 0,
        key_length_bits % 8 != 0 ==> derive(password, salt, iterations, key_length_bits, provider)
            == Err::<Seq<u8>, CryptoErrorView>(CryptoErrorView::InvalidParameters),
{
}

/// The requests of a derivation carry its password, salt, iteration count
/// and length unchanged: two derivations that hand the provider the same
/// import request and the same derivation request were started with the same
/// four values.
pub proof fn lemma_requests_tell_inputs_apart(
    password: Seq<u8>,
    salt: Seq<u8>,
    iterations: u32,
    key_length_bits: u32,
    other_password: Seq<u8>,
    other_salt: Seq<u8>,
    other_iterations: u32,
    other_key_length_bits: u32,
)
    requires
        key_import(password) == key_import(other_password),
        bit_derivation(salt, iterations, key_length_bits) == bit_derivation(
            other_salt,
            other_iterations,
            other_key_length_bits,
        ),
    ensures
        password == other_password,
        salt == other_salt,
        iterations == other_iterations,
        key_length_bits == other_key_length_bits,
{
}

/// The verification hash of a master key is the key derived from it with
/// one iteration and 256 bits, the master password serving as the salt; it
/// is never refused for its parameters.
pub proof fn lemma_hash_is_single_iteration_derivation(
    master_key: Seq<u8>,
    master_password: Seq<u8>,
    provider: Provider,
)
    ensures
        master_key_hash(master_key, master_password, provider) == derive(
            master_key,
            master_password,
            1,
            256,
            provider,
        ),
        run(
            begin(master_key, master_password, 1, 256).0,
            begin(master_key, master_password, 1, 256).1,
            provider,
            None,
            3,
        ) == Some(master_key_hash(master_key, master_password, provider)),
        master_key_hash(master_key, master_password, provider) != Err::<Seq<u8>, CryptoErrorView>(
            CryptoErrorView::InvalidParameters,
        ),
{
    lemma_run_yields_derive(master_key, master_password, 1, 256, provider);
}

} // verus!
