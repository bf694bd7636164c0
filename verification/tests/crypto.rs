use sha2::Sha256;
use warden_vault::crypto::{
    hash_master_key, pbkdf2_sha256, BitDerivation, Derivation, DeriveAction, KeyImport,
    ProviderEvent,
};
use warden_vault::error::{AppError, CryptoError};

/// A host provider that does what a WebCrypto provider does with the two
/// requests, computed with a PBKDF2 implementation of its own.
struct Host {
    key: Option<Vec<u8>>,
}

impl Host {
    fn answer(&mut self, action: &DeriveAction) -> ProviderEvent {
        match action {
            DeriveAction::AcquireProvider => ProviderEvent::ProviderReady,
            DeriveAction::ImportKey(request) => {
                assert_eq!(request.format, "raw");
                assert_eq!(request.algorithm, "PBKDF2");
                assert!(!request.extractable);
                assert_eq!(request.usage, "deriveBits");
                self.key = Some(request.key_data.clone());
                ProviderEvent::KeyImported
            }
            DeriveAction::DeriveBits(request) => {
                assert_eq!(request.algorithm, "PBKDF2");
                assert_eq!(request.hash, "SHA-256");
                let key = self.key.clone().unwrap();
                let mut out = vec![0u8; (request.length_bits / 8) as usize];
                pbkdf2::pbkdf2_hmac::<Sha256>(&key, &request.salt, request.iterations, &mut out);
                ProviderEvent::BitsDerived(out)
            }
            DeriveAction::Finish(_) => unreachable!(),
        }
    }
}

fn run(start: (Derivation, DeriveAction)) -> Result<Vec<u8>, CryptoError> {
    let mut host = Host { key: None };
    let (mut state, mut action) = start;
    for _ in 0..4 {
        if let DeriveAction::Finish(outcome) = action {
            assert_eq!(state, Derivation::Finished);
            return outcome;
        }
        let event = host.answer(&action);
        let following = state.step(event);
        state = following.0;
        action = following.1;
    }
    panic!("the derivation did not end");
}

fn derive(password: &[u8], salt: &[u8], iterations: u32, bits: u32) -> Result<Vec<u8>, CryptoError> {
    run(pbkdf2_sha256(password, salt, iterations, bits))
}

fn hex(bytes: &[u8]) -> String {
    let mut text = String::new();
    for b in bytes {
        text.push_str(&format!("{:02x}", b));
    }
    text
}

#[test]
fn derive_known_vectors() {
    assert_eq!(
        hex(&derive(b"password", b"salt", 1, 256).unwrap()),
        "120fb6cffcf8b32c43e7225256c4f837a86548c92ccc35480805987cb70be17b"
    );
    assert_eq!(
        hex(&derive(b"password", b"salt", 2, 256).unwrap()),
        "ae4d0c95af6b46d32d0adff928f06dd02a303f8ef3c251dfd6e2d85a95474c43"
    );
    assert_eq!(
        hex(&derive(b"password", b"salt", 4096, 256).unwrap()),
        "c5e478d59288c841aa530db6845c4c8d962893a001ce4e11a4963873aa98134a"
    );
    assert_eq!(
        hex(&derive(b"passwd", b"salt", 1, 512).unwrap()),
        "55ac046e56e3089fec1691c22544b605f94185216dde0465e68b9d57c20dacbc49ca9cccf179b645991664b39d77ef317c71b845b1e30bd509112041d3a19783"
    );
}

#[test]
fn derive_is_deterministic() {
    let first = derive(b"correct horse", b"0123456789abcdef", 1000, 256).unwrap();
    let second = derive(b"correct horse", b"0123456789abcdef", 1000, 256).unwrap();
    assert_eq!(first, second);
    assert_eq!(
        pbkdf2_sha256(b"correct horse", b"0123456789abcdef", 1000, 256),
        pbkdf2_sha256(b"correct horse", b"0123456789abcdef", 1000, 256)
    );
}

#[test]
fn derive_output_length_is_bits_over_eight() {
    for bits in [8u32, 64, 128, 256, 264, 512, 1024] {
        let key = derive(b"password", b"salt", 3, bits).unwrap();
        assert_eq!(key.len(), (bits / 8) as usize);
    }
}

#[test]
fn derive_rejects_length_not_multiple_of_eight() {
    for bits in [1u32, 7, 9, 100, 255, 257, u32::MAX] {
        assert_eq!(derive(b"password", b"salt", 1, bits), Err(CryptoError::InvalidParameters));
        let (state, action) = pbkdf2_sha256(b"password", b"salt", 1, bits);
        assert_eq!(state, Derivation::Finished);
        assert_eq!(action, DeriveAction::Finish(Err(CryptoError::InvalidParameters)));
    }
}

#[test]
fn derive_rejects_zero_length_and_zero_iterations() {
    assert_eq!(derive(b"password", b"salt", 1, 0), Err(CryptoError::InvalidParameters));
    assert_eq!(derive(b"password", b"salt", 0, 256), Err(CryptoError::InvalidParameters));
    assert_eq!(derive(b"password", b"salt", 0, 0), Err(CryptoError::InvalidParameters));
}

#[test]
fn derive_accepts_largest_whole_byte_length_as_parameters() {
    let (state, action) = pbkdf2_sha256(b"p", b"s", u32::MAX, 0xffff_fff8);
    assert_eq!(action, DeriveAction::AcquireProvider);
    assert_eq!(
        state,
        Derivation::AwaitingProvider {
            password: b"p".to_vec(),
            salt: b"s".to_vec(),
            iterations: u32::MAX,
            key_length_bits: 0xffff_fff8,
        }
    );
}

#[test]
fn derive_changes_with_password_salt_and_iterations() {
    let base = derive(b"password", b"salt", 1, 256).unwrap();
    assert_ne!(base, derive(b"passwore", b"salt", 1, 256).unwrap());
    assert_ne!(base, derive(b"password", b"salu", 1, 256).unwrap());
    assert_ne!(base, derive(b"password", b"salt", 2, 256).unwrap());
    assert_ne!(base, derive(b"salt", b"password", 1, 256).unwrap());
    assert_eq!(
        hex(&derive(b"salt", b"password", 1, 256).unwrap()),
        "dbdc3a39c56da035d4e187f540ccdb7eccafdb916707887b4fde95c6dbb9c720"
    );
}

#[test]
fn hash_master_key_is_one_iteration_of_256_bits() {
    let samples: [(&[u8], &[u8]); 4] = [
        (b"password", b"salt"),
        (b"\x00\x01\x02\x03", b"master password"),
        (b"", b""),
        (b"k", b"a much longer master password than the key itself"),
    ];
    for (key, password) in samples {
        assert_eq!(hash_master_key(key, password), pbkdf2_sha256(key, password, 1, 256));
        let hash = run(hash_master_key(key, password)).unwrap();
        assert_eq!(hash, derive(key, password, 1, 256).unwrap());
        assert_eq!(hash.len(), 32);
    }
    assert_eq!(
        hex(&run(hash_master_key(b"password", b"salt")).unwrap()),
        "120fb6cffcf8b32c43e7225256c4f837a86548c92ccc35480805987cb70be17b"
    );
}

#[test]
fn derivation_asks_for_provider_then_import_then_bits() {
    let (state, action) = pbkdf2_sha256(b"pw", b"na", 7, 128);
    assert_eq!(action, DeriveAction::AcquireProvider);
    let (state, action) = state.step(ProviderEvent::ProviderReady);
    assert_eq!(
        action,
        DeriveAction::ImportKey(KeyImport {
            format: "raw".to_string(),
            key_data: b"pw".to_vec(),
            algorithm: "PBKDF2".to_string(),
            extractable: false,
            usage: "deriveBits".to_string(),
        })
    );
    assert_eq!(
        state,
        Derivation::AwaitingKey { salt: b"na".to_vec(), iterations: 7, key_length_bits: 128 }
    );
    let (state, action) = state.step(ProviderEvent::KeyImported);
    assert_eq!(
        action,
        DeriveAction::DeriveBits(BitDerivation {
            algorithm: "PBKDF2".to_string(),
            hash: "SHA-256".to_string(),
            iterations: 7,
            salt: b"na".to_vec(),
            length_bits: 128,
        })
    );
    assert_eq!(state, Derivation::AwaitingBits { key_length_bits: 128 });
    let bytes: Vec<u8> = (0u8..16).collect();
    let (state, action) = state.step(ProviderEvent::BitsDerived(bytes.clone()));
    assert_eq!(state, Derivation::Finished);
    assert_eq!(action, DeriveAction::Finish(Ok(bytes)));
}

#[test]
fn missing_provider_is_provider_unavailable() {
    let (state, _) = pbkdf2_sha256(b"pw", b"salt", 1, 256);
    let (state, action) = state.step(ProviderEvent::ProviderMissing);
    assert_eq!(state, Derivation::Finished);
    assert_eq!(action, DeriveAction::Finish(Err(CryptoError::ProviderUnavailable)));
}

#[test]
fn rejected_import_is_operation_failed() {
    let (state, _) = pbkdf2_sha256(b"pw", b"salt", 1, 256);
    let (state, _) = state.step(ProviderEvent::ProviderReady);
    let (state, action) = state.step(ProviderEvent::ImportRejected("NotSupportedError".to_string()));
    assert_eq!(state, Derivation::Finished);
    assert_eq!(
        action,
        DeriveAction::Finish(Err(CryptoError::OperationFailed(
            "PBKDF2 import_key failed: NotSupportedError".to_string()
        )))
    );
}

#[test]
fn rejected_derivation_is_operation_failed() {
    let (state, _) = pbkdf2_sha256(b"pw", b"salt", 1, 256);
    let (state, _) = state.step(ProviderEvent::ProviderReady);
    let (state, _) = state.step(ProviderEvent::KeyImported);
    let (state, action) = state.step(ProviderEvent::DerivationRejected("OperationError".to_string()));
    assert_eq!(state, Derivation::Finished);
    assert_eq!(
        action,
        DeriveAction::Finish(Err(CryptoError::OperationFailed(
            "PBKDF2 derive_bits failed: OperationError".to_string()
        )))
    );
}

#[test]
fn bytes_of_another_length_are_refused() {
    for length in [0usize, 31, 33, 64] {
        let (state, _) = pbkdf2_sha256(b"pw", b"salt", 1, 256);
        let (state, _) = state.step(ProviderEvent::ProviderReady);
        let (state, _) = state.step(ProviderEvent::KeyImported);
        let (state, action) = state.step(ProviderEvent::BitsDerived(vec![7u8; length]));
        assert_eq!(state, Derivation::Finished);
        assert_eq!(
            action,
            DeriveAction::Finish(Err(CryptoError::OperationFailed(
                "PBKDF2 derive_bits returned a key of the wrong length".to_string()
            )))
        );
    }
}

#[test]
fn event_out_of_turn_ends_the_derivation() {
    let unexpected =
        DeriveAction::Finish(Err(CryptoError::OperationFailed("unexpected provider event".to_string())));
    let (state, _) = pbkdf2_sha256(b"pw", b"salt", 1, 256);
    assert_eq!(state.step(ProviderEvent::KeyImported), (Derivation::Finished, unexpected));
    let unexpected =
        DeriveAction::Finish(Err(CryptoError::OperationFailed("unexpected provider event".to_string())));
    let (state, _) = pbkdf2_sha256(b"pw", b"salt", 1, 256);
    let (state, _) = state.step(ProviderEvent::ProviderReady);
    assert_eq!(
        state.step(ProviderEvent::BitsDerived(vec![0u8; 32])),
        (Derivation::Finished, unexpected)
    );
    let unexpected =
        DeriveAction::Finish(Err(CryptoError::OperationFailed("unexpected provider event".to_string())));
    assert_eq!(Derivation::Finished.step(ProviderEvent::ProviderReady), (Derivation::Finished, unexpected));
}

#[test]
fn crypto_error_messages() {
    assert_eq!(CryptoError::InvalidParameters.message(), "Invalid key derivation parameters");
    assert_eq!(CryptoError::ProviderUnavailable.message(), "No cryptographic provider available");
    assert_eq!(CryptoError::OperationFailed("why".to_string()).message(), "why");
    assert_eq!(
        AppError::from_crypto(&CryptoError::OperationFailed("why".to_string())),
        AppError::Crypto("why".to_string())
    );
    assert_eq!(
        AppError::from_crypto(&CryptoError::InvalidParameters),
        AppError::Crypto("Invalid key derivation parameters".to_string())
    );
}
