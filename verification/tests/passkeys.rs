use listo_rs::auth::Status;
use listo_rs::flows::{CeremonyAction, PasskeyRegistrationAction};
use listo_rs::i18n::is_language_excluded;
use listo_rs::passkeys::{
    finish_authentication_ceremony, finish_registration_ceremony, fresh_passkey_id, start_registration_ceremony,
    PasskeyService,
};
use listo_rs::text::starts_with;
use listo_rs::users::{uuid_to_string, User};
use webauthn_rs::prelude::{PublicKeyCredential, RegisterPublicKeyCredential, Url};

fn webauthn() -> PasskeyService {
    let origin = Url::parse("http://localhost:3000").unwrap();
    PasskeyService::new("localhost", &origin, "Listor RS").unwrap()
}

fn bogus_registration() -> RegisterPublicKeyCredential {
    serde_json::from_str(
        r#"{"id":"AA","rawId":"AA","response":{"attestationObject":"AA","clientDataJSON":"AA"},"type":"public-key"}"#,
    )
    .unwrap()
}

fn bogus_assertion() -> PublicKeyCredential {
    serde_json::from_str(
        r#"{"id":"AA","rawId":"AA","response":{"authenticatorData":"AA","clientDataJSON":"AA","signature":"AA","userHandle":null},"type":"public-key"}"#,
    )
    .unwrap()
}

#[test]
fn registration_challenge_names_the_user() {
    let w = webauthn();
    let uuid: u128 = 0x0123456789abcdef0123456789abcdef;
    let (next, challenge) = start_registration_ceremony(&w, 7, uuid, "a@b.co");
    assert_eq!(next, PasskeyRegistrationAction::SendChallenge(7));
    let challenge = challenge.unwrap();
    assert_eq!(challenge.user_id, uuid.to_be_bytes().to_vec());
    assert_eq!(challenge.user_name, "a@b.co");
    assert_eq!(challenge.display_name, "a@b.co");
    let (next, challenge) = start_registration_ceremony(&w, 7, uuid, "");
    assert_eq!(next, PasskeyRegistrationAction::Respond(Status::BadRequest));
    assert!(challenge.is_none());
}

#[test]
fn registration_is_finished_only_for_accepted_answers() {
    let w = webauthn();
    let reg = bogus_registration();
    let (next, key) = finish_registration_ceremony(&w, None, None, &reg);
    assert_eq!(next, CeremonyAction::Respond(Status::BadRequest));
    assert!(key.is_none());
    let (next, key) = finish_registration_ceremony(&w, Some(3), None, &reg);
    assert_eq!(next, CeremonyAction::Respond(Status::BadRequest));
    assert!(key.is_none());
    let pending = start_registration_ceremony(&w, 3, fresh_passkey_id(), "a@b.co").1.unwrap().state;
    let (next, key) = finish_registration_ceremony(&w, Some(3), Some(pending), &reg);
    assert_eq!(next, CeremonyAction::Respond(Status::BadRequest));
    assert!(key.is_none());
}

#[test]
fn sign_in_without_a_pending_ceremony_is_refused() {
    let w = webauthn();
    let cred = bogus_assertion();
    assert_eq!(finish_authentication_ceremony(&w, None, None, &cred), (CeremonyAction::Respond(Status::Unauthorized), false));
    assert_eq!(finish_authentication_ceremony(&w, Some(4), None, &cred), (CeremonyAction::Respond(Status::Unauthorized), false));
}

#[test]
fn fresh_passkey_ids_are_version_four() {
    let id = fresh_passkey_id();
    assert_eq!((id >> 76) & 0xf, 4);
    assert_ne!(fresh_passkey_id(), id);
}

#[test]
fn uuid_text() {
    assert_eq!(uuid_to_string(0x0123456789abcdef0123456789abcdef), "01234567-89ab-cdef-0123-456789abcdef");
    assert_eq!(uuid_to_string(0), "00000000-0000-0000-0000-000000000000");
    assert_eq!(uuid_to_string(u128::MAX), "ffffffff-ffff-ffff-ffff-ffffffffffff");
}

#[test]
fn finished_registration_makes_the_user_permanent() {
    let mut u = User::new_webauthn("a@b.co", 5);
    u.complete_registration();
    assert!(!u.is_temp);
    assert_eq!(u.uuid, Some(5));
    assert_eq!(u.email, "a@b.co");
}

#[test]
fn password_hashes_are_argon2id_strings() {
    let u = User::new(String::from("a@b.co"), String::from("SomePassword")).unwrap();
    assert!(u.password_hash().starts_with("$argon2id$"));
    assert_ne!(u.password_hash(), "SomePassword");
}

#[test]
fn language_layer_leaves_api_paths_alone() {
    assert!(is_language_excluded("/api/v1/lists"));
    assert!(is_language_excluded("/ws"));
    assert!(is_language_excluded("/assets/app.js"));
    assert!(is_language_excluded("/.well-known/pki-validation/x"));
    assert!(!is_language_excluded("/lists"));
    assert!(!is_language_excluded("/ja/lists"));
    assert!(starts_with("abc", "ab"));
    assert!(!starts_with("ab", "abc"));
    assert!(starts_with("abc", ""));
}

#[test]
fn relying_party_must_match_its_origin() {
    let origin = Url::parse("http://localhost:3000").unwrap();
    assert!(PasskeyService::new("example.com", &origin, "Listor RS").is_none());
}
