use listo_rs::flows::{list_page_step, page_access, PageAction};
use listo_rs::auth::Status;
use listo_rs::flows::{
    finish_ceremony_step, login_step, passkey_auth_step, passkey_registration_step, register_step, CeremonyAction,
    CeremonyEvent, LoginAction, LoginEvent, PasskeyAuthAction, PasskeyAuthEvent, PasskeyRegistrationAction,
    PasskeyRegistrationEvent, RegisterAction, RegisterEvent,
};
use listo_rs::images::{download_headers, is_accepted_image, UploadOutcome, UploadState};

#[test]
fn registration_steps() {
    assert_eq!(register_step(RegisterEvent::Recaptcha { check: Err(()), form_valid: true }), RegisterAction::Respond(Status::InternalServerError));
    assert_eq!(register_step(RegisterEvent::Recaptcha { check: Ok(false), form_valid: true }), RegisterAction::Respond(Status::BadRequest));
    assert_eq!(register_step(RegisterEvent::Recaptcha { check: Ok(true), form_valid: false }), RegisterAction::Respond(Status::BadRequest));
    assert_eq!(register_step(RegisterEvent::Recaptcha { check: Ok(true), form_valid: true }), RegisterAction::LookUpUser);
    assert_eq!(register_step(RegisterEvent::Lookup(Ok(true))), RegisterAction::Respond(Status::BadRequest));
    assert_eq!(register_step(RegisterEvent::Lookup(Ok(false))), RegisterAction::CreateUser);
    assert_eq!(register_step(RegisterEvent::Created(Ok(8))), RegisterAction::SignIn(8));
}

#[test]
fn login_steps() {
    assert_eq!(login_step(LoginEvent::Recaptcha(Ok(true))), LoginAction::LookUpUser);
    assert_eq!(login_step(LoginEvent::Lookup(Ok(None))), LoginAction::Respond(Status::BadRequest));
    assert_eq!(login_step(LoginEvent::Lookup(Ok(Some(3)))), LoginAction::CheckPassword(3));
    assert_eq!(login_step(LoginEvent::Password { user_id: 3, check: Ok(false) }), LoginAction::Respond(Status::BadRequest));
    assert_eq!(login_step(LoginEvent::Password { user_id: 3, check: Ok(true) }), LoginAction::SignIn(3));
    assert_eq!(login_step(LoginEvent::Password { user_id: 3, check: Err(()) }), LoginAction::Respond(Status::InternalServerError));
}

#[test]
fn passkey_steps() {
    assert_eq!(passkey_registration_step(PasskeyRegistrationEvent::Lookup(None)), PasskeyRegistrationAction::CreatePasskeyUser);
    assert_eq!(
        passkey_registration_step(PasskeyRegistrationEvent::Password { user_id: 2, uuid: None, check: Ok(true) }),
        PasskeyRegistrationAction::AssignPasskeyId(2)
    );
    assert_eq!(
        passkey_registration_step(PasskeyRegistrationEvent::Password { user_id: 2, uuid: Some(9), check: Ok(true) }),
        PasskeyRegistrationAction::StartCeremony { user_id: 2, uuid: 9 }
    );
    assert_eq!(
        passkey_registration_step(PasskeyRegistrationEvent::Password { user_id: 2, uuid: Some(9), check: Ok(false) }),
        PasskeyRegistrationAction::Respond(Status::Unauthorized)
    );
    assert_eq!(passkey_registration_step(PasskeyRegistrationEvent::Started { user_id: 2, ok: false }), PasskeyRegistrationAction::Respond(Status::BadRequest));
    assert_eq!(finish_ceremony_step(CeremonyEvent::NoUser, Status::Unauthorized), CeremonyAction::Respond(Status::Unauthorized));
    assert_eq!(finish_ceremony_step(CeremonyEvent::Finished { user_id: 4, ok: true }, Status::BadRequest), CeremonyAction::SignIn(4));
    assert_eq!(finish_ceremony_step(CeremonyEvent::Finished { user_id: 4, ok: false }, Status::BadRequest), CeremonyAction::Respond(Status::BadRequest));
    assert_eq!(passkey_auth_step(PasskeyAuthEvent::Lookup(None)), PasskeyAuthAction::Respond(Status::BadRequest));
    assert_eq!(passkey_auth_step(PasskeyAuthEvent::Started { user_id: 1, ok: true }), PasskeyAuthAction::SendChallenge(1));
}

#[test]
fn uploads_keep_images_only() {
    assert!(is_accepted_image(Some("image/png")));
    assert!(is_accepted_image(Some("image/jpg")));
    assert!(is_accepted_image(Some("image/jpeg")));
    assert!(!is_accepted_image(Some("text/plain")));
    assert!(!is_accepted_image(None));
    let empty = UploadState::new();
    assert_eq!(empty.finish(), UploadOutcome::Rejected(Status::BadRequest));
    let mut s = UploadState::new();
    s.stored(String::from("cat.png"), true);
    s.stored(String::from("dog.png"), false);
    assert_eq!(s.finish(), UploadOutcome::Redirect(String::from("/images/cat.png")));
}

#[test]
fn download_headers_name_the_type() {
    let h = download_headers("cat.tar.png", 10);
    assert_eq!(h[0], (String::from("Content-Type"), String::from("image/png")));
    assert_eq!(h[1], (String::from("Content-Length"), String::from("10")));
    assert_eq!(h[2], (String::from("Content-Disposition"), String::from("inline; filename=\"cat.tar.png\"")));
}

#[test]
fn pages_are_for_signed_in_users() {
    assert_eq!(page_access(None), PageAction::RedirectToLogin);
    assert_eq!(page_access(Some(3)), PageAction::Render(3));
    assert_eq!(list_page_step(3, true), PageAction::Render(3));
    assert_eq!(list_page_step(3, false), PageAction::Respond(Status::NotFound));
}
