//! The decisions of the sign-up and sign-in endpoints. Each endpoint
//! alternates outside work (reCAPTCHA, the database, the passkey library)
//! with decisions; the runner does the work named by an action and reports
//! the outcome as an event, and the functions here say what comes next.

use vstd::prelude::*;
use crate::auth::Status;

verus! {

/// The answer to a failed or passed reCAPTCHA check: `None` to go on; 500 when
/// the check could not be made, 400 when it failed.
pub open spec fn recaptcha_gate(check: Result<bool, ()>) -> Option<Status> {
    match check {
        Err(_) => Some(Status::InternalServerError),
        Ok(false) => Some(Status::BadRequest),
        Ok(true) => None,
    }
}

/// What the registration endpoint has learnt.
pub enum RegisterEvent {
    /// The reCAPTCHA check came back, and the form was (or was not) valid.
    Recaptcha { check: Result<bool, ()>, form_valid: bool },
    /// Whether a user with the form's e-mail address exists.
    Lookup(Result<bool, ()>),
    /// The new user was hashed and stored, with this id.
    Created(Result<u64, ()>),
}

/// What the registration endpoint does next.
#[derive(Debug, PartialEq, Eq)]
pub enum RegisterAction {
    LookUpUser,
    CreateUser,
    Respond(Status),
    /// Answer 201 with a session cookie for this user.
    SignIn(u64),
}

/// The registration endpoint's next action after `e`.
pub open spec fn register_next(e: RegisterEvent) -> RegisterAction {
    match e {
        RegisterEvent::Recaptcha { check, form_valid } => match recaptcha_gate(check) {
            Some(s) => RegisterAction::Respond(s),
            None => if form_valid { RegisterAction::LookUpUser } else { RegisterAction::Respond(Status::BadRequest) },
        },
        RegisterEvent::Lookup(Err(_)) => RegisterAction::Respond(Status::InternalServerError),
        RegisterEvent::Lookup(Ok(true)) => RegisterAction::Respond(Status::BadRequest),
        RegisterEvent::Lookup(Ok(false)) => RegisterAction::CreateUser,
        RegisterEvent::Created(Err(_)) => RegisterAction::Respond(Status::InternalServerError),
        RegisterEvent::Created(Ok(id)) => RegisterAction::SignIn(id),
    }
}

/// Registration: a passed reCAPTCHA check and a valid form lead to the lookup;
/// an address already taken is refused (400); failures of outside work are
/// 500; a stored user is signed in with 201.
pub fn register_step(e: RegisterEvent) -> (r: RegisterAction)
    ensures
        r == register_next(e),
        e matches RegisterEvent::Recaptcha { check: Ok(false), .. } ==> r == RegisterAction::Respond(Status::BadRequest),
        e matches RegisterEvent::Recaptcha { check: Err(_), .. } ==> r == RegisterAction::Respond(Status::InternalServerError),
        r == RegisterAction::LookUpUser <==> e == (RegisterEvent::Recaptcha { check: Ok(true), form_valid: true }),
        e matches RegisterEvent::Lookup(Ok(true)) ==> r == RegisterAction::Respond(Status::BadRequest),
        r == RegisterAction::CreateUser <==> e == RegisterEvent::Lookup(Ok(false)),
{
    match e {
        RegisterEvent::Recaptcha { check, form_valid } => match check {
            Err(_) => RegisterAction::Respond(Status::InternalServerError),
            Ok(false) => RegisterAction::Respond(Status::BadRequest),
            Ok(true) => if form_valid { RegisterAction::LookUpUser } else { RegisterAction::Respond(Status::BadRequest) },
        },
        RegisterEvent::Lookup(Err(_)) => RegisterAction::Respond(Status::InternalServerError),
        RegisterEvent::Lookup(Ok(true)) => RegisterAction::Respond(Status::BadRequest),
        RegisterEvent::Lookup(Ok(false)) => RegisterAction::CreateUser,
        RegisterEvent::Created(Err(_)) => RegisterAction::Respond(Status::InternalServerError),
        RegisterEvent::Created(Ok(id)) => RegisterAction::SignIn(id),
    }
}

/// What the login endpoint has learnt.
pub enum LoginEvent {
    Recaptcha(Result<bool, ()>),
    /// The id of the user with the form's e-mail address, if there is one.
    Lookup(Result<Option<u64>, ()>),
    /// The password check of that user.
    Password { user_id: u64, check: Result<bool, ()> },
}

/// What the login endpoint does next.
#[derive(Debug, PartialEq, Eq)]
pub enum LoginAction {
    LookUpUser,
    CheckPassword(u64),
    Respond(Status),
    /// Answer 200 with a session cookie for this user.
    SignIn(u64),
}

/// The login endpoint's next action after `e`.
pub open spec fn login_next(e: LoginEvent) -> LoginAction {
    match e {
        LoginEvent::Recaptcha(check) => match recaptcha_gate(check) {
            Some(s) => LoginAction::Respond(s),
            None => LoginAction::LookUpUser,
        },
        LoginEvent::Lookup(Err(_)) => LoginAction::Respond(Status::InternalServerError),
        LoginEvent::Lookup(Ok(None)) => LoginAction::Respond(Status::BadRequest),
        LoginEvent::Lookup(Ok(Some(id))) => LoginAction::CheckPassword(id),
        LoginEvent::Password { user_id, check: Err(_) } => LoginAction::Respond(Status::InternalServerError),
        LoginEvent::Password { user_id, check: Ok(false) } => LoginAction::Respond(Status::BadRequest),
        LoginEvent::Password { user_id, check: Ok(true) } => LoginAction::SignIn(user_id),
    }
}

/// Login: unknown addresses and wrong passwords are both 400; failures of
/// outside work are 500; a confirmed password signs the user in.
pub fn login_step(e: LoginEvent) -> (r: LoginAction)
    ensures
        r == login_next(e),
        e == LoginEvent::Recaptcha(Ok(false)) ==> r == LoginAction::Respond(Status::BadRequest),
        e matches LoginEvent::Recaptcha(Err(_)) ==> r == LoginAction::Respond(Status::InternalServerError),
        r == LoginAction::LookUpUser <==> e == LoginEvent::Recaptcha(Ok(true)),
        e matches LoginEvent::Lookup(Ok(Some(id))) ==> r == LoginAction::CheckPassword(id),
        e == LoginEvent::Lookup(Ok(None)) ==> r == LoginAction::Respond(Status::BadRequest),
        e matches LoginEvent::Password { user_id, check: Ok(false) } ==> r == LoginAction::Respond(Status::BadRequest),
        r matches LoginAction::SignIn(id) ==> e == (LoginEvent::Password { user_id: id, check: Ok(true) }),
{
    match e {
        LoginEvent::Recaptcha(check) => match check {
            Err(_) => LoginAction::Respond(Status::InternalServerError),
            Ok(false) => LoginAction::Respond(Status::BadRequest),
            Ok(true) => LoginAction::LookUpUser,
        },
        LoginEvent::Lookup(Err(_)) => LoginAction::Respond(Status::InternalServerError),
        LoginEvent::Lookup(Ok(None)) => LoginAction::Respond(Status::BadRequest),
        LoginEvent::Lookup(Ok(Some(id))) => LoginAction::CheckPassword(id),
        LoginEvent::Password { user_id, check: Err(_) } => LoginAction::Respond(Status::InternalServerError),
        LoginEvent::Password { user_id, check: Ok(false) } => LoginAction::Respond(Status::BadRequest),
        LoginEvent::Password { user_id, check: Ok(true) } => LoginAction::SignIn(user_id),
    }
}

/// What the start of a passkey registration has learnt.
pub enum PasskeyRegistrationEvent {
    Recaptcha(Result<bool, ()>),
    /// The user with the form's e-mail address: id and passkey id, if any.
    Lookup(Option<(u64, Option<u128>)>),
    /// The password check of an existing user.
    Password { user_id: u64, uuid: Option<u128>, check: Result<bool, ()> },
    /// The passkey library's answer to the start of the ceremony.
    Started { user_id: u64, ok: bool },
}

/// What the start of a passkey registration does next.
#[derive(Debug, PartialEq, Eq)]
pub enum PasskeyRegistrationAction {
    LookUpUser,
    CheckPassword(u64),
    /// Store a new temporary passkey user with a fresh passkey id.
    CreatePasskeyUser,
    /// Give the existing user a fresh passkey id and store it.
    AssignPasskeyId(u64),
    /// Start the ceremony for this user and passkey id.
    StartCeremony { user_id: u64, uuid: u128 },
    Respond(Status),
    /// Store the ceremony state, and answer with the challenge and the
    /// temp-user-id cookie for this user.
    SendChallenge(u64),
}

/// The next action of the start of a passkey registration after `e`.
pub open spec fn passkey_registration_next(e: PasskeyRegistrationEvent) -> PasskeyRegistrationAction {
    match e {
        PasskeyRegistrationEvent::Recaptcha(check) => match recaptcha_gate(check) {
            Some(s) => PasskeyRegistrationAction::Respond(s),
            None => PasskeyRegistrationAction::LookUpUser,
        },
        PasskeyRegistrationEvent::Lookup(None) => PasskeyRegistrationAction::CreatePasskeyUser,
        PasskeyRegistrationEvent::Lookup(Some((id, _))) => PasskeyRegistrationAction::CheckPassword(id),
        PasskeyRegistrationEvent::Password { user_id, uuid, check } => match check {
            Err(_) => PasskeyRegistrationAction::Respond(Status::InternalServerError),
            Ok(false) => PasskeyRegistrationAction::Respond(Status::Unauthorized),
            Ok(true) => match uuid {
                Some(u) => PasskeyRegistrationAction::StartCeremony { user_id, uuid: u },
                None => PasskeyRegistrationAction::AssignPasskeyId(user_id),
            },
        },
        PasskeyRegistrationEvent::Started { user_id, ok } =>
            if ok { PasskeyRegistrationAction::SendChallenge(user_id) } else { PasskeyRegistrationAction::Respond(Status::BadRequest) },
    }
}

/// Starting a passkey registration: existing users must give their password
/// (401 when wrong) and get a passkey id if they have none; new addresses
/// get a temporary user; a ceremony the library refuses is 400.
pub fn passkey_registration_step(e: PasskeyRegistrationEvent) -> (r: PasskeyRegistrationAction)
    ensures
        r == passkey_registration_next(e),
        e == PasskeyRegistrationEvent::Recaptcha(Ok(false)) ==> r == PasskeyRegistrationAction::Respond(Status::BadRequest),
        r == PasskeyRegistrationAction::LookUpUser <==> e == PasskeyRegistrationEvent::Recaptcha(Ok(true)),
        e matches PasskeyRegistrationEvent::Lookup(Some((id, _))) ==> r == PasskeyRegistrationAction::CheckPassword(id),
        r == PasskeyRegistrationAction::CreatePasskeyUser <==> e == PasskeyRegistrationEvent::Lookup(None),
        e matches PasskeyRegistrationEvent::Password { check: Ok(false), .. } ==> r == PasskeyRegistrationAction::Respond(Status::Unauthorized),
{
    match e {
        PasskeyRegistrationEvent::Recaptcha(check) => match check {
            Err(_) => PasskeyRegistrationAction::Respond(Status::InternalServerError),
            Ok(false) => PasskeyRegistrationAction::Respond(Status::BadRequest),
            Ok(true) => PasskeyRegistrationAction::LookUpUser,
        },
        PasskeyRegistrationEvent::Lookup(None) => PasskeyRegistrationAction::CreatePasskeyUser,
        PasskeyRegistrationEvent::Lookup(Some((id, _))) => PasskeyRegistrationAction::CheckPassword(id),
        PasskeyRegistrationEvent::Password { user_id, uuid, check } => match check {
            Err(_) => PasskeyRegistrationAction::Respond(Status::InternalServerError),
            Ok(false) => PasskeyRegistrationAction::Respond(Status::Unauthorized),
            Ok(true) => match uuid {
                Some(u) => PasskeyRegistrationAction::StartCeremony { user_id, uuid: u },
                None => PasskeyRegistrationAction::AssignPasskeyId(user_id),
            },
        },
        PasskeyRegistrationEvent::Started { user_id, ok } =>
            if ok { PasskeyRegistrationAction::SendChallenge(user_id) } else { PasskeyRegistrationAction::Respond(Status::BadRequest) },
    }
}

/// The outcome of the second half of a passkey ceremony (registration or
/// sign-in): `None` when the request carried no temp-user-id cookie, else
/// whether a pending ceremony was found and whether the library accepted it.
pub enum CeremonyEvent {
    NoUser,
    NoPendingCeremony(u64),
    Finished { user_id: u64, ok: bool },
}

/// What the second half of a passkey ceremony does next.
#[derive(Debug, PartialEq, Eq)]
pub enum CeremonyAction {
    Respond(Status),
    /// Record the result and answer 200 with a session cookie for this user.
    SignIn(u64),
}

/// Finishing a ceremony: only a request that names a user with a pending
/// ceremony the library accepts is signed in; any other is answered with
/// `refusal` (400 for registration, 401 for sign-in).
pub fn finish_ceremony_step(e: CeremonyEvent, refusal: Status) -> (r: CeremonyAction)
    ensures
        r == match e {
            CeremonyEvent::Finished { user_id, ok: true } => CeremonyAction::SignIn(user_id),
            _ => CeremonyAction::Respond(refusal),
        },
{
    match e {
        CeremonyEvent::Finished { user_id, ok: true } => CeremonyAction::SignIn(user_id),
        _ => CeremonyAction::Respond(refusal),
    }
}

/// What the start of a passkey sign-in has learnt.
pub enum PasskeyAuthEvent {
    /// The id of the user with the given e-mail address, if there is one.
    Lookup(Option<u64>),
    /// The passkey library's answer to the start of the ceremony.
    Started { user_id: u64, ok: bool },
}

/// What the start of a passkey sign-in does next.
#[derive(Debug, PartialEq, Eq)]
pub enum PasskeyAuthAction {
    /// Load the user's passkey and start the ceremony.
    StartCeremony(u64),
    Respond(Status),
    /// Store the ceremony state, and answer with the challenge and the
    /// temp-user-id cookie for this user.
    SendChallenge(u64),
}

/// The next action of the start of a passkey sign-in after `e`.
pub open spec fn passkey_auth_next(e: PasskeyAuthEvent) -> PasskeyAuthAction {
    match e {
        PasskeyAuthEvent::Lookup(None) => PasskeyAuthAction::Respond(Status::BadRequest),
        PasskeyAuthEvent::Lookup(Some(id)) => PasskeyAuthAction::StartCeremony(id),
        PasskeyAuthEvent::Started { user_id, ok } =>
            if ok { PasskeyAuthAction::SendChallenge(user_id) } else { PasskeyAuthAction::Respond(Status::Unauthorized) },
    }
}

/// Starting a passkey sign-in: unknown addresses are 400, a ceremony the
/// library refuses is 401.
pub fn passkey_auth_step(e: PasskeyAuthEvent) -> (r: PasskeyAuthAction)
    ensures
        r == passkey_auth_next(e),
        e matches PasskeyAuthEvent::Lookup(Some(id)) ==> r == PasskeyAuthAction::StartCeremony(id),
        r == PasskeyAuthAction::Respond(Status::BadRequest) <==> e == PasskeyAuthEvent::Lookup(None),
        e matches PasskeyAuthEvent::Started { user_id, ok: true } ==> r == PasskeyAuthAction::SendChallenge(user_id),
{
    match e {
        PasskeyAuthEvent::Lookup(None) => PasskeyAuthAction::Respond(Status::BadRequest),
        PasskeyAuthEvent::Lookup(Some(id)) => PasskeyAuthAction::StartCeremony(id),
        PasskeyAuthEvent::Started { user_id, ok } =>
            if ok { PasskeyAuthAction::SendChallenge(user_id) } else { PasskeyAuthAction::Respond(Status::Unauthorized) },
    }
}

/// What a page does with a request.
#[derive(Debug, PartialEq, Eq)]
pub enum PageAction {
    /// Send the visitor (temporarily) to `/login`.
    RedirectToLogin,
    /// Render the page for this user.
    Render(u64),
    /// Answer with this status instead of a page.
    Respond(Status),
}

/// The pages are for signed-in users only: a request without session claims
/// is sent to the login page; others are rendered for their user.
pub fn page_access(user: Option<u64>) -> (r: PageAction)
    ensures
        r == match user {
            None => PageAction::RedirectToLogin,
            Some(u) => PageAction::Render(u),
        },
{
    match user {
        None => PageAction::RedirectToLogin,
        Some(u) => PageAction::Render(u),
    }
}

/// The page of one list, once the list has been looked up: rendered for the
/// user when it exists, 404 otherwise.
pub fn list_page_step(user_id: u64, list_found: bool) -> (r: PageAction)
    ensures
        r == if list_found { PageAction::Render(user_id) } else { PageAction::Respond(Status::NotFound) },
{
    if list_found { PageAction::Render(user_id) } else { PageAction::Respond(Status::NotFound) }
}

/// Law: a failed reCAPTCHA check stops every form endpoint with 400, and
/// each goes on to look up the user only after a passed check.
pub proof fn lemma_failed_recaptcha_stops(e: LoginEvent, r: RegisterEvent, p: PasskeyRegistrationEvent)
    ensures
        e == LoginEvent::Recaptcha(Ok(false)) ==> login_next(e) == LoginAction::Respond(Status::BadRequest),
        login_next(e) == LoginAction::LookUpUser ==> e == LoginEvent::Recaptcha(Ok(true)),
        r matches RegisterEvent::Recaptcha { check: Ok(false), .. } ==> register_next(r) == RegisterAction::Respond(Status::BadRequest),
        register_next(r) == RegisterAction::LookUpUser ==> r matches RegisterEvent::Recaptcha { check: Ok(true), .. },
        p == PasskeyRegistrationEvent::Recaptcha(Ok(false)) ==> passkey_registration_next(p) == PasskeyRegistrationAction::Respond(Status::BadRequest),
        passkey_registration_next(p) == PasskeyRegistrationAction::LookUpUser ==> p == PasskeyRegistrationEvent::Recaptcha(Ok(true)),
{
}

/// Law: an address that already has an account must confirm that account's
/// password before it gets a passkey; a new temporary user is made only for
/// an address that has none.
pub proof fn lemma_existing_account_checks_password(p: PasskeyRegistrationEvent)
    ensures
        p matches PasskeyRegistrationEvent::Lookup(Some((id, _))) ==> passkey_registration_next(p) == PasskeyRegistrationAction::CheckPassword(id),
        passkey_registration_next(p) == PasskeyRegistrationAction::CreatePasskeyUser ==> p == PasskeyRegistrationEvent::Lookup(None),
{
}

/// Law: a passkey sign-in starts for every known address, and only an
/// unknown address is refused with 400.
pub proof fn lemma_known_address_starts_sign_in(a: PasskeyAuthEvent)
    ensures
        a matches PasskeyAuthEvent::Lookup(Some(id)) ==> passkey_auth_next(a) == PasskeyAuthAction::StartCeremony(id),
        passkey_auth_next(a) == PasskeyAuthAction::Respond(Status::BadRequest) ==> a == PasskeyAuthEvent::Lookup(None),
{
}

/// Law: the login endpoint signs a user in only after that user's password
/// was confirmed.
pub proof fn lemma_login_needs_confirmed_password(e: LoginEvent, id: u64)
    ensures
        login_next(e) == LoginAction::SignIn(id) ==> e == (LoginEvent::Password { user_id: id, check: Ok(true) }),
{
}

/// Law: the registration endpoint signs in only a user it has just stored.
pub proof fn lemma_register_signs_in_created_user(e: RegisterEvent, id: u64)
    ensures
        register_next(e) == RegisterAction::SignIn(id) ==> e == RegisterEvent::Created(Ok(id)),
{
}

/// Law: an existing account is given a passkey only after its password was
/// confirmed (a wrong password is 401).
pub proof fn lemma_passkey_needs_password(e: PasskeyRegistrationEvent, id: u64, u: u128)
    ensures
        passkey_registration_next(e) == (PasskeyRegistrationAction::StartCeremony { user_id: id, uuid: u })
            ==> e == (PasskeyRegistrationEvent::Password { user_id: id, uuid: Some(u), check: Ok(true) }),
        passkey_registration_next(e) == PasskeyRegistrationAction::AssignPasskeyId(id)
            ==> e == (PasskeyRegistrationEvent::Password { user_id: id, uuid: None, check: Ok(true) }),
{
}

} // verus!
