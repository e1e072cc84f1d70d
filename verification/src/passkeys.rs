//! Passkey ceremonies, through `webauthn-rs`: which user a registration
//! challenge is made for, and which outcome of a ceremony signs a user in.

use vstd::prelude::*;
use webauthn_rs::Webauthn;
use webauthn_rs::prelude::{
    CreationChallengeResponse, PasskeyRegistration, RegisterPublicKeyCredential, Passkey,
    RequestChallengeResponse, PasskeyAuthentication, PublicKeyCredential,
};
use crate::auth::Status;
use crate::flows::{
    CeremonyAction, CeremonyEvent, PasskeyAuthAction, PasskeyAuthEvent, PasskeyRegistrationAction,
    PasskeyRegistrationEvent, finish_ceremony_step, passkey_auth_next, passkey_auth_step,
    passkey_registration_next, passkey_registration_step,
};
use crate::users::new_uuid_v4;

verus! {

#[verifier::external_type_specification]
#[verifier::external_body]
pub struct ExWebauthn(Webauthn);

#[verifier::external_type_specification]
#[verifier::external_body]
pub struct ExCreationChallengeResponse(CreationChallengeResponse);

#[verifier::external_type_specification]
#[verifier::external_body]
pub struct ExPasskeyRegistration(PasskeyRegistration);

#[verifier::external_type_specification]
#[verifier::external_body]
pub struct ExRegisterPublicKeyCredential(RegisterPublicKeyCredential);

#[verifier::external_type_specification]
#[verifier::external_body]
pub struct ExPasskey(Passkey);

#[verifier::external_type_specification]
#[verifier::external_body]
pub struct ExRequestChallengeResponse(RequestChallengeResponse);

#[verifier::external_type_specification]
#[verifier::external_body]
pub struct ExPasskeyAuthentication(PasskeyAuthentication);

#[verifier::external_type_specification]
#[verifier::external_body]
pub struct ExPublicKeyCredential(PublicKeyCredential);

#[verifier::external_type_specification]
#[verifier::external_body]
pub struct ExUrl(url::Url);

/// The `n` low bytes of `v`, most significant first.
pub open spec fn be_bytes(v: nat, n: nat) -> Seq<u8>
    decreases n,
{
    if n == 0 { Seq::empty() } else { be_bytes(v / 256, (n - 1) as nat).push((v % 256) as u8) }
}

/// The sixteen bytes of a UUID (`Uuid::as_bytes`: most significant first).
pub open spec fn uuid_bytes(u: u128) -> Seq<u8> {
    be_bytes(u as nat, 16)
}

/// A fresh passkey id: a random version-4 UUID.
pub fn fresh_passkey_id() -> (r: u128)
    ensures
        (r / 0x10000000000000000000) % 16 == 4,
{
    new_uuid_v4()
}

/// The authenticator timeout a `Webauthn` was built with, in milliseconds.
pub uninterp spec fn webauthn_timeout_ms(w: Webauthn) -> nat;

/// The passkey that `Webauthn::finish_passkey_registration` makes of a
/// browser's answer and the stored registration state, or `None` when the
/// answer does not check out. (The check reads no clock and draws no
/// randomness: it is a function of these three values.)
pub uninterp spec fn passkey_registration_result(w: Webauthn, reg: RegisterPublicKeyCredential, state: PasskeyRegistration) -> Option<Passkey>;

/// Whether `Webauthn::finish_passkey_authentication` accepts a browser's
/// answer against the stored authentication state. (The check reads no
/// clock and draws no randomness: it is a function of these three values.)
pub uninterp spec fn passkey_authentication_accepted(w: Webauthn, cred: PublicKeyCredential, state: PasskeyAuthentication) -> bool;

/// The credential id of a passkey (`Passkey::cred_id`).
pub uninterp spec fn passkey_cred_id(p: Passkey) -> Seq<u8>;

/// The relying party that `WebauthnBuilder::new(rp_id, origin)`,
/// `.rp_name(rp_name)`, `.build()` makes, or `None` when the builder refuses
/// the id or the origin (the origin's host must be `rp_id` or end in
/// `.` and `rp_id`). The builder draws no randomness and reads no clock.
pub uninterp spec fn webauthn_built(rp_id: Seq<char>, origin: url::Url, rp_name: Seq<char>) -> Option<Webauthn>;

/// `WebauthnBuilder::new(rp_id, origin)`, `.rp_name(rp_name)`, `.build()`:
/// the relying party of the service, or `None` when the builder refuses the
/// id or the origin. It keeps the builder's default authenticator timeout,
/// `DEFAULT_AUTHENTICATOR_TIMEOUT` (300 seconds).
#[verifier::external_body]
fn build_webauthn(rp_id: &str, origin: &url::Url, rp_name: &str) -> (r: Option<Webauthn>)
    ensures
        r == webauthn_built(rp_id@, *origin, rp_name@),
        r matches Some(w) ==> webauthn_timeout_ms(w) == 300000,
{
    webauthn_rs::WebauthnBuilder::new(rp_id, origin).ok().and_then(|b| b.rp_name(rp_name).build().ok())
}

/// The relying party of the passkey ceremonies. Its timeout fits the `u32`
/// of milliseconds that the ceremonies write into a challenge.
pub struct PasskeyService {
    w: Webauthn,
}

impl PasskeyService {
    #[verifier::type_invariant]
    spec fn timeout_fits(self) -> bool {
        webauthn_timeout_ms(self.w) <= 0xFFFFFFFF
    }

    /// The `Webauthn` the ceremonies run on.
    pub closed spec fn webauthn(self) -> Webauthn {
        self.w
    }

    /// The relying party `rp_id` at `origin`, shown as `rp_name`, with the
    /// default authenticator timeout; `None` exactly when the builder refuses
    /// the id or the origin.
    pub fn new(rp_id: &str, origin: &url::Url, rp_name: &str) -> (r: Option<PasskeyService>)
        ensures
            r is Some <==> webauthn_built(rp_id@, *origin, rp_name@) is Some,
            r matches Some(s) ==> webauthn_built(rp_id@, *origin, rp_name@) == Some(s.webauthn()),
            r matches Some(s) ==> webauthn_timeout_ms(s.webauthn()) == 300000,
    {
        match build_webauthn(rp_id, origin, rp_name) {
            Some(w) => Some(PasskeyService { w }),
            None => None,
        }
    }
}

/// A registration challenge, with the user entity it names.
pub struct RegistrationChallenge {
    /// What is sent to the browser.
    pub response: CreationChallengeResponse,
    /// What the server keeps until the ceremony finishes.
    pub state: PasskeyRegistration,
    /// The user id the challenge names (`public_key.user.id`).
    pub user_id: Vec<u8>,
    /// The account name the challenge names (`public_key.user.name`).
    pub user_name: String,
    /// The display name the challenge names (`public_key.user.display_name`).
    pub display_name: String,
}

/// An authentication challenge, with the credentials it allows.
pub struct AuthenticationChallenge {
    /// What is sent to the browser.
    pub response: RequestChallengeResponse,
    /// What the server keeps until the ceremony finishes.
    pub state: PasskeyAuthentication,
    /// The ids of the credentials the challenge allows
    /// (`public_key.allow_credentials`), in order.
    pub allowed: Vec<Vec<u8>>,
}

pub open spec fn bytes_view(v: Seq<Vec<u8>>) -> Seq<Seq<u8>> {
    v.map_values(|b: Vec<u8>| b@)
}

/// `Webauthn::start_passkey_registration(Uuid::from_u128(uuid), name, name, None)`,
/// with the user entity of the challenge read out. What `webauthn-rs` does:
/// the challenge names the UUID's bytes as the user id and `name` as both
/// account and display name, and the call is refused exactly when `name` is
/// empty (`InvalidUsername`; the id is never empty). The challenge itself is
/// random. The call writes the timeout as a `u32` of milliseconds (and
/// panics if it does not fit), hence the `requires`.
#[verifier::external_body]
fn start_passkey_registration(w: &Webauthn, uuid: u128, name: &str) -> (r: Option<RegistrationChallenge>)
    requires
        webauthn_timeout_ms(*w) <= 0xFFFFFFFF,
    ensures
        r is Some <==> name@.len() > 0,
        r matches Some(c) ==> c.user_id@ == uuid_bytes(uuid) && c.user_name@ == name@ && c.display_name@ == name@,
{
    w.start_passkey_registration(webauthn_rs::prelude::Uuid::from_u128(uuid), name, name, None).ok().map(|(response, state)| {
        let user_id = response.public_key.user.id.as_ref().to_vec();
        let user_name = response.public_key.user.name.clone();
        let display_name = response.public_key.user.display_name.clone();
        RegistrationChallenge { response, state, user_id, user_name, display_name }
    })
}

/// `Webauthn::finish_passkey_registration(reg, state)`: the new passkey, or
/// `None` when the browser's answer does not check out against the state.
#[verifier::external_body]
fn finish_passkey_registration(w: &Webauthn, reg: &RegisterPublicKeyCredential, state: &PasskeyRegistration) -> (r: Option<Passkey>)
    ensures
        r == passkey_registration_result(*w, *reg, *state),
{
    w.finish_passkey_registration(reg, state).ok()
}

/// `Webauthn::start_passkey_authentication(creds)`, with the allowed
/// credential ids of the challenge read out. What `webauthn-rs` does: with the
/// policy it sets (user verification required) there is no error to give,
/// and the challenge allows exactly the given passkeys' credential ids, in
/// order. The challenge itself is random. The call writes the timeout as a
/// `u32` of milliseconds (and panics if it does not fit), hence the `requires`.
#[verifier::external_body]
fn start_passkey_authentication(w: &Webauthn, creds: &[Passkey]) -> (r: Option<AuthenticationChallenge>)
    requires
        webauthn_timeout_ms(*w) <= 0xFFFFFFFF,
    ensures
        r is Some,
        r matches Some(c) ==> c.allowed@.len() == creds@.len(),
        r matches Some(c) ==> forall|i: int| 0 <= i < creds@.len() ==> #[trigger] c.allowed@[i]@ == passkey_cred_id(creds@[i]),
{
    w.start_passkey_authentication(creds).ok().map(|(response, state)| {
        let allowed = response.public_key.allow_credentials.iter().map(|c| c.id.as_ref().to_vec()).collect();
        AuthenticationChallenge { response, state, allowed }
    })
}

/// `Webauthn::finish_passkey_authentication(cred, state)`: whether the
/// browser's answer checks out against the state (an error is `false`).
#[verifier::external_body]
fn finish_passkey_authentication(w: &Webauthn, cred: &PublicKeyCredential, state: &PasskeyAuthentication) -> (r: bool)
    ensures
        r == passkey_authentication_accepted(*w, *cred, *state),
{
    w.finish_passkey_authentication(cred, state).is_ok()
}

/// Starts the registration ceremony of user `user_id` with passkey id `uuid`
/// and account name `email`: the challenge names exactly that id and that
/// address, and is sent with the temp-user-id cookie; without a challenge
/// (an empty address) the answer is 400.
pub fn start_registration_ceremony(svc: &PasskeyService, user_id: u64, uuid: u128, email: &str)
    -> (r: (PasskeyRegistrationAction, Option<RegistrationChallenge>))
    ensures
        r.0 == passkey_registration_next(PasskeyRegistrationEvent::Started { user_id, ok: r.1 is Some }),
        r.1 is Some <==> email@.len() > 0,
        r.1 matches Some(c) ==> c.user_id@ == uuid_bytes(uuid) && c.user_name@ == email@ && c.display_name@ == email@,
{
    proof { use_type_invariant(svc); }
    let started = start_passkey_registration(&svc.w, uuid, email);
    let ok = started.is_some();
    (passkey_registration_step(PasskeyRegistrationEvent::Started { user_id, ok }), started)
}

/// Finishes a registration ceremony: `user` is the user the request's
/// temp-user-id cookie names, `pending` the registration state stored for
/// that user. A named user with a pending state gets the passkey the library
/// makes of the answer, and is signed in exactly when there is one; any other
/// request is answered 400.
pub fn finish_registration_ceremony(
    svc: &PasskeyService,
    user: Option<u64>,
    pending: Option<PasskeyRegistration>,
    reg: &RegisterPublicKeyCredential,
) -> (r: (CeremonyAction, Option<Passkey>))
    ensures
        r.1 == match (user, pending) {
            (Some(_), Some(st)) => passkey_registration_result(svc.webauthn(), *reg, st),
            _ => None,
        },
        r.0 == match user {
            None => CeremonyAction::Respond(Status::BadRequest),
            Some(u) => if r.1 is Some {
                CeremonyAction::SignIn(u)
            } else {
                CeremonyAction::Respond(Status::BadRequest)
            },
        },
{
    match user {
        None => (finish_ceremony_step(CeremonyEvent::NoUser, Status::BadRequest), None),
        Some(u) => match pending {
            None => (finish_ceremony_step(CeremonyEvent::NoPendingCeremony(u), Status::BadRequest), None),
            Some(state) => {
                let passkey = finish_passkey_registration(&svc.w, reg, &state);
                let ok = passkey.is_some();
                (finish_ceremony_step(CeremonyEvent::Finished { user_id: u, ok }, Status::BadRequest), passkey)
            },
        },
    }
}

/// Starts the sign-in ceremony of user `user_id` with their passkey: the
/// ceremony always starts, its challenge allows exactly that passkey, and it
/// is sent with the temp-user-id cookie for that user.
pub fn start_authentication_ceremony(svc: &PasskeyService, user_id: u64, passkey: Passkey)
    -> (r: (PasskeyAuthAction, Option<AuthenticationChallenge>))
    ensures
        r.0 == passkey_auth_next(PasskeyAuthEvent::Started { user_id, ok: r.1 is Some }),
        r.0 == PasskeyAuthAction::SendChallenge(user_id),
        r.1 matches Some(c) && bytes_view(c.allowed@) == seq![passkey_cred_id(passkey)],
{
    proof { use_type_invariant(svc); }
    let ghost key = passkey;
    let creds = vec![passkey];
    let started = start_passkey_authentication(&svc.w, creds.as_slice());
    let ok = started.is_some();
    assert(started matches Some(c) && bytes_view(c.allowed@) =~= seq![passkey_cred_id(key)]) by {
        let c = started->0;
        assert(c.allowed@[0]@ == passkey_cred_id(creds@[0]));
    }
    (passkey_auth_step(PasskeyAuthEvent::Started { user_id, ok }), started)
}

/// Finishes a sign-in ceremony: `user` is the user the request's
/// temp-user-id cookie names, `pending` the authentication state stored for
/// that user. A named user with a pending state is signed in exactly when
/// the library accepts the answer against it; any other request is answered
/// 401. The second part says whether the library accepted the answer.
pub fn finish_authentication_ceremony(
    svc: &PasskeyService,
    user: Option<u64>,
    pending: Option<PasskeyAuthentication>,
    cred: &PublicKeyCredential,
) -> (r: (CeremonyAction, bool))
    ensures
        r.1 == match (user, pending) {
            (Some(_), Some(st)) => passkey_authentication_accepted(svc.webauthn(), *cred, st),
            _ => false,
        },
        r.0 == match user {
            None => CeremonyAction::Respond(Status::Unauthorized),
            Some(u) => if r.1 {
                CeremonyAction::SignIn(u)
            } else {
                CeremonyAction::Respond(Status::Unauthorized)
            },
        },
{
    match user {
        None => (finish_ceremony_step(CeremonyEvent::NoUser, Status::Unauthorized), false),
        Some(u) => match pending {
            None => (finish_ceremony_step(CeremonyEvent::NoPendingCeremony(u), Status::Unauthorized), false),
            Some(state) => {
                let ok = finish_passkey_authentication(&svc.w, cred, &state);
                (finish_ceremony_step(CeremonyEvent::Finished { user_id: u, ok }, Status::Unauthorized), ok)
            },
        },
    }
}

} // verus!
