//! The calls into webauthn-rs that the ceremony engine makes.
use vstd::prelude::*;
use webauthn_rs::prelude::{
    AuthenticationResult, CreationChallengeResponse, Passkey, PasskeyAuthentication,
    PasskeyRegistration, PublicKeyCredential, RegisterPublicKeyCredential, RequestChallengeResponse,
    Url, Uuid, Webauthn, WebauthnBuilder, WebauthnError,
};

verus! {

#[verifier::external_type_specification]
#[verifier::external_body]
pub struct ExWebauthn(Webauthn);

#[verifier::external_type_specification]
#[verifier::external_body]
pub struct ExUrl(Url);

#[verifier::external_type_specification]
#[verifier::external_body]
pub struct ExPasskey(Passkey);

#[verifier::external_type_specification]
#[verifier::external_body]
pub struct ExPasskeyRegistration(PasskeyRegistration);

#[verifier::external_type_specification]
#[verifier::external_body]
pub struct ExPasskeyAuthentication(PasskeyAuthentication);

#[verifier::external_type_specification]
#[verifier::external_body]
pub struct ExCreationChallengeResponse(CreationChallengeResponse);

#[verifier::external_type_specification]
#[verifier::external_body]
pub struct ExRequestChallengeResponse(RequestChallengeResponse);

#[verifier::external_type_specification]
#[verifier::external_body]
pub struct ExRegisterPublicKeyCredential(RegisterPublicKeyCredential);

#[verifier::external_type_specification]
#[verifier::external_body]
pub struct ExPublicKeyCredential(PublicKeyCredential);

#[verifier::external_type_specification]
#[verifier::external_body]
pub struct ExAuthenticationResult(AuthenticationResult);

#[verifier::external_type_specification]
#[verifier::external_body]
pub struct ExWebauthnError(WebauthnError);

/// Relies on `WebauthnBuilder::new` and its `build`: a relying party for `rp_id` at
/// `origin` with every builder setting left at its default, the ceremony timeout at
/// 300 s among them; `None` when `rp_id` is no effective domain of `origin`.
#[verifier::external_body]
pub(crate) fn build_webauthn(rp_id: &str, origin: &Url) -> (r: Option<Webauthn>) {
    WebauthnBuilder::new(rp_id, origin).and_then(|b| b.build()).ok()
}

/// Relies on uuid's `Uuid::new_v4`: a random identifier, nothing known of its value.
#[verifier::external_body]
pub(crate) fn fresh_user_id() -> (r: u128) {
    Uuid::new_v4().as_u128()
}

/// Relies on `Webauthn::start_passkey_registration`: a creation challenge for the
/// user id and name, no credentials excluded. The challenge is random.
#[verifier::external_body]
pub(crate) fn begin_passkey_registration(
    webauthn: &Webauthn,
    user_id: u128,
    user_name: &String,
) -> (r: Result<(CreationChallengeResponse, PasskeyRegistration), WebauthnError>) {
    webauthn.start_passkey_registration(Uuid::from_u128(user_id), user_name, user_name, None)
}

/// Relies on `Webauthn::finish_passkey_registration`: checks the client's attestation
/// against the stored registration state.
#[verifier::external_body]
pub(crate) fn complete_passkey_registration(
    webauthn: &Webauthn,
    response: &RegisterPublicKeyCredential,
    state: &PasskeyRegistration,
) -> (r: Result<Passkey, WebauthnError>) {
    webauthn.finish_passkey_registration(response, state)
}

/// Relies on `Webauthn::start_passkey_authentication`: a request challenge that
/// allows the given credentials. The challenge is random.
#[verifier::external_body]
pub(crate) fn begin_passkey_authentication(
    webauthn: &Webauthn,
    keys: &Vec<Passkey>,
) -> (r: Result<(RequestChallengeResponse, PasskeyAuthentication), WebauthnError>) {
    webauthn.start_passkey_authentication(keys.as_slice())
}

/// Relies on `Webauthn::finish_passkey_authentication`: checks the client's assertion
/// against the stored authentication state, counter regression included.
#[verifier::external_body]
pub(crate) fn complete_passkey_authentication(
    webauthn: &Webauthn,
    assertion: &PublicKeyCredential,
    state: &PasskeyAuthentication,
) -> (r: Result<AuthenticationResult, WebauthnError>) {
    webauthn.finish_passkey_authentication(assertion, state)
}

/// Relies on `Passkey::update_credential`: a credential whose id matches the result
/// takes over its counter and backup flags; any other is left as it was.
#[verifier::external_body]
pub(crate) fn update_credential(key: &mut Passkey, result: &AuthenticationResult) {
    let _ = key.update_credential(result);
}

} // verus!
