use pollkey::engine::{
    complete_authentication, finish_auth, finish_reg, record_authentication, record_registration, start_auth,
    start_reg, AuthenticationState, RegistrationState, RelyingParty,
};
use pollkey::error::ApiError;
use pollkey::users::UserStore;
use webauthn_authenticator_rs::softpasskey::SoftPasskey;
use webauthn_authenticator_rs::WebauthnAuthenticator;
use webauthn_rs::prelude::{Passkey, Url, Uuid, Webauthn, WebauthnBuilder};

fn relying_party() -> (RelyingParty, Url) {
    let origin = Url::parse("http://localhost:3000").unwrap();
    let w = RelyingParty::new("localhost", &origin).unwrap();
    (w, origin)
}

#[test]
fn registration_happy_path() {
    let (w, origin) = relying_party();
    let mut device = WebauthnAuthenticator::new(SoftPasskey::new(true));
    let mut regs = RegistrationState::new();
    let mut users: UserStore<Passkey> = UserStore::new();
    let (id, challenge) = start_reg(&w, &mut regs, "alice".to_string(), 1000).unwrap();
    let response = device.do_registration(origin, challenge).unwrap();
    assert_eq!(finish_reg(&w, &mut regs, &mut users, id, &response, 1005), Ok(id));
    let alice = users.get_user(&"alice".to_string()).unwrap();
    assert_eq!(alice.user_id, id);
    assert_eq!(alice.keys.len(), 1);
    assert!(alice.polls_voted.is_empty());
    assert!(regs.get(id, 1005).is_err());
    assert_eq!(finish_reg(&w, &mut regs, &mut users, id, &response, 1006), Err(ApiError::CorruptSession));
}

#[test]
fn registration_with_taken_name_is_database_error() {
    let (w, origin) = relying_party();
    let mut device = WebauthnAuthenticator::new(SoftPasskey::new(true));
    let mut regs = RegistrationState::new();
    let mut users: UserStore<Passkey> = UserStore::new();
    let (id, challenge) = start_reg(&w, &mut regs, "alice".to_string(), 0).unwrap();
    let response = device.do_registration(origin.clone(), challenge).unwrap();
    finish_reg(&w, &mut regs, &mut users, id, &response, 1).unwrap();
    let (id2, challenge2) = start_reg(&w, &mut regs, "alice".to_string(), 2).unwrap();
    let response2 = device.do_registration(origin, challenge2).unwrap();
    assert_eq!(finish_reg(&w, &mut regs, &mut users, id2, &response2, 3), Err(ApiError::Database));
    assert_eq!(users.get_user(&"alice".to_string()).unwrap().user_id, id);
}

#[test]
fn authentication_happy_path() {
    let (w, origin) = relying_party();
    let mut device = WebauthnAuthenticator::new(SoftPasskey::new(true));
    let mut regs = RegistrationState::new();
    let mut users: UserStore<Passkey> = UserStore::new();
    let (id, challenge) = start_reg(&w, &mut regs, "alice".to_string(), 1000).unwrap();
    let response = device.do_registration(origin.clone(), challenge).unwrap();
    finish_reg(&w, &mut regs, &mut users, id, &response, 1005).unwrap();

    let alice = "alice".to_string();
    let mut auths = AuthenticationState::new();
    let request = start_auth(&w, &mut auths, &users, &alice, 2000).unwrap();
    let assertion = device.do_authentication(origin.clone(), request).unwrap();
    let claims = finish_auth(&w, &mut auths, &mut users, &alice, &assertion, 2005).unwrap();
    assert_eq!(claims.uuid, id);
    assert_eq!(claims.iat, 2005);
    assert_eq!(claims.exp - claims.iat, 86400);
    assert!(auths.get(id, 2005).is_err());
    assert_eq!(users.get_user(&alice).unwrap().keys.len(), 1);

    assert_eq!(finish_auth(&w, &mut auths, &mut users, &alice, &assertion, 2006), Err(ApiError::CorruptSession));

    let request2 = start_auth(&w, &mut auths, &users, &alice, 3000).unwrap();
    let assertion2 = device.do_authentication(origin, request2).unwrap();
    assert!(finish_auth(&w, &mut auths, &mut users, &alice, &assertion2, 3001).is_ok());
}

#[test]
fn stale_assertion_is_bad_request() {
    let (w, origin) = relying_party();
    let mut device = WebauthnAuthenticator::new(SoftPasskey::new(true));
    let mut regs = RegistrationState::new();
    let mut users: UserStore<Passkey> = UserStore::new();
    let (id, challenge) = start_reg(&w, &mut regs, "alice".to_string(), 0).unwrap();
    let response = device.do_registration(origin.clone(), challenge).unwrap();
    finish_reg(&w, &mut regs, &mut users, id, &response, 1).unwrap();
    let alice = "alice".to_string();
    let mut auths = AuthenticationState::new();
    let first = start_auth(&w, &mut auths, &users, &alice, 10).unwrap();
    let stale = device.do_authentication(origin, first).unwrap();
    start_auth(&w, &mut auths, &users, &alice, 11).unwrap();
    assert_eq!(finish_auth(&w, &mut auths, &mut users, &alice, &stale, 12), Err(ApiError::BadRequest));
}

#[test]
fn accepted_assertion_signs_in() {
    let (rp, origin) = relying_party();
    let w: Webauthn = WebauthnBuilder::new("localhost", &origin).unwrap().build().unwrap();
    let mut device = WebauthnAuthenticator::new(SoftPasskey::new(true));
    let mut regs = RegistrationState::new();
    let mut users: UserStore<Passkey> = UserStore::new();
    let (id, challenge) = start_reg(&rp, &mut regs, "alice".to_string(), 0).unwrap();
    let response = device.do_registration(origin.clone(), challenge).unwrap();
    finish_reg(&rp, &mut regs, &mut users, id, &response, 1).unwrap();
    let alice = "alice".to_string();
    let keys = users.get_user(&alice).unwrap().keys.clone();
    let (request, state) = w.start_passkey_authentication(&keys).unwrap();
    let assertion = device.do_authentication(origin, request).unwrap();
    let result = w.finish_passkey_authentication(&assertion, &state).unwrap();
    assert_eq!(complete_authentication(&mut users, &alice, Ok(result.clone()), u64::MAX), Err(ApiError::Token));
    assert_eq!(complete_authentication(&mut users, &"bob".to_string(), Ok(result.clone()), 5), Err(ApiError::UserNotFound));
    let claims = complete_authentication(&mut users, &alice, Ok(result), 5).unwrap();
    assert_eq!(claims.uuid, id);
    assert_eq!(claims.exp, 86405);
    assert_eq!(users.get_user(&alice).unwrap().keys.len(), 1);
}

#[test]
fn accepted_starts_keep_the_library_state() {
    let (rp, origin) = relying_party();
    let w: Webauthn = WebauthnBuilder::new("localhost", &origin).unwrap().build().unwrap();
    let mut device = WebauthnAuthenticator::new(SoftPasskey::new(true));
    let mut regs = RegistrationState::new();
    let outcome = w.start_passkey_registration(Uuid::from_u128(9), "carol", "carol", None);
    let (id, challenge) = record_registration(&mut regs, "carol".to_string(), 9, outcome, 100).unwrap();
    assert_eq!(id, 9);
    assert_eq!(regs.get(9, 100).unwrap().username, "carol");
    let response = device.do_registration(origin.clone(), challenge).unwrap();
    let mut users: UserStore<Passkey> = UserStore::new();
    assert_eq!(finish_reg(&rp, &mut regs, &mut users, 9, &response, 101), Ok(9));

    let keys = users.get_user(&"carol".to_string()).unwrap().keys.clone();
    let mut auths = AuthenticationState::new();
    let started = w.start_passkey_authentication(&keys);
    let request = record_authentication(&mut auths, 9, started, 200).unwrap();
    assert_eq!(auths.get(9, 200).unwrap().user_id, 9);
    let assertion = device.do_authentication(origin, request).unwrap();
    let claims = finish_auth(&rp, &mut auths, &mut users, &"carol".to_string(), &assertion, 201).unwrap();
    assert_eq!(claims.uuid, 9);
}
