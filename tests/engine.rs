use pollkey::engine::{commit_registration, complete_authentication, finish_auth, finish_reg, start_auth, start_reg};
use pollkey::engine::{record_authentication, record_registration, AuthenticationState, RegistrationState, RelyingParty};
use pollkey::error::ApiError;
use pollkey::users::{User, UserStore};
use webauthn_rs::prelude::{Passkey, PublicKeyCredential, RegisterPublicKeyCredential, Url, WebauthnError};

fn webauthn() -> RelyingParty {
    let origin = Url::parse("http://localhost:3000").unwrap();
    RelyingParty::new("localhost", &origin).unwrap()
}

fn bogus_attestation() -> RegisterPublicKeyCredential {
    serde_json::from_str(
        r#"{"id":"AAAA","rawId":"AAAA","response":{"attestationObject":"AAAA","clientDataJSON":"AAAA"},"type":"public-key"}"#,
    )
    .unwrap()
}

fn bogus_assertion() -> PublicKeyCredential {
    serde_json::from_str(
        r#"{"id":"AAAA","rawId":"AAAA","response":{"authenticatorData":"AAAA","clientDataJSON":"AAAA","signature":"AAAA","userHandle":null},"type":"public-key"}"#,
    )
    .unwrap()
}

#[test]
fn start_reg_keeps_a_slot_for_the_new_user() {
    let w = webauthn();
    let mut store = RegistrationState::new();
    let (id, _challenge) = start_reg(&w, &mut store, "alice".to_string(), 1000).unwrap();
    let data = store.get(id, 1000).unwrap();
    assert_eq!(data.username, "alice");
    assert_eq!(data.user_id, id);
}

#[test]
fn finish_reg_without_slot_is_corrupt_session() {
    let w = webauthn();
    let mut store = RegistrationState::new();
    let mut users: UserStore<Passkey> = UserStore::new();
    let r = finish_reg(&w, &mut store, &mut users, 42, &bogus_attestation(), 0);
    assert_eq!(r, Err(ApiError::CorruptSession));
}

#[test]
fn finish_reg_bad_attestation_then_replay() {
    let w = webauthn();
    let mut store = RegistrationState::new();
    let mut users: UserStore<Passkey> = UserStore::new();
    let (id, _) = start_reg(&w, &mut store, "alice".to_string(), 1000).unwrap();
    let r = finish_reg(&w, &mut store, &mut users, id, &bogus_attestation(), 1010);
    assert_eq!(r, Err(ApiError::BadRequest));
    assert!(store.get(id, 1010).is_err());
    let again = finish_reg(&w, &mut store, &mut users, id, &bogus_attestation(), 1011);
    assert_eq!(again, Err(ApiError::CorruptSession));
    assert!(users.get_user(&"alice".to_string()).is_none());
}

#[test]
fn finish_reg_after_ttl_is_corrupt_session() {
    let w = webauthn();
    let mut store = RegistrationState::new();
    let mut users: UserStore<Passkey> = UserStore::new();
    let (id, _) = start_reg(&w, &mut store, "alice".to_string(), 1000).unwrap();
    let r = finish_reg(&w, &mut store, &mut users, id, &bogus_attestation(), 1301);
    assert_eq!(r, Err(ApiError::CorruptSession));
    assert!(store.get(id, 1000).is_err());
}

#[test]
fn start_auth_unknown_user() {
    let w = webauthn();
    let mut store = AuthenticationState::new();
    let users: UserStore<Passkey> = UserStore::new();
    let r = start_auth(&w, &mut store, &users, &"nobody".to_string(), 0);
    assert!(matches!(r, Err(ApiError::UserNotFound)));
}

#[test]
fn finish_auth_unknown_user() {
    let w = webauthn();
    let mut store = AuthenticationState::new();
    let mut users: UserStore<Passkey> = UserStore::new();
    let r = finish_auth(&w, &mut store, &mut users, &"nobody".to_string(), &bogus_assertion(), 0);
    assert_eq!(r, Err(ApiError::UserNotFound));
}

#[test]
fn commit_registration_creates_one_account() {
    let mut users: UserStore<u8> = UserStore::new();
    assert_eq!(commit_registration::<u8, ()>(&mut users, "alice".to_string(), 77, Ok(5)), Ok(77));
    let u: &User<u8> = users.get_user(&"alice".to_string()).unwrap();
    assert_eq!(u.user_id, 77);
    assert_eq!(u.keys, vec![5]);
    assert!(u.polls_voted.is_empty());
    assert!(u.owned_polls.is_empty());
}

#[test]
fn commit_registration_refused_attestation() {
    let mut users: UserStore<u8> = UserStore::new();
    assert_eq!(commit_registration::<u8, ()>(&mut users, "alice".to_string(), 77, Err(())), Err(ApiError::BadRequest));
    assert!(users.get_user(&"alice".to_string()).is_none());
}

#[test]
fn commit_registration_taken_name_is_database_error() {
    let mut users: UserStore<u8> = UserStore::new();
    commit_registration::<u8, ()>(&mut users, "alice".to_string(), 1, Ok(1)).unwrap();
    assert_eq!(commit_registration::<u8, ()>(&mut users, "alice".to_string(), 2, Ok(2)), Err(ApiError::Database));
    assert_eq!(commit_registration::<u8, ()>(&mut users, "bob".to_string(), 1, Ok(2)), Err(ApiError::Database));
    assert_eq!(users.get_user(&"alice".to_string()).unwrap().keys, vec![1]);
}

fn passkey() -> Passkey {
    let x: Vec<String> = (1..=32).map(|b: u32| b.to_string()).collect();
    let y: Vec<String> = (33..=64).map(|b: u32| b.to_string()).collect();
    let json = format!(
        r#"{{"cred":{{"cred_id":"AQIDBA","cred":{{"type_":"ES256","key":{{"EC_EC2":{{"curve":"SECP256R1","x":[{}],"y":[{}]}}}}}},"counter":0,"transports":null,"user_verified":true,"backup_eligible":false,"backup_state":false,"registration_policy":"required","extensions":{{}},"attestation":{{"data":"None","metadata":"None"}},"attestation_format":"none"}}}}"#,
        x.join(","),
        y.join(",")
    );
    serde_json::from_str(&json).unwrap()
}

fn registered(names: &[(u128, &str)]) -> UserStore<Passkey> {
    let mut users: UserStore<Passkey> = UserStore::new();
    for (id, name) in names {
        users
            .create_user(User {
                user_id: *id,
                user_name: name.to_string(),
                polls_voted: Vec::new(),
                owned_polls: Vec::new(),
                keys: vec![passkey()],
            })
            .unwrap();
    }
    users
}

#[test]
fn start_auth_keeps_slot_under_user_id() {
    let w = webauthn();
    let mut store = AuthenticationState::new();
    let users = registered(&[(77, "alice")]);
    assert!(start_auth(&w, &mut store, &users, &"alice".to_string(), 500).is_ok());
    assert_eq!(store.get(77, 500).unwrap().user_id, 77);
    assert!(start_auth(&w, &mut store, &users, &"alice".to_string(), 600).is_ok());
    assert!(store.get(77, 899).is_ok());
}

#[test]
fn finish_auth_bad_assertion_uses_up_slot() {
    let w = webauthn();
    let mut store = AuthenticationState::new();
    let mut users = registered(&[(77, "alice")]);
    start_auth(&w, &mut store, &users, &"alice".to_string(), 500).unwrap();
    let alice = "alice".to_string();
    let r = finish_auth(&w, &mut store, &mut users, &alice, &bogus_assertion(), 510);
    assert_eq!(r, Err(ApiError::BadRequest));
    assert!(store.get(77, 510).is_err());
    let again = finish_auth(&w, &mut store, &mut users, &alice, &bogus_assertion(), 511);
    assert_eq!(again, Err(ApiError::CorruptSession));
    assert_eq!(users.get_user(&alice).unwrap().keys.len(), 1);
}

#[test]
fn finish_auth_for_another_user_finds_no_slot() {
    let w = webauthn();
    let mut store = AuthenticationState::new();
    let mut users = registered(&[(77, "alice"), (88, "bob")]);
    start_auth(&w, &mut store, &users, &"alice".to_string(), 500).unwrap();
    let r = finish_auth(&w, &mut store, &mut users, &"bob".to_string(), &bogus_assertion(), 510);
    assert_eq!(r, Err(ApiError::CorruptSession));
    assert!(store.get(77, 510).is_ok());
}

#[test]
fn finish_auth_after_ttl_is_corrupt_session() {
    let w = webauthn();
    let mut store = AuthenticationState::new();
    let mut users = registered(&[(77, "alice")]);
    start_auth(&w, &mut store, &users, &"alice".to_string(), 500).unwrap();
    let r = finish_auth(&w, &mut store, &mut users, &"alice".to_string(), &bogus_assertion(), 801);
    assert_eq!(r, Err(ApiError::CorruptSession));
}

#[test]
fn relying_party_needs_matching_domain() {
    let origin = Url::parse("http://localhost:3000").unwrap();
    assert!(RelyingParty::new("example.com", &origin).is_none());
    assert!(RelyingParty::new("localhost", &origin).is_some());
}

#[test]
fn refused_registration_start_is_unknown() {
    let mut store = RegistrationState::new();
    let r = record_registration(&mut store, "alice".to_string(), 5, Err(WebauthnError::Configuration), 0);
    assert!(matches!(r, Err(ApiError::Unknown)));
    assert!(store.get(5, 0).is_err());
}

#[test]
fn refused_authentication_start_is_unknown() {
    let mut store = AuthenticationState::new();
    let r = record_authentication(&mut store, 5, Err(WebauthnError::Configuration), 0);
    assert!(matches!(r, Err(ApiError::Unknown)));
    assert!(store.get(5, 0).is_err());
}

#[test]
fn refused_assertion_is_bad_request() {
    let mut users = registered(&[(77, "alice")]);
    let alice = "alice".to_string();
    let r = complete_authentication(&mut users, &alice, Err(WebauthnError::CredentialPossibleCompromise), 10);
    assert_eq!(r, Err(ApiError::BadRequest));
    assert_eq!(users.get_user(&alice).unwrap().keys.len(), 1);
}
