//! The WebAuthn ceremony engine: registration and authentication, each a start and
//! a finish joined by a ceremony slot.
use vstd::prelude::*;
use webauthn_rs::prelude::{
    AuthenticationResult, CreationChallengeResponse, Passkey, PasskeyAuthentication,
    PasskeyRegistration, PublicKeyCredential, RegisterPublicKeyCredential, RequestChallengeResponse,
    Url, Webauthn, WebauthnError,
};
use crate::error::ApiError;
use crate::passkey::{
    begin_passkey_authentication, begin_passkey_registration, build_webauthn,
    complete_passkey_authentication, complete_passkey_registration, fresh_user_id, update_credential,
};
use crate::session::{Claims, SESSION_LIFETIME_SECS};
use crate::store::{Slot, SlotStore, holds_live};
use crate::users::{User, UserStore, has_user, has_user_id, user_at};

verus! {

/// Server side of a registration in flight.
pub struct RegistrationData {
    pub username: String,
    pub user_id: u128,
    pub registration: PasskeyRegistration,
}

/// Server side of an authentication in flight.
pub struct AuthenticationData {
    pub user_id: u128,
    pub authentication: PasskeyAuthentication,
}

/// Registration slots, keyed by the id of the user being registered.
pub type RegistrationState = SlotStore<RegistrationData>;

/// Authentication slots, keyed by the id of the user signing in.
pub type AuthenticationState = SlotStore<AuthenticationData>;

/// `u` is a fresh account for `name` under `user_id` with the one credential `key`.
pub open spec fn fresh_account<K>(u: User<K>, user_id: u128, name: Seq<char>, key: K) -> bool {
    &&& u.user_id == user_id
    &&& u.user_name@ == name
    &&& u.keys@ == seq![key]
    &&& u.polls_voted@.len() == 0
    &&& u.owned_polls@.len() == 0
}

/// `b` is account `a` after a sign-in: same identity and history, as many credentials.
pub open spec fn signed_in<K>(a: User<K>, b: User<K>) -> bool {
    &&& b.user_id == a.user_id
    &&& b.user_name == a.user_name
    &&& b.polls_voted == a.polls_voted
    &&& b.owned_polls == a.owned_polls
    &&& b.keys@.len() == a.keys@.len()
}

/// A WebAuthn relying party whose ceremonies keep the library's default timeout.
pub struct RelyingParty {
    webauthn: Webauthn,
}

impl RelyingParty {
    /// The relying party `rp_id` served at `origin`; `None` when `rp_id` is no
    /// effective domain of `origin`.
    pub fn new(rp_id: &str, origin: &Url) -> (r: Option<RelyingParty>) {
        match build_webauthn(rp_id, origin) {
            Some(webauthn) => Some(RelyingParty { webauthn }),
            None => None,
        }
    }
}

/// Keeps the server side of a registration that the library opened (`outcome`) in a
/// slot under `user_id`, and hands the challenge out with that id.
pub fn record_registration(
    store: &mut RegistrationState,
    username: String,
    user_id: u128,
    outcome: Result<(CreationChallengeResponse, PasskeyRegistration), WebauthnError>,
    now: u64,
) -> (r: Result<(u128, CreationChallengeResponse), ApiError>)
    requires
        old(store).wf(),
    ensures
        final(store).wf(),
        match outcome {
            Ok((c, st)) => {
                &&& r == Ok::<(u128, CreationChallengeResponse), ApiError>((user_id, c))
                &&& final(store)@ == old(store)@.insert(
                    user_id,
                    (Slot {
                        key: user_id,
                        record: (RegistrationData { username, user_id, registration: st }),
                        created_at: now,
                    }),
                )
            },
            Err(_) => r == Err::<(u128, CreationChallengeResponse), ApiError>(ApiError::Unknown)
                && final(store)@ == old(store)@,
        },
{
    match outcome {
        Ok((challenge, registration)) => {
            store.insert(user_id, RegistrationData { username, user_id, registration }, now);
            Ok((user_id, challenge))
        },
        Err(_) => Err(ApiError::Unknown),
    }
}

/// Opens a registration for `username` under a fresh user id, which also keys the
/// slot, and returns that id with the challenge for the client.
pub fn start_reg(
    rp: &RelyingParty,
    store: &mut RegistrationState,
    username: String,
    now: u64,
) -> (r: Result<(u128, CreationChallengeResponse), ApiError>)
    requires
        old(store).wf(),
    ensures
        final(store).wf(),
        match r {
            Ok((id, _)) => {
                &&& final(store)@ == old(store)@.insert(
                    id,
                    Slot { key: id, record: final(store)@[id].record, created_at: now },
                )
                &&& final(store)@[id].record.username == username
                &&& final(store)@[id].record.user_id == id
            },
            Err(e) => e == ApiError::Unknown && final(store)@ == old(store)@,
        },
{
    let user_id = fresh_user_id();
    let outcome = begin_passkey_registration(&rp.webauthn, user_id, &username);
    record_registration(store, username, user_id, outcome, now)
}

/// Stores the account that a registration creates once the library has judged the
/// client's attestation: `outcome` is that judgement.
pub fn commit_registration<K, E>(
    users: &mut UserStore<K>,
    username: String,
    user_id: u128,
    outcome: Result<K, E>,
) -> (r: Result<u128, ApiError>)
    requires
        old(users).wf(),
    ensures
        final(users).wf(),
        match outcome {
            Err(_) => r == Err::<u128, ApiError>(ApiError::BadRequest) && final(users)@ == old(users)@,
            Ok(key) => match r {
                Ok(id) => {
                    &&& id == user_id
                    &&& !has_user(old(users)@, username@)
                    &&& !has_user_id(old(users)@, user_id)
                    &&& final(users)@.len() == old(users)@.len() + 1
                    &&& final(users)@.drop_last() == old(users)@
                    &&& fresh_account(final(users)@.last(), user_id, username@, key)
                },
                Err(e) => {
                    &&& e == ApiError::Database
                    &&& final(users)@ == old(users)@
                    &&& (has_user(old(users)@, username@) || has_user_id(old(users)@, user_id))
                },
            },
        },
{
    match outcome {
        Err(_) => Err(ApiError::BadRequest),
        Ok(key) => {
            let mut keys: Vec<K> = Vec::new();
            keys.push(key);
            let user = User {
                user_id,
                user_name: username,
                polls_voted: Vec::new(),
                owned_polls: Vec::new(),
                keys,
            };
            assert(user.keys@ =~= seq![key]);
            assert(user.polls_voted@.no_duplicates());
            assert(user.owned_polls@.no_duplicates());
            let ghost u0 = users@;
            match users.create_user(user) {
                Ok(()) => {
                    assert(users@.drop_last() =~= u0);
                    Ok(user_id)
                },
                Err(_) => Err(ApiError::Database),
            }
        },
    }
}

/// Finishes the registration kept under `ceremony`: the slot is used up whatever
/// happens, and a new account is stored when the library accepts the attestation.
pub fn finish_reg(
    rp: &RelyingParty,
    store: &mut RegistrationState,
    users: &mut UserStore<Passkey>,
    ceremony: u128,
    response: &RegisterPublicKeyCredential,
    now: u64,
) -> (r: Result<u128, ApiError>)
    requires
        old(store).wf(),
        old(users).wf(),
    ensures
        final(store).wf(),
        final(users).wf(),
        final(store)@ == old(store)@.remove(ceremony),
        !holds_live(old(store)@, ceremony, now) ==> r == Err::<u128, ApiError>(ApiError::CorruptSession),
        match r {
            Ok(id) => {
                &&& holds_live(old(store)@, ceremony, now)
                &&& id == old(store)@[ceremony].record.user_id
                &&& final(users)@.len() == old(users)@.len() + 1
                &&& final(users)@.drop_last() == old(users)@
                &&& final(users)@.last().user_id == id
                &&& final(users)@.last().user_name@ == old(store)@[ceremony].record.username@
                &&& final(users)@.last().keys@.len() == 1
                &&& final(users)@.last().polls_voted@.len() == 0
                &&& final(users)@.last().owned_polls@.len() == 0
            },
            Err(e) => {
                &&& final(users)@ == old(users)@
                &&& (e == ApiError::CorruptSession <==> !holds_live(old(store)@, ceremony, now))
                &&& (e == ApiError::CorruptSession || e == ApiError::BadRequest || e == ApiError::Database)
            },
        },
{
    let data = match store.take(ceremony, now) {
        Ok(data) => data,
        Err(_) => return Err(ApiError::CorruptSession),
    };
    let outcome = complete_passkey_registration(&rp.webauthn, response, &data.registration);
    commit_registration(users, data.username, data.user_id, outcome)
}

/// Keeps the server side of an authentication that the library opened (`outcome`) in
/// a slot under `user_id`, and hands the challenge out.
pub fn record_authentication(
    store: &mut AuthenticationState,
    user_id: u128,
    outcome: Result<(RequestChallengeResponse, PasskeyAuthentication), WebauthnError>,
    now: u64,
) -> (r: Result<RequestChallengeResponse, ApiError>)
    requires
        old(store).wf(),
    ensures
        final(store).wf(),
        match outcome {
            Ok((c, st)) => {
                &&& r == Ok::<RequestChallengeResponse, ApiError>(c)
                &&& final(store)@ == old(store)@.insert(
                    user_id,
                    (Slot {
                        key: user_id,
                        record: (AuthenticationData { user_id, authentication: st }),
                        created_at: now,
                    }),
                )
            },
            Err(_) => r == Err::<RequestChallengeResponse, ApiError>(ApiError::Unknown) && final(store)@
                == old(store)@,
        },
{
    match outcome {
        Ok((challenge, authentication)) => {
            store.insert(user_id, AuthenticationData { user_id, authentication }, now);
            Ok(challenge)
        },
        Err(_) => Err(ApiError::Unknown),
    }
}

/// Opens an authentication for the user called `username`. A slot the user already
/// had is dropped first; the new one is keyed by the user's id.
pub fn start_auth(
    rp: &RelyingParty,
    store: &mut AuthenticationState,
    users: &UserStore<Passkey>,
    username: &String,
    now: u64,
) -> (r: Result<RequestChallengeResponse, ApiError>)
    requires
        old(store).wf(),
        users.wf(),
    ensures
        final(store).wf(),
        !has_user(users@, username@) ==> r is Err && r->Err_0 == ApiError::UserNotFound
            && final(store)@ == old(store)@,
        forall|i: int|
            user_at(users@, i, username@) ==> {
                let uid = #[trigger] users@[i].user_id;
                match r {
                    Ok(_) => {
                        &&& final(store)@ == old(store)@.insert(
                            uid,
                            Slot { key: uid, record: final(store)@[uid].record, created_at: now },
                        )
                        &&& final(store)@[uid].record.user_id == uid
                    },
                    Err(e) => e == ApiError::Unknown && final(store)@ == old(store)@.remove(uid),
                }
            },
{
    let user = match users.get_user(username) {
        Some(user) => user,
        None => return Err(ApiError::UserNotFound),
    };
    proof {
        users.lemma_wf();
    }
    let user_id = user.user_id;
    let _ = store.remove(user_id);
    let outcome = begin_passkey_authentication(&rp.webauthn, &user.keys);
    let ghost m1 = store@;
    let r = record_authentication(store, user_id, outcome, now);
    proof {
        if r is Ok {
            assert(m1.insert(user_id, store@[user_id]) =~= old(store)@.insert(user_id, store@[user_id]));
        }
    }
    r
}

/// Completes a sign-in of the user called `username` once the library has judged the
/// assertion (`outcome`): on acceptance every credential of the user takes in the
/// result, the account is stored again, and the claims of a session token issued at
/// `now` come back; on refusal nothing changes.
pub fn complete_authentication(
    users: &mut UserStore<Passkey>,
    username: &String,
    outcome: Result<AuthenticationResult, WebauthnError>,
    now: u64,
) -> (r: Result<Claims, ApiError>)
    requires
        old(users).wf(),
    ensures
        final(users).wf(),
        match outcome {
            Err(_) => r == Err::<Claims, ApiError>(ApiError::BadRequest) && final(users)@ == old(users)@,
            Ok(_) => if !has_user(old(users)@, username@) {
                r == Err::<Claims, ApiError>(ApiError::UserNotFound) && final(users)@ == old(users)@
            } else {
                forall|i: int|
                    user_at(old(users)@, i, username@) ==> if now + SESSION_LIFETIME_SECS <= u64::MAX {
                        &&& r == Ok::<Claims, ApiError>(
                            (Claims {
                                exp: (now + SESSION_LIFETIME_SECS) as u64,
                                iat: now,
                                uuid: #[trigger] old(users)@[i].user_id,
                            }),
                        )
                        &&& final(users)@.len() == old(users)@.len()
                        &&& final(users)@.drop_last() == old(users)@.remove(i)
                        &&& signed_in(old(users)@[i], final(users)@.last())
                    } else {
                        r == Err::<Claims, ApiError>(ApiError::Token) && final(users)@ == old(users)@
                    }
            },
        },
{
    let result = match outcome {
        Ok(result) => result,
        Err(_) => return Err(ApiError::BadRequest),
    };
    proof {
        users.lemma_wf();
    }
    let user_id = match users.get_user(username) {
        Some(user) => user.user_id,
        None => return Err(ApiError::UserNotFound),
    };
    let claims = match Claims::issue(user_id, now) {
        Ok(c) => c,
        Err(e) => return Err(e),
    };
    let ghost u0 = users@;
    let mut user = match users.take_user(username) {
        Some(user) => user,
        None => return Err(ApiError::UserNotFound),
    };
    let ghost before = user;
    let n = user.keys.len();
    let mut updated: Vec<Passkey> = Vec::new();
    while user.keys.len() > 0
        invariant
            updated@.len() + user.keys@.len() == n,
            user.user_id == before.user_id,
            user.user_name == before.user_name,
            user.polls_voted == before.polls_voted,
            user.owned_polls == before.owned_polls,
        decreases user.keys.len(),
    {
        let mut key = user.keys.remove(0);
        update_credential(&mut key, &result);
        updated.push(key);
    }
    user.keys = updated;
    proof {
        let i = choose|i: int| user_at(u0, i, username@) && before == u0[i];
        assert(users@ == u0.remove(i));
        assert(!has_user(users@, username@)) by {
            if has_user(users@, username@) {
                let j = choose|j: int| user_at(users@, j, username@);
                let j0 = if j < i { j } else { j + 1 };
                assert(users@[j] == u0[j0]);
            }
        }
        assert(!has_user_id(users@, user.user_id)) by {
            if has_user_id(users@, user.user_id) {
                let j = choose|j: int| 0 <= j < users@.len() && users@[j].user_id == user.user_id;
                let j0 = if j < i { j } else { j + 1 };
                assert(users@[j] == u0[j0]);
            }
        }
    }
    let ghost u1 = users@;
    let stored = users.create_user(user);
    assert(stored is Ok);
    assert(users@.drop_last() =~= u1);
    Ok(claims)
}

/// Finishes the authentication of the user called `username`: the user's slot is used
/// up whatever happens; when the library accepts the assertion every credential of
/// the user takes in the result, the account is stored again, and the claims of a
/// session token issued at `now` come back.
pub fn finish_auth(
    rp: &RelyingParty,
    store: &mut AuthenticationState,
    users: &mut UserStore<Passkey>,
    username: &String,
    assertion: &PublicKeyCredential,
    now: u64,
) -> (r: Result<Claims, ApiError>)
    requires
        old(store).wf(),
        old(users).wf(),
    ensures
        final(store).wf(),
        final(users).wf(),
        !has_user(old(users)@, username@) ==> r is Err && r->Err_0 == ApiError::UserNotFound
            && final(store)@ == old(store)@ && final(users)@ == old(users)@,
        forall|i: int|
            user_at(old(users)@, i, username@) ==> {
                let uid = #[trigger] old(users)@[i].user_id;
                &&& final(store)@ == old(store)@.remove(uid)
                &&& !holds_live(old(store)@, uid, now) ==> r == Err::<Claims, ApiError>(
                    ApiError::CorruptSession,
                )
                &&& match r {
                    Ok(c) => {
                        &&& holds_live(old(store)@, uid, now)
                        &&& c == (Claims {
                            exp: (now + SESSION_LIFETIME_SECS) as u64,
                            iat: now,
                            uuid: uid,
                        })
                        &&& now + SESSION_LIFETIME_SECS <= u64::MAX
                        &&& final(users)@.len() == old(users)@.len()
                        &&& final(users)@.drop_last() == old(users)@.remove(i)
                        &&& signed_in(old(users)@[i], final(users)@.last())
                    },
                    Err(e) => {
                        &&& final(users)@ == old(users)@
                        &&& (e == ApiError::CorruptSession <==> !holds_live(old(store)@, uid, now))
                        &&& (e == ApiError::CorruptSession || e == ApiError::BadRequest || e
                            == ApiError::Token)
                        &&& (e == ApiError::Token ==> now + SESSION_LIFETIME_SECS > u64::MAX)
                    },
                }
            },
{
    proof {
        users.lemma_wf();
    }
    let user_id = match users.get_user(username) {
        Some(user) => user.user_id,
        None => return Err(ApiError::UserNotFound),
    };
    let data = match store.take(user_id, now) {
        Ok(data) => data,
        Err(_) => return Err(ApiError::CorruptSession),
    };
    let outcome = complete_passkey_authentication(&rp.webauthn, assertion, &data.authentication);
    complete_authentication(users, username, outcome, now)
}

} // verus!
