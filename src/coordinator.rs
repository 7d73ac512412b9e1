//! One person, one vote: the writes that couple polls and users.
use vstd::prelude::*;
use crate::error::ApiError;
use crate::polls::{
    PollError, PollStore, PollUpdate, VotingPoll, VotingPollInput, created_from, has_poll, poll_at,
    replaced_at, reset_of, vote_refusal, voter_names, with_vote,
};
use crate::users::{
    UserStore, User, Votes, forgot, has_user, user_at, user_replaced, same_account, voted_on,
};

verus! {

/// How the library answers a refused poll write.
pub open spec fn poll_error_kind(e: PollError) -> ApiError {
    match e {
        PollError::NotFound => ApiError::NotFound,
        PollError::AlreadyVotedOrClosed => ApiError::AlreadyVoted,
        PollError::UnknownOption => ApiError::InvalidInput,
        PollError::NoOptions => ApiError::InvalidInput,
        PollError::IdsExhausted => ApiError::Database,
        PollError::TallyFull => ApiError::Database,
    }
}

pub fn poll_error_to_api(e: PollError) -> (r: ApiError)
    ensures
        r == poll_error_kind(e),
{
    match e {
        PollError::NotFound => ApiError::NotFound,
        PollError::AlreadyVotedOrClosed => ApiError::AlreadyVoted,
        PollError::UnknownOption => ApiError::InvalidInput,
        PollError::NoOptions => ApiError::InvalidInput,
        PollError::IdsExhausted => ApiError::Database,
        PollError::TallyFull => ApiError::Database,
    }
}

/// Why a vote of `name` for `option_id` on `poll_id` is refused, if it is.
pub open spec fn vote_error<K>(
    ps: Seq<VotingPoll>,
    us: Seq<User<K>>,
    poll_id: i64,
    option_id: i64,
    name: Seq<char>,
) -> Option<ApiError> {
    if !has_user(us, name) {
        Some(ApiError::UserNotFound)
    } else if exists|u: int| user_at(us, u, name) && voted_on(us[u].polls_voted@, poll_id) {
        Some(ApiError::AlreadyVoted)
    } else if !has_poll(ps, poll_id) {
        Some(ApiError::AlreadyVoted)
    } else {
        let i = choose|i: int| poll_at(ps, i, poll_id);
        match vote_refusal(ps[i], option_id, name) {
            Some(e) => Some(poll_error_kind(e)),
            None => None,
        }
    }
}

/// Every user's history and every poll's voter list tell the same story.
pub open spec fn consistent<K>(ps: Seq<VotingPoll>, us: Seq<User<K>>) -> bool {
    forall|i: int, u: int|
        0 <= i < ps.len() && 0 <= u < us.len() ==> (voter_names(ps[i].users_voted@).contains(
            us[u].user_name@,
        ) <==> voted_on(us[u].polls_voted@, ps[i].poll_id))
}

/// Casts the vote of `username` for `option_id` on poll `poll_id`. The poll's tally
/// and voter list and the user's history change together, or nothing changes.
pub fn cast_vote<K>(
    polls: &mut PollStore,
    users: &mut UserStore<K>,
    poll_id: i64,
    option_id: i64,
    username: String,
) -> (r: Result<(), ApiError>)
    requires
        old(polls).wf(),
        old(users).wf(),
    ensures
        final(polls).wf(),
        final(users).wf(),
        final(polls).next_id_spec() == old(polls).next_id_spec(),
        consistent(old(polls)@, old(users)@) ==> consistent(final(polls)@, final(users)@),
        match r {
            Ok(()) => {
                &&& vote_error(old(polls)@, old(users)@, poll_id, option_id, username@) is None
                &&& exists|i: int|
                    {
                        &&& poll_at(old(polls)@, i, poll_id)
                        &&& replaced_at(old(polls)@, final(polls)@, i)
                        &&& with_vote(old(polls)@[i], final(polls)@[i], option_id, username)
                    }
                &&& exists|u: int|
                    {
                        &&& user_at(old(users)@, u, username@)
                        &&& user_replaced(old(users)@, final(users)@, u)
                        &&& same_account(old(users)@[u], final(users)@[u])
                        &&& final(users)@[u].owned_polls == old(users)@[u].owned_polls
                        &&& final(users)@[u].polls_voted@ == old(users)@[u].polls_voted@.push(
                            Votes { poll_id, option_id },
                        )
                    }
            },
            Err(e) => {
                &&& vote_error(old(polls)@, old(users)@, poll_id, option_id, username@) == Some(e)
                &&& final(polls)@ == old(polls)@
                &&& final(users)@ == old(users)@
            },
        },
{
    proof {
        polls.lemma_wf();
        users.lemma_wf();
    }
    if users.get_user(&username).is_none() {
        return Err(ApiError::UserNotFound);
    }
    if users.has_voted(&username, poll_id) {
        return Err(ApiError::AlreadyVoted);
    }
    let ghost name = username@;
    let ghost ps0 = polls@;
    match polls.vote_poll(poll_id, option_id, username.clone()) {
        Ok(()) => {},
        Err(e) => {
            proof {
                if has_poll(ps0, poll_id) {
                    let i = choose|i: int| poll_at(ps0, i, poll_id);
                    assert(vote_refusal(ps0[i], option_id, name) == Some(e));
                }
            }
            return Err(poll_error_to_api(e));
        },
    }
    proof {
        let i = choose|i: int|
            {
                &&& poll_at(ps0, i, poll_id)
                &&& vote_refusal(ps0[i], option_id, name) is None
                &&& replaced_at(ps0, polls@, i)
                &&& with_vote(ps0[i], polls@[i], option_id, username)
            };
        let j = choose|j: int| poll_at(ps0, j, poll_id);
        assert(i == j);
    }
    let ghost ps1 = polls@;
    let ghost us0 = users@;
    let r = users.add_vote(&username, Votes { poll_id, option_id });
    assert(r is Ok);
    proof {
        if consistent(ps0, us0) {
            let i = choose|i: int|
                {
                    &&& poll_at(ps0, i, poll_id)
                    &&& replaced_at(ps0, ps1, i)
                    &&& with_vote(ps0[i], ps1[i], option_id, username)
                };
            let u = choose|u: int|
                {
                    &&& user_at(us0, u, username@)
                    &&& user_replaced(us0, users@, u)
                    &&& same_account(us0[u], users@[u])
                    &&& users@[u].owned_polls == us0[u].owned_polls
                    &&& users@[u].polls_voted@ == us0[u].polls_voted@.push(Votes { poll_id, option_id })
                };
            lemma_vote_keeps_consistent(ps0, us0, ps1, users@, poll_id, option_id, username, i, u);
        }
    }
    Ok(())
}

/// Casting a vote keeps every user's history in step with every poll's voter list.
pub proof fn lemma_vote_keeps_consistent<K>(
    ps0: Seq<VotingPoll>,
    us0: Seq<User<K>>,
    ps1: Seq<VotingPoll>,
    us1: Seq<User<K>>,
    poll_id: i64,
    option_id: i64,
    username: String,
    i: int,
    u: int,
)
    requires
        consistent(ps0, us0),
        forall|a: int, b: int|
            0 <= a < ps0.len() && 0 <= b < ps0.len() && a != b ==> ps0[a].poll_id != ps0[b].poll_id,
        forall|a: int, b: int|
            0 <= a < us0.len() && 0 <= b < us0.len() && a != b ==> us0[a].user_name@ != us0[b].user_name@,
        poll_at(ps0, i, poll_id),
        replaced_at(ps0, ps1, i),
        with_vote(ps0[i], ps1[i], option_id, username),
        user_at(us0, u, username@),
        user_replaced(us0, us1, u),
        same_account(us0[u], us1[u]),
        us1[u].polls_voted@ == us0[u].polls_voted@.push(Votes { poll_id, option_id }),
    ensures
        consistent(ps1, us1),
{
    assert forall|a: int, b: int| 0 <= a < ps1.len() && 0 <= b < us1.len() implies (voter_names(
        ps1[a].users_voted@,
    ).contains(us1[b].user_name@) <==> voted_on(us1[b].polls_voted@, ps1[a].poll_id)) by {
        let n = us1[b].user_name@;
        assert(us1[b].user_name == us0[b].user_name);
        assert(ps1[a].poll_id == ps0[a].poll_id);
        let v0 = voter_names(ps0[a].users_voted@);
        let v1 = voter_names(ps1[a].users_voted@);
        if a == i {
            assert(v1 =~= v0.push(username@));
            if v1.contains(n) && n != username@ {
                let k = choose|k: int| 0 <= k < v1.len() && v1[k] == n;
                assert(v0[k] == n);
            }
            if v0.contains(n) {
                let k = choose|k: int| 0 <= k < v0.len() && v0[k] == n;
                assert(v1[k] == n);
            }
            if n == username@ {
                assert(v1[v0.len() as int] == n);
            }
        } else {
            assert(ps1[a] == ps0[a]);
        }
        let h0 = us0[b].polls_voted@;
        let h1 = us1[b].polls_voted@;
        if b == u {
            if voted_on(h1, ps1[a].poll_id) && ps1[a].poll_id != poll_id {
                let k = choose|k: int| 0 <= k < h1.len() && h1[k].poll_id == ps1[a].poll_id;
                assert(h0[k].poll_id == ps1[a].poll_id);
            }
            if voted_on(h0, ps1[a].poll_id) {
                let k = choose|k: int| 0 <= k < h0.len() && h0[k].poll_id == ps1[a].poll_id;
                assert(h1[k].poll_id == ps1[a].poll_id);
            }
            assert(h1[h0.len() as int].poll_id == poll_id);
        } else {
            assert(us1[b] == us0[b]);
        }
    }
}


/// Creates a poll from `input` at `now` for its creator, and adds it to the
/// creator's polls. Nothing changes when the creator is unknown or the poll is refused.
pub fn create_owned_poll<K>(
    polls: &mut PollStore,
    users: &mut UserStore<K>,
    input: VotingPollInput,
    now: i64,
) -> (r: Result<i64, ApiError>)
    requires
        old(polls).wf(),
        old(users).wf(),
        input.options@.len() < i64::MAX,
    ensures
        final(polls).wf(),
        final(users).wf(),
        match r {
            Ok(id) => {
                &&& id == old(polls).next_id_spec()
                &&& final(polls).next_id_spec() == id + 1
                &&& final(polls)@.len() == old(polls)@.len() + 1
                &&& final(polls)@.drop_last() == old(polls)@
                &&& created_from(input, final(polls)@.last(), id, now)
                &&& exists|u: int|
                    {
                        &&& user_at(old(users)@, u, input.creator@)
                        &&& user_replaced(old(users)@, final(users)@, u)
                        &&& same_account(old(users)@[u], final(users)@[u])
                        &&& final(users)@[u].polls_voted == old(users)@[u].polls_voted
                        &&& final(users)@[u].owned_polls@ == (if old(users)@[u].owned_polls@.contains(id) {
                            old(users)@[u].owned_polls@
                        } else {
                            old(users)@[u].owned_polls@.push(id)
                        })
                    }
            },
            Err(e) => {
                &&& final(polls)@ == old(polls)@
                &&& final(polls).next_id_spec() == old(polls).next_id_spec()
                &&& final(users)@ == old(users)@
                &&& e == (if !has_user(old(users)@, input.creator@) {
                    ApiError::UserNotFound
                } else if input.options@.len() == 0 {
                    ApiError::InvalidInput
                } else {
                    ApiError::Database
                })
                &&& (!has_user(old(users)@, input.creator@) || input.options@.len() == 0
                    || old(polls).next_id_spec() == i64::MAX)
            },
        },
{
    if users.get_user(&input.creator).is_none() {
        return Err(ApiError::UserNotFound);
    }
    let creator = input.creator.clone();
    let ghost inp = input;
    let id = match polls.create_poll(input, now) {
        Ok(id) => id,
        Err(e) => return Err(poll_error_to_api(e)),
    };
    let r = users.add_owned_poll(&creator, id);
    assert(r is Ok);
    Ok(id)
}


proof fn lemma_forgot_other_polls<K>(a: User<K>, b: User<K>, poll_id: i64, q: i64)
    requires
        forgot(a, b, poll_id),
        q != poll_id,
    ensures
        voted_on(b.polls_voted@, q) <==> voted_on(a.polls_voted@, q),
{
    let va = a.polls_voted@;
    let vb = b.polls_voted@;
    if vb != va {
        let j = choose|j: int| 0 <= j < va.len() && va[j].poll_id == poll_id && vb == va.remove(j);
        if voted_on(vb, q) {
            let k = choose|k: int| 0 <= k < vb.len() && vb[k].poll_id == q;
            let k0 = if k < j { k } else { k + 1 };
            assert(vb[k] == va[k0]);
        }
        if voted_on(va, q) {
            let k = choose|k: int| 0 <= k < va.len() && va[k].poll_id == q;
            assert(k != j);
            let k1 = if k < j { k } else { k - 1 };
            assert(vb[k1] == va[k]);
        }
    }
}

/// Resets poll `poll_id`: its tallies go to zero, its voter list empties, and every
/// user's vote on it leaves their history, so each user may vote on it again.
pub fn reset_poll<K>(polls: &mut PollStore, users: &mut UserStore<K>, poll_id: i64) -> (r: Result<
    (),
    ApiError,
>)
    requires
        old(polls).wf(),
        old(users).wf(),
    ensures
        final(polls).wf(),
        final(users).wf(),
        final(polls).next_id_spec() == old(polls).next_id_spec(),
        consistent(old(polls)@, old(users)@) ==> consistent(final(polls)@, final(users)@),
        match r {
            Ok(()) => {
                &&& exists|i: int|
                    {
                        &&& poll_at(old(polls)@, i, poll_id)
                        &&& replaced_at(old(polls)@, final(polls)@, i)
                        &&& reset_of(old(polls)@[i], final(polls)@[i])
                    }
                &&& final(users)@.len() == old(users)@.len()
                &&& forall|u: int|
                    0 <= u < old(users)@.len() ==> forgot(old(users)@[u], #[trigger] final(users)@[u], poll_id)
            },
            Err(e) => {
                &&& e == ApiError::NotFound
                &&& !has_poll(old(polls)@, poll_id)
                &&& final(polls)@ == old(polls)@
                &&& final(users)@ == old(users)@
            },
        },
{
    proof {
        polls.lemma_wf();
    }
    let ghost ps0 = polls@;
    let ghost us0 = users@;
    match polls.update_poll(poll_id, PollUpdate::Reset) {
        Ok(()) => {},
        Err(_) => return Err(ApiError::NotFound),
    }
    users.forget_poll(poll_id);
    proof {
        if consistent(ps0, us0) {
            let i = choose|i: int|
                {
                    &&& poll_at(ps0, i, poll_id)
                    &&& replaced_at(ps0, polls@, i)
                    &&& reset_of(ps0[i], polls@[i])
                };
            let ps1 = polls@;
            let us1 = users@;
            assert forall|a: int, b: int| 0 <= a < ps1.len() && 0 <= b < us1.len() implies (voter_names(
                ps1[a].users_voted@,
            ).contains(us1[b].user_name@) <==> voted_on(us1[b].polls_voted@, ps1[a].poll_id)) by {
                assert(forgot(us0[b], us1[b], poll_id));
                if a == i {
                    assert(voter_names(ps1[a].users_voted@).len() == 0);
                } else {
                    assert(ps1[a] == ps0[a]);
                    lemma_forgot_other_polls(us0[b], us1[b], poll_id, ps0[a].poll_id);
                }
            }
        }
    }
    Ok(())
}

} // verus!
