//! Polls and their in-memory repository.
use vstd::prelude::*;

verus! {

/// One answer of a poll with its tally.
pub struct PollOption {
    pub option_id: i64,
    pub text: String,
    pub votes: i32,
}

#[derive(Clone, Copy, Debug, PartialEq, Eq, Structural)]
pub enum PollStatus {
    Active,
    Expired,
    Closed,
}

/// A poll; times are unix seconds.
pub struct VotingPoll {
    pub poll_id: i64,
    pub title: String,
    pub creator: String,
    pub description: String,
    pub created_at: i64,
    pub expiration_date: Option<i64>,
    pub status: PollStatus,
    pub options: Vec<PollOption>,
    pub users_voted: Vec<String>,
}

/// What a client sends to create a poll: one text per option.
pub struct VotingPollInput {
    pub title: String,
    pub creator: String,
    pub description: String,
    pub expiration_date: Option<i64>,
    pub options: Vec<String>,
}

/// The two whole-poll updates.
#[derive(Clone, Copy, Debug, PartialEq, Eq, Structural)]
pub enum PollUpdate {
    Reset,
    Close,
}

#[derive(Clone, Copy, Debug, PartialEq, Eq, Structural)]
pub enum PollError {
    /// No poll with that id.
    NotFound,
    /// No such poll, the poll is not active, or the user already voted on it.
    AlreadyVotedOrClosed,
    /// The poll has no option with that id.
    UnknownOption,
    /// A poll needs at least one option.
    NoOptions,
    /// The poll-id counter is at its largest value.
    IdsExhausted,
    /// The option's counter is at its largest value.
    TallyFull,
}

pub open spec fn sum_votes(opts: Seq<PollOption>) -> int
    decreases opts.len(),
{
    if opts.len() == 0 {
        0
    } else {
        sum_votes(opts.drop_last()) + opts.last().votes
    }
}

/// The voters' names as character sequences.
pub open spec fn voter_names(v: Seq<String>) -> Seq<Seq<char>> {
    v.map_values(|s: String| s@)
}

/// Options numbered from 1 in order, tallies non-negative, one vote per voter, and
/// the tallies add up to the number of voters.
pub open spec fn poll_wf(p: VotingPoll) -> bool {
    &&& p.options@.len() > 0
    &&& forall|j: int|
        0 <= j < p.options@.len() ==> (#[trigger] p.options@[j]).option_id == j + 1
            && p.options@[j].votes >= 0
    &&& sum_votes(p.options@) == p.users_voted@.len()
    &&& voter_names(p.users_voted@).no_duplicates()
}

pub open spec fn poll_at(s: Seq<VotingPoll>, i: int, poll_id: i64) -> bool {
    0 <= i < s.len() && s[i].poll_id == poll_id
}

pub open spec fn has_poll(s: Seq<VotingPoll>, poll_id: i64) -> bool {
    exists|i: int| poll_at(s, i, poll_id)
}

/// The poll takes a vote from `voter` now.
pub open spec fn accepts_vote(p: VotingPoll, voter: Seq<char>) -> bool {
    p.status == PollStatus::Active && !voter_names(p.users_voted@).contains(voter)
}

pub open spec fn has_option(p: VotingPoll, option_id: i64) -> bool {
    1 <= option_id <= p.options@.len()
}

/// Fields that no vote, reset or close touches.
pub open spec fn same_header(a: VotingPoll, b: VotingPoll) -> bool {
    &&& a.poll_id == b.poll_id
    &&& a.title == b.title
    &&& a.creator == b.creator
    &&& a.description == b.description
    &&& a.created_at == b.created_at
    &&& a.expiration_date == b.expiration_date
}

/// `b` is `a` with one more vote for `option_id`, cast by `voter`.
pub open spec fn with_vote(a: VotingPoll, b: VotingPoll, option_id: i64, voter: String) -> bool {
    let k = option_id - 1;
    &&& same_header(a, b)
    &&& b.status == a.status
    &&& b.options@.len() == a.options@.len()
    &&& forall|j: int| 0 <= j < a.options@.len() && j != k ==> b.options@[j] == a.options@[j]
    &&& b.options@[k].option_id == a.options@[k].option_id
    &&& b.options@[k].text == a.options@[k].text
    &&& b.options@[k].votes == a.options@[k].votes + 1
    &&& b.users_voted@ == a.users_voted@.push(voter)
}

/// `b` is `a` with every tally at zero and no voters.
pub open spec fn reset_of(a: VotingPoll, b: VotingPoll) -> bool {
    &&& same_header(a, b)
    &&& b.status == a.status
    &&& b.options@.len() == a.options@.len()
    &&& forall|j: int|
        0 <= j < a.options@.len() ==> (#[trigger] b.options@[j]).votes == 0
            && b.options@[j].option_id == a.options@[j].option_id
            && b.options@[j].text == a.options@[j].text
    &&& b.users_voted@.len() == 0
}

/// `b` is `a` closed.
pub open spec fn closed_of(a: VotingPoll, b: VotingPoll) -> bool {
    &&& same_header(a, b)
    &&& b.status == PollStatus::Closed
    &&& b.options@ == a.options@
    &&& b.users_voted@ == a.users_voted@
}

/// `t` is `s` with at most the poll at `i` replaced.
pub open spec fn replaced_at(s: Seq<VotingPoll>, t: Seq<VotingPoll>, i: int) -> bool {
    &&& t.len() == s.len()
    &&& forall|j: int| 0 <= j < s.len() && j != i ==> t[j] == s[j]
}

/// `p` is the poll that `input` creates with id `poll_id` at time `now`.
pub open spec fn created_from(input: VotingPollInput, p: VotingPoll, poll_id: i64, now: i64) -> bool {
    &&& p.poll_id == poll_id
    &&& p.title == input.title
    &&& p.creator == input.creator
    &&& p.description == input.description
    &&& p.created_at == now
    &&& p.expiration_date == input.expiration_date
    &&& p.status == PollStatus::Active
    &&& p.options@.len() == input.options@.len()
    &&& forall|j: int|
        0 <= j < p.options@.len() ==> (#[trigger] p.options@[j]).option_id == j + 1
            && p.options@[j].text == input.options@[j] && p.options@[j].votes == 0
    &&& p.users_voted@.len() == 0
}

/// Why a vote for `option_id` by `voter` on `p` is refused, if it is.
pub open spec fn vote_refusal(p: VotingPoll, option_id: i64, voter: Seq<char>) -> Option<PollError> {
    if !accepts_vote(p, voter) {
        Some(PollError::AlreadyVotedOrClosed)
    } else if !has_option(p, option_id) {
        Some(PollError::UnknownOption)
    } else if p.options@[option_id - 1].votes == i32::MAX {
        Some(PollError::TallyFull)
    } else {
        None
    }
}

proof fn lemma_sum_update(opts: Seq<PollOption>, k: int, o: PollOption)
    requires
        0 <= k < opts.len(),
    ensures
        sum_votes(opts.update(k, o)) == sum_votes(opts) - opts[k].votes + o.votes,
    decreases opts.len(),
{
    let u = opts.update(k, o);
    if k == opts.len() - 1 {
        assert(u.drop_last() =~= opts.drop_last());
    } else {
        lemma_sum_update(opts.drop_last(), k, o);
        assert(u.drop_last() =~= opts.drop_last().update(k, o));
    }
}

proof fn lemma_sum_zero(opts: Seq<PollOption>)
    requires
        forall|j: int| 0 <= j < opts.len() ==> (#[trigger] opts[j]).votes == 0,
    ensures
        sum_votes(opts) == 0,
    decreases opts.len(),
{
    if opts.len() > 0 {
        lemma_sum_zero(opts.drop_last());
    }
}

/// An in-memory poll repository. Poll ids come from a counter that only grows.
pub struct PollStore {
    polls: Vec<VotingPoll>,
    next_id: i64,
}

impl View for PollStore {
    type V = Seq<VotingPoll>;

    closed spec fn view(&self) -> Seq<VotingPoll> {
        self.polls@
    }
}

impl PollStore {
    /// Every poll well formed, ids unique and below the next id to hand out.
    pub closed spec fn wf(&self) -> bool {
        &&& 1 <= self.next_id
        &&& forall|i: int| 0 <= i < self.polls@.len() ==> poll_wf(#[trigger] self.polls@[i])
        &&& forall|i: int|
            0 <= i < self.polls@.len() ==> 1 <= (#[trigger] self.polls@[i]).poll_id < self.next_id
        &&& forall|i: int, j: int|
            0 <= i < self.polls@.len() && 0 <= j < self.polls@.len() && i != j
                ==> self.polls@[i].poll_id != self.polls@[j].poll_id
    }

    /// The id the next created poll gets.
    pub closed spec fn next_id_spec(&self) -> i64 {
        self.next_id
    }

    /// Poll ids are unique and every poll is well formed.
    pub proof fn lemma_wf(&self)
        requires
            self.wf(),
        ensures
            forall|i: int, j: int|
                0 <= i < self@.len() && 0 <= j < self@.len() && i != j ==> self@[i].poll_id != self@[j].poll_id,
            forall|i: int| 0 <= i < self@.len() ==> poll_wf(#[trigger] self@[i]),
            forall|i: int| 0 <= i < self@.len() ==> 1 <= #[trigger] self@[i].poll_id < self.next_id_spec(),
    {
    }

    pub fn new() -> (r: Self)
        ensures
            r.wf(),
            r@.len() == 0,
            r.next_id_spec() == 1,
    {
        PollStore { polls: Vec::new(), next_id: 1 }
    }

    fn index_of(&self, poll_id: i64) -> (r: Option<usize>)
        requires
            self.wf(),
        ensures
            match r {
                Some(i) => poll_at(self@, i as int, poll_id),
                None => !has_poll(self@, poll_id),
            },
    {
        let mut i: usize = 0;
        while i < self.polls.len()
            invariant
                i <= self.polls.len(),
                forall|j: int| 0 <= j < i ==> self.polls@[j].poll_id != poll_id,
            decreases self.polls.len() - i,
        {
            if self.polls[i].poll_id == poll_id {
                return Some(i);
            }
            i = i + 1;
        }
        None
    }

    /// Every poll, in order of creation.
    pub fn fetch_all(&self) -> (r: &Vec<VotingPoll>)
        ensures
            r@ == self@,
    {
        &self.polls
    }

    /// The poll with `poll_id`, if there is one.
    pub fn get_poll(&self, poll_id: i64) -> (r: Option<&VotingPoll>)
        requires
            self.wf(),
        ensures
            match r {
                Some(p) => exists|i: int| poll_at(self@, i, poll_id) && *p == self@[i],
                None => !has_poll(self@, poll_id),
            },
    {
        match self.index_of(poll_id) {
            Some(i) => Some(&self.polls[i]),
            None => None,
        }
    }
    fn contains_voter(p: &VotingPoll, name: &String) -> (r: bool)
        ensures
            r == voter_names(p.users_voted@).contains(name@),
    {
        let mut i: usize = 0;
        while i < p.users_voted.len()
            invariant
                i <= p.users_voted.len(),
                forall|j: int| 0 <= j < i ==> p.users_voted@[j]@ != name@,
            decreases p.users_voted.len() - i,
        {
            if p.users_voted[i] == *name {
                assert(voter_names(p.users_voted@)[i as int] == name@);
                return true;
            }
            i = i + 1;
        }
        assert(!voter_names(p.users_voted@).contains(name@)) by {
            if voter_names(p.users_voted@).contains(name@) {
                let j = choose|j: int|
                    0 <= j < voter_names(p.users_voted@).len() && voter_names(p.users_voted@)[j]
                        == name@;
                assert(p.users_voted@[j]@ == name@);
            }
        }
        false
    }

    /// Creates a poll from `input` at time `now` under the next id, and returns that id.
    pub fn create_poll(&mut self, input: VotingPollInput, now: i64) -> (r: Result<i64, PollError>)
        requires
            old(self).wf(),
            input.options@.len() < i64::MAX,
        ensures
            final(self).wf(),
            match r {
                Ok(id) => {
                    &&& input.options@.len() > 0
                    &&& id == old(self).next_id_spec()
                    &&& id < i64::MAX
                    &&& final(self).next_id_spec() == id + 1
                    &&& final(self)@.len() == old(self)@.len() + 1
                    &&& final(self)@.drop_last() == old(self)@
                    &&& created_from(input, final(self)@.last(), id, now)
                    &&& forall|i: int| 0 <= i < old(self)@.len() ==> #[trigger] old(self)@[i].poll_id < id
                },
                Err(e) => {
                    &&& final(self)@ == old(self)@
                    &&& final(self).next_id_spec() == old(self).next_id_spec()
                    &&& e == (if input.options@.len() == 0 {
                        PollError::NoOptions
                    } else {
                        PollError::IdsExhausted
                    })
                    &&& (input.options@.len() == 0 || old(self).next_id_spec() == i64::MAX)
                },
            },
    {
        if input.options.len() == 0 {
            return Err(PollError::NoOptions);
        }
        if self.next_id == i64::MAX {
            return Err(PollError::IdsExhausted);
        }
        let id = self.next_id;
        let mut options: Vec<PollOption> = Vec::new();
        let mut j: usize = 0;
        while j < input.options.len()
            invariant
                j <= input.options.len(),
                input.options@.len() < i64::MAX,
                options@.len() == j,
                forall|a: int|
                    0 <= a < j ==> (#[trigger] options@[a]).option_id == a + 1
                        && options@[a].text == input.options@[a] && options@[a].votes == 0,
            decreases input.options.len() - j,
        {
            options.push(PollOption { option_id: (j + 1) as i64, text: input.options[j].clone(), votes: 0 });
            j = j + 1;
        }
        let poll = VotingPoll {
            poll_id: id,
            title: input.title,
            creator: input.creator,
            description: input.description,
            created_at: now,
            expiration_date: input.expiration_date,
            status: PollStatus::Active,
            options,
            users_voted: Vec::new(),
        };
        proof {
            lemma_sum_zero(poll.options@);
            assert(voter_names(poll.users_voted@) =~= Seq::<Seq<char>>::empty());
        }
        let ghost s0 = self.polls@;
        self.polls.push(poll);
        self.next_id = id + 1;
        assert(self.polls@.drop_last() =~= s0);
        proof {
            assert forall|a: int, b: int|
                0 <= a < self.polls@.len() && 0 <= b < self.polls@.len() && a != b implies
                self.polls@[a].poll_id != self.polls@[b].poll_id by {
                if a < s0.len() {
                    assert(self.polls@[a] == s0[a]);
                }
                if b < s0.len() {
                    assert(self.polls@[b] == s0[b]);
                }
            }
            assert forall|a: int| 0 <= a < self.polls@.len() implies 1 <= (
            #[trigger] self.polls@[a]).poll_id < self.next_id by {
                if a < s0.len() {
                    assert(self.polls@[a] == s0[a]);
                }
            }
        }
        Ok(id)
    }

    /// Records a vote of `username` for `option_id` on poll `poll_id`: the option's
    /// tally goes up by one and the name joins the voters, both or neither.
    pub fn vote_poll(&mut self, poll_id: i64, option_id: i64, username: String) -> (r: Result<
        (),
        PollError,
    >)
        requires
            old(self).wf(),
        ensures
            final(self).wf(),
            final(self).next_id_spec() == old(self).next_id_spec(),
            match r {
                Ok(()) => exists|i: int|
                    {
                        &&& poll_at(old(self)@, i, poll_id)
                        &&& vote_refusal(old(self)@[i], option_id, username@) is None
                        &&& replaced_at(old(self)@, final(self)@, i)
                        &&& with_vote(old(self)@[i], final(self)@[i], option_id, username)
                    },
                Err(e) => {
                    &&& final(self)@ == old(self)@
                    &&& if has_poll(old(self)@, poll_id) {
                        forall|i: int|
                            poll_at(old(self)@, i, poll_id) ==> vote_refusal(
                                old(self)@[i],
                                option_id,
                                username@,
                            ) == Some(e)
                    } else {
                        e == PollError::AlreadyVotedOrClosed
                    }
                },
            },
    {
        let i = match self.index_of(poll_id) {
            Some(i) => i,
            None => return Err(PollError::AlreadyVotedOrClosed),
        };
        let ghost s0 = self.polls@;
        assert forall|a: int| poll_at(s0, a, poll_id) implies a == i by {}
        if self.polls[i].status != PollStatus::Active || Self::contains_voter(&self.polls[i], &username) {
            return Err(PollError::AlreadyVotedOrClosed);
        }
        if option_id < 1 || option_id > self.polls[i].options.len() as i64 {
            return Err(PollError::UnknownOption);
        }
        let k = (option_id - 1) as usize;
        if self.polls[i].options[k].votes == i32::MAX {
            return Err(PollError::TallyFull);
        }
        let mut p = self.polls.remove(i);
        let ghost p0 = p;
        let o = PollOption {
            option_id: p.options[k].option_id,
            text: p.options[k].text.clone(),
            votes: p.options[k].votes + 1,
        };
        proof {
            lemma_sum_update(p.options@, k as int, o);
        }
        p.options.set(k, o);
        let ghost name = username@;
        p.users_voted.push(username);
        proof {
            let v0 = voter_names(p0.users_voted@);
            let v1 = voter_names(p.users_voted@);
            assert(v1 =~= v0.push(name));
            assert forall|a: int, b: int| 0 <= a < v1.len() && 0 <= b < v1.len() && a != b implies v1[a]
                != v1[b] by {
                if a == v0.len() {
                    assert(v1[b] == v0[b]);
                }
                if b == v0.len() {
                    assert(v1[a] == v0[a]);
                }
            }
        }
        self.polls.insert(i, p);
        assert(self.polls@ =~= s0.update(i as int, p));
        Ok(())
    }

    /// Applies `op` to poll `poll_id`: a reset zeroes every tally and forgets the
    /// voters, a close sets the status to closed.
    pub fn update_poll(&mut self, poll_id: i64, op: PollUpdate) -> (r: Result<(), PollError>)
        requires
            old(self).wf(),
        ensures
            final(self).wf(),
            final(self).next_id_spec() == old(self).next_id_spec(),
            match r {
                Ok(()) => exists|i: int|
                    {
                        &&& poll_at(old(self)@, i, poll_id)
                        &&& replaced_at(old(self)@, final(self)@, i)
                        &&& match op {
                            PollUpdate::Reset => reset_of(old(self)@[i], final(self)@[i]),
                            PollUpdate::Close => closed_of(old(self)@[i], final(self)@[i]),
                        }
                    },
                Err(e) => e == PollError::NotFound && !has_poll(old(self)@, poll_id) && final(self)@
                    == old(self)@,
            },
    {
        let i = match self.index_of(poll_id) {
            Some(i) => i,
            None => return Err(PollError::NotFound),
        };
        let ghost s0 = self.polls@;
        let mut p = self.polls.remove(i);
        let ghost p0 = p;
        assert(p0 == s0[i as int]);
        assert(poll_wf(p0));
        match op {
            PollUpdate::Reset => {
                let mut j: usize = 0;
                while j < p.options.len()
                    invariant
                        j <= p.options.len(),
                        same_header(p, p0),
                        p.status == p0.status,
                        p.options@.len() == p0.options@.len(),
                        forall|a: int| 0 <= a < p.options@.len() ==> (#[trigger] p.options@[a]).option_id
                            == p0.options@[a].option_id && p.options@[a].text == p0.options@[a].text,
                        forall|a: int| 0 <= a < j ==> (#[trigger] p.options@[a]).votes == 0,
                        forall|a: int| j <= a < p.options@.len() ==> (#[trigger] p.options@[a]) == p0.options@[a],
                    decreases p.options.len() - j,
                {
                    let o = PollOption {
                        option_id: p.options[j].option_id,
                        text: p.options[j].text.clone(),
                        votes: 0,
                    };
                    p.options.set(j, o);
                    j = j + 1;
                }
                p.users_voted = Vec::new();
                proof {
                    lemma_sum_zero(p.options@);
                    assert(voter_names(p.users_voted@) =~= Seq::<Seq<char>>::empty());
                }
            },
            PollUpdate::Close => {
                p.status = PollStatus::Closed;
            },
        }
        assert(poll_wf(p));
        self.polls.insert(i, p);
        assert(self.polls@ =~= s0.update(i as int, p));
        proof {
            assert forall|a: int, b: int|
                0 <= a < self.polls@.len() && 0 <= b < self.polls@.len() && a != b implies
                self.polls@[a].poll_id != self.polls@[b].poll_id by {
                assert(self.polls@[a].poll_id == s0[a].poll_id);
                assert(self.polls@[b].poll_id == s0[b].poll_id);
            }
            assert forall|a: int| 0 <= a < self.polls@.len() implies poll_wf(#[trigger] self.polls@[a])
                && 1 <= self.polls@[a].poll_id < self.next_id by {
                assert(self.polls@[a].poll_id == s0[a].poll_id);
            }
        }
        Ok(())
    }

    /// Deletes poll `poll_id`.
    pub fn delete_poll(&mut self, poll_id: i64) -> (r: Result<(), PollError>)
        requires
            old(self).wf(),
        ensures
            final(self).wf(),
            final(self).next_id_spec() == old(self).next_id_spec(),
            match r {
                Ok(()) => exists|i: int|
                    poll_at(old(self)@, i, poll_id) && final(self)@ == old(self)@.remove(i),
                Err(e) => e == PollError::NotFound && !has_poll(old(self)@, poll_id) && final(self)@
                    == old(self)@,
            },
    {
        let i = match self.index_of(poll_id) {
            Some(i) => i,
            None => return Err(PollError::NotFound),
        };
        let ghost s0 = self.polls@;
        let _ = self.polls.remove(i);
        proof {
            assert forall|a: int, b: int|
                0 <= a < self.polls@.len() && 0 <= b < self.polls@.len() && a != b implies
                self.polls@[a].poll_id != self.polls@[b].poll_id by {
                let a0 = if a < i { a } else { a + 1 };
                let b0 = if b < i { b } else { b + 1 };
                assert(self.polls@[a] == s0[a0]);
                assert(self.polls@[b] == s0[b0]);
            }
            assert forall|a: int| 0 <= a < self.polls@.len() implies poll_wf(#[trigger] self.polls@[a])
                && 1 <= self.polls@[a].poll_id < self.next_id by {
                let a0 = if a < i { a } else { a + 1 };
                assert(self.polls@[a] == s0[a0]);
            }
        }
        Ok(())
    }
}


/// Every poll of a well-formed repository has as many votes in its tallies as it
/// has voters.
pub proof fn lemma_tally_matches_voters(store: &PollStore)
    requires
        store.wf(),
    ensures
        forall|i: int|
            0 <= i < store@.len() ==> sum_votes(#[trigger] store@[i].options@) == store@[i].users_voted@.len(),
{
    store.lemma_wf();
    assert forall|i: int| 0 <= i < store@.len() implies sum_votes(#[trigger] store@[i].options@)
        == store@[i].users_voted@.len() by {
        assert(poll_wf(store@[i]));
    }
}

/// Closing a closed poll changes nothing: the second close leaves the poll as the
/// first one left it.
pub proof fn lemma_close_idempotent(a: VotingPoll, b: VotingPoll, c: VotingPoll)
    requires
        closed_of(a, b),
        closed_of(b, c),
    ensures
        closed_of(a, c),
        same_header(b, c),
        c.status == b.status,
        c.options@ == b.options@,
        c.users_voted@ == b.users_voted@,
{
}

} // verus!
