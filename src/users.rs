//! Users and their in-memory repository.
use vstd::prelude::*;

verus! {

/// A vote as the voter's history records it.
#[derive(Clone, Copy, Debug, PartialEq, Eq, Structural)]
pub struct Votes {
    pub poll_id: i64,
    pub option_id: i64,
}

/// A registered user; `K` is the type of a stored credential.
pub struct User<K> {
    pub user_id: u128,
    pub user_name: String,
    pub polls_voted: Vec<Votes>,
    pub owned_polls: Vec<i64>,
    pub keys: Vec<K>,
}

#[derive(Clone, Copy, Debug, PartialEq, Eq, Structural)]
pub enum UserError {
    /// No user with that name.
    NotFound,
    /// Another user has that name.
    NameTaken,
    /// Another user has that id.
    IdTaken,
    /// A user needs at least one credential.
    NoCredentials,
    /// The history names a poll twice, or owned polls repeat.
    DuplicateEntry,
    /// The user has already voted on that poll.
    AlreadyVoted,
}

pub open spec fn voted_on(v: Seq<Votes>, poll_id: i64) -> bool {
    exists|j: int| 0 <= j < v.len() && v[j].poll_id == poll_id
}

pub open spec fn votes_unique(v: Seq<Votes>) -> bool {
    forall|a: int, b: int| 0 <= a < v.len() && 0 <= b < v.len() && a != b ==> v[a].poll_id != v[b].poll_id
}

/// At least one credential, at most one vote per poll, owned polls without repeats.
pub open spec fn user_wf<K>(u: User<K>) -> bool {
    &&& u.keys@.len() > 0
    &&& votes_unique(u.polls_voted@)
    &&& u.owned_polls@.no_duplicates()
}

pub open spec fn user_at<K>(s: Seq<User<K>>, i: int, name: Seq<char>) -> bool {
    0 <= i < s.len() && s[i].user_name@ == name
}

pub open spec fn has_user<K>(s: Seq<User<K>>, name: Seq<char>) -> bool {
    exists|i: int| user_at(s, i, name)
}

pub open spec fn has_user_id<K>(s: Seq<User<K>>, user_id: u128) -> bool {
    exists|i: int| 0 <= i < s.len() && s[i].user_id == user_id
}

/// `t` is `s` with at most the user at `i` replaced.
pub open spec fn user_replaced<K>(s: Seq<User<K>>, t: Seq<User<K>>, i: int) -> bool {
    &&& t.len() == s.len()
    &&& forall|j: int| 0 <= j < s.len() && j != i ==> t[j] == s[j]
}

/// `b` is `a` with other vote history and owned polls.
pub open spec fn same_account<K>(a: User<K>, b: User<K>) -> bool {
    &&& a.user_id == b.user_id
    &&& a.user_name == b.user_name
    &&& a.keys == b.keys
}

/// An in-memory user repository: names and ids are unique.
pub struct UserStore<K> {
    users: Vec<User<K>>,
}

impl<K> View for UserStore<K> {
    type V = Seq<User<K>>;

    closed spec fn view(&self) -> Seq<User<K>> {
        self.users@
    }
}

impl<K> UserStore<K> {
    pub closed spec fn wf(&self) -> bool {
        &&& forall|i: int| 0 <= i < self.users@.len() ==> user_wf(#[trigger] self.users@[i])
        &&& forall|i: int, j: int|
            0 <= i < self.users@.len() && 0 <= j < self.users@.len() && i != j
                ==> self.users@[i].user_name@ != self.users@[j].user_name@
        &&& forall|i: int, j: int|
            0 <= i < self.users@.len() && 0 <= j < self.users@.len() && i != j
                ==> self.users@[i].user_id != self.users@[j].user_id
    }

    /// Names and ids are unique and every user is well formed.
    pub proof fn lemma_wf(&self)
        requires
            self.wf(),
        ensures
            forall|i: int, j: int|
                0 <= i < self@.len() && 0 <= j < self@.len() && i != j ==> self@[i].user_name@ != self@[j].user_name@
                    && self@[i].user_id != self@[j].user_id,
            forall|i: int| 0 <= i < self@.len() ==> user_wf(#[trigger] self@[i]),
    {
    }

    pub fn new() -> (r: Self)
        ensures
            r.wf(),
            r@.len() == 0,
    {
        UserStore { users: Vec::new() }
    }

    fn index_of(&self, name: &String) -> (r: Option<usize>)
        ensures
            match r {
                Some(i) => user_at(self@, i as int, name@),
                None => !has_user(self@, name@),
            },
    {
        let mut i: usize = 0;
        while i < self.users.len()
            invariant
                i <= self.users.len(),
                forall|j: int| 0 <= j < i ==> self.users@[j].user_name@ != name@,
            decreases self.users.len() - i,
        {
            if self.users[i].user_name == *name {
                return Some(i);
            }
            i = i + 1;
        }
        None
    }

    fn index_of_id(&self, user_id: u128) -> (r: Option<usize>)
        ensures
            match r {
                Some(i) => i < self@.len() && self@[i as int].user_id == user_id,
                None => !has_user_id(self@, user_id),
            },
    {
        let mut i: usize = 0;
        while i < self.users.len()
            invariant
                i <= self.users.len(),
                forall|j: int| 0 <= j < i ==> self.users@[j].user_id != user_id,
            decreases self.users.len() - i,
        {
            if self.users[i].user_id == user_id {
                return Some(i);
            }
            i = i + 1;
        }
        None
    }

    fn history_unique(v: &Vec<Votes>) -> (r: bool)
        ensures
            r == votes_unique(v@),
    {
        let mut a: usize = 0;
        while a < v.len()
            invariant
                a <= v.len(),
                forall|x: int, y: int| 0 <= x < a && 0 <= y < v.len() && x != y ==> v@[x].poll_id != v@[y].poll_id,
            decreases v.len() - a,
        {
            let mut b: usize = 0;
            while b < v.len()
                invariant
                    a < v.len(),
                    b <= v.len(),
                    forall|x: int, y: int| 0 <= x < a && 0 <= y < v.len() && x != y ==> v@[x].poll_id != v@[y].poll_id,
                    forall|y: int| 0 <= y < b && y != a ==> v@[a as int].poll_id != v@[y].poll_id,
                decreases v.len() - b,
            {
                if b != a && v[a].poll_id == v[b].poll_id {
                    return false;
                }
                b = b + 1;
            }
            a = a + 1;
        }
        true
    }

    fn owned_unique(v: &Vec<i64>) -> (r: bool)
        ensures
            r == v@.no_duplicates(),
    {
        let mut a: usize = 0;
        while a < v.len()
            invariant
                a <= v.len(),
                forall|x: int, y: int| 0 <= x < a && 0 <= y < v.len() && x != y ==> v@[x] != v@[y],
            decreases v.len() - a,
        {
            let mut b: usize = 0;
            while b < v.len()
                invariant
                    a < v.len(),
                    b <= v.len(),
                    forall|x: int, y: int| 0 <= x < a && 0 <= y < v.len() && x != y ==> v@[x] != v@[y],
                    forall|y: int| 0 <= y < b && y != a ==> v@[a as int] != v@[y],
                decreases v.len() - b,
            {
                if b != a && v[a] == v[b] {
                    return false;
                }
                b = b + 1;
            }
            a = a + 1;
        }
        true
    }

    /// Stores `user`, unless its name or id is taken or it is not well formed.
    pub fn create_user(&mut self, user: User<K>) -> (r: Result<(), UserError>)
        requires
            old(self).wf(),
        ensures
            final(self).wf(),
            match r {
                Ok(()) => {
                    &&& user_wf(user)
                    &&& !has_user(old(self)@, user.user_name@)
                    &&& !has_user_id(old(self)@, user.user_id)
                    &&& final(self)@ == old(self)@.push(user)
                },
                Err(e) => {
                    &&& final(self)@ == old(self)@
                    &&& e == (if has_user(old(self)@, user.user_name@) {
                        UserError::NameTaken
                    } else if has_user_id(old(self)@, user.user_id) {
                        UserError::IdTaken
                    } else if user.keys@.len() == 0 {
                        UserError::NoCredentials
                    } else {
                        UserError::DuplicateEntry
                    })
                    &&& !(user_wf(user) && !has_user(old(self)@, user.user_name@) && !has_user_id(old(self)@, user.user_id))
                },
            },
    {
        if self.index_of(&user.user_name).is_some() {
            return Err(UserError::NameTaken);
        }
        if self.index_of_id(user.user_id).is_some() {
            return Err(UserError::IdTaken);
        }
        if user.keys.len() == 0 {
            return Err(UserError::NoCredentials);
        }
        if !Self::history_unique(&user.polls_voted) || !Self::owned_unique(&user.owned_polls) {
            return Err(UserError::DuplicateEntry);
        }
        let ghost s0 = self.users@;
        self.users.push(user);
        proof {
            let n = s0.len() as int;
            assert forall|i: int, j: int|
                0 <= i < self.users@.len() && 0 <= j < self.users@.len() && i != j implies
                self.users@[i].user_name@ != self.users@[j].user_name@
                && self.users@[i].user_id != self.users@[j].user_id by {
                if i == n {
                    assert(!user_at(s0, j, user.user_name@));
                    assert(self.users@[j] == s0[j]);
                } else if j == n {
                    assert(!user_at(s0, i, user.user_name@));
                    assert(self.users@[i] == s0[i]);
                }
            }
            assert forall|i: int| 0 <= i < self.users@.len() implies user_wf(#[trigger] self.users@[i]) by {
                if i < n {
                    assert(self.users@[i] == s0[i]);
                }
            }
        }
        Ok(())
    }

    /// The user called `name`, if there is one.
    pub fn get_user(&self, name: &String) -> (r: Option<&User<K>>)
        ensures
            match r {
                Some(u) => exists|i: int| user_at(self@, i, name@) && *u == self@[i],
                None => !has_user(self@, name@),
            },
    {
        match self.index_of(name) {
            Some(i) => Some(&self.users[i]),
            None => None,
        }
    }

    /// Takes the user called `name` out of the store and hands it over.
    pub fn take_user(&mut self, name: &String) -> (r: Option<User<K>>)
        requires
            old(self).wf(),
        ensures
            final(self).wf(),
            match r {
                Some(u) => exists|i: int|
                    user_at(old(self)@, i, name@) && u == old(self)@[i] && final(self)@ == old(self)@.remove(i),
                None => !has_user(old(self)@, name@) && final(self)@ == old(self)@,
            },
    {
        match self.index_of(name) {
            Some(i) => {
                let ghost s0 = self.users@;
                let u = self.users.remove(i);
                proof {
                    assert forall|a: int, b: int|
                        0 <= a < self.users@.len() && 0 <= b < self.users@.len() && a != b implies
                        self.users@[a].user_name@ != self.users@[b].user_name@
                        && self.users@[a].user_id != self.users@[b].user_id by {
                        let a0 = if a < i { a } else { a + 1 };
                        let b0 = if b < i { b } else { b + 1 };
                        assert(self.users@[a] == s0[a0]);
                        assert(self.users@[b] == s0[b0]);
                    }
                    assert forall|a: int| 0 <= a < self.users@.len() implies user_wf(#[trigger] self.users@[a]) by {
                        let a0 = if a < i { a } else { a + 1 };
                        assert(self.users@[a] == s0[a0]);
                    }
                }
                Some(u)
            },
            None => None,
        }
    }

    /// Deletes the user with `user_id`; deleting an absent user is no error.
    pub fn delete_user(&mut self, user_id: u128) -> (r: Result<(), UserError>)
        requires
            old(self).wf(),
        ensures
            final(self).wf(),
            r is Ok,
            !has_user_id(final(self)@, user_id),
            has_user_id(old(self)@, user_id) ==> exists|i: int|
                0 <= i < old(self)@.len() && old(self)@[i].user_id == user_id && final(self)@ == old(self)@.remove(i),
            !has_user_id(old(self)@, user_id) ==> final(self)@ == old(self)@,
    {
        match self.index_of_id(user_id) {
            Some(i) => {
                let ghost s0 = self.users@;
                let _ = self.users.remove(i);
                proof {
                    assert forall|a: int, b: int|
                        0 <= a < self.users@.len() && 0 <= b < self.users@.len() && a != b implies
                        self.users@[a].user_name@ != self.users@[b].user_name@
                        && self.users@[a].user_id != self.users@[b].user_id by {
                        let a0 = if a < i { a } else { a + 1 };
                        let b0 = if b < i { b } else { b + 1 };
                        assert(self.users@[a] == s0[a0]);
                        assert(self.users@[b] == s0[b0]);
                    }
                    assert forall|a: int| 0 <= a < self.users@.len() implies user_wf(#[trigger] self.users@[a]) by {
                        let a0 = if a < i { a } else { a + 1 };
                        assert(self.users@[a] == s0[a0]);
                    }
                    assert forall|a: int| 0 <= a < self.users@.len() implies self.users@[a].user_id != user_id by {
                        let a0 = if a < i { a } else { a + 1 };
                        assert(self.users@[a] == s0[a0]);
                    }
                }
            },
            None => {},
        }
        Ok(())
    }

    /// The user called `name` exists and has voted on `poll_id`.
    pub fn has_voted(&self, name: &String, poll_id: i64) -> (r: bool)
        requires
            self.wf(),
        ensures
            r == exists|i: int| user_at(self@, i, name@) && voted_on(self@[i].polls_voted@, poll_id),
    {
        match self.index_of(name) {
            Some(i) => {
                let v = &self.users[i].polls_voted;
                let mut j: usize = 0;
                while j < v.len()
                    invariant
                        j <= v.len(),
                        self.wf(),
                        user_at(self@, i as int, name@),
                        *v == self.users@[i as int].polls_voted,
                        forall|a: int| 0 <= a < j ==> v@[a].poll_id != poll_id,
                    decreases v.len() - j,
                {
                    if v[j].poll_id == poll_id {
                        assert(voted_on(self.users@[i as int].polls_voted@, poll_id));
                        return true;
                    }
                    j = j + 1;
                }
                proof {
                    assert forall|a: int| user_at(self@, a, name@) implies !voted_on(self@[a].polls_voted@, poll_id) by {
                        assert(a == i);
                    }
                }
                false
            },
            None => false,
        }
    }
    proof fn lemma_replace_keeps_wf(&self, s0: Seq<User<K>>, i: int)
        requires
            0 <= i < s0.len(),
            self.users@.len() == s0.len(),
            forall|j: int| 0 <= j < s0.len() && j != i ==> self.users@[j] == s0[j],
            forall|a: int| 0 <= a < s0.len() ==> user_wf(#[trigger] s0[a]),
            forall|a: int, b: int|
                0 <= a < s0.len() && 0 <= b < s0.len() && a != b ==> s0[a].user_name@ != s0[b].user_name@,
            forall|a: int, b: int|
                0 <= a < s0.len() && 0 <= b < s0.len() && a != b ==> s0[a].user_id != s0[b].user_id,
            user_wf(self.users@[i]),
            self.users@[i].user_name == s0[i].user_name,
            self.users@[i].user_id == s0[i].user_id,
        ensures
            self.wf(),
    {
        assert forall|a: int, b: int|
            0 <= a < self.users@.len() && 0 <= b < self.users@.len() && a != b implies
            self.users@[a].user_name@ != self.users@[b].user_name@
            && self.users@[a].user_id != self.users@[b].user_id by {
            assert(self.users@[a].user_name == s0[a].user_name && self.users@[a].user_id == s0[a].user_id);
            assert(self.users@[b].user_name == s0[b].user_name && self.users@[b].user_id == s0[b].user_id);
        }
        assert forall|a: int| 0 <= a < self.users@.len() implies user_wf(#[trigger] self.users@[a]) by {
            if a != i {
                assert(self.users@[a] == s0[a]);
            }
        }
    }

    /// Appends `vote` to the history of the user called `name`; a user votes at most
    /// once per poll.
    pub fn add_vote(&mut self, name: &String, vote: Votes) -> (r: Result<(), UserError>)
        requires
            old(self).wf(),
        ensures
            final(self).wf(),
            match r {
                Ok(()) => exists|i: int|
                    {
                        &&& user_at(old(self)@, i, name@)
                        &&& !voted_on(old(self)@[i].polls_voted@, vote.poll_id)
                        &&& user_replaced(old(self)@, final(self)@, i)
                        &&& same_account(old(self)@[i], final(self)@[i])
                        &&& final(self)@[i].owned_polls == old(self)@[i].owned_polls
                        &&& final(self)@[i].polls_voted@ == old(self)@[i].polls_voted@.push(vote)
                    },
                Err(e) => {
                    &&& final(self)@ == old(self)@
                    &&& e == (if has_user(old(self)@, name@) {
                        UserError::AlreadyVoted
                    } else {
                        UserError::NotFound
                    })
                    &&& forall|i: int|
                        user_at(old(self)@, i, name@) ==> voted_on(old(self)@[i].polls_voted@, vote.poll_id)
                },
            },
    {
        let i = match self.index_of(name) {
            Some(i) => i,
            None => return Err(UserError::NotFound),
        };
        if self.has_voted(name, vote.poll_id) {
            return Err(UserError::AlreadyVoted);
        }
        let ghost s0 = self.users@;
        let mut u = self.users.remove(i);
        let ghost u0 = u;
        assert(u0 == s0[i as int]);
        assert(user_wf(u0));
        u.polls_voted.push(vote);
        proof {
            let v = u.polls_voted@;
            assert forall|a: int, b: int| 0 <= a < v.len() && 0 <= b < v.len() && a != b implies v[a].poll_id
                != v[b].poll_id by {
                if a == v.len() - 1 {
                    assert(v[b] == u0.polls_voted@[b]);
                } else if b == v.len() - 1 {
                    assert(v[a] == u0.polls_voted@[a]);
                } else {
                    assert(v[a] == u0.polls_voted@[a]);
                    assert(v[b] == u0.polls_voted@[b]);
                }
            }
        }
        self.users.insert(i, u);
        assert(self.users@ =~= s0.update(i as int, u));
        proof {
            self.lemma_replace_keeps_wf(s0, i as int);
        }
        Ok(())
    }

    /// Adds `poll_id` to the polls owned by the user called `name`, once.
    pub fn add_owned_poll(&mut self, name: &String, poll_id: i64) -> (r: Result<(), UserError>)
        requires
            old(self).wf(),
        ensures
            final(self).wf(),
            match r {
                Ok(()) => exists|i: int|
                    {
                        &&& user_at(old(self)@, i, name@)
                        &&& user_replaced(old(self)@, final(self)@, i)
                        &&& same_account(old(self)@[i], final(self)@[i])
                        &&& final(self)@[i].polls_voted == old(self)@[i].polls_voted
                        &&& final(self)@[i].owned_polls@ == (if old(self)@[i].owned_polls@.contains(poll_id) {
                            old(self)@[i].owned_polls@
                        } else {
                            old(self)@[i].owned_polls@.push(poll_id)
                        })
                    },
                Err(e) => e == UserError::NotFound && !has_user(old(self)@, name@) && final(self)@
                    == old(self)@,
            },
    {
        let i = match self.index_of(name) {
            Some(i) => i,
            None => return Err(UserError::NotFound),
        };
        let ghost s0 = self.users@;
        let mut j: usize = 0;
        while j < self.users[i].owned_polls.len()
            invariant
                self.wf(),
                user_at(s0, i as int, name@),
                self.users@ == s0,
                j <= self.users@[i as int].owned_polls@.len(),
                forall|a: int| 0 <= a < j ==> self.users@[i as int].owned_polls@[a] != poll_id,
            decreases self.users@[i as int].owned_polls@.len() - j,
        {
            if self.users[i].owned_polls[j] == poll_id {
                assert(self.users@[i as int].owned_polls@.contains(poll_id));
                assert(user_replaced(s0, self.users@, i as int));
                assert(same_account(s0[i as int], self.users@[i as int]));
                assert(user_at(s0, i as int, name@));
                assert(self@ == s0);
                return Ok(());
            }
            j = j + 1;
        }
        let mut u = self.users.remove(i);
        let ghost u0 = u;
        assert(u0 == s0[i as int]);
        assert(user_wf(u0));
        assert(!u0.owned_polls@.contains(poll_id));
        u.owned_polls.push(poll_id);
        proof {
            let v = u.owned_polls@;
            assert forall|a: int, b: int| 0 <= a < v.len() && 0 <= b < v.len() && a != b implies v[a] != v[b] by {
                if a == v.len() - 1 {
                    assert(v[b] == u0.owned_polls@[b]);
                } else if b == v.len() - 1 {
                    assert(v[a] == u0.owned_polls@[a]);
                }
            }
        }
        self.users.insert(i, u);
        assert(self.users@ =~= s0.update(i as int, u));
        proof {
            self.lemma_replace_keeps_wf(s0, i as int);
            assert(user_replaced(s0, self.users@, i as int));
            assert(same_account(s0[i as int], self.users@[i as int]));
        }
        Ok(())
    }

    fn vote_index(v: &Vec<Votes>, poll_id: i64) -> (r: Option<usize>)
        ensures
            match r {
                Some(j) => j < v@.len() && v@[j as int].poll_id == poll_id,
                None => !voted_on(v@, poll_id),
            },
    {
        let mut j: usize = 0;
        while j < v.len()
            invariant
                j <= v.len(),
                forall|a: int| 0 <= a < j ==> v@[a].poll_id != poll_id,
            decreases v.len() - j,
        {
            if v[j].poll_id == poll_id {
                return Some(j);
            }
            j = j + 1;
        }
        None
    }

    /// Drops every user's vote on `poll_id` from their history.
    pub fn forget_poll(&mut self, poll_id: i64)
        requires
            old(self).wf(),
        ensures
            final(self).wf(),
            final(self)@.len() == old(self)@.len(),
            forall|u: int| 0 <= u < old(self)@.len() ==> forgot(old(self)@[u], #[trigger] final(self)@[u], poll_id),
    {
        let ghost s0 = self.users@;
        let n = self.users.len();
        let mut i: usize = 0;
        while i < n
            invariant
                n == s0.len(),
                i <= n,
                self.users@.len() == n,
                forall|a: int| 0 <= a < i ==> forgot(s0[a], #[trigger] self.users@[a], poll_id),
                forall|a: int| i <= a < n ==> #[trigger] self.users@[a] == s0[a],
                forall|a: int| 0 <= a < n ==> user_wf(#[trigger] self.users@[a]),
                forall|a: int, b: int|
                    0 <= a < n && 0 <= b < n && a != b ==> self.users@[a].user_name@ != self.users@[b].user_name@
                        && self.users@[a].user_id != self.users@[b].user_id,
            decreases n - i,
        {
            let ghost s1 = self.users@;
            let mut u = self.users.remove(i);
            let ghost u0 = u;
            assert(u0 == s0[i as int]);
            let found = Self::vote_index(&u.polls_voted, poll_id);
            if let Some(j) = found {
                let _ = u.polls_voted.remove(j);
                proof {
                    let v0 = u0.polls_voted@;
                    let v = u.polls_voted@;
                    assert forall|a: int, b: int| 0 <= a < v.len() && 0 <= b < v.len() && a != b implies v[a].poll_id
                        != v[b].poll_id by {
                        let a0 = if a < j { a } else { a + 1 };
                        let b0 = if b < j { b } else { b + 1 };
                        assert(v[a] == v0[a0]);
                        assert(v[b] == v0[b0]);
                    }
                    assert(user_wf(u));
                    assert(!voted_on(v, poll_id)) by {
                        if voted_on(v, poll_id) {
                            let k = choose|k: int| 0 <= k < v.len() && v[k].poll_id == poll_id;
                            let k0 = if k < j { k } else { k + 1 };
                            assert(v[k] == v0[k0]);
                        }
                    }
                }
            }
            self.users.insert(i, u);
            proof {
                assert(self.users@ =~= s1.update(i as int, u));
                assert(forgot(s0[i as int], self.users@[i as int], poll_id));
            }
            i = i + 1;
        }
    }
}

/// `b` is user `a` without a vote on `poll_id`: the one history entry on that poll,
/// if there was one, is gone, and nothing else changed.
pub open spec fn forgot<K>(a: User<K>, b: User<K>, poll_id: i64) -> bool {
    &&& same_account(a, b)
    &&& b.owned_polls == a.owned_polls
    &&& !voted_on(b.polls_voted@, poll_id)
    &&& (b.polls_voted@ == a.polls_voted@ || exists|j: int|
        0 <= j < a.polls_voted@.len() && a.polls_voted@[j].poll_id == poll_id && b.polls_voted@
            == a.polls_voted@.remove(j))
}

/// In a well-formed repository no user has two votes on one poll.
pub proof fn lemma_one_vote_per_poll<K>(store: &UserStore<K>)
    requires
        store.wf(),
    ensures
        forall|u: int, a: int, b: int|
            0 <= u < store@.len() && 0 <= a < store@[u].polls_voted@.len() && 0 <= b
                < store@[u].polls_voted@.len() && a != b ==> #[trigger] store@[u].polls_voted@[a].poll_id
                != #[trigger] store@[u].polls_voted@[b].poll_id,
{
    store.lemma_wf();
    assert forall|u: int, a: int, b: int|
        0 <= u < store@.len() && 0 <= a < store@[u].polls_voted@.len() && 0 <= b
            < store@[u].polls_voted@.len() && a != b implies #[trigger] store@[u].polls_voted@[a].poll_id
            != #[trigger] store@[u].polls_voted@[b].poll_id by {
        assert(user_wf(store@[u]));
    }
}

/// In a well-formed repository an id that is in use belongs to exactly one user, and
/// that user has a credential.
pub proof fn lemma_single_account<K>(store: &UserStore<K>, user_id: u128)
    requires
        store.wf(),
        has_user_id(store@, user_id),
    ensures
        exists|i: int|
            0 <= i < store@.len() && store@[i].user_id == user_id && store@[i].keys@.len() >= 1 && forall|j: int|
                0 <= j < store@.len() && #[trigger] store@[j].user_id == user_id ==> j == i,
{
    store.lemma_wf();
    let i = choose|i: int| 0 <= i < store@.len() && store@[i].user_id == user_id;
    assert(user_wf(store@[i]));
}

} // verus!
