use pollkey::polls::{PollError, PollStatus, PollStore, PollUpdate, VotingPollInput};

fn input(creator: &str, texts: &[&str]) -> VotingPollInput {
    VotingPollInput {
        title: "Lunch".to_string(),
        creator: creator.to_string(),
        description: "Where to eat".to_string(),
        expiration_date: None,
        options: texts.iter().map(|t| t.to_string()).collect(),
    }
}

fn tally(store: &PollStore, id: i64) -> Vec<i32> {
    store.get_poll(id).unwrap().options.iter().map(|o| o.votes).collect()
}

#[test]
fn create_assigns_ids_and_defaults() {
    let mut s = PollStore::new();
    assert_eq!(s.create_poll(input("alice", &["a", "b"]), 100), Ok(1));
    assert_eq!(s.create_poll(input("alice", &["c"]), 200), Ok(2));
    let p = s.get_poll(1).unwrap();
    assert_eq!(p.poll_id, 1);
    assert_eq!(p.created_at, 100);
    assert_eq!(p.status, PollStatus::Active);
    assert_eq!(p.options.len(), 2);
    assert_eq!(p.options[0].option_id, 1);
    assert_eq!(p.options[1].option_id, 2);
    assert_eq!(p.options[1].text, "b");
    assert_eq!(tally(&s, 1), vec![0, 0]);
    assert!(p.users_voted.is_empty());
    assert_eq!(s.fetch_all().len(), 2);
}

#[test]
fn ids_keep_growing_after_delete() {
    let mut s = PollStore::new();
    assert_eq!(s.create_poll(input("a", &["x"]), 0), Ok(1));
    assert_eq!(s.create_poll(input("a", &["x"]), 0), Ok(2));
    assert_eq!(s.delete_poll(2), Ok(()));
    assert_eq!(s.create_poll(input("a", &["x"]), 0), Ok(3));
}

#[test]
fn create_without_options_is_refused() {
    let mut s = PollStore::new();
    assert_eq!(s.create_poll(input("a", &[]), 0), Err(PollError::NoOptions));
    assert!(s.fetch_all().is_empty());
}

#[test]
fn vote_counts_once_per_user() {
    let mut s = PollStore::new();
    s.create_poll(input("a", &["x", "y"]), 0).unwrap();
    assert_eq!(s.vote_poll(1, 1, "alice".to_string()), Ok(()));
    assert_eq!(s.vote_poll(1, 2, "alice".to_string()), Err(PollError::AlreadyVotedOrClosed));
    assert_eq!(s.vote_poll(1, 2, "bob".to_string()), Ok(()));
    assert_eq!(tally(&s, 1), vec![1, 1]);
    assert_eq!(s.get_poll(1).unwrap().users_voted, vec!["alice".to_string(), "bob".to_string()]);
}

#[test]
fn vote_on_unknown_option_changes_nothing() {
    let mut s = PollStore::new();
    s.create_poll(input("a", &["x", "y"]), 0).unwrap();
    assert_eq!(s.vote_poll(1, 3, "alice".to_string()), Err(PollError::UnknownOption));
    assert_eq!(s.vote_poll(1, 0, "alice".to_string()), Err(PollError::UnknownOption));
    assert_eq!(tally(&s, 1), vec![0, 0]);
    assert!(s.get_poll(1).unwrap().users_voted.is_empty());
}

#[test]
fn vote_on_missing_poll_is_refused() {
    let mut s = PollStore::new();
    assert_eq!(s.vote_poll(5, 1, "alice".to_string()), Err(PollError::AlreadyVotedOrClosed));
}

#[test]
fn closed_poll_takes_no_votes() {
    let mut s = PollStore::new();
    s.create_poll(input("a", &["x"]), 0).unwrap();
    assert_eq!(s.update_poll(1, PollUpdate::Close), Ok(()));
    assert_eq!(s.get_poll(1).unwrap().status, PollStatus::Closed);
    assert_eq!(s.vote_poll(1, 1, "alice".to_string()), Err(PollError::AlreadyVotedOrClosed));
}

#[test]
fn close_twice_is_close_once() {
    let mut s = PollStore::new();
    s.create_poll(input("a", &["x", "y"]), 0).unwrap();
    s.vote_poll(1, 2, "alice".to_string()).unwrap();
    assert_eq!(s.update_poll(1, PollUpdate::Close), Ok(()));
    let once = (s.get_poll(1).unwrap().status, tally(&s, 1), s.get_poll(1).unwrap().users_voted.clone());
    assert_eq!(s.update_poll(1, PollUpdate::Close), Ok(()));
    let twice = (s.get_poll(1).unwrap().status, tally(&s, 1), s.get_poll(1).unwrap().users_voted.clone());
    assert_eq!(once, twice);
}

#[test]
fn reset_zeroes_tallies_and_voters() {
    let mut s = PollStore::new();
    s.create_poll(input("a", &["x", "y"]), 0).unwrap();
    for k in 0..7 {
        s.vote_poll(1, 1, format!("u{}", k)).unwrap();
    }
    for k in 7..10 {
        s.vote_poll(1, 2, format!("u{}", k)).unwrap();
    }
    assert_eq!(tally(&s, 1), vec![7, 3]);
    assert_eq!(s.update_poll(1, PollUpdate::Reset), Ok(()));
    assert_eq!(tally(&s, 1), vec![0, 0]);
    assert!(s.get_poll(1).unwrap().users_voted.is_empty());
    assert_eq!(s.get_poll(1).unwrap().options[1].text, "y");
    assert_eq!(s.vote_poll(1, 1, "u0".to_string()), Ok(()));
}

#[test]
fn update_missing_poll_is_not_found() {
    let mut s = PollStore::new();
    assert_eq!(s.update_poll(3, PollUpdate::Reset), Err(PollError::NotFound));
    assert_eq!(s.delete_poll(3), Err(PollError::NotFound));
}

#[test]
fn delete_removes_poll() {
    let mut s = PollStore::new();
    s.create_poll(input("a", &["x"]), 0).unwrap();
    assert_eq!(s.delete_poll(1), Ok(()));
    assert!(s.get_poll(1).is_none());
}

#[test]
fn tallies_add_up_to_voters() {
    let mut s = PollStore::new();
    s.create_poll(input("a", &["x", "y", "z"]), 0).unwrap();
    for (k, o) in [1, 3, 3, 2, 3].iter().enumerate() {
        s.vote_poll(1, *o, format!("v{}", k)).unwrap();
    }
    let p = s.get_poll(1).unwrap();
    let sum: i32 = p.options.iter().map(|o| o.votes).sum();
    assert_eq!(sum as usize, p.users_voted.len());
    assert_eq!(tally(&s, 1), vec![1, 1, 3]);
}
