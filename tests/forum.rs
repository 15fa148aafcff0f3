use ombu::forum::{Event, Ombu, OmbuError};
use ombu::word::{Address, Uint256};

fn addr(n: u128) -> Address {
    Address { hi: 0, lo: n }
}

fn word(n: u128) -> Uint256 {
    Uint256 { hi: 0, lo: n }
}

const ADMIN: u128 = 0xA1;
const VOTER: u128 = 0xB2;
const OTHER: u128 = 0xC3;

fn seeded() -> Ombu {
    let mut o = Ombu::new();
    assert!(o.init(addr(0x5E), addr(ADMIN), Ok(word(1))).is_ok());
    o
}

fn seeded_with_post() -> Ombu {
    let mut o = seeded();
    assert!(o.create_main_post(word(1), Ok(()), 1_700_000_000, "hello".to_string()).is_ok());
    o
}

#[test]
fn init_seeds_group_and_first_post() {
    let mut o = seeded();
    assert_eq!(o.get_semaphore(), addr(0x5E));
    assert_eq!(o.get_admin(), addr(ADMIN));
    assert_eq!(o.get_group_counter(), word(1));
    assert_eq!(o.get_group_name(word(1)), "Invisible Garden");
    assert_eq!(o.get_group_post_counter(word(1)), word(0));
    let ev = o.create_main_post(word(1), Ok(()), 1_700_000_000, "hello".to_string());
    assert_eq!(
        ev,
        Ok(Event::PostCreated { group_id: word(1), post_id: word(1), timestamp: 1_700_000_000 })
    );
    assert_eq!(o.get_group_post_counter(word(1)), word(1));
    assert_eq!(o.get_post(word(1), word(1)), ("hello".to_string(), 1_700_000_000, 0, 0));
}

#[test]
fn init_propagates_service_failure() {
    let mut o = Ombu::new();
    let r = o.init(addr(0x5E), addr(ADMIN), Err(vec![1, 2, 3]));
    assert_eq!(r, Err(OmbuError::Membership(vec![1, 2, 3])));
    assert_eq!(o.get_group_counter(), word(0));
    assert_eq!(o.get_admin(), addr(0));
}

#[test]
fn post_ids_are_one_to_n() {
    let mut o = seeded();
    for n in 1..=5u128 {
        match o.create_main_post(word(1), Ok(()), 100 + n as u64, format!("post {}", n)) {
            Ok(Event::PostCreated { post_id, .. }) => assert_eq!(post_id, word(n)),
            other => panic!("unexpected {:?}", other),
        }
    }
    assert_eq!(o.get_group_post_counter(word(1)), word(5));
    assert_eq!(o.get_post(word(1), word(3)), ("post 3".to_string(), 103, 0, 0));
    // another group's counter is untouched
    assert_eq!(o.get_group_post_counter(word(2)), word(0));
}

#[test]
fn rejected_proof_creates_nothing() {
    let mut o = seeded();
    let r = o.create_main_post(word(1), Err(vec![9]), 5, "x".to_string());
    assert_eq!(r, Err(OmbuError::Membership(vec![9])));
    assert_eq!(o.get_group_post_counter(word(1)), word(0));
    assert_eq!(o.get_post(word(1), word(1)), (String::new(), 0, 0, 0));
}

#[test]
fn absent_post_is_never_found() {
    let mut o = seeded();
    assert_eq!(o.get_post(word(1), word(7)), (String::new(), 0, 0, 0));
    assert_eq!(o.get_sub_post(word(1), word(7), word(1)), (String::new(), 0, 0, 0));
    assert_eq!(
        o.vote_on_post(addr(VOTER), word(1), word(7), true, Ok(true)),
        Err(OmbuError::PostDoesNotExist)
    );
    assert_eq!(
        o.delete_vote_on_post(addr(VOTER), word(1), word(7), true, Ok(true)),
        Err(OmbuError::PostDoesNotExist)
    );
    assert_eq!(
        o.vote_on_sub_post(addr(VOTER), word(1), word(7), word(1), true, Ok(true)),
        Err(OmbuError::PostDoesNotExist)
    );
    assert_eq!(
        o.create_sub_post(word(1), word(7), Ok(()), 10, "reply".to_string()),
        Err(OmbuError::MainPostDoesNotExist)
    );
}

#[test]
fn upvote_then_repeat_is_refused() {
    let mut o = seeded_with_post();
    let r = o.vote_on_post(addr(VOTER), word(1), word(1), true, Ok(true));
    assert_eq!(
        r,
        Ok(Event::VoteCast { group_id: word(1), post_id: word(1), voter: addr(VOTER), is_upvote: true })
    );
    assert_eq!(o.get_post(word(1), word(1)).2, 1);
    assert!(o.has_user_voted_on_post(addr(VOTER), word(1), word(1)));
    assert!(!o.has_user_voted_on_post(addr(OTHER), word(1), word(1)));
    assert_eq!(
        o.vote_on_post(addr(VOTER), word(1), word(1), true, Ok(true)),
        Err(OmbuError::AlreadyVoted)
    );
    assert_eq!(o.get_post(word(1), word(1)).2, 1);
}

#[test]
fn delete_in_other_direction_underflows() {
    let mut o = seeded_with_post();
    assert!(o.vote_on_post(addr(VOTER), word(1), word(1), true, Ok(true)).is_ok());
    assert_eq!(
        o.delete_vote_on_post(addr(VOTER), word(1), word(1), false, Ok(true)),
        Err(OmbuError::Underflow)
    );
    assert_eq!(o.get_post(word(1), word(1)), ("hello".to_string(), 1_700_000_000, 1, 0));
    assert!(o.has_user_voted_on_post(addr(VOTER), word(1), word(1)));
}

#[test]
fn delete_before_vote_is_refused() {
    let mut o = seeded_with_post();
    assert_eq!(
        o.delete_vote_on_post(addr(VOTER), word(1), word(1), true, Ok(true)),
        Err(OmbuError::HasNotVoted)
    );
}

#[test]
fn vote_flag_alternates() {
    let mut o = seeded_with_post();
    for _ in 0..3 {
        assert!(o.vote_on_post(addr(VOTER), word(1), word(1), false, Ok(true)).is_ok());
        assert!(o.has_user_voted_on_post(addr(VOTER), word(1), word(1)));
        assert_eq!(o.delete_vote_on_post(addr(VOTER), word(1), word(1), false, Ok(true)), Ok(()));
        assert!(!o.has_user_voted_on_post(addr(VOTER), word(1), word(1)));
    }
    assert_eq!(
        o.delete_vote_on_post(addr(VOTER), word(1), word(1), false, Ok(true)),
        Err(OmbuError::HasNotVoted)
    );
}

#[test]
fn vote_cycle_is_count_neutral() {
    let mut o = seeded_with_post();
    assert!(o.vote_on_post(addr(OTHER), word(1), word(1), true, Ok(true)).is_ok());
    let before = o.get_post(word(1), word(1));
    assert!(o.vote_on_post(addr(VOTER), word(1), word(1), true, Ok(true)).is_ok());
    assert_eq!(o.get_post(word(1), word(1)).2, 2);
    assert!(o.delete_vote_on_post(addr(VOTER), word(1), word(1), true, Ok(true)).is_ok());
    assert_eq!(o.get_post(word(1), word(1)), before);
}

#[test]
fn delete_trusts_claimed_direction() {
    let mut o = seeded_with_post();
    assert!(o.vote_on_post(addr(VOTER), word(1), word(1), true, Ok(true)).is_ok());
    assert!(o.vote_on_post(addr(OTHER), word(1), word(1), false, Ok(true)).is_ok());
    // the upvoter deletes claiming a downvote: the other voter's downvote is erased
    assert!(o.delete_vote_on_post(addr(VOTER), word(1), word(1), false, Ok(true)).is_ok());
    assert_eq!(o.get_post(word(1), word(1)).2, 1);
    assert_eq!(o.get_post(word(1), word(1)).3, 0);
}

#[test]
fn membership_is_checked_first() {
    let mut o = seeded_with_post();
    assert_eq!(
        o.vote_on_post(addr(VOTER), word(1), word(1), true, Ok(false)),
        Err(OmbuError::UserNotGroupMember)
    );
    assert_eq!(
        o.vote_on_post(addr(VOTER), word(1), word(9), true, Err(vec![7])),
        Err(OmbuError::Membership(vec![7]))
    );
    assert_eq!(
        o.delete_vote_on_sub_post(addr(VOTER), word(1), word(1), word(1), true, Ok(false)),
        Err(OmbuError::UserNotGroupMember)
    );
    assert!(!o.has_user_voted_on_post(addr(VOTER), word(1), word(1)));
}

#[test]
fn sub_post_is_replaced_not_appended() {
    let mut o = seeded_with_post();
    let r = o.create_sub_post(word(1), word(1), Ok(()), 20, "first".to_string());
    assert_eq!(
        r,
        Ok(Event::SubPostCreated { group_id: word(1), post_id: word(1), sub_post_id: word(1), timestamp: 20 })
    );
    assert!(o.vote_on_sub_post(addr(VOTER), word(1), word(1), word(1), true, Ok(true)).is_ok());
    assert!(o.create_sub_post(word(1), word(1), Ok(()), 30, "second".to_string()).is_ok());
    assert_eq!(o.get_sub_post(word(1), word(1), word(1)), ("second".to_string(), 30, 0, 0));
    assert_eq!(o.get_sub_post(word(1), word(1), word(2)), (String::new(), 0, 0, 0));
    assert_eq!(o.get_group_post_counter(word(1)), word(1));
}

#[test]
fn sub_post_votes() {
    let mut o = seeded_with_post();
    assert!(o.create_sub_post(word(1), word(1), Ok(()), 20, "reply".to_string()).is_ok());
    let r = o.vote_on_sub_post(addr(VOTER), word(1), word(1), word(1), false, Ok(true));
    assert_eq!(
        r,
        Ok(Event::SubPostVoteCast {
            group_id: word(1),
            post_id: word(1),
            sub_post_id: word(1),
            voter: addr(VOTER),
            is_upvote: false
        })
    );
    assert!(o.has_user_voted_on_sub_post(addr(VOTER), word(1), word(1), word(1)));
    assert!(!o.has_user_voted_on_post(addr(VOTER), word(1), word(1)));
    assert_eq!(o.get_sub_post(word(1), word(1), word(1)).3, 1);
    assert_eq!(
        o.vote_on_sub_post(addr(VOTER), word(1), word(1), word(1), false, Ok(true)),
        Err(OmbuError::AlreadyVoted)
    );
    assert_eq!(
        o.delete_vote_on_sub_post(addr(VOTER), word(1), word(1), word(1), true, Ok(true)),
        Err(OmbuError::Underflow)
    );
    assert_eq!(o.delete_vote_on_sub_post(addr(VOTER), word(1), word(1), word(1), false, Ok(true)), Ok(()));
    assert_eq!(o.get_sub_post(word(1), word(1), word(1)), ("reply".to_string(), 20, 0, 0));
    assert_eq!(
        o.delete_vote_on_sub_post(addr(VOTER), word(1), word(1), word(1), false, Ok(true)),
        Err(OmbuError::HasNotVoted)
    );
}

#[test]
fn only_admin_manages_groups() {
    let mut o = seeded();
    assert_eq!(o.create_group(addr(OTHER), "rogue".to_string(), Ok(word(2))), Err(OmbuError::NotAllowed));
    assert_eq!(o.remove_member(addr(OTHER), Ok(())), Err(OmbuError::NotAllowed));
    assert_eq!(o.change_admin(addr(OTHER), addr(OTHER)), Err(OmbuError::NotAllowed));
    assert_eq!(o.require_admin(addr(OTHER)), Err(OmbuError::NotAllowed));
    assert_eq!(o.get_group_counter(), word(1));
    assert_eq!(o.get_group_name(word(2)), "");

    assert_eq!(o.create_group(addr(ADMIN), "Garden Two".to_string(), Ok(word(2))), Ok(word(2)));
    assert_eq!(o.get_group_counter(), word(2));
    assert_eq!(o.get_group_name(word(2)), "Garden Two");
    assert_eq!(o.remove_member(addr(ADMIN), Ok(())), Ok(()));
    assert_eq!(o.remove_member(addr(ADMIN), Err(vec![4])), Err(OmbuError::Membership(vec![4])));
    assert_eq!(
        o.create_group(addr(ADMIN), "x".to_string(), Err(vec![5])),
        Err(OmbuError::Membership(vec![5]))
    );
    assert_eq!(o.get_group_counter(), word(2));
}

#[test]
fn admin_handover() {
    let mut o = seeded();
    assert_eq!(o.change_admin(addr(ADMIN), addr(OTHER)), Ok(Event::ChangeAdmin { new_admin: addr(OTHER) }));
    assert_eq!(o.get_admin(), addr(OTHER));
    assert_eq!(o.create_group(addr(ADMIN), "old".to_string(), Ok(word(3))), Err(OmbuError::NotAllowed));
    assert_eq!(o.require_admin(addr(OTHER)), Ok(()));
}

#[test]
fn pass_through_answers() {
    let o = seeded();
    assert_eq!(o.add_member(Ok(())), Ok(()));
    assert_eq!(o.add_member(Err(vec![1])), Err(OmbuError::Membership(vec![1])));
    assert_eq!(o.change_group_admin(Err(vec![2])), Err(OmbuError::Membership(vec![2])));
    assert_eq!(o.accept_group_admin(Ok(())), Ok(()));
    assert_eq!(o.is_group_member(Ok(true)), Ok(true));
    assert_eq!(o.is_group_member(Ok(false)), Ok(false));
    assert_eq!(o.is_group_member(Err(vec![3])), Err(OmbuError::Membership(vec![3])));
}

#[test]
fn word_increment_carries_and_stops() {
    assert_eq!(word(u128::MAX).checked_increment(), Some(Uint256 { hi: 1, lo: 0 }));
    assert_eq!(word(41).checked_increment(), Some(word(42)));
    assert_eq!(Uint256 { hi: u128::MAX, lo: u128::MAX }.checked_increment(), None);
    assert_eq!(Uint256::from_u128(7), word(7));
}
