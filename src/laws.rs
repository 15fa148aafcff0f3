//! Properties that hold across operations of the forum engine.
use vstd::prelude::*;
use crate::forum::{
    add_vote, flag_at, group_slot, post_slot, remove_vote, tally_at, timestamp_at, unvote_error,
    vote_error, vote_slot, ForumState, OmbuError, Post, Tally,
};
use crate::word::{Address, Uint256};

verus! {

/// Post ids are handed out in order: after `n` successful main posts in group
/// `g`, starting from a group with no post, the counter is `n` and the ids
/// given out were exactly 1, 2, ..., n.
pub proof fn lemma_post_ids_sequential(
    states: Seq<ForumState>,
    ids: Seq<Uint256>,
    posts: Seq<Post>,
    g: Uint256,
)
    requires
        states.len() == ids.len() + 1,
        posts.len() == ids.len(),
        states[0].post_counter(g) == 0,
        forall|i: int| 0 <= i < ids.len() ==> {
            &&& #[trigger] ids[i].value() == states[i].post_counter(g) + 1
            &&& states[i + 1] == states[i].with_main_post(g, ids[i], posts[i])
        },
    ensures
        states.last().post_counter(g) == ids.len(),
        forall|i: int| 0 <= i < ids.len() ==> #[trigger] ids[i].value() == i + 1,
    decreases ids.len(),
{
    if ids.len() > 0 {
        let n = ids.len() - 1;
        lemma_post_ids_sequential(states.drop_last(), ids.drop_last(), posts.drop_last(), g);
        assert(states.drop_last().last() == states[n]);
        assert(ids[n].value() == states[n].post_counter(g) + 1);
        assert(states[n + 1].post_counters[group_slot(g)] == ids[n]);
        assert forall|i: int| 0 <= i < ids.len() implies #[trigger] ids[i].value() == i + 1 by {
            if i < n {
                assert(ids.drop_last()[i] == ids[i]);
            }
        }
    }
}

/// A record whose timestamp is zero does not exist for the vote ledger: a
/// vote or a vote deletion on it always fails, and with `PostDoesNotExist`
/// once membership is established.
pub proof fn lemma_absent_record_never_found(
    membership: Result<bool, Vec<u8>>,
    voted: bool,
    t: Tally,
    is_upvote: bool,
)
    ensures
        vote_error(membership, 0, voted, t, is_upvote) is Some,
        unvote_error(membership, 0, voted, t, is_upvote) is Some,
        membership == Ok::<bool, Vec<u8>>(true) ==> vote_error(membership, 0, voted, t, is_upvote)
            == Some(OmbuError::PostDoesNotExist),
        membership == Ok::<bool, Vec<u8>>(true) ==> unvote_error(membership, 0, voted, t, is_upvote)
            == Some(OmbuError::PostDoesNotExist),
{
}

/// A voter's flag on an existing main post alternates: after a counted vote a
/// second vote fails with `AlreadyVoted` and a deletion is no longer refused
/// with `HasNotVoted`; after a deletion a second deletion fails with
/// `HasNotVoted` and a vote is no longer refused with `AlreadyVoted`.
pub proof fn lemma_vote_flag_alternates(
    s: ForumState,
    voter: Address,
    g: Uint256,
    p: Uint256,
    is_upvote: bool,
    again_upvote: bool,
)
    requires
        timestamp_at(s.posts, post_slot(g, p)) != 0,
    ensures
        ({
            let target = post_slot(g, p);
            let flag = vote_slot(voter, target);
            let voted = s.with_post_vote(voter, target, is_upvote);
            let unvoted = s.without_post_vote(voter, target, is_upvote);
            &&& flag_at(voted.post_votes, flag)
            &&& vote_error(Ok(true), timestamp_at(voted.posts, target), flag_at(voted.post_votes, flag),
                tally_at(voted.tallies, target), again_upvote) == Some(OmbuError::AlreadyVoted)
            &&& unvote_error(Ok(true), timestamp_at(voted.posts, target), flag_at(voted.post_votes, flag),
                tally_at(voted.tallies, target), again_upvote) != Some(OmbuError::HasNotVoted)
            &&& !flag_at(unvoted.post_votes, flag)
            &&& unvote_error(Ok(true), timestamp_at(unvoted.posts, target), flag_at(unvoted.post_votes, flag),
                tally_at(unvoted.tallies, target), again_upvote) == Some(OmbuError::HasNotVoted)
            &&& vote_error(Ok(true), timestamp_at(unvoted.posts, target), flag_at(unvoted.post_votes, flag),
                tally_at(unvoted.tallies, target), again_upvote) != Some(OmbuError::AlreadyVoted)
        }),
{
}

/// A delete before any vote fails with `HasNotVoted`, and a vote when one is
/// open fails with `AlreadyVoted`, on any existing record.
pub proof fn lemma_flag_mismatch_refused(timestamp: u32, t: Tally, is_upvote: bool)
    requires
        timestamp != 0,
    ensures
        unvote_error(Ok(true), timestamp, false, t, is_upvote) == Some(OmbuError::HasNotVoted),
        vote_error(Ok(true), timestamp, true, t, is_upvote) == Some(OmbuError::AlreadyVoted),
{
}

/// A vote and its deletion in the same direction leave the tally as it was,
/// and the deletion is then accepted.
pub proof fn lemma_vote_cycle_neutral(timestamp: u32, t: Tally, is_upvote: bool)
    requires
        vote_error(Ok(true), timestamp, false, t, is_upvote) is None,
    ensures
        unvote_error(Ok(true), timestamp, true, add_vote(t, is_upvote), is_upvote) is None,
        remove_vote(add_vote(t, is_upvote), is_upvote) == t,
{
}

/// The same on the forum's state: a vote on a main post and its deletion in
/// the same direction give back the post's tally.
pub proof fn lemma_post_vote_cycle_neutral(
    s: ForumState,
    voter: Address,
    g: Uint256,
    p: Uint256,
    is_upvote: bool,
)
    requires
        vote_error(Ok(true), timestamp_at(s.posts, post_slot(g, p)),
            flag_at(s.post_votes, vote_slot(voter, post_slot(g, p))),
            tally_at(s.tallies, post_slot(g, p)), is_upvote) is None,
    ensures
        ({
            let target = post_slot(g, p);
            let after = s.with_post_vote(voter, target, is_upvote).without_post_vote(voter, target, is_upvote);
            &&& tally_at(after.tallies, target) == tally_at(s.tallies, target)
            &&& !flag_at(after.post_votes, vote_slot(voter, target))
        }),
{
}

} // verus!
