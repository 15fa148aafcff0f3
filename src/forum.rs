//! The forum engine: groups, posts, sub-posts and the vote ledger.
//!
//! Every operation that depends on the membership service takes that
//! service's answer as an argument (`Err` carries the service's revert data),
//! and leaves the state unchanged whenever it fails.
use vstd::prelude::*;
use crate::table::{Slot, Table};
use crate::word::{pow256, Address, Uint256};
use vstd::string::StringExecFns;

verus! {

/// The only sub-post id a main post can hold.
pub const SUB_POST_ID: u128 = 1;

/// Why an operation failed.
#[derive(Clone, Debug, PartialEq, Eq)]
pub enum OmbuError {
    NotAllowed,
    PostDoesNotExist,
    MainPostDoesNotExist,
    UserNotGroupMember,
    AlreadyVoted,
    HasNotVoted,
    /// A vote count would drop below zero.
    Underflow,
    /// A counter would pass its largest value.
    Overflow,
    /// The membership service failed; its revert data, unchanged.
    Membership(Vec<u8>),
}

/// A notification emitted by a successful state change.
#[derive(Clone, Copy, Debug, PartialEq, Eq, Structural)]
pub enum Event {
    ChangeAdmin { new_admin: Address },
    PostCreated { group_id: Uint256, post_id: Uint256, timestamp: u32 },
    SubPostCreated { group_id: Uint256, post_id: Uint256, sub_post_id: Uint256, timestamp: u32 },
    VoteCast { group_id: Uint256, post_id: Uint256, voter: Address, is_upvote: bool },
    SubPostVoteCast {
        group_id: Uint256,
        post_id: Uint256,
        sub_post_id: Uint256,
        voter: Address,
        is_upvote: bool,
    },
}

/// What a post or sub-post holds besides its tally.
pub struct Post {
    pub content: String,
    pub timestamp: u32,
}

/// The up and down votes of a post or sub-post.
#[derive(Clone, Copy, Debug, PartialEq, Eq, Structural)]
pub struct Tally {
    pub upvotes: u32,
    pub downvotes: u32,
}

/// The abstract state of the forum.
pub struct ForumState {
    pub semaphore: Address,
    pub admin: Address,
    pub group_counter: nat,
    pub groups: Seq<Uint256>,
    pub names: Map<Slot, String>,
    pub post_counters: Map<Slot, Uint256>,
    pub posts: Map<Slot, Post>,
    pub tallies: Map<Slot, Tally>,
    pub sub_posts: Map<Slot, Post>,
    pub sub_tallies: Map<Slot, Tally>,
    pub post_votes: Map<Slot, bool>,
    pub sub_post_votes: Map<Slot, bool>,
}

/// The slot of a group-level mapping.
pub open spec fn group_slot(g: Uint256) -> Slot {
    Slot { voter: Address { hi: 0, lo: 0 }, group: g, post: Uint256 { hi: 0, lo: 0 }, sub_post: Uint256 { hi: 0, lo: 0 } }
}

/// The slot of a post.
pub open spec fn post_slot(g: Uint256, p: Uint256) -> Slot {
    Slot { post: p, ..group_slot(g) }
}

/// The slot of a sub-post.
pub open spec fn sub_post_slot(g: Uint256, p: Uint256, s: Uint256) -> Slot {
    Slot { sub_post: s, ..post_slot(g, p) }
}

/// The slot of a voter's flag on a post or sub-post.
pub open spec fn vote_slot(v: Address, target: Slot) -> Slot {
    Slot { voter: v, ..target }
}

/// The tally at `k`, zero where none is stored.
pub open spec fn tally_at(m: Map<Slot, Tally>, k: Slot) -> Tally {
    if m.contains_key(k) { m[k] } else { Tally { upvotes: 0, downvotes: 0 } }
}

/// The creation time at `k`, zero (absent) where no record is stored.
pub open spec fn timestamp_at(m: Map<Slot, Post>, k: Slot) -> u32 {
    if m.contains_key(k) { m[k].timestamp } else { 0 }
}

/// The content at `k`, empty where no record is stored.
pub open spec fn content_at(m: Map<Slot, Post>, k: Slot) -> Seq<char> {
    if m.contains_key(k) { m[k].content@ } else { Seq::empty() }
}

/// Whether the flag at `k` is set.
pub open spec fn flag_at(m: Map<Slot, bool>, k: Slot) -> bool {
    m.contains_key(k) && m[k]
}

/// The error a vote meets, or `None` where it is counted.
pub open spec fn vote_error(
    membership: Result<bool, Vec<u8>>,
    timestamp: u32,
    voted: bool,
    t: Tally,
    is_upvote: bool,
) -> Option<OmbuError> {
    match membership {
        Err(e) => Some(OmbuError::Membership(e)),
        Ok(false) => Some(OmbuError::UserNotGroupMember),
        Ok(true) => if timestamp == 0 {
            Some(OmbuError::PostDoesNotExist)
        } else if voted {
            Some(OmbuError::AlreadyVoted)
        } else if (is_upvote && t.upvotes == u32::MAX) || (!is_upvote && t.downvotes == u32::MAX) {
            Some(OmbuError::Overflow)
        } else {
            None
        },
    }
}

/// The error a vote deletion meets, or `None` where it is taken back.
pub open spec fn unvote_error(
    membership: Result<bool, Vec<u8>>,
    timestamp: u32,
    voted: bool,
    t: Tally,
    is_upvote: bool,
) -> Option<OmbuError> {
    match membership {
        Err(e) => Some(OmbuError::Membership(e)),
        Ok(false) => Some(OmbuError::UserNotGroupMember),
        Ok(true) => if timestamp == 0 {
            Some(OmbuError::PostDoesNotExist)
        } else if !voted {
            Some(OmbuError::HasNotVoted)
        } else if (is_upvote && t.upvotes == 0) || (!is_upvote && t.downvotes == 0) {
            Some(OmbuError::Underflow)
        } else {
            None
        },
    }
}

/// `t` with one more vote in the named direction.
pub open spec fn add_vote(t: Tally, is_upvote: bool) -> Tally {
    if is_upvote {
        Tally { upvotes: (t.upvotes + 1) as u32, ..t }
    } else {
        Tally { downvotes: (t.downvotes + 1) as u32, ..t }
    }
}

/// `t` with one vote fewer in the named direction.
pub open spec fn remove_vote(t: Tally, is_upvote: bool) -> Tally {
    if is_upvote {
        Tally { upvotes: (t.upvotes - 1) as u32, ..t }
    } else {
        Tally { downvotes: (t.downvotes - 1) as u32, ..t }
    }
}

impl ForumState {
    /// The state after a main post `post` is stored in group `g` under `id`.
    pub open spec fn with_main_post(self, g: Uint256, id: Uint256, post: Post) -> ForumState {
        ForumState {
            post_counters: self.post_counters.insert(group_slot(g), id),
            posts: self.posts.insert(post_slot(g, id), post),
            tallies: self.tallies.insert(post_slot(g, id), Tally { upvotes: 0, downvotes: 0 }),
            ..self
        }
    }

    /// The state after `voter`'s vote on main post `target` is counted.
    pub open spec fn with_post_vote(self, voter: Address, target: Slot, is_upvote: bool) -> ForumState {
        ForumState {
            tallies: self.tallies.insert(target, add_vote(tally_at(self.tallies, target), is_upvote)),
            post_votes: self.post_votes.insert(vote_slot(voter, target), true),
            ..self
        }
    }

    /// The state after `voter`'s vote on main post `target` is taken back.
    pub open spec fn without_post_vote(self, voter: Address, target: Slot, is_upvote: bool) -> ForumState {
        ForumState {
            tallies: self.tallies.insert(target, remove_vote(tally_at(self.tallies, target), is_upvote)),
            post_votes: self.post_votes.insert(vote_slot(voter, target), false),
            ..self
        }
    }

    /// The number of main posts created in group `g`.
    pub open spec fn post_counter(self, g: Uint256) -> nat {
        if self.post_counters.contains_key(group_slot(g)) {
            self.post_counters[group_slot(g)].value()
        } else {
            0
        }
    }
}

/// The forum's storage.
pub struct Ombu {
    semaphore: Address,
    group_counter: Uint256,
    admin: Address,
    group_post_counters: Table<Uint256>,
    groups: Vec<Uint256>,
    group_names: Table<String>,
    group_posts: Table<Post>,
    post_tallies: Table<Tally>,
    post_sub_posts: Table<Post>,
    sub_post_tallies: Table<Tally>,
    user_post_votes: Table<bool>,
    user_sub_post_votes: Table<bool>,
}

impl View for Ombu {
    type V = ForumState;

    closed spec fn view(&self) -> ForumState {
        ForumState {
            semaphore: self.semaphore,
            admin: self.admin,
            group_counter: self.group_counter.value(),
            groups: self.groups@,
            names: self.group_names@,
            post_counters: self.group_post_counters@,
            posts: self.group_posts@,
            tallies: self.post_tallies@,
            sub_posts: self.post_sub_posts@,
            sub_tallies: self.sub_post_tallies@,
            post_votes: self.user_post_votes@,
            sub_post_votes: self.user_sub_post_votes@,
        }
    }
}

fn empty_text() -> (r: String)
    ensures
        r@ == Seq::<char>::empty(),
{
    let s = String::from_str("");
    proof {
        reveal_strlit("");
    }
    s
}

fn group_key(g: Uint256) -> (r: Slot)
    ensures
        r == group_slot(g),
{
    Slot { voter: Address::zero(), group: g, post: Uint256::zero(), sub_post: Uint256::zero() }
}

fn post_key(g: Uint256, p: Uint256) -> (r: Slot)
    ensures
        r == post_slot(g, p),
{
    Slot { post: p, ..group_key(g) }
}

fn sub_post_key(g: Uint256, p: Uint256, s: Uint256) -> (r: Slot)
    ensures
        r == sub_post_slot(g, p, s),
{
    Slot { sub_post: s, ..post_key(g, p) }
}

fn vote_key(v: Address, target: Slot) -> (r: Slot)
    ensures
        r == vote_slot(v, target),
{
    Slot { voter: v, ..target }
}

fn read_tally(m: &Table<Tally>, k: &Slot) -> (r: Tally)
    requires
        m.wf(),
    ensures
        r == tally_at(m@, *k),
{
    match m.get(k) {
        Some(t) => *t,
        None => Tally { upvotes: 0, downvotes: 0 },
    }
}

fn read_timestamp(m: &Table<Post>, k: &Slot) -> (r: u32)
    requires
        m.wf(),
    ensures
        r == timestamp_at(m@, *k),
{
    match m.get(k) {
        Some(p) => p.timestamp,
        None => 0,
    }
}

fn read_flag(m: &Table<bool>, k: &Slot) -> (r: bool)
    requires
        m.wf(),
    ensures
        r == flag_at(m@, *k),
{
    match m.get(k) {
        Some(b) => *b,
        None => false,
    }
}

/// Counts a vote on the record at `target`, flagged at `flag`.
fn cast_vote(
    records: &Table<Post>,
    tallies: &mut Table<Tally>,
    flags: &mut Table<bool>,
    target: Slot,
    flag: Slot,
    is_upvote: bool,
    membership: Result<bool, Vec<u8>>,
) -> (r: Result<(), OmbuError>)
    requires
        records.wf(),
        old(tallies).wf(),
        old(flags).wf(),
    ensures
        final(tallies).wf(),
        final(flags).wf(),
        ({
            let err = vote_error(membership, timestamp_at(records@, target),
                flag_at(old(flags)@, flag), tally_at(old(tallies)@, target), is_upvote);
            match err {
                Some(e) => r == Err::<(), OmbuError>(e) && final(tallies)@ == old(tallies)@
                    && final(flags)@ == old(flags)@,
                None => r is Ok && final(tallies)@ == old(tallies)@.insert(
                    target, add_vote(tally_at(old(tallies)@, target), is_upvote))
                    && final(flags)@ == old(flags)@.insert(flag, true),
            }
        }),
{
    match membership {
        Err(e) => { return Err(OmbuError::Membership(e)); },
        Ok(false) => { return Err(OmbuError::UserNotGroupMember); },
        Ok(true) => {},
    }
    if read_timestamp(records, &target) == 0 {
        return Err(OmbuError::PostDoesNotExist);
    }
    if read_flag(flags, &flag) {
        return Err(OmbuError::AlreadyVoted);
    }
    let t = read_tally(tallies, &target);
    let next = if is_upvote {
        match t.upvotes.checked_add(1) {
            Some(n) => Tally { upvotes: n, ..t },
            None => { return Err(OmbuError::Overflow); },
        }
    } else {
        match t.downvotes.checked_add(1) {
            Some(n) => Tally { downvotes: n, ..t },
            None => { return Err(OmbuError::Overflow); },
        }
    };
    tallies.set(target, next);
    flags.set(flag, true);
    Ok(())
}

/// Takes back a vote on the record at `target`, flagged at `flag`; the
/// direction is the caller's claim, not a stored one.
fn retract_vote(
    records: &Table<Post>,
    tallies: &mut Table<Tally>,
    flags: &mut Table<bool>,
    target: Slot,
    flag: Slot,
    is_upvote: bool,
    membership: Result<bool, Vec<u8>>,
) -> (r: Result<(), OmbuError>)
    requires
        records.wf(),
        old(tallies).wf(),
        old(flags).wf(),
    ensures
        final(tallies).wf(),
        final(flags).wf(),
        ({
            let err = unvote_error(membership, timestamp_at(records@, target),
                flag_at(old(flags)@, flag), tally_at(old(tallies)@, target), is_upvote);
            match err {
                Some(e) => r == Err::<(), OmbuError>(e) && final(tallies)@ == old(tallies)@
                    && final(flags)@ == old(flags)@,
                None => r is Ok && final(tallies)@ == old(tallies)@.insert(
                    target, remove_vote(tally_at(old(tallies)@, target), is_upvote))
                    && final(flags)@ == old(flags)@.insert(flag, false),
            }
        }),
{
    match membership {
        Err(e) => { return Err(OmbuError::Membership(e)); },
        Ok(false) => { return Err(OmbuError::UserNotGroupMember); },
        Ok(true) => {},
    }
    if read_timestamp(records, &target) == 0 {
        return Err(OmbuError::PostDoesNotExist);
    }
    if !read_flag(flags, &flag) {
        return Err(OmbuError::HasNotVoted);
    }
    let t = read_tally(tallies, &target);
    let next = if is_upvote {
        match t.upvotes.checked_sub(1) {
            Some(n) => Tally { upvotes: n, ..t },
            None => { return Err(OmbuError::Underflow); },
        }
    } else {
        match t.downvotes.checked_sub(1) {
            Some(n) => Tally { downvotes: n, ..t },
            None => { return Err(OmbuError::Underflow); },
        }
    };
    tallies.set(target, next);
    flags.set(flag, false);
    Ok(())
}

impl Ombu {
    /// Every table keeps its keys unique.
    pub closed spec fn wf(&self) -> bool {
        &&& self.group_post_counters.wf()
        &&& self.group_names.wf()
        &&& self.group_posts.wf()
        &&& self.post_tallies.wf()
        &&& self.post_sub_posts.wf()
        &&& self.sub_post_tallies.wf()
        &&& self.user_post_votes.wf()
        &&& self.user_sub_post_votes.wf()
    }

    /// Fresh storage: no admin, no group, no post.
    pub fn new() -> (r: Ombu)
        ensures
            r.wf(),
            r@.semaphore == Address::zero_spec(),
            r@.admin == Address::zero_spec(),
            r@.group_counter == 0,
            r@.groups == Seq::<Uint256>::empty(),
            r@.names == Map::<Slot, String>::empty(),
            r@.post_counters == Map::<Slot, Uint256>::empty(),
            r@.posts == Map::<Slot, Post>::empty(),
            r@.tallies == Map::<Slot, Tally>::empty(),
            r@.sub_posts == Map::<Slot, Post>::empty(),
            r@.sub_tallies == Map::<Slot, Tally>::empty(),
            r@.post_votes == Map::<Slot, bool>::empty(),
            r@.sub_post_votes == Map::<Slot, bool>::empty(),
    {
        Ombu {
            semaphore: Address::zero(),
            group_counter: Uint256::zero(),
            admin: Address::zero(),
            group_post_counters: Table::new(),
            groups: Vec::new(),
            group_names: Table::new(),
            group_posts: Table::new(),
            post_tallies: Table::new(),
            post_sub_posts: Table::new(),
            sub_post_tallies: Table::new(),
            user_post_votes: Table::new(),
            user_sub_post_votes: Table::new(),
        }
    }

    /// Records the membership service and makes `sender` the admin, given the
    /// id of the seed group that the service created (or its failure).
    pub fn init(
        &mut self,
        semaphore_address: Address,
        sender: Address,
        created_group: Result<Uint256, Vec<u8>>,
    ) -> (r: Result<(), OmbuError>)
        requires
            old(self).wf(),
        ensures
            final(self).wf(),
            match created_group {
                Err(e) => r == Err::<(), OmbuError>(OmbuError::Membership(e))
                    && final(self)@ == old(self)@,
                Ok(g) => r is Ok
                    && final(self)@.names.contains_key(group_slot(g))
                    && final(self)@.names[group_slot(g)]@ == "Invisible Garden"@
                    && final(self)@ == (ForumState {
                        semaphore: semaphore_address,
                        admin: sender,
                        group_counter: 1,
                        groups: old(self)@.groups.push(g),
                        names: old(self)@.names.insert(group_slot(g), final(self)@.names[group_slot(g)]),
                        ..old(self)@
                    }),
            },
    {
        let g = match created_group {
            Ok(g) => g,
            Err(e) => { return Err(OmbuError::Membership(e)); },
        };
        self.semaphore = semaphore_address;
        self.admin = sender;
        self.group_counter = Uint256::from_u128(1);
        self.groups.push(g);
        let name = String::from_str("Invisible Garden");
        self.group_names.set(group_key(g), name);
        Ok(())
    }

    /// Stores a new main post in `group_id`, given the membership service's
    /// verdict on the poster's proof and the block time `now`.
    pub fn create_main_post(
        &mut self,
        group_id: Uint256,
        proof_check: Result<(), Vec<u8>>,
        now: u64,
        content: String,
    ) -> (r: Result<Event, OmbuError>)
        requires
            old(self).wf(),
            now <= u32::MAX,
        ensures
            final(self).wf(),
            match proof_check {
                Err(e) => r == Err::<Event, OmbuError>(OmbuError::Membership(e))
                    && final(self)@ == old(self)@,
                Ok(_) => if old(self)@.post_counter(group_id) + 1 >= pow256() {
                    r == Err::<Event, OmbuError>(OmbuError::Overflow) && final(self)@ == old(self)@
                } else {
                    let n = old(self)@.post_counter(group_id) + 1;
                    exists|id: Uint256| {
                        &&& id.value() == n
                        &&& r == Ok::<Event, OmbuError>(Event::PostCreated { group_id, post_id: id, timestamp: now as u32 })
                        &&& final(self)@ == old(self)@.with_main_post(
                            group_id, id, Post { content, timestamp: now as u32 })
                    }
                },
            },
    {
        if let Err(e) = proof_check {
            return Err(OmbuError::Membership(e));
        }
        let gk = group_key(group_id);
        let counter = match self.group_post_counters.get(&gk) {
            Some(c) => *c,
            None => Uint256::zero(),
        };
        let id = match counter.checked_increment() {
            Some(id) => id,
            None => { return Err(OmbuError::Overflow); },
        };
        let timestamp = now as u32;
        self.group_post_counters.set(gk, id);
        let pk = post_key(group_id, id);
        self.group_posts.set(pk, Post { content, timestamp });
        self.post_tallies.set(pk, Tally { upvotes: 0, downvotes: 0 });
        Ok(Event::PostCreated { group_id, post_id: id, timestamp })
    }

    /// Stores the sub-post of main post `main_post_id`, replacing any earlier
    /// one: a main post holds one sub-post, with id 1.
    pub fn create_sub_post(
        &mut self,
        group_id: Uint256,
        main_post_id: Uint256,
        proof_check: Result<(), Vec<u8>>,
        now: u64,
        content: String,
    ) -> (r: Result<Event, OmbuError>)
        requires
            old(self).wf(),
            now <= u32::MAX,
        ensures
            final(self).wf(),
            ({
                let sk = sub_post_slot(group_id, main_post_id, Uint256 { hi: 0, lo: 1 });
                match proof_check {
                    Err(e) => r == Err::<Event, OmbuError>(OmbuError::Membership(e))
                        && final(self)@ == old(self)@,
                    Ok(_) => if timestamp_at(old(self)@.posts, post_slot(group_id, main_post_id)) == 0 {
                        r == Err::<Event, OmbuError>(OmbuError::MainPostDoesNotExist)
                            && final(self)@ == old(self)@
                    } else {
                        &&& r == Ok::<Event, OmbuError>(Event::SubPostCreated {
                            group_id,
                            post_id: main_post_id,
                            sub_post_id: Uint256 { hi: 0, lo: 1 },
                            timestamp: now as u32,
                        })
                        &&& final(self)@ == (ForumState {
                            sub_posts: old(self)@.sub_posts.insert(sk, Post { content, timestamp: now as u32 }),
                            sub_tallies: old(self)@.sub_tallies.insert(sk, Tally { upvotes: 0, downvotes: 0 }),
                            ..old(self)@
                        })
                    },
                }
            }),
    {
        if let Err(e) = proof_check {
            return Err(OmbuError::Membership(e));
        }
        if read_timestamp(&self.group_posts, &post_key(group_id, main_post_id)) == 0 {
            return Err(OmbuError::MainPostDoesNotExist);
        }
        let timestamp = now as u32;
        let sub_post_id = Uint256::from_u128(SUB_POST_ID);
        let sk = sub_post_key(group_id, main_post_id, sub_post_id);
        self.post_sub_posts.set(sk, Post { content, timestamp });
        self.sub_post_tallies.set(sk, Tally { upvotes: 0, downvotes: 0 });
        Ok(Event::SubPostCreated { group_id, post_id: main_post_id, sub_post_id, timestamp })
    }
    /// Counts `sender`'s vote on a main post, given the membership service's answer
    /// on the voter's commitment.
    pub fn vote_on_post(
        &mut self,
        sender: Address,
        group_id: Uint256,
        post_id: Uint256,
        is_upvote: bool,
        membership: Result<bool, Vec<u8>>,
    ) -> (r: Result<Event, OmbuError>)
        requires
            old(self).wf(),
        ensures
            final(self).wf(),
            ({
                let target = post_slot(group_id, post_id);
                let flag = vote_slot(sender, target);
                let t = tally_at(old(self)@.tallies, target);
                match vote_error(membership, timestamp_at(old(self)@.posts, target),
                    flag_at(old(self)@.post_votes, flag), t, is_upvote) {
                    Some(e) => r == Err::<Event, OmbuError>(e) && final(self)@ == old(self)@,
                    None => r == Ok::<Event, OmbuError>(Event::VoteCast { group_id, post_id, voter: sender, is_upvote })
                        && final(self)@ == old(self)@.with_post_vote(sender, target, is_upvote),
                }
            }),
    {
        let target = post_key(group_id, post_id);
        let flag = vote_key(sender, target);
        let done = cast_vote(&self.group_posts, &mut self.post_tallies, &mut self.user_post_votes, target, flag,
            is_upvote, membership);
        match done {
            Ok(()) => Ok(Event::VoteCast { group_id, post_id, voter: sender, is_upvote }),
            Err(e) => Err(e),
        }
    }

    /// Counts `sender`'s vote on a sub-post, given the membership service's answer
    /// on the voter's commitment.
    pub fn vote_on_sub_post(
        &mut self,
        sender: Address,
        group_id: Uint256,
        post_id: Uint256,
        sub_post_id: Uint256,
        is_upvote: bool,
        membership: Result<bool, Vec<u8>>,
    ) -> (r: Result<Event, OmbuError>)
        requires
            old(self).wf(),
        ensures
            final(self).wf(),
            ({
                let target = sub_post_slot(group_id, post_id, sub_post_id);
                let flag = vote_slot(sender, target);
                let t = tally_at(old(self)@.sub_tallies, target);
                match vote_error(membership, timestamp_at(old(self)@.sub_posts, target),
                    flag_at(old(self)@.sub_post_votes, flag), t, is_upvote) {
                    Some(e) => r == Err::<Event, OmbuError>(e) && final(self)@ == old(self)@,
                    None => r == Ok::<Event, OmbuError>(Event::SubPostVoteCast { group_id, post_id, sub_post_id, voter: sender, is_upvote }) && final(self)@ == (ForumState {
                        sub_tallies: old(self)@.sub_tallies.insert(target, add_vote(t, is_upvote)),
                        sub_post_votes: old(self)@.sub_post_votes.insert(flag, true),
                        ..old(self)@
                    }),
                }
            }),
    {
        let target = sub_post_key(group_id, post_id, sub_post_id);
        let flag = vote_key(sender, target);
        let done = cast_vote(&self.post_sub_posts, &mut self.sub_post_tallies, &mut self.user_sub_post_votes, target, flag,
            is_upvote, membership);
        match done {
            Ok(()) => Ok(Event::SubPostVoteCast { group_id, post_id, sub_post_id, voter: sender, is_upvote }),
            Err(e) => Err(e),
        }
    }

    /// Takes back `sender`'s vote on a main post. The direction is the caller's
    /// claim: it is not checked against the vote that was cast.
    pub fn delete_vote_on_post(
        &mut self,
        sender: Address,
        group_id: Uint256,
        post_id: Uint256,
        is_upvote: bool,
        membership: Result<bool, Vec<u8>>,
    ) -> (r: Result<(), OmbuError>)
        requires
            old(self).wf(),
        ensures
            final(self).wf(),
            ({
                let target = post_slot(group_id, post_id);
                let flag = vote_slot(sender, target);
                let t = tally_at(old(self)@.tallies, target);
                match unvote_error(membership, timestamp_at(old(self)@.posts, target),
                    flag_at(old(self)@.post_votes, flag), t, is_upvote) {
                    Some(e) => r == Err::<(), OmbuError>(e) && final(self)@ == old(self)@,
                    None => r == Ok::<(), OmbuError>(()) 
                        && final(self)@ == old(self)@.without_post_vote(sender, target, is_upvote),
                }
            }),
    {
        let target = post_key(group_id, post_id);
        let flag = vote_key(sender, target);
        let done = retract_vote(&self.group_posts, &mut self.post_tallies, &mut self.user_post_votes, target, flag,
            is_upvote, membership);
        match done {
            Ok(()) => Ok(()),
            Err(e) => Err(e),
        }
    }

    /// Takes back `sender`'s vote on a sub-post. The direction is the caller's
    /// claim: it is not checked against the vote that was cast.
    pub fn delete_vote_on_sub_post(
        &mut self,
        sender: Address,
        group_id: Uint256,
        post_id: Uint256,
        sub_post_id: Uint256,
        is_upvote: bool,
        membership: Result<bool, Vec<u8>>,
    ) -> (r: Result<(), OmbuError>)
        requires
            old(self).wf(),
        ensures
            final(self).wf(),
            ({
                let target = sub_post_slot(group_id, post_id, sub_post_id);
                let flag = vote_slot(sender, target);
                let t = tally_at(old(self)@.sub_tallies, target);
                match unvote_error(membership, timestamp_at(old(self)@.sub_posts, target),
                    flag_at(old(self)@.sub_post_votes, flag), t, is_upvote) {
                    Some(e) => r == Err::<(), OmbuError>(e) && final(self)@ == old(self)@,
                    None => r == Ok::<(), OmbuError>(()) && final(self)@ == (ForumState {
                        sub_tallies: old(self)@.sub_tallies.insert(target, remove_vote(t, is_upvote)),
                        sub_post_votes: old(self)@.sub_post_votes.insert(flag, false),
                        ..old(self)@
                    }),
                }
            }),
    {
        let target = sub_post_key(group_id, post_id, sub_post_id);
        let flag = vote_key(sender, target);
        let done = retract_vote(&self.post_sub_posts, &mut self.sub_post_tallies, &mut self.user_sub_post_votes, target, flag,
            is_upvote, membership);
        match done {
            Ok(()) => Ok(()),
            Err(e) => Err(e),
        }
    }

    /// Fails with `NotAllowed` unless `sender` is the admin.
    pub fn require_admin(&self, sender: Address) -> (r: Result<(), OmbuError>)
        ensures
            r == if sender == self@.admin {
                Ok::<(), OmbuError>(())
            } else {
                Err::<(), OmbuError>(OmbuError::NotAllowed)
            },
    {
        if sender != self.admin {
            return Err(OmbuError::NotAllowed);
        }
        Ok(())
    }

    /// Names a new group, given the id that the membership service created
    /// for it (or its failure); admin only.
    pub fn create_group(
        &mut self,
        sender: Address,
        name: String,
        created_group: Result<Uint256, Vec<u8>>,
    ) -> (r: Result<Uint256, OmbuError>)
        requires
            old(self).wf(),
        ensures
            final(self).wf(),
            if sender != old(self)@.admin {
                r == Err::<Uint256, OmbuError>(OmbuError::NotAllowed) && final(self)@ == old(self)@
            } else {
                match created_group {
                    Err(e) => r == Err::<Uint256, OmbuError>(OmbuError::Membership(e))
                        && final(self)@ == old(self)@,
                    Ok(g) => if old(self)@.group_counter + 1 >= pow256() {
                        r == Err::<Uint256, OmbuError>(OmbuError::Overflow) && final(self)@ == old(self)@
                    } else {
                        r == Ok::<Uint256, OmbuError>(g) && final(self)@ == (ForumState {
                            group_counter: old(self)@.group_counter + 1,
                            groups: old(self)@.groups.push(g),
                            names: old(self)@.names.insert(group_slot(g), name),
                            ..old(self)@
                        })
                    },
                }
            },
    {
        self.require_admin(sender)?;
        let g = match created_group {
            Ok(g) => g,
            Err(e) => { return Err(OmbuError::Membership(e)); },
        };
        let counter = match self.group_counter.checked_increment() {
            Some(c) => c,
            None => { return Err(OmbuError::Overflow); },
        };
        self.group_names.set(group_key(g), name);
        self.group_counter = counter;
        self.groups.push(g);
        Ok(g)
    }

    /// Passes on the membership service's answer to adding a member.
    pub fn add_member(&self, added: Result<(), Vec<u8>>) -> (r: Result<(), OmbuError>)
        ensures
            match added {
                Ok(_) => r is Ok,
                Err(e) => r == Err::<(), OmbuError>(OmbuError::Membership(e)),
            },
    {
        match added {
            Ok(()) => Ok(()),
            Err(e) => Err(OmbuError::Membership(e)),
        }
    }

    /// Admin only: passes on the membership service's answer to removing a
    /// member.
    pub fn remove_member(&self, sender: Address, removed: Result<(), Vec<u8>>) -> (r: Result<(), OmbuError>)
        ensures
            if sender != self@.admin {
                r == Err::<(), OmbuError>(OmbuError::NotAllowed)
            } else {
                match removed {
                    Ok(_) => r is Ok,
                    Err(e) => r == Err::<(), OmbuError>(OmbuError::Membership(e)),
                }
            },
    {
        self.require_admin(sender)?;
        match removed {
            Ok(()) => Ok(()),
            Err(e) => Err(OmbuError::Membership(e)),
        }
    }

    /// Hands the admin role to `new_admin`; admin only.
    pub fn change_admin(&mut self, sender: Address, new_admin: Address) -> (r: Result<Event, OmbuError>)
        requires
            old(self).wf(),
        ensures
            final(self).wf(),
            if sender != old(self)@.admin {
                r == Err::<Event, OmbuError>(OmbuError::NotAllowed) && final(self)@ == old(self)@
            } else {
                r == Ok::<Event, OmbuError>(Event::ChangeAdmin { new_admin })
                    && final(self)@ == (ForumState { admin: new_admin, ..old(self)@ })
            },
    {
        self.require_admin(sender)?;
        self.admin = new_admin;
        Ok(Event::ChangeAdmin { new_admin })
    }

    /// Passes on the membership service's answer to a group admin update.
    pub fn change_group_admin(&self, updated: Result<(), Vec<u8>>) -> (r: Result<(), OmbuError>)
        ensures
            match updated {
                Ok(_) => r is Ok,
                Err(e) => r == Err::<(), OmbuError>(OmbuError::Membership(e)),
            },
    {
        match updated {
            Ok(()) => Ok(()),
            Err(e) => Err(OmbuError::Membership(e)),
        }
    }

    /// Passes on the membership service's answer to accepting a group admin role.
    pub fn accept_group_admin(&self, accepted: Result<(), Vec<u8>>) -> (r: Result<(), OmbuError>)
        ensures
            match accepted {
                Ok(_) => r is Ok,
                Err(e) => r == Err::<(), OmbuError>(OmbuError::Membership(e)),
            },
    {
        match accepted {
            Ok(()) => Ok(()),
            Err(e) => Err(OmbuError::Membership(e)),
        }
    }

    /// Passes on the membership service's answer on a commitment.
    pub fn is_group_member(&self, membership: Result<bool, Vec<u8>>) -> (r: Result<bool, OmbuError>)
        ensures
            match membership {
                Ok(b) => r == Ok::<bool, OmbuError>(b),
                Err(e) => r == Err::<bool, OmbuError>(OmbuError::Membership(e)),
            },
    {
        match membership {
            Ok(b) => Ok(b),
            Err(e) => Err(OmbuError::Membership(e)),
        }
    }

    pub fn get_semaphore(&self) -> (r: Address)
        ensures
            r == self@.semaphore,
    {
        self.semaphore
    }

    pub fn get_group_counter(&self) -> (r: Uint256)
        ensures
            r.value() == self@.group_counter,
    {
        self.group_counter
    }

    pub fn get_admin(&self) -> (r: Address)
        ensures
            r == self@.admin,
    {
        self.admin
    }

    pub fn get_group_post_counter(&self, group_id: Uint256) -> (r: Uint256)
        requires
            self.wf(),
        ensures
            r.value() == self@.post_counter(group_id),
    {
        match self.group_post_counters.get(&group_key(group_id)) {
            Some(c) => *c,
            None => Uint256::zero(),
        }
    }

    /// The group's name; empty for an unknown group.
    pub fn get_group_name(&self, group_id: Uint256) -> (r: String)
        requires
            self.wf(),
        ensures
            r@ == (if self@.names.contains_key(group_slot(group_id)) {
                self@.names[group_slot(group_id)]@
            } else {
                Seq::<char>::empty()
            }),
    {
        match self.group_names.get(&group_key(group_id)) {
            Some(n) => n.clone(),
            None => empty_text(),
        }
    }

    /// Content, timestamp, upvotes and downvotes of a main post; all empty or
    /// zero where it does not exist.
    pub fn get_post(&self, group_id: Uint256, post_id: Uint256) -> (r: (String, u32, u32, u32))
        requires
            self.wf(),
        ensures
            ({
                let k = post_slot(group_id, post_id);
                &&& r.0@ == content_at(self@.posts, k)
                &&& r.1 == timestamp_at(self@.posts, k)
                &&& r.2 == tally_at(self@.tallies, k).upvotes
                &&& r.3 == tally_at(self@.tallies, k).downvotes
            }),
    {
        let k = post_key(group_id, post_id);
        let t = read_tally(&self.post_tallies, &k);
        match self.group_posts.get(&k) {
            Some(p) => (p.content.clone(), p.timestamp, t.upvotes, t.downvotes),
            None => (empty_text(), 0, t.upvotes, t.downvotes),
        }
    }

    /// Content, timestamp, upvotes and downvotes of a sub-post; all empty or
    /// zero where it does not exist.
    pub fn get_sub_post(&self, group_id: Uint256, post_id: Uint256, sub_post_id: Uint256) -> (r: (String, u32, u32, u32))
        requires
            self.wf(),
        ensures
            ({
                let k = sub_post_slot(group_id, post_id, sub_post_id);
                &&& r.0@ == content_at(self@.sub_posts, k)
                &&& r.1 == timestamp_at(self@.sub_posts, k)
                &&& r.2 == tally_at(self@.sub_tallies, k).upvotes
                &&& r.3 == tally_at(self@.sub_tallies, k).downvotes
            }),
    {
        let k = sub_post_key(group_id, post_id, sub_post_id);
        let t = read_tally(&self.sub_post_tallies, &k);
        match self.post_sub_posts.get(&k) {
            Some(p) => (p.content.clone(), p.timestamp, t.upvotes, t.downvotes),
            None => (empty_text(), 0, t.upvotes, t.downvotes),
        }
    }

    pub fn has_user_voted_on_post(&self, user: Address, group_id: Uint256, post_id: Uint256) -> (r: bool)
        requires
            self.wf(),
        ensures
            r == flag_at(self@.post_votes, vote_slot(user, post_slot(group_id, post_id))),
    {
        read_flag(&self.user_post_votes, &vote_key(user, post_key(group_id, post_id)))
    }

    pub fn has_user_voted_on_sub_post(
        &self,
        user: Address,
        group_id: Uint256,
        post_id: Uint256,
        sub_post_id: Uint256,
    ) -> (r: bool)
        requires
            self.wf(),
        ensures
            r == flag_at(self@.sub_post_votes, vote_slot(user, sub_post_slot(group_id, post_id, sub_post_id))),
    {
        read_flag(&self.user_sub_post_votes, &vote_key(user, sub_post_key(group_id, post_id, sub_post_id)))
    }
}

} // verus!
