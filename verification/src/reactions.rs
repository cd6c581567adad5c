//! Reactions on commits: the nine reaction kinds, the per-commit reaction
//! counts, a user's own reactions, and the tallies that assemble them one
//! reaction id at a time while the caller runs the per-reaction queries.

use vstd::prelude::*;

verus! {

/// Number of reaction kinds; they carry the ids `0..REACTION_KINDS`.
pub const REACTION_KINDS: usize = 9;

/// How many users currently hold each reaction on one commit.
#[derive(Clone, Copy, Debug, PartialEq, Eq, Structural)]
pub struct ReactionState {
    pub heart: i32,
    pub rocket: i32,
    pub thumbsup: i32,
    pub thumbsdown: i32,
    pub skull: i32,
    pub trash: i32,
    pub tada: i32,
    pub facepalm: i32,
    pub nerd: i32,
}

impl ReactionState {
    /// The counts in reaction-id order: heart is id 0, nerd is id 8.
    pub open spec fn counts(self) -> Seq<i32> {
        seq![
            self.heart,
            self.rocket,
            self.thumbsup,
            self.thumbsdown,
            self.skull,
            self.trash,
            self.tada,
            self.facepalm,
            self.nerd,
        ]
    }
}

/// Which reactions one user currently holds on one commit.
#[derive(Clone, Copy, Debug, PartialEq, Eq, Structural)]
pub struct UserReactions {
    pub heart: bool,
    pub rocket: bool,
    pub thumbsup: bool,
    pub thumbsdown: bool,
    pub skull: bool,
    pub trash: bool,
    pub tada: bool,
    pub facepalm: bool,
    pub nerd: bool,
}

impl UserReactions {
    /// The flags in reaction-id order: heart is id 0, nerd is id 8.
    pub open spec fn flags(self) -> Seq<bool> {
        seq![
            self.heart,
            self.rocket,
            self.thumbsup,
            self.thumbsdown,
            self.skull,
            self.trash,
            self.tada,
            self.facepalm,
            self.nerd,
        ]
    }
}

/// The value a `COUNT(*)` row contributes: a missing count is 0, and the
/// 64-bit count is narrowed to 32 bits as a truncating cast does.
pub open spec fn count_of_row(count: Option<i64>) -> i32 {
    (match count {
        Some(c) => c,
        None => 0,
    }) as i32
}

/// The flag an `active` lookup contributes: no row means not active.
pub open spec fn flag_of_row(active: Option<bool>) -> bool {
    match active {
        Some(a) => a,
        None => false,
    }
}

/// Turns the result of one count query into the count for that reaction.
pub fn count_from_row(count: Option<i64>) -> (r: i32)
    ensures
        r == count_of_row(count),
        (count matches Some(c) && 0 <= c <= i32::MAX) ==> r == count->0,
{
    let c: i64 = match count {
        Some(c) => c,
        None => 0,
    };
    c as i32
}

/// Turns the result of one `active` lookup into the flag for that reaction.
pub fn flag_from_row(active: Option<bool>) -> (r: bool)
    ensures
        r == flag_of_row(active),
{
    match active {
        Some(a) => a,
        None => false,
    }
}

/// Collects the count of each reaction of a commit, in reaction-id order.
///
/// The caller asks `next_reaction_id` which reaction to count next, runs the
/// count query for it and hands the row to `record`; once no id is left,
/// `finish` gives the commit's `ReactionState`.
pub struct ReactionTally {
    counts: Vec<i32>,
}

impl View for ReactionTally {
    type V = Seq<i32>;

    closed spec fn view(&self) -> Seq<i32> {
        self.counts@
    }
}

impl ReactionTally {
    #[verifier::type_invariant]
    closed spec fn wf(self) -> bool {
        self.counts@.len() <= REACTION_KINDS
    }

    /// An empty tally: no reaction counted yet.
    pub fn new() -> (t: Self)
        ensures
            t@ == Seq::<i32>::empty(),
    {
        ReactionTally { counts: Vec::new() }
    }

    /// The id of the reaction to count next, or `None` once all nine are in.
    pub fn next_reaction_id(&self) -> (r: Option<i32>)
        ensures
            self@.len() <= REACTION_KINDS,
            r == (if self@.len() < REACTION_KINDS {
                Some(self@.len() as i32)
            } else {
                None::<i32>
            }),
    {
        proof {
            use_type_invariant(self);
        }
        let n = self.counts.len();
        if n < REACTION_KINDS {
            Some(n as i32)
        } else {
            None
        }
    }

    /// Records the count row of the reaction that `next_reaction_id` named.
    pub fn record(&mut self, count: Option<i64>)
        requires
            old(self)@.len() < REACTION_KINDS,
        ensures
            final(self)@ == old(self)@.push(count_of_row(count)),
    {
        let c = count_from_row(count);
        proof {
            use_type_invariant(&*self);
        }
        let mut counts: Vec<i32> = Vec::new();
        std::mem::swap(&mut counts, &mut self.counts);
        counts.push(c);
        self.counts = counts;
    }

    /// The commit's reaction state once every reaction has been counted.
    pub fn finish(self) -> (s: ReactionState)
        requires
            self@.len() == REACTION_KINDS,
        ensures
            s.heart == self@[0],
            s.rocket == self@[1],
            s.thumbsup == self@[2],
            s.thumbsdown == self@[3],
            s.skull == self@[4],
            s.trash == self@[5],
            s.tada == self@[6],
            s.facepalm == self@[7],
            s.nerd == self@[8],
            s.counts() == self@,
    {
        let v = &self.counts;
        ReactionState {
            heart: v[0],
            rocket: v[1],
            thumbsup: v[2],
            thumbsdown: v[3],
            skull: v[4],
            trash: v[5],
            tada: v[6],
            facepalm: v[7],
            nerd: v[8],
        }
    }
}

/// Collects one user's flag for each reaction of a commit, in reaction-id
/// order, the same way `ReactionTally` collects counts.
pub struct UserReactionTally {
    flags: Vec<bool>,
}

impl View for UserReactionTally {
    type V = Seq<bool>;

    closed spec fn view(&self) -> Seq<bool> {
        self.flags@
    }
}

impl UserReactionTally {
    #[verifier::type_invariant]
    closed spec fn wf(self) -> bool {
        self.flags@.len() <= REACTION_KINDS
    }

    /// An empty tally: no reaction looked up yet.
    pub fn new() -> (t: Self)
        ensures
            t@ == Seq::<bool>::empty(),
    {
        UserReactionTally { flags: Vec::new() }
    }

    /// The id of the reaction to look up next, or `None` once all nine are in.
    pub fn next_reaction_id(&self) -> (r: Option<i32>)
        ensures
            self@.len() <= REACTION_KINDS,
            r == (if self@.len() < REACTION_KINDS {
                Some(self@.len() as i32)
            } else {
                None::<i32>
            }),
    {
        proof {
            use_type_invariant(self);
        }
        let n = self.flags.len();
        if n < REACTION_KINDS {
            Some(n as i32)
        } else {
            None
        }
    }

    /// Records the lookup row of the reaction that `next_reaction_id` named.
    pub fn record(&mut self, active: Option<bool>)
        requires
            old(self)@.len() < REACTION_KINDS,
        ensures
            final(self)@ == old(self)@.push(flag_of_row(active)),
    {
        let a = flag_from_row(active);
        proof {
            use_type_invariant(&*self);
        }
        let mut flags: Vec<bool> = Vec::new();
        std::mem::swap(&mut flags, &mut self.flags);
        flags.push(a);
        self.flags = flags;
    }

    /// The user's reactions once every reaction has been looked up.
    pub fn finish(self) -> (s: UserReactions)
        requires
            self@.len() == REACTION_KINDS,
        ensures
            s.heart == self@[0],
            s.rocket == self@[1],
            s.thumbsup == self@[2],
            s.thumbsdown == self@[3],
            s.skull == self@[4],
            s.trash == self@[5],
            s.tada == self@[6],
            s.facepalm == self@[7],
            s.nerd == self@[8],
            s.flags() == self@,
    {
        let v = &self.flags;
        UserReactions {
            heart: v[0],
            rocket: v[1],
            thumbsup: v[2],
            thumbsdown: v[3],
            skull: v[4],
            trash: v[5],
            tada: v[6],
            facepalm: v[7],
            nerd: v[8],
        }
    }
}

/// A reaction request as the client sends it.
#[derive(Clone, Copy, Debug, PartialEq, Eq, Structural)]
pub struct ReqReaction {
    pub reaction_id: i32,
    pub commit_id: i32,
    pub active: bool,
}

/// A reaction to store: which user set which reaction on which commit, and
/// whether it is now on or off.
#[derive(Clone, Copy, Debug, PartialEq, Eq, Structural)]
pub struct Reaction {
    pub reaction_id: i32,
    pub user_id: i32,
    pub commit_id: i32,
    pub active: bool,
}

impl Reaction {
    /// The reaction that the user `user_id` (the one reacting, not the
    /// commit's author) asks for with `req`.
    pub fn from_request(req: &ReqReaction, user_id: i32) -> (r: Reaction)
        ensures
            r.reaction_id == req.reaction_id,
            r.user_id == user_id,
            r.commit_id == req.commit_id,
            r.active == req.active,
    {
        Reaction {
            reaction_id: req.reaction_id,
            user_id,
            commit_id: req.commit_id,
            active: req.active,
        }
    }
}

} // verus!
