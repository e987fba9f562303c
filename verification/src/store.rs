//! The persistence gateway modelled as an in-memory table set with
//! explicit invariants: unique community ids, unique post rows, at most
//! one follow relation, one like and one read mark per key.
//!
//! Every operation states exactly which table changes and how; the
//! orchestration workflows build their own contracts on top of these.

use vstd::prelude::*;
use vstd::pervasive::VecAdditionalExecFns;
use crate::domain::{
    ApiError, Community, CommunityId, FederatedId, FollowRelation, FollowState, PersonId, Post, PostId,
    PostLike, ReadMark,
};

verus! {

/// The stored tables.  `next_post_id` is the row id the next created post
/// receives; `now` is the timestamp stamped onto created rows.
pub struct Store {
    pub communities: Vec<Community>,
    pub posts: Vec<Post>,
    pub follows: Vec<FollowRelation>,
    pub likes: Vec<PostLike>,
    pub read_marks: Vec<ReadMark>,
    pub next_post_id: u64,
    pub now: u64,
}

/// Number of follow relations pointing at community `c`.
pub open spec fn count_follows(s: Seq<FollowRelation>, c: CommunityId) -> nat
    decreases s.len(),
{
    if s.len() == 0 {
        0nat
    } else {
        count_follows(s.drop_last(), c) + if s.last().community_id == c {
            1nat
        } else {
            0nat
        }
    }
}

proof fn lemma_count_follows_take_step(s: Seq<FollowRelation>, c: CommunityId, i: int)
    requires
        0 <= i < s.len(),
    ensures
        count_follows(s.take(i + 1), c) == count_follows(s.take(i), c) + if s[i].community_id
            == c {
            1nat
        } else {
            0nat
        },
{
    assert(s.take(i + 1).drop_last() =~= s.take(i));
    assert(s.take(i + 1).last() == s[i]);
}

proof fn lemma_count_follows_remove(s: Seq<FollowRelation>, c: CommunityId, i: int)
    requires
        0 <= i < s.len(),
    ensures
        count_follows(s.remove(i), c) == count_follows(s, c) - if s[i].community_id == c {
            1nat
        } else {
            0nat
        },
    decreases s.len(),
{
    if i == s.len() - 1 {
        assert(s.remove(i) =~= s.drop_last());
    } else {
        assert(s.remove(i).drop_last() =~= s.drop_last().remove(i));
        assert(s.remove(i).last() == s.last());
        lemma_count_follows_remove(s.drop_last(), c, i);
    }
}

impl Store {
    pub open spec fn communities_wf(self) -> bool {
        forall|i: int, j: int|
            #![trigger self.communities@[i], self.communities@[j]]
            0 <= i < j < self.communities@.len() ==> self.communities@[i].id
                != self.communities@[j].id
    }

    pub open spec fn follows_wf(self) -> bool {
        forall|i: int, j: int|
            #![trigger self.follows@[i], self.follows@[j]]
            0 <= i < j < self.follows@.len() ==> !(self.follows@[i].person_id
                == self.follows@[j].person_id && self.follows@[i].community_id
                == self.follows@[j].community_id)
    }

    pub open spec fn posts_wf(self) -> bool {
        &&& forall|i: int|
            0 <= i < self.posts@.len() ==> (#[trigger] self.posts@[i]).id.0 < self.next_post_id
        &&& forall|i: int, j: int|
            #![trigger self.posts@[i], self.posts@[j]]
            0 <= i < j < self.posts@.len() ==> self.posts@[i].id != self.posts@[j].id
    }

    pub open spec fn likes_wf(self) -> bool {
        &&& forall|i: int|
            0 <= i < self.likes@.len() ==> (#[trigger] self.likes@[i]).post_id.0
                < self.next_post_id && -1 <= self.likes@[i].score <= 1
        &&& forall|i: int, j: int|
            #![trigger self.likes@[i], self.likes@[j]]
            0 <= i < j < self.likes@.len() ==> !(self.likes@[i].post_id == self.likes@[j].post_id
                && self.likes@[i].person_id == self.likes@[j].person_id)
    }

    pub open spec fn read_marks_wf(self) -> bool {
        &&& forall|i: int|
            0 <= i < self.read_marks@.len() ==> (#[trigger] self.read_marks@[i]).post_id.0
                < self.next_post_id
        &&& forall|i: int, j: int|
            #![trigger self.read_marks@[i], self.read_marks@[j]]
            0 <= i < j < self.read_marks@.len() ==> !(self.read_marks@[i].person_id
                == self.read_marks@[j].person_id && self.read_marks@[i].post_id
                == self.read_marks@[j].post_id)
    }

    /// Store invariant: key uniqueness and row-id discipline of every table.
    pub open spec fn wf(self) -> bool {
        &&& self.communities_wf()
        &&& self.follows_wf()
        &&& self.posts_wf()
        &&& self.likes_wf()
        &&& self.read_marks_wf()
    }

    pub open spec fn has_community(self, c: CommunityId) -> bool {
        exists|i: int|
            0 <= i < self.communities@.len() && (#[trigger] self.communities@[i]).id == c
    }

    pub open spec fn community_idx(self, c: CommunityId) -> int {
        choose|i: int|
            0 <= i < self.communities@.len() && (#[trigger] self.communities@[i]).id == c
    }

    pub open spec fn community_at(self, c: CommunityId) -> Community {
        self.communities@[self.community_idx(c)]
    }

    pub open spec fn has_follow(self, p: PersonId, c: CommunityId) -> bool {
        exists|i: int|
            0 <= i < self.follows@.len() && (#[trigger] self.follows@[i]).person_id == p
                && self.follows@[i].community_id == c
    }

    pub open spec fn follow_idx(self, p: PersonId, c: CommunityId) -> int {
        choose|i: int|
            0 <= i < self.follows@.len() && (#[trigger] self.follows@[i]).person_id == p
                && self.follows@[i].community_id == c
    }

    pub open spec fn follow_at(self, p: PersonId, c: CommunityId) -> FollowRelation {
        self.follows@[self.follow_idx(p, c)]
    }

    /// Membership state of the pair as a projection reports it.
    pub open spec fn follow_state_of(self, p: PersonId, c: CommunityId) -> FollowState {
        if !self.has_follow(p, c) {
            FollowState::Absent
        } else if self.follow_at(p, c).pending {
            FollowState::Pending
        } else {
            FollowState::Accepted
        }
    }

    pub open spec fn subscriber_count_of(self, c: CommunityId) -> nat {
        count_follows(self.follows@, c)
    }

    pub open spec fn has_post(self, id: PostId) -> bool {
        exists|i: int| 0 <= i < self.posts@.len() && (#[trigger] self.posts@[i]).id == id
    }

    pub open spec fn post_idx(self, id: PostId) -> int {
        choose|i: int| 0 <= i < self.posts@.len() && (#[trigger] self.posts@[i]).id == id
    }

    pub open spec fn post_at(self, id: PostId) -> Post {
        self.posts@[self.post_idx(id)]
    }

    pub open spec fn has_like(self, post: PostId, person: PersonId) -> bool {
        exists|i: int|
            0 <= i < self.likes@.len() && (#[trigger] self.likes@[i]).post_id == post
                && self.likes@[i].person_id == person
    }

    pub open spec fn like_idx(self, post: PostId, person: PersonId) -> int {
        choose|i: int|
            0 <= i < self.likes@.len() && (#[trigger] self.likes@[i]).post_id == post
                && self.likes@[i].person_id == person
    }

    pub open spec fn like_at(self, post: PostId, person: PersonId) -> PostLike {
        self.likes@[self.like_idx(post, person)]
    }

    pub open spec fn has_read_mark(self, person: PersonId, post: PostId) -> bool {
        exists|i: int|
            0 <= i < self.read_marks@.len() && (#[trigger] self.read_marks@[i]).person_id == person
                && self.read_marks@[i].post_id == post
    }
}

proof fn lemma_community_unique(s: Store, c: CommunityId, i: int)
    requires
        s.communities_wf(),
        0 <= i < s.communities@.len(),
        s.communities@[i].id == c,
    ensures
        s.has_community(c),
        s.community_idx(c) == i,
{
    assert(s.has_community(c));
    let j = s.community_idx(c);
    assert(0 <= j < s.communities@.len() && s.communities@[j].id == c);
    if i != j {
        assert(false);
    }
}

proof fn lemma_follow_unique(s: Store, p: PersonId, c: CommunityId, i: int)
    requires
        s.follows_wf(),
        0 <= i < s.follows@.len(),
        s.follows@[i].person_id == p,
        s.follows@[i].community_id == c,
    ensures
        s.has_follow(p, c),
        s.follow_idx(p, c) == i,
{
    assert(s.has_follow(p, c));
    let j = s.follow_idx(p, c);
    assert(0 <= j < s.follows@.len() && s.follows@[j].person_id == p && s.follows@[j].community_id
        == c);
    if i != j {
        assert(false);
    }
}

proof fn lemma_post_unique(s: Store, id: PostId, i: int)
    requires
        s.posts_wf(),
        0 <= i < s.posts@.len(),
        s.posts@[i].id == id,
    ensures
        s.has_post(id),
        s.post_idx(id) == i,
{
    assert(s.has_post(id));
    let j = s.post_idx(id);
    assert(0 <= j < s.posts@.len() && s.posts@[j].id == id);
    if i != j {
        assert(false);
    }
}

proof fn lemma_like_unique(s: Store, post: PostId, person: PersonId, i: int)
    requires
        s.likes_wf(),
        0 <= i < s.likes@.len(),
        s.likes@[i].post_id == post,
        s.likes@[i].person_id == person,
    ensures
        s.has_like(post, person),
        s.like_idx(post, person) == i,
{
    assert(s.has_like(post, person));
    let j = s.like_idx(post, person);
    assert(0 <= j < s.likes@.len() && s.likes@[j].post_id == post && s.likes@[j].person_id
        == person);
    if i != j {
        assert(false);
    }
}

impl Store {
    /// A store with no rows at all.
    pub fn empty() -> (s: Store)
        ensures
            s.wf(),
            s.communities@.len() == 0,
            s.posts@.len() == 0,
            s.follows@.len() == 0,
            s.likes@.len() == 0,
            s.read_marks@.len() == 0,
            s.next_post_id == 0,
            s.now == 0,
    {
        Store {
            communities: Vec::new(),
            posts: Vec::new(),
            follows: Vec::new(),
            likes: Vec::new(),
            read_marks: Vec::new(),
            next_post_id: 0,
            now: 0,
        }
    }

    /// Adds a community row; refused when the id is already taken.
    pub fn add_community(&mut self, c: Community) -> (r: bool)
        requires
            old(self).wf(),
        ensures
            final(self).wf(),
            r == !old(self).has_community(c.id),
            r ==> final(self).communities@ == old(self).communities@.push(c)
                && final(self).has_community(c.id) && final(self).community_at(c.id) == c,
            !r ==> *final(self) == *old(self),
            final(self).posts@ == old(self).posts@,
            final(self).follows@ == old(self).follows@,
            final(self).likes@ == old(self).likes@,
            final(self).read_marks@ == old(self).read_marks@,
            final(self).next_post_id == old(self).next_post_id,
            final(self).now == old(self).now,
    {
        if self.find_community(c.id).is_some() {
            return false;
        }
        proof {
            let ghost pre = *self;
            assert forall|i: int| 0 <= i < pre.communities@.len() implies (
            #[trigger] pre.communities@[i]).id != c.id by {
                if pre.communities@[i].id == c.id {
                    assert(pre.has_community(c.id));
                }
            }
        }
        let ghost pre = *self;
        self.communities.push(c);
        proof {
            lemma_community_unique(*self, c.id, pre.communities@.len() as int);
        }
        true
    }

    /// Index of the community row with id `c`, if any.
    pub fn find_community(&self, c: CommunityId) -> (r: Option<usize>)
        requires
            self.communities_wf(),
        ensures
            match r {
                Some(i) => self.has_community(c) && i < self.communities@.len()
                    && self.community_idx(c) == i as int && self.communities@[i as int].id == c,
                None => !self.has_community(c),
            },
    {
        let mut i: usize = 0;
        while i < self.communities.len()
            invariant
                self.communities_wf(),
                0 <= i <= self.communities@.len(),
                forall|k: int| 0 <= k < i ==> (#[trigger] self.communities@[k]).id != c,
            decreases self.communities@.len() - i,
        {
            if self.communities[i].id == c {
                proof {
                    lemma_community_unique(*self, c, i as int);
                }
                return Some(i);
            }
            i += 1;
        }
        None
    }

    fn find_follow(&self, p: PersonId, c: CommunityId) -> (r: Option<usize>)
        requires
            self.follows_wf(),
        ensures
            match r {
                Some(i) => self.has_follow(p, c) && i < self.follows@.len() && self.follow_idx(
                    p,
                    c,
                ) == i as int && self.follows@[i as int].person_id == p && self.follows@[
                    i as int
                ].community_id == c,
                None => !self.has_follow(p, c),
            },
    {
        let mut i: usize = 0;
        while i < self.follows.len()
            invariant
                self.follows_wf(),
                0 <= i <= self.follows@.len(),
                forall|k: int|
                    0 <= k < i ==> !((#[trigger] self.follows@[k]).person_id == p
                        && self.follows@[k].community_id == c),
            decreases self.follows@.len() - i,
        {
            if self.follows[i].person_id == p && self.follows[i].community_id == c {
                proof {
                    lemma_follow_unique(*self, p, c, i as int);
                }
                return Some(i);
            }
            i += 1;
        }
        None
    }

    /// Membership state of the pair, as a read projection reports it.
    pub fn follow_state(&self, p: PersonId, c: CommunityId) -> (r: FollowState)
        requires
            self.follows_wf(),
        ensures
            r == self.follow_state_of(p, c),
    {
        match self.find_follow(p, c) {
            Some(i) => {
                if self.follows[i].pending {
                    FollowState::Pending
                } else {
                    FollowState::Accepted
                }
            },
            None => FollowState::Absent,
        }
    }

    /// Number of follow relations the community currently has.
    pub fn subscriber_count(&self, c: CommunityId) -> (r: usize)
        ensures
            r as nat == self.subscriber_count_of(c),
    {
        let n = self.follows.len();
        let mut count: usize = 0;
        let mut i: usize = 0;
        while i < n
            invariant
                n == self.follows@.len(),
                0 <= i <= n,
                count as nat == count_follows(self.follows@.take(i as int), c),
                count <= i,
            decreases n - i,
        {
            proof {
                lemma_count_follows_take_step(self.follows@, c, i as int);
            }
            if self.follows[i].community_id == c {
                count += 1;
            }
            i += 1;
        }
        proof {
            assert(self.follows@.take(n as int) =~= self.follows@);
        }
        count
    }

    /// Creates a follow relation; the conflict when one already exists is
    /// surfaced, not silently ignored.
    pub fn add_follow(&mut self, p: PersonId, c: CommunityId, pending: bool) -> (r: Result<
        (),
        ApiError,
    >)
        requires
            old(self).wf(),
        ensures
            final(self).wf(),
            final(self).communities@ == old(self).communities@,
            final(self).posts@ == old(self).posts@,
            final(self).likes@ == old(self).likes@,
            final(self).read_marks@ == old(self).read_marks@,
            final(self).next_post_id == old(self).next_post_id,
            final(self).now == old(self).now,
            match r {
                Ok(()) => !old(self).has_follow(p, c) && final(self).follows@
                    == old(self).follows@.push(
                    FollowRelation { person_id: p, community_id: c, pending },
                ) && final(self).follow_state_of(p, c) == (if pending {
                    FollowState::Pending
                } else {
                    FollowState::Accepted
                }) && final(self).subscriber_count_of(c) == old(self).subscriber_count_of(c) + 1,
                Err(e) => e == ApiError::AlreadyFollowing && old(self).has_follow(p, c) && *final(self) == *old(self),
            },
    {
        if self.find_follow(p, c).is_some() {
            return Err(ApiError::AlreadyFollowing);
        }
        let ghost pre = *self;
        let rel = FollowRelation { person_id: p, community_id: c, pending };
        self.follows.push(rel);
        proof {
            assert forall|i: int, j: int|
                #![trigger self.follows@[i], self.follows@[j]]
                0 <= i < j < self.follows@.len() implies !(self.follows@[i].person_id
                == self.follows@[j].person_id && self.follows@[i].community_id
                == self.follows@[j].community_id) by {
                if j == self.follows@.len() - 1 {
                    if self.follows@[i].person_id == p && self.follows@[i].community_id == c {
                        assert(pre.follows@[i] == self.follows@[i]);
                        assert(pre.has_follow(p, c));
                    }
                }
            }
            lemma_follow_unique(*self, p, c, pre.follows@.len() as int);
            assert(self.follows@.drop_last() =~= pre.follows@);
        }
        Ok(())
    }

    /// Removes the follow relation of the pair; the absence of one is
    /// surfaced as a conflict.
    pub fn remove_follow(&mut self, p: PersonId, c: CommunityId) -> (r: Result<(), ApiError>)
        requires
            old(self).wf(),
        ensures
            final(self).wf(),
            final(self).communities@ == old(self).communities@,
            final(self).posts@ == old(self).posts@,
            final(self).likes@ == old(self).likes@,
            final(self).read_marks@ == old(self).read_marks@,
            final(self).next_post_id == old(self).next_post_id,
            final(self).now == old(self).now,
            match r {
                Ok(()) => old(self).has_follow(p, c) && !final(self).has_follow(p, c) && final(self).follows@.len() == old(self).follows@.len() - 1 && final(self).subscriber_count_of(c) == old(self).subscriber_count_of(c) - 1 && forall|
                    p2: PersonId,
                    c2: CommunityId,
                |
                    !(p2 == p && c2 == c) ==> #[trigger] final(self).follow_state_of(p2, c2) == old(
                        self,
                    ).follow_state_of(p2, c2),
                Err(e) => e == ApiError::NotFollowing && !old(self).has_follow(p, c)
                    && *final(self) == *old(self),
            },
    {
        let idx = match self.find_follow(p, c) {
            Some(i) => i,
            None => {
                return Err(ApiError::NotFollowing);
            },
        };
        let ghost pre = *self;
        self.follows.remove(idx);
        proof {
            let s0 = pre.follows@;
            let s1 = self.follows@;
            assert(s1 == s0.remove(idx as int));
            assert(forall|k: int|
                0 <= k < s1.len() ==> #[trigger] s1[k] == (if k < idx as int {
                    s0[k]
                } else {
                    s0[k + 1]
                }));
            assert forall|i: int, j: int|
                #![trigger s1[i], s1[j]]
                0 <= i < j < s1.len() implies !(s1[i].person_id == s1[j].person_id
                && s1[i].community_id == s1[j].community_id) by {
                let i0 = if i < idx as int {
                    i
                } else {
                    i + 1
                };
                let j0 = if j < idx as int {
                    j
                } else {
                    j + 1
                };
                assert(s1[i] == s0[i0] && s1[j] == s0[j0] && i0 < j0);
            }
            assert forall|k: int| 0 <= k < s1.len() implies !((#[trigger] s1[k]).person_id == p
                && s1[k].community_id == c) by {
                let k0 = if k < idx as int {
                    k
                } else {
                    k + 1
                };
                assert(s1[k] == s0[k0]);
                if s0[k0].person_id == p && s0[k0].community_id == c {
                    lemma_follow_unique(pre, p, c, k0);
                }
            }
            assert(!self.has_follow(p, c));
            lemma_count_follows_remove(s0, c, idx as int);
            assert forall|p2: PersonId, c2: CommunityId|
                !(p2 == p && c2 == c) implies #[trigger] self.follow_state_of(p2, c2)
                == pre.follow_state_of(p2, c2) by {
                if pre.has_follow(p2, c2) {
                    let k0 = pre.follow_idx(p2, c2);
                    assert(0 <= k0 < s0.len() && s0[k0].person_id == p2 && s0[k0].community_id
                        == c2);
                    assert(k0 != idx as int);
                    let k1 = if k0 < idx as int {
                        k0
                    } else {
                        k0 - 1
                    };
                    assert(s1[k1] == s0[k0]);
                    lemma_follow_unique(*self, p2, c2, k1);
                } else {
                    if self.has_follow(p2, c2) {
                        let k1 = self.follow_idx(p2, c2);
                        let k0 = if k1 < idx as int {
                            k1
                        } else {
                            k1 + 1
                        };
                        assert(s1[k1] == s0[k0]);
                        lemma_follow_unique(pre, p2, c2, k0);
                    }
                }
            }
        }
        Ok(())
    }
}


proof fn lemma_read_mark_unique(s: Store, person: PersonId, post: PostId, i: int)
    requires
        s.read_marks_wf(),
        0 <= i < s.read_marks@.len(),
        s.read_marks@[i].person_id == person,
        s.read_marks@[i].post_id == post,
    ensures
        s.has_read_mark(person, post),
{
    assert(s.has_read_mark(person, post));
}

impl Store {
    fn find_post(&self, id: PostId) -> (r: Option<usize>)
        requires
            self.posts_wf(),
        ensures
            match r {
                Some(i) => self.has_post(id) && i < self.posts@.len() && self.post_idx(id)
                    == i as int && self.posts@[i as int].id == id,
                None => !self.has_post(id),
            },
    {
        let mut i: usize = 0;
        while i < self.posts.len()
            invariant
                self.posts_wf(),
                0 <= i <= self.posts@.len(),
                forall|k: int| 0 <= k < i ==> (#[trigger] self.posts@[k]).id != id,
            decreases self.posts@.len() - i,
        {
            if self.posts[i].id == id {
                proof {
                    lemma_post_unique(*self, id, i as int);
                }
                return Some(i);
            }
            i += 1;
        }
        None
    }

    fn find_like(&self, post: PostId, person: PersonId) -> (r: Option<usize>)
        requires
            self.likes_wf(),
        ensures
            match r {
                Some(i) => self.has_like(post, person) && i < self.likes@.len() && self.like_idx(
                    post,
                    person,
                ) == i as int && self.likes@[i as int].post_id == post
                    && self.likes@[i as int].person_id == person,
                None => !self.has_like(post, person),
            },
    {
        let mut i: usize = 0;
        while i < self.likes.len()
            invariant
                self.likes_wf(),
                0 <= i <= self.likes@.len(),
                forall|k: int|
                    0 <= k < i ==> !((#[trigger] self.likes@[k]).post_id == post
                        && self.likes@[k].person_id == person),
            decreases self.likes@.len() - i,
        {
            if self.likes[i].post_id == post && self.likes[i].person_id == person {
                proof {
                    lemma_like_unique(*self, post, person, i as int);
                }
                return Some(i);
            }
            i += 1;
        }
        None
    }

    /// Whether the person holds a read mark for the post.
    pub fn read_mark_exists(&self, person: PersonId, post: PostId) -> (r: bool)
        ensures
            r == self.has_read_mark(person, post),
    {
        let mut i: usize = 0;
        while i < self.read_marks.len()
            invariant
                0 <= i <= self.read_marks@.len(),
                forall|k: int|
                    0 <= k < i ==> !((#[trigger] self.read_marks@[k]).person_id == person
                        && self.read_marks@[k].post_id == post),
            decreases self.read_marks@.len() - i,
        {
            if self.read_marks[i].person_id == person && self.read_marks[i].post_id == post {
                return true;
            }
            i += 1;
        }
        false
    }

    /// The stored row of a post id, if any.
    pub fn read_post(&self, id: PostId) -> (r: Option<&Post>)
        requires
            self.posts_wf(),
        ensures
            match r {
                Some(p) => self.has_post(id) && *p == self.post_at(id),
                None => !self.has_post(id),
            },
    {
        match self.find_post(id) {
            Some(i) => Some(&self.posts[i]),
            None => None,
        }
    }

    /// The stored vote of the pair, if any.
    pub fn read_like(&self, post: PostId, person: PersonId) -> (r: Option<PostLike>)
        requires
            self.likes_wf(),
        ensures
            match r {
                Some(l) => self.has_like(post, person) && l == self.like_at(post, person),
                None => !self.has_like(post, person),
            },
    {
        match self.find_like(post, person) {
            Some(i) => Some(self.likes[i]),
            None => None,
        }
    }

    /// Appends a created post row; the row id must be the next free one.
    pub fn push_post(&mut self, post: Post)
        requires
            old(self).wf(),
            post.id.0 == old(self).next_post_id,
            old(self).next_post_id < u64::MAX,
        ensures
            final(self).wf(),
            final(self).posts@ == old(self).posts@.push(post),
            final(self).next_post_id == old(self).next_post_id + 1,
            final(self).has_post(post.id),
            final(self).post_at(post.id) == post,
            final(self).post_idx(post.id) == old(self).posts@.len(),
            forall|p2: PersonId| !(#[trigger] final(self).has_like(post.id, p2)),
            forall|p2: PersonId| !(#[trigger] final(self).has_read_mark(p2, post.id)),
            final(self).communities@ == old(self).communities@,
            final(self).follows@ == old(self).follows@,
            final(self).likes@ == old(self).likes@,
            final(self).read_marks@ == old(self).read_marks@,
            final(self).now == old(self).now,
    {
        let ghost pre = *self;
        self.posts.push(post);
        self.next_post_id = self.next_post_id + 1;
        proof {
            assert(self.posts@.drop_last() =~= pre.posts@);
            assert forall|i: int, j: int|
                #![trigger self.posts@[i], self.posts@[j]]
                0 <= i < j < self.posts@.len() implies self.posts@[i].id != self.posts@[j].id by {
                if j == self.posts@.len() - 1 {
                    assert(self.posts@[i] == pre.posts@[i]);
                }
            }
            lemma_post_unique(*self, post.id, pre.posts@.len() as int);
            assert forall|p2: PersonId| !(#[trigger] self.has_like(post.id, p2)) by {
                if self.has_like(post.id, p2) {
                    let i = self.like_idx(post.id, p2);
                    assert(0 <= i < self.likes@.len() && self.likes@[i].post_id == post.id);
                }
            }
            assert forall|p2: PersonId| !(#[trigger] self.has_read_mark(p2, post.id)) by {
                if self.has_read_mark(p2, post.id) {
                    let i = choose|i: int|
                        0 <= i < self.read_marks@.len() && (#[trigger] self.read_marks@[i]).person_id
                            == p2 && self.read_marks@[i].post_id == post.id;
                    assert(self.read_marks@[i].post_id.0 < pre.next_post_id);
                }
            }
        }
    }

    /// Sets the federated identity of an existing post row.
    pub fn assign_identity(&mut self, id: PostId, fid: FederatedId) -> (r: bool)
        requires
            old(self).wf(),
        ensures
            final(self).wf(),
            r == old(self).has_post(id),
            !r ==> *final(self) == *old(self),
            r ==> final(self).post_idx(id) == old(self).post_idx(id),
            r ==> final(self).posts@.len() == old(self).posts@.len() && final(self).has_post(id)
                && final(self).post_at(id) == (Post {
                ap_id: Some(fid),
                ..old(self).post_at(id)
            }) && (forall|j: int|
                0 <= j < old(self).posts@.len() && old(self).posts@[j].id != id
                    ==> final(self).posts@[j] == #[trigger] old(self).posts@[j]),
            final(self).communities@ == old(self).communities@,
            final(self).follows@ == old(self).follows@,
            final(self).likes@ == old(self).likes@,
            final(self).read_marks@ == old(self).read_marks@,
            final(self).next_post_id == old(self).next_post_id,
            final(self).now == old(self).now,
    {
        let idx = match self.find_post(id) {
            Some(i) => i,
            None => {
                return false;
            },
        };
        let ghost pre = *self;
        let mut row = self.posts.remove(idx);
        row.ap_id = Some(fid);
        self.posts.insert(idx, row);
        proof {
            assert(self.posts@ =~= pre.posts@.update(idx as int, row));
            assert forall|i: int, j: int|
                #![trigger self.posts@[i], self.posts@[j]]
                0 <= i < j < self.posts@.len() implies self.posts@[i].id != self.posts@[j].id by {
                assert(self.posts@[i].id == pre.posts@[i].id);
                assert(self.posts@[j].id == pre.posts@[j].id);
            }
            lemma_post_unique(*self, id, idx as int);
        }
        true
    }

    /// Records a vote, replacing the pair's previous vote if any: at most
    /// one row per key, last write wins.
    pub fn upsert_like(&mut self, post: PostId, person: PersonId, score: i8)
        requires
            old(self).wf(),
            post.0 < old(self).next_post_id,
            -1 <= score <= 1,
        ensures
            final(self).wf(),
            final(self).has_like(post, person),
            final(self).like_at(post, person) == (PostLike { post_id: post, person_id: person, score }),
            final(self).likes@.len() == old(self).likes@.len() + (if old(self).has_like(post, person) {
                0int
            } else {
                1int
            }),
            forall|q: PostId, p2: PersonId|
                !(q == post && p2 == person) ==> #[trigger] final(self).has_like(q, p2) == old(
                    self,
                ).has_like(q, p2),
            final(self).communities@ == old(self).communities@,
            final(self).follows@ == old(self).follows@,
            final(self).posts@ == old(self).posts@,
            final(self).read_marks@ == old(self).read_marks@,
            final(self).next_post_id == old(self).next_post_id,
            final(self).now == old(self).now,
    {
        let row = PostLike { post_id: post, person_id: person, score };
        let ghost pre = *self;
        match self.find_like(post, person) {
            Some(i) => {
                self.likes.set(i, row);
                proof {
                    let s0 = pre.likes@;
                    let s1 = self.likes@;
                    assert(s1 == s0.update(i as int, row));
                    assert forall|a: int, b: int|
                        #![trigger s1[a], s1[b]]
                        0 <= a < b < s1.len() implies !(s1[a].post_id == s1[b].post_id && s1[a].person_id
                        == s1[b].person_id) by {
                        assert(s1[a].post_id == s0[a].post_id && s1[a].person_id == s0[a].person_id);
                        assert(s1[b].post_id == s0[b].post_id && s1[b].person_id == s0[b].person_id);
                    }
                    lemma_like_unique(*self, post, person, i as int);
                    assert forall|q: PostId, p2: PersonId|
                        !(q == post && p2 == person) implies #[trigger] self.has_like(q, p2) == pre.has_like(
                        q,
                        p2,
                    ) by {
                        if pre.has_like(q, p2) {
                            let k = pre.like_idx(q, p2);
                            assert(s1[k].post_id == q && s1[k].person_id == p2);
                            lemma_like_unique(*self, q, p2, k);
                        }
                        if self.has_like(q, p2) {
                            let k = self.like_idx(q, p2);
                            assert(s0[k].post_id == q && s0[k].person_id == p2);
                            lemma_like_unique(pre, q, p2, k);
                        }
                    }
                }
            },
            None => {
                self.likes.push(row);
                proof {
                    let s0 = pre.likes@;
                    let s1 = self.likes@;
                    assert(s1.drop_last() =~= s0);
                    assert forall|a: int, b: int|
                        #![trigger s1[a], s1[b]]
                        0 <= a < b < s1.len() implies !(s1[a].post_id == s1[b].post_id && s1[a].person_id
                        == s1[b].person_id) by {
                        if b == s1.len() - 1 {
                            assert(s1[a] == s0[a]);
                            if s1[a].post_id == post && s1[a].person_id == person {
                                lemma_like_unique(pre, post, person, a);
                            }
                        }
                    }
                    lemma_like_unique(*self, post, person, pre.likes@.len() as int);
                    assert forall|q: PostId, p2: PersonId|
                        !(q == post && p2 == person) implies #[trigger] self.has_like(q, p2) == pre.has_like(
                        q,
                        p2,
                    ) by {
                        if pre.has_like(q, p2) {
                            let k = pre.like_idx(q, p2);
                            assert(s1[k].post_id == q && s1[k].person_id == p2);
                            lemma_like_unique(*self, q, p2, k);
                        }
                        if self.has_like(q, p2) {
                            let k = self.like_idx(q, p2);
                            assert(k < s1.len() - 1);
                            assert(s0[k].post_id == q && s0[k].person_id == p2);
                            lemma_like_unique(pre, q, p2, k);
                        }
                    }
                }
            },
        }
    }

    /// Records that the person has read the post; a mark already present
    /// stays as it is.
    pub fn mark_read(&mut self, person: PersonId, post: PostId)
        requires
            old(self).wf(),
            post.0 < old(self).next_post_id,
        ensures
            final(self).wf(),
            final(self).has_read_mark(person, post),
            old(self).has_read_mark(person, post) ==> *final(self) == *old(self),
            !old(self).has_read_mark(person, post) ==> final(self).read_marks@ == old(
                self,
            ).read_marks@.push(ReadMark { person_id: person, post_id: post }),
            final(self).communities@ == old(self).communities@,
            final(self).follows@ == old(self).follows@,
            final(self).posts@ == old(self).posts@,
            final(self).likes@ == old(self).likes@,
            final(self).next_post_id == old(self).next_post_id,
            final(self).now == old(self).now,
    {
        if self.read_mark_exists(person, post) {
            return ;
        }
        let ghost pre = *self;
        let row = ReadMark { person_id: person, post_id: post };
        self.read_marks.push(row);
        proof {
            let s0 = pre.read_marks@;
            let s1 = self.read_marks@;
            assert(s1.drop_last() =~= s0);
            assert forall|a: int, b: int|
                #![trigger s1[a], s1[b]]
                0 <= a < b < s1.len() implies !(s1[a].person_id == s1[b].person_id && s1[a].post_id
                == s1[b].post_id) by {
                if b == s1.len() - 1 {
                    assert(s1[a] == s0[a]);
                    if s1[a].person_id == person && s1[a].post_id == post {
                        lemma_read_mark_unique(pre, person, post, a);
                    }
                }
            }
            lemma_read_mark_unique(*self, person, post, pre.read_marks@.len() as int);
        }
    }
}


} // verus!
