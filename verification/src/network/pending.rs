use std::collections::HashMap;
use vstd::prelude::*;
use vstd::std_specs::hash::*;

verus! {

broadcast use vstd::std_specs::hash::group_hash_axioms;

/// A lookup of a peer's nickname: the peer, and the direct-message topic
/// whose history waits for the name.
#[derive(Debug, PartialEq, Eq)]
pub struct NicknameFetch {
    pub peer: String,
    pub dm_topic: Option<String>,
}

/// A lookup of a sender's rating: the message that waits to be shown, the
/// sender's name and the topic.
#[derive(Debug, PartialEq, Eq)]
pub struct RatingFetch {
    pub message: String,
    pub nickname: String,
    pub topic: String,
}

/// A lookup of a peer's rating that is to be changed by `delta`.
#[derive(Debug, PartialEq, Eq)]
pub struct RatingUpdate {
    pub peer: String,
    pub delta: i32,
}

/// Why a lookup in the distributed store was made.
#[derive(Debug, PartialEq, Eq)]
pub enum QueryPurpose {
    NicknameFetch(NicknameFetch),
    RatingFetch(RatingFetch),
    RatingUpdate(RatingUpdate),
}

/// The lookup of a nickname as mathematics sees it.
pub struct NicknameFetchView {
    pub peer: Seq<char>,
    pub dm_topic: Option<Seq<char>>,
}

/// The lookup of a sender's rating as mathematics sees it.
pub struct RatingFetchView {
    pub message: Seq<char>,
    pub nickname: Seq<char>,
    pub topic: Seq<char>,
}

/// The lookup for the change of a rating as mathematics sees it.
pub struct RatingUpdateView {
    pub peer: Seq<char>,
    pub delta: i32,
}

/// The purpose of a lookup as mathematics sees it.
pub enum PurposeView {
    NicknameFetch(NicknameFetchView),
    RatingFetch(RatingFetchView),
    RatingUpdate(RatingUpdateView),
}

impl View for NicknameFetch {
    type V = NicknameFetchView;

    open spec fn view(&self) -> NicknameFetchView {
        NicknameFetchView {
            peer: self.peer@,
            dm_topic: match self.dm_topic {
                Some(topic) => Some(topic@),
                None => None,
            },
        }
    }
}

impl View for RatingFetch {
    type V = RatingFetchView;

    open spec fn view(&self) -> RatingFetchView {
        RatingFetchView { message: self.message@, nickname: self.nickname@, topic: self.topic@ }
    }
}

impl View for RatingUpdate {
    type V = RatingUpdateView;

    open spec fn view(&self) -> RatingUpdateView {
        RatingUpdateView { peer: self.peer@, delta: self.delta }
    }
}

impl View for QueryPurpose {
    type V = PurposeView;

    open spec fn view(&self) -> PurposeView {
        match self {
            QueryPurpose::NicknameFetch(p) => PurposeView::NicknameFetch(p@),
            QueryPurpose::RatingFetch(p) => PurposeView::RatingFetch(p@),
            QueryPurpose::RatingUpdate(p) => PurposeView::RatingUpdate(p@),
        }
    }
}

/// The lookups that wait for their result, by token: one table for each
/// purpose.
pub struct PendingQueries {
    nickname_fetch: HashMap<u64, NicknameFetch>,
    rating_fetch: HashMap<u64, RatingFetch>,
    rating_update: HashMap<u64, RatingUpdate>,
}

/// The three tables as mathematics sees them.
pub struct PendingView {
    pub nickname_fetch: Map<u64, NicknameFetchView>,
    pub rating_fetch: Map<u64, RatingFetchView>,
    pub rating_update: Map<u64, RatingUpdateView>,
}

impl PendingView {
    /// The number of tables that hold `token`.
    pub open spec fn count(self, token: u64) -> nat {
        let a: nat = if self.nickname_fetch.contains_key(token) {
            1
        } else {
            0
        };
        let b: nat = if self.rating_fetch.contains_key(token) {
            1
        } else {
            0
        };
        let c: nat = if self.rating_update.contains_key(token) {
            1
        } else {
            0
        };
        a + b + c
    }

    /// No token stands in two tables.
    pub open spec fn exclusive(self) -> bool {
        forall|token: u64| self.count(token) <= 1
    }

    /// Some table holds `token`.
    pub open spec fn contains(self, token: u64) -> bool {
        self.count(token) > 0
    }

    /// The tables without `token`.
    pub open spec fn without(self, token: u64) -> PendingView {
        PendingView {
            nickname_fetch: self.nickname_fetch.remove(token),
            rating_fetch: self.rating_fetch.remove(token),
            rating_update: self.rating_update.remove(token),
        }
    }

    /// The tables once a lookup made for `purpose` got `token`: the token
    /// stands in the table of that purpose and in no other.
    pub open spec fn registered(self, token: u64, purpose: PurposeView) -> PendingView {
        let rest = self.without(token);
        match purpose {
            PurposeView::NicknameFetch(p) => PendingView {
                nickname_fetch: rest.nickname_fetch.insert(token, p),
                ..rest
            },
            PurposeView::RatingFetch(p) => PendingView {
                rating_fetch: rest.rating_fetch.insert(token, p),
                ..rest
            },
            PurposeView::RatingUpdate(p) => PendingView {
                rating_update: rest.rating_update.insert(token, p),
                ..rest
            },
        }
    }
}

impl View for PendingQueries {
    type V = PendingView;

    closed spec fn view(&self) -> PendingView {
        PendingView {
            nickname_fetch: self.nickname_fetch@.map_values(|p: NicknameFetch| p@),
            rating_fetch: self.rating_fetch@.map_values(|p: RatingFetch| p@),
            rating_update: self.rating_update@.map_values(|p: RatingUpdate| p@),
        }
    }
}

impl PendingQueries {
    /// No token stands in two tables.
    pub open spec fn wf(&self) -> bool {
        self@.exclusive()
    }

    /// Three empty tables.
    pub fn new() -> (pending: Self)
        ensures
            pending.wf(),
            pending@ == (PendingView {
                nickname_fetch: Map::empty(),
                rating_fetch: Map::empty(),
                rating_update: Map::empty(),
            }),
    {
        let pending = PendingQueries {
            nickname_fetch: HashMap::new(),
            rating_fetch: HashMap::new(),
            rating_update: HashMap::new(),
        };
        assert(pending@.nickname_fetch =~= Map::empty());
        assert(pending@.rating_fetch =~= Map::empty());
        assert(pending@.rating_update =~= Map::empty());
        pending
    }

    /// Whether a lookup under `token` waits for its result.
    pub fn contains(&self, token: u64) -> (b: bool)
        ensures
            b == self@.contains(token),
    {
        self.nickname_fetch.contains_key(&token) || self.rating_fetch.contains_key(&token)
            || self.rating_update.contains_key(&token)
    }

    /// Notes that the lookup made for `purpose` goes by `token`. An entry
    /// that an earlier lookup left under the same token is dropped.
    pub fn register(&mut self, token: u64, purpose: QueryPurpose)
        requires
            old(self).wf(),
        ensures
            final(self).wf(),
            final(self)@ == old(self)@.registered(token, purpose@),
    {
        self.nickname_fetch.remove(&token);
        self.rating_fetch.remove(&token);
        self.rating_update.remove(&token);
        assert(self@.nickname_fetch =~= old(self)@.nickname_fetch.remove(token));
        assert(self@.rating_fetch =~= old(self)@.rating_fetch.remove(token));
        assert(self@.rating_update =~= old(self)@.rating_update.remove(token));
        let ghost rest = self@;
        match purpose {
            QueryPurpose::NicknameFetch(p) => {
                self.nickname_fetch.insert(token, p);
                assert(self@.nickname_fetch =~= rest.nickname_fetch.insert(token, p@));
            },
            QueryPurpose::RatingFetch(p) => {
                self.rating_fetch.insert(token, p);
                assert(self@.rating_fetch =~= rest.rating_fetch.insert(token, p@));
            },
            QueryPurpose::RatingUpdate(p) => {
                self.rating_update.insert(token, p);
                assert(self@.rating_update =~= rest.rating_update.insert(token, p@));
            },
        }
        proof {
            lemma_registered_exclusive(old(self)@, token, purpose@);
        }
    }

    /// Takes the nickname lookup under `token` out of its table.
    pub fn take_nickname_fetch(&mut self, token: u64) -> (r: Option<NicknameFetch>)
        requires
            old(self).wf(),
        ensures
            final(self).wf(),
            match r {
                Some(p) => old(self)@.nickname_fetch.contains_key(token)
                    && old(self)@.nickname_fetch[token] == p@ && final(self)@ == old(
                    self,
                )@.without(token),
                None => !old(self)@.nickname_fetch.contains_key(token) && final(self)@ == old(
                    self,
                )@,
            },
    {
        let r = self.nickname_fetch.remove(&token);
        proof {
            assert(self@.nickname_fetch =~= old(self)@.nickname_fetch.remove(token));
            lemma_without(old(self)@, token);
            if r is Some {
                assert(old(self)@.count(token) <= 1);
                assert(old(self)@.rating_fetch.remove(token) =~= old(self)@.rating_fetch);
                assert(old(self)@.rating_update.remove(token) =~= old(self)@.rating_update);
            } else {
                assert(old(self)@.nickname_fetch.remove(token) =~= old(self)@.nickname_fetch);
            }
        }
        r
    }

    /// Takes the rating lookup of a received message under `token` out of
    /// its table.
    pub fn take_rating_fetch(&mut self, token: u64) -> (r: Option<RatingFetch>)
        requires
            old(self).wf(),
        ensures
            final(self).wf(),
            match r {
                Some(p) => old(self)@.rating_fetch.contains_key(token) && old(
                    self,
                )@.rating_fetch[token] == p@ && final(self)@ == old(self)@.without(token),
                None => !old(self)@.rating_fetch.contains_key(token) && final(self)@ == old(
                    self,
                )@,
            },
    {
        let r = self.rating_fetch.remove(&token);
        proof {
            assert(self@.rating_fetch =~= old(self)@.rating_fetch.remove(token));
            lemma_without(old(self)@, token);
            if r is Some {
                assert(old(self)@.count(token) <= 1);
                assert(old(self)@.nickname_fetch.remove(token) =~= old(self)@.nickname_fetch);
                assert(old(self)@.rating_update.remove(token) =~= old(self)@.rating_update);
            } else {
                assert(old(self)@.rating_fetch.remove(token) =~= old(self)@.rating_fetch);
            }
        }
        r
    }

    /// Takes the rating lookup of an update under `token` out of its table.
    pub fn take_rating_update(&mut self, token: u64) -> (r: Option<RatingUpdate>)
        requires
            old(self).wf(),
        ensures
            final(self).wf(),
            match r {
                Some(p) => old(self)@.rating_update.contains_key(token) && old(
                    self,
                )@.rating_update[token] == p@ && final(self)@ == old(self)@.without(token),
                None => !old(self)@.rating_update.contains_key(token) && final(self)@ == old(
                    self,
                )@,
            },
    {
        let r = self.rating_update.remove(&token);
        proof {
            assert(self@.rating_update =~= old(self)@.rating_update.remove(token));
            lemma_without(old(self)@, token);
            if r is Some {
                assert(old(self)@.count(token) <= 1);
                assert(old(self)@.nickname_fetch.remove(token) =~= old(self)@.nickname_fetch);
                assert(old(self)@.rating_fetch.remove(token) =~= old(self)@.rating_fetch);
            } else {
                assert(old(self)@.rating_update.remove(token) =~= old(self)@.rating_update);
            }
        }
        r
    }
}

/// Taking a token out of the tables leaves it in none and keeps the others
/// apart.
pub proof fn lemma_without(pending: PendingView, token: u64)
    requires
        pending.exclusive(),
    ensures
        pending.without(token).exclusive(),
        !pending.without(token).contains(token),
        forall|other: u64|
            other != token ==> pending.without(token).count(other) == pending.count(other),
{
    assert forall|other: u64| pending.without(token).count(other) <= 1 by {
        assert(pending.count(other) <= 1);
    }
}

/// A token that is registered stands in exactly one table, and no other
/// token moves.
pub proof fn lemma_registered_exclusive(pending: PendingView, token: u64, purpose: PurposeView)
    requires
        pending.exclusive(),
    ensures
        pending.registered(token, purpose).exclusive(),
        pending.registered(token, purpose).count(token) == 1,
        forall|other: u64|
            other != token ==> pending.registered(token, purpose).count(other) == pending.count(
                other,
            ),
{
    lemma_without(pending, token);
    assert forall|other: u64| pending.registered(token, purpose).count(other) <= 1 by {
        assert(pending.without(token).count(other) <= 1);
    }
}

} // verus!
