//! The session registry: the process-wide set of players with an in-flight
//! cast.
//!
//! At most one cast may be live per player. The hosting application wraps
//! one registry in its mutual-exclusion primitive of choice and holds the
//! lock only for the duration of a call here — never across a wait.

use vstd::prelude::*;

use crate::seqs::lemma_filter_in_source;

verus! {

/// Why a cast could not begin.
#[derive(Clone, Copy, Debug, PartialEq, Eq, Structural)]
pub enum SessionError {
    /// The player already has an unresolved cast.
    AlreadyFishing,
}

/// The set of players currently casting, keyed by player id.
#[derive(Clone, Debug)]
pub struct SessionRegistry {
    players: Vec<u64>,
}

/// The whole effect of one `try_begin` call: it succeeds exactly when the
/// player was not casting; on success the player becomes active, on
/// rejection nothing changes; no other player's state ever changes.
pub open spec fn try_begin_spec(
    pre: SessionRegistry,
    post: SessionRegistry,
    player: u64,
    ok: bool,
) -> bool {
    &&& ok <==> !pre.is_active(player)
    &&& (ok ==> post.is_active(player))
    &&& (!ok ==> post == pre)
    &&& forall|q: u64| q != player ==> post.is_active(q) == pre.is_active(q)
}

/// The whole effect of one `end` call: the player is no longer active and
/// no other player's state changes. Calling it for an idle player is a
/// no-op in this model, so `end` is idempotent.
pub open spec fn end_spec(pre: SessionRegistry, post: SessionRegistry, player: u64) -> bool {
    &&& !post.is_active(player)
    &&& forall|q: u64| q != player ==> post.is_active(q) == pre.is_active(q)
}

impl SessionRegistry {
    /// Whether a player has an in-flight cast.
    pub closed spec fn is_active(&self, player: u64) -> bool {
        self.players@.contains(player)
    }

    /// An empty registry: nobody is casting.
    pub fn new() -> (r: SessionRegistry)
        ensures
            forall|q: u64| !r.is_active(q),
    {
        SessionRegistry { players: Vec::new() }
    }

    /// Whether the player currently has an in-flight cast.
    pub fn contains(&self, player: u64) -> (r: bool)
        ensures
            r == self.is_active(player),
    {
        let n = self.players.len();
        let mut i: usize = 0;
        while i < n
            invariant
                n == self.players@.len(),
                0 <= i <= n,
                forall|j: int| 0 <= j < i ==> self.players@[j] != player,
            decreases n - i,
        {
            if self.players[i] == player {
                return true;
            }
            i = i + 1;
        }
        false
    }

    /// Atomically checks membership and inserts: rejects with
    /// "already fishing" if the player has an in-flight cast, otherwise
    /// marks the player active.
    pub fn try_begin(&mut self, player: u64) -> (r: Result<(), SessionError>)
        ensures
            try_begin_spec(*old(self), *final(self), player, r is Ok),
            r is Err <==> old(self).is_active(player),
    {
        if self.contains(player) {
            Err(SessionError::AlreadyFishing)
        } else {
            self.players.push(player);
            proof {
                assert(self.players@.last() == player);
                assert forall|q: u64| q != player implies self.is_active(q) == old(
                    self,
                ).is_active(q) by {
                    if old(self).is_active(q) {
                        let j = choose|j: int|
                            0 <= j < old(self).players@.len() && old(self).players@[j] == q;
                        assert(self.players@[j] == q);
                    }
                    if self.is_active(q) {
                        let j = choose|j: int|
                            0 <= j < self.players@.len() && self.players@[j] == q;
                        assert(old(self).players@[j] == q);
                    }
                }
            }
            Ok(())
        }
    }

    /// Removes the player from the registry. Safe to call even when the
    /// player is not casting.
    pub fn end(&mut self, player: u64)
        ensures
            end_spec(*old(self), *final(self), player),
    {
        let ghost keep = |q: u64| q != player;
        let mut kept: Vec<u64> = Vec::new();
        let n = self.players.len();
        let mut i: usize = 0;
        proof {
            reveal(Seq::filter);
            assert(self.players@.take(0) =~= Seq::<u64>::empty());
            assert(self.players@.take(0).filter(keep) =~= Seq::<u64>::empty());
        }
        while i < n
            invariant
                n == self.players@.len(),
                0 <= i <= n,
                keep == (|q: u64| q != player),
                kept@ == self.players@.take(i as int).filter(keep),
            decreases n - i,
        {
            proof {
                reveal(Seq::filter);
                let taken = self.players@.take(i as int + 1);
                assert(taken.drop_last() =~= self.players@.take(i as int));
                assert(taken.last() == self.players@[i as int]);
            }
            let q = self.players[i];
            if q != player {
                kept.push(q);
            }
            i = i + 1;
        }
        proof {
            assert(self.players@.take(n as int) =~= self.players@);
        }
        self.players = kept;
        proof {
            let source = old(self).players@;
            let kept_seq = source.filter(keep);
            assert(self.players@ == kept_seq);
            assert forall|q: u64| q != player implies self.is_active(q) == old(self).is_active(
                q,
            ) by {
                if old(self).is_active(q) {
                    let j = choose|j: int| 0 <= j < source.len() && source[j] == q;
                    Seq::lemma_filter_contains(source, keep, j);
                }
                if self.is_active(q) {
                    let j = choose|j: int| 0 <= j < kept_seq.len() && kept_seq[j] == q;
                    lemma_filter_in_source(source, keep, j);
                }
            }
            assert(!self.is_active(player)) by {
                if self.is_active(player) {
                    let j = choose|j: int| 0 <= j < kept_seq.len() && kept_seq[j] == player;
                    Seq::lemma_filter_pred(source, keep, j);
                }
            }
        }
    }
}

/// The concurrency guard of the cast lifecycle: once a cast has begun, a
/// second `try_begin` for the same player is rejected with
/// "already fishing"; after `end`, a third attempt succeeds. This holds
/// for any interleaving with other players, because neither call touches
/// another player's state.
pub proof fn lemma_single_cast_per_player(
    r0: SessionRegistry,
    r1: SessionRegistry,
    r2: SessionRegistry,
    r3: SessionRegistry,
    r4: SessionRegistry,
    player: u64,
    ok2: bool,
    ok3: bool,
)
    requires
        try_begin_spec(r0, r1, player, true),
        try_begin_spec(r1, r2, player, ok2),
        end_spec(r2, r3, player),
        try_begin_spec(r3, r4, player, ok3),
    ensures
        !ok2,
        r2 == r1,
        ok3,
        r4.is_active(player),
{
}

} // verus!
