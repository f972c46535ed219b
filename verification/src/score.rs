//! Score bookkeeping: per-player counters fed by the tick's events.

use vstd::prelude::*;
use crate::events::GameEvent;
use crate::player::Player;

verus! {

/// Per-player point counters; they only grow within a match.
#[derive(Clone, Copy, Debug, PartialEq, Eq, Structural)]
pub struct ScoreBoard {
    pub p1: u64,
    pub p2: u64,
}

/// Mathematical model of a [`ScoreBoard`].
pub ghost struct ScoreM {
    pub p1: nat,
    pub p2: nat,
}

impl View for ScoreBoard {
    type V = ScoreM;

    open spec fn view(&self) -> ScoreM {
        ScoreM { p1: self.p1 as nat, p2: self.p2 as nat }
    }
}

impl ScoreM {
    /// The counter of one player.
    pub open spec fn get(self, p: Player) -> nat {
        match p {
            Player::Player1 => self.p1,
            Player::Player2 => self.p2,
        }
    }

    /// Both counters together.
    pub open spec fn total(self) -> nat {
        self.p1 + self.p2
    }
}

/// What applying one event to the scoreboard yields: a scored point
/// increments the scorer's counter by exactly one and leaves the other
/// untouched; a ball reset is ignored.
pub open spec fn spec_score_apply(s: ScoreM, e: GameEvent) -> ScoreM {
    match e {
        GameEvent::PointScored(Player::Player1) => ScoreM { p1: s.p1 + 1, p2: s.p2 },
        GameEvent::PointScored(Player::Player2) => ScoreM { p1: s.p1, p2: s.p2 + 1 },
        GameEvent::BallReset(_) => s,
    }
}

/// The scoreboard after applying the events from index `i` on, in order.
pub open spec fn spec_scores_from(s: ScoreM, evs: Seq<GameEvent>, i: int) -> ScoreM
    decreases evs.len() - i,
{
    if i < 0 || i >= evs.len() {
        s
    } else {
        spec_scores_from(spec_score_apply(s, evs[i]), evs, i + 1)
    }
}

/// The scoreboard after applying a whole event list in order.
pub open spec fn spec_scores_after(s: ScoreM, evs: Seq<GameEvent>) -> ScoreM {
    spec_scores_from(s, evs, 0)
}

/// How many `PointScored` events the list holds from index `i` on.
pub open spec fn spec_points_from(evs: Seq<GameEvent>, i: int) -> nat
    decreases evs.len() - i,
{
    if i < 0 || i >= evs.len() {
        0
    } else {
        (match evs[i] {
            GameEvent::PointScored(_) => 1nat,
            GameEvent::BallReset(_) => 0nat,
        }) + spec_points_from(evs, i + 1)
    }
}

/// How many `PointScored` events a whole list holds.
pub open spec fn spec_points(evs: Seq<GameEvent>) -> nat {
    spec_points_from(evs, 0)
}

/// The scoring invariant over one event list: folding it into a scoreboard
/// grows the two counters together by exactly the number of `PointScored`
/// events in the list — none is dropped and none is double-counted.
pub proof fn lemma_scores_total(s: ScoreM, evs: Seq<GameEvent>, i: int)
    ensures
        spec_scores_from(s, evs, i).total() == s.total() + spec_points_from(evs, i),
    decreases evs.len() - i,
{
    if 0 <= i < evs.len() {
        lemma_scores_total(spec_score_apply(s, evs[i]), evs, i + 1);
    }
}

/// Applying an event never lowers either counter.
pub proof fn lemma_score_monotonic(s: ScoreM, e: GameEvent, p: Player)
    ensures
        spec_score_apply(s, e).get(p) >= s.get(p),
{
}

impl ScoreBoard {
    /// The all-zero scoreboard of a fresh match.
    pub fn new() -> (r: ScoreBoard)
        ensures
            r@ == (ScoreM { p1: 0, p2: 0 }),
    {
        ScoreBoard { p1: 0, p2: 0 }
    }

    /// Returns the named player's current count.
    pub fn get(&self, p: Player) -> (r: u64)
        ensures
            r as nat == self@.get(p),
    {
        match p {
            Player::Player1 => self.p1,
            Player::Player2 => self.p2,
        }
    }

    /// Applies one event: `PointScored(p)` increments `p`'s counter by
    /// exactly one and leaves the other player's counter untouched;
    /// `BallReset` changes nothing.
    pub fn apply(&mut self, e: GameEvent)
        requires
            e matches GameEvent::PointScored(p) ==> old(self)@.get(p) < u64::MAX as nat,
        ensures
            final(self)@ == spec_score_apply(old(self)@, e),
            e matches GameEvent::PointScored(p) ==> final(self)@.get(p) == old(self)@.get(p) + 1
                && final(self)@.get(p.spec_opponent()) == old(self)@.get(p.spec_opponent()),
            e matches GameEvent::BallReset(_) ==> final(self)@ == old(self)@,
    {
        match e {
            GameEvent::PointScored(Player::Player1) => {
                self.p1 = self.p1 + 1;
            },
            GameEvent::PointScored(Player::Player2) => {
                self.p2 = self.p2 + 1;
            },
            GameEvent::BallReset(_) => {},
        }
    }
}

/// Applies every event of the tick's list to the scoreboard, in order.
pub fn apply_points(score: &mut ScoreBoard, evs: &Vec<GameEvent>)
    requires
        old(score)@.total() + spec_points(evs@) <= u64::MAX as nat,
    ensures
        final(score)@ == spec_scores_after(old(score)@, evs@),
{
    let ghost target = spec_scores_after(old(score)@, evs@);
    let n = evs.len();
    let mut i: usize = 0;
    while i < n
        invariant
            0 <= i <= n,
            n == evs@.len(),
            spec_scores_from(score@, evs@, i as int) == target,
            score@.total() + spec_points_from(evs@, i as int) <= u64::MAX as nat,
        decreases n - i,
    {
        let e = evs[i];
        score.apply(e);
        i = i + 1;
    }
}

} // verus!
