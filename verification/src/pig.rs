//! The rules of the dice game Pig.
//!
//! A turn builds a hand of die faces: each roll other than a one joins the
//! hand, a one throws the hand away and ends the turn, and a player who
//! passes banks the hand's total. The computer player rolls until its hand
//! reaches 20 or its banked score plus the hand would reach 100. The first
//! side to bank 100 ends the game.
//!
//! The host application draws the dice, ticks the computer's hand timer
//! and reports the button presses; every decision of the game is made
//! here.
use vstd::prelude::*;
use crate::random::RandomNumberGenerator;
use crate::random::pcg_draw;

verus! {

/// The phases a game of Pig moves through.
#[derive(Clone, Copy, Debug, PartialEq, Eq, Structural)]
pub enum GamePhase {
    MainMenu,
    Start,
    Player,
    Cpu,
    End,
    GameOver,
}

/// The banked totals of the two sides.
#[derive(Clone, Copy, Debug, PartialEq, Eq, Structural)]
pub struct Scores {
    pub player: usize,
    pub cpu: usize,
}

/// What the player asked for on their turn.
#[derive(Clone, Copy, Debug, PartialEq, Eq, Structural)]
pub enum PlayerChoice {
    Roll,
    Pass,
}

/// The side that a finished game names the winner.
#[derive(Clone, Copy, Debug, PartialEq, Eq, Structural)]
pub enum Winner {
    Player,
    Cpu,
}

/// The sum of the die faces of a hand.
pub open spec fn hand_total(s: Seq<u32>) -> int
    decreases s.len(),
{
    if s.len() == 0 {
        0
    } else {
        hand_total(s.drop_last()) + s.last()
    }
}

pub proof fn lemma_hand_total_nonneg(s: Seq<u32>)
    ensures
        hand_total(s) >= 0,
    decreases s.len(),
{
    if s.len() > 0 {
        lemma_hand_total_nonneg(s.drop_last());
    }
}

proof fn lemma_hand_total_take_step(s: Seq<u32>, i: int)
    requires
        0 <= i < s.len(),
    ensures
        hand_total(s.take(i + 1)) == hand_total(s.take(i)) + s[i],
{
    assert(s.take(i + 1).drop_last() =~= s.take(i));
    assert(s.take(i + 1).last() == s[i]);
}

proof fn lemma_hand_total_take_le(s: Seq<u32>, i: int)
    requires
        0 <= i <= s.len(),
    ensures
        hand_total(s.take(i)) <= hand_total(s),
    decreases s.len() - i,
{
    if i == s.len() {
        assert(s.take(i) =~= s);
    } else {
        lemma_hand_total_take_step(s, i);
        lemma_hand_total_take_le(s, i + 1);
    }
}

/// One game of Pig: the hand being rolled, the banked scores, and the
/// phase the game stands in.
pub struct PigGame {
    pub hand: Vec<u32>,
    pub scores: Scores,
    pub phase: GamePhase,
}

impl PigGame {
    /// Every face in the hand came from a roll other than a one.
    pub open spec fn wf(&self) -> bool {
        forall|i: int| 0 <= i < self.hand@.len() ==> 2 <= #[trigger] self.hand@[i] <= 6
    }

    /// The computer keeps rolling while its hand is under 20 and banking
    /// the hand would not yet reach 100.
    pub open spec fn cpu_wants_roll(&self) -> bool {
        hand_total(self.hand@) < 20 && self.scores.cpu + hand_total(self.hand@) < 100
    }

    /// A fresh game: no dice rolled, no points banked.
    pub fn new() -> (g: Self)
        ensures
            g.wf(),
            g.hand@ == Seq::<u32>::empty(),
            g.scores == (Scores { player: 0, cpu: 0 }),
            g.phase == GamePhase::Start,
    {
        PigGame {
            hand: Vec::new(),
            scores: Scores { player: 0, cpu: 0 },
            phase: GamePhase::Start,
        }
    }

    /// Leaves the start phase for the player's first turn.
    pub fn start_game(&mut self)
        requires
            old(self).phase == GamePhase::Start,
        ensures
            final(self).phase == GamePhase::Player,
            final(self).hand@ == old(self).hand@,
            final(self).scores == old(self).scores,
    {
        self.phase = GamePhase::Player;
    }

    /// The total of the hand being rolled.
    pub fn hand_score(&self) -> (total: usize)
        requires
            hand_total(self.hand@) <= usize::MAX,
        ensures
            total == hand_total(self.hand@),
    {
        let mut total: usize = 0;
        let mut i: usize = 0;
        while i < self.hand.len()
            invariant
                0 <= i <= self.hand@.len(),
                total == hand_total(self.hand@.take(i as int)),
                hand_total(self.hand@) <= usize::MAX,
            decreases self.hand@.len() - i,
        {
            proof {
                lemma_hand_total_take_step(self.hand@, i as int);
                lemma_hand_total_take_le(self.hand@, i as int + 1);
            }
            total = total + self.hand[i] as usize;
            i = i + 1;
        }
        proof {
            assert(self.hand@.take(self.hand@.len() as int) =~= self.hand@);
        }
        total
    }

    /// Takes one rolled face into the player's turn: a one throws the hand
    /// away and hands the turn to the computer, any other face joins the
    /// hand.
    pub fn apply_roll(&mut self, roll: u32)
        requires
            old(self).phase == GamePhase::Player,
            1 <= roll <= 6,
        ensures
            final(self).scores == old(self).scores,
            roll == 1 ==> final(self).phase == GamePhase::Cpu && final(self).hand@
                == Seq::<u32>::empty(),
            roll != 1 ==> final(self).phase == GamePhase::Player && final(self).hand@ == old(
                self,
            ).hand@.push(roll),
            old(self).wf() ==> final(self).wf(),
    {
        if roll == 1 {
            self.hand.clear();
            self.phase = GamePhase::Cpu;
        } else {
            self.hand.push(roll);
        }
    }

    /// Banks the hand's total for the player and hands the turn to the
    /// computer.
    pub fn pass(&mut self)
        requires
            old(self).phase == GamePhase::Player,
            old(self).scores.player + hand_total(old(self).hand@) <= usize::MAX,
        ensures
            final(self).scores.player == old(self).scores.player + hand_total(old(self).hand@),
            final(self).scores.cpu == old(self).scores.cpu,
            final(self).hand@ == Seq::<u32>::empty(),
            final(self).phase == GamePhase::Cpu,
            final(self).wf(),
    {
        proof {
            lemma_hand_total_nonneg(self.hand@);
        }
        let total = self.hand_score();
        self.scores.player = self.scores.player + total;
        self.hand.clear();
        self.phase = GamePhase::Cpu;
    }

    /// One step of the player's turn: rolls the die or banks the hand, as
    /// chosen. Returns the face rolled, if one was.
    pub fn player(&mut self, choice: PlayerChoice, rng: &mut RandomNumberGenerator) -> (rolled:
        Option<u32>)
        requires
            old(self).phase == GamePhase::Player,
            choice == PlayerChoice::Pass ==> old(self).scores.player + hand_total(old(self).hand@)
                <= usize::MAX,
        ensures
            old(self).wf() ==> final(self).wf(),
            choice == PlayerChoice::Pass ==> {
                &&& rolled is None
                &&& *final(rng) == *old(rng)
                &&& final(self).scores.player == old(self).scores.player + hand_total(
                    old(self).hand@,
                )
                &&& final(self).scores.cpu == old(self).scores.cpu
                &&& final(self).hand@ == Seq::<u32>::empty()
                &&& final(self).phase == GamePhase::Cpu
            },
            choice == PlayerChoice::Roll ==> {
                &&& rolled == Some(pcg_draw(old(rng).model(), 1, 6).1)
                &&& final(rng).model() == pcg_draw(old(rng).model(), 1, 6).0
                &&& rolled matches Some(d) ==> {
                    &&& 1 <= d <= 6
                    &&& final(self).scores == old(self).scores
                    &&& d == 1 ==> final(self).phase == GamePhase::Cpu && final(self).hand@
                        == Seq::<u32>::empty()
                    &&& d != 1 ==> final(self).phase == GamePhase::Player && final(self).hand@
                        == old(self).hand@.push(d)
                }
            },
    {
        match choice {
            PlayerChoice::Pass => {
                self.pass();
                None
            },
            PlayerChoice::Roll => {
                let d = rng.range_inclusive(1, 6);
                self.apply_roll(d);
                Some(d)
            },
        }
    }

    /// One step of the computer's turn: rolls while
    /// [`PigGame::cpu_wants_roll`] holds, else banks the hand and hands the
    /// turn back. Returns the face rolled, if one was.
    pub fn cpu(&mut self, rng: &mut RandomNumberGenerator) -> (rolled: Option<u32>)
        requires
            old(self).phase == GamePhase::Cpu,
            old(self).scores.cpu + hand_total(old(self).hand@) <= usize::MAX,
        ensures
            old(self).wf() ==> final(self).wf(),
            final(self).scores.player == old(self).scores.player,
            old(self).cpu_wants_roll() ==> {
                &&& rolled == Some(pcg_draw(old(rng).model(), 1, 6).1)
                &&& final(rng).model() == pcg_draw(old(rng).model(), 1, 6).0
                &&& rolled matches Some(d) ==> {
                    &&& 1 <= d <= 6
                    &&& final(self).scores == old(self).scores
                    &&& d == 1 ==> final(self).phase == GamePhase::Player && final(self).hand@
                        == Seq::<u32>::empty()
                    &&& d != 1 ==> final(self).phase == GamePhase::Cpu && final(self).hand@ == old(
                        self,
                    ).hand@.push(d)
                }
            },
            !old(self).cpu_wants_roll() ==> {
                &&& rolled is None
                &&& *final(rng) == *old(rng)
                &&& final(self).scores.cpu == old(self).scores.cpu + hand_total(old(self).hand@)
                &&& final(self).hand@ == Seq::<u32>::empty()
                &&& final(self).phase == GamePhase::Player
            },
    {
        proof {
            lemma_hand_total_nonneg(self.hand@);
        }
        let total = self.hand_score();
        if total < 20 && self.scores.cpu + total < 100 {
            let d = rng.range_inclusive(1, 6);
            if d == 1 {
                self.hand.clear();
                self.phase = GamePhase::Player;
            } else {
                self.hand.push(d);
            }
            Some(d)
        } else {
            self.scores.cpu = self.scores.cpu + total;
            self.phase = GamePhase::Player;
            self.hand.clear();
            None
        }
    }

    /// Ends the game as soon as either side has banked 100.
    pub fn check_game_over(&mut self)
        ensures
            final(self).scores == old(self).scores,
            final(self).hand@ == old(self).hand@,
            (old(self).scores.cpu >= 100 || old(self).scores.player >= 100) ==> final(self).phase
                == GamePhase::End,
            !(old(self).scores.cpu >= 100 || old(self).scores.player >= 100) ==> final(self).phase
                == old(self).phase,
    {
        if self.scores.cpu >= 100 || self.scores.player >= 100 {
            self.phase = GamePhase::End;
        }
    }

    /// Records the final scores and moves to the game-over screen.
    pub fn end_game(&mut self) -> (fin: Scores)
        requires
            old(self).phase == GamePhase::End,
        ensures
            fin == old(self).scores,
            final(self).scores == old(self).scores,
            final(self).hand@ == old(self).hand@,
            final(self).phase == GamePhase::GameOver,
    {
        self.phase = GamePhase::GameOver;
        self.scores
    }
}

impl Scores {
    /// The winner that the final score screen names: the computer wins
    /// exactly when the player banked less.
    pub fn winner(&self) -> (w: Winner)
        ensures
            w == Winner::Cpu <==> self.player < self.cpu,
    {
        if self.player < self.cpu {
            Winner::Cpu
        } else {
            Winner::Player
        }
    }
}

/// The atlas cell and the x position at which a newly rolled die is drawn:
/// face `roll` is atlas cell `roll - 1`, and each die already in the hand
/// moves the sprite 52 pixels right of -400.
pub fn die_sprite(hand_len: usize, roll: u32) -> (s: (u32, i64))
    requires
        1 <= roll <= 6,
        hand_len * 52 <= i64::MAX,
    ensures
        s.0 == roll - 1,
        s.1 == hand_len * 52 - 400,
{
    (roll - 1, (hand_len as i64) * 52 - 400)
}

} // verus!
