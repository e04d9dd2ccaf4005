//! The house rules: the hazards a move can run into, the rulings that
//! settle them, and settling them with the player.
use vstd::prelude::*;

use super::board::{Cancelled, InvalidMove};

verus! {

/// How a hazardous situation is settled.
pub enum Ruling {
    /// The move goes on.
    Allow,
    /// The player is shown `prompt` and the move goes on only if the answer
    /// is exactly `proceed`.
    Warn { prompt: String, proceed: String },
    /// The move is refused, for the reason given.
    Deny(String),
}

/// Whether `ruling` lets a move go on when the player answered `response`.
pub open spec fn spec_accepts(ruling: Ruling, response: Seq<char>) -> bool {
    match ruling {
        Ruling::Allow => true,
        Ruling::Warn { prompt, proceed } => response == proceed@,
        Ruling::Deny(_) => false,
    }
}

/// What a game needs from the player: to be shown text and to answer.
pub trait IO {
    fn output(&mut self, msg: &str);

    fn input(&mut self) -> String;
}

impl Ruling {
    /// Whether this ruling lets a move go on when the player answered
    /// `response`.
    pub fn accepts(&self, response: &str) -> (r: bool)
        ensures
            r == spec_accepts(*self, response@),
    {
        match self {
            Ruling::Allow => true,
            Ruling::Warn { prompt, proceed } => str_eq(proceed.as_str(), response),
            Ruling::Deny(_) => false,
        }
    }

    /// Settles the ruling with the player: `Allow` goes on; `Deny` shows its
    /// reason and refuses; `Warn` shows its prompt, asks for the phrase and
    /// goes on if the answer is the phrase.
    pub fn check<I: IO>(&self, io: &mut I) -> (r: bool)
        ensures
            *self is Allow ==> r,
            *self is Deny ==> !r,
    {
        match self {
            Ruling::Allow => true,
            Ruling::Warn { prompt, proceed } => {
                io.output(prompt.as_str());
                let ask = confirm_request(proceed.as_str());
                io.output(ask.as_str());
                let answer = io.input();
                self.accepts(answer.as_str())
            },
            Ruling::Deny(reason) => {
                io.output(reason.as_str());
                false
            },
        }
    }
}

/// A hazardous situation that a house rule settles.
#[derive(Debug, Clone, Copy, PartialEq, Eq, Structural)]
pub enum Hazard {
    /// Climbing a 2-level cliff in one step.
    ClimbDoubleCliff,
    /// Taking a step after having climbed one level during this move.
    MoveAfterClimb,
    /// Pushing a piece of one's own team.
    PushTeammate,
    /// A move that destroys the mover's own King.
    KingSuicide,
    /// A piece falling down a 2-level cliff.
    FallOffCliff,
    /// A piece falling off the edge of the board.
    FallOffBoard,
    /// A push whose chain collision destroys another piece of the pushed
    /// piece's team.
    FriendlyBonk,
}

/// The house rules: one ruling for each hazard.
pub struct Rules {
    pub climb_double_cliffs: Ruling,
    pub move_after_climb: Ruling,
    pub push_teammates: Ruling,
    pub king_suicide: Ruling,
    pub suicide_off_cliff: Ruling,
    pub suicide_off_board: Ruling,
    pub cliff_bonk_friendly_fire: Ruling,
}

impl Rules {
    /// The ruling that settles hazard `h`.
    pub open spec fn spec_ruling(self, h: Hazard) -> Ruling {
        match h {
            Hazard::ClimbDoubleCliff => self.climb_double_cliffs,
            Hazard::MoveAfterClimb => self.move_after_climb,
            Hazard::PushTeammate => self.push_teammates,
            Hazard::KingSuicide => self.king_suicide,
            Hazard::FallOffCliff => self.suicide_off_cliff,
            Hazard::FallOffBoard => self.suicide_off_board,
            Hazard::FriendlyBonk => self.cliff_bonk_friendly_fire,
        }
    }

    /// The ruling that settles hazard `h`.
    pub fn ruling(&self, h: Hazard) -> (r: &Ruling)
        ensures
            *r == self.spec_ruling(h),
    {
        match h {
            Hazard::ClimbDoubleCliff => &self.climb_double_cliffs,
            Hazard::MoveAfterClimb => &self.move_after_climb,
            Hazard::PushTeammate => &self.push_teammates,
            Hazard::KingSuicide => &self.king_suicide,
            Hazard::FallOffCliff => &self.suicide_off_cliff,
            Hazard::FallOffBoard => &self.suicide_off_board,
            Hazard::FriendlyBonk => &self.cliff_bonk_friendly_fire,
        }
    }
}

/// `r` warns with `prompt` and goes on on the answer `phrase`.
pub open spec fn is_warning(r: Ruling, prompt: Seq<char>, phrase: Seq<char>) -> bool {
    &&& r is Warn
    &&& r->prompt@ == prompt
    &&& r->proceed@ == phrase
}

/// `r` denies, for the reason `reason`.
pub open spec fn is_denial(r: Ruling, reason: Seq<char>) -> bool {
    &&& r is Deny
    &&& r->Deny_0@ == reason
}

/// The default house rules: climbing a 2-level cliff and moving on after a
/// climb are denied, pushing a teammate is allowed, and the rest are
/// warnings confirmed with "gg" (losing one's King), "yeet" (falling off a
/// cliff), "adios" (falling off the board) and "bonk" (a chain collision).
pub open spec fn is_default_rules(r: Rules) -> bool {
    &&& is_denial(r.climb_double_cliffs, "You cannot move a piece up a 2-high cliff."@)
    &&& is_denial(r.move_after_climb, "A piece cannot keep moving after climbing up a step."@)
    &&& r.push_teammates is Allow
    &&& is_warning(
        r.king_suicide,
        "You are about to kill your king. You will immediately lose the game if you continue."@,
        "gg"@,
    )
    &&& is_warning(r.suicide_off_cliff, "Your piece will fall off a cliff and die."@, "yeet"@)
    &&& is_warning(r.suicide_off_board, "Your piece will fall off the board and die."@, "adios"@)
    &&& is_warning(
        r.cliff_bonk_friendly_fire,
        "Pushing this piece off a cliff will kill another one of your own pieces."@,
        "bonk"@,
    )
}

fn text(s: &str) -> (r: String)
    ensures
        r@ == s@,
{
    String::from_str(s)
}

impl Default for Rules {
    fn default() -> (r: Self)
        ensures
            is_default_rules(r),
    {
        Rules {
            climb_double_cliffs: Ruling::Deny(text("You cannot move a piece up a 2-high cliff.")),
            move_after_climb: Ruling::Deny(
                text("A piece cannot keep moving after climbing up a step."),
            ),
            push_teammates: Ruling::Allow,
            king_suicide: Ruling::Warn {
                prompt: text(
                    "You are about to kill your king. You will immediately lose the game if you continue.",
                ),
                proceed: text("gg"),
            },
            suicide_off_cliff: Ruling::Warn {
                prompt: text("Your piece will fall off a cliff and die."),
                proceed: text("yeet"),
            },
            suicide_off_board: Ruling::Warn {
                prompt: text("Your piece will fall off the board and die."),
                proceed: text("adios"),
            },
            cliff_bonk_friendly_fire: Ruling::Warn {
                prompt: text(
                    "Pushing this piece off a cliff will kill another one of your own pieces.",
                ),
                proceed: text("bonk"),
            },
        }
    }
}

/// Every hazard in `h` is allowed outright by `rules`.
pub open spec fn all_allowed(rules: Rules, h: Seq<Hazard>) -> bool {
    forall|i: int| 0 <= i < h.len() ==> (#[trigger] rules.spec_ruling(h[i])) is Allow
}

/// No hazard in `h` is denied by `rules`.
pub open spec fn none_denied(rules: Rules, h: Seq<Hazard>) -> bool {
    forall|i: int| 0 <= i < h.len() ==> !((#[trigger] rules.spec_ruling(h[i])) is Deny)
}

/// No hazard of `h` before index `i` is denied by `rules`.
pub open spec fn none_denied_before(rules: Rules, h: Seq<Hazard>, i: int) -> bool {
    forall|j: int| 0 <= j < i ==> !((#[trigger] rules.spec_ruling(h[j])) is Deny)
}

/// Every hazard of `h` before index `i` is allowed outright by `rules`.
pub open spec fn allowed_before(rules: Rules, h: Seq<Hazard>, i: int) -> bool {
    forall|j: int| 0 <= j < i ==> (#[trigger] rules.spec_ruling(h[j])) is Allow
}

/// `e` is how settling the hazards `h` can fail: at some hazard with no
/// denial before it, a warning declined, or that hazard's denial with its
/// reason.
pub open spec fn is_refusal(rules: Rules, h: Seq<Hazard>, e: InvalidMove) -> bool {
    ||| (e == InvalidMove::Cancelled(Cancelled) && exists|i: int|
        0 <= i < h.len() && (#[trigger] rules.spec_ruling(h[i])) is Warn && none_denied_before(
            rules,
            h,
            i,
        ))
    ||| (e is Denied && exists|i: int|
        0 <= i < h.len() && #[trigger] rules.spec_ruling(h[i]) == Ruling::Deny(e->Denied_0)
            && none_denied_before(rules, h, i))
}

/// What settling the hazards `h` under `rules`, one after the other, may end
/// in, whatever the player answers: it goes on when every hazard is allowed;
/// it never goes on past a denial; a denial met with only allowed hazards
/// before it ends it with that denial's reason; and it fails only by a
/// declined warning or a denial, with no denial before it.
pub open spec fn spec_settled(rules: Rules, h: Seq<Hazard>, r: Result<(), InvalidMove>) -> bool {
    &&& all_allowed(rules, h) ==> r is Ok
    &&& r is Ok ==> none_denied(rules, h)
    &&& forall|i: int|
        0 <= i < h.len() && allowed_before(rules, h, i) && (#[trigger] rules.spec_ruling(
            h[i],
        )) is Deny ==> r == Err::<(), InvalidMove>(
            InvalidMove::Denied(rules.spec_ruling(h[i])->Deny_0),
        )
    &&& r is Err ==> is_refusal(rules, h, r->Err_0)
}

/// The line that asks the player to type `proceed` to go on.
pub open spec fn spec_confirm_request(proceed: Seq<char>) -> Seq<char> {
    "Type "@ + proceed + " to continue anyway."@
}

/// The line that asks the player to type `proceed` to go on.
pub fn confirm_request(proceed: &str) -> (r: String)
    ensures
        r@ == spec_confirm_request(proceed@),
{
    String::from_str("Type ").concat(proceed).concat(" to continue anyway.")
}

impl Rules {
    /// Settles the hazards `h` one after the other with the player, and
    /// stops at the first one that is not let through.
    pub fn confirm<I: IO>(&self, h: &Vec<Hazard>, io: &mut I) -> (r: Result<(), InvalidMove>)
        ensures
            spec_settled(*self, h@, r),
    {
        let mut i: usize = 0;
        while i < h.len()
            invariant
                i <= h@.len(),
                none_denied_before(*self, h@, i as int),
            decreases h@.len() - i,
        {
            let ruling = self.ruling(h[i]);
            if !ruling.check(io) {
                assert(self.spec_ruling(h@[i as int]) == *ruling);
                let r = match ruling {
                    Ruling::Deny(reason) => Err(InvalidMove::Denied(reason.clone())),
                    _ => Err(InvalidMove::Cancelled(Cancelled)),
                };
                assert forall|k: int|
                    0 <= k < h@.len() && allowed_before(*self, h@, k) && (#[trigger] self.spec_ruling(
                        h@[k],
                    )) is Deny implies r == Err::<(), InvalidMove>(
                    InvalidMove::Denied(self.spec_ruling(h@[k])->Deny_0),
                ) by {
                    if k > i {
                        assert(self.spec_ruling(h@[i as int]) is Allow);
                    }
                }
                return r;
            }
            i = i + 1;
        }
        Ok(())
    }
}

/// Whether `a` and `b` hold the same characters.
pub(crate) fn str_eq(a: &str, b: &str) -> (r: bool)
    ensures
        r == (a@ == b@),
{
    let n = a.unicode_len();
    if n != b.unicode_len() {
        return false;
    }
    let mut i: usize = 0;
    while i < n
        invariant
            n == a@.len(),
            n == b@.len(),
            i <= n,
            forall|j: int| 0 <= j < i ==> a@[j] == b@[j],
        decreases n - i,
    {
        if a.get_char(i) != b.get_char(i) {
            return false;
        }
        i = i + 1;
    }
    assert(a@ =~= b@);
    true
}

} // verus!
