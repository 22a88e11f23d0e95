//! Cells of the board and the two players who mark them.

use vstd::prelude::*;

verus! {

/// What one position of the board holds.
#[derive(Clone, Copy, Debug, PartialEq, Eq, Structural)]
pub enum Cell {
    Empty,
    PlayerOneMark,
    PlayerTwoMark,
}

/// One of the two players.
#[derive(Clone, Copy, Debug, PartialEq, Eq, Structural)]
pub enum Player {
    PlayerOne,
    PlayerTwo,
}

/// A display colour as red, green and blue intensities.
#[derive(Clone, Copy, Debug, PartialEq, Eq, Structural)]
pub struct Rgb {
    pub r: u8,
    pub g: u8,
    pub b: u8,
}

impl Cell {
    /// The player whose mark this is, if it is a mark at all.
    pub open spec fn owner_spec(self) -> Option<Player> {
        match self {
            Cell::Empty => None,
            Cell::PlayerOneMark => Some(Player::PlayerOne),
            Cell::PlayerTwoMark => Some(Player::PlayerTwo),
        }
    }

    #[verifier::when_used_as_spec(owner_spec)]
    pub fn owner(self) -> (res: Option<Player>)
        ensures
            res == self.owner_spec(),
    {
        match self {
            Cell::Empty => None,
            Cell::PlayerOneMark => Some(Player::PlayerOne),
            Cell::PlayerTwoMark => Some(Player::PlayerTwo),
        }
    }

    pub open spec fn is_empty_spec(self) -> bool {
        self == Cell::Empty
    }

    #[verifier::when_used_as_spec(is_empty_spec)]
    pub fn is_empty(self) -> (res: bool)
        ensures
            res == (self == Cell::Empty),
    {
        match self {
            Cell::Empty => true,
            _ => false,
        }
    }
}

impl Player {
    /// The mark that this player leaves on the board.
    pub open spec fn mark_spec(self) -> Cell {
        match self {
            Player::PlayerOne => Cell::PlayerOneMark,
            Player::PlayerTwo => Cell::PlayerTwoMark,
        }
    }

    #[verifier::when_used_as_spec(mark_spec)]
    pub fn mark(self) -> (res: Cell)
        ensures
            res == self.mark_spec(),
            res != Cell::Empty,
            res.owner() == Some(self),
    {
        match self {
            Player::PlayerOne => Cell::PlayerOneMark,
            Player::PlayerTwo => Cell::PlayerTwoMark,
        }
    }

    /// The opponent.
    pub open spec fn other_spec(self) -> Player {
        match self {
            Player::PlayerOne => Player::PlayerTwo,
            Player::PlayerTwo => Player::PlayerOne,
        }
    }

    #[verifier::when_used_as_spec(other_spec)]
    pub fn other(self) -> (res: Player)
        ensures
            res == self.other_spec(),
            res != self,
    {
        match self {
            Player::PlayerOne => Player::PlayerTwo,
            Player::PlayerTwo => Player::PlayerOne,
        }
    }

    /// The name under which the player is shown.
    pub fn name(self) -> (res: &'static str)
        ensures
            self == Player::PlayerOne ==> res@ == "Player 1"@,
            self == Player::PlayerTwo ==> res@ == "Player 2"@,
    {
        match self {
            Player::PlayerOne => "Player 1",
            Player::PlayerTwo => "Player 2",
        }
    }

    /// The colour in which the player's marks and name are shown.
    pub open spec fn color_spec(self) -> Rgb {
        match self {
            Player::PlayerOne => (Rgb { r: 0xe0, g: 0x6c, b: 0x75 }),
            Player::PlayerTwo => (Rgb { r: 0x98, g: 0xc3, b: 0x79 }),
        }
    }

    #[verifier::when_used_as_spec(color_spec)]
    pub fn color(self) -> (res: Rgb)
        ensures
            res == self.color_spec(),
    {
        match self {
            Player::PlayerOne => Rgb { r: 0xe0, g: 0x6c, b: 0x75 },
            Player::PlayerTwo => Rgb { r: 0x98, g: 0xc3, b: 0x79 },
        }
    }
}

/// Playing twice in a row is never the same player, and the turn comes back
/// after two moves.
pub proof fn lemma_other_is_involution(p: Player)
    ensures
        p.other() != p,
        p.other().other() == p,
{
}

/// A player's mark belongs to that player, and an owned cell holds its
/// owner's mark.
pub proof fn lemma_mark_owner(p: Player, c: Cell)
    ensures
        p.mark().owner() == Some(p),
        c.owner() == Some(p) <==> c == p.mark(),
        c.owner() is None <==> c == Cell::Empty,
{
}

} // verus!
