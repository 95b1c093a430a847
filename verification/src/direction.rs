//! The two ways a brightness step can go.

use vstd::prelude::*;
use crate::error::StepError;

verus! {

/// Whether a step brightens or dims the display.
#[derive(Clone, Copy, Debug, PartialEq, Eq, Structural)]
pub enum Direction {
    Up,
    Down,
}

/// The direction that a command-line word names: `up` and `down`, spelled
/// exactly so, and nothing else.
pub open spec fn named_direction(word: Seq<char>) -> Option<Direction> {
    if word =~= seq!['u', 'p'] {
        Some(Direction::Up)
    } else if word =~= seq!['d', 'o', 'w', 'n'] {
        Some(Direction::Down)
    } else {
        None
    }
}

impl Direction {
    /// Reads a direction from the one word given on the command line.
    /// Matching is case-sensitive; any other word names no direction.
    pub fn parse(word: &str) -> (named: Option<Direction>)
        ensures
            named == named_direction(word@),
    {
        let ghost up = seq!['u', 'p'];
        let ghost down = seq!['d', 'o', 'w', 'n'];
        proof {
            assert(up.len() == 2 && up[0] == 'u' && up[1] == 'p');
            assert(down.len() == 4 && down[0] == 'd' && down[1] == 'o' && down[2] == 'w'
                && down[3] == 'n');
        }
        let len: usize = word.unicode_len();
        if len == 2 && word.get_char(0) == 'u' && word.get_char(1) == 'p' {
            assert(word@ =~= up);
            Some(Direction::Up)
        } else if len == 4 && word.get_char(0) == 'd' && word.get_char(1) == 'o' && word.get_char(
            2,
        ) == 'w' && word.get_char(3) == 'n' {
            assert(word@ =~= down);
            Some(Direction::Down)
        } else {
            None
        }
    }

    /// Reads a direction from a whole argument list, program name left out:
    /// exactly one word is wanted, and a missing or surplus one is refused
    /// like a misspelled one.
    pub fn from_args(args: &Vec<String>) -> (named: Result<Direction, StepError>)
        ensures
            named.is_ok() <==> args@.len() == 1 && named_direction(args@[0]@).is_some(),
            named.is_ok() ==> Some(named.unwrap()) == named_direction(args@[0]@),
            named.is_err() ==> named == Err::<Direction, StepError>(StepError::Usage),
    {
        if args.len() != 1 {
            return Err(StepError::Usage);
        }
        match Direction::parse(args[0].as_str()) {
            Some(direction) => Ok(direction),
            None => Err(StepError::Usage),
        }
    }

    /// The signed unit that this direction adds to a perceptual coordinate.
    pub open spec fn spec_sign(self) -> int {
        match self {
            Direction::Up => 1,
            Direction::Down => -1,
        }
    }

    /// `+1` for `Up`, `-1` for `Down`.
    pub fn sign(&self) -> (s: i32)
        ensures
            s == self.spec_sign(),
    {
        match self {
            Direction::Up => 1,
            Direction::Down => -1,
        }
    }
}

} // verus!
