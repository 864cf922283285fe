//! Marker types and the projections they name.

use vstd::prelude::*;
use crate::state::{Character, GameState};

verus! {

/// A projection of a [`GameState`], named by the type that implements it.
///
/// `Output` is what the caller gets: a borrow that lives as long as the borrow of
/// the state, or an owned copy. `Value` is the value that an output stands for,
/// and `project` says which value the projection reads out of a state.
pub trait FromGameState {
    type Output<'a>;

    type Value;

    /// The value that an output stands for.
    spec fn value_of<'a>(out: Self::Output<'a>) -> Self::Value;

    /// The part of the state that this projection reads.
    spec fn project(gs: &GameState) -> Self::Value;

    fn from_gamestate<'a>(gs: &'a GameState) -> (out: Self::Output<'a>)
        ensures
            Self::value_of(out) == Self::project(gs),
    ;
}

/// An existing type can be its own marker: `Character` projects the state to a
/// borrow of its character.
impl FromGameState for Character {
    type Output<'a> = &'a Character;

    type Value = Character;

    open spec fn value_of<'a>(out: &'a Character) -> Character {
        *out
    }

    open spec fn project(gs: &GameState) -> Character {
        gs.character
    }

    fn from_gamestate<'a>(gs: &'a GameState) -> (out: &'a Character) {
        &gs.character
    }
}

/// Marker for the character's name, borrowed as text.
pub struct Name;

impl FromGameState for Name {
    type Output<'a> = &'a str;

    type Value = Seq<char>;

    open spec fn value_of<'a>(out: &'a str) -> Seq<char> {
        out@
    }

    open spec fn project(gs: &GameState) -> Seq<char> {
        gs.character.name@
    }

    fn from_gamestate<'a>(gs: &'a GameState) -> (out: &'a str) {
        gs.character.name.as_str()
    }
}

/// Marker for the character's description, borrowed as text.
pub struct Description;

impl FromGameState for Description {
    type Output<'a> = &'a str;

    type Value = Seq<char>;

    open spec fn value_of<'a>(out: &'a str) -> Seq<char> {
        out@
    }

    open spec fn project(gs: &GameState) -> Seq<char> {
        gs.character.desciption@
    }

    fn from_gamestate<'a>(gs: &'a GameState) -> (out: &'a str) {
        gs.character.desciption.as_str()
    }
}

/// Marker for the character's level, which is copied out: the result borrows
/// nothing from the state.
pub struct Level;

impl FromGameState for Level {
    type Output<'a> = u8;

    type Value = u8;

    open spec fn value_of<'a>(out: u8) -> u8 {
        out
    }

    open spec fn project(gs: &GameState) -> u8 {
        gs.character.level
    }

    fn from_gamestate<'a>(gs: &'a GameState) -> (out: u8) {
        gs.character.level
    }
}

/// Reading the same marker twice from one state gives the same value: whatever
/// two calls of [`GameState::get`] return for it stands for one value.
pub proof fn get_is_repeatable<'a, T: FromGameState>(
    gs: &'a GameState,
    first: T::Output<'a>,
    second: T::Output<'a>,
)
    requires
        call_ensures(GameState::get::<T>, (gs,), first),
        call_ensures(GameState::get::<T>, (gs,), second),
    ensures
        T::value_of(first) == T::value_of(second),
{
}

/// In the state that a new game starts with, the name and the description are
/// different texts.
pub proof fn initial_name_differs_from_description(gs: &GameState)
    requires
        gs@ == GameState::initial(),
    ensures
        Name::project(gs) != Description::project(gs),
{
    reveal_strlit("MyName");
    reveal_strlit("MyDescription");
    assert("MyName"@.len() != "MyDescription"@.len());
}

/// The borrowed character holds what the other three markers read one by one.
pub proof fn character_holds_the_other_projections(gs: &GameState)
    ensures
        Character::project(gs).name@ == Name::project(gs),
        Character::project(gs).desciption@ == Description::project(gs),
        Character::project(gs).level == Level::project(gs),
{
}

} // verus!
