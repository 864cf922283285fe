//! The state and its mathematical view.

use vstd::prelude::*;
use crate::access::FromGameState;

verus! {

/// What a [`Character`] is, as plain mathematical values.
pub struct CharacterView {
    pub name: Seq<char>,
    pub desciption: Seq<char>,
    pub level: u8,
}

/// What a [`GameState`] is, as plain mathematical values.
pub struct GameStateView {
    pub character: CharacterView,
}

/// The one character of a game.
#[derive(Debug)]
pub struct Character {
    pub name: String,
    pub desciption: String,
    pub level: u8,
}

/// The whole state of a game.
#[derive(Debug)]
pub struct GameState {
    pub character: Character,
}

impl View for Character {
    type V = CharacterView;

    open spec fn view(&self) -> CharacterView {
        CharacterView {
            name: self.name@,
            desciption: self.desciption@,
            level: self.level,
        }
    }
}

impl View for GameState {
    type V = GameStateView;

    open spec fn view(&self) -> GameStateView {
        GameStateView { character: self.character@ }
    }
}

impl Character {
    /// The character that a new game starts with.
    pub open spec fn initial() -> CharacterView {
        CharacterView { name: "MyName"@, desciption: "MyDescription"@, level: 1 }
    }
}

impl GameState {
    /// The state that a new game starts with.
    pub open spec fn initial() -> GameStateView {
        GameStateView { character: Character::initial() }
    }

    /// Reads the part of the state that the marker `T` names. The marker alone
    /// decides what comes back, a borrow or a copy, and from which field.
    pub fn get<'a, T: FromGameState>(&'a self) -> (out: T::Output<'a>)
        ensures
            T::value_of(out) == T::project(self),
    {
        T::from_gamestate(self)
    }
}

impl Default for Character {
    fn default() -> (fresh: Self)
        ensures
            fresh@ == Character::initial(),
    {
        Self { name: "MyName".to_owned(), desciption: "MyDescription".to_owned(), level: 1 }
    }
}

impl Default for GameState {
    fn default() -> (fresh: Self)
        ensures
            fresh@ == GameState::initial(),
    {
        Self { character: Character::default() }
    }
}

} // verus!
