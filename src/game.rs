//! Decisions of the in-game loop: loading, input focus, and the console and
//! menu toggles. The caller performs the work each decision names.

use vstd::prelude::*;

verus! {

/// Which part of the game receives input and is drawn on top.
#[derive(Clone, Copy, Debug, PartialEq, Eq, Structural)]
pub enum InGameFocus {
    Game,
    Menu,
    Console,
}

/// What is drawn over the world and the HUD.
#[derive(Clone, Copy, Debug, PartialEq, Eq, Structural)]
pub enum Overlay {
    Hidden,
    Console,
    Menu,
}

#[derive(Clone, Copy, Debug, PartialEq, Eq, Structural)]
pub enum GameState {
    /// Waiting for the server to finish sending level information.
    Loading,
    InGame(InGameFocus),
}

/// `toggleconsole`: the console opens from the game and closes back to it;
/// while the menu is open the command does nothing.
pub open spec fn console_toggled(f: InGameFocus) -> InGameFocus {
    match f {
        InGameFocus::Game => InGameFocus::Console,
        InGameFocus::Console => InGameFocus::Game,
        InGameFocus::Menu => InGameFocus::Menu,
    }
}

/// `togglemenu`: the menu opens from the game; from the menu or the console
/// the command returns to the game.
pub open spec fn menu_toggled(f: InGameFocus) -> InGameFocus {
    match f {
        InGameFocus::Game => InGameFocus::Menu,
        InGameFocus::Menu | InGameFocus::Console => InGameFocus::Game,
    }
}

pub open spec fn overlay_of(f: InGameFocus) -> Overlay {
    match f {
        InGameFocus::Game => Overlay::Hidden,
        InGameFocus::Menu => Overlay::Menu,
        InGameFocus::Console => Overlay::Console,
    }
}

impl InGameFocus {
    pub fn toggle_console(self) -> (r: InGameFocus)
        ensures
            r == console_toggled(self),
    {
        match self {
            InGameFocus::Game => InGameFocus::Console,
            InGameFocus::Console => InGameFocus::Game,
            InGameFocus::Menu => InGameFocus::Menu,
        }
    }

    pub fn toggle_menu(self) -> (r: InGameFocus)
        ensures
            r == menu_toggled(self),
    {
        match self {
            InGameFocus::Game => InGameFocus::Menu,
            InGameFocus::Menu | InGameFocus::Console => InGameFocus::Game,
        }
    }

    pub fn overlay(self) -> (r: Overlay)
        ensures
            r == overlay_of(self),
    {
        match self {
            InGameFocus::Game => Overlay::Hidden,
            InGameFocus::Menu => Overlay::Menu,
            InGameFocus::Console => Overlay::Console,
        }
    }
}

/// The state of the game loop.
#[derive(Clone, Copy, Debug, PartialEq, Eq)]
pub struct Game {
    pub state: GameState,
}

impl Game {
    /// A game starts by loading.
    pub fn new() -> (r: Game)
        ensures
            r.state == GameState::Loading,
    {
        Game { state: GameState::Loading }
    }

    /// Advances the loop after the client's own frame. While loading, once
    /// sign-on is done the game starts with the focus on the game; the result
    /// is true exactly then, when the caller must build the level's renderers.
    pub fn frame(&mut self, signon_done: bool) -> (r: bool)
        ensures
            r == (old(self).state == GameState::Loading && signon_done),
            final(self).state == if r {
                GameState::InGame(InGameFocus::Game)
            } else {
                old(self).state
            },
    {
        match self.state {
            GameState::Loading => {
                if signon_done {
                    self.state = GameState::InGame(InGameFocus::Game);
                    true
                } else {
                    false
                }
            },
            GameState::InGame(_) => false,
        }
    }

    /// The focus that an input event is delivered to; `None` while loading,
    /// when events are dropped.
    pub fn handle_input(&self) -> (r: Option<InGameFocus>)
        ensures
            r == match self.state {
                GameState::Loading => None,
                GameState::InGame(f) => Some(f),
            },
    {
        match self.state {
            GameState::Loading => None,
            GameState::InGame(f) => Some(f),
        }
    }

    /// What a frame draws: nothing while loading (`None`), else the world and
    /// the HUD with the overlay of the current focus on top.
    pub fn render(&self) -> (r: Option<Overlay>)
        ensures
            r == match self.state {
                GameState::Loading => None,
                GameState::InGame(f) => Some(overlay_of(f)),
            },
    {
        match self.state {
            GameState::Loading => None,
            GameState::InGame(f) => Some(f.overlay()),
        }
    }

    /// Runs the `toggleconsole` command; it exists only once in game.
    pub fn toggle_console(&mut self)
        ensures
            final(self).state == match old(self).state {
                GameState::Loading => GameState::Loading,
                GameState::InGame(f) => GameState::InGame(console_toggled(f)),
            },
    {
        if let GameState::InGame(f) = self.state {
            self.state = GameState::InGame(f.toggle_console());
        }
    }

    /// Runs the `togglemenu` command; it exists only once in game.
    pub fn toggle_menu(&mut self)
        ensures
            final(self).state == match old(self).state {
                GameState::Loading => GameState::Loading,
                GameState::InGame(f) => GameState::InGame(menu_toggled(f)),
            },
    {
        if let GameState::InGame(f) = self.state {
            self.state = GameState::InGame(f.toggle_menu());
        }
    }
}

} // verus!
