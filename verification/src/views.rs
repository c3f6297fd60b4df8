//! Which screen the host is on.
//!
//! The host shows one view at a time — the menu, the logo, the level
//! picker, or a running game.  Only the game view owns anything this
//! subsystem cares about: the running level, whose worker must be stopped
//! before the view goes away.  The drawing of every view belongs to the
//! UI collaborator.

use vstd::prelude::*;

use crate::level::Level;
use crate::plugin::LevelBehavior;

verus! {

/// The view the host currently shows.  A running game owns its level.
pub enum MyView<L: LevelBehavior> {
    /// The main menu.
    MyMenu,
    /// The opening logo.
    MyLogo,
    /// The level picker.
    MyLevels,
    /// A running game and its level.
    MyGame(Level<L>),
    /// No view at all, as between two screens.
    NoView,
}

impl<L: LevelBehavior> MyView<L> {
    /// Put the current view's resources away.  A running game stops its
    /// level — the worker tears the instance down and is waited for —
    /// which consumes the level, so only the game view becomes no view;
    /// every other view has nothing to release and stays as it is.
    pub fn destory(&mut self)
        ensures
            *old(self) is MyGame ==> *final(self) is NoView,
            !(*old(self) is MyGame) ==> *final(self) == *old(self),
    {
        let is_game = match self {
            MyView::MyGame(_) => true,
            _ => false,
        };
        if is_game {
            let mut taken = MyView::NoView;
            core::mem::swap(self, &mut taken);
            match taken {
                MyView::MyGame(level) => level.destory(),
                _ => (),
            }
        }
    }
}

} // verus!
