//! Which level the player is in, and where its library lives.

use vstd::prelude::*;

use crate::finder::CollectedGame;

verus! {

/// The currently selected group and level, when any is selected.
#[derive(Clone, Copy, PartialEq, Eq, Structural, Debug)]
pub struct MyGameInfo {
    /// The selected group's index.
    pub current_group_id: Option<i64>,
    /// The selected level's index within the group.
    pub current_level_id: Option<i64>,
}

impl MyGameInfo {
    /// Nothing selected.
    pub fn none() -> (r: MyGameInfo)
        ensures
            r.current_group_id is None,
            r.current_level_id is None,
    {
        MyGameInfo { current_group_id: None, current_level_id: None }
    }

    /// The library path of the selected level: look the group up by its
    /// index in the collected index, then the level by its own.  Nothing
    /// selected, or nothing found, yields nothing.
    pub fn get_library_path(&self, lib: &CollectedGame) -> (r: Option<String>)
        ensures
            match r {
                Some(p) => ({
                    &&& self.current_group_id matches Some(gk) && self.current_level_id matches Some(
                        lk,
                    ) && exists|i: int, j: int|
                        0 <= i < lib.groups@.len() && #[trigger] lib.groups@[i].0 == gk && 0 <= j
                            < lib.groups@[i].1.levels@.len()
                            && #[trigger] lib.groups@[i].1.levels@[j].0 == lk && p@
                            == lib.groups@[i].1.levels@[j].1.link.0@
                }),
                None => ({
                    ||| self.current_group_id is None
                    ||| self.current_level_id is None
                    ||| !crate::finder::has_group(*lib, self.current_group_id->0)
                    ||| exists|i: int|
                        0 <= i < lib.groups@.len() && #[trigger] lib.groups@[i].0
                            == self.current_group_id->0 && !exists|j: int|
                            0 <= j < lib.groups@[i].1.levels@.len()
                                && #[trigger] lib.groups@[i].1.levels@[j].0
                                == self.current_level_id->0
                }),
            },
    {
        let group_id = match self.current_group_id {
            Some(g) => g,
            None => {
                return None;
            },
        };
        let level_id = match self.current_level_id {
            Some(l) => l,
            None => {
                return None;
            },
        };
        let gn = lib.groups.len();
        let mut i: usize = 0;
        while i < gn
            invariant
                i <= gn,
                gn == lib.groups@.len(),
                self.current_group_id == Some(group_id),
                self.current_level_id == Some(level_id),
                forall|k: int| 0 <= k < i ==> #[trigger] lib.groups@[k].0 != group_id,
            decreases gn - i,
        {
            if lib.groups[i].0 == group_id {
                let levels = &lib.groups[i].1.levels;
                let ln = levels.len();
                let mut j: usize = 0;
                while j < ln
                    invariant
                        j <= ln,
                        i < gn,
                        gn == lib.groups@.len(),
                        self.current_group_id == Some(group_id),
                        self.current_level_id == Some(level_id),
                        ln == lib.groups@[i as int].1.levels@.len(),
                        levels@ == lib.groups@[i as int].1.levels@,
                        lib.groups@[i as int].0 == group_id,
                        forall|k: int|
                            0 <= k < j ==> #[trigger] lib.groups@[i as int].1.levels@[k].0
                                != level_id,
                    decreases ln - j,
                {
                    if levels[j].0 == level_id {
                        return Some(levels[j].1.link.path().clone());
                    }
                    j = j + 1;
                }
                return None;
            }
            i = i + 1;
        }
        None
    }
}

} // verus!
