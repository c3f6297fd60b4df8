//! The impossible-triangle level: the one level shipped with the host.
//!
//! The level is a small state machine over the viewing angle, measured in
//! thousandths of a degree.  Each state shows a different selection of the
//! sculpture's pillars; every pillar is one opaque `Face` tag, which the
//! rendering collaborator turns into real geometry.  The angle bands come
//! from the original sculpture: each is open at its lower end and closed at
//! its upper end.
//!
//! An angle below minus two hundred degrees makes the level panic on
//! purpose: it is the built-in probe for the host's fault containment.

use vstd::prelude::*;

use crate::handle::Pointerable;
use crate::items::Face;
use crate::plugin::{CallOutcome, LevelBehavior};

verus! {

/// Which part of the sculpture is on show.
#[derive(Clone, Copy, PartialEq, Eq, Structural, Debug)]
pub enum State {
    /// Base, left and right pillars with the joining musk piece.
    Basic,
    /// Base, left and right pillars, musk piece hidden.
    NoMusk,
    /// Right, top and front pillars with the second musk piece.
    AtTop,
    /// The figure opening up: right and top pillars, the three upper
    /// pillars, and the back piece.
    Transform,
    /// The two shrink pillars.
    Shrink,
    /// The first shrink pillar with the short alternative piece.
    Shrink2,
    /// The two final shrink pillars.
    Shrink3,
}

/// The faces each state shows.  Tags name the pillars: 0 base, 1 left,
/// 2 right, 3 musk, 4 top, 5 front, 6 second musk, 7 to 9 the three upper
/// pillars, 10 back, 11 to 15 the shrink pieces.
pub open spec fn state_faces(s: State) -> Seq<Face> {
    match s {
        State::Basic => seq![
            Face { tag: 0 },
            Face { tag: 1 },
            Face { tag: 2 },
            Face { tag: 3 },
        ],
        State::NoMusk => seq![Face { tag: 0 }, Face { tag: 1 }, Face { tag: 2 }],
        State::AtTop => seq![
            Face { tag: 2 },
            Face { tag: 4 },
            Face { tag: 5 },
            Face { tag: 6 },
        ],
        State::Transform => seq![
            Face { tag: 2 },
            Face { tag: 4 },
            Face { tag: 7 },
            Face { tag: 8 },
            Face { tag: 9 },
            Face { tag: 10 },
        ],
        State::Shrink => seq![Face { tag: 11 }, Face { tag: 12 }],
        State::Shrink2 => seq![Face { tag: 11 }, Face { tag: 13 }],
        State::Shrink3 => seq![Face { tag: 14 }, Face { tag: 15 }],
    }
}

/// The state an angle selects, if it falls in any band.  Bands are open
/// below and closed above, in thousandths of a degree.
pub open spec fn state_for_angle(angle_mdeg: i64) -> Option<State> {
    if -100_000 < angle_mdeg && angle_mdeg <= -45_000 {
        Some(State::Transform)
    } else if -45_000 < angle_mdeg && angle_mdeg <= 0 {
        Some(State::AtTop)
    } else if 0 < angle_mdeg && angle_mdeg <= 45_000 {
        Some(State::Basic)
    } else if 45_000 < angle_mdeg && angle_mdeg <= 315_000 {
        Some(State::NoMusk)
    } else if 315_000 < angle_mdeg && angle_mdeg <= 405_000 {
        Some(State::Shrink)
    } else if 405_000 < angle_mdeg && angle_mdeg <= 585_000 {
        Some(State::Shrink2)
    } else if 585_000 < angle_mdeg && angle_mdeg <= 1_000_000 {
        Some(State::Shrink3)
    } else {
        None
    }
}

/// The impossible triangle, one instance per running level.
pub struct PenroseTriangle {
    pub state: State,
}

impl Pointerable for PenroseTriangle {

}

impl PenroseTriangle {
    /// The state on show.
    pub closed spec fn spec_state(self) -> State {
        self.state
    }

    /// A fresh sculpture, showing the basic figure.
    pub fn new() -> (s: Self)
        ensures
            s.spec_state() == State::Basic,
    {
        PenroseTriangle { state: State::Basic }
    }

    /// The current geometry.  This reads the state and nothing else, so
    /// calling it never changes what an update would report.
    pub fn get(&self) -> (v: Vec<Face>)
        ensures
            v@ == state_faces(self.spec_state()),
    {
        self.gen_vec()
    }

    /// Build the face list of the current state.
    fn gen_vec(&self) -> (v: Vec<Face>)
        ensures
            v@ == state_faces(self.spec_state()),
    {
        let mut v: Vec<Face> = Vec::new();
        match self.state {
            State::Basic => {
                v.push(Face::with_tag(0));
                v.push(Face::with_tag(1));
                v.push(Face::with_tag(2));
                v.push(Face::with_tag(3));
            },
            State::NoMusk => {
                v.push(Face::with_tag(0));
                v.push(Face::with_tag(1));
                v.push(Face::with_tag(2));
            },
            State::AtTop => {
                v.push(Face::with_tag(2));
                v.push(Face::with_tag(4));
                v.push(Face::with_tag(5));
                v.push(Face::with_tag(6));
            },
            State::Transform => {
                v.push(Face::with_tag(2));
                v.push(Face::with_tag(4));
                v.push(Face::with_tag(7));
                v.push(Face::with_tag(8));
                v.push(Face::with_tag(9));
                v.push(Face::with_tag(10));
            },
            State::Shrink => {
                v.push(Face::with_tag(11));
                v.push(Face::with_tag(12));
            },
            State::Shrink2 => {
                v.push(Face::with_tag(11));
                v.push(Face::with_tag(13));
            },
            State::Shrink3 => {
                v.push(Face::with_tag(14));
                v.push(Face::with_tag(15));
            },
        }
        proof {
            assert(v@ =~= state_faces(self.spec_state()));
        }
        v
    }

    /// Move to `state` when the angle falls in the band from `begin`
    /// (open) to `end` (closed); report whether that changed anything.
    fn range_and_state(&mut self, angle_mdeg: i64, begin: i64, end: i64, state: State) -> (r: bool)
        ensures
            ({
                let inside = begin < angle_mdeg && angle_mdeg <= end;
                if inside && old(self).spec_state() != state {
                    r && final(self).spec_state() == state
                } else {
                    !r && *final(self) == *old(self)
                }
            }),
    {
        if begin < angle_mdeg && angle_mdeg <= end {
            if self.state == state {
                false
            } else {
                self.state = state;
                true
            }
        } else {
            false
        }
    }
}

impl LevelBehavior for PenroseTriangle {
    /// Construction always completes, showing the basic figure.
    open spec fn spec_construct() -> CallOutcome<PenroseTriangle> {
        CallOutcome::Completed(PenroseTriangle { state: State::Basic })
    }

    /// Teardown keeps nothing, so it always completes.
    open spec fn spec_destory(pre: PenroseTriangle) -> CallOutcome<()> {
        CallOutcome::Completed(())
    }

    /// The angle update: below minus two hundred degrees it panics on
    /// purpose; inside a band it moves to the band's state, reporting true
    /// exactly when the state changed; outside every band it reports
    /// false.
    open spec fn spec_when_angled(pre: PenroseTriangle, angle_mdeg: i64) -> (
        CallOutcome<bool>,
        PenroseTriangle,
    ) {
        if angle_mdeg < -200_000 {
            (CallOutcome::Panicked, pre)
        } else {
            match state_for_angle(angle_mdeg) {
                None => (CallOutcome::Completed(false), pre),
                Some(s) => if pre.state == s {
                    (CallOutcome::Completed(false), pre)
                } else {
                    (CallOutcome::Completed(true), PenroseTriangle { state: s })
                },
            }
        }
    }

    /// The snapshot always completes with the faces of the current state.
    open spec fn spec_faces(pre: PenroseTriangle) -> CallOutcome<Seq<Face>> {
        CallOutcome::Completed(state_faces(pre.state))
    }

    fn construct() -> (r: CallOutcome<PenroseTriangle>) {
        CallOutcome::Completed(PenroseTriangle::new())
    }

    fn destory(&mut self) -> (r: CallOutcome<()>) {
        CallOutcome::Completed(())
    }

    fn when_angled(&mut self, angle_mdeg: i64) -> (r: CallOutcome<bool>) {
        if angle_mdeg < -200_000 {
            return CallOutcome::Panicked;
        }
        let mut changed = self.range_and_state(angle_mdeg, -100_000, -45_000, State::Transform);
        if !changed {
            changed = self.range_and_state(angle_mdeg, -45_000, 0, State::AtTop);
        }
        if !changed {
            changed = self.range_and_state(angle_mdeg, 0, 45_000, State::Basic);
        }
        if !changed {
            changed = self.range_and_state(angle_mdeg, 45_000, 315_000, State::NoMusk);
        }
        if !changed {
            changed = self.range_and_state(angle_mdeg, 315_000, 405_000, State::Shrink);
        }
        if !changed {
            changed = self.range_and_state(angle_mdeg, 405_000, 585_000, State::Shrink2);
        }
        if !changed {
            changed = self.range_and_state(angle_mdeg, 585_000, 1_000_000, State::Shrink3);
        }
        CallOutcome::Completed(changed)
    }

    fn get_faces(&self) -> (r: CallOutcome<Vec<Face>>) {
        CallOutcome::Completed(self.gen_vec())
    }
}

/// The level's description, as its `init` export fills it in before the
/// loader takes the snapshot.
pub fn level_info() -> (r: crate::interface::LevelInfo)
    ensures
        r.id == 2,
        r.name@ == "不可能三角"@,
        r.group@ == "test"@,
{
    crate::interface::LevelInfo {
        id: 2,
        name: "不可能三角".to_owned(),
        group: "test".to_owned(),
    }
}

/// The starting geometry of the prototype's one built-in scene: a single
/// upright pillar, as one opaque face.
pub fn get() -> (v: Vec<Face>)
    ensures
        v@ == seq![Face { tag: 0 }],
{
    let mut v: Vec<Face> = Vec::new();
    v.push(Face::with_tag(0));
    proof {
        assert(v@ =~= seq![Face { tag: 0 }]);
    }
    v
}

} // verus!
