//! The plugin side of the contract: level behaviour, and the self-guard
//! compiled around every entry point of a level library.
//!
//! A level's own logic never signals failure politely — it panics.  The
//! guard captures that at the source: each exported call runs the level's
//! body, and when the body would unwind, the guard flips its internal
//! liveness flag to false and hands the caller the symbol's safe default
//! instead.  An unwind is modelled as a `CallOutcome::Panicked` result of
//! the level's body, which is exactly what the unverified shell reports
//! when real plugin code unwinds under its fault boundary.

use vstd::prelude::*;

use crate::handle::{table_lookup, Pointerable, Pointered, TokenTable};
use crate::items::Face;

verus! {

/// How one call into level code ended: with a value, or in a panic that the
/// guard must contain.
#[derive(PartialEq, Eq, Debug)]
pub enum CallOutcome<T> {
    /// The body ran to completion and produced this value.
    Completed(T),
    /// The body unwound instead of returning.
    Panicked,
}

/// A `CallOutcome` carrying faces, seen at the specification level.
pub open spec fn faces_outcome_view(r: CallOutcome<Vec<Face>>) -> CallOutcome<Seq<Face>> {
    match r {
        CallOutcome::Completed(v) => CallOutcome::Completed(v@),
        CallOutcome::Panicked => CallOutcome::Panicked,
    }
}

/// What a level library's own logic does, one instance per value.  Each
/// method mirrors one exported symbol's body — construction, teardown, the
/// angle update and the geometry snapshot — and a panic of that body is the
/// `Panicked` outcome.  The specification functions pin each body down, so
/// everything proved about the guard and the worker holds for every level
/// written against this trait.
pub trait LevelBehavior: Pointerable {
    /// What constructing an instance yields.
    spec fn spec_construct() -> CallOutcome<Self>;

    /// What tearing an instance down yields.
    spec fn spec_destory(pre: Self) -> CallOutcome<()>;

    /// What the angle update yields, and the instance it leaves behind —
    /// also when the body panics partway.
    spec fn spec_when_angled(pre: Self, angle_mdeg: i64) -> (CallOutcome<bool>, Self);

    /// What the geometry snapshot yields.
    spec fn spec_faces(pre: Self) -> CallOutcome<Seq<Face>>;

    /// Construct an instance.
    fn construct() -> (r: CallOutcome<Self>)
        ensures
            r == Self::spec_construct(),
    ;

    /// Tear this instance down.
    fn destory(&mut self) -> (r: CallOutcome<()>)
        ensures
            r == Self::spec_destory(*old(self)),
    ;

    /// React to the viewing angle, in thousandths of a degree, reporting
    /// whether the geometry changed.
    fn when_angled(&mut self, angle_mdeg: i64) -> (r: CallOutcome<bool>)
        ensures
            r == Self::spec_when_angled(*old(self), angle_mdeg).0,
            *final(self) == Self::spec_when_angled(*old(self), angle_mdeg).1,
    ;

    /// The current geometry of this instance.
    fn get_faces(&self) -> (r: CallOutcome<Vec<Face>>)
        ensures
            faces_outcome_view(r) == Self::spec_faces(*self),
    ;
}

/// What the guarded constructor does to the guard's state: on completion the
/// instance fills a fresh slot and its token comes back; on a panic the flag
/// drops and the void token comes back.
pub open spec fn guard_new_instance<L: LevelBehavior>(
    instances: Seq<Option<L>>,
    ok: bool,
) -> (Seq<Option<L>>, bool, Pointered) {
    match L::spec_construct() {
        CallOutcome::Completed(inst) => (
            instances.push(Some(inst)),
            ok,
            Pointered { has: true, addr: (instances.len() + 1) as usize },
        ),
        CallOutcome::Panicked => (instances, false, Pointered::spec_void()),
    }
}

/// What the guarded angle update does: a token naming no instance reads
/// false and changes nothing; otherwise the instance steps, and a panic of
/// its body drops the flag and reads false.
pub open spec fn guard_when_angled<L: LevelBehavior>(
    instances: Seq<Option<L>>,
    ok: bool,
    p: Pointered,
    angle_mdeg: i64,
) -> (Seq<Option<L>>, bool, bool) {
    match table_lookup(instances, p) {
        None => (instances, ok, false),
        Some(inst) => {
            let (out, post) = L::spec_when_angled(inst, angle_mdeg);
            let updated = instances.update(p.spec_addr() - 1, Some(post));
            match out {
                CallOutcome::Completed(b) => (updated, ok, b),
                CallOutcome::Panicked => (updated, false, false),
            }
        },
    }
}

/// What the guarded geometry snapshot yields: the flag it leaves, and the
/// faces — empty for a token naming no instance, empty again when the body
/// panics.
pub open spec fn guard_get_faces<L: LevelBehavior>(
    instances: Seq<Option<L>>,
    ok: bool,
    p: Pointered,
) -> (bool, Seq<Face>) {
    match table_lookup(instances, p) {
        None => (ok, Seq::empty()),
        Some(inst) => match L::spec_faces(inst) {
            CallOutcome::Completed(fs) => (ok, fs),
            CallOutcome::Panicked => (false, Seq::empty()),
        },
    }
}

/// What guarded teardown does: the named slot empties — its token goes
/// stale for good — and a panic of the body only drops the flag.
pub open spec fn guard_destory<L: LevelBehavior>(
    instances: Seq<Option<L>>,
    ok: bool,
    p: Pointered,
) -> (Seq<Option<L>>, bool) {
    match table_lookup(instances, p) {
        None => (instances, ok),
        Some(inst) => {
            let removed = instances.update(p.spec_addr() - 1, None);
            match L::spec_destory(inst) {
                CallOutcome::Completed(_) => (removed, ok),
                CallOutcome::Panicked => (removed, false),
            }
        },
    }
}

/// The self-guard around one level library's entry points: its instances,
/// each behind a token, and the library-local liveness flag that every
/// contained panic drops.  The flag starts true — the liveness probe is
/// safe to call before any instance exists — and never rises again.
pub struct Guarded<L: LevelBehavior> {
    instances: TokenTable<L>,
    ok: bool,
}

impl<L: LevelBehavior> Guarded<L> {
    /// The instance slots, in order of construction.
    pub closed spec fn spec_instances(self) -> Seq<Option<L>> {
        self.instances@
    }

    /// The library-local liveness flag.
    pub closed spec fn spec_ok(self) -> bool {
        self.ok
    }

    /// A fresh guard: no instances yet, and reporting healthy.
    pub fn new() -> (g: Self)
        ensures
            g.spec_instances() =~= Seq::<Option<L>>::empty(),
            g.spec_ok(),
    {
        Guarded { instances: TokenTable::new(), ok: true }
    }

    /// The liveness probe: reads the flag, nothing more, and is safe to
    /// call at any time.
    pub fn is_ok(&self) -> (r: bool)
        ensures
            r == self.spec_ok(),
    {
        self.ok
    }

    /// The guarded constructor: run the level's construction, store the
    /// instance behind a fresh token, and on a panic contain it — flag
    /// down, void token out.
    pub fn new_instance(&mut self) -> (p: Pointered)
        requires
            old(self).spec_instances().len() < usize::MAX - 1,
        ensures
            ({
                let (insts, ok, token) = guard_new_instance(
                    old(self).spec_instances(),
                    old(self).spec_ok(),
                );
                final(self).spec_instances() == insts && final(self).spec_ok() == ok && p == token
            }),
    {
        match L::construct() {
            CallOutcome::Completed(inst) => self.instances.insert(inst),
            CallOutcome::Panicked => {
                self.ok = false;
                Pointered::void()
            },
        }
    }

    /// The guarded angle update.
    pub fn when_angled(&mut self, p: Pointered, angle_mdeg: i64) -> (r: bool)
        ensures
            ({
                let (insts, ok, b) = guard_when_angled(
                    old(self).spec_instances(),
                    old(self).spec_ok(),
                    p,
                    angle_mdeg,
                );
                final(self).spec_instances() == insts && final(self).spec_ok() == ok && r == b
            }),
    {
        match self.instances.take(p) {
            None => false,
            Some(mut inst) => {
                let out = inst.when_angled(angle_mdeg);
                self.instances.put_back(p, inst);
                match out {
                    CallOutcome::Completed(b) => b,
                    CallOutcome::Panicked => {
                        self.ok = false;
                        false
                    },
                }
            },
        }
    }

    /// The guarded geometry snapshot.  It never touches the instances; a
    /// panic of the body only drops the flag and yields the empty list.
    pub fn get_faces(&mut self, p: Pointered) -> (r: Vec<Face>)
        ensures
            final(self).spec_instances() == old(self).spec_instances(),
            ({
                let (ok, fs) = guard_get_faces(
                    old(self).spec_instances(),
                    old(self).spec_ok(),
                    p,
                );
                final(self).spec_ok() == ok && r@ == fs
            }),
    {
        let out = match self.instances.get(p) {
            None => None,
            Some(inst) => Some(inst.get_faces()),
        };
        match out {
            None => Vec::new(),
            Some(CallOutcome::Completed(fs)) => fs,
            Some(CallOutcome::Panicked) => {
                self.ok = false;
                Vec::new()
            },
        }
    }

    /// Guarded teardown: run the level's teardown and empty the slot, so
    /// the token can never name a later instance.
    pub fn destory(&mut self, p: Pointered)
        ensures
            ({
                let (insts, ok) = guard_destory(
                    old(self).spec_instances(),
                    old(self).spec_ok(),
                    p,
                );
                final(self).spec_instances() == insts && final(self).spec_ok() == ok
            }),
    {
        match self.instances.take(p) {
            None => (),
            Some(mut inst) => {
                match inst.destory() {
                    CallOutcome::Completed(_) => (),
                    CallOutcome::Panicked => {
                        self.ok = false;
                    },
                }
            },
        }
    }
}

} // verus!
