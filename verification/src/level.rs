//! The worker that owns one loaded level, and the host-facing `Level` proxy.
//!
//! All calls into a loaded level go through a single worker that owns the
//! level's one instance.  Host and worker exchange `Action` and `Callback`
//! messages in a strict request/response rendezvous: one action in flight,
//! one reply per action, and after every action the worker re-checks the
//! level's liveness probe and shuts down for good when it reads false.  The
//! `Level` proxy caches the latest geometry snapshot and a liveness flag
//! that, once false, never rises again.
//!
//! The worker here serves each action at the call site, which keeps the
//! rendezvous — one outstanding request, a reply before the next — by
//! construction; the shell that runs a worker on its own thread drives the
//! same steps and takes a closed channel where this takes a dead worker.

use vstd::prelude::*;

use crate::handle::Pointered;
use crate::interface::{LoadError, MyInterface};
use crate::items::Face;
use crate::plugin::{
    guard_destory, guard_get_faces, guard_new_instance, guard_when_angled, Guarded, LevelBehavior,
};

verus! {

/// A request the host sends its worker.
#[derive(Clone, Copy, PartialEq, Eq, Structural, Debug)]
pub enum Action {
    /// Ask for the current geometry snapshot.
    GetFaces,
    /// Report the viewing angle, in thousandths of a degree.
    Angled(i64),
    /// Ask the worker to tear the instance down and stop.
    Destory,
}

/// A reply the worker sends back: exactly one per `GetFaces` or `Angled`.
#[derive(PartialEq, Debug)]
pub enum Callback {
    /// Whether the angle changed the geometry.
    Angled(bool),
    /// A geometry snapshot.
    Faces(Vec<Face>),
}

/// What reading the liveness probe through an interface yields: false
/// whenever the probe is unbound, the guard's flag otherwise.
pub open spec fn call_is_ok_spec(iface: MyInterface, guard_ok: bool) -> bool {
    iface.has_is_ok && guard_ok
}

/// What calling `new` through an interface does: the guarded constructor
/// when bound, the void token and no other effect when not.
pub open spec fn call_new_spec<L: LevelBehavior>(
    iface: MyInterface,
    instances: Seq<Option<L>>,
    guard_ok: bool,
) -> (Seq<Option<L>>, bool, Pointered) {
    if iface.has_new {
        guard_new_instance(instances, guard_ok)
    } else {
        (instances, guard_ok, Pointered::spec_void())
    }
}

/// What calling `when_angled` through an interface does: false and no
/// effect when the symbol is unbound.
pub open spec fn call_when_angled_spec<L: LevelBehavior>(
    iface: MyInterface,
    instances: Seq<Option<L>>,
    guard_ok: bool,
    p: Pointered,
    angle_mdeg: i64,
) -> (Seq<Option<L>>, bool, bool) {
    if iface.has_when_angled {
        guard_when_angled(instances, guard_ok, p, angle_mdeg)
    } else {
        (instances, guard_ok, false)
    }
}

/// What calling `get_faces` through an interface yields: the empty list and
/// no effect when the symbol is unbound.
pub open spec fn call_get_faces_spec<L: LevelBehavior>(
    iface: MyInterface,
    instances: Seq<Option<L>>,
    guard_ok: bool,
    p: Pointered,
) -> (bool, Seq<Face>) {
    if iface.has_get_faces {
        guard_get_faces(instances, guard_ok, p)
    } else {
        (guard_ok, Seq::empty())
    }
}

/// What calling `destory` through an interface does: nothing when the
/// symbol is unbound.
pub open spec fn call_destory_spec<L: LevelBehavior>(
    iface: MyInterface,
    instances: Seq<Option<L>>,
    guard_ok: bool,
    p: Pointered,
) -> (Seq<Option<L>>, bool) {
    if iface.has_destory {
        guard_destory(instances, guard_ok, p)
    } else {
        (instances, guard_ok)
    }
}

/// One loaded level: the validated interface, and the guard around the
/// level's code.  Every call goes through the interface's bindings, so a
/// symbol the library never exported acts as its harmless default.
pub struct Loaded<L: LevelBehavior> {
    iface: MyInterface,
    guard: Guarded<L>,
}

impl<L: LevelBehavior> Loaded<L> {
    /// The validated interface.
    pub closed spec fn spec_iface(self) -> MyInterface {
        self.iface
    }

    /// The guard's instance slots.
    pub closed spec fn spec_instances(self) -> Seq<Option<L>> {
        self.guard.spec_instances()
    }

    /// The guard's liveness flag.
    pub closed spec fn spec_guard_ok(self) -> bool {
        self.guard.spec_ok()
    }

    /// Attach a fresh guard to a validated interface: no instances yet, and
    /// the liveness probe reading healthy.
    pub fn new(iface: MyInterface) -> (l: Self)
        ensures
            l.spec_iface() == iface,
            l.spec_instances() =~= Seq::<Option<L>>::empty(),
            l.spec_guard_ok(),
    {
        Loaded { iface, guard: Guarded::new() }
    }

    /// Read the level's liveness probe.
    pub fn call_is_ok(&self) -> (r: bool)
        ensures
            r == call_is_ok_spec(self.spec_iface(), self.spec_guard_ok()),
    {
        if self.iface.has_is_ok {
            self.guard.is_ok()
        } else {
            false
        }
    }

    /// Construct the level's instance through the interface.
    pub fn call_new(&mut self) -> (p: Pointered)
        requires
            old(self).spec_instances().len() < usize::MAX - 1,
        ensures
            final(self).spec_iface() == old(self).spec_iface(),
            ({
                let (insts, ok, token) = call_new_spec(
                    old(self).spec_iface(),
                    old(self).spec_instances(),
                    old(self).spec_guard_ok(),
                );
                final(self).spec_instances() == insts && final(self).spec_guard_ok() == ok && p
                    == token
            }),
    {
        if self.iface.has_new {
            self.guard.new_instance()
        } else {
            Pointered::void()
        }
    }

    /// Report the viewing angle through the interface.
    pub fn call_when_angled(&mut self, p: Pointered, angle_mdeg: i64) -> (r: bool)
        ensures
            final(self).spec_iface() == old(self).spec_iface(),
            ({
                let (insts, ok, b) = call_when_angled_spec(
                    old(self).spec_iface(),
                    old(self).spec_instances(),
                    old(self).spec_guard_ok(),
                    p,
                    angle_mdeg,
                );
                final(self).spec_instances() == insts && final(self).spec_guard_ok() == ok && r == b
            }),
    {
        if self.iface.has_when_angled {
            self.guard.when_angled(p, angle_mdeg)
        } else {
            false
        }
    }

    /// Take a geometry snapshot through the interface.
    pub fn call_get_faces(&mut self, p: Pointered) -> (r: Vec<Face>)
        ensures
            final(self).spec_iface() == old(self).spec_iface(),
            final(self).spec_instances() == old(self).spec_instances(),
            ({
                let (ok, fs) = call_get_faces_spec(
                    old(self).spec_iface(),
                    old(self).spec_instances(),
                    old(self).spec_guard_ok(),
                    p,
                );
                final(self).spec_guard_ok() == ok && r@ == fs
            }),
    {
        if self.iface.has_get_faces {
            self.guard.get_faces(p)
        } else {
            Vec::new()
        }
    }

    /// Tear the level's instance down through the interface.
    pub fn call_destory(&mut self, p: Pointered)
        ensures
            final(self).spec_iface() == old(self).spec_iface(),
            ({
                let (insts, ok) = call_destory_spec(
                    old(self).spec_iface(),
                    old(self).spec_instances(),
                    old(self).spec_guard_ok(),
                    p,
                );
                final(self).spec_instances() == insts && final(self).spec_guard_ok() == ok
            }),
    {
        if self.iface.has_destory {
            self.guard.destory(p)
        }
    }
}

/// What booting a worker on a fresh interface does: construct the one
/// instance, take the first snapshot.  The result is the instance slots,
/// the guard flag, the instance token, and the snapshot announced in the
/// first `Callback::Faces`.
pub open spec fn boot_spec<L: LevelBehavior>(iface: MyInterface) -> (
    Seq<Option<L>>,
    bool,
    Pointered,
    Seq<Face>,
) {
    let (i1, ok1, p) = call_new_spec::<L>(iface, Seq::empty(), true);
    let (ok2, fs) = call_get_faces_spec::<L>(iface, i1, ok1, p);
    (i1, ok2, p, fs)
}

/// What the worker's after-action check does with guard state `(instances,
/// guard_ok)`: when the probe reads healthy the worker stays; otherwise it
/// tears the instance down and stops.  The result carries whether it is
/// still alive.
pub open spec fn settle_spec<L: LevelBehavior>(
    iface: MyInterface,
    instances: Seq<Option<L>>,
    guard_ok: bool,
    p: Pointered,
) -> (Seq<Option<L>>, bool, bool) {
    if call_is_ok_spec(iface, guard_ok) {
        (instances, guard_ok, true)
    } else {
        let (i2, ok2) = call_destory_spec::<L>(iface, instances, guard_ok, p);
        (i2, ok2, false)
    }
}

/// Serving one `GetFaces` action: the snapshot call, then the after-action
/// check.  The result carries the snapshot that goes into the reply.
pub open spec fn serve_get_faces_spec<L: LevelBehavior>(
    iface: MyInterface,
    instances: Seq<Option<L>>,
    guard_ok: bool,
    p: Pointered,
) -> (Seq<Option<L>>, bool, bool, Seq<Face>) {
    let (ok1, fs) = call_get_faces_spec::<L>(iface, instances, guard_ok, p);
    let (i2, ok2, alive) = settle_spec::<L>(iface, instances, ok1, p);
    (i2, ok2, alive, fs)
}

/// Serving one `Angled` action: the angle call, then the after-action
/// check.  The result carries the boolean that goes into the reply.
pub open spec fn serve_angled_spec<L: LevelBehavior>(
    iface: MyInterface,
    instances: Seq<Option<L>>,
    guard_ok: bool,
    p: Pointered,
    angle_mdeg: i64,
) -> (Seq<Option<L>>, bool, bool, bool) {
    let (i1, ok1, b) = call_when_angled_spec::<L>(iface, instances, guard_ok, p, angle_mdeg);
    let (i2, ok2, alive) = settle_spec::<L>(iface, i1, ok1, p);
    (i2, ok2, alive, b)
}

/// The worker owning one loaded level.  It holds the level's single
/// instance token — the host never touches tokens — serves one action at a
/// time, and once it has shut down it answers nothing any more, like a
/// worker whose channel has closed.
pub struct Worker<L: LevelBehavior> {
    loaded: Loaded<L>,
    instance: Pointered,
    alive: bool,
}

impl<L: LevelBehavior> Worker<L> {
    /// The interface of the loaded level this worker drives.
    pub closed spec fn spec_iface(self) -> MyInterface {
        self.loaded.spec_iface()
    }

    /// The guard's instance slots.
    pub closed spec fn spec_instances(self) -> Seq<Option<L>> {
        self.loaded.spec_instances()
    }

    /// The guard's liveness flag.
    pub closed spec fn spec_guard_ok(self) -> bool {
        self.loaded.spec_guard_ok()
    }

    /// The token of the one instance this worker owns.
    pub closed spec fn spec_instance(self) -> Pointered {
        self.instance
    }

    /// Whether the worker still serves actions.
    pub closed spec fn spec_alive(self) -> bool {
        self.alive
    }

    /// Boot a worker on a validated interface: construct the instance, take
    /// the first snapshot, and announce it as the first reply.
    pub fn boot(iface: MyInterface) -> (r: (Worker<L>, Callback))
        ensures
            ({
                let (insts, ok, p, fs) = boot_spec::<L>(iface);
                &&& r.0.spec_iface() == iface
                &&& r.0.spec_instances() == insts
                &&& r.0.spec_guard_ok() == ok
                &&& r.0.spec_instance() == p
                &&& r.0.spec_alive()
                &&& r.1 matches Callback::Faces(f) && f@ == fs
            }),
    {
        let mut loaded = Loaded::new(iface);
        let instance = loaded.call_new();
        let faces = loaded.call_get_faces(instance);
        (Worker { loaded, instance, alive: true }, Callback::Faces(faces))
    }

    /// Tear the instance down and stop serving.
    fn shutdown(&mut self)
        ensures
            final(self).spec_iface() == old(self).spec_iface(),
            final(self).spec_instance() == old(self).spec_instance(),
            !final(self).spec_alive(),
            ({
                let (insts, ok) = call_destory_spec(
                    old(self).spec_iface(),
                    old(self).spec_instances(),
                    old(self).spec_guard_ok(),
                    old(self).spec_instance(),
                );
                final(self).spec_instances() == insts && final(self).spec_guard_ok() == ok
            }),
    {
        self.loaded.call_destory(self.instance);
        self.alive = false;
    }

    /// Re-check the liveness probe after an action; a probe reading false
    /// means the level is done for, so the worker shuts down.
    fn settle(&mut self)
        requires
            old(self).spec_alive(),
        ensures
            final(self).spec_iface() == old(self).spec_iface(),
            final(self).spec_instance() == old(self).spec_instance(),
            ({
                let (insts, ok, alive) = settle_spec(
                    old(self).spec_iface(),
                    old(self).spec_instances(),
                    old(self).spec_guard_ok(),
                    old(self).spec_instance(),
                );
                &&& final(self).spec_instances() == insts
                &&& final(self).spec_guard_ok() == ok
                &&& final(self).spec_alive() == alive
            }),
    {
        if !self.loaded.call_is_ok() {
            self.shutdown();
        }
    }

    /// Serve one action, returning its reply — or `None` once the worker
    /// has stopped, the way a closed channel answers a late request.
    /// `Destory` has no reply: the worker tears the instance down and
    /// stops.
    pub fn handle(&mut self, action: Action) -> (r: Option<Callback>)
        ensures
            final(self).spec_iface() == old(self).spec_iface(),
            final(self).spec_instance() == old(self).spec_instance(),
            !old(self).spec_alive() ==> *final(self) == *old(self) && r is None,
            old(self).spec_alive() && action is Destory ==> !final(self).spec_alive() && r is None
                && ({
                let (insts, ok) = call_destory_spec(
                    old(self).spec_iface(),
                    old(self).spec_instances(),
                    old(self).spec_guard_ok(),
                    old(self).spec_instance(),
                );
                final(self).spec_instances() == insts && final(self).spec_guard_ok() == ok
            }),
            action matches Action::Angled(a) ==> old(self).spec_alive() ==> ({
                let (insts, ok, alive, b) = serve_angled_spec(
                    old(self).spec_iface(),
                    old(self).spec_instances(),
                    old(self).spec_guard_ok(),
                    old(self).spec_instance(),
                    a,
                );
                &&& final(self).spec_instances() == insts
                &&& final(self).spec_guard_ok() == ok
                &&& final(self).spec_alive() == alive
                &&& r == Some(Callback::Angled(b))
            }),
            old(self).spec_alive() && action is GetFaces ==> ({
                let (insts, ok, alive, fs) = serve_get_faces_spec(
                    old(self).spec_iface(),
                    old(self).spec_instances(),
                    old(self).spec_guard_ok(),
                    old(self).spec_instance(),
                );
                &&& final(self).spec_instances() == insts
                &&& final(self).spec_guard_ok() == ok
                &&& final(self).spec_alive() == alive
                &&& r matches Some(cb) && cb matches Callback::Faces(f) && f@ == fs
            }),
    {
        if !self.alive {
            return None;
        }
        match action {
            Action::GetFaces => {
                let faces = self.loaded.call_get_faces(self.instance);
                self.settle();
                Some(Callback::Faces(faces))
            },
            Action::Angled(angle_mdeg) => {
                let b = self.loaded.call_when_angled(self.instance, angle_mdeg);
                self.settle();
                Some(Callback::Angled(b))
            },
            Action::Destory => {
                self.shutdown();
                None
            },
        }
    }
}

/// One full host-side angle exchange, starting from the whole proxy state:
/// the worker's state, the cached snapshot and the host's liveness flag.
/// The result is the next state of all of it, and what the call returns.
/// A dead worker fails the exchange and drops the host flag; a reply of
/// false leaves the cache alone; a reply of true is followed by one
/// snapshot request whose answer replaces the cache.
pub open spec fn level_when_angled_spec<L: LevelBehavior>(
    iface: MyInterface,
    instances: Seq<Option<L>>,
    guard_ok: bool,
    p: Pointered,
    alive: bool,
    faces: Seq<Face>,
    level_ok: bool,
    angle_mdeg: i64,
) -> (Seq<Option<L>>, bool, bool, Seq<Face>, bool, bool) {
    if !alive {
        (instances, guard_ok, alive, faces, false, false)
    } else {
        let (i1, ok1, alive1, b) = serve_angled_spec::<L>(iface, instances, guard_ok, p, angle_mdeg);
        if !b {
            (i1, ok1, alive1, faces, level_ok, false)
        } else if !alive1 {
            (i1, ok1, alive1, faces, false, false)
        } else {
            let (i2, ok2, alive2, fs) = serve_get_faces_spec::<L>(iface, i1, ok1, p);
            (i2, ok2, alive2, fs, level_ok, true)
        }
    }
}

/// What the host does next after the first reply of an angle exchange.
#[derive(Clone, Copy, PartialEq, Eq, Structural, Debug)]
pub enum AngledStep {
    /// No usable reply came: the worker is gone.  Drop the liveness flag
    /// for good and answer false.
    Failed,
    /// The level reported no change: answer false, touch nothing.
    Unchanged,
    /// The level reported a change: request one geometry snapshot; its
    /// answer replaces the cache and the exchange answers true, and a
    /// missing answer counts as `Failed`.
    FetchFaces,
}

/// The host-side decision on the first reply of an angle exchange, over
/// plain values, so that a shell driving a worker over a real channel
/// runs the same decision the proxy here proves: `None` stands for a
/// missing or wrong-kind reply, `Some` for the level's answer.
pub fn host_angled_step(reply: Option<bool>) -> (r: AngledStep)
    ensures
        reply is None ==> r is Failed,
        reply == Some(false) ==> r is Unchanged,
        reply == Some(true) ==> r is FetchFaces,
{
    match reply {
        None => AngledStep::Failed,
        Some(false) => AngledStep::Unchanged,
        Some(true) => AngledStep::FetchFaces,
    }
}

/// The host's proxy for one running level: it talks only to the worker,
/// caches the latest geometry snapshot, and keeps a liveness flag that a
/// failed exchange drops for good.
pub struct Level<L: LevelBehavior> {
    worker: Worker<L>,
    faces: Vec<Face>,
    is_ok: bool,
}

impl<L: LevelBehavior> Level<L> {
    /// The interface of the level this proxy drives.
    pub closed spec fn spec_iface(self) -> MyInterface {
        self.worker.spec_iface()
    }

    /// The guard's instance slots.
    pub closed spec fn spec_instances(self) -> Seq<Option<L>> {
        self.worker.spec_instances()
    }

    /// The guard's liveness flag.
    pub closed spec fn spec_guard_ok(self) -> bool {
        self.worker.spec_guard_ok()
    }

    /// The worker's token for the level's one instance.
    pub closed spec fn spec_instance(self) -> Pointered {
        self.worker.spec_instance()
    }

    /// Whether the worker still serves actions.
    pub closed spec fn spec_alive(self) -> bool {
        self.worker.spec_alive()
    }

    /// The cached geometry snapshot.
    pub closed spec fn spec_faces(self) -> Seq<Face> {
        self.faces@
    }

    /// The host-side liveness flag.
    pub closed spec fn spec_is_ok(self) -> bool {
        self.is_ok
    }

    /// Start a level from the outcome of a load: a refused load starts
    /// nothing, a successful one boots the worker, waits for the first
    /// snapshot and caches it.
    pub fn new(load_result: Result<MyInterface, LoadError>) -> (r: Option<Level<L>>)
        ensures
            load_result is Err ==> r is None,
            load_result matches Ok(iface) ==> ({
                let (insts, ok, p, fs) = boot_spec::<L>(iface);
                &&& r matches Some(lv)
                &&& lv.spec_iface() == iface
                &&& lv.spec_instances() == insts
                &&& lv.spec_guard_ok() == ok
                &&& lv.spec_instance() == p
                &&& lv.spec_alive()
                &&& lv.spec_faces() == fs
                &&& lv.spec_is_ok()
            }),
    {
        match load_result {
            Err(e) => None,
            Ok(iface) => {
                let (worker, cb) = Worker::boot(iface);
                match cb {
                    Callback::Faces(faces) => Some(Level { worker, faces, is_ok: true }),
                    Callback::Angled(b) => None,
                }
            },
        }
    }

    /// The cached geometry snapshot: a pure read, no message to the worker.
    pub fn get_faces(&self) -> (r: &Vec<Face>)
        ensures
            r@ == self.spec_faces(),
    {
        &self.faces
    }

    /// One angle exchange with the worker.  A true reply is followed at
    /// once by a snapshot request whose answer replaces the cache; a false
    /// reply leaves the cache untouched; a worker that no longer answers
    /// drops the host flag, which never rises again.
    pub fn when_angled(&mut self, angle_mdeg: i64) -> (r: bool)
        ensures
            ({
                let (insts, gok, alive, fs, lok, res) = level_when_angled_spec(
                    old(self).spec_iface(),
                    old(self).spec_instances(),
                    old(self).spec_guard_ok(),
                    old(self).spec_instance(),
                    old(self).spec_alive(),
                    old(self).spec_faces(),
                    old(self).spec_is_ok(),
                    angle_mdeg,
                );
                &&& final(self).spec_iface() == old(self).spec_iface()
                &&& final(self).spec_instance() == old(self).spec_instance()
                &&& final(self).spec_instances() == insts
                &&& final(self).spec_guard_ok() == gok
                &&& final(self).spec_alive() == alive
                &&& final(self).spec_faces() == fs
                &&& final(self).spec_is_ok() == lok
                &&& r == res
            }),
            !old(self).spec_is_ok() ==> !final(self).spec_is_ok(),
    {
        let reply = self.worker.handle(Action::Angled(angle_mdeg));
        let first = match &reply {
            Some(Callback::Angled(b)) => Some(*b),
            _ => None,
        };
        match host_angled_step(first) {
            AngledStep::Failed => {
                self.is_ok = false;
                false
            },
            AngledStep::Unchanged => false,
            AngledStep::FetchFaces => {
                let reply2 = self.worker.handle(Action::GetFaces);
                match reply2 {
                    Some(Callback::Faces(faces)) => {
                        self.faces = faces;
                        true
                    },
                    _ => {
                        self.is_ok = false;
                        false
                    },
                }
            },
        }
    }

    /// The cached liveness flag.  Once it reads false the level is done
    /// for: the subsystem never restarts a level.
    pub fn is_ok(&self) -> (r: bool)
        ensures
            r == self.spec_is_ok(),
    {
        self.is_ok
    }

    /// Stop the level: ask the worker to tear the instance down, best
    /// effort, and give the proxy up.
    pub fn destory(self)
    {
        let mut worker = self.worker;
        let r = worker.handle(Action::Destory);
    }
}

/// The snapshot a freshly booted level caches is exactly what driving the
/// contract by hand produces: construct the one instance, then take its
/// faces, on the same interface.
pub proof fn lemma_initial_faces_match_direct<L: LevelBehavior>(iface: MyInterface)
    ensures
        ({
            let (i1, ok1, p) = call_new_spec::<L>(iface, Seq::empty(), true);
            let (ok2, fs) = call_get_faces_spec::<L>(iface, i1, ok1, p);
            boot_spec::<L>(iface).3 == fs && boot_spec::<L>(iface).2 == p
        }),
{
}

/// An angle exchange that returns true leaves the cache equal to the
/// snapshot a direct `get_faces` of the stepped instance yields — the same
/// angle applied, then the same snapshot call; one that returns false
/// leaves the cache exactly as it was.
pub proof fn lemma_angled_updates_cache<L: LevelBehavior>(
    iface: MyInterface,
    instances: Seq<Option<L>>,
    guard_ok: bool,
    p: Pointered,
    alive: bool,
    faces: Seq<Face>,
    level_ok: bool,
    angle_mdeg: i64,
)
    ensures
        ({
            let (i1, ok1, b) = call_when_angled_spec::<L>(iface, instances, guard_ok, p, angle_mdeg);
            let step = level_when_angled_spec::<L>(
                iface,
                instances,
                guard_ok,
                p,
                alive,
                faces,
                level_ok,
                angle_mdeg,
            );
            &&& step.5 ==> step.3 == call_get_faces_spec::<L>(iface, i1, ok1, p).1
            &&& !step.5 ==> step.3 == faces
        }),
{
}

/// After the level's angle body panics under the guard, the worker is no
/// longer alive and the exchange reports false: the fault is contained at
/// the source and the worker backstop retires the level.
pub proof fn lemma_angled_panic_faults<L: LevelBehavior>(
    iface: MyInterface,
    instances: Seq<Option<L>>,
    guard_ok: bool,
    p: Pointered,
    faces: Seq<Face>,
    level_ok: bool,
    angle_mdeg: i64,
)
    requires
        iface.has_when_angled,
        crate::handle::table_lookup(instances, p) matches Some(inst) && L::spec_when_angled(
            inst,
            angle_mdeg,
        ).0 is Panicked,
    ensures
        ({
            let step = level_when_angled_spec::<L>(
                iface,
                instances,
                guard_ok,
                p,
                true,
                faces,
                level_ok,
                angle_mdeg,
            );
            &&& !step.2
            &&& !step.5
            &&& step.3 == faces
        }),
{
}

/// A dead worker answers nothing: every later angle exchange returns false
/// at once, drops the host flag for good, and leaves the cache and the
/// instances untouched.
pub proof fn lemma_dead_level_stays_dead<L: LevelBehavior>(
    iface: MyInterface,
    instances: Seq<Option<L>>,
    guard_ok: bool,
    p: Pointered,
    faces: Seq<Face>,
    level_ok: bool,
    angle_mdeg: i64,
)
    ensures
        level_when_angled_spec::<L>(
            iface,
            instances,
            guard_ok,
            p,
            false,
            faces,
            level_ok,
            angle_mdeg,
        ) == (instances, guard_ok, false, faces, false, false),
{
}

/// An interface whose library never exported `when_angled` answers every
/// angle exchange with false and never changes the cache, however the
/// level behaves.
pub proof fn lemma_unbound_when_angled_reads_false<L: LevelBehavior>(
    iface: MyInterface,
    instances: Seq<Option<L>>,
    guard_ok: bool,
    p: Pointered,
    alive: bool,
    faces: Seq<Face>,
    level_ok: bool,
    angle_mdeg: i64,
)
    requires
        !iface.has_when_angled,
    ensures
        ({
            let step = level_when_angled_spec::<L>(
                iface,
                instances,
                guard_ok,
                p,
                alive,
                faces,
                level_ok,
                angle_mdeg,
            );
            !step.5 && step.3 == faces
        }),
{
}

} // verus!
