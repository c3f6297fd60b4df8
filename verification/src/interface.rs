//! The ABI contract a level library must honour, and the loader that checks
//! it.
//!
//! A level library is a shared object exporting a fixed set of symbols.  The
//! loader inspects what a library actually exports — summarised here as a
//! `LibraryExports` record, which the unverified shell fills in by probing
//! the open library — validates the required part of the contract, binds a
//! harmless default for each missing optional symbol, and assembles a
//! `MyInterface`.  A panic escaping the library's own `init` is contained one
//! layer up, in `load_safe`, and surfaces as an ordinary error.

use vstd::prelude::*;

verus! {

use vstd::string::StringSliceAdditionalSpecFns;

/// Names of the symbols a level library exports.
pub const REQUIRED_INCLUDED: &'static str = "REQUIRED_INCLUDED";

/// Name of the liveness probe symbol.
pub const CHECK_STATE: &'static str = "is_ok";

/// Name of the optional one-time initialisation symbol.
pub const INIT: &'static str = "init";

/// Name of the instance-construction symbol.
pub const NEW: &'static str = "new";

/// Name of the instance-teardown symbol.
pub const DESTORY: &'static str = "destory";

/// Name of the optional angle-update symbol.
pub const WHEN_ANGLED: &'static str = "when_angled";

/// Name of the optional geometry-snapshot symbol.
pub const GET_FACES: &'static str = "get_faces";

/// Name of the exported level-description record.
pub const LEVEL_INFO: &'static str = "LEVEL_INFO";

/// A symbol name as the byte string a symbol lookup wants.
pub fn s2b(s: &str) -> (b: &[u8])
    ensures
        b@ == s.spec_bytes(),
{
    s.as_bytes()
}

/// The descriptive record a level library exports: a numeric id, a display
/// name and a group name.  It is read once, right after the library's `init`
/// ran, and copied; later changes to the library's storage are never seen.
#[derive(Debug)]
pub struct LevelInfo {
    pub id: usize,
    pub name: String,
    pub group: String,
}

impl LevelInfo {
    /// The empty record bound when a library's description is absent from an
    /// interface built by hand.
    pub fn none() -> (r: LevelInfo)
        ensures
            r.id == 0,
            r.name@ == Seq::<char>::empty(),
            r.group@ == Seq::<char>::empty(),
    {
        LevelInfo { id: 0, name: String::new(), group: String::new() }
    }
}

impl Clone for LevelInfo {
    /// An exact copy: the snapshot the loader keeps.
    fn clone(&self) -> (r: Self)
        ensures
            r == *self,
    {
        LevelInfo { id: self.id, name: self.name.clone(), group: self.group.clone() }
    }
}

/// Why a library was refused at load time.  Load failures are ordinary
/// values: they never panic the host.
#[derive(Clone, Copy, PartialEq, Eq, Structural, Debug)]
pub enum LoadError {
    /// The contract marker `REQUIRED_INCLUDED` is not exported at all.
    MissingMarker,
    /// The contract marker is exported but reads false.
    MarkerFalse,
    /// The liveness probe `is_ok` is not exported.
    MissingIsOk,
    /// The level-description record is not exported.
    MissingInfo,
    /// The instance constructor `new` is not exported.
    MissingNew,
    /// The instance destructor `destory` is not exported.
    MissingDestory,
    /// The loader, or the library's own `init`, unwound.
    LoadPanicked,
}

impl LoadError {
    /// The descriptive reason a caller can show.
    pub fn message(&self) -> (r: String)
        ensures
            *self is MissingMarker ==> r@ == "not a valid level library"@,
            *self is MarkerFalse ==> r@ == "the library does not include the required exports"@,
            *self is MissingIsOk ==> r@ == "not a valid level library: cannot find is_ok"@,
            *self is MissingInfo ==> r@ == "cannot find LEVEL_INFO"@,
            *self is MissingNew ==> r@ == "cannot find new"@,
            *self is MissingDestory ==> r@ == "cannot find destory"@,
            *self is LoadPanicked ==> r@ == "load aborted"@,
    {
        match self {
            LoadError::MissingMarker => "not a valid level library".to_owned(),
            LoadError::MarkerFalse => "the library does not include the required exports".to_owned(),
            LoadError::MissingIsOk => "not a valid level library: cannot find is_ok".to_owned(),
            LoadError::MissingInfo => "cannot find LEVEL_INFO".to_owned(),
            LoadError::MissingNew => "cannot find new".to_owned(),
            LoadError::MissingDestory => "cannot find destory".to_owned(),
            LoadError::LoadPanicked => "load aborted".to_owned(),
        }
    }
}

/// What one successfully opened library exports, as the unverified shell
/// observed it: which symbols resolve, what the contract marker reads,
/// whether calling `init` unwound, and the description record.
#[derive(Debug)]
pub struct LibraryExports {
    /// The contract marker resolves.
    pub has_required_included: bool,
    /// What the contract marker reads.
    pub required_included: bool,
    /// The liveness probe resolves.
    pub has_is_ok: bool,
    /// An `init` symbol resolves.
    pub has_init: bool,
    /// Calling `init` unwinds instead of returning.
    pub init_panics: bool,
    /// The description record resolves.
    pub has_level_info: bool,
    /// The description record, as read once after `init`.
    pub level_info: LevelInfo,
    /// The instance constructor resolves.
    pub has_new: bool,
    /// The instance destructor resolves.
    pub has_destory: bool,
    /// The optional geometry snapshot resolves.
    pub has_get_faces: bool,
    /// The optional angle update resolves.
    pub has_when_angled: bool,
}

/// The host-side view of a loaded level: which contract functions are bound
/// (a missing optional one acts as its harmless default) and the copied
/// description record.
#[derive(Debug)]
pub struct MyInterface {
    /// The copied description record.
    pub level_info: LevelInfo,
    /// The liveness probe is bound; unbound, it reads false.
    pub has_is_ok: bool,
    /// The constructor is bound; unbound, it yields the void token.
    pub has_new: bool,
    /// The destructor is bound; unbound, it does nothing.
    pub has_destory: bool,
    /// The geometry snapshot is bound; unbound, it yields an empty list.
    pub has_get_faces: bool,
    /// The angle update is bound; unbound, it reads false.
    pub has_when_angled: bool,
}

/// What `load` does with one library's exports, step by step:
/// check the marker, find the liveness probe, run `init` (whose unwind
/// escapes this layer), copy the description, find constructor and
/// destructor, and bind what optional symbols are present.
pub open spec fn spec_load(e: LibraryExports) -> LoadOutcome {
    if !e.has_required_included {
        LoadOutcome::Refused(LoadError::MissingMarker)
    } else if !e.required_included {
        LoadOutcome::Refused(LoadError::MarkerFalse)
    } else if !e.has_is_ok {
        LoadOutcome::Refused(LoadError::MissingIsOk)
    } else if e.has_init && e.init_panics {
        LoadOutcome::Unwound
    } else if !e.has_level_info {
        LoadOutcome::Refused(LoadError::MissingInfo)
    } else if !e.has_new {
        LoadOutcome::Refused(LoadError::MissingNew)
    } else if !e.has_destory {
        LoadOutcome::Refused(LoadError::MissingDestory)
    } else {
        LoadOutcome::Loaded(
            MyInterface {
                level_info: e.level_info,
                has_is_ok: true,
                has_new: true,
                has_destory: true,
                has_get_faces: e.has_get_faces,
                has_when_angled: e.has_when_angled,
            },
        )
    }
}

/// `load_safe` is `load` behind a recoverable-fault boundary: an unwind
/// during loading becomes an ordinary error.
pub open spec fn spec_load_safe(e: LibraryExports) -> Result<MyInterface, LoadError> {
    match spec_load(e) {
        LoadOutcome::Loaded(i) => Ok(i),
        LoadOutcome::Refused(err) => Err(err),
        LoadOutcome::Unwound => Err(LoadError::LoadPanicked),
    }
}

/// A library that honours the required part of the contract and whose `init`
/// returns normally.
pub open spec fn spec_conforming(e: LibraryExports) -> bool {
    &&& e.has_required_included
    &&& e.required_included
    &&& e.has_is_ok
    &&& e.has_init ==> !e.init_panics
    &&& e.has_level_info
    &&& e.has_new
    &&& e.has_destory
}

/// How far `load` got: an interface, a refusal, or an unwind that escaped
/// (out of the library's `init`, typically) and has yet to be contained.
pub enum LoadOutcome {
    /// The contract held; the interface is assembled.
    Loaded(MyInterface),
    /// The contract did not hold.
    Refused(LoadError),
    /// The load itself unwound; `load_safe` turns this into an error.
    Unwound,
}

impl MyInterface {
    /// Validate a library's exports and assemble the interface, with every
    /// missing optional symbol bound to its harmless default.  An unwind out
    /// of the library's `init` escapes this layer; `load_safe` contains it.
    pub fn load(e: &LibraryExports) -> (r: LoadOutcome)
        ensures
            r == spec_load(*e),
    {
        if !e.has_required_included {
            return LoadOutcome::Refused(LoadError::MissingMarker);
        }
        if !e.required_included {
            return LoadOutcome::Refused(LoadError::MarkerFalse);
        }
        if !e.has_is_ok {
            return LoadOutcome::Refused(LoadError::MissingIsOk);
        }
        if e.has_init && e.init_panics {
            return LoadOutcome::Unwound;
        }
        if !e.has_level_info {
            return LoadOutcome::Refused(LoadError::MissingInfo);
        }
        if !e.has_new {
            return LoadOutcome::Refused(LoadError::MissingNew);
        }
        if !e.has_destory {
            return LoadOutcome::Refused(LoadError::MissingDestory);
        }
        let mut builder = MyInterfaceBuilder::new(e.level_info.clone());
        if e.has_get_faces {
            builder.with_get_faces();
        }
        if e.has_when_angled {
            builder.with_when_angled();
        }
        LoadOutcome::Loaded(builder.build())
    }

    /// Load a library inside a recoverable-fault boundary: whatever unwinds
    /// during loading — the library's own `init` included — surfaces as an
    /// ordinary error, never as a fault of the host.
    pub fn load_safe(e: &LibraryExports) -> (r: Result<MyInterface, LoadError>)
        ensures
            r == spec_load_safe(*e),
    {
        match MyInterface::load(e) {
            LoadOutcome::Loaded(i) => Ok(i),
            LoadOutcome::Refused(err) => Err(err),
            LoadOutcome::Unwound => Err(LoadError::LoadPanicked),
        }
    }
}

/// Assembles a `MyInterface` from whichever contract functions were
/// resolved; `build` substitutes the harmless default for each one missing.
pub struct MyInterfaceBuilder {
    level_info: Option<LevelInfo>,
    is_ok: bool,
    f_new: bool,
    f_destory: bool,
    f_get_faces: bool,
    f_when_angled: bool,
}

impl MyInterfaceBuilder {
    /// The description the builder holds, if one was supplied.
    pub closed spec fn spec_info(self) -> Option<LevelInfo> {
        self.level_info
    }

    /// Which functions the builder has bound so far, in the order
    /// `is_ok`, `new`, `destory`, `get_faces`, `when_angled`.
    pub closed spec fn spec_bound(self) -> (bool, bool, bool, bool, bool) {
        (self.is_ok, self.f_new, self.f_destory, self.f_get_faces, self.f_when_angled)
    }

    /// A builder with nothing bound: `build` on it yields an interface of
    /// defaults only.
    pub fn none() -> (b: Self)
        ensures
            b.spec_info() is None,
            b.spec_bound() == (false, false, false, false, false),
    {
        MyInterfaceBuilder {
            level_info: None,
            is_ok: false,
            f_new: false,
            f_destory: false,
            f_get_faces: false,
            f_when_angled: false,
        }
    }

    /// A builder holding the required part of the contract: the liveness
    /// probe, the description, the constructor and the destructor.
    pub fn new(info: LevelInfo) -> (b: Self)
        ensures
            b.spec_info() == Some(info),
            b.spec_bound() == (true, true, true, false, false),
    {
        MyInterfaceBuilder {
            level_info: Some(info),
            is_ok: true,
            f_new: true,
            f_destory: true,
            f_get_faces: false,
            f_when_angled: false,
        }
    }

    /// Bind the description record.
    pub fn with_info(&mut self, info: LevelInfo)
        ensures
            final(self).spec_info() == Some(info),
            final(self).spec_bound() == old(self).spec_bound(),
    {
        self.level_info = Some(info);
    }

    /// Bind the constructor.
    pub fn with_new(&mut self)
        ensures
            final(self).spec_info() == old(self).spec_info(),
            final(self).spec_bound() == (
                old(self).spec_bound().0,
                true,
                old(self).spec_bound().2,
                old(self).spec_bound().3,
                old(self).spec_bound().4,
            ),
    {
        self.f_new = true;
    }

    /// Bind the destructor.
    pub fn with_destory(&mut self)
        ensures
            final(self).spec_info() == old(self).spec_info(),
            final(self).spec_bound() == (
                old(self).spec_bound().0,
                old(self).spec_bound().1,
                true,
                old(self).spec_bound().3,
                old(self).spec_bound().4,
            ),
    {
        self.f_destory = true;
    }

    /// Bind the optional angle update.
    pub fn with_when_angled(&mut self)
        ensures
            final(self).spec_info() == old(self).spec_info(),
            final(self).spec_bound() == (
                old(self).spec_bound().0,
                old(self).spec_bound().1,
                old(self).spec_bound().2,
                old(self).spec_bound().3,
                true,
            ),
    {
        self.f_when_angled = true;
    }

    /// Bind the optional geometry snapshot.
    pub fn with_get_faces(&mut self)
        ensures
            final(self).spec_info() == old(self).spec_info(),
            final(self).spec_bound() == (
                old(self).spec_bound().0,
                old(self).spec_bound().1,
                old(self).spec_bound().2,
                true,
                old(self).spec_bound().4,
            ),
    {
        self.f_get_faces = true;
    }

    /// Assemble the interface: every function left unbound gets its harmless
    /// default, and a missing description becomes the empty record.
    pub fn build(self) -> (i: MyInterface)
        ensures
            i.has_is_ok == self.spec_bound().0,
            i.has_new == self.spec_bound().1,
            i.has_destory == self.spec_bound().2,
            i.has_get_faces == self.spec_bound().3,
            i.has_when_angled == self.spec_bound().4,
            match self.spec_info() {
                Some(info) => i.level_info == info,
                None => i.level_info.id == 0 && i.level_info.name@ == Seq::<char>::empty()
                    && i.level_info.group@ == Seq::<char>::empty(),
            },
    {
        let level_info = match self.level_info {
            Some(info) => info,
            None => LevelInfo::none(),
        };
        MyInterface {
            level_info,
            has_is_ok: self.is_ok,
            has_new: self.f_new,
            has_destory: self.f_destory,
            has_get_faces: self.f_get_faces,
            has_when_angled: self.f_when_angled,
        }
    }
}

/// Whether the loader's steps reach the call of the library's `init`:
/// they do exactly when the contract marker resolves and reads true and
/// the liveness probe resolves.  Nothing else is examined first.
pub open spec fn spec_reaches_init(e: LibraryExports) -> bool {
    e.has_required_included && e.required_included && e.has_is_ok
}

/// Whether a load of this library would run its `init`.  The shell asks
/// this before making the call, so arbitrary plugin code runs only for a
/// library whose marker and liveness probe already validated; a library
/// this refuses is refused by `load` as well, before its `init` step.
pub fn reaches_init(e: &LibraryExports) -> (r: bool)
    ensures
        r == spec_reaches_init(*e),
        !r ==> spec_load(*e) is Refused,
{
    e.has_required_included && e.required_included && e.has_is_ok
}

/// The loader runs the library's `init` only after the contract marker
/// and the liveness probe validated: a load that ended in an unwind — the
/// only outcome `init` can contribute — had the marker resolved and true
/// and the probe resolved.
pub proof fn lemma_init_runs_after_validation(e: LibraryExports)
    ensures
        spec_load(e) is Unwound ==> spec_reaches_init(e),
{
}

/// Loading a conforming library succeeds, and the interface carries the
/// description exactly as it stood when the snapshot was taken: the copy is
/// by value, so later changes to the library's storage cannot reach it.
pub proof fn lemma_load_safe_conforming(e: LibraryExports)
    requires
        spec_conforming(e),
    ensures
        spec_load_safe(e) matches Ok(i) && i.level_info == e.level_info,
{
}

/// A library missing any required export — the marker, `is_ok`, `new`,
/// `destory` or `LEVEL_INFO` — is refused, so no interface exists through
/// which an instance could ever be constructed.
pub proof fn lemma_load_safe_missing_required(e: LibraryExports)
    requires
        !e.has_required_included || !e.has_is_ok || !e.has_new || !e.has_destory
            || !e.has_level_info,
    ensures
        spec_load_safe(e) is Err,
{
}

/// A library whose `init` unwinds still yields an ordinary error from
/// `load_safe`, whatever else it exports.
pub proof fn lemma_load_safe_init_panic(e: LibraryExports)
    requires
        e.has_init,
        e.init_panics,
    ensures
        spec_load_safe(e) is Err,
{
}

} // verus!
