//! Opaque cross-boundary tokens and the slot table that backs them.
//!
//! A `Pointered` value is the only thing a host ever receives for a
//! plugin-owned instance.  The host never dereferences it; it only hands it
//! back to functions of the same loaded level.  Instances themselves live in
//! a `TokenTable`, and a token is a checked index into that table, so a stale
//! or foreign token is detected instead of being dereferenced blindly.

use vstd::prelude::*;

verus! {

use vstd::pervasive::VecAdditionalExecFns;

/// An opaque token standing for a plugin-owned instance: either no address at
/// all, or an address-sized integer.  The host treats it as a black box.
#[derive(Clone, Copy, PartialEq, Eq, Structural, Debug)]
pub struct Pointered {
    pub has: bool,
    pub addr: usize,
}

impl Pointered {
    /// Whether the token carries an address at all.
    pub open spec fn spec_has(self) -> bool {
        self.has
    }

    /// The address carried by the token (meaningful only when `spec_has`).
    pub open spec fn spec_addr(self) -> usize {
        self.addr
    }

    /// No instance: the token a failed construction yields.
    pub open spec fn spec_void() -> Pointered {
        Pointered { has: false, addr: 0 }
    }

    /// Address zero.
    pub open spec fn spec_null() -> Pointered {
        Pointered { has: true, addr: 0 }
    }

    /// The maximum-value sentinel, standing for a known-bad address.
    pub open spec fn spec_error() -> Pointered {
        Pointered { has: true, addr: usize::MAX }
    }

    /// A token that may actually name a live slot: it carries an address and
    /// that address is neither of the two sentinel values.
    pub open spec fn spec_usable(self) -> bool {
        self.has && self.addr != 0 && self.addr != usize::MAX
    }

    /// No instance: the token a failed construction yields.
    pub fn void() -> (p: Pointered)
        ensures
            p == Pointered::spec_void(),
    {
        Pointered { has: false, addr: 0 }
    }

    /// Address zero.
    pub fn null() -> (p: Pointered)
        ensures
            p == Pointered::spec_null(),
    {
        Pointered { has: true, addr: 0 }
    }

    /// The maximum-value sentinel, standing for a known-bad address.
    pub fn error() -> (p: Pointered)
        ensures
            p == Pointered::spec_error(),
    {
        Pointered { has: true, addr: usize::MAX }
    }

    /// Whether this token may name a live slot.
    pub fn usable(&self) -> (r: bool)
        ensures
            r == self.spec_usable(),
    {
        self.has && self.addr != 0 && self.addr != usize::MAX
    }
}

/// A type whose values can live behind a `Pointered` token in a
/// `TokenTable`.  The marker keeps token-bearing types explicit, as every
/// level's instance type opts in by implementing it.
pub trait Pointerable: Sized {

}

/// What a token finds in a table: the slot it names, if it names one.
///
/// A token names slot `addr - 1`, so address zero (the null token), a token
/// with no address (the void token) and the maximum-value sentinel never find
/// anything.
pub open spec fn table_lookup<T>(items: Seq<Option<T>>, p: Pointered) -> Option<T> {
    if p.spec_has() && 1 <= p.spec_addr() && p.spec_addr() < usize::MAX && p.spec_addr()
        <= items.len() {
        items[p.spec_addr() - 1]
    } else {
        None
    }
}

/// The slot table behind `Pointered` tokens.  Each `insert` fills a fresh
/// slot and hands back the token naming it; a removed slot stays as a
/// tombstone, so its token can never name a later instance.
pub struct TokenTable<T> {
    items: Vec<Option<T>>,
}

impl<T: Pointerable> TokenTable<T> {
    /// The slots, in order of creation; `None` marks a removed instance.
    pub closed spec fn view(self) -> Seq<Option<T>> {
        self.items@
    }

    /// An empty table.
    pub fn new() -> (t: Self)
        ensures
            t@ =~= Seq::<Option<T>>::empty(),
    {
        TokenTable { items: Vec::new() }
    }

    /// Store a value in a fresh slot and return the usable token naming it.
    pub fn insert(&mut self, value: T) -> (p: Pointered)
        requires
            old(self)@.len() < usize::MAX - 1,
        ensures
            final(self)@ == old(self)@.push(Some(value)),
            p.spec_usable(),
            p.spec_addr() == old(self)@.len() + 1,
            table_lookup(final(self)@, p) == Some(value),
    {
        let addr = self.items.len() + 1;
        self.items.push(Some(value));
        Pointered { has: true, addr }
    }

    /// Read the instance a token names, if any.
    pub fn get(&self, p: Pointered) -> (r: Option<&T>)
        ensures
            match r {
                Some(v) => table_lookup(self@, p) == Some(*v),
                None => table_lookup(self@, p) is None,
            },
    {
        if p.has && 1 <= p.addr && p.addr != usize::MAX && p.addr <= self.items.len() {
            match &self.items[p.addr - 1] {
                Some(v) => Some(v),
                None => None,
            }
        } else {
            None
        }
    }

    /// Take the instance a token names out of the table, leaving a tombstone.
    pub fn take(&mut self, p: Pointered) -> (r: Option<T>)
        ensures
            r == table_lookup(old(self)@, p),
            r is Some ==> final(self)@ == old(self)@.update(p.spec_addr() - 1, None),
            r is None ==> final(self)@ == old(self)@,
    {
        if p.has && 1 <= p.addr && p.addr != usize::MAX && p.addr <= self.items.len() {
            let mut slot: Option<T> = None;
            self.items.set_and_swap(p.addr - 1, &mut slot);
            proof {
                if slot is None {
                    assert(self@ =~= old(self)@);
                }
            }
            slot
        } else {
            None
        }
    }

    /// Put an instance back into the slot a token names.  The slot must
    /// exist; this is how a caller returns what `take` handed out.
    pub fn put_back(&mut self, p: Pointered, value: T)
        requires
            p.spec_usable(),
            1 <= p.spec_addr() && p.spec_addr() <= old(self)@.len(),
        ensures
            final(self)@ == old(self)@.update(p.spec_addr() - 1, Some(value)),
    {
        self.items.set(p.addr - 1, Some(value));
    }
}

} // verus!
