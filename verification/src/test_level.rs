//! The trivial level library used to exercise the loader and the token
//! machinery.
//!
//! This level keeps a little linked record per instance and exports, next
//! to the required contract, an extra `append` entry point of its own.  It
//! exports neither `when_angled` nor `get_faces`, so a host loading it gets
//! the harmless defaults for both.  Instances live in a `TokenTable` the
//! caller owns, in place of the leaked statics a real library would hold.

use vstd::prelude::*;

use crate::handle::{table_lookup, Pointerable, Pointered, TokenTable};
use crate::interface::LevelInfo;

verus! {

use vstd::string::StringExecFns;

/// One instance of the level: a text, and the chain of its earlier
/// values.
#[derive(Debug)]
pub struct MyStruct {
    pub data: String,
    pub next: Option<Box<MyStruct>>,
}

impl Pointerable for MyStruct {

}

impl Clone for MyStruct {
    /// An exact copy of the record and its whole chain.
    fn clone(&self) -> (r: Self)
        ensures
            r == *self,
        decreases *self,
    {
        let next = match &self.next {
            Some(b) => Some(Box::new((**b).clone())),
            None => None,
        };
        MyStruct { data: self.data.clone(), next }
    }
}

impl MyStruct {
    /// A fresh record.
    pub fn new() -> (s: Self)
        ensures
            s.data@ == "新的"@,
            s.next is None,
    {
        MyStruct { data: "新的".to_owned(), next: None }
    }

    /// Push the current value onto the chain and extend the text.
    pub fn append(&mut self, name: &str)
        ensures
            final(self).data@ == old(self).data@ + name@,
            final(self).next matches Some(b) && b == *old(self),
    {
        let prev = self.clone();
        self.next = Some(Box::new(prev));
        self.data.append(name);
    }
}

/// The level's description, as its `LEVEL_INFO` export reads.
pub fn level_info() -> (r: LevelInfo)
    ensures
        r.id == 1,
        r.name@ == "Test level 1"@,
        r.group@ == "Test"@,
{
    LevelInfo { id: 1, name: "Test level 1".to_owned(), group: "Test".to_owned() }
}

/// The level's `init` export: this level has nothing to set up.
pub fn init() {
}

/// The level's `new` export: a fresh record goes into the caller's table
/// and its token comes back.
pub fn new(store: &mut TokenTable<MyStruct>) -> (p: Pointered)
    requires
        old(store)@.len() < usize::MAX - 1,
    ensures
        p.spec_usable(),
        p.spec_addr() == old(store)@.len() + 1,
        ({
            let v = final(store)@[old(store)@.len() as int];
            &&& final(store)@ == old(store)@.push(v)
            &&& v matches Some(m) && m.data@ == "新的"@ && m.next is None
        }),
{
    store.insert(MyStruct::new())
}

/// The level's `destory` export: this level keeps no per-instance
/// resources outside its table, so there is nothing to release.
pub fn destory(_p: Pointered) {
}

/// The level's extra `append` export: extend the record a token names; a
/// token naming nothing does nothing.
pub fn append(store: &mut TokenTable<MyStruct>, p: Pointered, name: &str)
    ensures
        table_lookup(old(store)@, p) is None ==> final(store)@ == old(store)@,
        table_lookup(old(store)@, p) matches Some(m) ==> ({
            let v = final(store)@[p.spec_addr() - 1];
            &&& final(store)@ == old(store)@.update(p.spec_addr() - 1, v)
            &&& v matches Some(m2) && m2.data@ == m.data@ + name@ && (m2.next matches Some(b)
                && b == m)
        }),
{
    match store.take(p) {
        None => (),
        Some(mut m) => {
            m.append(name);
            store.put_back(p, m);
        },
    }
}

} // verus!
