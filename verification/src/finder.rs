//! The level-directory records: what the on-disk catalogue of levels
//! parses into, and the collected index the game plays from.
//!
//! The catalogue is JSON on disk.  Reading files and decoding JSON belong
//! to the I/O shell; it hands this module the decoded documents as
//! `JsValue` trees together with the set of file paths that exist, and
//! everything from there — walking the documents, following linker files,
//! collecting and pruning the level index — is ordinary verified logic.

use vstd::prelude::*;

verus! {

use vstd::string::StringExecFns;

/// A decoded JSON document.
#[derive(Debug)]
pub enum JsValue {
    /// The null value, also standing for a document that failed to parse.
    Null,
    /// A boolean.
    Bool(bool),
    /// A number, read as a whole number.
    Num(i64),
    /// A string.
    Str(String),
    /// An array.
    Arr(Vec<JsValue>),
    /// An object: its members in document order.
    Obj(Vec<(String, JsValue)>),
}

/// The string a value reads as: its text when it is a string, the default
/// otherwise.
pub open spec fn spec_js_str(j: JsValue, default: Seq<char>) -> Seq<char> {
    match j {
        JsValue::Str(s) => s@,
        _ => default,
    }
}

/// The number a value reads as: its value when it is a number, the
/// default otherwise.
pub open spec fn spec_js_num(j: JsValue, default: i64) -> i64 {
    match j {
        JsValue::Num(n) => n,
        _ => default,
    }
}

/// The first member of an object with the given name, if any.
pub open spec fn spec_obj_get(fields: Seq<(String, JsValue)>, key: Seq<char>) -> Option<JsValue>
    decreases fields.len(),
{
    if fields.len() == 0 {
        None
    } else if fields[0].0@ == key {
        Some(fields[0].1)
    } else {
        spec_obj_get(fields.drop_first(), key)
    }
}

/// The string a member of an object reads as, with a default for a
/// missing member and a non-string value alike.
pub open spec fn spec_js_obj_str(j: JsValue, key: Seq<char>, default: Seq<char>) -> Seq<char> {
    match j {
        JsValue::Obj(fields) => match spec_obj_get(fields@, key) {
            Some(v) => spec_js_str(v, default),
            None => default,
        },
        _ => default,
    }
}

/// The number a member of an object reads as, with a default for a
/// missing member and a non-number value alike.
pub open spec fn spec_js_obj_num(j: JsValue, key: Seq<char>, default: i64) -> i64 {
    match j {
        JsValue::Obj(fields) => match spec_obj_get(fields@, key) {
            Some(v) => spec_js_num(v, default),
            None => default,
        },
        _ => default,
    }
}

/// Skipping members that do not match leaves the lookup unchanged.
proof fn lemma_obj_get_skip(fields: Seq<(String, JsValue)>, key: Seq<char>, i: int)
    requires
        0 <= i <= fields.len(),
        forall|j: int| 0 <= j < i ==> fields[j].0@ != key,
    ensures
        spec_obj_get(fields, key) == spec_obj_get(
            fields.subrange(i, fields.len() as int),
            key,
        ),
    decreases i,
{
    if i > 0 {
        assert(fields.drop_first() =~= fields.subrange(1, fields.len() as int));
        lemma_obj_get_skip(fields.subrange(1, fields.len() as int), key, i - 1);
        assert(fields.subrange(1, fields.len() as int).subrange(
            i - 1,
            fields.len() as int - 1,
        ) =~= fields.subrange(i, fields.len() as int));
    } else {
        assert(fields.subrange(0, fields.len() as int) =~= fields);
    }
}

/// The text a value reads as.
pub fn js_str<'a>(j: &'a JsValue, default: &'a str) -> (r: &'a str)
    ensures
        r@ == spec_js_str(*j, default@),
{
    match j {
        JsValue::Str(s) => s.as_str(),
        _ => default,
    }
}

/// The number a value reads as.
pub fn js_num(j: &JsValue, default: i64) -> (r: i64)
    ensures
        r == spec_js_num(*j, default),
{
    match j {
        JsValue::Num(n) => *n,
        _ => default,
    }
}

/// The first member of an object with the given name.
fn obj_get<'a>(fields: &'a Vec<(String, JsValue)>, key: &str) -> (r: Option<&'a JsValue>)
    ensures
        match r {
            Some(v) => spec_obj_get(fields@, key@) == Some(*v),
            None => spec_obj_get(fields@, key@) is None,
        },
{
    let key_s = key.to_owned();
    let n = fields.len();
    let mut i: usize = 0;
    while i < n
        invariant
            i <= n,
            n == fields@.len(),
            key_s@ == key@,
            forall|j: int| 0 <= j < i ==> fields@[j].0@ != key@,
        decreases n - i,
    {
        if fields[i].0 == key_s {
            proof {
                lemma_obj_get_skip(fields@, key@, i as int);
            }
            return Some(&fields[i].1);
        }
        i = i + 1;
    }
    proof {
        lemma_obj_get_skip(fields@, key@, n as int);
        assert(fields@.subrange(n as int, n as int) =~= Seq::<(String, JsValue)>::empty());
    }
    None
}

/// The string a member of an object reads as.
pub fn js_obj_str<'a>(j: &'a JsValue, key: &str, default: &'a str) -> (r: &'a str)
    ensures
        r@ == spec_js_obj_str(*j, key@, default@),
{
    match j {
        JsValue::Obj(fields) => match obj_get(fields, key) {
            Some(v) => js_str(v, default),
            None => default,
        },
        _ => default,
    }
}

/// The number a member of an object reads as.
pub fn js_obj_num(j: &JsValue, key: &str, default: i64) -> (r: i64)
    ensures
        r == spec_js_obj_num(*j, key@, default),
{
    match j {
        JsValue::Obj(fields) => match obj_get(fields, key) {
            Some(v) => js_num(v, default),
            None => default,
        },
        _ => default,
    }
}

/// The array a member of an object holds, if that member is an array.
pub fn js_obj_arr<'a>(j: &'a JsValue, key: &str) -> (r: Option<&'a Vec<JsValue>>)
    ensures
        match r {
            Some(v) => spec_obj_get_arr(*j, key@) == Some(v@),
            None => spec_obj_get_arr(*j, key@) is None,
        },
{
    match j {
        JsValue::Obj(fields) => match obj_get(fields, key) {
            Some(v) => match v {
                JsValue::Arr(items) => Some(items),
                _ => None,
            },
            None => None,
        },
        _ => None,
    }
}

/// The elements of an array member of an object, if there is one.
pub open spec fn spec_obj_get_arr(j: JsValue, key: Seq<char>) -> Option<Seq<JsValue>> {
    match j {
        JsValue::Obj(fields) => match spec_obj_get(fields@, key) {
            Some(JsValue::Arr(items)) => Some(items@),
            _ => None,
        },
        _ => None,
    }
}

/// The running level-index counter.  Reading it hands out one fresh index
/// after another; an index met in a document pulls the counter up past
/// it.  At the far end of its range the counter stays put rather than
/// wrap.
pub struct IdGen {
    /// The highest index handed out or seen so far.
    pub next: i64,
}

impl IdGen {
    /// A counter that has seen nothing yet.
    pub fn new() -> (g: Self)
        ensures
            g.next == 0,
    {
        IdGen { next: 0 }
    }

    /// The next fresh index.
    pub fn next_id(&mut self) -> (r: i64)
        ensures
            old(self).next < i64::MAX ==> final(self).next == old(self).next + 1 && r
                == final(self).next,
            old(self).next == i64::MAX ==> final(self).next == i64::MAX && r == i64::MAX,
    {
        if self.next < i64::MAX {
            self.next = self.next + 1;
        }
        self.next
    }

    /// Take an index met in a document: the counter moves past it, and
    /// the index itself is handed back.
    pub fn with_id(&mut self, id: i64) -> (r: i64)
        ensures
            r == id,
            ({
                let raised = if id > old(self).next {
                    id
                } else {
                    old(self).next
                };
                final(self).next == if raised < i64::MAX {
                    raised + 1
                } else {
                    i64::MAX as int
                }
            }),
    {
        if id > self.next {
            self.next = id;
        }
        if self.next < i64::MAX {
            self.next = self.next + 1;
        }
        id
    }
}

/// A path in the level directory, kept as plain text.
#[derive(Debug)]
pub struct Link(pub String);

impl Clone for Link {
    /// An exact copy.
    fn clone(&self) -> (r: Self)
        ensures
            r == *self,
    {
        Link(self.0.clone())
    }
}

impl Link {
    /// The path holding the given text.
    pub fn new(path: &str) -> (r: Link)
        ensures
            r.0@ == path@,
    {
        Link(path.to_owned())
    }

    /// This path with more text joined on.
    pub fn with(&self, dir: &str) -> (r: Link)
        ensures
            r.0@ == self.0@ + dir@,
    {
        Link(self.0.clone().concat(dir))
    }

    /// The empty path: the working directory.
    pub fn current() -> (r: Link)
        ensures
            r.0@ == Seq::<char>::empty(),
    {
        Link(String::new())
    }

    /// The text of the path.
    pub fn path(&self) -> (r: &String)
        ensures
            r@ == self.0@,
    {
        &self.0
    }

    /// Whether this path names one of the files that exist, as the I/O
    /// shell listed them.
    pub fn is_valid(&self, files: &Vec<String>) -> (r: bool)
        ensures
            r == valid_path(files.deep_view(), self.0@),
    {
        let n = files.len();
        let mut i: usize = 0;
        while i < n
            invariant
                i <= n,
                n == files@.len(),
                forall|j: int| 0 <= j < i ==> files.deep_view()[j] != self.0@,
            decreases n - i,
        {
            if files[i] == self.0 {
                proof {
                    assert(files.deep_view()[i as int] == self.0@);
                }
                return true;
            }
            i = i + 1;
        }
        false
    }
}

/// Whether a path occurs in the list of existing files.
pub open spec fn valid_path(files: Seq<Seq<char>>, p: Seq<char>) -> bool {
    exists|i: int| 0 <= i < files.len() && files[i] == p
}

/// One playable level of the catalogue: where its library lives, its
/// display name, and its index.
#[derive(Debug)]
pub struct Level {
    /// The path of the level's library.
    pub filename: Link,
    /// The display name.
    pub name: String,
    /// The level's index.
    pub index: i64,
}

/// A pointer to another catalogue file to pull groups from.
#[derive(Debug)]
pub struct Linker {
    /// The directory the linked file's entries are relative to.
    pub path: Link,
    /// The linked file's name.
    pub filename: String,
}

/// One group of the catalogue: its own levels, nested groups, and
/// linkers still to follow.
#[derive(Debug)]
pub struct Group {
    /// The directory this group's entries are relative to.
    pub path: Link,
    /// The display name.
    pub name: String,
    /// The group's index.
    pub index: i64,
    /// The group's own levels.
    pub levels: Vec<Level>,
    /// Nested groups.
    pub groups: Vec<Group>,
    /// Catalogue files still to follow.
    pub linkers: Vec<Linker>,
}

/// The whole catalogue: one root group.
#[derive(Debug)]
pub struct Game(pub Group);

/// How a parsed level relates to its document: the name is the "name"
/// member, and the library path is the group's directory with the
/// "filename" member joined on.  The index is the counter's business.
pub open spec fn level_rel(j: JsValue, dir: Link, lv: Level) -> bool {
    &&& lv.name@ == spec_js_obj_str(j, "name"@, ""@)
    &&& lv.filename.0@ == dir.0@ + spec_js_obj_str(j, "filename"@, ""@)
}

/// How a parsed linker relates to its document: the directory is the
/// group's with the "path" member joined on, and the file name is the
/// "filename" member, with the usual catalogue name as its default.
pub open spec fn linker_rel(j: JsValue, dir: Link, lk: Linker) -> bool {
    &&& lk.path.0@ == dir.0@ + spec_js_obj_str(j, "path"@, ""@)
    &&& lk.filename@ == spec_js_obj_str(j, "filename"@, "levels.json"@)
}

/// The parts of a parsed group that following linkers later leaves
/// alone: its directory and name come from the "path" and "name"
/// members, and its own levels and linkers parse one from each element
/// of their arrays.
pub open spec fn group_shallow_rel(j: JsValue, dir: Link, g: Group) -> bool {
    &&& g.path.0@ == dir.0@ + spec_js_obj_str(j, "path"@, ""@)
    &&& g.name@ == spec_js_obj_str(j, "name"@, ""@)
    &&& match spec_obj_get_arr(j, "levels"@) {
        Some(arr) => g.levels@.len() == arr.len() && forall|i: int|
            0 <= i < arr.len() ==> level_rel(arr[i], g.path, #[trigger] g.levels@[i]),
        None => g.levels@.len() == 0,
    }
    &&& match spec_obj_get_arr(j, "linkers"@) {
        Some(arr) => g.linkers@.len() == arr.len() && forall|i: int|
            0 <= i < arr.len() ==> linker_rel(arr[i], g.path, #[trigger] g.linkers@[i]),
        None => g.linkers@.len() == 0,
    }
}

/// How a freshly parsed group relates to its document: the stable parts,
/// and one subgroup per element of the "groups" array.
pub open spec fn group_rel(j: JsValue, dir: Link, g: Group) -> bool {
    &&& group_shallow_rel(j, dir, g)
    &&& match spec_obj_get_arr(j, "groups"@) {
        Some(arr) => g.groups@.len() == arr.len(),
        None => g.groups@.len() == 0,
    }
}

/// Two groups that agree on everything but their subgroup lists.
pub open spec fn same_but_subgroups(a: Group, b: Group) -> bool {
    &&& a.path == b.path
    &&& a.name@ == b.name@
    &&& a.index == b.index
    &&& a.levels@ == b.levels@
    &&& a.linkers@ == b.linkers@
}

/// The stable parts of a parse relation carry over to any group with the
/// same stable fields, whatever happened to its subgroups.
proof fn lemma_shallow_rel_transfer(j: JsValue, dir: Link, a: Group, b: Group)
    requires
        group_shallow_rel(j, dir, a),
        same_but_subgroups(b, a),
    ensures
        group_shallow_rel(j, dir, b),
{
}

/// The document stored under a path, a missing one reading as null.
pub open spec fn doc_at(docs: Seq<(String, JsValue)>, key: Seq<char>) -> JsValue {
    match spec_obj_get(docs, key) {
        Some(d) => d,
        None => JsValue::Null,
    }
}

/// The document a linker names.
pub open spec fn linker_doc(docs: Seq<(String, JsValue)>, lk: Linker) -> JsValue {
    doc_at(docs, lk.path.0@ + lk.filename@)
}

/// Whether the catalogue tree holds a group with this index, at its root
/// or anywhere below.
pub open spec fn tree_has_group(g: Group, group_index: i64) -> bool
    decreases g, 1int,
{
    g.index == group_index || subtrees_have_group(
        g.groups@,
        g.groups@.len() as int,
        group_index,
    )
}

/// Whether one of the first `p` subtrees holds a group with this index.
pub open spec fn subtrees_have_group(groups: Seq<Group>, p: int, group_index: i64) -> bool
    decreases groups, 0int,
{
    exists|t: int| 0 <= t < p && t < groups.len() && tree_has_group(#[trigger] groups[t], group_index)
}

/// Whether the catalogue tree holds, in a group with this index, a level
/// with this index whose library path reads as this text.
pub open spec fn tree_has_level_link(
    g: Group,
    group_index: i64,
    level_index: i64,
    path: Seq<char>,
) -> bool
    decreases g, 1int,
{
    (g.index == group_index && exists|i: int|
        0 <= i < g.levels@.len() && (#[trigger] g.levels@[i]).index == level_index
            && g.levels@[i].filename.0@ == path) || subtrees_have_level_link(
        g.groups@,
        g.groups@.len() as int,
        group_index,
        level_index,
        path,
    )
}

/// Whether the catalogue tree holds, in a group with this index, a
/// level with this index, whatever its library path.
pub open spec fn tree_has_level(g: Group, group_index: i64, level_index: i64) -> bool {
    exists|pth: Seq<char>| tree_has_level_link(g, group_index, level_index, pth)
}

/// Whether one of the first `p` subtrees holds such a level.
pub open spec fn subtrees_have_level_link(
    groups: Seq<Group>,
    p: int,
    group_index: i64,
    level_index: i64,
    path: Seq<char>,
) -> bool
    decreases groups, 0int,
{
    exists|t: int|
        0 <= t < p && t < groups.len() && tree_has_level_link(
            #[trigger] groups[t],
            group_index,
            level_index,
            path,
        )
}

/// A member value of an object is structurally part of the object.
proof fn lemma_obj_get_is_member(fields: Seq<(String, JsValue)>, key: Seq<char>)
    ensures
        spec_obj_get(fields, key) matches Some(v) ==> exists|k: int|
            0 <= k < fields.len() && #[trigger] fields[k].1 == v,
    decreases fields.len(),
{
    if fields.len() > 0 && fields[0].0@ != key {
        lemma_obj_get_is_member(fields.drop_first(), key);
        match spec_obj_get(fields, key) {
            Some(v) => {
                let k = choose|k: int|
                    0 <= k < fields.drop_first().len() && #[trigger] fields.drop_first()[k].1
                        == v;
                assert(fields[k + 1].1 == v);
            },
            None => (),
        }
    }
}

impl Level {
    /// Parse one level entry of a group whose directory is `dir`.
    pub fn get(dir: &Link, j: &JsValue, ids: &mut IdGen) -> (lv: Level)
        ensures
            level_rel(*j, *dir, lv),
    {
        let file_part = js_obj_str(j, "filename", "").to_owned();
        let filename = dir.with(file_part.as_str());
        let name = js_obj_str(j, "name", "").to_owned();
        let d = ids.next_id();
        let idx = js_obj_num(j, "index", d);
        let index = ids.with_id(idx);
        Level { filename, name, index }
    }
}

impl Linker {
    /// Parse one linker entry of a group whose directory is `dir`.
    pub fn get(dir: &Link, j: &JsValue) -> (lk: Linker)
        ensures
            linker_rel(*j, *dir, lk),
    {
        let dir_part = js_obj_str(j, "path", "").to_owned();
        let path = dir.with(dir_part.as_str());
        let filename = js_obj_str(j, "filename", "levels.json").to_owned();
        Linker { path, filename }
    }
}

impl Group {
    /// Parse a group document: its own members, its levels and linkers,
    /// and, one document level down at a time, its subgroups.
    pub fn get(dir: &Link, j: &JsValue, ids: &mut IdGen) -> (g: Group)
        ensures
            group_rel(*j, *dir, g),
        decreases *j,
    {
        let dir_part = js_obj_str(j, "path", "").to_owned();
        let path = dir.with(dir_part.as_str());
        let name = js_obj_str(j, "name", "").to_owned();
        let d = ids.next_id();
        let idx = js_obj_num(j, "index", d);
        let index = ids.with_id(idx);
        let mut levels: Vec<Level> = Vec::new();
        match js_obj_arr(j, "levels") {
            Some(arr) => {
                let n = arr.len();
                let mut i: usize = 0;
                while i < n
                    invariant
                        i <= n,
                        n == arr@.len(),
                        spec_obj_get_arr(*j, "levels"@) == Some(arr@),
                        levels@.len() == i,
                        forall|k: int|
                            0 <= k < i ==> level_rel(arr@[k], path, #[trigger] levels@[k]),
                    decreases n - i,
                {
                    let lv = Level::get(&path, &arr[i], ids);
                    levels.push(lv);
                    i = i + 1;
                }
            },
            None => (),
        }
        let mut linkers: Vec<Linker> = Vec::new();
        match js_obj_arr(j, "linkers") {
            Some(arr) => {
                let n = arr.len();
                let mut i: usize = 0;
                while i < n
                    invariant
                        i <= n,
                        n == arr@.len(),
                        spec_obj_get_arr(*j, "linkers"@) == Some(arr@),
                        linkers@.len() == i,
                        forall|k: int|
                            0 <= k < i ==> linker_rel(arr@[k], path, #[trigger] linkers@[k]),
                    decreases n - i,
                {
                    let lk = Linker::get(&path, &arr[i]);
                    linkers.push(lk);
                    i = i + 1;
                }
            },
            None => (),
        }
        let mut groups: Vec<Group> = Vec::new();
        match js_obj_arr(j, "groups") {
            Some(arr) => {
                let n = arr.len();
                let mut i: usize = 0;
                while i < n
                    invariant
                        i <= n,
                        n == arr@.len(),
                        spec_obj_get_arr(*j, "groups"@) == Some(arr@),
                        groups@.len() == i,
                    decreases n - i,
                {
                    proof {
                        lemma_member_decreases(*j, "groups"@, arr@, i as int);
                    }
                    let sub = Group::get(&path, &arr[i], ids);
                    groups.push(sub);
                    i = i + 1;
                }
            },
            None => (),
        }
        Group { path, name, index, levels, groups, linkers }
    }

    /// Follow every linker: parse the catalogue file it names — handed in
    /// among `docs`, a missing one reading as null — into a new subgroup
    /// appended after the ones already there, then do the same inside
    /// every subgroup, down to `fuel` levels of linking.  The group's own
    /// members and levels stay as they are, and each appended subgroup's
    /// stable parts parse from its linker's document.
    pub fn find(&mut self, docs: &Vec<(String, JsValue)>, ids: &mut IdGen, fuel: u64)
        ensures
            fuel == 0 ==> *final(self) == *old(self),
            final(self).path == old(self).path,
            final(self).name@ == old(self).name@,
            final(self).index == old(self).index,
            final(self).levels@ == old(self).levels@,
            final(self).linkers@ == old(self).linkers@,
            fuel >= 1 ==> final(self).groups@.len() == old(self).groups@.len() + old(
                self,
            ).linkers@.len(),
            fuel >= 1 ==> forall|t: int|
                0 <= t < old(self).linkers@.len() ==> group_shallow_rel(
                    linker_doc(docs@, #[trigger] old(self).linkers@[t]),
                    old(self).linkers@[t].path,
                    final(self).groups@[old(self).groups@.len() + t],
                ),
        decreases fuel,
    {
        if fuel == 0 {
            return ;
        }
        let n = self.linkers.len();
        let mut i: usize = 0;
        let ghost s0 = *self;
        while i < n
            invariant
                i <= n,
                self.path == s0.path,
                self.name@ == s0.name@,
                self.index == s0.index,
                self.levels@ == s0.levels@,
                self.linkers@ == s0.linkers@,
                n == self.linkers@.len(),
                self.groups@.len() == s0.groups@.len() + i,
                forall|t: int| 0 <= t < s0.groups@.len() ==> self.groups@[t] == s0.groups@[t],
                forall|t: int|
                    0 <= t < i ==> group_rel(
                        linker_doc(docs@, #[trigger] s0.linkers@[t]),
                        s0.linkers@[t].path,
                        self.groups@[s0.groups@.len() + t],
                    ),
            decreases n - i,
        {
            let key = self.linkers[i].path.with(self.linkers[i].filename.as_str());
            let parsed = match obj_get(docs, key.path().as_str()) {
                Some(doc) => Group::get(&self.linkers[i].path, doc, ids),
                None => {
                    let null_doc = JsValue::Null;
                    Group::get(&self.linkers[i].path, &null_doc, ids)
                },
            };
            self.groups.push(parsed);
            i = i + 1;
        }
        let mut done: Vec<Group> = Vec::new();
        let ghost mid = *self;
        while self.groups.len() > 0
            invariant
                self.path == mid.path,
                self.name@ == mid.name@,
                self.index == mid.index,
                self.levels@ == mid.levels@,
                self.linkers@ == mid.linkers@,
                fuel >= 1,
                done@.len() + self.groups@.len() == mid.groups@.len(),
                self.groups@ == mid.groups@.subrange(done@.len() as int, mid.groups@.len() as int),
                forall|t: int|
                    0 <= t < done@.len() ==> same_but_subgroups(
                        #[trigger] done@[t],
                        mid.groups@[t],
                    ),
            decreases self.groups@.len(),
        {
            let mut g = self.groups.remove(0);
            proof {
                assert(g == mid.groups@[done@.len() as int]);
                assert(self.groups@ =~= mid.groups@.subrange(
                    done@.len() as int + 1,
                    mid.groups@.len() as int,
                ));
            }
            g.find(docs, ids, fuel - 1);
            done.push(g);
        }
        self.groups = done;
        proof {
            assert forall|t: int| 0 <= t < s0.linkers@.len() implies group_shallow_rel(
                linker_doc(docs@, #[trigger] s0.linkers@[t]),
                s0.linkers@[t].path,
                self.groups@[s0.groups@.len() + t],
            ) by {
                let parsed_one = mid.groups@[s0.groups@.len() + t];
                assert(group_rel(
                    linker_doc(docs@, s0.linkers@[t]),
                    s0.linkers@[t].path,
                    parsed_one,
                ));
                assert(same_but_subgroups(self.groups@[s0.groups@.len() + t], parsed_one));
                lemma_shallow_rel_transfer(
                    linker_doc(docs@, s0.linkers@[t]),
                    s0.linkers@[t].path,
                    parsed_one,
                    self.groups@[s0.groups@.len() + t],
                );
            }
        }
    }

    /// Fold this group and everything below it into the collection:
    /// register the group, then its levels, then every subgroup in turn.
    /// Every group index of the tree ends up registered, and every level
    /// index of the tree ends up in its group.
    pub fn collect(&self, collections: &mut CollectedGame)
        ensures
            final(collections).name@ == old(collections).name@,
            forall|k: i64| has_group(*old(collections), k) ==> has_group(*final(collections), k),
            forall|k: i64, l: i64|
                has_level(*old(collections), k, l) ==> has_level(*final(collections), k, l),
            has_group(*final(collections), self.index),
            forall|i: int|
                0 <= i < self.levels@.len() ==> has_level(
                    *final(collections),
                    self.index,
                    #[trigger] self.levels@[i].index,
                ),
            forall|k: i64| tree_has_group(*self, k) ==> has_group(*final(collections), k),
            forall|k: i64, l: i64|
                tree_has_level(*self, k, l) ==> has_level(*final(collections), k, l),
        decreases *self,
    {
        let group_index = self.index;
        collections.new_group(group_index, &self.name);
        let n = self.levels.len();
        let mut i: usize = 0;
        while i < n
            invariant
                i <= n,
                n == self.levels@.len(),
                collections.name@ == old(collections).name@,
                forall|k: i64|
                    has_group(*old(collections), k) ==> has_group(*collections, k),
                forall|k: i64, l: i64|
                    has_level(*old(collections), k, l) ==> has_level(*collections, k, l),
                has_group(*collections, group_index),
                forall|k: int|
                    0 <= k < i ==> has_level(
                        *collections,
                        group_index,
                        #[trigger] self.levels@[k].index,
                    ),
            decreases n - i,
        {
            let link = self.levels[i].filename.with("");
            collections.new_level(group_index, self.levels[i].index, &self.levels[i].name, link);
            i = i + 1;
        }
        let m = self.groups.len();
        let mut gi: usize = 0;
        while gi < m
            invariant
                gi <= m,
                m == self.groups@.len(),
                collections.name@ == old(collections).name@,
                forall|k: i64|
                    has_group(*old(collections), k) ==> has_group(*collections, k),
                forall|k: i64, l: i64|
                    has_level(*old(collections), k, l) ==> has_level(*collections, k, l),
                has_group(*collections, group_index),
                forall|k: int|
                    0 <= k < self.levels@.len() ==> has_level(
                        *collections,
                        group_index,
                        #[trigger] self.levels@[k].index,
                    ),
                forall|k: i64|
                    subtrees_have_group(self.groups@, gi as int, k) ==> has_group(
                        *collections,
                        k,
                    ),
                forall|k: i64, l: i64, pth: Seq<char>|
                    #[trigger] subtrees_have_level_link(self.groups@, gi as int, k, l, pth)
                        ==> has_level(*collections, k, l),
            decreases m - gi,
        {
            let ghost c_before = *collections;
            proof {
                assert(decreases_to!(*self => self.groups@[gi as int]));
            }
            let sub = &self.groups[gi];
            sub.collect(collections);
            proof {
                assert forall|k: i64|
                    subtrees_have_group(self.groups@, gi as int + 1, k) implies has_group(
                    *collections,
                    k,
                ) by {
                    let t = choose|t: int|
                        0 <= t < gi as int + 1 && t < self.groups@.len() && tree_has_group(
                            #[trigger] self.groups@[t],
                            k,
                        );
                    if t < gi as int {
                        assert(has_group(c_before, k));
                    } else {
                        assert(tree_has_group(self.groups@[gi as int], k));
                    }
                }
                assert forall|k: i64, l: i64, pth: Seq<char>|
                    #[trigger] subtrees_have_level_link(
                        self.groups@,
                        gi as int + 1,
                        k,
                        l,
                        pth,
                    ) implies has_level(*collections, k, l) by {
                    let t = choose|t: int|
                        0 <= t < gi as int + 1 && t < self.groups@.len() && tree_has_level_link(
                            #[trigger] self.groups@[t],
                            k,
                            l,
                            pth,
                        );
                    if t < gi as int {
                        assert(subtrees_have_level_link(self.groups@, gi as int, k, l, pth));
                        assert(has_level(c_before, k, l));
                    } else {
                        assert(tree_has_level_link(self.groups@[gi as int], k, l, pth));
                        assert(tree_has_level(self.groups@[gi as int], k, l));
                    }
                }
            }
            gi = gi + 1;
        }
        proof {
            assert forall|k: i64| tree_has_group(*self, k) implies has_group(
                *collections,
                k,
            ) by {
                if k != self.index {
                    assert(subtrees_have_group(self.groups@, self.groups@.len() as int, k));
                }
            }
            assert forall|k: i64, l: i64| tree_has_level(*self, k, l) implies has_level(
                *collections,
                k,
                l,
            ) by {
                let pth = choose|pth: Seq<char>| tree_has_level_link(*self, k, l, pth);
                if self.index == k && exists|i: int|
                    0 <= i < self.levels@.len() && (#[trigger] self.levels@[i]).index == l
                        && self.levels@[i].filename.0@ == pth {
                    let i = choose|i: int|
                        0 <= i < self.levels@.len() && (#[trigger] self.levels@[i]).index == l
                            && self.levels@[i].filename.0@ == pth;
                    assert(has_level(*collections, group_index, self.levels@[i].index));
                } else {
                    assert(subtrees_have_level_link(
                        self.groups@,
                        self.groups@.len() as int,
                        k,
                        l,
                        pth,
                    ));
                }
            }
        }
    }
}

/// A subgroup is structurally below its group, so folding recurses down
/// the tree.
proof fn lemma_member_decreases(j: JsValue, key: Seq<char>, arr: Seq<JsValue>, i: int)
    requires
        spec_obj_get_arr(j, key) == Some(arr),
        0 <= i < arr.len(),
    ensures
        decreases_to!(j => arr[i]),
{
    let fields = j->Obj_0;
    lemma_obj_get_is_member(fields@, key);
    let member = choose|k: int| 0 <= k < fields@.len() && #[trigger] fields@[k].1 == spec_obj_get(
        fields@,
        key,
    )->0;
    assert(decreases_to!(j => fields));
    assert(decreases_to!(fields => fields@[member]));
    assert(decreases_to!(fields@[member] => fields@[member].1));
    let v = fields@[member].1;
    assert(v matches JsValue::Arr(items) && items@ == arr);
    assert(decreases_to!(v => v->Arr_0));
    assert(decreases_to!(v->Arr_0 => arr[i]));
}

impl Game {
    /// Parse the root catalogue document.
    pub fn get(dir: &Link, j: &JsValue, ids: &mut IdGen) -> (g: Game)
        ensures
            group_rel(*j, *dir, g.0),
    {
        Game(Group::get(dir, j, ids))
    }

    /// Follow every linker of the whole catalogue: one new subgroup per
    /// linker of the root, its stable parts parsed from the linked
    /// document, and so on below.
    pub fn find(&mut self, docs: &Vec<(String, JsValue)>, ids: &mut IdGen, fuel: u64)
        ensures
            final(self).0.path == old(self).0.path,
            final(self).0.name@ == old(self).0.name@,
            final(self).0.index == old(self).0.index,
            final(self).0.levels@ == old(self).0.levels@,
            final(self).0.linkers@ == old(self).0.linkers@,
            fuel >= 1 ==> final(self).0.groups@.len() == old(self).0.groups@.len() + old(
                self,
            ).0.linkers@.len(),
            fuel >= 1 ==> forall|t: int|
                0 <= t < old(self).0.linkers@.len() ==> group_shallow_rel(
                    linker_doc(docs@, #[trigger] old(self).0.linkers@[t]),
                    old(self).0.linkers@[t].path,
                    final(self).0.groups@[old(self).0.groups@.len() + t],
                ),
    {
        self.0.find(docs, ids, fuel);
    }

    /// Collect the playable index: fold the whole tree in, then prune
    /// what cannot be played.  Every group of the result still holds at
    /// least one level, and every level's library file exists; and the
    /// result is exactly a pruning of a collection that registered every
    /// group index and level index of the tree.
    pub fn collect(&self, files: &Vec<String>) -> (r: CollectedGame)
        ensures
            r.name@ == self.0.name@,
            forall|i: int|
                0 <= i < r.groups@.len() ==> #[trigger] r.groups@[i].1.levels@.len() != 0,
            forall|i: int, l: int|
                0 <= i < r.groups@.len() && 0 <= l < r.groups@[i].1.levels@.len()
                    ==> valid_path(
                    files.deep_view(),
                    #[trigger] r.groups@[i].1.levels@[l].1.link.0@,
                ),
            exists|c0: CollectedGame|
                ({
                    &&& #[trigger] c0.name@ == self.0.name@
                    &&& forall|k: i64| tree_has_group(self.0, k) ==> has_group(c0, k)
                    &&& forall|k: i64, l: i64|
                        tree_has_level(self.0, k, l) ==> has_level(c0, k, l)
                    &&& cleaned_from(c0.groups@, files.deep_view(), r.groups@)
                }),
    {
        let mut collection = CollectedGame::new(&self.0.name);
        self.0.collect(&mut collection);
        let ghost before = collection;
        collection.clean(files);
        proof {
            let g0 = before.groups@;
            let fv = files.deep_view();
            assert forall|i: int|
                0 <= i < collection.groups@.len() implies #[trigger] collection.groups@[i].1.levels@.len()
                != 0 by {
                assert(cleaned_entry_upto(g0, fv, g0.len() as int, collection.groups@[i]));
            }
            assert forall|i: int, l: int|
                0 <= i < collection.groups@.len() && 0 <= l
                    < collection.groups@[i].1.levels@.len() implies valid_path(
                fv,
                #[trigger] collection.groups@[i].1.levels@[l].1.link.0@,
            ) by {
                assert(cleaned_entry_upto(g0, fv, g0.len() as int, collection.groups@[i]));
                let k = choose|k: int|
                    0 <= k < g0.len() && collection.groups@[i].0 == #[trigger] g0[k].0
                        && collection.groups@[i].1.name@ == g0[k].1.name@
                        && collection.groups@[i].1.levels@ == kept_levels(g0[k].1.levels@, fv)
                        && collection.groups@[i].1.levels@.len() != 0;
                lemma_kept_levels_valid(g0[k].1.levels@, fv, l);
            }
        }
        collection
    }
}

/// Every level that survives the pruning has a library file that exists.
proof fn lemma_kept_levels_valid(
    levels: Seq<(i64, CollectedLevel)>,
    files: Seq<Seq<char>>,
    l: int,
)
    requires
        0 <= l < kept_levels(levels, files).len(),
    ensures
        valid_path(files, kept_levels(levels, files)[l].1.link.0@),
{
    broadcast use vstd::seq_lib::group_filter_ensures;

}

/// One collected level: its name, and the path of its library.
#[derive(Debug)]
pub struct CollectedLevel {
    /// The display name.
    pub name: String,
    /// The path of the level's library.
    pub link: Link,
}

impl CollectedLevel {
    /// A collected level.
    pub fn new(name: &String, link: Link) -> (r: Self)
        ensures
            r.name@ == name@,
            r.link == link,
    {
        CollectedLevel { name: name.clone(), link }
    }
}

impl Clone for CollectedLevel {
    /// An exact copy.
    fn clone(&self) -> (r: Self)
        ensures
            r == *self,
    {
        CollectedLevel { name: self.name.clone(), link: self.link.clone() }
    }
}

/// One collected group: its name and its levels, each under its index.
#[derive(Debug)]
pub struct CollectedGroup {
    /// The display name.
    pub name: String,
    /// The group's levels, each under its index.
    pub levels: Vec<(i64, CollectedLevel)>,
}

impl CollectedGroup {
    /// A collected group with no levels yet.
    pub fn new(name: &String) -> (r: Self)
        ensures
            r.name@ == name@,
            r.levels@ =~= Seq::<(i64, CollectedLevel)>::empty(),
    {
        CollectedGroup { name: name.clone(), levels: Vec::new() }
    }
}

/// The collected level index the game plays from: groups under their
/// indexes, each holding levels under theirs.
#[derive(Debug)]
pub struct CollectedGame {
    /// The catalogue's name.
    pub name: String,
    /// The groups, each under its index.
    pub groups: Vec<(i64, CollectedGroup)>,
}

/// Whether a key occurs in an index-keyed list.
pub open spec fn assoc_has<V>(entries: Seq<(i64, V)>, key: i64) -> bool {
    exists|i: int| 0 <= i < entries.len() && entries[i].0 == key
}

/// Whether the collection holds a group under this index.
pub open spec fn has_group(c: CollectedGame, group_index: i64) -> bool {
    assoc_has(c.groups@, group_index)
}

/// Whether the collection holds, under this group index, a level under
/// this level index.
pub open spec fn has_level(c: CollectedGame, group_index: i64, level_index: i64) -> bool {
    exists|i: int, j: int|
        0 <= i < c.groups@.len() && c.groups@[i].0 == group_index && 0 <= j
            < c.groups@[i].1.levels@.len() && c.groups@[i].1.levels@[j].0 == level_index
}

/// Whether the collection holds, under this group index, a level under
/// this level index whose library path reads as this text.
pub open spec fn has_level_link(
    c: CollectedGame,
    group_index: i64,
    level_index: i64,
    path: Seq<char>,
) -> bool {
    exists|i: int, j: int|
        0 <= i < c.groups@.len() && c.groups@[i].0 == group_index && 0 <= j
            < c.groups@[i].1.levels@.len() && c.groups@[i].1.levels@[j].0 == level_index
            && c.groups@[i].1.levels@[j].1.link.0@ == path
}

impl CollectedGame {
    /// An empty collection.
    pub fn new(name: &String) -> (r: Self)
        ensures
            r.name@ == name@,
            r.groups@ =~= Seq::<(i64, CollectedGroup)>::empty(),
    {
        CollectedGame { name: name.clone(), groups: Vec::new() }
    }

    /// Find the position of a group by its index.
    fn find_group(&self, group_index: i64) -> (r: Option<usize>)
        ensures
            match r {
                Some(i) => i < self.groups@.len() && self.groups@[i as int].0 == group_index,
                None => !has_group(*self, group_index),
            },
    {
        let n = self.groups.len();
        let mut i: usize = 0;
        while i < n
            invariant
                i <= n,
                n == self.groups@.len(),
                forall|j: int| 0 <= j < i ==> self.groups@[j].0 != group_index,
            decreases n - i,
        {
            if self.groups[i].0 == group_index {
                return Some(i);
            }
            i = i + 1;
        }
        None
    }

    /// Register a group under its index: a group already there keeps its
    /// levels and gets the name; a new one starts empty.  No group or
    /// level is ever lost.
    pub fn new_group(&mut self, group_index: i64, name: &String)
        ensures
            final(self).name@ == old(self).name@,
            has_group(*final(self), group_index),
            forall|k: i64| has_group(*old(self), k) ==> has_group(*final(self), k),
            forall|k: i64, l: i64|
                has_level(*old(self), k, l) ==> has_level(*final(self), k, l),
            forall|k: i64, l: i64, pth: Seq<char>|
                has_level_link(*old(self), k, l, pth) ==> has_level_link(*final(self), k, l, pth),
    {
        let ghost g0 = self.groups@;
        match self.find_group(group_index) {
            Some(i) => {
                let entry = self.groups.remove(i);
                let renamed = CollectedGroup { name: name.clone(), levels: entry.1.levels };
                let ghost x = (entry.0, renamed);
                self.groups.insert(i, (entry.0, renamed));
                proof {
                    assert(self.groups@ =~= g0.update(i as int, x));
                    assert(x.0 == g0[i as int].0);
                    assert(x.1.levels@ == g0[i as int].1.levels@);
                    assert forall|k: i64| has_group(*old(self), k) implies has_group(
                        *self,
                        k,
                    ) by {
                        let w = choose|w: int| 0 <= w < g0.len() && g0[w].0 == k;
                        assert(self.groups@[w].0 == k);
                    }
                    assert forall|k: i64, l: i64| has_level(*old(self), k, l) implies has_level(
                        *self,
                        k,
                        l,
                    ) by {
                        let (w, v) = choose|w: int, v: int|
                            0 <= w < g0.len() && g0[w].0 == k && 0 <= v
                                < g0[w].1.levels@.len() && g0[w].1.levels@[v].0 == l;
                        assert(self.groups@[w].0 == k);
                        assert(self.groups@[w].1.levels@[v].0 == l);
                    }
                    assert forall|k: i64, l: i64, pth: Seq<char>|
                        has_level_link(*old(self), k, l, pth) implies has_level_link(
                        *self,
                        k,
                        l,
                        pth,
                    ) by {
                        let (w, v) = choose|w: int, v: int|
                            0 <= w < g0.len() && g0[w].0 == k && 0 <= v
                                < g0[w].1.levels@.len() && g0[w].1.levels@[v].0 == l
                                && g0[w].1.levels@[v].1.link.0@ == pth;
                        assert(self.groups@[w].0 == k);
                        assert(self.groups@[w].1.levels@[v].0 == l);
                        assert(self.groups@[w].1.levels@[v].1.link.0@ == pth);
                    }
                }
            },
            None => {
                self.groups.push((group_index, CollectedGroup::new(name)));
                proof {
                    assert(self.groups@ =~= g0.push(self.groups@.last()));
                    assert forall|k: i64| has_group(*old(self), k) implies has_group(
                        *self,
                        k,
                    ) by {
                        let w = choose|w: int| 0 <= w < g0.len() && g0[w].0 == k;
                        assert(self.groups@[w].0 == k);
                    }
                    assert forall|k: i64, l: i64| has_level(*old(self), k, l) implies has_level(
                        *self,
                        k,
                        l,
                    ) by {
                        let (w, v) = choose|w: int, v: int|
                            0 <= w < g0.len() && g0[w].0 == k && 0 <= v
                                < g0[w].1.levels@.len() && g0[w].1.levels@[v].0 == l;
                        assert(self.groups@[w].0 == k);
                        assert(self.groups@[w].1.levels@[v].0 == l);
                    }
                    assert forall|k: i64, l: i64, pth: Seq<char>|
                        has_level_link(*old(self), k, l, pth) implies has_level_link(
                        *self,
                        k,
                        l,
                        pth,
                    ) by {
                        let (w, v) = choose|w: int, v: int|
                            0 <= w < g0.len() && g0[w].0 == k && 0 <= v
                                < g0[w].1.levels@.len() && g0[w].1.levels@[v].0 == l
                                && g0[w].1.levels@[v].1.link.0@ == pth;
                        assert(self.groups@[w].0 == k);
                        assert(self.groups@[w].1.levels@[v].0 == l);
                        assert(self.groups@[w].1.levels@[v].1.link.0@ == pth);
                    }
                }
            },
        }
    }

    /// Put a level into its group: the level goes in under its index when
    /// the group is registered — an index already taken has its entry
    /// replaced, the last write winning as it would in a map — while a
    /// level of an unregistered group only opens a group named after the
    /// level, and the level itself is not kept: exactly the behaviour
    /// callers rely on `collect` to avoid by registering every group
    /// first.  No group, and no level key, is ever lost.
    pub fn new_level(&mut self, group_index: i64, index: i64, name: &String, link: Link)
        ensures
            final(self).name@ == old(self).name@,
            forall|k: i64| has_group(*old(self), k) ==> has_group(*final(self), k),
            forall|k: i64, l: i64|
                has_level(*old(self), k, l) ==> has_level(*final(self), k, l),
            has_group(*final(self), group_index) || !has_group(*old(self), group_index),
            has_group(*old(self), group_index) ==> has_level_link(
                *final(self),
                group_index,
                index,
                link.0@,
            ),
            !has_group(*old(self), group_index) ==> has_group(*final(self), group_index),
            forall|k: i64, l: i64, pth: Seq<char>|
                !(k == group_index && l == index) && has_level_link(*old(self), k, l, pth)
                    ==> has_level_link(*final(self), k, l, pth),
    {
        let ghost g0 = self.groups@;
        match self.find_group(group_index) {
            Some(i) => {
                let entry = self.groups.remove(i);
                let mut levels = entry.1.levels;
                let ghost lvs0 = levels@;
                let new_level_entry = CollectedLevel::new(name, link);
                let ghost nl = new_level_entry;
                put_level(&mut levels, index, new_level_entry);
                let ghost lvs1 = levels@;
                let grown = CollectedGroup { name: entry.1.name, levels };
                let ghost x = (entry.0, grown);
                self.groups.insert(i, (entry.0, grown));
                proof {
                    assert(self.groups@ =~= g0.update(i as int, x));
                    assert(x.0 == g0[i as int].0);
                    assert(lvs0 == g0[i as int].1.levels@);
                    assert(self.groups@[i as int].0 == group_index);
                    assert(self.groups@[i as int].1.levels@ == lvs1);
                    if exists|j: int| 0 <= j < lvs0.len() && #[trigger] lvs0[j].0 == index {
                        let j = choose|j: int|
                            0 <= j < lvs0.len() && lvs0[j].0 == index && lvs1 == lvs0.update(
                                j,
                                (index, nl),
                            );
                        assert(lvs1[j].0 == index && lvs1[j].1.link.0@ == link.0@);
                        assert(has_level_link(*self, group_index, index, link.0@));
                    } else {
                        assert(lvs1 == lvs0.push((index, nl)));
                        let j = lvs1.len() - 1;
                        assert(lvs1[j].0 == index && lvs1[j].1.link.0@ == link.0@);
                        assert(has_level_link(*self, group_index, index, link.0@));
                    }
                    assert forall|k: i64| has_group(*old(self), k) implies has_group(
                        *self,
                        k,
                    ) by {
                        let w = choose|w: int| 0 <= w < g0.len() && g0[w].0 == k;
                        assert(self.groups@[w].0 == k);
                    }
                    assert forall|k: i64, l: i64| has_level(*old(self), k, l) implies has_level(
                        *self,
                        k,
                        l,
                    ) by {
                        let (w, v) = choose|w: int, v: int|
                            0 <= w < g0.len() && g0[w].0 == k && 0 <= v
                                < g0[w].1.levels@.len() && g0[w].1.levels@[v].0 == l;
                        assert(self.groups@[w].0 == k);
                        assert(self.groups@[w].1.levels@[v].0 == l);
                    }
                    assert forall|k: i64, l: i64, pth: Seq<char>|
                        !(k == group_index && l == index) && has_level_link(
                            *old(self),
                            k,
                            l,
                            pth,
                        ) implies has_level_link(*self, k, l, pth) by {
                        let (w, v) = choose|w: int, v: int|
                            0 <= w < g0.len() && g0[w].0 == k && 0 <= v
                                < g0[w].1.levels@.len() && g0[w].1.levels@[v].0 == l
                                && g0[w].1.levels@[v].1.link.0@ == pth;
                        if w == i {
                            assert(l != index);
                            if exists|j0: int| 0 <= j0 < lvs0.len() && #[trigger] lvs0[j0].0
                                == index {
                                let j0 = choose|j0: int|
                                    0 <= j0 < lvs0.len() && lvs0[j0].0 == index && lvs1
                                        == lvs0.update(j0, (index, nl));
                                assert(v != j0);
                                assert(lvs1[v] == lvs0[v]);
                            } else {
                                assert(lvs1 == lvs0.push((index, nl)));
                                assert(lvs1[v] == lvs0[v]);
                            }
                            assert(self.groups@[w].0 == k);
                            assert(self.groups@[w].1.levels@[v].0 == l);
                            assert(self.groups@[w].1.levels@[v].1.link.0@ == pth);
                        } else {
                            assert(self.groups@[w].0 == k);
                            assert(self.groups@[w].1.levels@[v].0 == l);
                            assert(self.groups@[w].1.levels@[v].1.link.0@ == pth);
                        }
                    }
                }
            },
            None => {
                self.groups.push((group_index, CollectedGroup::new(name)));
                proof {
                    assert(self.groups@ =~= g0.push(self.groups@.last()));
                    assert forall|k: i64| has_group(*old(self), k) implies has_group(
                        *self,
                        k,
                    ) by {
                        let w = choose|w: int| 0 <= w < g0.len() && g0[w].0 == k;
                        assert(self.groups@[w].0 == k);
                    }
                    assert forall|k: i64, l: i64| has_level(*old(self), k, l) implies has_level(
                        *self,
                        k,
                        l,
                    ) by {
                        let (w, v) = choose|w: int, v: int|
                            0 <= w < g0.len() && g0[w].0 == k && 0 <= v
                                < g0[w].1.levels@.len() && g0[w].1.levels@[v].0 == l;
                        assert(self.groups@[w].0 == k);
                        assert(self.groups@[w].1.levels@[v].0 == l);
                    }
                    assert forall|k: i64, l: i64, pth: Seq<char>|
                        !(k == group_index && l == index) && has_level_link(
                            *old(self),
                            k,
                            l,
                            pth,
                        ) implies has_level_link(*self, k, l, pth) by {
                        let (w, v) = choose|w: int, v: int|
                            0 <= w < g0.len() && g0[w].0 == k && 0 <= v
                                < g0[w].1.levels@.len() && g0[w].1.levels@[v].0 == l
                                && g0[w].1.levels@[v].1.link.0@ == pth;
                        assert(self.groups@[w].0 == k);
                        assert(self.groups@[w].1.levels@[v].0 == l);
                        assert(self.groups@[w].1.levels@[v].1.link.0@ == pth);
                    }
                }
            },
        }
    }

    /// Prune the collection to what can actually be played: every level
    /// whose library file does not exist falls out, and every group left
    /// with no level falls out whole.  It cleans; it does not clear.
    #[verifier::rlimit(100)]
    pub fn clean(&mut self, files: &Vec<String>)
        ensures
            final(self).name@ == old(self).name@,
            cleaned_from(old(self).groups@, files.deep_view(), final(self).groups@),
    {
        let ghost filesv = files.deep_view();
        let mut rest: Vec<(i64, CollectedGroup)> = Vec::new();
        core::mem::swap(&mut rest, &mut self.groups);
        let ghost g0 = rest@;
        let mut kept: Vec<(i64, CollectedGroup)> = Vec::new();
        while rest.len() > 0
            invariant
                filesv == files.deep_view(),
                rest@.len() <= g0.len(),
                rest@ == g0.subrange(g0.len() - rest@.len(), g0.len() as int),
                forall|ii: int|
                    0 <= ii < kept@.len() ==> cleaned_entry_upto(
                        g0,
                        filesv,
                        g0.len() - rest@.len(),
                        #[trigger] kept@[ii],
                    ),
                keys_kept_upto(g0, filesv, g0.len() - rest@.len(), kept@),
            decreases rest@.len(),
        {
            let ghost p = g0.len() - rest@.len();
            let entry = rest.remove(0);
            proof {
                assert(entry == g0[p]);
                assert(rest@ =~= g0.subrange(g0.len() - rest@.len(), g0.len() as int));
            }
            let ghost kept0 = kept@;
            let flevels = filter_levels(&entry.1.levels, files);
            let ghost flv = flevels@;
            if flevels.len() > 0 {
                let e = (entry.0, CollectedGroup { name: entry.1.name, levels: flevels });
                kept.push(e);
                proof {
                    let ii = kept@.len() - 1;
                    assert(kept@[ii].0 == g0[p].0);
                    assert(kept@[ii].1.name@ == g0[p].1.name@);
                    assert(kept@[ii].1.levels@ == kept_levels(g0[p].1.levels@, filesv));
                }
            }
            proof {
                assert(keys_kept_upto(g0, filesv, p + 1, kept@)) by {
                    assert forall|k: int|
                        0 <= k < p + 1 && kept_levels(
                            #[trigger] g0[k].1.levels@,
                            filesv,
                        ).len() != 0 implies exists|ii: int|
                        0 <= ii < kept@.len() && kept@[ii].0 == g0[k].0 by {
                        if k < p {
                            let w = choose|w: int|
                                0 <= w < kept0.len() && kept0[w].0 == g0[k].0;
                            assert(kept@[w] == kept0[w]);
                            assert(0 <= w < kept@.len() && kept@[w].0 == g0[k].0);
                        } else {
                            assert(flv.len() != 0);
                            let w = kept@.len() - 1;
                            assert(0 <= w < kept@.len() && kept@[w].0 == g0[p].0);
                        }
                    }
                }
                assert forall|ii: int| 0 <= ii < kept@.len() implies cleaned_entry_upto(
                    g0,
                    filesv,
                    p + 1,
                    #[trigger] kept@[ii],
                ) by {
                    if ii < kept0.len() {
                        assert(cleaned_entry_upto(g0, filesv, p, kept0[ii]));
                        let w = choose|k: int|
                            0 <= k < p && kept0[ii].0 == #[trigger] g0[k].0
                                && kept0[ii].1.name@ == g0[k].1.name@ && kept0[ii].1.levels@
                                == kept_levels(g0[k].1.levels@, filesv)
                                && kept0[ii].1.levels@.len() != 0;
                        assert(kept@[ii] == kept0[ii]);
                        assert(0 <= w < p + 1 && kept@[ii].0 == g0[w].0 && kept@[ii].1.name@
                            == g0[w].1.name@ && kept@[ii].1.levels@ == kept_levels(
                            g0[w].1.levels@,
                            filesv,
                        ) && kept@[ii].1.levels@.len() != 0);
                    } else {
                        assert(kept@[ii].0 == g0[p].0 && kept@[ii].1.name@ == g0[p].1.name@
                            && kept@[ii].1.levels@ == kept_levels(g0[p].1.levels@, filesv)
                            && kept@[ii].1.levels@.len() != 0);
                    }
                }
            }
        }
        let ghost keptv = kept@;
        proof {
            assert(g0.len() - rest@.len() == g0.len());
            assert(g0 == old(self).groups@);
            assert(cleaned_from(g0, filesv, keptv));
        }
        self.groups = kept;
    }
}

/// One entry of a cleaned collection comes from one of the first `p`
/// entries of the collection before cleaning: same key, same name,
/// exactly the levels whose library file exists, and at least one of
/// them.
pub open spec fn cleaned_entry_upto(
    groups0: Seq<(i64, CollectedGroup)>,
    files: Seq<Seq<char>>,
    p: int,
    e: (i64, CollectedGroup),
) -> bool {
    exists|k: int|
        0 <= k < p && e.0 == #[trigger] groups0[k].0 && e.1.name@ == groups0[k].1.name@
            && e.1.levels@ == kept_levels(groups0[k].1.levels@, files) && e.1.levels@.len() != 0
}

/// Each of the first `p` entries of the collection before cleaning with
/// a level whose library file exists keeps its key in the cleaned
/// collection.
pub open spec fn keys_kept_upto(
    groups0: Seq<(i64, CollectedGroup)>,
    files: Seq<Seq<char>>,
    p: int,
    groups1: Seq<(i64, CollectedGroup)>,
) -> bool {
    forall|k: int|
        0 <= k < p && kept_levels(#[trigger] groups0[k].1.levels@, files).len() != 0
            ==> exists|i: int| 0 <= i < groups1.len() && groups1[i].0 == groups0[k].0
}

/// What cleaning leaves: every entry comes from an entry of the
/// collection before cleaning — same key and name, exactly the surviving
/// levels, at least one — and every earlier entry with a surviving level
/// keeps its key.
pub open spec fn cleaned_from(
    groups0: Seq<(i64, CollectedGroup)>,
    files: Seq<Seq<char>>,
    groups1: Seq<(i64, CollectedGroup)>,
) -> bool {
    &&& forall|i: int|
        0 <= i < groups1.len() ==> cleaned_entry_upto(
            groups0,
            files,
            groups0.len() as int,
            #[trigger] groups1[i],
        )
    &&& keys_kept_upto(groups0, files, groups0.len() as int, groups1)
}

/// The levels of a group whose library file exists, in order.
pub open spec fn kept_levels(
    levels: Seq<(i64, CollectedLevel)>,
    files: Seq<Seq<char>>,
) -> Seq<(i64, CollectedLevel)> {
    levels.filter(|e: (i64, CollectedLevel)| valid_path(files, e.1.link.0@))
}

/// How the kept levels grow entry by entry.
proof fn lemma_kept_levels_push(
    levels: Seq<(i64, CollectedLevel)>,
    files: Seq<Seq<char>>,
    x: (i64, CollectedLevel),
)
    ensures
        kept_levels(levels.push(x), files) == if valid_path(files, x.1.link.0@) {
            kept_levels(levels, files).push(x)
        } else {
            kept_levels(levels, files)
        },
{
    reveal_with_fuel(Seq::<_>::filter, 2);
    let s1 = levels.push(x);
    assert(s1.drop_last() =~= levels);
    assert(s1.last() == x);
    if valid_path(files, x.1.link.0@) {
        assert(kept_levels(s1, files) =~= kept_levels(levels, files).push(x));
    } else {
        assert(kept_levels(s1, files) =~= kept_levels(levels, files));
    }
}

/// Store one level under its index in a group's list: an entry already
/// under the index is replaced — the last write wins, as it would in a
/// map — and a fresh index goes at the end.
fn put_level(levels: &mut Vec<(i64, CollectedLevel)>, index: i64, lv: CollectedLevel)
    ensures
        (exists|j: int| 0 <= j < old(levels)@.len() && #[trigger] old(levels)@[j].0 == index)
            ==> exists|j: int|
            0 <= j < old(levels)@.len() && old(levels)@[j].0 == index && final(levels)@ == old(
                levels,
            )@.update(j, (index, lv)),
        !(exists|j: int| 0 <= j < old(levels)@.len() && #[trigger] old(levels)@[j].0 == index)
            ==> final(levels)@ == old(levels)@.push((index, lv)),
{
    let ghost l0 = levels@;
    let n = levels.len();
    let mut j: usize = 0;
    while j < n
        invariant
            j <= n,
            n == l0.len(),
            levels@ == l0,
            l0 == old(levels)@,
            forall|v: int| 0 <= v < j ==> #[trigger] l0[v].0 != index,
        decreases n - j,
    {
        if levels[j].0 == index {
            levels.set(j, (index, lv));
            return ;
        }
        j = j + 1;
    }
    levels.push((index, lv));
}

/// Keep the levels whose library file exists, in order.
fn filter_levels(levels: &Vec<(i64, CollectedLevel)>, files: &Vec<String>) -> (r: Vec<
    (i64, CollectedLevel),
>)
    ensures
        r@ == kept_levels(levels@, files.deep_view()),
{
    let ghost filesv = files.deep_view();
    let mut r: Vec<(i64, CollectedLevel)> = Vec::new();
    let n = levels.len();
    let mut i: usize = 0;
    while i < n
        invariant
            i <= n,
            n == levels@.len(),
            filesv == files.deep_view(),
            r@ == kept_levels(levels@.subrange(0, i as int), filesv),
        decreases n - i,
    {
        let ghost prefix = levels@.subrange(0, i as int);
        let ghost x = levels@[i as int];
        let valid = levels[i].1.link.is_valid(files);
        proof {
            assert(valid == valid_path(filesv, x.1.link.0@));
            lemma_kept_levels_push(prefix, filesv, x);
            assert(prefix.push(x) =~= levels@.subrange(0, i as int + 1));
        }
        if valid {
            let copied = (levels[i].0, levels[i].1.clone());
            proof {
                assert(copied == x);
                assert(r@.push(x) == kept_levels(prefix.push(x), filesv));
            }
            r.push(copied);
        }
        i = i + 1;
    }
    proof {
        assert(levels@.subrange(0, n as int) =~= levels@);
    }
    r
}

impl PartialEq for CollectedGame {
    /// Two collections are the same catalogue when they carry the same
    /// name; the groups do not enter into it.
    fn eq(&self, other: &Self) -> (r: bool) {
        self.name == other.name
    }
}

impl vstd::std_specs::cmp::PartialEqSpecImpl for CollectedGame {
    open spec fn obeys_eq_spec() -> bool {
        true
    }

    open spec fn eq_spec(&self, other: &Self) -> bool {
        self.name@ == other.name@
    }
}

/// How many levels of linker files `get_levels` follows before it stops:
/// a bound in place of the endless chase a cycle of linkers would be.
pub const LINKER_DEPTH: u64 = 64;

/// Build the playable level index from the catalogue file `filename`
/// under `path`: parse it, follow its linkers — every document handed in
/// among `docs` under its full path, to `LINKER_DEPTH` levels — then
/// collect and prune against the files that exist.  Every group of the
/// result holds a level, and every level's library file exists; and the
/// result arises from the root document as the contract's steps say:
/// there is a followed catalogue tree whose stable parts parse from that
/// document, and a collection registering the whole tree, of which the
/// result is exactly the pruning.
pub fn get_levels(
    path: Link,
    filename: &str,
    docs: &Vec<(String, JsValue)>,
    files: &Vec<String>,
) -> (r: CollectedGame)
    ensures
        r.name@ == spec_js_obj_str(doc_at(docs@, path.0@ + filename@), "name"@, ""@),
        forall|i: int|
            0 <= i < r.groups@.len() ==> #[trigger] r.groups@[i].1.levels@.len() != 0,
        forall|i: int, l: int|
            0 <= i < r.groups@.len() && 0 <= l < r.groups@[i].1.levels@.len() ==> valid_path(
                files.deep_view(),
                #[trigger] r.groups@[i].1.levels@[l].1.link.0@,
            ),
        exists|g: Group, c0: CollectedGame|
            ({
                &&& #[trigger] group_shallow_rel(
                    doc_at(docs@, path.0@ + filename@),
                    path,
                    g,
                )
                &&& r.name@ == g.name@
                &&& forall|k: i64| tree_has_group(g, k) ==> has_group(c0, k)
                &&& forall|k: i64, l: i64| tree_has_level(g, k, l) ==> has_level(c0, k, l)
                &&& #[trigger] cleaned_from(c0.groups@, files.deep_view(), r.groups@)
            }),
{
    let mut ids = IdGen::new();
    let key = path.with(filename);
    let mut g = match obj_get(docs, key.path().as_str()) {
        Some(doc) => Game::get(&path, doc, &mut ids),
        None => {
            let null_doc = JsValue::Null;
            Game::get(&path, &null_doc, &mut ids)
        },
    };
    let ghost root0 = g.0;
    proof {
        assert(group_rel(doc_at(docs@, path.0@ + filename@), path, root0));
    }
    g.find(docs, &mut ids, LINKER_DEPTH);
    let ghost tree = g.0;
    let r = g.collect(files);
    proof {
        assert(same_but_subgroups(tree, root0));
        lemma_shallow_rel_transfer(doc_at(docs@, path.0@ + filename@), path, root0, tree);
        let c0 = choose|c0: CollectedGame|
            ({
                &&& #[trigger] c0.name@ == tree.name@
                &&& forall|k: i64| tree_has_group(tree, k) ==> has_group(c0, k)
                &&& forall|k: i64, l: i64| tree_has_level(tree, k, l) ==> has_level(c0, k, l)
                &&& cleaned_from(c0.groups@, files.deep_view(), r.groups@)
            });
        assert(group_shallow_rel(doc_at(docs@, path.0@ + filename@), path, tree));
        assert(cleaned_from(c0.groups@, files.deep_view(), r.groups@));
    }
    r
}

} // verus!
