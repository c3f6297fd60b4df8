//! The loader against well-formed and defective libraries, and the token
//! machinery.

use cube_infinifold::handle::{Pointerable, Pointered, TokenTable};
use cube_infinifold::interface::{
    reaches_init, s2b, LevelInfo, LibraryExports, LoadError, MyInterface, MyInterfaceBuilder,
};
use cube_infinifold::test_level::{append, destory, init, level_info, new, MyStruct};

fn full_exports() -> LibraryExports {
    LibraryExports {
        has_required_included: true,
        required_included: true,
        has_is_ok: true,
        has_init: true,
        init_panics: false,
        has_level_info: true,
        level_info: LevelInfo { id: 2, name: "triangle".to_string(), group: "test".to_string() },
        has_new: true,
        has_destory: true,
        has_get_faces: true,
        has_when_angled: true,
    }
}

#[test]
fn load_conforming_is_ok() {
    let e = full_exports();
    let loaded = MyInterface::load_safe(&e).expect("a conforming library must load");
    assert_eq!(loaded.level_info.id, 2);
    assert_eq!(loaded.level_info.name, "triangle");
    assert_eq!(loaded.level_info.group, "test");
    assert!(loaded.has_is_ok);
    assert!(loaded.has_new);
    assert!(loaded.has_destory);
    assert!(loaded.has_get_faces);
    assert!(loaded.has_when_angled);
}

#[test]
fn load_snapshot_is_a_copy() {
    let mut e = full_exports();
    let loaded = MyInterface::load_safe(&e).unwrap();
    e.level_info.name = "changed later".to_string();
    e.level_info.id = 99;
    assert_eq!(loaded.level_info.name, "triangle");
    assert_eq!(loaded.level_info.id, 2);
}

#[test]
fn load_missing_marker_fails() {
    let mut e = full_exports();
    e.has_required_included = false;
    let err = MyInterface::load_safe(&e).unwrap_err();
    assert_eq!(err, LoadError::MissingMarker);
    assert_eq!(err.message(), "not a valid level library");
}

#[test]
fn load_marker_false_fails() {
    let mut e = full_exports();
    e.required_included = false;
    let err = MyInterface::load_safe(&e).unwrap_err();
    assert_eq!(err, LoadError::MarkerFalse);
    assert_eq!(err.message(), "the library does not include the required exports");
}

#[test]
fn load_missing_is_ok_fails() {
    let mut e = full_exports();
    e.has_is_ok = false;
    let err = MyInterface::load_safe(&e).unwrap_err();
    assert_eq!(err, LoadError::MissingIsOk);
    assert_eq!(err.message(), "not a valid level library: cannot find is_ok");
}

#[test]
fn load_missing_info_fails() {
    let mut e = full_exports();
    e.has_level_info = false;
    let err = MyInterface::load_safe(&e).unwrap_err();
    assert_eq!(err, LoadError::MissingInfo);
    assert_eq!(err.message(), "cannot find LEVEL_INFO");
}

#[test]
fn load_missing_new_fails() {
    let mut e = full_exports();
    e.has_new = false;
    let err = MyInterface::load_safe(&e).unwrap_err();
    assert_eq!(err, LoadError::MissingNew);
    assert_eq!(err.message(), "cannot find new");
}

#[test]
fn load_missing_destory_fails() {
    let mut e = full_exports();
    e.has_destory = false;
    let err = MyInterface::load_safe(&e).unwrap_err();
    assert_eq!(err, LoadError::MissingDestory);
    assert_eq!(err.message(), "cannot find destory");
}

#[test]
fn load_panicking_init_is_contained() {
    let mut e = full_exports();
    e.init_panics = true;
    let err = MyInterface::load_safe(&e).unwrap_err();
    assert_eq!(err, LoadError::LoadPanicked);
    assert_eq!(err.message(), "load aborted");
}

#[test]
fn load_missing_optionals_still_loads() {
    let mut e = full_exports();
    e.has_get_faces = false;
    e.has_when_angled = false;
    let loaded = MyInterface::load_safe(&e).expect("optional symbols may be absent");
    assert!(!loaded.has_get_faces);
    assert!(!loaded.has_when_angled);
}

#[test]
fn builder_defaults() {
    let empty = MyInterfaceBuilder::none().build();
    assert!(!empty.has_is_ok);
    assert!(!empty.has_new);
    assert!(!empty.has_destory);
    assert!(!empty.has_get_faces);
    assert!(!empty.has_when_angled);
    assert_eq!(empty.level_info.id, 0);
    assert_eq!(empty.level_info.name, "");

    let info = LevelInfo { id: 7, name: "n".to_string(), group: "g".to_string() };
    let mut b = MyInterfaceBuilder::new(info);
    b.with_get_faces();
    let built = b.build();
    assert!(built.has_is_ok);
    assert!(built.has_new);
    assert!(built.has_destory);
    assert!(built.has_get_faces);
    assert!(!built.has_when_angled);
    assert_eq!(built.level_info.id, 7);
}

#[test]
fn symbol_names() {
    assert_eq!(s2b(cube_infinifold::interface::REQUIRED_INCLUDED), b"REQUIRED_INCLUDED");
    assert_eq!(s2b(cube_infinifold::interface::CHECK_STATE), b"is_ok");
    assert_eq!(s2b(cube_infinifold::interface::DESTORY), b"destory");
    assert_eq!(s2b(cube_infinifold::interface::LEVEL_INFO), b"LEVEL_INFO");
}

#[derive(Debug)]
struct MyType {
    pub name: String,
    pub ids: Vec<i32>,
}

impl Pointerable for MyType {}

#[test]
fn pointerable() {
    let my = MyType { name: "你好".to_string(), ids: vec![1, 5, 6, 8, 2] };
    let mut table: TokenTable<MyType> = TokenTable::new();
    let p = table.insert(my);
    {
        let mut you = table.take(p).expect("Get a null pointer");
        println!("{:#?}", you);
        you.ids.pop();
        you.ids.push(123);
        you.name = "世界".to_string();
        table.put_back(p, you);
    }
    {
        let mut him = table.take(p).expect("Get a null pointer");
        println!("{:#?}", him);
        him.ids.pop();
        him.ids.push(456);
        him.name = "!!".to_string();
        table.put_back(p, him);
    }
    let end = table.get(p).expect("Get a null pointer");
    assert_eq!(end.name, "!!");
    assert_eq!(end.ids, vec![1, 5, 6, 8, 456]);
}

#[test]
fn tokens_and_sentinels() {
    assert!(!Pointered::void().usable());
    assert!(!Pointered::null().usable());
    assert!(!Pointered::error().usable());
    let mut table: TokenTable<MyType> = TokenTable::new();
    assert!(table.get(Pointered::void()).is_none());
    assert!(table.get(Pointered::null()).is_none());
    assert!(table.get(Pointered::error()).is_none());
    let p = table.insert(MyType { name: "a".to_string(), ids: vec![] });
    assert!(p.usable());
    assert!(table.get(p).is_some());
    let taken = table.take(p);
    assert!(taken.is_some());
    assert!(table.take(p).is_none());
    assert!(table.get(p).is_none());
}

#[test]
fn it_works() {
    let mut store: TokenTable<MyStruct> = TokenTable::new();
    init();
    let p = new(&mut store);
    println!("{:#?}", store.get(p));
    append(&mut store, p, "123");
    println!("{:#?}", store.get(p));
    append(&mut store, p, "456");
    println!("{:#?}", store.get(p));
    append(&mut store, p, "789");
    let s = store.get(p);
    println!("{:#?}", s);
    assert_eq!(s.expect("Get a null pointer").data, "新的123456789");
    destory(p);
}

#[test]
fn test_level_info() {
    let info = level_info();
    assert_eq!(info.id, 1);
    assert_eq!(info.name, "Test level 1");
    assert_eq!(info.group, "Test");
}

#[test]
fn init_runs_only_after_validation() {
    let e = full_exports();
    assert!(reaches_init(&e));
    let mut no_marker = full_exports();
    no_marker.has_required_included = false;
    assert!(!reaches_init(&no_marker));
    let mut marker_false = full_exports();
    marker_false.required_included = false;
    assert!(!reaches_init(&marker_false));
    let mut no_probe = full_exports();
    no_probe.has_is_ok = false;
    assert!(!reaches_init(&no_probe));
}
