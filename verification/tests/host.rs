//! The host-side plumbing: message queues, the level catalogue, and the
//! selection lookup.

use cube_infinifold::finder::{
    get_levels, js_num, js_obj_arr, js_obj_num, js_obj_str, js_str, CollectedGame, IdGen, JsValue,
    Link,
};
use cube_infinifold::game_info::MyGameInfo;
use cube_infinifold::messages::{GLobalMessage, MyMessage, MyScreenShot};

#[test]
fn global_message_repeats() {
    let mut g = GLobalMessage::new();
    g.send0("a".to_string());
    g.send("b".to_string(), 2);
    assert_eq!(g.recv(), vec!["a".to_string(), "b".to_string()]);
    assert_eq!(g.recv(), vec!["b".to_string()]);
    assert_eq!(g.recv(), vec!["b".to_string()]);
    assert_eq!(g.recv(), Vec::<String>::new());
}

#[test]
fn my_message_lifecycle() {
    let mut m = MyMessage::default();
    assert!(!m.has_any());
    m.send("hello".to_string(), 100);
    m.recv();
    assert!(m.has_any());
    assert_eq!(m.get().len(), 1);
    assert_eq!(m.get()[0].0, "hello");
    assert_eq!(m.get()[0].1, 100);

    // Forty milliseconds leave sixty; the entry stays on show, and the
    // shown copy keeps its time until something actually expires.
    m.dt(40);
    assert!(m.has_any());
    assert_eq!(m.get()[0].1, 100);
    assert_eq!(m.msg[0].1, 60);

    // Seventy milliseconds run it out; the shown part refreshes.
    m.dt(70);
    assert!(!m.has_any());
    assert_eq!(m.get().len(), 0);
}

#[test]
fn my_message_equality_ignores_times() {
    let mut a = MyMessage::default();
    a.send("x".to_string(), 10);
    a.recv();
    let mut b = MyMessage::default();
    b.send("x".to_string(), 999);
    b.recv();
    assert!(a == b);
    let mut c = MyMessage::default();
    c.send("y".to_string(), 10);
    c.recv();
    assert!(a != c);
}

#[test]
fn screenshot_switches_start_off() {
    let s = MyScreenShot::default();
    assert!(!s.screen_shot);
    assert!(!s.screen_recording);
    assert!(!s.screen_recording_stop);
}

fn obj(fields: Vec<(&str, JsValue)>) -> JsValue {
    let mut out = Vec::new();
    for (k, v) in fields {
        out.push((k.to_string(), v));
    }
    JsValue::Obj(out)
}

fn catalogue() -> (Vec<(String, JsValue)>, Vec<String>) {
    let level = obj(vec![
        ("filename", JsValue::Str("a.so".to_string())),
        ("name", JsValue::Str("L1".to_string())),
        ("index", JsValue::Num(5)),
    ]);
    let linker = obj(vec![
        ("path", JsValue::Str("sub/".to_string())),
        ("filename", JsValue::Str("more.json".to_string())),
    ]);
    let root = obj(vec![
        ("name", JsValue::Str("game".to_string())),
        ("index", JsValue::Num(1)),
        ("levels", JsValue::Arr(vec![level])),
        ("linkers", JsValue::Arr(vec![linker])),
    ]);
    let sub_level = obj(vec![
        ("filename", JsValue::Str("b.so".to_string())),
        ("name", JsValue::Str("L2".to_string())),
        ("index", JsValue::Num(9)),
    ]);
    let sub = obj(vec![
        ("name", JsValue::Str("extra".to_string())),
        ("index", JsValue::Num(7)),
        ("levels", JsValue::Arr(vec![sub_level])),
    ]);
    let docs = vec![("levels.json".to_string(), root), ("sub/more.json".to_string(), sub)];
    let files = vec!["a.so".to_string(), "sub/b.so".to_string()];
    (docs, files)
}

#[test]
fn catalogue_collects_and_follows_linkers() {
    let (docs, files) = catalogue();
    let c = get_levels(Link::new(""), "levels.json", &docs, &files);
    assert_eq!(c.name, "game");
    assert_eq!(c.groups.len(), 2);
    let root = c.groups.iter().find(|e| e.0 == 1).expect("root group");
    assert_eq!(root.1.name, "game");
    assert_eq!(root.1.levels.len(), 1);
    assert_eq!(root.1.levels[0].0, 5);
    assert_eq!(root.1.levels[0].1.name, "L1");
    assert_eq!(root.1.levels[0].1.link.path(), "a.so");
    let sub = c.groups.iter().find(|e| e.0 == 7).expect("linked group");
    assert_eq!(sub.1.name, "extra");
    assert_eq!(sub.1.levels[0].0, 9);
    assert_eq!(sub.1.levels[0].1.link.path(), "sub/b.so");
}

#[test]
fn catalogue_prunes_missing_files() {
    let (docs, _) = catalogue();
    // Only the root level's library exists: the linked group vanishes.
    let files = vec!["a.so".to_string()];
    let c = get_levels(Link::new(""), "levels.json", &docs, &files);
    assert_eq!(c.groups.len(), 1);
    assert_eq!(c.groups[0].0, 1);

    // No library exists at all: nothing playable remains.
    let none: Vec<String> = Vec::new();
    let empty = get_levels(Link::new(""), "levels.json", &docs, &none);
    assert_eq!(empty.groups.len(), 0);
}

#[test]
fn catalogue_equality_is_by_name() {
    let (docs, files) = catalogue();
    let a = get_levels(Link::new(""), "levels.json", &docs, &files);
    let b = get_levels(Link::new(""), "levels.json", &docs, &Vec::new());
    assert!(a == b);
}

#[test]
fn missing_catalogue_reads_as_nothing() {
    let docs: Vec<(String, JsValue)> = Vec::new();
    let files: Vec<String> = Vec::new();
    let c: CollectedGame = get_levels(Link::new("dir/"), "levels.json", &docs, &files);
    assert_eq!(c.name, "");
    assert_eq!(c.groups.len(), 0);
}

#[test]
fn json_accessors() {
    let v = obj(vec![
        ("s", JsValue::Str("text".to_string())),
        ("n", JsValue::Num(42)),
        ("a", JsValue::Arr(vec![JsValue::Bool(true), JsValue::Null])),
    ]);
    assert_eq!(js_str(&JsValue::Str("x".to_string()), "d"), "x");
    assert_eq!(js_str(&JsValue::Num(1), "d"), "d");
    assert_eq!(js_num(&JsValue::Num(9), 0), 9);
    assert_eq!(js_num(&JsValue::Null, -3), -3);
    assert_eq!(js_obj_str(&v, "s", "d"), "text");
    assert_eq!(js_obj_str(&v, "missing", "d"), "d");
    assert_eq!(js_obj_num(&v, "n", 0), 42);
    assert_eq!(js_obj_num(&v, "s", 7), 7);
    assert_eq!(js_obj_arr(&v, "a").expect("array").len(), 2);
    assert!(js_obj_arr(&v, "n").is_none());
}

#[test]
fn link_building() {
    let l = Link::new("levels/");
    assert_eq!(l.path(), "levels/");
    assert_eq!(l.with("a.so").path(), "levels/a.so");
    assert_eq!(Link::current().path(), "");
    let files = vec!["levels/a.so".to_string()];
    assert!(l.with("a.so").is_valid(&files));
    assert!(!l.with("b.so").is_valid(&files));
}

#[test]
fn id_counter() {
    let mut ids = IdGen::new();
    assert_eq!(ids.next_id(), 1);
    assert_eq!(ids.next_id(), 2);
    assert_eq!(ids.with_id(10), 10);
    assert_eq!(ids.next_id(), 12);
    assert_eq!(ids.with_id(3), 3);
    assert_eq!(ids.next_id(), 14);
}

#[test]
fn library_path_of_selection() {
    let (docs, files) = catalogue();
    let c = get_levels(Link::new(""), "levels.json", &docs, &files);

    let picked = MyGameInfo { current_group_id: Some(1), current_level_id: Some(5) };
    assert_eq!(picked.get_library_path(&c), Some("a.so".to_string()));

    let other = MyGameInfo { current_group_id: Some(7), current_level_id: Some(9) };
    assert_eq!(other.get_library_path(&c), Some("sub/b.so".to_string()));

    let wrong_level = MyGameInfo { current_group_id: Some(1), current_level_id: Some(9) };
    assert_eq!(wrong_level.get_library_path(&c), None);

    let wrong_group = MyGameInfo { current_group_id: Some(3), current_level_id: Some(5) };
    assert_eq!(wrong_group.get_library_path(&c), None);

    assert_eq!(MyGameInfo::none().get_library_path(&c), None);
}

#[test]
fn duplicate_level_index_keeps_last_write() {
    let mut c = CollectedGame::new(&"g".to_string());
    c.new_group(1, &"grp".to_string());
    c.new_level(1, 5, &"first".to_string(), Link::new("a.so"));
    c.new_level(1, 5, &"second".to_string(), Link::new("b.so"));
    assert_eq!(c.groups.len(), 1);
    assert_eq!(c.groups[0].1.levels.len(), 1);
    assert_eq!(c.groups[0].1.levels[0].0, 5);
    assert_eq!(c.groups[0].1.levels[0].1.name, "second");
    assert_eq!(c.groups[0].1.levels[0].1.link.path(), "b.so");
}
