//! Running levels through the worker and the host proxy.

use cube_infinifold::bucket_level::BucketLevel;
use cube_infinifold::interface::{LevelInfo, LoadError, MyInterface, MyInterfaceBuilder};
use cube_infinifold::items::Face;
use cube_infinifold::level::{Action, Callback, Level, Loaded, Worker};
use cube_infinifold::penrose::{self, PenroseTriangle};
use cube_infinifold::plugin::Guarded;
use cube_infinifold::views::MyView;

fn iface(get_faces: bool, when_angled: bool) -> MyInterface {
    let info = LevelInfo { id: 2, name: "triangle".to_string(), group: "test".to_string() };
    let mut b = MyInterfaceBuilder::new(info);
    if get_faces {
        b.with_get_faces();
    }
    if when_angled {
        b.with_when_angled();
    }
    b.build()
}

fn tags(faces: &Vec<Face>) -> Vec<i64> {
    let mut out = Vec::new();
    for f in faces {
        out.push(f.tag);
    }
    out
}

#[test]
fn initial_faces_match_direct_call() {
    let level: Level<PenroseTriangle> = Level::new(Ok(iface(true, true))).expect("boot");
    let mut direct: Loaded<PenroseTriangle> = Loaded::new(iface(true, true));
    let p = direct.call_new();
    let direct_faces = direct.call_get_faces(p);
    assert_eq!(level.get_faces(), &direct_faces);
    assert_eq!(tags(level.get_faces()), vec![0, 1, 2, 3]);
}

#[test]
fn angled_updates_cache_like_direct_call() {
    let mut level: Level<PenroseTriangle> = Level::new(Ok(iface(true, true))).expect("boot");

    let mut direct: Loaded<PenroseTriangle> = Loaded::new(iface(true, true));
    let p = direct.call_new();
    let _ = direct.call_get_faces(p);

    // Fifty degrees: the sculpture drops its musk piece.
    let changed = level.when_angled(50_000);
    assert!(changed);
    let _ = direct.call_when_angled(p, 50_000);
    let direct_faces = direct.call_get_faces(p);
    assert_eq!(level.get_faces(), &direct_faces);
    assert_eq!(tags(level.get_faces()), vec![0, 1, 2]);

    // The same band again: no change, cache untouched.
    let unchanged = level.when_angled(60_000);
    assert!(!unchanged);
    assert_eq!(tags(level.get_faces()), vec![0, 1, 2]);

    // Back to the basic band.
    assert!(level.when_angled(10_000));
    assert_eq!(tags(level.get_faces()), vec![0, 1, 2, 3]);
}

#[test]
fn panic_in_when_angled_retires_the_level() {
    let mut level: Level<PenroseTriangle> = Level::new(Ok(iface(true, true))).expect("boot");
    assert!(level.is_ok());

    // Below minus two hundred degrees the level panics on purpose; the
    // guard contains it and the worker retires.
    assert!(!level.when_angled(-250_000));
    let cached = tags(level.get_faces());

    // The next exchange finds the worker gone: false at once, for good.
    assert!(!level.when_angled(10_000));
    assert!(!level.is_ok());
    assert!(!level.when_angled(20_000));
    assert!(!level.is_ok());
    assert_eq!(tags(level.get_faces()), cached);
}

#[test]
fn bucket_stub_crossing_boundaries() {
    let mut level: Level<BucketLevel> = Level::new(Ok(iface(true, true))).expect("boot");
    assert_eq!(tags(level.get_faces()), vec![0]);

    // Zero degrees: still bucket zero, no change.
    assert!(!level.when_angled(0));
    assert_eq!(tags(level.get_faces()), vec![0]);

    // Fifty degrees crosses the forty-five degree boundary.
    assert!(level.when_angled(50_000));
    assert_eq!(tags(level.get_faces()), vec![1]);

    // Ten degrees crosses back to bucket zero.
    assert!(level.when_angled(10_000));
    assert_eq!(tags(level.get_faces()), vec![0]);
}

#[test]
fn missing_when_angled_reads_false() {
    // A library exporting `is_ok` but not `when_angled` still loads; the
    // angle exchange then always reads false and the level stays healthy.
    let mut level: Level<BucketLevel> = Level::new(Ok(iface(true, false))).expect("boot");
    assert!(!level.when_angled(90_000));
    assert!(!level.when_angled(200_000));
    assert!(level.is_ok());
    assert_eq!(tags(level.get_faces()), vec![0]);
}

#[test]
fn missing_get_faces_reads_empty() {
    let level: Level<PenroseTriangle> = Level::new(Ok(iface(false, true))).expect("boot");
    assert!(level.get_faces().is_empty());
}

#[test]
fn failed_load_starts_nothing() {
    let level: Option<Level<PenroseTriangle>> = Level::new(Err(LoadError::MissingMarker));
    assert!(level.is_none());
}

#[test]
fn destory_is_best_effort() {
    let level: Level<PenroseTriangle> = Level::new(Ok(iface(true, true))).expect("boot");
    level.destory();
}

#[test]
fn worker_serves_one_action_at_a_time() {
    let (mut worker, first): (Worker<PenroseTriangle>, Callback) = Worker::boot(iface(true, true));
    match first {
        Callback::Faces(f) => assert_eq!(tags(&f), vec![0, 1, 2, 3]),
        Callback::Angled(_) => panic!("boot must announce faces"),
    }
    match worker.handle(Action::Angled(50_000)) {
        Some(Callback::Angled(b)) => assert!(b),
        _ => panic!("one reply per action"),
    }
    match worker.handle(Action::GetFaces) {
        Some(Callback::Faces(f)) => assert_eq!(tags(&f), vec![0, 1, 2]),
        _ => panic!("one reply per action"),
    }
    assert!(worker.handle(Action::Destory).is_none());
    assert!(worker.handle(Action::GetFaces).is_none());
}

#[test]
fn guard_contains_the_panic_at_the_source() {
    let mut guard: Guarded<PenroseTriangle> = Guarded::new();
    assert!(guard.is_ok());
    let p = guard.new_instance();
    assert!(p.usable());
    assert_eq!(tags(&guard.get_faces(p)), vec![0, 1, 2, 3]);

    assert!(!guard.when_angled(p, -250_000));
    assert!(!guard.is_ok());

    // The flag never rises again, and the instance still answers with
    // its safe snapshot.
    assert!(!guard.when_angled(p, -250_000));
    assert!(!guard.is_ok());
    assert_eq!(tags(&guard.get_faces(p)), vec![0, 1, 2, 3]);

    guard.destory(p);
    assert_eq!(tags(&guard.get_faces(p)), Vec::<i64>::new());
}

#[test]
fn penrose_band_walk() {
    let t = PenroseTriangle::new();
    assert_eq!(tags(&t.get()), vec![0, 1, 2, 3]);
    let mut level: Level<PenroseTriangle> = Level::new(Ok(iface(true, true))).expect("boot");
    assert!(level.when_angled(-60_000));
    assert_eq!(tags(level.get_faces()), vec![2, 4, 7, 8, 9, 10]);
    assert!(level.when_angled(-10_000));
    assert_eq!(tags(level.get_faces()), vec![2, 4, 5, 6]);
    assert!(level.when_angled(350_000));
    assert_eq!(tags(level.get_faces()), vec![11, 12]);
    assert!(level.when_angled(500_000));
    assert_eq!(tags(level.get_faces()), vec![11, 13]);
    assert!(level.when_angled(600_000));
    assert_eq!(tags(level.get_faces()), vec![14, 15]);
    // Outside every band nothing changes.
    assert!(!level.when_angled(2_000_000));
    assert_eq!(tags(level.get_faces()), vec![14, 15]);
}

#[test]
fn prototype_scene() {
    assert_eq!(tags(&penrose::get()), vec![0]);
}

#[test]
fn view_destory_stops_the_game() {
    let level: Level<PenroseTriangle> = Level::new(Ok(iface(true, true))).expect("boot");
    let mut view: MyView<PenroseTriangle> = MyView::MyGame(level);
    view.destory();
    assert!(matches!(view, MyView::NoView));
    // Views without a level keep their variant: they own nothing to stop.
    let mut menu: MyView<PenroseTriangle> = MyView::MyMenu;
    menu.destory();
    assert!(matches!(menu, MyView::MyMenu));
    let mut logo: MyView<PenroseTriangle> = MyView::MyLogo;
    logo.destory();
    assert!(matches!(logo, MyView::MyLogo));
}

#[test]
fn penrose_description() {
    let info = penrose::level_info();
    assert_eq!(info.id, 2);
    assert_eq!(info.name, "不可能三角");
    assert_eq!(info.group, "test");
}
