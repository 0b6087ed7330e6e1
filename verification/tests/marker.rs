use bevy_app::{FixedUpdate, Update};
use bevy_ecs::schedule::Schedules;
use bevy_ecs::world::World;
use bevy_init_marker::Initialized;

fn sys1() {}

fn sys2() {}

#[test]
fn test_init() {
    let mut world = World::new();
    assert!(Initialized::<()>::init(&mut world));
    assert!(!Initialized::<()>::init(&mut world));
}

#[test]
fn test_init_systems() {
    let mut world = World::new();
    world.init_resource::<Schedules>();

    assert!(Initialized::init_systems(&mut world, Update, sys1));
    assert!(!Initialized::init_systems(&mut world, Update, sys1));

    assert!(Initialized::init_systems(&mut world, FixedUpdate, sys1));
    assert!(!Initialized::init_systems(&mut world, FixedUpdate, sys1));

    assert!(Initialized::init_systems(&mut world, Update, (sys1, sys2)));
    assert!(!Initialized::init_systems(&mut world, Update, (sys1, sys2)));
}

#[test]
fn test_init_closure_system() {
    let mut world = World::new();
    world.init_resource::<Schedules>();

    let mut n = 0;
    for _ in 0..2 {
        if Initialized::init_systems(&mut world, Update, || {}) {
            n += 1;
        }
    }
    assert_eq!(n, 1);
}
