use bevy_app::{FixedUpdate, Update};
use bevy_ecs::schedule::{
    Chain, DynEq, IntoSystemConfigs, NodeConfigs, Schedule, ScheduleLabel, Schedules,
    SystemConfigs,
};
use bevy_ecs::world::World;
use bevy_init_marker::marker::Refused;
use bevy_init_marker::Initialized;
use std::any::TypeId;
use std::hash::{Hash, Hasher};

fn alpha() {}

fn beta() {}

fn gamma() {}

/// A label with two values of one type.
#[derive(Debug, Clone, PartialEq, Eq, Hash)]
enum Phase {
    Early,
    Late,
}

impl ScheduleLabel for Phase {
    fn dyn_clone(&self) -> Box<dyn ScheduleLabel> {
        Box::new(self.clone())
    }

    fn as_dyn_eq(&self) -> &dyn DynEq {
        self
    }

    fn dyn_hash(&self, mut state: &mut dyn Hasher) {
        TypeId::of::<Self>().hash(&mut state);
        self.hash(&mut state);
    }
}

fn world_with_registry() -> World {
    let mut world = World::new();
    world.init_resource::<Schedules>();
    world
}

/// The names of the systems in the schedule under `label`, in the order in
/// which they were added; `None` where there is no such schedule.
fn names(world: &World, label: impl ScheduleLabel) -> Option<Vec<String>> {
    let schedule = world.resource::<Schedules>().get(label)?;
    Some(
        schedule
            .graph()
            .systems()
            .map(|(_, system, _)| system.name().to_string())
            .collect(),
    )
}

fn count(world: &World, label: impl ScheduleLabel) -> Option<usize> {
    names(world, label).map(|all| all.len())
}

#[test]
fn first_registration_makes_the_schedule() {
    let mut world = world_with_registry();
    assert_eq!(names(&world, Update), None);
    assert!(Initialized::init_systems(&mut world, Update, alpha));
    let found = names(&world, Update).unwrap();
    assert_eq!(found.len(), 1);
    assert!(found[0].ends_with("alpha"));
    assert!(!Initialized::init_systems(&mut world, Update, alpha));
    let again = names(&world, Update).unwrap();
    assert_eq!(again, found);
}

#[test]
fn registering_twice_adds_once() {
    let mut world = world_with_registry();
    for round in 0..4 {
        assert_eq!(Initialized::init_systems(&mut world, Update, alpha), round == 0);
        assert_eq!(count(&world, Update), Some(1));
    }
}

#[test]
fn registration_appends_to_a_schedule_that_exists() {
    let mut world = world_with_registry();
    let mut schedule = Schedule::new(Update);
    schedule.add_systems(beta);
    world.resource_mut::<Schedules>().insert(schedule);

    assert!(Initialized::init_systems(&mut world, Update, alpha));
    let found = names(&world, Update).unwrap();
    assert_eq!(found.len(), 2);
    assert!(found[0].ends_with("beta"));
    assert!(found[1].ends_with("alpha"));
    assert_eq!(world.resource::<Schedules>().iter().count(), 1);
}

#[test]
fn registration_keeps_the_other_schedules() {
    let mut world = world_with_registry();
    let mut schedule = Schedule::new(FixedUpdate);
    schedule.add_systems((beta, gamma));
    world.resource_mut::<Schedules>().insert(schedule);

    assert!(Initialized::init_systems(&mut world, Update, alpha));
    assert_eq!(count(&world, Update), Some(1));
    let other = names(&world, FixedUpdate).unwrap();
    assert_eq!(other.len(), 2);
    assert!(other[0].ends_with("beta"));
    assert!(other[1].ends_with("gamma"));
    assert_eq!(world.resource::<Schedules>().iter().count(), 2);
}

#[test]
fn the_same_systems_under_two_labels_register_twice() {
    let mut world = world_with_registry();
    assert!(Initialized::init_systems(&mut world, Update, alpha));
    assert!(Initialized::init_systems(&mut world, FixedUpdate, alpha));
    assert_eq!(count(&world, Update), Some(1));
    assert_eq!(count(&world, FixedUpdate), Some(1));
    assert!(!Initialized::init_systems(&mut world, Update, alpha));
    assert!(!Initialized::init_systems(&mut world, FixedUpdate, alpha));
    assert_eq!(count(&world, Update), Some(1));
    assert_eq!(count(&world, FixedUpdate), Some(1));
}

#[test]
fn two_systems_under_one_label_are_both_appended() {
    let mut world = world_with_registry();
    assert!(Initialized::init_systems(&mut world, Update, alpha));
    assert!(Initialized::init_systems(&mut world, Update, beta));
    let found = names(&world, Update).unwrap();
    assert_eq!(found.len(), 2);
    assert!(found[0].ends_with("alpha"));
    assert!(found[1].ends_with("beta"));
    assert!(!Initialized::init_systems(&mut world, Update, beta));
    assert!(!Initialized::init_systems(&mut world, Update, alpha));
    assert_eq!(count(&world, Update), Some(2));
}

#[test]
fn a_tuple_is_tracked_apart_from_its_members() {
    let mut world = world_with_registry();
    assert!(Initialized::init_systems(&mut world, Update, alpha));
    assert!(Initialized::init_systems(&mut world, Update, (alpha, beta)));
    let found = names(&world, Update).unwrap();
    assert_eq!(found.len(), 3);
    assert!(found[0].ends_with("alpha"));
    assert!(found[1].ends_with("alpha"));
    assert!(found[2].ends_with("beta"));
    assert!(!Initialized::init_systems(&mut world, Update, (alpha, beta)));
    assert_eq!(count(&world, Update), Some(3));
}

#[test]
fn two_closures_with_one_body_register_twice() {
    let mut world = world_with_registry();
    assert!(Initialized::init_systems(&mut world, Update, || {}));
    assert!(Initialized::init_systems(&mut world, Update, || {}));
    assert_eq!(count(&world, Update), Some(2));
}

#[test]
fn one_closure_registers_once() {
    let mut world = world_with_registry();
    let closure = || {};
    assert!(Initialized::init_systems(&mut world, Update, closure));
    assert!(!Initialized::init_systems(&mut world, Update, closure));
    assert_eq!(count(&world, Update), Some(1));
}

#[test]
fn two_values_of_one_label_type_share_a_flag() {
    let mut world = world_with_registry();
    assert!(Initialized::init_systems(&mut world, Phase::Early, alpha));
    assert!(!Initialized::init_systems(&mut world, Phase::Late, alpha));
    assert_eq!(count(&world, Phase::Early), Some(1));
    assert_eq!(count(&world, Phase::Late), None);
}

#[test]
fn a_direct_registration_is_not_seen() {
    let mut world = world_with_registry();
    let mut schedule = Schedule::new(Update);
    schedule.add_systems(alpha);
    world.resource_mut::<Schedules>().insert(schedule);
    assert!(Initialized::init_systems(&mut world, Update, alpha));
    assert_eq!(count(&world, Update), Some(2));
}

/// Checks and marks the flag of the pair of `Update` and the type of `systems`.
fn init_pair_with_update<S: Send + Sync + 'static>(world: &mut World, _systems: &S) -> bool {
    Initialized::<(Update, S)>::init(world)
}

#[test]
fn registration_sets_the_flag_of_the_pair() {
    let mut world = world_with_registry();
    assert!(Initialized::init_systems(&mut world, Update, alpha));
    assert!(world.contains_resource::<Initialized<(Update, fn())>>() == false);
    assert!(!init_pair_with_update(&mut world, &alpha));
    assert!(init_pair_with_update(&mut world, &beta));
    assert!(!Initialized::init_systems(&mut world, Update, beta));
    assert_eq!(count(&world, Update), Some(1));
    assert!(Initialized::<()>::init(&mut world));
}

#[test]
fn try_without_a_registry_changes_nothing() {
    let mut world = World::new();
    assert_eq!(
        Initialized::try_init_systems(&mut world, Update, alpha),
        Err(Refused::NoSchedules)
    );
    assert!(!world.contains_resource::<Schedules>());
    world.init_resource::<Schedules>();
    assert_eq!(names(&world, Update), None);
    assert_eq!(Initialized::try_init_systems(&mut world, Update, alpha), Ok(true));
    assert_eq!(count(&world, Update), Some(1));
}

#[test]
fn try_with_a_registry_is_init_systems() {
    let mut world = world_with_registry();
    assert_eq!(Initialized::try_init_systems(&mut world, Update, alpha), Ok(true));
    assert_eq!(Initialized::try_init_systems(&mut world, Update, alpha), Ok(false));
    assert!(!Initialized::init_systems(&mut world, Update, alpha));
    assert_eq!(Initialized::try_init_systems(&mut world, FixedUpdate, (alpha, beta)), Ok(true));
    assert_eq!(count(&world, Update), Some(1));
    assert_eq!(count(&world, FixedUpdate), Some(2));
}

/// Stores the flag of the pair of `Update` and the type of `systems` as a
/// resource that is not `Send`.
fn store_pair_as_non_send<S: Send + Sync + 'static>(world: &mut World, _systems: &S) {
    world.insert_non_send_resource(Initialized::<(Update, S)>::default());
}

#[test]
fn try_refuses_a_flag_type_that_is_not_send() {
    let mut world = world_with_registry();
    store_pair_as_non_send(&mut world, &alpha);
    assert_eq!(
        Initialized::try_init_systems(&mut world, Update, alpha),
        Err(Refused::NotSend)
    );
    assert_eq!(names(&world, Update), None);
    assert_eq!(Initialized::try_init_systems(&mut world, Update, beta), Ok(true));
    assert_eq!(count(&world, Update), Some(1));
}

fn group(members: Vec<SystemConfigs>) -> SystemConfigs {
    NodeConfigs::Configs {
        configs: members,
        collective_conditions: Vec::new(),
        chained: Chain::No,
    }
}

#[test]
fn try_refuses_a_group_without_a_member() {
    let mut world = world_with_registry();
    assert_eq!(
        Initialized::try_init_systems(&mut world, Update, group(Vec::new())),
        Err(Refused::EmptyGroup)
    );
    assert_eq!(names(&world, Update), None);
    assert_eq!(
        Initialized::try_init_systems(
            &mut world,
            Update,
            group(vec![alpha.into_configs(), group(Vec::new())])
        ),
        Err(Refused::EmptyGroup)
    );
    assert_eq!(names(&world, Update), None);
    assert_eq!(
        Initialized::try_init_systems(&mut world, Update, group(vec![alpha.into_configs()])),
        Ok(true)
    );
    assert_eq!(count(&world, Update), Some(1));
}

#[test]
fn try_takes_groups_within_groups() {
    let mut world = world_with_registry();
    assert_eq!(
        Initialized::try_init_systems(&mut world, Update, (alpha, (beta, gamma), alpha)),
        Ok(true)
    );
    let found = names(&world, Update).unwrap();
    assert_eq!(found.len(), 4);
    assert!(found[0].ends_with("alpha"));
    assert!(found[1].ends_with("beta"));
    assert!(found[2].ends_with("gamma"));
    assert!(found[3].ends_with("alpha"));
}

#[test]
fn try_names_the_first_refusal() {
    let mut world = World::new();
    assert_eq!(
        Initialized::try_init_systems(&mut world, Update, group(Vec::new())),
        Err(Refused::NoSchedules)
    );
    store_pair_as_non_send(&mut world, &group(Vec::new()));
    assert_eq!(
        Initialized::try_init_systems(&mut world, Update, group(Vec::new())),
        Err(Refused::NoSchedules)
    );
    world.init_resource::<Schedules>();
    assert_eq!(
        Initialized::try_init_systems(&mut world, Update, group(Vec::new())),
        Err(Refused::NotSend)
    );
}

#[test]
fn registered_systems_run() {
    let mut world = world_with_registry();
    assert!(Initialized::init_systems(&mut world, Update, |world: &mut World| {
        world.init_resource::<Initialized<u8>>();
    }));
    assert!(!world.contains_resource::<Initialized<u8>>());
    world.run_schedule(Update);
    assert!(world.contains_resource::<Initialized<u8>>());
    assert!(!Initialized::<u8>::init(&mut world));
}
