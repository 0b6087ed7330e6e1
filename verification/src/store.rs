//! The bevy `World` as the store of flags: what it holds, by name, and the
//! calls into bevy that test and set a flag or hand out the schedule registry.
//!
//! Nothing in this file is proved. Each item states what bevy's code does, and
//! the proofs of the other modules rest on these statements.

use vstd::prelude::*;
use bevy_ecs::component::{ComponentId, Components};
use bevy_ecs::schedule::Schedules;
use bevy_ecs::world::World;
use crate::marker::Initialized;
use crate::schedule::{schedules_systems, Label};

verus! {

/// bevy's `World`, carried through as it is.
#[verifier::external_type_specification]
#[verifier::external_body]
pub struct ExWorld(World);

/// The identity of one flag: the bevy methods that test, set and look up the
/// resource `Initialized<M>` of one marker type `M`.
///
/// Verus takes no function pointer as a field, so the struct is closed to it.
/// Two tags are equal when they stand for the same marker type.
#[verifier::external_body]
pub struct Tag {
    contains: fn(&World) -> bool,
    init: fn(&mut World) -> ComponentId,
    id: fn(&Components) -> Option<ComponentId>,
}

/// The tag of the marker type `M`. It is a function of `M` alone: every call
/// for one `M` speaks of the same flag. Nothing says how the tags of two
/// marker types compare.
pub open spec fn tag_of<M: Send + Sync + 'static>() -> Tag {
    arbitrary::<spec_fn(Initialized<M>) -> Tag>()(Initialized::<M>::flag())
}

/// The tags whose flag is present in `world`: those for whose resource
/// `World::contains_resource` answers `true`.
pub uninterp spec fn world_flags(world: World) -> Set<Tag>;

/// The schedule registry of `world`: `None` where the world holds no
/// `Schedules` resource, else for each label in it the names of the systems
/// added to that label's schedule, in the order in which they were added.
pub uninterp spec fn world_schedules(world: World) -> Option<Map<Label, Seq<Seq<char>>>>;

/// How `world` has registered the resource types of flags: for each tag whose
/// resource type it has registered, whether it did so as a resource that is
/// `Send` and `Sync` (`true`) or as one that is not (`false`).
pub uninterp spec fn world_send(world: World) -> Map<Tag, bool>;

/// Whether `world` can store the flag of `tag`: it has not registered the
/// flag's resource type as one that is not `Send`.
pub open spec fn storable(world: World, tag: Tag) -> bool {
    world_send(world).dom().contains(tag) ==> world_send(world)[tag]
}

/// Picks `World::contains_resource`, `World::init_resource` and
/// `Components::resource_id` at the resource type `Initialized<M>`, which is
/// the same for every call with one `M`.
#[verifier::external_body]
pub(crate) fn flag_tag<M: Send + Sync + 'static>() -> (tag: Tag)
    ensures
        tag == tag_of::<M>(),
{
    Tag {
        contains: World::contains_resource::<Initialized<M>>,
        init: World::init_resource::<Initialized<M>>,
        id: Components::resource_id::<Initialized<M>>,
    }
}

/// Calls `World::contains_resource` for the tag's resource type. bevy answers
/// `true` exactly when a value of that type is stored in the world as a
/// resource that is `Send`, which it stores for no type that it registered
/// otherwise.
#[verifier::external_body]
pub(crate) fn flag_present(world: &World, tag: &Tag) -> (present: bool)
    ensures
        present == world_flags(*world).contains(*tag),
        present ==> world_send(*world).dom().contains(*tag) && world_send(*world)[*tag],
{
    (tag.contains)(world)
}

/// Looks the tag's resource type up with `Components::resource_id`, its entry
/// with `Components::get_info`, and reads `ComponentInfo::is_send_and_sync`:
/// `None` where the world has not registered the type.
#[verifier::external_body]
pub(crate) fn flag_send(world: &World, tag: &Tag) -> (send: Option<bool>)
    ensures
        send is Some <==> world_send(*world).dom().contains(*tag),
        send matches Some(as_send) ==> as_send == world_send(*world)[*tag],
{
    let components = world.components();
    (tag.id)(components).and_then(|id| components.get_info(id)).map(|info| info.is_send_and_sync())
}

/// Calls `World::init_resource` for the tag's resource type. bevy registers
/// the type as `Send` unless it is registered, stores the default value of
/// that type unless one is stored, and touches no other resource: the flag is
/// present afterwards, every other flag and the schedule registry are as
/// before. bevy panics where the type is registered as not `Send`, which the
/// precondition leaves out.
#[verifier::external_body]
pub(crate) fn flag_insert(world: &mut World, tag: &Tag)
    requires
        storable(*old(world), *tag),
    ensures
        world_flags(*final(world)) == world_flags(*old(world)).insert(*tag),
        world_send(*final(world)) == world_send(*old(world)).insert(*tag, true),
        world_schedules(*final(world)) == world_schedules(*old(world)),
{
    (tag.init)(world);
}

/// Calls `World::contains_resource` for `Schedules`: whether the world holds a
/// schedule registry.
#[verifier::external_body]
pub(crate) fn has_schedules(world: &World) -> (present: bool)
    ensures
        present == world_schedules(*world) is Some,
{
    world.contains_resource::<Schedules>()
}

/// Calls `World::resource_mut` for `Schedules` and unwraps the borrow with
/// `Mut::into_inner`. bevy panics where the resource is missing, which the
/// precondition leaves out. The borrow starts as the world's registry, and
/// what it holds when it ends is the world's registry from then on; no flag
/// comes or goes through it, and no type is registered.
#[verifier::external_body]
pub(crate) fn schedules_mut(world: &mut World) -> (schedules: &mut Schedules)
    requires
        world_schedules(*old(world)) is Some,
    ensures
        Some(schedules_systems(*schedules)) == world_schedules(*old(world)),
        world_schedules(*final(world)) == Some(schedules_systems(*final(schedules))),
        world_flags(*final(world)) == world_flags(*old(world)),
        world_send(*final(world)) == world_send(*old(world)),
{
    world.resource_mut::<Schedules>().into_inner()
}

} // verus!
