//! The marker resource and the operations on it.

use vstd::prelude::*;
use vstd::string::StringExecFns;
use bevy_ecs::schedule::{IntoSystemConfigs, ScheduleLabel};
use bevy_ecs::system::Resource;
use bevy_ecs::world::World;
use std::marker::PhantomData;
use crate::model::{appended, marked, membered, newly, registered, Shape};
use crate::schedule::{
    add_systems, insert_schedule, intern_label, into_work, label_of, new_schedule, part_members,
    part_shape, schedule_mut, work_of, work_part, work_shape, work_systems, Label, Part, Work,
};
use crate::store::{
    flag_insert, flag_present, flag_send, flag_tag, has_schedules, schedules_mut, storable,
    tag_of, world_flags, world_schedules, world_send, Tag,
};

verus! {

/// A marker resource for *something* that has been initialized.
///
/// `M` is a label only: no value of it is ever made. The resource carries no
/// data; that it is present in a world says that whatever `M` stands for has
/// been done there.
pub struct Initialized<M: Send + Sync + 'static>(PhantomData<M>);

impl<M: Send + Sync + 'static> Resource for Initialized<M> {

}

impl<M: Send + Sync + 'static> Clone for Initialized<M> {
    fn clone(&self) -> (copy: Self)
        ensures
            copy == *self,
    {
        *self
    }
}

impl<M: Send + Sync + 'static> Copy for Initialized<M> {

}

impl<M: Send + Sync + 'static> Default for Initialized<M> {
    fn default() -> (flag: Self)
        ensures
            flag == Self::flag(),
    {
        Initialized(PhantomData)
    }
}

/// Why a registration was not tried.
#[derive(Clone, Copy, Debug, PartialEq, Eq, Structural)]
pub enum Refused {
    /// The world holds no `Schedules` resource.
    NoSchedules,
    /// The world has registered the flag's type as a resource that is not
    /// `Send`, and stores no flag of it.
    NotSend,
    /// The systems hold a group without a member.
    EmptyGroup,
}

/// Why a registration of systems of `shape` under `tag` is not tried in
/// `world`, the first reason that holds; `None` where it is tried.
pub open spec fn refusal(world: World, tag: Tag, shape: Shape) -> Option<Refused> {
    if world_schedules(world) is None {
        Some(Refused::NoSchedules)
    } else if !storable(world, tag) {
        Some(Refused::NotSend)
    } else if !membered(shape) {
        Some(Refused::EmptyGroup)
    } else {
        None
    }
}

/// Whether `world` can store the flag of `tag`.
pub fn can_store(world: &World, tag: &Tag) -> (ok: bool)
    ensures
        ok == storable(*world, *tag),
{
    match flag_send(world, tag) {
        Some(as_send) => as_send,
        None => true,
    }
}

/// Whether every group in the borrowed work has a member.
fn part_has_members(part: &Part) -> (ok: bool)
    ensures
        ok == membered(part_shape(*part)),
    decreases part_shape(*part),
{
    match part_members(part) {
        None => true,
        Some(parts) => {
            let ghost shapes = part_shape(*part)->Group_0;
            if parts.len() == 0 {
                return false;
            }
            let mut at: usize = 0;
            while at < parts.len()
                invariant
                    at <= parts.len(),
                    part_shape(*part) == Shape::Group(shapes),
                    shapes.len() == parts@.len(),
                    forall|k: int|
                        0 <= k < shapes.len() ==> part_shape(#[trigger] parts@[k]) == shapes[k],
                    forall|k: int| 0 <= k < at ==> membered(#[trigger] shapes[k]),
                decreases parts.len() - at,
            {
                assert(part_shape(parts@[at as int]) == shapes[at as int]);
                assert(decreases_to!(part_shape(*part)->Group_0 => shapes[at as int]));
                if !part_has_members(&parts[at]) {
                    assert(!membered(shapes[at as int]));
                    return false;
                }
                at += 1;
            }
            true
        },
    }
}

/// Whether every group in `work` has a member, so that bevy can add it to a
/// schedule.
pub fn has_members(work: &Work) -> (ok: bool)
    ensures
        ok == membered(work_shape(*work)),
{
    let part = work_part(work);
    part_has_members(&part)
}

/// Checks and marks `tag` in `world`: sets the flag unless it is set, and
/// says whether it was this call that set it.
///
/// This is the step that [`Initialized::init`] takes with the tag of its
/// marker type.
pub fn mark(world: &mut World, tag: &Tag) -> (fresh: bool)
    requires
        storable(*old(world), *tag),
    ensures
        fresh == newly(world_flags(*old(world)), *tag),
        world_flags(*final(world)) == marked(world_flags(*old(world)), *tag),
        world_send(*final(world)) == world_send(*old(world)).insert(*tag, true),
        world_schedules(*final(world)) == world_schedules(*old(world)),
        !fresh ==> *final(world) == *old(world),
{
    if !flag_present(world, tag) {
        flag_insert(world, tag);
        true
    } else {
        false
    }
}

/// Appends `work` to the schedule that the registry of `world` holds under
/// `label`; where it holds none, makes one, fills it and stores it. The other
/// schedules and the flags stay as they are.
pub fn register(world: &mut World, label: &Label, work: Work)
    requires
        world_schedules(*old(world)) is Some,
        membered(work_shape(work)),
    ensures
        world_schedules(*final(world)) == Some(
            appended(world_schedules(*old(world))->0, *label, work_systems(work)),
        ),
        world_flags(*final(world)) == world_flags(*old(world)),
        world_send(*final(world)) == world_send(*old(world)),
{
    let schedules = schedules_mut(world);
    match schedule_mut(schedules, label) {
        Some(schedule) => {
            add_systems(schedule, work);
        },
        None => {
            let mut schedule = new_schedule(label);
            add_systems(&mut schedule, work);
            insert_schedule(schedules, schedule);
        },
    }
}

/// The text by which the marker of a tag is known, for the tag's type name
/// `name`.
pub fn describe(name: &str) -> (text: String)
    ensures
        text@ == "Initialized<"@ + name@ + ">"@,
{
    let mut text = String::from_str("Initialized<");
    text.append(name);
    text.append(">");
    text
}

impl<M: Send + Sync + 'static> Initialized<M> {
    /// The one value of the marker.
    pub closed spec fn flag() -> Self {
        Initialized(PhantomData)
    }

    /// Initializes the `Initialized<M>` resource if it hasn't been initialized
    /// yet.
    ///
    /// Returns `true` if the resource was not previously initialized, `false`
    /// otherwise. The flag is that of `tag_of::<M>()`; every other tag keeps
    /// its state. The world must not have registered `Initialized<M>` as a
    /// resource that is not `Send`: bevy stores no flag in such a world.
    #[must_use]
    pub fn init(world: &mut World) -> (fresh: bool)
        requires
            storable(*old(world), tag_of::<M>()),
        ensures
            fresh == newly(world_flags(*old(world)), tag_of::<M>()),
            world_flags(*final(world)) == marked(world_flags(*old(world)), tag_of::<M>()),
            world_send(*final(world)) == world_send(*old(world)).insert(tag_of::<M>(), true),
            world_schedules(*final(world)) == world_schedules(*old(world)),
            !fresh ==> *final(world) == *old(world),
    {
        let tag = flag_tag::<M>();
        mark(world, &tag)
    }

    /// As [`Initialized::init`], for any world: where the world cannot store
    /// the flag it is left as it is and the result is `None`.
    pub fn try_init(world: &mut World) -> (outcome: Option<bool>)
        ensures
            outcome is Some <==> storable(*old(world), tag_of::<M>()),
            outcome is None ==> *final(world) == *old(world),
            outcome matches Some(fresh) ==> {
                &&& fresh == newly(world_flags(*old(world)), tag_of::<M>())
                &&& world_flags(*final(world)) == marked(world_flags(*old(world)), tag_of::<M>())
                &&& world_send(*final(world)) == world_send(*old(world)).insert(
                    tag_of::<M>(),
                    true,
                )
                &&& world_schedules(*final(world)) == world_schedules(*old(world))
                &&& !fresh ==> *final(world) == *old(world)
            },
    {
        let tag = flag_tag::<M>();
        if can_store(world, &tag) {
            Some(mark(world, &tag))
        } else {
            None
        }
    }
}

impl Initialized<()> {
    /// Initialize the `systems` if they haven't been initialized for the
    /// `schedule` yet.
    ///
    /// The flag is that of the pair of types `(L, S)`, so two values of one
    /// label type share it. Where the flag is new, the systems are appended to
    /// the schedule under the label, which is made first where the registry
    /// has none; where it is not, nothing changes.
    ///
    /// The world must hold a `Schedules` resource and be able to store the
    /// flag, and every group in `systems` must have a member: a group without
    /// one can only be built by hand, and bevy fails on it.
    ///
    /// Systems that were added to the schedule by other means are not seen:
    /// registered here as well, they are in the schedule twice.
    pub fn init_systems<L, S, Marker>(world: &mut World, schedule: L, systems: S) -> (fresh: bool)
        where
            L: ScheduleLabel,
            S: IntoSystemConfigs<Marker> + Send + Sync + 'static,
        requires
            world_schedules(*old(world)) is Some,
            storable(*old(world), tag_of::<(L, S)>()),
            membered(work_shape(work_of(systems, PhantomData::<Marker>))),
        ensures
            fresh == newly(world_flags(*old(world)), tag_of::<(L, S)>()),
            world_flags(*final(world)) == marked(world_flags(*old(world)), tag_of::<(L, S)>()),
            world_send(*final(world)) == world_send(*old(world)).insert(
                tag_of::<(L, S)>(),
                true,
            ),
            world_schedules(*final(world)) == Some(
                registered(
                    world_schedules(*old(world))->0,
                    fresh,
                    label_of(schedule),
                    work_systems(work_of(systems, PhantomData::<Marker>)),
                ),
            ),
            !fresh ==> *final(world) == *old(world),
    {
        if Initialized::<(L, S)>::init(world) {
            let label = intern_label(&schedule);
            let work = into_work(systems);
            register(world, &label, work);
            true
        } else {
            false
        }
    }

    /// What [`Initialized::init_systems`] does once the systems have been made
    /// into `work`: `S` is the type that they were made from.
    pub fn init_work<L, S>(world: &mut World, schedule: L, work: Work) -> (fresh: bool)
        where
            L: ScheduleLabel,
            S: Send + Sync + 'static,
        requires
            world_schedules(*old(world)) is Some,
            storable(*old(world), tag_of::<(L, S)>()),
            membered(work_shape(work)),
        ensures
            fresh == newly(world_flags(*old(world)), tag_of::<(L, S)>()),
            world_flags(*final(world)) == marked(world_flags(*old(world)), tag_of::<(L, S)>()),
            world_send(*final(world)) == world_send(*old(world)).insert(
                tag_of::<(L, S)>(),
                true,
            ),
            world_schedules(*final(world)) == Some(
                registered(
                    world_schedules(*old(world))->0,
                    fresh,
                    label_of(schedule),
                    work_systems(work),
                ),
            ),
            !fresh ==> *final(world) == *old(world),
    {
        if Initialized::<(L, S)>::init(world) {
            let label = intern_label(&schedule);
            register(world, &label, work);
            true
        } else {
            false
        }
    }

    /// As [`Initialized::init_systems`], for any world and any systems: where
    /// the world holds no `Schedules` resource, or cannot store the flag, or
    /// the systems hold a group without a member, the world is left as it is
    /// and the result says which of the three it was, the first that holds.
    pub fn try_init_systems<L, S, Marker>(world: &mut World, schedule: L, systems: S) -> (outcome:
        Result<bool, Refused>)
        where
            L: ScheduleLabel,
            S: IntoSystemConfigs<Marker> + Send + Sync + 'static,
        ensures
            match refusal(
                *old(world),
                tag_of::<(L, S)>(),
                work_shape(work_of(systems, PhantomData::<Marker>)),
            ) {
                Some(why) => outcome == Err::<bool, Refused>(why) && *final(world) == *old(world),
                None => {
                    &&& outcome matches Ok(fresh)
                    &&& fresh == newly(world_flags(*old(world)), tag_of::<(L, S)>())
                    &&& world_flags(*final(world)) == marked(
                        world_flags(*old(world)),
                        tag_of::<(L, S)>(),
                    )
                    &&& world_send(*final(world)) == world_send(*old(world)).insert(
                        tag_of::<(L, S)>(),
                        true,
                    )
                    &&& world_schedules(*final(world)) == Some(
                        registered(
                            world_schedules(*old(world))->0,
                            fresh,
                            label_of(schedule),
                            work_systems(work_of(systems, PhantomData::<Marker>)),
                        ),
                    )
                    &&& !fresh ==> *final(world) == *old(world)
                },
            },
    {
        if !has_schedules(world) {
            return Err(Refused::NoSchedules);
        }
        let tag = flag_tag::<(L, S)>();
        if !can_store(world, &tag) {
            return Err(Refused::NotSend);
        }
        let work = into_work(systems);
        if !has_members(&work) {
            return Err(Refused::EmptyGroup);
        }
        Ok(Self::init_work::<L, S>(world, schedule, work))
    }
}

} // verus!
