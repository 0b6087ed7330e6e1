//! bevy's schedules as this library sees them: a label, the systems to add,
//! and the calls that look a schedule up, make one, fill it and store it.
//!
//! Nothing in this file is proved. Each item states what bevy's code does, and
//! the proofs of the other modules rest on these statements.

use vstd::prelude::*;
use bevy_ecs::schedule::{
    InternedScheduleLabel, IntoSystemConfigs, NodeConfigs, Schedule, ScheduleLabel, Schedules,
    SystemConfigs,
};
use std::marker::PhantomData;
use crate::model::{membered, Shape};

verus! {

/// bevy's `Schedules`, the registry of schedules by label.
#[verifier::external_type_specification]
#[verifier::external_body]
pub struct ExSchedules(Schedules);

/// bevy's `Schedule`.
#[verifier::external_type_specification]
#[verifier::external_body]
pub struct ExSchedule(Schedule);

/// An interned schedule label, the key of bevy's registry.
///
/// It holds a reference to a `dyn ScheduleLabel`, a type that Verus does not
/// take, so the struct is closed to it. Two labels are equal when bevy's
/// registry treats them as one key.
#[verifier::external_body]
pub struct Label {
    interned: InternedScheduleLabel,
}

/// Systems made ready for a schedule: bevy's `SystemConfigs`.
///
/// It holds boxed `dyn System` values, a type that Verus does not take, so the
/// struct is closed to it.
#[verifier::external_body]
pub struct Work {
    configs: SystemConfigs,
}

/// A work or one of its members, borrowed: a reference to bevy's
/// `SystemConfigs`, held in a struct that is closed to Verus as `Work` is.
#[verifier::external_body]
pub struct Part<'a> {
    configs: &'a SystemConfigs,
}

/// How `work` is built: `System` for bevy's `NodeConfigs::NodeConfig`, and for
/// `NodeConfigs::Configs` a group of the shapes of its `configs`, in order.
pub uninterp spec fn work_shape(work: Work) -> Shape;

/// How the borrowed work or member is built, as `work_shape` says it of a
/// work.
pub uninterp spec fn part_shape(part: Part) -> Shape;

/// The names of the systems in `work`, in the order in which
/// `Schedule::add_systems` adds them: a group's members from first to last,
/// each member's own systems together.
pub uninterp spec fn work_systems(work: Work) -> Seq<Seq<char>>;

/// The names of the systems that were added to `schedule`, in the order in
/// which they were added.
pub uninterp spec fn schedule_systems(schedule: Schedule) -> Seq<Seq<char>>;

/// The label that `schedule` was made with.
pub uninterp spec fn schedule_label(schedule: Schedule) -> Label;

/// What `schedules` holds: for each label in it, the names of the systems
/// added to that label's schedule, in the order in which they were added.
pub uninterp spec fn schedules_systems(schedules: Schedules) -> Map<Label, Seq<Seq<char>>>;

/// The label that bevy interns `schedule` as. It is a function of the
/// argument alone: equal arguments of one type give one label.
pub open spec fn label_of<L>(schedule: L) -> Label {
    arbitrary::<spec_fn(L) -> Label>()(schedule)
}

/// The work that bevy makes of `systems` where `Marker` picks the conversion.
/// It is a function of the argument alone.
pub open spec fn work_of<S, Marker>(systems: S, marker: PhantomData<Marker>) -> Work {
    arbitrary::<spec_fn(S, PhantomData<Marker>) -> Work>()(systems, marker)
}

/// Calls `ScheduleLabel::intern`, which gives equal labels one interned label.
#[verifier::external_body]
pub(crate) fn intern_label<L: ScheduleLabel>(schedule: &L) -> (label: Label)
    ensures
        label == label_of::<L>(*schedule),
{
    Label { interned: schedule.intern() }
}

/// Calls `IntoSystemConfigs::into_configs`, the conversion that `Marker`
/// picks for `S`.
#[verifier::external_body]
pub(crate) fn into_work<S: IntoSystemConfigs<Marker>, Marker>(systems: S) -> (work: Work)
    ensures
        work == work_of(systems, PhantomData::<Marker>),
{
    Work { configs: systems.into_configs() }
}

/// Borrows what `work` holds.
#[verifier::external_body]
pub(crate) fn work_part<'a>(work: &'a Work) -> (part: Part<'a>)
    ensures
        part_shape(part) == work_shape(*work),
{
    Part { configs: &work.configs }
}

/// Tells the two variants of bevy's `NodeConfigs` apart: `None` for a single
/// system, and for a group its members, borrowed, in order.
#[verifier::external_body]
pub(crate) fn part_members<'a>(part: &Part<'a>) -> (members: Option<Vec<Part<'a>>>)
    ensures
        match members {
            None => part_shape(*part) == Shape::System,
            Some(parts) => {
                &&& part_shape(*part) matches Shape::Group(shapes)
                &&& shapes.len() == parts@.len()
                &&& forall|at: int|
                    0 <= at < shapes.len() ==> part_shape(#[trigger] parts@[at]) == shapes[at]
            },
        },
{
    match part.configs {
        NodeConfigs::NodeConfig(_) => None,
        NodeConfigs::Configs { configs, .. } => Some(
            configs.iter().map(|member| Part { configs: member }).collect(),
        ),
    }
}

/// Calls `Schedules::get_mut`, a lookup in a hash map by label. The result is
/// `Some` exactly when the registry has a schedule under `label`. The borrowed
/// schedule starts as the one stored there, and what it holds when the borrow
/// ends is stored under `label` from then on; the other entries stay.
#[verifier::external_body]
pub(crate) fn schedule_mut<'a>(schedules: &'a mut Schedules, label: &Label) -> (found: Option<
    &'a mut Schedule,
>)
    ensures
        found is Some <==> schedules_systems(*old(schedules)).dom().contains(*label),
        found is None ==> schedules_systems(*final(schedules)) == schedules_systems(
            *old(schedules),
        ),
        match found {
            Some(schedule) => {
                &&& schedule_systems(*schedule) == schedules_systems(*old(schedules))[*label]
                &&& schedules_systems(*final(schedules)) == schedules_systems(
                    *old(schedules),
                ).insert(*label, schedule_systems(*final(schedule)))
            },
            None => true,
        },
{
    schedules.get_mut(label.interned)
}

/// Calls `Schedule::new`: a schedule under `label` with no system in it.
#[verifier::external_body]
pub(crate) fn new_schedule(label: &Label) -> (schedule: Schedule)
    ensures
        schedule_label(schedule) == *label,
        schedule_systems(schedule) == Seq::<Seq<char>>::empty(),
{
    Schedule::new(label.interned)
}

/// Calls `Schedule::add_systems`. bevy pushes each system of `work` onto the
/// end of the schedule's list of systems, in the order of `work`, and leaves
/// the label alone.
///
/// Adding a single system cannot fail: the error that bevy unwraps there is
/// for a node that is its own set, and a system is no set. In a group bevy
/// indexes the first member where the group has run conditions of its own, and
/// unwraps the first or last system of a chained member. It panics there only
/// where a group has no member, which the precondition leaves out: a work in
/// which every group has a member has a system in each member.
#[verifier::external_body]
pub(crate) fn add_systems(schedule: &mut Schedule, work: Work)
    requires
        membered(work_shape(work)),
    ensures
        schedule_label(*final(schedule)) == schedule_label(*old(schedule)),
        schedule_systems(*final(schedule)) == schedule_systems(*old(schedule)) + work_systems(
            work,
        ),
{
    schedule.add_systems(work.configs);
}

/// Calls `Schedules::insert`, an insertion into a hash map under the
/// schedule's own label: the schedule takes the place of any that was stored
/// under that label, and the other entries stay.
#[verifier::external_body]
pub(crate) fn insert_schedule(schedules: &mut Schedules, schedule: Schedule)
    ensures
        schedules_systems(*final(schedules)) == schedules_systems(*old(schedules)).insert(
            schedule_label(schedule),
            schedule_systems(schedule),
        ),
{
    schedules.insert(schedule);
}

} // verus!
