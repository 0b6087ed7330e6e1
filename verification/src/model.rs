//! The rules of check-and-mark and of one-time registration, as functions on
//! sets of tags and maps of schedules.

use vstd::prelude::*;
use crate::schedule::Label;
use crate::store::Tag;

verus! {

/// Whether checking `tag` against `flags` finds it not yet marked.
pub open spec fn newly(flags: Set<Tag>, tag: Tag) -> bool {
    !flags.contains(tag)
}

/// `flags` once `tag` has been checked and marked: a flag is never taken away,
/// and marking a marked tag changes nothing.
pub open spec fn marked(flags: Set<Tag>, tag: Tag) -> Set<Tag> {
    flags.insert(tag)
}

/// `flags` once each of `tags` has been checked and marked, first to last.
pub open spec fn marked_all(flags: Set<Tag>, tags: Seq<Tag>) -> Set<Tag>
    decreases tags.len(),
{
    if tags.len() == 0 {
        flags
    } else {
        marked(marked_all(flags, tags.drop_last()), tags.last())
    }
}

/// How a work is built: one system, or a group of members that are built the
/// same way.
pub enum Shape {
    System,
    Group(Seq<Shape>),
}

/// Whether every group in `shape` has a member. bevy's adding of systems
/// reaches for the first member of a group and for the first and last system
/// of a chained member; it finds them in a work of such a shape.
pub open spec fn membered(shape: Shape) -> bool
    decreases shape,
{
    match shape {
        Shape::System => true,
        Shape::Group(members) => members.len() > 0 && forall|at: int|
            0 <= at < members.len() ==> membered(#[trigger] members[at]),
    }
}

/// The systems of the schedule under `label`, none where there is no such
/// schedule.
pub open spec fn systems_under(registry: Map<Label, Seq<Seq<char>>>, label: Label) -> Seq<
    Seq<char>,
> {
    if registry.dom().contains(label) {
        registry[label]
    } else {
        Seq::empty()
    }
}

/// `registry` once `systems` has been appended to the schedule under `label`,
/// which is made first where the registry has none.
pub open spec fn appended(
    registry: Map<Label, Seq<Seq<char>>>,
    label: Label,
    systems: Seq<Seq<char>>,
) -> Map<Label, Seq<Seq<char>>> {
    registry.insert(label, systems_under(registry, label) + systems)
}

/// `registry` after one call that registers `systems` under `label` only where
/// the tag was newly marked.
pub open spec fn registered(
    registry: Map<Label, Seq<Seq<char>>>,
    fresh: bool,
    label: Label,
    systems: Seq<Seq<char>>,
) -> Map<Label, Seq<Seq<char>>> {
    if fresh {
        appended(registry, label, systems)
    } else {
        registry
    }
}

} // verus!
