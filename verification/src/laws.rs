//! What holds of check-and-mark and of one-time registration, whatever the
//! tags, labels and systems.

use vstd::prelude::*;
use crate::model::{appended, marked, marked_all, newly, registered, systems_under};
use crate::schedule::Label;
use crate::store::Tag;

verus! {

/// A flag is never taken away: a tag that is marked stays marked through any
/// run of later calls, for whatever tags.
pub proof fn lemma_marked_stays_marked(flags: Set<Tag>, tag: Tag, later: Seq<Tag>)
    requires
        !newly(flags, tag),
    ensures
        !newly(marked_all(flags, later), tag),
    decreases later.len(),
{
    if later.len() > 0 {
        lemma_marked_stays_marked(flags, tag, later.drop_last());
    }
}

/// The first check of a tag on a store without flags finds it new. Once a tag
/// has been checked, every later check of it finds it marked, whatever was
/// checked in between.
pub proof fn lemma_new_exactly_once(flags: Set<Tag>, tag: Tag, between: Seq<Tag>)
    ensures
        newly(Set::empty(), tag),
        !newly(marked(flags, tag), tag),
        !newly(marked_all(marked(flags, tag), between), tag),
        marked(marked(flags, tag), tag) == marked(flags, tag),
{
    lemma_marked_stays_marked(marked(flags, tag), tag, between);
}

/// Flags of distinct tags are independent: marking one changes neither the
/// answer for the other nor whether the other is marked, in either order.
pub proof fn lemma_tags_independent(flags: Set<Tag>, one: Tag, other: Tag)
    requires
        one != other,
    ensures
        newly(marked(flags, one), other) == newly(flags, other),
        marked(marked(flags, one), other) == marked(marked(flags, other), one),
{
}

/// Calling twice with one tag, label and systems registers once: the second
/// call is not new and leaves flags and registry as the first left them, and
/// where the first was new the label's schedule holds what it held before and
/// then the systems, one time.
pub proof fn lemma_registers_once(
    flags: Set<Tag>,
    registry: Map<Label, Seq<Seq<char>>>,
    tag: Tag,
    label: Label,
    systems: Seq<Seq<char>>,
)
    ensures
        ({
            let first = newly(flags, tag);
            let flags1 = marked(flags, tag);
            let registry1 = registered(registry, first, label, systems);
            let second = newly(flags1, tag);
            let registry2 = registered(registry1, second, label, systems);
            &&& !second
            &&& marked(flags1, tag) == flags1
            &&& registry2 == registry1
            &&& first ==> registry2.dom().contains(label)
            &&& first ==> registry2[label] == systems_under(registry, label) + systems
            &&& !first ==> registry2 == registry
        }),
{
}

/// Registering under one label touches no other: every other label has a
/// schedule after exactly when it had one before, with the same systems.
pub proof fn lemma_other_labels_untouched(
    registry: Map<Label, Seq<Seq<char>>>,
    fresh: bool,
    label: Label,
    systems: Seq<Seq<char>>,
    other: Label,
)
    requires
        other != label,
    ensures
        registered(registry, fresh, label, systems).dom().contains(other)
            == registry.dom().contains(other),
        systems_under(registered(registry, fresh, label, systems), other) == systems_under(
            registry,
            other,
        ),
{
}

/// The same systems under two distinct labels are tracked apart, where the two
/// calls have distinct tags: the second call's answer does not depend on the
/// first, each label's schedule ends as its own call alone would leave it, and
/// from a store that has neither tag both calls are new.
pub proof fn lemma_two_labels_tracked_apart(
    flags: Set<Tag>,
    registry: Map<Label, Seq<Seq<char>>>,
    tag1: Tag,
    label1: Label,
    tag2: Tag,
    label2: Label,
    systems: Seq<Seq<char>>,
)
    requires
        label1 != label2,
        tag1 != tag2,
    ensures
        ({
            let first = newly(flags, tag1);
            let registry1 = registered(registry, first, label1, systems);
            let second = newly(marked(flags, tag1), tag2);
            let registry2 = registered(registry1, second, label2, systems);
            &&& second == newly(flags, tag2)
            &&& systems_under(registry2, label1) == systems_under(registry1, label1)
            &&& systems_under(registry2, label2) == systems_under(
                registered(registry, second, label2, systems),
                label2,
            )
            &&& !flags.contains(tag1) && !flags.contains(tag2) ==> {
                &&& first
                &&& second
                &&& registry2[label1] == systems_under(registry, label1) + systems
                &&& registry2[label2] == systems_under(registry, label2) + systems
            }
        }),
{
}

/// Two calls with distinct tags under one label both register, whether or not
/// their systems bear the same names: the second call's answer does not depend
/// on the first, and from a store that has neither tag both calls are new and
/// the label's schedule holds what it held before, then the first systems,
/// then the second.
pub proof fn lemma_one_label_both_appended(
    flags: Set<Tag>,
    registry: Map<Label, Seq<Seq<char>>>,
    label: Label,
    tag1: Tag,
    systems1: Seq<Seq<char>>,
    tag2: Tag,
    systems2: Seq<Seq<char>>,
)
    requires
        tag1 != tag2,
    ensures
        ({
            let first = newly(flags, tag1);
            let registry1 = registered(registry, first, label, systems1);
            let second = newly(marked(flags, tag1), tag2);
            let registry2 = registered(registry1, second, label, systems2);
            &&& second == newly(flags, tag2)
            &&& !flags.contains(tag1) && !flags.contains(tag2) ==> {
                &&& first
                &&& second
                &&& registry2[label] == systems_under(registry, label) + systems1 + systems2
            }
        }),
{
}

/// Appending makes the label's schedule where there is none and keeps what a
/// schedule already holds in front of the new systems.
pub proof fn lemma_appended_keeps_order(
    registry: Map<Label, Seq<Seq<char>>>,
    label: Label,
    systems: Seq<Seq<char>>,
)
    ensures
        appended(registry, label, systems).dom().contains(label),
        !registry.dom().contains(label) ==> appended(registry, label, systems)[label] == systems,
        registry.dom().contains(label) ==> appended(registry, label, systems)[label]
            == registry[label] + systems,
        appended(registry, label, systems)[label].len() == systems_under(registry, label).len()
            + systems.len(),
{
}

} // verus!
