//! What holds of the registry whatever is registered, removed and run.

use vstd::prelude::*;
use crate::model::{
    add_outcome, after_add, after_remove, dispatch_refusal, distinct_names, has_name,
    position_is_first_match, remove_outcome, well_formed, Entry,
};
use crate::name::help_word;
use crate::status::CommandProcessorError;

verus! {

/// One change to a registry.
pub enum Change<F> {
    /// An entry is registered.
    Add(Entry<F>),
    /// The command of that name is removed.
    Remove(Seq<char>),
}

/// The entries after one change.
pub open spec fn after_change<F>(entries: Seq<Entry<F>>, capacity: nat, change: Change<F>) -> Seq<
    Entry<F>,
> {
    match change {
        Change::Add(entry) => after_add(entries, capacity, entry),
        Change::Remove(name) => after_remove(entries, name),
    }
}

/// The entries of a registry that was empty and then went through
/// `changes`, the first one first.
pub open spec fn after_changes<F>(changes: Seq<Change<F>>, capacity: nat) -> Seq<Entry<F>>
    decreases changes.len(),
{
    if changes.len() == 0 {
        Seq::empty()
    } else {
        after_change(after_changes(changes.drop_last(), capacity), capacity, changes.last())
    }
}

/// One of the changes registers that name.
pub open spec fn ever_added<F>(changes: Seq<Change<F>>, name: Seq<char>) -> bool {
    exists|i: int|
        0 <= i < changes.len() && (#[trigger] changes[i] matches Change::Add(entry) && entry.name
            == name)
}

/// The registrations of `entries`, one after another.
pub open spec fn adds<F>(entries: Seq<Entry<F>>) -> Seq<Change<F>> {
    entries.map_values(|entry: Entry<F>| Change::Add(entry))
}

/// Registering keeps a registry well formed: it never holds more entries
/// than its capacity, nor two of one name.
pub proof fn add_keeps_well_formed<F>(entries: Seq<Entry<F>>, capacity: nat, entry: Entry<F>)
    requires
        well_formed(entries, capacity),
    ensures
        well_formed(after_add(entries, capacity, entry), capacity),
{
}

/// Removing keeps a registry well formed.
pub proof fn remove_keeps_well_formed<F>(entries: Seq<Entry<F>>, capacity: nat, name: Seq<char>)
    requires
        well_formed(entries, capacity),
    ensures
        well_formed(after_remove(entries, name), capacity),
{
    if has_name(entries, name) {
        position_is_first_match(entries, name);
    }
}

/// A registry that started empty is well formed after any changes.
pub proof fn changes_keep_well_formed<F>(changes: Seq<Change<F>>, capacity: nat)
    ensures
        well_formed(after_changes(changes, capacity), capacity),
    decreases changes.len(),
{
    if changes.len() > 0 {
        let before = after_changes(changes.drop_last(), capacity);
        changes_keep_well_formed(changes.drop_last(), capacity);
        match changes.last() {
            Change::Add(entry) => add_keeps_well_formed(before, capacity, entry),
            Change::Remove(name) => remove_keeps_well_formed(before, capacity, name),
        }
    }
}

/// Entries of distinct names are registered one after another in an empty
/// registry. As long as fewer than `capacity` are in, the next one is
/// accepted and goes to the end. Once `capacity` are in, every further one is
/// refused because the registry is full, and the registry keeps the first
/// `capacity` of them.
pub proof fn adds_succeed_up_to_capacity<F>(entries: Seq<Entry<F>>, capacity: nat, k: int)
    requires
        distinct_names(entries),
        0 <= k < entries.len(),
    ensures
        k < capacity ==> after_changes(adds(entries.take(k)), capacity) == entries.take(k)
            && add_outcome(entries.take(k), capacity, entries[k].name) == Ok::<
            (),
            CommandProcessorError,
        >(()),
        k >= capacity ==> after_changes(adds(entries.take(k)), capacity) == entries.take(
            capacity as int,
        ) && add_outcome(entries.take(capacity as int), capacity, entries[k].name) == Err::<
            (),
            CommandProcessorError,
        >(CommandProcessorError::CommandListFull),
    decreases k,
{
    let before = adds(entries.take(k));
    if k == 0 {
        assert(before =~= Seq::<Change<F>>::empty());
        assert(entries.take(0) =~= Seq::<Entry<F>>::empty());
    } else {
        adds_succeed_up_to_capacity(entries, capacity, k - 1);
        assert(before.drop_last() =~= adds(entries.take(k - 1)));
        assert(before.last() == Change::Add(entries[k - 1]));
        if k - 1 < capacity {
            assert(entries.take(k - 1).push(entries[k - 1]) =~= entries.take(k));
        }
    }
}

/// A name that is registered already is refused, and the registry stays as
/// it was.
pub proof fn add_of_registered_name_is_refused<F>(
    entries: Seq<Entry<F>>,
    capacity: nat,
    entry: Entry<F>,
)
    requires
        has_name(entries, entry.name),
    ensures
        add_outcome(entries, capacity, entry.name) == Err::<(), CommandProcessorError>(
            CommandProcessorError::CommandAlreadyExists,
        ),
        after_add(entries, capacity, entry) == entries,
{
}

/// A registered command is removed. Its name is then not registered any
/// more, and unless it is the reserved name, a dispatch of it is refused as
/// not found, with or without a sink.
pub proof fn removed_command_is_not_found<F>(
    entries: Seq<Entry<F>>,
    name: Seq<char>,
    has_sink: bool,
)
    requires
        distinct_names(entries),
        has_name(entries, name),
    ensures
        remove_outcome(entries, name) == Ok::<(), CommandProcessorError>(()),
        !has_name(after_remove(entries, name), name),
        name != help_word() ==> dispatch_refusal(after_remove(entries, name), name, has_sink)
            == Some(CommandProcessorError::CommandNotFound),
{
    position_is_first_match(entries, name);
}

/// A name that is not registered cannot be removed, and the registry stays
/// as it was.
pub proof fn remove_of_unregistered_name_is_refused<F>(entries: Seq<Entry<F>>, name: Seq<char>)
    requires
        !has_name(entries, name),
    ensures
        remove_outcome(entries, name) == Err::<(), CommandProcessorError>(
            CommandProcessorError::CommandNotFound,
        ),
        after_remove(entries, name) == entries,
{
}

/// A name that was never registered, whatever else was registered and
/// removed, is not in the registry, and unless it is the reserved name, a
/// dispatch of it is refused as not found, with or without a sink.
pub proof fn never_added_is_not_found<F>(
    changes: Seq<Change<F>>,
    capacity: nat,
    name: Seq<char>,
    has_sink: bool,
)
    requires
        !ever_added(changes, name),
    ensures
        !has_name(after_changes(changes, capacity), name),
        name != help_word() ==> dispatch_refusal(after_changes(changes, capacity), name, has_sink)
            == Some(CommandProcessorError::CommandNotFound),
    decreases changes.len(),
{
    if changes.len() > 0 {
        let earlier = changes.drop_last();
        let before = after_changes(earlier, capacity);
        assert forall|i: int| 0 <= i < earlier.len() implies !(#[trigger] earlier[i] matches Change::Add(
            entry,
        ) && entry.name == name) by {
            assert(earlier[i] == changes[i]);
        }
        never_added_is_not_found(earlier, capacity, name, has_sink);
        match changes.last() {
            Change::Add(entry) => {
                assert(changes[changes.len() - 1] == Change::Add(entry));
                assert(entry.name != name);
            },
            Change::Remove(gone) => {
                if has_name(before, gone) {
                    position_is_first_match(before, gone);
                }
            },
        }
    }
}

/// The reserved name is never looked up: without a sink its dispatch is
/// refused for want of one, whatever is registered, and with a sink it is
/// not refused before the listing is written.
pub proof fn help_is_never_looked_up<F>(entries: Seq<Entry<F>>, has_sink: bool)
    ensures
        dispatch_refusal(entries, help_word(), has_sink) == if has_sink {
            None
        } else {
            Some(CommandProcessorError::NoWriter)
        },
{
}

} // verus!
