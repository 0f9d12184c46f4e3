//! The registry as a sequence of entries, and what each operation does to it.

use vstd::prelude::*;
use crate::name::help_word;
use crate::status::{CommandCallbackReturn, CommandProcessorError, ReturnCode};

verus! {

/// One registered command.
pub struct Entry<F> {
    pub name: Seq<char>,
    pub callback: F,
    pub help: Option<Seq<char>>,
}

/// Some entry has that name.
pub open spec fn has_name<F>(entries: Seq<Entry<F>>, name: Seq<char>) -> bool {
    exists|i: int| 0 <= i < entries.len() && #[trigger] entries[i].name == name
}

/// Entry `i` has that name and no entry before it has.
pub open spec fn is_first_match<F>(entries: Seq<Entry<F>>, name: Seq<char>, i: int) -> bool {
    &&& 0 <= i < entries.len()
    &&& entries[i].name == name
    &&& forall|j: int| 0 <= j < i ==> #[trigger] entries[j].name != name
}

/// Where the first entry of that name stands, if there is one.
pub open spec fn position<F>(entries: Seq<Entry<F>>, name: Seq<char>) -> int {
    choose|i: int| is_first_match(entries, name, i)
}

/// No two entries share a name.
pub open spec fn distinct_names<F>(entries: Seq<Entry<F>>) -> bool {
    forall|i: int, j: int|
        0 <= i < j < entries.len() ==> #[trigger] entries[i].name != #[trigger] entries[j].name
}

/// A registry of capacity `capacity` may hold these entries.
pub open spec fn well_formed<F>(entries: Seq<Entry<F>>, capacity: nat) -> bool {
    entries.len() <= capacity && distinct_names(entries)
}

/// What registering `name` reports: a name that is there already is refused
/// first, then a full registry.
pub open spec fn add_outcome<F>(entries: Seq<Entry<F>>, capacity: nat, name: Seq<char>) -> Result<
    (),
    CommandProcessorError,
> {
    if has_name(entries, name) {
        Err(CommandProcessorError::CommandAlreadyExists)
    } else if entries.len() >= capacity {
        Err(CommandProcessorError::CommandListFull)
    } else {
        Ok(())
    }
}

/// The entries after registering `entry`: it goes to the end, or nothing
/// changes where the registration is refused.
pub open spec fn after_add<F>(entries: Seq<Entry<F>>, capacity: nat, entry: Entry<F>) -> Seq<
    Entry<F>,
> {
    if add_outcome(entries, capacity, entry.name) is Ok {
        entries.push(entry)
    } else {
        entries
    }
}

/// The entries without entry `i`: the last entry takes its place.
pub open spec fn swap_removed<F>(entries: Seq<Entry<F>>, i: int) -> Seq<Entry<F>>
    recommends
        0 <= i < entries.len(),
{
    entries.update(i, entries.last()).drop_last()
}

/// What removing `name` reports.
pub open spec fn remove_outcome<F>(entries: Seq<Entry<F>>, name: Seq<char>) -> Result<
    (),
    CommandProcessorError,
> {
    if has_name(entries, name) {
        Ok(())
    } else {
        Err(CommandProcessorError::CommandNotFound)
    }
}

/// The entries after removing `name`: the first entry of that name gives its
/// place to the last one, or nothing changes where there is none.
pub open spec fn after_remove<F>(entries: Seq<Entry<F>>, name: Seq<char>) -> Seq<Entry<F>> {
    if has_name(entries, name) {
        swap_removed(entries, position(entries, name))
    } else {
        entries
    }
}

/// The line that the help listing holds for an entry: its help text and a
/// line feed, or nothing for an entry without help text.
pub open spec fn help_line<F>(entry: Entry<F>) -> Seq<char> {
    match entry.help {
        Some(help) => help.push('\n'),
        None => Seq::empty(),
    }
}

/// The help listing: the lines of the entries, in the order in which the
/// registry holds them.
pub open spec fn help_listing<F>(entries: Seq<Entry<F>>) -> Seq<char>
    decreases entries.len(),
{
    if entries.len() == 0 {
        Seq::empty()
    } else {
        help_listing(entries.drop_last()) + help_line(entries.last())
    }
}

/// Some entry has a help text.
pub open spec fn has_help<F>(entries: Seq<Entry<F>>) -> bool {
    exists|i: int| 0 <= i < entries.len() && (#[trigger] entries[i]).help is Some
}

/// What writing the help listing may report: success, or a refused write
/// where there was a help text to write.
pub open spec fn listing_result<F>(entries: Seq<Entry<F>>, r: CommandCallbackReturn) -> bool {
    r == Ok::<ReturnCode, CommandProcessorError>(ReturnCode::Success) || (r == Err::<
        ReturnCode,
        CommandProcessorError,
    >(CommandProcessorError::WriteError) && has_help(entries))
}

/// The sink stopped within the line of entry `k`: it holds what it held, the
/// lines of the entries before `k`, and a leading part of the line of `k`.
pub open spec fn stopped_in_line<F>(
    entries: Seq<Entry<F>>,
    old_text: Seq<char>,
    new_text: Seq<char>,
    k: int,
) -> bool {
    &&& 0 <= k < entries.len()
    &&& entries[k].help is Some
    &&& (old_text + help_listing(entries.take(k))).is_prefix_of(new_text)
    &&& new_text.is_prefix_of(old_text + help_listing(entries.take(k + 1)))
}

/// What writing the help listing does to a sink that keeps track of its text,
/// `before` and `after` being its records. Where every write went through,
/// the listing stands behind what the sink held. Where a write was refused,
/// the sink stopped within the line of some entry.
pub open spec fn listing_written<F>(
    entries: Seq<Entry<F>>,
    before: Option<Seq<char>>,
    after: Option<Seq<char>>,
    complete: bool,
) -> bool {
    before matches Some(old_text) ==> (after matches Some(new_text) && if complete {
        new_text == old_text + help_listing(entries)
    } else {
        exists|k: int| stopped_in_line(entries, old_text, new_text, k)
    })
}

/// The error that a dispatch owes before any callback or sink has a say:
/// the reserved name without a sink, or a name that is not registered.
pub open spec fn dispatch_refusal<F>(entries: Seq<Entry<F>>, name: Seq<char>, has_sink: bool) -> Option<
    CommandProcessorError,
> {
    if name == help_word() {
        if has_sink {
            None
        } else {
            Some(CommandProcessorError::NoWriter)
        }
    } else if has_name(entries, name) {
        None
    } else {
        Some(CommandProcessorError::CommandNotFound)
    }
}

/// Where there is an entry of that name, `position` is its first match.
pub proof fn position_is_first_match<F>(entries: Seq<Entry<F>>, name: Seq<char>)
    requires
        has_name(entries, name),
    ensures
        is_first_match(entries, name, position(entries, name)),
{
    first_match_exists(entries, name, entries.len() as int);
}

proof fn first_match_exists<F>(entries: Seq<Entry<F>>, name: Seq<char>, n: int)
    requires
        0 <= n <= entries.len(),
        exists|i: int| 0 <= i < n && #[trigger] entries[i].name == name,
    ensures
        exists|i: int| is_first_match(entries, name, i),
    decreases n,
{
    if exists|i: int| 0 <= i < n - 1 && #[trigger] entries[i].name == name {
        first_match_exists(entries, name, n - 1);
    } else {
        assert(is_first_match(entries, name, n - 1));
    }
}

} // verus!
