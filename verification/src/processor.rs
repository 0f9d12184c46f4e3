//! The registry itself.

use vstd::prelude::*;
use crate::help_text::HelpText;
use crate::model::{
    add_outcome, after_add, after_remove, dispatch_refusal, has_name, help_listing,
    is_first_match, listing_result, listing_written, position, position_is_first_match,
    remove_outcome, stopped_in_line, well_formed, Entry,
};
use crate::name::{help_word, name_is, name_text, names_equal};
use crate::sink::Sink;
use crate::status::{CommandCallbackReturn, CommandProcessorError, ReturnCode};

verus! {

/// The callbacks of a registry whose commands are plain functions.
pub type CommandCallback<'a> = fn(Option<&mut (dyn Sink + 'a)>) -> CommandCallbackReturn;

struct CommandItem<const H: usize, F> {
    command: heapless::String<32>,
    callback: F,
    help: Option<HelpText<H>>,
}

impl<const H: usize, F> CommandItem<H, F> {
    spec fn entry(&self) -> Entry<F> {
        Entry {
            name: name_text(&self.command),
            callback: self.callback,
            help: match self.help {
                Some(help) => Some(help@),
                None => None,
            },
        }
    }
}

/// A registry of at most `N` commands, whose help texts take at most `H`
/// bytes each and whose callbacks are of type `F`.
pub struct CommandProcessor<const N: usize, const H: usize, F = CommandCallback<'static>> {
    commands: Vec<CommandItem<H, F>>,
}

impl<const N: usize, const H: usize, F> View for CommandProcessor<N, H, F> {
    type V = Seq<Entry<F>>;

    /// The entries, in the order in which the registry holds them.
    closed spec fn view(&self) -> Seq<Entry<F>> {
        self.commands@.map_values(|item: CommandItem<H, F>| item.entry())
    }
}

impl<const N: usize, const H: usize, F> Default for CommandProcessor<N, H, F> {
    /// An empty registry.
    fn default() -> (r: Self)
        ensures
            r@ == Seq::<Entry<F>>::empty(),
            r.wf(),
    {
        Self::new()
    }
}

impl<const N: usize, const H: usize, F> CommandProcessor<N, H, F> {
    /// The registry holds at most `N` entries, and no two of one name.
    pub open spec fn wf(&self) -> bool {
        well_formed(self@, N as nat)
    }

    /// An empty registry.
    pub fn new() -> (r: Self)
        ensures
            r@ == Seq::<Entry<F>>::empty(),
            r.wf(),
    {
        let r = CommandProcessor { commands: Vec::new() };
        assert(r@ =~= Seq::<Entry<F>>::empty());
        r
    }

    /// Whether a command of that name is registered, and where.
    fn find(&self, command: &heapless::String<32>) -> (r: Option<usize>)
        ensures
            r is Some <==> has_name(self@, name_text(command)),
            r matches Some(i) ==> is_first_match(self@, name_text(command), i as int),
    {
        let mut i: usize = 0;
        while i < self.commands.len()
            invariant
                i <= self.commands.len(),
                forall|j: int| 0 <= j < i ==> #[trigger] self@[j].name != name_text(command),
            decreases self.commands.len() - i,
        {
            if names_equal(&self.commands[i].command, command) {
                assert(self@[i as int].name == name_text(command));
                return Some(i);
            }
            i += 1;
        }
        None
    }

    /// Registers a command under `command`, with the callback that runs it
    /// and its help text, if it has one. The new entry goes to the end. A
    /// name that is registered already is refused, and so is any name once
    /// the registry holds `N` entries; the registry then stays as it was.
    pub fn add_command(
        &mut self,
        command: heapless::String<32>,
        callback: F,
        help: Option<HelpText<H>>,
    ) -> (r: Result<(), CommandProcessorError>)
        requires
            old(self).wf(),
        ensures
            final(self).wf(),
            r == add_outcome(old(self)@, N as nat, name_text(&command)),
            final(self)@ == after_add(
                old(self)@,
                N as nat,
                (Entry {
                    name: name_text(&command),
                    callback,
                    help: match help {
                        Some(text) => Some(text@),
                        None => None,
                    },
                }),
            ),
    {
        if self.find(&command).is_some() {
            return Err(CommandProcessorError::CommandAlreadyExists);
        }
        if self.commands.len() >= N {
            return Err(CommandProcessorError::CommandListFull);
        }
        let item = CommandItem { command, callback, help };
        self.commands.push(item);
        assert(self@ =~= old(self)@.push(item.entry()));
        Ok(())
    }

    /// Removes the command registered under `command`. The last entry takes
    /// its place, so the order of the others may change. Where no such
    /// command is registered the registry stays as it was.
    pub fn remove_command(&mut self, command: heapless::String<32>) -> (r: Result<
        (),
        CommandProcessorError,
    >)
        requires
            old(self).wf(),
        ensures
            final(self).wf(),
            r == remove_outcome(old(self)@, name_text(&command)),
            final(self)@ == after_remove(old(self)@, name_text(&command)),
    {
        match self.find(&command) {
            Some(i) => {
                proof {
                    position_is_first_match(old(self)@, name_text(&command));
                }
                self.commands.swap_remove(i);
                assert(self@ =~= after_remove(old(self)@, name_text(&command)));
                Ok(())
            },
            None => Err(CommandProcessorError::CommandNotFound),
        }
    }

    /// Writes the help listing: for each entry that has a help text, in the
    /// order in which the registry holds them, the text and a line feed. It
    /// stops at the first write that the sink refuses; what the sink took
    /// until then stays with it.
    fn help_printer<W: Sink + ?Sized>(&self, writer: &mut W) -> (r: CommandCallbackReturn)
        ensures
            listing_result(self@, r),
            old(writer).never_refuses() ==> r is Ok && final(writer).never_refuses(),
            listing_written(self@, old(writer).record(), final(writer).record(), r is Ok),
    {
        let mut i: usize = 0;
        while i < self.commands.len()
            invariant
                i <= self.commands.len(),
                old(writer).never_refuses() ==> writer.never_refuses(),
                old(writer).record() matches Some(before) ==> writer.record() == Some(
                    before + help_listing(self@.take(i as int)),
                ),
            decreases self.commands.len() - i,
        {
            proof {
                assert(self@.take(i + 1).drop_last() =~= self@.take(i as int));
            }
            match &self.commands[i].help {
                Some(help) => {
                    proof {
                        assert(self@[i as int].help is Some);
                        reveal_strlit("\n");
                        if let Some(before) = old(writer).record() {
                            let begun = before + help_listing(self@.take(i as int));
                            assert(begun + help@ + "\n"@ =~= before + help_listing(
                                self@.take(i + 1),
                            ));
                        }
                    }
                    if writer.write_str(help.as_str()).is_err() {
                        assert(old(writer).record() matches Some(before) ==> stopped_in_line(
                            self@,
                            before,
                            writer.record().unwrap(),
                            i as int,
                        ));
                        return Err(CommandProcessorError::WriteError);
                    }
                    if writer.write_str("\n").is_err() {
                        assert(old(writer).record() matches Some(before) ==> stopped_in_line(
                            self@,
                            before,
                            writer.record().unwrap(),
                            i as int,
                        ));
                        return Err(CommandProcessorError::WriteError);
                    }
                },
                None => {},
            }
            i += 1;
        }
        assert(self@.take(i as int) =~= self@);
        Ok(ReturnCode::Success)
    }

    /// Runs the command registered under `command` and returns what its
    /// callback returns; the callback gets the sink as it was given. The
    /// reserved name `help` never reaches a callback: it writes the help
    /// listing to the sink, and is refused where there is no sink. A name
    /// that is not registered is refused, and the sink left alone.
    pub fn process_command<W: Sink + ?Sized>(
        &mut self,
        command: &heapless::String<32>,
        writer: Option<&mut W>,
    ) -> (r: CommandCallbackReturn) where F: Fn(Option<&mut W>) -> CommandCallbackReturn
        requires
            old(self).wf(),
            forall|i: int|
                0 <= i < old(self)@.len() ==> call_requires(
                    (#[trigger] old(self)@[i]).callback,
                    (writer,),
                ),
        ensures
            *final(self) == *old(self),
            dispatch_refusal(old(self)@, name_text(command), writer is Some) matches Some(e) ==> r
                == Err::<ReturnCode, CommandProcessorError>(e) && (writer matches Some(sink)
                ==> final(sink).record() == sink.record() && final(sink).never_refuses()
                == sink.never_refuses()),
            name_text(command) == help_word() ==> (writer matches Some(sink) ==> {
                &&& listing_result(old(self)@, r)
                &&& sink.never_refuses() ==> r is Ok && final(sink).never_refuses()
                &&& listing_written(old(self)@, sink.record(), final(sink).record(), r is Ok)
            }),
            name_text(command) != help_word() && has_name(old(self)@, name_text(command))
                ==> call_ensures(
                old(self)@[position(old(self)@, name_text(command))].callback,
                (writer,),
                r,
            ),
    {
        if name_is(command, "help") {
            return match writer {
                Some(sink) => self.help_printer(sink),
                None => Err(CommandProcessorError::NoWriter),
            };
        }
        match self.find(command) {
            Some(i) => {
                proof {
                    position_is_first_match(self@, name_text(command));
                }
                (self.commands[i].callback)(writer)
            },
            None => Err(CommandProcessorError::CommandNotFound),
        }
    }
}

} // verus!
