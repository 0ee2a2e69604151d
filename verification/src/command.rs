//! The subprocess runner: what the two readers of a child process report,
//! and how the reports are collected into the result of the run.
//!
//! The child's standard output and standard error are read at the same
//! time, each by a reader of its own, and every read becomes a
//! `CommandOutput` in one queue. An `OutputCollector` takes the events in
//! the order of their arrival until both streams are closed.

use vstd::prelude::*;
use vstd::slice::*;
use vstd::string::*;
use crate::errors::{JobError, JobResult};
use crate::text::{segments, split};

verus! {

/// A program and its arguments.
#[derive(Debug, PartialEq, Eq)]
pub struct CommandLine {
    pub program: String,
    pub args: Vec<String>,
}

/// A `CommandLine` as text.
pub struct CommandLineView {
    pub program: Seq<char>,
    pub args: Seq<Seq<char>>,
}

impl View for CommandLine {
    type V = CommandLineView;

    open spec fn view(&self) -> CommandLineView {
        CommandLineView { program: self.program@, args: self.args.deep_view() }
    }
}

/// The argument that an optional setting adds to a command line: `flag`
/// followed by the value where there is one, and nothing where there is
/// none.
pub open spec fn optional_arg(flag: Seq<char>, value: Option<Seq<char>>) -> Seq<Seq<char>> {
    match value {
        Some(v) => seq![flag + v],
        None => Seq::empty(),
    }
}

impl CommandLine {
    /// The command line of `program` without arguments.
    pub fn new(program: &str) -> (c: CommandLine)
        ensures
            c@ == (CommandLineView { program: program@, args: Seq::empty() }),
    {
        let c = CommandLine { program: String::from_str(program), args: Vec::new() };
        assert(c.args.deep_view() =~= Seq::empty());
        c
    }

    /// Adds the argument `arg`.
    pub fn arg(&mut self, arg: &str)
        ensures
            final(self)@ == (CommandLineView {
                program: old(self)@.program,
                args: old(self)@.args.push(arg@),
            }),
    {
        self.args.push(String::from_str(arg));
        assert(self.args.deep_view() =~= old(self).args.deep_view().push(arg@));
    }

    /// Adds one argument made of `flag` followed by `value`.
    pub fn arg_with(&mut self, flag: &str, value: &str)
        ensures
            final(self)@ == (CommandLineView {
                program: old(self)@.program,
                args: old(self)@.args.push(flag@ + value@),
            }),
    {
        let mut text = String::from_str(flag);
        text.append(value);
        self.args.push(text);
        assert(self.args.deep_view() =~= old(self).args.deep_view().push(flag@ + value@));
    }

    /// Adds `flag` followed by the value where there is one.
    pub fn optional_arg(&mut self, flag: &str, value: &Option<String>)
        ensures
            final(self)@ == (CommandLineView {
                program: old(self)@.program,
                args: old(self)@.args + optional_arg(
                    flag@,
                    match *value {
                        Some(v) => Some(v@),
                        None => None,
                    },
                ),
            }),
    {
        match value {
            Some(v) => {
                self.arg_with(flag, v.as_str());
                assert(self@.args =~= old(self)@.args + seq![flag@ + v@]);
            },
            None => {},
        }
    }
}

/// The stream of a child process that a chunk of output came from.
#[derive(Debug, Clone, Copy, PartialEq, Eq, Structural)]
pub enum CommandOutputSource {
    Stdout,
    Stderr,
}

impl CommandOutputSource {
    /// The marker put before a line of this stream in a log.
    pub open spec fn marker(self) -> Seq<char> {
        match self {
            CommandOutputSource::Stdout => "|"@,
            CommandOutputSource::Stderr => ">"@,
        }
    }

    /// The marker put before a line of this stream in a log.
    pub fn prefix(&self) -> (r: &'static str)
        ensures
            r@ == self.marker(),
    {
        match self {
            CommandOutputSource::Stdout => "|",
            CommandOutputSource::Stderr => ">",
        }
    }
}

/// What a reader reports: a chunk of output, or the end of its stream.
#[derive(Debug, PartialEq, Eq)]
pub enum CommandOutput {
    Data(CommandOutputSource, Vec<u8>),
    Closed(CommandOutputSource),
}

/// A `CommandOutput` with the chunk as a sequence of bytes.
pub enum CommandOutputView {
    Data(CommandOutputSource, Seq<u8>),
    Closed(CommandOutputSource),
}

impl View for CommandOutput {
    type V = CommandOutputView;

    open spec fn view(&self) -> CommandOutputView {
        match self {
            CommandOutput::Data(source, bytes) => CommandOutputView::Data(*source, bytes@),
            CommandOutput::Closed(source) => CommandOutputView::Closed(*source),
        }
    }
}

/// What the reader of `source` reports after one read into `buffer`, and
/// whether it reads on. `read` is the number of bytes that the read gave,
/// or `None` where it failed. A read of no bytes and a failed read both
/// close the stream.
pub fn reader_event(source: CommandOutputSource, buffer: &[u8], read: Option<usize>) -> (r: (
    CommandOutput,
    bool,
))
    requires
        read matches Some(n) ==> n <= buffer@.len(),
    ensures
        match read {
            Some(n) if n > 0 => r.0@ == CommandOutputView::Data(source, buffer@.take(n as int))
                && r.1,
            _ => r.0@ == CommandOutputView::Closed(source) && !r.1,
        },
{
    match read {
        Some(n) => {
            if n == 0 {
                (CommandOutput::Closed(source), false)
            } else {
                let data = slice_to_vec(slice_subrange(buffer, 0, n));
                (CommandOutput::Data(source, data), true)
            }
        },
        None => (CommandOutput::Closed(source), false),
    }
}

/// The text that `String::from_utf8_lossy` makes of `bytes`.
pub uninterp spec fn utf8_lossy(bytes: Seq<u8>) -> Seq<char>;

/// `String::from_utf8_lossy`: the bytes read as UTF-8, with U+FFFD in place
/// of what is no UTF-8. The contract only gives the text a name.
#[verifier::external_body]
pub(crate) fn lossy_text(bytes: &Vec<u8>) -> (s: String)
    ensures
        s@ == utf8_lossy(bytes@),
{
    String::from_utf8_lossy(bytes).into_owned()
}

/// The state of a collector: how many streams are still open, all output
/// so far, and the part of it that came from standard error.
pub struct CollectorView {
    pub remaining: nat,
    pub log: Seq<u8>,
    pub stderr: Seq<u8>,
}

/// The collector before any event: both streams open, nothing collected.
pub open spec fn collector_start() -> CollectorView {
    CollectorView { remaining: 2, log: Seq::empty(), stderr: Seq::empty() }
}

/// The collector after one more event. Once both streams are closed,
/// nothing changes it.
pub open spec fn absorbed(c: CollectorView, event: CommandOutputView) -> CollectorView {
    if c.remaining == 0 {
        c
    } else {
        match event {
            CommandOutputView::Data(source, bytes) => CollectorView {
                remaining: c.remaining,
                log: c.log + bytes,
                stderr: if source == CommandOutputSource::Stderr {
                    c.stderr + bytes
                } else {
                    c.stderr
                },
            },
            CommandOutputView::Closed(_) => CollectorView {
                remaining: (c.remaining - 1) as nat,
                log: c.log,
                stderr: c.stderr,
            },
        }
    }
}

/// The collector after a run of events, taken in their order.
pub open spec fn absorbed_all(c: CollectorView, events: Seq<CommandOutputView>) -> CollectorView
    decreases events.len(),
{
    if events.len() == 0 {
        c
    } else {
        absorbed(absorbed_all(c, events.drop_last()), events.last())
    }
}

/// The chunks of `events` one after the other, in the order of the events.
pub open spec fn chunks(events: Seq<CommandOutputView>) -> Seq<u8>
    decreases events.len(),
{
    if events.len() == 0 {
        Seq::empty()
    } else {
        match events.last() {
            CommandOutputView::Data(_, bytes) => chunks(events.drop_last()) + bytes,
            CommandOutputView::Closed(_) => chunks(events.drop_last()),
        }
    }
}

/// The chunks of `events` that came from `source`, in the order of the
/// events.
pub open spec fn chunks_from(events: Seq<CommandOutputView>, source: CommandOutputSource) -> Seq<
    u8,
>
    decreases events.len(),
{
    if events.len() == 0 {
        Seq::empty()
    } else {
        match events.last() {
            CommandOutputView::Data(from, bytes) if from == source => chunks_from(
                events.drop_last(),
                source,
            ) + bytes,
            _ => chunks_from(events.drop_last(), source),
        }
    }
}

/// A collector never gains an open stream.
pub proof fn lemma_remaining_never_grows(c: CollectorView, events: Seq<CommandOutputView>)
    ensures
        absorbed_all(c, events).remaining <= c.remaining,
    decreases events.len(),
{
    if events.len() > 0 {
        lemma_remaining_never_grows(c, events.drop_last());
    }
}

/// The combined log is the chunks in the order of their arrival, byte for
/// byte, and the error output is those of standard error, for every run of
/// events that a collector takes while a stream is open: before the last
/// event of the run at least one stream was.
pub proof fn lemma_log_in_arrival_order(events: Seq<CommandOutputView>)
    requires
        events.len() > 0 ==> absorbed_all(collector_start(), events.drop_last()).remaining > 0,
    ensures
        absorbed_all(collector_start(), events).log == chunks(events),
        absorbed_all(collector_start(), events).stderr == chunks_from(
            events,
            CommandOutputSource::Stderr,
        ),
    decreases events.len(),
{
    if events.len() > 0 {
        let before = events.drop_last();
        if before.len() > 0 {
            let earlier = before.drop_last();
            // a stream that is open now was open one event earlier
        }
        lemma_log_in_arrival_order(before);
    }
}

fn append_bytes(to: &mut Vec<u8>, bytes: &Vec<u8>)
    ensures
        final(to)@ == old(to)@ + bytes@,
{
    let mut i: usize = 0;
    while i < bytes.len()
        invariant
            i <= bytes.len(),
            to@ == old(to)@ + bytes@.take(i as int),
        decreases bytes.len() - i,
    {
        to.push(bytes[i]);
        i += 1;
    }
}

/// Collects the output of a child process from the events of its readers.
#[derive(Debug)]
pub struct OutputCollector {
    remaining: u8,
    log: Vec<u8>,
    stderr: Vec<u8>,
}

impl View for OutputCollector {
    type V = CollectorView;

    closed spec fn view(&self) -> CollectorView {
        CollectorView { remaining: self.remaining as nat, log: self.log@, stderr: self.stderr@ }
    }
}

/// The message of the error for a command that could not be started.
pub open spec fn start_failure(error: Seq<char>) -> Seq<char> {
    "Can't start command: "@ + error
}

/// The message of the error for a command whose end could not be awaited.
pub open spec fn wait_failure(error: Seq<char>) -> Seq<char> {
    "Can't wait for command: "@ + error
}

/// The error for a command that could not be started; `error` is what the
/// system said.
pub fn spawn_error(error: &str) -> (e: JobError)
    ensures
        e@ == start_failure(error@),
{
    JobError::with_detail("Can't start command: ", error)
}

impl OutputCollector {
    /// A collector for a child process whose two streams are open.
    pub fn new() -> (c: OutputCollector)
        ensures
            c@ == collector_start(),
    {
        OutputCollector { remaining: 2, log: Vec::new(), stderr: Vec::new() }
    }

    /// Whether both streams are closed.
    pub fn is_done(&self) -> (b: bool)
        ensures
            b == (self@.remaining == 0),
    {
        self.remaining == 0
    }

    /// Takes the next event.
    pub fn absorb(&mut self, event: &CommandOutput)
        ensures
            final(self)@ == absorbed(old(self)@, event@),
    {
        if self.remaining == 0 {
            return ;
        }
        match event {
            CommandOutput::Data(source, bytes) => {
                append_bytes(&mut self.log, bytes);
                match source {
                    CommandOutputSource::Stderr => {
                        append_bytes(&mut self.stderr, bytes);
                    },
                    CommandOutputSource::Stdout => {},
                }
            },
            CommandOutput::Closed(_) => {
                self.remaining = self.remaining - 1;
            },
        }
    }

    /// The result of the run, once the child has been waited for: whether
    /// it succeeded, its combined output and its error output, both as
    /// text. `waited` is the exit code of the child, `None` where it has
    /// none, or what the system said where waiting failed. The child
    /// succeeded if and only if its exit code is 0.
    pub fn finish(self, waited: Result<Option<i32>, String>) -> (r: JobResult<
        (bool, String, String),
    >)
        ensures
            match waited {
                Ok(code) => r matches Ok(run) && run.0 == (code == Some(0i32)) && run.1@
                    == utf8_lossy(self@.log) && run.2@ == utf8_lossy(self@.stderr),
                Err(error) => r matches Err(e) && e@ == wait_failure(error@),
            },
    {
        match waited {
            Ok(code) => {
                let success = match code {
                    Some(c) => c == 0,
                    None => false,
                };
                Ok((success, lossy_text(&self.log), lossy_text(&self.stderr)))
            },
            Err(error) => Err(JobError::with_detail("Can't wait for command: ", error.as_str())),
        }
    }
}

/// The text of `s` as lines: the pieces between line feeds, without the
/// empty piece after a line feed at the end.
pub open spec fn lines(s: Seq<char>) -> Seq<Seq<char>> {
    let pieces = segments(s, '\n');
    if pieces.len() > 0 && pieces.last().len() == 0 {
        pieces.drop_last()
    } else {
        pieces
    }
}

/// A line of output as a log shows it: the marker of its stream, a space,
/// and the line.
pub open spec fn marked_line(source: CommandOutputSource, line: Seq<char>) -> Seq<char> {
    source.marker() + " "@ + line
}

/// The lines that a log shows for a chunk of output.
pub fn log_lines(source: CommandOutputSource, chunk: &Vec<u8>) -> (out: Vec<String>)
    ensures
        out.deep_view() == lines(utf8_lossy(chunk@)).map_values(
            |line: Seq<char>| marked_line(source, line),
        ),
{
    let text = lossy_text(chunk);
    let mut pieces = split(text.as_str(), '\n');
    let last = pieces.len() - 1;
    if pieces[last].as_str().unicode_len() == 0 {
        pieces.pop();
    }
    let mut out: Vec<String> = Vec::new();
    let mut i: usize = 0;
    while i < pieces.len()
        invariant
            i <= pieces.len(),
            out.len() == i,
            forall|k: int| 0 <= k < i ==> out[k]@ == marked_line(source, #[trigger] pieces[k]@),
        decreases pieces.len() - i,
    {
        let mut line = String::from_str(source.prefix());
        line.append(" ");
        line.append(pieces[i].as_str());
        out.push(line);
        i += 1;
    }
    assert(out.deep_view() =~= pieces.deep_view().map_values(
        |line: Seq<char>| marked_line(source, line),
    ));
    out
}

} // verus!
