//! The log sink: turns a worker's output events into the lines appended to
//! its log file.

use vstd::prelude::*;
use vstd::string::*;

verus! {

/// One event of a worker's output stream.
#[derive(Debug)]
pub enum OutputEvent {
    /// A chunk of standard output.
    Stdout(Vec<u8>),
    /// A chunk of standard error.
    Stderr(Vec<u8>),
    /// The stream failed.
    Error(String),
    /// The worker ended, with its exit code and signal where known.
    Terminated(Option<i32>, Option<i32>),
    /// Any other event; it is skipped.
    Other,
}

/// What the host does with one event.
#[derive(Debug)]
pub enum SinkAction {
    /// Append this text to the log file.
    Append(String),
    /// Skip the event.
    Skip,
    /// The stream is over: stop draining.
    Stop,
}

/// The text that `String::from_utf8_lossy` makes of `b`.
pub uninterp spec fn utf8_lossy_of(b: Seq<u8>) -> Seq<char>;

/// Relies on `String::from_utf8_lossy`: the text of the bytes, with each
/// invalid sequence replaced; it depends on the bytes alone.
#[verifier::external_body]
fn lossy_text(b: &[u8]) -> (r: String)
    ensures
        r@ == utf8_lossy_of(b@),
{
    String::from_utf8_lossy(b).into_owned()
}

/// `s` without its trailing newlines.
pub open spec fn trim_newlines(s: Seq<char>) -> Seq<char>
    decreases s.len(),
{
    if s.len() > 0 && s.last() == '\n' {
        trim_newlines(s.drop_last())
    } else {
        s
    }
}

/// The line that a chunk of output becomes in the log: its text without
/// trailing newlines, then one newline.
pub open spec fn log_line_spec(chunk: Seq<u8>) -> Seq<char> {
    trim_newlines(utf8_lossy_of(chunk)) + seq!['\n']
}

/// The line that one chunk of output becomes in the log.
pub fn log_line(chunk: &[u8]) -> (r: String)
    ensures
        r@ == log_line_spec(chunk@),
{
    let text = lossy_text(chunk);
    let s = text.as_str();
    let n = s.unicode_len();
    let mut j: usize = n;
    assert(s@.subrange(0, n as int) =~= s@);
    while j > 0 && s.get_char(j - 1) == '\n'
        invariant
            j <= n == s@.len(),
            trim_newlines(s@.subrange(0, j as int)) == trim_newlines(s@),
        decreases j,
    {
        assert(s@.subrange(0, j as int).drop_last() =~= s@.subrange(0, j - 1));
        j = j - 1;
    }
    let mut line = String::from_str(s.substring_char(0, j));
    proof {
        reveal_strlit("\n");
    }
    line.append("\n");
    line
}

/// One step of the sink: whether it has stopped after the event, and the
/// line it appends for it. Once stopped it stays stopped and appends
/// nothing; stdout and stderr are treated alike.
pub open spec fn sink_step(stopped: bool, e: OutputEvent) -> (bool, Option<Seq<char>>) {
    if stopped {
        (true, None)
    } else {
        match e {
            OutputEvent::Stdout(c) => (false, Some(log_line_spec(c@))),
            OutputEvent::Stderr(c) => (false, Some(log_line_spec(c@))),
            OutputEvent::Error(_) => (true, None),
            OutputEvent::Terminated(_, _) => (true, None),
            OutputEvent::Other => (false, None),
        }
    }
}

/// The text a sink appends for the events `es`, in order.
pub open spec fn sink_output(stopped: bool, es: Seq<OutputEvent>) -> Seq<char>
    decreases es.len(),
{
    if es.len() == 0 {
        Seq::empty()
    } else {
        let (s, line) = sink_step(stopped, es[0]);
        let head = match line {
            Some(l) => l,
            None => Seq::empty(),
        };
        head + sink_output(s, es.drop_first())
    }
}

/// The log lines of a sequence of chunks, in order.
pub open spec fn lines_of(chunks: Seq<Seq<u8>>) -> Seq<char>
    decreases chunks.len(),
{
    if chunks.len() == 0 {
        Seq::empty()
    } else {
        log_line_spec(chunks[0]) + lines_of(chunks.drop_first())
    }
}

/// The bytes of an output chunk.
pub open spec fn chunk_of(e: OutputEvent) -> Seq<u8> {
    match e {
        OutputEvent::Stdout(c) => c@,
        OutputEvent::Stderr(c) => c@,
        _ => Seq::empty(),
    }
}

pub open spec fn is_chunk(e: OutputEvent) -> bool {
    e is Stdout || e is Stderr
}

/// Drains a worker's output into its log.
pub struct LogSink {
    stopped: bool,
}

impl View for LogSink {
    type V = bool;

    /// Whether the sink has stopped.
    closed spec fn view(&self) -> bool {
        self.stopped
    }
}

impl LogSink {
    pub fn new() -> (r: LogSink)
        ensures
            !r@,
    {
        LogSink { stopped: false }
    }

    pub fn is_stopped(&self) -> (r: bool)
        ensures
            r == self@,
    {
        self.stopped
    }

    /// Takes one event of the stream and says what to do with it.
    pub fn accept(&mut self, e: &OutputEvent) -> (r: SinkAction)
        ensures
            final(self)@ == sink_step(old(self)@, *e).0,
            sink_step(old(self)@, *e).1 matches Some(l) ==> r matches SinkAction::Append(t) && t@
                == l,
            sink_step(old(self)@, *e).1 is None ==> (if final(self)@ {
                r is Stop
            } else {
                r is Skip
            }),
    {
        if self.stopped {
            return SinkAction::Stop;
        }
        match e {
            OutputEvent::Stdout(c) => SinkAction::Append(log_line(c.as_slice())),
            OutputEvent::Stderr(c) => SinkAction::Append(log_line(c.as_slice())),
            OutputEvent::Error(_) => {
                self.stopped = true;
                SinkAction::Stop
            },
            OutputEvent::Terminated(_, _) => {
                self.stopped = true;
                SinkAction::Stop
            },
            OutputEvent::Other => SinkAction::Skip,
        }
    }
}

/// Chunks from stdout and stderr, interleaved in any way, all reach the log,
/// each as its own line and in the order they came, so each stream keeps its
/// own order.
pub proof fn lemma_sink_keeps_every_chunk(es: Seq<OutputEvent>)
    requires
        forall|i: int| 0 <= i < es.len() ==> is_chunk(#[trigger] es[i]),
    ensures
        sink_output(false, es) == lines_of(es.map_values(|e: OutputEvent| chunk_of(e))),
    decreases es.len(),
{
    let cs = es.map_values(|e: OutputEvent| chunk_of(e));
    if es.len() > 0 {
        assert(is_chunk(es[0]));
        assert(forall|i: int|
            0 <= i < es.drop_first().len() ==> #[trigger] es.drop_first()[i] == es[i + 1]);
        lemma_sink_keeps_every_chunk(es.drop_first());
        assert(cs.drop_first() =~= es.drop_first().map_values(|e: OutputEvent| chunk_of(e)));
    }
}

/// The lines a sink appends for the events `es`, in order, each with the
/// stream it came from (`true` for stdout).
pub open spec fn sink_records(stopped: bool, es: Seq<OutputEvent>) -> Seq<(bool, Seq<char>)>
    decreases es.len(),
{
    if es.len() == 0 {
        Seq::empty()
    } else {
        let (s, line) = sink_step(stopped, es[0]);
        let head = match line {
            Some(l) => seq![(es[0] is Stdout, l)],
            None => Seq::empty(),
        };
        head + sink_records(s, es.drop_first())
    }
}

/// The texts of `rs`, one after the other.
pub open spec fn concat_records(rs: Seq<(bool, Seq<char>)>) -> Seq<char>
    decreases rs.len(),
{
    if rs.len() == 0 {
        Seq::empty()
    } else {
        rs[0].1 + concat_records(rs.drop_first())
    }
}

/// The texts of the records of `rs` that came from stdout (`out`) or from
/// stderr (`!out`), in order.
pub open spec fn records_of_stream(rs: Seq<(bool, Seq<char>)>, out: bool) -> Seq<Seq<char>>
    decreases rs.len(),
{
    if rs.len() == 0 {
        Seq::empty()
    } else {
        let head = if rs[0].0 == out { seq![rs[0].1] } else { Seq::empty() };
        head + records_of_stream(rs.drop_first(), out)
    }
}

/// The log lines of the chunks of `es` from stdout (`out`) or from stderr
/// (`!out`), in the order of the events.
pub open spec fn stream_lines(es: Seq<OutputEvent>, out: bool) -> Seq<Seq<char>>
    decreases es.len(),
{
    if es.len() == 0 {
        Seq::empty()
    } else {
        let head = if is_chunk(es[0]) && (es[0] is Stdout) == out {
            seq![log_line_spec(chunk_of(es[0]))]
        } else {
            Seq::empty()
        };
        head + stream_lines(es.drop_first(), out)
    }
}

/// The text a sink appends is its records' texts, one after the other.
pub proof fn lemma_sink_output_is_records(stopped: bool, es: Seq<OutputEvent>)
    ensures
        sink_output(stopped, es) == concat_records(sink_records(stopped, es)),
    decreases es.len(),
{
    if es.len() > 0 {
        let (s, line) = sink_step(stopped, es[0]);
        lemma_sink_output_is_records(s, es.drop_first());
        let rest = sink_records(s, es.drop_first());
        if let Some(l) = line {
            let all = seq![(es[0] is Stdout, l)] + rest;
            assert(all.drop_first() =~= rest);
        } else {
            assert(Seq::<(bool, Seq<char>)>::empty() + rest =~= rest);
        }
    }
}

/// Before the stream ends, the lines that stdout's chunks become reach the
/// log in stdout's own order, and likewise for stderr, however the two
/// streams are interleaved.
pub proof fn lemma_sink_keeps_stream_order(es: Seq<OutputEvent>, out: bool)
    requires
        forall|i: int|
            0 <= i < es.len() ==> !(#[trigger] es[i] is Error) && !(es[i] is Terminated),
    ensures
        records_of_stream(sink_records(false, es), out) == stream_lines(es, out),
    decreases es.len(),
{
    if es.len() > 0 {
        assert(!(es[0] is Error) && !(es[0] is Terminated));
        assert(forall|i: int|
            0 <= i < es.drop_first().len() ==> #[trigger] es.drop_first()[i] == es[i + 1]);
        lemma_sink_keeps_stream_order(es.drop_first(), out);
        let rest = sink_records(false, es.drop_first());
        let line = sink_step(false, es[0]).1;
        if let Some(l) = line {
            let all = seq![(es[0] is Stdout, l)] + rest;
            assert(all.drop_first() =~= rest);
            assert(all[0] == (es[0] is Stdout, l));
        } else {
            assert(Seq::<(bool, Seq<char>)>::empty() + rest =~= rest);
        }
    }
}

/// Each log line ends in exactly one newline: the text of its chunk never
/// ends in one.
pub proof fn lemma_log_line_shape(chunk: Seq<u8>)
    ensures
        log_line_spec(chunk).last() == '\n',
        log_line_spec(chunk).len() >= 1,
        log_line_spec(chunk).len() == 1 || log_line_spec(chunk)[log_line_spec(chunk).len() - 2]
            != '\n',
{
    lemma_trim_newlines_end(utf8_lossy_of(chunk));
}

proof fn lemma_trim_newlines_end(s: Seq<char>)
    ensures
        trim_newlines(s).len() == 0 || trim_newlines(s).last() != '\n',
    decreases s.len(),
{
    if s.len() > 0 && s.last() == '\n' {
        lemma_trim_newlines_end(s.drop_last());
    }
}

} // verus!
