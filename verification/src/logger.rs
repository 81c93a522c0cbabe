//! The logging pipeline: levels, messages, filters, rendering, and the bus
//! that carries messages from their producers to the collector.
//!
//! Nothing here writes anywhere. A [`Logger`] makes messages, a
//! [`LoggerSystem`] queues them in the order in which they arrive, and a
//! [`LogCollector`] decides for each message whether it is shown and
//! renders it once for each of its outputs; the host program does the
//! writing.

use crate::text::{padded_decimal, to_decimal_2, to_decimal_3};
use std::collections::VecDeque;
use vstd::prelude::*;
use vstd::string::*;

verus! {

/// Severity of a log message, from least to most severe.
#[derive(Debug, Clone, Copy, PartialEq, Eq, Structural, Hash)]
pub enum LogLevel {
    Debug,
    Info,
    Warning,
    Error,
    Critical,
}

impl LogLevel {
    /// The place of the level in the order of severity.
    pub open spec fn severity(self) -> nat {
        match self {
            LogLevel::Debug => 0,
            LogLevel::Info => 1,
            LogLevel::Warning => 2,
            LogLevel::Error => 3,
            LogLevel::Critical => 4,
        }
    }

    /// The label that stands for the level in a rendered message.
    pub open spec fn label_text(self) -> Seq<char> {
        match self {
            LogLevel::Debug => "DEBUG"@,
            LogLevel::Info => "INFO"@,
            LogLevel::Warning => "WARN"@,
            LogLevel::Error => "ERROR"@,
            LogLevel::Critical => "CRIT"@,
        }
    }

    /// The place of the level in the order of severity.
    pub fn rank(&self) -> (rank: u8)
        ensures
            rank == self.severity(),
    {
        match self {
            LogLevel::Debug => 0,
            LogLevel::Info => 1,
            LogLevel::Warning => 2,
            LogLevel::Error => 3,
            LogLevel::Critical => 4,
        }
    }

    /// Whether the level is at least as severe as `other`.
    pub fn at_least(&self, other: &LogLevel) -> (r: bool)
        ensures
            r == (self.severity() >= other.severity()),
    {
        self.rank() >= other.rank()
    }

    /// The label that stands for the level in a rendered message.
    pub fn label(&self) -> (label: &'static str)
        ensures
            label@ == self.label_text(),
    {
        match self {
            LogLevel::Debug => "DEBUG",
            LogLevel::Info => "INFO",
            LogLevel::Warning => "WARN",
            LogLevel::Error => "ERROR",
            LogLevel::Critical => "CRIT",
        }
    }
}

impl Default for LogLevel {
    /// The level used where none was chosen.
    fn default() -> (level: LogLevel)
        ensures
            level == LogLevel::Info,
    {
        LogLevel::Info
    }
}

/// The order of severity is total: of two levels one is at least as severe
/// as the other, and two levels of equal severity are the same level.
pub proof fn lemma_severity_is_a_total_order(a: LogLevel, b: LogLevel)
    ensures
        a.severity() >= b.severity() || b.severity() >= a.severity(),
        a.severity() == b.severity() ==> a == b,
        LogLevel::Debug.severity() < LogLevel::Info.severity() < LogLevel::Warning.severity()
            < LogLevel::Error.severity() < LogLevel::Critical.severity(),
{
}

/// One log message.
#[derive(Debug, Clone, PartialEq, Eq)]
pub struct LogMessage {
    /// The label of the thread that produced the message
    pub thread_name: String,
    /// When the message was produced, in milliseconds since the Unix epoch
    pub timestamp: u64,
    /// The severity of the message
    pub level: LogLevel,
    /// The component that produced the message
    pub source: String,
    /// The text of the message
    pub message: String,
    /// Keys and values that go with the message
    pub context: Option<Vec<(String, String)>>,
    /// The source file that the message comes from
    pub file: Option<&'static str>,
    /// The line in that file
    pub line: Option<u32>,
}

/// The mathematical content of a [`LogMessage`].
pub struct LogMessageView {
    pub thread_name: Seq<char>,
    pub timestamp: u64,
    pub level: LogLevel,
    pub source: Seq<char>,
    pub message: Seq<char>,
    pub context: Option<Seq<(Seq<char>, Seq<char>)>>,
    pub file: Option<Seq<char>>,
    pub line: Option<u32>,
}

/// The characters of each key and value of `pairs`.
pub open spec fn pair_views(pairs: Seq<(String, String)>) -> Seq<(Seq<char>, Seq<char>)> {
    Seq::new(pairs.len(), |i: int| (pairs[i].0@, pairs[i].1@))
}

impl View for LogMessage {
    type V = LogMessageView;

    open spec fn view(&self) -> LogMessageView {
        LogMessageView {
            thread_name: self.thread_name@,
            timestamp: self.timestamp,
            level: self.level,
            source: self.source@,
            message: self.message@,
            context: match self.context {
                Some(pairs) => Some(pair_views(pairs@)),
                None => None,
            },
            file: match self.file {
                Some(f) => Some(f@),
                None => None,
            },
            line: self.line,
        }
    }
}

impl LogMessage {
    /// A message without context and without location.
    pub fn new(
        thread_name: String,
        level: LogLevel,
        source: String,
        message: String,
        timestamp: u64,
    ) -> (entry: Self)
        ensures
            entry@ == (LogMessageView {
                thread_name: thread_name@,
                timestamp,
                level,
                source: source@,
                message: message@,
                context: None,
                file: None,
                line: None,
            }),
    {
        Self {
            thread_name,
            timestamp,
            level,
            source,
            message,
            context: None,
            file: None,
            line: None,
        }
    }

    /// The same message with `context`.
    pub fn with_context(self, context: Vec<(String, String)>) -> (entry: Self)
        ensures
            entry@ == (LogMessageView { context: Some(pair_views(context@)), ..self@ }),
    {
        Self {
            thread_name: self.thread_name,
            timestamp: self.timestamp,
            level: self.level,
            source: self.source,
            message: self.message,
            context: Some(context),
            file: self.file,
            line: self.line,
        }
    }

    /// The same message with the place in the source that it comes from.
    pub fn with_location(self, file: &'static str, line: u32) -> (entry: Self)
        ensures
            entry@ == (LogMessageView { file: Some(file@), line: Some(line), ..self@ }),
    {
        Self {
            thread_name: self.thread_name,
            timestamp: self.timestamp,
            level: self.level,
            source: self.source,
            message: self.message,
            context: self.context,
            file: Some(file),
            line: Some(line),
        }
    }
}

/// Decides which messages are shown.
pub trait LogFilter: Send + Sync {
    /// Whether the filter lets `message` pass.
    spec fn approves(&self, message: LogMessageView) -> bool;

    /// Tests whether the filter lets `message` pass.
    fn allow(&self, message: &LogMessage) -> (r: bool)
        ensures
            r == self.approves(message@),
    ;
}

/// Lets the messages pass that are at least as severe as a given level.
#[derive(Debug, Clone, Copy, PartialEq, Eq, Structural, Hash)]
pub struct LevelFilter {
    pub min_level: LogLevel,
}

impl LevelFilter {
    /// The filter that lets the messages from `min_level` upwards pass.
    pub fn new(min_level: LogLevel) -> (filter: Self)
        ensures
            filter.min_level == min_level,
    {
        Self { min_level }
    }
}

impl LogFilter for LevelFilter {
    open spec fn approves(&self, message: LogMessageView) -> bool {
        message.level.severity() >= self.min_level.severity()
    }

    fn allow(&self, message: &LogMessage) -> (r: bool) {
        message.level.at_least(&self.min_level)
    }
}

/// Renders messages for one destination.
pub trait LogOutput: Send + Sync {
    /// The line that the output shows for `message`.
    spec fn rendering(&self, message: LogMessageView) -> Seq<char>;

    /// Renders `message`.
    fn render(&self, message: &LogMessage) -> (line: String)
        ensures
            line@ == self.rendering(message@),
    ;
}

/// The number of milliseconds in a day.
pub const MILLIS_PER_DAY: u64 = 86400000;

/// The time of day of `timestamp` as `HH:MM:SS.mmm`.
pub open spec fn time_of_day(timestamp: u64) -> Seq<char> {
    let in_day = (timestamp % MILLIS_PER_DAY) as nat;
    padded_decimal(in_day / 3600000, 2) + ":"@ + padded_decimal((in_day % 3600000) / 60000, 2)
        + ":"@ + padded_decimal((in_day % 60000) / 1000, 2) + "."@ + padded_decimal(
        in_day % 1000,
        3,
    )
}

/// The label of `level`, in its colour where colours are used.
pub open spec fn level_tag(level: LogLevel, use_colors: bool) -> Seq<char> {
    if use_colors {
        match level {
            LogLevel::Debug => "\x1b[36mDEBUG\x1b[0m"@,
            LogLevel::Info => "\x1b[32mINFO\x1b[0m"@,
            LogLevel::Warning => "\x1b[33mWARN\x1b[0m"@,
            LogLevel::Error => "\x1b[31mERROR\x1b[0m"@,
            LogLevel::Critical => "\x1b[35mCRIT\x1b[0m"@,
        }
    } else {
        level.label_text()
    }
}

/// The name of a thread, in colour where colours are used.
pub open spec fn thread_tag(thread_name: Seq<char>, use_colors: bool) -> Seq<char> {
    if use_colors {
        "\x1b[34m"@ + thread_name + "\x1b[0m"@
    } else {
        thread_name
    }
}

/// The line that the console shows for `message`.
pub open spec fn console_line(message: LogMessageView, use_colors: bool) -> Seq<char> {
    "["@ + time_of_day(message.timestamp) + "] ["@ + level_tag(message.level, use_colors)
        + "] ["@ + thread_tag(message.thread_name, use_colors) + "] "@ + message.source + ": "@
        + message.message
}

/// Renders messages for the console, with or without colours.
#[derive(Debug, Clone, Copy, PartialEq, Eq, Structural, Hash)]
pub struct ConsoleOutput {
    pub use_colors: bool,
}

impl ConsoleOutput {
    /// The console output, with colours where `use_colors` is set.
    pub fn new(use_colors: bool) -> (output: Self)
        ensures
            output.use_colors == use_colors,
    {
        Self { use_colors }
    }

    /// Writes the time of day of `timestamp` as `HH:MM:SS.mmm`.
    fn format_time(timestamp: u64) -> (text: String)
        ensures
            text@ == time_of_day(timestamp),
    {
        let in_day = timestamp % MILLIS_PER_DAY;
        let mut text = to_decimal_2(in_day / 3600000);
        text.append(":");
        text.append(to_decimal_2((in_day % 3600000) / 60000).as_str());
        text.append(":");
        text.append(to_decimal_2((in_day % 60000) / 1000).as_str());
        text.append(".");
        text.append(to_decimal_3(in_day % 1000).as_str());
        text
    }

    /// Renders `message` as one line: time of day, level, thread, source
    /// and text.
    pub fn format_message(&self, message: &LogMessage) -> (line: String)
        ensures
            line@ == console_line(message@, self.use_colors),
    {
        let level = if self.use_colors {
            match message.level {
                LogLevel::Debug => "\x1b[36mDEBUG\x1b[0m",
                LogLevel::Info => "\x1b[32mINFO\x1b[0m",
                LogLevel::Warning => "\x1b[33mWARN\x1b[0m",
                LogLevel::Error => "\x1b[31mERROR\x1b[0m",
                LogLevel::Critical => "\x1b[35mCRIT\x1b[0m",
            }
        } else {
            message.level.label()
        };
        let mut thread = String::new();
        if self.use_colors {
            thread.append("\x1b[34m");
            thread.append(message.thread_name.as_str());
            thread.append("\x1b[0m");
            assert(thread@ =~= thread_tag(message@.thread_name, true));
        } else {
            thread.append(message.thread_name.as_str());
            assert(thread@ =~= thread_tag(message@.thread_name, false));
        }
        let mut line = String::from_str("[");
        line.append(Self::format_time(message.timestamp).as_str());
        line.append("] [");
        line.append(level);
        line.append("] [");
        line.append(thread.as_str());
        line.append("] ");
        line.append(message.source.as_str());
        line.append(": ");
        line.append(message.message.as_str());
        line
    }
}

impl LogOutput for ConsoleOutput {
    open spec fn rendering(&self, message: LogMessageView) -> Seq<char> {
        console_line(message, self.use_colors)
    }

    fn render(&self, message: &LogMessage) -> (line: String) {
        self.format_message(message)
    }
}

/// What the collector is told about the bus.
#[derive(Debug, Clone, PartialEq, Eq)]
pub enum BusEvent {
    /// The next message has arrived.
    Message { message: LogMessage },
    /// Nothing has arrived for a while, but producers are still about.
    Timeout,
    /// Nothing is queued, and no producer is left to send anything.
    Disconnected,
}

/// The mathematical content of a [`BusEvent`].
pub enum BusEventView {
    Message { message: LogMessageView },
    Timeout,
    Disconnected,
}

impl View for BusEvent {
    type V = BusEventView;

    open spec fn view(&self) -> BusEventView {
        match self {
            BusEvent::Message { message } => BusEventView::Message { message: message@ },
            BusEvent::Timeout => BusEventView::Timeout,
            BusEvent::Disconnected => BusEventView::Disconnected,
        }
    }
}

/// What the collector does about an event.
#[derive(Debug, Clone, PartialEq, Eq)]
pub enum CollectorAction {
    /// Write `lines[i]` to output number `i`, then go on listening.
    Write { lines: Vec<String> },
    /// Go on listening.
    Continue,
    /// Stop: nothing will arrive any more.
    Stop,
}

/// The mathematical content of a [`CollectorAction`].
pub enum CollectorActionView {
    Write { lines: Seq<Seq<char>> },
    Continue,
    Stop,
}

impl View for CollectorAction {
    type V = CollectorActionView;

    open spec fn view(&self) -> CollectorActionView {
        match self {
            CollectorAction::Write { lines } => CollectorActionView::Write {
                lines: lines.deep_view(),
            },
            CollectorAction::Continue => CollectorActionView::Continue,
            CollectorAction::Stop => CollectorActionView::Stop,
        }
    }
}

/// The consumer of the bus: it applies its filters to every message and
/// renders the approved ones for its outputs.
///
/// The outputs of a collector are of one type, and so are its filters.
/// Where a collector is to have outputs or filters of several kinds, that
/// type is an enum of them.
pub struct LogCollector<O: LogOutput, F: LogFilter> {
    outputs: Vec<O>,
    filters: Vec<F>,
}

impl<O: LogOutput, F: LogFilter> LogCollector<O, F> {
    /// The number of outputs.
    pub closed spec fn output_count(&self) -> nat {
        self.outputs@.len()
    }

    /// The number of filters.
    pub closed spec fn filter_count(&self) -> nat {
        self.filters@.len()
    }

    /// Whether every filter lets `message` pass.
    pub closed spec fn approves(&self, message: LogMessageView) -> bool {
        forall|i: int|
            0 <= i < self.filters@.len() ==> (#[trigger] self.filters@[i]).approves(message)
    }

    /// What each output shows for `message`, in the order in which the
    /// outputs were added.
    pub closed spec fn renderings(&self, message: LogMessageView) -> Seq<Seq<char>> {
        Seq::new(self.outputs@.len(), |i: int| self.outputs@[i].rendering(message))
    }

    /// What the collector does about `event`: an approved message is
    /// written to every output, a message that a filter rejects is dropped,
    /// and the collector stops when the bus is disconnected, not before.
    pub open spec fn action_for(&self, event: BusEventView) -> CollectorActionView {
        match event {
            BusEventView::Message { message } => if self.approves(message) {
                CollectorActionView::Write { lines: self.renderings(message) }
            } else {
                CollectorActionView::Continue
            },
            BusEventView::Timeout => CollectorActionView::Continue,
            BusEventView::Disconnected => CollectorActionView::Stop,
        }
    }

    /// What the collector writes for `messages`: for each message that
    /// every filter lets pass, in the order of the messages, its rendering
    /// for each output. A message that a filter rejects leaves no trace.
    pub open spec fn writings(&self, messages: Seq<LogMessageView>) -> Seq<Seq<Seq<char>>>
        decreases messages.len(),
    {
        if messages.len() == 0 {
            Seq::empty()
        } else {
            let front = self.writings(messages.drop_last());
            if self.approves(messages.last()) {
                front.push(self.renderings(messages.last()))
            } else {
                front
            }
        }
    }

    /// A collector without outputs and without filters: it approves every
    /// message and renders none.
    pub fn new() -> (collector: Self)
        ensures
            collector.output_count() == 0,
            collector.filter_count() == 0,
            forall|m: LogMessageView| #[trigger] collector.approves(m),
            forall|m: LogMessageView| #[trigger]
                collector.renderings(m) == Seq::<Seq<char>>::empty(),
    {
        let collector = Self { outputs: Vec::new(), filters: Vec::new() };
        assert forall|m: LogMessageView| #[trigger]
            collector.renderings(m) == Seq::<Seq<char>>::empty() by {
            assert(collector.renderings(m) =~= Seq::<Seq<char>>::empty());
        }
        collector
    }

    /// Adds an output. From now on every approved message is rendered for
    /// it as well, after the outputs that were there; which messages are
    /// approved does not change.
    pub fn add_output(&mut self, output: O)
        ensures
            final(self).output_count() == old(self).output_count() + 1,
            final(self).filter_count() == old(self).filter_count(),
            forall|m: LogMessageView| #[trigger]
                final(self).renderings(m) == old(self).renderings(m).push(output.rendering(m)),
            forall|m: LogMessageView| #[trigger] final(self).approves(m) == old(self).approves(m),
    {
        self.outputs.push(output);
        proof {
            let before = old(self).outputs@;
            let after = self.outputs@;
            assert(after[before.len() as int] == output);
            assert(self.filters@ == old(self).filters@);
            assert forall|m: LogMessageView| #[trigger]
                self.approves(m) == old(self).approves(m) by {
                if self.approves(m) {
                    assert forall|i: int| 0 <= i < old(self).filters@.len() implies (
                    #[trigger] old(self).filters@[i]).approves(m) by {
                        assert(self.filters@[i].approves(m));
                    }
                }
                if old(self).approves(m) {
                    assert forall|i: int| 0 <= i < self.filters@.len() implies (
                    #[trigger] self.filters@[i]).approves(m) by {
                        assert(old(self).filters@[i].approves(m));
                    }
                }
            }
            assert forall|m: LogMessageView| #[trigger]
                self.renderings(m) == old(self).renderings(m).push(output.rendering(m)) by {
                let now = self.renderings(m);
                let then = old(self).renderings(m).push(output.rendering(m));
                assert(now.len() == then.len());
                assert forall|i: int| 0 <= i < now.len() implies now[i] == then[i] by {
                    if i < before.len() {
                        assert(after[i] == before[i]);
                        assert(then[i] == old(self).renderings(m)[i]);
                    }
                }
                assert(now =~= then);
            }
        }
    }

    /// Adds a filter. From now on a message is approved only if this
    /// filter lets it pass, too; how messages are rendered does not change.
    pub fn add_filter(&mut self, filter: F)
        ensures
            final(self).filter_count() == old(self).filter_count() + 1,
            final(self).output_count() == old(self).output_count(),
            forall|m: LogMessageView| #[trigger]
                final(self).approves(m) == (old(self).approves(m) && filter.approves(m)),
            forall|m: LogMessageView| #[trigger]
                final(self).renderings(m) == old(self).renderings(m),
    {
        self.filters.push(filter);
        proof {
            let before = old(self).filters@;
            let after = self.filters@;
            assert(after[before.len() as int] == filter);
            assert forall|m: LogMessageView| #[trigger]
                self.approves(m) == (old(self).approves(m) && filter.approves(m)) by {
                if self.approves(m) {
                    assert forall|i: int| 0 <= i < before.len() implies (
                    #[trigger] before[i]).approves(m) by {
                        assert(after[i] == before[i]);
                        assert(after[i].approves(m));
                    }
                    assert(after[before.len() as int].approves(m));
                }
                if old(self).approves(m) && filter.approves(m) {
                    assert forall|i: int| 0 <= i < after.len() implies (
                    #[trigger] after[i]).approves(m) by {
                        if i < before.len() {
                            assert(after[i] == before[i]);
                            assert(before[i].approves(m));
                        } else {
                            assert(i == before.len());
                            assert(after[i] == filter);
                        }
                    }
                }
            }
        }
    }

    /// Tests whether every filter lets `message` pass.
    pub fn allows(&self, message: &LogMessage) -> (r: bool)
        ensures
            r == self.approves(message@),
    {
        let mut i: usize = 0;
        while i < self.filters.len()
            invariant
                i <= self.filters.len(),
                forall|k: int|
                    0 <= k < i ==> (#[trigger] self.filters@[k]).approves(message@),
            decreases self.filters.len() - i,
        {
            if !self.filters[i].allow(message) {
                assert(!self.filters@[i as int].approves(message@));
                return false;
            }
            i = i + 1;
        }
        true
    }

    /// Renders `message` once for each output.
    pub fn render_all(&self, message: &LogMessage) -> (lines: Vec<String>)
        ensures
            lines.deep_view() == self.renderings(message@),
    {
        let mut lines: Vec<String> = Vec::new();
        let mut i: usize = 0;
        while i < self.outputs.len()
            invariant
                i <= self.outputs.len(),
                lines.len() == i,
                forall|k: int|
                    0 <= k < i ==> lines@[k]@ == (#[trigger] self.outputs@[k]).rendering(
                        message@,
                    ),
            decreases self.outputs.len() - i,
        {
            lines.push(self.outputs[i].render(message));
            i = i + 1;
        }
        assert(lines.deep_view() =~= self.renderings(message@));
        lines
    }

    /// Takes every message that waits on `bus`, in the order of arrival,
    /// and renders the approved ones. The answer is what is to be written,
    /// one entry for each approved message, and whether the collector is
    /// to stop: it stops when the bus is drained and no producer is left,
    /// not before.
    pub fn run(&self, bus: &mut LoggerSystem) -> (report: (Vec<Vec<String>>, bool))
        ensures
            report.0.deep_view() == self.writings(old(bus)@.queue),
            report.1 == (old(bus)@.producers == 0),
            final(bus)@ == (LoggerSystemView { queue: Seq::empty(), ..old(bus)@ }),
    {
        let ghost all = bus@.queue;
        let ghost mut taken: Seq<LogMessageView> = Seq::empty();
        let mut written: Vec<Vec<String>> = Vec::new();
        assert(taken + bus@.queue =~= all);
        assert(written.deep_view() =~= self.writings(taken));
        while bus.pending() > 0
            invariant
                bus@.producers == old(bus)@.producers,
                all == old(bus)@.queue,
                taken + bus@.queue == all,
                written.deep_view() == self.writings(taken),
            decreases bus@.queue.len(),
        {
            let ghost waiting = bus@.queue;
            let ghost before = written.deep_view();
            let event = bus.receive();
            match event {
                BusEvent::Message { message } => {
                    proof {
                        assert(taken.push(message@) + waiting.skip(1) =~= taken + waiting);
                        assert(taken.push(message@).drop_last() =~= taken);
                        taken = taken.push(message@);
                    }
                    if self.allows(&message) {
                        let lines = self.render_all(&message);
                        written.push(lines);
                        assert(written.deep_view() =~= before.push(self.renderings(message@)));
                    }
                },
                _ => {
                    proof {
                        assert(false);
                    }
                },
            }
        }
        assert(bus@.queue =~= Seq::empty());
        assert(taken =~= all);
        (written, bus.producers() == 0)
    }

    /// Decides what to do about `event`.
    pub fn on_event(&self, event: &BusEvent) -> (action: CollectorAction)
        ensures
            action@ == self.action_for(event@),
    {
        match event {
            BusEvent::Message { message } => if self.allows(message) {
                CollectorAction::Write { lines: self.render_all(message) }
            } else {
                CollectorAction::Continue
            },
            BusEvent::Timeout => CollectorAction::Continue,
            BusEvent::Disconnected => CollectorAction::Stop,
        }
    }
}

/// A producer of log messages: one component on one thread.
#[derive(Debug, Clone, PartialEq, Eq)]
pub struct Logger {
    /// The component that the logger speaks for
    pub identifier: &'static str,
    /// The label of the thread that the logger belongs to
    pub thread_name: String,
}

impl Logger {
    /// The logger of the component `identifier` on the thread `thread_name`.
    pub fn new(identifier: &'static str, thread_name: String) -> (logger: Self)
        ensures
            logger.identifier@ == identifier@,
            logger.thread_name@ == thread_name@,
    {
        Self { identifier, thread_name }
    }

    /// What a message of the logger holds: the logger's thread and
    /// component, and neither context nor location.
    pub open spec fn entry_view(&self, level: LogLevel, message: Seq<char>, timestamp: u64) -> LogMessageView {
        LogMessageView {
            thread_name: self.thread_name@,
            timestamp,
            level,
            source: self.identifier@,
            message,
            context: None,
            file: None,
            line: None,
        }
    }

    /// The message that says `message` at `level` on behalf of the logger,
    /// produced at `timestamp`.
    pub fn log(&self, level: LogLevel, message: &str, timestamp: u64) -> (entry: LogMessage)
        ensures
            entry@ == self.entry_view(level, message@, timestamp),
    {
        LogMessage::new(
            self.thread_name.clone(),
            level,
            String::from_str(self.identifier),
            String::from_str(message),
            timestamp,
        )
    }

    /// A message at [`LogLevel::Debug`].
    pub fn debug(&self, message: &str, timestamp: u64) -> (entry: LogMessage)
        ensures
            entry@ == self.entry_view(LogLevel::Debug, message@, timestamp),
    {
        self.log(LogLevel::Debug, message, timestamp)
    }

    /// A message at [`LogLevel::Info`].
    pub fn info(&self, message: &str, timestamp: u64) -> (entry: LogMessage)
        ensures
            entry@ == self.entry_view(LogLevel::Info, message@, timestamp),
    {
        self.log(LogLevel::Info, message, timestamp)
    }

    /// A message at [`LogLevel::Warning`].
    pub fn warn(&self, message: &str, timestamp: u64) -> (entry: LogMessage)
        ensures
            entry@ == self.entry_view(LogLevel::Warning, message@, timestamp),
    {
        self.log(LogLevel::Warning, message, timestamp)
    }

    /// A message at [`LogLevel::Error`].
    pub fn error(&self, message: &str, timestamp: u64) -> (entry: LogMessage)
        ensures
            entry@ == self.entry_view(LogLevel::Error, message@, timestamp),
    {
        self.log(LogLevel::Error, message, timestamp)
    }

    /// A message at [`LogLevel::Critical`].
    pub fn critical(&self, message: &str, timestamp: u64) -> (entry: LogMessage)
        ensures
            entry@ == self.entry_view(LogLevel::Critical, message@, timestamp),
    {
        self.log(LogLevel::Critical, message, timestamp)
    }
}

/// The bus between the producers and the collector: a queue of messages in
/// the order of their arrival, and the number of producers that may still
/// send. The host program shares one bus among its threads and lets one of
/// them at a time use it.
#[derive(Debug)]
pub struct LoggerSystem {
    queue: VecDeque<LogMessage>,
    producers: usize,
}

/// The mathematical content of a [`LoggerSystem`].
pub struct LoggerSystemView {
    /// The messages that have arrived and have not been delivered
    pub queue: Seq<LogMessageView>,
    /// The number of producers that may still send
    pub producers: nat,
}

/// The mathematical content of each message of `messages`.
pub open spec fn message_views(messages: Seq<LogMessage>) -> Seq<LogMessageView> {
    Seq::new(messages.len(), |i: int| messages[i]@)
}

impl View for LoggerSystem {
    type V = LoggerSystemView;

    closed spec fn view(&self) -> LoggerSystemView {
        LoggerSystemView { queue: message_views(self.queue@), producers: self.producers as nat }
    }
}

/// What becomes of a bus when a message is sent, and what becomes of the
/// message: it joins the queue at the end.
pub open spec fn send_of(bus: LoggerSystemView, message: LogMessageView) -> LoggerSystemView {
    LoggerSystemView { queue: bus.queue.push(message), ..bus }
}

/// What the collector receives from a bus, and what becomes of the bus.
/// The message that arrived first is delivered first. The bus reports
/// itself disconnected only when nothing is queued and no producer is left.
pub open spec fn receive_of(bus: LoggerSystemView) -> (LoggerSystemView, BusEventView) {
    if bus.queue.len() > 0 {
        (
            LoggerSystemView { queue: bus.queue.skip(1), ..bus },
            BusEventView::Message { message: bus.queue[0] },
        )
    } else if bus.producers == 0 {
        (bus, BusEventView::Disconnected)
    } else {
        (bus, BusEventView::Timeout)
    }
}

impl LoggerSystem {
    /// A bus with one producer, the system itself, together with the
    /// collector that will listen to it.
    pub fn new<O: LogOutput, F: LogFilter>() -> (made: (Self, LogCollector<O, F>))
        ensures
            made.0@ == (LoggerSystemView { queue: Seq::empty(), producers: 1 }),
            made.1.output_count() == 0,
            made.1.filter_count() == 0,
            forall|m: LogMessageView| #[trigger] made.1.approves(m),
            forall|m: LogMessageView| #[trigger] made.1.renderings(m) == Seq::<Seq<char>>::empty(),
    {
        let system = Self { queue: VecDeque::new(), producers: 1 };
        assert(system@.queue =~= Seq::empty());
        (system, LogCollector::new())
    }

    /// Creates a producer for the component `identifier` on the thread
    /// `thread_name`. The bus counts it until it is released.
    pub fn create_logger(&mut self, identifier: &'static str, thread_name: String) -> (logger:
        Logger)
        requires
            old(self)@.producers < usize::MAX,
        ensures
            logger.identifier@ == identifier@,
            logger.thread_name@ == thread_name@,
            final(self)@ == (LoggerSystemView {
                producers: old(self)@.producers + 1,
                ..old(self)@
            }),
    {
        self.producers = self.producers + 1;
        Logger::new(identifier, thread_name)
    }

    /// Takes a producer off the bus.
    pub fn release(&mut self, logger: Logger)
        ensures
            final(self)@ == (LoggerSystemView {
                producers: if old(self)@.producers > 0 {
                    (old(self)@.producers - 1) as nat
                } else {
                    0
                },
                ..old(self)@
            }),
    {
        if self.producers > 0 {
            self.producers = self.producers - 1;
        }
    }

    /// Takes the system's own producer off the bus. The collector stops
    /// once every other producer is released and the queue is drained.
    pub fn shutdown(&mut self)
        ensures
            final(self)@ == (LoggerSystemView {
                producers: if old(self)@.producers > 0 {
                    (old(self)@.producers - 1) as nat
                } else {
                    0
                },
                ..old(self)@
            }),
    {
        if self.producers > 0 {
            self.producers = self.producers - 1;
        }
    }

    /// Puts `message` at the end of the queue.
    pub fn send(&mut self, message: LogMessage)
        ensures
            final(self)@ == send_of(old(self)@, message@),
    {
        self.queue.push_back(message);
        assert(self@.queue =~= old(self)@.queue.push(message@));
    }

    /// Hands the oldest message to the collector, or tells it why there is
    /// none.
    pub fn receive(&mut self) -> (event: BusEvent)
        ensures
            (final(self)@, event@) == receive_of(old(self)@),
    {
        match self.queue.pop_front() {
            Some(message) => {
                assert(self@.queue =~= old(self)@.queue.skip(1));
                BusEvent::Message { message }
            },
            None => if self.producers == 0 {
                BusEvent::Disconnected
            } else {
                BusEvent::Timeout
            },
        }
    }

    /// The number of producers that may still send.
    pub fn producers(&self) -> (count: usize)
        ensures
            count == self@.producers,
    {
        self.producers
    }

    /// The number of messages that wait for the collector.
    pub fn pending(&self) -> (count: usize)
        ensures
            count == self@.queue.len(),
    {
        self.queue.len()
    }
}

/// What is done to a bus.
pub enum BusOp {
    /// A producer sends `message`.
    Send { message: LogMessageView },
    /// The collector asks for the next message.
    Receive,
    /// A producer joins.
    Attach,
    /// A producer leaves.
    Detach,
}

/// What becomes of `bus` at `op`.
pub open spec fn bus_after_op(bus: LoggerSystemView, op: BusOp) -> LoggerSystemView {
    match op {
        BusOp::Send { message } => send_of(bus, message),
        BusOp::Receive => receive_of(bus).0,
        BusOp::Attach => LoggerSystemView { producers: bus.producers + 1, ..bus },
        BusOp::Detach => LoggerSystemView {
            producers: if bus.producers > 0 {
                (bus.producers - 1) as nat
            } else {
                0
            },
            ..bus
        },
    }
}

/// What becomes of `bus` after `ops`, in order.
pub open spec fn bus_after(bus: LoggerSystemView, ops: Seq<BusOp>) -> LoggerSystemView
    decreases ops.len(),
{
    if ops.len() == 0 {
        bus
    } else {
        bus_after_op(bus_after(bus, ops.drop_last()), ops.last())
    }
}

/// The messages that `ops` send, in order.
pub open spec fn sent_by(ops: Seq<BusOp>) -> Seq<LogMessageView>
    decreases ops.len(),
{
    if ops.len() == 0 {
        Seq::empty()
    } else {
        match ops.last() {
            BusOp::Send { message } => sent_by(ops.drop_last()).push(message),
            _ => sent_by(ops.drop_last()),
        }
    }
}

/// The messages that the collector receives in the course of `ops`, in
/// order.
pub open spec fn delivered_by(bus: LoggerSystemView, ops: Seq<BusOp>) -> Seq<LogMessageView>
    decreases ops.len(),
{
    if ops.len() == 0 {
        Seq::empty()
    } else {
        let before = delivered_by(bus, ops.drop_last());
        match (ops.last(), receive_of(bus_after(bus, ops.drop_last())).1) {
            (BusOp::Receive, BusEventView::Message { message }) => before.push(message),
            _ => before,
        }
    }
}

/// The messages of `messages` that come from the thread `thread_name`, in
/// order.
pub open spec fn from_thread(messages: Seq<LogMessageView>, thread_name: Seq<char>) -> Seq<
    LogMessageView,
>
    decreases messages.len(),
{
    if messages.len() == 0 {
        Seq::empty()
    } else if messages.last().thread_name == thread_name {
        from_thread(messages.drop_last(), thread_name).push(messages.last())
    } else {
        from_thread(messages.drop_last(), thread_name)
    }
}

/// Picking the messages of one thread from a concatenation is the same as
/// picking them from the parts.
pub proof fn lemma_from_thread_concat(
    a: Seq<LogMessageView>,
    b: Seq<LogMessageView>,
    thread_name: Seq<char>,
)
    ensures
        from_thread(a + b, thread_name) == from_thread(a, thread_name) + from_thread(
            b,
            thread_name,
        ),
    decreases b.len(),
{
    if b.len() == 0 {
        assert(a + b =~= a);
        assert(from_thread(a, thread_name) + from_thread(b, thread_name) =~= from_thread(
            a,
            thread_name,
        ));
    } else {
        lemma_from_thread_concat(a, b.drop_last(), thread_name);
        assert((a + b).drop_last() =~= a + b.drop_last());
        assert((a + b).last() == b.last());
        if b.last().thread_name == thread_name {
            assert(from_thread(a, thread_name) + from_thread(b.drop_last(), thread_name).push(
                b.last(),
            ) =~= (from_thread(a, thread_name) + from_thread(b.drop_last(), thread_name)).push(
                b.last(),
            ));
        }
    }
}

/// The bus neither loses, nor repeats, nor reorders. Whatever is done to a
/// bus, in whatever order: the messages that were queued at first, followed
/// by those that were sent since, are the messages that were delivered,
/// followed by those that are still queued.
pub proof fn lemma_bus_is_fifo(bus: LoggerSystemView, ops: Seq<BusOp>)
    ensures
        bus.queue + sent_by(ops) == delivered_by(bus, ops) + bus_after(bus, ops).queue,
    decreases ops.len(),
{
    if ops.len() == 0 {
        assert(bus.queue + sent_by(ops) =~= delivered_by(bus, ops) + bus_after(bus, ops).queue);
    } else {
        let front = ops.drop_last();
        lemma_bus_is_fifo(bus, front);
        let mid = bus_after(bus, front);
        match ops.last() {
            BusOp::Send { message } => {
                assert(bus.queue + sent_by(front).push(message) =~= (bus.queue + sent_by(
                    front,
                )).push(message));
                assert(delivered_by(bus, front) + mid.queue.push(message) =~= (delivered_by(
                    bus,
                    front,
                ) + mid.queue).push(message));
            },
            BusOp::Receive => {
                if mid.queue.len() > 0 {
                    assert(delivered_by(bus, front).push(mid.queue[0]) + mid.queue.skip(1)
                        =~= delivered_by(bus, front) + mid.queue);
                }
            },
            _ => {},
        }
    }
}

/// Logger fan-in. However the sends of several producers interleave, each
/// message is delivered once and the messages of each producer stay in
/// order: for every thread, the messages it had queued and has sent since
/// are those of its messages that were delivered, followed by those that
/// are still queued.
pub proof fn lemma_fan_in_preserves_each_producer(
    bus: LoggerSystemView,
    ops: Seq<BusOp>,
    thread_name: Seq<char>,
)
    ensures
        from_thread(bus.queue, thread_name) + from_thread(sent_by(ops), thread_name)
            == from_thread(delivered_by(bus, ops), thread_name) + from_thread(
            bus_after(bus, ops).queue,
            thread_name,
        ),
{
    lemma_bus_is_fifo(bus, ops);
    lemma_from_thread_concat(bus.queue, sent_by(ops), thread_name);
    lemma_from_thread_concat(delivered_by(bus, ops), bus_after(bus, ops).queue, thread_name);
}

/// The collector is told that the bus is disconnected only when nothing is
/// queued and no producer is left; until then every queued message is
/// still delivered.
pub proof fn lemma_disconnect_after_drain(bus: LoggerSystemView)
    ensures
        receive_of(bus).1 is Disconnected <==> bus.queue.len() == 0 && bus.producers == 0,
{
}

/// While nobody receives, the bus holds what was sent: after any sends,
/// joins and leaves on a bus that was empty, the queue is the sequence of
/// the messages sent, in the order of the sends.
pub proof fn lemma_queue_holds_what_was_sent(bus: LoggerSystemView, ops: Seq<BusOp>)
    requires
        bus.queue.len() == 0,
        forall|i: int| 0 <= i < ops.len() ==> !(#[trigger] ops[i] is Receive),
    ensures
        bus_after(bus, ops).queue == sent_by(ops),
    decreases ops.len(),
{
    if ops.len() == 0 {
        assert(bus.queue =~= Seq::empty());
    } else {
        assert forall|i: int| 0 <= i < ops.drop_last().len() implies !(
        #[trigger] ops.drop_last()[i] is Receive) by {
            assert(ops.drop_last()[i] == ops[i]);
        }
        lemma_queue_holds_what_was_sent(bus, ops.drop_last());
        assert(!(ops[ops.len() - 1] is Receive));
    }
}

/// What a collector writes for a sequence of messages is what it writes
/// for a first part, followed by what it writes for the rest: the order of
/// the messages is the order of what is written.
pub proof fn lemma_writings_concat<O: LogOutput, F: LogFilter>(
    collector: &LogCollector<O, F>,
    a: Seq<LogMessageView>,
    b: Seq<LogMessageView>,
)
    ensures
        collector.writings(a + b) == collector.writings(a) + collector.writings(b),
    decreases b.len(),
{
    if b.len() == 0 {
        assert(a + b =~= a);
        assert(collector.writings(a) + collector.writings(b) =~= collector.writings(a));
    } else {
        lemma_writings_concat(collector, a, b.drop_last());
        assert((a + b).drop_last() =~= a + b.drop_last());
        assert((a + b).last() == b.last());
        if collector.approves(b.last()) {
            assert(collector.writings(a) + collector.writings(b.drop_last()).push(
                collector.renderings(b.last()),
            ) =~= (collector.writings(a) + collector.writings(b.drop_last())).push(
                collector.renderings(b.last()),
            ));
        }
    }
}

/// A collector without filters writes every message exactly once, in the
/// order of the messages: nothing is lost, nothing is written twice, and
/// nothing changes places.
pub proof fn lemma_unfiltered_collector_writes_each_message_once<O: LogOutput, F: LogFilter>(
    collector: &LogCollector<O, F>,
    messages: Seq<LogMessageView>,
)
    requires
        collector.filter_count() == 0,
    ensures
        collector.writings(messages).len() == messages.len(),
        forall|i: int|
            0 <= i < messages.len() ==> #[trigger] collector.writings(messages)[i]
                == collector.renderings(messages[i]),
    decreases messages.len(),
{
    if messages.len() > 0 {
        lemma_unfiltered_collector_writes_each_message_once(collector, messages.drop_last());
        assert(collector.approves(messages.last()));
        assert forall|i: int| 0 <= i < messages.len() implies #[trigger] collector.writings(
            messages,
        )[i] == collector.renderings(messages[i]) by {
            if i < messages.len() - 1 {
                assert(collector.writings(messages)[i] == collector.writings(
                    messages.drop_last(),
                )[i]);
                assert(messages.drop_last()[i] == messages[i]);
            }
        }
    }
}

/// Fan-in, from the producers to what is written. Let any number of
/// producers send to an empty bus, in any interleaving, while producers
/// join and leave, and let a collector without filters then take what
/// waits. It writes for every message sent, exactly once and in the order
/// of arrival; and the messages of each producer arrive in the order in
/// which that producer sent them.
pub proof fn lemma_fan_in_through_the_collector<O: LogOutput, F: LogFilter>(
    collector: &LogCollector<O, F>,
    bus: LoggerSystemView,
    ops: Seq<BusOp>,
    thread_name: Seq<char>,
)
    requires
        bus.queue.len() == 0,
        forall|i: int| 0 <= i < ops.len() ==> !(#[trigger] ops[i] is Receive),
        collector.filter_count() == 0,
    ensures
        bus_after(bus, ops).queue == sent_by(ops),
        collector.writings(bus_after(bus, ops).queue).len() == sent_by(ops).len(),
        forall|i: int|
            0 <= i < sent_by(ops).len() ==> #[trigger] collector.writings(
                bus_after(bus, ops).queue,
            )[i] == collector.renderings(sent_by(ops)[i]),
        from_thread(bus_after(bus, ops).queue, thread_name) == from_thread(
            sent_by(ops),
            thread_name,
        ),
{
    lemma_queue_holds_what_was_sent(bus, ops);
    lemma_unfiltered_collector_writes_each_message_once(collector, sent_by(ops));
}

} // verus!
