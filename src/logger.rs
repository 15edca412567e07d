//! Log entries and the logger's decisions: how an entry is rendered, where
//! it is written, and how the logger reacts to its two input channels.
use crate::channel::ChannelError;
use crate::controller::ControlMessage;
use crate::text::push_str;
use vstd::prelude::*;

verus! {

/// The kinds of entry the logger accepts. The logger alone turns them into
/// text, so every line in the log has the same shape.
#[derive(Clone, Debug)]
pub enum LogMessage {
    /// Writing to the log file failed; entries go to the screen from now on.
    FallBackToScreenLogging { reason: String },
    /// An error; whether the program goes on is decided by its origin.
    Error { origin: String, message: String },
    /// An ordinary notice.
    Notice { origin: String, message: String },
    /// The originating worker is shutting down.
    Closing { origin: String },
    /// The named channel of the originating worker disconnected.
    Disconnected { origin: String, channel: String },
}

/// Whether an entry reports a fault (shown on standard error when the logger
/// writes to the screen).
pub open spec fn is_error_entry(m: LogMessage) -> bool {
    match m {
        LogMessage::FallBackToScreenLogging { .. } => true,
        LogMessage::Error { .. } => true,
        LogMessage::Notice { .. } => false,
        LogMessage::Closing { .. } => false,
        LogMessage::Disconnected { .. } => true,
    }
}

/// The text of one log line (newline included) for an entry stamped `stamp`.
/// A closing entry reads as a notice and a disconnection as an error.
pub open spec fn entry_text(stamp: Seq<char>, m: LogMessage) -> Seq<char> {
    let head = "["@ + stamp;
    match m {
        LogMessage::FallBackToScreenLogging { reason } =>
            head + "] ERROR Falling back to on-screen logging: "@ + reason@ + "\n"@,
        LogMessage::Error { origin, message } =>
            head + "] ERROR ("@ + origin@ + ") "@ + message@ + "\n"@,
        LogMessage::Notice { origin, message } =>
            head + "] NOTICE ("@ + origin@ + ") "@ + message@ + "\n"@,
        LogMessage::Closing { origin } =>
            head + "] NOTICE ("@ + origin@ + ") "@ + "Closing gracefully"@ + "\n"@,
        LogMessage::Disconnected { origin, channel } =>
            head + "] ERROR ("@ + origin@ + ") "@ + "Channel disconnected unexpectedly: "@
                + channel@ + "\n"@,
    }
}

/// Relies on chrono's `Local::now` and its `Display`: the current local time
/// as text. Nothing is promised of its value.
#[verifier::external_body]
fn timestamp_now() -> String {
    chrono::Local::now().to_string()
}

/// Renders `m` as one log line stamped `stamp`.
pub fn render_entry(stamp: &str, m: &LogMessage) -> (r: String)
    ensures
        r@ == entry_text(stamp@, *m),
{
    let mut s = String::new();
    push_str(&mut s, "[");
    push_str(&mut s, stamp);
    match m {
        LogMessage::FallBackToScreenLogging { reason } => {
            push_str(&mut s, "] ERROR Falling back to on-screen logging: ");
            push_str(&mut s, reason.as_str());
        },
        LogMessage::Error { origin, message } => {
            push_str(&mut s, "] ERROR (");
            push_str(&mut s, origin.as_str());
            push_str(&mut s, ") ");
            push_str(&mut s, message.as_str());
        },
        LogMessage::Notice { origin, message } => {
            push_str(&mut s, "] NOTICE (");
            push_str(&mut s, origin.as_str());
            push_str(&mut s, ") ");
            push_str(&mut s, message.as_str());
        },
        LogMessage::Closing { origin } => {
            push_str(&mut s, "] NOTICE (");
            push_str(&mut s, origin.as_str());
            push_str(&mut s, ") ");
            push_str(&mut s, "Closing gracefully");
        },
        LogMessage::Disconnected { origin, channel } => {
            push_str(&mut s, "] ERROR (");
            push_str(&mut s, origin.as_str());
            push_str(&mut s, ") ");
            push_str(&mut s, "Channel disconnected unexpectedly: ");
            push_str(&mut s, channel.as_str());
        },
    }
    push_str(&mut s, "\n");
    s
}

/// Where one rendered log line goes.
pub enum Output {
    /// Append to the log file.
    File(String),
    /// Print on standard output.
    Stdout(String),
    /// Print on standard error.
    Stderr(String),
}

/// The text of an output, wherever it goes.
pub open spec fn output_text(o: Output) -> Seq<char> {
    match o {
        Output::File(t) => t@,
        Output::Stdout(t) => t@,
        Output::Stderr(t) => t@,
    }
}

/// What reached the logger on one of its two channels.
pub enum LoggerEvent {
    /// A message, or a disconnection, on the control channel from the hub.
    Control(Result<ControlMessage, ChannelError>),
    /// An entry, or a disconnection, on the channel that carries entries.
    Entry(Result<LogMessage, ChannelError>),
}

/// What the logger does about one event: the entry it writes, and whether
/// its loop goes on.
pub struct LoggerStep {
    pub entry: LogMessage,
    pub keep_running: bool,
}

/// The logger's state: whether it still writes to its file, and whether it
/// still listens to the hub's control channel.
pub struct Logger {
    to_file: bool,
    listening: bool,
}

impl Logger {
    /// Whether entries go to the log file (rather than the screen).
    pub closed spec fn spec_to_file(&self) -> bool {
        self.to_file
    }

    /// Whether the hub's control channel is still among the wait sources.
    pub closed spec fn spec_listening(&self) -> bool {
        self.listening
    }

    /// A logger whose log file opened (`file_opened`) or did not. When it did
    /// not, the logger writes to the screen from the start.
    pub fn new(file_opened: bool) -> (r: Self)
        ensures
            r.spec_to_file() == file_opened,
            r.spec_listening(),
    {
        Logger { to_file: file_opened, listening: true }
    }

    /// Whether entries go to the log file.
    pub fn to_file(&self) -> (r: bool)
        ensures
            r == self.spec_to_file(),
    {
        self.to_file
    }

    /// Whether the control channel from the hub is still to be waited on.
    pub fn listening(&self) -> (r: bool)
        ensures
            r == self.spec_listening(),
    {
        self.listening
    }

    /// The entry that reports a failed log file open; `reason` says why.
    pub fn open_failure(reason: String) -> (r: LogMessage)
        ensures
            r == (LogMessage::FallBackToScreenLogging { reason }),
    {
        LogMessage::FallBackToScreenLogging { reason }
    }

    /// Decides what one event means: a close request ends the loop after a
    /// closing entry; a lost control channel is reported and no longer waited
    /// on; an entry is written; a lost entry channel is reported and ends the
    /// loop.
    pub fn route(&mut self, event: LoggerEvent) -> (r: LoggerStep)
        ensures
            final(self).spec_to_file() == old(self).spec_to_file(),
            match event {
                LoggerEvent::Control(Ok(ControlMessage::Close)) => {
                    &&& r.entry is Closing
                    &&& r.entry->Closing_origin@ == "Logger"@
                    &&& !r.keep_running
                    &&& final(self).spec_listening() == old(self).spec_listening()
                },
                LoggerEvent::Control(Err(_)) => {
                    &&& r.entry is Disconnected
                    &&& r.entry->Disconnected_origin@ == "Logger"@
                    &&& r.entry->Disconnected_channel@ == "controller"@
                    &&& r.keep_running
                    &&& !final(self).spec_listening()
                },
                LoggerEvent::Entry(Ok(m)) => {
                    &&& r.entry == m
                    &&& r.keep_running
                    &&& final(self).spec_listening() == old(self).spec_listening()
                },
                LoggerEvent::Entry(Err(_)) => {
                    &&& r.entry is Disconnected
                    &&& r.entry->Disconnected_origin@ == "Logger"@
                    &&& r.entry->Disconnected_channel@ == "log_receiver"@
                    &&& !r.keep_running
                    &&& final(self).spec_listening() == old(self).spec_listening()
                },
            },
    {
        match event {
            LoggerEvent::Control(Ok(ControlMessage::Close)) => {
                LoggerStep { entry: LogMessage::Closing { origin: origin() }, keep_running: false }
            },
            LoggerEvent::Control(Err(_)) => {
                self.listening = false;
                LoggerStep {
                    entry: LogMessage::Disconnected {
                        origin: origin(),
                        channel: String::from_str("controller"),
                    },
                    keep_running: true,
                }
            },
            LoggerEvent::Entry(Ok(m)) => LoggerStep { entry: m, keep_running: true },
            LoggerEvent::Entry(Err(_)) => {
                LoggerStep {
                    entry: LogMessage::Disconnected {
                        origin: origin(),
                        channel: String::from_str("log_receiver"),
                    },
                    keep_running: false,
                }
            },
        }
    }

    /// Where the line for `m`, stamped `stamp`, goes: the log file while it
    /// works, otherwise standard error for faults and standard output for
    /// the rest.
    pub fn place(&self, stamp: &str, m: &LogMessage) -> (r: Output)
        ensures
            output_text(r) == entry_text(stamp@, *m),
            self.spec_to_file() ==> r is File,
            !self.spec_to_file() && is_error_entry(*m) ==> r is Stderr,
            !self.spec_to_file() && !is_error_entry(*m) ==> r is Stdout,
    {
        let text = render_entry(stamp, m);
        if self.to_file {
            Output::File(text)
        } else if is_error(m) {
            Output::Stderr(text)
        } else {
            Output::Stdout(text)
        }
    }

    /// Renders `m` with the current local time and says where it goes.
    pub fn emit(&self, m: &LogMessage) -> (r: Output)
        ensures
            exists|stamp: Seq<char>| output_text(r) == #[trigger] entry_text(stamp, *m),
            self.spec_to_file() ==> r is File,
            !self.spec_to_file() && is_error_entry(*m) ==> r is Stderr,
            !self.spec_to_file() && !is_error_entry(*m) ==> r is Stdout,
    {
        let stamp = timestamp_now();
        self.place(stamp.as_str(), m)
    }

    /// Writing or flushing the log file failed with `reason`: the logger
    /// switches to the screen for good, and the entries to show there are
    /// the notice of the switch followed by the entry that was being
    /// written.
    pub fn file_failed(&mut self, reason: String, m: LogMessage) -> (r: Vec<LogMessage>)
        ensures
            !final(self).spec_to_file(),
            final(self).spec_listening() == old(self).spec_listening(),
            r@ == seq![LogMessage::FallBackToScreenLogging { reason }, m],
    {
        self.to_file = false;
        let mut r = Vec::new();
        r.push(LogMessage::FallBackToScreenLogging { reason });
        r.push(m);
        r
    }
}

/// Whether `m` reports a fault.
pub fn is_error(m: &LogMessage) -> (r: bool)
    ensures
        r == is_error_entry(*m),
{
    match m {
        LogMessage::FallBackToScreenLogging { .. } => true,
        LogMessage::Error { .. } => true,
        LogMessage::Notice { .. } => false,
        LogMessage::Closing { .. } => false,
        LogMessage::Disconnected { .. } => true,
    }
}

/// The origin that the logger puts on its own entries.
pub fn origin() -> (r: String)
    ensures
        r@ == "Logger"@,
{
    String::from_str("Logger")
}

} // verus!
