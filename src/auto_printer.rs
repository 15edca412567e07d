//! A print dispatcher: it takes job paths from the shared queue, hands each
//! to the external print step, and reports to the hub.
use crate::channel::{recv_blocking, ChannelError, ChannelPair};
use crate::controller::{ControlMessage, PrinterMessage};
use crate::logger::LogMessage;
use crate::text::push_str;
use vstd::prelude::*;

verus! {

/// What reached a dispatcher on one of its two sources.
pub enum DispatcherEvent {
    /// A job path, or the disconnection of the job queue.
    Job(Result<String, ChannelError>),
    /// A control message from the hub, or the disconnection of its channel.
    Control(Result<ControlMessage, ChannelError>),
}

/// What a dispatcher does about one event: entries to log, a path to hand
/// to the print step, and whether its loop goes on.
pub struct DispatcherStep {
    pub entries: Vec<LogMessage>,
    pub print: Option<String>,
    pub keep_running: bool,
}

/// The origin that the dispatcher for printer `name` puts on its entries.
pub open spec fn printer_origin(name: Seq<char>) -> Seq<char> {
    "AutoPrinter: "@ + name
}

/// A notice from the dispatcher for printer `name`, with this text.
pub open spec fn printer_notice(m: LogMessage, name: Seq<char>, text: Seq<char>) -> bool {
    m matches LogMessage::Notice { origin, message } && origin@ == printer_origin(name)
        && message@ == text
}

/// The dispatcher's report that the channel `channel` disconnected.
pub open spec fn printer_disconnect(m: LogMessage, name: Seq<char>, channel: Seq<char>) -> bool {
    m matches LogMessage::Disconnected { origin, channel: c } && origin@ == printer_origin(name)
        && c@ == channel
}

/// One dispatcher: its link to the hub, its end of the job queue, and the
/// name of the printer it serves.
pub struct AutoPrinter {
    pub controller: ChannelPair<PrinterMessage, ControlMessage>,
    pub print_queue: crossbeam::channel::Receiver<String>,
    pub printer_name: String,
}

impl AutoPrinter {
    /// A dispatcher for printer `printer_name`.
    pub fn new(
        controller: ChannelPair<PrinterMessage, ControlMessage>,
        print_queue: crossbeam::channel::Receiver<String>,
        printer_name: String,
    ) -> (r: Self)
        ensures
            r.controller == controller,
            r.print_queue == print_queue,
            r.printer_name == printer_name,
    {
        AutoPrinter { controller, print_queue, printer_name }
    }

    /// The origin of this dispatcher's log entries.
    pub fn origin(&self) -> (r: String)
        ensures
            r@ == printer_origin(self.printer_name@),
    {
        let mut s = String::new();
        push_str(&mut s, "AutoPrinter: ");
        push_str(&mut s, self.printer_name.as_str());
        s
    }

    /// The arguments of the print step for `path`: print the file to this
    /// dispatcher's printer.
    pub fn print_args(&self, path: &str) -> (r: Vec<String>)
        ensures
            r@.len() == 4,
            r@[0]@ == "/p"@,
            r@[1]@ == path@,
            r@[2]@ == "/pt"@,
            r@[3]@ == self.printer_name@,
    {
        let mut r = Vec::new();
        r.push(String::from_str("/p"));
        r.push(String::from_str(path));
        r.push(String::from_str("/pt"));
        r.push(self.printer_name.clone());
        r
    }

    /// Decides what one event means. A job is logged and handed to the print
    /// step; a close request is logged and ends the loop; the loss of either
    /// source is reported and ends the loop.
    pub fn route(&self, event: DispatcherEvent) -> (r: DispatcherStep)
        ensures
            match event {
                DispatcherEvent::Job(Ok(path)) => {
                    &&& r.keep_running
                    &&& r.print == Some(path)
                    &&& r.entries@.len() == 2
                    &&& printer_notice(
                        r.entries@[0],
                        self.printer_name@,
                        "Printer "@ + "\""@ + self.printer_name@ + "\""@
                            + " picked up file to print: "@ + path@,
                    )
                    &&& printer_notice(
                        r.entries@[1],
                        self.printer_name@,
                        "Printing via mspaint: "@ + path@,
                    )
                },
                DispatcherEvent::Job(Err(_)) => {
                    &&& !r.keep_running
                    &&& r.print is None
                    &&& r.entries@.len() == 1
                    &&& printer_disconnect(r.entries@[0], self.printer_name@, "print_queue"@)
                },
                DispatcherEvent::Control(Ok(ControlMessage::Close)) => {
                    &&& !r.keep_running
                    &&& r.print is None
                    &&& r.entries@.len() == 1
                    &&& r.entries@[0] matches LogMessage::Closing { origin }
                        && origin@ == printer_origin(self.printer_name@)
                },
                DispatcherEvent::Control(Err(_)) => {
                    &&& !r.keep_running
                    &&& r.print is None
                    &&& r.entries@.len() == 1
                    &&& printer_disconnect(r.entries@[0], self.printer_name@, "controller"@)
                },
            },
    {
        let mut entries: Vec<LogMessage> = Vec::new();
        match event {
            DispatcherEvent::Job(Ok(path)) => {
                let mut picked = String::new();
                push_str(&mut picked, "Printer ");
                push_str(&mut picked, "\"");
                push_str(&mut picked, self.printer_name.as_str());
                push_str(&mut picked, "\"");
                push_str(&mut picked, " picked up file to print: ");
                push_str(&mut picked, path.as_str());
                entries.push(LogMessage::Notice { origin: self.origin(), message: picked });
                let mut printing = String::new();
                push_str(&mut printing, "Printing via mspaint: ");
                push_str(&mut printing, path.as_str());
                entries.push(LogMessage::Notice { origin: self.origin(), message: printing });
                DispatcherStep { entries, print: Some(path), keep_running: true }
            },
            DispatcherEvent::Job(Err(_)) => {
                entries.push(
                    LogMessage::Disconnected {
                        origin: self.origin(),
                        channel: String::from_str("print_queue"),
                    },
                );
                DispatcherStep { entries, print: None, keep_running: false }
            },
            DispatcherEvent::Control(Ok(ControlMessage::Close)) => {
                entries.push(LogMessage::Closing { origin: self.origin() });
                DispatcherStep { entries, print: None, keep_running: false }
            },
            DispatcherEvent::Control(Err(_)) => {
                entries.push(
                    LogMessage::Disconnected {
                        origin: self.origin(),
                        channel: String::from_str("controller"),
                    },
                );
                DispatcherStep { entries, print: None, keep_running: false }
            },
        }
    }

    /// Waits for the next job path from the shared queue; fails once the
    /// queue is empty and every producer is gone.
    pub fn next_job(&self) -> (r: Result<String, ChannelError>)
        ensures
            r matches Err(e) ==> e == ChannelError::PeerDisconnected,
    {
        match recv_blocking(&self.print_queue) {
            Ok(path) => Ok(path),
            Err(()) => Err(ChannelError::PeerDisconnected),
        }
    }

    /// Tells the hub that the print step for `path` ran and how it ended.
    pub fn report(&self, path: String, succeeded: bool) -> (r: Result<(), ChannelError>)
        ensures
            r matches Err(e) ==> e == ChannelError::PeerDisconnected,
    {
        self.controller.send(PrinterMessage::Dispatched { path, succeeded })
    }
}

} // verus!
