//! The hub: it owns the link to every dispatcher, decides what each event
//! from a worker means, and lays out the order of the shutdown.
use crate::channel::ChannelError;
use crate::logger::LogMessage;
use crate::text::{decimal, push_decimal, push_str};
use vstd::prelude::*;

verus! {

/// Messages that the hub sends to a worker.
#[derive(Clone, Copy, Debug, PartialEq, Eq, Structural)]
pub enum ControlMessage {
    /// Finish the current unit of work, then leave the loop.
    Close,
}

/// Status messages that a dispatcher sends to the hub.
#[derive(Debug)]
pub enum PrinterMessage {
    /// The dispatch action for this path ran; `succeeded` says how it ended.
    Dispatched { path: String, succeeded: bool },
}

/// Status messages that the folder watcher sends to the hub.
#[derive(Debug)]
pub enum FolderWatcherMessage {
    /// Starting or ending the watch failed, for the reason given.
    WatchFailed(String),
}

/// Requests from the user interface.
#[derive(Debug)]
pub enum UIControlMessage {
    /// Start a dispatcher for the printer of this name.
    AddPrinter(String),
    /// Report the names of the active dispatchers.
    ListPrinters,
    /// Stop the dispatcher at this position of the active list.
    RemovePrinter(u8),
    /// Shut the whole system down.
    Exit,
}

/// What the hub knows of one active dispatcher: its printer's name and the
/// link (channel ends) through which the hub talks to it.
pub struct Printer<H> {
    pub name: String,
    pub link: H,
}

/// Starts dispatchers on the hub's behalf.
pub trait Spawner<H> {
    /// Starts a dispatcher for the printer `name` and returns the hub's link
    /// to it.
    fn spawn(&mut self, name: &String) -> H;
}

/// The hub's life cycle.
#[derive(Clone, Copy, Debug, PartialEq, Eq, Structural)]
pub enum Phase {
    /// Waiting on every worker and handling what arrives.
    Running,
    /// Close has been requested; the fixed workers are not yet joined.
    Draining,
    /// Every fixed worker has been joined.
    Terminated,
}

/// The fixed workers, which are started once and never removed.
#[derive(Clone, Copy, Debug, PartialEq, Eq, Structural)]
pub enum Worker {
    Ui,
    FolderWatcher,
    Logger,
}

/// Which channel a position of the hub's wait set stands for. Dispatchers
/// come first, in registration order, then the UI, then the folder watcher.
#[derive(Clone, Copy, Debug, PartialEq, Eq, Structural)]
pub enum Source {
    Printer(usize),
    Ui,
    FolderWatcher,
    /// A position past the end of the wait set: a fault in the caller.
    Unknown(usize),
}

/// What one wait of the hub's loop brought.
pub enum HubEvent {
    /// A status message from the dispatcher at this position.
    Printer(usize, PrinterMessage),
    /// The channel of the dispatcher at this position disconnected.
    PrinterDisconnected(usize),
    /// A request from the UI.
    Ui(UIControlMessage),
    /// The UI's channel disconnected.
    UiDisconnected,
    /// A status message from the folder watcher.
    FolderWatcher(FolderWatcherMessage),
    /// The folder watcher's channel disconnected.
    FolderWatcherDisconnected,
}

/// What the hub asks its caller to carry out, in order.
pub enum HubAction<H> {
    /// Send this entry to the logger.
    Log(LogMessage),
    /// Send Close to a dispatcher taken off the active list on request, and
    /// report the outcome with `close_report(.., false, ..)`.
    ClosePrinter(Printer<H>),
    /// Try, without waiting, to send Close to a dispatcher whose channel
    /// disconnected, and report the outcome with `close_report(.., true, ..)`.
    CloseGone(Printer<H>),
    /// Send Close to a fixed worker.
    CloseWorker(Worker),
}

/// One step of the hub's shutdown.
#[derive(Clone, Copy, Debug, PartialEq, Eq, Structural)]
pub enum ShutdownStep {
    /// Drop the hub's channel ends to the UI and the folder watcher.
    ReleaseFixedChannels,
    /// Wait for this worker's thread to end, with no time limit, and report
    /// how it ended with `join_report`.
    Join(Worker),
    /// Ask the logger to close.
    CloseLogger,
}

/// The origin that the hub puts on its log entries.
pub fn origin() -> (r: String)
    ensures
        r@ == "Controller"@,
{
    String::from_str("Controller")
}

/// A notice from the hub with this text.
pub open spec fn hub_notice(m: LogMessage, text: Seq<char>) -> bool {
    m matches LogMessage::Notice { origin, message } && origin@ == "Controller"@ && message@ == text
}

/// An error from the hub with this text.
pub open spec fn hub_error(m: LogMessage, text: Seq<char>) -> bool {
    m matches LogMessage::Error { origin, message } && origin@ == "Controller"@ && message@ == text
}

/// A log action: a notice from the hub with this text.
pub open spec fn is_notice<H>(a: HubAction<H>, text: Seq<char>) -> bool {
    a matches HubAction::Log(m) && hub_notice(m, text)
}

/// A log action: an error from the hub with this text.
pub open spec fn is_error<H>(a: HubAction<H>, text: Seq<char>) -> bool {
    a matches HubAction::Log(m) && hub_error(m, text)
}

/// A log action: the hub reports that the named channel disconnected.
pub open spec fn is_disconnect<H>(a: HubAction<H>, channel: Seq<char>) -> bool {
    a matches HubAction::Log(LogMessage::Disconnected { origin, channel: c })
        && origin@ == "Controller"@ && c@ == channel
}

/// The line that lists the dispatcher `name` at position `k`.
pub open spec fn listing_line(k: nat, name: Seq<char>) -> Seq<char> {
    decimal(k) + ". "@ + name
}

/// The active names after a UI request, while the hub is running.
pub open spec fn after_request(names: Seq<Seq<char>>, m: UIControlMessage) -> Seq<Seq<char>> {
    match m {
        UIControlMessage::AddPrinter(name) => names.push(name@),
        UIControlMessage::RemovePrinter(u) => if (u as int) < names.len() {
            names.remove(u as int)
        } else {
            names
        },
        _ => names,
    }
}

/// The active names after a sequence of UI requests.
pub open spec fn after_requests(names: Seq<Seq<char>>, ms: Seq<UIControlMessage>) -> Seq<Seq<char>>
    decreases ms.len(),
{
    if ms.len() == 0 {
        names
    } else {
        after_requests(after_request(names, ms[0]), ms.drop_first())
    }
}

/// How many of the requests add a dispatcher.
pub open spec fn adds(ms: Seq<UIControlMessage>) -> nat
    decreases ms.len(),
{
    if ms.len() == 0 {
        0
    } else {
        (if ms[0] is AddPrinter { 1nat } else { 0nat }) + adds(ms.drop_first())
    }
}

/// How many of the requests, applied in order from `names`, remove a
/// dispatcher that exists at that moment.
pub open spec fn successful_removes(names: Seq<Seq<char>>, ms: Seq<UIControlMessage>) -> nat
    decreases ms.len(),
{
    if ms.len() == 0 {
        0
    } else {
        (if ms[0] matches UIControlMessage::RemovePrinter(u) && (u as int) < names.len() {
            1nat
        } else {
            0nat
        }) + successful_removes(after_request(names, ms[0]), ms.drop_first())
    }
}

/// What handling a UI request other than Exit does to the links and which
/// actions it asks for, given the active `names` and `links` before it.
pub open spec fn ui_handled<H>(
    names: Seq<Seq<char>>,
    links: Seq<H>,
    new_links: Seq<H>,
    message: UIControlMessage,
    r: Seq<HubAction<H>>,
) -> bool {
    match message {
        UIControlMessage::AddPrinter(name) => {
            &&& new_links.len() == links.len() + 1
            &&& new_links.drop_last() == links
            &&& r.len() == 1
            &&& is_notice(r[0], "Adding printer: "@ + "\""@ + name@ + "\""@)
        },
        UIControlMessage::ListPrinters => {
            &&& new_links == links
            &&& r.len() == names.len()
            &&& forall|k: int|
                0 <= k < r.len() ==> #[trigger] is_notice(
                    r[k],
                    listing_line(k as nat, names[k]),
                )
        },
        UIControlMessage::RemovePrinter(u) => if (u as int) < names.len() {
            &&& new_links == links.remove(u as int)
            &&& r.len() == 2
            &&& is_notice(r[0], "Removing printer "@ + "\""@ + names[u as int] + "\""@)
            &&& r[1] matches HubAction::ClosePrinter(p)
                && p.name@ == names[u as int]
                && p.link == links[u as int]
        } else {
            &&& new_links == links
            &&& r.len() == 1
            &&& is_error(r[0], "No printer at index "@ + decimal(u as nat))
        },
        UIControlMessage::Exit => true,
    }
}

/// What an Exit request asks for: Close to the folder watcher, then to the UI.
pub open spec fn exit_actions<H>() -> Seq<HubAction<H>> {
    seq![HubAction::CloseWorker(Worker::FolderWatcher), HubAction::CloseWorker(Worker::Ui)]
}

/// The hub's shutdown, in order: release the fixed workers' channels, join
/// the UI, join the folder watcher, then close the logger and join it last.
pub open spec fn shutdown_plan() -> Seq<ShutdownStep> {
    seq![
        ShutdownStep::ReleaseFixedChannels,
        ShutdownStep::Join(Worker::Ui),
        ShutdownStep::Join(Worker::FolderWatcher),
        ShutdownStep::CloseLogger,
        ShutdownStep::Join(Worker::Logger),
    ]
}

/// Why a request to the hub was refused.
#[derive(Clone, Copy, Debug, PartialEq, Eq, Structural)]
pub enum HubError {
    /// No active dispatcher stands at the requested position.
    InvalidIndex,
}

fn notice(message: String) -> (r: LogMessage)
    ensures
        hub_notice(r, message@),
{
    LogMessage::Notice { origin: origin(), message }
}

fn error(message: String) -> (r: LogMessage)
    ensures
        hub_error(r, message@),
{
    LogMessage::Error { origin: origin(), message }
}

/// `before`, then `name` in double quotes, then `after`.
fn quoted(before: &str, name: &str, after: &str) -> (r: String)
    ensures
        r@ == before@ + "\""@ + name@ + "\""@ + after@,
{
    let mut s = String::new();
    push_str(&mut s, before);
    push_str(&mut s, "\"");
    push_str(&mut s, name);
    push_str(&mut s, "\"");
    push_str(&mut s, after);
    s
}

/// The name under which log entries speak of a fixed worker.
pub open spec fn worker_label(w: Worker) -> Seq<char> {
    match w {
        Worker::Ui => "UI"@,
        Worker::FolderWatcher => "FolderWatcher"@,
        Worker::Logger => "Logger"@,
    }
}

fn label(w: Worker) -> (r: &'static str)
    ensures
        r@ == worker_label(w),
{
    match w {
        Worker::Ui => "UI",
        Worker::FolderWatcher => "FolderWatcher",
        Worker::Logger => "Logger",
    }
}

/// The entry that reports how the thread of `worker` ended: `panic` holds
/// the panic's description if it panicked.
pub fn join_report(worker: Worker, panic: Option<String>) -> (r: LogMessage)
    ensures
        match panic {
            Some(detail) => hub_error(
                r,
                worker_label(worker) + " thread panicked with code "@ + detail@,
            ),
            None => hub_notice(r, worker_label(worker) + " thread closed without errors"@),
        },
{
    let mut text = String::new();
    push_str(&mut text, label(worker));
    match panic {
        Some(detail) => {
            push_str(&mut text, " thread panicked with code ");
            push_str(&mut text, detail.as_str());
            error(text)
        },
        None => {
            push_str(&mut text, " thread closed without errors");
            notice(text)
        },
    }
}

/// The entry, if any, that reports the outcome of sending Close to the
/// dispatcher `name`: `gone` tells a dispatcher whose channel disconnected
/// (every outcome is reported) from one removed on request (only a failure
/// is).
pub fn close_report(name: &str, gone: bool, outcome: Result<(), ChannelError>) -> (r: Option<
    LogMessage,
>)
    ensures
        gone && outcome is Ok ==> r is Some && hub_notice(
            r->Some_0,
            "Sent Close message to disconnected printer "@ + "\""@ + name@ + "\""@ + "."@,
        ),
        gone && outcome is Err ==> r is Some && hub_error(
            r->Some_0,
            "Failed to send Close message to disconnected printer "@ + "\""@ + name@ + "\""@
                + ": peer disconnected"@,
        ),
        !gone && outcome is Ok ==> r is None,
        !gone && outcome is Err ==> r is Some && hub_error(
            r->Some_0,
            "Failed to send Close message to printer "@ + "\""@ + name@ + "\""@
                + ": peer disconnected"@,
        ),
{
    match (gone, outcome) {
        (true, Ok(())) => Some(
            notice(quoted("Sent Close message to disconnected printer ", name, ".")),
        ),
        (true, Err(_)) => Some(
            error(
                quoted(
                    "Failed to send Close message to disconnected printer ",
                    name,
                    ": peer disconnected",
                ),
            ),
        ),
        (false, Ok(())) => None,
        (false, Err(_)) => Some(
            error(quoted("Failed to send Close message to printer ", name, ": peer disconnected")),
        ),
    }
}

/// The supervising hub. `H` is the caller's link to one dispatcher.
pub struct Controller<H> {
    phase: Phase,
    printers: Vec<Printer<H>>,
}

impl<H> Controller<H> {
    /// The names of the active dispatchers, in registration order.
    pub closed spec fn names(&self) -> Seq<Seq<char>> {
        self.printers@.map_values(|p: Printer<H>| p.name@)
    }

    /// The links to the active dispatchers, in registration order.
    pub closed spec fn links(&self) -> Seq<H> {
        self.printers@.map_values(|p: Printer<H>| p.link)
    }

    /// Where the hub is in its life cycle.
    pub closed spec fn spec_phase(&self) -> Phase {
        self.phase
    }

    /// A running hub with no dispatchers.
    pub fn new() -> (r: Self)
        ensures
            r.spec_phase() == Phase::Running,
            r.names() == Seq::<Seq<char>>::empty(),
            r.links() == Seq::<H>::empty(),
    {
        let r = Controller { phase: Phase::Running, printers: Vec::new() };
        assert(r.names() =~= Seq::<Seq<char>>::empty());
        assert(r.links() =~= Seq::<H>::empty());
        r
    }

    /// Where the hub is in its life cycle.
    pub fn phase(&self) -> (r: Phase)
        ensures
            r == self.spec_phase(),
    {
        self.phase
    }

    /// How many dispatchers are active.
    pub fn printer_count(&self) -> (r: usize)
        ensures
            r == self.names().len(),
            r == self.links().len(),
    {
        self.printers.len()
    }

    /// The dispatcher at position `i` of the active list.
    pub fn printer(&self, i: usize) -> (r: &Printer<H>)
        requires
            i < self.names().len(),
        ensures
            r.name@ == self.names()[i as int],
            r.link == self.links()[i as int],
    {
        &self.printers[i]
    }

    /// Takes the dispatcher at position `i` off the active list, checked
    /// against the current count. Fails, changing nothing, when no
    /// dispatcher stands there.
    pub fn take_printer(&mut self, i: usize) -> (r: Result<Printer<H>, HubError>)
        ensures
            final(self).spec_phase() == old(self).spec_phase(),
            i < old(self).names().len() <==> r is Ok,
            r matches Ok(p) ==> {
                &&& p.name@ == old(self).names()[i as int]
                &&& p.link == old(self).links()[i as int]
                &&& final(self).names() == old(self).names().remove(i as int)
                &&& final(self).links() == old(self).links().remove(i as int)
            },
            r matches Err(e) ==> {
                &&& e == HubError::InvalidIndex
                &&& final(self).names() == old(self).names()
                &&& final(self).links() == old(self).links()
            },
    {
        if i < self.printers.len() {
            let p = self.printers.remove(i);
            assert(self.names() =~= old(self).names().remove(i as int));
            assert(self.links() =~= old(self).links().remove(i as int));
            Ok(p)
        } else {
            Err(HubError::InvalidIndex)
        }
    }

    /// Registers a started dispatcher at the end of the active list.
    fn register(&mut self, name: String, link: H)
        ensures
            final(self).spec_phase() == old(self).spec_phase(),
            final(self).names() == old(self).names().push(name@),
            final(self).links() == old(self).links().push(link),
    {
        self.printers.push(Printer { name, link });
        assert(self.names() =~= old(self).names().push(name@));
        assert(self.links() =~= old(self).links().push(link));
    }

    /// Handles a request from the UI other than Exit: adding starts a
    /// dispatcher through `spawner` and registers it; listing reports each
    /// active name, with its position, through the logger; removing checks
    /// the position against the current count.
    fn handle_ui_control_message<S: Spawner<H>>(
        &mut self,
        message: UIControlMessage,
        spawner: &mut S,
    ) -> (r: Vec<HubAction<H>>)
        requires
            !(message is Exit),
        ensures
            final(self).spec_phase() == old(self).spec_phase(),
            final(self).names() == after_request(old(self).names(), message),
            ui_handled(old(self).names(), old(self).links(), final(self).links(), message, r@),
    {
        proof {
            reveal_strlit("");
        }
        let mut actions: Vec<HubAction<H>> = Vec::new();
        match message {
            UIControlMessage::AddPrinter(name) => {
                let text = quoted("Adding printer: ", name.as_str(), "");
                actions.push(HubAction::Log(notice(text)));
                let link = spawner.spawn(&name);
                self.register(name, link);
                assert(self.links().drop_last() =~= old(self).links());
            },
            UIControlMessage::ListPrinters => {
                let n = self.printers.len();
                let mut k: usize = 0;
                while k < n
                    invariant
                        n == self.printers@.len(),
                        self == old(self),
                        k <= n,
                        actions@.len() == k,
                        forall|j: int|
                            0 <= j < k ==> #[trigger] is_notice(
                                actions@[j],
                                listing_line(j as nat, self.names()[j]),
                            ),
                    decreases n - k,
                {
                    let mut line = String::new();
                    push_decimal(&mut line, k as u64);
                    push_str(&mut line, ". ");
                    push_str(&mut line, self.printers[k].name.as_str());
                    actions.push(HubAction::Log(notice(line)));
                    k = k + 1;
                }
            },
            UIControlMessage::RemovePrinter(u) => {
                match self.take_printer(u as usize) {
                    Ok(p) => {
                        let text = quoted("Removing printer ", p.name.as_str(), "");
                        actions.push(HubAction::Log(notice(text)));
                        actions.push(HubAction::ClosePrinter(p));
                    },
                    Err(_) => {
                        let mut text = String::new();
                        push_str(&mut text, "No printer at index ");
                        push_decimal(&mut text, u as u64);
                        actions.push(HubAction::Log(error(text)));
                    },
                }
            },
            UIControlMessage::Exit => {},
        }
        actions
    }

    /// Handles one event of the hub's loop. A lost dispatcher is reported,
    /// taken off the active list and handed back for a last, best-effort
    /// close. An Exit request asks the folder watcher and the UI to close
    /// and moves the hub to draining; so does the loss of either channel.
    /// Once the hub no longer runs, UI requests are ignored; once it is
    /// terminated, every event is.
    pub fn step<S: Spawner<H>>(&mut self, event: HubEvent, spawner: &mut S) -> (r: Vec<HubAction<H>>)
        ensures
            old(self).spec_phase() == Phase::Terminated ==> {
                &&& final(self).spec_phase() == Phase::Terminated
                &&& final(self).names() == old(self).names()
                &&& final(self).links() == old(self).links()
                &&& r@.len() == 0
            },
            old(self).spec_phase() != Phase::Terminated ==> match event {
                HubEvent::Printer(i, PrinterMessage::Dispatched { path, succeeded }) => {
                    &&& final(self).spec_phase() == old(self).spec_phase()
                    &&& final(self).names() == old(self).names()
                    &&& final(self).links() == old(self).links()
                    &&& if i < old(self).names().len() {
                        &&& r@.len() == 1
                        &&& succeeded ==> is_notice(r@[0], "Printer "@ + "\""@
                            + old(self).names()[i as int] + "\""@ + " dispatched "@ + path@)
                        &&& !succeeded ==> is_error(r@[0], "Printer "@ + "\""@
                            + old(self).names()[i as int] + "\""@ + " failed to dispatch "@ + path@)
                    } else {
                        r@.len() == 0
                    }
                },
                HubEvent::PrinterDisconnected(i) => {
                    &&& final(self).spec_phase() == old(self).spec_phase()
                    &&& if i < old(self).names().len() {
                        &&& final(self).names() == old(self).names().remove(i as int)
                        &&& final(self).links() == old(self).links().remove(i as int)
                        &&& r@.len() == 2
                        &&& is_disconnect(r@[0], old(self).names()[i as int])
                        &&& r@[1] matches HubAction::CloseGone(p)
                            && p.name@ == old(self).names()[i as int]
                            && p.link == old(self).links()[i as int]
                    } else {
                        &&& final(self).names() == old(self).names()
                        &&& final(self).links() == old(self).links()
                        &&& r@.len() == 0
                    }
                },
                HubEvent::Ui(m) => if old(self).spec_phase() == Phase::Running {
                    if m is Exit {
                        &&& final(self).spec_phase() == Phase::Draining
                        &&& final(self).names() == old(self).names()
                        &&& final(self).links() == old(self).links()
                        &&& r@ == exit_actions::<H>()
                    } else {
                        &&& final(self).spec_phase() == Phase::Running
                        &&& final(self).names() == after_request(old(self).names(), m)
                        &&& ui_handled(old(self).names(), old(self).links(), final(self).links(), m, r@)
                    }
                } else {
                    &&& final(self).spec_phase() == old(self).spec_phase()
                    &&& final(self).names() == old(self).names()
                    &&& final(self).links() == old(self).links()
                    &&& r@.len() == 0
                },
                HubEvent::UiDisconnected => {
                    &&& final(self).spec_phase() == Phase::Draining
                    &&& final(self).names() == old(self).names()
                    &&& final(self).links() == old(self).links()
                    &&& r@.len() == 1
                    &&& is_disconnect(r@[0], "ui"@)
                },
                HubEvent::FolderWatcher(FolderWatcherMessage::WatchFailed(reason)) => {
                    &&& final(self).spec_phase() == old(self).spec_phase()
                    &&& final(self).names() == old(self).names()
                    &&& final(self).links() == old(self).links()
                    &&& r@.len() == 1
                    &&& is_error(r@[0], "Folder watcher failed: "@ + reason@)
                },
                HubEvent::FolderWatcherDisconnected => {
                    &&& final(self).spec_phase() == Phase::Draining
                    &&& final(self).names() == old(self).names()
                    &&& final(self).links() == old(self).links()
                    &&& r@.len() == 1
                    &&& is_disconnect(r@[0], "folder_watcher"@)
                },
            },
    {
        let mut actions: Vec<HubAction<H>> = Vec::new();
        if self.phase == Phase::Terminated {
            return actions;
        }
        match event {
            HubEvent::Printer(i, PrinterMessage::Dispatched { path, succeeded }) => {
                if i < self.printers.len() {
                    let name = self.printers[i].name.as_str();
                    if succeeded {
                        let mut text = quoted("Printer ", name, " dispatched ");
                        push_str(&mut text, path.as_str());
                        actions.push(HubAction::Log(notice(text)));
                    } else {
                        let mut text = quoted("Printer ", name, " failed to dispatch ");
                        push_str(&mut text, path.as_str());
                        actions.push(HubAction::Log(error(text)));
                    }
                }
            },
            HubEvent::PrinterDisconnected(i) => {
                if let Ok(p) = self.take_printer(i) {
                    actions.push(
                        HubAction::Log(
                            LogMessage::Disconnected { origin: origin(), channel: p.name.clone() },
                        ),
                    );
                    actions.push(HubAction::CloseGone(p));
                }
            },
            HubEvent::Ui(m) => {
                if self.phase == Phase::Running {
                    if let UIControlMessage::Exit = m {
                        actions.push(HubAction::CloseWorker(Worker::FolderWatcher));
                        actions.push(HubAction::CloseWorker(Worker::Ui));
                        self.phase = Phase::Draining;
                        assert(actions@ =~= exit_actions::<H>());
                    } else {
                        actions = self.handle_ui_control_message(m, spawner);
                    }
                }
            },
            HubEvent::UiDisconnected => {
                actions.push(
                    HubAction::Log(
                        LogMessage::Disconnected {
                            origin: origin(),
                            channel: String::from_str("ui"),
                        },
                    ),
                );
                self.phase = Phase::Draining;
            },
            HubEvent::FolderWatcher(FolderWatcherMessage::WatchFailed(reason)) => {
                let mut text = String::new();
                push_str(&mut text, "Folder watcher failed: ");
                push_str(&mut text, reason.as_str());
                actions.push(HubAction::Log(error(text)));
            },
            HubEvent::FolderWatcherDisconnected => {
                actions.push(
                    HubAction::Log(
                        LogMessage::Disconnected {
                            origin: origin(),
                            channel: String::from_str("folder_watcher"),
                        },
                    ),
                );
                self.phase = Phase::Draining;
            },
        }
        actions
    }

    /// Ends a draining hub: the steps of its shutdown, in order, after which
    /// it is terminated. A hub that is running or already terminated is left
    /// as it is, with no steps.
    pub fn shutdown(&mut self) -> (r: Vec<ShutdownStep>)
        ensures
            final(self).names() == old(self).names(),
            final(self).links() == old(self).links(),
            old(self).spec_phase() == Phase::Draining ==> {
                &&& final(self).spec_phase() == Phase::Terminated
                &&& r@ == shutdown_plan()
            },
            old(self).spec_phase() != Phase::Draining ==> {
                &&& final(self).spec_phase() == old(self).spec_phase()
                &&& r@.len() == 0
            },
    {
        let mut steps: Vec<ShutdownStep> = Vec::new();
        if self.phase == Phase::Draining {
            steps.push(ShutdownStep::ReleaseFixedChannels);
            steps.push(ShutdownStep::Join(Worker::Ui));
            steps.push(ShutdownStep::Join(Worker::FolderWatcher));
            steps.push(ShutdownStep::CloseLogger);
            steps.push(ShutdownStep::Join(Worker::Logger));
            self.phase = Phase::Terminated;
            assert(steps@ =~= shutdown_plan());
        }
        steps
    }

    /// Which channel position `index` of the wait set stands for.
    pub fn source_of(&self, index: usize) -> (r: Source)
        ensures
            index < self.names().len() ==> r == Source::Printer(index),
            index == self.names().len() ==> r == Source::Ui,
            index == self.names().len() + 1 ==> r == Source::FolderWatcher,
            index > self.names().len() + 1 ==> r == Source::Unknown(index),
    {
        let n = self.printers.len();
        if index < n {
            Source::Printer(index)
        } else if index == n {
            Source::Ui
        } else if index - n == 1 {
            Source::FolderWatcher
        } else {
            Source::Unknown(index)
        }
    }
}

/// Whatever sequence of UI requests the hub handles, the number of active
/// dispatchers afterwards is the number it started with, plus the requests
/// that add one, minus the removals that found a dispatcher at their index.
pub proof fn lemma_dispatcher_count(names: Seq<Seq<char>>, ms: Seq<UIControlMessage>)
    ensures
        after_requests(names, ms).len() == names.len() + adds(ms) - successful_removes(names, ms),
    decreases ms.len(),
{
    if ms.len() > 0 {
        lemma_dispatcher_count(after_request(names, ms[0]), ms.drop_first());
    }
}

/// Added dispatchers keep their registration order: after adding `added`
/// one by one, the active names are the earlier ones followed by `added`.
pub proof fn lemma_registration_order(names: Seq<Seq<char>>, ms: Seq<UIControlMessage>)
    requires
        forall|k: int| 0 <= k < ms.len() ==> #[trigger] ms[k] is AddPrinter,
    ensures
        after_requests(names, ms) == names + ms.map_values(
            |m: UIControlMessage| m->AddPrinter_0@,
        ),
    decreases ms.len(),
{
    if ms.len() == 0 {
        assert(names + ms.map_values(|m: UIControlMessage| m->AddPrinter_0@) =~= names);
    } else {
        let rest = ms.drop_first();
        assert forall|k: int| 0 <= k < rest.len() implies #[trigger] rest[k] is AddPrinter by {
            assert(rest[k] == ms[k + 1]);
        }
        assert(ms[0] is AddPrinter);
        lemma_registration_order(after_request(names, ms[0]), rest);
        assert(names.push(ms[0]->AddPrinter_0@) + rest.map_values(
            |m: UIControlMessage| m->AddPrinter_0@,
        ) =~= names + ms.map_values(|m: UIControlMessage| m->AddPrinter_0@));
    }
}

/// A removal request whose index is not below the current count leaves the
/// active dispatchers as they are.
pub proof fn lemma_invalid_removal_keeps_set(names: Seq<Seq<char>>, u: u8)
    requires
        u as int >= names.len(),
    ensures
        after_request(names, UIControlMessage::RemovePrinter(u)) == names,
{
}

/// An Exit request sends exactly one Close to the folder watcher and exactly
/// one to the UI; the shutdown that follows joins the UI, then the folder
/// watcher, then asks the logger to close, and joins the logger last.
pub proof fn lemma_exit_order<H>()
    ensures
        exit_actions::<H>().len() == 2,
        forall|k: int|
            0 <= k < 2 && #[trigger] exit_actions::<H>()[k] == HubAction::<H>::CloseWorker(
                Worker::FolderWatcher,
            ) ==> k == 0,
        forall|k: int|
            0 <= k < 2 && #[trigger] exit_actions::<H>()[k] == HubAction::<H>::CloseWorker(
                Worker::Ui,
            ) ==> k == 1,
        exit_actions::<H>()[0] == HubAction::<H>::CloseWorker(Worker::FolderWatcher),
        exit_actions::<H>()[1] == HubAction::<H>::CloseWorker(Worker::Ui),
        shutdown_plan()[1] == ShutdownStep::Join(Worker::Ui),
        shutdown_plan()[2] == ShutdownStep::Join(Worker::FolderWatcher),
        shutdown_plan()[3] == ShutdownStep::CloseLogger,
        shutdown_plan().last() == ShutdownStep::Join(Worker::Logger),
        forall|k: int|
            0 <= k < shutdown_plan().len() - 1 ==> #[trigger] shutdown_plan()[k]
                != ShutdownStep::Join(Worker::Logger),
{
    assert(shutdown_plan().len() == 5);
}

/// Once a dispatcher with its own link is taken off the active list, that
/// link is no longer among the active ones, and the remaining links are
/// still distinct: no later request can reach the removed dispatcher.
pub proof fn lemma_removed_link_unreachable<H>(links: Seq<H>, i: int)
    requires
        links.no_duplicates(),
        0 <= i < links.len(),
    ensures
        !links.remove(i).contains(links[i]),
        links.remove(i).no_duplicates(),
{
    let rest = links.remove(i);
    assert forall|k: int| 0 <= k < rest.len() implies rest[k] != links[i] by {
        if k < i {
            assert(rest[k] == links[k]);
        } else {
            assert(rest[k] == links[k + 1]);
        }
    }
    assert forall|a: int, b: int| 0 <= a < rest.len() && 0 <= b < rest.len() && a != b implies rest[a]
        != rest[b] by {
        let a0 = if a < i { a } else { a + 1 };
        let b0 = if b < i { b } else { b + 1 };
        assert(rest[a] == links[a0]);
        assert(rest[b] == links[b0]);
    }
}

} // verus!
