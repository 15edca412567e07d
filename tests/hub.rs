use printing_multiplexer::channel::ChannelError;
use printing_multiplexer::controller::{
    close_report, join_report, origin, Controller, FolderWatcherMessage, HubAction, HubEvent,
    Phase, PrinterMessage, ShutdownStep, Source, Spawner, UIControlMessage, Worker,
};
use printing_multiplexer::logger::LogMessage;

/// Hands out consecutive numbers as links and remembers the names asked for.
struct Counter {
    next: u32,
    started: Vec<String>,
}

impl Spawner<u32> for Counter {
    fn spawn(&mut self, name: &String) -> u32 {
        self.started.push(name.clone());
        self.next += 1;
        self.next
    }
}

fn counter() -> Counter {
    Counter { next: 0, started: Vec::new() }
}

fn add(hub: &mut Controller<u32>, sp: &mut Counter, name: &str) -> Vec<HubAction<u32>> {
    hub.step(HubEvent::Ui(UIControlMessage::AddPrinter(name.to_string())), sp)
}

fn names(hub: &Controller<u32>) -> Vec<String> {
    (0..hub.printer_count()).map(|i| hub.printer(i).name.clone()).collect()
}

fn notice_text(a: &HubAction<u32>) -> String {
    match a {
        HubAction::Log(LogMessage::Notice { origin, message }) => {
            assert_eq!(origin, "Controller");
            message.clone()
        }
        _ => panic!("expected a notice from the hub"),
    }
}

fn error_text(a: &HubAction<u32>) -> String {
    match a {
        HubAction::Log(LogMessage::Error { origin, message }) => {
            assert_eq!(origin, "Controller");
            message.clone()
        }
        _ => panic!("expected an error from the hub"),
    }
}

#[test]
fn new_hub_is_running_and_empty() {
    let hub: Controller<u32> = Controller::new();
    assert_eq!(hub.phase(), Phase::Running);
    assert_eq!(hub.printer_count(), 0);
}

#[test]
fn hub_origin_is_controller() {
    assert_eq!(origin(), "Controller");
}

#[test]
fn adding_registers_in_order_and_starts_a_dispatcher() {
    let mut hub = Controller::new();
    let mut sp = counter();
    let r = add(&mut hub, &mut sp, "A");
    assert_eq!(r.len(), 1);
    assert_eq!(notice_text(&r[0]), "Adding printer: \"A\"");
    add(&mut hub, &mut sp, "B");
    assert_eq!(names(&hub), vec!["A", "B"]);
    assert_eq!(sp.started, vec!["A", "B"]);
    assert_eq!(hub.printer(0).link, 1);
    assert_eq!(hub.printer(1).link, 2);
}

#[test]
fn listing_reports_every_name_with_its_position() {
    let mut hub = Controller::new();
    let mut sp = counter();
    for n in ["first", "second", "third"] {
        add(&mut hub, &mut sp, n);
    }
    let r = hub.step(HubEvent::Ui(UIControlMessage::ListPrinters), &mut sp);
    let lines: Vec<String> = r.iter().map(notice_text).collect();
    assert_eq!(lines, vec!["0. first", "1. second", "2. third"]);
    assert_eq!(hub.printer_count(), 3);
}

#[test]
fn listing_with_no_dispatchers_reports_nothing() {
    let mut hub: Controller<u32> = Controller::new();
    let mut sp = counter();
    let r = hub.step(HubEvent::Ui(UIControlMessage::ListPrinters), &mut sp);
    assert!(r.is_empty());
}

#[test]
fn removing_by_index_closes_that_dispatcher() {
    let mut hub = Controller::new();
    let mut sp = counter();
    for n in ["A", "B", "C"] {
        add(&mut hub, &mut sp, n);
    }
    let r = hub.step(HubEvent::Ui(UIControlMessage::RemovePrinter(1)), &mut sp);
    assert_eq!(r.len(), 2);
    assert_eq!(notice_text(&r[0]), "Removing printer \"B\"");
    match &r[1] {
        HubAction::ClosePrinter(p) => {
            assert_eq!(p.name, "B");
            assert_eq!(p.link, 2);
        }
        _ => panic!("expected a close of the removed dispatcher"),
    }
    assert_eq!(names(&hub), vec!["A", "C"]);
}

#[test]
fn removing_past_the_end_reports_invalid_index_and_changes_nothing() {
    let mut hub = Controller::new();
    let mut sp = counter();
    add(&mut hub, &mut sp, "A");
    add(&mut hub, &mut sp, "B");
    let r = hub.step(HubEvent::Ui(UIControlMessage::RemovePrinter(2)), &mut sp);
    assert_eq!(r.len(), 1);
    assert_eq!(error_text(&r[0]), "No printer at index 2");
    assert_eq!(names(&hub), vec!["A", "B"]);
    let r = hub.step(HubEvent::Ui(UIControlMessage::RemovePrinter(255)), &mut sp);
    assert_eq!(error_text(&r[0]), "No printer at index 255");
    assert_eq!(names(&hub), vec!["A", "B"]);
}

#[test]
fn take_printer_checks_the_current_count() {
    let mut hub = Controller::new();
    let mut sp = counter();
    add(&mut hub, &mut sp, "A");
    assert!(matches!(hub.take_printer(1), Err(printing_multiplexer::controller::HubError::InvalidIndex)));
    let p = hub.take_printer(0).ok().unwrap();
    assert_eq!(p.name, "A");
    assert_eq!(hub.printer_count(), 0);
    assert!(hub.take_printer(0).is_err());
}

#[test]
fn count_follows_adds_minus_successful_removes() {
    let mut hub = Controller::new();
    let mut sp = counter();
    let requests = vec![
        UIControlMessage::AddPrinter("A".to_string()),
        UIControlMessage::RemovePrinter(3),
        UIControlMessage::AddPrinter("B".to_string()),
        UIControlMessage::AddPrinter("C".to_string()),
        UIControlMessage::RemovePrinter(0),
        UIControlMessage::RemovePrinter(5),
        UIControlMessage::AddPrinter("D".to_string()),
        UIControlMessage::RemovePrinter(1),
    ];
    for m in requests {
        hub.step(HubEvent::Ui(m), &mut sp);
    }
    // 4 adds, 2 removals that found their dispatcher
    assert_eq!(hub.printer_count(), 2);
    assert_eq!(names(&hub), vec!["B", "D"]);
    let r = hub.step(HubEvent::Ui(UIControlMessage::ListPrinters), &mut sp);
    let lines: Vec<String> = r.iter().map(notice_text).collect();
    assert_eq!(lines, vec!["0. B", "1. D"]);
}

#[test]
fn a_lost_dispatcher_is_removed_and_handed_back_once() {
    let mut hub = Controller::new();
    let mut sp = counter();
    for n in ["A", "B", "C"] {
        add(&mut hub, &mut sp, n);
    }
    let r = hub.step(HubEvent::PrinterDisconnected(0), &mut sp);
    assert_eq!(r.len(), 2);
    match &r[0] {
        HubAction::Log(LogMessage::Disconnected { origin, channel }) => {
            assert_eq!(origin, "Controller");
            assert_eq!(channel, "A");
        }
        _ => panic!("expected a disconnection entry"),
    }
    match &r[1] {
        HubAction::CloseGone(p) => assert_eq!((p.name.as_str(), p.link), ("A", 1)),
        _ => panic!("expected a last close of the lost dispatcher"),
    }
    assert_eq!(names(&hub), vec!["B", "C"]);
    // no later request reaches it: position 0 is now B
    let r = hub.step(HubEvent::Ui(UIControlMessage::RemovePrinter(0)), &mut sp);
    match &r[1] {
        HubAction::ClosePrinter(p) => assert_eq!(p.link, 2),
        _ => panic!("expected a close of B"),
    }
    let r = hub.step(HubEvent::PrinterDisconnected(5), &mut sp);
    assert!(r.is_empty());
    assert_eq!(names(&hub), vec!["C"]);
}

#[test]
fn printer_status_is_logged_with_its_name() {
    let mut hub = Controller::new();
    let mut sp = counter();
    add(&mut hub, &mut sp, "A");
    let ok = PrinterMessage::Dispatched { path: "x.jpg".to_string(), succeeded: true };
    let r = hub.step(HubEvent::Printer(0, ok), &mut sp);
    assert_eq!(notice_text(&r[0]), "Printer \"A\" dispatched x.jpg");
    let bad = PrinterMessage::Dispatched { path: "y.jpg".to_string(), succeeded: false };
    let r = hub.step(HubEvent::Printer(0, bad), &mut sp);
    assert_eq!(error_text(&r[0]), "Printer \"A\" failed to dispatch y.jpg");
    let late = PrinterMessage::Dispatched { path: "z.jpg".to_string(), succeeded: true };
    assert!(hub.step(HubEvent::Printer(3, late), &mut sp).is_empty());
}

#[test]
fn watcher_failure_is_logged() {
    let mut hub: Controller<u32> = Controller::new();
    let mut sp = counter();
    let m = FolderWatcherMessage::WatchFailed("no such folder".to_string());
    let r = hub.step(HubEvent::FolderWatcher(m), &mut sp);
    assert_eq!(error_text(&r[0]), "Folder watcher failed: no such folder");
    assert_eq!(hub.phase(), Phase::Running);
}

#[test]
fn wait_positions_put_dispatchers_first() {
    let mut hub = Controller::new();
    let mut sp = counter();
    assert_eq!(hub.source_of(0), Source::Ui);
    assert_eq!(hub.source_of(1), Source::FolderWatcher);
    assert_eq!(hub.source_of(2), Source::Unknown(2));
    add(&mut hub, &mut sp, "A");
    add(&mut hub, &mut sp, "B");
    assert_eq!(hub.source_of(0), Source::Printer(0));
    assert_eq!(hub.source_of(1), Source::Printer(1));
    assert_eq!(hub.source_of(2), Source::Ui);
    assert_eq!(hub.source_of(3), Source::FolderWatcher);
    assert_eq!(hub.source_of(4), Source::Unknown(4));
}

#[test]
fn exit_closes_watcher_and_ui_once_and_logger_is_joined_last() {
    let mut hub = Controller::new();
    let mut sp = counter();
    add(&mut hub, &mut sp, "A");
    let r = hub.step(HubEvent::Ui(UIControlMessage::Exit), &mut sp);
    assert_eq!(r.len(), 2);
    assert!(matches!(r[0], HubAction::CloseWorker(Worker::FolderWatcher)));
    assert!(matches!(r[1], HubAction::CloseWorker(Worker::Ui)));
    assert_eq!(hub.phase(), Phase::Draining);
    // a second Exit is no longer accepted
    assert!(hub.step(HubEvent::Ui(UIControlMessage::Exit), &mut sp).is_empty());
    let plan = hub.shutdown();
    assert_eq!(
        plan,
        vec![
            ShutdownStep::ReleaseFixedChannels,
            ShutdownStep::Join(Worker::Ui),
            ShutdownStep::Join(Worker::FolderWatcher),
            ShutdownStep::CloseLogger,
            ShutdownStep::Join(Worker::Logger),
        ]
    );
    assert_eq!(hub.phase(), Phase::Terminated);
}

#[test]
fn exit_with_no_dispatchers_terminates_joining_only_fixed_workers() {
    let mut hub: Controller<u32> = Controller::new();
    let mut sp = counter();
    hub.step(HubEvent::Ui(UIControlMessage::Exit), &mut sp);
    let plan = hub.shutdown();
    let joined: Vec<Worker> = plan
        .iter()
        .filter_map(|s| match s {
            ShutdownStep::Join(w) => Some(*w),
            _ => None,
        })
        .collect();
    assert_eq!(joined, vec![Worker::Ui, Worker::FolderWatcher, Worker::Logger]);
    assert_eq!(hub.phase(), Phase::Terminated);
    assert!(hub.shutdown().is_empty());
    assert!(hub.step(HubEvent::UiDisconnected, &mut sp).is_empty());
    assert_eq!(hub.phase(), Phase::Terminated);
}

#[test]
fn shutdown_of_a_running_hub_does_nothing() {
    let mut hub: Controller<u32> = Controller::new();
    assert!(hub.shutdown().is_empty());
    assert_eq!(hub.phase(), Phase::Running);
}

#[test]
fn losing_ui_or_watcher_starts_draining() {
    let mut hub: Controller<u32> = Controller::new();
    let mut sp = counter();
    let r = hub.step(HubEvent::UiDisconnected, &mut sp);
    match &r[0] {
        HubAction::Log(LogMessage::Disconnected { channel, .. }) => assert_eq!(channel, "ui"),
        _ => panic!("expected a disconnection entry"),
    }
    assert_eq!(hub.phase(), Phase::Draining);
    // UI requests are ignored while draining, a lost dispatcher is still handled
    assert!(hub.step(HubEvent::Ui(UIControlMessage::AddPrinter("A".to_string())), &mut sp).is_empty());
    let mut hub: Controller<u32> = Controller::new();
    let r = hub.step(HubEvent::FolderWatcherDisconnected, &mut sp);
    match &r[0] {
        HubAction::Log(LogMessage::Disconnected { channel, .. }) => {
            assert_eq!(channel, "folder_watcher")
        }
        _ => panic!("expected a disconnection entry"),
    }
    assert_eq!(hub.phase(), Phase::Draining);
}

#[test]
fn a_dispatcher_lost_while_draining_is_still_removed() {
    let mut hub = Controller::new();
    let mut sp = counter();
    add(&mut hub, &mut sp, "A");
    hub.step(HubEvent::Ui(UIControlMessage::Exit), &mut sp);
    let r = hub.step(HubEvent::PrinterDisconnected(0), &mut sp);
    assert_eq!(r.len(), 2);
    assert_eq!(hub.printer_count(), 0);
    assert_eq!(hub.phase(), Phase::Draining);
}

fn message_of(m: Option<LogMessage>) -> (bool, String) {
    match m {
        Some(LogMessage::Notice { message, .. }) => (false, message),
        Some(LogMessage::Error { message, .. }) => (true, message),
        _ => panic!("expected a notice or an error"),
    }
}

#[test]
fn close_outcomes_are_reported() {
    assert_eq!(
        message_of(close_report("A", true, Ok(()))),
        (false, "Sent Close message to disconnected printer \"A\".".to_string())
    );
    assert_eq!(
        message_of(close_report("A", true, Err(ChannelError::PeerDisconnected))),
        (true, "Failed to send Close message to disconnected printer \"A\": peer disconnected".to_string())
    );
    assert!(close_report("A", false, Ok(())).is_none());
    assert_eq!(
        message_of(close_report("B", false, Err(ChannelError::PeerDisconnected))),
        (true, "Failed to send Close message to printer \"B\": peer disconnected".to_string())
    );
}

#[test]
fn join_outcomes_are_reported() {
    assert_eq!(
        message_of(Some(join_report(Worker::Ui, None))),
        (false, "UI thread closed without errors".to_string())
    );
    assert_eq!(
        message_of(Some(join_report(Worker::FolderWatcher, Some("\"boom\"".to_string())))),
        (true, "FolderWatcher thread panicked with code \"boom\"".to_string())
    );
}
