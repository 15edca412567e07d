use printing_multiplexer::channel::ChannelError;
use printing_multiplexer::controller::ControlMessage;
use printing_multiplexer::logger::{
    is_error, origin, render_entry, LogMessage, Logger, LoggerEvent, Output,
};

fn s(x: &str) -> String {
    x.to_string()
}

#[test]
fn entries_render_with_stamp_kind_and_origin() {
    let st = "2024-01-02 03:04:05 +01:00";
    assert_eq!(
        render_entry(st, &LogMessage::Notice { origin: s("UI"), message: s("hello") }),
        "[2024-01-02 03:04:05 +01:00] NOTICE (UI) hello\n"
    );
    assert_eq!(
        render_entry(st, &LogMessage::Error { origin: s("Hub"), message: s("bad") }),
        "[2024-01-02 03:04:05 +01:00] ERROR (Hub) bad\n"
    );
    assert_eq!(
        render_entry("t", &LogMessage::FallBackToScreenLogging { reason: s("disk full") }),
        "[t] ERROR Falling back to on-screen logging: disk full\n"
    );
    assert_eq!(
        render_entry("t", &LogMessage::Closing { origin: s("TextUI") }),
        "[t] NOTICE (TextUI) Closing gracefully\n"
    );
    assert_eq!(
        render_entry("t", &LogMessage::Disconnected { origin: s("Logger"), channel: s("controller") }),
        "[t] ERROR (Logger) Channel disconnected unexpectedly: controller\n"
    );
}

#[test]
fn faults_are_errors() {
    assert!(is_error(&LogMessage::FallBackToScreenLogging { reason: s("r") }));
    assert!(is_error(&LogMessage::Error { origin: s("o"), message: s("m") }));
    assert!(is_error(&LogMessage::Disconnected { origin: s("o"), channel: s("c") }));
    assert!(!is_error(&LogMessage::Notice { origin: s("o"), message: s("m") }));
    assert!(!is_error(&LogMessage::Closing { origin: s("o") }));
}

#[test]
fn output_goes_to_file_then_to_the_screen_by_kind() {
    let mut logger = Logger::new(true);
    assert!(logger.to_file());
    let n = LogMessage::Notice { origin: s("o"), message: s("m") };
    match logger.place("t", &n) {
        Output::File(text) => assert_eq!(text, "[t] NOTICE (o) m\n"),
        _ => panic!("expected the log file"),
    }
    let e = LogMessage::Error { origin: s("o"), message: s("m") };
    let shown = logger.file_failed(s("disk full"), e);
    assert!(!logger.to_file());
    assert_eq!(shown.len(), 2);
    assert!(matches!(&shown[0], LogMessage::FallBackToScreenLogging { reason } if reason == "disk full"));
    assert!(matches!(&shown[1], LogMessage::Error { message, .. } if message == "m"));
    assert!(matches!(logger.place("t", &shown[0]), Output::Stderr(_)));
    assert!(matches!(logger.place("t", &n), Output::Stdout(text) if text == "[t] NOTICE (o) m\n"));
}

#[test]
fn a_logger_without_file_writes_to_the_screen() {
    let logger = Logger::new(false);
    assert!(!logger.to_file());
    let c = LogMessage::Closing { origin: s("o") };
    assert!(matches!(logger.place("t", &c), Output::Stdout(_)));
    match logger.emit(&c) {
        Output::Stdout(text) => {
            assert!(text.starts_with('['));
            assert!(text.ends_with("] NOTICE (o) Closing gracefully\n"));
        }
        _ => panic!("expected standard output"),
    }
    let r = Logger::open_failure(s("denied (x.log)"));
    assert!(matches!(r, LogMessage::FallBackToScreenLogging { reason } if reason == "denied (x.log)"));
}

#[test]
fn logger_routes_its_two_channels() {
    assert_eq!(origin(), "Logger");
    let mut logger = Logger::new(true);
    assert!(logger.listening());
    let step = logger.route(LoggerEvent::Entry(Ok(LogMessage::Notice { origin: s("o"), message: s("m") })));
    assert!(step.keep_running);
    assert!(matches!(step.entry, LogMessage::Notice { .. }));
    let step = logger.route(LoggerEvent::Control(Err(ChannelError::PeerDisconnected)));
    assert!(step.keep_running);
    assert!(!logger.listening());
    assert!(matches!(&step.entry, LogMessage::Disconnected { origin, channel } if origin == "Logger" && channel == "controller"));
    let step = logger.route(LoggerEvent::Entry(Err(ChannelError::PeerDisconnected)));
    assert!(!step.keep_running);
    assert!(matches!(&step.entry, LogMessage::Disconnected { channel, .. } if channel == "log_receiver"));
    let mut logger = Logger::new(false);
    let step = logger.route(LoggerEvent::Control(Ok(ControlMessage::Close)));
    assert!(!step.keep_running);
    assert!(logger.listening());
    assert!(matches!(&step.entry, LogMessage::Closing { origin } if origin == "Logger"));
}
