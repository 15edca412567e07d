//! Decision core of a printing multiplexer. A supervising hub keeps the
//! registry of print dispatchers and decides, event by event, what the
//! system does; the folder watcher, the dispatchers, the logger and the text
//! UI each have their own decision functions. The threads, waits and I/O
//! that carry these decisions out live outside this library.
pub mod auto_printer;
pub mod channel;
pub mod controller;
pub mod folder_watcher;
pub mod logger;
pub mod text;
pub mod text_ui;
