use printing_multiplexer::controller::UIControlMessage;
use printing_multiplexer::text_ui::{main_menu, MenuState, TextUI};

const MENU: &str = "Main menu:\n1. Add printer\n2. Remove printer\n0. Exit\n\nYour choice: ";

#[test]
fn menu_text() {
    assert_eq!(main_menu(), MENU);
}

#[test]
fn adding_a_printer_takes_the_trimmed_name() {
    let mut ui = TextUI::new();
    let r = ui.on_line(" 1 \n");
    assert_eq!(r.show, vec!["Please type the EXACT printer name:"]);
    assert!(r.request.is_none());
    assert_eq!(ui.state(), MenuState::AwaitName);
    let r = ui.on_line("  Office Printer\r\n");
    assert!(matches!(r.request, Some(UIControlMessage::AddPrinter(ref n)) if n == "Office Printer"));
    assert_eq!(
        r.show,
        vec!["\n\nNOTE: This program CANNOT verify that the printer name is correct!\n\n", MENU]
    );
    assert!(r.keep_running);
    assert_eq!(ui.state(), MenuState::Main);
}

#[test]
fn removing_asks_for_the_list_then_a_position() {
    let mut ui = TextUI::new();
    let r = ui.on_line("2\n");
    assert!(matches!(r.request, Some(UIControlMessage::ListPrinters)));
    assert_eq!(
        r.show,
        vec!["Please choose a number from the list below.\nTo cancel, simply press Enter."]
    );
    assert_eq!(ui.state(), MenuState::AwaitIndex);
    let r = ui.on_line("3\n");
    assert!(matches!(r.request, Some(UIControlMessage::RemovePrinter(3))));
    assert_eq!(r.show, vec![MENU]);
    ui.on_line("+2");
    let r = ui.on_line("+7");
    assert!(matches!(r.request, Some(UIControlMessage::RemovePrinter(7))));
}

#[test]
fn a_bad_position_cancels_the_removal() {
    for line in ["\n", "x", "-1", "-0", "256", "1.5"] {
        let mut ui = TextUI::new();
        ui.on_line("2");
        let r = ui.on_line(line);
        assert!(r.request.is_none(), "{:?}", line);
        assert_eq!(r.show, vec!["Ignoring.", MENU]);
        assert_eq!(ui.state(), MenuState::Main);
    }
    let mut ui = TextUI::new();
    ui.on_line("2");
    let r = ui.on_line("255");
    assert!(matches!(r.request, Some(UIControlMessage::RemovePrinter(255))));
}

#[test]
fn zero_exits() {
    let mut ui = TextUI::new();
    let r = ui.on_line("0\n");
    assert!(matches!(r.request, Some(UIControlMessage::Exit)));
    assert!(!r.keep_running);
    assert!(r.show.is_empty());
    let mut ui = TextUI::new();
    let r = ui.on_text("-0");
    assert!(matches!(r.request, Some(UIControlMessage::Exit)));
}

#[test]
fn anything_else_is_refused() {
    for line in ["", "3", "one", "99999999999", "1 1"] {
        let mut ui = TextUI::new();
        let r = ui.on_line(line);
        assert!(r.request.is_none());
        assert!(r.keep_running);
        assert_eq!(r.show, vec!["Invalid input. Please try again.\n\n", MENU]);
        assert_eq!(ui.state(), MenuState::Main);
    }
}
