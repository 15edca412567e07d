//! The text UI's decisions: what each line typed by the user means, what is
//! shown in reply, and which request goes to the hub.
use crate::controller::UIControlMessage;
use vstd::prelude::*;

verus! {

/// `s` without its leading and trailing white space, as std's `str::trim`
/// gives it.
pub uninterp spec fn trim_of(s: Seq<char>) -> Seq<char>;

/// Relies on `str::trim`: the result depends on the characters alone.
#[verifier::external_body]
fn trim(s: &str) -> (r: &str)
    ensures
        r@ == trim_of(s@),
{
    s.trim()
}

/// Whether `c` is an ASCII decimal digit.
pub open spec fn is_digit(c: char) -> bool {
    '0' <= c && c <= '9'
}

/// The value of a string of decimal digits.
pub open spec fn digits_value(s: Seq<char>) -> int
    decreases s.len(),
{
    if s.len() == 0 {
        0
    } else {
        digits_value(s.drop_last()) * 10 + (s.last() as int - '0' as int)
    }
}

/// Whether `s` is a non-empty string of decimal digits.
pub open spec fn is_digits(s: Seq<char>) -> bool {
    s.len() > 0 && forall|i: int| 0 <= i < s.len() ==> is_digit(#[trigger] s[i])
}

/// The integer that `s` writes in decimal, with an optional leading `+` or
/// `-`, if it writes one.
pub open spec fn decimal_int(s: Seq<char>) -> Option<int> {
    if s.len() > 0 && s[0] == '-' && is_digits(s.drop_first()) {
        Some(-digits_value(s.drop_first()))
    } else if s.len() > 0 && s[0] == '+' && is_digits(s.drop_first()) {
        Some(digits_value(s.drop_first()))
    } else if is_digits(s) {
        Some(digits_value(s))
    } else {
        None
    }
}

/// Relies on `str::parse::<i32>`: an optional sign and decimal digits
/// whose value fits in an `i32`, and nothing else, parse.
#[verifier::external_body]
fn parse_i32(s: &str) -> (r: Option<i32>)
    ensures
        r == (match decimal_int(s@) {
            Some(v) => if i32::MIN <= v <= i32::MAX {
                Some(v as i32)
            } else {
                None::<i32>
            },
            None => None::<i32>,
        }),
{
    s.parse::<i32>().ok()
}

/// The value that `s` writes as an unsigned decimal (an optional `+`, then
/// digits), if it writes one that fits in a `u8`.
pub open spec fn u8_value(s: Seq<char>) -> Option<int> {
    match decimal_int(s) {
        Some(v) => if s[0] != '-' && 0 <= v <= u8::MAX {
            Some(v)
        } else {
            None
        },
        None => None,
    }
}

/// Relies on `str::parse::<u8>`: an optional `+` and decimal digits whose
/// value fits in a `u8`, and nothing else, parse.
#[verifier::external_body]
fn parse_u8(s: &str) -> (r: Option<u8>)
    ensures
        r == (match u8_value(s@) {
            Some(v) => Some(v as u8),
            None => None::<u8>,
        }),
{
    s.parse::<u8>().ok()
}

/// What the UI waits for.
#[derive(Clone, Copy, Debug, PartialEq, Eq, Structural)]
pub enum MenuState {
    /// A choice from the main menu.
    Main,
    /// The name of a printer to add.
    AwaitName,
    /// The position of a dispatcher to remove, or an empty line to cancel.
    AwaitIndex,
}

/// The UI's reply to one line: the texts to show, the request for the hub,
/// if any, and whether the UI goes on.
pub struct UiReply {
    pub show: Vec<String>,
    pub request: Option<UIControlMessage>,
    pub keep_running: bool,
}

/// The main menu.
pub fn main_menu() -> (r: String)
    ensures
        r@ == main_menu_text(),
{
    String::from_str("Main menu:\n1. Add printer\n2. Remove printer\n0. Exit\n\nYour choice: ")
}

/// The text of the main menu.
pub open spec fn main_menu_text() -> Seq<char> {
    "Main menu:\n1. Add printer\n2. Remove printer\n0. Exit\n\nYour choice: "@
}

/// The prompt for a printer name.
pub open spec fn name_prompt() -> Seq<char> {
    "Please type the EXACT printer name:"@
}

/// The prompt for the position of the dispatcher to remove.
pub open spec fn index_prompt() -> Seq<char> {
    "Please choose a number from the list below.\nTo cancel, simply press Enter."@
}

/// The warning shown after a printer name was taken.
pub open spec fn name_warning() -> Seq<char> {
    "\n\nNOTE: This program CANNOT verify that the printer name is correct!\n\n"@
}

/// The reply to a main-menu line that is not a choice.
pub open spec fn invalid_choice() -> Seq<char> {
    "Invalid input. Please try again.\n\n"@
}

/// The reply to a removal line that is not a position.
pub open spec fn ignoring() -> Seq<char> {
    "Ignoring."@
}

/// The texts of a reply, as sequences of characters.
pub open spec fn shown(r: &UiReply) -> Seq<Seq<char>> {
    r.show@.map_values(|s: String| s@)
}

/// The outcome of handling the line `text` (already trimmed) in `state`:
/// the next state and the reply.
pub open spec fn handled(state: MenuState, text: Seq<char>, next: MenuState, r: &UiReply) -> bool {
    match state {
        MenuState::Main => match decimal_int(text) {
            Some(v) if v == 1 => {
                &&& next == MenuState::AwaitName
                &&& r.keep_running
                &&& r.request is None
                &&& shown(r) == seq![name_prompt()]
            },
            Some(v) if v == 2 => {
                &&& next == MenuState::AwaitIndex
                &&& r.keep_running
                &&& r.request matches Some(UIControlMessage::ListPrinters)
                &&& shown(r) == seq![index_prompt()]
            },
            Some(v) if v == 0 => {
                &&& next == MenuState::Main
                &&& !r.keep_running
                &&& r.request matches Some(UIControlMessage::Exit)
                &&& shown(r) == Seq::<Seq<char>>::empty()
            },
            _ => {
                &&& next == MenuState::Main
                &&& r.keep_running
                &&& r.request is None
                &&& shown(r) == seq![invalid_choice(), main_menu_text()]
            },
        },
        MenuState::AwaitName => {
            &&& next == MenuState::Main
            &&& r.keep_running
            &&& r.request matches Some(UIControlMessage::AddPrinter(name))
                && name@ == text
            &&& shown(r) == seq![name_warning(), main_menu_text()]
        },
        MenuState::AwaitIndex => {
            &&& next == MenuState::Main
            &&& r.keep_running
            &&& match u8_value(text) {
                Some(v) => {
                    &&& r.request matches Some(UIControlMessage::RemovePrinter(u))
                        && u as int == v
                    &&& shown(r) == seq![main_menu_text()]
                },
                None => {
                    &&& r.request is None
                    &&& shown(r) == seq![ignoring(), main_menu_text()]
                },
            }
        },
    }
}

/// The state of the text UI.
pub struct TextUI {
    state: MenuState,
}

impl TextUI {
    /// What the UI waits for.
    pub closed spec fn spec_state(&self) -> MenuState {
        self.state
    }

    /// A UI at its main menu.
    pub fn new() -> (r: Self)
        ensures
            r.spec_state() == MenuState::Main,
    {
        TextUI { state: MenuState::Main }
    }

    /// What the UI waits for.
    pub fn state(&self) -> (r: MenuState)
        ensures
            r == self.spec_state(),
    {
        self.state
    }

    /// Handles one line typed by the user (white space around it does not
    /// count). At the main menu, 1 asks for a printer name, 2 asks the hub
    /// for the list and then for a position, 0 asks the hub to exit and ends
    /// the UI, and anything else is refused. A name adds that printer; a
    /// position removes that dispatcher, anything else cancels. The menu is
    /// shown again after each finished choice.
    pub fn on_line(&mut self, line: &str) -> (r: UiReply)
        ensures
            handled(old(self).spec_state(), trim_of(line@), final(self).spec_state(), &r),
    {
        let text = trim(line);
        self.on_text(text)
    }

    /// Handles one line typed by the user, white space around it already
    /// removed.
    pub fn on_text(&mut self, text: &str) -> (r: UiReply)
        ensures
            handled(old(self).spec_state(), text@, final(self).spec_state(), &r),
    {
        let mut show: Vec<String> = Vec::new();
        match self.state {
            MenuState::Main => {
                match parse_i32(text) {
                    Some(1) => {
                        show.push(String::from_str("Please type the EXACT printer name:"));
                        self.state = MenuState::AwaitName;
                        let r = UiReply { show, request: None, keep_running: true };
                        assert(shown(&r) =~= seq![name_prompt()]);
                        r
                    },
                    Some(2) => {
                        show.push(
                            String::from_str(
                                "Please choose a number from the list below.\nTo cancel, simply press Enter.",
                            ),
                        );
                        self.state = MenuState::AwaitIndex;
                        let r = UiReply {
                            show,
                            request: Some(UIControlMessage::ListPrinters),
                            keep_running: true,
                        };
                        assert(shown(&r) =~= seq![index_prompt()]);
                        r
                    },
                    Some(0) => {
                        let r = UiReply {
                            show,
                            request: Some(UIControlMessage::Exit),
                            keep_running: false,
                        };
                        assert(shown(&r) =~= Seq::<Seq<char>>::empty());
                        r
                    },
                    _ => {
                        show.push(String::from_str("Invalid input. Please try again.\n\n"));
                        show.push(main_menu());
                        let r = UiReply { show, request: None, keep_running: true };
                        assert(shown(&r) =~= seq![invalid_choice(), main_menu_text()]);
                        r
                    },
                }
            },
            MenuState::AwaitName => {
                show.push(
                    String::from_str(
                        "\n\nNOTE: This program CANNOT verify that the printer name is correct!\n\n",
                    ),
                );
                show.push(main_menu());
                self.state = MenuState::Main;
                let r = UiReply {
                    show,
                    request: Some(UIControlMessage::AddPrinter(String::from_str(text))),
                    keep_running: true,
                };
                assert(shown(&r) =~= seq![name_warning(), main_menu_text()]);
                r
            },
            MenuState::AwaitIndex => {
                self.state = MenuState::Main;
                match parse_u8(text) {
                    Some(u) => {
                        show.push(main_menu());
                        let r = UiReply {
                            show,
                            request: Some(UIControlMessage::RemovePrinter(u)),
                            keep_running: true,
                        };
                        assert(shown(&r) =~= seq![main_menu_text()]);
                        r
                    },
                    None => {
                        show.push(String::from_str("Ignoring."));
                        show.push(main_menu());
                        let r = UiReply { show, request: None, keep_running: true };
                        assert(shown(&r) =~= seq![ignoring(), main_menu_text()]);
                        r
                    },
                }
            },
        }
    }
}

} // verus!
