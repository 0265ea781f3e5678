//! The decisions of a host around the client: which page is shown, what a
//! key does, and what a finished load leaves behind. The host reads the
//! keys, makes the requests and paints; what is decided here is handed to
//! it as an action.

use crate::chars::{numeral, push_numeral};
use crate::page::{PageView, TelevideoPage};
use crate::reply::FetchError;
use vstd::prelude::*;
use vstd::string::StringExecFns;

verus! {

/// The first page of the service.
pub const FIRST_PAGE: u16 = 100;

/// The last page of the service.
pub const LAST_PAGE: u16 = 899;

/// One of the two forms of a page: the one that is shown, or the one that
/// a fetch was for.
#[derive(Clone, Copy, Debug, PartialEq, Eq, Structural)]
pub enum DisplayMode {
    Text,
    Image,
}

/// A short notice to the user.
#[derive(Clone, Copy, Debug, PartialEq, Eq, Structural)]
pub enum Notice {
    CacheCleared,
    PageOutOfRange,
}

/// A key, as far as the host tells keys apart.
#[derive(Clone, Copy, Debug, PartialEq, Eq, Structural)]
pub enum Key {
    /// A character, and whether the control key was held with it.
    Char { symbol: char, control: bool },
    Left,
    Right,
    Up,
    Down,
    Enter,
    Backspace,
    Escape,
    Other,
}

/// What the host is to do after a key.
#[derive(Clone, Copy, Debug, PartialEq, Eq, Structural)]
pub enum Action {
    /// Nothing but painting again.
    Stay,
    /// Leave the program.
    Quit,
    /// Load this page and sub-page.
    Load { page: u16, part: u16 },
    /// Empty the caches of the client, then load this page and sub-page.
    ClearAndLoad { page: u16, part: u16 },
}

/// What the host shows and where it stands. `I` is the image form of a
/// page as the host paints it; nothing here looks into it.
#[derive(Debug, PartialEq, Eq)]
pub struct Browser<I> {
    pub current_page: u16,
    pub current_part: u16,
    /// What was typed so far of a page number.
    pub page_input_buffer: Vec<char>,
    /// The text form that is shown: that of the last load that brought one.
    pub content: Option<TelevideoPage>,
    /// The image form that is shown: that of the last load that brought one.
    pub image_state: Option<I>,
    pub error: Option<String>,
    pub message: Option<Notice>,
    pub loading: bool,
    pub display_mode: DisplayMode,
}

/// What a browser holds, as plain values.
pub struct BrowserView<I> {
    pub current_page: u16,
    pub current_part: u16,
    pub page_input_buffer: Seq<char>,
    pub content: Option<PageView>,
    pub image_state: Option<I>,
    pub error: Option<Seq<char>>,
    pub message: Option<Notice>,
    pub loading: bool,
    pub display_mode: DisplayMode,
}

impl<I> View for Browser<I> {
    type V = BrowserView<I>;

    open spec fn view(&self) -> BrowserView<I> {
        BrowserView {
            current_page: self.current_page,
            current_part: self.current_part,
            page_input_buffer: self.page_input_buffer@,
            content: match self.content {
                Some(page) => Some(page@),
                None => None,
            },
            image_state: self.image_state,
            error: match self.error {
                Some(text) => Some(text@),
                None => None,
            },
            message: self.message,
            loading: self.loading,
            display_mode: self.display_mode,
        }
    }
}

/// Whether `symbol` is one of the ten decimal digits.
pub open spec fn is_digit(symbol: char) -> bool {
    '0' <= symbol <= '9'
}

/// The number that a sequence of decimal digits writes.
pub open spec fn digits_value(digits: Seq<char>) -> nat
    decreases digits.len(),
{
    if digits.len() == 0 {
        0
    } else {
        digits_value(digits.drop_last()) * 10 + (digits.last() as nat - '0' as nat) as nat
    }
}

/// The other display mode.
pub open spec fn toggled(mode: DisplayMode) -> DisplayMode {
    match mode {
        DisplayMode::Text => DisplayMode::Image,
        DisplayMode::Image => DisplayMode::Text,
    }
}

/// The page number that `typed` writes: the number of its digits, where it
/// holds nothing but digits and a page number can hold their number.
pub open spec fn page_typed(typed: Seq<char>) -> Option<u16> {
    if (forall|i: int| 0 <= i < typed.len() ==> is_digit(typed[i])) && digits_value(typed)
        <= u16::MAX {
        Some(digits_value(typed) as u16)
    } else {
        None
    }
}

/// What the enter key does with what was typed so far. Where nothing was
/// typed, nothing. Else what was typed is given up. Where it writes a page
/// in the range of the service, that page is loaded; where it writes another
/// page number, a notice is left; where it writes none, nothing more.
pub open spec fn entered<I>(state: BrowserView<I>) -> (BrowserView<I>, Action) {
    if state.page_input_buffer.len() == 0 {
        (state, Action::Stay)
    } else {
        match page_typed(state.page_input_buffer) {
            Some(page) => if FIRST_PAGE <= page <= LAST_PAGE {
                (
                    BrowserView { page_input_buffer: Seq::empty(), ..state },
                    Action::Load { page, part: 1 },
                )
            } else {
                (
                    BrowserView {
                        page_input_buffer: Seq::empty(),
                        message: Some(Notice::PageOutOfRange),
                        ..state
                    },
                    Action::Stay,
                )
            },
            None => (BrowserView { page_input_buffer: Seq::empty(), ..state }, Action::Stay),
        }
    }
}

/// What a character does. `q` quits, and so does `c` with the control key.
/// A plain `c` empties the caches and loads the current page again. `v`
/// shows the other form of the page. A digit is added to the page number
/// that is being typed. Any other character does nothing.
pub open spec fn typed<I>(state: BrowserView<I>, symbol: char, control: bool) -> (
    BrowserView<I>,
    Action,
) {
    if symbol == 'q' {
        (state, Action::Quit)
    } else if symbol == 'c' && control {
        (state, Action::Quit)
    } else if symbol == 'c' {
        (
            BrowserView { message: Some(Notice::CacheCleared), ..state },
            Action::ClearAndLoad { page: state.current_page, part: state.current_part },
        )
    } else if symbol == 'v' {
        (BrowserView { display_mode: toggled(state.display_mode), ..state }, Action::Stay)
    } else if is_digit(symbol) {
        (
            BrowserView { page_input_buffer: state.page_input_buffer.push(symbol), ..state },
            Action::Stay,
        )
    } else {
        (state, Action::Stay)
    }
}

/// What a key does to the browser, and what the host is to do after it.
///
/// Left and right load the page before and after the current one, first
/// sub-page, within the range of the service. Up and down load the sub-page
/// before and after the current one; there is none before the first, and
/// none after the last that a sub-page number can hold. Backspace gives up
/// the last digit typed, escape all of them.
pub open spec fn pressed<I>(state: BrowserView<I>, key: Key) -> (BrowserView<I>, Action) {
    match key {
        Key::Char { symbol, control } => typed(state, symbol, control),
        Key::Left => if state.current_page > FIRST_PAGE {
            (state, Action::Load { page: (state.current_page - 1) as u16, part: 1 })
        } else {
            (state, Action::Stay)
        },
        Key::Right => if state.current_page < LAST_PAGE {
            (state, Action::Load { page: (state.current_page + 1) as u16, part: 1 })
        } else {
            (state, Action::Stay)
        },
        Key::Up => if state.current_part > 1 {
            (
                state,
                Action::Load { page: state.current_page, part: (state.current_part - 1) as u16 },
            )
        } else {
            (state, Action::Stay)
        },
        Key::Down => if state.current_part < u16::MAX {
            (
                state,
                Action::Load { page: state.current_page, part: (state.current_part + 1) as u16 },
            )
        } else {
            (state, Action::Stay)
        },
        Key::Enter => entered(state),
        Key::Backspace => if state.page_input_buffer.len() > 0 {
            (
                BrowserView { page_input_buffer: state.page_input_buffer.drop_last(), ..state },
                Action::Stay,
            )
        } else {
            (state, Action::Stay)
        },
        Key::Escape => (BrowserView { page_input_buffer: Seq::empty(), ..state }, Action::Stay),
        Key::Other => (state, Action::Stay),
    }
}

/// The error of a fetch that failed.
pub open spec fn failure<T>(outcome: Result<T, FetchError>) -> Option<FetchError> {
    match outcome {
        Ok(_) => None,
        Err(error) => Some(error),
    }
}

/// What a finished load leaves as the error: that of the text form, else
/// that of the image form, each under the name of its form.
pub open spec fn load_error(
    text_error: Option<FetchError>,
    image_error: Option<FetchError>,
) -> Option<Seq<char>> {
    match text_error {
        Some(error) => Some("Text: "@ + message_of(error, DisplayMode::Text)),
        None => match image_error {
            Some(error) => Some("Image: "@ + message_of(error, DisplayMode::Image)),
            None => None,
        },
    }
}

/// How the error of a fetch for one form of a page is worded. The cause
/// of a failed request or of an unread body follows the wording.
pub open spec fn message_of(error: FetchError, form: DisplayMode) -> Seq<char> {
    match (error, form) {
        (FetchError::NotFound { page, sub_page }, DisplayMode::Text) => "Page "@ + numeral(
            page as nat,
        ) + "."@ + numeral(sub_page as nat) + " not found"@,
        (FetchError::NotFound { page, sub_page }, DisplayMode::Image) => "Image for page "@
            + numeral(page as nat) + "."@ + numeral(sub_page as nat) + " not found"@,
        (FetchError::Transport { cause }, DisplayMode::Text) => "Failed to fetch page: "@ + cause@,
        (FetchError::Transport { cause }, DisplayMode::Image) => "Failed to fetch image: "@
            + cause@,
        (FetchError::Read { cause }, DisplayMode::Text) => "Failed to read response: "@ + cause@,
        (FetchError::Read { cause }, DisplayMode::Image) => "Failed to read image response: "@
            + cause@,
        (FetchError::Decode, _) => "Failed to decode image"@,
    }
}

/// The digits of a longer number write at least what its first digits do.
pub proof fn lemma_digits_value_grows(digits: Seq<char>, first: int)
    requires
        0 <= first <= digits.len(),
        forall|i: int| 0 <= i < digits.len() ==> is_digit(digits[i]),
    ensures
        digits_value(digits.take(first)) <= digits_value(digits),
    decreases digits.len() - first,
{
    if first == digits.len() {
        assert(digits.take(first) =~= digits);
    } else {
        lemma_digits_value_grows(digits, first + 1);
        assert(digits.take(first + 1).drop_last() =~= digits.take(first));
    }
}

/// How `error` is worded, as that of a fetch for `form`.
pub fn message(error: &FetchError, form: DisplayMode) -> (text: String)
    ensures
        text@ == message_of(*error, form),
{
    match error {
        FetchError::NotFound { page, sub_page } => {
            let mut text = match form {
                DisplayMode::Text => String::from_str("Page "),
                DisplayMode::Image => String::from_str("Image for page "),
            };
            push_numeral(&mut text, *page);
            text.append(".");
            push_numeral(&mut text, *sub_page);
            text.append(" not found");
            text
        },
        FetchError::Transport { cause } => {
            let mut text = match form {
                DisplayMode::Text => String::from_str("Failed to fetch page: "),
                DisplayMode::Image => String::from_str("Failed to fetch image: "),
            };
            text.append(cause.as_str());
            text
        },
        FetchError::Read { cause } => {
            let mut text = match form {
                DisplayMode::Text => String::from_str("Failed to read response: "),
                DisplayMode::Image => String::from_str("Failed to read image response: "),
            };
            text.append(cause.as_str());
            text
        },
        FetchError::Decode => String::from_str("Failed to decode image"),
    }
}

/// The page number that `typed` writes, if it writes one.
pub fn parse_page(typed: &Vec<char>) -> (number: Option<u16>)
    ensures
        number == page_typed(typed@),
{
    let mut value: u32 = 0;
    let mut at: usize = 0;
    while at < typed.len()
        invariant
            at <= typed.len(),
            value == digits_value(typed@.take(at as int)),
            value <= u16::MAX,
            forall|i: int| 0 <= i < at ==> is_digit(typed[i]),
        decreases typed.len() - at,
    {
        let symbol: char = typed[at];
        if !('0' <= symbol && symbol <= '9') {
            return None;
        }
        let digit: u32 = symbol as u32 - '0' as u32;
        assert(typed@.take(at + 1).drop_last() =~= typed@.take(at as int));
        value = value * 10 + digit;
        if value > 65535 {
            proof {
                if forall|i: int| 0 <= i < typed.len() ==> is_digit(typed[i]) {
                    lemma_digits_value_grows(typed@, at + 1);
                }
            }
            return None;
        }
        at += 1;
    }
    assert(typed@.take(at as int) =~= typed@);
    Some(value as u16)
}

impl<I> Browser<I> {
    /// A browser at the first page, first sub-page, in text form, with
    /// nothing to show yet.
    pub fn new() -> (browser: Self)
        ensures
            browser@ == (BrowserView::<I> {
                current_page: FIRST_PAGE,
                current_part: 1,
                page_input_buffer: Seq::empty(),
                content: None,
                image_state: None,
                error: None,
                message: None,
                loading: false,
                display_mode: DisplayMode::Text,
            }),
    {
        Browser {
            current_page: FIRST_PAGE,
            current_part: 1,
            page_input_buffer: Vec::new(),
            content: None,
            image_state: None,
            error: None,
            message: None,
            loading: false,
            display_mode: DisplayMode::Text,
        }
    }

    /// Takes a key: changes the browser as the key says and hands back
    /// what the host is to do.
    pub fn press(&mut self, key: Key) -> (action: Action)
        ensures
            (final(self)@, action) == pressed(old(self)@, key),
    {
        match key {
            Key::Char { symbol, control } => {
                if symbol == 'q' || (symbol == 'c' && control) {
                    Action::Quit
                } else if symbol == 'c' {
                    self.message = Some(Notice::CacheCleared);
                    Action::ClearAndLoad { page: self.current_page, part: self.current_part }
                } else if symbol == 'v' {
                    self.display_mode = match self.display_mode {
                        DisplayMode::Text => DisplayMode::Image,
                        DisplayMode::Image => DisplayMode::Text,
                    };
                    Action::Stay
                } else if '0' <= symbol && symbol <= '9' {
                    self.page_input_buffer.push(symbol);
                    Action::Stay
                } else {
                    Action::Stay
                }
            },
            Key::Left => {
                if self.current_page > FIRST_PAGE {
                    Action::Load { page: self.current_page - 1, part: 1 }
                } else {
                    Action::Stay
                }
            },
            Key::Right => {
                if self.current_page < LAST_PAGE {
                    Action::Load { page: self.current_page + 1, part: 1 }
                } else {
                    Action::Stay
                }
            },
            Key::Up => {
                if self.current_part > 1 {
                    Action::Load { page: self.current_page, part: self.current_part - 1 }
                } else {
                    Action::Stay
                }
            },
            Key::Down => {
                if self.current_part < u16::MAX {
                    Action::Load { page: self.current_page, part: self.current_part + 1 }
                } else {
                    Action::Stay
                }
            },
            Key::Enter => {
                if self.page_input_buffer.len() == 0 {
                    return Action::Stay;
                }
                let typed = parse_page(&self.page_input_buffer);
                self.page_input_buffer.clear();
                match typed {
                    Some(page) => {
                        if FIRST_PAGE <= page && page <= LAST_PAGE {
                            Action::Load { page, part: 1 }
                        } else {
                            self.message = Some(Notice::PageOutOfRange);
                            Action::Stay
                        }
                    },
                    None => Action::Stay,
                }
            },
            Key::Backspace => {
                self.page_input_buffer.pop();
                Action::Stay
            },
            Key::Escape => {
                self.page_input_buffer.clear();
                Action::Stay
            },
            Key::Other => Action::Stay,
        }
    }

    /// Marks the start of a load: the error and the notice of the load
    /// before are given up.
    pub fn begin_load(&mut self)
        ensures
            final(self)@ == (BrowserView {
                loading: true,
                error: None,
                message: None,
                ..old(self)@
            }),
    {
        self.loading = true;
        self.error = None;
        self.message = None;
    }

    /// Marks the end of a load of `page` and `part`, given what the fetch of
    /// each form came to. They are the current page and sub-page now,
    /// whether or not the load failed. A form that was brought is shown
    /// from now on; of a form that failed, what was shown before stays. The
    /// error is that of the load.
    pub fn finish_load(
        &mut self,
        page: u16,
        part: u16,
        text: Result<TelevideoPage, FetchError>,
        image: Result<I, FetchError>,
    )
        ensures
            final(self)@ == (BrowserView {
                current_page: page,
                current_part: part,
                loading: false,
                content: match text {
                    Ok(brought) => Some(brought@),
                    Err(_) => old(self)@.content,
                },
                image_state: match image {
                    Ok(brought) => Some(brought),
                    Err(_) => old(self)@.image_state,
                },
                error: load_error(failure(text), failure(image)),
                ..old(self)@
            }),
    {
        let text_error = match text {
            Ok(brought) => {
                self.content = Some(brought);
                None
            },
            Err(error) => Some(error),
        };
        let image_error = match image {
            Ok(brought) => {
                self.image_state = Some(brought);
                None
            },
            Err(error) => Some(error),
        };
        self.error = match text_error {
            Some(error) => {
                let mut text = String::from_str("Text: ");
                text.append(message(&error, DisplayMode::Text).as_str());
                Some(text)
            },
            None => match image_error {
                Some(error) => {
                    let mut text = String::from_str("Image: ");
                    text.append(message(&error, DisplayMode::Image).as_str());
                    Some(text)
                },
                None => None,
            },
        };
        self.current_page = page;
        self.current_part = part;
        self.loading = false;
    }
}

} // verus!
