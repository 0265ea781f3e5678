use televideo::host::{message, parse_page, Action, Browser, DisplayMode, Key, Notice};
use televideo::layout::{
    center_line, center_lines, create_bar, footer_bar, footer_text, header_bar, header_text,
    notice_text, status_text, HELP,
};
use televideo::page::TelevideoPage;
use televideo::reply::FetchError;

type Host = Browser<&'static str>;

fn page_of(line: &str) -> TelevideoPage {
    TelevideoPage {
        page_number: 100,
        sub_page: 1,
        lines: vec![line.to_string()],
        timestamp: "t".to_string(),
    }
}

fn plain(symbol: char) -> Key {
    Key::Char { symbol, control: false }
}

fn type_digits(browser: &mut Host, digits: &str) {
    for symbol in digits.chars() {
        assert_eq!(browser.press(plain(symbol)), Action::Stay);
    }
}

#[test]
fn browser_starts_at_first_page_in_text_form() {
    let browser = Host::new();
    assert_eq!(browser.current_page, 100);
    assert_eq!(browser.current_part, 1);
    assert!(browser.page_input_buffer.is_empty());
    assert_eq!(browser.error, None);
    assert_eq!(browser.message, None);
    assert!(!browser.loading);
    assert_eq!(browser.display_mode, DisplayMode::Text);
}

#[test]
fn q_and_control_c_quit() {
    let mut browser = Host::new();
    assert_eq!(browser.press(plain('q')), Action::Quit);
    assert_eq!(browser.press(Key::Char { symbol: 'q', control: true }), Action::Quit);
    assert_eq!(browser.press(Key::Char { symbol: 'c', control: true }), Action::Quit);
    assert_eq!(browser, Host::new());
}

#[test]
fn plain_c_clears_and_loads_the_current_page() {
    let mut browser = Host::new();
    browser.finish_load(345, 6, Ok(page_of("x")), Ok("image"));
    assert_eq!(browser.press(plain('c')), Action::ClearAndLoad { page: 345, part: 6 });
    assert_eq!(browser.message, Some(Notice::CacheCleared));
    browser.begin_load();
    assert_eq!(browser.message, None);
}

#[test]
fn v_shows_the_other_form() {
    let mut browser = Host::new();
    assert_eq!(browser.press(plain('v')), Action::Stay);
    assert_eq!(browser.display_mode, DisplayMode::Image);
    assert_eq!(browser.press(plain('v')), Action::Stay);
    assert_eq!(browser.display_mode, DisplayMode::Text);
}

#[test]
fn left_and_right_stay_in_the_range_of_pages() {
    let mut browser = Host::new();
    assert_eq!(browser.press(Key::Left), Action::Stay);
    assert_eq!(browser.press(Key::Right), Action::Load { page: 101, part: 1 });
    browser.finish_load(500, 7, Ok(page_of("x")), Ok("image"));
    assert_eq!(browser.press(Key::Left), Action::Load { page: 499, part: 1 });
    assert_eq!(browser.press(Key::Right), Action::Load { page: 501, part: 1 });
    browser.finish_load(899, 1, Ok(page_of("x")), Ok("image"));
    assert_eq!(browser.press(Key::Right), Action::Stay);
    assert_eq!(browser.press(Key::Left), Action::Load { page: 898, part: 1 });
    browser.finish_load(101, 1, Ok(page_of("x")), Ok("image"));
    assert_eq!(browser.press(Key::Left), Action::Load { page: 100, part: 1 });
}

#[test]
fn up_and_down_move_through_sub_pages() {
    let mut browser = Host::new();
    assert_eq!(browser.press(Key::Up), Action::Stay);
    assert_eq!(browser.press(Key::Down), Action::Load { page: 100, part: 2 });
    browser.finish_load(100, 2, Ok(page_of("x")), Ok("image"));
    assert_eq!(browser.press(Key::Up), Action::Load { page: 100, part: 1 });
    assert_eq!(browser.press(Key::Down), Action::Load { page: 100, part: 3 });
    browser.finish_load(100, 65535, Ok(page_of("x")), Ok("image"));
    assert_eq!(browser.press(Key::Down), Action::Stay);
    assert_eq!(browser.press(Key::Up), Action::Load { page: 100, part: 65534 });
}

#[test]
fn keys_leave_the_current_page_until_the_load_ends() {
    let mut browser = Host::new();
    browser.press(Key::Right);
    assert_eq!(browser.current_page, 100);
    browser.begin_load();
    assert!(browser.loading);
    browser.finish_load(101, 1, Ok(page_of("x")), Ok("image"));
    assert_eq!((browser.current_page, browser.current_part, browser.loading), (101, 1, false));
}

#[test]
fn digits_are_typed_and_entered() {
    let mut browser = Host::new();
    type_digits(&mut browser, "345");
    assert_eq!(browser.page_input_buffer, ['3', '4', '5']);
    assert_eq!(browser.press(Key::Enter), Action::Load { page: 345, part: 1 });
    assert!(browser.page_input_buffer.is_empty());
    assert_eq!(browser.message, None);
}

#[test]
fn entered_page_must_lie_in_range() {
    for digits in ["99", "900", "0", "65535", "000", "00099"] {
        let mut browser = Host::new();
        type_digits(&mut browser, digits);
        assert_eq!(browser.press(Key::Enter), Action::Stay, "{}", digits);
        assert_eq!(browser.message, Some(Notice::PageOutOfRange));
        assert!(browser.page_input_buffer.is_empty());
    }
    for (digits, page) in [("100", 100), ("899", 899), ("0100", 100), ("000000899", 899)] {
        let mut browser = Host::new();
        type_digits(&mut browser, digits);
        assert_eq!(browser.press(Key::Enter), Action::Load { page, part: 1 }, "{}", digits);
    }
}

#[test]
fn number_too_large_for_a_page_is_given_up_silently() {
    for digits in ["65536", "99999", "123456789012345678901234567890"] {
        let mut browser = Host::new();
        type_digits(&mut browser, digits);
        assert_eq!(browser.press(Key::Enter), Action::Stay);
        assert_eq!(browser.message, None);
        assert!(browser.page_input_buffer.is_empty());
    }
}

#[test]
fn enter_without_digits_does_nothing() {
    let mut browser = Host::new();
    assert_eq!(browser.press(Key::Enter), Action::Stay);
    assert_eq!(browser, Host::new());
}

#[test]
fn backspace_and_escape_give_digits_up() {
    let mut browser = Host::new();
    type_digits(&mut browser, "123");
    assert_eq!(browser.press(Key::Backspace), Action::Stay);
    assert_eq!(browser.page_input_buffer, ['1', '2']);
    assert_eq!(browser.press(Key::Escape), Action::Stay);
    assert!(browser.page_input_buffer.is_empty());
    assert_eq!(browser.press(Key::Backspace), Action::Stay);
    assert!(browser.page_input_buffer.is_empty());
}

#[test]
fn other_keys_do_nothing() {
    let mut browser = Host::new();
    for key in [Key::Other, plain('x'), plain(' '), plain('è'), plain('٣'), Key::Char { symbol: 'x', control: true }] {
        assert_eq!(browser.press(key), Action::Stay);
        assert_eq!(browser, Host::new());
    }
}

#[test]
fn page_parsing_agrees_with_the_standard_one() {
    for digits in ["", "0", "7", "100", "899", "65535", "65536", "0065535", "1x", "x", "+1", "-1", " 1", "٣"] {
        let typed: Vec<char> = digits.chars().collect();
        let expected = if digits.chars().all(|symbol| symbol.is_ascii_digit()) {
            if digits.is_empty() {
                Some(0)
            } else {
                digits.parse::<u16>().ok()
            }
        } else {
            None
        };
        assert_eq!(parse_page(&typed), expected, "{:?}", digits);
    }
}

#[test]
fn load_records_the_error_of_the_text_form_first() {
    let mut browser = Host::new();
    browser.finish_load(101, 2, Err(FetchError::NotFound { page: 101, sub_page: 2 }), Err(FetchError::Decode));
    assert_eq!(browser.error.as_deref(), Some("Text: Page 101.2 not found"));
    browser.begin_load();
    assert_eq!(browser.error, None);
    browser.finish_load(101, 2, Ok(page_of("x")), Err(FetchError::Decode));
    assert_eq!(browser.error.as_deref(), Some("Image: Failed to decode image"));
    browser.finish_load(101, 2, Ok(page_of("x")), Err(FetchError::NotFound { page: 101, sub_page: 2 }));
    assert_eq!(browser.error.as_deref(), Some("Image: Image for page 101.2 not found"));
    browser.finish_load(101, 2, Ok(page_of("x")), Ok("image"));
    assert_eq!(browser.error, None);
}

#[test]
fn errors_are_worded() {
    let not_found = FetchError::NotFound { page: 899, sub_page: 1 };
    assert_eq!(message(&not_found, DisplayMode::Text), "Page 899.1 not found");
    assert_eq!(message(&not_found, DisplayMode::Image), "Image for page 899.1 not found");
    let transport = FetchError::Transport { cause: "dns error".to_string() };
    assert_eq!(message(&transport, DisplayMode::Text), "Failed to fetch page: dns error");
    assert_eq!(message(&transport, DisplayMode::Image), "Failed to fetch image: dns error");
    let read = FetchError::Read { cause: "cut".to_string() };
    assert_eq!(message(&read, DisplayMode::Text), "Failed to read response: cut");
    assert_eq!(message(&read, DisplayMode::Image), "Failed to read image response: cut");
    assert_eq!(message(&FetchError::Decode, DisplayMode::Text), "Failed to decode image");
    assert_eq!(message(&FetchError::Decode, DisplayMode::Image), "Failed to decode image");
}

#[test]
fn bar_fills_the_width() {
    assert_eq!(create_bar("ab", "cd", 10), "ab      cd");
    assert_eq!(create_bar("ab", "", 5), "ab   ");
    assert_eq!(create_bar("", "cd", 5), "   cd");
    assert_eq!(create_bar("", "", 3), "   ");
    assert_eq!(create_bar("", "", 0), "");
}

#[test]
fn bar_that_does_not_fit_is_not_cut() {
    assert_eq!(create_bar("abc", "de", 5), "abcde");
    assert_eq!(create_bar("abc", "de", 4), "abcde");
    assert_eq!(create_bar("abc", "de", 6), "abc de");
    assert_eq!(create_bar("abcdef", "", 3), "abcdef");
}

#[test]
fn bar_counts_bytes() {
    assert_eq!(create_bar("è", "", 4), "è  ");
    assert_eq!(create_bar("\u{2190}", "x", 6), "\u{2190}  x");
}

#[test]
fn header_names_page_and_sub_page() {
    assert_eq!(header_text(100, 1), "  TELEVIDEO RAI - Page 100");
    assert_eq!(header_text(100, 0), "  TELEVIDEO RAI - Page 100");
    assert_eq!(header_text(101, 2), "  TELEVIDEO RAI - Page 101.2");
}

#[test]
fn status_shows_error_before_loading() {
    let mut browser = Host::new();
    assert_eq!(status_text(&browser), "");
    browser.loading = true;
    assert_eq!(status_text(&browser), "Loading...  ");
    browser.error = Some("Text: x".to_string());
    assert_eq!(status_text(&browser), "ERROR: Text: x  ");
}

#[test]
fn footer_shows_notice_then_digits_then_keys() {
    let mut browser = Host::new();
    assert_eq!(footer_text(&browser), HELP);
    assert_eq!(
        HELP,
        "  [← / →] Page  [↑/↓] Sub-page  [0-9] Jump  [v] Toggle view  [q] Quit  [c] Clear cache"
    );
    type_digits(&mut browser, "12");
    assert_eq!(footer_text(&browser), "  Go to page: 12_");
    browser.message = Some(Notice::PageOutOfRange);
    assert_eq!(footer_text(&browser), "  Page must be between 100-899");
    browser.message = Some(Notice::CacheCleared);
    assert_eq!(footer_text(&browser), "  Cache cleared!");
}

#[test]
fn notices_are_worded() {
    assert_eq!(notice_text(Notice::CacheCleared), "Cache cleared!");
    assert_eq!(notice_text(Notice::PageOutOfRange), "Page must be between 100-899");
}

#[test]
fn bars_of_the_browser_fill_the_width() {
    let mut browser = Host::new();
    browser.finish_load(101, 2, Err(FetchError::Decode), Ok("image"));
    assert_eq!(
        header_bar(&browser, 70),
        "  TELEVIDEO RAI - Page 101.2     ERROR: Text: Failed to decode image  "
    );
    assert_eq!(header_bar(&browser, 70).len(), 70);
    type_digits(&mut browser, "7");
    assert_eq!(footer_bar(&browser, 20), "  Go to page: 7_    ");
}

#[test]
fn line_is_moved_to_the_middle() {
    assert_eq!(center_line("ab", 6), "  ab");
    assert_eq!(center_line("ab", 7), "  ab");
    assert_eq!(center_line("ab", 3), "ab");
    assert_eq!(center_line("ab", 2), "ab");
    assert_eq!(center_line("abc", 0), "abc");
    assert_eq!(center_line("", 4), "  ");
    assert_eq!(center_line("  x ", 8), "    x ");
}

#[test]
fn lines_are_moved_to_the_middle() {
    let lines = vec!["abcd".to_string(), "".to_string(), "ab".to_string()];
    assert_eq!(center_lines(&lines, 8, 7), ["", "", "  abcd", "    ", "   ab"]);
    assert_eq!(center_lines(&lines, 8, 8), ["", "", "  abcd", "    ", "   ab"]);
    assert_eq!(center_lines(&lines, 8, 3), ["  abcd", "    ", "   ab"]);
    assert_eq!(center_lines(&lines, 2, 2), ["abcd", " ", "ab"]);
    assert_eq!(center_lines(&Vec::new(), 10, 4), ["", ""]);
    assert_eq!(center_lines(&Vec::new(), 10, 0), Vec::<String>::new());
}

#[test]
fn load_shows_what_it_brought() {
    let mut browser = Host::new();
    assert_eq!(browser.content, None);
    assert_eq!(browser.image_state, None);
    browser.begin_load();
    browser.finish_load(101, 1, Ok(page_of("first")), Ok("first image"));
    assert_eq!(browser.content, Some(page_of("first")));
    assert_eq!(browser.image_state, Some("first image"));
    assert_eq!(browser.error, None);
}

#[test]
fn failed_load_keeps_what_was_shown() {
    let mut browser = Host::new();
    browser.finish_load(101, 1, Ok(page_of("first")), Ok("first image"));
    browser.begin_load();
    assert_eq!(browser.content, Some(page_of("first")));
    browser.finish_load(
        102,
        1,
        Err(FetchError::NotFound { page: 102, sub_page: 1 }),
        Err(FetchError::Decode),
    );
    assert_eq!(browser.content, Some(page_of("first")));
    assert_eq!(browser.image_state, Some("first image"));
    assert_eq!((browser.current_page, browser.current_part), (102, 1));
    assert_eq!(browser.error.as_deref(), Some("Text: Page 102.1 not found"));
}

#[test]
fn each_form_is_kept_or_replaced_on_its_own() {
    let mut browser = Host::new();
    browser.finish_load(101, 1, Ok(page_of("first")), Ok("first image"));
    browser.finish_load(102, 1, Ok(page_of("second")), Err(FetchError::Decode));
    assert_eq!(browser.content, Some(page_of("second")));
    assert_eq!(browser.image_state, Some("first image"));
    assert_eq!(browser.error.as_deref(), Some("Image: Failed to decode image"));
    let cut = FetchError::Read { cause: "cut".to_string() };
    browser.finish_load(103, 1, Err(cut), Ok("third image"));
    assert_eq!(browser.content, Some(page_of("second")));
    assert_eq!(browser.image_state, Some("third image"));
    assert_eq!(browser.error.as_deref(), Some("Text: Failed to read response: cut"));
}

#[test]
fn keys_leave_what_is_shown() {
    let mut browser = Host::new();
    browser.finish_load(101, 1, Ok(page_of("first")), Ok("first image"));
    for key in [plain('v'), plain('c'), plain('1'), Key::Enter, Key::Left, Key::Down, Key::Escape] {
        browser.press(key);
        assert_eq!(browser.content, Some(page_of("first")));
        assert_eq!(browser.image_state, Some("first image"));
    }
}
