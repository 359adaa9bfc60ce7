use writingbuddy::goals::GoalStatus;
use writingbuddy::idle::Urgency;
use writingbuddy::screen::{Highlight, Message};
use writingbuddy::session::{Key, Mode, Session};

fn writing(word_goal: Option<u64>, time_goal: Option<u64>, strict: bool, timeout: Option<u64>) -> Session {
    let mut s = Session::new(String::from("Title"), time_goal, word_goal, true, strict, timeout);
    s.handle_key(Key::Enter);
    s
}

fn type_text(s: &mut Session, text: &str) {
    for c in text.chars() {
        s.handle_key(Key::Char(c));
    }
}

#[test]
fn word_count_string_shows_the_goal() {
    let mut s = writing(Some(500), None, true, None);
    assert_eq!(s.get_word_count_string(), "0/500");
    type_text(&mut s, "one two  three");
    assert_eq!(s.word_count(), 3);
    assert_eq!(s.get_word_count_string(), "3/500");
    let mut t = writing(None, None, true, None);
    type_text(&mut t, "one two");
    assert_eq!(t.get_word_count_string(), "2");
}

#[test]
fn time_string_shows_seconds_and_goal() {
    let mut s = writing(None, Some(600), true, None);
    assert_eq!(s.get_time_string(), "0 s/600 s");
    s.handle_key(Key::Char('a'));
    s.advance_clock(30_999);
    assert_eq!(s.get_time_string(), "30 s/600 s");
    let mut t = writing(None, None, true, None);
    t.handle_key(Key::Char('a'));
    t.advance_clock(12_000);
    assert_eq!(t.get_time_string(), "12 s");
}

#[test]
fn goal_statuses_and_their_highlights() {
    let mut s = writing(Some(2), Some(3), true, None);
    assert_eq!(s.word_goal_status(), GoalStatus::Active);
    assert_eq!(s.time_goal_status(), GoalStatus::Active);
    assert_eq!(s.get_word_count_color(), Highlight::Warning);
    assert_eq!(s.get_time_color(), Highlight::Active);
    type_text(&mut s, "a b");
    s.advance_clock(3_000);
    assert_eq!(s.word_goal_status(), GoalStatus::Done);
    assert_eq!(s.time_goal_status(), GoalStatus::Done);
    assert_eq!(s.get_word_count_color(), Highlight::Done);
    assert_eq!(s.get_time_color(), Highlight::Done);
    let t = writing(None, None, true, None);
    assert_eq!(t.word_goal_status(), GoalStatus::Inactive);
    assert_eq!(t.time_goal_status(), GoalStatus::Inactive);
    assert_eq!(t.get_word_count_color(), Highlight::Passive);
    assert_eq!(t.get_time_color(), Highlight::Passive);
}

#[test]
fn widget_colors_follow_mode_and_urgency() {
    let mut s = Session::new(String::new(), None, None, true, true, Some(10));
    assert_eq!(s.get_widget_colors(), (Highlight::Active, Highlight::Passive));
    s.handle_key(Key::Enter);
    assert_eq!(s.urgency(), Urgency::Calm);
    assert_eq!(s.get_widget_colors(), (Highlight::Passive, Highlight::Active));
    s.handle_key(Key::Char('a'));
    s.advance_clock(5_000);
    assert_eq!(s.get_widget_colors(), (Highlight::Passive, Highlight::Active));
    s.advance_clock(5_001);
    assert_eq!(s.urgency(), Urgency::Warning);
    assert_eq!(s.get_widget_colors(), (Highlight::Passive, Highlight::Warning));
    s.advance_clock(8_001);
    assert_eq!(s.urgency(), Urgency::Danger);
    assert_eq!(s.get_widget_colors(), (Highlight::Passive, Highlight::Danger));
    s.handle_key(Key::Char('b'));
    assert_eq!(s.get_widget_colors(), (Highlight::Passive, Highlight::Active));
}

#[test]
fn instruction_fits_the_state() {
    let mut s = Session::new(String::new(), None, Some(2), true, true, None);
    assert_eq!(s.get_instruction(), vec![Message::ExitNoSave, Message::StartWriting]);
    s.handle_key(Key::Enter);
    assert_eq!(s.get_instruction(), vec![Message::KeepWriting]);
    type_text(&mut s, "a b");
    assert_eq!(s.get_instruction(), vec![Message::StopWriting]);
    s.handle_key(Key::Escape);
    assert_eq!(s.get_instruction(), vec![Message::ExitSave, Message::StartWriting]);
    let mut t = Session::new(String::new(), None, Some(2), true, false, None);
    t.handle_key(Key::Enter);
    assert_eq!(t.get_instruction(), vec![Message::StopWriting]);
}

#[test]
fn message_keys() {
    assert_eq!(Message::ExitSave.key(), "exit-save");
    assert_eq!(Message::ExitNoSave.key(), "exit-no-save");
    assert_eq!(Message::StartWriting.key(), "start-writing");
    assert_eq!(Message::KeepWriting.key(), "keep-writing");
    assert_eq!(Message::StopWriting.key(), "stop-writing");
}

#[test]
fn paragraph_text_of_the_session() {
    let mut s = writing(None, None, true, None);
    type_text(&mut s, "line1 line2 line3");
    assert_eq!(s.get_paragraph_text(2, 5), "line3");
    assert_eq!(s.get_paragraph_text(4, 5), "line1\nline2\nline3");
    s.handle_key(Key::Char(' '));
    assert_eq!(s.get_paragraph_text(2, 5), "line3 ");
}

#[test]
fn saved_text_holds_title_body_and_an_empty_line() {
    let mut s = writing(None, None, false, None);
    assert_eq!(s.saved_text(), None);
    type_text(&mut s, "body text");
    assert_eq!(s.saved_text(), Some(String::from("Title\nbody text\n\n")));
    let mut t = Session::new(String::new(), None, None, true, false, None);
    t.handle_key(Key::Enter);
    type_text(&mut t, "x");
    t.handle_key(Key::Enter);
    assert_eq!(t.saved_text(), Some(String::from("x\n\n\n")));
}

#[test]
fn render_in_title_entry() {
    let mut s = Session::new(String::from("T\u{e9}"), Some(60), Some(10), true, true, None);
    s.handle_key(Key::Char('x'));
    let screen = s.render(80, 24);
    assert_eq!(screen.instruction, vec![Message::ExitNoSave, Message::StartWriting]);
    assert_eq!(screen.title, "T\u{e9}x");
    assert_eq!(screen.title_color, Highlight::Active);
    assert_eq!(screen.text, "");
    assert_eq!(screen.text_color, Highlight::Passive);
    assert_eq!(screen.cursor_in, Mode::TitleEntry);
    assert_eq!((screen.cursor_column, screen.cursor_row), (3, 1));
    assert_eq!(screen.word_count, "0/10");
    assert_eq!(screen.word_count_color, Highlight::Warning);
    assert_eq!(screen.time, "0 s/60 s");
    assert_eq!(screen.time_color, Highlight::Active);
}

#[test]
fn render_while_writing() {
    let mut s = writing(None, None, true, Some(10));
    type_text(&mut s, "line1 line2 line3");
    s.advance_clock(9_000);
    let screen = s.render(11, 4);
    assert_eq!(screen.instruction, vec![Message::StopWriting]);
    assert_eq!(screen.title, "Title");
    assert_eq!(screen.title_color, Highlight::Passive);
    assert_eq!(screen.text, "line3");
    assert_eq!(screen.text_color, Highlight::Danger);
    assert_eq!(screen.cursor_in, Mode::Writing);
    assert_eq!((screen.cursor_column, screen.cursor_row), (5, 1));
    assert_eq!(screen.word_count, "3");
    assert_eq!(screen.word_count_color, Highlight::Passive);
    assert_eq!(screen.time, "9 s");
    assert_eq!(screen.time_color, Highlight::Passive);
    s.handle_key(Key::Enter);
    let below = s.render(11, 5);
    assert_eq!(below.text, "line2\nline3\n");
    assert_eq!((below.cursor_column, below.cursor_row), (0, 3));
}

#[test]
fn render_in_a_viewport_without_room() {
    let mut s = writing(None, None, true, None);
    type_text(&mut s, "ab cd");
    let flat = s.render(80, 2);
    assert_eq!(flat.text, "");
    assert_eq!((flat.cursor_column, flat.cursor_row), (0, 1));
    let narrow = s.render(6, 10);
    assert_eq!(narrow.text, "a\nb\nc\nd");
    assert_eq!((narrow.cursor_column, narrow.cursor_row), (1, 4));
    let none = s.render(0, 0);
    assert_eq!(none.text, "");
}
