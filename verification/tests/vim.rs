use muldex::prompt::InteractivePromptBuffer;
use muldex::vim::{
    vim_delete_range, vim_line_bounds, vim_normal_key, vim_put, vim_word_back, vim_word_end,
    vim_word_start, vim_yank_range, VimKey, VimState,
};

fn vim_key(ch: char) -> VimKey {
    VimKey::Char(ch)
}

fn vim_buffer(text: &str) -> InteractivePromptBuffer {
    let mut b = InteractivePromptBuffer::default();
    b.text = text.to_string();
    b.cursor = text.len();
    b
}

#[test]
fn vim_normal_mode_moves_and_toggles_insert() {
    let mut st = VimState::new(true);
    let mut b = vim_buffer("hello world");
    vim_normal_key(&mut st, vim_key('h'), &mut b);
    vim_normal_key(&mut st, vim_key('h'), &mut b);
    assert_eq!(b.cursor, "hello wor".len());
    vim_normal_key(&mut st, vim_key('i'), &mut b);
    assert!(!st.normal);
    vim_normal_key(&mut st, VimKey::Esc, &mut b);
    assert!(st.normal);
}

#[test]
fn vim_word_back_motion_and_delete_word() {
    let mut st = VimState::new(true);
    let mut b = vim_buffer("the quick brown fox");
    vim_normal_key(&mut st, vim_key('b'), &mut b);
    assert_eq!(&b.text[..b.cursor], "the quick brown ");
    vim_normal_key(&mut st, vim_key('d'), &mut b);
    vim_normal_key(&mut st, vim_key('w'), &mut b);
    assert_eq!(b.text, "the quick brown ");
    assert_eq!(st.ring.last().map(|s| s.as_str()), Some("fox"));
}

#[test]
fn vim_yank_word_and_put_uses_kill_ring() {
    let mut st = VimState::new(true);
    let mut b = vim_buffer("abc def");
    vim_normal_key(&mut st, vim_key('b'), &mut b);
    vim_normal_key(&mut st, vim_key('y'), &mut b);
    vim_normal_key(&mut st, vim_key('w'), &mut b);
    assert_eq!(st.ring.last().map(|s| s.as_str()), Some("def"));
    vim_normal_key(&mut st, vim_key('p'), &mut b);
    assert_eq!(b.text, "abc defdef");
}

#[test]
fn vim_delete_line_removes_current_line() {
    let mut st = VimState::new(true);
    let mut b = InteractivePromptBuffer::default();
    b.text = "line one\nline two\nline three".to_string();
    b.cursor = b.text.find("line two").unwrap() + 3;
    vim_normal_key(&mut st, vim_key('d'), &mut b);
    vim_normal_key(&mut st, vim_key('d'), &mut b);
    assert_eq!(b.text, "line one\nline three");
}

#[test]
fn word_motions_use_ascii_whitespace() {
    assert_eq!(vim_word_start("ab  cd ef", 0), 4);
    assert_eq!(vim_word_start("ab  cd", 4), 6);
    assert_eq!(vim_word_end("ab  cd", 2), 6);
    assert_eq!(vim_word_end("ab   ", 2), 5);
    assert_eq!(vim_word_back("ab  cd", 4), 0);
    assert_eq!(vim_word_back("ab  cd", 0), 0);
    assert_eq!(vim_word_start("é é", 0), 3);
}

#[test]
fn line_bounds_take_the_newline() {
    let b = vim_buffer("one\ntwo\nthree");
    assert_eq!(vim_line_bounds(&b, 0), (0, 4));
    assert_eq!(vim_line_bounds(&b, 1), (4, 8));
    assert_eq!(vim_line_bounds(&b, 2), (7, 13));
}

#[test]
fn ring_keeps_the_newest_sixteen() {
    let mut st = VimState::new(true);
    let b = vim_buffer("0123456789abcdefghij");
    for i in 0..20 {
        vim_yank_range(&b, i..i + 1, &mut st);
    }
    assert_eq!(st.ring.len(), 16);
    assert_eq!(st.ring[0], "4");
    assert_eq!(st.ring[15], "j");
}

#[test]
fn delete_range_outside_the_text_changes_nothing() {
    let mut st = VimState::new(true);
    let mut b = vim_buffer("abc");
    vim_delete_range(&mut b, 2..9, &mut st);
    assert_eq!(b.text, "abc");
    assert!(st.ring.is_empty());
    vim_delete_range(&mut b, 1..2, &mut st);
    assert_eq!(b.text, "ac");
    assert_eq!(b.cursor, 1);
    assert_eq!(st.ring, vec!["b".to_string()]);
    vim_put(&mut b, &st, false);
    assert_eq!(b.text, "abc");
    assert_eq!(b.cursor, 1);
}

#[test]
fn other_normal_keys() {
    let mut st = VimState::new(true);
    let mut b = vim_buffer("ab\ncd");
    vim_normal_key(&mut st, vim_key('k'), &mut b);
    assert_eq!(b.cursor, 2);
    vim_normal_key(&mut st, vim_key('0'), &mut b);
    assert_eq!(b.cursor, 0);
    vim_normal_key(&mut st, vim_key('x'), &mut b);
    assert_eq!(b.text, "b\ncd");
    vim_normal_key(&mut st, vim_key('G'), &mut b);
    assert_eq!(b.cursor, 4);
    vim_normal_key(&mut st, vim_key('X'), &mut b);
    assert_eq!(b.text, "b\nc");
    vim_normal_key(&mut st, vim_key('o'), &mut b);
    assert_eq!(b.text, "b\nc\n");
    assert!(!st.normal);
    assert_eq!(vim_normal_key(&mut st, vim_key('Z'), &mut b), Some(muldex::keys::InteractiveKeyAction::Noop));
}
