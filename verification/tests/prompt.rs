use muldex::prompt::InteractivePromptBuffer;

#[test]
fn interactive_prompt_buffer_supports_insert_move_and_backspace() {
    let mut buffer = InteractivePromptBuffer::default();
    buffer.insert_char('a');
    buffer.insert_char('c');
    buffer.move_left();
    buffer.insert_char('b');
    assert_eq!(buffer.text, "abc");
    assert_eq!(buffer.cursor, 2);

    buffer.backspace();
    assert_eq!(buffer.text, "ac");
    assert_eq!(buffer.cursor, 1);

    buffer.move_right();
    assert_eq!(buffer.cursor, 2);
    buffer.move_home();
    assert_eq!(buffer.cursor, 0);
    buffer.move_end();
    assert_eq!(buffer.cursor, 2);
    buffer.insert_newline();
    buffer.insert_char('z');
    assert_eq!(buffer.text, "ac\nz");
    buffer.clear();
    assert_eq!(buffer.text, "");
    assert_eq!(buffer.cursor, 0);
}

#[test]
fn interactive_prompt_buffer_supports_word_motion_and_delete_word() {
    let mut buffer = InteractivePromptBuffer {
        text: "alpha beta gamma".to_string(),
        cursor: "alpha beta gamma".len(),
    };

    buffer.move_word_left();
    assert_eq!(buffer.cursor, "alpha beta ".len());
    buffer.move_word_left();
    assert_eq!(buffer.cursor, "alpha ".len());
    buffer.move_word_right();
    assert_eq!(buffer.cursor, "alpha beta ".len());
    buffer.delete_word_left();
    assert_eq!(buffer.text, "alpha gamma");
}

#[test]
fn insert_then_backspace_restores_multibyte_text() {
    let mut buffer = InteractivePromptBuffer {
        text: "héllo".to_string(),
        cursor: 3,
    };
    buffer.insert_char('ß');
    assert_eq!(buffer.text, "héßllo");
    assert_eq!(buffer.cursor, 5);
    buffer.backspace();
    assert_eq!(buffer.text, "héllo");
    assert_eq!(buffer.cursor, 3);
}

#[test]
fn left_then_right_over_multibyte_char_returns_to_cursor() {
    let mut buffer = InteractivePromptBuffer {
        text: "aé b".to_string(),
        cursor: 3,
    };
    buffer.move_left();
    assert_eq!(buffer.cursor, 1);
    buffer.move_right();
    assert_eq!(buffer.cursor, 3);
}

#[test]
fn motions_at_the_edges_leave_the_cursor() {
    let mut buffer = InteractivePromptBuffer {
        text: "ab".to_string(),
        cursor: 0,
    };
    buffer.move_left();
    assert_eq!(buffer.cursor, 0);
    buffer.backspace();
    assert_eq!(buffer.text, "ab");
    buffer.move_word_left();
    assert_eq!(buffer.cursor, 0);
    buffer.move_end();
    buffer.move_right();
    assert_eq!(buffer.cursor, 2);
    buffer.move_word_right();
    assert_eq!(buffer.cursor, 2);
}

#[test]
fn word_left_over_leading_whitespace_only_keeps_cursor() {
    let mut buffer = InteractivePromptBuffer {
        text: "   x".to_string(),
        cursor: 2,
    };
    buffer.move_word_left();
    assert_eq!(buffer.cursor, 2);
    buffer.delete_word_left();
    assert_eq!(buffer.text, "   x");
}

#[test]
fn first_line_and_replace_first_line() {
    let mut buffer = InteractivePromptBuffer {
        text: "/mo\r\nsecond".to_string(),
        cursor: 2,
    };
    assert_eq!(buffer.first_line(), "/mo");
    buffer.replace_first_line("/model");
    assert_eq!(buffer.text, "/model\r\nsecond");
    assert_eq!(buffer.cursor, 6);

    let mut buffer = InteractivePromptBuffer {
        text: "/mo\nsecond".to_string(),
        cursor: 6,
    };
    buffer.replace_first_line("/model");
    assert_eq!(buffer.text, "/model\nsecond");
    assert_eq!(buffer.cursor, 9);
}

#[test]
fn rows_columns_and_lines() {
    let mut buffer = InteractivePromptBuffer {
        text: "ab\ncdé\n".to_string(),
        cursor: 7,
    };
    assert_eq!(buffer.row_col(), (1, 3));
    assert_eq!(buffer.line_count(), 2);
    assert_eq!(buffer.line_at(1), "cdé");
    assert_eq!(buffer.line_at(5), "");
    buffer.set_row_col(0, 9);
    assert_eq!(buffer.cursor, 2);
    buffer.set_row_col(7, 3);
    assert_eq!(buffer.cursor, 7);
    buffer.set_row_col(1, 1);
    assert_eq!(buffer.cursor, 4);

    let empty = InteractivePromptBuffer::default();
    assert_eq!(empty.line_count(), 1);
    assert_eq!(empty.row_col(), (0, 0));
}
