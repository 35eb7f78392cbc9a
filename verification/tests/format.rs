use coded_chars::format::{
    TabulationControl, character_absolute, character_and_line_position, character_backward,
    character_forward, clear_tabulation, line_backward, line_forward, line_position, page_backward,
    page_forward, page_position, remove_tabulation_stop,
};

#[test]
fn format_character_absolute() {
    assert_eq!(character_absolute(0).to_string(), "\x1b[0`");
    assert_eq!(character_absolute(10).to_string(), "\x1b[10`");
    assert_eq!(character_absolute(1000).to_string(), "\x1b[1000`");
    assert_eq!(character_absolute(1).to_string(), "\x1b[1`");
}

#[test]
fn format_character_backward() {
    assert_eq!(character_backward(0).to_string(), "\x1b[0j");
    assert_eq!(character_backward(10).to_string(), "\x1b[10j");
    assert_eq!(character_backward(1000).to_string(), "\x1b[1000j");
    assert_eq!(character_backward(1).to_string(), "\x1b[1j");
}

#[test]
fn format_character_forward() {
    assert_eq!(character_forward(0).to_string(), "\x1b[0a");
    assert_eq!(character_forward(10).to_string(), "\x1b[10a");
    assert_eq!(character_forward(1000).to_string(), "\x1b[1000a");
    assert_eq!(character_forward(1).to_string(), "\x1b[1a");
}

#[test]
fn format_character_and_line_position() {
    assert_eq!(character_and_line_position(0, 255).to_string(), "\x1b[0;255f");
    assert_eq!(character_and_line_position(10, 0).to_string(), "\x1b[10;0f");
    assert_eq!(character_and_line_position(1000, 10).to_string(), "\x1b[1000;10f");
    assert_eq!(character_and_line_position(1, 1000).to_string(), "\x1b[1;1000f");
}

#[test]
fn format_page_position() {
    assert_eq!(page_position(0).to_string(), "\x1b[0 P");
    assert_eq!(page_position(10).to_string(), "\x1b[10 P");
    assert_eq!(page_position(1000).to_string(), "\x1b[1000 P");
    assert_eq!(page_position(1).to_string(), "\x1b[1 P");
}

#[test]
fn format_page_backward() {
    assert_eq!(page_backward(0).to_string(), "\x1b[0 R");
    assert_eq!(page_backward(10).to_string(), "\x1b[10 R");
    assert_eq!(page_backward(1000).to_string(), "\x1b[1000 R");
    assert_eq!(page_backward(1).to_string(), "\x1b[1 R");
}

#[test]
fn format_page_forward() {
    assert_eq!(page_forward(0).to_string(), "\x1b[0 Q");
    assert_eq!(page_forward(10).to_string(), "\x1b[10 Q");
    assert_eq!(page_forward(1000).to_string(), "\x1b[1000 Q");
    assert_eq!(page_forward(1).to_string(), "\x1b[1 Q");
}

#[test]
fn format_clear_tabulation() {
    assert_eq!(clear_tabulation(TabulationControl::Character).to_string(), "\x1b[0g");
    assert_eq!(clear_tabulation(TabulationControl::Line).to_string(), "\x1b[1g");
    assert_eq!(clear_tabulation(TabulationControl::CharacterRemove).to_string(), "\x1b[2g");
    assert_eq!(clear_tabulation(TabulationControl::LineRemove).to_string(), "\x1b[3g");
    assert_eq!(clear_tabulation(TabulationControl::CharacterClearLine).to_string(), "\x1b[4g");
    assert_eq!(clear_tabulation(TabulationControl::CharacterClearAll).to_string(), "\x1b[5g");
    assert_eq!(clear_tabulation(TabulationControl::LineClearAll).to_string(), "\x1b[6g");
}

#[test]
fn format_remove_tabulation_stop() {
    assert_eq!(remove_tabulation_stop(0).to_string(), "\x1b[0 d");
    assert_eq!(remove_tabulation_stop(10).to_string(), "\x1b[10 d");
    assert_eq!(remove_tabulation_stop(1000).to_string(), "\x1b[1000 d");
    assert_eq!(remove_tabulation_stop(1).to_string(), "\x1b[1 d");
}

#[test]
fn format_line_position() {
    assert_eq!(line_position(0).to_string(), "\x1b[0d");
    assert_eq!(line_position(10).to_string(), "\x1b[10d");
    assert_eq!(line_position(1000).to_string(), "\x1b[1000d");
    assert_eq!(line_position(1).to_string(), "\x1b[1d");
}

#[test]
fn format_line_backward() {
    assert_eq!(line_backward(0).to_string(), "\x1b[0k");
    assert_eq!(line_backward(10).to_string(), "\x1b[10k");
    assert_eq!(line_backward(1000).to_string(), "\x1b[1000k");
    assert_eq!(line_backward(1).to_string(), "\x1b[1k");
}

#[test]
fn format_line_forward() {
    assert_eq!(line_forward(0).to_string(), "\x1b[0e");
    assert_eq!(line_forward(10).to_string(), "\x1b[10e");
    assert_eq!(line_forward(1000).to_string(), "\x1b[1000e");
    assert_eq!(line_forward(1).to_string(), "\x1b[1e");
}

#[test]
fn format_tabulation_control_texts() {
    assert_eq!(TabulationControl::Character.to_string(), "0");
    assert_eq!(TabulationControl::Line.to_string(), "1");
    assert_eq!(TabulationControl::CharacterRemove.to_string(), "2");
    assert_eq!(TabulationControl::LineRemove.to_string(), "3");
    assert_eq!(TabulationControl::CharacterClearLine.to_string(), "4");
    assert_eq!(TabulationControl::CharacterClearAll.to_string(), "5");
    assert_eq!(TabulationControl::LineClearAll.to_string(), "6");
}
