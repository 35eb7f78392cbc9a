use coded_chars::format::TabulationControl;
use coded_chars::cursor::{
    Direction, line_tabulation, move_cursor, position_report, set_position, tabulation_backward,
    tabulation_control, tabulation_forward,
};

#[test]
fn cursor_tabulation_control() {
    assert_eq!(tabulation_control(TabulationControl::Character).to_string(), "\x1b[0W");
    assert_eq!(tabulation_control(TabulationControl::Line).to_string(), "\x1b[1W");
    assert_eq!(tabulation_control(TabulationControl::CharacterRemove).to_string(), "\x1b[2W");
    assert_eq!(tabulation_control(TabulationControl::LineRemove).to_string(), "\x1b[3W");
    assert_eq!(tabulation_control(TabulationControl::CharacterClearLine).to_string(), "\x1b[4W");
    assert_eq!(tabulation_control(TabulationControl::CharacterClearAll).to_string(), "\x1b[5W");
    assert_eq!(tabulation_control(TabulationControl::LineClearAll).to_string(), "\x1b[6W");
}

#[test]
fn cursor_position_report() {
    assert_eq!(position_report(0, 255).to_string(), "\x1b[0;255R");
    assert_eq!(position_report(10, 0).to_string(), "\x1b[10;0R");
    assert_eq!(position_report(1000, 10).to_string(), "\x1b[1000;10R");
    assert_eq!(position_report(1, 1000).to_string(), "\x1b[1;1000R");
}

#[test]
fn cursor_set_position() {
    assert_eq!(set_position(0, 255).to_string(), "\x1b[0;255H");
    assert_eq!(set_position(10, 0).to_string(), "\x1b[10;0H");
    assert_eq!(set_position(1000, 10).to_string(), "\x1b[1000;10H");
    assert_eq!(set_position(1, 1000).to_string(), "\x1b[1;1000H");
}

#[test]
fn cursor_move_cursor() {
    assert_eq!(move_cursor(Direction::Up, 255).to_string(), "\x1b[255A");
    assert_eq!(move_cursor(Direction::Down, 0).to_string(), "\x1b[0B");
    assert_eq!(move_cursor(Direction::Forward, 10).to_string(), "\x1b[10C");
    assert_eq!(move_cursor(Direction::Backward, 1000).to_string(), "\x1b[1000D");
    assert_eq!(move_cursor(Direction::NextLine, 1).to_string(), "\x1b[1E");
    assert_eq!(move_cursor(Direction::PreviousLine, 42).to_string(), "\x1b[42F");
}

#[test]
fn cursor_tabulation_backward() {
    assert_eq!(tabulation_backward(0).to_string(), "\x1b[0Z");
    assert_eq!(tabulation_backward(10).to_string(), "\x1b[10Z");
    assert_eq!(tabulation_backward(1000).to_string(), "\x1b[1000Z");
    assert_eq!(tabulation_backward(1).to_string(), "\x1b[1Z");
}

#[test]
fn cursor_tabulation_forward() {
    assert_eq!(tabulation_forward(0).to_string(), "\x1b[0I");
    assert_eq!(tabulation_forward(10).to_string(), "\x1b[10I");
    assert_eq!(tabulation_forward(1000).to_string(), "\x1b[1000I");
    assert_eq!(tabulation_forward(1).to_string(), "\x1b[1I");
}

#[test]
fn cursor_line_tabulation() {
    assert_eq!(line_tabulation(0).to_string(), "\x1b[0Y");
    assert_eq!(line_tabulation(10).to_string(), "\x1b[10Y");
    assert_eq!(line_tabulation(1000).to_string(), "\x1b[1000Y");
    assert_eq!(line_tabulation(1).to_string(), "\x1b[1Y");
}

#[test]
fn cursor_direction_texts() {
    assert_eq!(Direction::Up.to_string(), "A");
    assert_eq!(Direction::Down.to_string(), "B");
    assert_eq!(Direction::Forward.to_string(), "C");
    assert_eq!(Direction::Backward.to_string(), "D");
    assert_eq!(Direction::NextLine.to_string(), "E");
    assert_eq!(Direction::PreviousLine.to_string(), "F");
}
