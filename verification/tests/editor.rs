use coded_chars::editor::{
    AreaPosition, EditingExtent, Qualification, area_qualification, delete_char, delete_line, erase,
    erase_char, erase_in_field, erase_in_line, erase_in_page, insert_char, insert_line,
    select_extent,
};

#[test]
fn editor_area_qualification() {
    assert_eq!(area_qualification(Qualification::UnprotectNoGuard).to_string(), "\x1b[0o");
    assert_eq!(area_qualification(Qualification::ProtectGuard).to_string(), "\x1b[1o");
    assert_eq!(area_qualification(Qualification::Character).to_string(), "\x1b[2o");
    assert_eq!(area_qualification(Qualification::Numeric).to_string(), "\x1b[3o");
    assert_eq!(area_qualification(Qualification::Alphabet).to_string(), "\x1b[4o");
    assert_eq!(area_qualification(Qualification::AlignLast).to_string(), "\x1b[5o");
    assert_eq!(area_qualification(Qualification::FillZero).to_string(), "\x1b[6o");
    assert_eq!(area_qualification(Qualification::SetTabStop).to_string(), "\x1b[7o");
    assert_eq!(area_qualification(Qualification::Protect).to_string(), "\x1b[8o");
    assert_eq!(area_qualification(Qualification::FillSpace).to_string(), "\x1b[9o");
    assert_eq!(area_qualification(Qualification::AlignFirst).to_string(), "\x1b[10o");
    assert_eq!(area_qualification(Qualification::Reverse).to_string(), "\x1b[11o");
}

#[test]
fn editor_insert_char() {
    assert_eq!(insert_char(0).to_string(), "\x1b[0@");
    assert_eq!(insert_char(10).to_string(), "\x1b[10@");
    assert_eq!(insert_char(1000).to_string(), "\x1b[1000@");
    assert_eq!(insert_char(1).to_string(), "\x1b[1@");
}

#[test]
fn editor_insert_line() {
    assert_eq!(insert_line(0).to_string(), "\x1b[0L");
    assert_eq!(insert_line(10).to_string(), "\x1b[10L");
    assert_eq!(insert_line(1000).to_string(), "\x1b[1000L");
    assert_eq!(insert_line(1).to_string(), "\x1b[1L");
}

#[test]
fn editor_delete_char() {
    assert_eq!(delete_char(0).to_string(), "\x1b[0P");
    assert_eq!(delete_char(10).to_string(), "\x1b[10P");
    assert_eq!(delete_char(1000).to_string(), "\x1b[1000P");
    assert_eq!(delete_char(1).to_string(), "\x1b[1P");
}

#[test]
fn editor_delete_line() {
    assert_eq!(delete_line(0).to_string(), "\x1b[0M");
    assert_eq!(delete_line(10).to_string(), "\x1b[10M");
    assert_eq!(delete_line(1000).to_string(), "\x1b[1000M");
    assert_eq!(delete_line(1).to_string(), "\x1b[1M");
}

#[test]
fn editor_erase_char() {
    assert_eq!(erase_char(0).to_string(), "\x1b[0X");
    assert_eq!(erase_char(10).to_string(), "\x1b[10X");
    assert_eq!(erase_char(1000).to_string(), "\x1b[1000X");
    assert_eq!(erase_char(1).to_string(), "\x1b[1X");
}

#[test]
fn editor_erase() {
    assert_eq!(erase(AreaPosition::AfterCursor).to_string(), "\x1b[0O");
    assert_eq!(erase(AreaPosition::BeforeCursor).to_string(), "\x1b[1O");
    assert_eq!(erase(AreaPosition::Whole).to_string(), "\x1b[2O");
}

#[test]
fn editor_erase_in_page() {
    assert_eq!(erase_in_page(AreaPosition::AfterCursor).to_string(), "\x1b[0J");
    assert_eq!(erase_in_page(AreaPosition::BeforeCursor).to_string(), "\x1b[1J");
    assert_eq!(erase_in_page(AreaPosition::Whole).to_string(), "\x1b[2J");
}

#[test]
fn editor_erase_in_field() {
    assert_eq!(erase_in_field(AreaPosition::AfterCursor).to_string(), "\x1b[0N");
    assert_eq!(erase_in_field(AreaPosition::BeforeCursor).to_string(), "\x1b[1N");
    assert_eq!(erase_in_field(AreaPosition::Whole).to_string(), "\x1b[2N");
}

#[test]
fn editor_erase_in_line() {
    assert_eq!(erase_in_line(AreaPosition::AfterCursor).to_string(), "\x1b[0K");
    assert_eq!(erase_in_line(AreaPosition::BeforeCursor).to_string(), "\x1b[1K");
    assert_eq!(erase_in_line(AreaPosition::Whole).to_string(), "\x1b[2K");
}

#[test]
fn editor_select_extent() {
    assert_eq!(select_extent(EditingExtent::Page).to_string(), "\x1b[0Q");
    assert_eq!(select_extent(EditingExtent::Line).to_string(), "\x1b[1Q");
    assert_eq!(select_extent(EditingExtent::Field).to_string(), "\x1b[2Q");
    assert_eq!(select_extent(EditingExtent::QualifiedArea).to_string(), "\x1b[3Q");
    assert_eq!(select_extent(EditingExtent::Relevant).to_string(), "\x1b[4Q");
}

#[test]
fn editor_qualification_texts() {
    assert_eq!(Qualification::UnprotectNoGuard.to_string(), "0");
    assert_eq!(Qualification::ProtectGuard.to_string(), "1");
    assert_eq!(Qualification::Character.to_string(), "2");
    assert_eq!(Qualification::Numeric.to_string(), "3");
    assert_eq!(Qualification::Alphabet.to_string(), "4");
    assert_eq!(Qualification::AlignLast.to_string(), "5");
    assert_eq!(Qualification::FillZero.to_string(), "6");
    assert_eq!(Qualification::SetTabStop.to_string(), "7");
    assert_eq!(Qualification::Protect.to_string(), "8");
    assert_eq!(Qualification::FillSpace.to_string(), "9");
    assert_eq!(Qualification::AlignFirst.to_string(), "10");
    assert_eq!(Qualification::Reverse.to_string(), "11");
}

#[test]
fn editor_area_position_texts() {
    assert_eq!(AreaPosition::AfterCursor.to_string(), "0");
    assert_eq!(AreaPosition::BeforeCursor.to_string(), "1");
    assert_eq!(AreaPosition::Whole.to_string(), "2");
}

#[test]
fn editor_editing_extent_texts() {
    assert_eq!(EditingExtent::Page.to_string(), "0");
    assert_eq!(EditingExtent::Line.to_string(), "1");
    assert_eq!(EditingExtent::Field.to_string(), "2");
    assert_eq!(EditingExtent::QualifiedArea.to_string(), "3");
    assert_eq!(EditingExtent::Relevant.to_string(), "4");
}
