use coded_chars::mode::mode;

#[test]
fn mode_guarded_area_transfer() {
    assert_eq!(mode().guarded_area_transfer().set().to_string(), "\x1b[1h");
    assert_eq!(mode().guarded_area_transfer().reset().to_string(), "\x1b[1l");
}

#[test]
fn mode_keyboard_action() {
    assert_eq!(mode().keyboard_action().set().to_string(), "\x1b[2h");
    assert_eq!(mode().keyboard_action().reset().to_string(), "\x1b[2l");
}

#[test]
fn mode_control_representation() {
    assert_eq!(mode().control_representation().set().to_string(), "\x1b[3h");
    assert_eq!(mode().control_representation().reset().to_string(), "\x1b[3l");
}

#[test]
fn mode_insertion_replacement() {
    assert_eq!(mode().insertion_replacement().set().to_string(), "\x1b[4h");
    assert_eq!(mode().insertion_replacement().reset().to_string(), "\x1b[4l");
}

#[test]
fn mode_status_report_transfer() {
    assert_eq!(mode().status_report_transfer().set().to_string(), "\x1b[5h");
    assert_eq!(mode().status_report_transfer().reset().to_string(), "\x1b[5l");
}

#[test]
fn mode_erasure() {
    assert_eq!(mode().erasure().set().to_string(), "\x1b[6h");
    assert_eq!(mode().erasure().reset().to_string(), "\x1b[6l");
}

#[test]
fn mode_line_editing() {
    assert_eq!(mode().line_editing().set().to_string(), "\x1b[7h");
    assert_eq!(mode().line_editing().reset().to_string(), "\x1b[7l");
}

#[test]
fn mode_bi_directional_support() {
    assert_eq!(mode().bi_directional_support().set().to_string(), "\x1b[8h");
    assert_eq!(mode().bi_directional_support().reset().to_string(), "\x1b[8l");
}

#[test]
fn mode_device_component_select() {
    assert_eq!(mode().device_component_select().set().to_string(), "\x1b[9h");
    assert_eq!(mode().device_component_select().reset().to_string(), "\x1b[9l");
}

#[test]
fn mode_character_editing() {
    assert_eq!(mode().character_editing().set().to_string(), "\x1b[10h");
    assert_eq!(mode().character_editing().reset().to_string(), "\x1b[10l");
}

#[test]
fn mode_send_receive() {
    assert_eq!(mode().send_receive().set().to_string(), "\x1b[12h");
    assert_eq!(mode().send_receive().reset().to_string(), "\x1b[12l");
}

#[test]
fn mode_format_effector_action() {
    assert_eq!(mode().format_effector_action().set().to_string(), "\x1b[13h");
    assert_eq!(mode().format_effector_action().reset().to_string(), "\x1b[13l");
}

#[test]
fn mode_format_effector_transfer() {
    assert_eq!(mode().format_effector_transfer().set().to_string(), "\x1b[14h");
    assert_eq!(mode().format_effector_transfer().reset().to_string(), "\x1b[14l");
}

#[test]
fn mode_multiple_area_transfer() {
    assert_eq!(mode().multiple_area_transfer().set().to_string(), "\x1b[15h");
    assert_eq!(mode().multiple_area_transfer().reset().to_string(), "\x1b[15l");
}

#[test]
fn mode_transfert_termination() {
    assert_eq!(mode().transfert_termination().set().to_string(), "\x1b[16h");
    assert_eq!(mode().transfert_termination().reset().to_string(), "\x1b[16l");
}

#[test]
fn mode_selected_area_transfer() {
    assert_eq!(mode().selected_area_transfer().set().to_string(), "\x1b[17h");
    assert_eq!(mode().selected_area_transfer().reset().to_string(), "\x1b[17l");
}

#[test]
fn mode_tabulation_stop() {
    assert_eq!(mode().tabulation_stop().set().to_string(), "\x1b[18h");
    assert_eq!(mode().tabulation_stop().reset().to_string(), "\x1b[18l");
}

#[test]
fn mode_graphic_rendition_combination() {
    assert_eq!(mode().graphic_rendition_combination().set().to_string(), "\x1b[21h");
    assert_eq!(mode().graphic_rendition_combination().reset().to_string(), "\x1b[21l");
}
