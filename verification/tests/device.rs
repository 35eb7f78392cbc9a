use coded_chars::device::{
    ControlString, CopyStatus, StatusReport, attributes, eject_and_feed, function_key,
    identify_control_string, identify_graphic_sub, media_copy, report_status,
};

#[test]
fn device_attributes() {
    assert_eq!(attributes(0).to_string(), "\x1b[0c");
    assert_eq!(attributes(10).to_string(), "\x1b[10c");
    assert_eq!(attributes(1000).to_string(), "\x1b[1000c");
    assert_eq!(attributes(1).to_string(), "\x1b[1c");
}

#[test]
fn device_report_status() {
    assert_eq!(report_status(StatusReport::Ready).to_string(), "\x1b[0n");
    assert_eq!(report_status(StatusReport::BusyRetry).to_string(), "\x1b[1n");
    assert_eq!(report_status(StatusReport::BusyWaiting).to_string(), "\x1b[2n");
    assert_eq!(report_status(StatusReport::ErrorRetry).to_string(), "\x1b[3n");
    assert_eq!(report_status(StatusReport::ErrorWaiting).to_string(), "\x1b[4n");
    assert_eq!(report_status(StatusReport::MessageWaiting).to_string(), "\x1b[5n");
    assert_eq!(report_status(StatusReport::PositionWaiting).to_string(), "\x1b[6n");
}

#[test]
fn device_function_key() {
    assert_eq!(function_key(0).to_string(), "\x1b[0 W");
    assert_eq!(function_key(10).to_string(), "\x1b[10 W");
    assert_eq!(function_key(1000).to_string(), "\x1b[1000 W");
    assert_eq!(function_key(1).to_string(), "\x1b[1 W");
}

#[test]
fn device_identify_control_string() {
    assert_eq!(identify_control_string(ControlString::SRTMDiagnose).to_string(), "\x1b[1 O");
    assert_eq!(identify_control_string(ControlString::Ecma35DCRS).to_string(), "\x1b[2 O");
}

#[test]
fn device_identify_graphic_sub() {
    assert_eq!(identify_graphic_sub(0).to_string(), "\x1b[0 M");
    assert_eq!(identify_graphic_sub(10).to_string(), "\x1b[10 M");
    assert_eq!(identify_graphic_sub(1000).to_string(), "\x1b[1000 M");
    assert_eq!(identify_graphic_sub(1).to_string(), "\x1b[1 M");
}

#[test]
fn device_media_copy() {
    assert_eq!(media_copy(CopyStatus::InitTo1).to_string(), "\x1b[0i");
    assert_eq!(media_copy(CopyStatus::InitFrom1).to_string(), "\x1b[1i");
    assert_eq!(media_copy(CopyStatus::InitTo2).to_string(), "\x1b[2i");
    assert_eq!(media_copy(CopyStatus::InitFrom2).to_string(), "\x1b[3i");
    assert_eq!(media_copy(CopyStatus::Stop1).to_string(), "\x1b[4i");
    assert_eq!(media_copy(CopyStatus::Start1).to_string(), "\x1b[5i");
    assert_eq!(media_copy(CopyStatus::Stop2).to_string(), "\x1b[6i");
    assert_eq!(media_copy(CopyStatus::Start2).to_string(), "\x1b[7i");
}

#[test]
fn device_eject_and_feed() {
    assert_eq!(eject_and_feed(0, 255).to_string(), "\x1b[0;255 Y");
    assert_eq!(eject_and_feed(10, 0).to_string(), "\x1b[10;0 Y");
    assert_eq!(eject_and_feed(1000, 10).to_string(), "\x1b[1000;10 Y");
    assert_eq!(eject_and_feed(1, 1000).to_string(), "\x1b[1;1000 Y");
}

#[test]
fn device_status_report_texts() {
    assert_eq!(StatusReport::Ready.to_string(), "0");
    assert_eq!(StatusReport::BusyRetry.to_string(), "1");
    assert_eq!(StatusReport::BusyWaiting.to_string(), "2");
    assert_eq!(StatusReport::ErrorRetry.to_string(), "3");
    assert_eq!(StatusReport::ErrorWaiting.to_string(), "4");
    assert_eq!(StatusReport::MessageWaiting.to_string(), "5");
    assert_eq!(StatusReport::PositionWaiting.to_string(), "6");
}

#[test]
fn device_control_string_texts() {
    assert_eq!(ControlString::SRTMDiagnose.to_string(), "1");
    assert_eq!(ControlString::Ecma35DCRS.to_string(), "2");
}

#[test]
fn device_copy_status_texts() {
    assert_eq!(CopyStatus::InitTo1.to_string(), "0");
    assert_eq!(CopyStatus::InitFrom1.to_string(), "1");
    assert_eq!(CopyStatus::InitTo2.to_string(), "2");
    assert_eq!(CopyStatus::InitFrom2.to_string(), "3");
    assert_eq!(CopyStatus::Stop1.to_string(), "4");
    assert_eq!(CopyStatus::Start1.to_string(), "5");
    assert_eq!(CopyStatus::Stop2.to_string(), "6");
    assert_eq!(CopyStatus::Start2.to_string(), "7");
}
