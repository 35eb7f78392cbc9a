use coded_chars::area::{Qualification, area_qualification, define_qualification};

#[test]
fn area_area_qualification() {
    assert_eq!(area_qualification(Qualification::UnprotectNoGuard).to_string(), "\x1b[0o");
    assert_eq!(area_qualification(Qualification::ProtectGuard).to_string(), "\x1b[1o");
    assert_eq!(area_qualification(Qualification::Character).to_string(), "\x1b[2o");
    assert_eq!(area_qualification(Qualification::Numeric).to_string(), "\x1b[3o");
    assert_eq!(area_qualification(Qualification::Alphabet).to_string(), "\x1b[4o");
    assert_eq!(area_qualification(Qualification::AlignLast).to_string(), "\x1b[5o");
    assert_eq!(area_qualification(Qualification::FillZero).to_string(), "\x1b[6o");
    assert_eq!(area_qualification(Qualification::SetTabStop).to_string(), "\x1b[7o");
    assert_eq!(area_qualification(Qualification::Protect).to_string(), "\x1b[8o");
    assert_eq!(area_qualification(Qualification::FillSpace).to_string(), "\x1b[9o");
    assert_eq!(area_qualification(Qualification::AlignFirst).to_string(), "\x1b[10o");
    assert_eq!(area_qualification(Qualification::Reverse).to_string(), "\x1b[11o");
}

#[test]
fn area_qualification_texts() {
    assert_eq!(Qualification::UnprotectNoGuard.to_string(), "0");
    assert_eq!(Qualification::ProtectGuard.to_string(), "1");
    assert_eq!(Qualification::Character.to_string(), "2");
    assert_eq!(Qualification::Numeric.to_string(), "3");
    assert_eq!(Qualification::Alphabet.to_string(), "4");
    assert_eq!(Qualification::AlignLast.to_string(), "5");
    assert_eq!(Qualification::FillZero.to_string(), "6");
    assert_eq!(Qualification::SetTabStop.to_string(), "7");
    assert_eq!(Qualification::Protect.to_string(), "8");
    assert_eq!(Qualification::FillSpace.to_string(), "9");
    assert_eq!(Qualification::AlignFirst.to_string(), "10");
    assert_eq!(Qualification::Reverse.to_string(), "11");
}

#[test]
fn area_define_qualification() {
    assert_eq!(define_qualification(Qualification::UnprotectNoGuard).to_string(), "\x1b[0o");
    assert_eq!(define_qualification(Qualification::SetTabStop).to_string(), "\x1b[7o");
    assert_eq!(define_qualification(Qualification::Reverse).to_string(), "\x1b[11o");
}
