use coded_chars::presentation::{
    CharacterPath, CharacterSpacing, Combination, Expansion, Font, JustifyMode, Layout, LineSpacing,
    MovementDirection, Orientation, PageFormat, PathEffect, PrintQuality, SizeUnit, StringDirection,
    StringReversion, TextDelimiter, add_separation, align_center, align_leading, align_trailing,
    character_combination, character_orientation, character_path, dimension_text, directed,
    expand_or_condense, line_home, line_limit, line_spacing, modify_size, page_home, page_limit,
    parallel_texts, print_quality, reduce_separation, repeat, reversed, select_alternative,
    select_font, select_graphic, select_implicit, select_line_spacing, select_page_format,
    select_size, select_size_unit, select_spacing, select_tabulation, space_width,
    spacing_increment, specify_thin_space, tabulation_center_on_char,
};

#[test]
fn presentation_dimension_text() {
    assert_eq!(dimension_text(0, 255).to_string(), "\x1b[0;255 T");
    assert_eq!(dimension_text(10, 0).to_string(), "\x1b[10;0 T");
    assert_eq!(dimension_text(1000, 10).to_string(), "\x1b[1000;10 T");
    assert_eq!(dimension_text(1, 1000).to_string(), "\x1b[1;1000 T");
}

#[test]
fn presentation_select_font() {
    assert_eq!(select_font(Font::Primary).to_string(), "\x1b[0;0 D");
    assert_eq!(select_font(Font::Alternative1).to_string(), "\x1b[1;0 D");
    assert_eq!(select_font(Font::Alternative2).to_string(), "\x1b[2;0 D");
    assert_eq!(select_font(Font::Alternative3).to_string(), "\x1b[3;0 D");
    assert_eq!(select_font(Font::Alternative4).to_string(), "\x1b[4;0 D");
    assert_eq!(select_font(Font::Alternative5).to_string(), "\x1b[5;0 D");
    assert_eq!(select_font(Font::Alternative6).to_string(), "\x1b[6;0 D");
    assert_eq!(select_font(Font::Alternative7).to_string(), "\x1b[7;0 D");
    assert_eq!(select_font(Font::Alternative8).to_string(), "\x1b[8;0 D");
    assert_eq!(select_font(Font::Alternative9).to_string(), "\x1b[9;0 D");
}

#[test]
fn presentation_character_combination() {
    assert_eq!(character_combination(Combination::Two).to_string(), "\x1b[0 _");
    assert_eq!(character_combination(Combination::Start).to_string(), "\x1b[1 _");
    assert_eq!(character_combination(Combination::End).to_string(), "\x1b[2 _");
}

#[test]
fn presentation_modify_size() {
    assert_eq!(modify_size(0, 255).to_string(), "\x1b[0;255 B");
    assert_eq!(modify_size(10, 0).to_string(), "\x1b[10;0 B");
    assert_eq!(modify_size(1000, 10).to_string(), "\x1b[1000;10 B");
    assert_eq!(modify_size(1, 1000).to_string(), "\x1b[1;1000 B");
}

#[test]
fn presentation_select_size() {
    assert_eq!(select_size(0).to_string(), "\x1b[0 C");
    assert_eq!(select_size(10).to_string(), "\x1b[10 C");
    assert_eq!(select_size(1000).to_string(), "\x1b[1000 C");
    assert_eq!(select_size(1).to_string(), "\x1b[1 C");
}

#[test]
fn presentation_expand_or_condense() {
    assert_eq!(expand_or_condense(Expansion::Normal).to_string(), "\x1b[0 Z");
    assert_eq!(expand_or_condense(Expansion::Expanded).to_string(), "\x1b[1 Z");
    assert_eq!(expand_or_condense(Expansion::Condensed).to_string(), "\x1b[2 Z");
}

#[test]
fn presentation_select_page_format() {
    assert_eq!(select_page_format(PageFormat::TallText).to_string(), "\x1b[0 J");
    assert_eq!(select_page_format(PageFormat::WideText).to_string(), "\x1b[1 J");
    assert_eq!(select_page_format(PageFormat::TallA4).to_string(), "\x1b[2 J");
    assert_eq!(select_page_format(PageFormat::WideA4).to_string(), "\x1b[3 J");
    assert_eq!(select_page_format(PageFormat::TallLetter).to_string(), "\x1b[4 J");
    assert_eq!(select_page_format(PageFormat::WideLetter).to_string(), "\x1b[5 J");
    assert_eq!(select_page_format(PageFormat::TallExtA4).to_string(), "\x1b[6 J");
    assert_eq!(select_page_format(PageFormat::WideExtA4).to_string(), "\x1b[7 J");
    assert_eq!(select_page_format(PageFormat::TallLegal).to_string(), "\x1b[8 J");
    assert_eq!(select_page_format(PageFormat::WideLegal).to_string(), "\x1b[9 J");
    assert_eq!(select_page_format(PageFormat::A4ShortLines).to_string(), "\x1b[10 J");
    assert_eq!(select_page_format(PageFormat::A4LongLines).to_string(), "\x1b[11 J");
    assert_eq!(select_page_format(PageFormat::B5ShortLines).to_string(), "\x1b[12 J");
    assert_eq!(select_page_format(PageFormat::B5LongLines).to_string(), "\x1b[13 J");
    assert_eq!(select_page_format(PageFormat::B4ShortLines).to_string(), "\x1b[14 J");
    assert_eq!(select_page_format(PageFormat::B4LongLines).to_string(), "\x1b[15 J");
}

#[test]
fn presentation_parallel_texts() {
    assert_eq!(parallel_texts(TextDelimiter::End).to_string(), "\x1b[0\\");
    assert_eq!(parallel_texts(TextDelimiter::BeginPrincipal).to_string(), "\x1b[1\\");
    assert_eq!(parallel_texts(TextDelimiter::BeginSupplementary).to_string(), "\x1b[2\\");
    assert_eq!(
        parallel_texts(TextDelimiter::BeginSupplementaryPhoneticJapanese).to_string(),
        "\x1b[3\\"
    );
    assert_eq!(
        parallel_texts(TextDelimiter::BeginSupplementaryPhoneticChinese).to_string(),
        "\x1b[4\\"
    );
    assert_eq!(parallel_texts(TextDelimiter::EndPhonetic).to_string(), "\x1b[5\\");
}

#[test]
fn presentation_repeat() {
    assert_eq!(repeat(0).to_string(), "\x1b[0b");
    assert_eq!(repeat(10).to_string(), "\x1b[10b");
    assert_eq!(repeat(1000).to_string(), "\x1b[1000b");
    assert_eq!(repeat(1).to_string(), "\x1b[1b");
}

#[test]
fn presentation_add_separation() {
    assert_eq!(add_separation(0).to_string(), "\x1b[0 \\");
    assert_eq!(add_separation(10).to_string(), "\x1b[10 \\");
    assert_eq!(add_separation(1000).to_string(), "\x1b[1000 \\");
    assert_eq!(add_separation(1).to_string(), "\x1b[1 \\");
}

#[test]
fn presentation_character_orientation() {
    assert_eq!(character_orientation(Orientation::North).to_string(), "\x1b[0 e");
    assert_eq!(character_orientation(Orientation::NorthWest).to_string(), "\x1b[1 e");
    assert_eq!(character_orientation(Orientation::West).to_string(), "\x1b[2 e");
    assert_eq!(character_orientation(Orientation::SouthWest).to_string(), "\x1b[3 e");
    assert_eq!(character_orientation(Orientation::South).to_string(), "\x1b[4 e");
    assert_eq!(character_orientation(Orientation::SouthEast).to_string(), "\x1b[5 e");
    assert_eq!(character_orientation(Orientation::East).to_string(), "\x1b[6 e");
    assert_eq!(character_orientation(Orientation::NorthEast).to_string(), "\x1b[7 e");
}

#[test]
fn presentation_character_path() {
    assert_eq!(
        character_path(CharacterPath::LeftToRight, PathEffect::UpdatePresentation).to_string(),
        "\x1b[1;1 k"
    );
    assert_eq!(
        character_path(CharacterPath::RightToLeft, PathEffect::UpdateData).to_string(),
        "\x1b[2;2 k"
    );
    assert_eq!(
        character_path(CharacterPath::LeftToRight, PathEffect::Undefined).to_string(),
        "\x1b[1;0 k"
    );
    assert_eq!(
        character_path(CharacterPath::RightToLeft, PathEffect::UpdatePresentation).to_string(),
        "\x1b[2;1 k"
    );
}

#[test]
fn presentation_directed() {
    assert_eq!(directed(StringDirection::End).to_string(), "\x1b[0]");
    assert_eq!(directed(StringDirection::StartLeftToRight).to_string(), "\x1b[1]");
    assert_eq!(directed(StringDirection::StartRightToLeft).to_string(), "\x1b[2]");
}

#[test]
fn presentation_select_implicit() {
    assert_eq!(select_implicit(MovementDirection::Same).to_string(), "\x1b[0^");
    assert_eq!(select_implicit(MovementDirection::Opposite).to_string(), "\x1b[1^");
}

#[test]
fn presentation_select_spacing() {
    assert_eq!(select_spacing(CharacterSpacing::Per25mm10Chars).to_string(), "\x1b[0 K");
    assert_eq!(select_spacing(CharacterSpacing::Per25mm12Chars).to_string(), "\x1b[1 K");
    assert_eq!(select_spacing(CharacterSpacing::Per25mm15Chars).to_string(), "\x1b[2 K");
    assert_eq!(select_spacing(CharacterSpacing::Per25mm16Chars).to_string(), "\x1b[3 K");
    assert_eq!(select_spacing(CharacterSpacing::Per25mm3Chars).to_string(), "\x1b[4 K");
    assert_eq!(select_spacing(CharacterSpacing::Per50mm9Chars).to_string(), "\x1b[5 K");
    assert_eq!(select_spacing(CharacterSpacing::Per25mm4Chars).to_string(), "\x1b[6 K");
}

#[test]
fn presentation_line_home() {
    assert_eq!(line_home(0).to_string(), "\x1b[0 U");
    assert_eq!(line_home(10).to_string(), "\x1b[10 U");
    assert_eq!(line_home(1000).to_string(), "\x1b[1000 U");
    assert_eq!(line_home(1).to_string(), "\x1b[1 U");
}

#[test]
fn presentation_line_limit() {
    assert_eq!(line_limit(0).to_string(), "\x1b[0 V");
    assert_eq!(line_limit(10).to_string(), "\x1b[10 V");
    assert_eq!(line_limit(1000).to_string(), "\x1b[1000 V");
    assert_eq!(line_limit(1).to_string(), "\x1b[1 V");
}

#[test]
fn presentation_line_spacing() {
    assert_eq!(line_spacing(0).to_string(), "\x1b[0 h");
    assert_eq!(line_spacing(10).to_string(), "\x1b[10 h");
    assert_eq!(line_spacing(1000).to_string(), "\x1b[1000 h");
    assert_eq!(line_spacing(1).to_string(), "\x1b[1 h");
}

#[test]
fn presentation_page_home() {
    assert_eq!(page_home(0).to_string(), "\x1b[0 i");
    assert_eq!(page_home(10).to_string(), "\x1b[10 i");
    assert_eq!(page_home(1000).to_string(), "\x1b[1000 i");
    assert_eq!(page_home(1).to_string(), "\x1b[1 i");
}

#[test]
fn presentation_spacing_increment() {
    assert_eq!(spacing_increment(0, 255).to_string(), "\x1b[0;255 G");
    assert_eq!(spacing_increment(10, 0).to_string(), "\x1b[10;0 G");
    assert_eq!(spacing_increment(1000, 10).to_string(), "\x1b[1000;10 G");
    assert_eq!(spacing_increment(1, 1000).to_string(), "\x1b[1;1000 G");
}

#[test]
fn presentation_page_limit() {
    assert_eq!(page_limit(0).to_string(), "\x1b[0 j");
    assert_eq!(page_limit(10).to_string(), "\x1b[10 j");
    assert_eq!(page_limit(1000).to_string(), "\x1b[1000 j");
    assert_eq!(page_limit(1).to_string(), "\x1b[1 j");
}

#[test]
fn presentation_print_quality() {
    assert_eq!(print_quality(PrintQuality::Highest).to_string(), "\x1b[0 X");
    assert_eq!(print_quality(PrintQuality::Medium).to_string(), "\x1b[1 X");
    assert_eq!(print_quality(PrintQuality::Draft).to_string(), "\x1b[2 X");
}

#[test]
fn presentation_reduce_separation() {
    assert_eq!(reduce_separation(0).to_string(), "\x1b[0 f");
    assert_eq!(reduce_separation(10).to_string(), "\x1b[10 f");
    assert_eq!(reduce_separation(1000).to_string(), "\x1b[1000 f");
    assert_eq!(reduce_separation(1).to_string(), "\x1b[1 f");
}

#[test]
fn presentation_reversed() {
    assert_eq!(reversed(StringReversion::End).to_string(), "\x1b[0[");
    assert_eq!(reversed(StringReversion::BeginReverse).to_string(), "\x1b[1[");
}

#[test]
fn presentation_select_size_unit() {
    assert_eq!(select_size_unit(SizeUnit::Character).to_string(), "\x1b[0 I");
    assert_eq!(select_size_unit(SizeUnit::Millimeter).to_string(), "\x1b[1 I");
    assert_eq!(select_size_unit(SizeUnit::ComputerDeciPoint).to_string(), "\x1b[2 I");
    assert_eq!(select_size_unit(SizeUnit::DeciDidot).to_string(), "\x1b[3 I");
    assert_eq!(select_size_unit(SizeUnit::Mil).to_string(), "\x1b[4 I");
    assert_eq!(select_size_unit(SizeUnit::BasicMeasuringUnit).to_string(), "\x1b[5 I");
    assert_eq!(select_size_unit(SizeUnit::Micrometer).to_string(), "\x1b[6 I");
    assert_eq!(select_size_unit(SizeUnit::Pixel).to_string(), "\x1b[7 I");
    assert_eq!(select_size_unit(SizeUnit::DeciPoint).to_string(), "\x1b[8 I");
}

#[test]
fn presentation_space_width() {
    assert_eq!(space_width(0).to_string(), "\x1b[0 [");
    assert_eq!(space_width(10).to_string(), "\x1b[10 [");
    assert_eq!(space_width(1000).to_string(), "\x1b[1000 [");
    assert_eq!(space_width(1).to_string(), "\x1b[1 [");
}

#[test]
fn presentation_select_tabulation() {
    assert_eq!(select_tabulation(0).to_string(), "\x1b[0 ^");
    assert_eq!(select_tabulation(10).to_string(), "\x1b[10 ^");
    assert_eq!(select_tabulation(1000).to_string(), "\x1b[1000 ^");
    assert_eq!(select_tabulation(1).to_string(), "\x1b[1 ^");
}

#[test]
fn presentation_select_line_spacing() {
    assert_eq!(select_line_spacing(LineSpacing::Per25mm6Lines).to_string(), "\x1b[0 L");
    assert_eq!(select_line_spacing(LineSpacing::Per25mm4Lines).to_string(), "\x1b[1 L");
    assert_eq!(select_line_spacing(LineSpacing::Per25mm3Lines).to_string(), "\x1b[2 L");
    assert_eq!(select_line_spacing(LineSpacing::Per25mm12Lines).to_string(), "\x1b[3 L");
    assert_eq!(select_line_spacing(LineSpacing::Per25mm8Lines).to_string(), "\x1b[4 L");
    assert_eq!(select_line_spacing(LineSpacing::Per30mm6Lines).to_string(), "\x1b[5 L");
    assert_eq!(select_line_spacing(LineSpacing::Per30mm4Lines).to_string(), "\x1b[6 L");
    assert_eq!(select_line_spacing(LineSpacing::Per30mm3Lines).to_string(), "\x1b[7 L");
    assert_eq!(select_line_spacing(LineSpacing::Per30mm12Lines).to_string(), "\x1b[8 L");
    assert_eq!(select_line_spacing(LineSpacing::Per25mm2Lines).to_string(), "\x1b[9 L");
}

#[test]
fn presentation_align_center() {
    assert_eq!(align_center(0).to_string(), "\x1b[0 b");
    assert_eq!(align_center(10).to_string(), "\x1b[10 b");
    assert_eq!(align_center(1000).to_string(), "\x1b[1000 b");
    assert_eq!(align_center(1).to_string(), "\x1b[1 b");
}

#[test]
fn presentation_align_leading() {
    assert_eq!(align_leading(0).to_string(), "\x1b[0 a");
    assert_eq!(align_leading(10).to_string(), "\x1b[10 a");
    assert_eq!(align_leading(1000).to_string(), "\x1b[1000 a");
    assert_eq!(align_leading(1).to_string(), "\x1b[1 a");
}

#[test]
fn presentation_align_trailing() {
    assert_eq!(align_trailing(0).to_string(), "\x1b[0 `");
    assert_eq!(align_trailing(10).to_string(), "\x1b[10 `");
    assert_eq!(align_trailing(1000).to_string(), "\x1b[1000 `");
    assert_eq!(align_trailing(1).to_string(), "\x1b[1 `");
}

#[test]
fn presentation_tabulation_center_on_char() {
    assert_eq!(tabulation_center_on_char(0, 255).to_string(), "\x1b[0;255 c");
    assert_eq!(tabulation_center_on_char(10, 0).to_string(), "\x1b[10;0 c");
    assert_eq!(tabulation_center_on_char(1000, 10).to_string(), "\x1b[1000;10 c");
    assert_eq!(tabulation_center_on_char(1, 1000).to_string(), "\x1b[1;1000 c");
}

#[test]
fn presentation_specify_thin_space() {
    assert_eq!(specify_thin_space(0).to_string(), "\x1b[0 E");
    assert_eq!(specify_thin_space(10).to_string(), "\x1b[10 E");
    assert_eq!(specify_thin_space(1000).to_string(), "\x1b[1000 E");
    assert_eq!(specify_thin_space(1).to_string(), "\x1b[1 E");
}

#[test]
fn presentation_font_texts() {
    assert_eq!(Font::Primary.to_string(), "0");
    assert_eq!(Font::Alternative1.to_string(), "1");
    assert_eq!(Font::Alternative2.to_string(), "2");
    assert_eq!(Font::Alternative3.to_string(), "3");
    assert_eq!(Font::Alternative4.to_string(), "4");
    assert_eq!(Font::Alternative5.to_string(), "5");
    assert_eq!(Font::Alternative6.to_string(), "6");
    assert_eq!(Font::Alternative7.to_string(), "7");
    assert_eq!(Font::Alternative8.to_string(), "8");
    assert_eq!(Font::Alternative9.to_string(), "9");
}

#[test]
fn presentation_combination_texts() {
    assert_eq!(Combination::Two.to_string(), "0");
    assert_eq!(Combination::Start.to_string(), "1");
    assert_eq!(Combination::End.to_string(), "2");
}

#[test]
fn presentation_justify_mode_texts() {
    assert_eq!(JustifyMode::NoJustification.to_string(), "0");
    assert_eq!(JustifyMode::WordFill.to_string(), "1");
    assert_eq!(JustifyMode::WordSpace.to_string(), "2");
    assert_eq!(JustifyMode::LetterSpace.to_string(), "3");
    assert_eq!(JustifyMode::Hyphen.to_string(), "4");
    assert_eq!(JustifyMode::FlushHome.to_string(), "5");
    assert_eq!(JustifyMode::Center.to_string(), "6");
    assert_eq!(JustifyMode::FlushLimit.to_string(), "7");
    assert_eq!(JustifyMode::ItalianHyphen.to_string(), "8");
}

#[test]
fn presentation_expansion_texts() {
    assert_eq!(Expansion::Normal.to_string(), "0");
    assert_eq!(Expansion::Expanded.to_string(), "1");
    assert_eq!(Expansion::Condensed.to_string(), "2");
}

#[test]
fn presentation_page_format_texts() {
    assert_eq!(PageFormat::TallText.to_string(), "0");
    assert_eq!(PageFormat::WideText.to_string(), "1");
    assert_eq!(PageFormat::TallA4.to_string(), "2");
    assert_eq!(PageFormat::WideA4.to_string(), "3");
    assert_eq!(PageFormat::TallLetter.to_string(), "4");
    assert_eq!(PageFormat::WideLetter.to_string(), "5");
    assert_eq!(PageFormat::TallExtA4.to_string(), "6");
    assert_eq!(PageFormat::WideExtA4.to_string(), "7");
    assert_eq!(PageFormat::TallLegal.to_string(), "8");
    assert_eq!(PageFormat::WideLegal.to_string(), "9");
    assert_eq!(PageFormat::A4ShortLines.to_string(), "10");
    assert_eq!(PageFormat::A4LongLines.to_string(), "11");
    assert_eq!(PageFormat::B5ShortLines.to_string(), "12");
    assert_eq!(PageFormat::B5LongLines.to_string(), "13");
    assert_eq!(PageFormat::B4ShortLines.to_string(), "14");
    assert_eq!(PageFormat::B4LongLines.to_string(), "15");
}

#[test]
fn presentation_text_delimiter_texts() {
    assert_eq!(TextDelimiter::End.to_string(), "0");
    assert_eq!(TextDelimiter::BeginPrincipal.to_string(), "1");
    assert_eq!(TextDelimiter::BeginSupplementary.to_string(), "2");
    assert_eq!(TextDelimiter::BeginSupplementaryPhoneticJapanese.to_string(), "3");
    assert_eq!(TextDelimiter::BeginSupplementaryPhoneticChinese.to_string(), "4");
    assert_eq!(TextDelimiter::EndPhonetic.to_string(), "5");
}

#[test]
fn presentation_layout_texts() {
    assert_eq!(Layout::FlushHome.to_string(), "0");
    assert_eq!(Layout::FlushHomeAndFill.to_string(), "1");
    assert_eq!(Layout::Center.to_string(), "2");
    assert_eq!(Layout::CenterAndFill.to_string(), "3");
    assert_eq!(Layout::FlushLimit.to_string(), "4");
    assert_eq!(Layout::FlushLimitAndFill.to_string(), "5");
    assert_eq!(Layout::FlushBoth.to_string(), "6");
}

#[test]
fn presentation_orientation_texts() {
    assert_eq!(Orientation::North.to_string(), "0");
    assert_eq!(Orientation::NorthWest.to_string(), "1");
    assert_eq!(Orientation::West.to_string(), "2");
    assert_eq!(Orientation::SouthWest.to_string(), "3");
    assert_eq!(Orientation::South.to_string(), "4");
    assert_eq!(Orientation::SouthEast.to_string(), "5");
    assert_eq!(Orientation::East.to_string(), "6");
    assert_eq!(Orientation::NorthEast.to_string(), "7");
}

#[test]
fn presentation_character_path_texts() {
    assert_eq!(CharacterPath::LeftToRight.to_string(), "1");
    assert_eq!(CharacterPath::RightToLeft.to_string(), "2");
}

#[test]
fn presentation_path_effect_texts() {
    assert_eq!(PathEffect::Undefined.to_string(), "0");
    assert_eq!(PathEffect::UpdatePresentation.to_string(), "1");
    assert_eq!(PathEffect::UpdateData.to_string(), "2");
}

#[test]
fn presentation_string_direction_texts() {
    assert_eq!(StringDirection::End.to_string(), "0");
    assert_eq!(StringDirection::StartLeftToRight.to_string(), "1");
    assert_eq!(StringDirection::StartRightToLeft.to_string(), "2");
}

#[test]
fn presentation_movement_direction_texts() {
    assert_eq!(MovementDirection::Same.to_string(), "0");
    assert_eq!(MovementDirection::Opposite.to_string(), "1");
}

#[test]
fn presentation_character_spacing_texts() {
    assert_eq!(CharacterSpacing::Per25mm10Chars.to_string(), "0");
    assert_eq!(CharacterSpacing::Per25mm12Chars.to_string(), "1");
    assert_eq!(CharacterSpacing::Per25mm15Chars.to_string(), "2");
    assert_eq!(CharacterSpacing::Per25mm16Chars.to_string(), "3");
    assert_eq!(CharacterSpacing::Per25mm3Chars.to_string(), "4");
    assert_eq!(CharacterSpacing::Per50mm9Chars.to_string(), "5");
    assert_eq!(CharacterSpacing::Per25mm4Chars.to_string(), "6");
}

#[test]
fn presentation_print_quality_texts() {
    assert_eq!(PrintQuality::Highest.to_string(), "0");
    assert_eq!(PrintQuality::Medium.to_string(), "1");
    assert_eq!(PrintQuality::Draft.to_string(), "2");
}

#[test]
fn presentation_string_reversion_texts() {
    assert_eq!(StringReversion::End.to_string(), "0");
    assert_eq!(StringReversion::BeginReverse.to_string(), "1");
}

#[test]
fn presentation_size_unit_texts() {
    assert_eq!(SizeUnit::Character.to_string(), "0");
    assert_eq!(SizeUnit::Millimeter.to_string(), "1");
    assert_eq!(SizeUnit::ComputerDeciPoint.to_string(), "2");
    assert_eq!(SizeUnit::DeciDidot.to_string(), "3");
    assert_eq!(SizeUnit::Mil.to_string(), "4");
    assert_eq!(SizeUnit::BasicMeasuringUnit.to_string(), "5");
    assert_eq!(SizeUnit::Micrometer.to_string(), "6");
    assert_eq!(SizeUnit::Pixel.to_string(), "7");
    assert_eq!(SizeUnit::DeciPoint.to_string(), "8");
}

#[test]
fn presentation_line_spacing_texts() {
    assert_eq!(LineSpacing::Per25mm6Lines.to_string(), "0");
    assert_eq!(LineSpacing::Per25mm4Lines.to_string(), "1");
    assert_eq!(LineSpacing::Per25mm3Lines.to_string(), "2");
    assert_eq!(LineSpacing::Per25mm12Lines.to_string(), "3");
    assert_eq!(LineSpacing::Per25mm8Lines.to_string(), "4");
    assert_eq!(LineSpacing::Per30mm6Lines.to_string(), "5");
    assert_eq!(LineSpacing::Per30mm4Lines.to_string(), "6");
    assert_eq!(LineSpacing::Per30mm3Lines.to_string(), "7");
    assert_eq!(LineSpacing::Per30mm12Lines.to_string(), "8");
    assert_eq!(LineSpacing::Per25mm2Lines.to_string(), "9");
}

#[test]
fn select_alternative_default() {
    assert_eq!(select_alternative().default().get().to_string(), "\x1b[0 ]");
}

#[test]
fn select_alternative_latin_decimal() {
    assert_eq!(select_alternative().latin_decimal().get().to_string(), "\x1b[1 ]");
}

#[test]
fn select_alternative_arabic_decimal() {
    assert_eq!(select_alternative().arabic_decimal().get().to_string(), "\x1b[2 ]");
}

#[test]
fn select_alternative_mirror_horizontal() {
    assert_eq!(select_alternative().mirror_horizontal().get().to_string(), "\x1b[3 ]");
}

#[test]
fn select_alternative_mirror_vertical() {
    assert_eq!(select_alternative().mirror_vertical().get().to_string(), "\x1b[4 ]");
}

#[test]
fn select_alternative_character_isolate() {
    assert_eq!(select_alternative().character_isolate().get().to_string(), "\x1b[5 ]");
}

#[test]
fn select_alternative_character_initial() {
    assert_eq!(select_alternative().character_initial().get().to_string(), "\x1b[6 ]");
}

#[test]
fn select_alternative_character_medial() {
    assert_eq!(select_alternative().character_medial().get().to_string(), "\x1b[7 ]");
}

#[test]
fn select_alternative_character_final() {
    assert_eq!(select_alternative().character_final().get().to_string(), "\x1b[8 ]");
}

#[test]
fn select_alternative_decimal_stop() {
    assert_eq!(select_alternative().decimal_stop().get().to_string(), "\x1b[9 ]");
}

#[test]
fn select_alternative_decimal_comma() {
    assert_eq!(select_alternative().decimal_comma().get().to_string(), "\x1b[10 ]");
}

#[test]
fn select_alternative_vowel_above_or_below() {
    assert_eq!(select_alternative().vowel_above_or_below().get().to_string(), "\x1b[11 ]");
}

#[test]
fn select_alternative_vowel_after() {
    assert_eq!(select_alternative().vowel_after().get().to_string(), "\x1b[12 ]");
}

#[test]
fn select_alternative_arabic_ligature_aleph() {
    assert_eq!(select_alternative().arabic_ligature_aleph().get().to_string(), "\x1b[13 ]");
}

#[test]
fn select_alternative_arabic_ligature_none() {
    assert_eq!(select_alternative().arabic_ligature_none().get().to_string(), "\x1b[14 ]");
}

#[test]
fn select_alternative_no_mirror() {
    assert_eq!(select_alternative().no_mirror().get().to_string(), "\x1b[15 ]");
}

#[test]
fn select_alternative_no_vowel() {
    assert_eq!(select_alternative().no_vowel().get().to_string(), "\x1b[16 ]");
}

#[test]
fn select_alternative_italic_direction() {
    assert_eq!(select_alternative().italic_direction().get().to_string(), "\x1b[17 ]");
}

#[test]
fn select_alternative_arabic_no_context_with_digit() {
    assert_eq!(select_alternative().arabic_no_context_with_digit().get().to_string(), "\x1b[18 ]");
}

#[test]
fn select_alternative_arabic_no_context() {
    assert_eq!(select_alternative().arabic_no_context().get().to_string(), "\x1b[19 ]");
}

#[test]
fn select_alternative_device_digit() {
    assert_eq!(select_alternative().device_digit().get().to_string(), "\x1b[20 ]");
}

#[test]
fn select_alternative_character_establish() {
    assert_eq!(select_alternative().character_establish().get().to_string(), "\x1b[21 ]");
}

#[test]
fn select_alternative_character_cancel() {
    assert_eq!(select_alternative().character_cancel().get().to_string(), "\x1b[22 ]");
}

#[test]
fn select_graphic_default() {
    assert_eq!(select_graphic().default().get().to_string(), "\x1b[0m");
}

#[test]
fn select_graphic_bold() {
    assert_eq!(select_graphic().bold().get().to_string(), "\x1b[1m");
}

#[test]
fn select_graphic_faint() {
    assert_eq!(select_graphic().faint().get().to_string(), "\x1b[2m");
}

#[test]
fn select_graphic_italic() {
    assert_eq!(select_graphic().italic().get().to_string(), "\x1b[3m");
}

#[test]
fn select_graphic_underline() {
    assert_eq!(select_graphic().underline().get().to_string(), "\x1b[4m");
}

#[test]
fn select_graphic_slow_blink() {
    assert_eq!(select_graphic().slow_blink().get().to_string(), "\x1b[5m");
}

#[test]
fn select_graphic_fast_blink() {
    assert_eq!(select_graphic().fast_blink().get().to_string(), "\x1b[6m");
}

#[test]
fn select_graphic_negative() {
    assert_eq!(select_graphic().negative().get().to_string(), "\x1b[7m");
}

#[test]
fn select_graphic_conceal() {
    assert_eq!(select_graphic().conceal().get().to_string(), "\x1b[8m");
}

#[test]
fn select_graphic_cross() {
    assert_eq!(select_graphic().cross().get().to_string(), "\x1b[9m");
}

#[test]
fn select_graphic_primary_font() {
    assert_eq!(select_graphic().primary_font().get().to_string(), "\x1b[10m");
}

#[test]
fn select_graphic_alter1_font() {
    assert_eq!(select_graphic().alter1_font().get().to_string(), "\x1b[11m");
}

#[test]
fn select_graphic_alter2_font() {
    assert_eq!(select_graphic().alter2_font().get().to_string(), "\x1b[12m");
}

#[test]
fn select_graphic_alter3_font() {
    assert_eq!(select_graphic().alter3_font().get().to_string(), "\x1b[13m");
}

#[test]
fn select_graphic_alter4_font() {
    assert_eq!(select_graphic().alter4_font().get().to_string(), "\x1b[14m");
}

#[test]
fn select_graphic_alter5_font() {
    assert_eq!(select_graphic().alter5_font().get().to_string(), "\x1b[15m");
}

#[test]
fn select_graphic_alter6_font() {
    assert_eq!(select_graphic().alter6_font().get().to_string(), "\x1b[16m");
}

#[test]
fn select_graphic_alter7_font() {
    assert_eq!(select_graphic().alter7_font().get().to_string(), "\x1b[17m");
}

#[test]
fn select_graphic_alter8_font() {
    assert_eq!(select_graphic().alter8_font().get().to_string(), "\x1b[18m");
}

#[test]
fn select_graphic_alter9_font() {
    assert_eq!(select_graphic().alter9_font().get().to_string(), "\x1b[19m");
}

#[test]
fn select_graphic_gothic_font() {
    assert_eq!(select_graphic().gothic_font().get().to_string(), "\x1b[20m");
}

#[test]
fn select_graphic_double_underline() {
    assert_eq!(select_graphic().double_underline().get().to_string(), "\x1b[21m");
}

#[test]
fn select_graphic_not_bold_or_faint() {
    assert_eq!(select_graphic().not_bold_or_faint().get().to_string(), "\x1b[22m");
}

#[test]
fn select_graphic_not_italic() {
    assert_eq!(select_graphic().not_italic().get().to_string(), "\x1b[23m");
}

#[test]
fn select_graphic_not_underline() {
    assert_eq!(select_graphic().not_underline().get().to_string(), "\x1b[24m");
}

#[test]
fn select_graphic_not_blink() {
    assert_eq!(select_graphic().not_blink().get().to_string(), "\x1b[25m");
}

#[test]
fn select_graphic_not_negative() {
    assert_eq!(select_graphic().not_negative().get().to_string(), "\x1b[27m");
}

#[test]
fn select_graphic_not_conceal() {
    assert_eq!(select_graphic().not_conceal().get().to_string(), "\x1b[28m");
}

#[test]
fn select_graphic_not_cross() {
    assert_eq!(select_graphic().not_cross().get().to_string(), "\x1b[29m");
}

#[test]
fn select_graphic_fg_black() {
    assert_eq!(select_graphic().fg_black().get().to_string(), "\x1b[30m");
}

#[test]
fn select_graphic_fg_red() {
    assert_eq!(select_graphic().fg_red().get().to_string(), "\x1b[31m");
}

#[test]
fn select_graphic_fg_green() {
    assert_eq!(select_graphic().fg_green().get().to_string(), "\x1b[32m");
}

#[test]
fn select_graphic_fg_yellow() {
    assert_eq!(select_graphic().fg_yellow().get().to_string(), "\x1b[33m");
}

#[test]
fn select_graphic_fg_blue() {
    assert_eq!(select_graphic().fg_blue().get().to_string(), "\x1b[34m");
}

#[test]
fn select_graphic_fg_magenta() {
    assert_eq!(select_graphic().fg_magenta().get().to_string(), "\x1b[35m");
}

#[test]
fn select_graphic_fg_cyan() {
    assert_eq!(select_graphic().fg_cyan().get().to_string(), "\x1b[36m");
}

#[test]
fn select_graphic_fg_gray() {
    assert_eq!(select_graphic().fg_gray().get().to_string(), "\x1b[37m");
}

#[test]
fn select_graphic_fg_color() {
    assert_eq!(select_graphic().fg_color().get().to_string(), "\x1b[38m");
}

#[test]
fn select_graphic_fg_default() {
    assert_eq!(select_graphic().fg_default().get().to_string(), "\x1b[39m");
}

#[test]
fn select_graphic_bg_black() {
    assert_eq!(select_graphic().bg_black().get().to_string(), "\x1b[40m");
}

#[test]
fn select_graphic_bg_red() {
    assert_eq!(select_graphic().bg_red().get().to_string(), "\x1b[41m");
}

#[test]
fn select_graphic_bg_green() {
    assert_eq!(select_graphic().bg_green().get().to_string(), "\x1b[42m");
}

#[test]
fn select_graphic_bg_yellow() {
    assert_eq!(select_graphic().bg_yellow().get().to_string(), "\x1b[43m");
}

#[test]
fn select_graphic_bg_blue() {
    assert_eq!(select_graphic().bg_blue().get().to_string(), "\x1b[44m");
}

#[test]
fn select_graphic_bg_magenta() {
    assert_eq!(select_graphic().bg_magenta().get().to_string(), "\x1b[45m");
}

#[test]
fn select_graphic_bg_cyan() {
    assert_eq!(select_graphic().bg_cyan().get().to_string(), "\x1b[46m");
}

#[test]
fn select_graphic_bg_gray() {
    assert_eq!(select_graphic().bg_gray().get().to_string(), "\x1b[47m");
}

#[test]
fn select_graphic_bg_color() {
    assert_eq!(select_graphic().bg_color().get().to_string(), "\x1b[48m");
}

#[test]
fn select_graphic_bg_default() {
    assert_eq!(select_graphic().bg_default().get().to_string(), "\x1b[49m");
}

#[test]
fn select_graphic_frame() {
    assert_eq!(select_graphic().frame().get().to_string(), "\x1b[51m");
}

#[test]
fn select_graphic_encircle() {
    assert_eq!(select_graphic().encircle().get().to_string(), "\x1b[52m");
}

#[test]
fn select_graphic_overline() {
    assert_eq!(select_graphic().overline().get().to_string(), "\x1b[53m");
}

#[test]
fn select_graphic_not_frame_not_encircle() {
    assert_eq!(select_graphic().not_frame_not_encircle().get().to_string(), "\x1b[54m");
}

#[test]
fn select_graphic_not_overline() {
    assert_eq!(select_graphic().not_overline().get().to_string(), "\x1b[55m");
}

#[test]
fn select_graphic_ideogram_underline() {
    assert_eq!(select_graphic().ideogram_underline().get().to_string(), "\x1b[60m");
}

#[test]
fn select_graphic_ideogram_double_underline() {
    assert_eq!(select_graphic().ideogram_double_underline().get().to_string(), "\x1b[61m");
}

#[test]
fn select_graphic_ideogram_overline() {
    assert_eq!(select_graphic().ideogram_overline().get().to_string(), "\x1b[62m");
}

#[test]
fn select_graphic_ideogram_double_overline() {
    assert_eq!(select_graphic().ideogram_double_overline().get().to_string(), "\x1b[63m");
}

#[test]
fn select_graphic_ideogram_stress_marking() {
    assert_eq!(select_graphic().ideogram_stress_marking().get().to_string(), "\x1b[64m");
}

#[test]
fn select_graphic_ideogram_cancel() {
    assert_eq!(select_graphic().ideogram_cancel().get().to_string(), "\x1b[65m");
}
