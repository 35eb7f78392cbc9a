//! This module provides control function to change the presentation.

use vstd::prelude::*;
use crate::control::{borrowed, control_text, texts, ControlSequence};
use crate::decimal::{digits, render};
use crate::escape::{escape, EscapeSequence};

verus! {

/// # Break permitted here
///
/// BPH is used to indicate a point where a line break may occur when text is formatted. BPH may occur
/// between two graphic characters, either or both of which may be SPACE.
#[allow(non_snake_case)]
pub fn BPH() -> (sequence: EscapeSequence)
    ensures
        sequence@ == 'B',
{
    escape('B')
}

/// # No break here
///
/// NBH is used to indicate a point where a line break shall not occur when text is formatted. NBH may
/// occur between two graphic characters either or both of which may be SPACE.
#[allow(non_snake_case)]
pub fn NBH() -> (sequence: EscapeSequence)
    ensures
        sequence@ == 'C',
{
    escape('C')
}

/// # DTA - Dimension text area
///
/// DTA is used to establish the dimensions of the text area for subsequent pages.
/// The established dimensions remain in effect until the next occurrence of DTA in the data stream.
///  - `l` specifies the dimension in the direction perpendicular to the line orientation.
///  - `c` specifies the dimension in the direction parallel to the line orientation.
///
/// The unit in which the parameter value is expressed is that established by the parameter value of SELECT
/// SIZE UNIT (SSU).
pub fn dimension_text(l: usize, c: usize) -> (sequence: ControlSequence)
    ensures
        sequence@.parameters == seq![digits(l as nat), digits(c as nat)],
        sequence@.final_bytes == seq![' ', 'T'],
{
    proof {
        reveal_strlit(" T");
    }
    ControlSequence::new(&[&render(l), &render(c)], " T")
}

/// # FNT - Font selection
///
/// FNT is used to identify the character font to be selected as primary or alternative font by subsequent
/// occurrences of SELECT GRAPHIC RENDITION (SGR) in the data stream.
pub fn select_font(font: Font) -> (sequence: ControlSequence)
    ensures
        sequence@.parameters == seq![digits(font.code()), digits(0)],
        sequence@.final_bytes == seq![' ', 'D'],
{
    proof {
        reveal_strlit(" D");
    }
    ControlSequence::new(&[&font.to_string(), &render(0)], " D")
}

#[derive(Copy, Clone, Debug)]
pub enum Font {
    Primary,
    Alternative1,
    Alternative2,
    Alternative3,
    Alternative4,
    Alternative5,
    Alternative6,
    Alternative7,
    Alternative8,
    Alternative9,
}

impl Font {
    /// The parameter value that the standard assigns to each variant.
    pub open spec fn code(&self) -> nat {
        match self {
            Self::Primary => 0,
            Self::Alternative1 => 1,
            Self::Alternative2 => 2,
            Self::Alternative3 => 3,
            Self::Alternative4 => 4,
            Self::Alternative5 => 5,
            Self::Alternative6 => 6,
            Self::Alternative7 => 7,
            Self::Alternative8 => 8,
            Self::Alternative9 => 9,
        }
    }

    /// The parameter text: the code of the variant in decimal.
    pub fn to_string(&self) -> (text: String)
        ensures
            text@ == digits(self.code()),
    {
        let code: usize = match self {
            Self::Primary => 0,
            Self::Alternative1 => 1,
            Self::Alternative2 => 2,
            Self::Alternative3 => 3,
            Self::Alternative4 => 4,
            Self::Alternative5 => 5,
            Self::Alternative6 => 6,
            Self::Alternative7 => 7,
            Self::Alternative8 => 8,
            Self::Alternative9 => 9,
        };
        render(code)
    }

    /// No two variants share a code.
    pub proof fn lemma_codes_distinct(a: Self, b: Self)
        requires
            a != b,
        ensures
            a.code() != b.code(),
    {
    }
}

/// # GCC - Graphic character combination
///
/// GCC is used to indicate that two or more graphic characters are to be imaged as one single graphic
/// symbol. GCC with a parameter value of 0 indicates that the following two graphic characters are to be
/// imaged as one single graphic symbol; GCC with a parameter value of 1 and GCC with a parameter value
/// of 2 indicate respectively the beginning and the end of a string of graphic characters which are to be
/// imaged as one single graphic symbol.
///
/// ### Note
/// GCC does not explicitly specify the relative sizes or placements of the component parts of a composite
/// graphic symbol. In the simplest case, two components may be "half-width" and side-by-side. For
/// example, in Japanese text a pair of characters may be presented side-by-side, and occupy the space of a
/// normal-size Kanji character.
pub fn character_combination(combination: Combination) -> (sequence: ControlSequence)
    ensures
        sequence@.parameters == seq![digits(combination.code())],
        sequence@.final_bytes == seq![' ', '_'],
{
    proof {
        reveal_strlit(" _");
    }
    ControlSequence::new(&[&combination.to_string()], " _")
}

#[derive(Copy, Clone, Debug)]
pub enum Combination {
    Two,
    Start,
    End,
}

impl Combination {
    /// The parameter value that the standard assigns to each variant.
    pub open spec fn code(&self) -> nat {
        match self {
            Self::Two => 0,
            Self::Start => 1,
            Self::End => 2,
        }
    }

    /// The parameter text: the code of the variant in decimal.
    pub fn to_string(&self) -> (text: String)
        ensures
            text@ == digits(self.code()),
    {
        let code: usize = match self {
            Self::Two => 0,
            Self::Start => 1,
            Self::End => 2,
        };
        render(code)
    }

    /// No two variants share a code.
    pub proof fn lemma_codes_distinct(a: Self, b: Self)
        requires
            a != b,
        ensures
            a.code() != b.code(),
    {
    }
}

/// # GSM - Graphic size modification
///
/// GSM is used to modify for subsequent text the height and/or the width of all primary and alternative
/// fonts identified by FONT SELECTION (FNT) and established by GRAPHIC SIZE SELECTION (GSS).
///
/// The established values remain in effect until the next occurrence of GSM or GSS in the data steam.
///
/// `height` and `width` are percentage of values established by GSS ([select_size]).
pub fn modify_size(height: usize, width: usize) -> (sequence: ControlSequence)
    ensures
        sequence@.parameters == seq![digits(height as nat), digits(width as nat)],
        sequence@.final_bytes == seq![' ', 'B'],
{
    proof {
        reveal_strlit(" B");
    }
    ControlSequence::new(&[&render(height), &render(width)], " B")
}

/// # GSS - Graphic size selection
///
/// GSS is used to establish for subsequent text the height and the width of all primary and alternative fonts
/// identified by FONT SELECTION (FNT). The established values remain in effect until the next
/// occurrence of GSS in the data stream.
///
/// `n` specifies the height, the width is implicitly defined by the height.
///
/// The unit in which the parameter value is expressed is that established by the parameter value of SELECT
/// SIZE UNIT (SSU).
pub fn select_size(n: usize) -> (sequence: ControlSequence)
    ensures
        sequence@.parameters == seq![digits(n as nat)],
        sequence@.final_bytes == seq![' ', 'C'],
{
    proof {
        reveal_strlit(" C");
    }
    ControlSequence::new(&[&render(n)], " C")
}

/// # JFY - Justify
///
/// JFY is used to indicate the beginning of a string of graphic characters in the presentation component that
/// are to be justified according to the layout specified by the parameter values.
///
/// The end of the string to be justified is indicated by the next occurrence of JFY in the data stream.
pub fn justify(modes: &[JustifyMode]) -> (sequence: ControlSequence)
    ensures
        sequence@.parameters == Seq::new(modes@.len(), |i: int| digits(modes@[i].code())),
        sequence@.final_bytes == seq![' ', 'F'],
{
    proof {
        reveal_strlit(" F");
    }
    let mut str_modes: Vec<String> = Vec::new();
    let mut i: usize = 0;
    while i < modes.len()
        invariant
            i <= modes.len(),
            str_modes@.len() == i,
            forall|k: int| 0 <= k < i ==> (#[trigger] str_modes@[k])@ == digits(modes@[k].code()),
        decreases modes.len() - i,
    {
        str_modes.push(modes[i].to_string());
        i += 1;
    }
    ControlSequence::new(borrowed(&str_modes).as_slice(), " F")
}

#[derive(Copy, Clone, Debug)]
pub enum JustifyMode {
    /// No justification, end of justification of preceding text.
    NoJustification,
    WordFill,
    WordSpace,
    LetterSpace,
    Hyphen,
    /// Flush to line home position margin.
    FlushHome,
    /// Centre between line home position and line limit position margins.
    Center,
    /// Flush to line limit position margin.
    FlushLimit,
    ItalianHyphen,
}

impl JustifyMode {
    /// The parameter value that the standard assigns to each variant.
    pub open spec fn code(&self) -> nat {
        match self {
            Self::NoJustification => 0,
            Self::WordFill => 1,
            Self::WordSpace => 2,
            Self::LetterSpace => 3,
            Self::Hyphen => 4,
            Self::FlushHome => 5,
            Self::Center => 6,
            Self::FlushLimit => 7,
            Self::ItalianHyphen => 8,
        }
    }

    /// The parameter text: the code of the variant in decimal.
    pub fn to_string(&self) -> (text: String)
        ensures
            text@ == digits(self.code()),
    {
        let code: usize = match self {
            Self::NoJustification => 0,
            Self::WordFill => 1,
            Self::WordSpace => 2,
            Self::LetterSpace => 3,
            Self::Hyphen => 4,
            Self::FlushHome => 5,
            Self::Center => 6,
            Self::FlushLimit => 7,
            Self::ItalianHyphen => 8,
        };
        render(code)
    }

    /// No two variants share a code.
    pub proof fn lemma_codes_distinct(a: Self, b: Self)
        requires
            a != b,
        ensures
            a.code() != b.code(),
    {
    }
}

/// # PEC - Presentation expand or contract
///
/// PEC is used to establish the spacing and the extent of the graphic characters for subsequent text. The
/// spacing is specified in the line as multiples of the spacing established by the most recent occurrence of
/// SET CHARACTER SPACING (SCS) or of SELECT CHARACTER SPACING (SHS) or of SPACING
/// INCREMENT (SPI) in the data stream. The extent of the characters is implicitly established by these
/// control functions. The established spacing and the extent remain in effect until the next occurrence of
/// PEC, of SCS, of SHS or of SPI in the data stream.
pub fn expand_or_condense(expansion: Expansion) -> (sequence: ControlSequence)
    ensures
        sequence@.parameters == seq![digits(expansion.code())],
        sequence@.final_bytes == seq![' ', 'Z'],
{
    proof {
        reveal_strlit(" Z");
    }
    ControlSequence::new(&[&expansion.to_string()], " Z")
}

#[derive(Copy, Clone, Debug)]
pub enum Expansion {
    Normal,
    Expanded,
    Condensed,
}

impl Expansion {
    /// The parameter value that the standard assigns to each variant.
    pub open spec fn code(&self) -> nat {
        match self {
            Self::Normal => 0,
            Self::Expanded => 1,
            Self::Condensed => 2,
        }
    }

    /// The parameter text: the code of the variant in decimal.
    pub fn to_string(&self) -> (text: String)
        ensures
            text@ == digits(self.code()),
    {
        let code: usize = match self {
            Self::Normal => 0,
            Self::Expanded => 1,
            Self::Condensed => 2,
        };
        render(code)
    }

    /// No two variants share a code.
    pub proof fn lemma_codes_distinct(a: Self, b: Self)
        requires
            a != b,
        ensures
            a.code() != b.code(),
    {
    }
}

/// # PFS - Page format selection
///
/// PFS is used to establish the available area for the imaging of pages of text based on paper size. The
/// pages are introduced by the subsequent occurrence of FORM FEED (FF) in the data stream.
///
/// The established image area remains in effect until the next occurrence of PFS in the data stream.
///
/// The page home position is established by the parameter value of SET PAGE HOME (SPH), the page
/// limit position is established by the parameter value of SET PAGE LIMIT (SPL).
pub fn select_page_format(page_format: PageFormat) -> (sequence: ControlSequence)
    ensures
        sequence@.parameters == seq![digits(page_format.code())],
        sequence@.final_bytes == seq![' ', 'J'],
{
    proof {
        reveal_strlit(" J");
    }
    ControlSequence::new(&[&page_format.to_string()], " J")
}

#[derive(Copy, Clone, Debug)]
pub enum PageFormat {
    TallText,
    WideText,
    TallA4,
    WideA4,
    TallLetter,
    WideLetter,
    TallExtA4,
    WideExtA4,
    TallLegal,
    WideLegal,
    A4ShortLines,
    A4LongLines,
    B5ShortLines,
    B5LongLines,
    B4ShortLines,
    B4LongLines,
}

impl PageFormat {
    /// The parameter value that the standard assigns to each variant.
    pub open spec fn code(&self) -> nat {
        match self {
            Self::TallText => 0,
            Self::WideText => 1,
            Self::TallA4 => 2,
            Self::WideA4 => 3,
            Self::TallLetter => 4,
            Self::WideLetter => 5,
            Self::TallExtA4 => 6,
            Self::WideExtA4 => 7,
            Self::TallLegal => 8,
            Self::WideLegal => 9,
            Self::A4ShortLines => 10,
            Self::A4LongLines => 11,
            Self::B5ShortLines => 12,
            Self::B5LongLines => 13,
            Self::B4ShortLines => 14,
            Self::B4LongLines => 15,
        }
    }

    /// The parameter text: the code of the variant in decimal.
    pub fn to_string(&self) -> (text: String)
        ensures
            text@ == digits(self.code()),
    {
        let code: usize = match self {
            Self::TallText => 0,
            Self::WideText => 1,
            Self::TallA4 => 2,
            Self::WideA4 => 3,
            Self::TallLetter => 4,
            Self::WideLetter => 5,
            Self::TallExtA4 => 6,
            Self::WideExtA4 => 7,
            Self::TallLegal => 8,
            Self::WideLegal => 9,
            Self::A4ShortLines => 10,
            Self::A4LongLines => 11,
            Self::B5ShortLines => 12,
            Self::B5LongLines => 13,
            Self::B4ShortLines => 14,
            Self::B4LongLines => 15,
        };
        render(code)
    }

    /// No two variants share a code.
    pub proof fn lemma_codes_distinct(a: Self, b: Self)
        requires
            a != b,
        ensures
            a.code() != b.code(),
    {
    }
}

/// # PTX - Parallel texts
///
/// PTX is used to delimit strings of graphic characters that are communicated one after another in the data
/// stream but that are intended to be presented in parallel with one another, usually in adjacent lines.
///
/// PTX with a parameter value of 1 indicates the beginning of the string of principal text intended to be
/// presented in parallel with one or more strings of supplementary text.
///
/// PTX with a parameter value of 2, 3 or 4 indicates the beginning of a string of supplementary text that is
/// intended to be presented in parallel with either a string of principal text or the immediately preceding
/// string of supplementary text, if any; at the same time it indicates the end of the preceding string of
/// principal text or of the immediately preceding string of supplementary text, if any. The end of a string of
/// supplementary text is indicated by a subsequent occurrence of PTX with a parameter value other than 1.
/// PTX with a parameter value of 0 indicates the end of the strings of text intended to be presented in
/// parallel with one another.
///
///### Note
/// PTX does not explicitly specify the relative placement of the strings of principal and supplementary
/// parallel texts, or the relative sizes of graphic characters in the strings of parallel text. A string of
/// supplementary text is normally presented in a line adjacent to the line containing the string of principal
/// text, or adjacent to the line containing the immediately preceding string of supplementary text, if any.
/// The first graphic character of the string of principal text and the first graphic character of a string of
/// supplementary text are normally presented in the same position of their respective lines. However, a
/// string of supplementary text longer (when presented) than the associated string of principal text may be
/// centred on that string. In the case of long strings of text, such as paragraphs in different languages, the
/// strings may be presented in successive lines in parallel columns, with their beginnings aligned with one
/// another and the shorter of the paragraphs followed by an appropriate amount of "white space".
///
/// Japanese phonetic annotation typically consists of a few half-size or smaller Kana characters which
/// indicate the pronunciation or interpretation of one or more Kanji characters and are presented above
/// those Kanji characters if the character path is horizontal, or to the right of them if the character path is
/// vertical.
///
/// Chinese phonetic annotation typically consists of a few Pinyin characters which indicate the
/// pronunciation of one or more Hanzi characters and are presented above those Hanzi characters.
/// Alternatively, the Pinyin characters may be presented in the same line as the Hanzi characters and
/// following the respective Hanzi characters. The Pinyin characters will then be presented within enclosing
/// pairs of parentheses
pub fn parallel_texts(text_delimiter: TextDelimiter) -> (sequence: ControlSequence)
    ensures
        sequence@.parameters == seq![digits(text_delimiter.code())],
        sequence@.final_bytes == seq!['\\'],
{
    proof {
        reveal_strlit("\\");
    }
    ControlSequence::new(&[&text_delimiter.to_string()], "\\")
}

#[derive(Copy, Clone, Debug)]
pub enum TextDelimiter {
    End,
    BeginPrincipal,
    BeginSupplementary,
    BeginSupplementaryPhoneticJapanese,
    BeginSupplementaryPhoneticChinese,
    EndPhonetic,
}

impl TextDelimiter {
    /// The parameter value that the standard assigns to each variant.
    pub open spec fn code(&self) -> nat {
        match self {
            Self::End => 0,
            Self::BeginPrincipal => 1,
            Self::BeginSupplementary => 2,
            Self::BeginSupplementaryPhoneticJapanese => 3,
            Self::BeginSupplementaryPhoneticChinese => 4,
            Self::EndPhonetic => 5,
        }
    }

    /// The parameter text: the code of the variant in decimal.
    pub fn to_string(&self) -> (text: String)
        ensures
            text@ == digits(self.code()),
    {
        let code: usize = match self {
            Self::End => 0,
            Self::BeginPrincipal => 1,
            Self::BeginSupplementary => 2,
            Self::BeginSupplementaryPhoneticJapanese => 3,
            Self::BeginSupplementaryPhoneticChinese => 4,
            Self::EndPhonetic => 5,
        };
        render(code)
    }

    /// No two variants share a code.
    pub proof fn lemma_codes_distinct(a: Self, b: Self)
        requires
            a != b,
        ensures
            a.code() != b.code(),
    {
    }
}

/// # QUAD
///
/// QUAD is used to indicate the end of a string of graphic characters that are to be positioned on a single
/// line according to the layout specified.
///
/// The beginning of the string to be positioned is indicated by the preceding occurrence in the data stream
/// of either QUAD or one of the following formator functions: FORM FEED (FF), CHARACTER AND
/// LINE POSITION (HVP), LINE FEED (LF), NEXT LINE (NEL), PAGE POSITION ABSOLUTE (PPA),
/// PAGE POSITION BACKWARD (PPB), PAGE POSITION FORWARD (PPR), REVERSE LINE FEED
/// (RI), LINE POSITION ABSOLUTE (VPA), LINE POSITION BACKWARD (VPB), LINE POSITION
/// FORWARD (VPR), or LINE TABULATION (VT).
///
/// The line home position is established by the parameter value of SET LINE HOME (SLH). The line limit
/// position is established by the parameter value of SET LINE LIMIT (SLL).
pub fn quad(layouts: &[Layout]) -> (sequence: ControlSequence)
    ensures
        sequence@.parameters == Seq::new(layouts@.len(), |i: int| digits(layouts@[i].code())),
        sequence@.final_bytes == seq![' ', 'H'],
{
    proof {
        reveal_strlit(" H");
    }
    let mut str_layouts: Vec<String> = Vec::new();
    let mut i: usize = 0;
    while i < layouts.len()
        invariant
            i <= layouts.len(),
            str_layouts@.len() == i,
            forall|k: int|
                0 <= k < i ==> (#[trigger] str_layouts@[k])@ == digits(layouts@[k].code()),
        decreases layouts.len() - i,
    {
        str_layouts.push(layouts[i].to_string());
        i += 1;
    }
    ControlSequence::new(borrowed(&str_layouts).as_slice(), " H")
}

#[derive(Copy, Clone, Debug)]
pub enum Layout {
    FlushHome,
    FlushHomeAndFill,
    Center,
    CenterAndFill,
    FlushLimit,
    FlushLimitAndFill,
    FlushBoth,
}

impl Layout {
    /// The parameter value that the standard assigns to each variant.
    pub open spec fn code(&self) -> nat {
        match self {
            Self::FlushHome => 0,
            Self::FlushHomeAndFill => 1,
            Self::Center => 2,
            Self::CenterAndFill => 3,
            Self::FlushLimit => 4,
            Self::FlushLimitAndFill => 5,
            Self::FlushBoth => 6,
        }
    }

    /// The parameter text: the code of the variant in decimal.
    pub fn to_string(&self) -> (text: String)
        ensures
            text@ == digits(self.code()),
    {
        let code: usize = match self {
            Self::FlushHome => 0,
            Self::FlushHomeAndFill => 1,
            Self::Center => 2,
            Self::CenterAndFill => 3,
            Self::FlushLimit => 4,
            Self::FlushLimitAndFill => 5,
            Self::FlushBoth => 6,
        };
        render(code)
    }

    /// No two variants share a code.
    pub proof fn lemma_codes_distinct(a: Self, b: Self)
        requires
            a != b,
        ensures
            a.code() != b.code(),
    {
    }
}

/// # REP - Repeat
///
/// REP is used to indicate that the preceding character in the data stream, if it is a graphic character
/// (represented by one or more bit combinations) including SPACE, is to be repeated `n` times.
///
/// If the character preceding REP is a control function or part of a control function,
/// the effect of REP is not defined by this Standard.
pub fn repeat(n: usize) -> (sequence: ControlSequence)
    ensures
        sequence@.parameters == seq![digits(n as nat)],
        sequence@.final_bytes == seq!['b'],
{
    proof {
        reveal_strlit("b");
    }
    ControlSequence::new(&[&render(n)], "b")
}

/// # SACS - Set additional character separation
///
/// SACS is used to establish extra inter-character escapement for subsequent text. The established extra
/// escapement remains in effect until the next occurrence of SACS or of SET REDUCED CHARACTER
/// SEPARATION (SRCS) in the data stream or until it is reset to the default value by a subsequent
/// occurrence of CARRIAGE RETURN/LINE FEED (CR LF) or of NEXT LINE (NEL) in the data stream.
///
/// `n` specifies the number of units by which the inter-character escapement is enlarged.
///
/// The unit in which the parameter value is expressed is that established by the parameter value of SELECT
/// SIZE UNIT (SSU).
pub fn add_separation(n: usize) -> (sequence: ControlSequence)
    ensures
        sequence@.parameters == seq![digits(n as nat)],
        sequence@.final_bytes == seq![' ', '\\'],
{
    proof {
        reveal_strlit(" \\");
    }
    ControlSequence::new(&[&render(n)], " \\")
}

/// # SAPV - Select alternative presentation variants
///
/// SAPV is used to specify one or more variants for the presentation of subsequent text.
pub fn select_alternative() -> (variant: PresentationVariant)
    ensures
        variant@ == Seq::<Seq<char>>::empty(),
{
    PresentationVariant::new()
}

/// The presentation variants selected for one `SAPV` control sequence, in the order of
/// selection. Every method that selects one appends its code; nothing is checked and
/// nothing is removed, so the sequence carries each code as often as it was selected.
pub struct PresentationVariant {
    modes: Vec<String>,
}

impl Clone for PresentationVariant {
    /// The copy holds the same parameters, in the same order.
    fn clone(&self) -> (variant: Self)
        ensures
            variant@ == self@,
    {
        let variant = Self { modes: self.modes.clone() };
        assert(variant@ =~= self@);
        variant
    }
}

impl View for PresentationVariant {
    type V = Seq<Seq<char>>;

    /// The parameters selected so far, in the order of selection.
    closed spec fn view(&self) -> Seq<Seq<char>> {
        texts(self.modes@)
    }
}

impl PresentationVariant {
    /// Starts with nothing selected.
    pub fn new() -> (variant: Self)
        ensures
            variant@ == Seq::<Seq<char>>::empty(),
    {
        Self { modes: Vec::new() }
    }

    /// Default presentation (implementation-defined); cancels the effect of any preceding occurrence of
    /// SAPV in the data stream.
    pub fn default(&mut self) -> (variant: &mut Self)
        ensures
            variant@ == old(self)@.push(digits(0)),
            *final(self) == *final(variant),
    {
        self.add(0)
    }

    /// The decimal digits are presented by means of the graphic symbols used in the Latin script.
    pub fn latin_decimal(&mut self) -> (variant: &mut Self)
        ensures
            variant@ == old(self)@.push(digits(1)),
            *final(self) == *final(variant),
    {
        self.add(1)
    }

    /// The decimal digits are presented by means of the graphic symbols used in the Arabic script, i.e. the Hindi symbols.
    pub fn arabic_decimal(&mut self) -> (variant: &mut Self)
        ensures
            variant@ == old(self)@.push(digits(2)),
            *final(self) == *final(variant),
    {
        self.add(2)
    }

    /// When the direction of the character path is right-to-left, each of the graphic characters in the graphic
    /// character set(s) in use which is one of a left/right-handed pair (parentheses, square brackets, curly
    /// brackets, greater-than/less-than signs, etc.) is presented as "mirrored", i.e. as the other member of the
    /// pair. For example, the coded graphic character given the name LEFT PARENTHESIS is presented as
    /// RIGHT PARENTHESIS, and vice versa.
    pub fn mirror_horizontal(&mut self) -> (variant: &mut Self)
        ensures
            variant@ == old(self)@.push(digits(3)),
            *final(self) == *final(variant),
    {
        self.add(3)
    }

    /// When the direction of the character path is right-to-left, all graphic characters which represent
    /// operators and delimiters in mathematical formulae and which are not symmetrical about a vertical
    /// axis are presented as mirrored about that vertical axis.
    pub fn mirror_vertical(&mut self) -> (variant: &mut Self)
        ensures
            variant@ == old(self)@.push(digits(4)),
            *final(self) == *final(variant),
    {
        self.add(4)
    }

    /// The following graphic character is presented in its isolated form.
    pub fn character_isolate(&mut self) -> (variant: &mut Self)
        ensures
            variant@ == old(self)@.push(digits(5)),
            *final(self) == *final(variant),
    {
        self.add(5)
    }

    /// The following graphic character is presented in its initial form.
    pub fn character_initial(&mut self) -> (variant: &mut Self)
        ensures
            variant@ == old(self)@.push(digits(6)),
            *final(self) == *final(variant),
    {
        self.add(6)
    }

    /// The following graphic character is presented in its medial form.
    pub fn character_medial(&mut self) -> (variant: &mut Self)
        ensures
            variant@ == old(self)@.push(digits(7)),
            *final(self) == *final(variant),
    {
        self.add(7)
    }

    /// The following graphic character is presented in its final form.
    pub fn character_final(&mut self) -> (variant: &mut Self)
        ensures
            variant@ == old(self)@.push(digits(8)),
            *final(self) == *final(variant),
    {
        self.add(8)
    }

    /// Where the bit combination 0x2E is intended to represent a decimal mark in a decimal number it shall
    /// be presented by means of the graphic symbol FULL STOP.
    pub fn decimal_stop(&mut self) -> (variant: &mut Self)
        ensures
            variant@ == old(self)@.push(digits(9)),
            *final(self) == *final(variant),
    {
        self.add(9)
    }

    /// Where the bit combination 0x2E is intended to represent a decimal mark in a decimal number it shall
    /// be presented by means of the graphic symbol COMMA.
    pub fn decimal_comma(&mut self) -> (variant: &mut Self)
        ensures
            variant@ == old(self)@.push(digits(10)),
            *final(self) == *final(variant),
    {
        self.add(10)
    }

    /// Vowels are presented above or below the preceding character.
    pub fn vowel_above_or_below(&mut self) -> (variant: &mut Self)
        ensures
            variant@ == old(self)@.push(digits(11)),
            *final(self) == *final(variant),
    {
        self.add(11)
    }

    /// Vowels are presented after the preceding character.
    pub fn vowel_after(&mut self) -> (variant: &mut Self)
        ensures
            variant@ == old(self)@.push(digits(12)),
            *final(self) == *final(variant),
    {
        self.add(12)
    }

    /// Contextual shape determination of Arabic scripts, including the LAM-ALEPH ligature but excluding
    /// all other Arabic ligatures.
    pub fn arabic_ligature_aleph(&mut self) -> (variant: &mut Self)
        ensures
            variant@ == old(self)@.push(digits(13)),
            *final(self) == *final(variant),
    {
        self.add(13)
    }

    /// Contextual shape determination of Arabic scripts, excluding all Arabic ligatures.
    pub fn arabic_ligature_none(&mut self) -> (variant: &mut Self)
        ensures
            variant@ == old(self)@.push(digits(14)),
            *final(self) == *final(variant),
    {
        self.add(14)
    }

    /// Cancels the effect of parameter values [Self::mirror_horizontal] and [Self::mirror_vertical].
    pub fn no_mirror(&mut self) -> (variant: &mut Self)
        ensures
            variant@ == old(self)@.push(digits(15)),
            *final(self) == *final(variant),
    {
        self.add(15)
    }

    /// Vowels are not presented.
    pub fn no_vowel(&mut self) -> (variant: &mut Self)
        ensures
            variant@ == old(self)@.push(digits(16)),
            *final(self) == *final(variant),
    {
        self.add(16)
    }

    /// When the string direction is right-to-left, the italicized characters are slanted to the left; when the
    /// string direction is left-to-right, the italicized characters are slanted to the right.
    pub fn italic_direction(&mut self) -> (variant: &mut Self)
        ensures
            variant@ == old(self)@.push(digits(17)),
            *final(self) == *final(variant),
    {
        self.add(17)
    }

    /// Contextual shape determination of Arabic scripts is not used, the graphic characters - including the
    /// digits - are presented in the form they are stored (Pass-through).
    pub fn arabic_no_context_with_digit(&mut self) -> (variant: &mut Self)
        ensures
            variant@ == old(self)@.push(digits(18)),
            *final(self) == *final(variant),
    {
        self.add(18)
    }

    /// Contextual shape determination of Arabic scripts is not used, the graphic characters - excluding the
    /// digits - are presented in the form they are stored (Pass-through).
    pub fn arabic_no_context(&mut self) -> (variant: &mut Self)
        ensures
            variant@ == old(self)@.push(digits(19)),
            *final(self) == *final(variant),
    {
        self.add(19)
    }

    /// The graphic symbols used to present the decimal digits are device dependent.
    pub fn device_digit(&mut self) -> (variant: &mut Self)
        ensures
            variant@ == old(self)@.push(digits(20)),
            *final(self) == *final(variant),
    {
        self.add(20)
    }

    /// Establishes the effect of parameter values [Self::character_isolate], [Self::character_initial],
    /// [Self::character_medial], and [Self::character_final] for the following graphic characters until
    /// cancelled.
    pub fn character_establish(&mut self) -> (variant: &mut Self)
        ensures
            variant@ == old(self)@.push(digits(21)),
            *final(self) == *final(variant),
    {
        self.add(21)
    }

    /// Cancels the effect of parameter value [Self::character_establish], i.e. re-establishes the effect
    /// of parameter values [Self::character_isolate], [Self::character_initial],
    /// [Self::character_medial], and [Self::character_final] for the next single graphic character only.
    pub fn character_cancel(&mut self) -> (variant: &mut Self)
        ensures
            variant@ == old(self)@.push(digits(22)),
            *final(self) == *final(variant),
    {
        self.add(22)
    }

    /// The control sequence that carries what was selected so far, in the order of
    /// selection. The selection itself is left as it is.
    pub fn get(&self) -> (sequence: ControlSequence)
        ensures
            sequence@.parameters == self@,
            sequence@.final_bytes == seq![' ', ']'],
    {
        proof {
            reveal_strlit(" ]");
        }
        ControlSequence::new(borrowed(&self.modes).as_slice(), " ]")
    }

    /// Appends the decimal text of `code` to the parameters.
    pub(crate) fn add(&mut self, code: usize) -> (variant: &mut Self)
        ensures
            variant@ == old(self)@.push(digits(code as nat)),
            *final(self) == *final(variant),
    {
        self.modes.push(render(code));
        self
    }

    /// Renders the control sequence that [PresentationVariant::get] gives.
    pub fn to_string(&self) -> (text: String)
        ensures
            text@ == control_text(self@, seq![' ', ']']),
    {
        self.get().to_string()
    }
}

/// # SCO - Select character orientation
///
/// SCO is used to establish the amount of rotation of the graphic characters following in the data stream.
/// The established value remains in effect until the next occurrence of SCO in the data stream.
///
///
pub fn character_orientation(orientation: Orientation) -> (sequence: ControlSequence)
    ensures
        sequence@.parameters == seq![digits(orientation.code())],
        sequence@.final_bytes == seq![' ', 'e'],
{
    proof {
        reveal_strlit(" e");
    }
    ControlSequence::new(&[&orientation.to_string()], " e")
}

#[derive(Copy, Clone, Debug)]
pub enum Orientation {
    /// 0°
    North,
    /// 45°
    NorthWest,
    /// 90°
    West,
    /// 135°
    SouthWest,
    /// 180°
    South,
    /// 225°
    SouthEast,
    /// 270°
    East,
    /// 315°
    NorthEast,
}

impl Orientation {
    /// The parameter value that the standard assigns to each variant.
    pub open spec fn code(&self) -> nat {
        match self {
            Self::North => 0,
            Self::NorthWest => 1,
            Self::West => 2,
            Self::SouthWest => 3,
            Self::South => 4,
            Self::SouthEast => 5,
            Self::East => 6,
            Self::NorthEast => 7,
        }
    }

    /// The parameter text: the code of the variant in decimal.
    pub fn to_string(&self) -> (text: String)
        ensures
            text@ == digits(self.code()),
    {
        let code: usize = match self {
            Self::North => 0,
            Self::NorthWest => 1,
            Self::West => 2,
            Self::SouthWest => 3,
            Self::South => 4,
            Self::SouthEast => 5,
            Self::East => 6,
            Self::NorthEast => 7,
        };
        render(code)
    }

    /// No two variants share a code.
    pub proof fn lemma_codes_distinct(a: Self, b: Self)
        requires
            a != b,
        ensures
            a.code() != b.code(),
    {
    }
}

/// # SCP - Select character path
///
/// SCP is used to select the character path, relative to the line orientation, for the active line (the line that
/// contains the active presentation position) and subsequent lines in the presentation component. It is also
/// used to update the content of the active line in the presentation component and the content of the active
/// line (the line that contains the active data position) in the data component. This takes effect immediately.
pub fn character_path(path: CharacterPath, path_effect: PathEffect) -> (sequence: ControlSequence)
    ensures
        sequence@.parameters == seq![digits(path.code()), digits(path_effect.code())],
        sequence@.final_bytes == seq![' ', 'k'],
{
    proof {
        reveal_strlit(" k");
    }
    ControlSequence::new(&[&path.to_string(), &path_effect.to_string()], " k")
}

#[derive(Copy, Clone, Debug)]
pub enum CharacterPath {
    /// left-to-right (in the case of horizontal line orientation), or top-to-bottom (in the case of vertical line
    /// orientation).
    LeftToRight,

    /// right-to-left (in the case of horizontal line orientation), or bottom-to-top (in the case of vertical line
    /// orientation).
    RightToLeft,
}

impl CharacterPath {
    /// The parameter value that the standard assigns to each variant.
    pub open spec fn code(&self) -> nat {
        match self {
            Self::LeftToRight => 1,
            Self::RightToLeft => 2,
        }
    }

    /// The parameter text: the code of the variant in decimal.
    pub fn to_string(&self) -> (text: String)
        ensures
            text@ == digits(self.code()),
    {
        let code: usize = match self {
            Self::LeftToRight => 1,
            Self::RightToLeft => 2,
        };
        render(code)
    }

    /// No two variants share a code.
    pub proof fn lemma_codes_distinct(a: Self, b: Self)
        requires
            a != b,
        ensures
            a.code() != b.code(),
    {
    }
}

#[derive(Copy, Clone, Debug)]
pub enum PathEffect {
    /// Implementation dependant.
    Undefined,

    /// The content of the active line in the presentation component (the line that contains the active
    /// presentation position) is updated to correspond to the content of the active line in the data component
    /// (the line that contains the active data position) according to the newly established character path
    /// characteristics in the presentation component; the active data position is moved to the first character
    /// position in the active line in the data component, the active presentation position in the presentation
    /// component is updated accordingly.
    UpdatePresentation,

    /// The content of the active line in the data component (the line that contains the active data position) is
    /// updated to correspond to the content of the active line in the presentation component (the line that
    /// contains the active presentation position) according to the newly established character path
    /// characteristics of the presentation component; the active presentation position is moved to the first
    /// character position in the active line in the presentation component, the active data position in the data
    /// component is updated accordingly.
    UpdateData,
}

impl PathEffect {
    /// The parameter value that the standard assigns to each variant.
    pub open spec fn code(&self) -> nat {
        match self {
            Self::Undefined => 0,
            Self::UpdatePresentation => 1,
            Self::UpdateData => 2,
        }
    }

    /// The parameter text: the code of the variant in decimal.
    pub fn to_string(&self) -> (text: String)
        ensures
            text@ == digits(self.code()),
    {
        let code: usize = match self {
            Self::Undefined => 0,
            Self::UpdatePresentation => 1,
            Self::UpdateData => 2,
        };
        render(code)
    }

    /// No two variants share a code.
    pub proof fn lemma_codes_distinct(a: Self, b: Self)
        requires
            a != b,
        ensures
            a.code() != b.code(),
    {
    }
}

/// # SDS - Start directed string
///
/// SDS is used to establish in the data component the beginning and the end of a string of characters as
/// well as the direction of the string. This direction may be different from that currently established. The
/// indicated string follows the preceding text. The established character progression is not affected.
///
/// The beginning of a directed string is indicated by SDS with a parameter value not equal to 0. A directed
/// string may contain one or more nested strings. These nested strings may be directed strings the
/// beginnings of which are indicated by SDS with a parameter value not equal to 0, or reversed strings the
/// beginnings of which are indicated by START REVERSED STRING (SRS) with a parameter value of 1.
///
/// Every beginning of such a string invokes the next deeper level of nesting.
///
/// This Standard does not define the location of the active data position within any such nested string.
///
/// The end of a directed string is indicated by SDS with a parameter value of 0. Every end of such a string
/// re-establishes the next higher level of nesting (the one in effect prior to the string just ended). The
/// direction is re-established to that in effect prior to the string just ended. The active data position is
/// moved to the character position following the characters of the string just ended.
///
/// ### Note 1
/// The effect of receiving a CVT, HT, SCP, SPD or VT control function within an SDS string is not defined
/// by this Standard.
///
/// ### Note 2
/// The control functions for area definition (DAQ, EPA, ESA, SPA, SSA) should not be used within an SDS
/// string.
pub fn directed(string_direction: StringDirection) -> (sequence: ControlSequence)
    ensures
        sequence@.parameters == seq![digits(string_direction.code())],
        sequence@.final_bytes == seq![']'],
{
    proof {
        reveal_strlit("]");
    }
    ControlSequence::new(&[&string_direction.to_string()], "]")
}

#[derive(Copy, Clone, Debug)]
pub enum StringDirection {
    End,
    StartLeftToRight,
    StartRightToLeft,
}

impl StringDirection {
    /// The parameter value that the standard assigns to each variant.
    pub open spec fn code(&self) -> nat {
        match self {
            Self::End => 0,
            Self::StartLeftToRight => 1,
            Self::StartRightToLeft => 2,
        }
    }

    /// The parameter text: the code of the variant in decimal.
    pub fn to_string(&self) -> (text: String)
        ensures
            text@ == digits(self.code()),
    {
        let code: usize = match self {
            Self::End => 0,
            Self::StartLeftToRight => 1,
            Self::StartRightToLeft => 2,
        };
        render(code)
    }

    /// No two variants share a code.
    pub proof fn lemma_codes_distinct(a: Self, b: Self)
        requires
            a != b,
        ensures
            a.code() != b.code(),
    {
    }
}

/// # SIMD - Select implicit movement direction
///
/// SIMD is used to select the direction of implicit movement of the data position relative to the character
/// progression. The direction selected remains in effect until the next occurrence of SIMD.
pub fn select_implicit(movement_direction: MovementDirection) -> (sequence: ControlSequence)
    ensures
        sequence@.parameters == seq![digits(movement_direction.code())],
        sequence@.final_bytes == seq!['^'],
{
    proof {
        reveal_strlit("^");
    }
    ControlSequence::new(&[&movement_direction.to_string()], "^")
}

#[derive(Copy, Clone, Debug)]
pub enum MovementDirection {
    Same,
    Opposite,
}

impl MovementDirection {
    /// The parameter value that the standard assigns to each variant.
    pub open spec fn code(&self) -> nat {
        match self {
            Self::Same => 0,
            Self::Opposite => 1,
        }
    }

    /// The parameter text: the code of the variant in decimal.
    pub fn to_string(&self) -> (text: String)
        ensures
            text@ == digits(self.code()),
    {
        let code: usize = match self {
            Self::Same => 0,
            Self::Opposite => 1,
        };
        render(code)
    }

    /// No two variants share a code.
    pub proof fn lemma_codes_distinct(a: Self, b: Self)
        requires
            a != b,
        ensures
            a.code() != b.code(),
    {
    }
}

/// # SGR - Select graphic rendition
///
/// SGR is used to establish one or more graphic rendition aspects for subsequent text. The established
/// aspects remain in effect until the next occurrence of SGR in the data stream, depending on the setting of
/// the GRAPHIC RENDITION COMBINATION MODE (GRCM).
///
/// ### Example
/// ```
/// use coded_chars::presentation::select_graphic;
///
/// let red_bold_underlined = select_graphic().fg_red().bold().underline().to_string();
/// assert_eq!(red_bold_underlined, "\x1b[31;1;4m");
/// ```
pub fn select_graphic() -> (selection: GraphicSelection)
    ensures
        selection@ == Seq::<Seq<char>>::empty(),
{
    GraphicSelection::new()
}

/// The graphic rendition aspects selected for one `SGR` control sequence, in the order of
/// selection. Every method that selects one appends its code; nothing is checked and
/// nothing is removed, so the sequence carries each code as often as it was selected.
pub struct GraphicSelection {
    modes: Vec<String>,
}

impl Clone for GraphicSelection {
    /// The copy holds the same parameters, in the same order.
    fn clone(&self) -> (selection: Self)
        ensures
            selection@ == self@,
    {
        let selection = Self { modes: self.modes.clone() };
        assert(selection@ =~= self@);
        selection
    }
}

impl View for GraphicSelection {
    type V = Seq<Seq<char>>;

    /// The parameters selected so far, in the order of selection.
    closed spec fn view(&self) -> Seq<Seq<char>> {
        texts(self.modes@)
    }
}

impl GraphicSelection {
    /// Starts with nothing selected.
    pub fn new() -> (selection: Self)
        ensures
            selection@ == Seq::<Seq<char>>::empty(),
    {
        Self { modes: Vec::new() }
    }

    /// Default rendition (implementation-defined), cancels the effect of any preceding occurrence of SGR in
    /// the data stream regardless of the setting of the GRAPHIC RENDITION COMBINATION MODE (GRCM).
    pub fn default(&mut self) -> (selection: &mut Self)
        ensures
            selection@ == old(self)@.push(digits(0)),
            *final(self) == *final(selection),
    {
        self.add(0)
    }

    /// Bold or increased intensity
    pub fn bold(&mut self) -> (selection: &mut Self)
        ensures
            selection@ == old(self)@.push(digits(1)),
            *final(self) == *final(selection),
    {
        self.add(1)
    }

    /// Faint, decreased intensity or second color
    pub fn faint(&mut self) -> (selection: &mut Self)
        ensures
            selection@ == old(self)@.push(digits(2)),
            *final(self) == *final(selection),
    {
        self.add(2)
    }

    pub fn italic(&mut self) -> (selection: &mut Self)
        ensures
            selection@ == old(self)@.push(digits(3)),
            *final(self) == *final(selection),
    {
        self.add(3)
    }

    pub fn underline(&mut self) -> (selection: &mut Self)
        ensures
            selection@ == old(self)@.push(digits(4)),
            *final(self) == *final(selection),
    {
        self.add(4)
    }

    /// Slowly blinking (less than 150/minute)
    pub fn slow_blink(&mut self) -> (selection: &mut Self)
        ensures
            selection@ == old(self)@.push(digits(5)),
            *final(self) == *final(selection),
    {
        self.add(5)
    }

    /// Rapidly blinking (150/minute or more)
    pub fn fast_blink(&mut self) -> (selection: &mut Self)
        ensures
            selection@ == old(self)@.push(digits(6)),
            *final(self) == *final(selection),
    {
        self.add(6)
    }

    pub fn negative(&mut self) -> (selection: &mut Self)
        ensures
            selection@ == old(self)@.push(digits(7)),
            *final(self) == *final(selection),
    {
        self.add(7)
    }

    pub fn conceal(&mut self) -> (selection: &mut Self)
        ensures
            selection@ == old(self)@.push(digits(8)),
            *final(self) == *final(selection),
    {
        self.add(8)
    }

    /// Crossed-out (characters still legible but marked as to be deleted)
    pub fn cross(&mut self) -> (selection: &mut Self)
        ensures
            selection@ == old(self)@.push(digits(9)),
            *final(self) == *final(selection),
    {
        self.add(9)
    }

    pub fn primary_font(&mut self) -> (selection: &mut Self)
        ensures
            selection@ == old(self)@.push(digits(10)),
            *final(self) == *final(selection),
    {
        self.add(10)
    }

    pub fn alter1_font(&mut self) -> (selection: &mut Self)
        ensures
            selection@ == old(self)@.push(digits(11)),
            *final(self) == *final(selection),
    {
        self.add(11)
    }

    pub fn alter2_font(&mut self) -> (selection: &mut Self)
        ensures
            selection@ == old(self)@.push(digits(12)),
            *final(self) == *final(selection),
    {
        self.add(12)
    }

    pub fn alter3_font(&mut self) -> (selection: &mut Self)
        ensures
            selection@ == old(self)@.push(digits(13)),
            *final(self) == *final(selection),
    {
        self.add(13)
    }

    pub fn alter4_font(&mut self) -> (selection: &mut Self)
        ensures
            selection@ == old(self)@.push(digits(14)),
            *final(self) == *final(selection),
    {
        self.add(14)
    }

    pub fn alter5_font(&mut self) -> (selection: &mut Self)
        ensures
            selection@ == old(self)@.push(digits(15)),
            *final(self) == *final(selection),
    {
        self.add(15)
    }

    pub fn alter6_font(&mut self) -> (selection: &mut Self)
        ensures
            selection@ == old(self)@.push(digits(16)),
            *final(self) == *final(selection),
    {
        self.add(16)
    }

    pub fn alter7_font(&mut self) -> (selection: &mut Self)
        ensures
            selection@ == old(self)@.push(digits(17)),
            *final(self) == *final(selection),
    {
        self.add(17)
    }

    pub fn alter8_font(&mut self) -> (selection: &mut Self)
        ensures
            selection@ == old(self)@.push(digits(18)),
            *final(self) == *final(selection),
    {
        self.add(18)
    }

    pub fn alter9_font(&mut self) -> (selection: &mut Self)
        ensures
            selection@ == old(self)@.push(digits(19)),
            *final(self) == *final(selection),
    {
        self.add(19)
    }

    pub fn gothic_font(&mut self) -> (selection: &mut Self)
        ensures
            selection@ == old(self)@.push(digits(20)),
            *final(self) == *final(selection),
    {
        self.add(20)
    }

    pub fn double_underline(&mut self) -> (selection: &mut Self)
        ensures
            selection@ == old(self)@.push(digits(21)),
            *final(self) == *final(selection),
    {
        self.add(21)
    }

    /// Normal color or normal intensity
    pub fn not_bold_or_faint(&mut self) -> (selection: &mut Self)
        ensures
            selection@ == old(self)@.push(digits(22)),
            *final(self) == *final(selection),
    {
        self.add(22)
    }

    /// Not italicized, not gothic font
    pub fn not_italic(&mut self) -> (selection: &mut Self)
        ensures
            selection@ == old(self)@.push(digits(23)),
            *final(self) == *final(selection),
    {
        self.add(23)
    }

    /// Not underline (neither singly or doubly)
    pub fn not_underline(&mut self) -> (selection: &mut Self)
        ensures
            selection@ == old(self)@.push(digits(24)),
            *final(self) == *final(selection),
    {
        self.add(24)
    }

    /// Steady (not blinking)
    pub fn not_blink(&mut self) -> (selection: &mut Self)
        ensures
            selection@ == old(self)@.push(digits(25)),
            *final(self) == *final(selection),
    {
        self.add(25)
    }

    /// Positive image
    pub fn not_negative(&mut self) -> (selection: &mut Self)
        ensures
            selection@ == old(self)@.push(digits(27)),
            *final(self) == *final(selection),
    {
        self.add(27)
    }

    /// Revealed characters
    pub fn not_conceal(&mut self) -> (selection: &mut Self)
        ensures
            selection@ == old(self)@.push(digits(28)),
            *final(self) == *final(selection),
    {
        self.add(28)
    }

    pub fn not_cross(&mut self) -> (selection: &mut Self)
        ensures
            selection@ == old(self)@.push(digits(29)),
            *final(self) == *final(selection),
    {
        self.add(29)
    }

    pub fn fg_black(&mut self) -> (selection: &mut Self)
        ensures
            selection@ == old(self)@.push(digits(30)),
            *final(self) == *final(selection),
    {
        self.add(30)
    }

    pub fn fg_red(&mut self) -> (selection: &mut Self)
        ensures
            selection@ == old(self)@.push(digits(31)),
            *final(self) == *final(selection),
    {
        self.add(31)
    }

    pub fn fg_green(&mut self) -> (selection: &mut Self)
        ensures
            selection@ == old(self)@.push(digits(32)),
            *final(self) == *final(selection),
    {
        self.add(32)
    }

    pub fn fg_yellow(&mut self) -> (selection: &mut Self)
        ensures
            selection@ == old(self)@.push(digits(33)),
            *final(self) == *final(selection),
    {
        self.add(33)
    }

    pub fn fg_blue(&mut self) -> (selection: &mut Self)
        ensures
            selection@ == old(self)@.push(digits(34)),
            *final(self) == *final(selection),
    {
        self.add(34)
    }

    pub fn fg_magenta(&mut self) -> (selection: &mut Self)
        ensures
            selection@ == old(self)@.push(digits(35)),
            *final(self) == *final(selection),
    {
        self.add(35)
    }

    pub fn fg_cyan(&mut self) -> (selection: &mut Self)
        ensures
            selection@ == old(self)@.push(digits(36)),
            *final(self) == *final(selection),
    {
        self.add(36)
    }

    pub fn fg_gray(&mut self) -> (selection: &mut Self)
        ensures
            selection@ == old(self)@.push(digits(37)),
            *final(self) == *final(selection),
    {
        self.add(37)
    }

    pub fn fg_color(&mut self) -> (selection: &mut Self)
        ensures
            selection@ == old(self)@.push(digits(38)),
            *final(self) == *final(selection),
    {
        self.add(38)
    }

    pub fn fg_default(&mut self) -> (selection: &mut Self)
        ensures
            selection@ == old(self)@.push(digits(39)),
            *final(self) == *final(selection),
    {
        self.add(39)
    }

    pub fn bg_black(&mut self) -> (selection: &mut Self)
        ensures
            selection@ == old(self)@.push(digits(40)),
            *final(self) == *final(selection),
    {
        self.add(40)
    }

    pub fn bg_red(&mut self) -> (selection: &mut Self)
        ensures
            selection@ == old(self)@.push(digits(41)),
            *final(self) == *final(selection),
    {
        self.add(41)
    }

    pub fn bg_green(&mut self) -> (selection: &mut Self)
        ensures
            selection@ == old(self)@.push(digits(42)),
            *final(self) == *final(selection),
    {
        self.add(42)
    }

    pub fn bg_yellow(&mut self) -> (selection: &mut Self)
        ensures
            selection@ == old(self)@.push(digits(43)),
            *final(self) == *final(selection),
    {
        self.add(43)
    }

    pub fn bg_blue(&mut self) -> (selection: &mut Self)
        ensures
            selection@ == old(self)@.push(digits(44)),
            *final(self) == *final(selection),
    {
        self.add(44)
    }

    pub fn bg_magenta(&mut self) -> (selection: &mut Self)
        ensures
            selection@ == old(self)@.push(digits(45)),
            *final(self) == *final(selection),
    {
        self.add(45)
    }

    pub fn bg_cyan(&mut self) -> (selection: &mut Self)
        ensures
            selection@ == old(self)@.push(digits(46)),
            *final(self) == *final(selection),
    {
        self.add(46)
    }

    pub fn bg_gray(&mut self) -> (selection: &mut Self)
        ensures
            selection@ == old(self)@.push(digits(47)),
            *final(self) == *final(selection),
    {
        self.add(47)
    }

    pub fn bg_color(&mut self) -> (selection: &mut Self)
        ensures
            selection@ == old(self)@.push(digits(48)),
            *final(self) == *final(selection),
    {
        self.add(48)
    }

    pub fn bg_default(&mut self) -> (selection: &mut Self)
        ensures
            selection@ == old(self)@.push(digits(49)),
            *final(self) == *final(selection),
    {
        self.add(49)
    }

    pub fn frame(&mut self) -> (selection: &mut Self)
        ensures
            selection@ == old(self)@.push(digits(51)),
            *final(self) == *final(selection),
    {
        self.add(51)
    }

    pub fn encircle(&mut self) -> (selection: &mut Self)
        ensures
            selection@ == old(self)@.push(digits(52)),
            *final(self) == *final(selection),
    {
        self.add(52)
    }

    pub fn overline(&mut self) -> (selection: &mut Self)
        ensures
            selection@ == old(self)@.push(digits(53)),
            *final(self) == *final(selection),
    {
        self.add(53)
    }

    pub fn not_frame_not_encircle(&mut self) -> (selection: &mut Self)
        ensures
            selection@ == old(self)@.push(digits(54)),
            *final(self) == *final(selection),
    {
        self.add(54)
    }

    pub fn not_overline(&mut self) -> (selection: &mut Self)
        ensures
            selection@ == old(self)@.push(digits(55)),
            *final(self) == *final(selection),
    {
        self.add(55)
    }

    pub fn ideogram_underline(&mut self) -> (selection: &mut Self)
        ensures
            selection@ == old(self)@.push(digits(60)),
            *final(self) == *final(selection),
    {
        self.add(60)
    }

    pub fn ideogram_double_underline(&mut self) -> (selection: &mut Self)
        ensures
            selection@ == old(self)@.push(digits(61)),
            *final(self) == *final(selection),
    {
        self.add(61)
    }

    pub fn ideogram_overline(&mut self) -> (selection: &mut Self)
        ensures
            selection@ == old(self)@.push(digits(62)),
            *final(self) == *final(selection),
    {
        self.add(62)
    }

    pub fn ideogram_double_overline(&mut self) -> (selection: &mut Self)
        ensures
            selection@ == old(self)@.push(digits(63)),
            *final(self) == *final(selection),
    {
        self.add(63)
    }

    pub fn ideogram_stress_marking(&mut self) -> (selection: &mut Self)
        ensures
            selection@ == old(self)@.push(digits(64)),
            *final(self) == *final(selection),
    {
        self.add(64)
    }

    pub fn ideogram_cancel(&mut self) -> (selection: &mut Self)
        ensures
            selection@ == old(self)@.push(digits(65)),
            *final(self) == *final(selection),
    {
        self.add(65)
    }

    /// The control sequence that carries what was selected so far, in the order of
    /// selection. The selection itself is left as it is.
    pub fn get(&self) -> (sequence: ControlSequence)
        ensures
            sequence@.parameters == self@,
            sequence@.final_bytes == seq!['m'],
    {
        proof {
            reveal_strlit("m");
        }
        ControlSequence::new(borrowed(&self.modes).as_slice(), "m")
    }

    /// Appends the decimal text of `code` to the parameters.
    pub(crate) fn add(&mut self, code: usize) -> (selection: &mut Self)
        ensures
            selection@ == old(self)@.push(digits(code as nat)),
            *final(self) == *final(selection),
    {
        self.modes.push(render(code));
        self
    }

    /// Renders the control sequence that [GraphicSelection::get] gives.
    pub fn to_string(&self) -> (text: String)
        ensures
            text@ == control_text(self@, seq!['m']),
    {
        self.get().to_string()
    }
}

/// Format a string with the specified `SGR` sequence.
///
/// The string is terminated with the sequence `\x1b[0m` to reset the style.
///
/// ### Example
/// ```
/// use coded_chars::presentation::{format_str, select_graphic};
/// let formatted = format_str(
///     "World",
///     select_graphic().fg_red().bold().underline()
///  );
/// assert_eq!(formatted, "\x1b[31;1;4mWorld\x1b[0m");
/// ```
pub fn format_str(str: &str, format: &GraphicSelection) -> (text: String)
    ensures
        text@ == control_text(format@, seq!['m']) + str@ + control_text(
            seq![digits(0)],
            seq!['m'],
        ),
{
    let mut text = format.to_string();
    text.append(str);
    text.append(select_graphic().default().to_string().as_str());
    text
}

/// # SHS - Select character spacing
///
/// SHS is used to establish the character spacing for subsequent text. The established spacing remains in
/// effect until the next occurrence of SHS or of SET CHARACTER SPACING (SCS) or of SPACING
/// INCREMENT (SPI) in the data stream.
pub fn select_spacing(character_spacing: CharacterSpacing) -> (sequence: ControlSequence)
    ensures
        sequence@.parameters == seq![digits(character_spacing.code())],
        sequence@.final_bytes == seq![' ', 'K'],
{
    proof {
        reveal_strlit(" K");
    }
    ControlSequence::new(&[&character_spacing.to_string()], " K")
}

#[derive(Copy, Clone, Debug)]
pub enum CharacterSpacing {
    Per25mm10Chars,
    Per25mm12Chars,
    Per25mm15Chars,
    Per25mm16Chars,
    Per25mm3Chars,
    Per50mm9Chars,
    Per25mm4Chars,
}

impl CharacterSpacing {
    /// The parameter value that the standard assigns to each variant.
    pub open spec fn code(&self) -> nat {
        match self {
            Self::Per25mm10Chars => 0,
            Self::Per25mm12Chars => 1,
            Self::Per25mm15Chars => 2,
            Self::Per25mm16Chars => 3,
            Self::Per25mm3Chars => 4,
            Self::Per50mm9Chars => 5,
            Self::Per25mm4Chars => 6,
        }
    }

    /// The parameter text: the code of the variant in decimal.
    pub fn to_string(&self) -> (text: String)
        ensures
            text@ == digits(self.code()),
    {
        let code: usize = match self {
            Self::Per25mm10Chars => 0,
            Self::Per25mm12Chars => 1,
            Self::Per25mm15Chars => 2,
            Self::Per25mm16Chars => 3,
            Self::Per25mm3Chars => 4,
            Self::Per50mm9Chars => 5,
            Self::Per25mm4Chars => 6,
        };
        render(code)
    }

    /// No two variants share a code.
    pub proof fn lemma_codes_distinct(a: Self, b: Self)
        requires
            a != b,
        ensures
            a.code() != b.code(),
    {
    }
}

/// # SLH - Set line home
///
/// If the DEVICE COMPONENT SELECT MODE is set to PRESENTATION, SLH is used to establish at
/// character position n in the active line (the line that contains the active presentation position) and lines of
/// subsequent text in the presentation component the position to which the active presentation position will
/// be moved by subsequent occurrences of CARRIAGE RETURN (CR), DELETE LINE (DL), INSERT
/// LINE (IL) or NEXT LINE (NEL) in the data stream. In the case of a
/// device without data component, it is also the position ahead of which no implicit movement of the active
/// presentation position shall occur.
///
/// If the DEVICE COMPONENT SELECT MODE is set to DATA, SLH is used to establish at character
/// position n in the active line (the line that contains the active data position) and lines of subsequent text
/// in the data component the position to which the active data position will be moved by subsequent
/// occurrences of CARRIAGE RETURN (CR), DELETE LINE (DL), INSERT LINE (IL) or NEXT LINE
/// (NEL) in the data stream. It is also the position ahead of which no
/// implicit movement of the active data position shall occur.
///
/// The established position is called the line home position and remains in effect until the next occurrence
/// of SLH in the data stream.
pub fn line_home(c: usize) -> (sequence: ControlSequence)
    ensures
        sequence@.parameters == seq![digits(c as nat)],
        sequence@.final_bytes == seq![' ', 'U'],
{
    proof {
        reveal_strlit(" U");
    }
    ControlSequence::new(&[&render(c)], " U")
}

/// # SLL - Set line limit
///
/// If the DEVICE COMPONENT SELECT MODE is set to PRESENTATION, SLL is used to establish at
/// character position n in the active line (the line that contains the active presentation position) and lines of
/// subsequent text in the presentation component the position to which the active presentation position will
/// be moved by subsequent occurrences of CARRIAGE RETURN (CR), or NEXT LINE (NEL) in the data
/// stream if the parameter value of SELECT IMPLICIT MOVEMENT DIRECTION (SIMD) is equal to 1;
/// where n equals the value of Pn. In the case of a device without data component, it is also the position
/// beyond which no implicit movement of the active presentation position shall occur.
///
/// If the DEVICE COMPONENT SELECT MODE is set to DATA, SLL is used to establish at character
/// position n in the active line (the line that contains the active data position) and lines of subsequent text
/// in the data component the position beyond which no implicit movement of the active data position shall
/// occur. It is also the position in the data component to which the active data position will be moved by
/// subsequent occurrences of CR or NEL in the data stream, if the parameter value of SELECT IMPLICIT
/// MOVEMENT DIRECTION (SIMD) is equal to 1.
///
/// The established position is called the line limit position and remains in effect until the next occurrence
/// of SLL in the data stream.
pub fn line_limit(n: usize) -> (sequence: ControlSequence)
    ensures
        sequence@.parameters == seq![digits(n as nat)],
        sequence@.final_bytes == seq![' ', 'V'],
{
    proof {
        reveal_strlit(" V");
    }
    ControlSequence::new(&[&render(n)], " V")
}

/// # SLS - Set line spacing
///
/// SLS is used to establish the line spacing for subsequent text. The established spacing remains in effect
/// until the next occurrence of SLS or of SELECT LINE SPACING (SVS) or of SPACING INCREMENT
/// (SPI) in the data stream.
///
/// The unit in which the parameter value is expressed is that established by the parameter value of SELECT
/// SIZE UNIT (SSU).
pub fn line_spacing(n: usize) -> (sequence: ControlSequence)
    ensures
        sequence@.parameters == seq![digits(n as nat)],
        sequence@.final_bytes == seq![' ', 'h'],
{
    proof {
        reveal_strlit(" h");
    }
    ControlSequence::new(&[&render(n)], " h")
}

/// # SPD - Select presentation directions
///
/// SPD is used to select the line orientation, the line progression, and the character path in the presentation
/// component. It is also used to update the content of the presentation component and the content of the
/// data component. This takes effect immediately.
pub fn select_directions(
    line_orientation: LineOrientation,
    line_progression: CharacterPath,
    character_path: CharacterPath,
    path_effect: PathEffect,
) -> (sequence: ControlSequence)
    ensures
        sequence@.parameters == seq![
            digits(directions_code(line_orientation, line_progression, character_path)),
            digits(path_effect.code()),
        ],
        sequence@.final_bytes == seq![' ', 'S'],
{
    proof {
        reveal_strlit(" S");
    }
    ControlSequence::new(
        &[
            &render(spd_ps1(line_orientation, line_progression, character_path)),
            &path_effect.to_string(),
        ],
        " S",
    )
}

#[derive(Copy, Clone, Debug)]
pub enum LineOrientation {
    Horizontal,
    Vertical,
}

/// The first parameter of SPD: the value that the standard assigns to each combination of
/// line orientation, line progression and character path.
pub open spec fn directions_code(
    line_orientation: LineOrientation,
    line_progression: CharacterPath,
    character_path: CharacterPath,
) -> nat {
    match (line_orientation, line_progression, character_path) {
        (LineOrientation::Horizontal, CharacterPath::LeftToRight, CharacterPath::LeftToRight) => 0,
        (LineOrientation::Vertical, CharacterPath::RightToLeft, CharacterPath::LeftToRight) => 1,
        (LineOrientation::Vertical, CharacterPath::LeftToRight, CharacterPath::LeftToRight) => 2,
        (LineOrientation::Horizontal, CharacterPath::LeftToRight, CharacterPath::RightToLeft) => 3,
        (LineOrientation::Vertical, CharacterPath::LeftToRight, CharacterPath::RightToLeft) => 4,
        (LineOrientation::Horizontal, CharacterPath::RightToLeft, CharacterPath::RightToLeft) => 5,
        (LineOrientation::Horizontal, CharacterPath::RightToLeft, CharacterPath::LeftToRight) => 6,
        (LineOrientation::Vertical, CharacterPath::RightToLeft, CharacterPath::RightToLeft) => 7,
    }
}

fn spd_ps1(
    line_orientation: LineOrientation,
    line_progression: CharacterPath,
    character_path: CharacterPath,
) -> (code: usize)
    ensures
        code == directions_code(line_orientation, line_progression, character_path),
{
    match line_orientation {
        LineOrientation::Horizontal => {
            match line_progression {
                CharacterPath::LeftToRight => {
                    match character_path {
                        CharacterPath::LeftToRight => 0,
                        CharacterPath::RightToLeft => 3,
                    }
                },
                CharacterPath::RightToLeft => {
                    match character_path {
                        CharacterPath::LeftToRight => 6,
                        CharacterPath::RightToLeft => 5,
                    }
                },
            }
        },
        LineOrientation::Vertical => {
            match line_progression {
                CharacterPath::LeftToRight => {
                    match character_path {
                        CharacterPath::LeftToRight => 2,
                        CharacterPath::RightToLeft => 4,
                    }
                },
                CharacterPath::RightToLeft => {
                    match character_path {
                        CharacterPath::LeftToRight => 1,
                        CharacterPath::RightToLeft => 7,
                    }
                },
            }
        },
    }
}

/// # SPH - Set page home
///
/// If the DEVICE COMPONENT SELECT MODE is set to PRESENTATION, SPH is used to establish at
/// line position n in the active page (the page that contains the active presentation position) and subsequent
/// pages in the presentation component the position to which the active presentation position will be moved
/// by subsequent occurrences of FORM FEED (FF) in the data stream In
/// the case of a device without data component, it is also the position ahead of which no implicit movement
/// of the active presentation position shall occur.
///
/// If the DEVICE COMPONENT SELECT MODE is set to DATA, SPH is used to establish at line position
/// `n` in the active page (the page that contains the active data position) and subsequent pages in the data
/// component the position to which the active data position will be moved by subsequent occurrences of
/// FORM FEED (FF) in the data stream. It is also the position ahead of
/// which no implicit movement of the active presentation position shall occur.
///
/// The established position is called the page home position and remains in effect until the next occurrence
/// of SPH in the data stream.
pub fn page_home(n: usize) -> (sequence: ControlSequence)
    ensures
        sequence@.parameters == seq![digits(n as nat)],
        sequence@.final_bytes == seq![' ', 'i'],
{
    proof {
        reveal_strlit(" i");
    }
    ControlSequence::new(&[&render(n)], " i")
}

/// # SPI - Spacing increment
///
/// SPI is used to establish the line spacing and the character spacing for subsequent text. The established
/// line spacing remains in effect until the next occurrence of SPI or of SET LINE SPACING (SLS) or of
/// SELECT LINE SPACING (SVS) in the data stream. The established character spacing remains in effect
/// until the next occurrence of SET CHARACTER SPACING (SCS) or of SELECT CHARACTER
/// SPACING (SHS) in the data stream.
///
/// The unit in which the parameter values are expressed is that established by the parameter value of
/// SELECT SIZE UNIT (SSU).
pub fn spacing_increment(
    line_spacing: usize,
    character_spacing: usize,
) -> (sequence: ControlSequence)
    ensures
        sequence@.parameters == seq![digits(line_spacing as nat), digits(character_spacing as nat)],
        sequence@.final_bytes == seq![' ', 'G'],
{
    proof {
        reveal_strlit(" G");
    }
    ControlSequence::new(&[&render(line_spacing), &render(character_spacing)], " G")
}

/// # SPL - Set page limit
///
/// If the DEVICE COMPONENT SELECT MODE is set to PRESENTATION, SPL is used to establish at
/// line position n in the active page (the page that contains the active presentation position) and pages of
/// subsequent text in the presentation component the position beyond which the active presentation position
/// can normally not be moved In the case of a device without data
/// component, it is also the position beyond which no implicit movement of the active presentation position
/// shall occur.
///
/// If the DEVICE COMPONENT SELECT MODE is set to DATA, SPL is used to establish at line position
/// n in the active page (the page that contains the active data position) and pages of subsequent text in the
/// data component the position beyond which no implicit movement of the active data position shall occur.
///
/// The established position is called the page limit position and remains in effect until the next occurrence
/// of SPL in the data stream.
pub fn page_limit(n: usize) -> (sequence: ControlSequence)
    ensures
        sequence@.parameters == seq![digits(n as nat)],
        sequence@.final_bytes == seq![' ', 'j'],
{
    proof {
        reveal_strlit(" j");
    }
    ControlSequence::new(&[&render(n)], " j")
}

/// # SPQR - Select print quality and rapidity
///
/// SPQR is used to select the relative print quality and the print speed for devices the output quality and
/// speed of which are inversely related. The selected values remain in effect until the next occurrence of
/// SPQR in the data stream.
pub fn print_quality(quality: PrintQuality) -> (sequence: ControlSequence)
    ensures
        sequence@.parameters == seq![digits(quality.code())],
        sequence@.final_bytes == seq![' ', 'X'],
{
    proof {
        reveal_strlit(" X");
    }
    ControlSequence::new(&[&quality.to_string()], " X")
}

#[derive(Copy, Clone, Debug)]
pub enum PrintQuality {
    /// Highest available print quality, low print speed.
    Highest,
    /// Medium print quality, medium print speed.
    Medium,
    /// Draft print quality, highest available print speed.
    Draft,
}

impl PrintQuality {
    /// The parameter value that the standard assigns to each variant.
    pub open spec fn code(&self) -> nat {
        match self {
            Self::Highest => 0,
            Self::Medium => 1,
            Self::Draft => 2,
        }
    }

    /// The parameter text: the code of the variant in decimal.
    pub fn to_string(&self) -> (text: String)
        ensures
            text@ == digits(self.code()),
    {
        let code: usize = match self {
            Self::Highest => 0,
            Self::Medium => 1,
            Self::Draft => 2,
        };
        render(code)
    }

    /// No two variants share a code.
    pub proof fn lemma_codes_distinct(a: Self, b: Self)
        requires
            a != b,
        ensures
            a.code() != b.code(),
    {
    }
}

/// # SRCS - Set reduced character separation
///
/// SRCS is used to establish reduced inter-character escapement for subsequent text. The established
/// reduced escapement remains in effect until the next occurrence of SRCS or of SET ADDITIONAL
/// CHARACTER SEPARATION (SACS) in the data stream or until it is reset to the default value by a
/// subsequent occurrence of CARRIAGE RETURN/LINE FEED (CR/LF) or of NEXT LINE (NEL) in the
/// data stream.
///
/// `n` specifies the number of units by which the inter-character escapement is reduced.
///
/// The unit in which the parameter value is expressed is that established by the parameter value of SELECT
/// SIZE UNIT (SSU).
pub fn reduce_separation(n: usize) -> (sequence: ControlSequence)
    ensures
        sequence@.parameters == seq![digits(n as nat)],
        sequence@.final_bytes == seq![' ', 'f'],
{
    proof {
        reveal_strlit(" f");
    }
    ControlSequence::new(&[&render(n)], " f")
}

/// # SRS - Start reversed string
///
/// SRS is used to establish in the data component the beginning and the end of a string of characters as well
/// as the direction of the string. This direction is opposite to that currently established. The indicated string
/// follows the preceding text. The established character progression is not affected.
///
/// The beginning of a reversed string is indicated by SRS with a parameter value of 1. A reversed string
/// may contain one or more nested strings. These nested strings may be reversed strings the beginnings of
/// which are indicated by SRS with a parameter value of 1, or directed strings the beginnings of which are
/// indicated by START DIRECTED STRING (SDS) with a parameter value not equal to 0. Every
/// beginning of such a string invokes the next deeper level of nesting.
///
/// This Standard does not define the location of the active data position within any such nested string.
///
/// The end of a reversed string is indicated by SRS with a parameter value of 0. Every end of such a string
/// re-establishes the next higher level of nesting (the one in effect prior to the string just ended). The
/// direction is re-established to that in effect prior to the string just ended. The active data position is
/// moved to the character position following the characters of the string just ended.
///
/// ### Note 1
/// The effect of receiving a CVT, HT, SCP, SPD or VT control function within an SRS string is not defined
/// by this Standard.
///
/// ### Note 2
/// The control functions for area definition (DAQ, EPA, ESA, SPA, SSA) should not be used within an SRS
/// string.
pub fn reversed(string_reversion: StringReversion) -> (sequence: ControlSequence)
    ensures
        sequence@.parameters == seq![digits(string_reversion.code())],
        sequence@.final_bytes == seq!['['],
{
    proof {
        reveal_strlit("[");
    }
    ControlSequence::new(&[&string_reversion.to_string()], "[")
}

#[derive(Copy, Clone, Debug)]
pub enum StringReversion {
    End,
    BeginReverse,
}

impl StringReversion {
    /// The parameter value that the standard assigns to each variant.
    pub open spec fn code(&self) -> nat {
        match self {
            Self::End => 0,
            Self::BeginReverse => 1,
        }
    }

    /// The parameter text: the code of the variant in decimal.
    pub fn to_string(&self) -> (text: String)
        ensures
            text@ == digits(self.code()),
    {
        let code: usize = match self {
            Self::End => 0,
            Self::BeginReverse => 1,
        };
        render(code)
    }

    /// No two variants share a code.
    pub proof fn lemma_codes_distinct(a: Self, b: Self)
        requires
            a != b,
        ensures
            a.code() != b.code(),
    {
    }
}

/// # SSU - Select size unit
///
/// SSU is used to establish the unit in which the numeric parameters of certain control functions are
/// expressed. The established unit remains in effect until the next occurrence of SSU in the data stream.
pub fn select_size_unit(size_unit: SizeUnit) -> (sequence: ControlSequence)
    ensures
        sequence@.parameters == seq![digits(size_unit.code())],
        sequence@.final_bytes == seq![' ', 'I'],
{
    proof {
        reveal_strlit(" I");
    }
    ControlSequence::new(&[&size_unit.to_string()], " I")
}

#[derive(Copy, Clone, Debug)]
pub enum SizeUnit {
    Character,
    Millimeter,
    ComputerDeciPoint,
    DeciDidot,
    Mil,
    BasicMeasuringUnit,
    Micrometer,
    Pixel,
    DeciPoint,
}

impl SizeUnit {
    /// The parameter value that the standard assigns to each variant.
    pub open spec fn code(&self) -> nat {
        match self {
            Self::Character => 0,
            Self::Millimeter => 1,
            Self::ComputerDeciPoint => 2,
            Self::DeciDidot => 3,
            Self::Mil => 4,
            Self::BasicMeasuringUnit => 5,
            Self::Micrometer => 6,
            Self::Pixel => 7,
            Self::DeciPoint => 8,
        }
    }

    /// The parameter text: the code of the variant in decimal.
    pub fn to_string(&self) -> (text: String)
        ensures
            text@ == digits(self.code()),
    {
        let code: usize = match self {
            Self::Character => 0,
            Self::Millimeter => 1,
            Self::ComputerDeciPoint => 2,
            Self::DeciDidot => 3,
            Self::Mil => 4,
            Self::BasicMeasuringUnit => 5,
            Self::Micrometer => 6,
            Self::Pixel => 7,
            Self::DeciPoint => 8,
        };
        render(code)
    }

    /// No two variants share a code.
    pub proof fn lemma_codes_distinct(a: Self, b: Self)
        requires
            a != b,
        ensures
            a.code() != b.code(),
    {
    }
}

/// # SSW - Set space width
///
/// SSW is used to establish for subsequent text the character escapement associated with the character
/// SPACE. The established escapement remains in effect until the next occurrence of SSW in the data
/// stream or until it is reset to the default value by a subsequent occurrence of CARRIAGE RETURN/LINE
/// FEED (CR/LF), CARRIAGE RETURN/FORM FEED (CR/FF), or of NEXT LINE (NEL) in the data stream.
///
/// `n` specifies the escapement.
///
/// The unit in which the parameter value is expressed is that established by the parameter value of SELECT
/// SIZE UNIT (SSU).
///
/// The default character escapement of SPACE is specified by the most recent occurrence of SET
/// CHARACTER SPACING (SCS) or of SELECT CHARACTER SPACING (SHS) or of SELECT
/// SPACING INCREMENT (SPI) in the data stream if the current font has constant spacing, or is specified
/// by the nominal width of the character SPACE in the current font if that font has proportional spacing.
pub fn space_width(n: usize) -> (sequence: ControlSequence)
    ensures
        sequence@.parameters == seq![digits(n as nat)],
        sequence@.final_bytes == seq![' ', '['],
{
    proof {
        reveal_strlit(" [");
    }
    ControlSequence::new(&[&render(n)], " [")
}

/// # STAB - Selective tabulation
///
/// STAB causes subsequent text in the presentation component to be aligned according to the position and
/// the properties of a tabulation stop which is selected from a list according to the value of the parameter.
///
/// The use of this control function and means of specifying a list of tabulation stops to be referenced by the
/// control function are specified in other standards, for example ISO 8613-6.
pub fn select_tabulation(n: usize) -> (sequence: ControlSequence)
    ensures
        sequence@.parameters == seq![digits(n as nat)],
        sequence@.final_bytes == seq![' ', '^'],
{
    proof {
        reveal_strlit(" ^");
    }
    ControlSequence::new(&[&render(n)], " ^")
}

/// # SVS - Select line spacing
///
/// SVS is used to establish the line spacing for subsequent text. The established spacing remains in effect
/// until the next occurrence of SVS or of SET LINE SPACING (SLS) or of SPACING INCREMENT (SPI)
/// in the data stream.
pub fn select_line_spacing(line_spacing: LineSpacing) -> (sequence: ControlSequence)
    ensures
        sequence@.parameters == seq![digits(line_spacing.code())],
        sequence@.final_bytes == seq![' ', 'L'],
{
    proof {
        reveal_strlit(" L");
    }
    ControlSequence::new(&[&line_spacing.to_string()], " L")
}

#[derive(Copy, Clone, Debug)]
pub enum LineSpacing {
    Per25mm6Lines,
    Per25mm4Lines,
    Per25mm3Lines,
    Per25mm12Lines,
    Per25mm8Lines,
    Per30mm6Lines,
    Per30mm4Lines,
    Per30mm3Lines,
    Per30mm12Lines,
    Per25mm2Lines,
}

impl LineSpacing {
    /// The parameter value that the standard assigns to each variant.
    pub open spec fn code(&self) -> nat {
        match self {
            Self::Per25mm6Lines => 0,
            Self::Per25mm4Lines => 1,
            Self::Per25mm3Lines => 2,
            Self::Per25mm12Lines => 3,
            Self::Per25mm8Lines => 4,
            Self::Per30mm6Lines => 5,
            Self::Per30mm4Lines => 6,
            Self::Per30mm3Lines => 7,
            Self::Per30mm12Lines => 8,
            Self::Per25mm2Lines => 9,
        }
    }

    /// The parameter text: the code of the variant in decimal.
    pub fn to_string(&self) -> (text: String)
        ensures
            text@ == digits(self.code()),
    {
        let code: usize = match self {
            Self::Per25mm6Lines => 0,
            Self::Per25mm4Lines => 1,
            Self::Per25mm3Lines => 2,
            Self::Per25mm12Lines => 3,
            Self::Per25mm8Lines => 4,
            Self::Per30mm6Lines => 5,
            Self::Per30mm4Lines => 6,
            Self::Per30mm3Lines => 7,
            Self::Per30mm12Lines => 8,
            Self::Per25mm2Lines => 9,
        };
        render(code)
    }

    /// No two variants share a code.
    pub proof fn lemma_codes_distinct(a: Self, b: Self)
        requires
            a != b,
        ensures
            a.code() != b.code(),
    {
    }
}

/// # TAC - Tabulation aligned centred
///
/// TAC causes a character tabulation stop calling for centring to be set at character position n in the active
/// line (the line that contains the active presentation position) and lines of subsequent text in the
/// presentation component, where n equals the value of Pn. TAC causes the replacement of any tabulation
/// stop previously set at that character position, but does not affect other tabulation stops.
///
/// A text string centred upon a tabulation stop set by TAC will be positioned so that the (trailing edge of
/// the) first graphic character and the (leading edge of the) last graphic character are at approximately equal
/// distances from the tabulation stop.
pub fn align_center(n: usize) -> (sequence: ControlSequence)
    ensures
        sequence@.parameters == seq![digits(n as nat)],
        sequence@.final_bytes == seq![' ', 'b'],
{
    proof {
        reveal_strlit(" b");
    }
    ControlSequence::new(&[&render(n)], " b")
}

/// # TALE - Tabulation aligned leading edge
///
/// TALE causes a character tabulation stop calling for leading edge alignment to be set at character
/// position n in the active line (the line that contains the active presentation position) and lines of
/// subsequent text in the presentation component, where n equals the value of Pn. TALE causes the
/// replacement of any tabulation stop previously set at that character position, but does not affect other
/// tabulation stops.
///
/// A text string aligned with a tabulation stop set by TALE will be positioned so that the (leading edge of
/// the) last graphic character of the string is placed at the tabulation stop.
pub fn align_leading(n: usize) -> (sequence: ControlSequence)
    ensures
        sequence@.parameters == seq![digits(n as nat)],
        sequence@.final_bytes == seq![' ', 'a'],
{
    proof {
        reveal_strlit(" a");
    }
    ControlSequence::new(&[&render(n)], " a")
}

/// # TATE - Tabulation aligned trailing edge
///
/// TATE causes a character tabulation stop calling for trailing edge alignment to be set at character
/// position n in the active line (the line that contains the active presentation position) and lines of
/// subsequent text in the presentation component, where n equals the value of Pn. TATE causes the
/// replacement of any tabulation stop previously set at that character position, but does not affect other
/// tabulation stops.
///
/// A text string aligned with a tabulation stop set by TATE will be positioned so that the (trailing edge of
/// the) first graphic character of the string is placed at the tabulation stop.
pub fn align_trailing(n: usize) -> (sequence: ControlSequence)
    ensures
        sequence@.parameters == seq![digits(n as nat)],
        sequence@.final_bytes == seq![' ', '`'],
{
    proof {
        reveal_strlit(" `");
    }
    ControlSequence::new(&[&render(n)], " `")
}

/// # TCC - Tabulation centred on character
///
/// TCC causes a character tabulation stop calling for alignment of a target graphic character to be set at
/// character position `l` in the active line (the line that contains the active presentation position) and lines of
/// subsequent text in the presentation component, and the target character
/// about which centring is to be performed is specified by `ascii`. TCC causes the replacement of any
/// tabulation stop previously set at that character position, but does not affect other tabulation stops.
///
/// The positioning of a text string aligned with a tabulation stop set by TCC will be determined by the first
/// occurrence in the string of the target graphic character; that character will be centred upon the tabulation
/// stop. If the target character does not occur within the string, then the trailing edge of the first character
/// of the string will be positioned at the tabulation stop.
///
/// The value of `ascii` indicates the code table position (binary value) of the target character in the currently
/// invoked code. For a 7-bit code, the permissible range of values is 32 to 127; for an 8-bit code, the
/// permissible range of values is 32 to 127 and 160 to 255.
pub fn tabulation_center_on_char(l: usize, ascii: usize) -> (sequence: ControlSequence)
    ensures
        sequence@.parameters == seq![digits(l as nat), digits(ascii as nat)],
        sequence@.final_bytes == seq![' ', 'c'],
{
    proof {
        reveal_strlit(" c");
    }
    ControlSequence::new(&[&render(l), &render(ascii)], " c")
}

/// # TSS - Thin space specification
///
/// TSS is used to establish the width of a thin space for subsequent text. The established width remains in
/// effect until the next occurrence of TSS in the data stream, see annex C.
///
/// `width` specifies the width of the thin space.
///
/// The unit in which the parameter value is expressed is that established by the parameter value of SELECT
/// SIZE UNIT (SSU).
pub fn specify_thin_space(width: usize) -> (sequence: ControlSequence)
    ensures
        sequence@.parameters == seq![digits(width as nat)],
        sequence@.final_bytes == seq![' ', 'E'],
{
    proof {
        reveal_strlit(" E");
    }
    ControlSequence::new(&[&render(width)], " E")
}

} // verus!
