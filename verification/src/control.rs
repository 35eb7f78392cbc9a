//! This module defines the [ControlSequence] struct which represent sequence introduced by **CSI**.
//!
//! It also says, as functions on mathematical sequences, what the text of a control sequence
//! is ([control_text]), and states what holds of that text whatever the parameters are.

use vstd::prelude::*;
use crate::decimal::{digits, is_numeral, lemma_digits_distinct, lemma_digits_numerals};
use crate::introducers::{CSI, ESC};

verus! {

/// What a control sequence holds: its parameters in order, each as text, and the characters
/// that end it.
pub struct Encoding {
    pub parameters: Seq<Seq<char>>,
    pub final_bytes: Seq<char>,
}

/// The parts in order with `separator` between neighbours: nothing before the first part,
/// nothing after the last, and nothing at all for no parts.
pub open spec fn join(parts: Seq<Seq<char>>, separator: char) -> Seq<char>
    decreases parts.len(),
{
    if parts.len() == 0 {
        Seq::empty()
    } else if parts.len() == 1 {
        parts[0]
    } else {
        join(parts.drop_last(), separator).push(separator) + parts.last()
    }
}

/// The text of a control sequence: `ESC [`, the parameters separated by `;`, the final bytes.
pub open spec fn control_text(parameters: Seq<Seq<char>>, final_bytes: Seq<char>) -> Seq<char> {
    seq![ESC, '['] + join(parameters, ';') + final_bytes
}

/// The texts of some strings or string slices, in order.
pub open spec fn texts<T: View<V = Seq<char>>>(from: Seq<T>) -> Seq<Seq<char>> {
    Seq::new(from.len(), |i: int| from[i]@)
}

/// The strings of `from` as slices, in the same order.
pub(crate) fn borrowed(from: &Vec<String>) -> (slices: Vec<&str>)
    ensures
        texts(slices@) == texts(from@),
{
    let mut slices: Vec<&str> = Vec::new();
    let mut i: usize = 0;
    while i < from.len()
        invariant
            i <= from.len(),
            slices@.len() == i,
            forall|k: int| 0 <= k < i ==> (#[trigger] slices@[k])@ == from@[k]@,
        decreases from.len() - i,
    {
        slices.push(from[i].as_str());
        i += 1;
    }
    slices
}

/// A control sequence is a string of bit combinations starting with the control function CONTROL
/// SEQUENCE INTRODUCER (CSI).
///
/// Followed by one or more bit combinations representing parameters, if
/// any, and by one or more bit combinations identifying the control function.
///
/// The text of a control sequence is what [ControlSequence::to_string] returns:
/// ```
/// use coded_chars::control::ControlSequence;
/// let sequence = ControlSequence::new(&["1", "1"], "H");
///
/// assert_eq!(sequence.to_string(), "\x1b[1;1H");
/// ```
///
/// Almost every function from this crate return [ControlSequence]s :
///
/// ```
/// // This example is equivalent to the above example :
/// use coded_chars::cursor::set_position;
///
/// let sequence = set_position(1, 1); // Returns a ControlSequence
/// assert_eq!(sequence.to_string(), "\x1b[1;1H");
/// ```
///
/// A value is made in one step and never changes afterwards.
pub struct ControlSequence {
    arguments: Vec<String>,
    end: String,
}

impl Clone for ControlSequence {
    /// The copy holds the same parameters and the same final bytes.
    fn clone(&self) -> (sequence: Self)
        ensures
            sequence@ == self@,
    {
        let sequence = ControlSequence { arguments: self.arguments.clone(), end: self.end.clone() };
        assert(sequence@.parameters =~= self@.parameters);
        sequence
    }
}

impl View for ControlSequence {
    type V = Encoding;

    closed spec fn view(&self) -> Encoding {
        Encoding {
            parameters: texts(self.arguments@),
            final_bytes: self.end@,
        }
    }
}

impl ControlSequence {
    /// The text sent for this control sequence.
    pub open spec fn rendered(&self) -> Seq<char> {
        control_text(self@.parameters, self@.final_bytes)
    }

    /// The control sequence with the parameters `from`, in that order, and the final bytes
    /// `end`. Neither is interpreted: no parameter is checked, and `end` may hold an
    /// intermediate byte before the final one.
    pub fn new(from: &[&str], end: &str) -> (sequence: Self)
        ensures
            sequence@.parameters == texts(from@),
            sequence@.final_bytes == end@,
    {
        let mut arguments: Vec<String> = Vec::new();
        let mut i: usize = 0;
        while i < from.len()
            invariant
                i <= from.len(),
                arguments@.len() == i,
                forall|k: int| 0 <= k < i ==> (#[trigger] arguments@[k])@ == from@[k]@,
            decreases from.len() - i,
        {
            arguments.push(from[i].to_owned());
            i += 1;
        }
        ControlSequence { arguments, end: end.to_owned() }
    }

    /// The text of the control sequence: `CSI`, the parameters with `;` between them, and the
    /// final bytes.
    pub fn to_string(&self) -> (text: String)
        ensures
            text@ == self.rendered(),
    {
        let mut text = CSI().to_string();
        let ghost parameters = self@.parameters;
        let mut i: usize = 0;
        while i < self.arguments.len()
            invariant
                i <= self.arguments.len(),
                parameters == self@.parameters,
                parameters.len() == self.arguments.len(),
                text@ == seq![ESC, '['] + join(parameters.take(i as int), ';'),
            decreases self.arguments.len() - i,
        {
            if i > 0 {
                text.push(';');
            }
            text.append(self.arguments[i].as_str());
            proof {
                let before = parameters.take(i as int);
                let now = parameters.take(i + 1);
                assert(now.drop_last() == before);
                assert(now.last() == self.arguments@[i as int]@);
            }
            i += 1;
        }
        text.append(self.end.as_str());
        proof {
            assert(parameters.take(i as int) == parameters);
        }
        text
    }
}

/// A control sequence built from the parameters `P` and the final bytes `F` renders as
/// `ESC [`, then the texts of `P` with one `;` between neighbours, then `F`. With no
/// parameter, `F` follows the introducer directly.
pub proof fn lemma_rendered_form(
    sequence: ControlSequence,
    parameters: Seq<Seq<char>>,
    final_bytes: Seq<char>,
)
    requires
        sequence@.parameters == parameters,
        sequence@.final_bytes == final_bytes,
    ensures
        sequence.rendered() == seq![ESC, '['] + join(parameters, ';') + final_bytes,
        parameters.len() == 0 ==> sequence.rendered() == seq![ESC, '['] + final_bytes,
        parameters.len() == 1 ==> sequence.rendered() == seq![ESC, '['] + parameters[0]
            + final_bytes,
        parameters.len() >= 2 ==> sequence.rendered() == seq![ESC, '['] + join(
            parameters.drop_last(),
            ';',
        ) + seq![';'] + parameters.last() + final_bytes,
{
}

/// Joining after one more part: the part alone if it is the first, and otherwise the earlier
/// parts joined, one separator, and the part.
pub proof fn lemma_join_push(parts: Seq<Seq<char>>, part: Seq<char>, separator: char)
    ensures
        join(parts.push(part), separator) == if parts.len() == 0 {
            part
        } else {
            join(parts, separator).push(separator) + part
        },
{
    assert(parts.push(part).drop_last() == parts);
}

/// Parameters are kept in the order in which they were selected. Let `before` be what a
/// builder holds. After the codes `a` then `b` it holds `before, a, b`; after `b` then `a` it
/// holds `before, b, a`. Where the codes differ, the two lists differ and so do the texts
/// rendered from them, whatever was selected before and whatever the final bytes are.
pub proof fn lemma_selection_order(
    before: Seq<Seq<char>>,
    a: nat,
    b: nat,
    final_bytes: Seq<char>,
)
    requires
        a != b,
    ensures
        before.push(digits(a)).push(digits(b)) == before + seq![digits(a), digits(b)],
        before.push(digits(b)).push(digits(a)) == before + seq![digits(b), digits(a)],
        before.push(digits(a)).push(digits(b)) != before.push(digits(b)).push(digits(a)),
        control_text(before.push(digits(a)).push(digits(b)), final_bytes) != control_text(
            before.push(digits(b)).push(digits(a)),
            final_bytes,
        ),
{
    let x = digits(a);
    let y = digits(b);
    let first = before.push(x).push(y);
    let second = before.push(y).push(x);
    lemma_digits_distinct(a, b);
    lemma_digits_numerals(a);
    lemma_digits_numerals(b);
    assert(first[before.len() as int] == x);
    assert(second[before.len() as int] == y);
    // What both texts start with: the introducer, the earlier parameters and their separator.
    let head = if before.len() == 0 {
        seq![ESC, '[']
    } else {
        seq![ESC, '['] + join(before, ';').push(';')
    };
    let one = control_text(first, final_bytes);
    let two = control_text(second, final_bytes);
    assert(one == head + x + seq![';'] + y + final_bytes) by {
        lemma_join_push(before, x, ';');
        lemma_join_push(before.push(x), y, ';');
    }
    assert(two == head + y + seq![';'] + x + final_bytes) by {
        lemma_join_push(before, y, ';');
        lemma_join_push(before.push(y), x, ';');
    }
    if x.len() == y.len() {
        assert(!(x =~= y));
        let i = choose|i: int| 0 <= i < x.len() && x[i] != y[i];
        assert(one[head.len() + i] == x[i]);
        assert(two[head.len() + i] == y[i]);
    } else if x.len() < y.len() {
        let k = (head.len() + x.len()) as int;
        assert(one[k] == ';');
        assert(two[k] == y[x.len() as int]);
        assert(is_numeral(y[x.len() as int]));
    } else {
        let k = (head.len() + y.len()) as int;
        assert(two[k] == ';');
        assert(one[k] == x[y.len() as int]);
        assert(is_numeral(x[y.len() as int]));
    }
}

/// Nothing is deduplicated. Let `before` be what a builder holds, with or without the code
/// in it: selecting the same code twice adds two parameters to it, both that code, and
/// leaves what it held where it was.
pub proof fn lemma_repeated_selection(before: Seq<Seq<char>>, code: nat)
    ensures
        before.push(digits(code)).len() == before.len() + 1,
        before.push(digits(code)).push(digits(code)).len() == before.len() + 2,
        before.push(digits(code)).push(digits(code)) == before + seq![digits(code), digits(code)],
        forall|i: int|
            0 <= i < before.len() ==> before.push(digits(code)).push(digits(code))[i]
                == before[i],
{
}

} // verus!
