//! Ranges of values for the argument on an axis.

use vstd::prelude::*;
use vstd::string::StrSliceExecFns;

verus! {

/// The values `start`, `start + step`, ... up to `end` at most.
#[derive(Clone, Copy, PartialEq, Eq, Structural, Debug)]
pub struct ArgRange {
    start: usize,
    end: usize,
    step: usize,
}

/// The mathematical value of a range.
pub struct Span {
    /// The first value.
    pub start: nat,
    /// The bound that no value exceeds.
    pub end: nat,
    /// The distance from one value to the next.
    pub step: nat,
}

impl Span {
    /// The number of values, for a step that is not zero.
    pub open spec fn len(self) -> nat {
        if self.start > self.end {
            0
        } else {
            ((self.end - self.start) / (self.step as int) + 1) as nat
        }
    }

    /// The value at place `i`.
    pub open spec fn value(self, i: int) -> int {
        self.start + i * self.step
    }
}

impl View for ArgRange {
    type V = Span;

    closed spec fn view(&self) -> Span {
        Span { start: self.start as nat, end: self.end as nat, step: self.step as nat }
    }
}

/// Why some words are not a range.
#[derive(Clone, Copy, PartialEq, Eq, Structural, Debug)]
pub enum RangeError {
    /// There are not two or three parts.
    NotARange,
    /// A part is not a number that fits the machine word.
    NotANumber,
    /// The first value lies above the bound.
    Inverted,
}

/// The value of a decimal digit.
pub open spec fn digit(c: char) -> Option<nat> {
    if '0' <= c && c <= '9' {
        Some(((c as u8) - 48) as nat)
    } else {
        None
    }
}

/// Whether a text is made of decimal digits only.
pub open spec fn all_digits(text: Seq<char>) -> bool {
    forall|i: int| 0 <= i < text.len() ==> digit(#[trigger] text[i]) is Some
}

/// The number that a text of decimal digits denotes.
pub open spec fn decimal(text: Seq<char>) -> nat
    decreases text.len(),
{
    if text.len() == 0 {
        0
    } else {
        decimal(text.drop_last()) * 10 + digit(text.last()).unwrap_or(0)
    }
}

/// The number that a text denotes: decimal digits, at least one, after
/// an optional plus sign, with a value that fits the machine word.
pub open spec fn number(text: Seq<char>) -> Option<usize> {
    let digits = if text.len() > 0 && text[0] == '+' {
        text.drop_first()
    } else {
        text
    };
    if digits.len() > 0 && all_digits(digits) && decimal(digits) <= usize::MAX {
        Some(decimal(digits) as usize)
    } else {
        None
    }
}

/// The range that the parts of a word denote: first value and bound, and
/// a step where there is a third part, else a step of one.
pub open spec fn range_of_parts(parts: Seq<Seq<char>>) -> Result<Span, RangeError> {
    if parts.len() == 2 || parts.len() == 3 {
        let start = number(parts[0]);
        let end = number(parts[1]);
        let step = if parts.len() == 3 {
            number(parts[2])
        } else {
            Some(1usize)
        };
        if start is None || end is None || step is None {
            Err(RangeError::NotANumber)
        } else if start->0 > end->0 {
            Err(RangeError::Inverted)
        } else {
            Ok(Span { start: start->0 as nat, end: end->0 as nat, step: step->0 as nat })
        }
    } else {
        Err(RangeError::NotARange)
    }
}

/// What is left of a text when the white space at both its ends is taken
/// away.
pub uninterp spec fn trimmed(text: Seq<char>) -> Seq<char>;

/// `str::trim` of the standard library: the text without its leading and
/// trailing white space. Nothing is claimed of the result but that it
/// depends on the characters of the text alone.
#[verifier::external_body]
fn trim<'a>(text: &'a str) -> (inner: &'a str)
    ensures
        inner@ == trimmed(text@),
{
    text.trim()
}

proof fn lemma_decimal_grows(text: Seq<char>, shorter: int)
    requires
        0 <= shorter <= text.len(),
    ensures
        decimal(text.take(shorter)) <= decimal(text),
    decreases text.len(),
{
    if shorter == text.len() {
        assert(text.take(shorter) =~= text);
    } else {
        assert(text.drop_last().take(shorter) =~= text.take(shorter));
        lemma_decimal_grows(text.drop_last(), shorter);
    }
}

/// Reads a number: decimal digits after an optional plus sign.
pub fn parse_number(text: &str) -> (parsed: Option<usize>)
    ensures
        parsed == number(text@),
{
    let len = text.unicode_len();
    let first: usize = if len > 0 && text.get_char(0) == '+' {
        1
    } else {
        0
    };
    if first == len {
        return None;
    }
    let ghost digits = if first == 1 {
        text@.drop_first()
    } else {
        text@
    };
    let mut value: usize = 0;
    let mut i: usize = first;
    while i < len
        invariant
            first <= i <= len,
            len == text@.len(),
            digits =~= text@.subrange(first as int, len as int),
            digits == if text@.len() > 0 && text@[0] == '+' {
                text@.drop_first()
            } else {
                text@
            },
            all_digits(digits.take(i - first)),
            value == decimal(digits.take(i - first)),
        decreases len - i,
    {
        let c = text.get_char(i);
        assert(digits.take(i - first + 1).drop_last() =~= digits.take(i - first));
        if !('0' <= c && c <= '9') {
            assert(digit(digits[i - first]) is None);
            return None;
        }
        let d: usize = ((c as u8) - 48) as usize;
        if value > (usize::MAX - d) / 10 {
            proof {
                lemma_decimal_grows(digits, i - first + 1);
            }
            return None;
        }
        value = value * 10 + d;
        i += 1;
    }
    assert(digits.take(len - first) =~= digits);
    Some(value)
}

impl ArgRange {
    /// The range from `start` up to `end` in steps of `step`.
    pub fn new(start: usize, end: usize, step: usize) -> (range: ArgRange)
        ensures
            range@ == (Span { start: start as nat, end: end as nat, step: step as nat }),
    {
        ArgRange { start, end, step }
    }

    /// The first value, the bound and the step.
    pub fn get_by_values(&self) -> (values: (usize, usize, usize))
        ensures
            values.0 == self@.start,
            values.1 == self@.end,
            values.2 == self@.step,
    {
        (self.start, self.end, self.step)
    }

    /// The number of values, where it can be told: `None` for a step of
    /// zero, by which the range never gets anywhere, and for a count that
    /// does not fit the machine word.
    pub fn checked_len(&self) -> (len: Option<usize>)
        ensures
            len matches Some(n) ==> self@.step > 0 && n == self@.len(),
            len is None <==> self@.step == 0 || self@.len() > usize::MAX,
    {
        if self.step == 0 {
            None
        } else if self.start > self.end {
            Some(0)
        } else {
            let whole = (self.end - self.start) / self.step;
            if whole == usize::MAX {
                None
            } else {
                Some(whole + 1)
            }
        }
    }

    /// The number of values.
    pub fn len(&self) -> (len: usize)
        requires
            self@.step > 0,
            self@.len() <= usize::MAX,
        ensures
            len == self@.len(),
    {
        if self.start > self.end {
            0
        } else {
            (self.end - self.start) / self.step + 1
        }
    }

    /// The values of the range in their order.
    pub fn values(&self) -> (values: Vec<usize>)
        requires
            self@.step > 0,
            self@.len() <= usize::MAX,
        ensures
            values@.len() == self@.len(),
            forall|i: int| 0 <= i < values@.len() ==> #[trigger] values@[i] == self@.value(i),
            forall|i: int| 0 <= i < values@.len() ==> self@.start <= #[trigger] values@[i] <= self@.end,
    {
        let len = self.len();
        let mut values: Vec<usize> = Vec::new();
        let mut i: usize = 0;
        while i < len
            invariant
                i <= len,
                len == self@.len(),
                self@.step > 0,
                values@.len() == i,
                forall|j: int| 0 <= j < i ==> #[trigger] values@[j] == self@.value(j),
                forall|j: int| 0 <= j < i ==> self@.start <= #[trigger] values@[j] <= self@.end,
            decreases len - i,
        {
            assert(i * self.step <= self.end - self.start) by (nonlinear_arith)
                requires
                    i < len,
                    self.start <= self.end,
                    self.step > 0,
                    len == (self.end - self.start) / (self.step as int) + 1,
            ;
            values.push(self.start + i * self.step);
            i += 1;
        }
        values
    }
}

/// Builds the range that the parts of a word denote. The parts are read
/// as they stand: white space in a part makes it no number.
pub fn range_of(parts: &[&str]) -> (range: Result<ArgRange, RangeError>)
    ensures
        match range_of_parts(Seq::new(parts@.len(), |i: int| parts@[i]@)) {
            Ok(span) => range matches Ok(r) && r@ == span,
            Err(error) => range == Err::<ArgRange, RangeError>(error),
        },
{
    if parts.len() != 2 && parts.len() != 3 {
        return Err(RangeError::NotARange);
    }
    let start = parse_number(parts[0]);
    let end = parse_number(parts[1]);
    let step = if parts.len() == 3 {
        parse_number(parts[2])
    } else {
        Some(1)
    };
    match (start, end, step) {
        (Some(start), Some(end), Some(step)) => {
            if start > end {
                Err(RangeError::Inverted)
            } else {
                Ok(ArgRange::new(start, end, step))
            }
        },
        _ => Err(RangeError::NotANumber),
    }
}

/// Builds the range that the parts of a word denote, each part read
/// without the white space around it.
pub fn arg_to_range(this_arg: &[&str]) -> (range: Result<ArgRange, RangeError>)
    ensures
        match range_of_parts(Seq::new(this_arg@.len(), |i: int| trimmed(this_arg@[i]@))) {
            Ok(span) => range matches Ok(r) && r@ == span,
            Err(error) => range == Err::<ArgRange, RangeError>(error),
        },
{
    let mut parts: Vec<&str> = Vec::new();
    let mut i: usize = 0;
    while i < this_arg.len()
        invariant
            i <= this_arg@.len(),
            parts@.len() == i,
            forall|j: int| 0 <= j < i ==> (#[trigger] parts@[j])@ == trimmed(this_arg@[j]@),
        decreases this_arg@.len() - i,
    {
        parts.push(trim(this_arg[i]));
        i += 1;
    }
    assert(Seq::new(parts@.len(), |i: int| parts@[i]@) =~= Seq::new(
        this_arg@.len(),
        |i: int| trimmed(this_arg@[i]@),
    ));
    range_of(parts.as_slice())
}

} // verus!
