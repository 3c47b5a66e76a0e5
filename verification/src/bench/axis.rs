//! The arguments of a benchmark run that a chart can take as an axis.

use vstd::prelude::*;
use crate::bench::text::{count_of, lowercase_chars, occurrences, spells, to_ascii_lowercase};

verus! {

/// The message of a word that names no axis.
pub open spec fn invalid_variant() -> Seq<char> {
    "Invalid string for variant"@
}

/// Whether a word is written as a range: two or three parts with a colon
/// between them.
pub open spec fn is_range(word: Seq<char>) -> bool {
    count_of(word, ':') == 1 || count_of(word, ':') == 2
}

/// Whether a word holds a colon, as only a range may.
pub open spec fn has_colon(word: Seq<char>) -> bool {
    count_of(word, ':') > 0
}

/// An argument of the mutex benchmark.
#[derive(Clone, Copy, PartialEq, Eq, Structural, Debug)]
pub enum MxArg {
    Threads,
    WorkPer,
    WorkBetween,
    Seconds,
    Iterations,
}

/// An argument of the read-write lock benchmark.
#[derive(Clone, Copy, PartialEq, Eq, Structural, Debug)]
pub enum RwArg {
    Writers,
    Readers,
    WorkPer,
    WorkBetween,
    Seconds,
    Iterations,
}

impl MxArg {
    /// The place of the argument on the benchmark's command line.
    pub open spec fn spec_idx(self) -> usize {
        match self {
            MxArg::Threads => 0,
            MxArg::WorkPer => 1,
            MxArg::WorkBetween => 2,
            MxArg::Seconds => 3,
            MxArg::Iterations => 4,
        }
    }

    /// The argument that a lower-case name stands for.
    pub open spec fn spec_named(name: Seq<char>) -> Option<MxArg> {
        if name == "threads"@ || name == "t"@ {
            Some(MxArg::Threads)
        } else if name == "workper"@ || name == "p"@ {
            Some(MxArg::WorkPer)
        } else if name == "workbetween"@ || name == "between"@ || name == "b"@ {
            Some(MxArg::WorkBetween)
        } else if name == "seconds"@ || name == "secs"@ || name == "s"@ {
            Some(MxArg::Seconds)
        } else if name == "iterations"@ || name == "iters"@ || name == "i"@ {
            Some(MxArg::Iterations)
        } else {
            None
        }
    }

    /// The argument that a word names, whatever the case of its letters.
    pub open spec fn spec_from_str(word: Seq<char>) -> Option<MxArg> {
        Self::spec_named(to_ascii_lowercase(word))
    }

    /// The text of the argument on a chart.
    pub open spec fn spec_label(self) -> Seq<char> {
        match self {
            MxArg::Threads => "worker threads"@,
            MxArg::WorkPer => "work per critical section"@,
            MxArg::WorkBetween => "work between critical sections"@,
            MxArg::Seconds => "duration in seconds"@,
            MxArg::Iterations => "iterations"@,
        }
    }

    /// The place of the argument on the benchmark's command line.
    pub fn idx(&self) -> (idx: usize)
        ensures
            idx == self.spec_idx(),
            idx < 5,
    {
        match self {
            MxArg::Threads => 0,
            MxArg::WorkPer => 1,
            MxArg::WorkBetween => 2,
            MxArg::Seconds => 3,
            MxArg::Iterations => 4,
        }
    }

    /// Tells whether the word at this argument's place is written as a
    /// range.
    pub fn check_corresponding_range(&self, args: &[&str]) -> (checked: Result<(), ()>)
        requires
            self.spec_idx() < args@.len(),
        ensures
            checked is Ok <==> is_range(args@[self.spec_idx() as int]@),
    {
        let colons = occurrences(args[self.idx()], ':');
        if colons == 1 || colons == 2 {
            Ok(())
        } else {
            Err(())
        }
    }

    /// The text of the argument on a chart.
    pub fn label(&self) -> (label: &'static str)
        ensures
            label@ == self.spec_label(),
    {
        match self {
            MxArg::Threads => "worker threads",
            MxArg::WorkPer => "work per critical section",
            MxArg::WorkBetween => "work between critical sections",
            MxArg::Seconds => "duration in seconds",
            MxArg::Iterations => "iterations",
        }
    }

    /// Reads the name of an argument: its full name or an abbreviation,
    /// in letters of any case.
    pub fn from_str(word: &str) -> (parsed: Result<MxArg, &'static str>)
        ensures
            match Self::spec_from_str(word@) {
                Some(arg) => parsed == Ok::<MxArg, &'static str>(arg),
                None => parsed matches Err(message) && message@ == invalid_variant(),
            },
    {
        let name = lowercase_chars(word);
        if spells(&name, "threads") || spells(&name, "t") {
            Ok(MxArg::Threads)
        } else if spells(&name, "workper") || spells(&name, "p") {
            Ok(MxArg::WorkPer)
        } else if spells(&name, "workbetween") || spells(&name, "between") || spells(&name, "b") {
            Ok(MxArg::WorkBetween)
        } else if spells(&name, "seconds") || spells(&name, "secs") || spells(&name, "s") {
            Ok(MxArg::Seconds)
        } else if spells(&name, "iterations") || spells(&name, "iters") || spells(&name, "i") {
            Ok(MxArg::Iterations)
        } else {
            Err("Invalid string for variant")
        }
    }
}

impl RwArg {
    /// The place of the argument on the benchmark's command line.
    pub open spec fn spec_idx(self) -> usize {
        match self {
            RwArg::Writers => 0,
            RwArg::Readers => 1,
            RwArg::WorkPer => 2,
            RwArg::WorkBetween => 3,
            RwArg::Seconds => 4,
            RwArg::Iterations => 5,
        }
    }

    /// The argument that a lower-case name stands for.
    pub open spec fn spec_named(name: Seq<char>) -> Option<RwArg> {
        if name == "writers"@ {
            Some(RwArg::Writers)
        } else if name == "readers"@ {
            Some(RwArg::Readers)
        } else if name == "workper"@ || name == "per"@ {
            Some(RwArg::WorkPer)
        } else if name == "workbetween"@ || name == "between"@ {
            Some(RwArg::WorkBetween)
        } else if name == "seconds"@ || name == "secs"@ {
            Some(RwArg::Seconds)
        } else if name == "iterations"@ || name == "iters"@ {
            Some(RwArg::Iterations)
        } else {
            None
        }
    }

    /// The argument that a word names, whatever the case of its letters.
    pub open spec fn spec_from_str(word: Seq<char>) -> Option<RwArg> {
        Self::spec_named(to_ascii_lowercase(word))
    }

    /// The text of the argument on a chart.
    pub open spec fn spec_label(self) -> Seq<char> {
        match self {
            RwArg::Writers => "writer threads"@,
            RwArg::Readers => "reader threads"@,
            RwArg::WorkPer => "work per critical section"@,
            RwArg::WorkBetween => "work between critical sections"@,
            RwArg::Seconds => "duration in seconds"@,
            RwArg::Iterations => "iterations"@,
        }
    }

    /// The place of the argument on the benchmark's command line.
    pub fn idx(&self) -> (idx: usize)
        ensures
            idx == self.spec_idx(),
            idx < 6,
    {
        match self {
            RwArg::Writers => 0,
            RwArg::Readers => 1,
            RwArg::WorkPer => 2,
            RwArg::WorkBetween => 3,
            RwArg::Seconds => 4,
            RwArg::Iterations => 5,
        }
    }

    /// Tells whether the word at this argument's place is written as a
    /// range.
    pub fn check_corresponding_range(&self, args: &[&str]) -> (checked: Result<(), ()>)
        requires
            self.spec_idx() < args@.len(),
        ensures
            checked is Ok <==> is_range(args@[self.spec_idx() as int]@),
    {
        let colons = occurrences(args[self.idx()], ':');
        if colons == 1 || colons == 2 {
            Ok(())
        } else {
            Err(())
        }
    }

    /// The text of the argument on a chart.
    pub fn label(&self) -> (label: &'static str)
        ensures
            label@ == self.spec_label(),
    {
        match self {
            RwArg::Writers => "writer threads",
            RwArg::Readers => "reader threads",
            RwArg::WorkPer => "work per critical section",
            RwArg::WorkBetween => "work between critical sections",
            RwArg::Seconds => "duration in seconds",
            RwArg::Iterations => "iterations",
        }
    }

    /// Reads the name of an argument: its full name or a short form of
    /// several letters, in letters of any case.
    pub fn from_str(word: &str) -> (parsed: Result<RwArg, &'static str>)
        ensures
            match Self::spec_from_str(word@) {
                Some(arg) => parsed == Ok::<RwArg, &'static str>(arg),
                None => parsed matches Err(message) && message@ == invalid_variant(),
            },
    {
        let name = lowercase_chars(word);
        if spells(&name, "writers") {
            Ok(RwArg::Writers)
        } else if spells(&name, "readers") {
            Ok(RwArg::Readers)
        } else if spells(&name, "workper") || spells(&name, "per") {
            Ok(RwArg::WorkPer)
        } else if spells(&name, "workbetween") || spells(&name, "between") {
            Ok(RwArg::WorkBetween)
        } else if spells(&name, "seconds") || spells(&name, "secs") {
            Ok(RwArg::Seconds)
        } else if spells(&name, "iterations") || spells(&name, "iters") {
            Ok(RwArg::Iterations)
        } else {
            Err("Invalid string for variant")
        }
    }
}

/// Whether a word names an axis of either benchmark.
pub open spec fn is_axis(word: Seq<char>) -> bool {
    MxArg::spec_from_str(word) is Some || RwArg::spec_from_str(word) is Some
}

/// Whether `at` is the place of the first word of `args` that names an
/// axis.
pub open spec fn first_axis_at(args: Seq<&str>, at: int) -> bool {
    &&& 0 <= at < args.len()
    &&& is_axis(args[at]@)
    &&& forall|before: int| 0 <= before < at ==> !is_axis(#[trigger] args[before]@)
}

/// Whether `rest` holds the words of `args` but the one at `at`, in
/// their order.
pub open spec fn without_word(args: Seq<&str>, at: int, rest: Seq<String>) -> bool {
    &&& rest.len() == args.len() - 1
    &&& forall|i: int| 0 <= i < at ==> (#[trigger] rest[i])@ == args[i]@
    &&& forall|i: int| at <= i < rest.len() ==> (#[trigger] rest[i])@ == args[i + 1]@
}

/// Tells whether a word names an axis of either benchmark.
pub fn names_axis(word: &str) -> (named: bool)
    ensures
        named == is_axis(word@),
{
    MxArg::from_str(word).is_ok() || RwArg::from_str(word).is_ok()
}

/// Finds the first word that names an axis, and returns it with the
/// other words. Fails where no word names an axis.
pub fn find_axis<'a>(args: &[&'a str]) -> (found: Result<(&'a str, Vec<String>), ()>)
    ensures
        found is Err <==> forall|i: int| 0 <= i < args@.len() ==> !is_axis(#[trigger] args@[i]@),
        found matches Ok((word, rest)) ==> exists|at: int|
            {
                &&& first_axis_at(args@, at)
                &&& word@ == (#[trigger] args@[at])@
                &&& without_word(args@, at, rest@)
            },
{
    let mut at: usize = 0;
    while at < args.len()
        invariant
            at <= args@.len(),
            forall|i: int| 0 <= i < at ==> !is_axis(#[trigger] args@[i]@),
        decreases args@.len() - at,
    {
        if names_axis(args[at]) {
            let mut rest: Vec<String> = Vec::new();
            let mut i: usize = 0;
            while i < args.len()
                invariant
                    at < args@.len(),
                    i <= args@.len(),
                    rest@.len() == if i <= at {
                        i as int
                    } else {
                        i - 1
                    },
                    forall|j: int| 0 <= j < rest@.len() && j < at ==> (#[trigger] rest@[j])@
                        == args@[j]@,
                    forall|j: int|
                        at <= j < rest@.len() ==> (#[trigger] rest@[j])@ == args@[j + 1]@,
                decreases args@.len() - i,
            {
                if i != at {
                    rest.push(args[i].to_owned());
                }
                i += 1;
            }
            return Ok((args[at], rest));
        }
        at += 1;
    }
    Err(())
}

} // verus!
