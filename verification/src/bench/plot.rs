//! What a chart of a benchmark run is drawn over.

use vstd::prelude::*;
use crate::bench::axis::{has_colon, is_range, MxArg, RwArg};
use crate::bench::range::{arg_to_range, range_of_parts, trimmed, ArgRange, RangeError, Span};
use crate::bench::text::{chars_of, lemma_parts_count, occurrences, parts_between, spells, split};

verus! {

/// The number of arguments that the mutex benchmark takes.
pub const MUTEX_ARGUMENTS: usize = 5;

/// The number of arguments that the read-write lock benchmark takes.
pub const RWLOCK_ARGUMENTS: usize = 6;

/// The lock that a benchmark measures.
#[derive(Clone, Copy, PartialEq, Eq, Structural, Debug)]
pub enum Primitive {
    Mutex,
    RwLock,
}

impl Primitive {
    /// The primitive that a word selects.
    pub open spec fn spec_named(word: Seq<char>) -> Option<Primitive> {
        if word == "mx"@ || word == "mutex"@ {
            Some(Primitive::Mutex)
        } else if word == "rw"@ || word == "rwlock"@ {
            Some(Primitive::RwLock)
        } else {
            None
        }
    }

    /// Reads the first word of the command line: the primitive to chart,
    /// by its name or its short form, in lower case.
    pub fn named(word: &str) -> (primitive: Option<Primitive>)
        ensures
            primitive == Self::spec_named(word@),
    {
        let chars = chars_of(word);
        if spells(&chars, "mx") || spells(&chars, "mutex") {
            Some(Primitive::Mutex)
        } else if spells(&chars, "rw") || spells(&chars, "rwlock") {
            Some(Primitive::RwLock)
        } else {
            None
        }
    }
}

/// A chart of the mutex benchmark over two of its arguments.
#[derive(Clone, Copy, Debug)]
pub struct Mutex3D {
    pub x: MxArg,
    pub y: MxArg,
    pub xrange: ArgRange,
    pub yrange: ArgRange,
}

impl Mutex3D {
    /// The argument on the first axis.
    pub fn get_x(&self) -> (x: MxArg)
        ensures
            x == self.x,
    {
        self.x
    }

    /// The argument on the second axis.
    pub fn get_y(&self) -> (y: MxArg)
        ensures
            y == self.y,
    {
        self.y
    }

    /// The values along the first axis.
    pub fn get_xrange(&self) -> (range: ArgRange)
        ensures
            range == self.xrange,
    {
        self.xrange
    }

    /// The values along the second axis.
    pub fn get_yrange(&self) -> (range: ArgRange)
        ensures
            range == self.yrange,
    {
        self.yrange
    }
}

/// A chart of the read-write lock benchmark over two of its arguments.
#[derive(Clone, Copy, Debug)]
pub struct RwLock3D {
    pub x: RwArg,
    pub y: RwArg,
    pub xrange: ArgRange,
    pub yrange: ArgRange,
}

impl RwLock3D {
    /// The name of the primitive on the chart.
    pub fn get_id(&self) -> (id: &'static str)
        ensures
            id@ == "RwLock"@,
    {
        "RwLock"
    }

    /// The argument on the first axis.
    pub fn get_x(&self) -> (x: RwArg)
        ensures
            x == self.x,
    {
        self.x
    }

    /// The argument on the second axis.
    pub fn get_y(&self) -> (y: RwArg)
        ensures
            y == self.y,
    {
        self.y
    }

    /// The values along the first axis.
    pub fn get_xrange(&self) -> (range: ArgRange)
        ensures
            range == self.xrange,
    {
        self.xrange
    }

    /// The values along the second axis.
    pub fn get_yrange(&self) -> (range: ArgRange)
        ensures
            range == self.yrange,
    {
        self.yrange
    }
}

/// A chart of the mutex benchmark over one of its arguments.
#[derive(Clone, Copy, Debug)]
pub struct Mutex2D {
    pub x: MxArg,
    pub xrange: ArgRange,
}

impl Mutex2D {
    /// The name of the primitive on the chart.
    pub fn get_id(&self) -> (id: &'static str)
        ensures
            id@ == "Mutex"@,
    {
        "Mutex"
    }

    /// The argument on the axis.
    pub fn get_x(&self) -> (x: MxArg)
        ensures
            x == self.x,
    {
        self.x
    }

    /// The values along the axis.
    pub fn get_xrange(&self) -> (range: ArgRange)
        ensures
            range == self.xrange,
    {
        self.xrange
    }
}

/// A chart of the read-write lock benchmark over one of its arguments.
#[derive(Clone, Copy, Debug)]
pub struct RwLock2D {
    pub x: RwArg,
    pub xrange: ArgRange,
}

impl RwLock2D {
    /// The name of the primitive on the chart.
    pub fn get_id(&self) -> (id: &'static str)
        ensures
            id@ == "RwLock"@,
    {
        "RwLock"
    }

    /// The argument on the axis.
    pub fn get_x(&self) -> (x: RwArg)
        ensures
            x == self.x,
    {
        self.x
    }

    /// The values along the axis.
    pub fn get_xrange(&self) -> (range: ArgRange)
        ensures
            range == self.xrange,
    {
        self.xrange
    }
}

/// Whether the word at place `i` is written with a colon although the
/// place is not that of an axis.
pub open spec fn stray_at(args: Seq<&str>, x: usize, y: Option<usize>, i: int) -> bool {
    &&& 0 <= i < args.len()
    &&& has_colon(args[i]@)
    &&& i != x
    &&& y matches Some(y) ==> i != y
}

/// Tells whether some word is written with a colon at a place that is
/// not the place `x`, nor the place `y` where there is one: only the
/// arguments on the axes may be ranges.
pub fn stray_range(args: &[&str], x: usize, y: Option<usize>) -> (stray: bool)
    ensures
        stray <==> exists|i: int| stray_at(args@, x, y, i),
{
    let mut i: usize = 0;
    while i < args.len()
        invariant
            i <= args@.len(),
            forall|j: int| 0 <= j < i ==> !stray_at(args@, x, y, j),
        decreases args@.len() - i,
    {
        let on_axis = i == x || match y {
            Some(y) => i == y,
            None => false,
        };
        if !on_axis && occurrences(args[i], ':') > 0 {
            assert(stray_at(args@, x, y, i as int));
            return true;
        }
        i += 1;
    }
    false
}

/// The range that a word denotes: its parts between the colons, each
/// without the white space around it, read as numbers.
pub open spec fn range_of_word(word: Seq<char>) -> Result<Span, RangeError> {
    range_of_parts(parts_between(word, ':').map_values(|part: Seq<char>| trimmed(part)))
}

/// Reads a word as a range: its parts between the colons, each without
/// the white space around it.
pub fn range_in(word: &str) -> (range: Result<ArgRange, RangeError>)
    ensures
        match range_of_word(word@) {
            Ok(span) => range matches Ok(r) && r@ == span,
            Err(error) => range == Err::<ArgRange, RangeError>(error),
        },
        range == Err::<ArgRange, RangeError>(RangeError::NotARange) <==> !is_range(word@),
{
    proof {
        lemma_parts_count(word@, ':');
    }
    let parts = split(word, ':');
    arg_to_range(parts.as_slice())
}

/// Why the words of a command line give no chart.
#[derive(Clone, Copy, PartialEq, Eq, Structural, Debug)]
pub enum ChartError {
    /// The benchmark does not take this number of arguments.
    ArgumentCount,
    /// The word for an axis names no argument of this benchmark.
    UnknownAxis,
    /// The word at the place of an axis is not written as a range.
    AxisNotARange,
    /// A word at another place is written with a colon.
    StrayRange,
    /// The word at the place of an axis denotes no range.
    Range(RangeError),
}

/// The ranges on the axes at the places `x` and `y`, or the first rule
/// that the words break: the words on the axes are written as ranges, no
/// other word is, and the ranges can be read, first that of `x`.
pub open spec fn ranges_of_axes(args: Seq<&str>, x: usize, y: Option<usize>) -> Result<
    (Span, Option<Span>),
    ChartError,
> {
    if !is_range(args[x as int]@) || (y matches Some(y) && !is_range(args[y as int]@)) {
        Err(ChartError::AxisNotARange)
    } else if exists|i: int| stray_at(args, x, y, i) {
        Err(ChartError::StrayRange)
    } else {
        match (range_of_word(args[x as int]@), y) {
            (Err(error), _) => Err(ChartError::Range(error)),
            (Ok(xrange), None) => Ok((xrange, None)),
            (Ok(xrange), Some(y)) => match range_of_word(args[y as int]@) {
                Err(error) => Err(ChartError::Range(error)),
                Ok(yrange) => Ok((xrange, Some(yrange))),
            },
        }
    }
}

/// Whether `read` is what `ranges_of_axes` says.
pub open spec fn ranges_read(
    args: Seq<&str>,
    x: usize,
    y: Option<usize>,
    read: Result<(ArgRange, Option<ArgRange>), ChartError>,
) -> bool {
    match ranges_of_axes(args, x, y) {
        Err(error) => read == Err::<(ArgRange, Option<ArgRange>), ChartError>(error),
        Ok((xrange, yrange)) => {
            &&& read matches Ok((xread, yread))
            &&& xread@ == xrange
            &&& yread is Some == yrange is Some
            &&& yread matches Some(yread) ==> yread@ == yrange->0
        },
    }
}

/// Reads the ranges on the axes at the places `x` and `y`.
pub fn axis_ranges(args: &[&str], x: usize, y: Option<usize>) -> (read: Result<
    (ArgRange, Option<ArgRange>),
    ChartError,
>)
    requires
        x < args@.len(),
        y matches Some(y) ==> y < args@.len(),
    ensures
        ranges_read(args@, x, y, read),
{
    let x_colons = occurrences(args[x], ':');
    if x_colons != 1 && x_colons != 2 {
        return Err(ChartError::AxisNotARange);
    }
    if let Some(y) = y {
        let y_colons = occurrences(args[y], ':');
        if y_colons != 1 && y_colons != 2 {
            return Err(ChartError::AxisNotARange);
        }
    }
    if stray_range(args, x, y) {
        return Err(ChartError::StrayRange);
    }
    let xrange = match range_in(args[x]) {
        Ok(range) => range,
        Err(error) => {
            return Err(ChartError::Range(error));
        },
    };
    match y {
        None => Ok((xrange, None)),
        Some(y) => match range_in(args[y]) {
            Ok(yrange) => Ok((xrange, Some(yrange))),
            Err(error) => Err(ChartError::Range(error)),
        },
    }
}

impl Mutex3D {
    /// What the words give: the chart, or the first rule that they break.
    /// The rules, in their order: there are as many arguments as the
    /// benchmark takes; the words for the axes name arguments of it, first
    /// that of the first axis; the ranges are as `ranges_of_axes` says.
    pub open spec fn spec_from_args(xword: Seq<char>, yword: Seq<char>, args: Seq<&str>) -> Result<
        (MxArg, MxArg, Span, Span),
        ChartError,
    > {
        if args.len() != MUTEX_ARGUMENTS {
            Err(ChartError::ArgumentCount)
        } else {
            match (MxArg::spec_from_str(xword), MxArg::spec_from_str(yword)) {
                (Some(x), Some(y)) => match ranges_of_axes(
                    args,
                    x.spec_idx(),
                    Some(y.spec_idx()),
                ) {
                    Err(error) => Err(error),
                    Ok((xrange, yrange)) => Ok((x, y, xrange, yrange->0)),
                },
                _ => Err(ChartError::UnknownAxis),
            }
        }
    }

    /// Builds the chart over the axes named `xword` and `yword` from the
    /// arguments of a run.
    pub fn from_args(xword: &str, yword: &str, args: &[&str]) -> (chart: Result<
        Mutex3D,
        ChartError,
    >)
        ensures
            match Self::spec_from_args(xword@, yword@, args@) {
                Err(error) => chart == Err::<Mutex3D, ChartError>(error),
                Ok((x, y, xrange, yrange)) => {
                    &&& chart matches Ok(c)
                    &&& c.x == x
                    &&& c.y == y
                    &&& c.xrange@ == xrange
                    &&& c.yrange@ == yrange
                },
            },
    {
        if args.len() != MUTEX_ARGUMENTS {
            return Err(ChartError::ArgumentCount);
        }
        match (MxArg::from_str(xword), MxArg::from_str(yword)) {
            (Ok(x), Ok(y)) => match axis_ranges(args, x.idx(), Some(y.idx())) {
                Ok((xrange, Some(yrange))) => Ok(Mutex3D { x, y, xrange, yrange }),
                Ok((_, None)) => Err(ChartError::AxisNotARange),
                Err(error) => Err(error),
            },
            _ => Err(ChartError::UnknownAxis),
        }
    }
}

impl Mutex2D {
    /// What the words give: the chart, or the first rule that they break.
    /// The rules, in their order: there are as many arguments as the
    /// benchmark takes; the word for the axis names an argument of it; the
    /// range is as `ranges_of_axes` says.
    pub open spec fn spec_from_args(xword: Seq<char>, args: Seq<&str>) -> Result<
        (MxArg, Span),
        ChartError,
    > {
        if args.len() != MUTEX_ARGUMENTS {
            Err(ChartError::ArgumentCount)
        } else {
            match MxArg::spec_from_str(xword) {
                Some(x) => match ranges_of_axes(args, x.spec_idx(), None) {
                    Err(error) => Err(error),
                    Ok((xrange, _)) => Ok((x, xrange)),
                },
                None => Err(ChartError::UnknownAxis),
            }
        }
    }

    /// Builds the chart over the axis named `xword` from the arguments of
    /// a run.
    pub fn from_args(xword: &str, args: &[&str]) -> (chart: Result<Mutex2D, ChartError>)
        ensures
            match Self::spec_from_args(xword@, args@) {
                Err(error) => chart == Err::<Mutex2D, ChartError>(error),
                Ok((x, xrange)) => chart matches Ok(c) && c.x == x && c.xrange@ == xrange,
            },
    {
        if args.len() != MUTEX_ARGUMENTS {
            return Err(ChartError::ArgumentCount);
        }
        match MxArg::from_str(xword) {
            Ok(x) => match axis_ranges(args, x.idx(), None) {
                Ok((xrange, _)) => Ok(Mutex2D { x, xrange }),
                Err(error) => Err(error),
            },
            Err(_) => Err(ChartError::UnknownAxis),
        }
    }
}

impl RwLock3D {
    /// What the words give: the chart, or the first rule that they break.
    /// The rules, in their order: there are as many arguments as the
    /// benchmark takes; the words for the axes name arguments of it, first
    /// that of the first axis; the ranges are as `ranges_of_axes` says.
    pub open spec fn spec_from_args(xword: Seq<char>, yword: Seq<char>, args: Seq<&str>) -> Result<
        (RwArg, RwArg, Span, Span),
        ChartError,
    > {
        if args.len() != RWLOCK_ARGUMENTS {
            Err(ChartError::ArgumentCount)
        } else {
            match (RwArg::spec_from_str(xword), RwArg::spec_from_str(yword)) {
                (Some(x), Some(y)) => match ranges_of_axes(
                    args,
                    x.spec_idx(),
                    Some(y.spec_idx()),
                ) {
                    Err(error) => Err(error),
                    Ok((xrange, yrange)) => Ok((x, y, xrange, yrange->0)),
                },
                _ => Err(ChartError::UnknownAxis),
            }
        }
    }

    /// Builds the chart over the axes named `xword` and `yword` from the
    /// arguments of a run.
    pub fn from_args(xword: &str, yword: &str, args: &[&str]) -> (chart: Result<
        RwLock3D,
        ChartError,
    >)
        ensures
            match Self::spec_from_args(xword@, yword@, args@) {
                Err(error) => chart == Err::<RwLock3D, ChartError>(error),
                Ok((x, y, xrange, yrange)) => {
                    &&& chart matches Ok(c)
                    &&& c.x == x
                    &&& c.y == y
                    &&& c.xrange@ == xrange
                    &&& c.yrange@ == yrange
                },
            },
    {
        if args.len() != RWLOCK_ARGUMENTS {
            return Err(ChartError::ArgumentCount);
        }
        match (RwArg::from_str(xword), RwArg::from_str(yword)) {
            (Ok(x), Ok(y)) => match axis_ranges(args, x.idx(), Some(y.idx())) {
                Ok((xrange, Some(yrange))) => Ok(RwLock3D { x, y, xrange, yrange }),
                Ok((_, None)) => Err(ChartError::AxisNotARange),
                Err(error) => Err(error),
            },
            _ => Err(ChartError::UnknownAxis),
        }
    }
}

impl RwLock2D {
    /// What the words give: the chart, or the first rule that they break.
    /// The rules, in their order: the word for the axis names an argument
    /// of the benchmark; there are as many arguments as it takes; the range
    /// is as `ranges_of_axes` says.
    pub open spec fn spec_from_args(xword: Seq<char>, args: Seq<&str>) -> Result<
        (RwArg, Span),
        ChartError,
    > {
        match RwArg::spec_from_str(xword) {
            None => Err(ChartError::UnknownAxis),
            Some(x) => if args.len() != RWLOCK_ARGUMENTS {
                Err(ChartError::ArgumentCount)
            } else {
                match ranges_of_axes(args, x.spec_idx(), None) {
                    Err(error) => Err(error),
                    Ok((xrange, _)) => Ok((x, xrange)),
                }
            },
        }
    }

    /// Builds the chart over the axis named `xword` from the arguments of
    /// a run.
    pub fn from_args(xword: &str, args: &[&str]) -> (chart: Result<RwLock2D, ChartError>)
        ensures
            match Self::spec_from_args(xword@, args@) {
                Err(error) => chart == Err::<RwLock2D, ChartError>(error),
                Ok((x, xrange)) => chart matches Ok(c) && c.x == x && c.xrange@ == xrange,
            },
    {
        match RwArg::from_str(xword) {
            Err(_) => Err(ChartError::UnknownAxis),
            Ok(x) => {
                if args.len() != RWLOCK_ARGUMENTS {
                    return Err(ChartError::ArgumentCount);
                }
                match axis_ranges(args, x.idx(), None) {
                    Ok((xrange, _)) => Ok(RwLock2D { x, xrange }),
                    Err(error) => Err(error),
                }
            },
        }
    }
}

} // verus!
