//! The measurements of a run, laid out for drawing.
//!
//! A benchmark reports one line per lock implementation and setting; the
//! numbers of these lines arrive as one stream, in which the results of
//! the implementations alternate. The functions here tell which lines
//! count, which numbers belong to which curve or surface, and when enough
//! has arrived for the chart to be drawn again. They do not look at the
//! measurements themselves, which may be of any type.

use vstd::prelude::*;
use crate::bench::range::ArgRange;
use crate::bench::text::{contains, mentions};

verus! {

/// The results on a line of the mutex benchmark that are drawn: one per
/// implementation.
pub const MUTEX_CURVES: usize = 3;

/// The results of a setting of the read-write lock benchmark: writes and
/// reads of each of four implementations.
pub const RWLOCK_CURVES: usize = 8;

/// Whether a line of output reports a result.
pub open spec fn reports_result(line: Seq<char>) -> bool {
    mentions(line, "kHz"@)
}

/// Tells whether a line of output reports a result: those lines give a
/// rate in kHz.
pub fn is_result_line(line: &str) -> (reports: bool)
    ensures
        reports == reports_result(line@),
{
    contains(line, "kHz")
}

/// How many samples a curve holds that takes every `stride`-th of `len`
/// samples, from place `first` on.
pub open spec fn curve_len(len: int, first: int, stride: int) -> nat {
    if first >= len {
        0
    } else {
        ((len - first - 1) / stride + 1) as nat
    }
}

/// The curve that takes every `stride`-th sample, from place `first` on.
pub open spec fn curve_of<T>(samples: Seq<T>, first: int, stride: int) -> Seq<T> {
    Seq::new(curve_len(samples.len() as int, first, stride), |i: int| samples[first + i * stride])
}

/// Picks the samples of one curve out of the stream: every `stride`-th,
/// from place `first` on.
pub fn curve<T: Copy>(samples: &[T], first: usize, stride: usize) -> (picked: Vec<T>)
    requires
        stride > 0,
        first <= samples@.len(),
    ensures
        picked@ == curve_of(samples@, first as int, stride as int),
{
    let len = samples.len();
    let mut picked: Vec<T> = Vec::new();
    if first >= len {
        return picked;
    }
    let mut at: usize = first;
    assert(picked@.len() * stride == 0) by (nonlinear_arith)
        requires
            picked@.len() == 0,
    ;
    loop
        invariant_except_break
            at == first + picked@.len() * stride,
            forall|i: int| 0 <= i < picked@.len() ==> picked@[i] == samples@[first + i * stride],
        invariant
            stride > 0,
            len == samples@.len(),
            first <= at < len,
        ensures
            picked@ == curve_of(samples@, first as int, stride as int),
        decreases len - at,
    {
        picked.push(samples[at]);
        if len - at <= stride {
            let ghost count = picked@.len() as int;
            assert((len - first - 1) / (stride as int) == count - 1) by (nonlinear_arith)
                requires
                    stride > 0,
                    at == first + (count - 1) * stride,
                    at < len,
                    len - at <= stride,
            ;
            break;
        }
        assert(first + picked@.len() * stride == at + stride) by (nonlinear_arith)
            requires
                at == first + (picked@.len() - 1) * stride,
        ;
        at += stride;
    }
    picked
}

/// Tells whether the chart of the mutex benchmark is due again: a
/// setting is complete, or the buffer has no room left for another one.
pub fn mutex_chart_due(filled: usize, capacity: usize) -> (due: bool)
    requires
        filled <= capacity,
    ensures
        due == (filled % MUTEX_CURVES == 0 || capacity - filled < MUTEX_CURVES),
{
    filled % MUTEX_CURVES == 0 || capacity - filled < MUTEX_CURVES
}

/// Tells whether the chart of the read-write lock benchmark is due
/// again: a setting is complete.
pub fn rwlock_chart_due(filled: usize) -> (due: bool)
    ensures
        due == (filled % RWLOCK_CURVES == 0),
{
    filled % RWLOCK_CURVES == 0
}

/// The number of points of a surface over two ranges, where it fits
/// the machine word and both ranges can be counted.
pub fn grid_size(xrange: &ArgRange, yrange: &ArgRange) -> (size: Option<usize>)
    ensures
        size matches Some(n) ==> xrange@.step > 0 && yrange@.step > 0 && n == xrange@.len()
            * yrange@.len(),
        size is None <==> {
            ||| xrange@.step == 0
            ||| yrange@.step == 0
            ||| xrange@.len() > usize::MAX
            ||| yrange@.len() > usize::MAX
            ||| xrange@.len() * yrange@.len() > usize::MAX
        },
{
    match (xrange.checked_len(), yrange.checked_len()) {
        (Some(columns), Some(rows)) => columns.checked_mul(rows),
        _ => None,
    }
}

/// `Itertools::tuples` of the itertools crate, on the items of a
/// vector: the items in groups of three, in their order; what is left
/// over at the end, one item or two, belongs to no group.
#[verifier::external_body]
fn triples<T>(values: Vec<T>) -> (groups: Vec<(T, T, T)>)
    ensures
        groups@.len() == values@.len() / 3,
        forall|i: int|
            0 <= i < groups@.len() ==> #[trigger] groups@[i] == (
                values@[3 * i],
                values@[3 * i + 1],
                values@[3 * i + 2],
            ),
{
    itertools::Itertools::tuples(values.into_iter()).collect()
}

/// The surface of the implementation `which` (0, 1 or 2) after the
/// stream has brought `values`: the point at place `i` holds the result
/// of the `i`-th complete setting, and `blank` where none has arrived.
pub open spec fn surface_of<T>(values: Seq<T>, which: int, size: nat, blank: T) -> Seq<T> {
    Seq::new(
        size,
        |i: int|
            if i < values.len() / 3 {
                values[3 * i + which]
            } else {
                blank
            },
    )
}

/// Lays the stream out as three surfaces of `size` points each, one per
/// implementation.
pub fn surfaces<T: Copy>(values: Vec<T>, size: usize, blank: T) -> (laid: (Vec<T>, Vec<T>, Vec<T>))
    requires
        values@.len() / 3 <= size,
    ensures
        laid.0@ == surface_of(values@, 0, size as nat, blank),
        laid.1@ == surface_of(values@, 1, size as nat, blank),
        laid.2@ == surface_of(values@, 2, size as nat, blank),
{
    let ghost stream = values@;
    let groups = triples(values);
    let mut first: Vec<T> = Vec::new();
    let mut second: Vec<T> = Vec::new();
    let mut third: Vec<T> = Vec::new();
    let mut i: usize = 0;
    while i < size
        invariant
            i <= size,
            groups@.len() == stream.len() / 3,
            forall|j: int|
                0 <= j < groups@.len() ==> #[trigger] groups@[j] == (
                    stream[3 * j],
                    stream[3 * j + 1],
                    stream[3 * j + 2],
                ),
            first@ == surface_of(stream, 0, i as nat, blank),
            second@ == surface_of(stream, 1, i as nat, blank),
            third@ == surface_of(stream, 2, i as nat, blank),
        decreases size - i,
    {
        if i < groups.len() {
            let group = groups[i];
            first.push(group.0);
            second.push(group.1);
            third.push(group.2);
        } else {
            first.push(blank);
            second.push(blank);
            third.push(blank);
        }
        i += 1;
    }
    (first, second, third)
}

} // verus!
