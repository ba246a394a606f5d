//! Dataset shaping: chronological splits, sequence windowing, and
//! feature-matrix assembly.
//!
//! Order is always preserved: the tabular split takes the first 80% of rows
//! for training, the series split reserves the last tenth (rounded up) for
//! testing, and windowing walks the series front to back.

use vstd::prelude::*;

use crate::errors::DataError;

verus! {

/// How many windowed samples a series of length `n` yields for window
/// length `seq_len`: one per window that still has a following target.
pub open spec fn window_count(n: int, seq_len: int) -> int {
    if n > seq_len {
        n - seq_len
    } else {
        0
    }
}

/// Chronological 80/20 split of `n` tabular rows: the first `n * 8 / 10`
/// rows train, the rest test.
pub fn split_tabular(n: usize) -> (r: (usize, usize))
    requires
        n <= usize::MAX / 8,
    ensures
        r.0 == n * 8 / 10,
        r.0 + r.1 == n,
{
    let n_train = n * 8 / 10;
    (n_train, n - n_train)
}

/// Chronological split of `n` windowed series samples: the last tenth,
/// rounded up, is held out for testing.
pub fn split_series(n: usize) -> (r: (usize, usize))
    requires
        n <= usize::MAX - 9,
    ensures
        r.1 == (n + 9) / 10,
        r.0 + r.1 == n,
{
    let n_test = (n + 9) / 10;
    (n - n_test, n_test)
}

/// Chronological slicing: the first `n_train` items train, the rest test,
/// order preserved on both sides.
pub fn split_rows<T: Copy>(items: &Vec<T>, n_train: usize) -> (r: (Vec<T>, Vec<T>))
    requires
        n_train <= items@.len(),
    ensures
        r.0@ == items@.subrange(0, n_train as int),
        r.1@ == items@.subrange(n_train as int, items@.len() as int),
{
    let mut head: Vec<T> = Vec::new();
    let mut tail: Vec<T> = Vec::new();
    for i in 0..n_train
        invariant
            n_train <= items@.len(),
            head@.len() == i,
            forall|k: int| 0 <= k < i ==> head@[k] == items@[k],
    {
        head.push(items[i]);
    }
    let len = items.len();
    for i in n_train..len
        invariant
            n_train <= len,
            len == items@.len(),
            tail@.len() == i - n_train,
            forall|k: int| n_train <= k < i ==> tail@[k - n_train] == items@[k],
    {
        tail.push(items[i]);
    }
    proof {
        assert(head@ =~= items@.subrange(0, n_train as int));
        assert(tail@ =~= items@.subrange(n_train as int, items@.len() as int));
    }
    (head, tail)
}

/// A series must be strictly longer than `seq_len + 1` before any model is
/// built from its windows.
pub fn check_series_length(n: usize, seq_len: usize) -> (r: Result<(), DataError>)
    ensures
        r is Ok <==> n > seq_len + 1,
        r is Err ==> r->Err_0 == DataError::InsufficientData,
{
    if n > seq_len && n - seq_len > 1 {
        Ok(())
    } else {
        Err(DataError::InsufficientData)
    }
}

/// Sliding-window supervision: sample `i` is the window
/// `series[i .. i + seq_len]`, its target the next value
/// `series[i + seq_len]`.
pub fn make_windows<T: Copy>(series: &Vec<T>, seq_len: usize) -> (r: (Vec<Vec<T>>, Vec<T>))
    ensures
        r.0@.len() == window_count(series@.len() as int, seq_len as int),
        r.1@.len() == window_count(series@.len() as int, seq_len as int),
        forall|i: int|
            0 <= i < r.0@.len() ==> r.0@[i]@ == series@.subrange(i, i + seq_len as int),
        forall|i: int| 0 <= i < r.1@.len() ==> r.1@[i] == series@[i + seq_len as int],
{
    let mut windows: Vec<Vec<T>> = Vec::new();
    let mut targets: Vec<T> = Vec::new();
    let len = series.len();
    if len <= seq_len {
        return (windows, targets);
    }
    let n_samples = len - seq_len;
    for i in 0..n_samples
        invariant
            len == series@.len(),
            n_samples == window_count(series@.len() as int, seq_len as int),
            n_samples + seq_len == len,
            windows@.len() == i,
            targets@.len() == i,
            forall|k: int|
                0 <= k < i ==> windows@[k]@ == series@.subrange(k, k + seq_len as int),
            forall|k: int| 0 <= k < i ==> targets@[k] == series@[k + seq_len as int],
    {
        let mut window: Vec<T> = Vec::new();
        for t in 0..seq_len
            invariant
                len == series@.len(),
                i + seq_len <= len,
                window@.len() == t,
                forall|j: int| 0 <= j < t ==> window@[j] == series@[i + j],
        {
            window.push(series[i + t]);
        }
        proof {
            assert(window@ =~= series@.subrange(i as int, i + seq_len as int));
        }
        windows.push(window);
        targets.push(series[i + seq_len]);
    }
    (windows, targets)
}

/// Pulls column `col` out of a row-major table; fails with
/// [`DataError::MissingColumn`] as soon as any row is too narrow.
pub fn select_column<T: Copy>(rows: &Vec<Vec<T>>, col: usize) -> (r: Result<Vec<T>, DataError>)
    ensures
        r is Ok <==> (forall|i: int| 0 <= i < rows@.len() ==> col < rows@[i]@.len()),
        r is Ok ==> r->Ok_0@.len() == rows@.len(),
        r is Ok ==> forall|i: int| 0 <= i < rows@.len() ==> r->Ok_0@[i] == rows@[i]@[col as int],
        r is Err ==> r->Err_0 == DataError::MissingColumn,
{
    let mut out: Vec<T> = Vec::new();
    for i in 0..rows.len()
        invariant
            out@.len() == i,
            forall|k: int| 0 <= k < i ==> col < rows@[k]@.len(),
            forall|k: int| 0 <= k < i ==> out@[k] == rows@[k]@[col as int],
    {
        if col >= rows[i].len() {
            return Err(DataError::MissingColumn);
        }
        out.push(rows[i][col]);
    }
    Ok(out)
}

/// Flattens a row-major feature table into one vector, checking that every
/// row carries exactly `width` features; a mismatch is a
/// [`DataError::Shape`].
pub fn assemble_features<T: Copy>(rows: &Vec<Vec<T>>, width: usize) -> (r: Result<
    Vec<T>,
    DataError,
>)
    requires
        rows@.len() * width <= usize::MAX,
    ensures
        r is Ok <==> (forall|i: int| 0 <= i < rows@.len() ==> rows@[i]@.len() == width),
        r is Ok ==> r->Ok_0@.len() == rows@.len() * width,
        r is Ok ==> forall|i: int, j: int|
            0 <= i < rows@.len() && 0 <= j < width ==> r->Ok_0@[i * width + j] == rows@[i]@[j],
        r is Err ==> r->Err_0 == DataError::Shape,
{
    let mut flat: Vec<T> = Vec::new();
    proof {
        assert(0 * width == 0) by (nonlinear_arith);
    }
    for i in 0..rows.len()
        invariant
            flat@.len() == i * width,
            forall|k: int| 0 <= k < i ==> rows@[k]@.len() == width,
            forall|k: int, j: int|
                0 <= k < i && 0 <= j < width ==> flat@[k * width + j] == rows@[k]@[j],
    {
        if rows[i].len() != width {
            return Err(DataError::Shape);
        }
        for j in 0..width
            invariant
                i < rows@.len(),
                rows@[i as int]@.len() == width,
                flat@.len() == i * width + j,
                forall|k: int, l: int|
                    0 <= k < i && 0 <= l < width ==> flat@[k * width + l] == rows@[k]@[l],
                forall|l: int| 0 <= l < j ==> flat@[i * width + l] == rows@[i as int]@[l],
        {
            flat.push(rows[i][j]);
            proof {
                assert forall|k: int, l: int|
                    0 <= k < i && 0 <= l < width implies flat@[k * width + l] == rows@[k]@[l] by {
                    assert((k + 1) * width <= i * width) by (nonlinear_arith)
                        requires
                            0 <= k + 1 <= i,
                            0 <= width,
                    ;
                    assert(k * width + l < (k + 1) * width) by (nonlinear_arith)
                        requires
                            0 <= l < width,
                    ;
                }
            }
        }
        proof {
            assert((i + 1) * width == i * width + width) by (nonlinear_arith);
        }
    }
    Ok(flat)
}

} // verus!
