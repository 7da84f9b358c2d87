use vstd::prelude::*;
use vstd::arithmetic::div_mod::lemma_fundamental_div_mod_converse;

use crate::dispatch::{check_dimension, supported_dim};
use crate::error::BridgeError;

verus! {

/// Whether every row of `rows` holds exactly `n` entries.
pub open spec fn rows_of_len<T>(rows: Seq<Vec<T>>, n: int) -> bool {
    forall|i: int| 0 <= i < rows.len() ==> (#[trigger] rows[i])@.len() == n
}

/// The rows laid end to end: entry `k` is entry `k % n` of row `k / n`.
pub open spec fn flat_of<T>(rows: Seq<Vec<T>>, n: int) -> Seq<T> {
    Seq::new((rows.len() * n) as nat, |k: int| rows[k / n]@[k % n])
}

proof fn lemma_row_major_index(i: int, j: int, n: int)
    requires
        0 <= i,
        0 <= j < n,
    ensures
        (i * n + j) / n == i,
        (i * n + j) % n == j,
{
    lemma_fundamental_div_mod_converse(i * n + j, n, i, j);
}

/// Lays rows of `n` entries out row-major in one buffer of `rows.len() * n` entries.
pub fn flatten_rows<T: Copy>(rows: &Vec<Vec<T>>, n: usize) -> (r: Vec<T>)
    requires
        n > 0,
        rows_of_len(rows@, n as int),
        rows@.len() * n <= usize::MAX,
    ensures
        r@ == flat_of(rows@, n as int),
        r@.len() == rows@.len() * n,
        forall|i: int, j: int|
            0 <= i < rows@.len() && 0 <= j < n ==> r@[i * n + j] == (#[trigger] rows@[i]@[j]),
{
    let mut flat: Vec<T> = Vec::new();
    let mut i: usize = 0;
    while i < rows.len()
        invariant
            n > 0,
            i <= rows@.len(),
            rows_of_len(rows@, n as int),
            rows@.len() * n <= usize::MAX,
            flat@ =~= Seq::new((i * n) as nat, |k: int| rows@[k / (n as int)]@[k % (n as int)]),
        decreases rows@.len() - i,
    {
        let row = &rows[i];
        assert(row@.len() == n);
        let mut j: usize = 0;
        while j < n
            invariant
                n > 0,
                i < rows@.len(),
                j <= n,
                row@ == rows@[i as int]@,
                row@.len() == n,
                rows@.len() * n <= usize::MAX,
                flat@ =~= Seq::new(
                    (i * n + j) as nat,
                    |k: int| rows@[k / (n as int)]@[k % (n as int)],
                ),
            decreases n - j,
        {
            proof {
                vstd::arithmetic::mul::lemma_mul_inequality(i as int + 1, rows@.len() as int, n as int);
                assert((i as int + 1) * n == i * n + n) by (nonlinear_arith);
                lemma_row_major_index(i as int, j as int, n as int);
            }
            flat.push(row[j]);
            j = j + 1;
        }
        proof {
            assert((i as int + 1) * n == i * n + n) by (nonlinear_arith);
        }
        i = i + 1;
    }
    proof {
        assert forall|i: int, j: int| 0 <= i < rows@.len() && 0 <= j < n implies flat@[i * n
            + j] == (#[trigger] rows@[i]@[j]) by {
            lemma_row_major_index(i, j, n as int);
            vstd::arithmetic::mul::lemma_mul_inequality(i + 1, rows@.len() as int, n as int);
            assert((i + 1) * n == i * n + n) by (nonlinear_arith);
        }
    }
    flat
}

/// Reading the `i`-th block of `n` entries back out of the flattened buffer
/// gives the `i`-th row unchanged.
pub proof fn lemma_flat_row<T>(rows: Seq<Vec<T>>, n: int, i: int)
    requires
        n > 0,
        rows_of_len(rows, n),
        0 <= i < rows.len(),
    ensures
        flat_of(rows, n).subrange(i * n, (i + 1) * n) == rows[i]@,
{
    vstd::arithmetic::mul::lemma_mul_inequality(i + 1, rows.len() as int, n);
    assert((i + 1) * n == i * n + n) by (nonlinear_arith);
    assert forall|j: int| 0 <= j < n implies #[trigger] flat_of(rows, n).subrange(
        i * n,
        (i + 1) * n,
    )[j] == rows[i]@[j] by {
        lemma_row_major_index(i, j, n);
    }
    assert(flat_of(rows, n).subrange(i * n, (i + 1) * n) =~= rows[i]@);
}

/// The lengths of the three buffers of a result of dimension `n` that holds
/// `count` local minima: the best point, the flattened minima, their values.
pub open spec fn buffer_sizes(n: int, count: int) -> (int, int, int) {
    (n, count * n, count)
}

/// The lengths with which the buffers of a released result are reclaimed.
/// The dimension must be served and the flattened length must fit in memory.
pub fn release_sizes(n: usize, count: usize) -> (r: Result<(usize, usize, usize), BridgeError>)
    ensures
        !supported_dim(n as int) ==> r == Err::<(usize, usize, usize), BridgeError>(
            BridgeError::UnsupportedDimension { n },
        ),
        supported_dim(n as int) && count * n > usize::MAX ==> r == Err::<
            (usize, usize, usize),
            BridgeError,
        >(BridgeError::MalformedResult),
        supported_dim(n as int) && count * n <= usize::MAX ==> (r matches Ok(s) && s.0 as int
            == buffer_sizes(n as int, count as int).0 && s.1 as int == buffer_sizes(
            n as int,
            count as int,
        ).1 && s.2 as int == buffer_sizes(n as int, count as int).2),
{
    match check_dimension(n) {
        Err(e) => Err(e),
        Ok(n) => match count.checked_mul(n) {
            None => Err(BridgeError::MalformedResult),
            Some(len) => Ok((n, len, count)),
        },
    }
}

} // verus!
