use vstd::prelude::*;

use crate::dispatch::{check_dimension, supported_dim, MAX_DIM};
use crate::error::BridgeError;
use crate::layout::{flat_of, flatten_rows, rows_of_len};

verus! {

/// Why a run ended: the optimizer's own reason, in a form that crosses the
/// C boundary unchanged.
#[allow(non_camel_case_types)]
#[derive(Clone, Copy, Debug, PartialEq, Eq, Structural)]
pub enum ExitFlagEnum_C {
    /// The optimizer stopped on its own convergence criterion.
    NormalShutdown,
    /// The limit on objective evaluations was reached.
    StopNfExceeded,
    /// The limit on sweeps was reached.
    StopNsweepsExceeded,
}

impl ExitFlagEnum_C {
    /// Whether the run was stopped by one of its limits rather than by convergence.
    pub fn is_limit_exceeded(&self) -> (r: bool)
        ensures
            r == (*self != ExitFlagEnum_C::NormalShutdown),
    {
        match self {
            ExitFlagEnum_C::NormalShutdown => false,
            _ => true,
        }
    }
}

/// An optimizer result laid out for transport: fixed-length best point,
/// flattened local minima and their values, counters and the exit reason.
/// It carries the dimension it was made with.
pub struct McsResult<T> {
    pub dim: usize,
    pub xbest: Vec<T>,
    pub fbest: T,
    pub xmin: Vec<T>,
    pub xmin_size: usize,
    pub fmi: Vec<T>,
    pub fmi_size: usize,
    pub ncall: usize,
    pub ncloc: usize,
    pub flag: ExitFlagEnum_C,
}

impl<T> McsResult<T> {
    /// Every buffer has the length that its size field and the dimension give.
    pub open spec fn wf(&self) -> bool {
        &&& supported_dim(self.dim as int)
        &&& self.xbest@.len() == self.dim
        &&& self.xmin@.len() == self.xmin_size * self.dim
        &&& self.fmi@.len() == self.fmi_size
        &&& self.fmi_size == self.xmin_size
    }

    /// Whether this result is the layout of the given optimizer output.
    pub open spec fn lays_out(
        &self,
        dim: int,
        xbest: Seq<T>,
        fbest: T,
        xmin: Seq<Vec<T>>,
        fmi: Seq<T>,
        ncall: usize,
        ncloc: usize,
        flag: ExitFlagEnum_C,
    ) -> bool {
        &&& self.dim == dim
        &&& self.xbest@ == xbest
        &&& self.fbest == fbest
        &&& self.xmin@ == flat_of(xmin, dim)
        &&& self.xmin_size == xmin.len()
        &&& self.fmi@ == fmi
        &&& self.fmi_size == fmi.len()
        &&& self.ncall == ncall
        &&& self.ncloc == ncloc
        &&& self.flag == flag
    }
}

/// Whether an optimizer output has the shape that dimension `dim` demands.
pub open spec fn well_shaped<T>(dim: int, xbest: Seq<T>, xmin: Seq<Vec<T>>, fmi: Seq<T>) -> bool {
    &&& xbest.len() == dim
    &&& rows_of_len(xmin, dim)
    &&& fmi.len() == xmin.len()
}

fn rows_have_len<T>(rows: &Vec<Vec<T>>, n: usize) -> (r: bool)
    ensures
        r == rows_of_len(rows@, n as int),
{
    let mut i: usize = 0;
    while i < rows.len()
        invariant
            i <= rows@.len(),
            forall|k: int| 0 <= k < i ==> (#[trigger] rows@[k])@.len() == n,
        decreases rows@.len() - i,
    {
        if rows[i].len() != n {
            return false;
        }
        i = i + 1;
    }
    true
}

/// Turns the optimizer's output for a problem of dimension `dim` into its
/// transport layout. The dimension is checked first, then the output's shape.
pub fn marshal_result<T: Copy>(
    dim: usize,
    xbest: Vec<T>,
    fbest: T,
    xmin: &Vec<Vec<T>>,
    fmi: Vec<T>,
    ncall: usize,
    ncloc: usize,
    flag: ExitFlagEnum_C,
) -> (r: Result<McsResult<T>, BridgeError>)
    requires
        xmin@.len() * MAX_DIM <= usize::MAX,
    ensures
        !supported_dim(dim as int) ==> r == Err::<McsResult<T>, BridgeError>(
            BridgeError::UnsupportedDimension { n: dim },
        ),
        supported_dim(dim as int) && !well_shaped(dim as int, xbest@, xmin@, fmi@) ==> r == Err::<
            McsResult<T>,
            BridgeError,
        >(BridgeError::MalformedResult),
        supported_dim(dim as int) && well_shaped(dim as int, xbest@, xmin@, fmi@) ==> (r matches Ok(
            res,
        ) && res.wf() && res.lays_out(
            dim as int,
            xbest@,
            fbest,
            xmin@,
            fmi@,
            ncall,
            ncloc,
            flag,
        )),
{
    let dim = match check_dimension(dim) {
        Err(e) => {
            return Err(e);
        },
        Ok(d) => d,
    };
    if xbest.len() != dim || !rows_have_len(xmin, dim) || fmi.len() != xmin.len() {
        return Err(BridgeError::MalformedResult);
    }
    proof {
        vstd::arithmetic::mul::lemma_mul_inequality(dim as int, MAX_DIM as int, xmin@.len() as int);
        vstd::arithmetic::mul::lemma_mul_is_commutative(xmin@.len() as int, dim as int);
        vstd::arithmetic::mul::lemma_mul_is_commutative(xmin@.len() as int, MAX_DIM as int);
    }
    let flat = flatten_rows(xmin, dim);
    let count = xmin.len();
    let fmi_size = fmi.len();
    Ok(McsResult {
        dim,
        xbest,
        fbest,
        xmin: flat,
        xmin_size: count,
        fmi,
        fmi_size,
        ncall,
        ncloc,
        flag,
    })
}

impl<T: Copy> McsResult<T> {
    /// The `i`-th local minimum, read back out of the flattened buffer.
    pub fn minimum_point(&self, i: usize) -> (r: Vec<T>)
        requires
            self.wf(),
            i < self.xmin_size,
        ensures
            r@ == self.xmin@.subrange(i * self.dim, (i + 1) * self.dim),
    {
        let total = self.xmin.len();
        proof {
            vstd::arithmetic::mul::lemma_mul_inequality(i as int + 1, self.xmin_size as int, self.dim as int);
            assert((i as int + 1) * self.dim == i * self.dim + self.dim) by (nonlinear_arith);
        }
        let start = i * self.dim;
        let mut out: Vec<T> = Vec::new();
        let mut j: usize = 0;
        while j < self.dim
            invariant
                self.wf(),
                j <= self.dim,
                start == i * self.dim,
                start + self.dim <= total,
                total == self.xmin@.len(),
                out@ =~= self.xmin@.subrange(start as int, start + j),
            decreases self.dim - j,
        {
            out.push(self.xmin[start + j]);
            j = j + 1;
        }
        out
    }
}

} // verus!
