//! Decision logic of the three-way vector-addition benchmark: argument
//! checks for the allocator and the harness, the batch arithmetic shared
//! by the vectorized kernels, and alignment diagnostics.
//!
//! The kernels themselves work on 32-bit float buffers and live with the
//! unverified runner; every check they and the harness rely on is stated
//! and proved here over plain integers.

use vstd::prelude::*;

verus! {

/// Bytes of one buffer element (a 32-bit float).
pub const ELEMENT_BYTES: usize = 4;

/// Elements handled per vectorized operation (256-bit registers over
/// 32-bit lanes).
pub const BATCH_WIDTH: usize = 8;

/// The three interchangeable element-wise addition kernels.
#[derive(Clone, Copy, Debug, PartialEq, Eq)]
pub enum KernelVariant {
    Scalar,
    VectorizedUnaligned,
    VectorizedAligned,
}

/// Everything that can go wrong before any kernel runs.
#[derive(Clone, Copy, Debug, PartialEq, Eq)]
pub enum BenchError {
    /// The requested alignment is not a power of two, or the requested
    /// byte size overflows the address space.
    AllocationError,
    /// The two input buffers differ in length.
    LengthMismatch,
    /// A benchmark over zero iterations has no mean.
    InvalidIterationCount,
}

/// Whether `n` is a power of two.
pub open spec fn is_pow2(n: nat) -> bool
    decreases n,
{
    if n == 0 {
        false
    } else if n == 1 {
        true
    } else {
        n % 2 == 0 && is_pow2(n / 2)
    }
}

/// Decides whether `n` is a power of two.
pub fn power_of_two(n: usize) -> (r: bool)
    ensures
        r == is_pow2(n as nat),
{
    if n == 0 {
        return false;
    }
    let mut m: usize = n;
    while m > 1 && m % 2 == 0
        invariant
            m >= 1,
            is_pow2(n as nat) == is_pow2(m as nat),
        decreases m,
    {
        m = m / 2;
    }
    m == 1
}

/// A request to the allocator is sound when the byte size fits the
/// address space and any requested alignment is a power of two.
pub open spec fn allocation_ok(length: usize, alignment: Option<usize>) -> bool {
    &&& length * ELEMENT_BYTES <= usize::MAX
    &&& match alignment {
        Some(a) => is_pow2(a as nat),
        None => true,
    }
}

/// Validates an allocation request for `length` elements at the given
/// optional byte alignment, exactly as the allocator demands it.
pub fn check_allocation(length: usize, alignment: Option<usize>) -> (r: Result<(), BenchError>)
    ensures
        r == (if allocation_ok(length, alignment) {
            Result::<(), BenchError>::Ok(())
        } else {
            Result::<(), BenchError>::Err(BenchError::AllocationError)
        }),
{
    if length > usize::MAX / ELEMENT_BYTES {
        return Err(BenchError::AllocationError);
    }
    match alignment {
        Some(a) => {
            if power_of_two(a) {
                Ok(())
            } else {
                Err(BenchError::AllocationError)
            }
        },
        None => Ok(()),
    }
}

/// Checks that two input buffers may be added element-wise: their
/// lengths must agree.
pub fn check_lengths(a_len: usize, b_len: usize) -> (r: Result<(), BenchError>)
    ensures
        r == (if a_len == b_len {
            Result::<(), BenchError>::Ok(())
        } else {
            Result::<(), BenchError>::Err(BenchError::LengthMismatch)
        }),
{
    if a_len == b_len {
        Ok(())
    } else {
        Err(BenchError::LengthMismatch)
    }
}

/// Checks the harness's repetition count: a mean over zero samples is
/// undefined, so zero iterations are rejected.
pub fn check_iterations(iterations: usize) -> (r: Result<(), BenchError>)
    ensures
        r == (if iterations == 0 {
            Result::<(), BenchError>::Err(BenchError::InvalidIterationCount)
        } else {
            Result::<(), BenchError>::Ok(())
        }),
{
    if iterations == 0 {
        Err(BenchError::InvalidIterationCount)
    } else {
        Ok(())
    }
}

/// Splits a buffer length into full vector batches and the remainder
/// elements left for the scalar tail loop; together they cover the
/// buffer exactly.
pub fn batch_split(length: usize) -> (r: (usize, usize))
    ensures
        r.0 == length / BATCH_WIDTH,
        r.1 == length % BATCH_WIDTH,
        r.0 * BATCH_WIDTH + r.1 == length,
        r.1 < BATCH_WIDTH,
{
    (length / BATCH_WIDTH, length % BATCH_WIDTH)
}

/// The element index at which a vector batch starts.
pub fn batch_start(batch: usize) -> (r: usize)
    requires
        batch * BATCH_WIDTH <= usize::MAX,
    ensures
        r == batch * BATCH_WIDTH,
{
    batch * BATCH_WIDTH
}

/// How far an address is from the previous multiple of the alignment;
/// zero exactly when the address is aligned.
pub fn address_offset(address: usize, alignment: usize) -> (r: usize)
    requires
        alignment > 0,
    ensures
        r == address % alignment,
{
    address % alignment
}

/// Character sequence of a kernel variant's report label.
pub open spec fn variant_label(v: KernelVariant) -> Seq<char> {
    match v {
        KernelVariant::Scalar => "Regular Addition"@,
        KernelVariant::VectorizedUnaligned => "SIMD Addition"@,
        KernelVariant::VectorizedAligned => "Aligned SIMD"@,
    }
}

/// The label under which a variant appears in the printed report.
pub fn variant_name(v: KernelVariant) -> (r: &'static str)
    ensures
        r@ == variant_label(v),
{
    match v {
        KernelVariant::Scalar => "Regular Addition",
        KernelVariant::VectorizedUnaligned => "SIMD Addition",
        KernelVariant::VectorizedAligned => "Aligned SIMD",
    }
}

} // verus!
