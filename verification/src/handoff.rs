//! The buffer handoff protocol: the producer-owned mesh buffers are shrunk
//! so that capacity equals length, checked, and then released as a single
//! ticket for exactly one foreign call.
//!
//! The vertex buffer travels through this module as raw 32-bit patterns,
//! one per coordinate; the protocol reads only the buffer structure, never
//! the numeric value of a coordinate, and the caller converts one-for-one
//! at the boundary.

use vstd::prelude::*;

use crate::config::MeshError;

verus! {

/// The mesh buffers while the producer still owns them: growable storage
/// filled by the extraction engine, not yet fit for a foreign handoff.
pub struct MeshBuffers {
    /// Flat vertex coordinates, one 32-bit pattern per coordinate.
    pub vertices: Vec<u32>,
    /// Triangle vertex indices, in triples.
    pub indices: Vec<u32>,
}

/// The mesh buffers after release: each is known to have capacity equal to
/// its length, and this pair is the single ticket for the one foreign
/// handoff call. The type cannot be cloned, so a run can hand off at most
/// once; dropping it instead simply frees the buffers here.
pub struct ReleasedBuffers {
    /// Flat vertex coordinates, one 32-bit pattern per coordinate.
    pub vertices: Vec<u32>,
    /// Triangle vertex indices, in triples.
    pub indices: Vec<u32>,
}

/// The capacity of a vector value: the number of elements it can hold
/// without reallocating. Always at least the length; what it is beyond
/// that is the allocator's business, so nothing more is assumed of it.
pub uninterp spec fn cap_of(v: Vec<u32>) -> nat;

/// Relies on std's `Vec::shrink_to_fit`: it only reduces spare capacity and
/// keeps the elements unchanged.
#[verifier::external_body]
fn shrink_vec(v: &mut Vec<u32>)
    ensures
        final(v)@ == old(v)@,
{
    v.shrink_to_fit()
}

/// Relies on std's `Vec::capacity`: the number of elements the vector can
/// hold without reallocating, which is never below its length. The result
/// is a property of the vector value itself, here called [`cap_of`].
#[verifier::external_body]
fn vec_capacity(v: &Vec<u32>) -> (c: usize)
    ensures
        c == cap_of(*v),
        c >= v@.len(),
{
    v.capacity()
}

impl MeshBuffers {
    /// Performs the shrink-and-check step of the handoff protocol and
    /// consumes the producer's handle.
    ///
    /// Each buffer's spare capacity is dropped; if either buffer then still
    /// reports a capacity different from its length, the run fails before
    /// any foreign call, since the receiver reclaims memory by (pointer,
    /// length) alone and must not under- or over-free. On success the
    /// returned ticket holds exactly the same elements and each of its
    /// buffers has capacity equal to its length, ready for the one handoff
    /// call.
    pub fn release(self) -> (r: Result<ReleasedBuffers, MeshError>)
        ensures
            r is Ok ==> r->Ok_0.vertices@ == self.vertices@ && r->Ok_0.indices@
                == self.indices@,
            r is Ok ==> cap_of(r->Ok_0.vertices) == r->Ok_0.vertices@.len() && cap_of(
                r->Ok_0.indices,
            ) == r->Ok_0.indices@.len(),
            r is Err ==> r->Err_0 == MeshError::BufferInvariantViolation,
    {
        let MeshBuffers { mut vertices, mut indices } = self;
        shrink_vec(&mut vertices);
        shrink_vec(&mut indices);
        if vec_capacity(&vertices) != vertices.len() {
            return Err(MeshError::BufferInvariantViolation);
        }
        if vec_capacity(&indices) != indices.len() {
            return Err(MeshError::BufferInvariantViolation);
        }
        Ok(ReleasedBuffers { vertices, indices })
    }
}

} // verus!
