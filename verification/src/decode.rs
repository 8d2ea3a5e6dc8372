//! File decoder: walks a complete byte buffer into header text,
//! triangle count and triangle records.

use vstd::prelude::*;
use vstd::slice::slice_subrange;
use vstd::arithmetic::div_mod::{lemma_fundamental_div_mod, lemma_div_is_ordered};
use crate::codec::{spec_ascii_chars, bytes_to_string};
use crate::mesh::{DecodeError, Mesh, Triangle, spec_triangle_of_bytes};

verus! {

/// The triangles a buffer decodes to: one per consecutive 50-byte
/// window after the 84-byte header region, in file order.
pub open spec fn spec_triangle_seq(b: Seq<u8>) -> Seq<Triangle>
    recommends
        b.len() >= 84,
        (b.len() - 84) % 50 == 0,
{
    Seq::new(
        (((b.len() - 84) / 50) as nat),
        |i: int| spec_triangle_of_bytes(b.subrange(84 + 50 * i, 84 + 50 * i + 50)),
    )
}

/// Decodes a complete buffer: 80 bytes of header text, a 4-byte
/// declared-count field, then consecutive 50-byte triangle records.
/// The declared count is not trusted: the count is recomputed from
/// the length of the bytes after the header region.
///
/// A buffer shorter than the 84-byte header region is rejected as
/// truncated; one whose remainder is not a whole number of records is
/// rejected as misaligned. On success the count equals the number of
/// decoded triangles.
pub fn decode_stl(bytes: &[u8]) -> (r: Result<Mesh, DecodeError>)
    requires
        bytes@.len() <= 84 + 50 * (u32::MAX as int),
    ensures
        bytes@.len() < 84
            ==> r == Err::<Mesh, DecodeError>(DecodeError::TruncatedHeader),
        bytes@.len() >= 84 && (bytes@.len() - 84) % 50 != 0
            ==> r == Err::<Mesh, DecodeError>(DecodeError::MisalignedTriangleData),
        bytes@.len() >= 84 && (bytes@.len() - 84) % 50 == 0
            ==> r is Ok,
        r is Ok ==> {
            &&& bytes@.len() >= 84
            &&& (bytes@.len() - 84) % 50 == 0
            &&& r->Ok_0.header@ == spec_ascii_chars(bytes@.subrange(0, 80))
            &&& r->Ok_0.count == (bytes@.len() - 84) / 50
            &&& r->Ok_0.triangles@ == spec_triangle_seq(bytes@)
            &&& r->Ok_0.triangles@.len() == r->Ok_0.count
        },
{
    if bytes.len() < 84 {
        return Err(DecodeError::TruncatedHeader);
    }
    let header = bytes_to_string(slice_subrange(bytes, 0, 80));

    let remaining_len: usize = bytes.len() - 84;
    if remaining_len % 50 != 0 {
        return Err(DecodeError::MisalignedTriangleData);
    }
    let num_of_tris: usize = remaining_len / 50;
    proof {
        lemma_fundamental_div_mod(remaining_len as int, 50);
        lemma_div_is_ordered(remaining_len as int, 50 * (u32::MAX as int), 50);
    }

    let mut triangles: Vec<Triangle> = Vec::new();
    for i in 0..num_of_tris
        invariant
            bytes@.len() == 84 + remaining_len,
            bytes@.len() <= usize::MAX,
            remaining_len == 50 * num_of_tris,
            triangles@.len() == i,
            forall|j: int| 0 <= j < i
                ==> triangles@[j]
                    == spec_triangle_of_bytes(bytes@.subrange(84 + 50 * j, 84 + 50 * j + 50)),
    {
        proof {
            assert(50 * i + 50 <= 50 * num_of_tris) by (nonlinear_arith)
                requires
                    i < num_of_tris,
            ;
        }
        let start: usize = 84 + i * 50;
        let window = slice_subrange(bytes, start, start + 50);
        match Triangle::from_bytes(window) {
            Ok(t) => triangles.push(t),
            Err(e) => {
                return Err(e);
            },
        }
    }
    proof {
        assert(triangles@ =~= spec_triangle_seq(bytes@));
    }
    Ok(Mesh { header, count: num_of_tris as u32, triangles })
}

} // verus!
