//! Mesh data model: vertices, triangles, the decoded mesh, and the
//! decode error kinds.

use vstd::prelude::*;
use vstd::slice::slice_subrange;
use crate::codec::{spec_u16_of_be, spec_u32_of_be, bytes_to_u16, bytes_to_u32};

verus! {

/// The errors a decode can end in.
#[derive(Debug, Clone, Copy, PartialEq, Eq, Structural)]
pub enum DecodeError {
    /// The buffer is shorter than the 84-byte header region.
    TruncatedHeader,
    /// The bytes after the header region are not a whole number of
    /// 50-byte triangle records.
    MisalignedTriangleData,
    /// A triangle decode was handed a window that is not exactly 50
    /// bytes long.
    MalformedRecordLength,
}

/// A point in space, or a vector centered at the origin. Each
/// component is the raw IEEE-754 bit pattern of a 32-bit float.
#[derive(Debug, Clone, Copy, PartialEq, Eq, Structural)]
pub struct Vertex {
    pub x: u32,
    pub y: u32,
    pub z: u32,
}

/// The vertex a 12-byte window decodes to: three consecutive 4-byte
/// big-endian windows, assigned to x, y, z in order.
pub open spec fn spec_vertex_of_bytes(b: Seq<u8>) -> Vertex
    recommends
        b.len() == 12,
{
    Vertex {
        x: spec_u32_of_be(b.subrange(0, 4)),
        y: spec_u32_of_be(b.subrange(4, 8)),
        z: spec_u32_of_be(b.subrange(8, 12)),
    }
}

impl Vertex {
    /// Decodes exactly 12 bytes into a vertex: three 4-byte windows
    /// in order, one per component.
    pub fn from_bytes(bytes: &[u8]) -> (r: Vertex)
        requires
            bytes@.len() == 12,
        ensures
            r == spec_vertex_of_bytes(bytes@),
    {
        Vertex {
            x: bytes_to_u32(slice_subrange(bytes, 0, 4)),
            y: bytes_to_u32(slice_subrange(bytes, 4, 8)),
            z: bytes_to_u32(slice_subrange(bytes, 8, 12)),
        }
    }

    /// The zero vertex: every component is the bit pattern of 0.0.
    pub fn empty_vert() -> (r: Vertex)
        ensures
            r == (Vertex { x: 0u32, y: 0u32, z: 0u32 }),
    {
        Vertex { x: 0, y: 0, z: 0 }
    }

    /// The x component's bit pattern.
    pub fn x(&self) -> (r: u32)
        ensures
            r == self.x,
    {
        self.x
    }

    /// The y component's bit pattern.
    pub fn y(&self) -> (r: u32)
        ensures
            r == self.y,
    {
        self.y
    }

    /// The z component's bit pattern.
    pub fn z(&self) -> (r: u32)
        ensures
            r == self.z,
    {
        self.z
    }
}

/// One face of the mesh: a normal vector, three corner vertices, and
/// the format's 16-bit attribute value.
#[derive(Debug, Clone, PartialEq)]
pub struct Triangle {
    pub normal: Vertex,
    pub verts: [Vertex; 3],
    pub attribute: u16,
}

/// The triangle a 50-byte record decodes to: normal at [0, 12), the
/// three corner vertices at [12, 24), [24, 36), [36, 48), and the
/// attribute at [48, 50), big-endian.
pub open spec fn spec_triangle_of_bytes(b: Seq<u8>) -> Triangle
    recommends
        b.len() == 50,
{
    Triangle {
        normal: spec_vertex_of_bytes(b.subrange(0, 12)),
        verts: [
            spec_vertex_of_bytes(b.subrange(12, 24)),
            spec_vertex_of_bytes(b.subrange(24, 36)),
            spec_vertex_of_bytes(b.subrange(36, 48)),
        ],
        attribute: spec_u16_of_be(b.subrange(48, 50)),
    }
}

impl Triangle {
    /// Decodes a 50-byte record into a triangle. A window of any
    /// other length is rejected as a malformed record.
    pub fn from_bytes(bytes: &[u8]) -> (r: Result<Triangle, DecodeError>)
        ensures
            bytes@.len() == 50
                ==> r == Ok::<Triangle, DecodeError>(spec_triangle_of_bytes(bytes@)),
            bytes@.len() != 50
                ==> r == Err::<Triangle, DecodeError>(DecodeError::MalformedRecordLength),
    {
        if bytes.len() != 50 {
            return Err(DecodeError::MalformedRecordLength);
        }
        let normal = Vertex::from_bytes(slice_subrange(bytes, 0, 12));
        let v1 = Vertex::from_bytes(slice_subrange(bytes, 12, 24));
        let v2 = Vertex::from_bytes(slice_subrange(bytes, 24, 36));
        let v3 = Vertex::from_bytes(slice_subrange(bytes, 36, 48));
        let attribute = bytes_to_u16(slice_subrange(bytes, 48, 50));
        Ok(Triangle { normal, verts: [v1, v2, v3], attribute })
    }
}

/// The decoded file: header text, triangle count, and the triangles
/// in file order.
#[derive(Debug, Clone, PartialEq)]
pub struct Mesh {
    pub header: String,
    pub count: u32,
    pub triangles: Vec<Triangle>,
}

} // verus!
