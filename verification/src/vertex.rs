//! The binary layout of per-vertex and per-instance attribute data, as the
//! pipeline's vertex stage consumes it: for each buffer the stride, the
//! step mode, and every attribute's shader location, byte offset and
//! format. These are fixed tables; the application turns them into the GPU
//! library's layout descriptors when it builds the pipeline.

use vstd::prelude::*;

verus! {

/// The format of one vertex attribute: that many 32-bit floats.
#[derive(Clone, Copy, PartialEq, Eq, Structural, Debug)]
pub enum AttributeFormat {
    Float32x2,
    Float32x3,
    Float32x4,
}

/// The size of a format in bytes.
pub open spec fn format_size(f: AttributeFormat) -> int {
    match f {
        AttributeFormat::Float32x2 => 8,
        AttributeFormat::Float32x3 => 12,
        AttributeFormat::Float32x4 => 16,
    }
}

/// One attribute: where the shader binds it, where in the stride it lies,
/// and its format.
#[derive(Clone, Copy, PartialEq, Eq, Structural, Debug)]
pub struct AttributeDesc {
    pub shader_location: u32,
    pub offset: u32,
    pub format: AttributeFormat,
}

/// One vertex buffer's layout: the stride, whether it advances per instance
/// rather than per vertex, and its attributes in order.
pub struct LayoutDesc {
    pub stride: u32,
    pub per_instance: bool,
    pub attributes: Vec<AttributeDesc>,
}

/// A layout is packed: its attributes lie back to back from offset zero,
/// and the stride is exactly their total size.
pub open spec fn packed(l: LayoutDesc) -> bool {
    &&& (forall|i: int|
        0 <= i < l.attributes@.len() ==> #[trigger] l.attributes@[i].offset == sum_sizes(
            l.attributes@,
            i,
        ))
    &&& l.stride == sum_sizes(l.attributes@, l.attributes@.len() as int)
}

/// The total size of the first `n` attributes.
pub open spec fn sum_sizes(attrs: Seq<AttributeDesc>, n: int) -> int
    decreases n,
{
    if n <= 0 {
        0
    } else {
        sum_sizes(attrs, n - 1) + format_size(attrs[n - 1].format)
    }
}

/// The layout of the plain (untextured-model) vertex: a position of three
/// floats at location zero, then texture coordinates of two floats at
/// location one; twenty bytes per vertex, stepped per vertex.
pub fn vertex_layout() -> (l: LayoutDesc)
    ensures
        l.stride == 20,
        !l.per_instance,
        l.attributes@ =~= seq![
            AttributeDesc { shader_location: 0, offset: 0, format: AttributeFormat::Float32x3 },
            AttributeDesc { shader_location: 1, offset: 12, format: AttributeFormat::Float32x2 },
        ],
        packed(l),
{
    let mut attributes: Vec<AttributeDesc> = Vec::new();
    attributes.push(
        AttributeDesc { shader_location: 0, offset: 0, format: AttributeFormat::Float32x3 },
    );
    attributes.push(
        AttributeDesc { shader_location: 1, offset: 12, format: AttributeFormat::Float32x2 },
    );
    let l = LayoutDesc { stride: 20, per_instance: false, attributes };
    proof {
        reveal_with_fuel(sum_sizes, 3);
    }
    l
}

/// The layout of a model vertex: position (three floats, location zero),
/// texture coordinates (two floats, location one), normal (three floats,
/// location two); thirty-two bytes per vertex, stepped per vertex. This is
/// the order `plan_mesh` interleaves the attribute words in.
pub fn model_vertex_layout() -> (l: LayoutDesc)
    ensures
        l.stride == 32,
        !l.per_instance,
        l.attributes@ =~= seq![
            AttributeDesc { shader_location: 0, offset: 0, format: AttributeFormat::Float32x3 },
            AttributeDesc { shader_location: 1, offset: 12, format: AttributeFormat::Float32x2 },
            AttributeDesc { shader_location: 2, offset: 20, format: AttributeFormat::Float32x3 },
        ],
        packed(l),
{
    let mut attributes: Vec<AttributeDesc> = Vec::new();
    attributes.push(
        AttributeDesc { shader_location: 0, offset: 0, format: AttributeFormat::Float32x3 },
    );
    attributes.push(
        AttributeDesc { shader_location: 1, offset: 12, format: AttributeFormat::Float32x2 },
    );
    attributes.push(
        AttributeDesc { shader_location: 2, offset: 20, format: AttributeFormat::Float32x3 },
    );
    let l = LayoutDesc { stride: 32, per_instance: false, attributes };
    proof {
        reveal_with_fuel(sum_sizes, 4);
    }
    l
}

/// The layout of one instance's data: the four rows of its model matrix,
/// four floats each, at shader locations five through eight; sixty-four
/// bytes per instance, stepped per instance.
pub fn instance_layout() -> (l: LayoutDesc)
    ensures
        l.stride == 64,
        l.per_instance,
        l.attributes@ =~= seq![
            AttributeDesc { shader_location: 5, offset: 0, format: AttributeFormat::Float32x4 },
            AttributeDesc { shader_location: 6, offset: 16, format: AttributeFormat::Float32x4 },
            AttributeDesc { shader_location: 7, offset: 32, format: AttributeFormat::Float32x4 },
            AttributeDesc { shader_location: 8, offset: 48, format: AttributeFormat::Float32x4 },
        ],
        packed(l),
{
    let mut attributes: Vec<AttributeDesc> = Vec::new();
    attributes.push(
        AttributeDesc { shader_location: 5, offset: 0, format: AttributeFormat::Float32x4 },
    );
    attributes.push(
        AttributeDesc { shader_location: 6, offset: 16, format: AttributeFormat::Float32x4 },
    );
    attributes.push(
        AttributeDesc { shader_location: 7, offset: 32, format: AttributeFormat::Float32x4 },
    );
    attributes.push(
        AttributeDesc { shader_location: 8, offset: 48, format: AttributeFormat::Float32x4 },
    );
    let l = LayoutDesc { stride: 64, per_instance: true, attributes };
    proof {
        reveal_with_fuel(sum_sizes, 5);
    }
    l
}

} // verus!
