//! The render pipeline's fixed shape, and vertex buffer layouts as plain
//! data: byte stride plus an attribute list, from which the host builds
//! the real pipeline descriptor.

use vstd::prelude::*;

verus! {

/// The shader-visible shape of one vertex attribute.
#[derive(Clone, Copy, Debug, PartialEq, Eq, Structural)]
pub enum AttributeFormat {
    /// Two 32-bit float lanes, 8 bytes.
    Float32x2,
    /// Three 32-bit float lanes, 12 bytes.
    Float32x3,
}

/// The byte size of an attribute format.
pub open spec fn attribute_size(f: AttributeFormat) -> u64 {
    match f {
        AttributeFormat::Float32x2 => 8,
        AttributeFormat::Float32x3 => 12,
    }
}

/// One vertex attribute: where the shader reads it, where it starts in
/// the vertex record, and its shape.
#[derive(Clone, Copy, Debug, PartialEq, Eq, Structural)]
pub struct VertexAttributeDesc {
    pub shader_location: u32,
    pub offset: u64,
    pub format: AttributeFormat,
}

/// The byte size of the attributes taken together.
pub open spec fn attributes_size(attrs: Seq<VertexAttributeDesc>) -> int
    decreases attrs.len(),
{
    if attrs.len() == 0 {
        0
    } else {
        attributes_size(attrs.drop_last()) + attribute_size(attrs.last().format)
    }
}

/// One vertex buffer layout: the record stride and the attributes packed
/// into it.
pub struct VertexLayoutDesc {
    pub array_stride: u64,
    pub attributes: Vec<VertexAttributeDesc>,
}

impl VertexLayoutDesc {
    /// The layout is packed: shader locations count up from zero, each
    /// attribute starts where the previous one ends, and the stride is
    /// exactly the bytes the attributes need.
    pub open spec fn wf(&self) -> bool {
        &&& forall|k: int|
            0 <= k < self.attributes@.len() ==> (#[trigger] self.attributes@[k]).shader_location
                == k
        &&& forall|k: int|
            0 <= k < self.attributes@.len() ==> (#[trigger] self.attributes@[k]).offset
                == attributes_size(self.attributes@.take(k))
        &&& self.array_stride == attributes_size(self.attributes@)
    }
}

/// The layout of an annulus vertex as uploaded: one two-float position,
/// 8 bytes.
pub fn annulus_vertex_layout() -> (l: VertexLayoutDesc)
    ensures
        l.array_stride == 8,
        l.attributes@ =~= seq![
            (VertexAttributeDesc {
                shader_location: 0,
                offset: 0,
                format: AttributeFormat::Float32x2,
            }),
        ],
        l.wf(),
{
    let mut attributes: Vec<VertexAttributeDesc> = Vec::new();
    attributes.push(
        VertexAttributeDesc { shader_location: 0, offset: 0, format: AttributeFormat::Float32x2 },
    );
    let l = VertexLayoutDesc { array_stride: 8, attributes };
    proof {
        let attrs = l.attributes@;
        assert(attrs.take(0) =~= Seq::<VertexAttributeDesc>::empty());
        assert(attributes_size(attrs.take(0)) == 0);
        assert(attrs.drop_last() =~= attrs.take(0));
        assert(attrs.last() == attrs[0]);
        assert(attributes_size(attrs) == 8);
    }
    l
}

/// The supported vertex kinds, each carrying its attribute layout as
/// plain data.
#[derive(Clone, Copy, Debug, PartialEq, Eq, Structural)]
pub enum VertexType {
    /// A three-float position followed by a three-float color, 24 bytes;
    /// the polygon mesh uses it.
    Colored,
    /// A three-float position followed by two-float texture coordinates,
    /// 20 bytes.
    Texed,
}

impl VertexType {
    /// The second attribute of this vertex kind; the first is always the
    /// three-float position.
    pub open spec fn second_format(self) -> AttributeFormat {
        match self {
            VertexType::Colored => AttributeFormat::Float32x3,
            VertexType::Texed => AttributeFormat::Float32x2,
        }
    }

    /// The layout of this vertex kind: the position, then the color or
    /// the texture coordinates at byte 12.
    pub fn layout(&self) -> (l: VertexLayoutDesc)
        ensures
            l.array_stride == 12 + attribute_size(self.second_format()),
            l.attributes@ =~= seq![
                (VertexAttributeDesc {
                    shader_location: 0,
                    offset: 0,
                    format: AttributeFormat::Float32x3,
                }),
                (VertexAttributeDesc {
                    shader_location: 1,
                    offset: 12,
                    format: self.second_format(),
                }),
            ],
            l.wf(),
{
        let second = match self {
            VertexType::Colored => AttributeFormat::Float32x3,
            VertexType::Texed => AttributeFormat::Float32x2,
        };
        let stride: u64 = match second {
            AttributeFormat::Float32x3 => 24,
            AttributeFormat::Float32x2 => 20,
        };
        let mut attributes: Vec<VertexAttributeDesc> = Vec::new();
        attributes.push(
            VertexAttributeDesc {
                shader_location: 0,
                offset: 0,
                format: AttributeFormat::Float32x3,
            },
        );
        attributes.push(VertexAttributeDesc { shader_location: 1, offset: 12, format: second });
        let l = VertexLayoutDesc { array_stride: stride, attributes };
        proof {
            let attrs = l.attributes@;
            assert(attrs.take(0) =~= Seq::<VertexAttributeDesc>::empty());
            assert(attributes_size(attrs.take(0)) == 0);
            assert(attrs.take(1).drop_last() =~= attrs.take(0));
            assert(attrs.take(1).last() == attrs[0]);
            assert(attributes_size(attrs.take(1)) == 12);
            assert(attrs.drop_last() =~= attrs.take(1));
            assert(attrs.last() == attrs[1]);
            assert(attributes_size(attrs) == 12 + attribute_size(self.second_format()));
        }
        l
    }
}

/// The fixed pipeline shape of this engine. A production renderer would
/// parameterize these; here they are deliberate scope limits.
#[derive(Clone, Copy, Debug, PartialEq, Eq, Structural)]
pub struct PipelinePolicy {
    /// Every three vertices form one triangle.
    pub triangle_list: bool,
    /// Counter-clockwise vertex order is the front face.
    pub front_face_ccw: bool,
    /// Back faces are culled.
    pub cull_back_faces: bool,
    /// Whether a depth/stencil attachment exists.
    pub has_depth_stencil: bool,
    /// Samples per pixel.
    pub sample_count: u32,
    /// Straight replace blending on the one color target.
    pub blend_replace: bool,
    /// All color channels are written.
    pub write_mask_all: bool,
}

/// The policy every pipeline of this engine is built with.
pub fn pipeline_policy() -> (p: PipelinePolicy)
    ensures
        p == (PipelinePolicy {
            triangle_list: true,
            front_face_ccw: true,
            cull_back_faces: true,
            has_depth_stencil: false,
            sample_count: 1,
            blend_replace: true,
            write_mask_all: true,
        }),
{
    PipelinePolicy {
        triangle_list: true,
        front_face_ccw: true,
        cull_back_faces: true,
        has_depth_stencil: false,
        sample_count: 1,
        blend_replace: true,
        write_mask_all: true,
    }
}

/// The vertex-stage entry symbol the shader module must expose.
pub fn vertex_entry_point() -> (s: &'static str)
    ensures
        s@ == "vs_main"@,
{
    "vs_main"
}

/// The fragment-stage entry symbol the shader module must expose.
pub fn fragment_entry_point() -> (s: &'static str)
    ensures
        s@ == "fs_main"@,
{
    "fs_main"
}

} // verus!
