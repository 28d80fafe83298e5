//! Render-pipeline configurations and the vertex-slot assignment rule.
//!
//! A primitive's attribute presence flags (plus its topology) fully
//! determine which compiled pipeline it needs; the flags also determine,
//! through a fixed slot-assignment rule, which vertex shader location
//! each attribute occupies.  The rule: slot 0 is always position; slot 1
//! is normal if present; slot 2 is tangent only if both normal and
//! tangent are present; the first free slot after those is assigned, in
//! order, to texcoord0, texcoord1 and color0, each consuming a slot only
//! if its presence flag is set.

use vstd::prelude::*;

use crate::asset::Semantic;
use crate::error::{Error, ErrorKind};

verus! {

/// A supported primitive topology, as the GPU pipeline understands it.
#[derive(Clone, Copy, Debug, PartialEq, Eq, Structural, Hash)]
pub enum PrimitiveTopology {
    PointList,
    LineList,
    LineStrip,
    TriangleList,
    TriangleStrip,
}

/// The minimal fingerprint of a primitive's vertex layout: one presence
/// flag per optional attribute, plus the topology.  Two primitives with
/// equal configurations share one compiled pipeline.
#[derive(Clone, Copy, Debug, PartialEq, Eq, Structural, Hash)]
pub struct RenderPipelineConfiguration {
    pub has_normal: bool,
    pub has_tangent: bool,
    pub has_tex_coord_0: bool,
    pub has_tex_coord_1: bool,
    pub has_color_0: bool,
    pub topology: PrimitiveTopology,
}

/// The first vertex slot after the mandatory attributes: position always
/// holds slot 0, normal holds slot 1 when present, and tangent holds
/// slot 2 only when both normal and tangent are present.
pub open spec fn spec_base_location_offset(c: RenderPipelineConfiguration) -> u32 {
    if c.has_normal && c.has_tangent {
        3u32
    } else if c.has_normal {
        2u32
    } else {
        1u32
    }
}

/// Slot of texcoord0 when present: the base slot.  0 when absent.
pub open spec fn spec_tex_coord_0_location(c: RenderPipelineConfiguration) -> u32 {
    if c.has_tex_coord_0 {
        spec_base_location_offset(c)
    } else {
        0u32
    }
}

/// Slot of texcoord1 when present: the base slot, shifted by one if
/// texcoord0 occupies it.  0 when absent.
pub open spec fn spec_tex_coord_1_location(c: RenderPipelineConfiguration) -> u32 {
    if c.has_tex_coord_1 {
        (spec_base_location_offset(c) + if c.has_tex_coord_0 {
            1u32
        } else {
            0u32
        }) as u32
    } else {
        0u32
    }
}

/// Slot of color0 when present: the base slot, shifted once for each of
/// texcoord0 and texcoord1 that is present.  0 when absent.
pub open spec fn spec_color_0_location(c: RenderPipelineConfiguration) -> u32 {
    if c.has_color_0 {
        (spec_base_location_offset(c) + (if c.has_tex_coord_0 {
            1u32
        } else {
            0u32
        }) + (if c.has_tex_coord_1 {
            1u32
        } else {
            0u32
        })) as u32
    } else {
        0u32
    }
}

impl RenderPipelineConfiguration {
    /// Vertex slot assigned to texcoord0, 0 if the attribute is absent.
    pub fn get_tex_coord_0_location(&self) -> (r: u32)
        ensures
            r == spec_tex_coord_0_location(*self),
    {
        match self.has_tex_coord_0 {
            true => self.get_base_location_offset(),
            false => 0,
        }
    }

    /// Vertex slot assigned to texcoord1, 0 if the attribute is absent.
    pub fn get_tex_coord_1_location(&self) -> (r: u32)
        ensures
            r == spec_tex_coord_1_location(*self),
    {
        match self.has_tex_coord_1 {
            true => {
                if self.has_tex_coord_0 {
                    self.get_base_location_offset() + 1
                } else {
                    self.get_base_location_offset()
                }
            },
            false => 0,
        }
    }

    /// Vertex slot assigned to color0, 0 if the attribute is absent.
    pub fn get_color_0_location(&self) -> (r: u32)
        ensures
            r == spec_color_0_location(*self),
    {
        if !self.has_color_0 {
            return 0;
        }
        let base_offset: u32 = self.get_base_location_offset();
        let tc0: u32 = if self.has_tex_coord_0 {
            1
        } else {
            0
        };
        let tc1: u32 = if self.has_tex_coord_1 {
            1
        } else {
            0
        };
        base_offset + tc0 + tc1
    }

    fn get_base_location_offset(&self) -> (r: u32)
        ensures
            r == spec_base_location_offset(*self),
    {
        if self.has_normal && self.has_tangent {
            3
        } else if self.has_normal {
            2
        } else {
            1
        }
    }

    /// A small integer that encodes the topology, used to key the
    /// pipeline cache.
    pub open spec fn spec_topology_code(t: PrimitiveTopology) -> u64 {
        match t {
            PrimitiveTopology::PointList => 0u64,
            PrimitiveTopology::LineList => 1u64,
            PrimitiveTopology::LineStrip => 2u64,
            PrimitiveTopology::TriangleList => 3u64,
            PrimitiveTopology::TriangleStrip => 4u64,
        }
    }

    /// The cache key of this configuration: one bit per presence flag
    /// plus the topology code.  Injective, so two configurations collide
    /// in the cache exactly when they are equal.
    pub open spec fn spec_cache_key(c: RenderPipelineConfiguration) -> u64 {
        ((if c.has_normal {
            1u64
        } else {
            0u64
        }) + (if c.has_tangent {
            2u64
        } else {
            0u64
        }) + (if c.has_tex_coord_0 {
            4u64
        } else {
            0u64
        }) + (if c.has_tex_coord_1 {
            8u64
        } else {
            0u64
        }) + (if c.has_color_0 {
            16u64
        } else {
            0u64
        }) + 32u64 * RenderPipelineConfiguration::spec_topology_code(c.topology)) as u64
    }

    /// Computes the cache key described by `spec_cache_key`.
    pub fn cache_key(&self) -> (r: u64)
        ensures
            r == RenderPipelineConfiguration::spec_cache_key(*self),
    {
        let flags: u64 = (if self.has_normal {
            1u64
        } else {
            0u64
        }) + (if self.has_tangent {
            2u64
        } else {
            0u64
        }) + (if self.has_tex_coord_0 {
            4u64
        } else {
            0u64
        }) + (if self.has_tex_coord_1 {
            8u64
        } else {
            0u64
        }) + (if self.has_color_0 {
            16u64
        } else {
            0u64
        });
        let topology_code: u64 = match self.topology {
            PrimitiveTopology::PointList => 0,
            PrimitiveTopology::LineList => 1,
            PrimitiveTopology::LineStrip => 2,
            PrimitiveTopology::TriangleList => 3,
            PrimitiveTopology::TriangleStrip => 4,
        };
        flags + 32 * topology_code
    }
}

/// The component layout of one vertex attribute.
#[derive(Clone, Copy, Debug, PartialEq, Eq, Structural)]
pub enum VertexFormat {
    Float32x2,
    Float32x3,
    Float32x4,
}

/// One GPU buffer binding of a pipeline's vertex state: its byte stride
/// and its single attribute (offset 0, tightly packed per attribute).
#[derive(Clone, Copy, Debug, PartialEq, Eq, Structural)]
pub struct VertexBufferLayoutEntry {
    pub array_stride: u64,
    pub shader_location: u32,
    pub format: VertexFormat,
}

/// Collects vertex buffer bindings in slot order.
pub struct VertexBufferLayoutBuilder {
    pub entries: Vec<VertexBufferLayoutEntry>,
}

impl VertexBufferLayoutBuilder {
    /// A builder with no bindings yet.
    pub fn new() -> (r: VertexBufferLayoutBuilder)
        ensures
            r.entries@ == Seq::<VertexBufferLayoutEntry>::empty(),
    {
        VertexBufferLayoutBuilder { entries: Vec::new() }
    }

    /// Appends one buffer binding.
    pub fn add(&mut self, entry: VertexBufferLayoutEntry)
        ensures
            final(self).entries@ == old(self).entries@.push(entry),
    {
        self.entries.push(entry);
    }

    /// The bindings collected so far, in insertion order.
    pub fn build(self) -> (r: Vec<VertexBufferLayoutEntry>)
        ensures
            r@ == self.entries@,
    {
        self.entries
    }
}

/// Which side of a triangle is culled.
#[derive(Clone, Copy, Debug, PartialEq, Eq, Structural)]
pub enum CullMode {
    Front,
    Back,
}

/// The winding order of front faces.
#[derive(Clone, Copy, Debug, PartialEq, Eq, Structural)]
pub enum FrontFace {
    Ccw,
    Cw,
}

/// How polygons are rasterized.
#[derive(Clone, Copy, Debug, PartialEq, Eq, Structural)]
pub enum PolygonMode {
    Fill,
    Line,
    Point,
}

/// A depth comparison function.
#[derive(Clone, Copy, Debug, PartialEq, Eq, Structural)]
pub enum CompareFunction {
    Less,
    LessEqual,
}

/// The raster state a pipeline is created with.
#[derive(Clone, Copy, Debug, PartialEq, Eq, Structural)]
pub struct PrimitiveState {
    pub topology: PrimitiveTopology,
    pub front_face: FrontFace,
    pub cull_mode: CullMode,
    pub polygon_mode: PolygonMode,
}

/// The depth test a pipeline is created with.
#[derive(Clone, Copy, Debug, PartialEq, Eq, Structural)]
pub struct DepthState {
    pub depth_write_enabled: bool,
    pub depth_compare: CompareFunction,
}

/// The fixed bind-group slots every primitive pipeline exposes, in slot
/// order.
#[derive(Clone, Copy, Debug, PartialEq, Eq, Structural)]
pub enum BindGroupKind {
    ViewEnvironment,
    PrimitiveInstance,
    Material,
}

/// The vertex buffer layout the slot-assignment rule gives a
/// configuration: position at slot 0, then one binding per present
/// attribute at its assigned slot, tightly packed, tangent only when
/// normal is present too.
pub open spec fn spec_vertex_layout(c: RenderPipelineConfiguration) -> Seq<
    VertexBufferLayoutEntry,
> {
    seq![
        VertexBufferLayoutEntry {
            array_stride: 12u64,
            shader_location: 0u32,
            format: VertexFormat::Float32x3,
        },
    ] + (if c.has_normal {
        seq![
            VertexBufferLayoutEntry {
                array_stride: 12u64,
                shader_location: 1u32,
                format: VertexFormat::Float32x3,
            },
        ]
    } else {
        Seq::<VertexBufferLayoutEntry>::empty()
    }) + (if c.has_normal && c.has_tangent {
        seq![
            VertexBufferLayoutEntry {
                array_stride: 16u64,
                shader_location: 2u32,
                format: VertexFormat::Float32x4,
            },
        ]
    } else {
        Seq::<VertexBufferLayoutEntry>::empty()
    }) + (if c.has_tex_coord_0 {
        seq![
            VertexBufferLayoutEntry {
                array_stride: 8u64,
                shader_location: spec_tex_coord_0_location(c),
                format: VertexFormat::Float32x2,
            },
        ]
    } else {
        Seq::<VertexBufferLayoutEntry>::empty()
    }) + (if c.has_tex_coord_1 {
        seq![
            VertexBufferLayoutEntry {
                array_stride: 8u64,
                shader_location: spec_tex_coord_1_location(c),
                format: VertexFormat::Float32x2,
            },
        ]
    } else {
        Seq::<VertexBufferLayoutEntry>::empty()
    }) + (if c.has_color_0 {
        seq![
            VertexBufferLayoutEntry {
                array_stride: 16u64,
                shader_location: spec_color_0_location(c),
                format: VertexFormat::Float32x4,
            },
        ]
    } else {
        Seq::<VertexBufferLayoutEntry>::empty()
    })
}

/// A compiled pipeline record: the configuration that keys it, the
/// vertex buffer layout and fixed raster, depth and bind-group state it
/// was compiled with, the shader variant it uses, and a creation ordinal
/// the shell uses to name the GPU object.
pub struct RenderPipeline {
    pub id: u64,
    pub config: RenderPipelineConfiguration,
    pub vertex_layout: Vec<VertexBufferLayoutEntry>,
    pub shader: std::rc::Rc<crate::shader::ShaderModulePackage>,
    pub primitive_state: PrimitiveState,
    pub depth_state: DepthState,
    pub bind_group_order: Vec<BindGroupKind>,
}

impl RenderPipeline {
    /// True when a pipeline record carries exactly the state its
    /// configuration calls for: the layout of the slot-assignment rule,
    /// back-face culling of counter-clockwise fill-rasterized triangles,
    /// a write-enabled "less" depth test, and the fixed bind-group order
    /// view environment, per-instance transform, material.
    pub open spec fn spec_built_for(r: RenderPipeline, c: RenderPipelineConfiguration) -> bool {
        &&& r.config == c
        &&& r.vertex_layout@ == spec_vertex_layout(c)
        &&& r.primitive_state == (PrimitiveState {
            topology: c.topology,
            front_face: FrontFace::Ccw,
            cull_mode: CullMode::Back,
            polygon_mode: PolygonMode::Fill,
        })
        &&& r.depth_state == (DepthState {
            depth_write_enabled: true,
            depth_compare: CompareFunction::Less,
        })
        &&& r.bind_group_order@ == seq![
            BindGroupKind::ViewEnvironment,
            BindGroupKind::PrimitiveInstance,
            BindGroupKind::Material,
        ]
        &&& r.shader.config == crate::shader::spec_template_of(c)
    }

    /// Assembles the pipeline record for a configuration, building the
    /// vertex buffer layout from the same presence flags that chose the
    /// shader variant.
    pub fn from_config(
        id: u64,
        config: RenderPipelineConfiguration,
        shader: std::rc::Rc<crate::shader::ShaderModulePackage>,
    ) -> (r: RenderPipeline)
        requires
            shader.config == crate::shader::spec_template_of(config),
        ensures
            RenderPipeline::spec_built_for(r, config),
            r.id == id,
    {
        let vertex_layout: Vec<VertexBufferLayoutEntry> =
            RenderPipeline::create_vertex_buffer_layout(&config);

        let mut bind_group_order: Vec<BindGroupKind> = Vec::new();
        bind_group_order.push(BindGroupKind::ViewEnvironment);
        bind_group_order.push(BindGroupKind::PrimitiveInstance);
        bind_group_order.push(BindGroupKind::Material);
        proof {
            assert(bind_group_order@ =~= seq![
                BindGroupKind::ViewEnvironment,
                BindGroupKind::PrimitiveInstance,
                BindGroupKind::Material,
            ]);
        }

        RenderPipeline {
            id,
            config,
            vertex_layout,
            shader,
            primitive_state: PrimitiveState {
                topology: config.topology,
                front_face: FrontFace::Ccw,
                cull_mode: CullMode::Back,
                polygon_mode: PolygonMode::Fill,
            },
            depth_state: DepthState {
                depth_write_enabled: true,
                depth_compare: CompareFunction::Less,
            },
            bind_group_order,
        }
    }

    /// Builds one buffer binding per present attribute, in slot order.
    fn create_vertex_buffer_layout(config: &RenderPipelineConfiguration) -> (r: Vec<
        VertexBufferLayoutEntry,
    >)
        ensures
            r@ == spec_vertex_layout(*config),
    {
        let mut builder: VertexBufferLayoutBuilder = VertexBufferLayoutBuilder::new();

        builder.add(
            VertexBufferLayoutEntry {
                array_stride: 12,
                shader_location: 0,
                format: VertexFormat::Float32x3,
            },
        );

        if config.has_normal {
            builder.add(
                VertexBufferLayoutEntry {
                    array_stride: 12,
                    shader_location: 1,
                    format: VertexFormat::Float32x3,
                },
            );

            if config.has_tangent {
                builder.add(
                    VertexBufferLayoutEntry {
                        array_stride: 16,
                        shader_location: 2,
                        format: VertexFormat::Float32x4,
                    },
                );
            }
        }

        if config.has_tex_coord_0 {
            builder.add(
                VertexBufferLayoutEntry {
                    array_stride: 8,
                    shader_location: config.get_tex_coord_0_location(),
                    format: VertexFormat::Float32x2,
                },
            );
        }

        if config.has_tex_coord_1 {
            builder.add(
                VertexBufferLayoutEntry {
                    array_stride: 8,
                    shader_location: config.get_tex_coord_1_location(),
                    format: VertexFormat::Float32x2,
                },
            );
        }

        if config.has_color_0 {
            builder.add(
                VertexBufferLayoutEntry {
                    array_stride: 16,
                    shader_location: config.get_color_0_location(),
                    format: VertexFormat::Float32x4,
                },
            );
        }

        let r = builder.build();
        proof {
            assert(r@ =~= spec_vertex_layout(*config));
        }
        r
    }
}

/// The vertex slot a recorded buffer segment is bound to at draw time,
/// by the same slot-assignment rule the pipeline was compiled with:
/// position, normal and tangent at their fixed slots, texture
/// coordinates and colors at their resolved locations.  Skinning
/// attributes bind nothing; an out-of-range texture-coordinate or color
/// index is rejected.
pub open spec fn spec_segment_shader_location(
    c: RenderPipelineConfiguration,
    semantic: Semantic,
) -> Result<Option<u32>, ()> {
    match semantic {
        Semantic::Positions => Ok(Some(0u32)),
        Semantic::Normals => Ok(Some(1u32)),
        Semantic::Tangents => Ok(Some(2u32)),
        Semantic::TexCoords(i) => if i == 0 {
            Ok(Some(spec_tex_coord_0_location(c)))
        } else if i == 1 {
            Ok(Some(spec_tex_coord_1_location(c)))
        } else {
            Err(())
        },
        Semantic::Colors(i) => if i == 0 {
            Ok(Some(spec_color_0_location(c)))
        } else {
            Err(())
        },
        Semantic::Joints(_) | Semantic::Weights(_) => Ok(None),
    }
}

impl RenderPipelineConfiguration {
    /// Resolves the slot a segment with the given semantic binds to, as
    /// `spec_segment_shader_location` lays it down.
    pub fn segment_shader_location(&self, semantic: Semantic) -> (r: Result<Option<u32>, Error>)
        ensures
            match spec_segment_shader_location(*self, semantic) {
                Ok(loc) => r matches Ok(l) && l == loc,
                Err(()) => r matches Err(e) && e.spec_kind()
                    == ErrorKind::AttributeIndexOutOfRange,
            },
    {
        match semantic {
            Semantic::Positions => Ok(Some(0)),
            Semantic::Normals => Ok(Some(1)),
            Semantic::Tangents => Ok(Some(2)),
            Semantic::TexCoords(i) => {
                if i == 0 {
                    Ok(Some(self.get_tex_coord_0_location()))
                } else if i == 1 {
                    Ok(Some(self.get_tex_coord_1_location()))
                } else {
                    Err(
                        Error::of_kind(
                            ErrorKind::AttributeIndexOutOfRange,
                            "The given primitive has a texture coordinate attribute with an index greater than 1".to_string(),
                        ),
                    )
                }
            },
            Semantic::Colors(i) => {
                if i == 0 {
                    Ok(Some(self.get_color_0_location()))
                } else {
                    Err(
                        Error::of_kind(
                            ErrorKind::AttributeIndexOutOfRange,
                            "The given primitive has a vertex color attribute with an index greater than 0".to_string(),
                        ),
                    )
                }
            },
            Semantic::Joints(_) | Semantic::Weights(_) => Ok(None),
        }
    }
}

/// Cache keys are injective: equal keys come only from equal
/// configurations, so structurally equal configurations — and no others —
/// hit the same cache entry regardless of discovery order.
pub proof fn lemma_cache_key_injective(
    a: RenderPipelineConfiguration,
    b: RenderPipelineConfiguration,
)
    requires
        RenderPipelineConfiguration::spec_cache_key(a)
            == RenderPipelineConfiguration::spec_cache_key(b),
    ensures
        a == b,
{
}

} // verus!
