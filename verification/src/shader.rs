//! Shader-variant configurations and compiled shader-module records.
//!
//! A shader template is specialized by the attribute presence flags plus
//! the resolved vertex-slot locations (which depend on which earlier
//! attributes occupy slots).  The template configuration is always
//! derived from a pipeline configuration by the slot-assignment rule,
//! never stored independently, so the two caches cannot drift apart.

use vstd::prelude::*;

use crate::pipeline::{
    spec_color_0_location, spec_tex_coord_0_location, spec_tex_coord_1_location,
    RenderPipelineConfiguration,
};

verus! {

/// The fingerprint of one generated shader variant: attribute presence
/// flags and the vertex slot each present attribute was assigned.
#[derive(Clone, Copy, Debug, PartialEq, Eq, Structural, Hash)]
pub struct ShaderTemplateConfiguration {
    pub has_normal: bool,
    pub has_tangent: bool,
    pub has_tex_coord_0: bool,
    pub tex_coord_0_location: u32,
    pub has_tex_coord_1: bool,
    pub tex_coord_1_location: u32,
    pub has_color_0: bool,
    pub color_0_location: u32,
}

/// The template configuration that the slot-assignment rule derives from
/// a pipeline configuration.
pub open spec fn spec_template_of(c: RenderPipelineConfiguration) -> ShaderTemplateConfiguration {
    ShaderTemplateConfiguration {
        has_normal: c.has_normal,
        has_tangent: c.has_tangent,
        has_tex_coord_0: c.has_tex_coord_0,
        tex_coord_0_location: spec_tex_coord_0_location(c),
        has_tex_coord_1: c.has_tex_coord_1,
        tex_coord_1_location: spec_tex_coord_1_location(c),
        has_color_0: c.has_color_0,
        color_0_location: spec_color_0_location(c),
    }
}

impl ShaderTemplateConfiguration {
    /// Derives the template configuration from a pipeline configuration
    /// by the slot-assignment rule.
    pub fn from_render_pipeline_config(config: &RenderPipelineConfiguration) -> (r:
        ShaderTemplateConfiguration)
        ensures
            r == spec_template_of(*config),
    {
        ShaderTemplateConfiguration {
            has_normal: config.has_normal,
            has_tangent: config.has_tangent,
            has_tex_coord_0: config.has_tex_coord_0,
            tex_coord_0_location: config.get_tex_coord_0_location(),
            has_tex_coord_1: config.has_tex_coord_1,
            tex_coord_1_location: config.get_tex_coord_1_location(),
            has_color_0: config.has_color_0,
            color_0_location: config.get_color_0_location(),
        }
    }

    /// The cache key of this template configuration.  The locations are
    /// not part of the key: they are themselves derived from the flags by
    /// the slot-assignment rule, so the flags alone determine the
    /// variant.
    pub open spec fn spec_cache_key(t: ShaderTemplateConfiguration) -> u64 {
        ((if t.has_normal {
            1u64
        } else {
            0u64
        }) + (if t.has_tangent {
            2u64
        } else {
            0u64
        }) + (if t.has_tex_coord_0 {
            4u64
        } else {
            0u64
        }) + (if t.has_tex_coord_1 {
            8u64
        } else {
            0u64
        }) + (if t.has_color_0 {
            16u64
        } else {
            0u64
        })) as u64
    }

    /// Computes the cache key described by `spec_cache_key`.
    pub fn cache_key(&self) -> (r: u64)
        ensures
            r == ShaderTemplateConfiguration::spec_cache_key(*self),
    {
        (if self.has_normal {
            1u64
        } else {
            0u64
        }) + (if self.has_tangent {
            2u64
        } else {
            0u64
        }) + (if self.has_tex_coord_0 {
            4u64
        } else {
            0u64
        }) + (if self.has_tex_coord_1 {
            8u64
        } else {
            0u64
        }) + (if self.has_color_0 {
            16u64
        } else {
            0u64
        })
    }
}

/// The pipeline configuration a template's flags came from, up to
/// topology (which the slot-assignment rule ignores).
pub open spec fn spec_flags_config(t: ShaderTemplateConfiguration) -> RenderPipelineConfiguration {
    RenderPipelineConfiguration {
        has_normal: t.has_normal,
        has_tangent: t.has_tangent,
        has_tex_coord_0: t.has_tex_coord_0,
        has_tex_coord_1: t.has_tex_coord_1,
        has_color_0: t.has_color_0,
        topology: crate::pipeline::PrimitiveTopology::TriangleList,
    }
}

/// True of exactly the template configurations the slot-assignment rule
/// can produce: each location is the rule's formula over the flags.
pub open spec fn spec_template_wf(t: ShaderTemplateConfiguration) -> bool {
    t == spec_template_of(spec_flags_config(t))
}

/// Template configurations that the slot-assignment rule produces are
/// keyed injectively: equal keys mean equal configurations, because the
/// locations are functions of the flags the key holds.
pub proof fn lemma_template_cache_key_injective(
    a: RenderPipelineConfiguration,
    b: RenderPipelineConfiguration,
)
    requires
        ShaderTemplateConfiguration::spec_cache_key(spec_template_of(a))
            == ShaderTemplateConfiguration::spec_cache_key(spec_template_of(b)),
    ensures
        spec_template_of(a) == spec_template_of(b),
{
}

/// One compiled vertex+fragment shader pair, identified by the template
/// configuration it was generated from and a creation ordinal the shell
/// uses to name the GPU modules.
pub struct ShaderModulePackage {
    pub id: u64,
    pub config: ShaderTemplateConfiguration,
}

impl ShaderModulePackage {
    /// Records a shader variant compiled for `config` as the `id`-th
    /// package of the cache.
    pub fn from_template_config(id: u64, config: ShaderTemplateConfiguration) -> (r:
        ShaderModulePackage)
        ensures
            r.id == id,
            r.config == config,
    {
        ShaderModulePackage { id, config }
    }
}

} // verus!
