use gltf_viewer::pipeline::{
    BindGroupKind, CompareFunction, CullMode, FrontFace, PolygonMode, PrimitiveTopology,
    RenderPipelineConfiguration, VertexFormat,
};
use gltf_viewer::asset::Semantic;
use gltf_viewer::shader::ShaderTemplateConfiguration;
use std::rc::Rc;

fn config(
    has_normal: bool,
    has_tangent: bool,
    has_tex_coord_0: bool,
    has_tex_coord_1: bool,
    has_color_0: bool,
) -> RenderPipelineConfiguration {
    RenderPipelineConfiguration {
        has_normal,
        has_tangent,
        has_tex_coord_0,
        has_tex_coord_1,
        has_color_0,
        topology: PrimitiveTopology::TriangleList,
    }
}

#[test]
fn slot_rule_texcoord0_and_color0_after_tangent() {
    // normal and tangent present, texcoord0 present, texcoord1 absent,
    // color0 present: texcoord0 gets slot 3, color0 gets slot 4.
    let c = config(true, true, true, false, true);
    assert_eq!(c.get_tex_coord_0_location(), 3);
    assert_eq!(c.get_color_0_location(), 4);
    assert_eq!(c.get_tex_coord_1_location(), 0);
}

#[test]
fn slot_rule_base_offsets() {
    // Only position: first free slot is 1.
    let c = config(false, false, true, false, false);
    assert_eq!(c.get_tex_coord_0_location(), 1);

    // Position and normal: first free slot is 2.
    let c = config(true, false, true, false, false);
    assert_eq!(c.get_tex_coord_0_location(), 2);

    // Position, normal and tangent: first free slot is 3.
    let c = config(true, true, true, false, false);
    assert_eq!(c.get_tex_coord_0_location(), 3);
}

#[test]
fn slot_rule_tangent_needs_normal() {
    // A tangent without a normal occupies no slot.
    let c = config(false, true, true, false, false);
    assert_eq!(c.get_tex_coord_0_location(), 1);
}

#[test]
fn slot_rule_each_present_attribute_consumes_one_slot() {
    let c = config(true, true, true, true, true);
    assert_eq!(c.get_tex_coord_0_location(), 3);
    assert_eq!(c.get_tex_coord_1_location(), 4);
    assert_eq!(c.get_color_0_location(), 5);
}

#[test]
fn absent_attributes_report_location_zero() {
    let c = config(true, true, false, false, false);
    assert_eq!(c.get_tex_coord_0_location(), 0);
    assert_eq!(c.get_tex_coord_1_location(), 0);
    assert_eq!(c.get_color_0_location(), 0);
}

#[test]
fn template_carries_resolved_locations() {
    let c = config(true, true, true, false, true);
    let t = ShaderTemplateConfiguration::from_render_pipeline_config(&c);
    assert!(t.has_normal && t.has_tangent && t.has_tex_coord_0 && t.has_color_0);
    assert!(!t.has_tex_coord_1);
    assert_eq!(t.tex_coord_0_location, 3);
    assert_eq!(t.tex_coord_1_location, 0);
    assert_eq!(t.color_0_location, 4);
}

#[test]
fn cache_keys_separate_distinct_configurations() {
    let mut keys = Vec::new();
    for n in [false, true] {
        for t in [false, true] {
            for t0 in [false, true] {
                for t1 in [false, true] {
                    for c0 in [false, true] {
                        keys.push(config(n, t, t0, t1, c0).cache_key());
                    }
                }
            }
        }
    }
    let count = keys.len();
    keys.sort();
    keys.dedup();
    assert_eq!(keys.len(), count);
}

#[test]
fn pipeline_record_carries_fixed_state() {
    let c = config(true, false, true, false, false);
    let template = ShaderTemplateConfiguration::from_render_pipeline_config(&c);
    let shader = Rc::new(gltf_viewer::shader::ShaderModulePackage::from_template_config(
        0, template,
    ));
    let p = gltf_viewer::pipeline::RenderPipeline::from_config(7, c, shader);

    assert_eq!(p.id, 7);
    assert_eq!(p.depth_state.depth_write_enabled, true);
    assert_eq!(p.depth_state.depth_compare, CompareFunction::Less);
    assert_eq!(p.primitive_state.front_face, FrontFace::Ccw);
    assert_eq!(p.primitive_state.cull_mode, CullMode::Back);
    assert_eq!(p.primitive_state.polygon_mode, PolygonMode::Fill);
    assert_eq!(
        p.bind_group_order,
        vec![
            BindGroupKind::ViewEnvironment,
            BindGroupKind::PrimitiveInstance,
            BindGroupKind::Material,
        ]
    );

    // position, normal, texcoord0: three bindings at slots 0, 1, 2.
    assert_eq!(p.vertex_layout.len(), 3);
    assert_eq!(p.vertex_layout[0].shader_location, 0);
    assert_eq!(p.vertex_layout[0].array_stride, 12);
    assert_eq!(p.vertex_layout[0].format, VertexFormat::Float32x3);
    assert_eq!(p.vertex_layout[1].shader_location, 1);
    assert_eq!(p.vertex_layout[2].shader_location, 2);
    assert_eq!(p.vertex_layout[2].array_stride, 8);
    assert_eq!(p.vertex_layout[2].format, VertexFormat::Float32x2);
}

#[test]
fn draw_time_segment_locations_follow_the_slot_rule() {
    let c = config(true, true, true, false, true);
    assert_eq!(c.segment_shader_location(Semantic::Positions).unwrap(), Some(0));
    assert_eq!(c.segment_shader_location(Semantic::Normals).unwrap(), Some(1));
    assert_eq!(c.segment_shader_location(Semantic::Tangents).unwrap(), Some(2));
    assert_eq!(c.segment_shader_location(Semantic::TexCoords(0)).unwrap(), Some(3));
    assert_eq!(c.segment_shader_location(Semantic::Colors(0)).unwrap(), Some(4));
    assert_eq!(c.segment_shader_location(Semantic::Joints(0)).unwrap(), None);
    assert_eq!(c.segment_shader_location(Semantic::Weights(0)).unwrap(), None);
    assert!(c.segment_shader_location(Semantic::TexCoords(2)).is_err());
    assert!(c.segment_shader_location(Semantic::Colors(1)).is_err());
}
