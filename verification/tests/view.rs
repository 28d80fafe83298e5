use gltf_viewer::cubemap::CubeMap;
use gltf_viewer::data::Transform;
use gltf_viewer::ibl::{GgxLut, HdrImage, IblEnvironment};
use gltf_viewer::skybox::Skybox;
use gltf_viewer::view::{
    Camera, PerspectiveCameraProjection, UserCamera, ViewEnvironment, ViewEnvironmentCamera,
};

fn transform(translation: [f32; 3], rotation: [f32; 4]) -> Transform {
    Transform {
        translation: [
            translation[0].to_bits(),
            translation[1].to_bits(),
            translation[2].to_bits(),
        ],
        rotation: [
            rotation[0].to_bits(),
            rotation[1].to_bits(),
            rotation[2].to_bits(),
            rotation[3].to_bits(),
        ],
        scale: [1.0f32.to_bits(); 3],
    }
}

fn camera(aspect_ratio: Option<f32>) -> Camera {
    Camera {
        projection: PerspectiveCameraProjection {
            aspect_ratio: aspect_ratio.map(f32::to_bits),
            fovy: 0.785f32.to_bits(),
            znear: 0.1f32.to_bits(),
            zfar: 100.0f32.to_bits(),
        },
    }
}

fn environment() -> IblEnvironment {
    IblEnvironment {
        skybox: Skybox::new(CubeMap::create_default_cubemap()),
        diffuse_cubemap: CubeMap::create_default_cubemap(),
        specular_cubemap: CubeMap::create_default_cubemap(),
        ggx_lut: GgxLut {
            image: HdrImage {
                width: 1,
                height: 1,
                data: vec![0; 4],
            },
        },
    }
}

fn view() -> ViewEnvironment {
    ViewEnvironment::from_parts(
        (16.0f32 / 9.0).to_bits(),
        UserCamera {
            camera: camera(None),
            transform: transform([0.0, 0.0, 0.0], [0.0, 0.0, 0.0, 1.0]),
        },
        environment(),
    )
}

#[test]
fn translation_only_does_not_update_skybox_but_rotation_does() {
    let mut v = view();
    let before = v.ibl_environment.skybox.view_transform;

    // Translation only: the camera uniform changes, the skybox does not.
    let update = v.set_user_camera_transform(transform([5.0, 0.0, 0.0], [0.0, 0.0, 0.0, 1.0]));
    assert!(update.camera_uniform_updated);
    assert!(!update.skybox_updated);
    assert_eq!(v.ibl_environment.skybox.view_transform, before);

    // A rotation change updates the skybox orientation.
    let rotated = transform([5.0, 0.0, 0.0], [0.0, 0.7071, 0.0, 0.7071]);
    let update = v.set_user_camera_transform(rotated);
    assert!(update.skybox_updated);
    let skybox_transform = v.ibl_environment.skybox.view_transform;
    assert_eq!(skybox_transform.rotation, rotated.rotation);
    // The skybox stays infinitely distant: zero translation, unit scale.
    assert_eq!(skybox_transform.translation, [0, 0, 0]);
    assert_eq!(skybox_transform.scale, [1.0f32.to_bits(); 3]);
}

#[test]
fn active_scene_camera_suppresses_skybox_updates_from_the_user_camera() {
    let mut v = view();
    let update = v.set_active_camera(Some(ViewEnvironmentCamera {
        id: 4,
        transform: transform([0.0, 1.0, 0.0], [0.0, 1.0, 0.0, 0.0]),
        camera: camera(None),
    }));
    assert!(update.skybox_updated);

    let rotated = transform([0.0, 0.0, 0.0], [0.5, 0.5, 0.5, 0.5]);
    let update = v.set_user_camera_transform(rotated);
    assert!(update.camera_uniform_updated);
    assert!(!update.skybox_updated);
}

#[test]
fn rebinding_the_same_camera_changes_nothing() {
    let mut v = view();
    let scene_camera = ViewEnvironmentCamera {
        id: 4,
        transform: transform([0.0, 1.0, 0.0], [0.0, 1.0, 0.0, 0.0]),
        camera: camera(None),
    };
    assert!(v.set_active_camera(Some(scene_camera)).skybox_updated);
    assert!(!v.set_active_camera(Some(scene_camera)).skybox_updated);
    assert!(v.set_active_camera(None).skybox_updated);
    assert!(!v.set_active_camera(None).skybox_updated);
}

#[test]
fn aspect_ratio_updates_only_when_changed_and_not_pinned() {
    let mut v = view();
    let current = v.aspect_ratio;

    // Unchanged ratio: nothing recomputed.
    assert!(!v.set_aspect_ratio(current).skybox_updated);

    // Changed ratio with an unpinned projection: recomputed.
    let update = v.set_aspect_ratio(2.0f32.to_bits());
    assert!(update.skybox_updated);
    assert_eq!(v.aspect_ratio, 2.0f32.to_bits());

    // A pinned projection ignores view ratio changes.
    let mut pinned = ViewEnvironment::from_parts(
        1.0f32.to_bits(),
        UserCamera {
            camera: camera(Some(1.5)),
            transform: transform([0.0, 0.0, 0.0], [0.0, 0.0, 0.0, 1.0]),
        },
        environment(),
    );
    let update = pinned.set_aspect_ratio(2.0f32.to_bits());
    assert!(!update.skybox_updated);
    assert_eq!(pinned.aspect_ratio, 2.0f32.to_bits());
}

#[test]
fn projection_resolution_prefers_the_pinned_aspect_ratio() {
    let unpinned = camera(None);
    let resolved = unpinned.create_projection(2.0f32.to_bits());
    assert_eq!(resolved.aspect_ratio, 2.0f32.to_bits());

    let pinned = camera(Some(1.5));
    let resolved = pinned.create_projection(2.0f32.to_bits());
    assert_eq!(resolved.aspect_ratio, 1.5f32.to_bits());
}

#[test]
fn ibl_environment_swaps_atomically_and_reorients_the_skybox() {
    let mut v = view();
    let rotated = transform([1.0, 2.0, 3.0], [0.0, 0.7071, 0.0, 0.7071]);
    v.set_user_camera_transform(rotated);

    let replacement = environment();
    v.set_ibl_environment(replacement);

    // The new skybox is oriented to the current camera before it can be
    // observed, with the translation discarded.
    let skybox_transform = v.ibl_environment.skybox.view_transform;
    assert_eq!(skybox_transform.rotation, rotated.rotation);
    assert_eq!(skybox_transform.translation, [0, 0, 0]);
}
