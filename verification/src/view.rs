//! The view environment: the one currently bound camera and the lighting
//! environment, with the rules that decide when GPU uniform state must
//! be recomputed.

use vstd::prelude::*;

use crate::data::{quat_eq, spec_quat_eq, Transform};
use crate::ibl::IblEnvironment;
use crate::skybox::{spec_skybox_view_transform, Skybox};

verus! {

/// A perspective projection definition: field of view and clip planes as
/// 32-bit patterns, with an optional pinned aspect ratio.
#[derive(Clone, Copy, Debug)]
pub struct PerspectiveCameraProjection {
    pub aspect_ratio: Option<u32>,
    pub fovy: u32,
    pub znear: u32,
    pub zfar: u32,
}

/// A camera definition.
#[derive(Clone, Copy, Debug)]
pub struct Camera {
    pub projection: PerspectiveCameraProjection,
}

/// A fully resolved perspective projection, ready for the shell to turn
/// into a matrix.
#[derive(Clone, Copy, Debug)]
pub struct PerspectiveProjection {
    pub aspect_ratio: u32,
    pub fovy: u32,
    pub znear: u32,
    pub zfar: u32,
}

impl Camera {
    /// Resolves the projection against a view aspect ratio: a pinned
    /// aspect ratio wins over the view's.
    pub fn create_projection(&self, aspect_ratio: u32) -> (r: PerspectiveProjection)
        ensures
            r.aspect_ratio == (match self.projection.aspect_ratio {
                Some(pinned) => pinned,
                None => aspect_ratio,
            }),
            r.fovy == self.projection.fovy,
            r.znear == self.projection.znear,
            r.zfar == self.projection.zfar,
    {
        let aspect_ratio: u32 = match self.projection.aspect_ratio {
            Some(pinned) => pinned,
            None => aspect_ratio,
        };
        PerspectiveProjection {
            aspect_ratio,
            fovy: self.projection.fovy,
            znear: self.projection.znear,
            zfar: self.projection.zfar,
        }
    }
}

/// The fallback user-controlled camera.
#[derive(Clone, Copy, Debug)]
pub struct UserCamera {
    pub camera: Camera,
    pub transform: Transform,
}

/// A scene camera bound as the active camera: the node it came from, its
/// resolved global transform, and its definition.
#[derive(Clone, Copy, Debug)]
pub struct ViewEnvironmentCamera {
    pub id: u64,
    pub transform: Transform,
    pub camera: Camera,
}

/// What one state change asked of the GPU: whether the camera uniform
/// and the skybox view-projection uniform must be rewritten.
#[derive(Clone, Copy, Debug, PartialEq, Eq, Structural)]
pub struct ViewUpdate {
    pub camera_uniform_updated: bool,
    pub skybox_updated: bool,
}

/// Owns the active camera — a scene camera when one is bound, else the
/// user camera — and the current lighting environment.
pub struct ViewEnvironment {
    pub aspect_ratio: u32,
    pub active_camera: Option<ViewEnvironmentCamera>,
    pub user_camera: UserCamera,
    pub ibl_environment: IblEnvironment,
}

/// The transform of the currently bound camera.
pub open spec fn spec_camera_transform(v: ViewEnvironment) -> Transform {
    match v.active_camera {
        Some(c) => c.transform,
        None => v.user_camera.transform,
    }
}

/// The definition of the currently bound camera.
pub open spec fn spec_camera_definition(v: ViewEnvironment) -> Camera {
    match v.active_camera {
        Some(c) => c.camera,
        None => v.user_camera.camera,
    }
}

/// The environment `before`, unchanged but for its skybox reoriented to
/// `camera`: the cubemaps and lookup texture are kept, the skybox keeps
/// its cubemap, and only its view transform is rebuilt.
pub open spec fn spec_environment_reoriented(
    before: IblEnvironment,
    camera: Transform,
) -> IblEnvironment {
    IblEnvironment {
        skybox: Skybox {
            cubemap: before.skybox.cubemap,
            view_transform: spec_skybox_view_transform(camera),
        },
        ..before
    }
}

impl ViewEnvironment {
    /// Assembles a view environment around the user camera, with no
    /// scene camera active, and builds the initial uniform state: the
    /// skybox orientation comes from the user camera.
    pub fn from_parts(
        aspect_ratio: u32,
        user_camera: UserCamera,
        ibl_environment: IblEnvironment,
    ) -> (r: ViewEnvironment)
        ensures
            r.aspect_ratio == aspect_ratio,
            r.active_camera is None,
            r.user_camera == user_camera,
            r.ibl_environment == spec_environment_reoriented(
                ibl_environment,
                user_camera.transform,
            ),
    {
        let mut object = ViewEnvironment {
            aspect_ratio,
            active_camera: None,
            user_camera,
            ibl_environment,
        };
        let transform: Transform = object.user_camera.transform;
        object.ibl_environment.skybox.update_view_projection(transform);
        object
    }

    /// The transform of the currently bound camera.
    pub fn get_camera_transform(&self) -> (r: Transform)
        ensures
            r == spec_camera_transform(*self),
    {
        match &self.active_camera {
            Some(c) => c.transform,
            None => self.user_camera.transform,
        }
    }

    /// Moves the user camera.  The camera uniform is always rewritten;
    /// the skybox view-projection is rewritten only when no scene camera
    /// is active and the rotation actually changed — a pure translation
    /// leaves the skybox alone.
    pub fn set_user_camera_transform(&mut self, transform: Transform) -> (r: ViewUpdate)
        ensures
            final(self).user_camera.transform == transform,
            final(self).user_camera.camera == old(self).user_camera.camera,
            final(self).aspect_ratio == old(self).aspect_ratio,
            final(self).active_camera == old(self).active_camera,
            r.camera_uniform_updated,
            r.skybox_updated <==> (old(self).active_camera is None && !spec_quat_eq(
                old(self).user_camera.transform.rotation,
                transform.rotation,
            )),
            r.skybox_updated ==> final(self).ibl_environment == spec_environment_reoriented(
                old(self).ibl_environment,
                transform,
            ),
            !r.skybox_updated ==> final(self).ibl_environment == old(self).ibl_environment,
    {
        let rotation_changed: bool = !quat_eq(
            &self.user_camera.transform.rotation,
            &transform.rotation,
        );
        let update_ibl_environment_view_projection: bool = self.active_camera.is_none()
            && rotation_changed;

        self.user_camera.transform = transform;

        if update_ibl_environment_view_projection {
            self.ibl_environment.skybox.update_view_projection(transform);
        }

        ViewUpdate {
            camera_uniform_updated: true,
            skybox_updated: update_ibl_environment_view_projection,
        }
    }

    /// Changes the view's aspect ratio.  The uniforms are recomputed
    /// only when the ratio actually changed and the bound camera does
    /// not pin its own: a pinned projection is unaffected by the view.
    pub fn set_aspect_ratio(&mut self, aspect_ratio: u32) -> (r: ViewUpdate)
        ensures
            final(self).aspect_ratio == aspect_ratio,
            final(self).active_camera == old(self).active_camera,
            final(self).user_camera == old(self).user_camera,
            r.camera_uniform_updated == r.skybox_updated,
            r.skybox_updated <==> (old(self).aspect_ratio != aspect_ratio
                && spec_camera_definition(*old(self)).projection.aspect_ratio is None),
            r.skybox_updated ==> final(self).ibl_environment == spec_environment_reoriented(
                old(self).ibl_environment,
                spec_camera_transform(*old(self)),
            ),
            !r.skybox_updated ==> final(self).ibl_environment == old(self).ibl_environment,
    {
        if self.aspect_ratio == aspect_ratio {
            return ViewUpdate { camera_uniform_updated: false, skybox_updated: false };
        }

        self.aspect_ratio = aspect_ratio;

        let pinned: bool = match &self.active_camera {
            Some(c) => c.camera.projection.aspect_ratio.is_some(),
            None => self.user_camera.camera.projection.aspect_ratio.is_some(),
        };
        if pinned {
            return ViewUpdate { camera_uniform_updated: false, skybox_updated: false };
        }

        let transform: Transform = self.get_camera_transform();
        self.ibl_environment.skybox.update_view_projection(transform);
        ViewUpdate { camera_uniform_updated: true, skybox_updated: true }
    }

    /// Binds a scene camera, or unbinds to the user camera.  Rebinding
    /// the camera that is already active changes nothing; otherwise the
    /// uniforms are recomputed from the newly bound camera.
    pub fn set_active_camera(&mut self, active_camera: Option<ViewEnvironmentCamera>) -> (r:
        ViewUpdate)
        ensures
            final(self).aspect_ratio == old(self).aspect_ratio,
            final(self).user_camera == old(self).user_camera,
            r.camera_uniform_updated == r.skybox_updated,
            r.skybox_updated <==> !(match (old(self).active_camera, active_camera) {
                (Some(current), Some(next)) => current.id == next.id,
                (None, None) => true,
                _ => false,
            }),
            !r.skybox_updated ==> *final(self) == *old(self),
            r.skybox_updated ==> final(self).active_camera == active_camera
                && final(self).ibl_environment == spec_environment_reoriented(
                old(self).ibl_environment,
                spec_camera_transform(*final(self)),
            ),
    {
        let unchanged: bool = match (&self.active_camera, &active_camera) {
            (Some(current), Some(next)) => current.id == next.id,
            (None, None) => true,
            _ => false,
        };
        if unchanged {
            return ViewUpdate { camera_uniform_updated: false, skybox_updated: false };
        }

        self.active_camera = active_camera;
        let transform: Transform = self.get_camera_transform();
        self.ibl_environment.skybox.update_view_projection(transform);
        ViewUpdate { camera_uniform_updated: true, skybox_updated: true }
    }

    /// Swaps the lighting environment in as one unit: the new cubemaps
    /// and lookup texture replace the old ones together, and the new
    /// skybox is oriented to the currently bound camera before anything
    /// of the new environment is observable.
    pub fn set_ibl_environment(&mut self, ibl_environment: IblEnvironment)
        ensures
            final(self).aspect_ratio == old(self).aspect_ratio,
            final(self).active_camera == old(self).active_camera,
            final(self).user_camera == old(self).user_camera,
            final(self).ibl_environment.diffuse_cubemap == ibl_environment.diffuse_cubemap,
            final(self).ibl_environment.specular_cubemap == ibl_environment.specular_cubemap,
            final(self).ibl_environment.ggx_lut == ibl_environment.ggx_lut,
            final(self).ibl_environment.skybox.cubemap == ibl_environment.skybox.cubemap,
            final(self).ibl_environment.skybox.view_transform == spec_skybox_view_transform(
                spec_camera_transform(*old(self)),
            ),
    {
        self.ibl_environment = ibl_environment;
        let transform: Transform = self.get_camera_transform();
        self.ibl_environment.skybox.update_view_projection(transform);
    }
}

} // verus!
