//! A resource builder for glTF scenes: it turns a declarative scene
//! description into a render-ready representation — deduplicated vertex
//! buffers, keyed registries of meshes, materials, textures and samplers,
//! and a combinatorial shader-variant cache — together with the cubemap
//! and view-environment state used for image-based lighting.

pub mod allocator;
pub mod args;
pub mod asset;
pub mod cubeloader;
pub mod cubemap;
pub mod data;
pub mod equirect;
pub mod error;
pub mod ibl;
pub mod image;
pub mod loader;
pub mod material;
pub mod mesh;
pub mod node;
pub mod pipeline;
pub mod scene;
pub mod shader;
pub mod shared;
pub mod skybox;
pub mod storage;
pub mod system;
pub mod texture;
pub mod view;

pub use error::Error;
