//! A verified core for a data-driven voxel renderer: block-model geometry
//! with axis rotations, variant resolution over block-state property tables,
//! and chunk mesh generation with neighbor-aware culling, smoothed lighting
//! and biome tinting. Positions, UVs and colors are exact integers; file
//! reading, JSON decoding and GPU submission live outside this crate.

mod assoc;
mod blockstate;
mod chunk;
mod direction;
mod element;
mod geometry;
mod ids;
mod loader;
mod mesher;
mod model;
mod modeldef;
mod opacity;
mod partial;
mod registry;
mod texture;

pub use assoc::assoc_contains;
pub use assoc::assoc_get;
pub use blockstate::BlockStates;
pub use blockstate::BlockStatesError;
pub use blockstate::Multipart;
pub use blockstate::MultipartCondition;
pub use blockstate::Property;
pub use blockstate::PropertyValue;
pub use blockstate::Variant;
pub use blockstate::VariantCondition;
pub use blockstate::find_variant;
pub use blockstate::parse_i64;
pub use blockstate::pv_eq;
pub use blockstate::select_model;
pub use blockstate::select_model_random;
pub use blockstate::trim;
pub use chunk::BiomeId;
pub use chunk::BlockState;
pub use chunk::Chunk;
pub use chunk::ChunkColumn;
pub use chunk::ChunkManager;
pub use chunk::LightLevel;
pub use chunk::Neighborhood;
pub use direction::Axis;
pub use direction::AxisDirection;
pub use direction::Direction;
pub use element::Element;
pub use element::ElementFace;
pub use geometry::Angle;
pub use geometry::COORD_BOUND;
pub use geometry::FINE_PER_UNIT;
pub use geometry::FP_SCALE;
pub use geometry::Point3;
pub use geometry::Rgba;
pub use geometry::Rotation;
pub use geometry::Uv;
pub use geometry::UvRect;
pub use ids::as_id;
pub use ids::str_eq;
pub use ids::strip_id;
pub use loader::ModelLoader;
pub use loader::classify;
pub use mesher::FaceMesh;
pub use mesher::MeshVertex;
pub use mesher::culled;
pub use mesher::emit_face;
pub use mesher::mesh_chunk;
pub use mesher::shade_vertex;
pub use model::Face;
pub use model::Model;
pub use model::Vertex;
pub use modeldef::BlockLoader;
pub use modeldef::ModelDef;
pub use modeldef::ModelError;
pub use opacity::Opacity;
pub use partial::PartialModel;
pub use partial::PartialModelLoader;
pub use registry::BaseBlock;
pub use registry::Biome;
pub use registry::BiomeLoader;
pub use registry::BlockRenderLayer;
pub use registry::BlockStatesLoader;
pub use registry::DirtBlock;
pub use registry::GetProperty;
pub use registry::GrassBlock;
pub use registry::air_descriptor;
pub use texture::TextureLoader;
pub use texture::min_alpha;
pub use blockstate::Model as VariantModel;
