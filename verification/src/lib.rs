//! A minimal-overhead layer over a stateful, retained-mode GPU driver
//! interface in the classic "bind object, set state, issue draw" style.
//!
//! Client code describes what to draw in terms of opaque resource handles
//! (buffers, textures, shaders, pipelines, render passes). The layer tracks
//! the driver's currently bound state in a cache and elides redundant
//! state-changing calls, while guaranteeing that the elision is never
//! observable: the cache must not diverge from the actual driver state.
//!
//! The driver surface itself is modelled explicitly as a stream of
//! [`driver::DriverCall`] values owned by the context; an embedder executes
//! the stream against the real command interface.

pub mod blend;
pub mod buffer;
pub mod cache;
pub mod context;
pub mod driver;
pub mod elapsed_query;
pub mod features;
pub mod laws;
pub mod pass;
pub mod pipeline;
pub mod shader;
pub mod stencil;
pub mod sync;
pub mod tables;
pub mod texture;
pub mod uniform;
pub mod vertex;

pub use blend::{BlendFactor, BlendState, BlendValue, Equation};
pub use buffer::{Bindings, Buffer, BufferType, BufferUsage, IndexType};
pub use cache::{CachedAttribute, GlCache};
pub use context::{Clear, ColorMask, CreateContext, GraphicsContext};
pub use driver::{Driver, DriverCall, MAX_SHADERSTAGE_IMAGES, MAX_VERTEX_ATTRIBUTES};
pub use elapsed_query::ElapsedQuery;
pub use features::Features;
pub use pass::{PassAction, RenderPass};
pub use pipeline::{
    Comparison, CullFace, FrontFaceOrder, Pipeline, PipelineConf, PrimitiveType,
};
pub use shader::{
    ProgramOutcome, Shader, ShaderError, ShaderImage, ShaderMeta, ShaderType, ShaderUniform,
    StageOutcome,
};
pub use stencil::{CompareFunc, StencilFaceState, StencilOp, StencilState};
pub use texture::Texture;
pub use uniform::{UniformBlockLayout, UniformDesc, UniformType};
pub use vertex::{BufferLayout, PipelineLayout, VertexAttribute, VertexFormat, VertexStep};
