use vstd::prelude::*;
use vstd::string::StringSliceAdditionalSpecFns;

use crate::context::GraphicsContext;
use crate::driver::{initial_driver, lemma_driver_run_push, DriverCall};
use crate::sync::lemma_neutral_step;
use crate::uniform::{UniformBlockLayout, UniformDesc, UniformType};

verus! {

/// Caller-declared shader metadata: the uniform block layout and the ordered
/// texture-image slot names.
#[derive(Debug, Clone)]
pub struct ShaderMeta {
    pub uniforms: UniformBlockLayout,
    pub images: Vec<String>,
}

/// Which shader stage a source string compiles.
#[derive(Debug, PartialEq, Eq, Structural, Clone, Copy)]
pub enum ShaderType {
    Vertex,
    Fragment,
}

/// An embedded NUL in a shader source string, reported with the position of
/// its first occurrence.
#[derive(Debug, PartialEq, Eq, Structural, Clone, Copy)]
pub struct NulError {
    pub nul_position: usize,
}

/// Recoverable shader creation failures, carrying the diagnostics the driver
/// surface reported.
#[derive(Debug, Clone)]
pub enum ShaderError {
    CompilationError { shader_type: ShaderType, error_message: String },
    LinkError(String),
    /// Shader source strings must never contain NUL in the middle.
    FFINulError(NulError),
}

/// Handle to a shader owned by a context.
#[derive(Debug, PartialEq, Eq, Structural, Clone, Copy)]
pub struct Shader(pub usize);

/// One texture-image slot declared by a shader, with its resolved driver
/// location, or `None` when the variable was optimized out.
#[derive(Debug, PartialEq, Eq, Structural, Clone, Copy)]
pub struct ShaderImage {
    pub gl_loc: Option<i32>,
}

/// One uniform slot declared by a shader, with its resolved driver location
/// (`None` when optimized out), its byte offset within the uniform block,
/// and its element type and count.
#[derive(Debug, PartialEq, Eq, Structural, Clone, Copy)]
pub struct ShaderUniform {
    pub gl_loc: Option<i32>,
    pub offset: usize,
    pub size: usize,
    pub uniform_type: UniformType,
    pub array_count: i32,
}

/// A linked shader program held by the context: its driver name and the
/// resolved image and uniform slot tables.
#[derive(Debug, Clone)]
pub struct ShaderInternal {
    pub program: u32,
    pub images: Vec<ShaderImage>,
    pub uniforms: Vec<ShaderUniform>,
}

/// Every uniform slot of a held shader has a nonnegative element count.
pub open spec fn shader_internal_wf(s: ShaderInternal) -> bool {
    forall|i: int| 0 <= i < s.uniforms@.len() ==> (#[trigger] s.uniforms@[i]).array_count >= 0
}

/// What one source string's compilation came back with.
#[derive(Debug, Clone)]
pub enum StageOutcome {
    Compiled,
    Failed(String),
}

/// Everything the driver surface reported while compiling and linking a
/// program: the program name, the per-stage compile results, the link result
/// (`Some` carries the linker message on failure), and the resolved location
/// of each declared uniform and image slot, in declaration order.
#[derive(Debug, Clone)]
pub struct ProgramOutcome {
    pub program: u32,
    pub vertex: StageOutcome,
    pub fragment: StageOutcome,
    pub link: Option<String>,
    pub uniform_locations: Vec<Option<i32>>,
    pub image_locations: Vec<Option<i32>>,
}


/// Position of the first NUL byte at or after `i`, if any.
pub open spec fn find_nul_from(bytes: Seq<u8>, i: int) -> Option<int>
    decreases bytes.len() - i,
{
    if i < 0 || i >= bytes.len() {
        None
    } else if bytes[i] == 0 {
        Some(i)
    } else {
        find_nul_from(bytes, i + 1)
    }
}

/// Position of the first NUL byte of a string's encoding, if any.
pub open spec fn str_first_nul(bytes: Seq<u8>) -> Option<int> {
    find_nul_from(bytes, 0)
}

/// Scan a source string for an embedded NUL byte, reporting the position of
/// the first one.
fn find_nul(source: &str) -> (r: Option<usize>)
    ensures
        r == (match str_first_nul(source.spec_bytes()) {
            Some(p) => Some(p as usize),
            None => None::<usize>,
        }),
{
    let bytes = source.as_bytes();
    let n = bytes.len();
    let mut i: usize = 0;
    while i < n
        invariant
            i <= n,
            n == bytes@.len(),
            bytes@ == source.spec_bytes(),
            find_nul_from(bytes@, 0) == find_nul_from(bytes@, i as int),
        decreases n - i,
    {
        if bytes[i] == 0 {
            return Some(i);
        }
        i = i + 1;
    }
    None
}

/// Byte offset of uniform slot `n` within the uniform block: the byte sizes
/// of all earlier slots, each times its array count.
pub open spec fn uniform_block_offset(descs: Seq<UniformDesc>, n: int) -> int
    decreases n,
{
    if n <= 0 {
        0
    } else {
        uniform_block_offset(descs, n - 1) + descs[n - 1].uniform_type.spec_size() * descs[n
            - 1].array_count
    }
}

/// Caller metadata the shader constructor accepts: each slot's element count
/// is representable, and the block's running byte offsets stay within
/// machine bounds.
pub open spec fn shader_meta_ok(descs: Seq<UniformDesc>) -> bool {
    &&& forall|i: int| 0 <= i < descs.len() ==> (#[trigger] descs[i]).array_count <= i32::MAX
    &&& forall|i: int| 0 <= i <= descs.len() ==> uniform_block_offset(descs, i) <= usize::MAX
}

impl Shader {
    /// Register a shader program from the driver surface's compile, link and
    /// location-resolution results, building the resolved image and uniform
    /// slot tables.
    ///
    /// An embedded NUL in a source string, a failed stage compilation, and a
    /// failed link are each reported as the corresponding error, checked in
    /// that order (vertex stage first), and leave the context untouched. On
    /// success the program is activated and the shader takes the next handle.
    pub fn new(
        ctx: &mut GraphicsContext,
        vertex_shader: &str,
        fragment_shader: &str,
        meta: ShaderMeta,
        outcome: ProgramOutcome,
    ) -> (r: Result<Shader, ShaderError>)
        requires
            old(ctx).wf(),
            outcome.uniform_locations@.len() == meta.uniforms.uniforms@.len(),
            outcome.image_locations@.len() == meta.images@.len(),
            shader_meta_ok(meta.uniforms.uniforms@),
        ensures
            final(ctx).wf(),
            r is Err ==> *final(ctx) == *old(ctx),
            (match str_first_nul(vertex_shader.spec_bytes()) {
                Some(p) => r == Err::<Shader, ShaderError>(
                    ShaderError::FFINulError(NulError { nul_position: p as usize }),
                ),
                None => true,
            }),
            str_first_nul(vertex_shader.spec_bytes()) is None ==> (match outcome.vertex {
                StageOutcome::Failed(m) => r == Err::<Shader, ShaderError>(
                    ShaderError::CompilationError {
                        shader_type: ShaderType::Vertex,
                        error_message: m,
                    },
                ),
                StageOutcome::Compiled => true,
            }),
            str_first_nul(vertex_shader.spec_bytes()) is None && outcome.vertex
                is Compiled ==> (match str_first_nul(fragment_shader.spec_bytes()) {
                Some(p) => r == Err::<Shader, ShaderError>(
                    ShaderError::FFINulError(NulError { nul_position: p as usize }),
                ),
                None => true,
            }),
            str_first_nul(vertex_shader.spec_bytes()) is None && outcome.vertex is Compiled
                && str_first_nul(fragment_shader.spec_bytes()) is None ==> (match outcome.fragment {
                StageOutcome::Failed(m) => r == Err::<Shader, ShaderError>(
                    ShaderError::CompilationError {
                        shader_type: ShaderType::Fragment,
                        error_message: m,
                    },
                ),
                StageOutcome::Compiled => true,
            }),
            str_first_nul(vertex_shader.spec_bytes()) is None && outcome.vertex is Compiled
                && str_first_nul(fragment_shader.spec_bytes()) is None && outcome.fragment
                is Compiled ==> (match outcome.link {
                Some(m) => r == Err::<Shader, ShaderError>(ShaderError::LinkError(m)),
                None => true,
            }),
            shader_creation_succeeds(
                vertex_shader.spec_bytes(),
                fragment_shader.spec_bytes(),
                outcome,
            ) ==> {
                &&& r == Ok::<Shader, ShaderError>(Shader(old(ctx).shaders@.len() as usize))
                &&& final(ctx).shaders@.len() == old(ctx).shaders@.len() + 1
                &&& forall|i: int|
                    0 <= i < old(ctx).shaders@.len() ==> final(ctx).shaders@[i]
                        == old(ctx).shaders@[i]
                &&& final(ctx).shaders@.last().program == outcome.program
                &&& final(ctx).shaders@.last().images@.len() == meta.images@.len()
                &&& forall|i: int|
                    0 <= i < meta.images@.len() ==> final(ctx).shaders@.last().images@[i] == (
                    ShaderImage { gl_loc: outcome.image_locations@[i] })
                &&& final(ctx).shaders@.last().uniforms@.len() == meta.uniforms.uniforms@.len()
                &&& forall|i: int|
                    0 <= i < meta.uniforms.uniforms@.len()
                        ==> final(ctx).shaders@.last().uniforms@[i] == (ShaderUniform {
                        gl_loc: outcome.uniform_locations@[i],
                        offset: uniform_block_offset(meta.uniforms.uniforms@, i) as usize,
                        size: meta.uniforms.uniforms@[i].uniform_type.spec_size(),
                        uniform_type: meta.uniforms.uniforms@[i].uniform_type,
                        array_count: meta.uniforms.uniforms@[i].array_count as i32,
                    })
                &&& final(ctx).driver.calls@ == old(ctx).driver.calls@.push(
                    DriverCall::UseProgram { program: outcome.program },
                )
                &&& final(ctx).cache@ == (crate::cache::CacheModel {
                    cur_pipeline: None,
                    ..old(ctx).cache@
                })
                &&& final(ctx).driver.next_id == old(ctx).driver.next_id
                &&& final(ctx).pipelines == old(ctx).pipelines
                &&& final(ctx).passes == old(ctx).passes
                &&& final(ctx).features == old(ctx).features
                &&& final(ctx).default_framebuffer == old(ctx).default_framebuffer
            },
            r is Ok <==> shader_creation_succeeds(
                vertex_shader.spec_bytes(),
                fragment_shader.spec_bytes(),
                outcome,
            ),
    {
        if let Some(p) = find_nul(vertex_shader) {
            return Err(ShaderError::FFINulError(NulError { nul_position: p }));
        }
        let ProgramOutcome { program, vertex, fragment, link, uniform_locations, image_locations }
            = outcome;
        match vertex {
            StageOutcome::Failed(m) => {
                return Err(
                    ShaderError::CompilationError {
                        shader_type: ShaderType::Vertex,
                        error_message: m,
                    },
                );
            },
            StageOutcome::Compiled => {},
        }
        if let Some(p) = find_nul(fragment_shader) {
            return Err(ShaderError::FFINulError(NulError { nul_position: p }));
        }
        match fragment {
            StageOutcome::Failed(m) => {
                return Err(
                    ShaderError::CompilationError {
                        shader_type: ShaderType::Fragment,
                        error_message: m,
                    },
                );
            },
            StageOutcome::Compiled => {},
        }
        if let Some(m) = link {
            return Err(ShaderError::LinkError(m));
        }
        let ghost init = initial_driver(ctx.default_framebuffer);
        let ghost d0 = ctx.replayed();
        // Activating the new program invalidates any applied pipeline: its
        // configuration must be re-applied before the next draw.
        ctx.cache.cur_pipeline = None;
        let up = DriverCall::UseProgram { program };
        ctx.driver.emit(up);
        proof {
            lemma_driver_run_push(init, old(ctx).driver.calls@, up);
            lemma_neutral_step(ctx.cache@, d0, up, ctx.features.instancing);
            assert(ctx.pipeline_state_ok());
        }
        let ghost descs = meta.uniforms.uniforms@;
        let n_images = image_locations.len();
        let mut images: Vec<ShaderImage> = Vec::new();
        let mut i: usize = 0;
        while i < n_images
            invariant
                i <= n_images,
                n_images == image_locations@.len(),
                images@.len() == i,
                forall|j: int|
                    0 <= j < i ==> images@[j] == (ShaderImage { gl_loc: image_locations@[j] }),
            decreases n_images - i,
        {
            images.push(ShaderImage { gl_loc: image_locations[i] });
            i = i + 1;
        }
        let n_uniforms = meta.uniforms.uniforms.len();
        let mut uniforms: Vec<ShaderUniform> = Vec::new();
        let mut offset: usize = 0;
        let mut k: usize = 0;
        while k < n_uniforms
            invariant
                k <= n_uniforms,
                descs == meta.uniforms.uniforms@,
                n_uniforms == descs.len(),
                n_uniforms == uniform_locations@.len(),
                shader_meta_ok(descs),
                uniforms@.len() == k,
                offset == uniform_block_offset(descs, k as int),
                forall|j: int|
                    0 <= j < k ==> uniforms@[j] == (ShaderUniform {
                        gl_loc: uniform_locations@[j],
                        offset: uniform_block_offset(descs, j) as usize,
                        size: descs[j].uniform_type.spec_size(),
                        uniform_type: descs[j].uniform_type,
                        array_count: descs[j].array_count as i32,
                    }),
            decreases n_uniforms - k,
        {
            let ut = meta.uniforms.uniforms[k].uniform_type;
            let ac = meta.uniforms.uniforms[k].array_count;
            proof {
                assert(descs[k as int].array_count <= i32::MAX);
                assert(ut.spec_size() * ac as int >= 0) by (nonlinear_arith)
                    requires
                        ut.spec_size() >= 0,
                        ac as int >= 0,
                ;
                assert(uniform_block_offset(descs, k as int + 1) == offset + ut.spec_size() * ac);
                assert(uniform_block_offset(descs, k as int + 1) <= usize::MAX);
            }
            uniforms.push(
                ShaderUniform {
                    gl_loc: uniform_locations[k],
                    offset,
                    size: ut.size(),
                    uniform_type: ut,
                    array_count: ac as i32,
                },
            );
            offset = offset + ut.size() * ac;
            k = k + 1;
        }
        ctx.shaders.push(ShaderInternal { program, images, uniforms });
        Ok(Shader(ctx.shaders.len() - 1))
    }
}

/// Shader creation succeeds exactly when neither source holds an embedded
/// NUL, both stages compiled, and the program linked.
pub open spec fn shader_creation_succeeds(
    vertex_bytes: Seq<u8>,
    fragment_bytes: Seq<u8>,
    outcome: ProgramOutcome,
) -> bool {
    &&& str_first_nul(vertex_bytes) is None
    &&& outcome.vertex is Compiled
    &&& str_first_nul(fragment_bytes) is None
    &&& outcome.fragment is Compiled
    &&& outcome.link is None
}

} // verus!
