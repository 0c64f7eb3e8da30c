use vstd::prelude::*;

use crate::blend::BlendState;
use crate::cache::{
    initial_cache, spec_bind_buffer, spec_bind_buffer_calls, spec_bind_texture,
    spec_bind_texture_calls, spec_clear_texture_calls, spec_clear_textures_cache,
    spec_restore_buffer_binding, spec_restore_buffer_binding_calls,
    spec_restore_texture_binding, spec_restore_texture_binding_calls, CacheModel,
    CachedAttribute,
};
use crate::driver::{
    driver_run, driver_step, initial_driver, lemma_driver_run_append, lemma_driver_run_one,
    lemma_driver_run_three, lemma_driver_run_two, AttrPointerState, DriverCall, DriverModel,
    StencilSideState, GL_ARRAY_BUFFER, GL_BACK, GL_BLEND, GL_CULL_FACE, GL_DEPTH_TEST,
    GL_ELEMENT_ARRAY_BUFFER, GL_FRONT, GL_SCISSOR_TEST, GL_STENCIL_TEST, GL_TEXTURE0,
    GL_TEXTURE_2D, MAX_SHADERSTAGE_IMAGES, MAX_VERTEX_ATTRIBUTES,
};
use crate::buffer::Buffer;
use crate::pipeline::{CullFace, PipelineConf, VertexAttributeInternal};
use crate::shader::ShaderImage;
use crate::stencil::{StencilFaceState, StencilState};
use crate::texture::Texture;
use crate::tables::{
    spec_gl_blend_factor, spec_gl_compare_func, spec_gl_equation, spec_gl_stencil_op,
};

verus! {

/// The driver's cull configuration agrees with the cached cull face.
pub open spec fn cull_in_sync(cull: CullFace, d: DriverModel) -> bool {
    &&& d.cull_on == (cull != CullFace::Nothing)
    &&& (cull == CullFace::Front ==> d.cull_mode == GL_FRONT)
    &&& (cull == CullFace::Back ==> d.cull_mode == GL_BACK)
}

/// The driver's blend configuration agrees with the cached blend state: off
/// exactly when no color blend is cached, and when one is cached, the factor
/// and equation registers hold its translation (with the color state
/// doubling for alpha when no separate alpha blend is cached).
pub open spec fn blend_in_sync(
    color: Option<BlendState>,
    alpha: Option<BlendState>,
    d: DriverModel,
) -> bool {
    &&& d.blend_on == (color is Some)
    &&& (color is None ==> alpha is None)
    &&& match color {
        Some(cb) => match alpha {
            Some(ab) => {
                &&& d.blend_src_rgb == spec_gl_blend_factor(cb.sfactor)
                &&& d.blend_dst_rgb == spec_gl_blend_factor(cb.dfactor)
                &&& d.blend_src_alpha == spec_gl_blend_factor(ab.sfactor)
                &&& d.blend_dst_alpha == spec_gl_blend_factor(ab.dfactor)
                &&& d.blend_eq_rgb == spec_gl_equation(cb.equation)
                &&& d.blend_eq_alpha == spec_gl_equation(ab.equation)
            },
            None => {
                &&& d.blend_src_rgb == spec_gl_blend_factor(cb.sfactor)
                &&& d.blend_dst_rgb == spec_gl_blend_factor(cb.dfactor)
                &&& d.blend_src_alpha == spec_gl_blend_factor(cb.sfactor)
                &&& d.blend_dst_alpha == spec_gl_blend_factor(cb.dfactor)
                &&& d.blend_eq_rgb == spec_gl_equation(cb.equation)
                &&& d.blend_eq_alpha == spec_gl_equation(cb.equation)
            },
        },
        None => true,
    }
}

/// One face of the driver's stencil configuration agrees with a cached face
/// state.
pub open spec fn stencil_side_in_sync(f: StencilFaceState, ds: StencilSideState) -> bool {
    &&& ds.fail_op == spec_gl_stencil_op(f.fail_op)
    &&& ds.depth_fail_op == spec_gl_stencil_op(f.depth_fail_op)
    &&& ds.pass_op == spec_gl_stencil_op(f.pass_op)
    &&& ds.func == spec_gl_compare_func(f.test_func)
    &&& ds.reference == f.test_ref
    &&& ds.test_mask == f.test_mask
    &&& ds.write_mask == f.write_mask
}

/// The driver's stencil configuration agrees with the cached stencil state.
pub open spec fn stencil_in_sync(st: Option<StencilState>, d: DriverModel) -> bool {
    &&& d.stencil_test_on == (st is Some)
    &&& match st {
        Some(s) => stencil_side_in_sync(s.front, d.stencil_front) && stencil_side_in_sync(
            s.back,
            d.stencil_back,
        ),
        None => true,
    }
}

/// One driver attribute slot agrees with its cache entry: a cached entry
/// means the slot is enabled with exactly that pointer configuration,
/// sourced from the recorded vertex buffer; an empty entry means the slot is
/// disabled. The divisor is only maintained where instancing is available,
/// since the divisor call is only issued there.
pub open spec fn attr_in_sync(
    ca: Option<CachedAttribute>,
    da: AttrPointerState,
    instancing: bool,
) -> bool {
    match ca {
        Some(a) => {
            &&& da.enabled
            &&& da.size == a.attribute.size
            &&& da.type_ == a.attribute.type_
            &&& da.stride == a.attribute.stride
            &&& da.offset == a.attribute.offset
            &&& da.vertex_buffer == a.gl_vbuf
            &&& (instancing ==> da.divisor == a.attribute.divisor as u32)
        },
        None => !da.enabled,
    }
}

/// The central invariant: the cache agrees with the actual driver state on
/// everything it tracks, so skipping a call the cache shows as redundant is
/// never observable.
pub open spec fn in_sync(c: CacheModel, d: DriverModel, instancing: bool) -> bool {
    &&& c.wf()
    &&& d.textures.len() == MAX_SHADERSTAGE_IMAGES
    &&& d.attributes.len() == MAX_VERTEX_ATTRIBUTES
    &&& d.array_buffer == c.vertex_buffer
    &&& d.element_array_buffer == c.index_buffer
    &&& d.active_texture == c.active_texture_unit
    &&& forall|i: int| 0 <= i < MAX_SHADERSTAGE_IMAGES ==> d.textures[i] == c.textures[i]
    &&& c.color_write == (d.mask_red, d.mask_green, d.mask_blue, d.mask_alpha)
    &&& cull_in_sync(c.cull_face, d)
    &&& blend_in_sync(c.color_blend, c.alpha_blend, d)
    &&& stencil_in_sync(c.stencil, d)
    &&& forall|i: int|
        0 <= i < MAX_VERTEX_ATTRIBUTES ==> attr_in_sync(
            c.attributes[i],
            d.attributes[i],
            instancing,
        )
}

/// A fresh cache agrees with a fresh driver.
pub proof fn lemma_initial_in_sync(framebuffer: u32, instancing: bool)
    ensures
        in_sync(initial_cache(), initial_driver(framebuffer), instancing),
{
}

/// Commands that touch no state the cache tracks.
pub open spec fn neutral_call(c: DriverCall) -> bool {
    match c {
        DriverCall::BindBuffer { .. } => false,
        DriverCall::ActiveTexture { .. } => false,
        DriverCall::BindTexture { .. } => false,
        DriverCall::Enable { cap } => cap == GL_SCISSOR_TEST || cap == GL_DEPTH_TEST,
        DriverCall::Disable { cap } => cap == GL_SCISSOR_TEST || cap == GL_DEPTH_TEST,
        DriverCall::CullFace { .. } => false,
        DriverCall::ColorMask { .. } => false,
        DriverCall::BlendFunc { .. } => false,
        DriverCall::BlendFuncSeparate { .. } => false,
        DriverCall::BlendEquationSeparate { .. } => false,
        DriverCall::StencilOpSeparate { .. } => false,
        DriverCall::StencilFuncSeparate { .. } => false,
        DriverCall::StencilMaskSeparate { .. } => false,
        DriverCall::VertexAttribPointer { .. } => false,
        DriverCall::VertexAttribDivisor { .. } => false,
        DriverCall::EnableVertexAttribArray { .. } => false,
        DriverCall::DisableVertexAttribArray { .. } => false,
        _ => true,
    }
}

/// A neutral command preserves the invariant without any cache change.
pub proof fn lemma_neutral_step(
    c: CacheModel,
    d: DriverModel,
    call: DriverCall,
    instancing: bool,
)
    requires
        in_sync(c, d, instancing),
        neutral_call(call),
    ensures
        in_sync(c, driver_step(d, call), instancing),
{
}

/// A run of neutral commands preserves the invariant.
pub proof fn lemma_neutral_run(
    c: CacheModel,
    d: DriverModel,
    calls: Seq<DriverCall>,
    instancing: bool,
)
    requires
        in_sync(c, d, instancing),
        forall|i: int| 0 <= i < calls.len() ==> neutral_call(#[trigger] calls[i]),
    ensures
        in_sync(c, driver_run(d, calls), instancing),
    decreases calls.len(),
{
    if calls.len() > 0 {
        lemma_neutral_step(c, d, calls[0], instancing);
        lemma_neutral_run(c, driver_step(d, calls[0]), calls.drop_first(), instancing);
    }
}

/// `bind_buffer` keeps the cache true to the driver.
pub proof fn lemma_bind_buffer_sync(
    c: CacheModel,
    d: DriverModel,
    target: u32,
    buffer: u32,
    index_type: Option<crate::buffer::IndexType>,
    instancing: bool,
)
    requires
        in_sync(c, d, instancing),
        target == GL_ARRAY_BUFFER || target == GL_ELEMENT_ARRAY_BUFFER,
    ensures
        in_sync(
            spec_bind_buffer(c, target, buffer, index_type),
            driver_run(d, spec_bind_buffer_calls(c, target, buffer)),
            instancing,
        ),
{
    let calls = spec_bind_buffer_calls(c, target, buffer);
    if calls.len() == 0 {
        assert(driver_run(d, calls) == d);
    } else {
        lemma_driver_run_one(d, DriverCall::BindBuffer { target, buffer });
    }
}

/// `restore_buffer_binding` keeps the cache true to the driver.
pub proof fn lemma_restore_buffer_sync(
    c: CacheModel,
    d: DriverModel,
    target: u32,
    instancing: bool,
)
    requires
        in_sync(c, d, instancing),
        target == GL_ARRAY_BUFFER || target == GL_ELEMENT_ARRAY_BUFFER,
    ensures
        in_sync(
            spec_restore_buffer_binding(c, target),
            driver_run(d, spec_restore_buffer_binding_calls(c, target)),
            instancing,
        ),
{
    if target == GL_ARRAY_BUFFER {
        match c.stored_vertex_buffer {
            Some(b) => lemma_bind_buffer_sync(c, d, target, b, None, instancing),
            None => assert(driver_run(d, spec_restore_buffer_binding_calls(c, target)) == d),
        }
    } else {
        match c.stored_index_buffer {
            Some(b) => lemma_bind_buffer_sync(c, d, target, b, c.stored_index_type, instancing),
            None => assert(driver_run(d, spec_restore_buffer_binding_calls(c, target)) == d),
        }
    }
}

/// `bind_texture` keeps the cache true to the driver: an already-bound
/// texture issues nothing, and the bind (when issued) follows an activation
/// of exactly the cached unit, landing on exactly the cached slot.
pub proof fn lemma_bind_texture_sync(
    c: CacheModel,
    d: DriverModel,
    slot_index: usize,
    texture: u32,
    instancing: bool,
)
    requires
        in_sync(c, d, instancing),
        slot_index < MAX_SHADERSTAGE_IMAGES,
    ensures
        in_sync(
            spec_bind_texture(c, slot_index, texture),
            driver_run(d, spec_bind_texture_calls(c, slot_index, texture)),
            instancing,
        ),
{
    let unit = (GL_TEXTURE0 + slot_index) as u32;
    let active = DriverCall::ActiveTexture { unit };
    let bind = DriverCall::BindTexture { target: GL_TEXTURE_2D, texture };
    if c.textures[slot_index as int] == texture {
        assert(driver_run(d, spec_bind_texture_calls(c, slot_index, texture)) == d);
    } else if c.active_texture_unit == unit {
        assert(spec_bind_texture_calls(c, slot_index, texture) =~= seq![bind]);
        lemma_driver_run_one(d, bind);
    } else {
        assert(spec_bind_texture_calls(c, slot_index, texture) =~= seq![active, bind]);
        lemma_driver_run_two(d, active, bind);
    }
}

/// `clear_texture_bindings` keeps the cache true to the driver, slot by slot.
pub proof fn lemma_clear_textures_sync(
    c: CacheModel,
    d: DriverModel,
    n: int,
    instancing: bool,
)
    requires
        in_sync(c, d, instancing),
        0 <= n <= MAX_SHADERSTAGE_IMAGES,
    ensures
        in_sync(
            spec_clear_textures_cache(c, n),
            driver_run(d, spec_clear_texture_calls(c, n)),
            instancing,
        ),
    decreases n,
{
    if n == 0 {
        assert(driver_run(d, spec_clear_texture_calls(c, 0)) == d);
    } else {
        lemma_clear_textures_sync(c, d, n - 1, instancing);
        let c1 = spec_clear_textures_cache(c, n - 1);
        let d1 = driver_run(d, spec_clear_texture_calls(c, n - 1));
        let tail = spec_bind_texture_calls(c1, (n - 1) as usize, 0u32);
        lemma_driver_run_append(d, spec_clear_texture_calls(c, n - 1), tail);
        lemma_bind_texture_sync(c1, d1, (n - 1) as usize, 0u32, instancing);
    }
}

/// Driver calls `set_cull_face` issues.
pub open spec fn spec_set_cull_calls(c: CacheModel, cull_face: CullFace) -> Seq<DriverCall> {
    if c.cull_face == cull_face {
        Seq::empty()
    } else {
        match cull_face {
            CullFace::Nothing => seq![DriverCall::Disable { cap: GL_CULL_FACE }],
            CullFace::Front => seq![
                DriverCall::Enable { cap: GL_CULL_FACE },
                DriverCall::CullFace { mode: GL_FRONT },
            ],
            CullFace::Back => seq![
                DriverCall::Enable { cap: GL_CULL_FACE },
                DriverCall::CullFace { mode: GL_BACK },
            ],
        }
    }
}

/// `set_cull_face` keeps the cache true to the driver.
pub proof fn lemma_set_cull_sync(
    c: CacheModel,
    d: DriverModel,
    cull_face: CullFace,
    instancing: bool,
)
    requires
        in_sync(c, d, instancing),
    ensures
        in_sync(
            CacheModel { cull_face: cull_face, ..c },
            driver_run(d, spec_set_cull_calls(c, cull_face)),
            instancing,
        ),
{
    if c.cull_face == cull_face {
        assert(driver_run(d, spec_set_cull_calls(c, cull_face)) == d);
    } else {
        match cull_face {
            CullFace::Nothing => lemma_driver_run_one(d, DriverCall::Disable { cap: GL_CULL_FACE }),
            CullFace::Front => lemma_driver_run_two(
                d,
                DriverCall::Enable { cap: GL_CULL_FACE },
                DriverCall::CullFace { mode: GL_FRONT },
            ),
            CullFace::Back => lemma_driver_run_two(
                d,
                DriverCall::Enable { cap: GL_CULL_FACE },
                DriverCall::CullFace { mode: GL_BACK },
            ),
        }
    }
}

/// Driver calls `set_color_write` issues.
pub open spec fn spec_set_color_write_calls(
    c: CacheModel,
    color_write: (bool, bool, bool, bool),
) -> Seq<DriverCall> {
    if c.color_write == color_write {
        Seq::empty()
    } else {
        seq![
            DriverCall::ColorMask {
                red: color_write.0,
                green: color_write.1,
                blue: color_write.2,
                alpha: color_write.3,
            },
        ]
    }
}

/// `set_color_write` keeps the cache true to the driver.
pub proof fn lemma_set_color_write_sync(
    c: CacheModel,
    d: DriverModel,
    color_write: (bool, bool, bool, bool),
    instancing: bool,
)
    requires
        in_sync(c, d, instancing),
    ensures
        in_sync(
            CacheModel { color_write: color_write, ..c },
            driver_run(d, spec_set_color_write_calls(c, color_write)),
            instancing,
        ),
{
    if c.color_write == color_write {
        assert(driver_run(d, spec_set_color_write_calls(c, color_write)) == d);
    } else {
        lemma_driver_run_one(
            d,
            DriverCall::ColorMask {
                red: color_write.0,
                green: color_write.1,
                blue: color_write.2,
                alpha: color_write.3,
            },
        );
    }
}

/// Driver calls `set_blend` issues: enable or disable blending only on the
/// transitions into and out of an active blend, and program the factors and
/// equations whenever the cached state differs.
pub open spec fn spec_set_blend_calls(
    c: CacheModel,
    color_blend: Option<BlendState>,
    alpha_blend: Option<BlendState>,
) -> Seq<DriverCall> {
    if c.color_blend == color_blend && c.alpha_blend == alpha_blend {
        Seq::empty()
    } else {
        match color_blend {
            Some(cb) => (if c.color_blend is None {
                seq![DriverCall::Enable { cap: GL_BLEND }]
            } else {
                Seq::empty()
            }) + (match alpha_blend {
                Some(ab) => seq![
                    DriverCall::BlendFuncSeparate {
                        src_rgb: spec_gl_blend_factor(cb.sfactor),
                        dst_rgb: spec_gl_blend_factor(cb.dfactor),
                        src_alpha: spec_gl_blend_factor(ab.sfactor),
                        dst_alpha: spec_gl_blend_factor(ab.dfactor),
                    },
                    DriverCall::BlendEquationSeparate {
                        mode_rgb: spec_gl_equation(cb.equation),
                        mode_alpha: spec_gl_equation(ab.equation),
                    },
                ],
                None => seq![
                    DriverCall::BlendFunc {
                        sfactor: spec_gl_blend_factor(cb.sfactor),
                        dfactor: spec_gl_blend_factor(cb.dfactor),
                    },
                    DriverCall::BlendEquationSeparate {
                        mode_rgb: spec_gl_equation(cb.equation),
                        mode_alpha: spec_gl_equation(cb.equation),
                    },
                ],
            }),
            None => if c.color_blend is Some {
                seq![DriverCall::Disable { cap: GL_BLEND }]
            } else {
                Seq::empty()
            },
        }
    }
}

/// The two calls that program a separate color+alpha blend configuration.
pub open spec fn blend_pair_separate(cb: BlendState, ab: BlendState) -> Seq<DriverCall> {
    seq![
        DriverCall::BlendFuncSeparate {
            src_rgb: spec_gl_blend_factor(cb.sfactor),
            dst_rgb: spec_gl_blend_factor(cb.dfactor),
            src_alpha: spec_gl_blend_factor(ab.sfactor),
            dst_alpha: spec_gl_blend_factor(ab.dfactor),
        },
        DriverCall::BlendEquationSeparate {
            mode_rgb: spec_gl_equation(cb.equation),
            mode_alpha: spec_gl_equation(ab.equation),
        },
    ]
}

/// The two calls that program a color-only blend configuration.
pub open spec fn blend_pair_single(cb: BlendState) -> Seq<DriverCall> {
    seq![
        DriverCall::BlendFunc {
            sfactor: spec_gl_blend_factor(cb.sfactor),
            dfactor: spec_gl_blend_factor(cb.dfactor),
        },
        DriverCall::BlendEquationSeparate {
            mode_rgb: spec_gl_equation(cb.equation),
            mode_alpha: spec_gl_equation(cb.equation),
        },
    ]
}

/// Replaying the separate blend pair programs exactly the blend registers.
pub proof fn lemma_blend_pair_separate_run(d: DriverModel, cb: BlendState, ab: BlendState)
    ensures
        driver_run(d, blend_pair_separate(cb, ab)) == (DriverModel {
            blend_src_rgb: spec_gl_blend_factor(cb.sfactor),
            blend_dst_rgb: spec_gl_blend_factor(cb.dfactor),
            blend_src_alpha: spec_gl_blend_factor(ab.sfactor),
            blend_dst_alpha: spec_gl_blend_factor(ab.dfactor),
            blend_eq_rgb: spec_gl_equation(cb.equation),
            blend_eq_alpha: spec_gl_equation(ab.equation),
            ..d
        }),
{
    let calls = blend_pair_separate(cb, ab);
    lemma_driver_run_two(d, calls[0], calls[1]);
    assert(calls =~= seq![calls[0], calls[1]]);
}

/// Replaying the color-only blend pair programs exactly the blend registers,
/// with the color factors doubling for alpha.
pub proof fn lemma_blend_pair_single_run(d: DriverModel, cb: BlendState)
    ensures
        driver_run(d, blend_pair_single(cb)) == (DriverModel {
            blend_src_rgb: spec_gl_blend_factor(cb.sfactor),
            blend_dst_rgb: spec_gl_blend_factor(cb.dfactor),
            blend_src_alpha: spec_gl_blend_factor(cb.sfactor),
            blend_dst_alpha: spec_gl_blend_factor(cb.dfactor),
            blend_eq_rgb: spec_gl_equation(cb.equation),
            blend_eq_alpha: spec_gl_equation(cb.equation),
            ..d
        }),
{
    let calls = blend_pair_single(cb);
    lemma_driver_run_two(d, calls[0], calls[1]);
    assert(calls =~= seq![calls[0], calls[1]]);
}

/// `set_blend` keeps the cache true to the driver.
#[verifier::rlimit(100)]
#[verifier::spinoff_prover]
pub proof fn lemma_set_blend_sync(
    c: CacheModel,
    d: DriverModel,
    color_blend: Option<BlendState>,
    alpha_blend: Option<BlendState>,
    instancing: bool,
)
    requires
        in_sync(c, d, instancing),
        !(color_blend is None && alpha_blend is Some),
    ensures
        in_sync(
            CacheModel { color_blend: color_blend, alpha_blend: alpha_blend, ..c },
            driver_run(d, spec_set_blend_calls(c, color_blend, alpha_blend)),
            instancing,
        ),
{
    let calls = spec_set_blend_calls(c, color_blend, alpha_blend);
    if c.color_blend == color_blend && c.alpha_blend == alpha_blend {
        assert(driver_run(d, calls) == d);
    } else {
        match color_blend {
            Some(cb) => {
                let funcs: Seq<DriverCall> = match alpha_blend {
                    Some(ab) => blend_pair_separate(cb, ab),
                    None => blend_pair_single(cb),
                };
                let en: Seq<DriverCall> = if c.color_blend is None {
                    seq![DriverCall::Enable { cap: GL_BLEND }]
                } else {
                    Seq::empty()
                };
                assert(calls == en + funcs);
                lemma_driver_run_append(d, en, funcs);
                let d1 = driver_run(d, en);
                if c.color_blend is None {
                    lemma_driver_run_one(d, DriverCall::Enable { cap: GL_BLEND });
                    assert(d1 == (DriverModel { blend_on: true, ..d }));
                } else {
                    assert(d1 == d);
                }
                match alpha_blend {
                    Some(ab) => lemma_blend_pair_separate_run(d1, cb, ab),
                    None => lemma_blend_pair_single_run(d1, cb),
                }
            },
            None => {
                assert(c.color_blend is Some);
                lemma_driver_run_one(d, DriverCall::Disable { cap: GL_BLEND });
            },
        }
    }
}

/// The three driver calls that program one stencil face.
pub open spec fn stencil_side_calls(face: u32, f: StencilFaceState) -> Seq<DriverCall> {
    seq![
        DriverCall::StencilOpSeparate {
            face,
            fail: spec_gl_stencil_op(f.fail_op),
            zfail: spec_gl_stencil_op(f.depth_fail_op),
            zpass: spec_gl_stencil_op(f.pass_op),
        },
        DriverCall::StencilFuncSeparate {
            face,
            func: spec_gl_compare_func(f.test_func),
            reference: f.test_ref,
            mask: f.test_mask,
        },
        DriverCall::StencilMaskSeparate { face, mask: f.write_mask },
    ]
}

/// Driver calls `set_stencil` issues.
pub open spec fn spec_set_stencil_calls(
    c: CacheModel,
    stencil_test: Option<StencilState>,
) -> Seq<DriverCall> {
    if c.stencil == stencil_test {
        Seq::empty()
    } else {
        match stencil_test {
            Some(s) => (if c.stencil is None {
                seq![DriverCall::Enable { cap: GL_STENCIL_TEST }]
            } else {
                Seq::empty()
            }) + stencil_side_calls(GL_FRONT, s.front) + stencil_side_calls(GL_BACK, s.back),
            None => if c.stencil is Some {
                seq![DriverCall::Disable { cap: GL_STENCIL_TEST }]
            } else {
                Seq::empty()
            },
        }
    }
}

/// Replaying one face's three stencil calls programs exactly that face.
pub proof fn lemma_stencil_side_run(d: DriverModel, face: u32, f: StencilFaceState)
    requires
        face == GL_FRONT || face == GL_BACK,
    ensures
        face == GL_FRONT ==> driver_run(d, stencil_side_calls(face, f)) == (DriverModel {
            stencil_front: StencilSideState {
                fail_op: spec_gl_stencil_op(f.fail_op),
                depth_fail_op: spec_gl_stencil_op(f.depth_fail_op),
                pass_op: spec_gl_stencil_op(f.pass_op),
                func: spec_gl_compare_func(f.test_func),
                reference: f.test_ref,
                test_mask: f.test_mask,
                write_mask: f.write_mask,
            },
            ..d
        }),
        face == GL_BACK ==> driver_run(d, stencil_side_calls(face, f)) == (DriverModel {
            stencil_back: StencilSideState {
                fail_op: spec_gl_stencil_op(f.fail_op),
                depth_fail_op: spec_gl_stencil_op(f.depth_fail_op),
                pass_op: spec_gl_stencil_op(f.pass_op),
                func: spec_gl_compare_func(f.test_func),
                reference: f.test_ref,
                test_mask: f.test_mask,
                write_mask: f.write_mask,
            },
            ..d
        }),
{
    let calls = stencil_side_calls(face, f);
    lemma_driver_run_three(d, calls[0], calls[1], calls[2]);
    assert(calls =~= seq![calls[0], calls[1], calls[2]]);
}

/// `set_stencil` keeps the cache true to the driver.
#[verifier::rlimit(100)]
#[verifier::spinoff_prover]
pub proof fn lemma_set_stencil_sync(
    c: CacheModel,
    d: DriverModel,
    stencil_test: Option<StencilState>,
    instancing: bool,
)
    requires
        in_sync(c, d, instancing),
    ensures
        in_sync(
            CacheModel { stencil: stencil_test, ..c },
            driver_run(d, spec_set_stencil_calls(c, stencil_test)),
            instancing,
        ),
{
    let calls = spec_set_stencil_calls(c, stencil_test);
    if c.stencil == stencil_test {
        assert(driver_run(d, calls) == d);
    } else {
        match stencil_test {
            Some(s) => {
                let en: Seq<DriverCall> = if c.stencil is None {
                    seq![DriverCall::Enable { cap: GL_STENCIL_TEST }]
                } else {
                    Seq::empty()
                };
                let front = stencil_side_calls(GL_FRONT, s.front);
                let back = stencil_side_calls(GL_BACK, s.back);
                lemma_driver_run_append(d, en, front + back);
                assert(en + front + back =~= en + (front + back));
                let d1 = driver_run(d, en);
                if c.stencil is None {
                    lemma_driver_run_one(d, DriverCall::Enable { cap: GL_STENCIL_TEST });
                } else {
                    assert(driver_run(d, en) == d);
                }
                lemma_driver_run_append(d1, front, back);
                lemma_stencil_side_run(d1, GL_FRONT, s.front);
                lemma_stencil_side_run(driver_run(d1, front), GL_BACK, s.back);
            },
            None => {
                assert(c.stencil is Some);
                lemma_driver_run_one(d, DriverCall::Disable { cap: GL_STENCIL_TEST });
            },
        }
    }
}

/// The pipeline's compiled entry for an attribute slot; slots beyond the
/// table are unused.
pub open spec fn attr_slot_entry(
    layout: Seq<Option<VertexAttributeInternal>>,
    i: int,
) -> Option<VertexAttributeInternal> {
    if 0 <= i < layout.len() {
        layout[i]
    } else {
        None
    }
}

/// Whether slot `i`'s cache entry already holds this attribute sourced from
/// this vertex buffer, so the pointer calls can be skipped.
pub open spec fn attr_slot_matches(
    c: CacheModel,
    i: int,
    attr: VertexAttributeInternal,
    vbuf: u32,
) -> bool {
    match c.attributes[i] {
        Some(ca) => ca.attribute == attr && ca.gl_vbuf == vbuf,
        None => false,
    }
}

/// The calls that program one attribute slot once its vertex buffer is
/// bound: set the pointer, set the divisor where instancing exists, enable
/// the slot.
pub open spec fn attr_program_calls(
    i: int,
    attr: VertexAttributeInternal,
    instancing: bool,
) -> Seq<DriverCall> {
    seq![
        DriverCall::VertexAttribPointer {
            index: i as u32,
            size: attr.size,
            type_: attr.type_,
            normalized: false,
            stride: attr.stride,
            offset: attr.offset,
        },
    ] + (if instancing {
        seq![DriverCall::VertexAttribDivisor { index: i as u32, divisor: attr.divisor as u32 }]
    } else {
        Seq::empty()
    }) + seq![DriverCall::EnableVertexAttribArray { index: i as u32 }]
}

/// Cache after programming slot `i` with `attr` sourced from `vbuf`: the
/// vertex buffer is bound and the slot entry replaced.
pub open spec fn spec_program_attr_cache(
    c: CacheModel,
    i: int,
    attr: VertexAttributeInternal,
    vbuf: u32,
) -> CacheModel {
    let cb = spec_bind_buffer(c, GL_ARRAY_BUFFER, vbuf, None);
    CacheModel {
        attributes: cb.attributes.update(i, Some(CachedAttribute { attribute: attr, gl_vbuf: vbuf })),
        ..cb
    }
}

/// Calls issued when programming slot `i`.
pub open spec fn spec_program_attr_calls(
    c: CacheModel,
    i: int,
    attr: VertexAttributeInternal,
    vbuf: u32,
    instancing: bool,
) -> Seq<DriverCall> {
    spec_bind_buffer_calls(c, GL_ARRAY_BUFFER, vbuf) + attr_program_calls(i, attr, instancing)
}

/// Programming one attribute slot keeps the cache true to the driver: the
/// pointer call captures exactly the vertex buffer the cache just bound.
pub proof fn lemma_program_attr_sync(
    c: CacheModel,
    d: DriverModel,
    i: int,
    attr: VertexAttributeInternal,
    vbuf: u32,
    instancing: bool,
)
    requires
        in_sync(c, d, instancing),
        0 <= i < MAX_VERTEX_ATTRIBUTES,
    ensures
        in_sync(
            spec_program_attr_cache(c, i, attr, vbuf),
            driver_run(d, spec_program_attr_calls(c, i, attr, vbuf, instancing)),
            instancing,
        ),
{
    let bind_calls = spec_bind_buffer_calls(c, GL_ARRAY_BUFFER, vbuf);
    let prog = attr_program_calls(i, attr, instancing);
    lemma_bind_buffer_sync(c, d, GL_ARRAY_BUFFER, vbuf, None, instancing);
    let cb = spec_bind_buffer(c, GL_ARRAY_BUFFER, vbuf, None);
    let db = driver_run(d, bind_calls);
    lemma_driver_run_append(d, bind_calls, prog);
    let ptr = DriverCall::VertexAttribPointer {
        index: i as u32,
        size: attr.size,
        type_: attr.type_,
        normalized: false,
        stride: attr.stride,
        offset: attr.offset,
    };
    let en = DriverCall::EnableVertexAttribArray { index: i as u32 };
    if instancing {
        let dv = DriverCall::VertexAttribDivisor { index: i as u32, divisor: attr.divisor as u32 };
        assert(prog =~= seq![ptr, dv, en]);
        lemma_driver_run_three(db, ptr, dv, en);
    } else {
        assert(prog =~= seq![ptr, en]);
        lemma_driver_run_two(db, ptr, en);
    }
    assert(in_sync(
        spec_program_attr_cache(c, i, attr, vbuf),
        driver_run(d, spec_program_attr_calls(c, i, attr, vbuf, instancing)),
        instancing,
    ));
}

/// Disabling one attribute slot keeps the cache true to the driver.
pub proof fn lemma_disable_attr_sync(c: CacheModel, d: DriverModel, i: int, instancing: bool)
    requires
        in_sync(c, d, instancing),
        0 <= i < MAX_VERTEX_ATTRIBUTES,
    ensures
        in_sync(
            CacheModel { attributes: c.attributes.update(i, None), ..c },
            driver_run(d, seq![DriverCall::DisableVertexAttribArray { index: i as u32 }]),
            instancing,
        ),
{
    lemma_driver_run_one(d, DriverCall::DisableVertexAttribArray { index: i as u32 });
}

/// Cache after binding the first `n` of a shader's image slots to the
/// bindings' textures, positionally; slots whose location did not resolve
/// are skipped.
pub open spec fn spec_apply_images_cache(
    c: CacheModel,
    images: Seq<ShaderImage>,
    bound: Seq<Texture>,
    n: int,
) -> CacheModel
    decreases n,
{
    if n <= 0 {
        c
    } else {
        let cp = spec_apply_images_cache(c, images, bound, n - 1);
        match images[n - 1].gl_loc {
            Some(loc) => spec_bind_texture(cp, (n - 1) as usize, bound[n - 1].texture),
            None => cp,
        }
    }
}

/// Calls issued while binding the first `n` image slots: each resolved slot
/// binds its texture and tells the driver the texture unit index.
pub open spec fn spec_apply_images_calls(
    c: CacheModel,
    images: Seq<ShaderImage>,
    bound: Seq<Texture>,
    n: int,
) -> Seq<DriverCall>
    decreases n,
{
    if n <= 0 {
        Seq::empty()
    } else {
        let cp = spec_apply_images_cache(c, images, bound, n - 1);
        spec_apply_images_calls(c, images, bound, n - 1) + (match images[n - 1].gl_loc {
            Some(loc) => spec_bind_texture_calls(cp, (n - 1) as usize, bound[n - 1].texture)
                + seq![DriverCall::Uniform1i { location: loc, value: (n - 1) as i32 }],
            None => Seq::empty(),
        })
    }
}

/// Cache after resolving the first `n` attribute slots of the active
/// pipeline against the bindings' vertex buffers.
pub open spec fn spec_apply_attrs_cache(
    c: CacheModel,
    layout: Seq<Option<VertexAttributeInternal>>,
    vbufs: Seq<Buffer>,
    n: int,
) -> CacheModel
    decreases n,
{
    if n <= 0 {
        c
    } else {
        let cp = spec_apply_attrs_cache(c, layout, vbufs, n - 1);
        match attr_slot_entry(layout, n - 1) {
            Some(attr) => {
                let vb = vbufs[attr.buffer_index as int];
                if attr_slot_matches(cp, n - 1, attr, vb.gl_buf) {
                    cp
                } else {
                    spec_program_attr_cache(cp, n - 1, attr, vb.gl_buf)
                }
            },
            None => {
                if cp.attributes[n - 1] is Some {
                    CacheModel { attributes: cp.attributes.update(n - 1, None), ..cp }
                } else {
                    cp
                }
            },
        }
    }
}

/// Calls issued while resolving the first `n` attribute slots: a slot whose
/// cached layout and buffer already match is skipped entirely, a differing
/// slot is rebound and reprogrammed, and a slot the pipeline no longer uses
/// is disabled.
pub open spec fn spec_apply_attrs_calls(
    c: CacheModel,
    layout: Seq<Option<VertexAttributeInternal>>,
    vbufs: Seq<Buffer>,
    instancing: bool,
    n: int,
) -> Seq<DriverCall>
    decreases n,
{
    if n <= 0 {
        Seq::empty()
    } else {
        let cp = spec_apply_attrs_cache(c, layout, vbufs, n - 1);
        spec_apply_attrs_calls(c, layout, vbufs, instancing, n - 1) + (match attr_slot_entry(
            layout,
            n - 1,
        ) {
            Some(attr) => {
                let vb = vbufs[attr.buffer_index as int];
                if attr_slot_matches(cp, n - 1, attr, vb.gl_buf) {
                    Seq::empty()
                } else {
                    spec_program_attr_calls(cp, n - 1, attr, vb.gl_buf, instancing)
                }
            },
            None => {
                if cp.attributes[n - 1] is Some {
                    seq![DriverCall::DisableVertexAttribArray { index: (n - 1) as u32 }]
                } else {
                    Seq::empty()
                }
            },
        })
    }
}


/// Driver calls that leave the program, scissor-test, depth and winding
/// registers alone: everything the layer issues other than a pipeline
/// activation prefix.
pub open spec fn keeps_pipeline_prefix_state(call: DriverCall) -> bool {
    match call {
        DriverCall::UseProgram { .. } => false,
        DriverCall::Enable { cap } => cap != GL_SCISSOR_TEST && cap != GL_DEPTH_TEST,
        DriverCall::Disable { cap } => cap != GL_SCISSOR_TEST && cap != GL_DEPTH_TEST,
        DriverCall::DepthFunc { .. } => false,
        DriverCall::FrontFace { .. } => false,
        _ => true,
    }
}

/// Replaying calls that keep the activation registers indeed keeps them.
pub proof fn lemma_keeps_prefix_run(d: DriverModel, calls: Seq<DriverCall>)
    requires
        forall|i: int| 0 <= i < calls.len() ==> keeps_pipeline_prefix_state(#[trigger] calls[i]),
    ensures
        driver_run(d, calls).program == d.program,
        driver_run(d, calls).scissor_test_on == d.scissor_test_on,
        driver_run(d, calls).depth_test_on == d.depth_test_on,
        driver_run(d, calls).depth_func == d.depth_func,
        driver_run(d, calls).front_face == d.front_face,
    decreases calls.len(),
{
    if calls.len() > 0 {
        lemma_keeps_prefix_run(driver_step(d, calls[0]), calls.drop_first());
    }
}

/// Concatenating two register-keeping call runs keeps the registers.
pub proof fn lemma_keeps_concat(a: Seq<DriverCall>, b: Seq<DriverCall>)
    requires
        forall|i: int| 0 <= i < a.len() ==> keeps_pipeline_prefix_state(#[trigger] a[i]),
        forall|i: int| 0 <= i < b.len() ==> keeps_pipeline_prefix_state(#[trigger] b[i]),
    ensures
        forall|i: int| 0 <= i < (a + b).len() ==> keeps_pipeline_prefix_state(#[trigger] (a + b)[i]),
{
    assert forall|i: int| 0 <= i < (a + b).len() implies keeps_pipeline_prefix_state(
        #[trigger] (a + b)[i],
    ) by {
        if i < a.len() {
            assert((a + b)[i] == a[i]);
        } else {
            assert((a + b)[i] == b[i - a.len()]);
        }
    }
}

/// `set_cull_face`'s calls keep the activation registers.
pub proof fn lemma_set_cull_calls_keep(c: CacheModel, cull_face: CullFace)
    ensures
        forall|i: int|
            0 <= i < spec_set_cull_calls(c, cull_face).len() ==> keeps_pipeline_prefix_state(
                #[trigger] spec_set_cull_calls(c, cull_face)[i],
            ),
{
}

/// `set_color_write`'s calls keep the activation registers.
pub proof fn lemma_set_color_write_calls_keep(c: CacheModel, color_write: (bool, bool, bool, bool))
    ensures
        forall|i: int|
            0 <= i < spec_set_color_write_calls(c, color_write).len()
                ==> keeps_pipeline_prefix_state(
                #[trigger] spec_set_color_write_calls(c, color_write)[i],
            ),
{
}

/// `set_blend`'s calls keep the activation registers.
pub proof fn lemma_set_blend_calls_keep(
    c: CacheModel,
    color_blend: Option<BlendState>,
    alpha_blend: Option<BlendState>,
)
    ensures
        forall|i: int|
            0 <= i < spec_set_blend_calls(c, color_blend, alpha_blend).len()
                ==> keeps_pipeline_prefix_state(
                #[trigger] spec_set_blend_calls(c, color_blend, alpha_blend)[i],
            ),
{
}

/// `set_stencil`'s calls keep the activation registers.
pub proof fn lemma_set_stencil_calls_keep(c: CacheModel, stencil_test: Option<StencilState>)
    ensures
        forall|i: int|
            0 <= i < spec_set_stencil_calls(c, stencil_test).len() ==> keeps_pipeline_prefix_state(
                #[trigger] spec_set_stencil_calls(c, stencil_test)[i],
            ),
{
}

/// `bind_buffer`'s calls keep the activation registers.
pub proof fn lemma_bind_buffer_calls_keep(c: CacheModel, target: u32, buffer: u32)
    ensures
        forall|i: int|
            0 <= i < spec_bind_buffer_calls(c, target, buffer).len()
                ==> keeps_pipeline_prefix_state(
                #[trigger] spec_bind_buffer_calls(c, target, buffer)[i],
            ),
{
}

/// `restore_buffer_binding`'s calls keep the activation registers.
pub proof fn lemma_restore_buffer_calls_keep(c: CacheModel, target: u32)
    ensures
        forall|i: int|
            0 <= i < spec_restore_buffer_binding_calls(c, target).len()
                ==> keeps_pipeline_prefix_state(
                #[trigger] spec_restore_buffer_binding_calls(c, target)[i],
            ),
{
}

/// `bind_texture`'s calls keep the activation registers.
pub proof fn lemma_bind_texture_calls_keep(c: CacheModel, slot_index: usize, texture: u32)
    ensures
        forall|i: int|
            0 <= i < spec_bind_texture_calls(c, slot_index, texture).len()
                ==> keeps_pipeline_prefix_state(
                #[trigger] spec_bind_texture_calls(c, slot_index, texture)[i],
            ),
{
}

/// `restore_texture_binding`'s calls keep the activation registers.
pub proof fn lemma_restore_texture_calls_keep(c: CacheModel, slot_index: usize)
    ensures
        forall|i: int|
            0 <= i < spec_restore_texture_binding_calls(c, slot_index).len()
                ==> keeps_pipeline_prefix_state(
                #[trigger] spec_restore_texture_binding_calls(c, slot_index)[i],
            ),
{
}

/// `clear_texture_bindings`'s calls keep the activation registers.
pub proof fn lemma_clear_texture_calls_keep(c: CacheModel, n: int)
    ensures
        forall|i: int|
            0 <= i < spec_clear_texture_calls(c, n).len() ==> keeps_pipeline_prefix_state(
                #[trigger] spec_clear_texture_calls(c, n)[i],
            ),
    decreases n,
{
    if n > 0 {
        lemma_clear_texture_calls_keep(c, n - 1);
        lemma_bind_texture_calls_keep(spec_clear_textures_cache(c, n - 1), (n - 1) as usize, 0u32);
        lemma_keeps_concat(
            spec_clear_texture_calls(c, n - 1),
            spec_bind_texture_calls(spec_clear_textures_cache(c, n - 1), (n - 1) as usize, 0u32),
        );
    }
}

/// `apply_bindings`' image phase calls keep the activation registers.
pub proof fn lemma_images_calls_keep(
    c: CacheModel,
    images: Seq<ShaderImage>,
    bound: Seq<Texture>,
    n: int,
)
    ensures
        forall|i: int|
            0 <= i < spec_apply_images_calls(c, images, bound, n).len()
                ==> keeps_pipeline_prefix_state(
                #[trigger] spec_apply_images_calls(c, images, bound, n)[i],
            ),
    decreases n,
{
    if n > 0 {
        lemma_images_calls_keep(c, images, bound, n - 1);
        let cp = spec_apply_images_cache(c, images, bound, n - 1);
        let step: Seq<DriverCall> = match images[n - 1].gl_loc {
            Some(loc) => spec_bind_texture_calls(cp, (n - 1) as usize, bound[n - 1].texture)
                + seq![DriverCall::Uniform1i { location: loc, value: (n - 1) as i32 }],
            None => Seq::empty(),
        };
        match images[n - 1].gl_loc {
            Some(loc) => {
                lemma_bind_texture_calls_keep(cp, (n - 1) as usize, bound[n - 1].texture);
                lemma_keeps_concat(
                    spec_bind_texture_calls(cp, (n - 1) as usize, bound[n - 1].texture),
                    seq![DriverCall::Uniform1i { location: loc, value: (n - 1) as i32 }],
                );
            },
            None => {},
        }
        lemma_keeps_concat(spec_apply_images_calls(c, images, bound, n - 1), step);
    }
}

/// Programming one attribute slot keeps the activation registers.
pub proof fn lemma_program_attr_calls_keep(
    c: CacheModel,
    i: int,
    attr: VertexAttributeInternal,
    vbuf: u32,
    instancing: bool,
)
    ensures
        forall|k: int|
            0 <= k < spec_program_attr_calls(c, i, attr, vbuf, instancing).len()
                ==> keeps_pipeline_prefix_state(
                #[trigger] spec_program_attr_calls(c, i, attr, vbuf, instancing)[k],
            ),
{
    lemma_bind_buffer_calls_keep(c, GL_ARRAY_BUFFER, vbuf);
    let prog = attr_program_calls(i, attr, instancing);
    assert(forall|k: int| 0 <= k < prog.len() ==> keeps_pipeline_prefix_state(#[trigger] prog[k]))
        by {
        assert forall|k: int| 0 <= k < prog.len() implies keeps_pipeline_prefix_state(
            #[trigger] prog[k],
        ) by {
            if instancing {
                assert(prog =~= seq![prog[0], prog[1], prog[2]]);
            } else {
                assert(prog =~= seq![prog[0], prog[1]]);
            }
        }
    }
    lemma_keeps_concat(spec_bind_buffer_calls(c, GL_ARRAY_BUFFER, vbuf), prog);
}

/// `apply_bindings`' attribute phase calls keep the activation registers.
pub proof fn lemma_attrs_calls_keep(
    c: CacheModel,
    layout: Seq<Option<VertexAttributeInternal>>,
    vbufs: Seq<Buffer>,
    instancing: bool,
    n: int,
)
    ensures
        forall|i: int|
            0 <= i < spec_apply_attrs_calls(c, layout, vbufs, instancing, n).len()
                ==> keeps_pipeline_prefix_state(
                #[trigger] spec_apply_attrs_calls(c, layout, vbufs, instancing, n)[i],
            ),
    decreases n,
{
    if n > 0 {
        lemma_attrs_calls_keep(c, layout, vbufs, instancing, n - 1);
        let cp = spec_apply_attrs_cache(c, layout, vbufs, n - 1);
        let step: Seq<DriverCall> = match attr_slot_entry(layout, n - 1) {
            Some(attr) => {
                let vb = vbufs[attr.buffer_index as int];
                if attr_slot_matches(cp, n - 1, attr, vb.gl_buf) {
                    Seq::empty()
                } else {
                    spec_program_attr_calls(cp, n - 1, attr, vb.gl_buf, instancing)
                }
            },
            None => {
                if cp.attributes[n - 1] is Some {
                    seq![DriverCall::DisableVertexAttribArray { index: (n - 1) as u32 }]
                } else {
                    Seq::empty()
                }
            },
        };
        match attr_slot_entry(layout, n - 1) {
            Some(attr) => {
                let vb = vbufs[attr.buffer_index as int];
                if !attr_slot_matches(cp, n - 1, attr, vb.gl_buf) {
                    lemma_program_attr_calls_keep(cp, n - 1, attr, vb.gl_buf, instancing);
                }
            },
            None => {},
        }
        lemma_keeps_concat(spec_apply_attrs_calls(c, layout, vbufs, instancing, n - 1), step);
    }
}


} // verus!
