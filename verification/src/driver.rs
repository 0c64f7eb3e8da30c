use vstd::prelude::*;

use crate::uniform::UniformType;

verus! {

// Driver enum values, as the command interface defines them.
pub const GL_ARRAY_BUFFER: u32 = 0x8892;
pub const GL_ELEMENT_ARRAY_BUFFER: u32 = 0x8893;

pub const GL_STREAM_DRAW: u32 = 0x88E0;
pub const GL_STATIC_DRAW: u32 = 0x88E4;
pub const GL_DYNAMIC_DRAW: u32 = 0x88E8;

pub const GL_BLEND: u32 = 0x0BE2;
pub const GL_CULL_FACE: u32 = 0x0B44;
pub const GL_DEPTH_TEST: u32 = 0x0B71;
pub const GL_SCISSOR_TEST: u32 = 0x0C11;
pub const GL_STENCIL_TEST: u32 = 0x0B90;

pub const GL_FRONT: u32 = 0x0404;
pub const GL_BACK: u32 = 0x0405;
pub const GL_CW: u32 = 0x0900;
pub const GL_CCW: u32 = 0x0901;

pub const GL_UNSIGNED_BYTE: u32 = 0x1401;
pub const GL_UNSIGNED_SHORT: u32 = 0x1403;
pub const GL_UNSIGNED_INT: u32 = 0x1405;
pub const GL_FLOAT: u32 = 0x1406;

pub const GL_ZERO: u32 = 0;
pub const GL_ONE: u32 = 1;
pub const GL_SRC_COLOR: u32 = 0x0300;
pub const GL_ONE_MINUS_SRC_COLOR: u32 = 0x0301;
pub const GL_SRC_ALPHA: u32 = 0x0302;
pub const GL_ONE_MINUS_SRC_ALPHA: u32 = 0x0303;
pub const GL_DST_ALPHA: u32 = 0x0304;
pub const GL_ONE_MINUS_DST_ALPHA: u32 = 0x0305;
pub const GL_DST_COLOR: u32 = 0x0306;
pub const GL_ONE_MINUS_DST_COLOR: u32 = 0x0307;
pub const GL_SRC_ALPHA_SATURATE: u32 = 0x0308;

pub const GL_FUNC_ADD: u32 = 0x8006;
pub const GL_FUNC_SUBTRACT: u32 = 0x800A;
pub const GL_FUNC_REVERSE_SUBTRACT: u32 = 0x800B;

pub const GL_NEVER: u32 = 0x0200;
pub const GL_LESS: u32 = 0x0201;
pub const GL_EQUAL: u32 = 0x0202;
pub const GL_LEQUAL: u32 = 0x0203;
pub const GL_GREATER: u32 = 0x0204;
pub const GL_NOTEQUAL: u32 = 0x0205;
pub const GL_GEQUAL: u32 = 0x0206;
pub const GL_ALWAYS: u32 = 0x0207;

pub const GL_KEEP: u32 = 0x1E00;
pub const GL_REPLACE: u32 = 0x1E01;
pub const GL_INCR: u32 = 0x1E02;
pub const GL_DECR: u32 = 0x1E03;
pub const GL_INVERT: u32 = 0x150A;
pub const GL_INCR_WRAP: u32 = 0x8507;
pub const GL_DECR_WRAP: u32 = 0x8508;

pub const GL_LINES: u32 = 0x0001;
pub const GL_LINE_STRIP: u32 = 0x0003;
pub const GL_TRIANGLES: u32 = 0x0004;
pub const GL_TRIANGLE_STRIP: u32 = 0x0005;

pub const GL_TEXTURE_2D: u32 = 0x0DE1;
pub const GL_TEXTURE0: u32 = 0x84C0;

pub const GL_FRAMEBUFFER: u32 = 0x8D40;
pub const GL_COLOR_ATTACHMENT0: u32 = 0x8CE0;
pub const GL_DEPTH_ATTACHMENT: u32 = 0x8D00;

pub const GL_DEPTH_BUFFER_BIT: u32 = 0x0100;
pub const GL_STENCIL_BUFFER_BIT: u32 = 0x0400;
pub const GL_COLOR_BUFFER_BIT: u32 = 0x4000;

pub const GL_TIME_ELAPSED: u32 = 0x88BF;

/// Number of texture units the layer tracks.
pub const MAX_SHADERSTAGE_IMAGES: usize = 12;

/// Number of vertex attribute slots the layer tracks (the practical ceiling
/// enforced by the lowest-common-denominator target platform).
pub const MAX_VERTEX_ATTRIBUTES: usize = 16;

/// One synchronous command issued to the stateful driver interface.
///
/// Buffer/texture payload bytes accompany the issuing call on the embedder's
/// side; the stream records the spans and state transitions, which is what
/// the cache layer is responsible for.
#[derive(Debug, PartialEq, Eq, Structural, Clone, Copy)]
pub enum DriverCall {
    GenVertexArray { array: u32 },
    BindVertexArray { array: u32 },
    GenBuffer { buffer: u32 },
    DeleteBuffer { buffer: u32 },
    BindBuffer { target: u32, buffer: u32 },
    BufferData { target: u32, size: usize, usage: u32 },
    BufferSubData { target: u32, offset: usize, size: usize },
    ActiveTexture { unit: u32 },
    BindTexture { target: u32, texture: u32 },
    UseProgram { program: u32 },
    Enable { cap: u32 },
    Disable { cap: u32 },
    DepthFunc { func: u32 },
    FrontFace { mode: u32 },
    CullFace { mode: u32 },
    ColorMask { red: bool, green: bool, blue: bool, alpha: bool },
    BlendFunc { sfactor: u32, dfactor: u32 },
    BlendFuncSeparate { src_rgb: u32, dst_rgb: u32, src_alpha: u32, dst_alpha: u32 },
    BlendEquationSeparate { mode_rgb: u32, mode_alpha: u32 },
    StencilOpSeparate { face: u32, fail: u32, zfail: u32, zpass: u32 },
    StencilFuncSeparate { face: u32, func: u32, reference: i32, mask: u32 },
    StencilMaskSeparate { face: u32, mask: u32 },
    Viewport { x: i32, y: i32, w: i32, h: i32 },
    Scissor { x: i32, y: i32, w: i32, h: i32 },
    VertexAttribPointer {
        index: u32,
        size: i32,
        type_: u32,
        normalized: bool,
        stride: i32,
        offset: i64,
    },
    VertexAttribDivisor { index: u32, divisor: u32 },
    EnableVertexAttribArray { index: u32 },
    DisableVertexAttribArray { index: u32 },
    Uniform1i { location: i32, value: i32 },
    UploadUniform {
        location: i32,
        uniform_type: UniformType,
        array_count: i32,
        word_offset: usize,
    },
    GenFramebuffer { framebuffer: u32 },
    DeleteFramebuffer { framebuffer: u32 },
    BindFramebuffer { framebuffer: u32 },
    FramebufferTexture2D { attachment: u32, texture: u32 },
    ClearColor { red_bits: u32, green_bits: u32, blue_bits: u32, alpha_bits: u32 },
    ClearDepth { depth_bits: u32 },
    ClearStencil { value: i32 },
    Clear { mask: u32 },
    DrawElements { mode: u32, count: i32, index_type: u32, offset: i32 },
    DrawElementsInstanced { mode: u32, count: i32, index_type: u32, offset: i32, instances: i32 },
    GenQuery { query: u32 },
    DeleteQuery { query: u32 },
    BeginQuery { target: u32, query: u32 },
    EndQuery { target: u32 },
}

/// The downward driver surface: the ordered stream of commands issued so
/// far, plus the allocator for fresh driver-side resource names.
///
/// An embedder executes `calls` against the real command interface in order;
/// tests instrument it as a call counter.
pub struct Driver {
    pub calls: Vec<DriverCall>,
    pub next_id: u32,
}

impl Driver {
    pub fn new() -> (d: Driver)
        ensures
            d.calls@ == Seq::<DriverCall>::empty(),
            d.next_id == 1,
    {
        Driver { calls: Vec::new(), next_id: 1 }
    }

    /// Issue one command to the driver.
    pub fn emit(&mut self, call: DriverCall)
        ensures
            final(self).calls@ == old(self).calls@.push(call),
            final(self).next_id == old(self).next_id,
    {
        self.calls.push(call);
    }

    /// Allocate a fresh driver-side resource name.
    pub fn alloc_id(&mut self) -> (id: u32)
        requires
            old(self).next_id < u32::MAX,
        ensures
            id == old(self).next_id,
            final(self).next_id == old(self).next_id + 1,
            final(self).calls@ == old(self).calls@,
    {
        let id = self.next_id;
        self.next_id = self.next_id + 1;
        id
    }
}

/// Driver-side state of one vertex attribute slot.
pub ghost struct AttrPointerState {
    pub enabled: bool,
    pub size: i32,
    pub type_: u32,
    pub stride: i32,
    pub offset: i64,
    pub divisor: u32,
    /// The vertex buffer that was bound when the pointer was last set.
    pub vertex_buffer: u32,
}

/// Driver-side stencil state for one face.
pub ghost struct StencilSideState {
    pub fail_op: u32,
    pub depth_fail_op: u32,
    pub pass_op: u32,
    pub func: u32,
    pub reference: i32,
    pub test_mask: u32,
    pub write_mask: u32,
}

/// The mutable, globally visible state a stateful driver holds per context:
/// what replaying the command stream leaves bound and configured.
pub ghost struct DriverModel {
    pub array_buffer: u32,
    pub element_array_buffer: u32,
    /// Raw active texture unit enum value (`GL_TEXTURE0 + slot`).
    pub active_texture: u32,
    pub textures: Seq<u32>,
    pub program: u32,
    pub vertex_array: u32,
    pub framebuffer: u32,
    pub blend_on: bool,
    pub cull_on: bool,
    pub depth_test_on: bool,
    pub scissor_test_on: bool,
    pub stencil_test_on: bool,
    pub depth_func: u32,
    pub front_face: u32,
    pub cull_mode: u32,
    pub blend_src_rgb: u32,
    pub blend_dst_rgb: u32,
    pub blend_src_alpha: u32,
    pub blend_dst_alpha: u32,
    pub blend_eq_rgb: u32,
    pub blend_eq_alpha: u32,
    pub stencil_front: StencilSideState,
    pub stencil_back: StencilSideState,
    pub mask_red: bool,
    pub mask_green: bool,
    pub mask_blue: bool,
    pub mask_alpha: bool,
    pub attributes: Seq<AttrPointerState>,
}

pub open spec fn initial_attr_pointer() -> AttrPointerState {
    AttrPointerState {
        enabled: false,
        size: 4,
        type_: GL_FLOAT,
        stride: 0,
        offset: 0,
        divisor: 0,
        vertex_buffer: 0,
    }
}

pub open spec fn initial_stencil_side() -> StencilSideState {
    StencilSideState {
        fail_op: GL_KEEP,
        depth_fail_op: GL_KEEP,
        pass_op: GL_KEEP,
        func: GL_ALWAYS,
        reference: 0,
        test_mask: 0xFFFFFFFFu32,
        write_mask: 0xFFFFFFFFu32,
    }
}

/// Driver state at context creation: the interface's documented defaults,
/// with `framebuffer` whatever the environment left bound.
pub open spec fn initial_driver(framebuffer: u32) -> DriverModel {
    DriverModel {
        array_buffer: 0,
        element_array_buffer: 0,
        active_texture: GL_TEXTURE0,
        textures: Seq::new(MAX_SHADERSTAGE_IMAGES as nat, |i: int| 0u32),
        program: 0,
        vertex_array: 0,
        framebuffer: framebuffer,
        blend_on: false,
        cull_on: false,
        depth_test_on: false,
        scissor_test_on: false,
        stencil_test_on: false,
        depth_func: GL_LESS,
        front_face: GL_CCW,
        cull_mode: GL_BACK,
        blend_src_rgb: GL_ONE,
        blend_dst_rgb: GL_ZERO,
        blend_src_alpha: GL_ONE,
        blend_dst_alpha: GL_ZERO,
        blend_eq_rgb: GL_FUNC_ADD,
        blend_eq_alpha: GL_FUNC_ADD,
        stencil_front: initial_stencil_side(),
        stencil_back: initial_stencil_side(),
        mask_red: true,
        mask_green: true,
        mask_blue: true,
        mask_alpha: true,
        attributes: Seq::new(MAX_VERTEX_ATTRIBUTES as nat, |i: int| initial_attr_pointer()),
    }
}

/// The state transition one driver command performs.
pub open spec fn driver_step(s: DriverModel, c: DriverCall) -> DriverModel {
    match c {
        DriverCall::BindVertexArray { array } => DriverModel { vertex_array: array, ..s },
        DriverCall::BindBuffer { target, buffer } => {
            if target == GL_ARRAY_BUFFER {
                DriverModel { array_buffer: buffer, ..s }
            } else if target == GL_ELEMENT_ARRAY_BUFFER {
                DriverModel { element_array_buffer: buffer, ..s }
            } else {
                s
            }
        },
        DriverCall::ActiveTexture { unit } => DriverModel { active_texture: unit, ..s },
        DriverCall::BindTexture { target, texture } => {
            if target == GL_TEXTURE_2D && GL_TEXTURE0 <= s.active_texture
                && s.active_texture - GL_TEXTURE0 < s.textures.len() {
                DriverModel {
                    textures: s.textures.update(s.active_texture - GL_TEXTURE0, texture),
                    ..s
                }
            } else {
                s
            }
        },
        DriverCall::UseProgram { program } => DriverModel { program: program, ..s },
        DriverCall::Enable { cap } => {
            if cap == GL_BLEND {
                DriverModel { blend_on: true, ..s }
            } else if cap == GL_CULL_FACE {
                DriverModel { cull_on: true, ..s }
            } else if cap == GL_DEPTH_TEST {
                DriverModel { depth_test_on: true, ..s }
            } else if cap == GL_SCISSOR_TEST {
                DriverModel { scissor_test_on: true, ..s }
            } else if cap == GL_STENCIL_TEST {
                DriverModel { stencil_test_on: true, ..s }
            } else {
                s
            }
        },
        DriverCall::Disable { cap } => {
            if cap == GL_BLEND {
                DriverModel { blend_on: false, ..s }
            } else if cap == GL_CULL_FACE {
                DriverModel { cull_on: false, ..s }
            } else if cap == GL_DEPTH_TEST {
                DriverModel { depth_test_on: false, ..s }
            } else if cap == GL_SCISSOR_TEST {
                DriverModel { scissor_test_on: false, ..s }
            } else if cap == GL_STENCIL_TEST {
                DriverModel { stencil_test_on: false, ..s }
            } else {
                s
            }
        },
        DriverCall::DepthFunc { func } => DriverModel { depth_func: func, ..s },
        DriverCall::FrontFace { mode } => DriverModel { front_face: mode, ..s },
        DriverCall::CullFace { mode } => DriverModel { cull_mode: mode, ..s },
        DriverCall::ColorMask { red, green, blue, alpha } => DriverModel {
            mask_red: red,
            mask_green: green,
            mask_blue: blue,
            mask_alpha: alpha,
            ..s
        },
        DriverCall::BlendFunc { sfactor, dfactor } => DriverModel {
            blend_src_rgb: sfactor,
            blend_dst_rgb: dfactor,
            blend_src_alpha: sfactor,
            blend_dst_alpha: dfactor,
            ..s
        },
        DriverCall::BlendFuncSeparate { src_rgb, dst_rgb, src_alpha, dst_alpha } => DriverModel {
            blend_src_rgb: src_rgb,
            blend_dst_rgb: dst_rgb,
            blend_src_alpha: src_alpha,
            blend_dst_alpha: dst_alpha,
            ..s
        },
        DriverCall::BlendEquationSeparate { mode_rgb, mode_alpha } => DriverModel {
            blend_eq_rgb: mode_rgb,
            blend_eq_alpha: mode_alpha,
            ..s
        },
        DriverCall::StencilOpSeparate { face, fail, zfail, zpass } => {
            if face == GL_FRONT {
                DriverModel {
                    stencil_front: StencilSideState {
                        fail_op: fail,
                        depth_fail_op: zfail,
                        pass_op: zpass,
                        ..s.stencil_front
                    },
                    ..s
                }
            } else if face == GL_BACK {
                DriverModel {
                    stencil_back: StencilSideState {
                        fail_op: fail,
                        depth_fail_op: zfail,
                        pass_op: zpass,
                        ..s.stencil_back
                    },
                    ..s
                }
            } else {
                s
            }
        },
        DriverCall::StencilFuncSeparate { face, func, reference, mask } => {
            if face == GL_FRONT {
                DriverModel {
                    stencil_front: StencilSideState {
                        func: func,
                        reference: reference,
                        test_mask: mask,
                        ..s.stencil_front
                    },
                    ..s
                }
            } else if face == GL_BACK {
                DriverModel {
                    stencil_back: StencilSideState {
                        func: func,
                        reference: reference,
                        test_mask: mask,
                        ..s.stencil_back
                    },
                    ..s
                }
            } else {
                s
            }
        },
        DriverCall::StencilMaskSeparate { face, mask } => {
            if face == GL_FRONT {
                DriverModel {
                    stencil_front: StencilSideState { write_mask: mask, ..s.stencil_front },
                    ..s
                }
            } else if face == GL_BACK {
                DriverModel {
                    stencil_back: StencilSideState { write_mask: mask, ..s.stencil_back },
                    ..s
                }
            } else {
                s
            }
        },
        DriverCall::VertexAttribPointer { index, size, type_, normalized, stride, offset } => {
            if index < s.attributes.len() {
                DriverModel {
                    attributes: s.attributes.update(
                        index as int,
                        AttrPointerState {
                            size: size,
                            type_: type_,
                            stride: stride,
                            offset: offset,
                            vertex_buffer: s.array_buffer,
                            ..s.attributes[index as int]
                        },
                    ),
                    ..s
                }
            } else {
                s
            }
        },
        DriverCall::VertexAttribDivisor { index, divisor } => {
            if index < s.attributes.len() {
                DriverModel {
                    attributes: s.attributes.update(
                        index as int,
                        AttrPointerState { divisor: divisor, ..s.attributes[index as int] },
                    ),
                    ..s
                }
            } else {
                s
            }
        },
        DriverCall::EnableVertexAttribArray { index } => {
            if index < s.attributes.len() {
                DriverModel {
                    attributes: s.attributes.update(
                        index as int,
                        AttrPointerState { enabled: true, ..s.attributes[index as int] },
                    ),
                    ..s
                }
            } else {
                s
            }
        },
        DriverCall::DisableVertexAttribArray { index } => {
            if index < s.attributes.len() {
                DriverModel {
                    attributes: s.attributes.update(
                        index as int,
                        AttrPointerState { enabled: false, ..s.attributes[index as int] },
                    ),
                    ..s
                }
            } else {
                s
            }
        },
        DriverCall::BindFramebuffer { framebuffer } => DriverModel {
            framebuffer: framebuffer,
            ..s
        },
        _ => s,
    }
}

/// Replay a command stream from a starting driver state.
pub open spec fn driver_run(s: DriverModel, calls: Seq<DriverCall>) -> DriverModel
    decreases calls.len(),
{
    if calls.len() == 0 {
        s
    } else {
        driver_run(driver_step(s, calls[0]), calls.drop_first())
    }
}

/// Replaying a concatenation replays its parts in order.
pub proof fn lemma_driver_run_append(s: DriverModel, a: Seq<DriverCall>, b: Seq<DriverCall>)
    ensures
        driver_run(s, a + b) == driver_run(driver_run(s, a), b),
    decreases a.len(),
{
    if a.len() == 0 {
        assert(a + b =~= b);
    } else {
        assert((a + b).drop_first() =~= a.drop_first() + b);
        lemma_driver_run_append(driver_step(s, a[0]), a.drop_first(), b);
    }
}

/// Replaying one extra command steps the replayed state once.
pub proof fn lemma_driver_run_push(s: DriverModel, a: Seq<DriverCall>, c: DriverCall)
    ensures
        driver_run(s, a.push(c)) == driver_step(driver_run(s, a), c),
{
    assert(a.push(c) =~= a + seq![c]);
    lemma_driver_run_append(s, a, seq![c]);
    let s2 = driver_run(s, a);
    assert(seq![c].drop_first() =~= Seq::<DriverCall>::empty());
    assert(driver_run(s2, seq![c]) == driver_run(driver_step(s2, c), seq![c].drop_first()));
}

/// Replaying a single command steps the state once.
pub proof fn lemma_driver_run_one(s: DriverModel, c: DriverCall)
    ensures
        driver_run(s, seq![c]) == driver_step(s, c),
{
    assert(seq![c].drop_first() =~= Seq::<DriverCall>::empty());
    assert(driver_run(s, seq![c]) == driver_run(driver_step(s, c), seq![c].drop_first()));
}

/// Replaying two commands steps the state twice.
pub proof fn lemma_driver_run_two(s: DriverModel, c0: DriverCall, c1: DriverCall)
    ensures
        driver_run(s, seq![c0, c1]) == driver_step(driver_step(s, c0), c1),
{
    assert(seq![c0, c1] =~= seq![c0] + seq![c1]);
    lemma_driver_run_append(s, seq![c0], seq![c1]);
    lemma_driver_run_one(s, c0);
    lemma_driver_run_one(driver_step(s, c0), c1);
}

/// Replaying three commands steps the state three times.
pub proof fn lemma_driver_run_three(s: DriverModel, c0: DriverCall, c1: DriverCall, c2: DriverCall)
    ensures
        driver_run(s, seq![c0, c1, c2]) == driver_step(
            driver_step(driver_step(s, c0), c1),
            c2,
        ),
{
    assert(seq![c0, c1, c2] =~= seq![c0, c1] + seq![c2]);
    lemma_driver_run_append(s, seq![c0, c1], seq![c2]);
    lemma_driver_run_two(s, c0, c1);
    lemma_driver_run_one(driver_step(driver_step(s, c0), c1), c2);
}

} // verus!
