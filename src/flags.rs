//! Render-state, buffer, clear, debug, reset, texture and capability flags,
//! and the helpers that place a value in one field of the render state.
//!
//! Each flag set is a bit mask; its constants are the masks of single flags
//! or of whole fields.
use vstd::prelude::*;

verus! {

// StateFlags

pub const STATE_RGB_WRITE: u64 = 0x0000000000000001;
pub const STATE_ALPHA_WRITE: u64 = 0x0000000000000002;
pub const STATE_DEPTH_WRITE: u64 = 0x0000000000000004;
pub const STATE_DEPTH_TEST_LESS: u64 = 0x0000000000000010;
pub const STATE_DEPTH_TEST_LEQUAL: u64 = 0x0000000000000020;
pub const STATE_DEPTH_TEST_EQUAL: u64 = 0x0000000000000030;
pub const STATE_DEPTH_TEST_GEQUAL: u64 = 0x0000000000000040;
pub const STATE_DEPTH_TEST_GREATER: u64 = 0x0000000000000050;
pub const STATE_DEPTH_TEST_NOTEQUAL: u64 = 0x0000000000000060;
pub const STATE_DEPTH_TEST_NEVER: u64 = 0x0000000000000070;
pub const STATE_DEPTH_TEST_ALWAYS: u64 = 0x0000000000000080;
pub const STATE_DEPTH_TEST_MASK: u64 = 0x00000000000000f0;
pub const STATE_BLEND_ZERO: u64 = 0x0000000000001000;
pub const STATE_BLEND_ONE: u64 = 0x0000000000002000;
pub const STATE_BLEND_SRC_COLOR: u64 = 0x0000000000003000;
pub const STATE_BLEND_INV_SRC_COLOR: u64 = 0x0000000000004000;
pub const STATE_BLEND_SRC_ALPHA: u64 = 0x0000000000005000;
pub const STATE_BLEND_INV_SRC_ALPHA: u64 = 0x0000000000006000;
pub const STATE_BLEND_DST_ALPHA: u64 = 0x0000000000007000;
pub const STATE_BLEND_INV_DST_ALPHA: u64 = 0x0000000000008000;
pub const STATE_BLEND_DST_COLOR: u64 = 0x0000000000009000;
pub const STATE_BLEND_INV_DST_COLOR: u64 = 0x000000000000a000;
pub const STATE_BLEND_SRC_ALPHA_SAT: u64 = 0x000000000000b000;
pub const STATE_BLEND_FACTOR: u64 = 0x000000000000c000;
pub const STATE_BLEND_INV_FACTOR: u64 = 0x000000000000d000;
pub const STATE_BLEND_MASK: u64 = 0x000000000ffff000;
pub const STATE_BLEND_EQUATION_ADD: u64 = 0x0000000000000000;
pub const STATE_BLEND_EQUATION_SUB: u64 = 0x0000000010000000;
pub const STATE_BLEND_EQUATION_REVSUB: u64 = 0x0000000020000000;
pub const STATE_BLEND_EQUATION_MIN: u64 = 0x0000000030000000;
pub const STATE_BLEND_EQUATION_MAX: u64 = 0x0000000040000000;
pub const STATE_BLEND_EQUATION_MASK: u64 = 0x00000003f0000000;
pub const STATE_BLEND_INDEPENDENT: u64 = 0x0000000400000000;
pub const STATE_CULL_CW: u64 = 0x0000001000000000;
pub const STATE_CULL_CCW: u64 = 0x0000002000000000;
pub const STATE_CULL_MASK: u64 = 0x0000003000000000;
pub const STATE_ALPHA_REF_MASK: u64 = 0x0000ff0000000000;
pub const STATE_PT_TRISTRIP: u64 = 0x0001000000000000;
pub const STATE_PT_LINES: u64 = 0x0002000000000000;
pub const STATE_PT_LINESTRIP: u64 = 0x0003000000000000;
pub const STATE_PT_POINTS: u64 = 0x0004000000000000;
pub const STATE_PT_MASK: u64 = 0x0007000000000000;
pub const STATE_POINT_SIZE_MASK: u64 = 0x0ff0000000000000;
pub const STATE_MSAA: u64 = 0x1000000000000000;
pub const STATE_RESERVED_MASK: u64 = 0xe000000000000000;
pub const STATE_NONE: u64 = 0x0000000000000000;
pub const STATE_MASK: u64 = 0xffffffffffffffff;
pub const STATE_DEFAULT: u64 = STATE_RGB_WRITE | STATE_ALPHA_WRITE | STATE_DEPTH_TEST_LESS | STATE_DEPTH_WRITE | STATE_CULL_CW
    | STATE_MSAA;
pub const STATE_BLEND_ADD: u64 = STATE_BLEND_ONE | (STATE_BLEND_ONE << 4) | (STATE_BLEND_ONE << 8) | (STATE_BLEND_ONE << 12);
pub const STATE_BLEND_ALPHA: u64 = STATE_BLEND_SRC_ALPHA | (STATE_BLEND_INV_SRC_ALPHA << 4) | (STATE_BLEND_SRC_ALPHA << 8) | (STATE_BLEND_INV_SRC_ALPHA << 12);
pub const STATE_BLEND_DARKEN: u64 = STATE_BLEND_ONE | (STATE_BLEND_ONE << 4) | (STATE_BLEND_ONE << 8) | (STATE_BLEND_ONE << 12)
    | STATE_BLEND_EQUATION_MIN | (STATE_BLEND_EQUATION_MIN << 3);
pub const STATE_BLEND_LIGHTEN: u64 = STATE_BLEND_ONE | (STATE_BLEND_ONE << 4) | (STATE_BLEND_ONE << 8) | (STATE_BLEND_ONE << 12)
    | STATE_BLEND_EQUATION_MAX | (STATE_BLEND_EQUATION_MAX << 3);
pub const STATE_BLEND_MULTIPLY: u64 = STATE_BLEND_DST_COLOR | (STATE_BLEND_ZERO << 4) | (STATE_BLEND_DST_COLOR << 8) | (STATE_BLEND_ZERO << 12);
pub const STATE_BLEND_NORMAL: u64 = STATE_BLEND_ONE | (STATE_BLEND_INV_SRC_ALPHA << 4) | (STATE_BLEND_ONE << 8) | (STATE_BLEND_INV_SRC_ALPHA << 12);
pub const STATE_BLEND_SCREEN: u64 = STATE_BLEND_ONE | (STATE_BLEND_INV_SRC_COLOR << 4) | (STATE_BLEND_ONE << 8) | (STATE_BLEND_INV_SRC_COLOR << 12);
pub const STATE_BLEND_LINEAR_BURN: u64 = STATE_BLEND_DST_COLOR | (STATE_BLEND_INV_DST_COLOR << 4) | (STATE_BLEND_DST_COLOR << 8) | (STATE_BLEND_INV_DST_COLOR << 12)
    | STATE_BLEND_EQUATION_SUB | (STATE_BLEND_EQUATION_SUB << 3);

// BufferFlags

pub const BUFFER_NONE: u16 = 0x0000;
pub const BUFFER_COMPUTE_FORMAT_8X1: u16 = 0x0001;
pub const BUFFER_COMPUTE_FORMAT_8X2: u16 = 0x0002;
pub const BUFFER_COMPUTE_FORMAT_8X4: u16 = 0x0003;
pub const BUFFER_COMPUTE_FORMAT_16X1: u16 = 0x0004;
pub const BUFFER_COMPUTE_FORMAT_16X2: u16 = 0x0005;
pub const BUFFER_COMPUTE_FORMAT_16X4: u16 = 0x0006;
pub const BUFFER_COMPUTE_FORMAT_32X1: u16 = 0x0007;
pub const BUFFER_COMPUTE_FORMAT_32X2: u16 = 0x0008;
pub const BUFFER_COMPUTE_FORMAT_32X4: u16 = 0x0009;
pub const BUFFER_COMPUTE_FORMAT_MASK: u16 = 0x000f;
pub const BUFFER_COMPUTE_TYPE_UINT: u16 = 0x0010;
pub const BUFFER_COMPUTE_TYPE_INT: u16 = 0x0020;
pub const BUFFER_COMPUTE_TYPE_FLOAT: u16 = 0x0030;
pub const BUFFER_COMPUTE_TYPE_MASK: u16 = 0x0030;
pub const BUFFER_COMPUTE_READ: u16 = 0x0100;
pub const BUFFER_COMPUTE_WRITE: u16 = 0x0200;
pub const BUFFER_DRAW_INDIRECT: u16 = 0x0400;
pub const BUFFER_ALLOW_RESIZE: u16 = 0x0800;
pub const BUFFER_INDEX32: u16 = 0x1000;
pub const BUFFER_COMPUTE_READ_WRITE: u16 = BUFFER_COMPUTE_READ | BUFFER_COMPUTE_WRITE;

// ClearFlags

pub const CLEAR_NONE: u16 = 0x0000;
pub const CLEAR_COLOR: u16 = 0x0001;
pub const CLEAR_DEPTH: u16 = 0x0002;
pub const CLEAR_STENCIL: u16 = 0x0004;
pub const CLEAR_DISCARD_COLOR_0: u16 = 0x0008;
pub const CLEAR_DISCARD_COLOR_1: u16 = 0x0010;
pub const CLEAR_DISCARD_COLOR_2: u16 = 0x0020;
pub const CLEAR_DISCARD_COLOR_3: u16 = 0x0040;
pub const CLEAR_DISCARD_COLOR_4: u16 = 0x0080;
pub const CLEAR_DISCARD_COLOR_5: u16 = 0x0100;
pub const CLEAR_DISCARD_COLOR_6: u16 = 0x0200;
pub const CLEAR_DISCARD_COLOR_7: u16 = 0x0400;
pub const CLEAR_DISCARD_DEPTH: u16 = 0x0800;
pub const CLEAR_DISCARD_STENCIL: u16 = 0x1000;
pub const CLEAR_DISCARD_COLOR_MASK: u16 = CLEAR_DISCARD_COLOR_0 | CLEAR_DISCARD_COLOR_1 | CLEAR_DISCARD_COLOR_2 | CLEAR_DISCARD_COLOR_3
    | CLEAR_DISCARD_COLOR_4 | CLEAR_DISCARD_COLOR_5 | CLEAR_DISCARD_COLOR_6 | CLEAR_DISCARD_COLOR_7;
pub const CLEAR_DISCARD_MASK: u16 = CLEAR_DISCARD_COLOR_MASK | CLEAR_DISCARD_DEPTH | CLEAR_DISCARD_STENCIL;

// DebugFlags

pub const DEBUG_NONE: u32 = 0x00000000;
pub const DEBUG_WIREFRAME: u32 = 0x00000001;
pub const DEBUG_IFH: u32 = 0x00000002;
pub const DEBUG_STATS: u32 = 0x00000004;
pub const DEBUG_TEXT: u32 = 0x00000008;

// ResetFlags

pub const RESET_NONE: u32 = 0x00000000;
pub const RESET_FULLSCREEN: u32 = 0x00000001;
pub const RESET_FULLSCREEN_SHIFT: u32 = 0;
pub const RESET_FULLSCREEN_MASK: u32 = 0x00000001;
pub const RESET_MSAA_X2: u32 = 0x00000010;
pub const RESET_MSAA_X4: u32 = 0x00000020;
pub const RESET_MSAA_X8: u32 = 0x00000030;
pub const RESET_MSAA_X16: u32 = 0x00000040;
pub const RESET_MSAA_SHIFT: u32 = 4;
pub const RESET_MSAA_MASK: u32 = 0x00000070;
pub const RESET_VSYNC: u32 = 0x00000080;
pub const RESET_MAXANISOTROPY: u32 = 0x00000100;
pub const RESET_CAPTURE: u32 = 0x00000200;
pub const RESET_HMD: u32 = 0x00000400;
pub const RESET_HMD_DEBUG: u32 = 0x00000800;
pub const RESET_HMD_RECENTER: u32 = 0x00001000;
pub const RESET_FLUSH_AFTER_RENDER: u32 = 0x00002000;
pub const RESET_FLIP_AFTER_RENDER: u32 = 0x00004000;
pub const RESET_SRGB_BACKBUFFER: u32 = 0x00008000;
pub const RESET_HIDPI: u32 = 0x00010000;
pub const RESET_DEPTH_CLAMP: u32 = 0x00020000;
pub const RESET_SUSPEND: u32 = 0x00040000;

// TextureFlags

pub const TEXTURE_NONE: u32 = 0x00000000;
pub const TEXTURE_U_MIRROR: u32 = 0x00000001;
pub const TEXTURE_U_CLAMP: u32 = 0x00000002;
pub const TEXTURE_U_BORDER: u32 = 0x00000003;
pub const TEXTURE_U_MASK: u32 = 0x00000003;
pub const TEXTURE_V_MIRROR: u32 = 0x00000004;
pub const TEXTURE_V_CLAMP: u32 = 0x00000008;
pub const TEXTURE_V_BORDER: u32 = 0x0000000c;
pub const TEXTURE_V_MASK: u32 = 0x0000000c;
pub const TEXTURE_W_MIRROR: u32 = 0x00000010;
pub const TEXTURE_W_CLAMP: u32 = 0x00000020;
pub const TEXTURE_W_BORDER: u32 = 0x00000030;
pub const TEXTURE_W_MASK: u32 = 0x00000030;
pub const TEXTURE_MIN_POINT: u32 = 0x00000040;
pub const TEXTURE_MIN_ANISOTROPIC: u32 = 0x00000080;
pub const TEXTURE_MIN_MASK: u32 = 0x000000c0;
pub const TEXTURE_MAG_POINT: u32 = 0x00000100;
pub const TEXTURE_MAG_ANISOTROPIC: u32 = 0x00000200;
pub const TEXTURE_MAG_MASK: u32 = 0x00000300;
pub const TEXTURE_MIP_POINT: u32 = 0x00000400;
pub const TEXTURE_MIP_MASK: u32 = 0x00000400;
pub const TEXTURE_MSAA_SAMPLE: u32 = 0x00000800;
pub const TEXTURE_RT: u32 = 0x00001000;
pub const TEXTURE_RT_MSAA_X2: u32 = 0x00002000;
pub const TEXTURE_RT_MSAA_X4: u32 = 0x00003000;
pub const TEXTURE_RT_MSAA_X8: u32 = 0x00004000;
pub const TEXTURE_RT_MSAA_X16: u32 = 0x00005000;
pub const TEXTURE_RT_MSAA_MASK: u32 = 0x00007000;
pub const TEXTURE_RT_WRITE_ONLY: u32 = 0x00008000;
pub const TEXTURE_RT_MASK: u32 = 0x0000f000;
pub const TEXTURE_COMPARE_LESS: u32 = 0x00010000;
pub const TEXTURE_COMPARE_LEQUAL: u32 = 0x00020000;
pub const TEXTURE_COMPARE_EQUAL: u32 = 0x00030000;
pub const TEXTURE_COMPARE_GEQUAL: u32 = 0x00040000;
pub const TEXTURE_COMPARE_GREATER: u32 = 0x00050000;
pub const TEXTURE_COMPARE_NOTEQUAL: u32 = 0x00060000;
pub const TEXTURE_COMPARE_NEVER: u32 = 0x00070000;
pub const TEXTURE_COMPARE_ALWAYS: u32 = 0x00080000;
pub const TEXTURE_COMPARE_MASK: u32 = 0x000f0000;
pub const TEXTURE_COMPUTE_WRITE: u32 = 0x00100000;
pub const TEXTURE_SRGB: u32 = 0x00200000;
pub const TEXTURE_BLIT_DST: u32 = 0x00400000;
pub const TEXTURE_READ_BACK: u32 = 0x00800000;
pub const TEXTURE_BORDER_COLOR_MASK: u32 = 0x0f000000;
pub const TEXTURE_RESERVED_MASK: u32 = 0xf0000000;
pub const TEXTURE_SAMPLER_BITS_MASK: u32 = TEXTURE_U_MASK | TEXTURE_V_MASK | TEXTURE_W_MASK | TEXTURE_MIN_MASK | TEXTURE_MAG_MASK
    | TEXTURE_MIP_MASK | TEXTURE_COMPARE_MASK;

// CapsFlags

pub const CAPS_NONE: u64 = 0;
pub const CAPS_ALPHA_TO_COVERAGE: u64 = 0x0000000000000001;
pub const CAPS_BLEND_INDEPENDENT: u64 = 0x0000000000000002;
pub const CAPS_COMPUTE: u64 = 0x0000000000000004;
pub const CAPS_CONSERVATIVE_RASTER: u64 = 0x0000000000000008;
pub const CAPS_DRAW_INDIRECT: u64 = 0x0000000000000010;
pub const CAPS_FRAGMENT_DEPTH: u64 = 0x0000000000000020;
pub const CAPS_FRAGMENT_ORDERING: u64 = 0x0000000000000040;
pub const CAPS_GRAPHICS_DEBUGGER: u64 = 0x0000000000000080;
pub const CAPS_HIDPI: u64 = 0x0000000000000100;
pub const CAPS_HMD: u64 = 0x0000000000000200;
pub const CAPS_INDEX32: u64 = 0x0000000000000400;
pub const CAPS_INSTANCING: u64 = 0x0000000000000800;
pub const CAPS_OCCLUSION_QUERY: u64 = 0x0000000000001000;
pub const CAPS_RENDERER_MULTITHREADED: u64 = 0x0000000000002000;
pub const CAPS_SWAP_CHAIN: u64 = 0x0000000000004000;
pub const CAPS_TEXTURE_2D_ARRAY: u64 = 0x0000000000008000;
pub const CAPS_TEXTURE_3D: u64 = 0x0000000000010000;
pub const CAPS_TEXTURE_BLIT: u64 = 0x0000000000020000;
pub const CAPS_TEXTURE_COMPARE_ALL: u64 = 0x00000000000c0000;
pub const CAPS_TEXTURE_COMPARE_LEQUAL: u64 = 0x0000000000080000;
pub const CAPS_TEXTURE_CUBE_ARRAY: u64 = 0x0000000000100000;
pub const CAPS_TEXTURE_READ_BACK: u64 = 0x0000000000200000;
pub const CAPS_VERTEX_ATTRIB_HALF: u64 = 0x0000000000400000;
pub const CAPS_VERTEX_ATTRIB_UINT10: u64 = 0x0000000000800000;

// TextureCapsFlags

pub const CAPS_FORMAT_TEXTURE_NONE: u16 = 0x0000;
pub const CAPS_FORMAT_TEXTURE_2D: u16 = 0x0001;
pub const CAPS_FORMAT_TEXTURE_2D_SRGB: u16 = 0x0002;
pub const CAPS_FORMAT_TEXTURE_2D_EMULATED: u16 = 0x0004;
pub const CAPS_FORMAT_TEXTURE_3D: u16 = 0x0008;
pub const CAPS_FORMAT_TEXTURE_3D_SRGB: u16 = 0x0010;
pub const CAPS_FORMAT_TEXTURE_3D_EMULATED: u16 = 0x0020;
pub const CAPS_FORMAT_TEXTURE_CUBE: u16 = 0x0040;
pub const CAPS_FORMAT_TEXTURE_CUBE_SRGB: u16 = 0x0080;
pub const CAPS_FORMAT_TEXTURE_CUBE_EMULATED: u16 = 0x0100;
pub const CAPS_FORMAT_TEXTURE_VERTEX: u16 = 0x0200;
pub const CAPS_FORMAT_TEXTURE_IMAGE: u16 = 0x0400;
pub const CAPS_FORMAT_TEXTURE_FRAMEBUFFER: u16 = 0x0800;
pub const CAPS_FORMAT_TEXTURE_FRAMEBUFFER_MSAA: u16 = 0x1000;
pub const CAPS_FORMAT_TEXTURE_MSAA: u16 = 0x2000;
pub const CAPS_FORMAT_TEXTURE_MIP_AUTOGEN: u16 = 0x4000;

// Field positions

pub const STATE_DEPTH_TEST_SHIFT: u64 = 4;
pub const STATE_BLEND_SHIFT: u64 = 12;
pub const STATE_BLEND_EQUATION_SHIFT: u64 = 28;
pub const STATE_CULL_SHIFT: u64 = 36;
pub const STATE_ALPHA_REF_SHIFT: u64 = 40;
pub const STATE_PT_SHIFT: u64 = 48;
pub const STATE_POINT_SIZE_SHIFT: u64 = 52;
pub const BUFFER_COMPUTE_FORMAT_SHIFT: u16 = 0;
pub const BUFFER_COMPUTE_TYPE_SHIFT: u16 = 4;
pub const TEXTURE_BORDER_COLOR_SHIFT: u32 = 24;

/// Every bit that some flag of `StateFlags` names.
pub const STATE_FLAGS_ALL: u64 = 0xffff_ffff_ffff_ffff;

/// Render state: write masks, depth test, blending, culling, primitive type.
#[derive(Clone, Copy, PartialEq, Eq, Debug, Structural)]
pub struct StateFlags {
    pub bits: u64,
}

impl StateFlags {
    pub fn bits(&self) -> (r: u64)
        ensures
            r == self.bits,
    {
        self.bits
    }

    /// The flags with the given bits, or `None` when a bit names no flag.
    pub fn from_bits(bits: u64) -> (r: Option<StateFlags>)
        ensures
            r == (if bits & !STATE_FLAGS_ALL == 0 { Some(StateFlags { bits }) } else { None }),
    {
        if bits & !STATE_FLAGS_ALL == 0 {
            Some(StateFlags { bits })
        } else {
            None
        }
    }

    /// The flags set in either operand.
    pub fn union(self, other: StateFlags) -> (r: StateFlags)
        ensures
            r.bits == self.bits | other.bits,
    {
        StateFlags { bits: self.bits | other.bits }
    }

    /// Whether every flag of `other` is set here.
    pub fn contains(&self, other: StateFlags) -> (r: bool)
        ensures
            r == (self.bits & other.bits == other.bits),
    {
        self.bits & other.bits == other.bits
    }
}

impl Default for StateFlags {
    fn default() -> (r: StateFlags)
        ensures
            r.bits == STATE_DEFAULT,
    {
        StateFlags { bits: STATE_DEFAULT }
    }
}

/// Every bit that some flag of `BufferFlags` names.
pub const BUFFER_FLAGS_ALL: u16 = 0x1f3f;

/// Buffer creation options.
#[derive(Clone, Copy, PartialEq, Eq, Debug, Structural)]
pub struct BufferFlags {
    pub bits: u16,
}

impl BufferFlags {
    pub fn bits(&self) -> (r: u16)
        ensures
            r == self.bits,
    {
        self.bits
    }

    /// The flags with the given bits, or `None` when a bit names no flag.
    pub fn from_bits(bits: u16) -> (r: Option<BufferFlags>)
        ensures
            r == (if bits & !BUFFER_FLAGS_ALL == 0 { Some(BufferFlags { bits }) } else { None }),
    {
        if bits & !BUFFER_FLAGS_ALL == 0 {
            Some(BufferFlags { bits })
        } else {
            None
        }
    }

    /// The flags set in either operand.
    pub fn union(self, other: BufferFlags) -> (r: BufferFlags)
        ensures
            r.bits == self.bits | other.bits,
    {
        BufferFlags { bits: self.bits | other.bits }
    }

    /// Whether every flag of `other` is set here.
    pub fn contains(&self, other: BufferFlags) -> (r: bool)
        ensures
            r == (self.bits & other.bits == other.bits),
    {
        self.bits & other.bits == other.bits
    }
}

impl Default for BufferFlags {
    fn default() -> (r: BufferFlags)
        ensures
            r.bits == BUFFER_NONE,
    {
        BufferFlags { bits: BUFFER_NONE }
    }
}

/// Every bit that some flag of `ClearFlags` names.
pub const CLEAR_FLAGS_ALL: u16 = 0x1fff;

/// What a view clears.
#[derive(Clone, Copy, PartialEq, Eq, Debug, Structural)]
pub struct ClearFlags {
    pub bits: u16,
}

impl ClearFlags {
    pub fn bits(&self) -> (r: u16)
        ensures
            r == self.bits,
    {
        self.bits
    }

    /// The flags with the given bits, or `None` when a bit names no flag.
    pub fn from_bits(bits: u16) -> (r: Option<ClearFlags>)
        ensures
            r == (if bits & !CLEAR_FLAGS_ALL == 0 { Some(ClearFlags { bits }) } else { None }),
    {
        if bits & !CLEAR_FLAGS_ALL == 0 {
            Some(ClearFlags { bits })
        } else {
            None
        }
    }

    /// The flags set in either operand.
    pub fn union(self, other: ClearFlags) -> (r: ClearFlags)
        ensures
            r.bits == self.bits | other.bits,
    {
        ClearFlags { bits: self.bits | other.bits }
    }

    /// Whether every flag of `other` is set here.
    pub fn contains(&self, other: ClearFlags) -> (r: bool)
        ensures
            r == (self.bits & other.bits == other.bits),
    {
        self.bits & other.bits == other.bits
    }
}

impl Default for ClearFlags {
    fn default() -> (r: ClearFlags)
        ensures
            r.bits == CLEAR_NONE,
    {
        ClearFlags { bits: CLEAR_NONE }
    }
}

/// Every bit that some flag of `DebugFlags` names.
pub const DEBUG_FLAGS_ALL: u32 = 0xf;

/// Debug overlays.
#[derive(Clone, Copy, PartialEq, Eq, Debug, Structural)]
pub struct DebugFlags {
    pub bits: u32,
}

impl DebugFlags {
    pub fn bits(&self) -> (r: u32)
        ensures
            r == self.bits,
    {
        self.bits
    }

    /// The flags with the given bits, or `None` when a bit names no flag.
    pub fn from_bits(bits: u32) -> (r: Option<DebugFlags>)
        ensures
            r == (if bits & !DEBUG_FLAGS_ALL == 0 { Some(DebugFlags { bits }) } else { None }),
    {
        if bits & !DEBUG_FLAGS_ALL == 0 {
            Some(DebugFlags { bits })
        } else {
            None
        }
    }

    /// The flags set in either operand.
    pub fn union(self, other: DebugFlags) -> (r: DebugFlags)
        ensures
            r.bits == self.bits | other.bits,
    {
        DebugFlags { bits: self.bits | other.bits }
    }

    /// Whether every flag of `other` is set here.
    pub fn contains(&self, other: DebugFlags) -> (r: bool)
        ensures
            r == (self.bits & other.bits == other.bits),
    {
        self.bits & other.bits == other.bits
    }
}

impl Default for DebugFlags {
    fn default() -> (r: DebugFlags)
        ensures
            r.bits == DEBUG_NONE,
    {
        DebugFlags { bits: DEBUG_NONE }
    }
}

/// Every bit that some flag of `ResetFlags` names.
pub const RESET_FLAGS_ALL: u32 = 0x0007_fff5;

/// Back-buffer reset options.
#[derive(Clone, Copy, PartialEq, Eq, Debug, Structural)]
pub struct ResetFlags {
    pub bits: u32,
}

impl ResetFlags {
    pub fn bits(&self) -> (r: u32)
        ensures
            r == self.bits,
    {
        self.bits
    }

    /// The flags with the given bits, or `None` when a bit names no flag.
    pub fn from_bits(bits: u32) -> (r: Option<ResetFlags>)
        ensures
            r == (if bits & !RESET_FLAGS_ALL == 0 { Some(ResetFlags { bits }) } else { None }),
    {
        if bits & !RESET_FLAGS_ALL == 0 {
            Some(ResetFlags { bits })
        } else {
            None
        }
    }

    /// The flags set in either operand.
    pub fn union(self, other: ResetFlags) -> (r: ResetFlags)
        ensures
            r.bits == self.bits | other.bits,
    {
        ResetFlags { bits: self.bits | other.bits }
    }

    /// Whether every flag of `other` is set here.
    pub fn contains(&self, other: ResetFlags) -> (r: bool)
        ensures
            r == (self.bits & other.bits == other.bits),
    {
        self.bits & other.bits == other.bits
    }
}

impl Default for ResetFlags {
    fn default() -> (r: ResetFlags)
        ensures
            r.bits == RESET_NONE,
    {
        ResetFlags { bits: RESET_NONE }
    }
}

/// Every bit that some flag of `TextureFlags` names.
pub const TEXTURE_FLAGS_ALL: u32 = 0xffff_ffff;

/// Texture sampling and creation options.
#[derive(Clone, Copy, PartialEq, Eq, Debug, Structural)]
pub struct TextureFlags {
    pub bits: u32,
}

impl TextureFlags {
    pub fn bits(&self) -> (r: u32)
        ensures
            r == self.bits,
    {
        self.bits
    }

    /// The flags with the given bits, or `None` when a bit names no flag.
    pub fn from_bits(bits: u32) -> (r: Option<TextureFlags>)
        ensures
            r == (if bits & !TEXTURE_FLAGS_ALL == 0 { Some(TextureFlags { bits }) } else { None }),
    {
        if bits & !TEXTURE_FLAGS_ALL == 0 {
            Some(TextureFlags { bits })
        } else {
            None
        }
    }

    /// The flags set in either operand.
    pub fn union(self, other: TextureFlags) -> (r: TextureFlags)
        ensures
            r.bits == self.bits | other.bits,
    {
        TextureFlags { bits: self.bits | other.bits }
    }

    /// Whether every flag of `other` is set here.
    pub fn contains(&self, other: TextureFlags) -> (r: bool)
        ensures
            r == (self.bits & other.bits == other.bits),
    {
        self.bits & other.bits == other.bits
    }
}

impl Default for TextureFlags {
    fn default() -> (r: TextureFlags)
        ensures
            r.bits == TEXTURE_NONE,
    {
        TextureFlags { bits: TEXTURE_NONE }
    }
}

/// Every bit that some flag of `CapsFlags` names.
pub const CAPS_FLAGS_ALL: u64 = 0x00ff_ffff;

/// Renderer capabilities.
#[derive(Clone, Copy, PartialEq, Eq, Debug, Structural)]
pub struct CapsFlags {
    pub bits: u64,
}

impl CapsFlags {
    pub fn bits(&self) -> (r: u64)
        ensures
            r == self.bits,
    {
        self.bits
    }

    /// The flags with the given bits, or `None` when a bit names no flag.
    pub fn from_bits(bits: u64) -> (r: Option<CapsFlags>)
        ensures
            r == (if bits & !CAPS_FLAGS_ALL == 0 { Some(CapsFlags { bits }) } else { None }),
    {
        if bits & !CAPS_FLAGS_ALL == 0 {
            Some(CapsFlags { bits })
        } else {
            None
        }
    }

    /// The flags set in either operand.
    pub fn union(self, other: CapsFlags) -> (r: CapsFlags)
        ensures
            r.bits == self.bits | other.bits,
    {
        CapsFlags { bits: self.bits | other.bits }
    }

    /// Whether every flag of `other` is set here.
    pub fn contains(&self, other: CapsFlags) -> (r: bool)
        ensures
            r == (self.bits & other.bits == other.bits),
    {
        self.bits & other.bits == other.bits
    }
}

impl Default for CapsFlags {
    fn default() -> (r: CapsFlags)
        ensures
            r.bits == CAPS_NONE,
    {
        CapsFlags { bits: CAPS_NONE }
    }
}

/// Every bit that some flag of `TextureCapsFlags` names.
pub const TEXTURE_CAPS_FLAGS_ALL: u16 = 0x7fff;

/// Capabilities of one texture format.
#[derive(Clone, Copy, PartialEq, Eq, Debug, Structural)]
pub struct TextureCapsFlags {
    pub bits: u16,
}

impl TextureCapsFlags {
    pub fn bits(&self) -> (r: u16)
        ensures
            r == self.bits,
    {
        self.bits
    }

    /// The flags with the given bits, or `None` when a bit names no flag.
    pub fn from_bits(bits: u16) -> (r: Option<TextureCapsFlags>)
        ensures
            r == (if bits & !TEXTURE_CAPS_FLAGS_ALL == 0 { Some(TextureCapsFlags { bits }) } else { None }),
    {
        if bits & !TEXTURE_CAPS_FLAGS_ALL == 0 {
            Some(TextureCapsFlags { bits })
        } else {
            None
        }
    }

    /// The flags set in either operand.
    pub fn union(self, other: TextureCapsFlags) -> (r: TextureCapsFlags)
        ensures
            r.bits == self.bits | other.bits,
    {
        TextureCapsFlags { bits: self.bits | other.bits }
    }

    /// Whether every flag of `other` is set here.
    pub fn contains(&self, other: TextureCapsFlags) -> (r: bool)
        ensures
            r == (self.bits & other.bits == other.bits),
    {
        self.bits & other.bits == other.bits
    }
}

impl Default for TextureCapsFlags {
    fn default() -> (r: TextureCapsFlags)
        ensures
            r.bits == CAPS_FORMAT_TEXTURE_NONE,
    {
        TextureCapsFlags { bits: CAPS_FORMAT_TEXTURE_NONE }
    }
}

/// Alpha reference value, placed in the alpha-reference field of the render state.
pub fn state_alpha_ref(aref: u8) -> (r: StateFlags)
    ensures
        r.bits == aref * 0x100_0000_0000,
        r.bits & !STATE_ALPHA_REF_MASK == 0,
{
    let bits = ((aref as u64) << STATE_ALPHA_REF_SHIFT) & STATE_ALPHA_REF_MASK;
    proof {
        let a = aref as u64;
        assert((a << 40u64) & 0x0000_ff00_0000_0000u64 == a * 0x100_0000_0000u64
            && ((a << 40u64) & 0x0000_ff00_0000_0000u64) & !0x0000_ff00_0000_0000u64 == 0) by (bit_vector)
            requires
                a < 256,
        ;
    }
    StateFlags { bits }
}

/// Point size, placed in the point-size field of the render state.
pub fn state_point_size(size: u8) -> (r: StateFlags)
    ensures
        r.bits == size * 0x10_0000_0000_0000,
        r.bits & !STATE_POINT_SIZE_MASK == 0,
{
    let bits = ((size as u64) << STATE_POINT_SIZE_SHIFT) & STATE_POINT_SIZE_MASK;
    proof {
        let a = size as u64;
        assert((a << 52u64) & 0x0ff0_0000_0000_0000u64 == a * 0x10_0000_0000_0000u64
            && ((a << 52u64) & 0x0ff0_0000_0000_0000u64) & !0x0ff0_0000_0000_0000u64 == 0) by (bit_vector)
            requires
                a < 256,
        ;
    }
    StateFlags { bits }
}

/// The blend-function bits for separate colour and alpha factors.
pub open spec fn blend_func_bits(srcrgb: u64, dstrgb: u64, srca: u64, dsta: u64) -> u64 {
    srcrgb | (dstrgb << 4u64) | (srca << 8u64) | (dsta << 12u64)
}

/// The blend-equation bits for separate colour and alpha equations.
pub open spec fn blend_equation_bits(rgb: u64, a: u64) -> u64 {
    rgb | (a << 3u64)
}

/// The per-render-target blend bits of one target: source and destination factor.
pub open spec fn blend_rt_bits(src: u32, dst: u32) -> u32 {
    (src >> 12u32) | ((dst >> 12u32) << 4u32)
}

/// The per-render-target blend bits of one target, with an equation.
pub open spec fn blend_rt_eq_bits(src: u32, dst: u32, equation: u64) -> u32 {
    blend_rt_bits(src, dst) | (((equation >> 28u64) as u32) << 8u32)
}

/// Blend factors for colour and alpha separately.
pub fn state_blend_func_separate(srcrgb: u32, dstrgb: u32, srca: u8, dsta: u8) -> (r: StateFlags)
    ensures
        r.bits == blend_func_bits(srcrgb as u64, dstrgb as u64, srca as u64, dsta as u64),
{
    StateFlags { bits: (srcrgb as u64) | ((dstrgb as u64) << 4u64) | ((srca as u64) << 8u64) | ((dsta as u64) << 12u64) }
}

/// Blend equations for colour and alpha separately.
pub fn state_blend_equation_separate(rgb: u32, a: u8) -> (r: StateFlags)
    ensures
        r.bits == blend_equation_bits(rgb as u64, a as u64),
{
    StateFlags { bits: (rgb as u64) | ((a as u64) << 3u64) }
}

/// One pair of blend factors for colour and alpha alike.
pub fn state_blend_func(src: u32, dst: u32) -> (r: StateFlags)
    ensures
        r.bits == blend_func_bits(src as u64, dst as u64, src as u64, dst as u64),
{
    StateFlags { bits: (src as u64) | ((dst as u64) << 4u64) | ((src as u64) << 8u64) | ((dst as u64) << 12u64) }
}

/// One blend equation for colour and alpha alike.
pub fn state_blend_equation(equation: u32) -> (r: StateFlags)
    ensures
        r.bits == blend_equation_bits(equation as u64, equation as u64),
{
    StateFlags { bits: (equation as u64) | ((equation as u64) << 3u64) }
}

fn blend_rt(src: u32, dst: u32) -> (r: u32)
    ensures
        r == blend_rt_bits(src, dst),
{
    (src >> 12u32) | ((dst >> 12u32) << 4u32)
}

fn blend_rt_eq(src: u32, dst: u32, equation: u64) -> (r: u32)
    ensures
        r == blend_rt_eq_bits(src, dst, equation),
{
    blend_rt(src, dst) | (((equation >> 28u64) as u32) << 8u32)
}

/// Blend factors of one render target.
pub fn state_blend_func_rt_x(src: u32, dst: u32) -> (r: StateFlags)
    ensures
        r.bits == blend_rt_bits(src, dst) as u64,
{
    StateFlags { bits: blend_rt(src, dst) as u64 }
}

/// Blend factors and equation of one render target.
pub fn state_blend_func_rt_xe(src: u32, dst: u32, equation: u64) -> (r: StateFlags)
    ensures
        r.bits == blend_rt_eq_bits(src, dst, equation) as u64,
{
    StateFlags { bits: blend_rt_eq(src, dst, equation) as u64 }
}

/// Blend factors of the first extra render target.
pub fn state_blend_func_rt_1(src: u32, dst: u32) -> (r: StateFlags)
    ensures
        r.bits == blend_rt_bits(src, dst) as u64,
{
    StateFlags { bits: blend_rt(src, dst) as u64 }
}

/// Blend factors of the second extra render target.
pub fn state_blend_func_rt_2(src: u32, dst: u32) -> (r: StateFlags)
    ensures
        r.bits == (blend_rt_bits(src, dst) << 11u32) as u64,
{
    StateFlags { bits: (blend_rt(src, dst) << 11u32) as u64 }
}

/// Blend factors of the third extra render target.
pub fn state_blend_func_rt_3(src: u32, dst: u32) -> (r: StateFlags)
    ensures
        r.bits == (blend_rt_bits(src, dst) << 22u32) as u64,
{
    StateFlags { bits: (blend_rt(src, dst) << 22u32) as u64 }
}

/// Blend factors and equation of the first extra render target.
pub fn state_blend_func_rt_1e(src: u32, dst: u32, equation: u64) -> (r: StateFlags)
    ensures
        r.bits == blend_rt_eq_bits(src, dst, equation) as u64,
{
    StateFlags { bits: blend_rt_eq(src, dst, equation) as u64 }
}

/// Blend factors and equation of the second extra render target.
pub fn state_blend_func_rt_2e(src: u32, dst: u32, equation: u64) -> (r: StateFlags)
    ensures
        r.bits == (blend_rt_eq_bits(src, dst, equation) << 11u32) as u64,
{
    StateFlags { bits: (blend_rt_eq(src, dst, equation) << 11u32) as u64 }
}

/// Blend factors and equation of the third extra render target.
pub fn state_blend_func_rt_3e(src: u32, dst: u32, equation: u64) -> (r: StateFlags)
    ensures
        r.bits == (blend_rt_eq_bits(src, dst, equation) << 22u32) as u64,
{
    StateFlags { bits: (blend_rt_eq(src, dst, equation) << 22u32) as u64 }
}

/// Border colour index, placed in the border-colour field of the texture flags.
pub fn texture_border_color(color: u32) -> (r: TextureFlags)
    ensures
        r.bits == (color % 16) * 0x100_0000,
        r.bits & !TEXTURE_BORDER_COLOR_MASK == 0,
{
    let bits = (color << TEXTURE_BORDER_COLOR_SHIFT) & TEXTURE_BORDER_COLOR_MASK;
    proof {
        assert((color << 24u32) & 0x0f00_0000u32 == (color % 16) * 0x100_0000u32
            && ((color << 24u32) & 0x0f00_0000u32) & !0x0f00_0000u32 == 0) by (bit_vector);
    }
    TextureFlags { bits }
}

} // verus!
