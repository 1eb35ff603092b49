//! Verified logic of a real-time rendering binding: render-state flag
//! encoding, renderer enumerations and descriptors, vertex layouts, and the
//! integer core of an isosurface mesher (cell case analysis, triangulation
//! order and the budgeted walk over a lattice).
pub mod cube;
pub mod flags;
pub mod mesh;
pub mod renderer;
pub mod tables;
pub mod vertex;

pub use flags::{
    state_alpha_ref, state_blend_equation, state_blend_equation_separate, state_blend_func,
    state_blend_func_rt_1, state_blend_func_rt_1e, state_blend_func_rt_2, state_blend_func_rt_2e,
    state_blend_func_rt_3, state_blend_func_rt_3e, state_blend_func_rt_x, state_blend_func_rt_xe,
    state_blend_func_separate, state_point_size, texture_border_color, BufferFlags, CapsFlags,
    ClearFlags, DebugFlags, ResetFlags, StateFlags, TextureCapsFlags, TextureFlags,
};
pub use renderer::{
    init_outcome, init_params, Attrib, AttribType, Bgfx, BgfxError, Caps, CapsGpu, CapsLimits,
    PlatformData, RenderFrame, RendererType, TextureFormat, TextureInfo, UniformType, VendorId,
};
pub use vertex::{DeclEntry, VertexDecl, VertexDeclBuilder};
