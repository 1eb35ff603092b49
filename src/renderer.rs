//! Renderer enumerations, descriptors and the platform data handed to the
//! renderer at start-up.
use vstd::prelude::*;
use crate::flags::{CapsFlags, TextureCapsFlags};

verus! {

/// PCI vendor id of a graphics adapter.
#[allow(non_camel_case_types)]
#[derive(PartialEq, Eq, Debug, Copy, Clone, Structural)]
pub enum VendorId {
    /// Autoselect adapter.
    Autoselect,
    /// Software rasterizer.
    SoftwareRasterizer,
    /// AMD adapter.
    AMD,
    /// Intel adapter.
    Intel,
    /// nVidia adapter.
    nVidia,
    /// Microsoft DirectX Basic Render Driver.
    MSBasicRender,
}

impl VendorId {
    pub open spec fn spec_pci_id(self) -> u16 {
        match self {
            VendorId::Autoselect => 0x0000,
            VendorId::SoftwareRasterizer => 0x0001,
            VendorId::AMD => 0x1002,
            VendorId::Intel => 0x8086,
            VendorId::nVidia => 0x10de,
            VendorId::MSBasicRender => 0x1414,
        }
    }

    /// The PCI id that stands for this vendor.
    pub fn pci_id(self) -> (r: u16)
        ensures
            r == self.spec_pci_id(),
    {
        match self {
            VendorId::Autoselect => 0x0000,
            VendorId::SoftwareRasterizer => 0x0001,
            VendorId::AMD => 0x1002,
            VendorId::Intel => 0x8086,
            VendorId::nVidia => 0x10de,
            VendorId::MSBasicRender => 0x1414,
        }
    }

    /// The vendor with the given PCI id, if it is one of the known ones.
    pub fn from_pci_id(id: u16) -> (r: Option<VendorId>)
        ensures
            r matches Some(v) ==> v.spec_pci_id() == id,
            r is None ==> forall|v: VendorId| v.spec_pci_id() != id,
    {
        match id {
            0x0000 => Some(VendorId::Autoselect),
            0x0001 => Some(VendorId::SoftwareRasterizer),
            0x1002 => Some(VendorId::AMD),
            0x8086 => Some(VendorId::Intel),
            0x10de => Some(VendorId::nVidia),
            0x1414 => Some(VendorId::MSBasicRender),
            _ => None,
        }
    }
}

impl Default for VendorId {
    fn default() -> (r: VendorId)
        ensures
            r == VendorId::Autoselect,
    {
        VendorId::Autoselect
    }
}

/// Renderer backend type.
#[derive(PartialEq, Eq, Debug, Copy, Clone, Structural)]
pub enum RendererType {
    /// No rendering.
    Null,
    /// Direct3D 9.0.
    Direct3D9,
    /// Direct3D 11.0.
    Direct3D11,
    /// Direct3D 12.0.
    Direct3D12,
    /// Metal.
    Metal,
    /// OpenGLES.
    OpenGLES,
    /// OpenGL.
    OpenGL,
    /// Vulkan.
    Vulkan,
    /// Use the most platform appropriate renderer.
    Default,
}

impl RendererType {
    /// The renderer's numeric code; `Default` takes the code after the last backend.
    pub open spec fn spec_code(self) -> i32 {
        match self {
            RendererType::Null => 0,
            RendererType::Direct3D9 => 1,
            RendererType::Direct3D11 => 2,
            RendererType::Direct3D12 => 3,
            RendererType::Metal => 4,
            RendererType::OpenGLES => 5,
            RendererType::OpenGL => 6,
            RendererType::Vulkan => 7,
            RendererType::Default => 8,
        }
    }

    pub fn code(self) -> (r: i32)
        ensures
            r == self.spec_code(),
    {
        match self {
            RendererType::Null => 0,
            RendererType::Direct3D9 => 1,
            RendererType::Direct3D11 => 2,
            RendererType::Direct3D12 => 3,
            RendererType::Metal => 4,
            RendererType::OpenGLES => 5,
            RendererType::OpenGL => 6,
            RendererType::Vulkan => 7,
            RendererType::Default => 8,
        }
    }

    /// The renderer with the given code; `None` outside `0..=8`.
    pub fn from_i32(n: i32) -> (r: Option<RendererType>)
        ensures
            r is Some <==> 0 <= n <= 8,
            r matches Some(t) ==> t.spec_code() == n,
    {
        match n {
            0 => Some(RendererType::Null),
            1 => Some(RendererType::Direct3D9),
            2 => Some(RendererType::Direct3D11),
            3 => Some(RendererType::Direct3D12),
            4 => Some(RendererType::Metal),
            5 => Some(RendererType::OpenGLES),
            6 => Some(RendererType::OpenGL),
            7 => Some(RendererType::Vulkan),
            8 => Some(RendererType::Default),
            _ => None,
        }
    }
}

impl Default for RendererType {
    fn default() -> (r: RendererType)
        ensures
            r == RendererType::Default,
    {
        RendererType::Default
    }
}

/// Texture formats; `Count` is one past the last format.
#[derive(PartialEq, Eq, Debug, Copy, Clone, Structural)]
pub enum TextureFormat {
    BC1,
    BC2,
    BC3,
    BC4,
    BC5,
    BC6H,
    BC7,
    ETC1,
    ETC2,
    ETC2A,
    ETC2A1,
    PTC12,
    PTC14,
    PTC12A,
    PTC14A,
    PTC22,
    PTC24,
    Unknown,
    R1,
    A8,
    R8,
    R8I,
    R8U,
    R8S,
    R16,
    R16I,
    R16U,
    R16F,
    R16S,
    R32I,
    R32U,
    R32F,
    RG8,
    RG8I,
    RG8U,
    RG8S,
    RG16,
    RG16I,
    RG16U,
    RG16F,
    RG16S,
    RG32I,
    RG32U,
    RG32F,
    RGB8,
    RGB8I,
    RGB8U,
    RGB8S,
    RGB9E5F,
    BGRA8,
    RGBA8,
    RGBA8I,
    RGBA8U,
    RGBA8S,
    RGBA16,
    RGBA16I,
    RGBA16U,
    RGBA16F,
    RGBA16S,
    RGBA32I,
    RGBA32U,
    RGBA32F,
    R5G6B5,
    RGBA4,
    RGB5A1,
    RGB10A2,
    R11G11B10F,
    UnknownDepth,
    D16,
    D24,
    D24S8,
    D32,
    D16F,
    D24F,
    D32F,
    D0S8,
    Count,
}

impl TextureFormat {
    /// The format's numeric code: its position in the list above.
    pub open spec fn spec_code(self) -> i32 {
        match self {
            TextureFormat::BC1 => 0,
            TextureFormat::BC2 => 1,
            TextureFormat::BC3 => 2,
            TextureFormat::BC4 => 3,
            TextureFormat::BC5 => 4,
            TextureFormat::BC6H => 5,
            TextureFormat::BC7 => 6,
            TextureFormat::ETC1 => 7,
            TextureFormat::ETC2 => 8,
            TextureFormat::ETC2A => 9,
            TextureFormat::ETC2A1 => 10,
            TextureFormat::PTC12 => 11,
            TextureFormat::PTC14 => 12,
            TextureFormat::PTC12A => 13,
            TextureFormat::PTC14A => 14,
            TextureFormat::PTC22 => 15,
            TextureFormat::PTC24 => 16,
            TextureFormat::Unknown => 17,
            TextureFormat::R1 => 18,
            TextureFormat::A8 => 19,
            TextureFormat::R8 => 20,
            TextureFormat::R8I => 21,
            TextureFormat::R8U => 22,
            TextureFormat::R8S => 23,
            TextureFormat::R16 => 24,
            TextureFormat::R16I => 25,
            TextureFormat::R16U => 26,
            TextureFormat::R16F => 27,
            TextureFormat::R16S => 28,
            TextureFormat::R32I => 29,
            TextureFormat::R32U => 30,
            TextureFormat::R32F => 31,
            TextureFormat::RG8 => 32,
            TextureFormat::RG8I => 33,
            TextureFormat::RG8U => 34,
            TextureFormat::RG8S => 35,
            TextureFormat::RG16 => 36,
            TextureFormat::RG16I => 37,
            TextureFormat::RG16U => 38,
            TextureFormat::RG16F => 39,
            TextureFormat::RG16S => 40,
            TextureFormat::RG32I => 41,
            TextureFormat::RG32U => 42,
            TextureFormat::RG32F => 43,
            TextureFormat::RGB8 => 44,
            TextureFormat::RGB8I => 45,
            TextureFormat::RGB8U => 46,
            TextureFormat::RGB8S => 47,
            TextureFormat::RGB9E5F => 48,
            TextureFormat::BGRA8 => 49,
            TextureFormat::RGBA8 => 50,
            TextureFormat::RGBA8I => 51,
            TextureFormat::RGBA8U => 52,
            TextureFormat::RGBA8S => 53,
            TextureFormat::RGBA16 => 54,
            TextureFormat::RGBA16I => 55,
            TextureFormat::RGBA16U => 56,
            TextureFormat::RGBA16F => 57,
            TextureFormat::RGBA16S => 58,
            TextureFormat::RGBA32I => 59,
            TextureFormat::RGBA32U => 60,
            TextureFormat::RGBA32F => 61,
            TextureFormat::R5G6B5 => 62,
            TextureFormat::RGBA4 => 63,
            TextureFormat::RGB5A1 => 64,
            TextureFormat::RGB10A2 => 65,
            TextureFormat::R11G11B10F => 66,
            TextureFormat::UnknownDepth => 67,
            TextureFormat::D16 => 68,
            TextureFormat::D24 => 69,
            TextureFormat::D24S8 => 70,
            TextureFormat::D32 => 71,
            TextureFormat::D16F => 72,
            TextureFormat::D24F => 73,
            TextureFormat::D32F => 74,
            TextureFormat::D0S8 => 75,
            TextureFormat::Count => 76,
        }
    }

    /// The format with the given code; `None` outside `0..=76`.
    pub fn from_i32(n: i32) -> (r: Option<TextureFormat>)
        ensures
            r is Some <==> 0 <= n <= 76,
            r matches Some(f) ==> f.spec_code() == n,
    {
        match n {
        0 => Some(TextureFormat::BC1),
        1 => Some(TextureFormat::BC2),
        2 => Some(TextureFormat::BC3),
        3 => Some(TextureFormat::BC4),
        4 => Some(TextureFormat::BC5),
        5 => Some(TextureFormat::BC6H),
        6 => Some(TextureFormat::BC7),
        7 => Some(TextureFormat::ETC1),
        8 => Some(TextureFormat::ETC2),
        9 => Some(TextureFormat::ETC2A),
        10 => Some(TextureFormat::ETC2A1),
        11 => Some(TextureFormat::PTC12),
        12 => Some(TextureFormat::PTC14),
        13 => Some(TextureFormat::PTC12A),
        14 => Some(TextureFormat::PTC14A),
        15 => Some(TextureFormat::PTC22),
        16 => Some(TextureFormat::PTC24),
        17 => Some(TextureFormat::Unknown),
        18 => Some(TextureFormat::R1),
        19 => Some(TextureFormat::A8),
        20 => Some(TextureFormat::R8),
        21 => Some(TextureFormat::R8I),
        22 => Some(TextureFormat::R8U),
        23 => Some(TextureFormat::R8S),
        24 => Some(TextureFormat::R16),
        25 => Some(TextureFormat::R16I),
        26 => Some(TextureFormat::R16U),
        27 => Some(TextureFormat::R16F),
        28 => Some(TextureFormat::R16S),
        29 => Some(TextureFormat::R32I),
        30 => Some(TextureFormat::R32U),
        31 => Some(TextureFormat::R32F),
        32 => Some(TextureFormat::RG8),
        33 => Some(TextureFormat::RG8I),
        34 => Some(TextureFormat::RG8U),
        35 => Some(TextureFormat::RG8S),
        36 => Some(TextureFormat::RG16),
        37 => Some(TextureFormat::RG16I),
        38 => Some(TextureFormat::RG16U),
        39 => Some(TextureFormat::RG16F),
        40 => Some(TextureFormat::RG16S),
        41 => Some(TextureFormat::RG32I),
        42 => Some(TextureFormat::RG32U),
        43 => Some(TextureFormat::RG32F),
        44 => Some(TextureFormat::RGB8),
        45 => Some(TextureFormat::RGB8I),
        46 => Some(TextureFormat::RGB8U),
        47 => Some(TextureFormat::RGB8S),
        48 => Some(TextureFormat::RGB9E5F),
        49 => Some(TextureFormat::BGRA8),
        50 => Some(TextureFormat::RGBA8),
        51 => Some(TextureFormat::RGBA8I),
        52 => Some(TextureFormat::RGBA8U),
        53 => Some(TextureFormat::RGBA8S),
        54 => Some(TextureFormat::RGBA16),
        55 => Some(TextureFormat::RGBA16I),
        56 => Some(TextureFormat::RGBA16U),
        57 => Some(TextureFormat::RGBA16F),
        58 => Some(TextureFormat::RGBA16S),
        59 => Some(TextureFormat::RGBA32I),
        60 => Some(TextureFormat::RGBA32U),
        61 => Some(TextureFormat::RGBA32F),
        62 => Some(TextureFormat::R5G6B5),
        63 => Some(TextureFormat::RGBA4),
        64 => Some(TextureFormat::RGB5A1),
        65 => Some(TextureFormat::RGB10A2),
        66 => Some(TextureFormat::R11G11B10F),
        67 => Some(TextureFormat::UnknownDepth),
        68 => Some(TextureFormat::D16),
        69 => Some(TextureFormat::D24),
        70 => Some(TextureFormat::D24S8),
        71 => Some(TextureFormat::D32),
        72 => Some(TextureFormat::D16F),
        73 => Some(TextureFormat::D24F),
        74 => Some(TextureFormat::D32F),
        75 => Some(TextureFormat::D0S8),
        76 => Some(TextureFormat::Count),
            _ => None,
        }
    }
}

impl Default for TextureFormat {
    fn default() -> (r: TextureFormat)
        ensures
            r == TextureFormat::Unknown,
    {
        TextureFormat::Unknown
    }
}

/// Results of pumping the render thread.
#[derive(PartialEq, Eq, Debug, Copy, Clone, Structural)]
pub enum RenderFrame {
    /// No context is available. This usually means the main thread has exited.
    NoContext,
    /// The render was performed.
    Render,
    /// The renderer is exiting.
    Exiting,
}

impl RenderFrame {
    pub open spec fn spec_code(self) -> i32 {
        match self {
            RenderFrame::NoContext => 0,
            RenderFrame::Render => 1,
            RenderFrame::Exiting => 2,
        }
    }

    /// The result with the given code; `None` outside `0..3`.
    pub fn from_i32(n: i32) -> (r: Option<RenderFrame>)
        ensures
            r is Some <==> 0 <= n < 3,
            r matches Some(f) ==> f.spec_code() == n,
    {
        match n {
            0 => Some(RenderFrame::NoContext),
            1 => Some(RenderFrame::Render),
            2 => Some(RenderFrame::Exiting),
            _ => None,
        }
    }
}

/// Vertex attribute.
#[derive(PartialEq, Eq, Debug, Copy, Clone, Structural)]
pub enum Attrib {
    /// Position.
    Position,
    /// Normal.
    Normal,
    /// Tangent.
    Tangent,
    /// Bitangent.
    Bitangent,
    /// Color 0.
    Color0,
    /// Color 1.
    Color1,
    /// Index list.
    Indices,
    /// Bone weight.
    Weight,
    /// Texture coordinate 0.
    TexCoord0,
    /// Texture coordinate 1.
    TexCoord1,
    /// Texture coordinate 2.
    TexCoord2,
    /// Texture coordinate 3.
    TexCoord3,
    /// Texture coordinate 4.
    TexCoord4,
    /// Texture coordinate 5.
    TexCoord5,
    /// Texture coordinate 6.
    TexCoord6,
    /// Texture coordinate 7.
    TexCoord7,
}

/// Vertex attribute type. Where the parameter is `true`, the value is
/// normalized between 0 and 1.
#[derive(PartialEq, Eq, Debug, Copy, Clone, Structural)]
pub enum AttribType {
    /// Unsigned 8-bit integer.
    Uint8(bool),
    /// Signed 8-bit integer.
    Int8(bool),
    /// Unsigned 10-bit integer.
    Uint10(bool),
    /// Signed 10-bit integer.
    Int10(bool),
    /// Unsigned 16-bit integer.
    Uint16(bool),
    /// Signed 16-bit integer.
    Int16(bool),
    /// 16-bit float.
    Half,
    /// 32-bit float.
    Float,
}

/// Uniform types.
#[derive(PartialEq, Eq, Debug, Copy, Clone, Structural)]
pub enum UniformType {
    Int1,
    End,
    Vec4,
    Mat3,
    Mat4,
}

/// Errors of platform set-up and initialization.
#[derive(PartialEq, Eq, Debug, Copy, Clone, Structural)]
pub enum BgfxError {
    /// An invalid display was provided in the platform data.
    InvalidDisplay,
    /// An invalid window was provided in the platform data.
    InvalidWindow,
    /// Initialization failed.
    InitFailed,
}

/// Description of a created texture.
#[allow(non_snake_case)]
#[derive(Debug, Copy, Clone)]
pub struct TextureInfo {
    pub format: TextureFormat,
    pub storageSize: u32,
    pub width: u16,
    pub height: u16,
    pub depth: u16,
    pub numLayers: u16,
    pub numMips: u8,
    pub bitsPerPixel: u8,
    pub cubeMap: bool,
}

impl Default for TextureInfo {
    fn default() -> (r: TextureInfo)
        ensures
            r.format == TextureFormat::Unknown,
            r.storageSize == 0 && r.width == 0 && r.height == 0 && r.depth == 0,
            r.numLayers == 0 && r.numMips == 0 && r.bitsPerPixel == 0 && !r.cubeMap,
    {
        TextureInfo {
            format: TextureFormat::Unknown,
            storageSize: 0,
            width: 0,
            height: 0,
            depth: 0,
            numLayers: 0,
            numMips: 0,
            bitsPerPixel: 0,
            cubeMap: false,
        }
    }
}

/// One graphics adapter.
#[allow(non_snake_case)]
#[derive(Debug, Copy, Clone)]
pub struct CapsGpu {
    pub vendorId: VendorId,
    pub deviceId: u16,
}

/// Renderer limits.
#[allow(non_snake_case)]
#[derive(Debug, Copy, Clone)]
pub struct CapsLimits {
    pub maxDrawCalls: u32,
    pub maxBlits: u32,
    pub maxTextureSize: u32,
    pub maxViews: u32,
    pub maxFrameBuffers: u32,
    pub maxFBAttachments: u32,
    pub maxPrograms: u32,
    pub maxShaders: u32,
    pub maxTextures: u32,
    pub maxTextureSamplers: u32,
    pub maxVertexDecls: u32,
    pub maxVertexStreams: u32,
    pub maxIndexBuffers: u32,
    pub maxVertexBuffers: u32,
    pub maxDynamicIndexBuffers: u32,
    pub maxDynamicVertexBuffers: u32,
    pub maxUniforms: u32,
    pub maxOcclusionQueries: u32,
}

impl CapsLimits {
    /// Limits that are all zero.
    pub open spec fn spec_zero() -> CapsLimits {
        CapsLimits {
            maxDrawCalls: 0,
            maxBlits: 0,
            maxTextureSize: 0,
            maxViews: 0,
            maxFrameBuffers: 0,
            maxFBAttachments: 0,
            maxPrograms: 0,
            maxShaders: 0,
            maxTextures: 0,
            maxTextureSamplers: 0,
            maxVertexDecls: 0,
            maxVertexStreams: 0,
            maxIndexBuffers: 0,
            maxVertexBuffers: 0,
            maxDynamicIndexBuffers: 0,
            maxDynamicVertexBuffers: 0,
            maxUniforms: 0,
            maxOcclusionQueries: 0,
        }
    }
}

impl Default for CapsLimits {
    fn default() -> (r: CapsLimits)
        ensures
            r == CapsLimits::spec_zero(),
    {
        CapsLimits {
            maxDrawCalls: 0,
            maxBlits: 0,
            maxTextureSize: 0,
            maxViews: 0,
            maxFrameBuffers: 0,
            maxFBAttachments: 0,
            maxPrograms: 0,
            maxShaders: 0,
            maxTextures: 0,
            maxTextureSamplers: 0,
            maxVertexDecls: 0,
            maxVertexStreams: 0,
            maxIndexBuffers: 0,
            maxVertexBuffers: 0,
            maxDynamicIndexBuffers: 0,
            maxDynamicVertexBuffers: 0,
            maxUniforms: 0,
            maxOcclusionQueries: 0,
        }
    }
}

/// What the renderer supports.
#[allow(non_snake_case)]
#[derive(Debug, Copy, Clone)]
pub struct Caps {
    pub rendererType: RendererType,
    pub supported: CapsFlags,
    pub vendorId: VendorId,
    pub deviceId: u16,
    pub homogeneousDepth: bool,
    pub originBottomLeft: bool,
    pub numGPUs: u8,
    pub gpu: [CapsGpu; 4],
    pub limits: CapsLimits,
    pub formats: [TextureCapsFlags; 76],
}

impl Default for Caps {
    fn default() -> (r: Caps)
        ensures
            r.rendererType == RendererType::Default,
            r.supported.bits == 0,
            r.limits == CapsLimits::spec_zero(),
            r.vendorId == VendorId::Autoselect,
            r.deviceId == 0 && !r.homogeneousDepth && !r.originBottomLeft && r.numGPUs == 0,
            forall|i: int| 0 <= i < 4 ==> (#[trigger] r.gpu@[i]).vendorId == VendorId::Autoselect && r.gpu@[i].deviceId == 0,
            forall|i: int| 0 <= i < 76 ==> (#[trigger] r.formats@[i]).bits == 0,
    {
        let gpu = CapsGpu { vendorId: VendorId::Autoselect, deviceId: 0 };
        let zero_limits = CapsLimits {
                maxDrawCalls: 0,
                maxBlits: 0,
                maxTextureSize: 0,
                maxViews: 0,
                maxFrameBuffers: 0,
                maxFBAttachments: 0,
                maxPrograms: 0,
                maxShaders: 0,
                maxTextures: 0,
                maxTextureSamplers: 0,
                maxVertexDecls: 0,
                maxVertexStreams: 0,
                maxIndexBuffers: 0,
                maxVertexBuffers: 0,
                maxDynamicIndexBuffers: 0,
                maxDynamicVertexBuffers: 0,
                maxUniforms: 0,
                maxOcclusionQueries: 0,
            };
        Caps {
            rendererType: RendererType::Default,
            supported: CapsFlags { bits: 0 },
            vendorId: VendorId::Autoselect,
            deviceId: 0,
            homogeneousDepth: false,
            originBottomLeft: false,
            numGPUs: 0,
            gpu: [gpu; 4],
            limits: zero_limits,
            formats: [TextureCapsFlags { bits: 0 }; 76],
        }
    }
}

/// The library context: created by a successful initialization, it stands
/// for the running renderer.
pub struct Bgfx {
    _dummy: u32,
}

impl Bgfx {
    pub fn new() -> (r: Bgfx) {
        Bgfx { _dummy: 0 }
    }
}

/// What is handed to the native initialization: renderer code, vendor PCI id
/// (none given: the autoselect id) and device id (none given: zero).
pub fn init_params(renderer: RendererType, vendor_id: Option<VendorId>, device_id: Option<u16>) -> (r: (
    i32,
    u16,
    u16,
))
    ensures
        r.0 == renderer.spec_code(),
        r.1 == (match vendor_id {
            Some(v) => v.spec_pci_id(),
            None => 0u16,
        }),
        r.2 == (match device_id {
            Some(d) => d,
            None => 0u16,
        }),
{
    let vendor = match vendor_id {
        Some(v) => v,
        None => VendorId::Autoselect,
    };
    let device = match device_id {
        Some(d) => d,
        None => 0,
    };
    (renderer.code(), vendor.pci_id(), device)
}

/// The outcome of initialization, given whether the native call succeeded.
pub fn init_outcome(success: bool) -> (r: Result<Bgfx, BgfxError>)
    ensures
        success <==> r is Ok,
        !success ==> r == Err::<Bgfx, BgfxError>(BgfxError::InitFailed),
{
    if success {
        Ok(Bgfx::new())
    } else {
        Err(BgfxError::InitFailed)
    }
}

/// Platform handles for the renderer: native display, window and context
/// handles, zero standing for none.
#[allow(non_snake_case)]
pub struct PlatformData {
    pub ndt: usize,
    pub nwh: usize,
    pub context: usize,
    pub backBuffer: usize,
    pub backBufferDS: usize,
    pub session: usize,
}

impl PlatformData {
    /// Platform data with every handle empty.
    pub fn new() -> (r: PlatformData)
        ensures
            r.ndt == 0 && r.nwh == 0 && r.context == 0,
            r.backBuffer == 0 && r.backBufferDS == 0 && r.session == 0,
    {
        PlatformData { ndt: 0, nwh: 0, context: 0, backBuffer: 0, backBufferDS: 0, session: 0 }
    }

    /// Sets the GL context to use.
    pub fn context(&mut self, context: usize) -> (r: &mut Self)
        ensures
            *r == (PlatformData { context, ..*old(self) }),
            *final(self) == *final(r),
    {
        self.context = context;
        self
    }

    /// Sets the display to use (required on X11 systems).
    pub fn display(&mut self, display: usize) -> (r: &mut Self)
        ensures
            *r == (PlatformData { ndt: display, ..*old(self) }),
            *final(self) == *final(r),
    {
        self.ndt = display;
        self
    }

    /// Sets the window to use.
    pub fn window(&mut self, window: usize) -> (r: &mut Self)
        ensures
            *r == (PlatformData { nwh: window, ..*old(self) }),
            *final(self) == *final(r),
    {
        self.nwh = window;
        self
    }

    /// Checks the handles before they are applied: a display is needed where
    /// `display_required` (X11 systems), and a window always.
    pub fn validate(&self, display_required: bool) -> (r: Result<(), BgfxError>)
        ensures
            r == (if self.ndt == 0 && display_required {
                Err::<(), BgfxError>(BgfxError::InvalidDisplay)
            } else if self.nwh == 0 {
                Err(BgfxError::InvalidWindow)
            } else {
                Ok(())
            }),
    {
        if self.ndt == 0 && display_required {
            Err(BgfxError::InvalidDisplay)
        } else if self.nwh == 0 {
            Err(BgfxError::InvalidWindow)
        } else {
            Ok(())
        }
    }
}

} // verus!
