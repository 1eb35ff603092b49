use bgfx::vertex::{pos_normal_color_decl, ATTRIB_TYPE_FLOAT, ATTRIB_TYPE_INT16, ATTRIB_TYPE_UINT8};
use bgfx::{
    init_outcome, init_params, Attrib, AttribType, BgfxError, Caps, DeclEntry, PlatformData,
    RenderFrame, RendererType, TextureFormat, TextureInfo, VendorId, VertexDecl,
};

#[test]
fn renderer_codes_round_trip() {
    assert_eq!(RendererType::from_i32(0), Some(RendererType::Null));
    assert_eq!(RendererType::from_i32(2), Some(RendererType::Direct3D11));
    assert_eq!(RendererType::from_i32(8), Some(RendererType::Default));
    assert_eq!(RendererType::from_i32(9), None);
    assert_eq!(RendererType::from_i32(-1), None);
    assert_eq!(RendererType::Vulkan.code(), 7);
    assert_eq!(RendererType::default(), RendererType::Default);
}

#[test]
fn texture_format_codes() {
    assert_eq!(TextureFormat::from_i32(0), Some(TextureFormat::BC1));
    assert_eq!(TextureFormat::from_i32(17), Some(TextureFormat::Unknown));
    assert_eq!(TextureFormat::from_i32(76), Some(TextureFormat::Count));
    assert_eq!(TextureFormat::from_i32(77), None);
    assert_eq!(TextureFormat::default(), TextureFormat::Unknown);
}

#[test]
fn render_frame_codes() {
    assert_eq!(RenderFrame::from_i32(1), Some(RenderFrame::Render));
    assert_eq!(RenderFrame::from_i32(3), None);
}

#[test]
fn vendor_pci_ids() {
    assert_eq!(VendorId::nVidia.pci_id(), 0x10de);
    assert_eq!(VendorId::MSBasicRender.pci_id(), 0x1414);
    assert_eq!(VendorId::from_pci_id(0x8086), Some(VendorId::Intel));
    assert_eq!(VendorId::from_pci_id(0x1234), None);
    assert_eq!(VendorId::default(), VendorId::Autoselect);
}

#[test]
fn platform_data_needs_display_and_window() {
    let mut pd = PlatformData::new();
    assert_eq!(pd.validate(true), Err(BgfxError::InvalidDisplay));
    assert_eq!(pd.validate(false), Err(BgfxError::InvalidWindow));
    pd.display(0x10).window(0x20).context(0x30);
    assert_eq!(pd.validate(true), Ok(()));
    assert_eq!((pd.ndt, pd.nwh, pd.context), (0x10, 0x20, 0x30));
}

#[test]
fn init_uses_defaults_and_reports_failure() {
    assert_eq!(init_params(RendererType::Direct3D11, None, None), (2, 0, 0));
    assert_eq!(init_params(RendererType::OpenGL, Some(VendorId::AMD), Some(7)), (6, 0x1002, 7));
    assert!(init_outcome(true).is_ok());
    assert_eq!(init_outcome(false).err(), Some(BgfxError::InitFailed));
}

#[test]
fn vertex_layout_records_attributes() {
    let decl = VertexDecl::new(None)
        .add(Attrib::Position, 3, AttribType::Float)
        .add(Attrib::Normal, 3, AttribType::Int16(false))
        .skip(2)
        .add(Attrib::Color0, 4, AttribType::Uint8(true))
        .end();
    assert_eq!(decl.renderer, RendererType::Null);
    assert_eq!(
        decl.entries,
        vec![
            DeclEntry::Attribute { attrib: Attrib::Position, count: 3, kind: ATTRIB_TYPE_FLOAT, normalized: false, as_int: false },
            DeclEntry::Attribute { attrib: Attrib::Normal, count: 3, kind: ATTRIB_TYPE_INT16, normalized: false, as_int: true },
            DeclEntry::Skip(2),
            DeclEntry::Attribute { attrib: Attrib::Color0, count: 4, kind: ATTRIB_TYPE_UINT8, normalized: true, as_int: false },
        ]
    );
}

#[test]
fn caps_and_texture_info_defaults() {
    let caps = Caps::default();
    assert_eq!(caps.rendererType, RendererType::Default);
    assert_eq!(caps.supported.bits(), 0);
    assert!(caps.formats.iter().all(|f| f.bits() == 0));
    let info = TextureInfo::default();
    assert_eq!(info.format, TextureFormat::Unknown);
    assert_eq!(info.width, 0);
}

#[test]
fn position_normal_color_layout() {
    let decl = pos_normal_color_decl();
    assert_eq!(decl.renderer, RendererType::Null);
    assert_eq!(
        decl.entries,
        vec![
            DeclEntry::Attribute { attrib: Attrib::Position, count: 3, kind: ATTRIB_TYPE_FLOAT, normalized: false, as_int: false },
            DeclEntry::Attribute { attrib: Attrib::Normal, count: 3, kind: ATTRIB_TYPE_FLOAT, normalized: false, as_int: false },
            DeclEntry::Attribute { attrib: Attrib::Color0, count: 4, kind: ATTRIB_TYPE_UINT8, normalized: true, as_int: false },
        ]
    );
}
