//! Vertex layout declarations: the attributes of a vertex, in order, as they
//! are handed to the renderer.
use vstd::prelude::*;
use crate::renderer::{Attrib, AttribType, RendererType};

verus! {

/// Storage type codes of a vertex attribute, as the renderer numbers them.
pub const ATTRIB_TYPE_UINT8: u8 = 0;
pub const ATTRIB_TYPE_UINT10: u8 = 1;
pub const ATTRIB_TYPE_INT16: u8 = 2;
pub const ATTRIB_TYPE_HALF: u8 = 3;
pub const ATTRIB_TYPE_FLOAT: u8 = 4;

/// One item of a vertex layout.
#[derive(PartialEq, Eq, Debug, Copy, Clone, Structural)]
pub enum DeclEntry {
    /// An attribute of `count` components stored as type code `kind`.
    Attribute { attrib: Attrib, count: u8, kind: u8, normalized: bool, as_int: bool },
    /// A gap of the given number of bytes.
    Skip(u8),
}

/// The layout entry that declaring `attrib` with `count` components of type `kind` records.
/// Signed types share the storage code of their unsigned kin and are marked as
/// integers; the 16-bit types are stored with the signed 16-bit code.
pub open spec fn attrib_entry(attrib: Attrib, count: u8, kind: AttribType) -> DeclEntry {
    let (code, normalized, as_int) = match kind {
        AttribType::Uint8(n) => (ATTRIB_TYPE_UINT8, n, false),
        AttribType::Int8(n) => (ATTRIB_TYPE_UINT8, n, true),
        AttribType::Uint10(n) => (ATTRIB_TYPE_UINT10, n, false),
        AttribType::Int10(n) => (ATTRIB_TYPE_UINT10, n, true),
        AttribType::Uint16(n) => (ATTRIB_TYPE_INT16, n, false),
        AttribType::Int16(n) => (ATTRIB_TYPE_INT16, n, true),
        AttribType::Half => (ATTRIB_TYPE_HALF, false, false),
        AttribType::Float => (ATTRIB_TYPE_FLOAT, false, false),
    };
    DeclEntry::Attribute { attrib, count, kind: code, normalized, as_int }
}

/// A finished vertex layout.
pub struct VertexDecl {
    pub renderer: RendererType,
    pub entries: Vec<DeclEntry>,
}

/// Builder for `VertexDecl` instances.
pub struct VertexDeclBuilder {
    pub renderer: RendererType,
    pub entries: Vec<DeclEntry>,
}

impl VertexDecl {
    /// Starts a layout for the given renderer (none given: the null renderer).
    pub fn new(renderer: Option<RendererType>) -> (r: VertexDeclBuilder)
        ensures
            r.renderer == (match renderer {
                Some(t) => t,
                None => RendererType::Null,
            }),
            r.entries@ == Seq::<DeclEntry>::empty(),
    {
        let renderer = match renderer {
            Some(t) => t,
            None => RendererType::Null,
        };
        VertexDeclBuilder { renderer, entries: Vec::new() }
    }
}

impl VertexDeclBuilder {
    /// Adds an attribute to the layout.
    pub fn add(&mut self, attrib: Attrib, count: u8, kind: AttribType) -> (r: &mut Self)
        ensures
            r.renderer == old(self).renderer,
            r.entries@ == old(self).entries@.push(attrib_entry(attrib, count, kind)),
            *final(self) == *final(r),
    {
        let mut normalized = false;
        let mut as_int = false;
        let code = match kind {
            AttribType::Uint8(n) => {
                normalized = n;
                ATTRIB_TYPE_UINT8
            },
            AttribType::Int8(n) => {
                normalized = n;
                as_int = true;
                ATTRIB_TYPE_UINT8
            },
            AttribType::Uint10(n) => {
                normalized = n;
                ATTRIB_TYPE_UINT10
            },
            AttribType::Int10(n) => {
                normalized = n;
                as_int = true;
                ATTRIB_TYPE_UINT10
            },
            AttribType::Uint16(n) => {
                normalized = n;
                ATTRIB_TYPE_INT16
            },
            AttribType::Int16(n) => {
                normalized = n;
                as_int = true;
                ATTRIB_TYPE_INT16
            },
            AttribType::Half => ATTRIB_TYPE_HALF,
            AttribType::Float => ATTRIB_TYPE_FLOAT,
        };
        self.entries.push(DeclEntry::Attribute { attrib, count, kind: code, normalized, as_int });
        self
    }

    /// Adds a gap of `bytes` bytes to the layout.
    pub fn skip(&mut self, bytes: u8) -> (r: &mut Self)
        ensures
            r.renderer == old(self).renderer,
            r.entries@ == old(self).entries@.push(DeclEntry::Skip(bytes)),
            *final(self) == *final(r),
    {
        self.entries.push(DeclEntry::Skip(bytes));
        self
    }

    /// Finishes the layout.
    pub fn end(&mut self) -> (r: VertexDecl)
        ensures
            r.renderer == old(self).renderer,
            r.entries@ == old(self).entries@,
            *final(self) == *old(self),
    {
        let mut entries: Vec<DeclEntry> = Vec::new();
        let mut i: usize = 0;
        while i < self.entries.len()
            invariant
                i <= self.entries.len(),
                entries@ == self.entries@.take(i as int),
            decreases self.entries.len() - i,
        {
            entries.push(self.entries[i]);
            i = i + 1;
            proof {
                assert(entries@ =~= self.entries@.take(i as int));
            }
        }
        proof {
            assert(entries@ =~= self.entries@);
        }
        VertexDecl { renderer: self.renderer, entries }
    }
}

/// The layout of a vertex with a position, a normal and a packed colour:
/// three floats, three floats, four normalized bytes.
pub fn pos_normal_color_decl() -> (r: VertexDecl)
    ensures
        r.renderer == RendererType::Null,
        r.entries@ == seq![
            attrib_entry(Attrib::Position, 3, AttribType::Float),
            attrib_entry(Attrib::Normal, 3, AttribType::Float),
            attrib_entry(Attrib::Color0, 4, AttribType::Uint8(true)),
        ],
{
    let mut builder = VertexDecl::new(None);
    builder.add(Attrib::Position, 3, AttribType::Float);
    builder.add(Attrib::Normal, 3, AttribType::Float);
    builder.add(Attrib::Color0, 4, AttribType::Uint8(true));
    let decl = builder.end();
    proof {
        assert(decl.entries@ =~= seq![
            attrib_entry(Attrib::Position, 3, AttribType::Float),
            attrib_entry(Attrib::Normal, 3, AttribType::Float),
            attrib_entry(Attrib::Color0, 4, AttribType::Uint8(true)),
        ]);
    }
    decl
}

} // verus!
