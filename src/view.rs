//! Resolution of an external buffer-like value to a borrowed byte view.
//!
//! The host object model is probed from outside; what the probe finds is
//! described by a `Probe`, and the choice among the representations, in their
//! fixed priority order, is made here.
use vstd::prelude::*;
use crate::error::MemError;

verus! {

/// The representations of a buffer that are recognized, in priority order.
#[derive(Debug, Clone, Copy, PartialEq, Eq, Structural)]
pub enum BufferKind {
    /// A mutable, resizable byte sequence (a `bytearray`).
    ResizableBytes,
    /// A fixed-size one-dimensional array of bytes (a numpy array).
    FixedArray,
    /// Any object exposing a single-segment byte buffer by the buffer protocol.
    BufferProtocol,
    /// An immutable byte sequence (`bytes`); for read-only use only.
    ImmutableBytes,
}

/// What the caller intends to do with the bytes.
#[derive(Debug, Clone, Copy, PartialEq, Eq, Structural)]
pub enum Access {
    /// The bytes will be written or their pages pinned.
    Write,
    /// The bytes will only be read.
    ReadOnly,
}

/// How a representation lays out its bytes.
#[derive(Debug, Clone, Copy, PartialEq, Eq, Structural)]
pub struct Layout {
    /// The bytes form one contiguous segment.
    pub contiguous: bool,
    /// The bytes may be written through this representation.
    pub writable: bool,
    /// The number of bytes exposed.
    pub len: usize,
}

/// The representations that a value was found to expose, each with its layout.
#[derive(Debug, Clone, Copy, PartialEq, Eq, Structural)]
pub struct Probe {
    pub resizable: Option<Layout>,
    pub fixed_array: Option<Layout>,
    pub protocol: Option<Layout>,
    pub immutable: Option<Layout>,
}

/// A borrowed view, without its address: the representation chosen and the
/// full extent of the bytes it exposes.
#[derive(Debug, Clone, Copy, PartialEq, Eq, Structural)]
pub struct ResolvedView {
    pub kind: BufferKind,
    pub len: usize,
}

impl Probe {
    /// A value that exposes no byte buffer at all.
    pub open spec fn spec_none() -> Probe {
        Probe { resizable: None, fixed_array: None, protocol: None, immutable: None }
    }

    /// The first representation, in priority order, that the value exposes
    /// and that `access` may use; immutable bytes count for reading only.
    pub open spec fn first_kind(self, access: Access) -> Option<(BufferKind, Layout)> {
        if self.resizable is Some {
            Some((BufferKind::ResizableBytes, self.resizable.unwrap()))
        } else if self.fixed_array is Some {
            Some((BufferKind::FixedArray, self.fixed_array.unwrap()))
        } else if self.protocol is Some {
            Some((BufferKind::BufferProtocol, self.protocol.unwrap()))
        } else if access == Access::ReadOnly && self.immutable is Some {
            Some((BufferKind::ImmutableBytes, self.immutable.unwrap()))
        } else {
            None
        }
    }
}

/// Whether a layout can serve `access`: one segment, and writable for writing.
pub open spec fn serves(l: Layout, access: Access) -> bool {
    l.contiguous && (access == Access::ReadOnly || l.writable)
}

/// The view that a probe resolves to: the first representation decides, and
/// the value is refused when there is none or it cannot serve the access.
pub open spec fn resolved(p: Probe, access: Access) -> Result<ResolvedView, MemError> {
    match p.first_kind(access) {
        Some((kind, l)) => if serves(l, access) {
            Ok(ResolvedView { kind, len: l.len })
        } else {
            Err(MemError::Unsupported)
        },
        None => Err(MemError::Unsupported),
    }
}

fn serves_exec(l: &Layout, access: Access) -> (r: bool)
    ensures
        r == serves(*l, access),
{
    l.contiguous && (matches!(access, Access::ReadOnly) || l.writable)
}

fn accept(kind: BufferKind, l: &Layout, access: Access) -> (r: Result<ResolvedView, MemError>)
    ensures
        r == (if serves(*l, access) {
            Ok(ResolvedView { kind, len: l.len })
        } else {
            Err::<ResolvedView, MemError>(MemError::Unsupported)
        }),
{
    if serves_exec(l, access) {
        Ok(ResolvedView { kind, len: l.len })
    } else {
        Err(MemError::Unsupported)
    }
}

/// Resolves a probed value to a view, trying the representations in
/// priority order. Nothing is copied or written.
pub fn resolve(p: &Probe, access: Access) -> (r: Result<ResolvedView, MemError>)
    ensures
        r == resolved(*p, access),
{
    if let Some(l) = &p.resizable {
        accept(BufferKind::ResizableBytes, l, access)
    } else if let Some(l) = &p.fixed_array {
        accept(BufferKind::FixedArray, l, access)
    } else if let Some(l) = &p.protocol {
        accept(BufferKind::BufferProtocol, l, access)
    } else if let (Access::ReadOnly, Some(l)) = (access, &p.immutable) {
        accept(BufferKind::ImmutableBytes, l, access)
    } else {
        Err(MemError::Unsupported)
    }
}

/// Immutable bytes serve reading only: alone they are refused for writing,
/// and a value that exposes no buffer at all is refused for both.
pub proof fn lemma_immutable_bytes_refused_for_writing(l: Layout)
    ensures
        resolved(
            Probe { immutable: Some(l), ..Probe::spec_none() },
            Access::Write,
        ) == Err::<ResolvedView, MemError>(MemError::Unsupported),
        l.contiguous ==> resolved(Probe { immutable: Some(l), ..Probe::spec_none() }, Access::ReadOnly)
            == Ok::<ResolvedView, MemError>(ResolvedView { kind: BufferKind::ImmutableBytes, len: l.len }),
        resolved(Probe::spec_none(), Access::Write) == Err::<ResolvedView, MemError>(MemError::Unsupported),
        resolved(Probe::spec_none(), Access::ReadOnly) == Err::<ResolvedView, MemError>(MemError::Unsupported),
{
}

} // verus!
