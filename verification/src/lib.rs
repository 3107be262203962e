//! A graphics-backend abstraction layer, verified with Verus.
//!
//! The backend capability contract ([`gfx`]) is the only surface a renderer
//! sees: instances, adapters, devices, queues, command allocators, fences
//! and swap chains, whatever native API backs them. Native status codes
//! enter the uniform error model through one chokepoint ([`hresult`],
//! [`error`]); adapter enumeration and selection follow a verified protocol
//! ([`adapters`]); a created resource is bound to the parent that created it
//! ([`gfx::ScopedResource`]). The Direct3D 12 backend is modelled against a
//! scripted native session whose event trace makes creation and destruction
//! order provable ([`backend_d3d12`]), and the renderer resource pool is
//! built and released against it in exact dependency order ([`renderer`]).
//!
//! Around that core live the frame-timing counter ([`frame_counter`],
//! [`clock`]), a minimal entity/component container ([`entity`]), and the
//! plain mesh and scene data the renderer consumes ([`mesh`], [`scene`]).

pub mod adapters;
pub mod backend_d3d12;
pub mod clock;
pub mod entity;
pub mod error;
pub mod frame_counter;
pub mod gfx;
pub mod hresult;
pub mod mesh;
pub mod renderer;
pub mod scene;

use vstd::prelude::*;

verus! {

/// An application-defined event delivered through the platform event loop.
#[derive(Debug, Clone, Copy, PartialEq, Eq, Structural)]
pub enum UiUserEvent {
    Test,
}

} // verus!
