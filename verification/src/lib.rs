//! Safer models for Windows COM graphics interop: HRESULT handling,
//! descriptor construction over plain values, and wide-string preparation.

pub mod d2;
pub mod d3d;
pub mod d3d11;
pub mod d3d11on12;
pub mod d3d12;
pub mod dcomp;
pub mod dwrite;
pub mod dxgi;
pub mod geometry;
pub mod guid;
pub mod hresult;
pub mod wide;

pub use hresult::{OsError, succeeded, checked};
