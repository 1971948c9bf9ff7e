//! Host-side logic for a serial multiworld bridge: the 16-byte frame codec,
//! the handshake reply classifier, and the steady-state session machine.
//! All serial I/O lives outside this crate; the library works on plain bytes.

pub mod frame;
pub mod handshake;
pub mod hash_icon;
pub mod scan;
pub mod session;
pub mod version;
