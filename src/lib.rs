//! Building blocks of a WebTransport echo demo: the decimal and byte-array
//! renderings that the asset pages carry, the pages themselves, and the
//! per-session echo protocol as a state machine.

pub mod assets;
pub mod decimal;
pub mod digest;
pub mod session;
