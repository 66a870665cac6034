//! Verified core of an automatic tank gauge console: the station model, the
//! reports it prints and the framing of the fixed-width command protocol.

pub mod protocol;
pub mod server;
pub mod stamp;
pub mod table;
pub mod tank;
pub mod text;
