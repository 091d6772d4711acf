//! Animation engine, command protocol and interrupt mailboxes of an RGB light
//! node, with every function verified against its contract.

pub mod colour;
pub mod clock;
pub mod device;
pub mod engine;
pub mod fade;
pub mod frame;
pub mod ir;
pub mod node;
pub mod protocol;
pub mod serial;
