//! Control core of the Turtl client: the envelope protocol spoken with the UI,
//! the command router, and the control plane of the background syncers.

pub mod value;
pub mod text;
pub mod messaging;
pub mod dispatch;
pub mod sync;
