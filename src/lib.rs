pub mod surface;
pub mod targets;
pub mod frame_sync;
pub mod frame_loop;
