//! The core of a real-time audio plug-in host: the lifecycle of one plug-in
//! as seen from the control thread and from the audio thread, the queues and
//! flags between the two, and the compiler that turns a planned schedule into
//! tasks over shared buffers.

pub mod audio_thread;
pub mod buffers;
pub mod channel;
pub mod compiler;
pub mod error;
pub mod events;
pub mod fnv_map;
pub mod host_request;
pub mod in_events;
pub mod laws;
pub mod main_thread;
pub mod out_events;
pub mod params;
pub mod plugin;
pub mod plugin_host;
pub mod plugin_key;
pub mod plugin_scanner;
pub mod plugin_state;
pub mod reducing_queue;
pub mod save_state;
pub mod schedule;
pub mod schedule_verifier;
pub mod shared_pools;
pub mod text;
