//! Verified decision logic of a real-time noise-cancellation engine: the order
//! of the processing stages, the framing of a buffer for spectral gating, how an
//! output block is filled from processed audio, the running sample clock of the
//! level monitor, the choice of audio devices, the stream settings, and the
//! order in which a running engine is shut down.

pub mod pipeline;
pub mod framing;
pub mod playback;
pub mod monitor;
pub mod devices;
pub mod settings;
pub mod shutdown;
