//! Host-side logic for a one-shot accelerator dispatch followed by a
//! frame presentation loop: the ordering rules of the command queue, kernel
//! argument binding, the stage sequence of the compute run, the per-pixel
//! fill rule of the streaming texture and the quit logic of the frame loop.

pub mod dispatch;
pub mod error;
pub mod fill;
pub mod kernel;
pub mod queue;
pub mod session;
pub mod frame_loop;

pub use fill::{fill_pixels, BYTES_PER_PIXEL};
pub use frame_loop::{drain_events, frame_action, is_quit_event, step, FrameAction, InputEvent, Key, LoopState};
pub use error::{ComputeError, PresentError};
pub use kernel::{scalar_multiply_signature, ArgKind, ArgValue, KernelArgs};
pub use queue::{Access, CommandQueue, CompletionEvent, DeviceBuffer, QueueOp};
pub use session::{advance, start, ComputeAction, ComputeStage, StageOutcome};
pub use dispatch::{bind_scalar_multiply, submit_scalar_multiply};
