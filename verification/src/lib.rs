//! The user-space half of the kernel's asynchronous I/O rings: the submission entry and its
//! encoders, the submission and completion rings, the ring of provided buffers, and the
//! handle that ties them together.
//!
//! Nothing here maps memory or enters the kernel. The rings work on slots that they own
//! and on the cursor words that they share with the kernel; the caller carries entries and
//! notifications across.

pub mod barrier;
pub mod buf_ring;
pub mod completion_queue;
pub mod consts;
pub mod cq;
pub mod cqe;
pub mod entry;
pub mod host;
pub mod io_uring;
pub mod laws;
pub mod prep;
pub mod probe;
pub mod ring;
pub mod sq;
pub mod sqe;

pub use crate::completion_queue::CompletionQueue;
pub use crate::cq::IoUringCq;
pub use crate::cqe::CompletionEntry;
pub use crate::cqe::CqeFlags;
pub use crate::cqe::IoUringCqe;
pub use crate::entry::SubmissionEntry;
pub use crate::entry::SubmissionQueue;
pub use crate::io_uring::IoUring;
pub use crate::io_uring::SQFullError;
pub use crate::sq::IoUringSq;
pub use crate::sqe::IoUringSqe;
