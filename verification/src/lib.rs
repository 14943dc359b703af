//! Kernel-style synchronization primitives: a sequence lock that favors
//! writers over readers, and an identifier allocator with a recycling
//! free list.

mod arch;
pub mod id;
pub mod seqlock;

pub use id::RecycleAllocator;
pub use seqlock::SeqLock;
pub use seqlock::SeqLockGuard;
