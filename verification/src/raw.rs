//! The engine's context and thread by address alone, as the engine hands
//! them to a native function.

use vstd::prelude::*;

verus! {

/// The address of a context of the engine. It may be null.
#[derive(Debug, Clone, Copy, PartialEq, Eq, Structural)]
pub struct BoltContext {
    pub ctx: usize,
}

impl BoltContext {
    /// The context at the address `ptr`, null or not.
    pub fn from_raw(ptr: usize) -> (context: Self)
        ensures
            context.ctx == ptr,
    {
        Self { ctx: ptr }
    }

    /// The address of the context.
    pub fn as_ptr(&self) -> (ptr: usize)
        ensures
            ptr == self.ctx,
    {
        self.ctx
    }
}

/// The address of a thread of the engine. It is never null.
#[derive(Debug, Clone, Copy, PartialEq, Eq, Structural)]
pub struct BoltThread {
    pub thread: usize,
}

impl BoltThread {
    /// A thread handle is well formed when its address is not null.
    pub open spec fn wf(&self) -> bool {
        self.thread != 0
    }

    /// The thread at the address `thread`; none at the null address.
    pub fn from_raw(thread: usize) -> (handle: Option<Self>)
        ensures
            handle == (if thread == 0 { None } else { Some(BoltThread { thread }) }),
            handle matches Some(made) ==> made.wf(),
    {
        if thread == 0 {
            None
        } else {
            Some(Self { thread })
        }
    }

    /// The address of the thread.
    pub fn as_ptr(&self) -> (ptr: usize)
        ensures
            ptr == self.thread,
    {
        self.thread
    }
}

} // verus!
