//! The thread: the call stack through which the engine and the host hand
//! each other arguments and results.
//!
//! A call from the engine to a native function arrives as a frame: the
//! arguments, at most 255 of them, and a slot for the result. A call from
//! the host is prepared by pushing the callable and then its arguments,
//! and `call` turns what was pushed into the frame of the callee.

use vstd::prelude::*;
use crate::context::Context;
use crate::context::ContextView;
use crate::convert::FromBoltValue;
use crate::convert::MakeBoltValue;
use crate::error::ArgError;
use crate::heap::MAX_OBJECTS;
use crate::value::Value;

verus! {

/// A call stack of the engine, by its address, with what the host has
/// pushed on it and the frame of the call in progress.
#[derive(Debug)]
pub struct Thread {
    pub ptr: usize,
    /// What was pushed and not yet called.
    pub stack: Vec<Value>,
    /// What is being called; null outside a call.
    pub callee: Value,
    /// The arguments of the call in progress.
    pub args: Vec<Value>,
    /// The result of the call, null until one is returned.
    pub returned: Value,
}

/// The picture of a thread.
#[verifier::ext_equal]
pub struct ThreadView {
    pub ptr: usize,
    pub stack: Seq<Value>,
    pub callee: Value,
    pub args: Seq<Value>,
    pub returned: Value,
}

impl View for Thread {
    type V = ThreadView;

    open spec fn view(&self) -> ThreadView {
        ThreadView {
            ptr: self.ptr,
            stack: self.stack@,
            callee: self.callee,
            args: self.args@,
            returned: self.returned,
        }
    }
}

impl ThreadView {
    /// The thread at the address `ptr` before anything was pushed or called.
    pub open spec fn idle(ptr: usize) -> ThreadView {
        ThreadView {
            ptr,
            stack: Seq::empty(),
            callee: Value(0x7FFC_0000_0000_0000),
            args: Seq::empty(),
            returned: Value(0x7FFC_0000_0000_0000),
        }
    }

    /// How many arguments the call in progress has. A call has at most 255.
    pub open spec fn argc(self) -> u8 {
        if self.args.len() <= 255 {
            self.args.len() as u8
        } else {
            255
        }
    }

    /// Whether enough was pushed to call with `argc` arguments: the
    /// callable and the arguments.
    pub open spec fn can_call(self, argc: u8) -> bool {
        self.stack.len() > argc
    }

    /// The thread after a call with `argc` arguments: the newest `argc`
    /// values pushed are the arguments, in the order they were pushed, the
    /// value pushed before them is the callee, all of them are off the
    /// stack, and no result is there yet. Where less was pushed, nothing
    /// is called.
    pub open spec fn called(self, argc: u8) -> ThreadView {
        if self.can_call(argc) {
            let base = self.stack.len() - argc - 1;
            ThreadView {
                stack: self.stack.subrange(0, base),
                callee: self.stack[base],
                args: self.stack.subrange(base + 1, self.stack.len() as int),
                returned: Value(0x7FFC_0000_0000_0000),
                ..self
            }
        } else {
            self
        }
    }

    /// What taking argument `idx` of the call in progress as a `T` gives.
    pub open spec fn arg_taken<T: FromBoltValue>(self, idx: u8, ctx: ContextView) -> Result<
        T,
        ArgError,
    > {
        if idx < self.argc() {
            T::taken(self.args[idx as int], ctx)
        } else {
            Err(ArgError::IndexOutOfBounds { idx, len: self.argc() })
        }
    }
}

/// Check the index `idx` against the argument count `len`: an index at or
/// beyond the count is out of bounds.
pub fn check_arg_index(idx: u8, len: u8) -> (checked: Result<(), ArgError>)
    ensures
        idx < len ==> checked == Ok::<(), ArgError>(()),
        idx >= len ==> checked == Err::<(), ArgError>(ArgError::IndexOutOfBounds { idx, len }),
{
    if len <= idx {
        Err(ArgError::IndexOutOfBounds { idx, len })
    } else {
        Ok(())
    }
}

impl Thread {
    /// The thread of the engine at the address `ptr`, idle. There is no
    /// thread at the null address.
    #[inline]
    pub fn from_raw(ptr: usize) -> (thread: Option<Self>)
        ensures
            thread is None <==> ptr == 0,
            thread matches Some(made) ==> made@ == ThreadView::idle(ptr),
    {
        if ptr == 0 {
            None
        } else {
            Some(Self::from_raw_unchecked(ptr))
        }
    }

    /// The thread of the engine at the address `ptr`, which the caller
    /// knows not to be null.
    #[inline]
    pub fn from_raw_unchecked(ptr: usize) -> (thread: Self)
        requires
            ptr != 0,
        ensures
            thread@ == ThreadView::idle(ptr),
    {
        Thread {
            ptr,
            stack: Vec::new(),
            callee: Value::null(),
            args: Vec::new(),
            returned: Value::null(),
        }
    }

    /// The address of the engine's thread.
    #[inline]
    pub fn as_ptr(&self) -> (ptr: usize)
        ensures
            ptr == self@.ptr,
    {
        self.ptr
    }

    /// How many arguments the call in progress has.
    pub fn argc(&self) -> (count: u8)
        ensures
            count == self@.argc(),
    {
        if self.args.len() <= 255 {
            self.args.len() as u8
        } else {
            255
        }
    }

    /// Take argument `idx` of the call in progress as a `T`. An index at or
    /// beyond `argc` is an error, never a read beyond the arguments.
    pub fn get_arg<T: FromBoltValue>(&self, idx: u8, ctx: &Context) -> (taken: Result<T, ArgError>)
        ensures
            taken == self@.arg_taken::<T>(idx, ctx@),
            idx >= self@.argc() ==> taken == Err::<T, ArgError>(
                ArgError::IndexOutOfBounds { idx, len: self@.argc() },
            ),
            idx < self@.argc() ==> taken == T::taken(self@.args[idx as int], ctx@),
    {
        let len = self.argc();
        match check_arg_index(idx, len) {
            Ok(()) => {
                let val = self.args[idx as usize];
                T::from(val, ctx)
            },
            Err(err) => Err(err),
        }
    }

    /// Take argument `idx` of the call in progress as a `T`, without
    /// checking the index or the kind of the argument. The caller answers
    /// for both.
    pub fn get_arg_unchecked<T: FromBoltValue>(&self, idx: u8, ctx: &Context) -> (taken: T)
        requires
            self@.arg_taken::<T>(idx, ctx@) is Ok,
        ensures
            self@.arg_taken::<T>(idx, ctx@) == Ok::<T, ArgError>(taken),
    {
        let val = self.args[idx as usize];
        T::from_unchecked(val, ctx)
    }

    /// Push `value`: the callable first, then its arguments in order.
    pub fn push<T: MakeBoltValue>(&mut self, value: &T)
        ensures
            final(self)@ == (ThreadView {
                stack: old(self)@.stack.push(value.made()),
                ..old(self)@
            }),
    {
        self.stack.push(value.make());
    }

    /// Call what was pushed with the newest `argc` values as arguments.
    /// This makes the frame of the callee; running the callee is the part
    /// of whoever owns it. Where fewer than `argc + 1` values were pushed,
    /// nothing is called.
    pub fn call(&mut self, argc: u8)
        ensures
            final(self)@ == old(self)@.called(argc),
    {
        let count: usize = argc as usize;
        if self.stack.len() <= count {
            return ;
        }
        let base: usize = self.stack.len() - count - 1;
        let mut args: Vec<Value> = Vec::new();
        let mut i: usize = base + 1;
        while i < self.stack.len()
            invariant
                base + 1 <= i <= self.stack.len(),
                args@ == self.stack@.subrange(base + 1, i as int),
            decreases self.stack.len() - i,
        {
            args.push(self.stack[i]);
            i += 1;
        }
        self.callee = self.stack[base];
        self.args = args;
        self.returned = Value::null();
        self.stack.truncate(base);
    }

    /// What is being called; null outside a call.
    pub fn callee(&self) -> (callee: Value)
        ensures
            callee == self@.callee,
    {
        self.callee
    }

    /// Set the result of the call in progress.
    pub fn return_val<T: MakeBoltValue>(&mut self, val: &T)
        ensures
            final(self)@ == (ThreadView { returned: val.made(), ..old(self)@ }),
    {
        self.returned = val.make();
    }

    /// Take the result of the last call as a `T`.
    pub fn get_returned<T: FromBoltValue>(&self, ctx: &Context) -> (taken: Result<T, ArgError>)
        ensures
            taken == T::taken(self@.returned, ctx@),
    {
        T::from(self.returned, ctx)
    }

    /// Take the result of the last call as a `T`, without checking its
    /// kind. The caller answers for it.
    pub fn get_returned_unchecked<T: FromBoltValue>(&self, ctx: &Context) -> (taken: T)
        requires
            T::taken(self@.returned, ctx@) is Ok,
        ensures
            T::taken(self@.returned, ctx@) == Ok::<T, ArgError>(taken),
    {
        T::from_unchecked(self.returned, ctx)
    }
}

impl ContextView {
    /// Whether one more thread can be made.
    pub open spec fn has_thread_room(self) -> bool {
        self.threads.len() < MAX_OBJECTS
    }

    /// The address that the next thread will get.
    pub open spec fn next_thread(self) -> usize {
        ((self.threads.len() + 1) * 8) as usize
    }

    /// Whether a thread made by this context and not destroyed lies at `ptr`.
    pub open spec fn has_thread(self, ptr: usize) -> bool {
        ptr != 0 && ptr % 8 == 0 && ptr / 8 <= self.threads.len() && self.threads[ptr / 8 - 1]
    }

    /// The context without the thread at `ptr`.
    pub open spec fn without_thread(self, ptr: usize) -> ContextView {
        if self.has_thread(ptr) {
            ContextView { threads: self.threads.update(ptr / 8 - 1, false), ..self }
        } else {
            self
        }
    }
}

impl Context {
    /// Make a thread, idle. Gives none, and changes nothing, where no more
    /// threads can be made.
    pub fn make_thread(&mut self) -> (thread: Option<Thread>)
        ensures
            thread is Some == old(self)@.has_thread_room(),
            thread matches Some(made) ==> made@ == ThreadView::idle(old(self)@.next_thread())
                && final(self)@ == (ContextView {
                threads: old(self)@.threads.push(true),
                ..old(self)@
            }),
            thread is None ==> final(self)@ == old(self)@,
    {
        if self.threads.len() >= MAX_OBJECTS {
            return None;
        }
        let ptr: usize = (self.threads.len() + 1) * 8;
        self.threads.push(true);
        assert(self@.heap =~= old(self)@.heap);
        Thread::from_raw(ptr)
    }

    /// Whether `thread` was made by this context and not destroyed.
    pub fn has_thread(&self, thread: &Thread) -> (known: bool)
        ensures
            known == self@.has_thread(thread.ptr),
    {
        let ptr = thread.ptr;
        if ptr == 0 || ptr % 8 != 0 {
            return false;
        }
        let number: usize = ptr / 8;
        if number > self.threads.len() {
            return false;
        }
        self.threads[number - 1]
    }

    /// Destroy `thread`. A thread of another context is only dropped.
    pub fn destroy_thread(&mut self, thread: Thread)
        ensures
            final(self)@ == old(self)@.without_thread(thread.ptr),
    {
        if self.has_thread(&thread) {
            let index: usize = thread.ptr / 8 - 1;
            self.threads[index] = false;
            assert(self@.heap =~= old(self)@.heap);
        }
    }

    /// Call `callable` on `thread` without arguments: it is pushed and
    /// called. Says whether `callable` is a live object of this context
    /// that can be called: a function, a native function or a closure.
    /// Where it is not, the thread is left as it was.
    pub fn execute_on_thread<T: MakeBoltValue>(&self, thread: &mut Thread, callable: &T) -> (called:
        bool)
        ensures
            called == self@.is_callable(callable.made()),
            called ==> final(thread)@ == (ThreadView {
                stack: old(thread)@.stack.push(callable.made()),
                ..old(thread)@
            }).called(0),
            !called ==> final(thread)@ == old(thread)@,
    {
        let value = callable.make();
        if !self.is_callable(value) {
            return false;
        }
        thread.stack.push(value);
        thread.call(0);
        true
    }

    /// Whether `val` holds a live object that can be called.
    pub fn is_callable(&self, val: Value) -> (callable: bool)
        ensures
            callable == self@.is_callable(val),
    {
        match self.object_in(val) {
            Some(obj) => {
                let kind = self.object_type(obj);
                kind == crate::bt_object::ObjectType::Function || kind
                    == crate::bt_object::ObjectType::NativeFunction || kind
                    == crate::bt_object::ObjectType::Closure
            },
            None => false,
        }
    }
}

impl ContextView {
    /// Whether `val` holds a live object that can be called: a function, a
    /// native function or a closure.
    pub open spec fn is_callable(self, val: Value) -> bool {
        match self.object_in(val) {
            Some(ptr) => self.kind(ptr) == crate::bt_object::ObjectType::Function || self.kind(ptr)
                == crate::bt_object::ObjectType::NativeFunction || self.kind(ptr)
                == crate::bt_object::ObjectType::Closure,
            None => false,
        }
    }
}

/// Argument bounds. Taking an argument at or beyond the argument count is
/// an index error that names the index and the count; taking one below
/// the count is decided by the kind of the argument alone.
pub proof fn lemma_argument_bounds<T: FromBoltValue>(thread: ThreadView, idx: u8, ctx: ContextView)
    ensures
        idx >= thread.argc() ==> thread.arg_taken::<T>(idx, ctx) == Err::<T, ArgError>(
            ArgError::IndexOutOfBounds { idx, len: thread.argc() },
        ),
        idx < thread.argc() ==> thread.arg_taken::<T>(idx, ctx) == T::taken(
            thread.args[idx as int],
            ctx,
        ),
{
}

/// What is pushed is what the callee gets: after pushing a callable and
/// `n` arguments and calling with `n`, the callee is the callable, the
/// arguments are those pushed, in order, and the stack is as it was.
pub proof fn lemma_pushed_arguments_arrive(thread: ThreadView, callable: Value, args: Seq<Value>)
    requires
        args.len() <= 255,
    ensures
        ({
            let pushed = ThreadView { stack: thread.stack.push(callable) + args, ..thread };
            let after = pushed.called(args.len() as u8);
            &&& after.callee == callable
            &&& after.args == args
            &&& after.argc() == args.len()
            &&& after.stack == thread.stack
        }),
{
    let pushed = ThreadView { stack: thread.stack.push(callable) + args, ..thread };
    let after = pushed.called(args.len() as u8);
    assert(after.args =~= args);
    assert(after.stack =~= thread.stack);
}

} // verus!
