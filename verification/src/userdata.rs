//! The stack of caller contexts.
//!
//! An operation that may lead the engine to call back into the caller pushes
//! the context of its connection before it starts and drops it when it is
//! done. A callback that the engine makes on its own initiative finds the
//! context of the operation in flight at the top of the stack. Each thread
//! keeps a stack of its own.
use vstd::prelude::*;

verus! {

/// What can be wrong when a context is dropped.
#[derive(Clone, Copy, Debug, PartialEq, Eq, Structural)]
pub enum UserdataError {
    /// The stack held no context.
    EmptyStack,
    /// The context at the top was not the one that was pushed.
    WrongData,
}

/// The contexts of the operations in flight on one thread, innermost last.
pub struct Userdata {
    stack: Vec<usize>,
}

/// The proof that a context was pushed, and the duty to drop it. It
/// remembers the context, so that dropping can tell whether the stack is
/// still in step.
pub struct UserdataGuard {
    data: usize,
}

/// The stack after `userdata` was pushed on `stack`.
pub open spec fn spec_push(stack: Seq<usize>, userdata: usize) -> Seq<usize> {
    stack.push(userdata)
}

/// The stack after a context was dropped from `stack`: the top is taken off
/// if there is one, whether or not it is the expected context.
pub open spec fn spec_drop(stack: Seq<usize>) -> Seq<usize> {
    if stack.len() == 0 {
        stack
    } else {
        stack.drop_last()
    }
}

/// Whether dropping the context `expected` from `stack` finds the stack in
/// step, and what is wrong if it does not.
pub open spec fn spec_drop_result(stack: Seq<usize>, expected: usize) -> Result<(), UserdataError> {
    if stack.len() == 0 {
        Err(UserdataError::EmptyStack)
    } else if stack.last() == expected {
        Ok(())
    } else {
        Err(UserdataError::WrongData)
    }
}

/// The stack after the contexts of `pushed` were pushed on `stack`, first to
/// last.
pub open spec fn spec_push_all(stack: Seq<usize>, pushed: Seq<usize>) -> Seq<usize> {
    stack + pushed
}

/// The stack after as many contexts were dropped from `stack` as `pushed`
/// holds.
pub open spec fn spec_drop_all(stack: Seq<usize>, pushed: Seq<usize>) -> Seq<usize>
    decreases pushed.len(),
{
    if pushed.len() == 0 {
        stack
    } else {
        spec_drop_all(spec_drop(stack), pushed.drop_last())
    }
}

/// Whether dropping the contexts of `pushed` from `stack`, last to first,
/// finds the stack in step each time.
pub open spec fn spec_drop_all_in_step(stack: Seq<usize>, pushed: Seq<usize>) -> bool
    decreases pushed.len(),
{
    if pushed.len() == 0 {
        true
    } else {
        spec_drop_result(stack, pushed.last()) is Ok && spec_drop_all_in_step(
            spec_drop(stack),
            pushed.drop_last(),
        )
    }
}

impl View for Userdata {
    type V = Seq<usize>;

    closed spec fn view(&self) -> Seq<usize> {
        self.stack@
    }
}

impl UserdataGuard {
    /// The context that the guard was given for.
    pub closed spec fn expected(&self) -> usize {
        self.data
    }
}

impl Userdata {
    /// An empty stack.
    pub fn new() -> (r: Self)
        ensures
            r@ == Seq::<usize>::empty(),
    {
        Userdata { stack: Vec::new() }
    }

    /// The number of operations in flight.
    pub fn depth(&self) -> (n: usize)
        ensures
            n == self@.len(),
    {
        self.stack.len()
    }

    /// Pushes `userdata` as the context of an operation that starts, and
    /// returns the guard with which it is to be dropped.
    pub fn userdata_push(&mut self, userdata: usize) -> (guard: UserdataGuard)
        ensures
            final(self)@ == spec_push(old(self)@, userdata),
            guard.expected() == userdata,
    {
        self.stack.push(userdata);
        UserdataGuard { data: userdata }
    }

    /// The context of the innermost operation in flight: what a callback
    /// that the engine makes now is to be given. There is none between
    /// operations.
    pub fn userdata_get(&self) -> (r: Option<usize>)
        ensures
            r == if self@.len() == 0 {
                None
            } else {
                Some(self@.last())
            },
    {
        let n: usize = self.stack.len();
        if n == 0 {
            None
        } else {
            Some(self.stack[n - 1])
        }
    }

    /// Drops the context of an operation that ends. The top of the stack is
    /// taken off if there is one. It is an error if there is none, or if it
    /// is not the context that the guard was given for: the stack was then
    /// out of step.
    pub fn try_drop(&mut self, guard: UserdataGuard) -> (r: Result<(), UserdataError>)
        ensures
            final(self)@ == spec_drop(old(self)@),
            r == spec_drop_result(old(self)@, guard.expected()),
    {
        match self.stack.pop() {
            None => Err(UserdataError::EmptyStack),
            Some(top) => if top == guard.data {
                Ok(())
            } else {
                Err(UserdataError::WrongData)
            },
        }
    }
}

/// An operation that pushes its context and drops it again leaves the stack
/// as it found it, and finds it in step.
pub proof fn lemma_push_then_drop_restores(stack: Seq<usize>, userdata: usize)
    ensures
        spec_drop(spec_push(stack, userdata)) == stack,
        spec_drop_result(spec_push(stack, userdata), userdata) is Ok,
{
    assert(stack.push(userdata).drop_last() =~= stack);
}

/// While an operation is in flight its context is the one that callbacks
/// are given, whatever was in flight before it.
pub proof fn lemma_top_is_innermost(stack: Seq<usize>, userdata: usize)
    ensures
        spec_push(stack, userdata).len() > 0,
        spec_push(stack, userdata).last() == userdata,
{
}

/// Operations that nest, each dropping its context before the one around it
/// does, leave the stack as the outermost found it, and each finds the stack
/// in step, however deep the nesting.
pub proof fn lemma_nested_operations_restore(stack: Seq<usize>, pushed: Seq<usize>)
    ensures
        spec_drop_all(spec_push_all(stack, pushed), pushed) == stack,
        spec_drop_all_in_step(spec_push_all(stack, pushed), pushed),
    decreases pushed.len(),
{
    if pushed.len() == 0 {
        assert(stack + pushed =~= stack);
    } else {
        let inner = pushed.drop_last();
        assert((stack + pushed).drop_last() =~= stack + inner);
        assert((stack + pushed).last() == pushed.last());
        lemma_nested_operations_restore(stack, inner);
    }
}

/// A context that was pushed and never dropped is found out: when the
/// operation around it drops its own context, the stack is out of step
/// unless the two contexts happen to be the same.
pub proof fn lemma_leak_is_detected(stack: Seq<usize>, outer: usize, leaked: usize)
    requires
        outer != leaked,
    ensures
        spec_drop_result(spec_push(spec_push(stack, outer), leaked), outer) == Err::<(), UserdataError>(
            UserdataError::WrongData,
        ),
{
}

} // verus!
