//! Undo/redo history of view changes.

use vstd::prelude::*;
use std::collections::HashSet;
use crate::types::{SortBy, Tab};

verus! {

/// A view change that can be undone; each variant holds the state before
/// the change.
#[derive(Debug)]
pub enum UndoableAction {
    /// Selection change (previous selection).
    Selection(HashSet<String>),
    /// Filter/search change (previous query).
    Filter(String),
    /// Tab switch (previous tab).
    TabSwitch(Tab),
    /// Sort change (previous sort).
    Sort(SortBy),
}

/// Bounded undo and redo stacks.
#[derive(Debug)]
pub struct ActionHistory {
    pub undo_stack: Vec<UndoableAction>,
    pub redo_stack: Vec<UndoableAction>,
    max_size: usize,
}

/// `stack` after pushing `a` onto a stack bounded by `max`: the oldest
/// entry leaves first when the stack is full.
pub open spec fn bounded_push<T>(stack: Seq<T>, a: T, max: nat) -> Seq<T> {
    if stack.len() >= max {
        stack.drop_first().push(a)
    } else {
        stack.push(a)
    }
}

impl ActionHistory {
    /// The undo stack, oldest first.
    pub closed spec fn undos(self) -> Seq<UndoableAction> {
        self.undo_stack@
    }

    /// The redo stack, oldest first.
    pub closed spec fn redos(self) -> Seq<UndoableAction> {
        self.redo_stack@
    }

    /// The bound on each stack.
    pub closed spec fn max_len(self) -> nat {
        self.max_size as nat
    }

    /// Whether a push onto a stack of length `len` can go ahead: a full
    /// stack drops its oldest entry, which an empty stack does not have.
    pub open spec fn can_push_onto(self, len: nat) -> bool {
        len > 0 || self.max_len() > 0
    }

    pub fn new(max_size: usize) -> (r: ActionHistory)
        ensures
            r.undos().len() == 0,
            r.redos().len() == 0,
            r.max_len() == max_size,
    {
        ActionHistory { undo_stack: Vec::new(), redo_stack: Vec::new(), max_size }
    }

    /// Push an action on the undo stack; a new action clears the redo stack.
    pub fn push(&mut self, action: UndoableAction)
        requires
            old(self).can_push_onto(old(self).undos().len()),
        ensures
            final(self).undos() == bounded_push(
                old(self).undos(),
                action,
                old(self).max_len(),
            ),
            final(self).redos().len() == 0,
            final(self).max_len() == old(self).max_len(),
    {
        if self.undo_stack.len() >= self.max_size {
            self.undo_stack.remove(0);
        }
        self.undo_stack.push(action);
        self.redo_stack.clear();
    }

    /// Pop the most recent action for undo.
    pub fn pop_undo(&mut self) -> (r: Option<UndoableAction>)
        ensures
            old(self).undos().len() == 0 ==> r is None && final(self).undos()
                == old(self).undos(),
            old(self).undos().len() > 0 ==> r == Some(old(self).undos().last())
                && final(self).undos() == old(self).undos().drop_last(),
            final(self).redos() == old(self).redos(),
            final(self).max_len() == old(self).max_len(),
    {
        self.undo_stack.pop()
    }

    /// Push an action on the redo stack.
    pub fn push_redo(&mut self, action: UndoableAction)
        requires
            old(self).can_push_onto(old(self).redos().len()),
        ensures
            final(self).redos() == bounded_push(
                old(self).redos(),
                action,
                old(self).max_len(),
            ),
            final(self).undos() == old(self).undos(),
            final(self).max_len() == old(self).max_len(),
    {
        if self.redo_stack.len() >= self.max_size {
            self.redo_stack.remove(0);
        }
        self.redo_stack.push(action);
    }

    /// Pop the most recently undone action for redo.
    pub fn pop_redo(&mut self) -> (r: Option<UndoableAction>)
        ensures
            old(self).redos().len() == 0 ==> r is None && final(self).redos()
                == old(self).redos(),
            old(self).redos().len() > 0 ==> r == Some(old(self).redos().last())
                && final(self).redos() == old(self).redos().drop_last(),
            final(self).undos() == old(self).undos(),
            final(self).max_len() == old(self).max_len(),
    {
        self.redo_stack.pop()
    }

    /// Push an action on the undo stack without the bound and without
    /// touching the redo stack, as redo does.
    pub(crate) fn push_undo_unbounded(&mut self, action: UndoableAction)
        ensures
            final(self).undos() == old(self).undos().push(action),
            final(self).redos() == old(self).redos(),
            final(self).max_len() == old(self).max_len(),
    {
        self.undo_stack.push(action);
    }

    pub fn can_undo(&self) -> (r: bool)
        ensures
            r == (self.undos().len() > 0),
    {
        !self.undo_stack.is_empty()
    }

    pub fn can_redo(&self) -> (r: bool)
        ensures
            r == (self.redos().len() > 0),
    {
        !self.redo_stack.is_empty()
    }
}

/// The most recent push is what undo gives back first, and a push leaves
/// nothing to redo.
pub proof fn law_push_then_undo(stack: Seq<UndoableAction>, a: UndoableAction, max: nat)
    requires
        stack.len() > 0 || max > 0,
    ensures
        bounded_push(stack, a, max).len() > 0,
        bounded_push(stack, a, max).last() == a,
        bounded_push(stack, a, max).drop_last() == (if stack.len() >= max {
            stack.drop_first()
        } else {
            stack
        }),
{
    if stack.len() >= max {
        assert(stack.drop_first().push(a).drop_last() =~= stack.drop_first());
    } else {
        assert(stack.push(a).drop_last() =~= stack);
    }
}

/// A stack that holds at most `max` entries still does after a push, and
/// the entries kept are the most recent ones in their order.
pub proof fn law_push_bounded(stack: Seq<UndoableAction>, a: UndoableAction, max: nat)
    requires
        stack.len() <= max,
        max > 0,
    ensures
        bounded_push(stack, a, max).len() <= max,
        bounded_push(stack, a, max) == (stack.push(a)).subrange(
            (stack.len() + 1 - bounded_push(stack, a, max).len()) as int,
            (stack.len() + 1) as int,
        ),
{
    if stack.len() >= max {
        assert(stack.drop_first().push(a) =~= stack.push(a).subrange(1, stack.len() + 1 as int));
    } else {
        assert(stack.push(a) =~= stack.push(a).subrange(0, stack.len() + 1 as int));
    }
}

} // verus!
