//! The view state that undo and redo act on: the multi-selection, the
//! search query, the tab and the sort order, with their history.

use vstd::prelude::*;
use std::collections::HashSet;
use crate::history::{bounded_push, ActionHistory, UndoableAction};
use crate::types::{SortBy, Tab};

verus! {

/// What an undoable action holds, as plain values.
pub enum ActionView {
    Selection(Set<String>),
    Filter(Seq<char>),
    TabSwitch(Tab),
    Sort(SortBy),
}

/// The plain value of an undoable action.
pub open spec fn action_view(a: UndoableAction) -> ActionView {
    match a {
        UndoableAction::Selection(s) => ActionView::Selection(s@),
        UndoableAction::Filter(q) => ActionView::Filter(q@),
        UndoableAction::TabSwitch(t) => ActionView::TabSwitch(t),
        UndoableAction::Sort(s) => ActionView::Sort(s),
    }
}

/// Plain values of a stack of actions.
pub open spec fn action_views(s: Seq<UndoableAction>) -> Seq<ActionView> {
    s.map_values(|a: UndoableAction| action_view(a))
}

/// Which part of the view an undo or redo changed.
#[derive(Debug, Clone, Copy, PartialEq, Eq, Structural)]
pub enum HistoryKind {
    Selection,
    Filter,
    TabSwitch,
    Sort,
}

/// The view state and its history as plain values.
pub struct ViewModel {
    pub selection: Set<String>,
    pub query: Seq<char>,
    pub tab: Tab,
    pub sort: SortBy,
    pub undos: Seq<ActionView>,
    pub redos: Seq<ActionView>,
    pub max: nat,
}

impl ViewModel {
    /// The current value of the part of the view that `a` is about.
    pub open spec fn current(self, a: ActionView) -> ActionView {
        match a {
            ActionView::Selection(_) => ActionView::Selection(self.selection),
            ActionView::Filter(_) => ActionView::Filter(self.query),
            ActionView::TabSwitch(_) => ActionView::TabSwitch(self.tab),
            ActionView::Sort(_) => ActionView::Sort(self.sort),
        }
    }

    /// `self` with the part of the view that `a` is about set to `a`.
    pub open spec fn apply(self, a: ActionView) -> ViewModel {
        match a {
            ActionView::Selection(s) => ViewModel { selection: s, ..self },
            ActionView::Filter(q) => ViewModel { query: q, ..self },
            ActionView::TabSwitch(t) => ViewModel { tab: t, ..self },
            ActionView::Sort(s) => ViewModel { sort: s, ..self },
        }
    }

    /// Undo: the latest undo entry is restored and the current value goes
    /// on the (bounded) redo stack.
    pub open spec fn undo(self) -> ViewModel {
        if self.undos.len() == 0 {
            self
        } else {
            let a = self.undos.last();
            let m = self.apply(a);
            ViewModel {
                undos: self.undos.drop_last(),
                redos: bounded_push(self.redos, self.current(a), self.max),
                ..m
            }
        }
    }

    /// Redo: the latest redo entry is applied and the current value goes
    /// back on the undo stack.
    pub open spec fn redo(self) -> ViewModel {
        if self.redos.len() == 0 {
            self
        } else {
            let a = self.redos.last();
            let m = self.apply(a);
            ViewModel { redos: self.redos.drop_last(), undos: self.undos.push(self.current(a)), ..m }
        }
    }
}

/// The kind of an action.
pub open spec fn kind_of(a: ActionView) -> HistoryKind {
    match a {
        ActionView::Selection(_) => HistoryKind::Selection,
        ActionView::Filter(_) => HistoryKind::Filter,
        ActionView::TabSwitch(_) => HistoryKind::TabSwitch,
        ActionView::Sort(_) => HistoryKind::Sort,
    }
}

/// Copy of a selection set.
///
/// Calls `HashSet::clone`, which this contract takes to return a set with
/// the same elements, as its documentation says.
#[verifier::external_body]
fn clone_selection(s: &HashSet<String>) -> (r: HashSet<String>)
    ensures
        r@ == s@,
{
    s.clone()
}

/// The selection, search query, tab and sort of the tool list, with the
/// history of their changes.
pub struct ViewState {
    pub selected_tools: HashSet<String>,
    pub search_query: String,
    pub tab: Tab,
    pub sort_by: SortBy,
    pub history: ActionHistory,
}

impl ViewState {
    pub open spec fn view(&self) -> ViewModel {
        ViewModel {
            selection: self.selected_tools@,
            query: self.search_query@,
            tab: self.tab,
            sort: self.sort_by,
            undos: action_views(self.history.undos()),
            redos: action_views(self.history.redos()),
            max: self.history.max_len(),
        }
    }

    /// Nothing selected, empty query, first tab, name order, and a history
    /// of `max_history` entries per stack.
    pub fn new(max_history: usize) -> (r: ViewState)
        ensures
            r.view().selection.len() == 0,
            r.view().query.len() == 0,
            r.tab == Tab::Installed,
            r.sort_by == SortBy::Name,
            r.view().undos.len() == 0,
            r.view().redos.len() == 0,
            r.view().max == max_history,
    {
        let r = ViewState {
            selected_tools: HashSet::new(),
            search_query: String::new(),
            tab: Tab::Installed,
            sort_by: SortBy::Name,
            history: ActionHistory::new(max_history),
        };
        proof {
            assert(r.view().undos =~= Seq::<ActionView>::empty());
            assert(r.view().redos =~= Seq::<ActionView>::empty());
        }
        r
    }

    /// Record the current selection for undo.
    pub fn record_selection(&mut self)
        requires
            old(self).history.can_push_onto(old(self).history.undos().len()),
        ensures
            final(self).view() == (ViewModel {
                undos: bounded_push(
                    old(self).view().undos,
                    ActionView::Selection(old(self).view().selection),
                    old(self).view().max,
                ),
                redos: Seq::empty(),
                ..old(self).view()
            }),
    {
        let snapshot = clone_selection(&self.selected_tools);
        let ghost before = self.history.undos();
        self.history.push(UndoableAction::Selection(snapshot));
        proof {
            lemma_views_bounded_push(before, UndoableAction::Selection(snapshot), self.history.max_len());
            assert(action_views(self.history.redos()) =~= Seq::<ActionView>::empty());
        }
    }

    /// Record the current search query for undo.
    pub fn record_filter(&mut self)
        requires
            old(self).history.can_push_onto(old(self).history.undos().len()),
        ensures
            final(self).view() == (ViewModel {
                undos: bounded_push(
                    old(self).view().undos,
                    ActionView::Filter(old(self).view().query),
                    old(self).view().max,
                ),
                redos: Seq::empty(),
                ..old(self).view()
            }),
    {
        let snapshot = self.search_query.clone();
        let ghost before = self.history.undos();
        self.history.push(UndoableAction::Filter(snapshot));
        proof {
            lemma_views_bounded_push(before, UndoableAction::Filter(snapshot), self.history.max_len());
            assert(action_views(self.history.redos()) =~= Seq::<ActionView>::empty());
        }
    }

    /// Snapshot of the current value of the part of the view that `a` is about.
    fn snapshot_for(&self, a: &UndoableAction) -> (r: UndoableAction)
        ensures
            action_view(r) == self.view().current(action_view(*a)),
    {
        match a {
            UndoableAction::Selection(_) => UndoableAction::Selection(
                clone_selection(&self.selected_tools),
            ),
            UndoableAction::Filter(_) => UndoableAction::Filter(self.search_query.clone()),
            UndoableAction::TabSwitch(_) => UndoableAction::TabSwitch(self.tab),
            UndoableAction::Sort(_) => UndoableAction::Sort(self.sort_by),
        }
    }

    /// Set the part of the view that `a` is about to `a`.
    fn apply_action(&mut self, a: UndoableAction)
        ensures
            final(self).view() == old(self).view().apply(action_view(a)),
    {
        match a {
            UndoableAction::Selection(prev) => {
                self.selected_tools = prev;
            },
            UndoableAction::Filter(prev) => {
                self.search_query = prev;
            },
            UndoableAction::TabSwitch(prev) => {
                self.tab = prev;
            },
            UndoableAction::Sort(prev) => {
                self.sort_by = prev;
            },
        }
    }

    /// Undo the last change; returns which part of the view it restored,
    /// or `None` when there is nothing to undo.
    pub fn undo(&mut self) -> (r: Option<HistoryKind>)
        requires
            old(self).history.can_push_onto(old(self).history.redos().len()),
        ensures
            final(self).view() == old(self).view().undo(),
            old(self).view().undos.len() == 0 ==> r is None,
            old(self).view().undos.len() > 0 ==> r == Some(
                kind_of(old(self).view().undos.last()),
            ),
    {
        let ghost old_view = self.view();
        let ghost old_undos = self.history.undos();
        match self.history.pop_undo() {
            Some(action) => {
                let redo_action = self.snapshot_for(&action);
                let ghost redos_before = self.history.redos();
                let kind = kind_of_action(&action);
                self.history.push_redo(redo_action);
                proof {
                    lemma_views_bounded_push(redos_before, redo_action, self.history.max_len());
                    assert(action_views(old_undos).drop_last() =~= action_views(old_undos.drop_last()));
                }
                self.apply_action(action);
                Some(kind)
            },
            None => None,
        }
    }

    /// Redo the last undone change; returns which part of the view it
    /// changed, or `None` when there is nothing to redo.
    pub fn redo(&mut self) -> (r: Option<HistoryKind>)
        ensures
            final(self).view() == old(self).view().redo(),
            old(self).view().redos.len() == 0 ==> r is None,
            old(self).view().redos.len() > 0 ==> r == Some(
                kind_of(old(self).view().redos.last()),
            ),
    {
        let ghost old_redos = self.history.redos();
        match self.history.pop_redo() {
            Some(action) => {
                let undo_action = self.snapshot_for(&action);
                let ghost undos_before = self.history.undos();
                let kind = kind_of_action(&action);
                self.history.push_undo_unbounded(undo_action);
                proof {
                    assert(action_views(undos_before.push(undo_action)) =~= action_views(
                        undos_before,
                    ).push(action_view(undo_action)));
                    assert(action_views(old_redos).drop_last() =~= action_views(old_redos.drop_last()));
                }
                self.apply_action(action);
                Some(kind)
            },
            None => None,
        }
    }
}

fn kind_of_action(a: &UndoableAction) -> (r: HistoryKind)
    ensures
        r == kind_of(action_view(*a)),
{
    match a {
        UndoableAction::Selection(_) => HistoryKind::Selection,
        UndoableAction::Filter(_) => HistoryKind::Filter,
        UndoableAction::TabSwitch(_) => HistoryKind::TabSwitch,
        UndoableAction::Sort(_) => HistoryKind::Sort,
    }
}

proof fn lemma_views_bounded_push(s: Seq<UndoableAction>, a: UndoableAction, max: nat)
    requires
        s.len() > 0 || max > 0,
    ensures
        action_views(bounded_push(s, a, max)) == bounded_push(action_views(s), action_view(a), max),
{
    if s.len() >= max {
        assert(action_views(s.drop_first().push(a)) =~= action_views(s).drop_first().push(
            action_view(a),
        ));
    } else {
        assert(action_views(s.push(a)) =~= action_views(s).push(action_view(a)));
    }
}

/// Undo followed by redo gives back the view and both stacks, whenever
/// there was something to undo and the redo stack had room.
pub proof fn law_undo_then_redo(m: ViewModel)
    requires
        m.undos.len() > 0,
        m.redos.len() < m.max,
    ensures
        m.undo().redo() == m,
{
    let a = m.undos.last();
    let u = m.undo();
    assert(u.redos == m.redos.push(m.current(a)));
    assert(u.redos.drop_last() =~= m.redos);
    assert(u.undos.push(u.current(m.current(a))) =~= m.undos);
}

/// Redo followed by undo gives back the view and both stacks, whenever
/// there was something to redo and the redo stack was within its bound.
pub proof fn law_redo_then_undo(m: ViewModel)
    requires
        m.redos.len() > 0,
        m.redos.len() <= m.max,
    ensures
        m.redo().undo() == m,
{
    let a = m.redos.last();
    let r = m.redo();
    assert(r.undos.drop_last() =~= m.undos);
    assert(r.redos.len() < m.max);
    assert(bounded_push(r.redos, r.current(m.current(a)), m.max) =~= m.redos);
}

/// Recording a value, changing it, and undoing gives the recorded value
/// back.
pub proof fn law_record_then_undo(m: ViewModel, a: ActionView, changed: ActionView)
    requires
        m.undos.len() > 0 || m.max > 0,
        kind_of(changed) == kind_of(a),
    ensures
        ({
            let recorded = ViewModel {
                undos: bounded_push(m.undos, m.current(a), m.max),
                redos: Seq::empty(),
                ..m
            };
            recorded.apply(changed).undo().current(a) == m.current(a)
        }),
{
    let recorded = ViewModel {
        undos: bounded_push(m.undos, m.current(a), m.max),
        redos: Seq::empty(),
        ..m
    };
    if m.undos.len() >= m.max {
        assert(recorded.undos.last() == m.current(a));
    } else {
        assert(recorded.undos.last() == m.current(a));
    }
}

} // verus!
