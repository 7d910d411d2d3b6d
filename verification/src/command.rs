//! Command palette input with a bounded, navigable command history.

use vstd::prelude::*;

verus! {

/// Plain view of the palette.
pub struct PaletteView {
    pub input: Seq<char>,
    pub history: Seq<Seq<char>>,
    /// Position in the history while navigating it.
    pub index: Option<int>,
    /// The input typed before navigation started.
    pub temp: Seq<char>,
    pub max_history: nat,
}

/// Characters of each string.
pub open spec fn strings_view(v: Seq<String>) -> Seq<Seq<char>> {
    v.map_values(|s: String| s@)
}

/// Command palette input (after ':') and its history.
#[derive(Debug)]
pub struct CommandPalette {
    /// Current command input.
    pub input: String,
    history: Vec<String>,
    history_index: Option<usize>,
    history_temp: String,
    max_history: usize,
}

/// Number of commands kept in the history.
pub const MAX_COMMAND_HISTORY: usize = 50;

impl PaletteView {
    /// The history position is valid and the history within its bound.
    pub open spec fn wf(self) -> bool {
        &&& self.max_history > 0
        &&& self.history.len() <= self.max_history
        &&& (self.index matches Some(i) ==> 0 <= i < self.history.len())
    }

    /// Step back in the history (towards older commands).
    pub open spec fn prev(self) -> PaletteView {
        if self.history.len() == 0 {
            self
        } else {
            match self.index {
                None => PaletteView {
                    temp: self.input,
                    index: Some(self.history.len() - 1),
                    input: self.history.last(),
                    ..self
                },
                Some(i) => if i == 0 {
                    PaletteView { input: self.history[0], ..self }
                } else {
                    PaletteView { index: Some(i - 1), input: self.history[i - 1], ..self }
                },
            }
        }
    }

    /// Step forward in the history; past the newest command the typed
    /// input comes back.
    pub open spec fn next(self) -> PaletteView {
        match self.index {
            None => self,
            Some(i) => if i + 1 >= self.history.len() {
                PaletteView { index: None, input: self.temp, ..self }
            } else {
                PaletteView { index: Some(i + 1), input: self.history[i + 1], ..self }
            },
        }
    }

    /// Add a command to the history unless it is empty or repeats the
    /// last one; the oldest command leaves when the history is full.
    pub open spec fn add(self, cmd: Seq<char>) -> PaletteView {
        if cmd.len() == 0 || (self.history.len() > 0 && self.history.last() == cmd) {
            self
        } else {
            let h = self.history.push(cmd);
            PaletteView {
                history: if h.len() > self.max_history {
                    h.drop_first()
                } else {
                    h
                },
                ..self
            }
        }
    }
}

/// Appends a character with `String::push`, which adds it at the end of
/// the string.
#[verifier::external_body]
fn string_push(s: &mut String, c: char)
    ensures
        final(s)@ == old(s)@.push(c),
{
    s.push(c)
}

/// Removes the last character with `String::pop`, which leaves an empty
/// string as it is; the removed character is returned as `String::pop`
/// returns it.
#[verifier::external_body]
fn string_pop(s: &mut String) -> (r: Option<char>)
    ensures
        old(s)@.len() > 0 ==> final(s)@ == old(s)@.drop_last() && r == Some(old(s)@.last()),
        old(s)@.len() == 0 ==> final(s)@ == old(s)@ && r is None,
{
    s.pop()
}

impl CommandPalette {
    pub closed spec fn view(&self) -> PaletteView {
        PaletteView {
            input: self.input@,
            history: strings_view(self.history@),
            index: match self.history_index {
                Some(i) => Some(i as int),
                None => None,
            },
            temp: self.history_temp@,
            max_history: self.max_history as nat,
        }
    }

    /// Empty palette with a history of `MAX_COMMAND_HISTORY` commands.
    pub fn new() -> (r: CommandPalette)
        ensures
            r.view().wf(),
            r.view().input.len() == 0,
            r.view().history.len() == 0,
            r.view().index is None,
            r.view().temp.len() == 0,
            r.view().max_history == MAX_COMMAND_HISTORY,
    {
        let r = CommandPalette {
            input: String::new(),
            history: Vec::new(),
            history_index: None,
            history_temp: String::new(),
            max_history: MAX_COMMAND_HISTORY,
        };
        assert(strings_view(r.history@) =~= Seq::<Seq<char>>::empty());
        r
    }

    /// The current input.
    pub fn input(&self) -> (r: &str)
        ensures
            r@ == self.view().input,
    {
        self.input.as_str()
    }

    /// Replace the current input (as typing does).
    pub fn set_input(&mut self, input: String)
        ensures
            final(self).view() == (PaletteView { input: input@, ..old(self).view() }),
    {
        self.input = input;
    }

    /// Type a character at the end of the input.
    pub fn push_char(&mut self, c: char)
        ensures
            final(self).view() == (PaletteView {
                input: old(self).view().input.push(c),
                ..old(self).view()
            }),
    {
        string_push(&mut self.input, c);
    }

    /// Delete the last character of the input, if any.
    pub fn pop_char(&mut self)
        ensures
            final(self).view() == (PaletteView {
                input: if old(self).view().input.len() > 0 {
                    old(self).view().input.drop_last()
                } else {
                    old(self).view().input
                },
                ..old(self).view()
            }),
    {
        string_pop(&mut self.input);
    }

    /// Navigate to the previous command in history.
    pub fn history_prev(&mut self)
        requires
            old(self).view().wf(),
        ensures
            final(self).view() == old(self).view().prev(),
            final(self).view().wf(),
    {
        if self.history.len() == 0 {
            return;
        }
        match self.history_index {
            None => {
                self.history_temp = self.input.clone();
                self.history_index = Some(self.history.len() - 1);
            },
            Some(0) => {},
            Some(idx) => {
                self.history_index = Some(idx - 1);
            },
        }
        if let Some(idx) = self.history_index {
            self.input = self.history[idx].clone();
        }
    }

    /// Navigate to the next command in history.
    pub fn history_next(&mut self)
        requires
            old(self).view().wf(),
        ensures
            final(self).view() == old(self).view().next(),
            final(self).view().wf(),
    {
        match self.history_index {
            None => {},
            Some(idx) => {
                if idx + 1 >= self.history.len() {
                    self.history_index = None;
                    self.input = self.history_temp.clone();
                } else {
                    self.history_index = Some(idx + 1);
                    self.input = self.history[idx + 1].clone();
                }
            },
        }
    }

    /// Add a command to the history (if not a duplicate of the last).
    pub fn add_to_history(&mut self, cmd: String)
        requires
            old(self).view().wf(),
        ensures
            final(self).view() == old(self).view().add(cmd@),
            final(self).view().wf(),
    {
        if cmd.as_str().is_empty() {
            return;
        }
        let repeats = self.history.len() > 0 && self.history[self.history.len() - 1] == cmd;
        if !repeats {
            let ghost before = strings_view(self.history@);
            self.history.push(cmd);
            assert(strings_view(self.history@) =~= before.push(cmd@));
            if self.history.len() > self.max_history {
                let ghost pushed = strings_view(self.history@);
                self.history.remove(0);
                assert(strings_view(self.history@) =~= pushed.drop_first());
            }
        }
    }

    /// Leave history navigation (after a command ran).
    pub fn clear_history_nav(&mut self)
        ensures
            final(self).view() == (PaletteView {
                index: None,
                temp: Seq::empty(),
                ..old(self).view()
            }),
    {
        self.history_index = None;
        self.history_temp = String::new();
    }

    /// Clear the input and leave history navigation.
    pub fn clear(&mut self)
        ensures
            final(self).view() == (PaletteView {
                input: Seq::empty(),
                index: None,
                temp: Seq::empty(),
                ..old(self).view()
            }),
    {
        self.input = String::new();
        self.clear_history_nav();
    }
}

/// Going back into the history and forward again gives back what was
/// typed before navigating.
pub proof fn law_prev_then_next_restores_input(p: PaletteView)
    requires
        p.wf(),
        p.index is None,
    ensures
        p.prev().next().input == p.input,
        p.prev().next().index is None,
{
}

/// While navigating, one step back and one step forward returns to the
/// same history entry.
pub proof fn law_prev_next_position(p: PaletteView)
    requires
        p.wf(),
        p.index matches Some(i) && i > 0,
    ensures
        p.prev().next().index == p.index,
        p.prev().next().input == p.history[p.index->0],
{
}

/// No command follows itself in the history.
pub open spec fn no_repeats(h: Seq<Seq<char>>) -> bool {
    forall|k: int| 1 <= k < h.len() ==> #[trigger] h[k] != h[k - 1]
}

/// The history keeps at most its bound, ends with the command just added,
/// and never holds the same command twice in a row when it did not before.
pub proof fn law_add_to_history(p: PaletteView, cmd: Seq<char>)
    requires
        p.wf(),
        cmd.len() > 0,
        no_repeats(p.history),
    ensures
        p.add(cmd).wf(),
        p.add(cmd).history.last() == cmd,
        no_repeats(p.add(cmd).history),
{
    let h = p.history.push(cmd);
    if !(p.history.len() > 0 && p.history.last() == cmd) {
        assert forall|k: int| 1 <= k < h.len() implies #[trigger] h[k] != h[k - 1] by {
            if k < p.history.len() {
                assert(h[k] == p.history[k] && h[k - 1] == p.history[k - 1]);
            }
        }
        if h.len() > p.max_history {
            let d = h.drop_first();
            assert forall|k: int| 1 <= k < d.len() implies #[trigger] d[k] != d[k - 1] by {
                assert(d[k] == h[k + 1] && d[k - 1] == h[k]);
            }
        }
    }
}

/// `k` steps back in the history.
pub open spec fn prev_steps(p: PaletteView, k: nat) -> PaletteView
    decreases k,
{
    if k == 0 {
        p
    } else {
        prev_steps(p, (k - 1) as nat).prev()
    }
}

/// `k` steps forward in the history.
pub open spec fn next_steps(p: PaletteView, k: nat) -> PaletteView
    decreases k,
{
    if k == 0 {
        p
    } else {
        next_steps(p.next(), (k - 1) as nat)
    }
}

/// Where `k` steps back from the typed input land: the history entry `k`
/// from the end, or the oldest one, with the typed input kept aside.
proof fn lemma_prev_steps(p: PaletteView, k: nat)
    requires
        p.wf(),
        p.index is None,
        p.history.len() > 0,
        k >= 1,
    ensures
        ({
            let i: int = if k <= p.history.len() {
                p.history.len() - k
            } else {
                0
            };
            prev_steps(p, k) == (PaletteView {
                temp: p.input,
                index: Some(i),
                input: p.history[i],
                ..p
            })
        }),
    decreases k,
{
    assert(prev_steps(p, 0) == p);
    if k > 1 {
        lemma_prev_steps(p, (k - 1) as nat);
    }
}

/// Outside the history, stepping forward changes nothing.
proof fn lemma_next_steps_idle(p: PaletteView, k: nat)
    requires
        p.index is None,
    ensures
        next_steps(p, k) == p,
    decreases k,
{
    if k > 0 {
        lemma_next_steps_idle(p.next(), (k - 1) as nat);
    }
}

/// Enough steps forward from history entry `i` leave the history and bring
/// back the input kept aside.
proof fn lemma_next_steps_leave(p: PaletteView, k: nat)
    requires
        p.wf(),
        p.index matches Some(i) && k >= p.history.len() - i,
    ensures
        next_steps(p, k) == (PaletteView { index: None, input: p.temp, ..p }),
    decreases k,
{
    let i = p.index->0;
    if i + 1 >= p.history.len() {
        lemma_next_steps_idle(p.next(), (k - 1) as nat);
    } else {
        lemma_next_steps_leave(p.next(), (k - 1) as nat);
    }
}

/// Browsing the history restores the text being typed: from outside
/// navigation, `k` calls of `history_prev` followed by `k` calls of
/// `history_next` (each of which moves the palette's view by `prev` and
/// `next`) give back the input, leave navigation, and change neither the
/// history nor its bound, for every `k`.
pub proof fn law_history_round_trip(p: PaletteView, k: nat)
    requires
        p.wf(),
        p.index is None,
    ensures
        next_steps(prev_steps(p, k), k).input == p.input,
        next_steps(prev_steps(p, k), k).index is None,
        next_steps(prev_steps(p, k), k).history == p.history,
        next_steps(prev_steps(p, k), k).max_history == p.max_history,
{
    if k == 0 {
    } else if p.history.len() == 0 {
        assert(prev_steps(p, k) == p) by {
            lemma_prev_steps_empty(p, k);
        }
        lemma_next_steps_idle(p, k);
    } else {
        lemma_prev_steps(p, k);
        lemma_next_steps_leave(prev_steps(p, k), k);
    }
}

/// With no history, stepping back changes nothing.
proof fn lemma_prev_steps_empty(p: PaletteView, k: nat)
    requires
        p.history.len() == 0,
    ensures
        prev_steps(p, k) == p,
    decreases k,
{
    if k > 0 {
        lemma_prev_steps_empty(p, (k - 1) as nat);
    }
}

} // verus!
