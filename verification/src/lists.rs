//! Bundle list state and the index arithmetic of list navigation.

use vstd::prelude::*;
use vstd::std_specs::iter::IteratorSpec;
use crate::text::{chars_of, decimal, lowercase, to_lowercase, usize_to_string};

verus! {

/// A named group of tools.
#[derive(Debug, Clone)]
pub struct Bundle {
    pub name: String,
    pub description: Option<String>,
    pub tools: Vec<String>,
}

/// Selection one step down, stopping at the last item (unchanged when the
/// list is empty).
pub open spec fn spec_next_index(selected: int, len: int) -> int {
    if len == 0 {
        selected
    } else if selected + 1 < len - 1 {
        selected + 1
    } else {
        len - 1
    }
}

/// Selection one step up, stopping at the first item.
pub open spec fn spec_prev_index(selected: int) -> int {
    if selected == 0 {
        0
    } else {
        selected - 1
    }
}

/// Move a selection down one item, stopping at the last.
pub fn next_index(selected: usize, len: usize) -> (r: usize)
    requires
        len == 0 || selected < usize::MAX,
    ensures
        r == spec_next_index(selected as int, len as int),
{
    if len > 0 {
        let n = selected + 1;
        if n < len - 1 {
            n
        } else {
            len - 1
        }
    } else {
        selected
    }
}

/// Move a selection up one item, stopping at the first.
pub fn prev_index(selected: usize) -> (r: usize)
    ensures
        r == spec_prev_index(selected as int),
{
    selected.saturating_sub(1)
}

/// Next search match with wrap-around (vim `n`): the new selection and
/// whether it wrapped to the top; `None` for an empty list.
pub fn search_next_index(selected: usize, len: usize) -> (r: Option<(usize, bool)>)
    ensures
        len == 0 ==> r is None,
        len > 0 ==> r == Some(
            if selected + 1 >= len {
                (0usize, true)
            } else {
                ((selected + 1) as usize, false)
            },
        ),
{
    if len == 0 {
        return None;
    }
    if selected >= len - 1 {
        Some((0, true))
    } else {
        Some((selected + 1, false))
    }
}

/// Previous search match with wrap-around (vim `N`): the new selection and
/// whether it wrapped to the bottom; `None` for an empty list.
pub fn search_prev_index(selected: usize, len: usize) -> (r: Option<(usize, bool)>)
    ensures
        len == 0 ==> r is None,
        len > 0 ==> r == Some(
            if selected == 0 {
                ((len - 1) as usize, true)
            } else {
                ((selected - 1) as usize, false)
            },
        ),
{
    if len == 0 {
        return None;
    }
    if selected == 0 {
        Some((len - 1, true))
    } else {
        Some((selected - 1, false))
    }
}

/// ASCII lowercase of a character (other characters are unchanged).
pub open spec fn ascii_lower(c: char) -> char {
    if 'A' <= c <= 'Z' {
        ((c as u8) + 32) as char
    } else {
        c
    }
}

fn to_ascii_lower(c: char) -> (r: char)
    ensures
        r == ascii_lower(c),
{
    if 'A' <= c && c <= 'Z' {
        ((c as u8) + 32) as char
    } else {
        c
    }
}

/// The name, lowercased, starts with `letter`.
pub open spec fn starts_with_letter(name: Seq<char>, letter: char) -> bool {
    lowercase(name).len() > 0 && lowercase(name)[0] == letter
}

/// Index of the first name starting with `letter` (ignoring case), for
/// vim-style jump-to-letter.
pub fn jump_target(names: &Vec<String>, letter: char) -> (r: Option<usize>)
    ensures
        match r {
            Some(i) => i < names@.len() && starts_with_letter(names@[i as int]@, ascii_lower(letter))
                && forall|k: int|
                0 <= k < i ==> !starts_with_letter(#[trigger] names@[k]@, ascii_lower(letter)),
            None => forall|k: int|
                0 <= k < names@.len() ==> !starts_with_letter(#[trigger] names@[k]@, ascii_lower(letter)),
        },
{
    let target = to_ascii_lower(letter);
    let mut i: usize = 0;
    while i < names.len()
        invariant
            target == ascii_lower(letter),
            0 <= i <= names@.len(),
            forall|k: int| 0 <= k < i ==> !starts_with_letter(#[trigger] names@[k]@, target),
        decreases names@.len() - i,
    {
        let lower = to_lowercase(names[i].as_str());
        let cs = chars_of(lower.as_str());
        if cs.len() > 0 && cs[0] == target {
            return Some(i);
        }
        i += 1;
    }
    None
}

/// Bundle list and its selection.
#[derive(Debug)]
pub struct BundleState {
    /// All bundles.
    pub items: Vec<Bundle>,
    /// Currently selected index.
    pub selected: usize,
}

impl BundleState {
    /// Start on the first bundle.
    pub fn new(bundles: Vec<Bundle>) -> (r: BundleState)
        ensures
            r.items@ == bundles@,
            r.selected == 0,
    {
        BundleState { items: bundles, selected: 0 }
    }

    /// Move selection down.
    pub fn next(&mut self)
        requires
            old(self).items@.len() == 0 || old(self).selected < usize::MAX,
        ensures
            final(self).items@ == old(self).items@,
            final(self).selected == spec_next_index(
                old(self).selected as int,
                old(self).items@.len() as int,
            ),
    {
        self.selected = next_index(self.selected, self.items.len());
    }

    /// Move selection up.
    pub fn prev(&mut self)
        ensures
            final(self).items@ == old(self).items@,
            final(self).selected == spec_prev_index(old(self).selected as int),
    {
        self.selected = prev_index(self.selected);
    }

    /// Jump to the first item.
    pub fn first(&mut self)
        ensures
            final(self).items@ == old(self).items@,
            final(self).selected == 0,
    {
        self.selected = 0;
    }

    /// Jump to the last item.
    pub fn last(&mut self)
        ensures
            final(self).items@ == old(self).items@,
            old(self).items@.len() > 0 ==> final(self).selected == old(self).items@.len() - 1,
            old(self).items@.len() == 0 ==> final(self).selected == old(self).selected,
    {
        if !self.items.is_empty() {
            self.selected = self.items.len() - 1;
        }
    }

    /// The selected bundle.
    pub fn selected_bundle(&self) -> (r: Option<&Bundle>)
        ensures
            self.selected < self.items@.len() ==> r == Some(&self.items@[self.selected as int]),
            self.selected >= self.items@.len() ==> r is None,
    {
        self.get(self.selected)
    }

    /// Select by index (for mouse clicks); out-of-range indices are ignored.
    pub fn select(&mut self, index: usize)
        ensures
            final(self).items@ == old(self).items@,
            final(self).selected == if index < old(self).items@.len() {
                index
            } else {
                old(self).selected
            },
    {
        if index < self.items.len() {
            self.selected = index;
        }
    }

    /// Replace the bundles with the list the database gave, keeping the
    /// selection within it. When loading failed (`Err`), nothing changes
    /// and the error is handed back.
    pub fn reload(&mut self, loaded: Result<Vec<Bundle>, String>) -> (r: Result<(), String>)
        ensures
            match loaded {
                Ok(bundles) => {
                    &&& r is Ok
                    &&& final(self).items@ == bundles@
                    &&& final(self).selected == if bundles@.len() == 0 {
                        0
                    } else if old(self).selected < bundles@.len() {
                        old(self).selected as int
                    } else {
                        bundles@.len() - 1
                    }
                },
                Err(e) => r == Err::<(), String>(e) && final(self).items@ == old(self).items@
                    && final(self).selected == old(self).selected,
            },
    {
        match loaded {
            Ok(bundles) => {
                self.items = bundles;
                let max = self.items.len().saturating_sub(1);
                if self.selected > max {
                    self.selected = max;
                }
                Ok(())
            },
            Err(e) => Err(e),
        }
    }

    pub fn is_empty(&self) -> (r: bool)
        ensures
            r == (self.items@.len() == 0),
    {
        self.items.is_empty()
    }

    pub fn len(&self) -> (r: usize)
        ensures
            r == self.items@.len(),
    {
        self.items.len()
    }

    /// The bundle at `index`, if any.
    pub fn get(&self, index: usize) -> (r: Option<&Bundle>)
        ensures
            index < self.items@.len() ==> r == Some(&self.items@[index as int]),
            index >= self.items@.len() ==> r is None,
    {
        if index < self.items.len() {
            Some(&self.items[index])
        } else {
            None
        }
    }

    /// Iterate over the bundles.
    pub fn iter(&self) -> (r: std::slice::Iter<'_, Bundle>)
        ensures
            r.remaining() == self.items@.as_ref(),
    {
        self.items.iter()
    }
}

/// Every navigation step keeps a valid selection valid.
pub proof fn law_navigation_in_range(selected: int, len: int, index: int)
    requires
        0 <= selected < len,
    ensures
        0 <= spec_next_index(selected, len) < len,
        0 <= spec_prev_index(selected) < len,
        spec_next_index(selected, len) >= selected,
        spec_prev_index(selected) <= selected,
{
}

/// The tool count beside a bundle in the list: " (1 tool)" or
/// " (<n> tools)".
pub open spec fn spec_bundle_count(n: nat) -> Seq<char> {
    if n == 1 {
        " (1 tool)"@
    } else {
        " ("@ + decimal(n) + " tools)"@
    }
}

/// The tool count beside a bundle in the list (see `spec_bundle_count`).
pub fn bundle_count_label(n: usize) -> (r: String)
    ensures
        r@ == spec_bundle_count(n as nat),
{
    if n == 1 {
        String::from_str(" (1 tool)")
    } else {
        let mut t = String::from_str(" (");
        t.append(usize_to_string(n).as_str());
        t.append(" tools)");
        t
    }
}

/// The title of the bundle list: " Bundles [<n>] ".
pub fn bundle_list_title(n: usize) -> (r: String)
    ensures
        r@ == " Bundles ["@ + decimal(n as nat) + "] "@,
{
    let mut t = String::from_str(" Bundles [");
    t.append(usize_to_string(n).as_str());
    t.append("] ");
    t
}

} // verus!

