//! Per-tool caches of usage, GitHub data and labels, kept in maps from
//! tool names.

use vstd::prelude::*;
use crate::text::str_eq;

verus! {

/// The map that entries stand for: a later entry for a name overrides an
/// earlier one.
pub open spec fn map_of<V>(s: Seq<(String, V)>) -> Map<Seq<char>, V>
    decreases s.len(),
{
    if s.len() == 0 {
        Map::empty()
    } else {
        map_of(s.drop_last()).insert(s.last().0@, s.last().1)
    }
}

/// No entry from position `i` on has the name `k`.
pub open spec fn absent_from<V>(s: Seq<(String, V)>, i: int, k: Seq<char>) -> bool {
    forall|j: int| i <= j < s.len() ==> (#[trigger] s[j]).0@ != k
}

proof fn lemma_map_of_prefix<V>(s: Seq<(String, V)>, i: int, k: Seq<char>)
    requires
        0 <= i <= s.len(),
        absent_from(s, i, k),
    ensures
        map_of(s).dom().contains(k) == map_of(s.take(i)).dom().contains(k),
        map_of(s).dom().contains(k) ==> map_of(s)[k] == map_of(s.take(i))[k],
    decreases s.len() - i,
{
    if i < s.len() {
        assert(s.drop_last().len() == s.len() - 1);
        assert(absent_from(s.drop_last(), i, k)) by {
            assert forall|j: int| i <= j < s.drop_last().len() implies (#[trigger] s.drop_last()[
                j
            ]).0@ != k by {
                assert(s.drop_last()[j] == s[j]);
            }
        }
        lemma_map_of_prefix(s.drop_last(), i, k);
        assert(s.drop_last().take(i) =~= s.take(i));
        assert(s[s.len() - 1].0@ != k);
    } else {
        assert(s.take(i) =~= s);
    }
}

proof fn lemma_map_of_remove<V>(s: Seq<(String, V)>, j: int, x: Seq<char>)
    requires
        0 <= j < s.len(),
        s[j].0@ != x,
    ensures
        map_of(s.remove(j)).dom().contains(x) == map_of(s).dom().contains(x),
        map_of(s).dom().contains(x) ==> map_of(s.remove(j))[x] == map_of(s)[x],
    decreases s.len(),
{
    if j < s.len() - 1 {
        lemma_map_of_remove(s.drop_last(), j, x);
        assert(s.remove(j).drop_last() =~= s.drop_last().remove(j));
        assert(s.remove(j).last() == s.last());
    } else {
        assert(s.remove(j) =~= s.drop_last());
    }
}

/// A map from tool names to values, kept as a list of entries.
#[derive(Debug, Clone)]
pub struct NameMap<V> {
    entries: Vec<(String, V)>,
}

impl<V> NameMap<V> {
    pub closed spec fn view(&self) -> Map<Seq<char>, V> {
        map_of(self.entries@)
    }

    /// The empty map.
    pub fn new() -> (r: NameMap<V>)
        ensures
            r@ == Map::<Seq<char>, V>::empty(),
    {
        NameMap { entries: Vec::new() }
    }

    /// Position of the last entry for `name`.
    fn find(&self, name: &str) -> (r: Option<usize>)
        ensures
            match r {
                Some(j) => j < self.entries@.len() && self.entries@[j as int].0@ == name@
                    && absent_from(self.entries@, j + 1, name@),
                None => absent_from(self.entries@, 0, name@),
            },
    {
        let mut i = self.entries.len();
        while i > 0
            invariant
                i <= self.entries@.len(),
                absent_from(self.entries@, i as int, name@),
            decreases i,
        {
            if str_eq(self.entries[i - 1].0.as_str(), name) {
                return Some(i - 1);
            }
            i -= 1;
        }
        None
    }

    /// The value for `name`, if any.
    pub fn get(&self, name: &str) -> (r: Option<&V>)
        ensures
            self@.dom().contains(name@) ==> r == Some(&self@[name@]),
            !self@.dom().contains(name@) ==> r is None,
    {
        match self.find(name) {
            Some(j) => {
                proof {
                    lemma_map_of_prefix(self.entries@, j + 1, name@);
                    assert(self.entries@.take(j + 1).drop_last() =~= self.entries@.take(j as int));
                    assert(self.entries@.take(j + 1).last() == self.entries@[j as int]);
                }
                Some(&self.entries[j].1)
            },
            None => {
                proof {
                    lemma_map_of_prefix(self.entries@, 0, name@);
                    assert(self.entries@.take(0) =~= Seq::<(String, V)>::empty());
                }
                None
            },
        }
    }

    /// Whether there is a value for `name`.
    pub fn contains_key(&self, name: &str) -> (r: bool)
        ensures
            r == self@.dom().contains(name@),
    {
        self.get(name).is_some()
    }

    /// Set the value for `name`.
    pub fn insert(&mut self, name: String, value: V)
        ensures
            final(self)@ == old(self)@.insert(name@, value),
    {
        let ghost k = name@;
        match self.find(name.as_str()) {
            Some(j) => {
                let ghost before = self.entries@;
                self.entries.remove(j);
                let ghost removed = self.entries@;
                proof {
                    assert(removed == before.remove(j as int));
                    assert forall|x: Seq<char>| x != k implies (map_of(removed).dom().contains(x)
                        == map_of(before).dom().contains(x) && (map_of(before).dom().contains(x)
                        ==> map_of(removed)[x] == map_of(before)[x])) by {
                        lemma_map_of_remove(before, j as int, x);
                    }
                }
                self.entries.push((name, value));
                proof {
                    assert(self.entries@.drop_last() =~= removed);
                    assert(map_of(self.entries@) == map_of(removed).insert(k, value));
                    let a = map_of(removed).insert(k, value);
                    let b = map_of(before).insert(k, value);
                    assert forall|x: Seq<char>| #[trigger] a.dom().contains(x) == b.dom().contains(x) by {
                        if x != k {
                            lemma_map_of_remove(before, j as int, x);
                        }
                    }
                    assert forall|x: Seq<char>| #[trigger] a.dom().contains(x) implies a[x] == b[x] by {
                        if x != k {
                            lemma_map_of_remove(before, j as int, x);
                        }
                    }
                    assert(a =~= b);
                }
            },
            None => {
                let ghost before = self.entries@;
                self.entries.push((name, value));
                assert(self.entries@.drop_last() =~= before);
            },
        }
    }
}

/// Usage statistics of a tool.
#[derive(Debug, Clone)]
pub struct ToolUsage {
    pub use_count: i64,
    /// RFC 3339 time of the last use.
    pub last_used: Option<String>,
}

/// GitHub data of a tool.
#[derive(Debug, Clone)]
pub struct GitHubInfo {
    pub repo_owner: String,
    pub repo_name: String,
    pub description: Option<String>,
    pub stars: i64,
    pub language: Option<String>,
}

/// Cached data for the TUI: usage, GitHub info and labels, per tool.
#[derive(Debug)]
pub struct CacheManager {
    /// Usage data per tool.
    pub usage_data: NameMap<ToolUsage>,
    /// Daily usage counts of the last days, for sparklines.
    pub daily_usage: NameMap<Vec<i64>>,
    /// GitHub info (stars, description, ...).
    pub github_cache: NameMap<GitHubInfo>,
    /// Labels per tool.
    pub labels_cache: NameMap<Vec<String>>,
}

impl CacheManager {
    /// A cache holding the data loaded from the database.
    pub fn new(
        usage_data: NameMap<ToolUsage>,
        daily_usage: NameMap<Vec<i64>>,
        github_cache: NameMap<GitHubInfo>,
        labels_cache: NameMap<Vec<String>>,
    ) -> (r: CacheManager)
        ensures
            r.usage_data@ == usage_data@,
            r.daily_usage@ == daily_usage@,
            r.github_cache@ == github_cache@,
            r.labels_cache@ == labels_cache@,
    {
        CacheManager { usage_data, daily_usage, github_cache, labels_cache }
    }

    /// Usage data of a tool.
    pub fn get_usage(&self, tool_name: &str) -> (r: Option<&ToolUsage>)
        ensures
            self.usage_data@.dom().contains(tool_name@) ==> r == Some(
                &self.usage_data@[tool_name@],
            ),
            !self.usage_data@.dom().contains(tool_name@) ==> r is None,
    {
        self.usage_data.get(tool_name)
    }

    /// Whether GitHub info of a tool is cached (if not, the caller loads
    /// it and stores it with `store_github_info`).
    pub fn has_github_info(&self, tool_name: &str) -> (r: bool)
        ensures
            r == self.github_cache@.dom().contains(tool_name@),
    {
        self.github_cache.contains_key(tool_name)
    }

    /// Store GitHub info loaded for a tool.
    pub fn store_github_info(&mut self, tool_name: &str, info: GitHubInfo)
        ensures
            final(self).github_cache@ == old(self).github_cache@.insert(tool_name@, info),
            final(self).usage_data@ == old(self).usage_data@,
            final(self).daily_usage@ == old(self).daily_usage@,
            final(self).labels_cache@ == old(self).labels_cache@,
    {
        self.github_cache.insert(tool_name.to_owned(), info);
    }

    /// GitHub info of a tool, as far as it is cached.
    pub fn get_github_info(&self, tool_name: &str) -> (r: Option<&GitHubInfo>)
        ensures
            self.github_cache@.dom().contains(tool_name@) ==> r == Some(
                &self.github_cache@[tool_name@],
            ),
            !self.github_cache@.dom().contains(tool_name@) ==> r is None,
    {
        self.github_cache.get(tool_name)
    }

    /// The GitHub cache once info is needed for a tool: the cached info
    /// stays when there is some; otherwise the info loaded from the
    /// database for it, if any was found, is stored.
    pub open spec fn spec_filled_github(
        cache: Map<Seq<char>, GitHubInfo>,
        tool_name: Seq<char>,
        loaded: Option<GitHubInfo>,
    ) -> Map<Seq<char>, GitHubInfo> {
        if cache.dom().contains(tool_name) {
            cache
        } else {
            match loaded {
                Some(info) => cache.insert(tool_name, info),
                None => cache,
            }
        }
    }

    /// Fills the GitHub cache for a tool on a miss (see
    /// `spec_filled_github`): `loaded` is what the database gave when the
    /// info was not cached; `get_github_info` then reads the result.
    pub fn fill_github_info(&mut self, tool_name: &str, loaded: Option<GitHubInfo>)
        ensures
            final(self).github_cache@ == Self::spec_filled_github(
                old(self).github_cache@,
                tool_name@,
                loaded,
            ),
            final(self).usage_data@ == old(self).usage_data@,
            final(self).daily_usage@ == old(self).daily_usage@,
            final(self).labels_cache@ == old(self).labels_cache@,
    {
        if !self.github_cache.contains_key(tool_name) {
            match loaded {
                Some(info) => self.github_cache.insert(tool_name.to_owned(), info),
                None => {},
            }
        }
    }

    /// Replace the labels with a freshly loaded set.
    pub fn reload_labels(&mut self, labels: NameMap<Vec<String>>)
        ensures
            final(self).labels_cache@ == labels@,
            final(self).usage_data@ == old(self).usage_data@,
            final(self).daily_usage@ == old(self).daily_usage@,
            final(self).github_cache@ == old(self).github_cache@,
    {
        self.labels_cache = labels;
    }
}

/// What is stored for a name is what is read back for it, and storing
/// leaves the other names alone.
pub proof fn law_store_then_get<V>(m: Map<Seq<char>, V>, k: Seq<char>, v: V, other: Seq<char>)
    requires
        other != k,
    ensures
        m.insert(k, v).dom().contains(k),
        m.insert(k, v)[k] == v,
        m.insert(k, v).dom().contains(other) == m.dom().contains(other),
        m.dom().contains(other) ==> m.insert(k, v)[other] == m[other],
{
}

} // verus!
