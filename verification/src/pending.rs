//! Install/update tasks, background operations and actions that wait for
//! confirmation.

use vstd::prelude::*;
use vstd::string::StringExecFns;
use crate::text::{decimal, usize_to_string};

verus! {

/// What is needed to install or update one tool.
#[derive(Debug, Clone, PartialEq, Eq)]
pub struct InstallTask {
    pub name: String,
    /// "cargo", "pip", ...
    pub source: String,
    /// Target version for updates.
    pub version: Option<String>,
    /// Command shown in the confirmation dialog.
    pub display_command: String,
}

/// Result of one install/update attempt.
#[derive(Debug, Clone, PartialEq, Eq)]
pub struct InstallResult {
    pub name: String,
    pub success: bool,
    pub error: Option<String>,
}

/// Background operation shown with a loading indicator.
#[derive(Debug, Clone, PartialEq, Eq)]
pub enum BackgroundOp {
    CheckUpdates { step: usize },
    DiscoverSearch { query: String, step: usize, source_names: Vec<String> },
    ExecuteInstall { tasks: Vec<InstallTask>, current: usize, results: Vec<InstallResult> },
    ExecuteUpdate { tasks: Vec<InstallTask>, current: usize, results: Vec<InstallResult> },
}

impl BackgroundOp {
    pub fn title(&self) -> (r: &'static str)
        ensures
            r@ == (match *self {
                BackgroundOp::CheckUpdates { .. } => "Checking for Updates"@,
                BackgroundOp::DiscoverSearch { .. } => "Searching"@,
                BackgroundOp::ExecuteInstall { .. } => "Installing"@,
                BackgroundOp::ExecuteUpdate { .. } => "Updating"@,
            }),
    {
        match self {
            BackgroundOp::CheckUpdates { .. } => "Checking for Updates",
            BackgroundOp::DiscoverSearch { .. } => "Searching",
            BackgroundOp::ExecuteInstall { .. } => "Installing",
            BackgroundOp::ExecuteUpdate { .. } => "Updating",
        }
    }
}

/// Progress shown by the loading overlay.
#[derive(Debug, Clone, Default)]
pub struct LoadingProgress {
    pub current_step: usize,
    pub total_steps: usize,
    pub step_name: String,
    pub found_count: usize,
}

/// Action that waits for the user's confirmation.
#[derive(Debug, Clone, PartialEq, Eq)]
pub enum PendingAction {
    /// Tools to install.
    Install(Vec<InstallTask>),
    /// Names of tools to uninstall.
    Uninstall(Vec<String>),
    /// Tools to update.
    Update(Vec<InstallTask>),
    /// A single install from the Discover tab.
    DiscoverInstall(InstallTask),
}

/// The tasks that a sequence of references points to.
pub open spec fn derefs(s: Seq<&InstallTask>) -> Seq<InstallTask> {
    s.map_values(|t: &InstallTask| *t)
}

/// "<verb> <name>?" for one tool, "<verb> <n> tools?" otherwise.
pub open spec fn confirm_question(verb: Seq<char>, names: Seq<Seq<char>>) -> Seq<char> {
    if names.len() == 1 {
        verb + " "@ + names[0] + "?"@
    } else {
        verb + " "@ + decimal(names.len()) + " tools?"@
    }
}

/// Names of the tasks.
pub open spec fn task_names(tasks: Seq<InstallTask>) -> Seq<Seq<char>> {
    tasks.map_values(|t: InstallTask| t.name@)
}

impl PendingAction {
    /// Names of the tools the action is about.
    pub open spec fn spec_tool_names(self) -> Seq<Seq<char>> {
        match self {
            PendingAction::Install(tasks) => task_names(tasks@),
            PendingAction::Uninstall(tools) => tools@.map_values(|s: String| s@),
            PendingAction::Update(tasks) => task_names(tasks@),
            PendingAction::DiscoverInstall(task) => seq![task.name@],
        }
    }

    /// The confirmation question.
    pub open spec fn spec_description(self) -> Seq<char> {
        match self {
            PendingAction::Install(tasks) => confirm_question("Install"@, task_names(tasks@)),
            PendingAction::Uninstall(tools) => confirm_question(
                "Uninstall"@,
                tools@.map_values(|s: String| s@),
            ),
            PendingAction::Update(tasks) => confirm_question("Update"@, task_names(tasks@)),
            PendingAction::DiscoverInstall(task) => "Install"@ + " "@ + task.name@ + "?"@,
        }
    }

    pub fn description(&self) -> (r: String)
        ensures
            r@ == self.spec_description(),
    {
        match self {
            PendingAction::Install(tasks) => {
                if tasks.len() == 1 {
                    question("Install", tasks[0].name.as_str())
                } else {
                    count_question("Install", tasks.len())
                }
            },
            PendingAction::Uninstall(tools) => {
                if tools.len() == 1 {
                    question("Uninstall", tools[0].as_str())
                } else {
                    count_question("Uninstall", tools.len())
                }
            },
            PendingAction::Update(tasks) => {
                if tasks.len() == 1 {
                    question("Update", tasks[0].name.as_str())
                } else {
                    count_question("Update", tasks.len())
                }
            },
            PendingAction::DiscoverInstall(task) => question("Install", task.name.as_str()),
        }
    }

    /// Tool names for display.
    pub fn tool_names(&self) -> (r: Vec<&str>)
        ensures
            r@.map_values(|s: &str| s@) == self.spec_tool_names(),
    {
        let mut r: Vec<&str> = Vec::new();
        match self {
            PendingAction::Install(tasks) | PendingAction::Update(tasks) => {
                let mut i: usize = 0;
                while i < tasks.len()
                    invariant
                        0 <= i <= tasks@.len(),
                        r@.map_values(|s: &str| s@) == task_names(tasks@).take(i as int),
                    decreases tasks@.len() - i,
                {
                    r.push(tasks[i].name.as_str());
                    proof {
                        assert(task_names(tasks@).take(i + 1) =~= task_names(tasks@).take(
                            i as int,
                        ).push(tasks@[i as int].name@));
                        assert(r@.map_values(|s: &str| s@) =~= task_names(tasks@).take(i + 1));
                    }
                    i += 1;
                }
                assert(task_names(tasks@).take(tasks@.len() as int) =~= task_names(tasks@));
            },
            PendingAction::Uninstall(tools) => {
                let mut i: usize = 0;
                while i < tools.len()
                    invariant
                        0 <= i <= tools@.len(),
                        r@.map_values(|s: &str| s@) == tools@.map_values(|s: String| s@).take(
                            i as int,
                        ),
                    decreases tools@.len() - i,
                {
                    r.push(tools[i].as_str());
                    proof {
                        assert(tools@.map_values(|s: String| s@).take(i + 1)
                            =~= tools@.map_values(|s: String| s@).take(i as int).push(
                            tools@[i as int]@,
                        ));
                        assert(r@.map_values(|s: &str| s@) =~= tools@.map_values(
                            |s: String| s@,
                        ).take(i + 1));
                    }
                    i += 1;
                }
                assert(tools@.map_values(|s: String| s@).take(tools@.len() as int)
                    =~= tools@.map_values(|s: String| s@));
            },
            PendingAction::DiscoverInstall(task) => {
                r.push(task.name.as_str());
                assert(r@.map_values(|s: &str| s@) =~= seq![task.name@]);
            },
        }
        r
    }

    /// The install tasks of an install, update or discover install.
    pub fn install_tasks(&self) -> (r: Option<Vec<&InstallTask>>)
        ensures
            match *self {
                PendingAction::Install(tasks) => r is Some && derefs(r->0@) == tasks@,
                PendingAction::Update(tasks) => r is Some && derefs(r->0@) == tasks@,
                PendingAction::DiscoverInstall(task) => r is Some && derefs(r->0@) == seq![task],
                PendingAction::Uninstall(_) => r is None,
            },
    {
        match self {
            PendingAction::Install(tasks) | PendingAction::Update(tasks) => {
                let mut r: Vec<&InstallTask> = Vec::new();
                let mut i: usize = 0;
                while i < tasks.len()
                    invariant
                        0 <= i <= tasks@.len(),
                        derefs(r@) == tasks@.take(i as int),
                    decreases tasks@.len() - i,
                {
                    let t = &tasks[i];
                    assert(*t == tasks@[i as int]);
                    let ghost before = r@;
                    r.push(t);
                    assert(r@ == before.push(t));
                    assert(derefs(before.push(t)) =~= derefs(before).push(*t));
                    assert(derefs(r@) =~= tasks@.take(i + 1));
                    i += 1;
                }
                assert(tasks@.take(tasks@.len() as int) =~= tasks@);
                Some(r)
            },
            PendingAction::DiscoverInstall(task) => {
                let mut r: Vec<&InstallTask> = Vec::new();
                r.push(task);
                assert(derefs(r@) =~= seq![*task]);
                Some(r)
            },
            PendingAction::Uninstall(_) => None,
        }
    }
}

/// "<verb> <name>?"
fn question(verb: &str, name: &str) -> (r: String)
    ensures
        r@ == verb@ + " "@ + name@ + "?"@,
{
    let mut s = verb.to_owned();
    s.append(" ");
    s.append(name);
    s.append("?");
    s
}

/// "<verb> <n> tools?"
fn count_question(verb: &str, n: usize) -> (r: String)
    ensures
        r@ == verb@ + " "@ + decimal(n as nat) + " tools?"@,
{
    let mut s = verb.to_owned();
    s.append(" ");
    let count = usize_to_string(n);
    s.append(count.as_str());
    s.append(" tools?");
    s
}

} // verus!
