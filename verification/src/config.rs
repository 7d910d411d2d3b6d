//! The part of the user configuration that the TUI edits: AI provider,
//! model, theme, usage-tracking mode and enabled package sources.

use vstd::prelude::*;
use crate::text::str_eq;

verus! {

/// AI provider used for categorisation and discovery.
#[derive(Debug, Clone, Copy, PartialEq, Eq, Structural)]
pub enum AiProvider {
    NoProvider,
    Claude,
    Gemini,
    Codex,
    Opencode,
}

impl AiProvider {
    /// Providers in menu order.
    pub open spec fn spec_all() -> Seq<AiProvider> {
        seq![AiProvider::NoProvider, AiProvider::Claude, AiProvider::Gemini, AiProvider::Codex, AiProvider::Opencode]
    }

    /// Position of the provider in `spec_all`.
    pub open spec fn spec_index(self) -> nat {
        match self {
            AiProvider::NoProvider => 0,
            AiProvider::Claude => 1,
            AiProvider::Gemini => 2,
            AiProvider::Codex => 3,
            AiProvider::Opencode => 4,
        }
    }

    pub fn all() -> (r: &'static [AiProvider])
        ensures
            r@ == Self::spec_all(),
    {
        &[AiProvider::NoProvider, AiProvider::Claude, AiProvider::Gemini, AiProvider::Codex, AiProvider::Opencode]
    }
}

/// Model choice of the AI provider (Haiku, Sonnet, Opus).
#[derive(Debug, Clone, Copy, PartialEq, Eq, Structural)]
pub enum ClaudeModel {
    Haiku,
    Sonnet,
    Opus,
}

/// Colour theme stored in the configuration.
#[derive(Debug, Clone, Copy, PartialEq, Eq, Structural)]
pub enum TuiTheme {
    CatppuccinMocha,
    CatppuccinLatte,
    Dracula,
    Nord,
    TokyoNight,
    Gruvbox,
    Custom,
}

impl TuiTheme {
    pub open spec fn spec_index(self) -> nat {
        match self {
            TuiTheme::CatppuccinMocha => 0,
            TuiTheme::CatppuccinLatte => 1,
            TuiTheme::Dracula => 2,
            TuiTheme::Nord => 3,
            TuiTheme::TokyoNight => 4,
            TuiTheme::Gruvbox => 5,
            TuiTheme::Custom => 6,
        }
    }

    /// Indices past the built-in themes select the custom theme.
    pub open spec fn spec_from_index(index: int) -> TuiTheme {
        if index == 0 {
            TuiTheme::CatppuccinMocha
        } else if index == 1 {
            TuiTheme::CatppuccinLatte
        } else if index == 2 {
            TuiTheme::Dracula
        } else if index == 3 {
            TuiTheme::Nord
        } else if index == 4 {
            TuiTheme::TokyoNight
        } else if index == 5 {
            TuiTheme::Gruvbox
        } else {
            TuiTheme::Custom
        }
    }

    pub fn index(&self) -> (r: usize)
        ensures
            r == self.spec_index(),
    {
        match self {
            TuiTheme::CatppuccinMocha => 0,
            TuiTheme::CatppuccinLatte => 1,
            TuiTheme::Dracula => 2,
            TuiTheme::Nord => 3,
            TuiTheme::TokyoNight => 4,
            TuiTheme::Gruvbox => 5,
            TuiTheme::Custom => 6,
        }
    }

    pub fn from_index(index: usize) -> (r: TuiTheme)
        ensures
            r == TuiTheme::spec_from_index(index as int),
    {
        match index {
            0 => TuiTheme::CatppuccinMocha,
            1 => TuiTheme::CatppuccinLatte,
            2 => TuiTheme::Dracula,
            3 => TuiTheme::Nord,
            4 => TuiTheme::TokyoNight,
            5 => TuiTheme::Gruvbox,
            _ => TuiTheme::Custom,
        }
    }
}

/// How usage is collected: by scanning shell history or by a shell hook.
#[derive(Debug, Clone, Copy, PartialEq, Eq, Structural)]
pub enum UsageMode {
    Scan,
    Hook,
}

/// Which package sources are tracked, in the fixed order
/// cargo, apt, pip, npm, brew, flatpak, manual.
#[derive(Debug, Clone, Copy, PartialEq, Eq, Structural)]
pub struct SourcesConfig {
    pub cargo: bool,
    pub apt: bool,
    pub pip: bool,
    pub npm: bool,
    pub brew: bool,
    pub flatpak: bool,
    pub manual: bool,
}

/// Names of the sources, in menu order.
pub open spec fn source_names() -> Seq<Seq<char>> {
    seq!["cargo"@, "apt"@, "pip"@, "npm"@, "brew"@, "flatpak"@, "manual"@]
}

/// The seven source names are pairwise distinct.
pub proof fn lemma_source_names_distinct()
    ensures
        forall|i: int, j: int|
            0 <= i < 7 && 0 <= j < 7 && i != j ==> #[trigger] source_names()[i]
                != #[trigger] source_names()[j],
{
    reveal_strlit("cargo");
    reveal_strlit("apt");
    reveal_strlit("pip");
    reveal_strlit("npm");
    reveal_strlit("brew");
    reveal_strlit("flatpak");
    reveal_strlit("manual");
    assert(source_names()[0][0] == 'c');
    assert(source_names()[1][0] == 'a');
    assert(source_names()[2][0] == 'p' && source_names()[2][1] == 'i');
    assert(source_names()[3][0] == 'n');
    assert(source_names()[4][0] == 'b');
    assert(source_names()[5][0] == 'f');
    assert(source_names()[6][0] == 'm');
}

impl SourcesConfig {
    /// The flags as a sequence in menu order.
    pub open spec fn flags(self) -> Seq<bool> {
        seq![self.cargo, self.apt, self.pip, self.npm, self.brew, self.flatpak, self.manual]
    }

    /// Whether the source called `name` is enabled (unknown names are not).
    pub open spec fn spec_is_enabled(self, name: Seq<char>) -> bool {
        exists|i: int| 0 <= i < 7 && source_names()[i] == name && #[trigger] self.flags()[i]
    }

    /// Every source enabled.
    pub open spec fn default_spec() -> SourcesConfig {
        SourcesConfig {
            cargo: true,
            apt: true,
            pip: true,
            npm: true,
            brew: true,
            flatpak: true,
            manual: true,
        }
    }

    /// All sources enabled.
    pub fn default() -> (r: SourcesConfig)
        ensures
            r == Self::default_spec(),
    {
        SourcesConfig {
            cargo: true,
            apt: true,
            pip: true,
            npm: true,
            brew: true,
            flatpak: true,
            manual: true,
        }
    }

    pub fn all_sources() -> (r: &'static [&'static str])
        ensures
            r@.len() == 7,
            forall|i: int| 0 <= i < 7 ==> (#[trigger] r@[i])@ == source_names()[i],
    {
        &["cargo", "apt", "pip", "npm", "brew", "flatpak", "manual"]
    }

    pub fn is_enabled(&self, name: &str) -> (r: bool)
        ensures
            r == self.spec_is_enabled(name@),
    {
        proof {
            lemma_source_names_distinct();
        }
        let names = Self::all_sources();
        let flags = [self.cargo, self.apt, self.pip, self.npm, self.brew, self.flatpak, self.manual];
        let mut i: usize = 0;
        while i < 7
            invariant
                0 <= i <= 7,
                names@.len() == 7,
                forall|k: int| 0 <= k < 7 ==> (#[trigger] names@[k])@ == source_names()[k],
                flags@ == self.flags(),
                forall|k: int| 0 <= k < i ==> source_names()[k] != name@,
            decreases 7 - i,
        {
            if str_eq(names[i], name) {
                proof {
                    lemma_source_names_distinct();
                    assert(source_names()[i as int] == name@);
                    assert(self.flags()[i as int] == flags[i as int]);
                    assert forall|j: int|
                        0 <= j < 7 && source_names()[j] == name@ implies j == i as int by {
                        if j != i as int {
                            assert(source_names()[j] != source_names()[i as int]);
                        }
                    }
                }
                return flags[i];
            }
            i += 1;
        }
        false
    }

    /// Flip the flag of the source called `name`; unknown names change nothing.
    pub fn toggle(&mut self, name: &str)
        ensures
            forall|i: int|
                0 <= i < 7 ==> #[trigger] final(self).flags()[i] == if source_names()[i] == name@ {
                    !old(self).flags()[i]
                } else {
                    old(self).flags()[i]
                },
    {
        proof {
            lemma_source_names_distinct();
        }
        if str_eq(name, "cargo") {
            self.cargo = !self.cargo;
        } else if str_eq(name, "apt") {
            self.apt = !self.apt;
        } else if str_eq(name, "pip") {
            self.pip = !self.pip;
        } else if str_eq(name, "npm") {
            self.npm = !self.npm;
        } else if str_eq(name, "brew") {
            self.brew = !self.brew;
        } else if str_eq(name, "flatpak") {
            self.flatpak = !self.flatpak;
        } else if str_eq(name, "manual") {
            self.manual = !self.manual;
        }
    }
}

/// AI settings.
#[derive(Debug, Clone, Copy, PartialEq, Eq, Structural)]
pub struct AiConfig {
    pub provider: AiProvider,
    pub claude_model: ClaudeModel,
}

/// Display settings.
#[derive(Debug, Clone, Copy, PartialEq, Eq, Structural)]
pub struct TuiConfig {
    pub theme: TuiTheme,
}

/// Usage-tracking settings.
#[derive(Debug, Clone, Copy, PartialEq, Eq, Structural)]
pub struct UsageConfig {
    pub mode: UsageMode,
}

/// The settings edited by the configuration menu.
#[derive(Debug, Clone, Copy, PartialEq, Eq, Structural)]
pub struct HoardConfig {
    pub ai: AiConfig,
    pub tui: TuiConfig,
    pub usage: UsageConfig,
    pub sources: SourcesConfig,
}

impl HoardConfig {
    /// No AI provider, Haiku, the first theme, history scanning, all sources.
    pub fn default() -> (r: HoardConfig)
        ensures
            r.ai.provider == AiProvider::NoProvider,
            r.ai.claude_model == ClaudeModel::Haiku,
            r.tui.theme == TuiTheme::CatppuccinMocha,
            r.usage.mode == UsageMode::Scan,
            r.sources == SourcesConfig::default_spec(),
    {
        HoardConfig {
            ai: AiConfig { provider: AiProvider::NoProvider, claude_model: ClaudeModel::Haiku },
            tui: TuiConfig { theme: TuiTheme::CatppuccinMocha },
            usage: UsageConfig { mode: UsageMode::Scan },
            sources: SourcesConfig::default(),
        }
    }
}

} // verus!
