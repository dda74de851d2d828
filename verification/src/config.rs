//! The stored configuration: the known instances, the themes and the name of
//! the theme in use.

use vstd::prelude::*;
use vstd::string::*;

use crate::instance::{Instance, InstanceView, DEFAULT_EVENT_PORT, DEFAULT_HTTP_PORT};
use crate::theme::{create_default_themes, default_theme, default_themes, themes_view, Theme, ThemeView};

verus! {

/// The configuration that the remote keeps between runs.
#[derive(Debug)]
pub struct KocoConfig {
    pub instances: Vec<Instance>,
    pub current_theme: String,
    pub themes: Vec<Theme>,
}

/// What a configuration holds, as views.
pub struct KocoConfigView {
    pub instances: Seq<InstanceView>,
    pub current_theme: Seq<char>,
    pub themes: Seq<ThemeView>,
}

/// The views of a list of instances.
pub open spec fn instances_view(instances: Seq<Instance>) -> Seq<InstanceView> {
    instances.map_values(|i: Instance| i@)
}

impl View for KocoConfig {
    type V = KocoConfigView;

    open spec fn view(&self) -> KocoConfigView {
        KocoConfigView {
            instances: instances_view(self.instances@),
            current_theme: self.current_theme@,
            themes: themes_view(self.themes@),
        }
    }
}

/// Whether `k` is the first position in `themes` of a theme named `name`.
pub open spec fn is_first_named(themes: Seq<ThemeView>, name: Seq<char>, k: int) -> bool {
    &&& 0 <= k < themes.len()
    &&& themes[k].name == name
    &&& forall|j: int| 0 <= j < k ==> themes[j].name != name
}

/// The position of the first theme named `name`, if there is one.
pub open spec fn first_named(themes: Seq<ThemeView>, name: Seq<char>) -> Option<int> {
    if exists|k: int| is_first_named(themes, name, k) {
        Some(choose|k: int| is_first_named(themes, name, k))
    } else {
        None
    }
}

/// The theme the window shows for a configuration: the first theme with the
/// configured name, or the built-in default theme when none has it.
pub open spec fn effective_theme(config: KocoConfigView) -> ThemeView {
    match first_named(config.themes, config.current_theme) {
        Some(k) => config.themes[k],
        None => default_theme(),
    }
}

/// The instance a fresh configuration knows: Kodi on this machine.
pub open spec fn local_instance() -> InstanceView {
    InstanceView {
        label: "LocalBoy"@,
        hostname: "localhost"@,
        http_port: DEFAULT_HTTP_PORT,
        username: None,
        password: None,
        events: true,
        events_port: DEFAULT_EVENT_PORT,
    }
}

/// A fresh configuration: the local instance, the theme name "Default"
/// and the built-in themes.
pub open spec fn default_config() -> KocoConfigView {
    KocoConfigView {
        instances: seq![local_instance()],
        current_theme: "Default"@,
        themes: default_themes(),
    }
}

/// There is at most one first position of a name.
pub proof fn lemma_first_named_unique(themes: Seq<ThemeView>, name: Seq<char>, k: int)
    requires
        is_first_named(themes, name, k),
    ensures
        first_named(themes, name) == Some(k),
{
    let c = choose|j: int| is_first_named(themes, name, j);
    assert(is_first_named(themes, name, c));
    if c < k {
        assert(themes[c].name != name);
    }
    if k < c {
        assert(themes[k].name != name);
    }
}

impl Default for KocoConfig {
    fn default() -> (r: KocoConfig)
        ensures
            r@ == default_config(),
    {
        let mut instances: Vec<Instance> = Vec::new();
        instances.push(
            Instance {
                label: String::from_str("LocalBoy"),
                hostname: String::from_str("localhost"),
                http_port: DEFAULT_HTTP_PORT,
                username: None,
                password: None,
                events: true,
                events_port: DEFAULT_EVENT_PORT,
            },
        );
        let r = KocoConfig {
            instances,
            current_theme: String::from_str("Default"),
            themes: create_default_themes(),
        };
        assert(r@.instances =~= seq![local_instance()]);
        r
    }
}

impl KocoConfig {
    fn current_theme_position(&self) -> (r: Option<usize>)
        ensures
            match r {
                Some(k) => is_first_named(self@.themes, self@.current_theme, k as int),
                None => first_named(self@.themes, self@.current_theme) is None,
            },
    {
        let n = self.themes.len();
        let mut i: usize = 0;
        while i < n
            invariant
                i <= n,
                n == self.themes@.len(),
                forall|j: int| 0 <= j < i ==> self@.themes[j].name != self@.current_theme,
            decreases n - i,
        {
            if self.themes[i].name == self.current_theme {
                assert(self@.themes[i as int] == self.themes@[i as int]@);
                return Some(i);
            }
            assert(self@.themes[i as int] == self.themes@[i as int]@);
            i = i + 1;
        }
        assert forall|k: int| !is_first_named(self@.themes, self@.current_theme, k) by {}
        None
    }

    /// The first theme whose name is the configured theme name.
    pub fn get_current_theme(&self) -> (r: Option<&Theme>)
        ensures
            match r {
                Some(t) => first_named(self@.themes, self@.current_theme) is Some
                    && t@ == self@.themes[first_named(self@.themes, self@.current_theme)->0],
                None => first_named(self@.themes, self@.current_theme) is None,
            },
    {
        match self.current_theme_position() {
            Some(k) => {
                proof {
                    lemma_first_named_unique(self@.themes, self@.current_theme, k as int);
                }
                Some(&self.themes[k])
            },
            None => None,
        }
    }

    /// The configured theme, or the built-in default theme when no theme
    /// has the configured name.
    pub fn get_current_theme_or_default(&self) -> (r: Theme)
        ensures
            r@ == effective_theme(self@),
    {
        match self.get_current_theme() {
            Some(t) => t.duplicate(),
            None => Theme::default(),
        }
    }
}

/// Whether no two themes share a name.
pub open spec fn distinct_names(themes: Seq<ThemeView>) -> bool {
    forall|i: int, j: int| 0 <= i < themes.len() && 0 <= j < themes.len() && i != j ==> themes[i].name != themes[j].name
}

/// When no two themes share a name, naming theme `k` as the theme in use
/// makes the window show theme `k`.
pub proof fn lemma_named_theme_is_shown(config: KocoConfigView, k: int)
    requires
        0 <= k < config.themes.len(),
        distinct_names(config.themes),
        config.current_theme == config.themes[k].name,
    ensures
        effective_theme(config) == config.themes[k],
{
    assert(is_first_named(config.themes, config.current_theme, k));
    lemma_first_named_unique(config.themes, config.current_theme, k);
}

/// The built-in themes have distinct names.
pub proof fn lemma_default_theme_names_distinct()
    ensures
        distinct_names(default_themes()),
{
    reveal_strlit("Light");
    reveal_strlit("Dark");
    reveal_strlit("Solarized");
    reveal_strlit("After Dark");
    reveal_strlit("Her");
    reveal_strlit("Forest");
    reveal_strlit("Sky");
    reveal_strlit("Clays");
    reveal_strlit("Stones");
    let t = default_themes();
    assert forall|i: int, j: int| 0 <= i < t.len() && 0 <= j < t.len() && i != j implies t[i].name != t[j].name by {
        if t[i].name.len() == t[j].name.len() {
            assert(t[i].name[0] != t[j].name[0] || t[i].name[1] != t[j].name[1]);
        }
    }
}

/// The theme shown is the first one carrying the configured name: when
/// theme `j` has that name, the shown theme is some theme `m <= j` with that
/// name and no theme before `m` has it; when no theme has it, the shown
/// theme is the built-in "Default" theme.
pub proof fn lemma_shown_theme_is_first_named(config: KocoConfigView, j: int)
    requires
        0 <= j < config.themes.len(),
        config.themes[j].name == config.current_theme,
    ensures
        exists|m: int|
            0 <= m <= j && config.themes[m].name == config.current_theme && effective_theme(config)
                == config.themes[m] && forall|i: int| 0 <= i < m ==> config.themes[i].name != config.current_theme,
{
    let t = config.themes;
    let name = config.current_theme;
    let m = lemma_first_position_exists(t, name, j);
    lemma_first_named_unique(t, name, m);
}

proof fn lemma_first_position_exists(t: Seq<ThemeView>, name: Seq<char>, j: int) -> (m: int)
    requires
        0 <= j < t.len(),
        t[j].name == name,
    ensures
        0 <= m <= j,
        is_first_named(t, name, m),
    decreases j,
{
    if exists|i: int| 0 <= i < j && t[i].name == name {
        let i = choose|i: int| 0 <= i < j && t[i].name == name;
        lemma_first_position_exists(t, name, i)
    } else {
        j
    }
}

/// When no theme carries the configured name, the built-in "Default" theme
/// is shown.
pub proof fn lemma_unnamed_theme_falls_back(config: KocoConfigView)
    requires
        forall|k: int| 0 <= k < config.themes.len() ==> config.themes[k].name != config.current_theme,
    ensures
        effective_theme(config) == default_theme(),
        effective_theme(config).name == "Default"@,
{
}

/// A fresh configuration holds one instance, "LocalBoy" on "localhost" with
/// the HTTP port 8080, events on at port 9777 and no credentials; it names
/// the theme "Default" and holds the built-in themes.
pub proof fn lemma_fresh_configuration()
    ensures
        default_config().instances.len() == 1,
        default_config().instances[0].label == "LocalBoy"@,
        default_config().instances[0].hostname == "localhost"@,
        default_config().instances[0].http_port == 8080,
        default_config().instances[0].events_port == 9777,
        default_config().instances[0].events,
        default_config().instances[0].username is None,
        default_config().instances[0].password is None,
        default_config().current_theme == "Default"@,
        default_config().themes == default_themes(),
{
}

/// A fresh configuration names a theme ("Default") that is not among its
/// themes, so its window shows the built-in default theme.
pub proof fn lemma_default_config_theme()
    ensures
        effective_theme(default_config()) == default_theme(),
{
    let c = default_config();
    reveal_strlit("Default");
    reveal_strlit("Light");
    reveal_strlit("Dark");
    reveal_strlit("Solarized");
    reveal_strlit("After Dark");
    reveal_strlit("Her");
    reveal_strlit("Forest");
    reveal_strlit("Sky");
    reveal_strlit("Clays");
    reveal_strlit("Stones");
    assert forall|k: int| 0 <= k < c.themes.len() implies c.themes[k].name != c.current_theme by {
        assert(c.themes[k].name.len() != 7 || c.themes[k].name[0] != 'D' || c.themes[k].name[1] != 'e');
    }
    assert forall|k: int| !is_first_named(c.themes, c.current_theme, k) by {}
}

} // verus!
