//! The state of the remote's window: the configuration, the selected
//! instance and the settings form, with what each settings action does to
//! them; and the remote's keys.

use vstd::prelude::*;
use vstd::string::*;

use crate::config::{distinct_names, effective_theme, instances_view, lemma_named_theme_is_shown, KocoConfig};
use crate::instance::{ConfigUIState, ConfigUIView, Instance, InstanceView};
use crate::json::{is_plain_char, lemma_plain_text_quoted};
use crate::rpc::execute_action_request;

verus! {

/// The page of the settings window: editing the selected instance, or
/// adding one.
#[derive(Debug, Clone, Copy, PartialEq, Eq, Structural)]
pub enum SettingsTab {
    Edit,
    Add,
}

impl Default for SettingsTab {
    fn default() -> (r: SettingsTab)
        ensures
            r == SettingsTab::Edit,
    {
        SettingsTab::Edit
    }
}

/// The remote's state, apart from the now-playing information and the
/// background tasks.
#[derive(Debug)]
pub struct Koco {
    pub config: KocoConfig,
    pub current_instance_index: usize,
    pub show_settings_window: bool,
    pub settings_tab: SettingsTab,
    pub config_ui_state: ConfigUIState,
}

impl Koco {
    /// The selected position is that of an instance, or 0.
    pub open spec fn wf(&self) -> bool {
        self.current_instance_index == 0 || self.current_instance_index < self.config.instances@.len()
    }

    /// The views of the known instances.
    pub open spec fn instances(&self) -> Seq<InstanceView> {
        instances_view(self.config.instances@)
    }

    /// The instance at the selected position, if there is one there.
    pub open spec fn selected(&self) -> Option<InstanceView> {
        if self.current_instance_index < self.config.instances@.len() {
            Some(self.instances()[self.current_instance_index as int])
        } else {
            None
        }
    }

    /// The state at start-up with `config`: the first instance selected and
    /// shown in the settings form, the settings window closed on its edit
    /// page.
    pub fn new(config: KocoConfig) -> (r: Koco)
        ensures
            r.wf(),
            r.config@ == config@,
            r.current_instance_index == 0,
            !r.show_settings_window,
            r.settings_tab == SettingsTab::Edit,
            r.config_ui_state@ == if config.instances@.len() > 0 {
                ConfigUIView::empty().with_instance(config.instances@[0]@)
            } else {
                ConfigUIView::empty()
            },
    {
        let mut config_ui_state = ConfigUIState::default();
        if config.instances.len() > 0 {
            config_ui_state.load_from_instance(&config.instances[0]);
        }
        Koco {
            config,
            current_instance_index: 0,
            show_settings_window: false,
            settings_tab: SettingsTab::default(),
            config_ui_state,
        }
    }

    /// The selected instance.
    pub fn current_instance(&self) -> (r: Option<&Instance>)
        ensures
            match r {
                Some(i) => self.selected() == Some(i@),
                None => self.selected() is None,
            },
    {
        if self.current_instance_index < self.config.instances.len() {
            Some(&self.config.instances[self.current_instance_index])
        } else {
            None
        }
    }

    /// The heading of the window: the selected instance's label.
    pub fn header_title(&self) -> (r: String)
        ensures
            r@ == "Koco - "@ + match self.selected() {
                Some(i) => i.label,
                None => "No instance selected"@,
            },
    {
        let mut r = String::from_str("Koco - ");
        match self.current_instance() {
            Some(i) => r.append(i.label.as_str()),
            None => r.append("No instance selected"),
        }
        r
    }

    /// Selects instance `i` and shows it in the settings form.
    pub fn select_instance(&mut self, i: usize)
        requires
            i < old(self).config.instances@.len(),
        ensures
            final(self).wf(),
            final(self).current_instance_index == i,
            final(self).config@ == old(self).config@,
            final(self).config_ui_state@ == old(self).config_ui_state@.with_instance(
                old(self).instances()[i as int],
            ),
            final(self).show_settings_window == old(self).show_settings_window,
            final(self).settings_tab == old(self).settings_tab,
    {
        self.current_instance_index = i;
        self.config_ui_state.load_from_instance(&self.config.instances[i]);
    }

    /// Makes theme `k` the theme in use.
    pub fn select_theme(&mut self, k: usize)
        requires
            k < old(self).config.themes@.len(),
        ensures
            final(self).config.current_theme@ == old(self).config.themes@[k as int].name@,
            distinct_names(old(self).config@.themes) ==> effective_theme(final(self).config@)
                == old(self).config@.themes[k as int],
            final(self).config.themes@ == old(self).config.themes@,
            final(self).config.instances@ == old(self).config.instances@,
            final(self).current_instance_index == old(self).current_instance_index,
            final(self).config_ui_state@ == old(self).config_ui_state@,
            final(self).show_settings_window == old(self).show_settings_window,
            final(self).settings_tab == old(self).settings_tab,
            old(self).wf() ==> final(self).wf(),
    {
        let name = self.config.themes[k].name.clone();
        self.config.current_theme = name;
        proof {
            if distinct_names(old(self).config@.themes) {
                assert(self.config@.themes == old(self).config@.themes);
                lemma_named_theme_is_shown(self.config@, k as int);
            }
        }
    }

    /// Replaces the selected instance with the one the edit fields describe;
    /// on a port that is not a number, changes nothing and gives the
    /// message.
    pub fn update_current_instance(&mut self) -> (r: Result<(), String>)
        requires
            old(self).current_instance_index < old(self).config.instances@.len(),
        ensures
            match old(self).config_ui_state@.edited() {
                Ok(i) => r is Ok && final(self).instances() == old(self).instances().update(
                    old(self).current_instance_index as int,
                    i,
                ),
                Err(e) => r matches Err(m) && m@ == e && final(self).instances() == old(self).instances(),
            },
            final(self).config.current_theme@ == old(self).config.current_theme@,
            final(self).config.themes@ == old(self).config.themes@,
            final(self).current_instance_index == old(self).current_instance_index,
            final(self).config_ui_state@ == old(self).config_ui_state@,
            final(self).show_settings_window == old(self).show_settings_window,
            final(self).settings_tab == old(self).settings_tab,
            final(self).wf(),
    {
        match self.config_ui_state.to_instance() {
            Ok(instance) => {
                let ghost before = self.instances();
                let index = self.current_instance_index;
                self.config.instances.set(index, instance);
                assert(self.instances() =~= before.update(index as int, old(self).config_ui_state@.edited()->Ok_0));
                Ok(())
            },
            Err(e) => Err(e),
        }
    }

    /// Removes the selected instance unless it is the only one, selects the
    /// one before it (or the first) and shows that in the settings form.
    /// Says whether it removed one.
    pub fn delete_current_instance(&mut self) -> (r: bool)
        requires
            old(self).current_instance_index < old(self).config.instances@.len(),
        ensures
            r == (old(self).config.instances@.len() > 1),
            r ==> {
                let k = old(self).current_instance_index as int;
                &&& final(self).instances() == old(self).instances().remove(k)
                &&& final(self).current_instance_index == if k > 0 { k - 1 } else { 0 }
                &&& final(self).config_ui_state@ == old(self).config_ui_state@.with_instance(
                    final(self).instances()[final(self).current_instance_index as int],
                )
            },
            !r ==> final(self).instances() == old(self).instances()
                && final(self).current_instance_index == old(self).current_instance_index
                && final(self).config_ui_state@ == old(self).config_ui_state@,
            final(self).config.instances@.len() >= 1,
            final(self).config.current_theme@ == old(self).config.current_theme@,
            final(self).config.themes@ == old(self).config.themes@,
            final(self).show_settings_window == old(self).show_settings_window,
            final(self).settings_tab == old(self).settings_tab,
            final(self).wf(),
    {
        if self.config.instances.len() <= 1 {
            return false;
        }
        let ghost before = self.instances();
        let index = self.current_instance_index;
        let _removed = self.config.instances.remove(index);
        assert(self.instances() =~= before.remove(index as int));
        self.current_instance_index = if index > 0 {
            index - 1
        } else {
            0
        };
        self.config_ui_state.load_from_instance(&self.config.instances[self.current_instance_index]);
        true
    }

    /// Appends the instance that the fields for a new instance describe and
    /// empties those fields; without a hostname, changes nothing and gives
    /// the message.
    pub fn add_new_instance(&mut self) -> (r: Result<(), String>)
        ensures
            match old(self).config_ui_state@.added() {
                Ok(i) => r is Ok && final(self).instances() == old(self).instances().push(i)
                    && final(self).config_ui_state@ == (ConfigUIView {
                    new_label: Seq::empty(),
                    new_hostname: Seq::empty(),
                    new_http_port: Seq::empty(),
                    new_username: Seq::empty(),
                    new_password: Seq::empty(),
                    new_events: true,
                    new_events_port: Seq::empty(),
                    ..old(self).config_ui_state@
                }),
                Err(e) => r matches Err(m) && m@ == e && final(self).instances() == old(self).instances()
                    && final(self).config_ui_state@ == old(self).config_ui_state@,
            },
            final(self).config.current_theme@ == old(self).config.current_theme@,
            final(self).config.themes@ == old(self).config.themes@,
            final(self).current_instance_index == old(self).current_instance_index,
            final(self).show_settings_window == old(self).show_settings_window,
            final(self).settings_tab == old(self).settings_tab,
            old(self).wf() ==> final(self).wf(),
    {
        match self.config_ui_state.new_instance() {
            Ok(instance) => {
                let ghost before = self.instances();
                self.config.instances.push(instance);
                assert(self.instances() =~= before.push(old(self).config_ui_state@.added()->Ok_0));
                self.config_ui_state.clear_new_instance();
                Ok(())
            },
            Err(e) => Err(e),
        }
    }
}

/// In a well-formed state an instance is selected exactly when there is one.
pub proof fn lemma_selection_present(state: Koco)
    requires
        state.wf(),
    ensures
        state.selected() is Some <==> state.config.instances@.len() > 0,
{
}

/// A key of the remote.
#[derive(Debug, Clone, Copy, PartialEq, Eq, Structural)]
pub enum RemoteKey {
    Up,
    Down,
    Left,
    Right,
    Select,
    Back,
    PlayPause,
}

/// The name of the Kodi input action that a key triggers.
pub open spec fn action_name(key: RemoteKey) -> Seq<char> {
    match key {
        RemoteKey::Up => "up"@,
        RemoteKey::Down => "down"@,
        RemoteKey::Left => "left"@,
        RemoteKey::Right => "right"@,
        RemoteKey::Select => "select"@,
        RemoteKey::Back => "back"@,
        RemoteKey::PlayPause => "playpause"@,
    }
}

/// Different keys trigger different actions, and each action is the key's
/// own name in lower case ("playpause" for play/pause).
pub proof fn lemma_actions_distinct(a: RemoteKey, b: RemoteKey)
    ensures
        a != b ==> action_name(a) != action_name(b),
        action_name(RemoteKey::Back) == seq!['b', 'a', 'c', 'k'],
        action_name(RemoteKey::Select) == seq!['s', 'e', 'l', 'e', 'c', 't'],
        action_name(RemoteKey::PlayPause) == seq!['p', 'l', 'a', 'y', 'p', 'a', 'u', 's', 'e'],
        action_name(RemoteKey::Up) == seq!['u', 'p'],
        action_name(RemoteKey::Down) == seq!['d', 'o', 'w', 'n'],
        action_name(RemoteKey::Left) == seq!['l', 'e', 'f', 't'],
        action_name(RemoteKey::Right) == seq!['r', 'i', 'g', 'h', 't'],
{
    reveal_strlit("up");
    reveal_strlit("down");
    reveal_strlit("left");
    reveal_strlit("right");
    reveal_strlit("select");
    reveal_strlit("back");
    reveal_strlit("playpause");
    if a != b {
        if action_name(a).len() == action_name(b).len() {
            assert(action_name(a)[0] != action_name(b)[0]);
        }
    }
}

/// The request a key press sends carries the key's action name between
/// quotes, unescaped.
pub proof fn lemma_key_request_carries_action(key: RemoteKey)
    ensures
        execute_action_request(action_name(key))
            == "{\"id\":1,\"jsonrpc\":\"2.0\",\"method\":\"Input.ExecuteAction\",\"params\":{\"action\":"@
            + (seq!['"'] + action_name(key) + seq!['"']) + "}}"@,
{
    reveal_strlit("up");
    reveal_strlit("down");
    reveal_strlit("left");
    reveal_strlit("right");
    reveal_strlit("select");
    reveal_strlit("back");
    reveal_strlit("playpause");
    let name = action_name(key);
    assert forall|i: int| 0 <= i < name.len() implies is_plain_char(#[trigger] name[i]) by {
        assert('a' <= name[i] <= 'z');
    }
    lemma_plain_text_quoted(name);
}

impl RemoteKey {
    /// The name of the Kodi input action that this key triggers.
    pub fn action(&self) -> (r: &'static str)
        ensures
            r@ == action_name(*self),
    {
        match self {
            RemoteKey::Up => "up",
            RemoteKey::Down => "down",
            RemoteKey::Left => "left",
            RemoteKey::Right => "right",
            RemoteKey::Select => "select",
            RemoteKey::Back => "back",
            RemoteKey::PlayPause => "playpause",
        }
    }
}

} // verus!
