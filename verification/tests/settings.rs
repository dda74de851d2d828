use koco::config::KocoConfig;
use koco::decimal::{i64_to_decimal, parse_usize, usize_to_decimal};
use koco::instance::{
    default_event_port, default_http_port, truthy, ConfigUIState, Instance, DEFAULT_EVENT_PORT,
    DEFAULT_HTTP_PORT,
};
use koco::remote::{Koco, RemoteKey, SettingsTab};
use koco::theme::{create_default_themes, Theme};

fn instance(label: &str, hostname: &str, http_port: usize, user: Option<&str>, pass: Option<&str>) -> Instance {
    Instance {
        label: label.to_string(),
        hostname: hostname.to_string(),
        http_port,
        username: user.map(|s| s.to_string()),
        password: pass.map(|s| s.to_string()),
        events: false,
        events_port: 9000,
    }
}

fn same_instance(a: &Instance, b: &Instance) -> bool {
    a.label == b.label
        && a.hostname == b.hostname
        && a.http_port == b.http_port
        && a.username == b.username
        && a.password == b.password
        && a.events == b.events
        && a.events_port == b.events_port
}

#[test]
fn defaults_for_stored_instances() {
    assert_eq!(default_http_port(), 8080);
    assert_eq!(default_event_port(), 9777);
    assert!(truthy());
}

#[test]
fn decimal_text() {
    assert_eq!(usize_to_decimal(0), "0");
    assert_eq!(usize_to_decimal(8080), "8080");
    assert_eq!(usize_to_decimal(usize::MAX), usize::MAX.to_string());
    assert_eq!(i64_to_decimal(0), "0");
    assert_eq!(i64_to_decimal(-42), "-42");
    assert_eq!(i64_to_decimal(i64::MIN), i64::MIN.to_string());
    assert_eq!(i64_to_decimal(i64::MAX), i64::MAX.to_string());
}

#[test]
fn port_parsing_follows_std() {
    for text in ["8080", "+80", "007", "0", "", "+", "-1", " 80", "80 ", "8o", "١٢", "+-1"] {
        assert_eq!(parse_usize(text), text.parse::<usize>().ok(), "{text:?}");
    }
    let too_big = format!("{}0", usize::MAX);
    assert_eq!(parse_usize(&too_big), None);
    assert_eq!(parse_usize(&usize::MAX.to_string()), Some(usize::MAX));
    assert_eq!(parse_usize("+80"), Some(80));
}

#[test]
fn decimal_round_trip() {
    for n in [0usize, 1, 9, 10, 99, 100, 8080, 65535, usize::MAX] {
        assert_eq!(parse_usize(&usize_to_decimal(n)), Some(n));
    }
}

#[test]
fn load_then_read_back_gives_the_instance() {
    let stored = instance("Living room", "kodi.local", 8081, Some("kodi"), Some("secret"));
    let mut form = ConfigUIState::default();
    form.load_from_instance(&stored);
    assert_eq!(form.http_port, "8081");
    assert_eq!(form.events_port, "9000");
    assert_eq!(form.username, "kodi");
    let back = form.to_instance().unwrap();
    assert!(same_instance(&back, &stored));
}

#[test]
fn empty_credentials_read_back_as_unset() {
    let stored = instance("x", "h", 1, Some(""), None);
    let mut form = ConfigUIState::default();
    form.load_from_instance(&stored);
    let back = form.to_instance().unwrap();
    assert_eq!(back.username, None);
    assert_eq!(back.password, None);
}

#[test]
fn loading_keeps_the_new_instance_fields() {
    let mut form = ConfigUIState::default();
    form.new_label = "draft".to_string();
    form.new_events = true;
    form.load_from_instance(&instance("a", "b", 1, None, None));
    assert_eq!(form.new_label, "draft");
    assert!(form.new_events);
    assert_eq!(form.username, "");
}

#[test]
fn bad_ports_are_refused_when_editing() {
    let mut form = ConfigUIState::default();
    form.http_port = "eighty".to_string();
    form.events_port = "9777".to_string();
    assert_eq!(form.to_instance().unwrap_err(), "Invalid HTTP port number");
    form.http_port = "80".to_string();
    form.events_port = "".to_string();
    assert_eq!(form.to_instance().unwrap_err(), "Invalid events port number");
    form.http_port = "".to_string();
    assert_eq!(form.to_instance().unwrap_err(), "Invalid HTTP port number");
}

#[test]
fn new_instance_needs_a_hostname() {
    let mut form = ConfigUIState::default();
    form.new_label = "Bedroom".to_string();
    assert_eq!(form.new_instance().unwrap_err(), "Hostname cannot be empty");
}

#[test]
fn new_instance_takes_default_ports() {
    let mut form = ConfigUIState::default();
    form.new_hostname = "10.0.0.2".to_string();
    form.new_http_port = "http".to_string();
    form.new_events_port = "".to_string();
    form.new_username = "".to_string();
    form.new_password = "pw".to_string();
    let i = form.new_instance().unwrap();
    assert_eq!(i.hostname, "10.0.0.2");
    assert_eq!(i.http_port, DEFAULT_HTTP_PORT);
    assert_eq!(i.events_port, DEFAULT_EVENT_PORT);
    assert_eq!(i.username, None);
    assert_eq!(i.password, Some("pw".to_string()));
    assert!(!i.events);
    form.new_http_port = "8181".to_string();
    assert_eq!(form.new_instance().unwrap().http_port, 8181);
}

#[test]
fn default_theme_is_the_dark_palette() {
    let t = Theme::default();
    assert_eq!(t.name, "Default");
    assert_eq!(t.background_color, [40, 44, 52]);
    assert_eq!(t.text_color, [220, 223, 228]);
    assert_eq!(t.heading_colors.len(), 6);
    assert_eq!(t.heading_colors[0], [255, 180, 100]);
    assert_eq!(t.heading_colors[5], [150, 80, 50]);
    let themes = create_default_themes();
    let dark = &themes[1];
    assert_eq!(dark.name, "Dark");
    assert_eq!(dark.heading_colors, t.heading_colors);
}

#[test]
fn built_in_themes() {
    let themes = create_default_themes();
    let names: Vec<&str> = themes.iter().map(|t| t.name.as_str()).collect();
    assert_eq!(
        names,
        vec!["Light", "Dark", "Solarized", "After Dark", "Her", "Forest", "Sky", "Clays", "Stones"]
    );
    assert_eq!(themes[2].background_color, [0, 43, 54]);
    assert_eq!(themes[6].heading_colors[5], [252, 165, 165]);
    assert_eq!(themes[8].heading_colors[1], [107, 114, 128]);
    assert!(themes.iter().all(|t| t.heading_colors.len() == 6));
}

#[test]
fn fresh_configuration() {
    let c = KocoConfig::default();
    assert_eq!(c.instances.len(), 1);
    assert_eq!(c.instances[0].label, "LocalBoy");
    assert_eq!(c.instances[0].hostname, "localhost");
    assert_eq!(c.instances[0].http_port, 8080);
    assert_eq!(c.instances[0].events_port, 9777);
    assert!(c.instances[0].events);
    assert_eq!(c.instances[0].username, None);
    assert_eq!(c.current_theme, "Default");
    assert_eq!(c.themes.len(), 9);
}

#[test]
fn fresh_configuration_shows_the_default_theme() {
    let c = KocoConfig::default();
    assert!(c.get_current_theme().is_none());
    let t = c.get_current_theme_or_default();
    assert_eq!(t.name, "Default");
    assert_eq!(t.background_color, [40, 44, 52]);
}

#[test]
fn named_theme_is_found() {
    let mut c = KocoConfig::default();
    c.current_theme = "Forest".to_string();
    let t = c.get_current_theme().unwrap();
    assert_eq!(t.name, "Forest");
    assert_eq!(t.background_color, [5, 46, 22]);
    let copy = c.get_current_theme_or_default();
    assert_eq!(copy.heading_colors, t.heading_colors);
}

#[test]
fn first_of_two_equally_named_themes_wins() {
    let mut c = KocoConfig::default();
    let mut twin = Theme::default();
    twin.name = "Sky".to_string();
    twin.background_color = [1, 2, 3];
    c.themes.push(twin);
    c.current_theme = "Sky".to_string();
    assert_eq!(c.get_current_theme().unwrap().background_color, [8, 47, 73]);
}

#[test]
fn theme_colours_for_the_window() {
    let t = Theme::default();
    assert_eq!(t.startup_colors(), ([40, 44, 52], [220, 223, 228]));
    assert_eq!(t.selected_colors(), ([40, 44, 52], [255, 180, 100]));
}

#[test]
fn startup_state() {
    let state = Koco::new(KocoConfig::default());
    assert_eq!(state.current_instance_index, 0);
    assert!(!state.show_settings_window);
    assert!(state.settings_tab == SettingsTab::Edit);
    assert_eq!(state.config_ui_state.hostname, "localhost");
    assert_eq!(state.config_ui_state.http_port, "8080");
    assert!(!state.config_ui_state.new_events);
    assert_eq!(state.current_instance().unwrap().label, "LocalBoy");
    assert_eq!(state.header_title(), "Koco - LocalBoy");
}

#[test]
fn startup_without_instances() {
    let mut config = KocoConfig::default();
    config.instances.clear();
    let state = Koco::new(config);
    assert!(state.current_instance().is_none());
    assert_eq!(state.header_title(), "Koco - No instance selected");
    assert_eq!(state.config_ui_state.hostname, "");
}

#[test]
fn selecting_editing_and_deleting_instances() {
    let mut state = Koco::new(KocoConfig::default());
    state.config_ui_state.new_hostname = "second".to_string();
    state.config_ui_state.new_label = "Two".to_string();
    state.config_ui_state.new_events_port = "1234".to_string();
    assert!(state.add_new_instance().is_ok());
    assert_eq!(state.config.instances.len(), 2);
    assert_eq!(state.config.instances[1].events_port, 1234);
    assert_eq!(state.config_ui_state.new_hostname, "");
    assert!(state.config_ui_state.new_events);
    assert_eq!(state.current_instance_index, 0);

    state.select_instance(1);
    assert_eq!(state.config_ui_state.label, "Two");
    state.config_ui_state.label = "Kitchen".to_string();
    state.config_ui_state.http_port = "9090".to_string();
    assert!(state.update_current_instance().is_ok());
    assert_eq!(state.config.instances[1].label, "Kitchen");
    assert_eq!(state.config.instances[1].http_port, 9090);

    state.config_ui_state.http_port = "x".to_string();
    assert_eq!(state.update_current_instance().unwrap_err(), "Invalid HTTP port number");
    assert_eq!(state.config.instances[1].http_port, 9090);

    assert!(state.delete_current_instance());
    assert_eq!(state.config.instances.len(), 1);
    assert_eq!(state.current_instance_index, 0);
    assert_eq!(state.config_ui_state.label, "LocalBoy");
    assert!(!state.delete_current_instance());
    assert_eq!(state.config.instances.len(), 1);
}

#[test]
fn deleting_the_first_instance_selects_the_new_first() {
    let mut config = KocoConfig::default();
    config.instances.push(instance("B", "b", 1, None, None));
    let mut state = Koco::new(config);
    assert!(state.delete_current_instance());
    assert_eq!(state.current_instance_index, 0);
    assert_eq!(state.config.instances[0].label, "B");
    assert_eq!(state.config_ui_state.label, "B");
}

#[test]
fn adding_without_hostname_changes_nothing() {
    let mut state = Koco::new(KocoConfig::default());
    state.config_ui_state.new_label = "draft".to_string();
    assert_eq!(state.add_new_instance().unwrap_err(), "Hostname cannot be empty");
    assert_eq!(state.config.instances.len(), 1);
    assert_eq!(state.config_ui_state.new_label, "draft");
}

#[test]
fn adding_to_an_empty_list_selects_it() {
    let mut config = KocoConfig::default();
    config.instances.clear();
    let mut state = Koco::new(config);
    state.config_ui_state.new_hostname = "h".to_string();
    assert!(state.add_new_instance().is_ok());
    assert_eq!(state.current_instance().unwrap().hostname, "h");
}

#[test]
fn selecting_a_theme() {
    let mut state = Koco::new(KocoConfig::default());
    state.select_theme(2);
    assert_eq!(state.config.current_theme, "Solarized");
    assert_eq!(state.config.get_current_theme_or_default().background_color, [0, 43, 54]);
}

#[test]
fn remote_keys() {
    let pairs = [
        (RemoteKey::Up, "up"),
        (RemoteKey::Down, "down"),
        (RemoteKey::Left, "left"),
        (RemoteKey::Right, "right"),
        (RemoteKey::Select, "select"),
        (RemoteKey::Back, "back"),
        (RemoteKey::PlayPause, "playpause"),
    ];
    for (key, name) in pairs {
        assert_eq!(key.action(), name);
    }
}
