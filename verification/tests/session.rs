use qbittui::api::{ServerState, Torrent};
use qbittui::app::{is_paused_label, Action, App, AppState, InputMode, Outcome};
use qbittui::config::Config;
use qbittui::event::{Event, Key, KeyPress};

const ENDPOINT: &str = "http://localhost:8080/";

fn torrent(hash: &str, name: &str, state: &str) -> Torrent {
    Torrent {
        hash: hash.to_string(),
        name: name.to_string(),
        size: 1,
        progress: 0,
        dlspeed: 0,
        upspeed: 0,
        eta: None,
        state: state.to_string(),
        priority: None,
        num_seeds: None,
        num_leechs: None,
        ratio: None,
        category: None,
        tags: None,
        added_on: None,
        completion_on: None,
        downloaded: None,
        uploaded: None,
    }
}

fn numbered(count: usize) -> Vec<Torrent> {
    (0..count)
        .map(|i| torrent(&format!("hash{i}"), &format!("item {i}"), "downloading"))
        .collect()
}

fn summary(status: &str) -> ServerState {
    ServerState {
        connection_status: status.to_string(),
        dht_nodes: Some(12),
        dl_info_data: 1,
        dl_info_speed: 2,
        dl_rate_limit: None,
        up_info_data: 3,
        up_info_speed: 4,
        up_rate_limit: None,
        queueing: None,
        use_alt_speed_limits: None,
        refresh_interval: None,
    }
}

fn key(key: Key) -> Event {
    Event::Key(KeyPress::plain(key))
}

fn ch(c: char) -> Event {
    key(Key::Char(c))
}

fn ctrl(c: char) -> Event {
    Event::Key(KeyPress { key: Key::Char(c), ctrl: true, shift: false })
}

fn shift(c: char) -> Event {
    Event::Key(KeyPress { key: Key::Char(c), ctrl: false, shift: true })
}

fn fresh() -> App {
    let (app, action) = App::new_with_config(ENDPOINT.to_string(), None, None, Config::default(), 0);
    assert_eq!(action, Action::Nothing);
    app
}

fn type_text(app: &mut App, text: &str, now: u64) {
    for c in text.chars() {
        assert_eq!(app.deliver(ch(c), now), Action::Nothing);
    }
}

/// A session that logged in and fetched `items` at time `now`.
fn browsing(items: Vec<Torrent>, now: u64) -> App {
    let (mut app, action) = App::new_with_config(
        ENDPOINT.to_string(),
        Some("admin".to_string()),
        Some("secret".to_string()),
        Config::default(),
        now,
    );
    assert_eq!(
        action,
        Action::Login { username: "admin".to_string(), password: "secret".to_string() }
    );
    assert_eq!(app.handle_outcome(Outcome::LoggedIn(Ok(())), now), Action::SaveConfig);
    assert_eq!(app.handle_outcome(Outcome::ConfigSaved, now), Action::Refresh);
    assert_eq!(
        app.handle_outcome(
            Outcome::Refreshed { torrents: Ok(items), server_state: Ok(summary("connected")) },
            now,
        ),
        Action::Nothing
    );
    assert_eq!(app.state, AppState::Main);
    app
}

fn assert_in_order(app: &App) {
    let len = app.get_current_torrent_list_len();
    let rows = app.get_max_visible_rows();
    if len == 0 {
        assert_eq!(app.list.selected_torrent, 0);
    } else {
        assert!(app.list.selected_torrent < len);
        assert!(app.list.scroll_offset <= app.list.selected_torrent);
        assert!(app.list.selected_torrent < app.list.scroll_offset + rows);
    }
    assert!(app.list.scroll_offset + rows <= len.max(rows));
    assert_eq!(app.search_input, app.list.search_query);
    if app.delete_confirmation_hash.is_some() {
        assert_eq!(app.state, AppState::ConfirmDelete);
    }
}

#[test]
fn session_starts_on_the_endpoint_screen() {
    let app = fresh();
    assert_eq!(app.state, AppState::UrlConfig);
    assert_eq!(app.input_mode, InputMode::Url);
    assert_eq!(app.url_input, ENDPOINT);
    assert_eq!(app.username_input, "");
    assert_eq!(app.password_input, "");
    assert_eq!(app.base_url, ENDPOINT);
    assert_eq!(app.last_update, 0);
    assert!(!app.should_quit);
    assert!(!app.show_password);
    assert_eq!(app.error_message, None);
    assert_eq!(app.delete_confirmation_hash, None);
    assert!(app.server_state.is_none());
    assert_eq!((app.terminal_width, app.terminal_height), (80, 24));
    assert_eq!(app.get_max_visible_rows(), 20);
    assert_eq!(app.get_current_torrent_list_len(), 0);
    assert_in_order(&app);
}

#[test]
fn session_offers_the_last_connection() {
    let mut config = Config::default();
    config.update_connection_info("http://nas:9090/", "me");
    let (app, action) = App::new_with_config(ENDPOINT.to_string(), None, None, config, 5);
    assert_eq!(action, Action::Nothing);
    assert_eq!(app.state, AppState::UrlConfig);
    assert_eq!(app.url_input, "http://nas:9090/");
    assert_eq!(app.username_input, "me");
    assert_eq!(app.base_url, ENDPOINT);
    assert_eq!(app.last_update, 5);
}

#[test]
fn session_with_credentials_logs_in_at_once() {
    let mut config = Config::default();
    config.update_connection_info("http://nas:9090/", "me");
    let (app, action) = App::new_with_config(
        ENDPOINT.to_string(),
        Some("admin".to_string()),
        Some("secret".to_string()),
        config,
        0,
    );
    assert_eq!(
        action,
        Action::Login { username: "admin".to_string(), password: "secret".to_string() }
    );
    assert_eq!(app.state, AppState::Login);
    assert_eq!(app.input_mode, InputMode::Username);
    assert_eq!(app.url_input, ENDPOINT);
    assert_eq!(app.username_input, "admin");
    assert_eq!(app.password_input, "secret");
}

#[test]
fn session_with_one_credential_starts_on_the_endpoint_screen() {
    let mut config = Config::default();
    config.update_connection_info("http://nas:9090/", "me");
    let (app, action) =
        App::new_with_config(ENDPOINT.to_string(), Some("admin".to_string()), None, config, 0);
    assert_eq!(action, Action::Nothing);
    assert_eq!(app.state, AppState::UrlConfig);
    assert_eq!(app.input_mode, InputMode::Url);
    assert_eq!(app.url_input, ENDPOINT);
    assert_eq!(app.username_input, "");
    assert_eq!(app.password_input, "");
}

#[test]
fn endpoint_screen_edits_the_address() {
    let mut app = fresh();
    assert_eq!(app.deliver(key(Key::Backspace), 0), Action::Nothing);
    assert_eq!(app.url_input, "http://localhost:8080");
    type_text(&mut app, "1/x", 0);
    assert_eq!(app.url_input, "http://localhost:80801/x");
    assert_eq!(app.deliver(ctrl('h'), 0), Action::Nothing);
    assert_eq!(app.url_input, "http://localhost:80801/xh");
    assert_eq!(app.deliver(key(Key::Tab), 0), Action::Nothing);
    assert_eq!(app.deliver(key(Key::Up), 0), Action::Nothing);
    assert_eq!(app.url_input, "http://localhost:80801/xh");
    assert_eq!(app.state, AppState::UrlConfig);
}

#[test]
fn backspace_on_an_empty_buffer_does_nothing() {
    let mut app = fresh();
    for _ in 0..40 {
        app.deliver(key(Key::Backspace), 0);
    }
    assert_eq!(app.url_input, "");
    assert_eq!(app.deliver(key(Key::Enter), 0), Action::Nothing);
    assert_eq!(app.state, AppState::UrlConfig);
}

#[test]
fn valid_endpoint_binds_the_client_and_asks_for_login() {
    let mut app = fresh();
    for _ in 0..40 {
        app.deliver(key(Key::Backspace), 0);
    }
    type_text(&mut app, "HTTP://Example.ORG:8080", 0);
    assert_eq!(
        app.deliver(key(Key::Enter), 0),
        Action::Connect { url: "http://example.org:8080/".to_string() }
    );
    assert_eq!(app.base_url, "http://example.org:8080/");
    assert_eq!(app.url_input, "HTTP://Example.ORG:8080");
    assert_eq!(app.state, AppState::Login);
    assert_eq!(app.input_mode, InputMode::Username);
    assert_eq!(app.handle_outcome(Outcome::Connected, 0), Action::Nothing);
    assert_eq!(app.state, AppState::Login);
}

#[test]
fn invalid_endpoint_shows_a_failure() {
    let mut app = fresh();
    for _ in 0..40 {
        app.deliver(key(Key::Backspace), 0);
    }
    type_text(&mut app, "not a url", 0);
    assert_eq!(app.deliver(key(Key::Enter), 0), Action::Nothing);
    assert_eq!(app.state, AppState::Error("Invalid URL".to_string()));
    assert_eq!(
        app.error_message.as_deref(),
        Some("Invalid URL format. Please enter a valid URL (e.g., http://localhost:8080)")
    );
    assert_eq!(app.base_url, ENDPOINT);
    assert_eq!(app.deliver(key(Key::Enter), 0), Action::Nothing);
    assert_eq!(app.state, AppState::Main);
    assert_eq!(app.error_message, None);
}

#[test]
fn endpoint_parsed_takes_either_result() {
    let mut app = fresh();
    assert_eq!(
        app.endpoint_parsed(Some("https://daemon/".to_string())),
        Action::Connect { url: "https://daemon/".to_string() }
    );
    assert_eq!(app.state, AppState::Login);
    assert_eq!(app.base_url, "https://daemon/");
    let mut app = fresh();
    assert_eq!(app.endpoint_parsed(None), Action::Nothing);
    assert_eq!(app.state, AppState::Error("Invalid URL".to_string()));
}

#[test]
fn cancel_on_the_endpoint_screen_quits() {
    let mut app = fresh();
    assert_eq!(app.deliver(key(Key::Esc), 0), Action::Quit);
    assert!(app.should_quit);
}

fn at_login() -> App {
    let mut app = fresh();
    assert_eq!(app.deliver(key(Key::Enter), 0), Action::Connect { url: ENDPOINT.to_string() });
    assert_eq!(app.state, AppState::Login);
    app
}

#[test]
fn login_screen_routes_typing_by_focus() {
    let mut app = at_login();
    type_text(&mut app, "adminx", 0);
    app.deliver(key(Key::Backspace), 0);
    assert_eq!(app.username_input, "admin");
    assert_eq!(app.deliver(key(Key::Tab), 0), Action::Nothing);
    assert_eq!(app.input_mode, InputMode::Password);
    type_text(&mut app, "pw", 0);
    app.deliver(key(Key::Backspace), 0);
    assert_eq!(app.password_input, "p");
    assert_eq!(app.username_input, "admin");
    app.deliver(key(Key::Tab), 0);
    assert_eq!(app.input_mode, InputMode::Username);
    type_text(&mut app, "h", 0);
    assert_eq!(app.username_input, "adminh");
}

#[test]
fn login_screen_toggles_the_password_display() {
    let mut app = at_login();
    assert_eq!(app.deliver(ctrl('h'), 0), Action::Nothing);
    assert!(app.show_password);
    assert_eq!(app.username_input, "");
    app.deliver(ctrl('h'), 0);
    assert!(!app.show_password);
}

#[test]
fn login_screen_ignores_typing_without_a_field() {
    let mut app = at_login();
    app.input_mode = InputMode::Off;
    type_text(&mut app, "abc", 0);
    app.deliver(key(Key::Backspace), 0);
    assert_eq!(app.username_input, "");
    assert_eq!(app.password_input, "");
    app.deliver(key(Key::Tab), 0);
    assert_eq!(app.input_mode, InputMode::Username);
}

#[test]
fn login_needs_both_fields() {
    let mut app = at_login();
    assert_eq!(app.deliver(key(Key::Enter), 0), Action::Nothing);
    type_text(&mut app, "admin", 0);
    assert_eq!(app.deliver(key(Key::Enter), 0), Action::Nothing);
    app.deliver(key(Key::Tab), 0);
    type_text(&mut app, "secret", 0);
    assert_eq!(
        app.deliver(key(Key::Enter), 0),
        Action::Login { username: "admin".to_string(), password: "secret".to_string() }
    );
    assert_eq!(app.state, AppState::Login);
}

#[test]
fn cancel_on_the_login_screen_quits() {
    let mut app = at_login();
    assert_eq!(app.deliver(key(Key::Esc), 0), Action::Quit);
    assert!(app.should_quit);
}

#[test]
fn successful_login_saves_the_connection_then_refreshes() {
    let mut app = at_login();
    type_text(&mut app, "admin", 0);
    app.deliver(key(Key::Tab), 0);
    type_text(&mut app, "secret", 0);
    app.deliver(key(Key::Enter), 0);
    assert_eq!(app.handle_outcome(Outcome::LoggedIn(Ok(())), 10), Action::SaveConfig);
    assert_eq!(app.state, AppState::Main);
    assert_eq!(app.input_mode, InputMode::Off);
    assert_eq!(app.config.get_last_url().as_deref(), Some(ENDPOINT));
    assert_eq!(app.config.get_last_username().as_deref(), Some("admin"));
    assert_eq!(app.config.get_timezone(), "UTC");
    assert_eq!(app.handle_outcome(Outcome::ConfigSaved, 11), Action::Refresh);
    assert_eq!(
        app.handle_outcome(
            Outcome::Refreshed {
                torrents: Ok(numbered(3)),
                server_state: Ok(summary("connected")),
            },
            12,
        ),
        Action::Nothing
    );
    assert_eq!(app.get_current_torrent_list_len(), 3);
    assert_eq!(app.server_state.as_ref().map(|s| s.connection_status.as_str()), Some("connected"));
    assert_eq!(app.last_update, 12);
    assert_in_order(&app);
}

#[test]
fn failed_login_shows_the_failure_and_saves_nothing() {
    let mut app = at_login();
    type_text(&mut app, "admin", 0);
    app.deliver(key(Key::Tab), 0);
    type_text(&mut app, "wrong", 0);
    app.deliver(key(Key::Enter), 0);
    let action = app.handle_outcome(Outcome::LoggedIn(Err("Fails.".to_string())), 0);
    assert_eq!(action, Action::Nothing);
    assert_eq!(app.state, AppState::Error("Login failed: Fails.".to_string()));
    assert_eq!(app.error_message.as_deref(), Some("Login failed: Fails."));
    assert_eq!(app.config.get_last_url(), None);
    assert_eq!(app.config.get_last_username(), None);
    assert_eq!(app.deliver(key(Key::Enter), 0), Action::Nothing);
    assert_eq!(app.state, AppState::Main);
    assert_eq!(app.error_message, None);
    assert_eq!(app.get_current_torrent_list_len(), 0);
    assert!(app.list.torrents.is_empty());
}

#[test]
fn failure_is_acknowledged_by_confirm_or_cancel_only() {
    let mut app = at_login();
    app.handle_outcome(Outcome::LoggedIn(Err("no".to_string())), 0);
    assert_eq!(app.deliver(ch('x'), 0), Action::Nothing);
    assert_eq!(app.deliver(key(Key::Tab), 0), Action::Nothing);
    assert_eq!(app.state, AppState::Error("Login failed: no".to_string()));
    assert_eq!(app.deliver(key(Key::Esc), 0), Action::Nothing);
    assert_eq!(app.state, AppState::Main);
    assert!(!app.should_quit);
}

#[test]
fn force_quit_ends_the_program_from_every_screen() {
    let mut screens = vec![fresh(), at_login(), browsing(numbered(3), 0)];
    let mut adding = browsing(numbered(3), 0);
    adding.deliver(ch('a'), 0);
    screens.push(adding);
    let mut searching = browsing(numbered(3), 0);
    searching.deliver(ctrl('f'), 0);
    screens.push(searching);
    let mut confirming = browsing(numbered(3), 0);
    confirming.deliver(ch('d'), 0);
    screens.push(confirming);
    let mut failed = at_login();
    failed.handle_outcome(Outcome::LoggedIn(Err("no".to_string())), 0);
    screens.push(failed);
    for mut app in screens {
        let before = app.state.clone();
        assert_eq!(app.deliver(ctrl('q'), 0), Action::Quit);
        assert!(app.should_quit);
        assert_eq!(app.state, before);
    }
}

#[test]
fn plain_q_does_not_quit() {
    let mut app = browsing(numbered(3), 0);
    assert_eq!(app.deliver(ch('q'), 0), Action::Nothing);
    assert!(!app.should_quit);
}

#[test]
fn list_screen_navigates() {
    let mut app = browsing(numbered(25), 0);
    app.set_max_visible_rows(10);
    for _ in 0..9 {
        assert_eq!(app.deliver(key(Key::Down), 0), Action::Nothing);
    }
    assert_eq!((app.list.selected_torrent, app.list.scroll_offset), (9, 0));
    assert_eq!(app.deliver(ch('j'), 0), Action::Nothing);
    assert_eq!((app.list.selected_torrent, app.list.scroll_offset), (10, 1));
    assert_eq!(app.get_relative_selected_index(), 9);
    app.deliver(ch('k'), 0);
    app.deliver(key(Key::Up), 0);
    assert_eq!((app.list.selected_torrent, app.list.scroll_offset), (8, 1));
    app.deliver(key(Key::PageDown), 0);
    assert_eq!((app.list.selected_torrent, app.list.scroll_offset), (17, 8));
    app.deliver(key(Key::PageUp), 0);
    assert_eq!((app.list.selected_torrent, app.list.scroll_offset), (8, 8));
    app.deliver(key(Key::End), 0);
    assert_eq!((app.list.selected_torrent, app.list.scroll_offset), (24, 15));
    app.deliver(key(Key::Home), 0);
    assert_eq!((app.list.selected_torrent, app.list.scroll_offset), (0, 0));
    assert_eq!(app.state, AppState::Main);
    assert_in_order(&app);
}

#[test]
fn list_screen_getters_follow_the_list() {
    let mut app = browsing(numbered(25), 0);
    app.set_max_visible_rows(4);
    app.deliver(key(Key::End), 0);
    let shown: Vec<&str> = app.get_visible_torrents().iter().map(|t| t.name.as_str()).collect();
    assert_eq!(shown, ["item 21", "item 22", "item 23", "item 24"]);
    assert_eq!(app.get_relative_selected_index(), 3);
    assert_eq!(app.get_max_visible_rows(), 4);
    assert_eq!(app.get_current_torrent_list_len(), 25);
    assert_eq!(app.get_current_selected_torrent().map(|t| t.hash.as_str()), Some("hash24"));
}

#[test]
fn refresh_key_asks_for_a_refresh() {
    let mut app = browsing(numbered(3), 0);
    assert_eq!(app.deliver(ch('r'), 1), Action::Refresh);
    assert_eq!(app.state, AppState::Main);
}

#[test]
fn refresh_timer_fires_after_the_interval_on_the_list_screen() {
    let mut app = browsing(numbered(3), 1000);
    assert!(!app.is_refresh_due(1000));
    assert!(!app.is_refresh_due(3000));
    assert!(app.is_refresh_due(3001));
    assert!(!app.is_refresh_due(0));
    assert_eq!(app.deliver(Event::Other, 3000), Action::Nothing);
    assert_eq!(app.deliver(Event::Other, 3001), Action::Refresh);
    assert_eq!(app.deliver(key(Key::Down), 3001), Action::Refresh);
    assert_eq!(app.list.selected_torrent, 1);
    assert_eq!(app.deliver(key(Key::Tab), 2999), Action::Nothing);
}

#[test]
fn refresh_timer_rests_on_other_screens() {
    let mut app = fresh();
    assert_eq!(app.deliver(Event::Other, 1_000_000), Action::Nothing);
    assert_eq!(app.deliver(ch('x'), 1_000_000), Action::Nothing);
    let mut app = browsing(numbered(3), 0);
    assert_eq!(app.deliver(ch('d'), 5000), Action::Nothing);
    assert_eq!(app.state, AppState::ConfirmDelete);
    assert_eq!(app.deliver(Event::Other, 9000), Action::Nothing);
    assert_eq!(app.deliver(ch('n'), 9000), Action::Refresh);
}

#[test]
fn refresh_replaces_the_list_and_restarts_the_timer() {
    let mut app = browsing(numbered(25), 0);
    app.set_max_visible_rows(10);
    app.deliver(key(Key::End), 0);
    let action = app.handle_outcome(
        Outcome::Refreshed { torrents: Ok(numbered(5)), server_state: Ok(summary("firewalled")) },
        7000,
    );
    assert_eq!(action, Action::Nothing);
    assert_eq!(app.get_current_torrent_list_len(), 5);
    assert_eq!((app.list.selected_torrent, app.list.scroll_offset), (4, 0));
    assert_eq!(app.server_state.as_ref().map(|s| s.connection_status.as_str()), Some("firewalled"));
    assert_eq!(app.last_update, 7000);
    assert!(!app.is_refresh_due(9000));
    assert!(app.is_refresh_due(9001));
    assert_eq!(app.state, AppState::Main);
    assert_in_order(&app);
}

#[test]
fn failed_list_fetch_keeps_the_list_and_shows_an_error() {
    let mut app = browsing(numbered(4), 0);
    app.deliver(key(Key::Down), 0);
    let action = app.handle_outcome(
        Outcome::Refreshed {
            torrents: Err("timeout".to_string()),
            server_state: Ok(summary("connected")),
        },
        50,
    );
    assert_eq!(action, Action::Nothing);
    assert_eq!(app.state, AppState::Main);
    assert_eq!(app.error_message.as_deref(), Some("Failed to fetch torrents: timeout"));
    assert_eq!(app.get_current_torrent_list_len(), 4);
    assert_eq!(app.list.selected_torrent, 1);
    assert_eq!(app.last_update, 50);
    let action = app.handle_outcome(
        Outcome::Refreshed { torrents: Ok(numbered(4)), server_state: Ok(summary("connected")) },
        60,
    );
    assert_eq!(action, Action::Nothing);
    assert_eq!(app.error_message, None);
}

#[test]
fn failed_summary_fetch_is_swallowed() {
    let mut app = browsing(numbered(4), 0);
    let action = app.handle_outcome(
        Outcome::Refreshed { torrents: Ok(numbered(2)), server_state: Err("503".to_string()) },
        50,
    );
    assert_eq!(action, Action::Nothing);
    assert_eq!(app.state, AppState::Main);
    assert_eq!(app.error_message, None);
    assert_eq!(app.get_current_torrent_list_len(), 2);
    assert_eq!(app.server_state.as_ref().map(|s| s.connection_status.as_str()), Some("connected"));
    assert_eq!(app.last_update, 50);
}

#[test]
fn refresh_keeps_an_active_filter() {
    let mut app = browsing(numbered(25), 0);
    app.deliver(ctrl('f'), 0);
    type_text(&mut app, "item 2", 0);
    app.deliver(key(Key::Enter), 0);
    assert_eq!(app.get_current_torrent_list_len(), 6);
    app.handle_outcome(
        Outcome::Refreshed { torrents: Ok(numbered(22)), server_state: Err("x".to_string()) },
        10,
    );
    assert_eq!(app.list.torrents.len(), 22);
    assert_eq!(app.get_current_torrent_list_len(), 3);
    assert_eq!(app.search_input, "item 2");
    assert_in_order(&app);
}

#[test]
fn paused_labels() {
    assert!(is_paused_label("pausedDL"));
    assert!(is_paused_label("pausedUP"));
    assert!(is_paused_label("stoppedDL"));
    assert!(is_paused_label("stoppedUP"));
    assert!(!is_paused_label("downloading"));
    assert!(!is_paused_label("pauseddl"));
    assert!(!is_paused_label("paused"));
    assert!(!is_paused_label(""));
}

#[test]
fn toggle_pauses_a_running_torrent_and_resumes_a_paused_one() {
    let mut app = browsing(
        vec![
            torrent("a", "one", "downloading"),
            torrent("b", "two", "pausedDL"),
            torrent("c", "three", "stoppedUP"),
            torrent("d", "four", "stalledUP"),
        ],
        0,
    );
    assert_eq!(app.deliver(ch(' '), 0), Action::SetRunning { hash: "a".to_string(), running: false });
    app.deliver(key(Key::Down), 0);
    assert_eq!(app.deliver(ch(' '), 0), Action::SetRunning { hash: "b".to_string(), running: true });
    app.deliver(key(Key::Down), 0);
    assert_eq!(app.deliver(ch(' '), 0), Action::SetRunning { hash: "c".to_string(), running: true });
    app.deliver(key(Key::Down), 0);
    assert_eq!(app.deliver(ch(' '), 0), Action::SetRunning { hash: "d".to_string(), running: false });
    assert_eq!(app.state, AppState::Main);
}

#[test]
fn toggle_is_followed_by_a_refresh() {
    let mut app = browsing(numbered(2), 0);
    app.deliver(ch(' '), 0);
    assert_eq!(app.handle_outcome(Outcome::RunningSet(Ok(())), 1), Action::Refresh);
    assert_eq!(app.state, AppState::Main);
}

#[test]
fn failed_toggle_shows_its_message_and_keeps_the_list() {
    let mut app = browsing(numbered(2), 0);
    app.deliver(ch(' '), 0);
    let action =
        app.handle_outcome(Outcome::RunningSet(Err("Failed to pause torrent: 403".to_string())), 1);
    assert_eq!(action, Action::Nothing);
    assert_eq!(app.state, AppState::Error("Failed to pause torrent: 403".to_string()));
    assert_eq!(app.error_message.as_deref(), Some("Failed to pause torrent: 403"));
    assert_eq!(app.get_current_torrent_list_len(), 2);
}

#[test]
fn toggle_and_destroy_on_an_empty_list_do_nothing() {
    let mut app = browsing(Vec::new(), 0);
    assert_eq!(app.deliver(ch(' '), 0), Action::Nothing);
    assert_eq!(app.deliver(ch('d'), 0), Action::Nothing);
    assert_eq!(app.deliver(key(Key::Delete), 0), Action::Nothing);
    assert_eq!(app.state, AppState::Main);
    assert_eq!(app.delete_confirmation_hash, None);
}

#[test]
fn destroy_asks_for_confirmation_and_deny_makes_no_call() {
    let mut app = browsing(numbered(5), 0);
    app.deliver(key(Key::Down), 0);
    app.deliver(key(Key::Down), 0);
    assert_eq!(app.deliver(key(Key::Delete), 0), Action::Nothing);
    assert_eq!(app.state, AppState::ConfirmDelete);
    assert_eq!(app.delete_confirmation_hash.as_deref(), Some("hash2"));
    assert_in_order(&app);
    assert_eq!(app.deliver(ch('x'), 0), Action::Nothing);
    assert_eq!(app.state, AppState::ConfirmDelete);
    assert_eq!(app.deliver(ch('n'), 0), Action::Nothing);
    assert_eq!(app.state, AppState::Main);
    assert_eq!(app.delete_confirmation_hash, None);
    assert_eq!(app.get_current_torrent_list_len(), 5);
}

#[test]
fn destroy_is_denied_by_n_or_cancel() {
    for deny in [ch('n'), ch('N'), key(Key::Esc), shift('N')] {
        let mut app = browsing(numbered(5), 0);
        app.deliver(ch('d'), 0);
        assert_eq!(app.state, AppState::ConfirmDelete);
        assert_eq!(app.deliver(deny, 0), Action::Nothing);
        assert_eq!(app.state, AppState::Main);
        assert_eq!(app.delete_confirmation_hash, None);
        assert!(!app.should_quit);
    }
}

#[test]
fn confirmed_destroy_deletes_the_record_only() {
    let mut app = browsing(numbered(5), 0);
    app.deliver(ch('d'), 0);
    assert_eq!(
        app.deliver(ch('y'), 0),
        Action::Delete { hash: "hash0".to_string(), delete_files: false }
    );
    assert_eq!(app.state, AppState::ConfirmDelete);
    assert_eq!(app.delete_confirmation_hash.as_deref(), Some("hash0"));
    assert_eq!(app.handle_outcome(Outcome::Deleted(Ok(())), 0), Action::Refresh);
    assert_eq!(app.state, AppState::Main);
    assert_eq!(app.delete_confirmation_hash, None);
}

#[test]
fn confirmed_destroy_with_shift_deletes_the_files_too() {
    let mut app = browsing(numbered(5), 0);
    app.deliver(key(Key::End), 0);
    app.deliver(ch('d'), 0);
    assert_eq!(
        app.deliver(shift('Y'), 0),
        Action::Delete { hash: "hash4".to_string(), delete_files: true }
    );
    let mut app = browsing(numbered(5), 0);
    app.deliver(ch('d'), 0);
    assert_eq!(
        app.deliver(ch('Y'), 0),
        Action::Delete { hash: "hash0".to_string(), delete_files: false }
    );
}

#[test]
fn failed_destroy_shows_the_failure_and_forgets_the_target() {
    let mut app = browsing(numbered(5), 0);
    app.deliver(ch('d'), 0);
    app.deliver(ch('y'), 0);
    let action = app.handle_outcome(Outcome::Deleted(Err("404 - gone".to_string())), 0);
    assert_eq!(action, Action::Nothing);
    assert_eq!(app.state, AppState::Error("Failed to delete torrent: 404 - gone".to_string()));
    assert_eq!(app.error_message.as_deref(), Some("Failed to delete torrent: 404 - gone"));
    assert_eq!(app.delete_confirmation_hash, None);
    assert_eq!(app.get_current_torrent_list_len(), 5);
    assert_in_order(&app);
}

#[test]
fn add_screen_takes_a_path_and_reads_the_file() {
    let mut app = browsing(numbered(1), 0);
    app.torrent_path_input = "stale".to_string();
    assert_eq!(app.deliver(ch('a'), 0), Action::Nothing);
    assert_eq!(app.state, AppState::AddTorrent);
    assert_eq!(app.input_mode, InputMode::TorrentPath);
    assert_eq!(app.torrent_path_input, "");
    assert_eq!(app.deliver(key(Key::Enter), 0), Action::Nothing);
    type_text(&mut app, "/tmp/a.torrentx", 0);
    app.deliver(key(Key::Backspace), 0);
    assert_eq!(app.torrent_path_input, "/tmp/a.torrent");
    assert_eq!(
        app.deliver(key(Key::Enter), 0),
        Action::ReadFile { path: "/tmp/a.torrent".to_string() }
    );
    assert_eq!(app.state, AppState::AddTorrent);
    assert_eq!(
        app.handle_outcome(Outcome::FileRead(Ok(vec![1, 2, 3])), 0),
        Action::AddTorrent { data: vec![1, 2, 3] }
    );
    assert_eq!(app.state, AppState::AddTorrent);
    assert_eq!(app.handle_outcome(Outcome::TorrentAdded(Ok(())), 0), Action::Refresh);
    assert_eq!(app.state, AppState::Main);
    assert_eq!(app.input_mode, InputMode::Off);
}

#[test]
fn unreadable_file_fails_before_any_call() {
    let mut app = browsing(numbered(1), 0);
    app.deliver(ch('a'), 0);
    type_text(&mut app, "/nope", 0);
    app.deliver(key(Key::Enter), 0);
    let action = app.handle_outcome(Outcome::FileRead(Err("No such file".to_string())), 0);
    assert_eq!(action, Action::Nothing);
    assert_eq!(app.state, AppState::Error("Failed to read file: No such file".to_string()));
    assert_eq!(app.error_message.as_deref(), Some("Failed to read file: No such file"));
}

#[test]
fn rejected_torrent_shows_the_failure() {
    let mut app = browsing(numbered(1), 0);
    app.deliver(ch('a'), 0);
    let action = app.handle_outcome(Outcome::TorrentAdded(Err("415".to_string())), 0);
    assert_eq!(action, Action::Nothing);
    assert_eq!(app.state, AppState::Error("Failed to add torrent: 415".to_string()));
    assert_eq!(app.get_current_torrent_list_len(), 1);
}

#[test]
fn cancel_on_the_add_screen_returns_to_the_list() {
    let mut app = browsing(numbered(1), 0);
    app.deliver(ch('a'), 0);
    type_text(&mut app, "abc", 0);
    assert_eq!(app.deliver(key(Key::Esc), 0), Action::Nothing);
    assert_eq!(app.state, AppState::Main);
    assert_eq!(app.input_mode, InputMode::Off);
    assert!(!app.should_quit);
}

#[test]
fn search_filters_with_every_keystroke() {
    let mut app = browsing(
        vec![
            torrent("a", "Ubuntu", "downloading"),
            torrent("b", "Debian", "pausedUP"),
            torrent("c", "Fedora", "uploading"),
        ],
        0,
    );
    app.deliver(key(Key::Down), 0);
    app.search_input = "old".to_string();
    assert_eq!(app.deliver(ctrl('f'), 0), Action::Nothing);
    assert_eq!(app.state, AppState::Search);
    assert_eq!(app.input_mode, InputMode::Search);
    assert_eq!(app.search_input, "");
    assert!(!app.list.is_searching());
    assert_eq!(app.list.selected_torrent, 0);
    assert_eq!(app.get_current_torrent_list_len(), 3);

    app.deliver(ch('D'), 0);
    assert!(app.list.is_searching());
    assert_eq!(app.get_current_torrent_list_len(), 3);
    app.deliver(ch('E'), 0);
    assert_eq!(app.get_current_torrent_list_len(), 1);
    app.deliver(ch('B'), 0);
    assert_eq!(app.get_current_torrent_list_len(), 1);
    assert_eq!(app.get_current_selected_torrent().map(|t| t.hash.as_str()), Some("b"));
    app.deliver(ch('x'), 0);
    assert_eq!(app.get_current_torrent_list_len(), 0);
    assert!(app.get_current_selected_torrent().is_none());
    assert!(app.get_visible_torrents().is_empty());
    app.deliver(key(Key::Backspace), 0);
    assert_eq!(app.get_current_torrent_list_len(), 1);
    assert_eq!(app.search_input, "DEB");
    assert_eq!(app.state, AppState::Search);
    assert_in_order(&app);
}

#[test]
fn erasing_the_whole_query_ends_filtering() {
    let mut app = browsing(numbered(5), 0);
    app.deliver(ctrl('f'), 0);
    type_text(&mut app, "4", 0);
    assert_eq!(app.get_current_torrent_list_len(), 1);
    app.deliver(key(Key::Backspace), 0);
    assert!(!app.list.is_searching());
    assert_eq!(app.get_current_torrent_list_len(), 5);
    app.deliver(key(Key::Backspace), 0);
    assert_eq!(app.search_input, "");
    assert_eq!(app.get_current_torrent_list_len(), 5);
}

#[test]
fn confirm_keeps_the_filter_and_cancel_drops_it() {
    let mut app = browsing(numbered(25), 0);
    app.deliver(ctrl('f'), 0);
    type_text(&mut app, "item 1", 0);
    assert_eq!(app.deliver(key(Key::Enter), 0), Action::Nothing);
    assert_eq!(app.state, AppState::Main);
    assert_eq!(app.input_mode, InputMode::Off);
    assert_eq!(app.search_input, "item 1");
    assert_eq!(app.get_current_torrent_list_len(), 11);
    app.deliver(key(Key::End), 0);
    assert_eq!(app.get_current_selected_torrent().map(|t| t.name.as_str()), Some("item 19"));

    app.deliver(ctrl('f'), 0);
    assert_eq!(app.search_input, "");
    assert_eq!(app.get_current_torrent_list_len(), 25);
    assert_eq!((app.list.selected_torrent, app.list.scroll_offset), (0, 0));
    type_text(&mut app, "item 2", 0);
    app.deliver(key(Key::Down), 0);
    assert_eq!(app.search_input, "item 2");
    assert_eq!(app.deliver(key(Key::Esc), 0), Action::Nothing);
    assert_eq!(app.state, AppState::Main);
    assert_eq!(app.search_input, "");
    assert!(!app.list.is_searching());
    assert!(app.list.filtered_torrents.is_empty());
    assert_eq!(app.get_current_torrent_list_len(), 25);
    assert_eq!((app.list.selected_torrent, app.list.scroll_offset), (0, 0));
    assert!(!app.should_quit);
}

#[test]
fn plain_f_does_not_open_the_search() {
    let mut app = browsing(numbered(3), 0);
    assert_eq!(app.deliver(ch('f'), 0), Action::Nothing);
    assert_eq!(app.state, AppState::Main);
}

#[test]
fn resize_is_applied_at_once_and_changes_nothing_else() {
    let mut app = browsing(numbered(50), 0);
    app.deliver(ctrl('f'), 0);
    type_text(&mut app, "item", 0);
    assert_eq!(app.deliver(Event::Resize(120, 40), 1_000_000), Action::Redraw);
    assert_eq!((app.terminal_width, app.terminal_height), (120, 40));
    assert_eq!(app.list.max_visible_rows, 34);
    assert_eq!(app.get_max_visible_rows(), 34);
    assert_eq!(app.state, AppState::Search);
    assert_eq!(app.input_mode, InputMode::Search);
    assert_eq!(app.search_input, "item");
    assert_eq!(app.get_current_torrent_list_len(), 50);
    assert_in_order(&app);
}

#[test]
fn resize_skips_the_refresh_timer() {
    let mut app = browsing(numbered(5), 0);
    assert_eq!(app.deliver(Event::Resize(100, 30), 1_000_000), Action::Redraw);
    assert_eq!(app.last_update, 0);
    assert_eq!(app.deliver(Event::Other, 1_000_000), Action::Refresh);
}

#[test]
fn resize_brings_the_window_in_order() {
    let mut app = browsing(numbered(50), 0);
    app.handle_resize(100, 46);
    assert_eq!(app.get_max_visible_rows(), 40);
    app.deliver(key(Key::End), 0);
    assert_eq!((app.list.selected_torrent, app.list.scroll_offset), (49, 10));
    app.handle_resize(100, 16);
    assert_eq!(app.get_max_visible_rows(), 10);
    assert_eq!((app.list.selected_torrent, app.list.scroll_offset), (49, 40));
    app.handle_resize(100, 66);
    assert_eq!(app.get_max_visible_rows(), 60);
    assert_eq!((app.list.selected_torrent, app.list.scroll_offset), (49, 0));
}

#[test]
fn rows_follow_the_screen_height() {
    let mut app = fresh();
    for (height, rows) in [(0u16, 1usize), (6, 1), (7, 1), (8, 2), (24, 18), (u16::MAX, 65529)] {
        app.handle_resize(80, height);
        assert_eq!(app.get_max_visible_rows(), rows);
        assert_eq!(app.terminal_height, height);
    }
}

#[test]
fn handle_event_leaves_resize_to_deliver() {
    let mut app = browsing(numbered(5), 0);
    assert_eq!(app.handle_event(Event::Resize(100, 30), 10), Action::Nothing);
    assert_eq!((app.terminal_width, app.terminal_height), (80, 24));
    assert_eq!(app.handle_event(Event::Resize(100, 30), 5000), Action::Refresh);
}

#[test]
fn every_transition_keeps_the_session_in_order() {
    let mut app = browsing(numbered(30), 0);
    let events = [
        key(Key::End),
        Event::Resize(80, 10),
        ch('d'),
        ch('y'),
        ch('n'),
        ctrl('f'),
        ch('1'),
        ch('z'),
        key(Key::Backspace),
        key(Key::Enter),
        key(Key::PageDown),
        Event::Resize(80, 200),
        ch('a'),
        ch('p'),
        key(Key::Esc),
        key(Key::Delete),
        key(Key::Esc),
        ch(' '),
        key(Key::Home),
    ];
    for (n, event) in events.iter().enumerate() {
        app.deliver(*event, n as u64);
        assert_in_order(&app);
    }
    let outcomes = vec![
        Outcome::Refreshed { torrents: Ok(numbered(2)), server_state: Err("x".to_string()) },
        Outcome::RunningSet(Err("no".to_string())),
        Outcome::Deleted(Ok(())),
        Outcome::TorrentAdded(Err("no".to_string())),
        Outcome::LoggedIn(Ok(())),
        Outcome::FileRead(Err("no".to_string())),
        Outcome::ConfigSaved,
        Outcome::Connected,
        Outcome::Refreshed { torrents: Ok(Vec::new()), server_state: Ok(summary("ok")) },
    ];
    for outcome in outcomes {
        app.handle_outcome(outcome, 99);
        assert_in_order(&app);
    }
}

#[test]
fn outcome_in_the_confirm_screen_forgets_the_target_when_leaving() {
    let mut app = browsing(numbered(3), 0);
    app.deliver(ch('d'), 0);
    assert_eq!(app.handle_outcome(Outcome::TorrentAdded(Ok(())), 0), Action::Refresh);
    assert_eq!(app.state, AppState::Main);
    assert_eq!(app.delete_confirmation_hash, None);
}

#[test]
fn idle_tick_looks_at_the_refresh_timer_only() {
    let mut app = browsing(numbered(5), 0);
    app.deliver(key(Key::Down), 0);
    assert_eq!(app.deliver(Event::Tick, 2000), Action::Nothing);
    assert_eq!(app.deliver(Event::Tick, 2001), Action::Refresh);
    assert_eq!(app.state, AppState::Main);
    assert_eq!(app.list.selected_torrent, 1);
    assert_eq!(app.last_update, 0);
    let mut app = fresh();
    assert_eq!(app.deliver(Event::Tick, 1_000_000), Action::Nothing);
    assert_eq!(app.state, AppState::UrlConfig);
}

#[test]
fn search_screen_rests_at_the_top_of_the_list() {
    let mut app = browsing(numbered(30), 0);
    app.deliver(key(Key::End), 0);
    app.deliver(ctrl('f'), 0);
    assert_eq!((app.list.selected_torrent, app.list.scroll_offset), (0, 0));
    app.deliver(Event::Resize(80, 9), 0);
    app.deliver(ch('1'), 0);
    app.handle_outcome(
        Outcome::Refreshed { torrents: Ok(numbered(12)), server_state: Err("x".to_string()) },
        0,
    );
    assert_eq!((app.list.selected_torrent, app.list.scroll_offset), (0, 0));
    app.deliver(key(Key::Enter), 0);
    assert_eq!(app.state, AppState::Main);
    assert_eq!((app.list.selected_torrent, app.list.scroll_offset), (0, 0));
}
