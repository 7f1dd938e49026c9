//! The session state machine.
//!
//! An [`App`] is the whole state of one running client. It changes in two
//! ways only: [`App::deliver`] takes an input event, and
//! [`App::handle_outcome`] takes what came of an [`Action`] that the session
//! asked for. Both answer with the next action to perform, so the program
//! around the session is a loop that performs actions and reports outcomes;
//! every decision is made here.

use crate::api::{ServerState, Torrent};
use crate::config::Config;
use crate::endpoint::{endpoint_of, parse_endpoint, text_of};
use crate::event::{Event, Key, KeyPress};
use crate::list::TorrentList;
use crate::text::{erase_last, str_eq};
use crate::window::Nav;
use vstd::prelude::*;

verus! {

/// Milliseconds after which the list is fetched again without being asked.
pub const REFRESH_INTERVAL_MS: u64 = 2000;

/// Screen rows that the header and the footer take.
pub const RESERVED_ROWS: u16 = 6;

/// The screen that is active.
#[derive(Debug, Clone, PartialEq)]
pub enum AppState {
    /// The endpoint address is being entered.
    UrlConfig,
    /// User name and password are being entered.
    Login,
    /// The torrent list is shown.
    Main,
    /// The path of a torrent file is being entered.
    AddTorrent,
    /// A search query is being entered.
    Search,
    /// A deletion waits to be confirmed.
    ConfirmDelete,
    /// A failure is shown until it is acknowledged.
    Error(String),
}

/// The text buffer that typed characters go to.
#[derive(Debug, Clone, Copy, PartialEq, Eq, Structural)]
pub enum InputMode {
    Url,
    Username,
    Password,
    TorrentPath,
    Search,
    /// No buffer takes input.
    Off,
}

/// What the session asks the program to do next.
#[derive(Debug, Clone, PartialEq)]
pub enum Action {
    /// Nothing: wait for the next event.
    Nothing,
    /// End the program.
    Quit,
    /// Clear the screen and draw it anew.
    Redraw,
    /// Bind the remote client to this endpoint.
    Connect { url: String },
    /// Log in with these credentials.
    Login { username: String, password: String },
    /// Write the settings to their file.
    SaveConfig,
    /// Fetch the torrent list and the server summary.
    Refresh,
    /// Resume (`true`) or pause (`false`) the torrent with this hash.
    SetRunning { hash: String, running: bool },
    /// Read the torrent file at this path.
    ReadFile { path: String },
    /// Hand the contents of a torrent file to the daemon.
    AddTorrent { data: Vec<u8> },
    /// Delete the torrent with this hash, and its files if asked.
    Delete { hash: String, delete_files: bool },
}

/// What came of an action. A failure carries its message.
#[derive(Debug)]
pub enum Outcome {
    /// The remote client is bound to the endpoint.
    Connected,
    LoggedIn(Result<(), String>),
    /// The settings were written, or could not be: the session goes on
    /// either way.
    ConfigSaved,
    /// The two fetches of a refresh, each with its own result.
    Refreshed { torrents: Result<Vec<Torrent>, String>, server_state: Result<ServerState, String> },
    RunningSet(Result<(), String>),
    FileRead(Result<Vec<u8>, String>),
    TorrentAdded(Result<(), String>),
    Deleted(Result<(), String>),
}

/// The state labels of a torrent that is paused.
pub open spec fn paused_label(label: Seq<char>) -> bool {
    ||| label == "pausedDL"@
    ||| label == "pausedUP"@
    ||| label == "stoppedDL"@
    ||| label == "stoppedUP"@
}

/// Rows left for the list on a screen of this height.
pub open spec fn rows_for_height(height: u16) -> usize {
    if height > RESERVED_ROWS + 1 {
        (height - RESERVED_ROWS) as usize
    } else {
        1
    }
}

/// The focus after the key that switches between the login fields.
pub open spec fn switched_focus(focus: InputMode) -> InputMode {
    match focus {
        InputMode::Username => InputMode::Password,
        _ => InputMode::Username,
    }
}

/// `after` is `before` with one character typed at its end.
pub open spec fn typed(before: String, ch: char, after: String) -> bool {
    after@ == before@.push(ch)
}

/// `after` is `before` with its last character erased, if it had one.
pub open spec fn erased(before: String, after: String) -> bool {
    after@ == if before@.len() == 0 {
        before@
    } else {
        before@.drop_last()
    }
}

/// Whether a state label is that of a paused torrent.
pub fn is_paused_label(label: &str) -> (paused: bool)
    ensures
        paused == paused_label(label@),
{
    str_eq(label, "pausedDL") || str_eq(label, "pausedUP") || str_eq(label, "stoppedDL") || str_eq(
        label,
        "stoppedUP",
    )
}

/// A message made of what failed and the failure's own words.
pub fn failure_text(what: &str, detail: &str) -> (text: String)
    ensures
        text@ == what@ + detail@,
{
    what.to_owned().concat(detail)
}

/// The whole state of one running client.
#[derive(Debug)]
pub struct App {
    /// The persisted settings, as last loaded or changed.
    pub config: Config,
    pub state: AppState,
    pub input_mode: InputMode,
    pub url_input: String,
    pub username_input: String,
    pub password_input: String,
    pub torrent_path_input: String,
    pub search_input: String,
    /// Torrents, filter, selection and scroll position.
    pub list: TorrentList,
    pub server_state: Option<ServerState>,
    /// When the list was last fetched or a fetch was last tried, in
    /// milliseconds on the program's clock.
    pub last_update: u64,
    pub should_quit: bool,
    pub error_message: Option<String>,
    pub show_password: bool,
    /// Hash of the torrent whose deletion waits to be confirmed.
    pub delete_confirmation_hash: Option<String>,
    pub terminal_width: u16,
    pub terminal_height: u16,
    /// The endpoint the remote client is bound to, in normal form.
    pub base_url: String,
}

impl App {
    /// What holds of a session between any two transitions: selection and
    /// scroll position are in order, the filter is in step with the search
    /// buffer and the full list, the list rests at its top while a query is
    /// being entered, and a deletion waits only while its confirmation is on
    /// screen.
    pub open spec fn wf(&self) -> bool {
        &&& self.list.wf()
        &&& self.search_input@ == self.list.search_query@
        &&& (self.state is Search ==> self.list.at_top())
        &&& (self.delete_confirmation_hash is Some ==> self.state is ConfirmDelete)
    }

    /// The list is due for a fetch at time `now`.
    pub open spec fn refresh_due(&self, now: u64) -> bool {
        self.state is Main && now - self.last_update > REFRESH_INTERVAL_MS
    }

    /// The action of the refresh timer at time `now`.
    pub open spec fn timer_action(&self, now: u64) -> Action {
        if self.refresh_due(now) {
            Action::Refresh
        } else {
            Action::Nothing
        }
    }

    /// This session on another screen. A deletion that waited is dropped.
    pub open spec fn entered(self, state: AppState, focus: InputMode) -> App {
        App { state, input_mode: focus, delete_confirmation_hash: None, ..self }
    }

    /// This session with the quit flag raised.
    pub open spec fn quitting(self) -> App {
        App { should_quit: true, ..self }
    }

    /// `post` is `pre` showing a failure: `shown` on the failure screen and
    /// `detail` kept as the error message.
    pub open spec fn failed_with(pre: App, post: App, shown: Seq<char>, detail: Seq<char>) -> bool {
        &&& post.state matches AppState::Error(text) && text@ == shown
        &&& post.error_message matches Some(text) && text@ == detail
        &&& post == (App {
            state: post.state,
            error_message: post.error_message,
            delete_confirmation_hash: None,
            ..pre
        })
    }

    /// `post` is `pre` after navigation step `nav` in the list.
    pub open spec fn navigated(pre: App, post: App, nav: Nav) -> bool {
        &&& post.list.navigated(&pre.list, pre.list.window().step(nav))
        &&& post == (App { list: post.list, ..pre })
    }

    /// `post` is `pre` with the search buffer holding `query` and the list
    /// filtered by it.
    pub open spec fn searched(pre: App, post: App, query: Seq<char>) -> bool {
        &&& post.search_input@ == query
        &&& post.list.refiltered(&pre.list, query)
        &&& post == (App { search_input: post.search_input, list: post.list, ..pre })
    }

    /// The endpoint screen takes a parsed address: a valid one binds the
    /// client and leads to the login screen, an invalid one to the failure
    /// screen.
    pub open spec fn endpoint_step(
        pre: App,
        parsed: Option<Seq<char>>,
        post: App,
        action: Action,
    ) -> bool {
        match parsed {
            Some(url) => {
                &&& post.base_url@ == url
                &&& post == (App { base_url: post.base_url, ..pre }).entered(
                    AppState::Login,
                    InputMode::Username,
                )
                &&& action == (Action::Connect { url: post.base_url })
            },
            None => {
                &&& Self::failed_with(
                    pre,
                    post,
                    "Invalid URL"@,
                    "Invalid URL format. Please enter a valid URL (e.g., http://localhost:8080)"@,
                )
                &&& action == Action::Nothing
            },
        }
    }

    /// A key on the endpoint screen.
    pub open spec fn url_config_step(pre: App, press: KeyPress, post: App, action: Action) -> bool {
        match press.key {
            Key::Enter => if pre.url_input@.len() == 0 {
                post == pre && action == Action::Nothing
            } else {
                Self::endpoint_step(pre, endpoint_of(pre.url_input@), post, action)
            },
            Key::Esc => post == pre.quitting() && action == Action::Quit,
            Key::Char(ch) => {
                &&& typed(pre.url_input, ch, post.url_input)
                &&& post == (App { url_input: post.url_input, ..pre })
                &&& action == Action::Nothing
            },
            Key::Backspace => {
                &&& erased(pre.url_input, post.url_input)
                &&& post == (App { url_input: post.url_input, ..pre })
                &&& action == Action::Nothing
            },
            _ => post == pre && action == Action::Nothing,
        }
    }

    /// The login that the session asks for, where both fields are filled.
    pub open spec fn login_request(pre: App) -> Action {
        if pre.username_input@.len() > 0 && pre.password_input@.len() > 0 {
            Action::Login { username: pre.username_input, password: pre.password_input }
        } else {
            Action::Nothing
        }
    }

    /// A key on the login screen.
    pub open spec fn login_step(pre: App, press: KeyPress, post: App, action: Action) -> bool {
        match press.key {
            Key::Tab => {
                &&& post == (App { input_mode: switched_focus(pre.input_mode), ..pre })
                &&& action == Action::Nothing
            },
            Key::Enter => post == pre && action == Self::login_request(pre),
            Key::Esc => post == pre.quitting() && action == Action::Quit,
            Key::Char(ch) => if ch == 'h' && press.ctrl {
                &&& post == (App { show_password: !pre.show_password, ..pre })
                &&& action == Action::Nothing
            } else {
                &&& action == Action::Nothing
                &&& match pre.input_mode {
                    InputMode::Username => {
                        &&& typed(pre.username_input, ch, post.username_input)
                        &&& post == (App { username_input: post.username_input, ..pre })
                    },
                    InputMode::Password => {
                        &&& typed(pre.password_input, ch, post.password_input)
                        &&& post == (App { password_input: post.password_input, ..pre })
                    },
                    _ => post == pre,
                }
            },
            Key::Backspace => {
                &&& action == Action::Nothing
                &&& match pre.input_mode {
                    InputMode::Username => {
                        &&& erased(pre.username_input, post.username_input)
                        &&& post == (App { username_input: post.username_input, ..pre })
                    },
                    InputMode::Password => {
                        &&& erased(pre.password_input, post.password_input)
                        &&& post == (App { password_input: post.password_input, ..pre })
                    },
                    _ => post == pre,
                }
            },
            _ => post == pre && action == Action::Nothing,
        }
    }

    /// The pause or resume that the session asks for on the selected
    /// torrent: a paused one is resumed, any other is paused.
    pub open spec fn toggle_request(pre: App) -> Action {
        match pre.list.selected() {
            Some(item) => Action::SetRunning { hash: item.hash, running: paused_label(item.state@) },
            None => Action::Nothing,
        }
    }

    /// `post` is `pre` asking to confirm the deletion of the selected
    /// torrent, or `pre` itself where nothing is selected.
    pub open spec fn destroy_asked(pre: App, post: App) -> bool {
        match pre.list.selected() {
            Some(item) => post == (App {
                delete_confirmation_hash: Some(item.hash),
                state: AppState::ConfirmDelete,
                ..pre
            }),
            None => post == pre,
        }
    }

    /// A key on the list screen.
    pub open spec fn main_step(pre: App, press: KeyPress, post: App, action: Action) -> bool {
        if press.is_force_quit() {
            post == pre.quitting() && action == Action::Quit
        } else if press.is_char('f') && press.ctrl {
            &&& Self::searched(pre.entered(AppState::Search, InputMode::Search), post, Seq::empty())
            &&& action == Action::Nothing
        } else if press.is_char('r') {
            post == pre && action == Action::Refresh
        } else if press.is_char('a') {
            &&& post.torrent_path_input@ == Seq::<char>::empty()
            &&& post == (App { torrent_path_input: post.torrent_path_input, ..pre }).entered(
                AppState::AddTorrent,
                InputMode::TorrentPath,
            )
            &&& action == Action::Nothing
        } else if press.key == Key::Up || press.is_char('k') {
            Self::navigated(pre, post, Nav::Move(-1)) && action == Action::Nothing
        } else if press.key == Key::Down || press.is_char('j') {
            Self::navigated(pre, post, Nav::Move(1)) && action == Action::Nothing
        } else if press.key == Key::PageUp {
            Self::navigated(pre, post, Nav::PageUp) && action == Action::Nothing
        } else if press.key == Key::PageDown {
            Self::navigated(pre, post, Nav::PageDown) && action == Action::Nothing
        } else if press.key == Key::Home {
            Self::navigated(pre, post, Nav::Start) && action == Action::Nothing
        } else if press.key == Key::End {
            Self::navigated(pre, post, Nav::End) && action == Action::Nothing
        } else if press.is_char(' ') {
            post == pre && action == Self::toggle_request(pre)
        } else if press.key == Key::Delete || press.is_char('d') {
            Self::destroy_asked(pre, post) && action == Action::Nothing
        } else {
            post == pre && action == Action::Nothing
        }
    }

    /// The file read that the session asks for, where a path was entered.
    pub open spec fn read_request(pre: App) -> Action {
        if pre.torrent_path_input@.len() > 0 {
            Action::ReadFile { path: pre.torrent_path_input }
        } else {
            Action::Nothing
        }
    }

    /// A key on the screen that takes the path of a torrent file.
    pub open spec fn add_torrent_step(pre: App, press: KeyPress, post: App, action: Action) -> bool {
        match press.key {
            Key::Enter => post == pre && action == Self::read_request(pre),
            Key::Esc => post == pre.entered(AppState::Main, InputMode::Off) && action
                == Action::Nothing,
            Key::Char(ch) => {
                &&& typed(pre.torrent_path_input, ch, post.torrent_path_input)
                &&& post == (App { torrent_path_input: post.torrent_path_input, ..pre })
                &&& action == Action::Nothing
            },
            Key::Backspace => {
                &&& erased(pre.torrent_path_input, post.torrent_path_input)
                &&& post == (App { torrent_path_input: post.torrent_path_input, ..pre })
                &&& action == Action::Nothing
            },
            _ => post == pre && action == Action::Nothing,
        }
    }

    /// A key on the search screen. Each edit of the query filters the list
    /// anew; confirming keeps the filter, cancelling drops it.
    pub open spec fn search_step(pre: App, press: KeyPress, post: App, action: Action) -> bool {
        &&& action == Action::Nothing
        &&& match press.key {
            Key::Enter => post == pre.entered(AppState::Main, InputMode::Off),
            Key::Esc => Self::searched(
                pre.entered(AppState::Main, InputMode::Off),
                post,
                Seq::empty(),
            ),
            Key::Char(ch) => Self::searched(pre, post, pre.search_input@.push(ch)),
            Key::Backspace => Self::searched(
                pre,
                post,
                if pre.search_input@.len() == 0 {
                    pre.search_input@
                } else {
                    pre.search_input@.drop_last()
                },
            ),
            _ => post == pre,
        }
    }

    /// The deletion that the session asks for once it is confirmed; holding
    /// shift asks for the files to go as well.
    pub open spec fn delete_request(pre: App, press: KeyPress) -> Action {
        match pre.delete_confirmation_hash {
            Some(hash) => Action::Delete { hash, delete_files: press.shift },
            None => Action::Nothing,
        }
    }

    /// A key on the screen that confirms a deletion.
    pub open spec fn confirm_delete_step(
        pre: App,
        press: KeyPress,
        post: App,
        action: Action,
    ) -> bool {
        if press.is_char('y') || press.is_char('Y') {
            post == pre && action == Self::delete_request(pre, press)
        } else if press.is_char('n') || press.is_char('N') || press.key == Key::Esc {
            post == (App { state: AppState::Main, delete_confirmation_hash: None, ..pre })
                && action == Action::Nothing
        } else {
            post == pre && action == Action::Nothing
        }
    }

    /// A key on the failure screen: confirm or cancel acknowledges.
    pub open spec fn error_step(pre: App, press: KeyPress, post: App, action: Action) -> bool {
        &&& action == Action::Nothing
        &&& if press.key == Key::Enter || press.key == Key::Esc {
            post == (App {
                state: AppState::Main,
                error_message: None,
                delete_confirmation_hash: None,
                ..pre
            })
        } else {
            post == pre
        }
    }

    /// A key goes to the screen that is active.
    pub open spec fn key_step(pre: App, press: KeyPress, post: App, action: Action) -> bool {
        match pre.state {
            AppState::UrlConfig => Self::url_config_step(pre, press, post, action),
            AppState::Login => Self::login_step(pre, press, post, action),
            AppState::Main => Self::main_step(pre, press, post, action),
            AppState::AddTorrent => Self::add_torrent_step(pre, press, post, action),
            AppState::Search => Self::search_step(pre, press, post, action),
            AppState::ConfirmDelete => Self::confirm_delete_step(pre, press, post, action),
            AppState::Error(_) => Self::error_step(pre, press, post, action),
        }
    }

    /// An event other than a resize: the force-quit combination ends the
    /// program from any screen, any other key goes to the active screen, and
    /// where that leaves nothing to do the refresh timer is looked at once.
    pub open spec fn handled(pre: App, event: Event, now: u64, post: App, action: Action) -> bool {
        match event {
            Event::Key(press) => if press.is_force_quit() {
                post == pre.quitting() && action == Action::Quit
            } else {
                ||| Self::key_step(pre, press, post, action) && action != Action::Nothing
                ||| Self::key_step(pre, press, post, Action::Nothing) && action
                    == post.timer_action(now)
            },
            _ => post == pre && action == post.timer_action(now),
        }
    }

    /// `post` is `pre` on a screen of the given size.
    pub open spec fn resized(pre: App, width: u16, height: u16, post: App) -> bool {
        &&& post.list.resized(&pre.list, rows_for_height(height))
        &&& post == (App {
            terminal_width: width,
            terminal_height: height,
            list: post.list,
            ..pre
        })
    }

    /// Any event: a resize is applied at once and asks for a redraw, without
    /// a look at the refresh timer; every other event is handled as
    /// [`App::handled`] says.
    pub open spec fn delivered(pre: App, event: Event, now: u64, post: App, action: Action) -> bool {
        match event {
            Event::Resize(width, height) => Self::resized(pre, width, height, post) && action
                == Action::Redraw,
            _ => Self::handled(pre, event, now, post, action),
        }
    }

    /// A finished login: success remembers the connection in the settings,
    /// shows the list and asks for the settings to be saved; failure shows
    /// its message and leaves the settings alone.
    pub open spec fn after_login(
        pre: App,
        result: Result<(), String>,
        post: App,
        action: Action,
    ) -> bool {
        match result {
            Ok(_) => {
                &&& post.config.url matches Some(url) && url@ == pre.base_url@
                &&& post.config.username matches Some(name) && name@ == pre.username_input@
                &&& post.config.timezone == pre.config.timezone
                &&& post == (App { config: post.config, ..pre }).entered(
                    AppState::Main,
                    InputMode::Off,
                )
                &&& action == Action::SaveConfig
            },
            Err(why) => {
                &&& Self::failed_with(pre, post, "Login failed: "@ + why@, "Login failed: "@ + why@)
                &&& action == Action::Nothing
            },
        }
    }

    /// A finished refresh. A fetched list replaces the torrents and clears
    /// the error message; a failed fetch leaves the list as it is and sets
    /// the error message. A fetched summary replaces the summary; a failed
    /// one leaves it. The refresh timer starts anew either way.
    pub open spec fn after_refresh(
        pre: App,
        torrents: Result<Vec<Torrent>, String>,
        server_state: Result<ServerState, String>,
        now: u64,
        post: App,
    ) -> bool {
        &&& match torrents {
            Ok(items) => post.list.replaced(&pre.list, items) && post.error_message is None,
            Err(why) => {
                &&& post.list == pre.list
                &&& post.error_message matches Some(text) && text@ == "Failed to fetch torrents: "@
                    + why@
            },
        }
        &&& post.server_state == match server_state {
            Ok(summary) => Some(summary),
            Err(_) => pre.server_state,
        }
        &&& post == (App {
            list: post.list,
            error_message: post.error_message,
            server_state: post.server_state,
            last_update: now,
            ..pre
        })
    }

    /// A finished operation on a torrent: success asks for a refresh, after
    /// moving to `next`; failure shows `what` followed by the failure's own
    /// words.
    pub open spec fn after_operation(
        pre: App,
        result: Result<(), String>,
        next: App,
        what: Seq<char>,
        post: App,
        action: Action,
    ) -> bool {
        match result {
            Ok(_) => post == next && action == Action::Refresh,
            Err(why) => Self::failed_with(pre, post, what + why@, what + why@) && action
                == Action::Nothing,
        }
    }

    /// What came of an action, and what follows from it.
    pub open spec fn outcome_step(
        pre: App,
        outcome: Outcome,
        now: u64,
        post: App,
        action: Action,
    ) -> bool {
        match outcome {
            Outcome::Connected => post == pre && action == Action::Nothing,
            Outcome::LoggedIn(result) => Self::after_login(pre, result, post, action),
            Outcome::ConfigSaved => post == pre && action == Action::Refresh,
            Outcome::Refreshed { torrents, server_state } => {
                &&& Self::after_refresh(pre, torrents, server_state, now, post)
                &&& action == Action::Nothing
            },
            Outcome::RunningSet(result) => match result {
                Ok(_) => post == pre && action == Action::Refresh,
                Err(why) => Self::failed_with(pre, post, why@, why@) && action == Action::Nothing,
            },
            Outcome::FileRead(result) => match result {
                Ok(data) => post == pre && action == (Action::AddTorrent { data }),
                Err(why) => Self::failed_with(
                    pre,
                    post,
                    "Failed to read file: "@ + why@,
                    "Failed to read file: "@ + why@,
                ) && action == Action::Nothing,
            },
            Outcome::TorrentAdded(result) => Self::after_operation(
                pre,
                result,
                pre.entered(AppState::Main, InputMode::Off),
                "Failed to add torrent: "@,
                post,
                action,
            ),
            Outcome::Deleted(result) => Self::after_operation(
                pre,
                result,
                (App { state: AppState::Main, delete_confirmation_hash: None, ..pre }),
                "Failed to delete torrent: "@,
                post,
                action,
            ),
        }
    }
}

impl App {
    /// The session as the program starts it: the endpoint screen, or, where
    /// both a user name and a password are given, the login screen with a
    /// login asked for at once. Without either, the endpoint and the user
    /// name of the last session are offered.
    pub open spec fn started(
        base_url: String,
        username: Option<String>,
        password: Option<String>,
        config: Config,
        now: u64,
        app: App,
        action: Action,
    ) -> bool {
        &&& app.config == config
        &&& app.base_url == base_url
        &&& app.list.torrents@.len() == 0
        &&& app.list.search_query@.len() == 0
        &&& app.list.max_visible_rows == crate::list::DEFAULT_VISIBLE_ROWS
        &&& app.torrent_path_input@.len() == 0
        &&& app.search_input@.len() == 0
        &&& app.server_state is None
        &&& app.last_update == now
        &&& !app.should_quit
        &&& app.error_message is None
        &&& !app.show_password
        &&& app.delete_confirmation_hash is None
        &&& app.terminal_width == 80
        &&& app.terminal_height == 24
        &&& app.wf()
        &&& match (username, password) {
            (Some(name), Some(secret)) => {
                &&& app.state is Login
                &&& app.input_mode == InputMode::Username
                &&& app.url_input@ == base_url@
                &&& app.username_input == name
                &&& app.password_input == secret
                &&& action == (Action::Login { username: name, password: secret })
            },
            (None, None) => {
                &&& app.state is UrlConfig
                &&& app.input_mode == InputMode::Url
                &&& app.url_input@ == match config.url {
                    Some(last) => last@,
                    None => base_url@,
                }
                &&& app.username_input@ == match config.username {
                    Some(last) => last@,
                    None => Seq::<char>::empty(),
                }
                &&& app.password_input@.len() == 0
                &&& action == Action::Nothing
            },
            _ => {
                &&& app.state is UrlConfig
                &&& app.input_mode == InputMode::Url
                &&& app.url_input@ == base_url@
                &&& app.username_input@.len() == 0
                &&& app.password_input@.len() == 0
                &&& action == Action::Nothing
            },
        }
    }

    /// Starts a session at time `now` for the endpoint `base_url`, with the
    /// settings that were loaded, and says what to do first.
    pub fn new_with_config(
        base_url: String,
        username: Option<String>,
        password: Option<String>,
        config: Config,
        now: u64,
    ) -> (started: (App, Action))
        ensures
            Self::started(base_url, username, password, config, now, started.0, started.1),
    {
        let neither = username.is_none() && password.is_none();
        let url_input = if neither {
            match config.get_last_url() {
                Some(last) => last,
                None => base_url.clone(),
            }
        } else {
            base_url.clone()
        };
        let username_input = if neither {
            match config.get_last_username() {
                Some(last) => last,
                None => String::new(),
            }
        } else {
            String::new()
        };
        let mut app = App {
            config,
            state: AppState::UrlConfig,
            input_mode: InputMode::Url,
            url_input,
            username_input,
            password_input: String::new(),
            torrent_path_input: String::new(),
            search_input: String::new(),
            list: TorrentList::new(),
            server_state: None,
            last_update: now,
            should_quit: false,
            error_message: None,
            show_password: false,
            delete_confirmation_hash: None,
            terminal_width: 80,
            terminal_height: 24,
            base_url,
        };
        proof {
            assert(app.search_input@ =~= app.list.search_query@);
        }
        match (username, password) {
            (Some(name), Some(secret)) => {
                app.state = AppState::Login;
                app.username_input = name;
                app.password_input = secret;
                app.input_mode = InputMode::Username;
                let action = app.attempt_login();
                (app, action)
            },
            _ => (app, Action::Nothing),
        }
    }

    /// Moves to another screen and drops a deletion that waited.
    fn enter(&mut self, state: AppState, focus: InputMode)
        ensures
            *final(self) == old(self).entered(state, focus),
    {
        self.state = state;
        self.input_mode = focus;
        self.delete_confirmation_hash = None;
    }

    /// Shows a failure.
    fn fail(&mut self, shown: String, detail: String)
        ensures
            Self::failed_with(*old(self), *final(self), shown@, detail@),
    {
        self.state = AppState::Error(shown);
        self.error_message = Some(detail);
        self.delete_confirmation_hash = None;
    }

    /// Shows the failure of `what`, with the failure's own words after it.
    fn fail_because(&mut self, what: &str, why: &str)
        ensures
            Self::failed_with(*old(self), *final(self), what@ + why@, what@ + why@),
    {
        let shown = failure_text(what, why);
        let detail = shown.clone();
        self.fail(shown, detail);
    }

    /// Raises the quit flag.
    fn quit(&mut self) -> (action: Action)
        ensures
            *final(self) == old(self).quitting(),
            action == Action::Quit,
    {
        self.should_quit = true;
        Action::Quit
    }

    /// Filters the list by what the search buffer holds.
    fn filter_torrents(&mut self)
        ensures
            Self::searched(*old(self), *final(self), old(self).search_input@),
    {
        self.list.set_filter_query(self.search_input.as_str());
    }

    /// Whether the list is due for a fetch at time `now`.
    pub fn is_refresh_due(&self, now: u64) -> (due: bool)
        ensures
            due == self.refresh_due(now),
    {
        match self.state {
            AppState::Main => now > self.last_update && now - self.last_update
                > REFRESH_INTERVAL_MS,
            _ => false,
        }
    }

    /// Takes any event of the terminal at time `now`. A resize is applied at
    /// once; anything else goes through [`App::handle_event`].
    pub fn deliver(&mut self, event: Event, now: u64) -> (action: Action)
        ensures
            Self::delivered(*old(self), event, now, *final(self), action),
            old(self).wf() ==> final(self).wf(),
    {
        match event {
            Event::Resize(width, height) => {
                self.handle_resize(width, height);
                Action::Redraw
            },
            _ => self.handle_event(event, now),
        }
    }

    /// Takes an event at time `now`: routes a key to the screen that is
    /// active and, where nothing else is to be done, looks at the refresh
    /// timer.
    pub fn handle_event(&mut self, event: Event, now: u64) -> (action: Action)
        ensures
            Self::handled(*old(self), event, now, *final(self), action),
            old(self).wf() ==> final(self).wf(),
    {
        let mut asked = Action::Nothing;
        if let Event::Key(press) = event {
            if press.has_char('q') && press.ctrl {
                return self.quit();
            }
            asked =
            match self.state {
                AppState::UrlConfig => self.handle_url_config_input(press),
                AppState::Login => self.handle_login_input(press),
                AppState::Main => self.handle_main_input(press),
                AppState::AddTorrent => self.handle_add_torrent_input(press),
                AppState::Search => self.handle_search_input(press),
                AppState::ConfirmDelete => self.handle_confirm_delete_input(press),
                AppState::Error(_) => self.handle_error_input(press),
            };
            proof {
                if old(self).wf() {
                    Self::lemma_key_step_keeps_wf(*old(self), press, *self, asked);
                }
            }
        }
        match asked {
            Action::Nothing => if self.is_refresh_due(now) {
                Action::Refresh
            } else {
                Action::Nothing
            },
            other => other,
        }
    }

    /// Takes the size of the screen: the rows left for the list follow from
    /// its height, and selection and scroll position are brought in order
    /// for them.
    pub fn handle_resize(&mut self, width: u16, height: u16)
        ensures
            Self::resized(*old(self), width, height, *final(self)),
            old(self).wf() ==> final(self).wf(),
    {
        self.terminal_width = width;
        self.terminal_height = height;
        let rows: usize = if height > RESERVED_ROWS + 1 {
            (height - RESERVED_ROWS) as usize
        } else {
            1
        };
        self.list.set_viewport_rows(rows);
    }

    /// Takes the result of reading the endpoint address that was entered.
    pub fn endpoint_parsed(&mut self, parsed: Option<String>) -> (action: Action)
        ensures
            Self::endpoint_step(*old(self), text_of(parsed), *final(self), action),
    {
        match parsed {
            Some(url) => {
                self.base_url = url;
                self.enter(AppState::Login, InputMode::Username);
                Action::Connect { url: self.base_url.clone() }
            },
            None => {
                self.fail(
                    "Invalid URL".to_owned(),
                    "Invalid URL format. Please enter a valid URL (e.g., http://localhost:8080)".to_owned(),
                );
                Action::Nothing
            },
        }
    }

    fn handle_url_config_input(&mut self, press: KeyPress) -> (action: Action)
        ensures
            Self::url_config_step(*old(self), press, *final(self), action),
    {
        match press.key {
            Key::Enter => {
                if !self.url_input.as_str().is_empty() {
                    let parsed = parse_endpoint(self.url_input.as_str());
                    self.endpoint_parsed(parsed)
                } else {
                    Action::Nothing
                }
            },
            Key::Esc => self.quit(),
            Key::Char(ch) => {
                self.url_input.push(ch);
                Action::Nothing
            },
            Key::Backspace => {
                erase_last(&mut self.url_input);
                Action::Nothing
            },
            _ => Action::Nothing,
        }
    }

    /// Asks for a login with what the two fields hold.
    fn attempt_login(&self) -> (action: Action)
        ensures
            action == (Action::Login {
                username: self.username_input,
                password: self.password_input,
            }),
    {
        Action::Login {
            username: self.username_input.clone(),
            password: self.password_input.clone(),
        }
    }

    fn handle_login_input(&mut self, press: KeyPress) -> (action: Action)
        ensures
            Self::login_step(*old(self), press, *final(self), action),
    {
        match press.key {
            Key::Tab => {
                self.input_mode =
                match self.input_mode {
                    InputMode::Username => InputMode::Password,
                    _ => InputMode::Username,
                };
                Action::Nothing
            },
            Key::Enter => {
                if !self.username_input.as_str().is_empty()
                    && !self.password_input.as_str().is_empty() {
                    self.attempt_login()
                } else {
                    Action::Nothing
                }
            },
            Key::Esc => self.quit(),
            Key::Char(ch) => {
                if ch == 'h' && press.ctrl {
                    self.show_password = !self.show_password;
                } else {
                    match self.input_mode {
                        InputMode::Username => {
                            self.username_input.push(ch);
                        },
                        InputMode::Password => {
                            self.password_input.push(ch);
                        },
                        _ => {},
                    }
                }
                Action::Nothing
            },
            Key::Backspace => {
                match self.input_mode {
                    InputMode::Username => {
                        erase_last(&mut self.username_input);
                    },
                    InputMode::Password => {
                        erase_last(&mut self.password_input);
                    },
                    _ => {},
                }
                Action::Nothing
            },
            _ => Action::Nothing,
        }
    }

    /// Asks to pause or resume the selected torrent.
    fn toggle_selected(&self) -> (action: Action)
        ensures
            action == Self::toggle_request(*self),
    {
        match self.list.selected_item() {
            Some(item) => Action::SetRunning {
                hash: item.hash.clone(),
                running: is_paused_label(item.state.as_str()),
            },
            None => Action::Nothing,
        }
    }

    /// Asks to confirm the deletion of the selected torrent.
    fn ask_destroy(&mut self)
        ensures
            Self::destroy_asked(*old(self), *final(self)),
    {
        let target = match self.list.selected_item() {
            Some(item) => Some(item.hash.clone()),
            None => None,
        };
        if target.is_some() {
            self.delete_confirmation_hash = target;
            self.state = AppState::ConfirmDelete;
        }
    }

    /// Opens the search screen with an empty query.
    fn open_search(&mut self)
        ensures
            Self::searched(
                old(self).entered(AppState::Search, InputMode::Search),
                *final(self),
                Seq::empty(),
            ),
    {
        self.enter(AppState::Search, InputMode::Search);
        self.search_input = String::new();
        self.filter_torrents();
    }

    fn handle_main_input(&mut self, press: KeyPress) -> (action: Action)
        ensures
            Self::main_step(*old(self), press, *final(self), action),
    {
        match press.key {
            Key::Char(ch) => {
                if ch == 'q' && press.ctrl {
                    self.quit()
                } else if ch == 'f' && press.ctrl {
                    self.open_search();
                    Action::Nothing
                } else if ch == 'r' {
                    Action::Refresh
                } else if ch == 'a' {
                    self.torrent_path_input = String::new();
                    self.enter(AppState::AddTorrent, InputMode::TorrentPath);
                    Action::Nothing
                } else if ch == 'k' {
                    self.list.move_selection(-1);
                    Action::Nothing
                } else if ch == 'j' {
                    self.list.move_selection(1);
                    Action::Nothing
                } else if ch == ' ' {
                    self.toggle_selected()
                } else if ch == 'd' {
                    self.ask_destroy();
                    Action::Nothing
                } else {
                    Action::Nothing
                }
            },
            Key::Up => {
                self.list.move_selection(-1);
                Action::Nothing
            },
            Key::Down => {
                self.list.move_selection(1);
                Action::Nothing
            },
            Key::PageUp => {
                self.list.page_up();
                Action::Nothing
            },
            Key::PageDown => {
                self.list.page_down();
                Action::Nothing
            },
            Key::Home => {
                self.list.jump_to_start();
                Action::Nothing
            },
            Key::End => {
                self.list.jump_to_end();
                Action::Nothing
            },
            Key::Delete => {
                self.ask_destroy();
                Action::Nothing
            },
            _ => Action::Nothing,
        }
    }

    fn handle_add_torrent_input(&mut self, press: KeyPress) -> (action: Action)
        ensures
            Self::add_torrent_step(*old(self), press, *final(self), action),
    {
        match press.key {
            Key::Enter => {
                if !self.torrent_path_input.as_str().is_empty() {
                    Action::ReadFile { path: self.torrent_path_input.clone() }
                } else {
                    Action::Nothing
                }
            },
            Key::Esc => {
                self.enter(AppState::Main, InputMode::Off);
                Action::Nothing
            },
            Key::Char(ch) => {
                self.torrent_path_input.push(ch);
                Action::Nothing
            },
            Key::Backspace => {
                erase_last(&mut self.torrent_path_input);
                Action::Nothing
            },
            _ => Action::Nothing,
        }
    }

    fn handle_search_input(&mut self, press: KeyPress) -> (action: Action)
        ensures
            Self::search_step(*old(self), press, *final(self), action),
    {
        match press.key {
            Key::Enter => {
                self.enter(AppState::Main, InputMode::Off);
            },
            Key::Esc => {
                self.enter(AppState::Main, InputMode::Off);
                self.search_input = String::new();
                self.filter_torrents();
            },
            Key::Char(ch) => {
                self.search_input.push(ch);
                self.filter_torrents();
            },
            Key::Backspace => {
                erase_last(&mut self.search_input);
                self.filter_torrents();
            },
            _ => {},
        }
        Action::Nothing
    }

    fn handle_confirm_delete_input(&mut self, press: KeyPress) -> (action: Action)
        ensures
            Self::confirm_delete_step(*old(self), press, *final(self), action),
    {
        if press.has_char('y') || press.has_char('Y') {
            match &self.delete_confirmation_hash {
                Some(hash) => Action::Delete { hash: hash.clone(), delete_files: press.shift },
                None => Action::Nothing,
            }
        } else if press.has_char('n') || press.has_char('N') || press.key == Key::Esc {
            self.state = AppState::Main;
            self.delete_confirmation_hash = None;
            Action::Nothing
        } else {
            Action::Nothing
        }
    }

    fn handle_error_input(&mut self, press: KeyPress) -> (action: Action)
        ensures
            Self::error_step(*old(self), press, *final(self), action),
    {
        match press.key {
            Key::Enter | Key::Esc => {
                self.state = AppState::Main;
                self.error_message = None;
                self.delete_confirmation_hash = None;
            },
            _ => {},
        }
        Action::Nothing
    }

    /// Takes the result of a login.
    fn finish_login(&mut self, result: Result<(), String>) -> (action: Action)
        ensures
            Self::after_login(*old(self), result, *final(self), action),
    {
        match result {
            Ok(_) => {
                self.config.update_connection_info(
                    self.base_url.as_str(),
                    self.username_input.as_str(),
                );
                self.enter(AppState::Main, InputMode::Off);
                Action::SaveConfig
            },
            Err(why) => {
                self.fail_because("Login failed: ", why.as_str());
                Action::Nothing
            },
        }
    }

    /// Takes the results of the two fetches of a refresh at time `now`.
    fn refresh_data(
        &mut self,
        torrents: Result<Vec<Torrent>, String>,
        server_state: Result<ServerState, String>,
        now: u64,
    )
        ensures
            Self::after_refresh(*old(self), torrents, server_state, now, *final(self)),
    {
        match torrents {
            Ok(items) => {
                self.list.replace_items(items);
                self.error_message = None;
            },
            Err(why) => {
                self.error_message = Some(failure_text("Failed to fetch torrents: ", why.as_str()));
            },
        }
        match server_state {
            Ok(summary) => {
                self.server_state = Some(summary);
            },
            Err(_) => {},
        }
        self.last_update = now;
    }

    /// Takes what came of an action at time `now`, and says what to do next.
    pub fn handle_outcome(&mut self, outcome: Outcome, now: u64) -> (action: Action)
        ensures
            Self::outcome_step(*old(self), outcome, now, *final(self), action),
            old(self).wf() ==> final(self).wf(),
    {
        let action = match outcome {
            Outcome::Connected => Action::Nothing,
            Outcome::LoggedIn(result) => self.finish_login(result),
            Outcome::ConfigSaved => Action::Refresh,
            Outcome::Refreshed { torrents, server_state } => {
                self.refresh_data(torrents, server_state, now);
                Action::Nothing
            },
            Outcome::RunningSet(result) => match result {
                Ok(_) => Action::Refresh,
                Err(why) => {
                    let shown = why.clone();
                    self.fail(shown, why);
                    Action::Nothing
                },
            },
            Outcome::FileRead(result) => match result {
                Ok(data) => Action::AddTorrent { data },
                Err(why) => {
                    self.fail_because("Failed to read file: ", why.as_str());
                    Action::Nothing
                },
            },
            Outcome::TorrentAdded(result) => match result {
                Ok(_) => {
                    self.enter(AppState::Main, InputMode::Off);
                    Action::Refresh
                },
                Err(why) => {
                    self.fail_because("Failed to add torrent: ", why.as_str());
                    Action::Nothing
                },
            },
            Outcome::Deleted(result) => match result {
                Ok(_) => {
                    self.state = AppState::Main;
                    self.delete_confirmation_hash = None;
                    Action::Refresh
                },
                Err(why) => {
                    self.fail_because("Failed to delete torrent: ", why.as_str());
                    Action::Nothing
                },
            },
        };
        proof {
            if old(self).wf() {
                Self::lemma_outcome_step_keeps_wf(*old(self), outcome, now, *self, action);
            }
        }
        action
    }

    /// The rows to show.
    pub fn get_visible_torrents(&self) -> (shown: &[Torrent])
        ensures
            shown@ == self.list.visible(),
    {
        self.list.visible_slice()
    }

    /// Position of the selected row among the rows shown.
    pub fn get_relative_selected_index(&self) -> (at: usize)
        ensures
            at == if self.list.selected_torrent >= self.list.scroll_offset {
                self.list.selected_torrent - self.list.scroll_offset
            } else {
                0
            },
    {
        self.list.relative_selected_index()
    }

    /// Number of rows that fit on screen, at least one.
    pub fn get_max_visible_rows(&self) -> (rows: usize)
        ensures
            rows == self.list.rows(),
    {
        self.list.get_max_visible_rows()
    }

    /// Takes the number of rows that the screen has for the list.
    pub fn set_max_visible_rows(&mut self, rows: usize)
        ensures
            final(self).list.resized(&old(self).list, rows),
            *final(self) == (App { list: final(self).list, ..*old(self) }),
            old(self).wf() ==> final(self).wf(),
    {
        self.list.set_viewport_rows(rows);
    }

    /// Length of the active list.
    pub fn get_current_torrent_list_len(&self) -> (len: usize)
        ensures
            len == self.list.active().len(),
    {
        self.list.active_len()
    }

    /// The selected torrent, if the active list has one.
    pub fn get_current_selected_torrent(&self) -> (item: Option<&Torrent>)
        ensures
            match item {
                Some(found) => self.list.selected() == Some(*found),
                None => self.list.selected() is None,
            },
    {
        self.list.selected_item()
    }

    /// A key that the active screen has taken leaves the session in order.
    pub proof fn lemma_key_step_keeps_wf(pre: App, press: KeyPress, post: App, action: Action)
        requires
            pre.wf(),
            Self::key_step(pre, press, post, action),
        ensures
            post.wf(),
    {
    }

    /// A key that opens, closes or is taken by the search screen leaves the
    /// first row selected and the list scrolled to its top.
    pub proof fn lemma_search_rests_at_top(pre: App, press: KeyPress, post: App, action: Action)
        requires
            pre.wf(),
            Self::key_step(pre, press, post, action),
            pre.state is Search || post.state is Search,
        ensures
            post.list.at_top(),
    {
    }

    /// A deletion waits for its confirmation only while the confirmation is
    /// on screen: a key that leaves that screen leaves no deletion waiting,
    /// and asks for none.
    pub proof fn lemma_leaving_confirmation_forgets_target(
        pre: App,
        press: KeyPress,
        post: App,
        action: Action,
    )
        requires
            pre.wf(),
            Self::key_step(pre, press, post, action),
            !(post.state is ConfirmDelete),
        ensures
            post.delete_confirmation_hash is None,
            !(action is Delete),
    {
    }

    /// An outcome that the session has taken leaves it in order.
    pub proof fn lemma_outcome_step_keeps_wf(
        pre: App,
        outcome: Outcome,
        now: u64,
        post: App,
        action: Action,
    )
        requires
            pre.wf(),
            Self::outcome_step(pre, outcome, now, post, action),
        ensures
            post.wf(),
    {
    }
}

} // verus!
