//! What the menu bar shows for the daemon's state and the active language.
use crate::controller::ControllerState;
use vstd::prelude::*;

verus! {

/// Code point of `c` with ASCII upper-case letters mapped to lower case.
pub open spec fn ascii_fold(c: char) -> u32 {
    let v = c as u32;
    if 65 <= v <= 90 {
        (v + 32) as u32
    } else {
        v
    }
}

/// Equal up to ASCII case: same length, and the same characters once ASCII
/// letters are folded to lower case.
pub open spec fn eq_ascii_case(a: Seq<char>, b: Seq<char>) -> bool {
    a.len() == b.len() && forall|i: int| 0 <= i < a.len() ==> ascii_fold(#[trigger] a[i]) == ascii_fold(b[i])
}

fn fold_char(c: char) -> (r: u32)
    ensures
        r == ascii_fold(c),
{
    let v = c as u32;
    if 65 <= v && v <= 90 {
        v + 32
    } else {
        v
    }
}

/// Whether two strings are equal up to ASCII case.
pub fn eq_ignore_ascii_case(a: &str, b: &str) -> (r: bool)
    ensures
        r == eq_ascii_case(a@, b@),
{
    let n = a.unicode_len();
    if n != b.unicode_len() {
        return false;
    }
    let mut i: usize = 0;
    while i < n
        invariant
            n == a@.len(),
            n == b@.len(),
            0 <= i <= n,
            forall|j: int| 0 <= j < i ==> ascii_fold(#[trigger] a@[j]) == ascii_fold(b@[j]),
        decreases n - i,
    {
        if fold_char(a.get_char(i)) != fold_char(b.get_char(i)) {
            return false;
        }
        i = i + 1;
    }
    true
}

/// The decimal digit `d` (below ten) as a one-character string.
pub open spec fn digit_text(d: nat) -> Seq<char> {
    if d == 0 {
        "0"@
    } else if d == 1 {
        "1"@
    } else if d == 2 {
        "2"@
    } else if d == 3 {
        "3"@
    } else if d == 4 {
        "4"@
    } else if d == 5 {
        "5"@
    } else if d == 6 {
        "6"@
    } else if d == 7 {
        "7"@
    } else if d == 8 {
        "8"@
    } else {
        "9"@
    }
}

/// Decimal notation of `n`, without leading zeros.
pub open spec fn decimal(n: nat) -> Seq<char>
    decreases n,
{
    if n < 10 {
        digit_text(n)
    } else {
        decimal(n / 10) + digit_text(n % 10)
    }
}

fn digit_str(d: u64) -> (r: &'static str)
    requires
        d < 10,
    ensures
        r@ == digit_text(d as nat),
{
    if d == 0 {
        "0"
    } else if d == 1 {
        "1"
    } else if d == 2 {
        "2"
    } else if d == 3 {
        "3"
    } else if d == 4 {
        "4"
    } else if d == 5 {
        "5"
    } else if d == 6 {
        "6"
    } else if d == 7 {
        "7"
    } else if d == 8 {
        "8"
    } else {
        "9"
    }
}

/// Decimal notation of a number.
pub fn decimal_string(n: u64) -> (r: String)
    ensures
        r@ == decimal(n as nat),
    decreases n,
{
    if n < 10 {
        digit_str(n).to_owned()
    } else {
        let mut s = decimal_string(n / 10);
        s.append(digit_str(n % 10));
        s
    }
}

/// Whole percent of a download: `bytes * 100 / total` rounded down, zero
/// when the total is unknown (zero), and at most `u32::MAX`.
pub open spec fn spec_percent(bytes: u64, total: u64) -> u32 {
    if total == 0 {
        0
    } else if (bytes as int * 100) / (total as int) > u32::MAX {
        u32::MAX
    } else {
        ((bytes as int * 100) / (total as int)) as u32
    }
}

/// Whole percent of a download.
pub fn download_percent(bytes: u64, total: u64) -> (r: u32)
    ensures
        r == spec_percent(bytes, total),
{
    if total == 0 {
        return 0;
    }
    let scaled = (bytes as u128) * 100;
    let pct = scaled / (total as u128);
    if pct > u32::MAX as u128 {
        u32::MAX
    } else {
        pct as u32
    }
}

/// The active language: automatic detection or a fixed language code.
#[derive(Debug, Clone)]
pub enum LanguageSelection {
    Auto,
    Fixed(String),
}

impl Default for LanguageSelection {
    fn default() -> (r: Self)
        ensures
            r is Auto,
    {
        LanguageSelection::Auto
    }
}

impl LanguageSelection {
    /// Label of the selection: `auto`, or the language code.
    pub open spec fn spec_label(&self) -> Seq<char> {
        match self {
            LanguageSelection::Auto => "auto"@,
            LanguageSelection::Fixed(code) => code@,
        }
    }

    /// Display label of the selection (`auto`, `en`, `cs`, ...).
    pub fn label(&self) -> (r: &str)
        ensures
            r@ == self.spec_label(),
    {
        match self {
            LanguageSelection::Auto => "auto",
            LanguageSelection::Fixed(code) => code.as_str(),
        }
    }

    /// Whether the selection matches a language code, ignoring ASCII case.
    pub fn matches_code(&self, code: &str) -> (r: bool)
        ensures
            r == eq_ascii_case(self.spec_label(), code@),
    {
        match self {
            LanguageSelection::Auto => eq_ignore_ascii_case("auto", code),
            LanguageSelection::Fixed(c) => eq_ignore_ascii_case(c.as_str(), code),
        }
    }
}

impl LanguageSelection {
    /// The selection for a clicked language code: `auto` in any ASCII case
    /// selects automatic detection.
    pub fn from_code(code: &str) -> (r: LanguageSelection)
        ensures
            eq_ascii_case(code@, "auto"@) ==> r is Auto,
            !eq_ascii_case(code@, "auto"@) ==> r is Fixed && r->Fixed_0@ == code@,
    {
        if eq_ignore_ascii_case(code, "auto") {
            LanguageSelection::Auto
        } else {
            LanguageSelection::Fixed(code.to_owned())
        }
    }
}

/// The active language and the languages offered.
#[derive(Debug, Clone)]
pub struct LanguageInfo {
    pub active: LanguageSelection,
    pub available: Vec<String>,
}

impl Default for LanguageInfo {
    fn default() -> (r: Self)
        ensures
            r.active is Auto,
            r.available@.len() == 0,
    {
        LanguageInfo { active: LanguageSelection::Auto, available: Vec::new() }
    }
}

/// Application state derived from the daemon's status.
#[derive(Debug, Clone)]
pub enum AppState {
    /// Not connected to the daemon.
    Disconnected,
    /// The daemon is loading models; the message describes the progress.
    Initializing { message: String },
    /// Connected, not listening.
    Paused,
    /// Capturing and transcribing.
    Listening,
    /// The daemon reported an error.
    Error(String),
}

impl AppState {
    /// The state shown for a daemon state; a stopped daemon shows as
    /// disconnected.
    pub fn from_daemon_state(state: ControllerState) -> (r: AppState)
        ensures
            state == ControllerState::Stopped ==> r is Disconnected,
            state == ControllerState::Listening ==> r is Listening,
            state == ControllerState::Paused ==> r is Paused,
            state == ControllerState::Initializing ==> r is Initializing
                && r->message@ == "Initializing..."@,
    {
        match state {
            ControllerState::Stopped => AppState::Disconnected,
            ControllerState::Listening => AppState::Listening,
            ControllerState::Paused => AppState::Paused,
            ControllerState::Initializing => AppState::Initializing { message: "Initializing...".to_owned() },
        }
    }

    /// The state while a model downloads: `Downloading <model>... <pct>%`.
    pub fn downloading(model: &str, bytes: u64, total: u64) -> (r: AppState)
        ensures
            r is Initializing,
            r->message@ == "Downloading "@ + model@ + "... "@ + decimal(spec_percent(bytes, total) as nat) + "%"@,
    {
        let pct = decimal_string(download_percent(bytes, total) as u64);
        let message = "Downloading ".to_owned().concat(model).concat("... ").concat(pct.as_str()).concat("%");
        AppState::Initializing { message }
    }

    /// The state while a model loads: `Loading <model>...`.
    pub fn loading(model: &str) -> (r: AppState)
        ensures
            r is Initializing,
            r->message@ == "Loading "@ + model@ + "..."@,
    {
        AppState::Initializing { message: "Loading ".to_owned().concat(model).concat("...") }
    }

    /// Status text without the language.
    pub open spec fn spec_status_text(&self) -> Seq<char> {
        match self {
            AppState::Disconnected => "Disconnected"@,
            AppState::Initializing { message } => message@,
            AppState::Paused => "Paused"@,
            AppState::Listening => "Listening"@,
            AppState::Error(msg) => msg@,
        }
    }

    /// Whether the state offers the pause/start toggle.
    pub open spec fn spec_has_toggle(&self) -> bool {
        self is Paused || self is Listening
    }

    /// Status text shown as a disabled menu item (without language).
    pub fn status_text(&self) -> (r: &str)
        ensures
            r@ == self.spec_status_text(),
    {
        match self {
            AppState::Disconnected => "Disconnected",
            AppState::Initializing { message } => message.as_str(),
            AppState::Paused => "Paused",
            AppState::Listening => "Listening",
            AppState::Error(msg) => msg.as_str(),
        }
    }

    /// Status text with the active language appended (`Listening (en)`) in
    /// the states that offer the toggle; the plain status text otherwise.
    pub fn status_text_with_language(&self, language: &LanguageSelection) -> (r: String)
        ensures
            self.spec_has_toggle() ==> r@ == self.spec_status_text() + " ("@ + language.spec_label() + ")"@,
            !self.spec_has_toggle() ==> r@ == self.spec_status_text(),
    {
        if self.has_toggle() {
            self.status_text().to_owned().concat(" (").concat(language.label()).concat(")")
        } else {
            self.status_text().to_owned()
        }
    }

    /// Whether the toggle item is shown.
    pub fn has_toggle(&self) -> (r: bool)
        ensures
            r == self.spec_has_toggle(),
    {
        match self {
            AppState::Paused | AppState::Listening => true,
            _ => false,
        }
    }

    /// Label of the toggle item; empty in states without the toggle.
    pub fn toggle_label(&self) -> (r: &str)
        ensures
            self is Listening ==> r@ == "Pause Listening"@,
            self is Paused ==> r@ == "Start Listening"@,
            !self.spec_has_toggle() ==> r@ == ""@,
    {
        match self {
            AppState::Listening => "Pause Listening",
            AppState::Paused => "Start Listening",
            _ => "",
        }
    }
}

/// Whether some entry equals `code` up to ASCII case.
pub open spec fn lists_code(entries: Seq<String>, code: Seq<char>) -> bool {
    exists|k: int| 0 <= k < entries.len() && eq_ascii_case(#[trigger] entries[k]@, code)
}

/// Entries of the language menu, as (code, checked): each offered language,
/// checked when it matches the active selection, then `auto` when no offered
/// language is `auto`. No entries at all when no language is offered.
pub fn language_entries(language: &LanguageInfo) -> (r: Vec<(String, bool)>)
    ensures
        language.available@.len() == 0 ==> r@.len() == 0,
        language.available@.len() > 0 ==> {
            let n = language.available@.len();
            &&& r@.len() == (if lists_code(language.available@, "auto"@) { n } else { n + 1 })
            &&& forall|i: int| 0 <= i < n ==> (#[trigger] r@[i]).0@ == language.available@[i]@
                && r@[i].1 == eq_ascii_case(language.active.spec_label(), language.available@[i]@)
            &&& !lists_code(language.available@, "auto"@) ==> r@[n as int].0@ == "auto"@
                && r@[n as int].1 == eq_ascii_case(language.active.spec_label(), "auto"@)
        },
{
    let mut entries: Vec<(String, bool)> = Vec::new();
    let n = language.available.len();
    if n == 0 {
        return entries;
    }
    let mut has_auto = false;
    let mut i: usize = 0;
    while i < n
        invariant
            n == language.available@.len(),
            0 <= i <= n,
            entries@.len() == i,
            forall|j: int| 0 <= j < i ==> (#[trigger] entries@[j]).0@ == language.available@[j]@
                && entries@[j].1 == eq_ascii_case(language.active.spec_label(), language.available@[j]@),
            has_auto <==> exists|k: int| 0 <= k < i && eq_ascii_case(#[trigger] language.available@[k]@, "auto"@),
        decreases n - i,
    {
        let code = &language.available[i];
        let checked = language.active.matches_code(code.as_str());
        if eq_ignore_ascii_case(code.as_str(), "auto") {
            has_auto = true;
        }
        entries.push((code.clone(), checked));
        i = i + 1;
    }
    if !has_auto {
        let checked = language.active.matches_code("auto");
        entries.push(("auto".to_owned(), checked));
    }
    entries
}

/// Commands from the menu to the daemon connection.
#[derive(Debug, Clone)]
pub enum Command {
    StartListening,
    StopListening,
    Shutdown,
    SetLanguage(String),
}

/// The command of the toggle item: pause while listening, start while paused.
pub fn toggle_command(state: &AppState) -> (r: Option<Command>)
    ensures
        state is Listening ==> r is Some && r->0 is StopListening,
        state is Paused ==> r is Some && r->0 is StartListening,
        !state.spec_has_toggle() ==> r is None,
{
    match state {
        AppState::Listening => Some(Command::StopListening),
        AppState::Paused => Some(Command::StartListening),
        _ => None,
    }
}

/// Events from the daemon connection to the menu.
#[derive(Debug, Clone)]
pub enum AppEvent {
    StateChanged(AppState),
    LanguageChanged(LanguageInfo),
    ShutdownRequested,
    ShutdownComplete,
}

/// What the menu does after an event.
#[derive(Debug, Clone, Copy, PartialEq, Eq, Structural)]
pub enum MenuReaction {
    /// Nothing visible changes.
    Wait,
    /// Rebuild the menu from the new state.
    Rebuild,
    /// Send `Command::Shutdown` to the daemon connection.
    SendShutdown,
    /// Remove the tray icon and leave the event loop.
    Exit,
}

/// The menu's own state: what it shows and whether it is shutting down.
pub struct MenuState {
    current_state: AppState,
    language: LanguageInfo,
    shutting_down: bool,
}

impl MenuState {
    /// The daemon state shown.
    pub closed spec fn spec_current(&self) -> AppState {
        self.current_state
    }

    /// The languages shown.
    pub closed spec fn spec_language(&self) -> LanguageInfo {
        self.language
    }

    /// The daemon state shown.
    pub fn current_state(&self) -> (r: &AppState)
        ensures
            *r == self.spec_current(),
    {
        &self.current_state
    }

    /// The languages shown.
    pub fn language(&self) -> (r: &LanguageInfo)
        ensures
            *r == self.spec_language(),
    {
        &self.language
    }

    /// Whether a shutdown has been requested already.
    pub closed spec fn spec_shutting_down(&self) -> bool {
        self.shutting_down
    }

    /// A disconnected menu with automatic language detection.
    pub fn new() -> (r: MenuState)
        ensures
            r.spec_current() is Disconnected,
            r.spec_language().active is Auto,
            r.spec_language().available@.len() == 0,
            !r.spec_shutting_down(),
    {
        MenuState { current_state: AppState::Disconnected, language: LanguageInfo::default(), shutting_down: false }
    }

    /// Whether a shutdown has been requested already.
    pub fn is_shutting_down(&self) -> (r: bool)
        ensures
            r == self.spec_shutting_down(),
    {
        self.shutting_down
    }

    /// Ask for a shutdown (the quit item, or a request from the system): the
    /// shutdown command is sent on the first request only.
    pub fn request_shutdown(&mut self) -> (r: bool)
        ensures
            r == !old(self).spec_shutting_down(),
            final(self).spec_shutting_down(),
    {
        if self.shutting_down {
            false
        } else {
            self.shutting_down = true;
            true
        }
    }

    /// A language was clicked: select it right away and ask the daemon to
    /// switch to it.
    pub fn select_language(&mut self, code: &str) -> (r: Command)
        ensures
            r is SetLanguage && r->SetLanguage_0@ == code@,
            eq_ascii_case(code@, "auto"@) ==> final(self).spec_language().active is Auto,
            !eq_ascii_case(code@, "auto"@) ==> final(self).spec_language().active is Fixed
                && final(self).spec_language().active->Fixed_0@ == code@,
            final(self).spec_shutting_down() == old(self).spec_shutting_down(),
    {
        self.language.active = LanguageSelection::from_code(code);
        Command::SetLanguage(code.to_owned())
    }

    /// React to an event from the daemon connection.
    pub fn handle_app_event(&mut self, event: AppEvent) -> (r: MenuReaction)
        ensures
            event is ShutdownRequested ==> r == (if old(self).spec_shutting_down() {
                MenuReaction::Wait
            } else {
                MenuReaction::SendShutdown
            }) && final(self).spec_shutting_down(),
            event is ShutdownComplete ==> r == MenuReaction::Exit,
            event is StateChanged ==> r == MenuReaction::Rebuild
                && final(self).spec_current() == event->StateChanged_0,
            event is LanguageChanged ==> r == MenuReaction::Rebuild
                && final(self).spec_language() == event->LanguageChanged_0,
            !(event is ShutdownRequested) ==> final(self).spec_shutting_down() == old(self).spec_shutting_down(),
    {
        match event {
            AppEvent::ShutdownRequested => {
                if self.request_shutdown() {
                    MenuReaction::SendShutdown
                } else {
                    MenuReaction::Wait
                }
            },
            AppEvent::ShutdownComplete => MenuReaction::Exit,
            AppEvent::StateChanged(state) => {
                self.current_state = state;
                MenuReaction::Rebuild
            },
            AppEvent::LanguageChanged(info) => {
                self.language = info;
                MenuReaction::Rebuild
            },
        }
    }
}

} // verus!
