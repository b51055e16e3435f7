//! The command console of the terminal interface: what is typed, the lines
//! shown, the command history, the screen and the status line.
//!
//! Commands that need the vault are not run here: [`TuiApp::process_command`]
//! says which handler to run with which arguments, the application runs it and
//! hands the outcome to [`TuiApp::apply_command_result`].
use vstd::prelude::*;
use vstd::string::StringExecFns;
use crate::sync::records::strings_view;
use crate::text::{chars_of, decimal, has_prefix, push_char, push_decimal, push_str, starts_with, str_eq, string_from_chars};
use crate::tui::app_types::{screen_name, sync_text, Screen, SyncStatus};
use crate::tui::commands::{first_space, join_strs, joined, lemma_first_space_at, lines_view, push_line, push_line2, push_line3, strs_view, words, words_of};
use crate::tui::traits::{KeyCode, KeyEvent};

verus! {

/// Most commands kept in the history.
pub const MAX_HISTORY: usize = 1000;

/// Most lines kept in the output.
pub const MAX_OUTPUT_LINES: usize = 500;

/// A keyboard shortcut as the help lists it.
#[derive(Debug)]
pub struct Shortcut {
    pub key: String,
    pub description: String,
}

/// The command handlers that work on the vault or the configuration.
#[derive(Debug, Clone, Copy, PartialEq, Eq, Structural)]
pub enum HandlerCommand {
    Config,
    List,
    Show,
    New,
    Update,
    Delete,
    Search,
    Health,
}

/// What the application still has to do after a command line.
#[derive(Debug)]
pub enum CommandRequest {
    /// Nothing: the console handled the command.
    Nothing,
    /// Run a handler with these arguments and hand back its outcome.
    Run { command: HandlerCommand, args: Vec<String> },
}

/// Model of a command request.
pub enum CommandRequestView {
    Nothing,
    Run(HandlerCommand, Seq<Seq<char>>),
}

impl View for CommandRequest {
    type V = CommandRequestView;

    open spec fn view(&self) -> CommandRequestView {
        match self {
            CommandRequest::Nothing => CommandRequestView::Nothing,
            CommandRequest::Run { command, args } => CommandRequestView::Run(*command, strings_view(args@)),
        }
    }
}

/// The actions keyboard shortcuts trigger.
#[derive(Debug, Clone, Copy, PartialEq, Eq, Structural)]
pub enum ShortcutAction {
    New,
    List,
    Search,
    Show,
    Update,
    Delete,
    Quit,
    Help,
    Clear,
    CopyPassword,
    CopyUsername,
    Config,
    OpenSettings,
    SyncNow,
    ShowHelp,
    RefreshView,
    SaveConfig,
    DisableSync,
}

/// The state of the console.
pub struct TuiApp {
    running: bool,
    /// The command line being typed.
    pub input_buffer: String,
    autocomplete_matches: Vec<String>,
    history: Vec<String>,
    history_index: usize,
    /// The lines shown.
    pub output_lines: Vec<String>,
    locked: bool,
    record_count: usize,
    sync_status: SyncStatus,
    version: String,
    current_screen: Screen,
    shortcuts: Vec<Shortcut>,
}

/// Model of the console.
pub struct TuiAppView {
    pub running: bool,
    pub input: Seq<char>,
    pub matches: Seq<Seq<char>>,
    pub history: Seq<Seq<char>>,
    pub history_index: nat,
    pub output: Seq<Seq<char>>,
    pub locked: bool,
    pub record_count: nat,
    pub sync_status: SyncStatus,
    pub version: Seq<char>,
    pub screen: Screen,
    /// Key and description of each shortcut.
    pub shortcuts: Seq<(Seq<char>, Seq<char>)>,
}

/// The shortcuts of a list, each as its key and description.
pub open spec fn shortcuts_view(v: Seq<Shortcut>) -> Seq<(Seq<char>, Seq<char>)> {
    v.map_values(|s: Shortcut| (s.key@, s.description@))
}

impl View for TuiApp {
    type V = TuiAppView;

    closed spec fn view(&self) -> TuiAppView {
        TuiAppView {
            running: self.running,
            input: self.input_buffer@,
            matches: strings_view(self.autocomplete_matches@),
            history: strings_view(self.history@),
            history_index: self.history_index as nat,
            output: strings_view(self.output_lines@),
            locked: self.locked,
            record_count: self.record_count as nat,
            sync_status: self.sync_status,
            version: self.version@,
            screen: self.current_screen,
            shortcuts: shortcuts_view(self.shortcuts@),
        }
    }
}

/// The lines shown when the console starts.
pub open spec fn banner() -> Seq<Seq<char>> {
    seq!["OpenKeyring TUI v0.1.0"@, "Type /help for available commands"@, ""@]
}

/// The output after adding a line: the oldest lines go so that no more than
/// [`MAX_OUTPUT_LINES`] remain.
pub open spec fn output_added(out: Seq<Seq<char>>, line: Seq<char>) -> Seq<Seq<char>> {
    if out.len() >= MAX_OUTPUT_LINES {
        out.skip(out.len() - MAX_OUTPUT_LINES + 1).push(line)
    } else {
        out.push(line)
    }
}

/// The output after adding lines one by one.
pub open spec fn outputs_added(out: Seq<Seq<char>>, lines: Seq<Seq<char>>) -> Seq<Seq<char>>
    decreases lines.len(),
{
    if lines.len() == 0 {
        out
    } else {
        output_added(outputs_added(out, lines.drop_last()), lines.last())
    }
}

/// Whether a character is an ASCII control character.
pub open spec fn is_ascii_control(c: char) -> bool {
    (c as u32) < 0x20 || c as u32 == 0x7f
}

/// The commands that Tab completes, in order.
pub open spec fn command_names() -> Seq<Seq<char>> {
    seq![
        "/new"@,
        "/list"@,
        "/search"@,
        "/show"@,
        "/update"@,
        "/delete"@,
        "/config"@,
        "/help"@,
        "/quit"@,
        "/exit"@,
        "/clear"@,
        "/sync"@,
        "/generate"@,
        "/recover"@,
    ]
}

/// The names among `cmds` that start with `p`, in order.
pub open spec fn prefixed(cmds: Seq<Seq<char>>, p: Seq<char>) -> Seq<Seq<char>>
    decreases cmds.len(),
{
    if cmds.len() == 0 {
        Seq::empty()
    } else {
        prefixed(cmds.drop_last(), p) + if starts_with(cmds.last(), p) {
            seq![cmds.last()]
        } else {
            Seq::empty()
        }
    }
}

/// The longest common prefix of two texts.
pub open spec fn common_prefix(a: Seq<char>, b: Seq<char>) -> Seq<char>
    decreases a.len(),
{
    if a.len() == 0 || b.len() == 0 || a[0] != b[0] {
        Seq::empty()
    } else {
        seq![a[0]] + common_prefix(a.drop_first(), b.drop_first())
    }
}

/// The console after Tab: a command line completes to the only command it
/// starts, to the common prefix of two, or to the first of several (listing
/// them); a line with a space only forgets earlier matches.
pub open spec fn autocompleted(v: TuiAppView) -> TuiAppView {
    if v.input.len() == 0 {
        v
    } else if v.input[0] == '/' {
        let ms = prefixed(command_names(), v.input);
        if ms.len() == 0 {
            TuiAppView { matches: Seq::empty(), ..v }
        } else if ms.len() == 1 {
            TuiAppView { input: ms[0] + " "@, matches: Seq::empty(), ..v }
        } else if ms.len() == 2 {
            let c = common_prefix(ms[0], ms[1]);
            TuiAppView {
                input: if c.len() > v.input.len() {
                    c
                } else {
                    ms[0] + " "@
                },
                matches: ms,
                ..v
            }
        } else {
            TuiAppView {
                output: v.output.push("Matching commands: "@ + joined(ms, ", "@)),
                input: ms[0] + " "@,
                matches: ms,
                ..v
            }
        }
    } else if v.input.contains(' ') {
        TuiAppView { matches: Seq::empty(), ..v }
    } else {
        v
    }
}

fn command_name(i: usize) -> (r: &'static str)
    requires
        i < 14,
    ensures
        r@ == command_names()[i as int],
{
    match i {
        0 => "/new",
        1 => "/list",
        2 => "/search",
        3 => "/show",
        4 => "/update",
        5 => "/delete",
        6 => "/config",
        7 => "/help",
        8 => "/quit",
        9 => "/exit",
        10 => "/clear",
        11 => "/sync",
        12 => "/generate",
        _ => "/recover",
    }
}

proof fn lemma_common_prefix_at(a: Seq<char>, b: Seq<char>, i: int)
    requires
        0 <= i <= a.len(),
        i <= b.len(),
        forall|k: int| 0 <= k < i ==> a[k] == b[k],
        i == a.len() || i == b.len() || a[i] != b[i],
    ensures
        common_prefix(a, b) == a.take(i),
    decreases i,
{
    if i == 0 {
        assert(a.take(0) =~= Seq::<char>::empty());
    } else {
        assert forall|k: int| 0 <= k < i - 1 implies a.drop_first()[k] == b.drop_first()[k] by {
            assert(a[k + 1] == b[k + 1]);
        }
        lemma_common_prefix_at(a.drop_first(), b.drop_first(), i - 1);
        assert(seq![a[0]] + a.drop_first().take(i - 1) =~= a.take(i));
    }
}

fn common_prefix_of(a: &str, b: &str) -> (r: String)
    ensures
        r@ == common_prefix(a@, b@),
{
    let x = chars_of(a);
    let y = chars_of(b);
    let mut i: usize = 0;
    while i < x.len() && i < y.len() && x[i] == y[i]
        invariant
            i <= x@.len(),
            i <= y@.len(),
            forall|k: int| 0 <= k < i ==> x@[k] == y@[k],
        decreases x@.len() - i,
    {
        i = i + 1;
    }
    proof {
        lemma_common_prefix_at(x@, y@, i as int);
    }
    let mut out: Vec<char> = Vec::new();
    let mut j: usize = 0;
    while j < i
        invariant
            j <= i <= x@.len(),
            out@ == x@.take(j as int),
        decreases i - j,
    {
        out.push(x[j]);
        j = j + 1;
        assert(out@ =~= x@.take(j as int));
    }
    string_from_chars(&out)
}

fn with_space(s: &str) -> (r: String)
    ensures
        r@ == s@ + " "@,
{
    let mut r = String::from_str(s);
    push_str(&mut r, " ");
    r
}

/// Text padded with spaces on the right to `w` characters.
pub open spec fn padded(s: Seq<char>, w: nat) -> Seq<char> {
    if s.len() < w {
        s + Seq::new((w - s.len()) as nat, |i: int| ' ')
    } else {
        s
    }
}

/// The help line of a shortcut.
pub open spec fn shortcut_line(key: Seq<char>, description: Seq<char>) -> Seq<char> {
    "  "@ + padded(key, 20) + " - "@ + description
}

/// The commands part of the help.
pub open spec fn commands_help() -> Seq<Seq<char>> {
    seq![
        ""@,
        "Commands:"@,
        "  /list [filter]    - List password records"@,
        "  /show <name>      - Show a password record"@,
        "  /new              - Create a new record"@,
        "  /update <name>    - Update a record"@,
        "  /delete <name>    - Delete a record"@,
        "  /search <query>   - Search records"@,
        "  /health [flags]   - Check password health"@,
        "  /config [sub]     - Manage configuration"@,
        "  /exit             - Exit TUI"@,
        ""@,
    ]
}

/// The help lines of the shortcuts.
pub open spec fn shortcut_lines(sc: Seq<(Seq<char>, Seq<char>)>) -> Seq<Seq<char>> {
    sc.map_values(|p: (Seq<char>, Seq<char>)| shortcut_line(p.0, p.1))
}

/// The help: the shortcuts, then the commands.
pub open spec fn help_lines(sc: Seq<(Seq<char>, Seq<char>)>) -> Seq<Seq<char>> {
    seq![""@, "Keyboard Shortcuts:"@, ""@] + shortcut_lines(sc) + commands_help()
}

/// The command name and arguments of a line: the name runs to the first
/// space and the arguments are the words after it.
pub open spec fn command_parts(cmd: Seq<char>) -> (Seq<char>, Seq<Seq<char>>) {
    match first_space(cmd) {
        Some(i) => (cmd.take(i), words(cmd.skip(i + 1))),
        None => (cmd, Seq::empty()),
    }
}

/// The handler a command name runs, if any.
pub open spec fn handler_for(name: Seq<char>) -> Option<HandlerCommand> {
    if name == "/config"@ {
        Some(HandlerCommand::Config)
    } else if name == "/list"@ {
        Some(HandlerCommand::List)
    } else if name == "/show"@ {
        Some(HandlerCommand::Show)
    } else if name == "/new"@ {
        Some(HandlerCommand::New)
    } else if name == "/update"@ {
        Some(HandlerCommand::Update)
    } else if name == "/delete"@ {
        Some(HandlerCommand::Delete)
    } else if name == "/search"@ {
        Some(HandlerCommand::Search)
    } else if name == "/health"@ {
        Some(HandlerCommand::Health)
    } else {
        None
    }
}

/// The command line that runs each vault command.
pub open spec fn vault_command_text(h: HandlerCommand) -> Seq<char> {
    match h {
        HandlerCommand::Config => "/config"@,
        HandlerCommand::List => "/list"@,
        HandlerCommand::Show => "/show"@,
        HandlerCommand::New => "/new"@,
        HandlerCommand::Update => "/update"@,
        HandlerCommand::Delete => "/delete"@,
        HandlerCommand::Search => "/search"@,
        HandlerCommand::Health => "/health"@,
    }
}

proof fn lemma_no_space(s: Seq<char>)
    requires
        forall|i: int| 0 <= i < s.len() ==> s[i] != ' ',
    ensures
        first_space(s) is None,
    decreases s.len(),
{
    if s.len() > 0 {
        lemma_no_space(s.drop_last());
    }
}

/// Each vault command goes to its own handler: the line `/<command>` runs
/// that handler with no argument, and `/<command> <rest>` runs it with the
/// words of `rest` as arguments.
pub proof fn law_vault_commands_dispatch(v: TuiAppView, h: HandlerCommand, rest: Seq<char>)
    ensures
        processed(v, vault_command_text(h) + seq![' '] + rest).1 == CommandRequestView::Run(h, words(rest)),
        processed(v, vault_command_text(h)).1 == CommandRequestView::Run(h, Seq::<Seq<char>>::empty()),
{
    reveal_strlit("/config");
    reveal_strlit("/list");
    reveal_strlit("/show");
    reveal_strlit("/new");
    reveal_strlit("/update");
    reveal_strlit("/delete");
    reveal_strlit("/search");
    reveal_strlit("/health");
    reveal_strlit("/exit");
    reveal_strlit("/quit");
    reveal_strlit("/help");
    let name = vault_command_text(h);
    lemma_no_space(name);
    let t = name + seq![' '] + rest;
    assert(t.take(name.len() as int) =~= name);
    assert(t[name.len() as int] == ' ');
    lemma_first_space_at(t, name.len() as int);
    assert(t.skip(name.len() + 1int) =~= rest);
    assert(command_parts(t) == (name, words(rest)));
    assert(command_parts(name) == (name, Seq::<Seq<char>>::empty()));
    if name.len() != "/config"@.len() || name[1] != "/config"@[1] {
        assert(name != "/config"@);
    }
    if name.len() != "/list"@.len() || name[1] != "/list"@[1] {
        assert(name != "/list"@);
    }
    if name.len() != "/show"@.len() || name[1] != "/show"@[1] {
        assert(name != "/show"@);
    }
    if name.len() != "/new"@.len() || name[1] != "/new"@[1] {
        assert(name != "/new"@);
    }
    if name.len() != "/update"@.len() || name[1] != "/update"@[1] {
        assert(name != "/update"@);
    }
    if name.len() != "/delete"@.len() || name[1] != "/delete"@[1] {
        assert(name != "/delete"@);
    }
    if name.len() != "/search"@.len() || name[1] != "/search"@[1] {
        assert(name != "/search"@);
    }
    if name.len() != "/health"@.len() || name[1] != "/health"@[1] {
        assert(name != "/health"@);
    }
    if name.len() != "/exit"@.len() || name[1] != "/exit"@[1] {
        assert(name != "/exit"@);
    }
    if name.len() != "/quit"@.len() || name[1] != "/quit"@[1] {
        assert(name != "/quit"@);
    }
    if name.len() != "/help"@.len() || name[1] != "/help"@[1] {
        assert(name != "/help"@);
    }
    assert(handler_for(name) == Some(h));
}

/// The console after showing the help.
pub open spec fn helped(v: TuiAppView) -> TuiAppView {
    TuiAppView { output: v.output + help_lines(v.shortcuts), ..v }
}

/// The console after a line is added to the output as it is.
pub open spec fn said(v: TuiAppView, line: Seq<char>) -> TuiAppView {
    TuiAppView { output: v.output.push(line), ..v }
}

/// The console after a command line, and what is left to do: the line is
/// echoed; /exit and /quit stop the console, /help shows the help, the vault
/// commands go to their handlers and anything else is reported unknown.
pub open spec fn processed(v: TuiAppView, cmd: Seq<char>) -> (TuiAppView, CommandRequestView) {
    let v1 = TuiAppView { output: output_added(v.output, "> "@ + cmd), ..v };
    let (name, args) = command_parts(cmd);
    if name == "/exit"@ || name == "/quit"@ {
        (said(TuiAppView { running: false, ..v1 }, "Goodbye!"@), CommandRequestView::Nothing)
    } else if name == "/help"@ {
        (helped(v1), CommandRequestView::Nothing)
    } else {
        match handler_for(name) {
            Some(h) => (v1, CommandRequestView::Run(h, args)),
            None => (
                if name.len() > 0 && name[0] == '/' {
                    said(v1, "Unknown command '"@ + name + "'. Type /help for available commands."@)
                } else {
                    said(v1, "Unknown command. Type /help for available commands."@)
                },
                CommandRequestView::Nothing,
            ),
        }
    }
}

/// The console after Enter: a non-empty line goes to the history (the
/// oldest entry leaves when [`MAX_HISTORY`] are kept), the line is cleared
/// and the command processed.
pub open spec fn submitted(v: TuiAppView) -> (TuiAppView, CommandRequestView) {
    if v.input.len() == 0 {
        (v, CommandRequestView::Nothing)
    } else {
        let h = (if v.history.len() >= MAX_HISTORY {
            v.history.drop_first()
        } else {
            v.history
        }).push(v.input);
        processed(TuiAppView { history: h, history_index: h.len(), input: Seq::empty(), ..v }, v.input)
    }
}

/// The console after a typed character: Enter submits, Tab completes,
/// other control characters are ignored and the rest is typed.
pub open spec fn typed(v: TuiAppView, c: char) -> (TuiAppView, CommandRequestView) {
    if c == '\n' || c == '\r' {
        submitted(v)
    } else if c == '\t' {
        (autocompleted(v), CommandRequestView::Nothing)
    } else if is_ascii_control(c) {
        (v, CommandRequestView::Nothing)
    } else {
        (TuiAppView { input: v.input.push(c), ..v }, CommandRequestView::Nothing)
    }
}

/// The console after Backspace: the last typed character goes.
pub open spec fn backspaced(v: TuiAppView) -> TuiAppView {
    TuiAppView {
        input: if v.input.len() > 0 {
            v.input.drop_last()
        } else {
            v.input
        },
        ..v
    }
}

/// The console on another screen, saying so.
pub open spec fn navigated(v: TuiAppView, s: Screen) -> TuiAppView {
    said(TuiAppView { screen: s, ..v }, "Navigated to: "@ + screen_name(s))
}

/// The console back on the main screen, saying so.
pub open spec fn returned_to_main(v: TuiAppView) -> TuiAppView {
    said(TuiAppView { screen: Screen::Main, ..v }, "Returned to main screen"@)
}

/// The console after a shortcut's action, and what is left to do.
pub open spec fn action_done(v: TuiAppView, a: ShortcutAction) -> (TuiAppView, CommandRequestView) {
    match a {
        ShortcutAction::New => processed(v, "/new"@),
        ShortcutAction::List => processed(v, "/list"@),
        ShortcutAction::Config => processed(v, "/config"@),
        ShortcutAction::Search => (said(v, "Search: "@), CommandRequestView::Nothing),
        ShortcutAction::Show => (said(v, "Usage: /show <name>"@), CommandRequestView::Nothing),
        ShortcutAction::Update => (said(v, "Usage: /update <name>"@), CommandRequestView::Nothing),
        ShortcutAction::Delete => (said(v, "Usage: /delete <name>"@), CommandRequestView::Nothing),
        ShortcutAction::Quit => (said(TuiAppView { running: false, ..v }, "Goodbye!"@), CommandRequestView::Nothing),
        ShortcutAction::Help | ShortcutAction::ShowHelp => (helped(v), CommandRequestView::Nothing),
        ShortcutAction::Clear => (TuiAppView { output: Seq::empty(), ..v }, CommandRequestView::Nothing),
        ShortcutAction::CopyPassword => (said(v, "Use /show <name> to copy password"@), CommandRequestView::Nothing),
        ShortcutAction::CopyUsername => (said(v, "Use /show <name> to copy username"@), CommandRequestView::Nothing),
        ShortcutAction::OpenSettings => (
            said(navigated(v, Screen::Settings), "Opened settings screen"@),
            CommandRequestView::Nothing,
        ),
        ShortcutAction::SyncNow => (
            said(said(v, "Starting sync..."@), "Note: Full sync implementation pending Phase 4"@),
            CommandRequestView::Nothing,
        ),
        ShortcutAction::RefreshView => (said(v, "Refreshing view..."@), CommandRequestView::Nothing),
        ShortcutAction::SaveConfig => (said(v, "✓ Configuration saved"@), CommandRequestView::Nothing),
        ShortcutAction::DisableSync => (said(v, "✓ Sync disabled"@), CommandRequestView::Nothing),
    }
}

/// The keyboard hints of the status line for a width.
pub open spec fn keyboard_hints(width: nat) -> Seq<char> {
    if width >= 100 {
        "Ctrl+N new | Ctrl+L list | Ctrl+Q quit"@
    } else if width >= 80 {
        "Ctrl+N new | Ctrl+Q quit"@
    } else {
        "Ctrl+Q quit"@
    }
}

/// The pieces of the status line: only the sync status below 60 columns;
/// otherwise the lock and record count, the sync status, the version and
/// the keyboard hints.
pub open spec fn statusline(v: TuiAppView, width: nat, mins: int) -> Seq<Seq<char>> {
    if width < 60 {
        seq![" "@ + sync_text(v.sync_status, mins)]
    } else {
        seq![
            (if v.locked { "🔒"@ } else { "🔓"@ }) + " "@ + decimal(v.record_count) + " rec"@,
            " | "@,
            sync_text(v.sync_status, mins),
            " | "@,
            "v"@ + v.version,
            " | "@,
            keyboard_hints(width),
        ]
    }
}

fn first_space_index(v: &Vec<char>) -> (r: Option<usize>)
    ensures
        r is None ==> first_space(v@) is None,
        r is Some ==> first_space(v@) == Some(r->0 as int) && r->0 < v@.len(),
{
    let mut i: usize = 0;
    while i < v.len() && v[i] != ' '
        invariant
            i <= v@.len(),
            first_space(v@.take(i as int)) is None,
        decreases v@.len() - i,
    {
        assert(v@.take(i + 1).drop_last() =~= v@.take(i as int));
        i = i + 1;
    }
    if i == v.len() {
        assert(v@.take(i as int) =~= v@);
        None
    } else {
        proof {
            lemma_first_space_at(v@, i as int);
        }
        Some(i)
    }
}

fn handler_named(name: &str) -> (r: Option<HandlerCommand>)
    ensures
        r == handler_for(name@),
{
    if str_eq(name, "/config") {
        Some(HandlerCommand::Config)
    } else if str_eq(name, "/list") {
        Some(HandlerCommand::List)
    } else if str_eq(name, "/show") {
        Some(HandlerCommand::Show)
    } else if str_eq(name, "/new") {
        Some(HandlerCommand::New)
    } else if str_eq(name, "/update") {
        Some(HandlerCommand::Update)
    } else if str_eq(name, "/delete") {
        Some(HandlerCommand::Delete)
    } else if str_eq(name, "/search") {
        Some(HandlerCommand::Search)
    } else if str_eq(name, "/health") {
        Some(HandlerCommand::Health)
    } else {
        None
    }
}

fn owned_strings(v: &Vec<&str>) -> (r: Vec<String>)
    ensures
        strings_view(r@) == strs_view(v@),
{
    let mut out: Vec<String> = Vec::new();
    let mut i: usize = 0;
    while i < v.len()
        invariant
            i <= v@.len(),
            strings_view(out@) == strs_view(v@).take(i as int),
        decreases v@.len() - i,
    {
        let ghost before = out@;
        let t = String::from_str(v[i]);
        out.push(t);
        assert(strings_view(out@) =~= strings_view(before).push(v@[i as int]@));
        assert(strs_view(v@).take(i + 1) =~= strs_view(v@).take(i as int).push(v@[i as int]@));
        i = i + 1;
    }
    assert(strs_view(v@).take(i as int) =~= strs_view(v@));
    out
}

fn shortcut_text(key: &str, description: &str) -> (r: String)
    ensures
        r@ == shortcut_line(key@, description@),
{
    let mut s = String::from_str("  ");
    push_str(&mut s, key);
    let n = chars_of(key).len();
    let mut k: usize = n;
    let ghost start = s@;
    let ghost mut pad: Seq<char> = Seq::empty();
    while k < 20
        invariant
            n == key@.len(),
            n <= k,
            n <= 20 ==> k <= 20,
            n > 20 ==> k == n,
            pad.len() == k - n,
            forall|j: int| 0 <= j < pad.len() ==> pad[j] == ' ',
            s@ == start + pad,
        decreases 20 - k,
    {
        push_char(&mut s, ' ');
        proof {
            pad = pad.push(' ');
        }
        k = k + 1;
        assert(s@ =~= start + pad);
    }
    proof {
        if n < 20 {
            assert(pad =~= Seq::new((20 - n) as nat, |i: int| ' '));
        } else {
            assert(pad =~= Seq::<char>::empty());
        }
    }
    push_str(&mut s, " - ");
    push_str(&mut s, description);
    assert(padded(key@, 20) =~= key@ + pad);
    assert(s@ =~= shortcut_line(key@, description@));
    s
}

impl TuiApp {
    /// A running console on the main screen with the banner shown and
    /// nothing typed.
    pub fn new() -> (r: Self)
        ensures
            r@ == (TuiAppView {
                running: true,
                input: Seq::empty(),
                matches: Seq::empty(),
                history: Seq::empty(),
                history_index: 0,
                output: banner(),
                locked: false,
                record_count: 0,
                sync_status: SyncStatus::Unsynced,
                version: "0.1.0"@,
                screen: Screen::Main,
                shortcuts: Seq::empty(),
            }),
    {
        let mut out: Vec<String> = Vec::new();
        push_line(&mut out, "OpenKeyring TUI v0.1.0");
        push_line(&mut out, "Type /help for available commands");
        push_line(&mut out, "");
        let r = TuiApp {
            running: true,
            input_buffer: String::new(),
            autocomplete_matches: Vec::new(),
            history: Vec::new(),
            history_index: 0,
            output_lines: out,
            locked: false,
            record_count: 0,
            sync_status: SyncStatus::Unsynced,
            version: String::from_str("0.1.0"),
            current_screen: Screen::Main,
            shortcuts: Vec::new(),
        };
        assert(r@.matches =~= Seq::<Seq<char>>::empty());
        assert(r@.history =~= Seq::<Seq<char>>::empty());
        assert(r@.shortcuts =~= Seq::<(Seq<char>, Seq<char>)>::empty());
        assert(r@.output =~= banner());
        r
    }

    /// Sets the shortcuts the help lists.
    pub fn with_shortcuts(self, shortcuts: Vec<Shortcut>) -> (r: Self)
        ensures
            r@ == (TuiAppView { shortcuts: shortcuts_view(shortcuts@), ..self@ }),
    {
        let mut s = self;
        s.shortcuts = shortcuts;
        s
    }

    /// Adds a line to the output, dropping the oldest lines so that no more
    /// than [`MAX_OUTPUT_LINES`] remain.
    pub fn add_output(&mut self, line: String)
        ensures
            final(self)@ == (TuiAppView { output: output_added(old(self)@.output, line@), ..old(self)@ }),
    {
        let ghost before = self.output_lines@;
        if self.output_lines.len() >= MAX_OUTPUT_LINES {
            let excess = self.output_lines.len() - MAX_OUTPUT_LINES + 1;
            let rest = self.output_lines.split_off(excess);
            self.output_lines = rest;
            assert(strings_view(self.output_lines@) =~= strings_view(before).skip(excess as int));
        }
        let ghost mid = self.output_lines@;
        self.output_lines.push(line);
        assert(strings_view(self.output_lines@) =~= strings_view(mid).push(line@));
    }

    /// Adds lines to the output one by one.
    pub fn add_outputs(&mut self, lines: Vec<String>)
        ensures
            final(self)@ == (TuiAppView { output: outputs_added(old(self)@.output, strings_view(lines@)), ..old(self)@ }),
    {
        let ghost start = self@;
        let ghost lv = strings_view(lines@);
        let mut i: usize = 0;
        while i < lines.len()
            invariant
                i <= lines@.len(),
                lv == strings_view(lines@),
                self@ == (TuiAppView { output: outputs_added(start.output, lv.take(i as int)), ..start }),
            decreases lines@.len() - i,
        {
            assert(lv.take(i + 1).drop_last() =~= lv.take(i as int));
            assert(lv.take(i + 1).last() == lines@[i as int]@);
            let line = lines[i].clone();
            self.add_output(line);
            i = i + 1;
        }
        assert(lv.take(i as int) =~= lv);
    }

    /// The screen shown.
    pub fn current_screen(&self) -> (r: Screen)
        ensures
            r == self@.screen,
    {
        self.current_screen
    }

    /// Shows another screen and says so.
    pub fn navigate_to(&mut self, screen: Screen)
        ensures
            final(self)@ == navigated(old(self)@, screen),
    {
        self.current_screen = screen;
        let ghost before = self.output_lines@;
        push_line2(&mut self.output_lines, "Navigated to: ", screen.name());
    }

    /// Goes back to the main screen and says so.
    pub fn return_to_main(&mut self)
        ensures
            final(self)@ == returned_to_main(old(self)@),
    {
        self.current_screen = Screen::Main;
        push_line(&mut self.output_lines, "Returned to main screen");
    }

    /// Whether the console is still running.
    pub fn is_running(&self) -> (b: bool)
        ensures
            b == self@.running,
    {
        self.running
    }

    /// Stops the console.
    pub fn quit(&mut self)
        ensures
            final(self)@ == (TuiAppView { running: false, ..old(self)@ }),
    {
        self.running = false;
    }

    /// Removes the last typed character, if any.
    pub fn handle_backspace(&mut self)
        ensures
            final(self)@ == backspaced(old(self)@),
    {
        let mut v = chars_of(self.input_buffer.as_str());
        if v.len() > 0 {
            v.pop();
        }
        self.input_buffer = string_from_chars(&v);
    }

    /// Clears the output.
    pub fn clear_output(&mut self)
        ensures
            final(self)@ == (TuiAppView { output: Seq::empty(), ..old(self)@ }),
    {
        self.output_lines.clear();
        assert(strings_view(self.output_lines@) =~= Seq::<Seq<char>>::empty());
    }

    /// Shows the keyboard shortcuts and the commands.
    pub fn show_help(&mut self)
        ensures
            final(self)@ == helped(old(self)@),
    {
        let ghost start = self@;
        push_line(&mut self.output_lines, "");
        push_line(&mut self.output_lines, "Keyboard Shortcuts:");
        push_line(&mut self.output_lines, "");
        let ghost sv = shortcuts_view(self.shortcuts@);
        let ghost base = strings_view(self.output_lines@);
        let mut i: usize = 0;
        while i < self.shortcuts.len()
            invariant
                i <= self.shortcuts@.len(),
                sv == shortcuts_view(self.shortcuts@),
                sv == start.shortcuts,
                self@ == (TuiAppView { output: base + shortcut_lines(sv.take(i as int)), ..start }),
            decreases self.shortcuts@.len() - i,
        {
            let line = shortcut_text(self.shortcuts[i].key.as_str(), self.shortcuts[i].description.as_str());
            assert(sv[i as int] == (self.shortcuts@[i as int].key@, self.shortcuts@[i as int].description@));
            let ghost before = self.output_lines@;
            self.output_lines.push(line);
            assert(strings_view(self.output_lines@) =~= strings_view(before).push(line@));
            assert(shortcut_lines(sv.take(i + 1)) =~= shortcut_lines(sv.take(i as int)).push(line@));
            i = i + 1;
        }
        assert(sv.take(i as int) =~= sv);
        push_line(&mut self.output_lines, "");
        push_line(&mut self.output_lines, "Commands:");
        push_line(&mut self.output_lines, "  /list [filter]    - List password records");
        push_line(&mut self.output_lines, "  /show <name>      - Show a password record");
        push_line(&mut self.output_lines, "  /new              - Create a new record");
        push_line(&mut self.output_lines, "  /update <name>    - Update a record");
        push_line(&mut self.output_lines, "  /delete <name>    - Delete a record");
        push_line(&mut self.output_lines, "  /search <query>   - Search records");
        push_line(&mut self.output_lines, "  /health [flags]   - Check password health");
        push_line(&mut self.output_lines, "  /config [sub]     - Manage configuration");
        push_line(&mut self.output_lines, "  /exit             - Exit TUI");
        push_line(&mut self.output_lines, "");
        assert(self@.output =~= start.output + help_lines(start.shortcuts));
    }
}

/// What a key does to the console before shortcuts are looked up: F2 and
/// F5 open the settings and sync screens, `?` the help, and Esc goes back
/// to the main screen or, there, stops the console.
pub open spec fn navigation_key(v: TuiAppView, code: KeyCode) -> Option<TuiAppView> {
    match code {
        KeyCode::F(2) => Some(navigated(v, Screen::Settings)),
        KeyCode::F(5) => Some(navigated(v, Screen::Sync)),
        KeyCode::Char('?') => Some(helped(navigated(v, Screen::Help))),
        KeyCode::Esc => Some(
            if v.screen != Screen::Main {
                returned_to_main(v)
            } else {
                TuiAppView { running: false, ..v }
            },
        ),
        _ => None,
    }
}

/// The shortcut a key press is bound to: Ctrl with Q, N, L or K quits,
/// starts a new record, lists the records or clears the output; F1 alone
/// shows the help.
pub open spec fn key_binding(key: KeyEvent) -> Option<ShortcutAction> {
    let m = key.modifiers;
    if m.control && !m.alt && !m.shift {
        match key.code {
            KeyCode::Char('q') => Some(ShortcutAction::Quit),
            KeyCode::Char('n') => Some(ShortcutAction::New),
            KeyCode::Char('l') => Some(ShortcutAction::List),
            KeyCode::Char('k') => Some(ShortcutAction::Clear),
            _ => None,
        }
    } else if !m.control && !m.alt && !m.shift {
        match key.code {
            KeyCode::F(1) => Some(ShortcutAction::Help),
            _ => None,
        }
    } else {
        None
    }
}

/// The console after a key event, and what is left to do: on the
/// new-password screen the key belongs to that screen's form and nothing
/// changes here; otherwise the keys that change screens come first, then
/// the key bindings; other keys change nothing.
pub open spec fn key_event_done(v: TuiAppView, key: KeyEvent) -> (TuiAppView, CommandRequestView) {
    if v.screen == Screen::NewPassword {
        (v, CommandRequestView::Nothing)
    } else {
        match navigation_key(v, key.code) {
            Some(w) => (w, CommandRequestView::Nothing),
            None => match key_binding(key) {
                Some(a) => action_done(v, a),
                None => (v, CommandRequestView::Nothing),
            },
        }
    }
}

/// The shortcut a key press is bound to, as [`key_binding`] says.
pub fn key_binding_action(key: KeyEvent) -> (r: Option<ShortcutAction>)
    ensures
        r == key_binding(key),
{
    let m = key.modifiers;
    if m.control && !m.alt && !m.shift {
        match key.code {
            KeyCode::Char('q') => Some(ShortcutAction::Quit),
            KeyCode::Char('n') => Some(ShortcutAction::New),
            KeyCode::Char('l') => Some(ShortcutAction::List),
            KeyCode::Char('k') => Some(ShortcutAction::Clear),
            _ => None,
        }
    } else if !m.control && !m.alt && !m.shift {
        match key.code {
            KeyCode::F(1) => Some(ShortcutAction::Help),
            _ => None,
        }
    } else {
        None
    }
}

fn has_char(v: &Vec<char>, c: char) -> (r: bool)
    ensures
        r == v@.contains(c),
{
    let mut i: usize = 0;
    while i < v.len()
        invariant
            i <= v@.len(),
            forall|k: int| 0 <= k < i ==> v@[k] != c,
        decreases v@.len() - i,
    {
        if v[i] == c {
            assert(v@[i as int] == c);
            return true;
        }
        i = i + 1;
    }
    false
}

fn matching_commands(p: &Vec<char>) -> (r: Vec<&'static str>)
    ensures
        strs_view(r@) == prefixed(command_names(), p@),
{
    let ghost cs = command_names();
    let mut ms: Vec<&'static str> = Vec::new();
    let mut i: usize = 0;
    while i < 14
        invariant
            i <= 14,
            cs == command_names(),
            cs.len() == 14,
            strs_view(ms@) == prefixed(cs.take(i as int), p@),
        decreases 14 - i,
    {
        let c = command_name(i);
        assert(cs.take(i + 1).drop_last() =~= cs.take(i as int));
        assert(cs.take(i + 1).last() == c@);
        let cv = chars_of(c);
        if has_prefix(&cv, p) {
            let ghost before = ms@;
            ms.push(c);
            assert(strs_view(ms@) =~= strs_view(before).push(c@));
        }
        i = i + 1;
    }
    assert(cs.take(14) =~= cs);
    ms
}

fn keyboard_hints_text(width: u16) -> (r: &'static str)
    ensures
        r@ == keyboard_hints(width as nat),
{
    if width >= 100 {
        "Ctrl+N new | Ctrl+L list | Ctrl+Q quit"
    } else if width >= 80 {
        "Ctrl+N new | Ctrl+Q quit"
    } else {
        "Ctrl+Q quit"
    }
}

impl TuiApp {
    /// Completes the command line, as [`autocompleted`] says.
    pub fn handle_autocomplete(&mut self)
        ensures
            final(self)@ == autocompleted(old(self)@),
    {
        let input = chars_of(self.input_buffer.as_str());
        if input.len() == 0 {
            return;
        }
        if input[0] == '/' {
            let ms = matching_commands(&input);
            if ms.len() == 0 {
                self.autocomplete_matches = Vec::new();
                assert(strings_view(self.autocomplete_matches@) =~= Seq::<Seq<char>>::empty());
            } else if ms.len() == 1 {
                self.input_buffer = with_space(ms[0]);
                self.autocomplete_matches = Vec::new();
                assert(strings_view(self.autocomplete_matches@) =~= Seq::<Seq<char>>::empty());
            } else if ms.len() == 2 {
                self.autocomplete_matches = owned_strings(&ms);
                let common = common_prefix_of(ms[0], ms[1]);
                let clen = chars_of(common.as_str()).len();
                if clen > input.len() {
                    self.input_buffer = common;
                } else {
                    self.input_buffer = with_space(ms[0]);
                }
            } else {
                self.autocomplete_matches = owned_strings(&ms);
                let listed = join_strs(&ms, ", ");
                push_line2(&mut self.output_lines, "Matching commands: ", listed.as_str());
                self.input_buffer = with_space(ms[0]);
            }
        } else if has_char(&input, ' ') {
            self.autocomplete_matches = Vec::new();
            assert(strings_view(self.autocomplete_matches@) =~= Seq::<Seq<char>>::empty());
        }
    }

    /// Completes the command line where a vault may hold record names: a
    /// command completes as [`autocompleted`] says; any other line, while a
    /// vault is open (`has_vault`), finds no record name to complete (names
    /// are not read from the vault), so earlier matches are forgotten.
    pub fn handle_autocomplete_with_db(&mut self, has_vault: bool)
        ensures
            ({
                let v = old(self)@;
                if (v.input.len() > 0 && v.input[0] == '/') || !has_vault {
                    final(self)@ == autocompleted(v)
                } else {
                    final(self)@ == (TuiAppView { matches: Seq::empty(), ..v })
                }
            }),
    {
        let input = chars_of(self.input_buffer.as_str());
        if (input.len() > 0 && input[0] == '/') || !has_vault {
            self.handle_autocomplete();
        } else {
            self.autocomplete_matches = Vec::new();
            assert(strings_view(self.autocomplete_matches@) =~= Seq::<Seq<char>>::empty());
        }
    }

    /// Handles a command line: echoes it and does what [`processed`] says;
    /// a vault command is returned for the application to run.
    pub fn process_command(&mut self, cmd: &str) -> (r: CommandRequest)
        ensures
            final(self)@ == processed(old(self)@, cmd@).0,
            r@ == processed(old(self)@, cmd@).1,
    {
        let mut echo = String::from_str("> ");
        push_str(&mut echo, cmd);
        self.add_output(echo);
        let v = chars_of(cmd);
        let (name, args): (&str, Vec<&str>) = match first_space_index(&v) {
            Some(i) => {
                let name = cmd.substring_char(0, i);
                let args = words_of(cmd, i + 1);
                (name, args)
            },
            None => (cmd, Vec::new()),
        };
        assert(name@ == command_parts(cmd@).0);
        assert(strs_view(args@) =~= command_parts(cmd@).1);
        if str_eq(name, "/exit") || str_eq(name, "/quit") {
            self.running = false;
            push_line(&mut self.output_lines, "Goodbye!");
            return CommandRequest::Nothing;
        }
        if str_eq(name, "/help") {
            self.show_help();
            return CommandRequest::Nothing;
        }
        match handler_named(name) {
            Some(h) => CommandRequest::Run { command: h, args: owned_strings(&args) },
            None => {
                let nv = chars_of(name);
                if nv.len() > 0 && nv[0] == '/' {
                    push_line3(&mut self.output_lines, "Unknown command '", name, "'. Type /help for available commands.");
                } else {
                    push_line(&mut self.output_lines, "Unknown command. Type /help for available commands.");
                }
                CommandRequest::Nothing
            },
        }
    }

    /// Shows what a command handler produced: its lines, or its error.
    pub fn apply_command_result(&mut self, outcome: Result<Vec<String>, String>)
        ensures
            final(self)@ == (TuiAppView {
                output: match outcome {
                    Ok(lines) => old(self)@.output + strings_view(lines@),
                    Err(e) => old(self)@.output.push("Error: "@ + e@),
                },
                ..old(self)@
            }),
    {
        match outcome {
            Ok(lines) => {
                let mut more = lines;
                let ghost a = self.output_lines@;
                let ghost b = more@;
                self.output_lines.append(&mut more);
                assert(strings_view(self.output_lines@) =~= strings_view(a) + strings_view(b));
            },
            Err(e) => {
                push_line2(&mut self.output_lines, "Error: ", e.as_str());
            },
        }
    }

    /// Submits the command line, as [`submitted`] says.
    pub fn submit_command(&mut self) -> (r: CommandRequest)
        ensures
            final(self)@ == submitted(old(self)@).0,
            r@ == submitted(old(self)@).1,
    {
        if self.input_buffer.as_str().is_empty() {
            return CommandRequest::Nothing;
        }
        let cmd = self.input_buffer.clone();
        let ghost h0 = strings_view(self.history@);
        if self.history.len() >= MAX_HISTORY {
            self.history.remove(0);
            assert(strings_view(self.history@) =~= h0.drop_first());
        }
        let ghost h1 = self.history@;
        self.history.push(cmd.clone());
        assert(strings_view(self.history@) =~= strings_view(h1).push(cmd@));
        self.history_index = self.history.len();
        self.input_buffer = String::new();
        self.process_command(cmd.as_str())
    }

    /// Handles a typed character, as [`typed`] says.
    pub fn handle_char(&mut self, c: char) -> (r: CommandRequest)
        ensures
            final(self)@ == typed(old(self)@, c).0,
            r@ == typed(old(self)@, c).1,
    {
        if c == '\n' || c == '\r' {
            self.submit_command()
        } else if c == '\t' {
            self.handle_autocomplete();
            CommandRequest::Nothing
        } else if (c as u32) < 0x20 || c as u32 == 0x7f {
            CommandRequest::Nothing
        } else {
            push_char(&mut self.input_buffer, c);
            CommandRequest::Nothing
        }
    }

    /// Carries out a shortcut's action, as [`action_done`] says.
    pub fn execute_action(&mut self, action: ShortcutAction) -> (r: CommandRequest)
        ensures
            final(self)@ == action_done(old(self)@, action).0,
            r@ == action_done(old(self)@, action).1,
    {
        match action {
            ShortcutAction::New => self.process_command("/new"),
            ShortcutAction::List => self.process_command("/list"),
            ShortcutAction::Config => self.process_command("/config"),
            ShortcutAction::Search => {
                push_line(&mut self.output_lines, "Search: ");
                CommandRequest::Nothing
            },
            ShortcutAction::Show => {
                push_line(&mut self.output_lines, "Usage: /show <name>");
                CommandRequest::Nothing
            },
            ShortcutAction::Update => {
                push_line(&mut self.output_lines, "Usage: /update <name>");
                CommandRequest::Nothing
            },
            ShortcutAction::Delete => {
                push_line(&mut self.output_lines, "Usage: /delete <name>");
                CommandRequest::Nothing
            },
            ShortcutAction::Quit => {
                self.quit();
                push_line(&mut self.output_lines, "Goodbye!");
                CommandRequest::Nothing
            },
            ShortcutAction::Help | ShortcutAction::ShowHelp => {
                self.show_help();
                CommandRequest::Nothing
            },
            ShortcutAction::Clear => {
                self.clear_output();
                CommandRequest::Nothing
            },
            ShortcutAction::CopyPassword => {
                push_line(&mut self.output_lines, "Use /show <name> to copy password");
                CommandRequest::Nothing
            },
            ShortcutAction::CopyUsername => {
                push_line(&mut self.output_lines, "Use /show <name> to copy username");
                CommandRequest::Nothing
            },
            ShortcutAction::OpenSettings => {
                self.navigate_to(Screen::Settings);
                push_line(&mut self.output_lines, "Opened settings screen");
                CommandRequest::Nothing
            },
            ShortcutAction::SyncNow => {
                push_line(&mut self.output_lines, "Starting sync...");
                push_line(&mut self.output_lines, "Note: Full sync implementation pending Phase 4");
                CommandRequest::Nothing
            },
            ShortcutAction::RefreshView => {
                push_line(&mut self.output_lines, "Refreshing view...");
                CommandRequest::Nothing
            },
            ShortcutAction::SaveConfig => {
                push_line(&mut self.output_lines, "✓ Configuration saved");
                CommandRequest::Nothing
            },
            ShortcutAction::DisableSync => {
                push_line(&mut self.output_lines, "✓ Sync disabled");
                CommandRequest::Nothing
            },
        }
    }

    /// Handles the keys that change screens, as [`navigation_key`] says;
    /// `false` where the key is none of them and nothing changed.
    pub fn handle_navigation_key(&mut self, code: KeyCode) -> (b: bool)
        ensures
            match navigation_key(old(self)@, code) {
                Some(w) => b && final(self)@ == w,
                None => !b && final(self)@ == old(self)@,
            },
    {
        match code {
            KeyCode::F(2) => {
                self.navigate_to(Screen::Settings);
                true
            },
            KeyCode::F(5) => {
                self.navigate_to(Screen::Sync);
                true
            },
            KeyCode::Char('?') => {
                self.navigate_to(Screen::Help);
                self.show_help();
                true
            },
            KeyCode::Esc => {
                if self.current_screen != Screen::Main {
                    self.return_to_main();
                } else {
                    self.quit();
                }
                true
            },
            _ => false,
        }
    }

    /// Handles a keyboard shortcut event, as [`key_event_done`] says.
    pub fn handle_key_event(&mut self, key: KeyEvent) -> (r: CommandRequest)
        ensures
            final(self)@ == key_event_done(old(self)@, key).0,
            r@ == key_event_done(old(self)@, key).1,
    {
        if self.current_screen == Screen::NewPassword {
            return CommandRequest::Nothing;
        }
        if self.handle_navigation_key(key.code) {
            return CommandRequest::Nothing;
        }
        match key_binding_action(key) {
            Some(a) => self.execute_action(a),
            None => CommandRequest::Nothing,
        }
    }

    /// The pieces of the status line for a terminal `width` columns wide;
    /// `minutes_since_sync` is the number of whole minutes since the last sync.
    pub fn statusline_texts(&self, width: u16, minutes_since_sync: i64) -> (r: Vec<String>)
        ensures
            lines_view(r@) == statusline(self@, width as nat, minutes_since_sync as int),
    {
        let mut out: Vec<String> = Vec::new();
        let sync = self.sync_status.display(minutes_since_sync);
        if width < 60 {
            push_line2(&mut out, " ", sync.as_str());
            assert(lines_view(out@) =~= statusline(self@, width as nat, minutes_since_sync as int));
            return out;
        }
        let mut left = if self.locked {
            String::from_str("🔒")
        } else {
            String::from_str("🔓")
        };
        push_str(&mut left, " ");
        push_decimal(&mut left, self.record_count);
        push_str(&mut left, " rec");
        let ghost before = out@;
        out.push(left);
        assert(lines_view(out@) =~= lines_view(before).push(left@));
        push_line(&mut out, " | ");
        push_line(&mut out, sync.as_str());
        push_line(&mut out, " | ");
        push_line2(&mut out, "v", self.version.as_str());
        push_line(&mut out, " | ");
        push_line(&mut out, keyboard_hints_text(width));
        assert(lines_view(out@) =~= statusline(self@, width as nat, minutes_since_sync as int));
        out
    }
}

/// Adding a line never leaves more than [`MAX_OUTPUT_LINES`] lines, and the
/// line added is the last one; below the limit nothing is dropped.
pub proof fn law_output_bounded(out: Seq<Seq<char>>, line: Seq<char>)
    ensures
        output_added(out, line).len() <= MAX_OUTPUT_LINES,
        output_added(out, line).last() == line,
        out.len() < MAX_OUTPUT_LINES ==> output_added(out, line) == out.push(line),
{
}

/// Submitting a command never lets the history grow past [`MAX_HISTORY`]
/// entries, and a submitted line is the newest entry.
pub proof fn law_history_bounded(v: TuiAppView)
    requires
        v.history.len() <= MAX_HISTORY,
    ensures
        submitted(v).0.history.len() <= MAX_HISTORY,
        v.input.len() > 0 ==> submitted(v).0.history.last() == v.input && submitted(v).0.input.len() == 0,
{
}

/// Typing a printable character and then Backspace gives the command line back.
pub proof fn law_type_then_backspace(v: TuiAppView, c: char)
    requires
        c != '\n' && c != '\r' && c != '\t' && !is_ascii_control(c),
    ensures
        backspaced(typed(v, c).0) == v,
{
    assert(v.input.push(c).drop_last() =~= v.input);
}

/// /exit and /quit stop the console, whatever their arguments.
pub proof fn law_exit_stops(v: TuiAppView, cmd: Seq<char>)
    requires
        command_parts(cmd).0 == "/exit"@ || command_parts(cmd).0 == "/quit"@,
    ensures
        !processed(v, cmd).0.running,
        processed(v, cmd).1 == CommandRequestView::Nothing,
{
}

} // verus!
