//! The /config command.
//!
//! [`handle_config`] decides what a /config line asks for; the application
//! reads or writes the configuration accordingly and turns the outcome into
//! lines with the functions below.
use vstd::prelude::*;
use vstd::string::StringExecFns;
use crate::text::{decimal, push_decimal, push_decimal_u64, push_str, str_eq};
use crate::tui::commands::{join_strs, joined, lines_view, push_line, push_line2, push_line3, strs_view};

verus! {

/// The configuration values /config shows.
#[derive(Debug)]
pub struct ConfigSnapshot {
    pub database_path: String,
    pub encryption_enabled: bool,
    pub sync_enabled: bool,
    pub sync_provider: String,
    pub sync_remote_path: String,
    pub sync_auto: bool,
    /// The conflict resolution as the configuration writes it.
    pub sync_conflict_resolution: String,
    pub clipboard_timeout_seconds: u64,
    pub clipboard_clear_after_copy: bool,
    pub clipboard_max_content_length: usize,
}

/// What a /config line asks for.
#[derive(Debug)]
pub enum ConfigRequest {
    /// List the whole configuration.
    List,
    /// Show the value of a key.
    Get(String),
    /// Store a value under a key.
    Store { key: String, value: String },
    /// Remove the custom configuration.
    Reset,
    /// Nothing to read or write: show these lines.
    Reply(Vec<String>),
}

/// Text of a boolean.
pub open spec fn bool_text(b: bool) -> Seq<char> {
    if b {
        "true"@
    } else {
        "false"@
    }
}

fn bool_str(b: bool) -> (r: &'static str)
    ensures
        r@ == bool_text(b),
{
    if b {
        "true"
    } else {
        "false"
    }
}

/// The keys /config set accepts.
pub open spec fn settable_keys() -> Seq<Seq<char>> {
    seq![
        "sync.path"@,
        "sync.enabled"@,
        "sync.auto"@,
        "sync.provider"@,
        "sync.remote_path"@,
        "sync.conflict_resolution"@,
        "clipboard.timeout"@,
        "clipboard.smart_clear"@,
        "clipboard.clear_after_copy"@,
        "clipboard.max_content_length"@,
        "device_id"@,
    ]
}

/// The usage shown for an unknown subcommand.
pub open spec fn config_usage() -> Seq<Seq<char>> {
    seq![
        "❌ Unknown config subcommand"@,
        ""@,
        "Usage:"@,
        "  /config list              - List all configuration"@,
        "  /config get <key>         - Get a configuration value"@,
        "  /config set <key> <value> - Set a configuration value"@,
        "  /config reset             - Reset configuration to defaults"@,
        ""@,
    ]
}

/// The usage shown for /config set without key and value.
pub open spec fn set_usage() -> Seq<Seq<char>> {
    seq![
        "❌ Error: Key and value required"@,
        "Usage: /config set <key> <value>"@,
        ""@,
        "Valid keys:"@,
        "  sync.path, sync.enabled, sync.auto"@,
        "  sync.provider, sync.remote_path, sync.conflict_resolution"@,
        "  clipboard.timeout, clipboard.smart_clear"@,
        "  clipboard.clear_after_copy, clipboard.max_content_length"@,
        "  device_id"@,
    ]
}

/// The reply to /config set with a key it does not accept.
pub open spec fn invalid_key_reply(key: Seq<char>) -> Seq<Seq<char>> {
    seq![
        "❌ Invalid configuration key '"@ + key + "'"@,
        ""@,
        "Valid keys:"@,
        "  "@ + joined(settable_keys(), "\n  "@),
    ]
}

/// The reply to /config reset without confirmation.
pub open spec fn reset_confirm() -> Seq<Seq<char>> {
    seq![
        "⚠️  This will reset all custom configuration to defaults."@,
        "   Custom configuration keys (starting with 'custom.') will be removed."@,
        ""@,
        "To confirm, use:"@,
        "  /config reset --force"@,
    ]
}

/// Model of a request.
pub enum ConfigRequestView {
    List,
    Get(Seq<char>),
    Store(Seq<char>, Seq<char>),
    Reset,
    Reply(Seq<Seq<char>>),
}

impl View for ConfigRequest {
    type V = ConfigRequestView;

    open spec fn view(&self) -> ConfigRequestView {
        match self {
            ConfigRequest::List => ConfigRequestView::List,
            ConfigRequest::Get(k) => ConfigRequestView::Get(k@),
            ConfigRequest::Store { key, value } => ConfigRequestView::Store(key@, value@),
            ConfigRequest::Reset => ConfigRequestView::Reset,
            ConfigRequest::Reply(v) => ConfigRequestView::Reply(lines_view(v@)),
        }
    }
}

/// What the arguments of /config ask for.
pub open spec fn config_request(args: Seq<Seq<char>>) -> ConfigRequestView {
    if args.len() == 0 {
        ConfigRequestView::List
    } else {
        let sub = args[0];
        let rest = args.skip(1);
        if sub == "list"@ || sub == "ls"@ {
            ConfigRequestView::List
        } else if sub == "set"@ {
            if rest.len() < 2 {
                ConfigRequestView::Reply(set_usage())
            } else if settable_keys().contains(rest[0]) {
                ConfigRequestView::Store(rest[0], joined(rest.skip(1), " "@))
            } else {
                ConfigRequestView::Reply(invalid_key_reply(rest[0]))
            }
        } else if sub == "get"@ {
            if rest.len() == 0 {
                ConfigRequestView::Reply(seq!["❌ Error: Configuration key required"@, "Usage: /config get <key>"@])
            } else {
                ConfigRequestView::Get(rest[0])
            }
        } else if sub == "reset"@ {
            if rest.contains("--force"@) || rest.contains("-f"@) {
                ConfigRequestView::Reset
            } else {
                ConfigRequestView::Reply(reset_confirm())
            }
        } else {
            ConfigRequestView::Reply(config_usage())
        }
    }
}

fn contains_str(v: &Vec<&str>, from: usize, s: &str) -> (r: bool)
    requires
        from <= v@.len(),
    ensures
        r == strs_view(v@).skip(from as int).contains(s@),
{
    let mut i: usize = from;
    while i < v.len()
        invariant
            from <= i <= v@.len(),
            forall|k: int| from <= k < i ==> v@[k]@ != s@,
        decreases v@.len() - i,
    {
        if str_eq(v[i], s) {
            assert(strs_view(v@).skip(from as int)[i - from] == s@);
            return true;
        }
        i = i + 1;
    }
    assert forall|k: int| 0 <= k < strs_view(v@).skip(from as int).len() implies strs_view(v@).skip(from as int)[k]
        != s@ by {
        assert(strs_view(v@).skip(from as int)[k] == v@[k + from]@);
    }
    false
}

fn is_settable(key: &str) -> (r: bool)
    ensures
        r == settable_keys().contains(key@),
{
    let keys: Vec<&str> = vec![
        "sync.path",
        "sync.enabled",
        "sync.auto",
        "sync.provider",
        "sync.remote_path",
        "sync.conflict_resolution",
        "clipboard.timeout",
        "clipboard.smart_clear",
        "clipboard.clear_after_copy",
        "clipboard.max_content_length",
        "device_id",
    ];
    let r = contains_str(&keys, 0, key);
    assert(strs_view(keys@).skip(0) =~= settable_keys());
    r
}

fn reply(lines: Vec<String>) -> (r: ConfigRequest)
    ensures
        r@ == ConfigRequestView::Reply(lines_view(lines@)),
{
    ConfigRequest::Reply(lines)
}

/// Decides what a /config line asks for: listing, getting, setting or
/// resetting; usage errors and an unconfirmed reset are answered directly.
pub fn handle_config(args: Vec<&str>) -> (r: ConfigRequest)
    ensures
        r@ == config_request(strs_view(args@)),
{
    let ghost av = strs_view(args@);
    if args.len() == 0 {
        return ConfigRequest::List;
    }
    let sub = args[0];
    assert(av[0] == sub@);
    let ghost rest = av.skip(1);
    if str_eq(sub, "list") || str_eq(sub, "ls") {
        return ConfigRequest::List;
    }
    if str_eq(sub, "set") {
        if args.len() < 3 {
            let mut out: Vec<String> = Vec::new();
            push_line(&mut out, "❌ Error: Key and value required");
            push_line(&mut out, "Usage: /config set <key> <value>");
            push_line(&mut out, "");
            push_line(&mut out, "Valid keys:");
            push_line(&mut out, "  sync.path, sync.enabled, sync.auto");
            push_line(&mut out, "  sync.provider, sync.remote_path, sync.conflict_resolution");
            push_line(&mut out, "  clipboard.timeout, clipboard.smart_clear");
            push_line(&mut out, "  clipboard.clear_after_copy, clipboard.max_content_length");
            push_line(&mut out, "  device_id");
            assert(lines_view(out@) =~= set_usage());
            return reply(out);
        }
        let key = args[1];
        assert(rest[0] == key@);
        if !is_settable(key) {
            let mut out: Vec<String> = Vec::new();
            push_line3(&mut out, "❌ Invalid configuration key '", key, "'");
            push_line(&mut out, "");
            push_line(&mut out, "Valid keys:");
            push_line(&mut out, "  sync.path\n  sync.enabled\n  sync.auto\n  sync.provider\n  sync.remote_path\n  sync.conflict_resolution\n  clipboard.timeout\n  clipboard.smart_clear\n  clipboard.clear_after_copy\n  clipboard.max_content_length\n  device_id");
            proof {
                reveal_strlit("  sync.path\n  sync.enabled\n  sync.auto\n  sync.provider\n  sync.remote_path\n  sync.conflict_resolution\n  clipboard.timeout\n  clipboard.smart_clear\n  clipboard.clear_after_copy\n  clipboard.max_content_length\n  device_id");
                lemma_settable_joined();
            }
            assert(lines_view(out@) =~= invalid_key_reply(key@));
            return reply(out);
        }
        let mut tail: Vec<&str> = Vec::new();
        let mut i: usize = 2;
        while i < args.len()
            invariant
                2 <= i <= args@.len(),
                av == strs_view(args@),
                strs_view(tail@) == av.skip(2).take(i - 2),
            decreases args@.len() - i,
        {
            let ghost before = tail@;
            tail.push(args[i]);
            assert(strs_view(tail@) =~= strs_view(before).push(args@[i as int]@));
            assert(av[i as int] == args@[i as int]@);
            i = i + 1;
            assert(strs_view(tail@) =~= av.skip(2).take(i - 2));
        }
        assert(av.skip(2).take(i - 2) =~= rest.skip(1));
        let value = join_strs(&tail, " ");
        return ConfigRequest::Store { key: String::from_str(key), value };
    }
    if str_eq(sub, "get") {
        if args.len() < 2 {
            let mut out: Vec<String> = Vec::new();
            push_line(&mut out, "❌ Error: Configuration key required");
            push_line(&mut out, "Usage: /config get <key>");
            assert(lines_view(out@) =~= seq!["❌ Error: Configuration key required"@, "Usage: /config get <key>"@]);
            return reply(out);
        }
        assert(rest[0] == args@[1]@);
        return ConfigRequest::Get(String::from_str(args[1]));
    }
    if str_eq(sub, "reset") {
        let force = contains_str(&args, 1, "--force") || contains_str(&args, 1, "-f");
        if force {
            return ConfigRequest::Reset;
        }
        let mut out: Vec<String> = Vec::new();
        push_line(&mut out, "⚠️  This will reset all custom configuration to defaults.");
        push_line(&mut out, "   Custom configuration keys (starting with 'custom.') will be removed.");
        push_line(&mut out, "");
        push_line(&mut out, "To confirm, use:");
        push_line(&mut out, "  /config reset --force");
        assert(lines_view(out@) =~= reset_confirm());
        return reply(out);
    }
    let mut out: Vec<String> = Vec::new();
    push_line(&mut out, "❌ Unknown config subcommand");
    push_line(&mut out, "");
    push_line(&mut out, "Usage:");
    push_line(&mut out, "  /config list              - List all configuration");
    push_line(&mut out, "  /config get <key>         - Get a configuration value");
    push_line(&mut out, "  /config set <key> <value> - Set a configuration value");
    push_line(&mut out, "  /config reset             - Reset configuration to defaults");
    push_line(&mut out, "");
    assert(lines_view(out@) =~= config_usage());
    reply(out)
}

proof fn lemma_settable_joined()
    ensures
        "  "@ + joined(settable_keys(), "\n  "@)
            == "  sync.path\n  sync.enabled\n  sync.auto\n  sync.provider\n  sync.remote_path\n  sync.conflict_resolution\n  clipboard.timeout\n  clipboard.smart_clear\n  clipboard.clear_after_copy\n  clipboard.max_content_length\n  device_id"@,
{
    reveal_strlit("  ");
    reveal_strlit("\n  ");
    reveal_strlit("sync.path");
    reveal_strlit("sync.enabled");
    reveal_strlit("sync.auto");
    reveal_strlit("sync.provider");
    reveal_strlit("sync.remote_path");
    reveal_strlit("sync.conflict_resolution");
    reveal_strlit("clipboard.timeout");
    reveal_strlit("clipboard.smart_clear");
    reveal_strlit("clipboard.clear_after_copy");
    reveal_strlit("clipboard.max_content_length");
    reveal_strlit("device_id");
    reveal_strlit("  sync.path\n  sync.enabled\n  sync.auto\n  sync.provider\n  sync.remote_path\n  sync.conflict_resolution\n  clipboard.timeout\n  clipboard.smart_clear\n  clipboard.clear_after_copy\n  clipboard.max_content_length\n  device_id");
    let k = settable_keys();
    reveal_with_fuel(joined, 12);
    assert("  "@ + joined(k, "\n  "@) =~= "  sync.path\n  sync.enabled\n  sync.auto\n  sync.provider\n  sync.remote_path\n  sync.conflict_resolution\n  clipboard.timeout\n  clipboard.smart_clear\n  clipboard.clear_after_copy\n  clipboard.max_content_length\n  device_id"@);
}

/// The listing of the whole configuration.
pub open spec fn config_listing(c: ConfigSnapshot) -> Seq<Seq<char>> {
    seq![
        "⚙️  Configuration"@,
        "━━━━━━━━━━━━━━━━━━━━━━━━━━━━━━━━━━━━━━━━"@,
        ""@,
        "[Database]"@,
        "  database.path = "@ + c.database_path@,
        "  database.encryption_enabled = "@ + bool_text(c.encryption_enabled),
        ""@,
        "[Sync]"@,
        "  sync.enabled = "@ + bool_text(c.sync_enabled),
        "  sync.provider = "@ + c.sync_provider@,
        "  sync.remote_path = "@ + c.sync_remote_path@,
        "  sync.auto = "@ + bool_text(c.sync_auto),
        "  sync.conflict_resolution = "@ + c.sync_conflict_resolution@,
        ""@,
        "[Clipboard]"@,
        "  clipboard.timeout = "@ + decimal(c.clipboard_timeout_seconds as nat) + " seconds"@,
        "  clipboard.clear_after_copy = "@ + bool_text(c.clipboard_clear_after_copy),
        "  clipboard.max_content_length = "@ + decimal(c.clipboard_max_content_length as nat),
    ]
}

/// Lists the whole configuration.
pub fn config_list_lines(c: &ConfigSnapshot) -> (r: Vec<String>)
    ensures
        lines_view(r@) == config_listing(*c),
{
    let mut out: Vec<String> = Vec::new();
    push_line(&mut out, "⚙️  Configuration");
    push_line(&mut out, "━━━━━━━━━━━━━━━━━━━━━━━━━━━━━━━━━━━━━━━━");
    push_line(&mut out, "");
    push_line(&mut out, "[Database]");
    push_line2(&mut out, "  database.path = ", c.database_path.as_str());
    push_line2(&mut out, "  database.encryption_enabled = ", bool_str(c.encryption_enabled));
    push_line(&mut out, "");
    push_line(&mut out, "[Sync]");
    push_line2(&mut out, "  sync.enabled = ", bool_str(c.sync_enabled));
    push_line2(&mut out, "  sync.provider = ", c.sync_provider.as_str());
    push_line2(&mut out, "  sync.remote_path = ", c.sync_remote_path.as_str());
    push_line2(&mut out, "  sync.auto = ", bool_str(c.sync_auto));
    push_line2(&mut out, "  sync.conflict_resolution = ", c.sync_conflict_resolution.as_str());
    push_line(&mut out, "");
    push_line(&mut out, "[Clipboard]");
    let mut t = String::new();
    push_decimal_u64(&mut t, c.clipboard_timeout_seconds);
    push_line3(&mut out, "  clipboard.timeout = ", t.as_str(), " seconds");
    push_line2(&mut out, "  clipboard.clear_after_copy = ", bool_str(c.clipboard_clear_after_copy));
    let mut m = String::new();
    push_decimal(&mut m, c.clipboard_max_content_length);
    push_line2(&mut out, "  clipboard.max_content_length = ", m.as_str());
    assert(t@ =~= decimal(c.clipboard_timeout_seconds as nat));
    assert(m@ =~= decimal(c.clipboard_max_content_length as nat));
    assert(lines_view(out@) =~= config_listing(*c));
    out
}

/// Whether /config get knows `key`.
pub open spec fn is_known(key: Seq<char>) -> bool {
    key == "sync.enabled"@ || key == "sync.provider"@ || key == "sync.remote_path"@ || key == "sync.auto"@ || key
        == "sync.conflict_resolution"@ || key == "clipboard.timeout"@ || key == "database.path"@
}

/// The line for a key /config get knows, or `None` for other keys.
pub open spec fn known_value(key: Seq<char>, c: ConfigSnapshot) -> Option<Seq<char>> {
    if key == "sync.enabled"@ {
        Some("sync.enabled = "@ + bool_text(c.sync_enabled))
    } else if key == "sync.provider"@ {
        Some("sync.provider = "@ + c.sync_provider@)
    } else if key == "sync.remote_path"@ {
        Some("sync.remote_path = "@ + c.sync_remote_path@)
    } else if key == "sync.auto"@ {
        Some("sync.auto = "@ + bool_text(c.sync_auto))
    } else if key == "sync.conflict_resolution"@ {
        Some("sync.conflict_resolution = "@ + c.sync_conflict_resolution@)
    } else if key == "clipboard.timeout"@ {
        Some("clipboard.timeout = "@ + decimal(c.clipboard_timeout_seconds as nat) + " seconds"@)
    } else if key == "database.path"@ {
        Some("database.path = "@ + c.database_path@)
    } else {
        None
    }
}

/// Whether /config get answers `key` from the configuration itself rather
/// than from the vault's stored values.
pub fn is_known_key(key: &str) -> (r: bool)
    ensures
        r == is_known(key@),
{
    str_eq(key, "sync.enabled") || str_eq(key, "sync.provider") || str_eq(key, "sync.remote_path") || str_eq(
        key,
        "sync.auto",
    ) || str_eq(key, "sync.conflict_resolution") || str_eq(key, "clipboard.timeout") || str_eq(key, "database.path")
}

/// The reply to /config get: known keys from the configuration; other keys
/// from `stored`, the value the vault holds under the key, if any.
pub open spec fn get_reply(key: Seq<char>, c: ConfigSnapshot, stored: Option<Seq<char>>) -> Seq<Seq<char>> {
    match known_value(key, c) {
        Some(line) => seq![line],
        None => match stored {
            Some(v) => seq![key + " = "@ + v],
            None => seq![
                "❌ Unknown configuration key: '"@ + key + "'"@,
                ""@,
                "Valid keys:"@,
                "  sync.enabled, sync.provider, sync.remote_path"@,
                "  sync.auto, sync.conflict_resolution"@,
                "  clipboard.timeout, database.path"@,
            ],
        },
    }
}

/// Answers /config get for `key`.
pub fn config_get_lines(key: &str, c: &ConfigSnapshot, stored: Option<String>) -> (r: Vec<String>)
    ensures
        lines_view(r@) == get_reply(
            key@,
            *c,
            match stored {
                Some(v) => Some(v@),
                None => None,
            },
        ),
{
    let mut out: Vec<String> = Vec::new();
    if str_eq(key, "sync.enabled") {
        push_line2(&mut out, "sync.enabled = ", bool_str(c.sync_enabled));
    } else if str_eq(key, "sync.provider") {
        push_line2(&mut out, "sync.provider = ", c.sync_provider.as_str());
    } else if str_eq(key, "sync.remote_path") {
        push_line2(&mut out, "sync.remote_path = ", c.sync_remote_path.as_str());
    } else if str_eq(key, "sync.auto") {
        push_line2(&mut out, "sync.auto = ", bool_str(c.sync_auto));
    } else if str_eq(key, "sync.conflict_resolution") {
        push_line2(&mut out, "sync.conflict_resolution = ", c.sync_conflict_resolution.as_str());
    } else if str_eq(key, "clipboard.timeout") {
        let mut t = String::new();
        push_decimal_u64(&mut t, c.clipboard_timeout_seconds);
        push_line3(&mut out, "clipboard.timeout = ", t.as_str(), " seconds");
        assert(t@ =~= decimal(c.clipboard_timeout_seconds as nat));
    } else if str_eq(key, "database.path") {
        push_line2(&mut out, "database.path = ", c.database_path.as_str());
    } else {
        match &stored {
            Some(v) => push_line3(&mut out, key, " = ", v.as_str()),
            None => {
                push_line3(&mut out, "❌ Unknown configuration key: '", key, "'");
                push_line(&mut out, "");
                push_line(&mut out, "Valid keys:");
                push_line(&mut out, "  sync.enabled, sync.provider, sync.remote_path");
                push_line(&mut out, "  sync.auto, sync.conflict_resolution");
                push_line(&mut out, "  clipboard.timeout, database.path");
            },
        }
    }
    assert(lines_view(out@) =~= get_reply(
        key@,
        *c,
        match stored {
            Some(v) => Some(v@),
            None => None,
        },
    ));
    out
}

/// The reply after storing `value` under `key`.
pub fn config_set_lines(key: &str, value: &str) -> (r: Vec<String>)
    ensures
        lines_view(r@) == seq!["⚙️  Set: "@ + key@ + " = "@ + value@, "✓ Configuration saved successfully"@],
{
    let mut out: Vec<String> = Vec::new();
    let mut s = String::from_str("⚙️  Set: ");
    push_str(&mut s, key);
    push_str(&mut s, " = ");
    push_str(&mut s, value);
    push_line(&mut out, s.as_str());
    push_line(&mut out, "✓ Configuration saved successfully");
    assert(lines_view(out@) =~= seq!["⚙️  Set: "@ + key@ + " = "@ + value@, "✓ Configuration saved successfully"@]);
    out
}

/// The reply after removing `cleared` custom configuration values.
pub fn config_reset_lines(cleared: usize) -> (r: Vec<String>)
    ensures
        cleared == 0 ==> lines_view(r@) == seq!["🔄 Configuration reset to defaults"@, "   No custom configuration to clear"@],
        cleared > 0 ==> lines_view(r@) == seq![
            "🔄 Configuration reset to defaults"@,
            "   ✓ Cleared "@ + decimal(cleared as nat) + " custom configuration value(s)"@,
        ],
{
    let mut out: Vec<String> = Vec::new();
    push_line(&mut out, "🔄 Configuration reset to defaults");
    if cleared == 0 {
        push_line(&mut out, "   No custom configuration to clear");
        assert(lines_view(out@) =~= seq!["🔄 Configuration reset to defaults"@, "   No custom configuration to clear"@]);
    } else {
        let mut n = String::new();
        push_decimal(&mut n, cleared);
        push_line3(&mut out, "   ✓ Cleared ", n.as_str(), " custom configuration value(s)");
        assert(n@ =~= decimal(cleared as nat));
        assert(lines_view(out@) =~= seq![
            "🔄 Configuration reset to defaults"@,
            "   ✓ Cleared "@ + decimal(cleared as nat) + " custom configuration value(s)"@,
        ]);
    }
    out
}

} // verus!
