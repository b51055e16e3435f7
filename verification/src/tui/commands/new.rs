//! The /new command.
use vstd::prelude::*;
use vstd::string::StringExecFns;
use crate::error::KeyringError;
use crate::sync::records::{strings_view, RecordType, StoredRecord, Timestamp};
use crate::tui::commands::{lines_view, opt_text, push_line, push_line2, RecordPayload};

verus! {

/// The help shown for /new.
pub open spec fn new_help() -> Seq<Seq<char>> {
    seq![
        "📝 Create New Password Record"@,
        ""@,
        "The /new command creates a new password record."@,
        ""@,
        "In CLI mode, use: ok new --name <record-name>"@,
        ""@,
        "Examples:"@,
        "  ok new --name github --username user@example.com"@,
        "  ok new --name email -p --memorable"@,
        "  ok new --name bank --pin --length 6"@,
        ""@,
        "Options:"@,
        "  --name <name>      Record name (required)"@,
        "  --username <user>  Username"@,
        "  --url <url>        Website URL"@,
        "  --notes <notes>    Notes"@,
        "  --tags <tags>      Comma-separated tags"@,
        "  --length <n>       Password length (default: 16)"@,
        "  --memorable        Generate word-based password"@,
        "  --pin              Generate PIN code"@,
        "  --copy             Copy to clipboard after generation"@,
        ""@,
        "For full help: ok new --help"@,
    ]
}

/// The help for creating a record; records are created from the command line.
pub fn handle_new() -> (r: Result<Vec<String>, KeyringError>)
    ensures
        r is Ok,
        lines_view(r->Ok_0@) == new_help(),
{
    let mut out: Vec<String> = Vec::new();
    push_line(&mut out, "📝 Create New Password Record");
    push_line(&mut out, "");
    push_line(&mut out, "The /new command creates a new password record.");
    push_line(&mut out, "");
    push_line(&mut out, "In CLI mode, use: ok new --name <record-name>");
    push_line(&mut out, "");
    push_line(&mut out, "Examples:");
    push_line(&mut out, "  ok new --name github --username user@example.com");
    push_line(&mut out, "  ok new --name email -p --memorable");
    push_line(&mut out, "  ok new --name bank --pin --length 6");
    push_line(&mut out, "");
    push_line(&mut out, "Options:");
    push_line(&mut out, "  --name <name>      Record name (required)");
    push_line(&mut out, "  --username <user>  Username");
    push_line(&mut out, "  --url <url>        Website URL");
    push_line(&mut out, "  --notes <notes>    Notes");
    push_line(&mut out, "  --tags <tags>      Comma-separated tags");
    push_line(&mut out, "  --length <n>       Password length (default: 16)");
    push_line(&mut out, "  --memorable        Generate word-based password");
    push_line(&mut out, "  --pin              Generate PIN code");
    push_line(&mut out, "  --copy             Copy to clipboard after generation");
    push_line(&mut out, "");
    push_line(&mut out, "For full help: ok new --help");
    assert(lines_view(out@) =~= new_help());
    Ok(out)
}

/// How a new record's password is generated.
#[derive(Debug, Clone, Copy, PartialEq, Eq, Structural)]
pub enum PasswordType {
    Random,
    Memorable,
    Pin,
}

/// The name of a password type.
pub open spec fn password_type_name(t: PasswordType) -> Seq<char> {
    match t {
        PasswordType::Random => "Random"@,
        PasswordType::Memorable => "Memorable"@,
        PasswordType::Pin => "Pin"@,
    }
}

fn password_type_text(t: PasswordType) -> (r: &'static str)
    ensures
        r@ == password_type_name(t),
{
    match t {
        PasswordType::Random => "Random",
        PasswordType::Memorable => "Memorable",
        PasswordType::Pin => "Pin",
    }
}

/// What is shown once a record was created with a generated password.
pub open spec fn created_lines(name: Seq<char>, password: Seq<char>, t: PasswordType) -> Seq<Seq<char>> {
    seq![
        "✅ Record created successfully!"@,
        ""@,
        "Name: "@ + name,
        "Password: "@ + password,
        "Type: "@ + password_type_name(t),
        ""@,
    ]
}

/// Creates the payload of a new record around the generated `password`, and
/// the lines shown once the application has stored it.
pub fn create_record(
    name: &str,
    password_type: PasswordType,
    password: &str,
    username: Option<String>,
    url: Option<String>,
    notes: Option<String>,
    tags: Vec<String>,
) -> (r: (RecordPayload, Vec<String>))
    ensures
        r.0.name@ == name@,
        r.0.password@ == password@,
        r.0@.username == opt_text(username),
        r.0@.url == opt_text(url),
        r.0@.notes == opt_text(notes),
        r.0@.tags == strings_view(tags@),
        lines_view(r.1@) == created_lines(name@, password@, password_type),
{
    let payload = RecordPayload {
        name: String::from_str(name),
        username,
        password: String::from_str(password),
        url,
        notes,
        tags,
    };
    let mut out: Vec<String> = Vec::new();
    push_line(&mut out, "✅ Record created successfully!");
    push_line(&mut out, "");
    push_line2(&mut out, "Name: ", name);
    push_line2(&mut out, "Password: ", password);
    push_line2(&mut out, "Type: ", password_type_text(password_type));
    push_line(&mut out, "");
    assert(lines_view(out@) =~= created_lines(name@, password@, password_type));
    (payload, out)
}

/// A new password record as the vault stores it: version 1, created and
/// updated at `now`, with the payload encrypted under `nonce`.
pub fn new_stored_record(id: u128, encrypted_data: Vec<u8>, nonce: [u8; 12], tags: Vec<String>, now: Timestamp) -> (r: StoredRecord)
    ensures
        r.id == id,
        r.record_type == RecordType::Password,
        r.encrypted_data@ == encrypted_data@,
        r.nonce@ == nonce@,
        strings_view(r.tags@) == strings_view(tags@),
        r.created_at == now,
        r.updated_at == now,
        r.version == 1,
{
    StoredRecord {
        id,
        record_type: RecordType::Password,
        encrypted_data,
        nonce,
        tags,
        created_at: now,
        updated_at: now,
        version: 1,
    }
}

} // verus!
