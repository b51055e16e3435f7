use keyring_tui::tui::signals::{password_saved_notification, PasswordFormKind};
use keyring_tui::tui::signals::{
    confirmed_action_notification, parse_toast_signal, signal_notification, ConfirmedOutcome, NotificationLevel,
    StoreOutcome, ToastSignal,
};
use keyring_tui::tui::signals::{
    clipboard_copy_notification, copy_notification, no_username_notification, ClipboardOutcome, CopyTarget,
};
use keyring_tui::ConfirmAction;

#[test]
fn signals_are_parsed() {
    assert!(matches!(parse_toast_signal("__create_group:Work"), ToastSignal::CreateGroup(n) if n == "Work"));
    assert!(matches!(parse_toast_signal("__create_group:a:b"), ToastSignal::CreateGroup(n) if n == "a:b"));
    assert!(matches!(
        parse_toast_signal("__rename_group:42:New: name"),
        ToastSignal::RenameGroup { id, name } if id == "42" && name == "New: name"
    ));
    assert!(matches!(parse_toast_signal("__rename_group:nocolon"), ToastSignal::Malformed));
    assert!(matches!(
        parse_toast_signal("__move_password:p1:g2"),
        ToastSignal::MovePassword { password_id, group_id: Some(g) } if password_id == "p1" && g == "g2"
    ));
    assert!(matches!(
        parse_toast_signal("__move_password:p1:"),
        ToastSignal::MovePassword { password_id, group_id: None } if password_id == "p1"
    ));
    assert!(matches!(parse_toast_signal("__show_group_picker"), ToastSignal::ShowGroupPicker));
    assert!(matches!(parse_toast_signal("Saved"), ToastSignal::Notify(m) if m == "Saved"));
    assert!(matches!(parse_toast_signal("__create_group"), ToastSignal::Notify(_)));
}

#[test]
fn signal_notifications() {
    let create = parse_toast_signal("__create_group:Work");
    let n = signal_notification(&create, StoreOutcome::Done("Work".to_string())).unwrap();
    assert_eq!(n.level, NotificationLevel::Success);
    assert_eq!(n.message, "Group 'Work' created");
    let n = signal_notification(&create, StoreOutcome::Failed("exists".to_string())).unwrap();
    assert_eq!(n.level, NotificationLevel::Error);
    assert_eq!(n.message, "Failed to create group: exists");
    let n = signal_notification(&create, StoreOutcome::Locked).unwrap();
    assert_eq!(n.message, "Database locked");
    assert!(signal_notification(&create, StoreOutcome::Unavailable).is_none());

    let rename = parse_toast_signal("__rename_group:1:x");
    assert_eq!(signal_notification(&rename, StoreOutcome::Done(String::new())).unwrap().message, "Group renamed");
    let mv = parse_toast_signal("__move_password:1:2");
    assert_eq!(
        signal_notification(&mv, StoreOutcome::Failed("gone".to_string())).unwrap().message,
        "Failed to move: gone"
    );
    let plain = parse_toast_signal("Hello");
    let n = signal_notification(&plain, StoreOutcome::Unavailable).unwrap();
    assert_eq!(n.level, NotificationLevel::Info);
    assert_eq!(n.message, "Hello");
    assert!(signal_notification(&ToastSignal::ShowGroupPicker, StoreOutcome::Locked).is_none());
}

#[test]
fn confirmed_action_notifications() {
    let del = ConfirmAction::DeletePassword { password_id: "1".to_string(), password_name: "Mail".to_string() };
    let n = confirmed_action_notification(&del, ConfirmedOutcome::Deleted { done: true, known_name: None }).unwrap();
    assert_eq!(n.message, "\"Mail\" moved to trash");
    let n = confirmed_action_notification(&del, ConfirmedOutcome::Deleted { done: false, known_name: None }).unwrap();
    assert_eq!(n.level, NotificationLevel::Error);
    assert_eq!(n.message, "Failed to delete \"Mail\"");

    let perm = ConfirmAction::PermanentDelete("abc".to_string());
    let n = confirmed_action_notification(&perm, ConfirmedOutcome::Deleted { done: true, known_name: None }).unwrap();
    assert_eq!(n.message, "\"abc\" permanently deleted");
    let n = confirmed_action_notification(
        &perm,
        ConfirmedOutcome::Deleted { done: true, known_name: Some("Bank".to_string()) },
    )
    .unwrap();
    assert_eq!(n.message, "\"Bank\" permanently deleted");
    assert!(confirmed_action_notification(&perm, ConfirmedOutcome::Deleted { done: false, known_name: None }).is_none());

    let n = confirmed_action_notification(&ConfirmAction::EmptyTrash, ConfirmedOutcome::TrashEmptied(7)).unwrap();
    assert_eq!(n.message, "Trash emptied (7 deleted)");

    let group = ConfirmAction::DeleteGroup { group_id: "g".to_string(), group_name: "Work".to_string() };
    let n = confirmed_action_notification(&group, ConfirmedOutcome::Group(StoreOutcome::Done(String::new()))).unwrap();
    assert_eq!(n.message, "Group 'Work' deleted");
    let n = confirmed_action_notification(&group, ConfirmedOutcome::Group(StoreOutcome::Failed("busy".to_string())))
        .unwrap();
    assert_eq!(n.message, "Failed to delete group: busy");
    assert!(confirmed_action_notification(&ConfirmAction::Generic, ConfirmedOutcome::TrashEmptied(1)).is_none());
}

#[test]
fn clipboard_notifications() {
    let n = copy_notification(CopyTarget::Password, ClipboardOutcome::Copied);
    assert_eq!((n.level, n.message.as_str()), (NotificationLevel::Info, "Password copied to clipboard (30s)"));
    let n = copy_notification(CopyTarget::Username, ClipboardOutcome::Copied);
    assert_eq!(n.message, "Username copied to clipboard");
    let n = copy_notification(CopyTarget::Username, ClipboardOutcome::CopyFailed("busy".to_string()));
    assert_eq!((n.level, n.message.as_str()), (NotificationLevel::Error, "Failed to copy username: busy"));
    let n = copy_notification(CopyTarget::Password, ClipboardOutcome::Unavailable("no display".to_string()));
    assert_eq!((n.level, n.message.as_str()), (NotificationLevel::Warning, "Clipboard not available: no display"));
    assert_eq!(no_username_notification().message, "No username to copy");
    let n = clipboard_copy_notification(CopyTarget::Username, 45, Some(Ok(())));
    assert_eq!((n.level, n.message.as_str()), (NotificationLevel::Success, "Username copied (clears in 45s)"));
    let n = clipboard_copy_notification(CopyTarget::Other, 5, Some(Ok(())));
    assert_eq!(n.message, "Copied (clears in 5s)");
    let n = clipboard_copy_notification(CopyTarget::Password, 5, Some(Err("x".to_string())));
    assert_eq!(n.message, "Clipboard error: x");
    let n = clipboard_copy_notification(CopyTarget::Password, 5, None);
    assert_eq!((n.level, n.message.as_str()), (NotificationLevel::Warning, "Clipboard not available"));
}

#[test]
fn password_form_notifications() {
    let n = password_saved_notification(PasswordFormKind::New, "Mail", true);
    assert_eq!((n.level, n.message.as_str()), (NotificationLevel::Success, "Password 'Mail' created"));
    let n = password_saved_notification(PasswordFormKind::Edit, "Mail", true);
    assert_eq!(n.message, "Password 'Mail' updated");
    let n = password_saved_notification(PasswordFormKind::New, "Mail", false);
    assert_eq!((n.level, n.message.as_str()), (NotificationLevel::Error, "Failed to save password 'Mail'"));
    let n = password_saved_notification(PasswordFormKind::Edit, "Mail", false);
    assert_eq!(n.message, "Failed to update password 'Mail'");
}
