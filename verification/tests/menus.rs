use swarm_sync::board::NavKey;
use swarm_sync::enums::log::{LogActionEnum, LogLevelEnum};
use swarm_sync::enums::system::SystemModuleEnum;
use swarm_sync::logs::DBLogEntry;
use swarm_sync::menus::{
    apply_log_edit, ends_browsing, is_blank, log_list_choice, module_browser_step,
    module_description, optional_answer, paginate_offset, read_id_answer, user_page_offset,
    IdAnswer, LogEdit, LogListChoice, ModuleBrowser, PageAction,
};

#[test]
fn user_pages() {
    assert_eq!(user_page_offset(0, 10, PageAction::Next), 10);
    assert_eq!(user_page_offset(10, 10, PageAction::Prev), 0);
    assert_eq!(user_page_offset(5, 10, PageAction::Prev), 0);
    assert_eq!(user_page_offset(25, 10, PageAction::Prev), 15);
}

#[test]
fn log_pages() {
    assert_eq!(paginate_offset(0, 10, 0), 10);
    assert_eq!(paginate_offset(20, 10, 1), 10);
    assert_eq!(paginate_offset(0, 10, 1), -10);
    assert_eq!(paginate_offset(i64::MIN, 10, 1), i64::MIN);
    assert_eq!(paginate_offset(30, 10, 7), 30);
}

#[test]
fn log_list_choices() {
    assert_eq!(log_list_choice(0, 2), LogListChoice::Manage(0));
    assert_eq!(log_list_choice(2, 2), LogListChoice::NextPage);
    assert_eq!(log_list_choice(3, 2), LogListChoice::PrevPage);
    assert_eq!(log_list_choice(4, 2), LogListChoice::Back);
    assert!(ends_browsing(LogListChoice::Manage(1)));
    assert!(ends_browsing(LogListChoice::Back));
    assert!(!ends_browsing(LogListChoice::NextPage));
    assert!(!ends_browsing(LogListChoice::PrevPage));
}

#[test]
fn module_browser() {
    let b = ModuleBrowser { selected: 0, log_offset: 0 };
    let up = module_browser_step(b, NavKey::Up);
    assert_eq!(up.selected, 5);
    assert_eq!(module_browser_step(up, NavKey::Down), b);
    assert_eq!(module_browser_step(b, NavKey::Right).log_offset, 5);
    assert_eq!(module_browser_step(b, NavKey::Left).log_offset, -5);
    let far = ModuleBrowser { selected: 2, log_offset: i64::MAX };
    assert_eq!(module_browser_step(far, NavKey::Right).log_offset, i64::MAX);
    assert_eq!(module_description(SystemModuleEnum::Hibernator), "Hibernator: sleeps until cron due.");
}

#[test]
fn answers() {
    assert!(is_blank(""));
    assert!(is_blank(" \t\n"));
    assert!(!is_blank(" x "));
    assert_eq!(optional_answer("  ".to_string()), None);
    assert_eq!(optional_answer(" ip ".to_string()), Some(" ip ".to_string()));
    assert_eq!(read_id_answer("BaCk"), IdAnswer::Back);
    assert_eq!(read_id_answer("42"), IdAnswer::Id(42));
    assert_eq!(read_id_answer(" 42"), IdAnswer::Invalid);
    assert_eq!(read_id_answer("backs"), IdAnswer::Invalid);
}

fn entry() -> DBLogEntry {
    DBLogEntry {
        id: 3,
        created_at: 1,
        level: LogLevelEnum::Info,
        module: SystemModuleEnum::Receiver,
        action: LogActionEnum::ClientConnected,
        expires_at: 2,
        client_connected_ip: Some("1.1.1.1".to_string()),
        client_connected_username: None,
        job_submitted_job_id: None,
        job_submitted_from_module: None,
        job_submitted_to_module: None,
        job_completed_job_id: Some(9),
        job_completed_success: Some(true),
        custom_msg: None,
    }
}

#[test]
fn log_edit_keeps_blank_answers() {
    let e = apply_log_edit(
        entry(),
        LogEdit {
            level: None,
            module_choice: 0,
            action: None,
            expires_text: " ".to_string(),
            client_ip: "".to_string(),
            client_username: "  ".to_string(),
            custom_msg: String::new(),
        },
    );
    assert_eq!(e.level, LogLevelEnum::Info);
    assert_eq!(e.module, SystemModuleEnum::Receiver);
    assert_eq!(e.expires_at, 2);
    assert_eq!(e.client_connected_ip.as_deref(), Some("1.1.1.1"));
    assert!(e.client_connected_username.is_none());
    assert_eq!(e.job_completed_job_id, Some(9));
}

#[test]
fn log_edit_applies_answers() {
    let e = apply_log_edit(
        entry(),
        LogEdit {
            level: Some(LogLevelEnum::Fatal),
            module_choice: 5,
            action: Some(LogActionEnum::Custom),
            expires_text: "2024-01-02 03:04:05".to_string(),
            client_ip: "2.2.2.2".to_string(),
            client_username: "bob".to_string(),
            custom_msg: "note".to_string(),
        },
    );
    assert_eq!(e.level, LogLevelEnum::Fatal);
    assert_eq!(e.module, SystemModuleEnum::Scheduler);
    assert_eq!(e.action, LogActionEnum::Custom);
    assert_eq!(e.expires_at, 1_704_164_645_000_000);
    assert_eq!(e.client_connected_ip.as_deref(), Some("2.2.2.2"));
    assert_eq!(e.client_connected_username.as_deref(), Some("bob"));
    assert_eq!(e.custom_msg.as_deref(), Some("note"));
    assert_eq!(e.id, 3);
}

#[test]
fn log_edit_ignores_unparsable_expiry() {
    let mut edit = LogEdit {
        level: None,
        module_choice: 0,
        action: None,
        expires_text: "tomorrow".to_string(),
        client_ip: String::new(),
        client_username: String::new(),
        custom_msg: String::new(),
    };
    assert_eq!(apply_log_edit(entry(), edit).expires_at, 2);
    edit = LogEdit {
        level: None,
        module_choice: 1,
        action: None,
        expires_text: "2024-01-02".to_string(),
        client_ip: String::new(),
        client_username: String::new(),
        custom_msg: String::new(),
    };
    let e = apply_log_edit(entry(), edit);
    assert_eq!(e.expires_at, 2);
    assert_eq!(e.module, SystemModuleEnum::Dispatcher);
}
