//! Decisions of the command deck's menus: paging through lists, the core
//! module browser, choosing in a log list, and editing a log entry.
use vstd::prelude::*;

use crate::board::NavKey;
use crate::enums::log::{LogActionEnum, LogLevelEnum};
use crate::enums::system::SystemModuleEnum;
use crate::logs::DBLogEntry;
use crate::numeric::{parse_i32, parse_i32_range};
use crate::text::{chars_of, trim, trim_range};
use crate::time::{parse_timestamp, parsed_timestamp};

verus! {

/// A move between pages of a list.
#[derive(Debug, Clone, Copy, PartialEq, Eq, Structural)]
pub enum PageAction {
    Next,
    Prev,
}

/// The offset of the user list after a page move: the previous page never
/// goes below the first.
pub fn user_page_offset(offset: i64, limit: i64, action: PageAction) -> (r: i64)
    requires
        action == PageAction::Next ==> i64::MIN <= offset + limit <= i64::MAX,
        action == PageAction::Prev ==> i64::MIN <= offset - limit <= i64::MAX,
    ensures
        r == match action {
            PageAction::Next => offset + limit,
            PageAction::Prev => if offset - limit > 0 { offset - limit } else { 0 },
        },
{
    match action {
        PageAction::Next => offset + limit,
        PageAction::Prev => {
            let back = offset - limit;
            if back > 0 {
                back
            } else {
                0
            }
        },
    }
}

/// `a - b`, held within the bounds of `i64` as `i64::saturating_sub` does.
pub open spec fn saturating_sub_i64(a: i64, b: i64) -> int {
    if a - b < i64::MIN {
        i64::MIN as int
    } else if a - b > i64::MAX {
        i64::MAX as int
    } else {
        a - b
    }
}

/// `a + b`, held within the bounds of `i64` as `i64::saturating_add` does.
pub open spec fn saturating_add_i64(a: i64, b: i64) -> int {
    if a + b < i64::MIN {
        i64::MIN as int
    } else if a + b > i64::MAX {
        i64::MAX as int
    } else {
        a + b
    }
}

fn sat_sub(a: i64, b: i64) -> (r: i64)
    ensures
        r == saturating_sub_i64(a, b),
{
    let x: i128 = (a as i128) - (b as i128);
    if x < (i64::MIN as i128) {
        i64::MIN
    } else if x > (i64::MAX as i128) {
        i64::MAX
    } else {
        x as i64
    }
}

fn sat_add(a: i64, b: i64) -> (r: i64)
    ensures
        r == saturating_add_i64(a, b),
{
    let x: i128 = (a as i128) + (b as i128);
    if x < (i64::MIN as i128) {
        i64::MIN
    } else if x > (i64::MAX as i128) {
        i64::MAX
    } else {
        x as i64
    }
}

/// The offset of a log list after the page control: choice 0 is the next
/// page, choice 1 the previous one (not clamped at zero), any other keeps it.
pub fn paginate_offset(offset: i64, limit: i64, choice: usize) -> (r: i64)
    requires
        choice == 0 ==> i64::MIN <= offset + limit <= i64::MAX,
    ensures
        r == if choice == 0 {
            offset + limit
        } else if choice == 1 {
            saturating_sub_i64(offset, limit)
        } else {
            offset as int
        },
{
    if choice == 0 {
        offset + limit
    } else if choice == 1 {
        sat_sub(offset, limit)
    } else {
        offset
    }
}

/// What a choice in a page of logs means: the position of a listed log, or
/// one of the three entries after them.
#[derive(Debug, Clone, Copy, PartialEq, Eq, Structural)]
pub enum LogListChoice {
    Manage(usize),
    NextPage,
    PrevPage,
    Back,
}

/// Decodes a choice among `n` listed logs followed by Next Page, Prev Page
/// and Back.
pub fn log_list_choice(choice: usize, n: usize) -> (r: LogListChoice)
    requires
        choice < n + 3,
    ensures
        r == if choice < n {
            LogListChoice::Manage(choice)
        } else if choice == n {
            LogListChoice::NextPage
        } else if choice == n + 1 {
            LogListChoice::PrevPage
        } else {
            LogListChoice::Back
        },
{
    if choice < n {
        LogListChoice::Manage(choice)
    } else if choice - n == 0 {
        LogListChoice::NextPage
    } else if choice - n == 1 {
        LogListChoice::PrevPage
    } else {
        LogListChoice::Back
    }
}

/// Whether a choice ends the browsing of a list: managing a log or going back.
pub fn ends_browsing(c: LogListChoice) -> (r: bool)
    ensures
        r == (c is Manage || c is Back),
{
    match c {
        LogListChoice::Manage(_) | LogListChoice::Back => true,
        _ => false,
    }
}

/// How many logs the module browser shows at once.
pub const MODULE_LOG_PAGE: i64 = 5;

/// The state of the core module browser: the selected module and the
/// offset into its logs.
#[derive(Debug, Clone, Copy, PartialEq, Eq, Structural)]
pub struct ModuleBrowser {
    pub selected: usize,
    pub log_offset: i64,
}

/// Where a key moves the module browser: up and down cycle through the six
/// modules, left and right page through the logs.
pub open spec fn module_browser_move(b: ModuleBrowser, key: NavKey) -> ModuleBrowser {
    match key {
        NavKey::Up => ModuleBrowser { selected: ((b.selected + 5) % 6) as usize, ..b },
        NavKey::Down => ModuleBrowser { selected: ((b.selected + 1) % 6) as usize, ..b },
        NavKey::Left => ModuleBrowser { log_offset: saturating_sub_i64(b.log_offset, MODULE_LOG_PAGE) as i64, ..b },
        NavKey::Right => ModuleBrowser { log_offset: saturating_add_i64(b.log_offset, MODULE_LOG_PAGE) as i64, ..b },
        NavKey::Other => b,
    }
}

/// Moves the module browser by one key.
pub fn module_browser_step(b: ModuleBrowser, key: NavKey) -> (r: ModuleBrowser)
    requires
        b.selected < 6,
    ensures
        r == module_browser_move(b, key),
        r.selected < 6,
{
    let n: usize = SystemModuleEnum::variants().len();
    match key {
        NavKey::Up => ModuleBrowser { selected: (b.selected + n - 1) % n, ..b },
        NavKey::Down => ModuleBrowser { selected: (b.selected + 1) % n, ..b },
        NavKey::Left => ModuleBrowser { log_offset: sat_sub(b.log_offset, MODULE_LOG_PAGE), ..b },
        NavKey::Right => ModuleBrowser { log_offset: sat_add(b.log_offset, MODULE_LOG_PAGE), ..b },
        NavKey::Other => b,
    }
}

/// Moving up and then down comes back to the same module.
pub proof fn module_browser_up_down(b: ModuleBrowser)
    requires
        b.selected < 6,
    ensures
        module_browser_move(module_browser_move(b, NavKey::Up), NavKey::Down) == b,
{
}

/// What the browser says each module is for.
pub fn module_description(m: SystemModuleEnum) -> (r: &'static str)
    ensures
        r@ == match m {
            SystemModuleEnum::Dispatcher => "Dispatcher: sends tasks to workers."@,
            SystemModuleEnum::Harvester => "Harvester: collects results from workers."@,
            SystemModuleEnum::Hibernator => "Hibernator: sleeps until cron due."@,
            SystemModuleEnum::Receiver => "Receiver: accepts new jobs."@,
            SystemModuleEnum::Scheduler => "Scheduler: orders tasks in queue."@,
            SystemModuleEnum::TaskArchive => "TaskArchive: stores completed results."@,
        },
{
    match m {
        SystemModuleEnum::Dispatcher => "Dispatcher: sends tasks to workers.",
        SystemModuleEnum::Harvester => "Harvester: collects results from workers.",
        SystemModuleEnum::Hibernator => "Hibernator: sleeps until cron due.",
        SystemModuleEnum::Receiver => "Receiver: accepts new jobs.",
        SystemModuleEnum::Scheduler => "Scheduler: orders tasks in queue.",
        SystemModuleEnum::TaskArchive => "TaskArchive: stores completed results.",
    }
}

/// Whether a typed answer is blank: nothing but whitespace.
pub fn is_blank(s: &str) -> (r: bool)
    ensures
        r == (trim(s@).len() == 0),
{
    let v = chars_of(s);
    let (a, b) = trim_range(&v, 0, v.len());
    proof {
        assert(v@.subrange(0, v.len() as int) =~= s@);
    }
    a == b
}

/// A typed answer where one may be left out: `None` when blank, else the
/// answer as typed.
pub fn optional_answer(raw: String) -> (r: Option<String>)
    ensures
        r == if trim(raw@).len() == 0 {
            None
        } else {
            Some(raw)
        },
{
    if is_blank(raw.as_str()) {
        None
    } else {
        Some(raw)
    }
}

/// The format in which a log's expiry is typed.
pub open spec fn expiry_format() -> Seq<char> {
    "%Y-%m-%d %H:%M:%S"@
}

/// The answers of the log edit dialog. A choice of `None`, or a module
/// choice of 0, keeps the current value; blank texts keep theirs too.
pub struct LogEdit {
    pub level: Option<LogLevelEnum>,
    /// 0 keeps the module; `k > 0` picks the module at position `k - 1`.
    pub module_choice: usize,
    pub action: Option<LogActionEnum>,
    pub expires_text: String,
    pub client_ip: String,
    pub client_username: String,
    pub custom_msg: String,
}

/// A text answer replaces a field unless it is blank.
pub open spec fn answer_or(answer: String, current: Option<String>) -> Option<String> {
    if trim(answer@).len() == 0 {
        current
    } else {
        Some(answer)
    }
}

/// The entry after the edit dialog: chosen values replace the current ones,
/// an expiry replaces it only where it is not blank and parses.
pub open spec fn edited_entry(e: DBLogEntry, edit: LogEdit) -> DBLogEntry {
    DBLogEntry {
        level: match edit.level {
            Some(l) => l,
            None => e.level,
        },
        module: if edit.module_choice > 0 {
            SystemModuleEnum::from_index(edit.module_choice - 1)
        } else {
            e.module
        },
        action: match edit.action {
            Some(a) => a,
            None => e.action,
        },
        expires_at: if trim(edit.expires_text@).len() == 0 {
            e.expires_at
        } else {
            match parsed_timestamp(edit.expires_text@, expiry_format()) {
                Some(t) => t,
                None => e.expires_at,
            }
        },
        client_connected_ip: answer_or(edit.client_ip, e.client_connected_ip),
        client_connected_username: answer_or(edit.client_username, e.client_connected_username),
        custom_msg: answer_or(edit.custom_msg, e.custom_msg),
        ..e
    }
}

fn answer_or_keep(answer: String, current: Option<String>) -> (r: Option<String>)
    ensures
        r == answer_or(answer, current),
{
    if is_blank(answer.as_str()) {
        current
    } else {
        Some(answer)
    }
}

/// Applies the answers of the edit dialog to a stored log entry.
pub fn apply_log_edit(entry: DBLogEntry, edit: LogEdit) -> (r: DBLogEntry)
    ensures
        r == edited_entry(entry, edit),
{
    let ghost e0 = entry;
    let ghost ed = edit;
    let mut entry = entry;
    match edit.level {
        Some(l) => {
            entry.level = l;
        },
        None => {},
    }
    if edit.module_choice > 0 {
        entry.module = SystemModuleEnum::from_position(edit.module_choice - 1);
    }
    match edit.action {
        Some(a) => {
            entry.action = a;
        },
        None => {},
    }
    if !is_blank(edit.expires_text.as_str()) {
        match parse_timestamp(edit.expires_text.as_str(), "%Y-%m-%d %H:%M:%S") {
            Some(t) => {
                entry.expires_at = t;
            },
            None => {},
        }
    }
    entry.client_connected_ip = answer_or_keep(edit.client_ip, entry.client_connected_ip);
    entry.client_connected_username = answer_or_keep(edit.client_username, entry.client_connected_username);
    entry.custom_msg = answer_or_keep(edit.custom_msg, entry.custom_msg);
    entry
}

/// The ASCII lower-case form of a character; other characters are kept.
pub open spec fn ascii_lower(c: char) -> char {
    if 'A' <= c && c <= 'Z' {
        ((c as int) + 32) as char
    } else {
        c
    }
}

/// Equal but for the case of ASCII letters, as `str::eq_ignore_ascii_case`.
pub open spec fn eq_ignore_ascii_case(a: Seq<char>, b: Seq<char>) -> bool {
    &&& a.len() == b.len()
    &&& forall|i: int| 0 <= i < a.len() ==> ascii_lower(#[trigger] a[i]) == ascii_lower(b[i])
}

fn lower(c: char) -> (r: char)
    ensures
        r == ascii_lower(c),
{
    if 'A' <= c && c <= 'Z' {
        ((c as u32) + 32) as u8 as char
    } else {
        c
    }
}

/// What an answer to an id prompt asks for.
#[derive(Debug, Clone, Copy, PartialEq, Eq, Structural)]
pub enum IdAnswer {
    /// `back`, in any case: leave the dialog.
    Back,
    Id(i32),
    /// Not an integer.
    Invalid,
}

/// Reads an answer to an id prompt: `back` in any case of its letters goes
/// back, else the answer, as typed, must be an `i32`.
pub fn read_id_answer(raw: &str) -> (r: IdAnswer)
    ensures
        r == if eq_ignore_ascii_case(raw@, "back"@) {
            IdAnswer::Back
        } else {
            match parse_i32(raw@) {
                Some(id) => IdAnswer::Id(id),
                None => IdAnswer::Invalid,
            }
        },
{
    let v = chars_of(raw);
    let back = chars_of("back");
    let mut same = v.len() == back.len();
    if same {
        let mut i: usize = 0;
        while i < v.len()
            invariant
                v@ == raw@,
                back@ == "back"@,
                v.len() == back.len(),
                i <= v.len(),
                same == forall|j: int| 0 <= j < i ==> ascii_lower(#[trigger] v@[j]) == ascii_lower(back@[j]),
            decreases v.len() - i,
        {
            if lower(v[i]) != lower(back[i]) {
                same = false;
            }
            i = i + 1;
        }
    }
    if same {
        return IdAnswer::Back;
    }
    proof {
        assert(v@.subrange(0, v.len() as int) =~= raw@);
    }
    match parse_i32_range(&v, 0, v.len()) {
        Some(id) => IdAnswer::Id(id),
        None => IdAnswer::Invalid,
    }
}

/// What the edit dialog does to each field: a chosen level, module or
/// action replaces the current one, no choice keeps it; a blank text answer
/// keeps the current value and any other replaces it as typed; a blank or
/// unreadable expiry keeps the current one; the id, the creation time and
/// the job columns never change.
pub proof fn log_edit_fields(e: DBLogEntry, edit: LogEdit)
    ensures
        edited_entry(e, edit).id == e.id,
        edited_entry(e, edit).created_at == e.created_at,
        edited_entry(e, edit).job_submitted_job_id == e.job_submitted_job_id,
        edited_entry(e, edit).job_submitted_from_module == e.job_submitted_from_module,
        edited_entry(e, edit).job_submitted_to_module == e.job_submitted_to_module,
        edited_entry(e, edit).job_completed_job_id == e.job_completed_job_id,
        edited_entry(e, edit).job_completed_success == e.job_completed_success,
        edit.level matches Some(l) ==> edited_entry(e, edit).level == l,
        edit.level is None ==> edited_entry(e, edit).level == e.level,
        edit.action matches Some(a) ==> edited_entry(e, edit).action == a,
        edit.action is None ==> edited_entry(e, edit).action == e.action,
        edit.module_choice == 0 ==> edited_entry(e, edit).module == e.module,
        edit.module_choice > 0 ==> edited_entry(e, edit).module == SystemModuleEnum::from_index(
            edit.module_choice - 1,
        ),
        trim(edit.expires_text@).len() == 0 ==> edited_entry(e, edit).expires_at == e.expires_at,
        trim(edit.expires_text@).len() > 0 ==> edited_entry(e, edit).expires_at == match parsed_timestamp(
            edit.expires_text@,
            "%Y-%m-%d %H:%M:%S"@,
        ) {
            Some(t) => t,
            None => e.expires_at,
        },
        trim(edit.client_ip@).len() == 0 ==> edited_entry(e, edit).client_connected_ip == e.client_connected_ip,
        trim(edit.client_ip@).len() > 0 ==> edited_entry(e, edit).client_connected_ip == Some(edit.client_ip),
        trim(edit.client_username@).len() == 0 ==> edited_entry(e, edit).client_connected_username
            == e.client_connected_username,
        trim(edit.client_username@).len() > 0 ==> edited_entry(e, edit).client_connected_username == Some(
            edit.client_username,
        ),
        trim(edit.custom_msg@).len() == 0 ==> edited_entry(e, edit).custom_msg == e.custom_msg,
        trim(edit.custom_msg@).len() > 0 ==> edited_entry(e, edit).custom_msg == Some(edit.custom_msg),
{
}

/// Down selects the next module and up the previous one, going round from
/// the last to the first and back; left and right move the log window by
/// one page of five, held within `i64`; no key changes what it does not move.
pub proof fn module_browser_keys(b: ModuleBrowser)
    requires
        b.selected < 6,
    ensures
        b.selected < 5 ==> module_browser_move(b, NavKey::Down).selected == b.selected + 1,
        b.selected == 5 ==> module_browser_move(b, NavKey::Down).selected == 0,
        b.selected > 0 ==> module_browser_move(b, NavKey::Up).selected == b.selected - 1,
        b.selected == 0 ==> module_browser_move(b, NavKey::Up).selected == 5,
        module_browser_move(b, NavKey::Down).log_offset == b.log_offset,
        module_browser_move(b, NavKey::Up).log_offset == b.log_offset,
        module_browser_move(b, NavKey::Left).selected == b.selected,
        module_browser_move(b, NavKey::Right).selected == b.selected,
        b.log_offset >= i64::MIN + 5 ==> module_browser_move(b, NavKey::Left).log_offset == b.log_offset - 5,
        b.log_offset < i64::MIN + 5 ==> module_browser_move(b, NavKey::Left).log_offset == i64::MIN,
        b.log_offset <= i64::MAX - 5 ==> module_browser_move(b, NavKey::Right).log_offset == b.log_offset + 5,
        b.log_offset > i64::MAX - 5 ==> module_browser_move(b, NavKey::Right).log_offset == i64::MAX,
        module_browser_move(b, NavKey::Other) == b,
{
}

} // verus!
