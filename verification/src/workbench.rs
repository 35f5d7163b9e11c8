//! The workbench state machine: what the send and receive views show, and what every user
//! action and transfer outcome changes. The GUI performs the returned effects (spawning
//! transfers, aborting tasks, clipboard and URL access) and reports their outcomes back.

use vstd::prelude::*;
use crate::locale::{
    all_locales, lemma_all_locales_listed_once, menu_index, table_lookup, Locale,
};
use crate::steps::{
    after_check_for_updates, after_copy_ticket, after_open_sponsor, after_open_update_or_check,
    after_reveal_completed, after_select_path, after_send_ready, after_set_save_path,
    after_share_stopped, after_start_sharing, after_stop_sharing, after_update_checked, copy_text,
    display_text, status_text_for, after_paste_ticket, after_start_receiving,
    after_receive_finished, after_stop_receiving, after_exit, after_new_transfer, after_event,
    after_select_tab, after_cycle_theme, after_cycle_locale, after_edit_ticket, after_mark_ticket,
    transfer_active, TransferEventView, has_failed, after_try_again,
    after_retry_receiving,
};
use core::ops::Range;
use crate::text::{replace_str, str_eq};
use crate::ticket::{trim_ws, TicketInput};
use crate::update::{UpdateInfo, SPONSOR_URL};

verus! {

/// Built-in English labels for short UI names that the catalogue does not cover.
pub const COPY_FALLBACKS: [(&'static str, &'static str); 13] = [
    ("send", "Send"),
    ("receive", "Receive"),
    ("ready", "Ready"),
    ("select", "Choose a file or folder"),
    ("drop", "Drop files or folders here"),
    ("start", "Start sharing"),
    ("stop", "Stop sharing"),
    ("save", "Save to folder"),
    ("receive_action", "Start receiving"),
    ("copy", "Copy ticket"),
    ("new", "New transfer"),
    ("theme", "Theme"),
    ("language", "Language"),
];

/// The two task views.
#[derive(Clone, Copy, Debug, PartialEq, Eq, Structural)]
pub enum Tab {
    Send,
    Receive,
}

/// The colour scheme choice.
#[derive(Clone, Copy, Debug, PartialEq, Eq, Structural)]
pub enum Theme {
    System,
    Dark,
    Light,
}

/// Where one side of a transfer stands.
#[derive(Clone, Copy, Debug, PartialEq, Eq, Structural)]
pub enum TransferPhase {
    Idle,
    Preparing,
    Sharing,
    Connecting,
    Transporting,
    Stopping,
    Completed,
    /// The start or the transfer failed; the error is shown with a way to try again.
    Failed,
}

/// Which side of a transfer an event comes from.
#[derive(Clone, Copy, Debug, PartialEq, Eq, Structural)]
pub enum Role {
    Sender,
    Receiver,
}

/// Bytes moved so far out of the total.
#[derive(Clone, Copy, Debug, PartialEq, Eq, Structural)]
pub struct Progress {
    pub processed: u64,
    pub total: u64,
}

/// A transfer event as the transport reports it.
#[derive(Debug)]
pub enum TransferEvent {
    Started { role: Role },
    Progress { role: Role, processed: u64, total: u64 },
    FileNames { role: Role, file_names: Vec<String> },
    Completed { role: Role },
    Failed { role: Role, message: String },
}

/// What a finished receive produced.
#[derive(Debug)]
pub struct ReceivedItem {
    /// Where it was written.
    pub path: String,
    /// Its size in bytes.
    pub size: u64,
}

/// The sum of a sequence of sizes.
pub open spec fn size_sum(sizes: Seq<u64>) -> int
    decreases sizes.len(),
{
    if sizes.len() == 0 {
        0
    } else {
        size_sum(sizes.drop_last()) + sizes.last()
    }
}

proof fn lemma_size_sum_monotone(sizes: Seq<u64>, i: int)
    requires
        0 <= i <= sizes.len(),
    ensures
        size_sum(sizes.take(i)) <= size_sum(sizes),
    decreases sizes.len() - i,
{
    if i < sizes.len() {
        lemma_size_sum_monotone(sizes, i + 1);
        assert(sizes.take(i + 1).drop_last() =~= sizes.take(i));
    } else {
        assert(sizes.take(i) =~= sizes);
    }
}

/// The total size of the files of a received folder: the sum of their sizes, or `None`
/// where that sum does not fit in 64 bits.
pub fn total_size(sizes: &Vec<u64>) -> (res: Option<u64>)
    ensures
        size_sum(sizes@) <= u64::MAX ==> res == Some(size_sum(sizes@) as u64),
        size_sum(sizes@) > u64::MAX ==> res is None,
{
    let mut total: u64 = 0;
    let mut i: usize = 0;
    assert(sizes@.take(0) =~= Seq::<u64>::empty());
    while i < sizes.len()
        invariant
            i <= sizes@.len(),
            total == size_sum(sizes@.take(i as int)),
        decreases sizes@.len() - i,
    {
        assert(sizes@.take(i + 1).drop_last() =~= sizes@.take(i as int));
        match total.checked_add(sizes[i]) {
            Some(t) => total = t,
            None => {
                proof {
                    lemma_size_sum_monotone(sizes@, i + 1);
                }
                return None;
            },
        }
        i = i + 1;
    }
    assert(sizes@.take(i as int) =~= sizes@);
    Some(total)
}

/// Work the GUI performs on behalf of the state machine.
#[derive(Debug)]
pub enum Effect {
    /// Redraw the window.
    Notify,
    /// Start timing the transfer.
    StartClock,
    /// Stop timing the transfer.
    StopClock,
    /// Record the elapsed transfer time as the completed transfer's duration.
    RecordDuration,
    /// Reset the completed transfer's duration to zero.
    ResetDuration,
    /// Start sharing `path`; report readiness back with `generation`.
    SpawnSend { path: String, generation: u64 },
    /// Forget the handle of the task that prepared the share.
    ForgetSendTask,
    /// Abort the task that prepares a share, if any.
    AbortSend,
    /// Keep the share that the preparing task returned.
    KeepShare,
    /// Shut the kept share down; report the outcome back with `generation`.
    ShutdownShare { generation: u64 },
    /// Shut the kept share down in the background, reporting nothing.
    ReleaseShare,
    /// Start receiving `ticket` into `save_path`; report the outcome with `generation`.
    SpawnReceive { ticket: String, save_path: String, generation: u64 },
    /// Forget the handle of the receiving task.
    ForgetReceiveTask,
    /// Abort the receiving task, if any.
    AbortReceive,
    /// Put text on the clipboard.
    CopyToClipboard(String),
    /// Show a path in the platform file manager.
    RevealPath(String),
    /// Open a URL in the browser.
    OpenUrl(String),
    /// Fetch the release manifest and report the update check's outcome.
    FetchUpdate,
    /// Record the transfer speed that came with a progress event of this role.
    RecordSpeed(Role),
}

/// An effect with its strings taken as character sequences.
pub enum EffectView {
    Notify,
    StartClock,
    StopClock,
    RecordDuration,
    ResetDuration,
    SpawnSend { path: Seq<char>, generation: u64 },
    ForgetSendTask,
    AbortSend,
    KeepShare,
    ShutdownShare { generation: u64 },
    ReleaseShare,
    SpawnReceive { ticket: Seq<char>, save_path: Seq<char>, generation: u64 },
    ForgetReceiveTask,
    AbortReceive,
    CopyToClipboard(Seq<char>),
    RevealPath(Seq<char>),
    OpenUrl(Seq<char>),
    FetchUpdate,
    RecordSpeed(Role),
}

impl View for Effect {
    type V = EffectView;

    open spec fn view(&self) -> EffectView {
        match self {
            Effect::Notify => EffectView::Notify,
            Effect::StartClock => EffectView::StartClock,
            Effect::StopClock => EffectView::StopClock,
            Effect::RecordDuration => EffectView::RecordDuration,
            Effect::ResetDuration => EffectView::ResetDuration,
            Effect::SpawnSend { path, generation } => EffectView::SpawnSend {
                path: path@,
                generation: *generation,
            },
            Effect::ForgetSendTask => EffectView::ForgetSendTask,
            Effect::AbortSend => EffectView::AbortSend,
            Effect::KeepShare => EffectView::KeepShare,
            Effect::ShutdownShare { generation } => EffectView::ShutdownShare {
                generation: *generation,
            },
            Effect::ReleaseShare => EffectView::ReleaseShare,
            Effect::SpawnReceive { ticket, save_path, generation } => EffectView::SpawnReceive {
                ticket: ticket@,
                save_path: save_path@,
                generation: *generation,
            },
            Effect::ForgetReceiveTask => EffectView::ForgetReceiveTask,
            Effect::AbortReceive => EffectView::AbortReceive,
            Effect::CopyToClipboard(text) => EffectView::CopyToClipboard(text@),
            Effect::RevealPath(path) => EffectView::RevealPath(path@),
            Effect::OpenUrl(url) => EffectView::OpenUrl(url@),
            Effect::FetchUpdate => EffectView::FetchUpdate,
            Effect::RecordSpeed(role) => EffectView::RecordSpeed(*role),
        }
    }
}

/// The effects of a transition, taken as views.
pub open spec fn effect_views(effects: Seq<Effect>) -> Seq<EffectView> {
    effects.map_values(|e: Effect| e@)
}

/// The view of an optional string.
pub open spec fn opt_view(s: Option<String>) -> Option<Seq<char>> {
    match s {
        Some(t) => Some(t@),
        None => None,
    }
}

/// The view of an update offer: (version, download URL).
pub open spec fn update_view(u: Option<UpdateInfo>) -> Option<(Seq<char>, Seq<char>)> {
    match u {
        Some(info) => Some((info.version@, info.download_url@)),
        None => None,
    }
}

#[verifier::ext_equal]
/// Everything the workbench shows and decides on, with strings as character sequences.
pub struct WorkbenchView {
    pub tab: Tab,
    pub theme: Theme,
    pub locale: Locale,
    pub send_phase: TransferPhase,
    pub receive_phase: TransferPhase,
    pub selected_path: Option<Seq<char>>,
    pub selected_is_dir: bool,
    pub ticket: Option<Seq<char>>,
    pub ticket_text: Seq<char>,
    pub ticket_selection: (int, int),
    pub save_path: Seq<char>,
    pub send_progress: Progress,
    pub receive_progress: Progress,
    pub receive_files: Seq<Seq<char>>,
    pub status: Seq<char>,
    pub error: Option<Seq<char>>,
    pub completed_name: Option<Seq<char>>,
    pub completed_path: Option<Seq<char>>,
    pub completed_size: u64,
    pub generation: u64,
    pub share_open: bool,
    pub update_checking: bool,
    pub update_info: Option<(Seq<char>, Seq<char>)>,
    pub update_status: Option<Seq<char>>,
}

/// The client's user-facing state: tabs, both transfer sides, the ticket field, the
/// completion summary and the update check. `generation` numbers the transfer
/// operations; an outcome reported under an older generation is stale and ignored.
pub struct Workbench {
    tab: Tab,
    theme: Theme,
    locale: Locale,
    send_phase: TransferPhase,
    receive_phase: TransferPhase,
    selected_path: Option<String>,
    selected_is_dir: bool,
    ticket: Option<String>,
    ticket_input: TicketInput,
    save_path: String,
    send_progress: Progress,
    receive_progress: Progress,
    receive_files: Vec<String>,
    status: String,
    error: Option<String>,
    completed_name: Option<String>,
    completed_path: Option<String>,
    completed_size: u64,
    generation: u64,
    share_open: bool,
    update_checking: bool,
    update_info: Option<UpdateInfo>,
    update_status: Option<String>,
}

impl View for Workbench {
    type V = WorkbenchView;

    closed spec fn view(&self) -> WorkbenchView {
        WorkbenchView {
            tab: self.tab,
            theme: self.theme,
            locale: self.locale,
            send_phase: self.send_phase,
            receive_phase: self.receive_phase,
            selected_path: opt_view(self.selected_path),
            selected_is_dir: self.selected_is_dir,
            ticket: opt_view(self.ticket),
            ticket_text: self.ticket_input.contents(),
            ticket_selection: self.ticket_input.selected(),
            save_path: self.save_path@,
            send_progress: self.send_progress,
            receive_progress: self.receive_progress,
            receive_files: self.receive_files@.map_values(|s: String| s@),
            status: self.status@,
            error: opt_view(self.error),
            completed_name: opt_view(self.completed_name),
            completed_path: opt_view(self.completed_path),
            completed_size: self.completed_size,
            generation: self.generation,
            share_open: self.share_open,
            update_checking: self.update_checking,
            update_info: update_view(self.update_info),
            update_status: opt_view(self.update_status),
        }
    }
}

/// The text shown for a catalogue key: the locale's own text, else the English text,
/// else the key itself.
pub fn localized_text(locale: Locale, key: &str) -> (res: String)
    ensures
        res@ == display_text(locale, key@),
{
    match locale.lookup(key) {
        Some(v) => v.to_owned(),
        None => match Locale::English.lookup(key) {
            Some(v) => v.to_owned(),
            None => key.to_owned(),
        },
    }
}

/// The status line for `key`: its catalogue text, or `fallback` where the key has none.
pub fn localized_status(locale: Locale, key: &str, fallback: &str) -> (res: String)
    ensures
        res@ == status_text_for(locale, key@, fallback@),
{
    let value = localized_text(locale, key);
    if str_eq(value.as_str(), key) {
        fallback.to_owned()
    } else {
        value
    }
}

/// The label for a short UI name: the catalogue text through the UI aliases, else the
/// built-in English label, else the empty string.
pub fn localized_copy(locale: Locale, key: &str) -> (res: &'static str)
    ensures
        res == copy_text(locale, key@),
{
    if let Some(value) = locale.ui_copy(key) {
        return value;
    }
    match table_lookup(&COPY_FALLBACKS, key) {
        Some(v) => v,
        None => "",
    }
}

/// Whether `path` is one plain name: not empty, not `.` or `..`, and free of the
/// characters that separate components or begin a drive prefix on any platform.
pub open spec fn is_plain_name(path: Seq<char>) -> bool {
    &&& path.len() > 0
    &&& path != "."@
    &&& path != ".."@
    &&& !path.contains('/')
    &&& !path.contains('\\')
    &&& !path.contains(':')
}

/// Whether `name` can be the file name of `path`: where there is one, it is a non-empty
/// piece of the path other than `.` and `..`; a plain name is its own file name.
pub open spec fn file_name_fits(name: Option<Seq<char>>, path: Seq<char>) -> bool {
    &&& name matches Some(n) ==> {
        &&& n.len() > 0
        &&& n != "."@
        &&& n != ".."@
        &&& exists|i: int|
            0 <= i && i + n.len() <= path.len() && #[trigger] path.subrange(i, i + n.len()) == n
    }
    &&& is_plain_name(path) ==> name == Some(path)
}

/// Whether `name` can be the file name of the optional `path`; without a path, none.
pub open spec fn names_file_of(name: Option<Seq<char>>, path: Option<Seq<char>>) -> bool {
    match path {
        Some(p) => file_name_fits(name, p),
        None => name is None,
    }
}

/// The file name of `path`: its final component, as `std::path::Path::file_name` finds
/// it under the running platform's path rules. Those rules differ between platforms, so
/// the contract states only what holds under all of them: the name is a non-empty piece
/// of the path other than `.` and `..`, and a plain name is its own file name. When the
/// result is `None` is left unsaid.
#[verifier::external_body]
fn file_name(path: &str) -> (res: Option<String>)
    ensures
        file_name_fits(opt_view(res), path@),
{
    match std::path::Path::new(path).file_name() {
        Some(name) => Some(name.to_string_lossy().into_owned()),
        None => None,
    }
}

fn clone_opt(s: &Option<String>) -> (res: Option<String>)
    ensures
        opt_view(res) == opt_view(*s),
{
    match s {
        Some(t) => Some(t.clone()),
        None => None,
    }
}

impl Workbench {
    /// A fresh workbench on the send tab in the dark theme, downloads going to `save_path`.
    pub fn new(save_path: String) -> (res: Workbench)
        ensures
            res@.tab == Tab::Send,
            res@.theme == Theme::Dark,
            res@.locale == Locale::English,
            res@.send_phase == TransferPhase::Idle,
            res@.receive_phase == TransferPhase::Idle,
            res@.selected_path is None,
            !res@.selected_is_dir,
            res@.ticket is None,
            res@.ticket_text == Seq::<char>::empty(),
            res@.ticket_selection == (0int, 0int),
            res@.save_path == save_path@,
            res@.send_progress == (Progress { processed: 0, total: 0 }),
            res@.receive_progress == (Progress { processed: 0, total: 0 }),
            res@.receive_files == Seq::<Seq<char>>::empty(),
            res@.status == "Ready"@,
            res@.error is None,
            res@.completed_name is None,
            res@.completed_path is None,
            res@.completed_size == 0,
            res@.generation == 0,
            !res@.share_open,
            !res@.update_checking,
            res@.update_info is None,
            res@.update_status is None,
    {
        let files: Vec<String> = Vec::new();
        let res = Workbench {
            tab: Tab::Send,
            theme: Theme::Dark,
            locale: Locale::English,
            send_phase: TransferPhase::Idle,
            receive_phase: TransferPhase::Idle,
            selected_path: None,
            selected_is_dir: false,
            ticket: None,
            ticket_input: TicketInput::new(),
            save_path,
            send_progress: Progress { processed: 0, total: 0 },
            receive_progress: Progress { processed: 0, total: 0 },
            receive_files: files,
            status: "Ready".to_owned(),
            error: None,
            completed_name: None,
            completed_path: None,
            completed_size: 0,
            generation: 0,
            share_open: false,
            update_checking: false,
            update_info: None,
            update_status: None,
        };
        assert(res@.receive_files =~= Seq::<Seq<char>>::empty());
        res
    }

    /// The catalogue text of `key` in the current locale (see `localized_text`).
    pub fn text(&self, key: &str) -> (res: String)
        ensures
            res@ == display_text(self@.locale, key@),
    {
        localized_text(self.locale, key)
    }

    /// The status line for `key` in the current locale (see `localized_status`).
    pub fn status_text(&self, key: &str, fallback: &str) -> (res: String)
        ensures
            res@ == status_text_for(self@.locale, key@, fallback@),
    {
        localized_status(self.locale, key, fallback)
    }

    /// The label for a short UI name in the current locale (see `localized_copy`).
    pub fn copy(&self, key: &str) -> (res: &'static str)
        ensures
            res == copy_text(self@.locale, key@),
    {
        localized_copy(self.locale, key)
    }
}

/// The view of an update check's outcome.
pub open spec fn update_outcome_view(outcome: Result<Option<UpdateInfo>, String>) -> Result<
    Option<(Seq<char>, Seq<char>)>,
    Seq<char>,
> {
    match outcome {
        Ok(u) => Ok(update_view(u)),
        Err(e) => Err(e@),
    }
}

impl Workbench {
    /// A path chosen in the picker or dropped on the window; `exists` tells whether it
    /// exists and `is_dir` whether it is a folder.
    pub fn select_path(&mut self, path: String, is_dir: bool, exists: bool) -> (res: Vec<Effect>)
        ensures
            final(self)@ == after_select_path(old(self)@, path@, is_dir, exists).0,
            effect_views(res@) == after_select_path(old(self)@, path@, is_dir, exists).1,
    {
        if !exists {
            let res: Vec<Effect> = Vec::new();
            assert(effect_views(res@) =~= Seq::<EffectView>::empty());
            return res;
        }
        self.selected_is_dir = is_dir;
        self.selected_path = Some(path);
        self.error = None;
        self.status = if is_dir {
            self.status_text("path_selected_folder", "Path selected")
        } else {
            self.status_text("path_selected_file", "Path selected")
        };
        let res = vec![Effect::Notify];
        assert(effect_views(res@) =~= seq![EffectView::Notify]);
        res
    }

    /// A download folder chosen in the picker.
    pub fn set_save_path(&mut self, path: String) -> (res: Vec<Effect>)
        ensures
            final(self)@ == after_set_save_path(old(self)@, path@).0,
            effect_views(res@) == after_set_save_path(old(self)@, path@).1,
    {
        self.save_path = path;
        self.status = self.status_text("save", "Download folder selected");
        let res = vec![Effect::Notify];
        assert(effect_views(res@) =~= seq![EffectView::Notify]);
        res
    }

    /// Shows the completed download in the platform file manager.
    pub fn reveal_completed_path(&mut self) -> (res: Vec<Effect>)
        ensures
            final(self)@ == after_reveal_completed(old(self)@).0,
            effect_views(res@) == after_reveal_completed(old(self)@).1,
    {
        match &self.completed_path {
            Some(path) => {
                let path = path.clone();
                self.status = self.status_text("download_completed", "Opened downloaded item");
                let res = vec![Effect::RevealPath(path), Effect::Notify];
                assert(effect_views(res@) =~= after_reveal_completed(old(self)@).1);
                res
            },
            None => {
                let res: Vec<Effect> = Vec::new();
                assert(effect_views(res@) =~= Seq::<EffectView>::empty());
                res
            },
        }
    }

    /// Starts an update check unless one is already running.
    pub fn check_for_updates(&mut self) -> (res: Vec<Effect>)
        ensures
            final(self)@ == after_check_for_updates(old(self)@).0,
            effect_views(res@) == after_check_for_updates(old(self)@).1,
    {
        if self.update_checking {
            let res: Vec<Effect> = Vec::new();
            assert(effect_views(res@) =~= Seq::<EffectView>::empty());
            return res;
        }
        self.update_checking = true;
        self.update_status = Some(self.text("update.checking"));
        let res = vec![Effect::Notify, Effect::FetchUpdate];
        assert(effect_views(res@) =~= seq![EffectView::Notify, EffectView::FetchUpdate]);
        res
    }

    /// Records the outcome of an update check.
    pub fn finish_update_check(&mut self, outcome: Result<Option<UpdateInfo>, String>) -> (res: Vec<Effect>)
        ensures
            final(self)@ == after_update_checked(old(self)@, update_outcome_view(outcome)).0,
            effect_views(res@) == after_update_checked(old(self)@, update_outcome_view(outcome)).1,
    {
        self.update_checking = false;
        match outcome {
            Ok(Some(info)) => {
                let found = self.text("update.found");
                proof {
                    reveal_strlit("{{version}}");
                }
                self.update_status = Some(replace_str(found.as_str(), "{{version}}", info.version.as_str()));
                self.update_info = Some(info);
            },
            Ok(None) => {
                self.update_info = None;
                self.update_status = Some(self.text("update.upToDate"));
            },
            Err(e) => {
                self.update_info = None;
                let mut line = self.text("update.failed");
                line.append(": ");
                line.append(e.as_str());
                self.update_status = Some(line);
            },
        }
        let res = vec![Effect::Notify];
        assert(effect_views(res@) =~= seq![EffectView::Notify]);
        res
    }

    /// The update button: opens the offered download, else starts a check.
    pub fn open_update_or_check(&mut self) -> (res: Vec<Effect>)
        ensures
            final(self)@ == after_open_update_or_check(old(self)@).0,
            effect_views(res@) == after_open_update_or_check(old(self)@).1,
    {
        match &self.update_info {
            Some(info) => {
                let url = info.download_url.clone();
                self.status = self.text("update.installed");
                let res = vec![Effect::OpenUrl(url), Effect::Notify];
                assert(effect_views(res@) =~= after_open_update_or_check(old(self)@).1);
                res
            },
            None => {
                if !self.update_checking {
                    let mut res = self.check_for_updates();
                    res.push(Effect::Notify);
                    assert(effect_views(res@) =~= after_open_update_or_check(old(self)@).1);
                    res
                } else {
                    let res = vec![Effect::Notify];
                    assert(effect_views(res@) =~= seq![EffectView::Notify]);
                    res
                }
            },
        }
    }

    /// Opens the sponsorship page.
    pub fn open_sponsor_page(&mut self) -> (res: Vec<Effect>)
        ensures
            final(self)@ == after_open_sponsor(old(self)@).0,
            effect_views(res@) == after_open_sponsor(old(self)@).1,
    {
        self.status = self.status_text("donate", "Donation page opened");
        let res = vec![Effect::OpenUrl(SPONSOR_URL.to_owned()), Effect::Notify];
        assert(effect_views(res@) =~= after_open_sponsor(old(self)@).1);
        res
    }

    /// The start-sharing button.
    pub fn start_sharing(&mut self) -> (res: Vec<Effect>)
        requires
            old(self)@.selected_path is Some && old(self)@.send_phase == TransferPhase::Idle
                ==> old(self)@.generation < u64::MAX,
        ensures
            final(self)@ == after_start_sharing(old(self)@).0,
            effect_views(res@) == after_start_sharing(old(self)@).1,
    {
        let path = match &self.selected_path {
            Some(p) => p.clone(),
            None => {
                self.error = Some(self.text("sender.dropFilesHere"));
                let res = vec![Effect::Notify];
                assert(effect_views(res@) =~= seq![EffectView::Notify]);
                return res;
            },
        };
        if self.send_phase != TransferPhase::Idle {
            let res: Vec<Effect> = Vec::new();
            assert(effect_views(res@) =~= Seq::<EffectView>::empty());
            return res;
        }
        self.generation = self.generation + 1;
        let generation = self.generation;
        self.send_phase = TransferPhase::Preparing;
        self.status = self.status_text("preparing", "Preparing encrypted share...");
        self.error = None;
        let res = vec![Effect::StartClock, Effect::SpawnSend { path, generation }];
        assert(effect_views(res@) =~= after_start_sharing(old(self)@).1);
        res
    }

    /// The share prepared under `generation` is ready with `ticket`, or failed.
    pub fn finish_send_start(&mut self, generation: u64, outcome: Result<String, String>) -> (res: Vec<Effect>)
        ensures
            final(self)@ == after_send_ready(old(self)@, generation, match outcome {
                Ok(t) => Ok(t@),
                Err(e) => Err(e@),
            }).0,
            effect_views(res@) == after_send_ready(old(self)@, generation, match outcome {
                Ok(t) => Ok(t@),
                Err(e) => Err(e@),
            }).1,
    {
        if generation != self.generation {
            let res: Vec<Effect> = Vec::new();
            assert(effect_views(res@) =~= Seq::<EffectView>::empty());
            return res;
        }
        match outcome {
            Ok(ticket) => {
                self.ticket = Some(ticket);
                self.share_open = true;
                self.send_phase = TransferPhase::Sharing;
                self.status = self.status_text("listening", "Listening for a receiver");
                let res = vec![Effect::ForgetSendTask, Effect::KeepShare, Effect::Notify];
                assert(effect_views(res@) =~= seq![EffectView::ForgetSendTask, EffectView::KeepShare, EffectView::Notify]);
                res
            },
            Err(e) => {
                self.send_phase = TransferPhase::Failed;
                self.error = Some(e);
                self.status = self.status_text("transfer_failed", "Sharing failed");
                let res = vec![Effect::ForgetSendTask, Effect::Notify];
                assert(effect_views(res@) =~= seq![EffectView::ForgetSendTask, EffectView::Notify]);
                res
            },
        }
    }

    /// The stop-sharing button.
    pub fn stop_sharing(&mut self) -> (res: Vec<Effect>)
        requires
            old(self)@.generation < u64::MAX,
        ensures
            final(self)@ == after_stop_sharing(old(self)@).0,
            effect_views(res@) == after_stop_sharing(old(self)@).1,
    {
        self.generation = self.generation + 1;
        let generation = self.generation;
        if !self.share_open {
            self.send_phase = TransferPhase::Idle;
            self.status = self.status_text("ok", "Ready");
            let res = vec![Effect::AbortSend, Effect::StopClock, Effect::Notify];
            assert(effect_views(res@) =~= after_stop_sharing(old(self)@).1);
            return res;
        }
        self.share_open = false;
        self.send_phase = TransferPhase::Stopping;
        self.status = self.status_text("stopping", "Stopping share...");
        let res = vec![Effect::AbortSend, Effect::ShutdownShare { generation }];
        assert(effect_views(res@) =~= after_stop_sharing(old(self)@).1);
        res
    }

    /// The share shut down under `generation` has closed, possibly with an error.
    pub fn finish_stop_sharing(&mut self, generation: u64, outcome: Result<(), String>) -> (res: Vec<Effect>)
        ensures
            final(self)@ == after_share_stopped(old(self)@, generation, match outcome {
                Ok(_) => Ok(()),
                Err(e) => Err(e@),
            }).0,
            effect_views(res@) == after_share_stopped(old(self)@, generation, match outcome {
                Ok(_) => Ok(()),
                Err(e) => Err(e@),
            }).1,
    {
        if generation != self.generation {
            let res: Vec<Effect> = Vec::new();
            assert(effect_views(res@) =~= Seq::<EffectView>::empty());
            return res;
        }
        self.send_phase = TransferPhase::Idle;
        self.ticket = None;
        self.status = self.status_text("ok", "Ready");
        if let Err(e) = outcome {
            self.error = Some(e);
        }
        let res = vec![Effect::StopClock, Effect::Notify];
        assert(effect_views(res@) =~= seq![EffectView::StopClock, EffectView::Notify]);
        res
    }

    /// The copy-ticket button.
    pub fn copy_ticket(&mut self) -> (res: Vec<Effect>)
        ensures
            final(self)@ == after_copy_ticket(old(self)@).0,
            effect_views(res@) == after_copy_ticket(old(self)@).1,
    {
        match &self.ticket {
            Some(ticket) => {
                let ticket = ticket.clone();
                self.status = self.status_text("ticket_copied", "Ticket copied to clipboard");
                let res = vec![Effect::CopyToClipboard(ticket), Effect::Notify];
                assert(effect_views(res@) =~= after_copy_ticket(old(self)@).1);
                res
            },
            None => {
                let res: Vec<Effect> = Vec::new();
                assert(effect_views(res@) =~= Seq::<EffectView>::empty());
                res
            },
        }
    }
}

impl View for TransferEvent {
    type V = TransferEventView;

    open spec fn view(&self) -> TransferEventView {
        match self {
            TransferEvent::Started { role } => TransferEventView::Started { role: *role },
            TransferEvent::Progress { role, processed, total } => TransferEventView::Progress {
                role: *role,
                processed: *processed,
                total: *total,
            },
            TransferEvent::FileNames { role, file_names } => TransferEventView::FileNames {
                role: *role,
                file_names: file_names@.map_values(|s: String| s@),
            },
            TransferEvent::Completed { role } => TransferEventView::Completed { role: *role },
            TransferEvent::Failed { role, message } => TransferEventView::Failed {
                role: *role,
                message: message@,
            },
        }
    }
}

/// The view of a finished receive.
pub open spec fn received_view(outcome: Result<ReceivedItem, String>) -> Result<
    (Seq<char>, u64),
    Seq<char>,
> {
    match outcome {
        Ok(item) => Ok((item.path@, item.size)),
        Err(e) => Err(e@),
    }
}

impl Workbench {
    /// Pastes clipboard text, if the clipboard held any, into the ticket field.
    pub fn paste_ticket(&mut self, text: Option<String>) -> (res: Vec<Effect>)
        ensures
            final(self)@ == after_paste_ticket(old(self)@, opt_view(text)).0,
            effect_views(res@) == after_paste_ticket(old(self)@, opt_view(text)).1,
    {
        match text {
            Some(t) => {
                self.ticket_input.paste(t);
                let res = vec![Effect::Notify];
                assert(effect_views(res@) =~= seq![EffectView::Notify]);
                res
            },
            None => {
                let res: Vec<Effect> = Vec::new();
                assert(effect_views(res@) =~= Seq::<EffectView>::empty());
                res
            },
        }
    }

    /// The start-receiving button.
    pub fn start_receiving(&mut self) -> (res: Vec<Effect>)
        requires
            trim_ws(old(self)@.ticket_text).len() > 0 && old(self)@.receive_phase
                == TransferPhase::Idle ==> old(self)@.generation < u64::MAX,
        ensures
            final(self)@ == after_start_receiving(old(self)@).0,
            effect_views(res@) == after_start_receiving(old(self)@).1,
    {
        let ticket = self.ticket_input.trimmed();
        if ticket.as_str().is_empty() {
            self.error = Some(self.text("receiver.pasteTicket"));
            let res = vec![Effect::Notify];
            assert(effect_views(res@) =~= seq![EffectView::Notify]);
            return res;
        }
        if self.receive_phase != TransferPhase::Idle {
            let res: Vec<Effect> = Vec::new();
            assert(effect_views(res@) =~= Seq::<EffectView>::empty());
            return res;
        }
        self.generation = self.generation + 1;
        let generation = self.generation;
        self.receive_phase = TransferPhase::Connecting;
        self.status = self.status_text("connecting", "Connecting to sender...");
        self.error = None;
        let save_path = self.save_path.clone();
        let res = vec![Effect::StartClock, Effect::SpawnReceive { ticket, save_path, generation }];
        assert(effect_views(res@) =~= after_start_receiving(old(self)@).1);
        res
    }

    /// The receive started under `generation` finished.
    pub fn finish_receive(&mut self, generation: u64, outcome: Result<ReceivedItem, String>) -> (res: Vec<Effect>)
        ensures
            final(self)@ == after_receive_finished(
                old(self)@,
                generation,
                received_view(outcome),
                final(self)@.completed_name,
            ).0,
            effect_views(res@) == after_receive_finished(
                old(self)@,
                generation,
                received_view(outcome),
                final(self)@.completed_name,
            ).1,
            generation == old(self)@.generation && outcome is Ok ==> file_name_fits(
                final(self)@.completed_name,
                outcome->Ok_0.path@,
            ),
    {
        if generation != self.generation {
            let res: Vec<Effect> = Vec::new();
            assert(effect_views(res@) =~= Seq::<EffectView>::empty());
            return res;
        }
        match outcome {
            Ok(item) => {
                self.receive_phase = TransferPhase::Completed;
                self.completed_name = file_name(item.path.as_str());
                self.completed_path = Some(item.path);
                self.completed_size = item.size;
                self.status = self.status_text("download_completed", "Download completed");
                let res = vec![Effect::ForgetReceiveTask, Effect::RecordDuration, Effect::StopClock, Effect::Notify];
                assert(effect_views(res@) =~= seq![EffectView::ForgetReceiveTask, EffectView::RecordDuration, EffectView::StopClock, EffectView::Notify]);
                res
            },
            Err(e) => {
                self.receive_phase = TransferPhase::Failed;
                self.error = Some(e);
                self.status = self.status_text("receive_failed", "Receive failed");
                let res = vec![Effect::ForgetReceiveTask, Effect::StopClock, Effect::Notify];
                assert(effect_views(res@) =~= seq![EffectView::ForgetReceiveTask, EffectView::StopClock, EffectView::Notify]);
                res
            },
        }
    }

    /// The stop-receiving button.
    pub fn stop_receiving(&mut self) -> (res: Vec<Effect>)
        requires
            old(self)@.generation < u64::MAX,
        ensures
            final(self)@ == after_stop_receiving(old(self)@).0,
            effect_views(res@) == after_stop_receiving(old(self)@).1,
    {
        self.generation = self.generation + 1;
        self.receive_phase = TransferPhase::Idle;
        self.status = self.status_text("ok", "Ready");
        let res = vec![Effect::AbortReceive, Effect::StopClock, Effect::Notify];
        assert(effect_views(res@) =~= seq![EffectView::AbortReceive, EffectView::StopClock, EffectView::Notify]);
        res
    }

    /// The window closes: both tasks are aborted and a kept share is released.
    pub fn stop_on_exit(&mut self) -> (res: Vec<Effect>)
        ensures
            final(self)@ == after_exit(old(self)@).0,
            effect_views(res@) == after_exit(old(self)@).1,
    {
        if self.share_open {
            self.share_open = false;
            let res = vec![Effect::AbortSend, Effect::AbortReceive, Effect::ReleaseShare];
            assert(effect_views(res@) =~= seq![EffectView::AbortSend, EffectView::AbortReceive, EffectView::ReleaseShare]);
            res
        } else {
            let res = vec![Effect::AbortSend, Effect::AbortReceive];
            assert(effect_views(res@) =~= seq![EffectView::AbortSend, EffectView::AbortReceive]);
            res
        }
    }

    /// Whether a transfer runs on either side.
    pub fn is_transfer_active(&self) -> (res: bool)
        ensures
            res == transfer_active(self@),
    {
        let send = self.send_phase;
        let receive = self.receive_phase;
        send == TransferPhase::Preparing || send == TransferPhase::Sharing || send
            == TransferPhase::Transporting || send == TransferPhase::Stopping || receive
            == TransferPhase::Connecting || receive == TransferPhase::Transporting
    }

    /// The new-transfer button.
    pub fn new_transfer(&mut self) -> (res: Vec<Effect>)
        requires
            !transfer_active(old(self)@) ==> old(self)@.generation < u64::MAX,
        ensures
            final(self)@ == after_new_transfer(old(self)@).0,
            effect_views(res@) == after_new_transfer(old(self)@).1,
    {
        if self.is_transfer_active() {
            self.error = Some(self.text("transfer.stopped"));
            let res = vec![Effect::Notify];
            assert(effect_views(res@) =~= seq![EffectView::Notify]);
            return res;
        }
        let mut res: Vec<Effect> = vec![Effect::AbortSend];
        if self.share_open {
            res.push(Effect::ReleaseShare);
        }
        self.share_open = false;
        self.generation = self.generation + 1;
        self.send_phase = TransferPhase::Idle;
        self.receive_phase = TransferPhase::Idle;
        self.selected_path = None;
        self.ticket = None;
        self.ticket_input.clear();
        self.receive_files.clear();
        self.completed_name = None;
        self.completed_path = None;
        self.completed_size = 0;
        self.error = None;
        self.status = self.status_text("ok", "Ready");
        res.push(Effect::ResetDuration);
        res.push(Effect::StopClock);
        res.push(Effect::Notify);
        assert(self.receive_files@.map_values(|s: String| s@) =~= Seq::<Seq<char>>::empty());
        assert(effect_views(res@) =~= after_new_transfer(old(self)@).1);
        res
    }

    /// A transfer event reported under `generation`.
    #[verifier::rlimit(40)]
    pub fn apply_event(&mut self, generation: u64, event: TransferEvent) -> (res: Vec<Effect>)
        ensures
            final(self)@ == after_event(old(self)@, generation, event@, final(self)@.completed_name).0,
            effect_views(res@) == after_event(
                old(self)@,
                generation,
                event@,
                final(self)@.completed_name,
            ).1,
            generation == old(self)@.generation && event@ == (TransferEventView::Completed {
                role: Role::Sender,
            }) ==> names_file_of(final(self)@.completed_name, old(self)@.selected_path),
    {
        if generation != self.generation {
            let res: Vec<Effect> = Vec::new();
            assert(effect_views(res@) =~= Seq::<EffectView>::empty());
            return res;
        }
        let res = match event {
            TransferEvent::Started { role: Role::Sender } => {
                self.send_phase = TransferPhase::Sharing;
                self.status = self.status_text("listening", "Listening for a receiver");
                vec![Effect::StartClock, Effect::Notify]
            },
            TransferEvent::Started { role: Role::Receiver } => {
                self.receive_phase = TransferPhase::Transporting;
                self.status = self.status_text("downloading", "Downloading in progress");
                vec![Effect::StartClock, Effect::Notify]
            },
            TransferEvent::Progress { role: Role::Sender, processed, total } => {
                self.send_phase = TransferPhase::Transporting;
                self.send_progress = Progress { processed, total };
                self.status = self.status_text("sharing", "Sharing in progress");
                vec![Effect::RecordSpeed(Role::Sender), Effect::Notify]
            },
            TransferEvent::Progress { role: Role::Receiver, processed, total } => {
                self.receive_phase = TransferPhase::Transporting;
                self.receive_progress = Progress { processed, total };
                self.status = self.status_text("downloading", "Downloading in progress");
                vec![Effect::RecordSpeed(Role::Receiver), Effect::Notify]
            },
            TransferEvent::FileNames { role: Role::Receiver, file_names } => {
                self.receive_files = file_names;
                vec![Effect::Notify]
            },
            TransferEvent::FileNames { role: Role::Sender, file_names: _ } => {
                vec![Effect::Notify]
            },
            TransferEvent::Completed { role: Role::Sender } => {
                self.send_phase = TransferPhase::Completed;
                self.completed_name = match &self.selected_path {
                    Some(path) => file_name(path.as_str()),
                    None => None,
                };
                self.completed_path = clone_opt(&self.selected_path);
                self.completed_size = self.send_progress.total;
                self.status = self.status_text("transfer_completed", "Transfer completed");
                vec![Effect::RecordDuration, Effect::StopClock, Effect::Notify]
            },
            TransferEvent::Completed { role: Role::Receiver } => {
                self.receive_phase = TransferPhase::Transporting;
                self.status = self.status_text("finalizing", "Finalizing download");
                vec![Effect::Notify]
            },
            TransferEvent::Failed { role: Role::Sender, message } => {
                self.error = Some(message);
                self.send_phase = TransferPhase::Failed;
                self.receive_phase = TransferPhase::Idle;
                self.status = self.status_text("transfer_failed", "Transfer failed");
                vec![Effect::StopClock, Effect::Notify]
            },
            TransferEvent::Failed { role: Role::Receiver, message } => {
                self.error = Some(message);
                self.send_phase = TransferPhase::Idle;
                self.receive_phase = TransferPhase::Failed;
                self.status = self.status_text("transfer_failed", "Transfer failed");
                vec![Effect::StopClock, Effect::Notify]
            },
        };
        assert(effect_views(res@) =~= after_event(
            old(self)@,
            generation,
            event@,
            self@.completed_name,
        ).1);
        res
    }

    /// The try-again button: failed sides return to idle, the error is cleared.
    pub fn try_again(&mut self) -> (res: Vec<Effect>)
        requires
            has_failed(old(self)@) ==> old(self)@.generation < u64::MAX,
        ensures
            final(self)@ == after_try_again(old(self)@).0,
            effect_views(res@) == after_try_again(old(self)@).1,
    {
        let send_failed = self.send_phase == TransferPhase::Failed;
        let receive_failed = self.receive_phase == TransferPhase::Failed;
        if !send_failed && !receive_failed {
            let res: Vec<Effect> = Vec::new();
            assert(effect_views(res@) =~= Seq::<EffectView>::empty());
            return res;
        }
        let mut res: Vec<Effect> = Vec::new();
        if send_failed {
            res.push(Effect::AbortSend);
            if self.share_open {
                res.push(Effect::ReleaseShare);
            }
            self.share_open = false;
            self.ticket = None;
            self.send_phase = TransferPhase::Idle;
        }
        if receive_failed {
            res.push(Effect::AbortReceive);
            self.receive_phase = TransferPhase::Idle;
        }
        res.push(Effect::StopClock);
        res.push(Effect::Notify);
        self.generation = self.generation + 1;
        self.error = None;
        self.status = self.status_text("ok", "Ready");
        assert(effect_views(res@) =~= after_try_again(old(self)@).1);
        res
    }

    /// The retry button of a failed receive: receives the ticket in the field again.
    pub fn retry_receiving(&mut self) -> (res: Vec<Effect>)
        requires
            old(self)@.receive_phase == TransferPhase::Failed ==> old(self)@.generation
                < u64::MAX,
            old(self)@.receive_phase == TransferPhase::Failed && trim_ws(old(self)@.ticket_text).len()
                > 0 ==> old(self)@.generation < u64::MAX - 1,
        ensures
            final(self)@ == after_retry_receiving(old(self)@).0,
            effect_views(res@) == after_retry_receiving(old(self)@).1,
    {
        if self.receive_phase != TransferPhase::Failed {
            let res: Vec<Effect> = Vec::new();
            assert(effect_views(res@) =~= Seq::<EffectView>::empty());
            return res;
        }
        self.generation = self.generation + 1;
        self.receive_phase = TransferPhase::Idle;
        self.error = None;
        self.status = self.status_text("ok", "Ready");
        let mut started = self.start_receiving();
        let mut res: Vec<Effect> = vec![Effect::AbortReceive];
        let ghost first = res@;
        let ghost then = started@;
        res.append(&mut started);
        assert(res@ == first + then);
        assert(effect_views(res@) =~= seq![EffectView::AbortReceive] + effect_views(then));
        res
    }

    /// A tab click; tabs switch only while neither side transfers.
    pub fn select_tab(&mut self, tab: Tab) -> (res: Vec<Effect>)
        ensures
            final(self)@ == after_select_tab(old(self)@, tab).0,
            effect_views(res@) == after_select_tab(old(self)@, tab).1,
    {
        if self.send_phase == TransferPhase::Idle && self.receive_phase == TransferPhase::Idle {
            self.tab = tab;
            let res = vec![Effect::Notify];
            assert(effect_views(res@) =~= seq![EffectView::Notify]);
            res
        } else {
            let res: Vec<Effect> = Vec::new();
            assert(effect_views(res@) =~= Seq::<EffectView>::empty());
            res
        }
    }

    /// The theme button: system, dark, light, and round again.
    pub fn cycle_theme(&mut self) -> (res: Vec<Effect>)
        ensures
            final(self)@ == after_cycle_theme(old(self)@).0,
            effect_views(res@) == after_cycle_theme(old(self)@).1,
    {
        self.theme = match self.theme {
            Theme::System => Theme::Dark,
            Theme::Dark => Theme::Light,
            Theme::Light => Theme::System,
        };
        let res = vec![Effect::Notify];
        assert(effect_views(res@) =~= seq![EffectView::Notify]);
        res
    }

    /// The language button: the next locale of the menu, wrapping to the first.
    pub fn cycle_locale(&mut self) -> (res: Vec<Effect>)
        ensures
            final(self)@ == after_cycle_locale(old(self)@).0,
            effect_views(res@) == after_cycle_locale(old(self)@).1,
    {
        let locales = Locale::all();
        proof {
            lemma_all_locales_listed_once(self.locale);
        }
        let mut index: usize = 0;
        let mut found = false;
        let mut i: usize = 0;
        while i < locales.len()
            invariant
                locales@ == all_locales(),
                i <= locales@.len() == 21,
                found ==> index == menu_index(old(self)@.locale),
                !found ==> forall|j: int| 0 <= j < i ==> locales@[j] != old(self)@.locale,
                self.locale == old(self)@.locale,
                0 <= menu_index(old(self)@.locale) < 21,
                all_locales()[menu_index(old(self)@.locale)] == old(self)@.locale,
                forall|a: int, b: int|
                    0 <= a < 21 && 0 <= b < 21 && a != b ==> all_locales()[a] != all_locales()[b],
            decreases locales@.len() - i,
        {
            if !found && locales[i] == self.locale {
                index = i;
                found = true;
            }
            i = i + 1;
        }
        assert(found);
        self.locale = locales[(index + 1) % locales.len()];
        let res = vec![Effect::Notify];
        assert(effect_views(res@) =~= seq![EffectView::Notify]);
        res
    }

    /// Text typed into the ticket field.
    pub fn edit_ticket(&mut self, range: Option<Range<usize>>, inserted: &str) -> (res: Vec<Effect>)
        ensures
            final(self)@ == after_edit_ticket(old(self)@, range, inserted@).0,
            effect_views(res@) == after_edit_ticket(old(self)@, range, inserted@).1,
    {
        self.ticket_input.replace(range, inserted);
        let res = vec![Effect::Notify];
        assert(effect_views(res@) =~= seq![EffectView::Notify]);
        res
    }

    /// Text composed into the ticket field, with the composition's selection.
    pub fn mark_ticket(&mut self, range: Option<Range<usize>>, inserted: &str, selected: Option<Range<usize>>) -> (res: Vec<Effect>)
        ensures
            final(self)@ == after_mark_ticket(old(self)@, range, inserted@, selected).0,
            effect_views(res@) == after_mark_ticket(old(self)@, range, inserted@, selected).1,
    {
        self.ticket_input.replace_and_mark(range, inserted, selected);
        let res = vec![Effect::Notify];
        assert(effect_views(res@) =~= seq![EffectView::Notify]);
        res
    }
}

/// The window colours, as 0xRRGGBB values.
#[derive(Clone, Copy, Debug, PartialEq, Eq, Structural)]
pub struct Palette {
    pub background: u32,
    pub panel: u32,
    pub panel_alt: u32,
    pub text: u32,
    pub muted: u32,
    pub border: u32,
    pub accent: u32,
    pub accent_alt: u32,
    pub danger: u32,
}

/// The light colour scheme.
pub open spec fn light_palette() -> Palette {
    Palette {
        background: 0xf2f5f9,
        panel: 0xffffff,
        panel_alt: 0xe7edf3,
        text: 0x17201b,
        muted: 0x617068,
        border: 0xd0d9d4,
        accent: 0x159447,
        accent_alt: 0x2675ce,
        danger: 0xb93c3c,
    }
}

/// The dark colour scheme.
pub open spec fn dark_palette() -> Palette {
    Palette {
        background: 0x191919,
        panel: 0x242424,
        panel_alt: 0x363636,
        text: 0xf5f7f6,
        muted: 0xa6b2ab,
        border: 0x484f4b,
        accent: 0x25d365,
        accent_alt: 0x4e9bea,
        danger: 0xf06b6b,
    }
}

/// Whether the dark scheme applies: chosen explicitly, or following a dark system.
pub open spec fn uses_dark(theme: Theme, system_is_dark: bool) -> bool {
    match theme {
        Theme::System => system_is_dark,
        Theme::Dark => true,
        Theme::Light => false,
    }
}

/// What the send view shows and which of its buttons work.
#[derive(Clone, Copy, Debug, PartialEq, Eq, Structural)]
pub struct SendView {
    /// The start-sharing button is shown.
    pub start_shown: bool,
    /// The start-sharing button works.
    pub start_enabled: bool,
    /// Progress with the copy and stop buttons is shown.
    pub progress_shown: bool,
    /// The copy-ticket button works.
    pub copy_enabled: bool,
    /// The completion summary is shown.
    pub completion_shown: bool,
    /// The ticket card is shown.
    pub ticket_shown: bool,
    /// The failure card with the try-again button is shown.
    pub failure_shown: bool,
}

/// What the receive view shows and which of its buttons work.
#[derive(Clone, Copy, Debug, PartialEq, Eq, Structural)]
pub struct ReceiveView {
    /// The ticket field, folder choice and start button are shown.
    pub input_shown: bool,
    /// The start-receiving button works.
    pub start_enabled: bool,
    /// Progress with the stop button is shown.
    pub progress_shown: bool,
    /// The completion summary is shown.
    pub completion_shown: bool,
    /// The failure card with the retry and try-again buttons is shown.
    pub failure_shown: bool,
}

/// The send view of state `s`.
pub open spec fn send_view_of(s: WorkbenchView) -> SendView {
    let sharing = s.send_phase == TransferPhase::Sharing || s.send_phase
        == TransferPhase::Transporting;
    let completed = s.send_phase == TransferPhase::Completed;
    let failed = s.send_phase == TransferPhase::Failed;
    SendView {
        start_shown: !sharing && !completed && !failed,
        start_enabled: s.send_phase == TransferPhase::Idle && s.selected_path is Some,
        progress_shown: sharing,
        copy_enabled: s.ticket is Some,
        completion_shown: completed,
        ticket_shown: s.ticket is Some && !completed && !failed,
        failure_shown: failed,
    }
}

/// The receive view of state `s`.
pub open spec fn receive_view_of(s: WorkbenchView) -> ReceiveView {
    let receiving = s.receive_phase != TransferPhase::Idle;
    let completed = s.receive_phase == TransferPhase::Completed;
    let failed = s.receive_phase == TransferPhase::Failed;
    ReceiveView {
        input_shown: !receiving,
        start_enabled: trim_ws(s.ticket_text).len() > 0,
        progress_shown: receiving && !completed && !failed,
        completion_shown: completed,
        failure_shown: failed,
    }
}

impl Workbench {
    /// The window colours for the chosen theme; `system_is_dark` is the system's appearance.
    pub fn colors(&self, system_is_dark: bool) -> (res: Palette)
        ensures
            res == (if uses_dark(self@.theme, system_is_dark) {
                dark_palette()
            } else {
                light_palette()
            }),
    {
        let dark = match self.theme {
            Theme::System => system_is_dark,
            Theme::Dark => true,
            Theme::Light => false,
        };
        if !dark {
            Palette {
                background: 0xf2f5f9,
                panel: 0xffffff,
                panel_alt: 0xe7edf3,
                text: 0x17201b,
                muted: 0x617068,
                border: 0xd0d9d4,
                accent: 0x159447,
                accent_alt: 0x2675ce,
                danger: 0xb93c3c,
            }
        } else {
            Palette {
                background: 0x191919,
                panel: 0x242424,
                panel_alt: 0x363636,
                text: 0xf5f7f6,
                muted: 0xa6b2ab,
                border: 0x484f4b,
                accent: 0x25d365,
                accent_alt: 0x4e9bea,
                danger: 0xf06b6b,
            }
        }
    }

    /// What the send view shows.
    pub fn send_view(&self) -> (res: SendView)
        ensures
            res == send_view_of(self@),
    {
        let sharing = self.send_phase == TransferPhase::Sharing || self.send_phase
            == TransferPhase::Transporting;
        let completed = self.send_phase == TransferPhase::Completed;
        let failed = self.send_phase == TransferPhase::Failed;
        SendView {
            start_shown: !sharing && !completed && !failed,
            start_enabled: self.send_phase == TransferPhase::Idle && self.selected_path.is_some(),
            progress_shown: sharing,
            copy_enabled: self.ticket.is_some(),
            completion_shown: completed,
            ticket_shown: self.ticket.is_some() && !completed && !failed,
            failure_shown: failed,
        }
    }

    /// What the receive view shows.
    pub fn receive_view(&self) -> (res: ReceiveView)
        ensures
            res == receive_view_of(self@),
    {
        let receiving = self.receive_phase != TransferPhase::Idle;
        let completed = self.receive_phase == TransferPhase::Completed;
        let failed = self.receive_phase == TransferPhase::Failed;
        let trimmed = self.ticket_input.trimmed();
        ReceiveView {
            input_shown: !receiving,
            start_enabled: !trimmed.as_str().is_empty(),
            progress_shown: receiving && !completed && !failed,
            completion_shown: completed,
            failure_shown: failed,
        }
    }

    /// The label of the theme button's value.
    pub fn theme_label(&self) -> (res: String)
        ensures
            res@ == display_text(
                self@.locale,
                match self@.theme {
                    Theme::System => "theme.system"@,
                    Theme::Dark => "theme.dark"@,
                    Theme::Light => "theme.light"@,
                },
            ),
    {
        match self.theme {
            Theme::System => self.text("theme.system"),
            Theme::Dark => self.text("theme.dark"),
            Theme::Light => self.text("theme.light"),
        }
    }

    /// The label of the update button.
    pub fn update_button_label(&self) -> (res: String)
        ensures
            res@ == display_text(
                self@.locale,
                if self@.update_checking {
                    "update.checking"@
                } else if self@.update_info is Some {
                    "update.found"@
                } else {
                    "update.checkNow"@
                },
            ),
    {
        if self.update_checking {
            self.text("update.checking")
        } else if self.update_info.is_some() {
            self.text("update.found")
        } else {
            self.text("update.checkNow")
        }
    }

    /// The current tab.
    pub fn tab(&self) -> (res: Tab)
        ensures
            res == self@.tab,
    {
        self.tab
    }

    /// The current theme choice.
    pub fn theme(&self) -> (res: Theme)
        ensures
            res == self@.theme,
    {
        self.theme
    }

    /// The current locale.
    pub fn locale(&self) -> (res: Locale)
        ensures
            res == self@.locale,
    {
        self.locale
    }

    /// Where the sending side stands.
    pub fn send_phase(&self) -> (res: TransferPhase)
        ensures
            res == self@.send_phase,
    {
        self.send_phase
    }

    /// Where the receiving side stands.
    pub fn receive_phase(&self) -> (res: TransferPhase)
        ensures
            res == self@.receive_phase,
    {
        self.receive_phase
    }

    /// The path chosen for sharing.
    pub fn selected_path(&self) -> (res: Option<String>)
        ensures
            opt_view(res) == self@.selected_path,
    {
        clone_opt(&self.selected_path)
    }

    /// Whether the chosen path is a folder.
    pub fn selected_is_dir(&self) -> (res: bool)
        ensures
            res == self@.selected_is_dir,
    {
        self.selected_is_dir
    }

    /// The ticket of the open share.
    pub fn ticket(&self) -> (res: Option<String>)
        ensures
            opt_view(res) == self@.ticket,
    {
        clone_opt(&self.ticket)
    }

    /// The ticket field.
    pub fn ticket_input(&self) -> (res: &TicketInput)
        ensures
            res.contents() == self@.ticket_text,
            res.selected() == self@.ticket_selection,
    {
        &self.ticket_input
    }

    /// The download folder.
    pub fn save_path(&self) -> (res: &str)
        ensures
            res@ == self@.save_path,
    {
        self.save_path.as_str()
    }

    /// Sending progress.
    pub fn send_progress(&self) -> (res: Progress)
        ensures
            res == self@.send_progress,
    {
        self.send_progress
    }

    /// Receiving progress.
    pub fn receive_progress(&self) -> (res: Progress)
        ensures
            res == self@.receive_progress,
    {
        self.receive_progress
    }

    /// The names of the files being received.
    pub fn receive_files(&self) -> (res: &Vec<String>)
        ensures
            res@.map_values(|s: String| s@) == self@.receive_files,
    {
        &self.receive_files
    }

    /// The status line.
    pub fn status(&self) -> (res: &str)
        ensures
            res@ == self@.status,
    {
        self.status.as_str()
    }

    /// The error shown under the views.
    pub fn error(&self) -> (res: Option<String>)
        ensures
            opt_view(res) == self@.error,
    {
        clone_opt(&self.error)
    }

    /// The name of the completed transfer's item.
    pub fn completed_name(&self) -> (res: Option<String>)
        ensures
            opt_view(res) == self@.completed_name,
    {
        clone_opt(&self.completed_name)
    }

    /// The path of the completed transfer's item.
    pub fn completed_path(&self) -> (res: Option<String>)
        ensures
            opt_view(res) == self@.completed_path,
    {
        clone_opt(&self.completed_path)
    }

    /// The size in bytes of the completed transfer's item.
    pub fn completed_size(&self) -> (res: u64)
        ensures
            res == self@.completed_size,
    {
        self.completed_size
    }

    /// The number of the latest transfer operation.
    pub fn generation(&self) -> (res: u64)
        ensures
            res == self@.generation,
    {
        self.generation
    }

    /// Whether an update check runs.
    pub fn update_checking(&self) -> (res: bool)
        ensures
            res == self@.update_checking,
    {
        self.update_checking
    }

    /// Whether a newer release is on offer.
    pub fn has_update(&self) -> (res: bool)
        ensures
            res == self@.update_info is Some,
    {
        self.update_info.is_some()
    }

    /// The update check's status line.
    pub fn update_status(&self) -> (res: Option<String>)
        ensures
            opt_view(res) == self@.update_status,
    {
        clone_opt(&self.update_status)
    }
}

} // verus!
