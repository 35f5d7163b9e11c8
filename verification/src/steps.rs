//! What each workbench action and transfer outcome does, stated over the workbench's view.

use vstd::prelude::*;
use crate::locale::{
    all_locales, catalog_text, lemma_all_locales_listed_once, menu_index, table_get, ui_source_key,
    Locale,
};
use crate::text::replace_all;
use crate::ticket::{
    edit_accepted, edit_bounds, edited_text, lemma_fitting_edit_applied, lemma_offsets_round_trip,
    lemma_unfitting_edit_dropped,
    trim_ws, utf16_len, utf16_to_byte_offset, utf8_len, MAX_TICKET_LEN,
};
use crate::update::SPONSOR_URL;
use crate::workbench::{
    receive_view_of, send_view_of, EffectView, Progress, Role, Tab, Theme, TransferPhase, WorkbenchView,
    COPY_FALLBACKS,
};
use core::ops::Range;

verus! {

/// The text shown for a catalogue key: the locale's, else English, else the key itself.
pub open spec fn display_text(locale: Locale, key: Seq<char>) -> Seq<char> {
    match catalog_text(locale, key) {
        Some(v) => v@,
        None => match catalog_text(Locale::English, key) {
            Some(v) => v@,
            None => key,
        },
    }
}

/// The status line for `key`: its catalogue text, or `fallback` where the key has none.
pub open spec fn status_text_for(locale: Locale, key: Seq<char>, fallback: Seq<char>) -> Seq<char> {
    if display_text(locale, key) == key {
        fallback
    } else {
        display_text(locale, key)
    }
}

/// The label for a short UI name: its catalogue text through the UI aliases, else the
/// built-in English label, else nothing.
pub open spec fn copy_text(locale: Locale, key: Seq<char>) -> &'static str {
    match catalog_text(locale, ui_source_key(key)) {
        Some(v) => v,
        None => match table_get(COPY_FALLBACKS@, key) {
            Some(v) => v,
            None => "",
        },
    }
}

/// The status line of state `s` for `key`, with `fallback` where the key has no text.
pub open spec fn status_of(s: WorkbenchView, key: &'static str, fallback: &'static str) -> Seq<char> {
    status_text_for(s.locale, key@, fallback@)
}

/// Whether a transfer is running on either side, so that a new one may not begin.
pub open spec fn transfer_active(s: WorkbenchView) -> bool {
    ||| s.send_phase == TransferPhase::Preparing
    ||| s.send_phase == TransferPhase::Sharing
    ||| s.send_phase == TransferPhase::Transporting
    ||| s.send_phase == TransferPhase::Stopping
    ||| s.receive_phase == TransferPhase::Connecting
    ||| s.receive_phase == TransferPhase::Transporting
}

/// Whether either side has failed and waits for the user to try again.
pub open spec fn has_failed(s: WorkbenchView) -> bool {
    s.send_phase == TransferPhase::Failed || s.receive_phase == TransferPhase::Failed
}

/// The next colour scheme: system, dark, light, and round again.
pub open spec fn next_theme(theme: Theme) -> Theme {
    match theme {
        Theme::System => Theme::Dark,
        Theme::Dark => Theme::Light,
        Theme::Light => Theme::System,
    }
}

/// The locale after `locale` in the language menu, wrapping to the first.
pub open spec fn next_locale(locale: Locale) -> Locale {
    all_locales()[(menu_index(locale) + 1) % 21]
}

/// A path chosen by picker or drop; nothing happens for a path that does not exist.
pub open spec fn after_select_path(
    s: WorkbenchView,
    path: Seq<char>,
    is_dir: bool,
    exists: bool,
) -> (WorkbenchView, Seq<EffectView>) {
    if !exists {
        (s, seq![])
    } else {
        (
            WorkbenchView {
                selected_is_dir: is_dir,
                selected_path: Some(path),
                error: None,
                status: if is_dir {
                    status_of(s, "path_selected_folder", "Path selected")
                } else {
                    status_of(s, "path_selected_file", "Path selected")
                },
                ..s
            },
            seq![EffectView::Notify],
        )
    }
}

/// A download folder chosen in the picker.
pub open spec fn after_set_save_path(s: WorkbenchView, path: Seq<char>) -> (
    WorkbenchView,
    Seq<EffectView>,
) {
    (
        WorkbenchView { save_path: path, status: status_of(s, "save", "Download folder selected"), ..s },
        seq![EffectView::Notify],
    )
}

/// Showing the completed download in the file manager.
pub open spec fn after_reveal_completed(s: WorkbenchView) -> (WorkbenchView, Seq<EffectView>) {
    match s.completed_path {
        Some(path) => (
            WorkbenchView {
                status: status_of(s, "download_completed", "Opened downloaded item"),
                ..s
            },
            seq![EffectView::RevealPath(path), EffectView::Notify],
        ),
        None => (s, seq![]),
    }
}

/// Starting an update check, unless one is running.
pub open spec fn after_check_for_updates(s: WorkbenchView) -> (WorkbenchView, Seq<EffectView>) {
    if s.update_checking {
        (s, seq![])
    } else {
        (
            WorkbenchView {
                update_checking: true,
                update_status: Some(display_text(s.locale, "update.checking"@)),
                ..s
            },
            seq![EffectView::Notify, EffectView::FetchUpdate],
        )
    }
}

/// The outcome of an update check: an offer (version, download URL), none, or an error.
pub open spec fn after_update_checked(
    s: WorkbenchView,
    outcome: Result<Option<(Seq<char>, Seq<char>)>, Seq<char>>,
) -> (WorkbenchView, Seq<EffectView>) {
    let t = match outcome {
        Ok(Some(info)) => WorkbenchView {
            update_checking: false,
            update_status: Some(
                replace_all(display_text(s.locale, "update.found"@), "{{version}}"@, info.0),
            ),
            update_info: Some(info),
            ..s
        },
        Ok(None) => WorkbenchView {
            update_checking: false,
            update_info: None,
            update_status: Some(display_text(s.locale, "update.upToDate"@)),
            ..s
        },
        Err(e) => WorkbenchView {
            update_checking: false,
            update_info: None,
            update_status: Some(display_text(s.locale, "update.failed"@) + ": "@ + e),
            ..s
        },
    };
    (t, seq![EffectView::Notify])
}

/// The update button: open the offered download, else start a check unless one runs.
pub open spec fn after_open_update_or_check(s: WorkbenchView) -> (WorkbenchView, Seq<EffectView>) {
    match s.update_info {
        Some(info) => (
            WorkbenchView { status: display_text(s.locale, "update.installed"@), ..s },
            seq![EffectView::OpenUrl(info.1), EffectView::Notify],
        ),
        None => if !s.update_checking {
            (after_check_for_updates(s).0, after_check_for_updates(s).1.push(EffectView::Notify))
        } else {
            (s, seq![EffectView::Notify])
        },
    }
}

/// Opening the sponsorship page.
pub open spec fn after_open_sponsor(s: WorkbenchView) -> (WorkbenchView, Seq<EffectView>) {
    (
        WorkbenchView { status: status_of(s, "donate", "Donation page opened"), ..s },
        seq![EffectView::OpenUrl(SPONSOR_URL@), EffectView::Notify],
    )
}

/// The start-sharing button: needs a chosen path and an idle sender.
pub open spec fn after_start_sharing(s: WorkbenchView) -> (WorkbenchView, Seq<EffectView>) {
    match s.selected_path {
        None => (
            WorkbenchView { error: Some(display_text(s.locale, "sender.dropFilesHere"@)), ..s },
            seq![EffectView::Notify],
        ),
        Some(path) => if s.send_phase != TransferPhase::Idle {
            (s, seq![])
        } else {
            let g = (s.generation + 1) as u64;
            (
                WorkbenchView {
                    generation: g,
                    send_phase: TransferPhase::Preparing,
                    status: status_of(s, "preparing", "Preparing encrypted share..."),
                    error: None,
                    ..s
                },
                seq![EffectView::StartClock, EffectView::SpawnSend { path, generation: g }],
            )
        },
    }
}

/// The share prepared under `generation` is ready with a ticket, or failed.
pub open spec fn after_send_ready(
    s: WorkbenchView,
    generation: u64,
    outcome: Result<Seq<char>, Seq<char>>,
) -> (WorkbenchView, Seq<EffectView>) {
    if generation != s.generation {
        (s, seq![])
    } else {
        match outcome {
            Ok(ticket) => (
                WorkbenchView {
                    ticket: Some(ticket),
                    share_open: true,
                    send_phase: TransferPhase::Sharing,
                    status: status_of(s, "listening", "Listening for a receiver"),
                    ..s
                },
                seq![EffectView::ForgetSendTask, EffectView::KeepShare, EffectView::Notify],
            ),
            Err(e) => (
                WorkbenchView {
                    send_phase: TransferPhase::Failed,
                    error: Some(e),
                    status: status_of(s, "transfer_failed", "Sharing failed"),
                    ..s
                },
                seq![EffectView::ForgetSendTask, EffectView::Notify],
            ),
        }
    }
}

/// The stop-sharing button.
pub open spec fn after_stop_sharing(s: WorkbenchView) -> (WorkbenchView, Seq<EffectView>) {
    let g = (s.generation + 1) as u64;
    if !s.share_open {
        (
            WorkbenchView {
                generation: g,
                send_phase: TransferPhase::Idle,
                status: status_of(s, "ok", "Ready"),
                ..s
            },
            seq![EffectView::AbortSend, EffectView::StopClock, EffectView::Notify],
        )
    } else {
        (
            WorkbenchView {
                generation: g,
                share_open: false,
                send_phase: TransferPhase::Stopping,
                status: status_of(s, "stopping", "Stopping share..."),
                ..s
            },
            seq![EffectView::AbortSend, EffectView::ShutdownShare { generation: g }],
        )
    }
}

/// The share shut down under `generation` has closed, possibly with an error.
pub open spec fn after_share_stopped(
    s: WorkbenchView,
    generation: u64,
    outcome: Result<(), Seq<char>>,
) -> (WorkbenchView, Seq<EffectView>) {
    if generation != s.generation {
        (s, seq![])
    } else {
        (
            WorkbenchView {
                send_phase: TransferPhase::Idle,
                ticket: None,
                status: status_of(s, "ok", "Ready"),
                error: match outcome {
                    Err(e) => Some(e),
                    Ok(_) => s.error,
                },
                ..s
            },
            seq![EffectView::StopClock, EffectView::Notify],
        )
    }
}

/// The copy-ticket button.
pub open spec fn after_copy_ticket(s: WorkbenchView) -> (WorkbenchView, Seq<EffectView>) {
    match s.ticket {
        Some(ticket) => (
            WorkbenchView {
                status: status_of(s, "ticket_copied", "Ticket copied to clipboard"),
                ..s
            },
            seq![EffectView::CopyToClipboard(ticket), EffectView::Notify],
        ),
        None => (s, seq![]),
    }
}

/// Pasting clipboard text (if the clipboard held text) into the ticket field.
pub open spec fn after_paste_ticket(s: WorkbenchView, text: Option<Seq<char>>) -> (
    WorkbenchView,
    Seq<EffectView>,
) {
    match text {
        Some(t) => (
            WorkbenchView {
                ticket_text: t,
                ticket_selection: (utf8_len(t) as int, utf8_len(t) as int),
                ..s
            },
            seq![EffectView::Notify],
        ),
        None => (s, seq![]),
    }
}

/// The start-receiving button: needs a non-blank ticket and an idle receiver.
pub open spec fn after_start_receiving(s: WorkbenchView) -> (WorkbenchView, Seq<EffectView>) {
    let ticket = trim_ws(s.ticket_text);
    if ticket.len() == 0 {
        (
            WorkbenchView { error: Some(display_text(s.locale, "receiver.pasteTicket"@)), ..s },
            seq![EffectView::Notify],
        )
    } else if s.receive_phase != TransferPhase::Idle {
        (s, seq![])
    } else {
        let g = (s.generation + 1) as u64;
        (
            WorkbenchView {
                generation: g,
                receive_phase: TransferPhase::Connecting,
                status: status_of(s, "connecting", "Connecting to sender..."),
                error: None,
                ..s
            },
            seq![
                EffectView::StartClock,
                EffectView::SpawnReceive { ticket, save_path: s.save_path, generation: g },
            ],
        )
    }
}

/// The receive started under `generation` finished: (path, size) or an error. `name` is
/// the file name found for the received path.
pub open spec fn after_receive_finished(
    s: WorkbenchView,
    generation: u64,
    outcome: Result<(Seq<char>, u64), Seq<char>>,
    name: Option<Seq<char>>,
) -> (WorkbenchView, Seq<EffectView>) {
    if generation != s.generation {
        (s, seq![])
    } else {
        match outcome {
            Ok(item) => (
                WorkbenchView {
                    receive_phase: TransferPhase::Completed,
                    completed_name: name,
                    completed_path: Some(item.0),
                    completed_size: item.1,
                    status: status_of(s, "download_completed", "Download completed"),
                    ..s
                },
                seq![
                    EffectView::ForgetReceiveTask,
                    EffectView::RecordDuration,
                    EffectView::StopClock,
                    EffectView::Notify,
                ],
            ),
            Err(e) => (
                WorkbenchView {
                    receive_phase: TransferPhase::Failed,
                    error: Some(e),
                    status: status_of(s, "receive_failed", "Receive failed"),
                    ..s
                },
                seq![EffectView::ForgetReceiveTask, EffectView::StopClock, EffectView::Notify],
            ),
        }
    }
}

/// The stop-receiving button.
pub open spec fn after_stop_receiving(s: WorkbenchView) -> (WorkbenchView, Seq<EffectView>) {
    (
        WorkbenchView {
            generation: (s.generation + 1) as u64,
            receive_phase: TransferPhase::Idle,
            status: status_of(s, "ok", "Ready"),
            ..s
        },
        seq![EffectView::AbortReceive, EffectView::StopClock, EffectView::Notify],
    )
}

/// Closing the window: abort both tasks and release a kept share.
pub open spec fn after_exit(s: WorkbenchView) -> (WorkbenchView, Seq<EffectView>) {
    (
        WorkbenchView { share_open: false, ..s },
        if s.share_open {
            seq![EffectView::AbortSend, EffectView::AbortReceive, EffectView::ReleaseShare]
        } else {
            seq![EffectView::AbortSend, EffectView::AbortReceive]
        },
    )
}

/// The new-transfer button: refused while a transfer runs, else back to a fresh start.
pub open spec fn after_new_transfer(s: WorkbenchView) -> (WorkbenchView, Seq<EffectView>) {
    if transfer_active(s) {
        (
            WorkbenchView { error: Some(display_text(s.locale, "transfer.stopped"@)), ..s },
            seq![EffectView::Notify],
        )
    } else {
        (
            WorkbenchView {
                share_open: false,
                generation: (s.generation + 1) as u64,
                send_phase: TransferPhase::Idle,
                receive_phase: TransferPhase::Idle,
                selected_path: None,
                ticket: None,
                ticket_text: Seq::<char>::empty(),
                receive_files: Seq::<Seq<char>>::empty(),
                completed_name: None,
                completed_path: None,
                completed_size: 0,
                error: None,
                status: status_of(s, "ok", "Ready"),
                ..s
            },
            if s.share_open {
                seq![
                    EffectView::AbortSend,
                    EffectView::ReleaseShare,
                    EffectView::ResetDuration,
                    EffectView::StopClock,
                    EffectView::Notify,
                ]
            } else {
                seq![
                    EffectView::AbortSend,
                    EffectView::ResetDuration,
                    EffectView::StopClock,
                    EffectView::Notify,
                ]
            },
        )
    }
}

/// A transfer event, with its strings as character sequences.
pub enum TransferEventView {
    Started { role: Role },
    Progress { role: Role, processed: u64, total: u64 },
    FileNames { role: Role, file_names: Seq<Seq<char>> },
    Completed { role: Role },
    Failed { role: Role, message: Seq<char> },
}

/// A transfer event reported under `generation`; events of other generations are stale.
/// `sent_name` is the file name found for the shared path, which a completed send records.
pub open spec fn after_event(
    s: WorkbenchView,
    generation: u64,
    event: TransferEventView,
    sent_name: Option<Seq<char>>,
) -> (WorkbenchView, Seq<EffectView>) {
    if generation != s.generation {
        (s, seq![])
    } else {
        match event {
            TransferEventView::Started { role: Role::Sender } => (
                WorkbenchView {
                    send_phase: TransferPhase::Sharing,
                    status: status_of(s, "listening", "Listening for a receiver"),
                    ..s
                },
                seq![EffectView::StartClock, EffectView::Notify],
            ),
            TransferEventView::Started { role: Role::Receiver } => (
                WorkbenchView {
                    receive_phase: TransferPhase::Transporting,
                    status: status_of(s, "downloading", "Downloading in progress"),
                    ..s
                },
                seq![EffectView::StartClock, EffectView::Notify],
            ),
            TransferEventView::Progress { role: Role::Sender, processed, total } => (
                WorkbenchView {
                    send_phase: TransferPhase::Transporting,
                    send_progress: Progress { processed, total },
                    status: status_of(s, "sharing", "Sharing in progress"),
                    ..s
                },
                seq![EffectView::RecordSpeed(Role::Sender), EffectView::Notify],
            ),
            TransferEventView::Progress { role: Role::Receiver, processed, total } => (
                WorkbenchView {
                    receive_phase: TransferPhase::Transporting,
                    receive_progress: Progress { processed, total },
                    status: status_of(s, "downloading", "Downloading in progress"),
                    ..s
                },
                seq![EffectView::RecordSpeed(Role::Receiver), EffectView::Notify],
            ),
            TransferEventView::FileNames { role: Role::Receiver, file_names } => (
                WorkbenchView { receive_files: file_names, ..s },
                seq![EffectView::Notify],
            ),
            TransferEventView::FileNames { role: Role::Sender, file_names: _ } => (
                s,
                seq![EffectView::Notify],
            ),
            TransferEventView::Completed { role: Role::Sender } => (
                WorkbenchView {
                    send_phase: TransferPhase::Completed,
                    completed_name: sent_name,
                    completed_path: s.selected_path,
                    completed_size: s.send_progress.total,
                    status: status_of(s, "transfer_completed", "Transfer completed"),
                    ..s
                },
                seq![EffectView::RecordDuration, EffectView::StopClock, EffectView::Notify],
            ),
            TransferEventView::Completed { role: Role::Receiver } => (
                WorkbenchView {
                    receive_phase: TransferPhase::Transporting,
                    status: status_of(s, "finalizing", "Finalizing download"),
                    ..s
                },
                seq![EffectView::Notify],
            ),
            TransferEventView::Failed { role: Role::Sender, message } => (
                WorkbenchView {
                    error: Some(message),
                    send_phase: TransferPhase::Failed,
                    receive_phase: TransferPhase::Idle,
                    status: status_of(s, "transfer_failed", "Transfer failed"),
                    ..s
                },
                seq![EffectView::StopClock, EffectView::Notify],
            ),
            TransferEventView::Failed { role: Role::Receiver, message } => (
                WorkbenchView {
                    error: Some(message),
                    send_phase: TransferPhase::Idle,
                    receive_phase: TransferPhase::Failed,
                    status: status_of(s, "transfer_failed", "Transfer failed"),
                    ..s
                },
                seq![EffectView::StopClock, EffectView::Notify],
            ),
        }
    }
}

/// The try-again button: every failed side returns to idle, its task aborted and, for
/// the sender, a kept share released; the error is cleared and a new generation begins,
/// so that nothing the failed transfer still reports has any effect.
pub open spec fn after_try_again(s: WorkbenchView) -> (WorkbenchView, Seq<EffectView>) {
    if !has_failed(s) {
        (s, seq![])
    } else {
        let send_failed = s.send_phase == TransferPhase::Failed;
        let receive_failed = s.receive_phase == TransferPhase::Failed;
        (
            WorkbenchView {
                generation: (s.generation + 1) as u64,
                send_phase: if send_failed {
                    TransferPhase::Idle
                } else {
                    s.send_phase
                },
                receive_phase: if receive_failed {
                    TransferPhase::Idle
                } else {
                    s.receive_phase
                },
                share_open: s.share_open && !send_failed,
                ticket: if send_failed {
                    None
                } else {
                    s.ticket
                },
                error: None,
                status: status_of(s, "ok", "Ready"),
                ..s
            },
            (if send_failed {
                if s.share_open {
                    seq![EffectView::AbortSend, EffectView::ReleaseShare]
                } else {
                    seq![EffectView::AbortSend]
                }
            } else {
                Seq::<EffectView>::empty()
            }) + (if receive_failed {
                seq![EffectView::AbortReceive]
            } else {
                Seq::<EffectView>::empty()
            }) + seq![EffectView::StopClock, EffectView::Notify],
        )
    }
}

/// The retry button of a failed receive: the receive side returns to idle under a new
/// generation with the error cleared, and the ticket in the field is received again.
pub open spec fn after_retry_receiving(s: WorkbenchView) -> (WorkbenchView, Seq<EffectView>) {
    if s.receive_phase != TransferPhase::Failed {
        (s, seq![])
    } else {
        let cleared = WorkbenchView {
            generation: (s.generation + 1) as u64,
            receive_phase: TransferPhase::Idle,
            error: None,
            status: status_of(s, "ok", "Ready"),
            ..s
        };
        (
            after_start_receiving(cleared).0,
            seq![EffectView::AbortReceive] + after_start_receiving(cleared).1,
        )
    }
}

/// A tab click: tabs switch only while neither side transfers.
pub open spec fn after_select_tab(s: WorkbenchView, tab: Tab) -> (WorkbenchView, Seq<EffectView>) {
    if s.send_phase == TransferPhase::Idle && s.receive_phase == TransferPhase::Idle {
        (WorkbenchView { tab, ..s }, seq![EffectView::Notify])
    } else {
        (s, seq![])
    }
}

/// The theme button.
pub open spec fn after_cycle_theme(s: WorkbenchView) -> (WorkbenchView, Seq<EffectView>) {
    (WorkbenchView { theme: next_theme(s.theme), ..s }, seq![EffectView::Notify])
}

/// The language button.
pub open spec fn after_cycle_locale(s: WorkbenchView) -> (WorkbenchView, Seq<EffectView>) {
    (WorkbenchView { locale: next_locale(s.locale), ..s }, seq![EffectView::Notify])
}

/// Typing into the ticket field: `inserted` replaces the UTF-16 `range`, or the selection.
pub open spec fn after_edit_ticket(
    s: WorkbenchView,
    range: Option<Range<usize>>,
    inserted: Seq<char>,
) -> (WorkbenchView, Seq<EffectView>) {
    let (start, end) = edit_bounds(s.ticket_text, s.ticket_selection, range);
    if edit_accepted(s.ticket_text, start, end, inserted) {
        (
            WorkbenchView {
                ticket_text: edited_text(s.ticket_text, start, end, inserted),
                ticket_selection: (start + utf8_len(inserted), start + utf8_len(inserted)),
                ..s
            },
            seq![EffectView::Notify],
        )
    } else {
        (s, seq![EffectView::Notify])
    }
}

/// Composing into the ticket field: an edit as above, then the UTF-16 range `selected`
/// of the new text becomes the selection where one is given.
pub open spec fn after_mark_ticket(
    s: WorkbenchView,
    range: Option<Range<usize>>,
    inserted: Seq<char>,
    selected: Option<Range<usize>>,
) -> (WorkbenchView, Seq<EffectView>) {
    let edited = after_edit_ticket(s, range, inserted).0;
    match selected {
        Some(r) => (
            WorkbenchView {
                ticket_selection: (
                    utf16_to_byte_offset(edited.ticket_text, r.start as int) as int,
                    utf16_to_byte_offset(edited.ticket_text, r.end as int) as int,
                ),
                ..edited
            },
            seq![EffectView::Notify],
        ),
        None => (edited, seq![EffectView::Notify]),
    }
}

/// Transfer operations are numbered: no action or outcome ever lowers the number, and
/// every action that starts, stops or resets a transfer raises it.
pub proof fn lemma_generation_monotone(
    s: WorkbenchView,
    g: u64,
    send: Result<Seq<char>, Seq<char>>,
    stopped: Result<(), Seq<char>>,
    received: Result<(Seq<char>, u64), Seq<char>>,
    name: Option<Seq<char>>,
    event: TransferEventView,
)
    requires
        s.generation < u64::MAX,
    ensures
        after_start_sharing(s).0.generation >= s.generation,
        after_send_ready(s, g, send).0.generation == s.generation,
        after_stop_sharing(s).0.generation > s.generation,
        after_share_stopped(s, g, stopped).0.generation == s.generation,
        after_start_receiving(s).0.generation >= s.generation,
        after_receive_finished(s, g, received, name).0.generation == s.generation,
        after_stop_receiving(s).0.generation > s.generation,
        after_event(s, g, event, name).0.generation == s.generation,
        after_exit(s).0.generation == s.generation,
        after_new_transfer(s).0.generation >= s.generation,
        !transfer_active(s) ==> after_new_transfer(s).0.generation > s.generation,
        after_try_again(s).0.generation >= s.generation,
        has_failed(s) ==> after_try_again(s).0.generation > s.generation,
        s.generation < u64::MAX - 1 ==> after_retry_receiving(s).0.generation >= s.generation,
        s.generation < u64::MAX - 1 && s.receive_phase == TransferPhase::Failed
            ==> after_retry_receiving(s).0.generation > s.generation,
        s.selected_path is Some && s.send_phase == TransferPhase::Idle
            ==> after_start_sharing(s).0.generation > s.generation,
        trim_ws(s.ticket_text).len() > 0 && s.receive_phase == TransferPhase::Idle
            ==> after_start_receiving(s).0.generation > s.generation,
{
}

/// Outcomes and events reported under any generation but the current one are stale:
/// they change nothing and ask for nothing.
pub proof fn lemma_stale_reports_ignored(
    s: WorkbenchView,
    g: u64,
    send: Result<Seq<char>, Seq<char>>,
    stopped: Result<(), Seq<char>>,
    received: Result<(Seq<char>, u64), Seq<char>>,
    name: Option<Seq<char>>,
    event: TransferEventView,
)
    requires
        g != s.generation,
    ensures
        after_send_ready(s, g, send) == (s, Seq::<EffectView>::empty()),
        after_share_stopped(s, g, stopped) == (s, Seq::<EffectView>::empty()),
        after_receive_finished(s, g, received, name) == (s, Seq::<EffectView>::empty()),
        after_event(s, g, event, name) == (s, Seq::<EffectView>::empty()),
{
}

/// Once a transfer is stopped or the workbench reset, nothing that the transfer started
/// under an earlier generation reports afterwards has any effect.
pub proof fn lemma_cancelled_transfer_cannot_report(
    s: WorkbenchView,
    g: u64,
    send: Result<Seq<char>, Seq<char>>,
    received: Result<(Seq<char>, u64), Seq<char>>,
    name: Option<Seq<char>>,
    event: TransferEventView,
)
    requires
        g <= s.generation < u64::MAX,
    ensures
        after_send_ready(after_stop_sharing(s).0, g, send) == (
            after_stop_sharing(s).0,
            Seq::<EffectView>::empty(),
        ),
        after_event(after_stop_sharing(s).0, g, event, name) == (
            after_stop_sharing(s).0,
            Seq::<EffectView>::empty(),
        ),
        after_receive_finished(after_stop_receiving(s).0, g, received, name) == (
            after_stop_receiving(s).0,
            Seq::<EffectView>::empty(),
        ),
        after_event(after_stop_receiving(s).0, g, event, name) == (
            after_stop_receiving(s).0,
            Seq::<EffectView>::empty(),
        ),
        !transfer_active(s) ==> after_event(after_new_transfer(s).0, g, event, name) == (
            after_new_transfer(s).0,
            Seq::<EffectView>::empty(),
        ),
        has_failed(s) ==> after_event(after_try_again(s).0, g, event, name) == (
            after_try_again(s).0,
            Seq::<EffectView>::empty(),
        ),
{
}

/// A share is launched exactly when a path is chosen and the sender is idle; it shares
/// that path under the new generation, and the only other effect starts the clock.
pub proof fn lemma_share_launch(s: WorkbenchView)
    requires
        s.generation < u64::MAX,
    ensures
        (s.selected_path is Some && s.send_phase == TransferPhase::Idle) <==> after_start_sharing(
            s,
        ).1.len() == 2,
        s.selected_path is Some && s.send_phase == TransferPhase::Idle ==> after_start_sharing(s).1
            == seq![
            EffectView::StartClock,
            EffectView::SpawnSend {
                path: s.selected_path->0,
                generation: after_start_sharing(s).0.generation,
            },
        ],
        s.selected_path is None ==> after_start_sharing(s).0 == (WorkbenchView {
            error: Some(display_text(s.locale, "sender.dropFilesHere"@)),
            ..s
        }),
{
}

/// A receive is launched exactly when the trimmed ticket is not empty and the receiver
/// is idle; it receives that trimmed ticket into the download folder.
pub proof fn lemma_receive_launch(s: WorkbenchView)
    requires
        s.generation < u64::MAX,
    ensures
        (trim_ws(s.ticket_text).len() > 0 && s.receive_phase == TransferPhase::Idle)
            <==> after_start_receiving(s).1.len() == 2,
        trim_ws(s.ticket_text).len() > 0 && s.receive_phase == TransferPhase::Idle
            ==> after_start_receiving(s).1[1] == (EffectView::SpawnReceive {
            ticket: trim_ws(s.ticket_text),
            save_path: s.save_path,
            generation: after_start_receiving(s).0.generation,
        }),
{
}

/// Tabs never switch while either side is transferring.
pub proof fn lemma_tabs_locked_during_transfer(s: WorkbenchView, tab: Tab)
    ensures
        after_select_tab(s, tab).0.tab != s.tab ==> (s.send_phase == TransferPhase::Idle
            && s.receive_phase == TransferPhase::Idle),
        (s.send_phase != TransferPhase::Idle || s.receive_phase != TransferPhase::Idle)
            ==> after_select_tab(s, tab) == (s, Seq::<EffectView>::empty()),
{
}

/// The theme button cycles through the three schemes and returns after three presses.
pub proof fn lemma_theme_cycle(theme: Theme)
    ensures
        next_theme(next_theme(next_theme(theme))) == theme,
        next_theme(theme) != theme,
        next_theme(next_theme(theme)) != theme,
{
}

/// The locale after `k` presses of the language button, starting from `locale`.
pub open spec fn locale_after(locale: Locale, k: nat) -> Locale
    decreases k,
{
    if k == 0 {
        locale
    } else {
        next_locale(locale_after(locale, (k - 1) as nat))
    }
}

/// Locales with the same menu position are the same locale.
proof fn lemma_menu_index_injective(a: Locale, b: Locale)
    ensures
        menu_index(a) == menu_index(b) ==> a == b,
{
}

#[verifier::spinoff_prover]
proof fn lemma_locale_steps(locale: Locale, k: nat)
    ensures
        menu_index(locale_after(locale, k)) == (menu_index(locale) + k) % 21,
    decreases k,
{
    lemma_all_locales_listed_once(locale);
    if k > 0 {
        lemma_locale_steps(locale, (k - 1) as nat);
        let prev = locale_after(locale, (k - 1) as nat);
        let m = menu_index(locale);
        let i = (menu_index(prev) + 1) % 21;
        assert(locale_after(locale, k) == all_locales()[i]);
        assert(0 <= i < 21);
        assert(menu_index(all_locales()[i]) == i);
        assert(menu_index(prev) == (m + (k - 1)) % 21);
        vstd::arithmetic::div_mod::lemma_add_mod_noop(m + (k - 1), 1, 21);
        assert(1int % 21 == 1);
        assert(i == (m + k) % 21);
    }
}

/// The language button walks the menu in order: after `k` presses the locale sits `k`
/// places further, wrapping round, and 21 presses return to the start.
pub proof fn lemma_locale_cycle(locale: Locale, k: nat)
    ensures
        menu_index(locale_after(locale, k)) == (menu_index(locale) + k) % 21,
        locale_after(locale, 21) == locale,
{
    lemma_all_locales_listed_once(locale);
    lemma_locale_steps(locale, k);
    lemma_locale_steps(locale, 21);
    lemma_menu_index_injective(locale_after(locale, 21), locale);
}

/// Pressing the language button reaches every locale from any other.
pub proof fn lemma_locale_cycle_reaches(locale: Locale, other: Locale)
    ensures
        locale_after(locale, ((menu_index(other) - menu_index(locale) + 21) % 21) as nat) == other,
{
    lemma_all_locales_listed_once(locale);
    lemma_all_locales_listed_once(other);
    let k = ((menu_index(other) - menu_index(locale) + 21) % 21) as nat;
    lemma_locale_steps(locale, k);
    lemma_menu_index_injective(locale_after(locale, k), other);
}

/// While a transfer runs, the new-transfer button only shows why it was refused.
pub proof fn lemma_new_transfer_refused_while_active(s: WorkbenchView)
    requires
        transfer_active(s),
    ensures
        after_new_transfer(s).0 == (WorkbenchView {
            error: Some(display_text(s.locale, "transfer.stopped"@)),
            ..s
        }),
        after_new_transfer(s).1 == seq![EffectView::Notify],
{
}

/// Otherwise it returns both sides to idle with nothing chosen, pasted or completed, and
/// releases a share that is still kept.
pub proof fn lemma_new_transfer_resets(s: WorkbenchView)
    requires
        !transfer_active(s),
        s.generation < u64::MAX,
    ensures
        ({
            let t = after_new_transfer(s).0;
            &&& t.send_phase == TransferPhase::Idle
            &&& t.receive_phase == TransferPhase::Idle
            &&& t.selected_path is None
            &&& t.ticket is None
            &&& t.ticket_text == Seq::<char>::empty()
            &&& t.receive_files == Seq::<Seq<char>>::empty()
            &&& t.completed_path is None
            &&& t.completed_size == 0
            &&& t.error is None
            &&& !t.share_open
            &&& t.save_path == s.save_path
            &&& t.locale == s.locale
            &&& t.theme == s.theme
        }),
        after_new_transfer(s).1.contains(EffectView::ReleaseShare) <==> s.share_open,
{
    if s.share_open {
        assert(after_new_transfer(s).1[1] == EffectView::ReleaseShare);
    }
}

/// A share that the workbench keeps is released exactly once: stopping hands it to a
/// shutdown, closing the window releases it, and afterwards none is kept.
pub proof fn lemma_share_released(s: WorkbenchView)
    requires
        s.generation < u64::MAX,
    ensures
        !after_stop_sharing(s).0.share_open,
        !after_exit(s).0.share_open,
        after_exit(s).1.contains(EffectView::ReleaseShare) <==> s.share_open,
        s.share_open ==> after_stop_sharing(s).1.contains(
            EffectView::ShutdownShare { generation: after_stop_sharing(s).0.generation },
        ),
        !s.share_open ==> after_stop_sharing(s).0.send_phase == TransferPhase::Idle,
{
    if s.share_open {
        assert(after_exit(s).1[2] == EffectView::ReleaseShare);
        assert(after_stop_sharing(s).1[1] == EffectView::ShutdownShare {
            generation: after_stop_sharing(s).0.generation,
        });
    }
}

/// Only one update check runs at a time.
pub proof fn lemma_single_update_check(s: WorkbenchView)
    ensures
        s.update_checking ==> after_check_for_updates(s) == (s, Seq::<EffectView>::empty()),
        !s.update_checking ==> after_check_for_updates(s).0.update_checking,
        after_update_checked(s, Err(Seq::<char>::empty())).0.update_checking == false,
{
}

/// A failure puts the failing side in the failed state with the error kept: a failed
/// start of a share, a failed receive, and a failure event of either role, which also
/// returns the other side to idle.
pub proof fn lemma_failures_recorded(
    s: WorkbenchView,
    role: Role,
    message: Seq<char>,
    e: Seq<char>,
    name: Option<Seq<char>>,
)
    ensures
        ({
            let t = after_event(s, s.generation, TransferEventView::Failed { role, message }, name).0;
            &&& t.error == Some(message)
            &&& t.status == status_of(s, "transfer_failed", "Transfer failed")
            &&& role == Role::Sender ==> t.send_phase == TransferPhase::Failed && t.receive_phase
                == TransferPhase::Idle
            &&& role == Role::Receiver ==> t.receive_phase == TransferPhase::Failed && t.send_phase
                == TransferPhase::Idle
        }),
        after_event(s, s.generation, TransferEventView::Failed { role, message }, name).1 == seq![
            EffectView::StopClock,
            EffectView::Notify,
        ],
        after_send_ready(s, s.generation, Err(e)).0.send_phase == TransferPhase::Failed,
        after_send_ready(s, s.generation, Err(e)).0.receive_phase == s.receive_phase,
        after_send_ready(s, s.generation, Err(e)).0.error == Some(e),
        after_receive_finished(s, s.generation, Err(e), name).0.receive_phase == TransferPhase::Failed,
        after_receive_finished(s, s.generation, Err(e), name).0.send_phase == s.send_phase,
        after_receive_finished(s, s.generation, Err(e), name).0.error == Some(e),
{
}

/// Trying again leaves no side failed and no error shown; a failed sender's kept share
/// is released. Retrying a failed receive with a ticket in the field receives it again.
pub proof fn lemma_trying_again_recovers(s: WorkbenchView)
    requires
        has_failed(s),
    ensures
        !has_failed(after_try_again(s).0),
        after_try_again(s).0.error is None,
        s.send_phase == TransferPhase::Failed ==> !after_try_again(s).0.share_open,
        after_try_again(s).1.contains(EffectView::ReleaseShare) <==> (s.send_phase
            == TransferPhase::Failed && s.share_open),
        s.send_phase != TransferPhase::Failed ==> after_try_again(s).0.send_phase == s.send_phase,
        s.receive_phase != TransferPhase::Failed ==> after_try_again(s).0.receive_phase
            == s.receive_phase,
        s.receive_phase == TransferPhase::Failed && trim_ws(s.ticket_text).len() > 0
            && s.generation < u64::MAX - 1 ==> after_retry_receiving(s).1.last()
            == (EffectView::SpawnReceive {
            ticket: trim_ws(s.ticket_text),
            save_path: s.save_path,
            generation: (s.generation + 2) as u64,
        }),
{
    let effects = after_try_again(s).1;
    if s.send_phase == TransferPhase::Failed && s.share_open {
        assert(effects[1] == EffectView::ReleaseShare);
    }
    if !(s.send_phase == TransferPhase::Failed && s.share_open) {
        assert(forall|i: int| 0 <= i < effects.len() ==> effects[i] != EffectView::ReleaseShare);
    }
}

/// Typing into the ticket field, over the UTF-16 range of two character boundaries or
/// over a selection of the same two boundaries, replaces the characters between them
/// with the typed ones, also when nothing is typed (a deletion), and puts the caret after
/// the insertion, whenever the result fits the ticket limit.
pub proof fn lemma_ticket_edit_applied(
    s: WorkbenchView,
    ks: int,
    ke: int,
    r: Range<usize>,
    inserted: Seq<char>,
)
    requires
        0 <= ks <= ke <= s.ticket_text.len(),
        utf8_len(s.ticket_text) - (utf8_len(s.ticket_text.take(ke)) - utf8_len(
            s.ticket_text.take(ks),
        )) + utf8_len(inserted) <= MAX_TICKET_LEN,
        r.start as int == utf16_len(s.ticket_text.take(ks)),
        r.end as int == utf16_len(s.ticket_text.take(ke)),
    ensures
        ({
            let t = after_edit_ticket(s, Some(r), inserted);
            let caret = (utf8_len(s.ticket_text.take(ks)) + utf8_len(inserted)) as int;
            &&& t.0.ticket_text == s.ticket_text.take(ks) + inserted + s.ticket_text.skip(ke)
            &&& t.0.ticket_selection == (caret, caret)
            &&& t.0 == (WorkbenchView {
                ticket_text: t.0.ticket_text,
                ticket_selection: t.0.ticket_selection,
                ..s
            })
            &&& t.1 == seq![EffectView::Notify]
        }),
        s.ticket_selection == (utf8_len(s.ticket_text.take(ks)) as int, utf8_len(
            s.ticket_text.take(ke),
        ) as int) ==> ({
            let t = after_edit_ticket(s, None, inserted);
            let caret = (utf8_len(s.ticket_text.take(ks)) + utf8_len(inserted)) as int;
            &&& t.0.ticket_text == s.ticket_text.take(ks) + inserted + s.ticket_text.skip(ke)
            &&& t.0.ticket_selection == (caret, caret)
        }),
{
    lemma_fitting_edit_applied(s.ticket_text, ks, ke, inserted);
    lemma_offsets_round_trip(s.ticket_text, ks);
    lemma_offsets_round_trip(s.ticket_text, ke);
}

/// Typing over the UTF-16 range of two character boundaries in reverse order, or with a
/// result longer than the ticket limit, changes nothing in the field or elsewhere.
pub proof fn lemma_ticket_edit_dropped(
    s: WorkbenchView,
    ks: int,
    ke: int,
    r: Range<usize>,
    inserted: Seq<char>,
)
    requires
        0 <= ks <= s.ticket_text.len(),
        0 <= ke <= s.ticket_text.len(),
        ke < ks || utf8_len(s.ticket_text) - (utf8_len(s.ticket_text.take(ke)) - utf8_len(
            s.ticket_text.take(ks),
        )) + utf8_len(inserted) > MAX_TICKET_LEN,
        r.start as int == utf16_len(s.ticket_text.take(ks)),
        r.end as int == utf16_len(s.ticket_text.take(ke)),
    ensures
        after_edit_ticket(s, Some(r), inserted) == (s, seq![EffectView::Notify]),
{
    lemma_unfitting_edit_dropped(s.ticket_text, ks, ke, inserted);
    lemma_offsets_round_trip(s.ticket_text, ks);
    lemma_offsets_round_trip(s.ticket_text, ke);
}

/// Composing into the ticket field makes the same edit as typing, then selects the given
/// UTF-16 range of the new text, mapped to the byte offsets of the same two boundaries.
pub proof fn lemma_marked_range_selected(
    s: WorkbenchView,
    range: Option<Range<usize>>,
    inserted: Seq<char>,
    r: Range<usize>,
    ka: int,
    kb: int,
)
    requires
        0 <= ka <= after_edit_ticket(s, range, inserted).0.ticket_text.len(),
        0 <= kb <= after_edit_ticket(s, range, inserted).0.ticket_text.len(),
        r.start as int == utf16_len(after_edit_ticket(s, range, inserted).0.ticket_text.take(ka)),
        r.end as int == utf16_len(after_edit_ticket(s, range, inserted).0.ticket_text.take(kb)),
    ensures
        ({
            let edited = after_edit_ticket(s, range, inserted).0;
            let t = after_mark_ticket(s, range, inserted, Some(r)).0;
            &&& t.ticket_text == edited.ticket_text
            &&& t.ticket_selection == (
                utf8_len(edited.ticket_text.take(ka)) as int,
                utf8_len(edited.ticket_text.take(kb)) as int,
            )
            &&& t == (WorkbenchView { ticket_selection: t.ticket_selection, ..edited })
        }),
        after_mark_ticket(s, range, inserted, None) == (
            after_edit_ticket(s, range, inserted).0,
            seq![EffectView::Notify],
        ),
{
    let text = after_edit_ticket(s, range, inserted).0.ticket_text;
    lemma_offsets_round_trip(text, ka);
    lemma_offsets_round_trip(text, kb);
}

/// A current progress event moves the bar of its own side only: a receiver's event sets
/// the receive progress to its (processed, total) and leaves the send progress as it was,
/// and a sender's event does the reverse.
pub proof fn lemma_progress_reaches_its_side(
    s: WorkbenchView,
    processed: u64,
    total: u64,
    name: Option<Seq<char>>,
)
    ensures
        ({
            let t = after_event(
                s,
                s.generation,
                TransferEventView::Progress { role: Role::Receiver, processed, total },
                name,
            ).0;
            &&& t.receive_progress == (Progress { processed, total })
            &&& t.send_progress == s.send_progress
            &&& t.receive_phase == TransferPhase::Transporting
            &&& t.send_phase == s.send_phase
        }),
        ({
            let t = after_event(
                s,
                s.generation,
                TransferEventView::Progress { role: Role::Sender, processed, total },
                name,
            ).0;
            &&& t.send_progress == (Progress { processed, total })
            &&& t.receive_progress == s.receive_progress
            &&& t.send_phase == TransferPhase::Transporting
            &&& t.receive_phase == s.receive_phase
        }),
{
}

/// While a share is open, whether it waits for a receiver or is transporting, the send
/// view shows progress with the copy and stop buttons and hides the start button; an
/// idle sender shows the start button and no progress.
pub proof fn lemma_open_share_shows_stop(s: WorkbenchView)
    ensures
        s.send_phase == TransferPhase::Sharing || s.send_phase == TransferPhase::Transporting
            ==> send_view_of(s).progress_shown && !send_view_of(s).start_shown,
        s.send_phase == TransferPhase::Idle ==> !send_view_of(s).progress_shown
            && send_view_of(s).start_shown,
{
}

/// The send view shows the completion summary exactly when the share completed and the
/// failure card exactly when it failed, hiding the start button in both; the ticket can
/// be copied exactly when there is one, and its card shows while the share neither
/// completed nor failed.
pub proof fn lemma_send_view_follows_phase(s: WorkbenchView)
    ensures
        send_view_of(s).completion_shown <==> s.send_phase == TransferPhase::Completed,
        send_view_of(s).failure_shown <==> s.send_phase == TransferPhase::Failed,
        s.send_phase == TransferPhase::Completed || s.send_phase == TransferPhase::Failed
            ==> !send_view_of(s).start_shown && !send_view_of(s).progress_shown,
        send_view_of(s).start_enabled <==> (s.send_phase == TransferPhase::Idle
            && s.selected_path is Some),
        send_view_of(s).copy_enabled <==> s.ticket is Some,
        send_view_of(s).ticket_shown <==> (s.ticket is Some && s.send_phase
            != TransferPhase::Completed && s.send_phase != TransferPhase::Failed),
{
}

/// The receive view shows the ticket field exactly while the receiver is idle, progress
/// with the stop button while it connects or transports, the completion summary once it
/// completed and the failure card once it failed; receiving can start exactly when the
/// trimmed ticket is not empty.
pub proof fn lemma_receive_view_follows_phase(s: WorkbenchView)
    ensures
        receive_view_of(s).input_shown <==> s.receive_phase == TransferPhase::Idle,
        s.receive_phase == TransferPhase::Connecting || s.receive_phase
            == TransferPhase::Transporting ==> receive_view_of(s).progress_shown,
        receive_view_of(s).progress_shown ==> s.receive_phase != TransferPhase::Idle
            && s.receive_phase != TransferPhase::Completed && s.receive_phase
            != TransferPhase::Failed,
        receive_view_of(s).completion_shown <==> s.receive_phase == TransferPhase::Completed,
        receive_view_of(s).failure_shown <==> s.receive_phase == TransferPhase::Failed,
        receive_view_of(s).start_enabled <==> trim_ws(s.ticket_text).len() > 0,
{
}

/// Current events of one role leave the other side alone (failures aside, which return
/// the other side to idle): a sender's event keeps the receive phase, progress and file
/// names, and a receiver's keeps the send phase, progress, ticket and share.
pub proof fn lemma_events_keep_the_other_side(
    s: WorkbenchView,
    event: TransferEventView,
    name: Option<Seq<char>>,
)
    ensures
        ({
            let t = after_event(s, s.generation, event, name).0;
            match event {
                TransferEventView::Failed { .. } => true,
                TransferEventView::Started { role: Role::Sender }
                | TransferEventView::Progress { role: Role::Sender, .. }
                | TransferEventView::FileNames { role: Role::Sender, .. }
                | TransferEventView::Completed { role: Role::Sender } => {
                    &&& t.receive_phase == s.receive_phase
                    &&& t.receive_progress == s.receive_progress
                    &&& t.receive_files == s.receive_files
                },
                _ => {
                    &&& t.send_phase == s.send_phase
                    &&& t.send_progress == s.send_progress
                    &&& t.ticket == s.ticket
                    &&& t.share_open == s.share_open
                },
            }
        }),
{
}

/// What each current event records of its own side: a start puts the sender to sharing
/// and the receiver to transporting, the receiver's file names are kept, and a completed
/// send records the shared path and the total sent, with the duration and a stopped clock.
pub proof fn lemma_events_record_their_side(
    s: WorkbenchView,
    names: Seq<Seq<char>>,
    name: Option<Seq<char>>,
)
    ensures
        after_event(s, s.generation, TransferEventView::Started { role: Role::Sender }, name).0.send_phase
            == TransferPhase::Sharing,
        after_event(
            s,
            s.generation,
            TransferEventView::Started { role: Role::Receiver },
            name,
        ).0.receive_phase == TransferPhase::Transporting,
        after_event(
            s,
            s.generation,
            TransferEventView::FileNames { role: Role::Receiver, file_names: names },
            name,
        ).0.receive_files == names,
        ({
            let t = after_event(
                s,
                s.generation,
                TransferEventView::Completed { role: Role::Sender },
                name,
            );
            &&& t.0.send_phase == TransferPhase::Completed
            &&& t.0.completed_path == s.selected_path
            &&& t.0.completed_name == name
            &&& t.0.completed_size == s.send_progress.total
            &&& t.1 == seq![EffectView::RecordDuration, EffectView::StopClock, EffectView::Notify]
        }),
        after_event(
            s,
            s.generation,
            TransferEventView::Completed { role: Role::Receiver },
            name,
        ).0.receive_phase == TransferPhase::Transporting,
{
}

/// A current successful outcome records itself: a ready share keeps its ticket and is
/// listening, and a finished receive completes with the written path and its size.
pub proof fn lemma_outcomes_recorded(
    s: WorkbenchView,
    ticket: Seq<char>,
    path: Seq<char>,
    size: u64,
    name: Option<Seq<char>>,
)
    ensures
        ({
            let t = after_send_ready(s, s.generation, Ok(ticket));
            &&& t.0.ticket == Some(ticket)
            &&& t.0.share_open
            &&& t.0.send_phase == TransferPhase::Sharing
            &&& t.1.contains(EffectView::KeepShare)
        }),
        ({
            let t = after_receive_finished(s, s.generation, Ok((path, size)), name);
            &&& t.0.receive_phase == TransferPhase::Completed
            &&& t.0.completed_path == Some(path)
            &&& t.0.completed_size == size
            &&& t.0.completed_name == name
            &&& t.1.contains(EffectView::RecordDuration)
            &&& t.1.contains(EffectView::StopClock)
        }),
{
    assert(after_send_ready(s, s.generation, Ok(ticket)).1[1] == EffectView::KeepShare);
    assert(after_receive_finished(s, s.generation, Ok((path, size)), name).1[1]
        == EffectView::RecordDuration);
    assert(after_receive_finished(s, s.generation, Ok((path, size)), name).1[2]
        == EffectView::StopClock);
}

/// The new-transfer button is refused, changing nothing but the error and asking only for
/// a redraw, exactly while the sender is preparing, sharing, transporting or stopping or
/// the receiver is connecting or transporting; otherwise it starts a new generation.
pub proof fn lemma_new_transfer_refused_exactly_while_running(s: WorkbenchView)
    requires
        s.generation < u64::MAX,
    ensures
        ({
            let running = s.send_phase == TransferPhase::Preparing || s.send_phase
                == TransferPhase::Sharing || s.send_phase == TransferPhase::Transporting
                || s.send_phase == TransferPhase::Stopping || s.receive_phase
                == TransferPhase::Connecting || s.receive_phase == TransferPhase::Transporting;
            &&& running ==> after_new_transfer(s) == (
                WorkbenchView { error: Some(display_text(s.locale, "transfer.stopped"@)), ..s },
                seq![EffectView::Notify],
            )
            &&& !running ==> after_new_transfer(s).0.generation == s.generation + 1
        }),
{
}

/// A short UI name that the catalogue does not cover through its UI alias gets its
/// built-in English label in every locale; one that it covers gets the catalogue text.
pub proof fn lemma_copy_falls_back_in_every_locale(
    locale: Locale,
    key: Seq<char>,
    label: &'static str,
)
    ensures
        catalog_text(locale, ui_source_key(key)) is None && table_get(COPY_FALLBACKS@, key)
            == Some(label) ==> copy_text(locale, key) == label,
        catalog_text(locale, ui_source_key(key)) == Some(label) ==> copy_text(locale, key)
            == label,
        catalog_text(locale, ui_source_key(key)) is None && table_get(COPY_FALLBACKS@, key)
            is None ==> copy_text(locale, key) == "",
{
}

/// A status line shows the catalogue text of its key, and the fallback exactly where no
/// catalogue (nor English) defines the key.
pub proof fn lemma_status_fallback(locale: Locale, key: Seq<char>, fallback: Seq<char>)
    ensures
        catalog_text(locale, key) is None && catalog_text(Locale::English, key) is None
            ==> status_text_for(locale, key, fallback) == fallback,
        (catalog_text(locale, key) matches Some(v) && v@ != key) ==> status_text_for(
            locale,
            key,
            fallback,
        ) == catalog_text(locale, key)->0@,
{
}

} // verus!
