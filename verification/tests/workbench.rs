use alter_sendme::locale::Locale;
use alter_sendme::update::UpdateInfo;
use alter_sendme::workbench::{
    localized_copy, localized_status, localized_text, total_size, Effect, ReceivedItem, Role, Tab,
    Theme, TransferEvent, TransferPhase, Workbench,
};

fn chosen() -> Workbench {
    let mut wb = Workbench::new("/downloads".to_string());
    wb.select_path("/data/report.pdf".to_string(), false, true);
    wb
}

#[test]
fn a_fresh_workbench_is_idle_on_the_send_tab() {
    let wb = Workbench::new("/downloads".to_string());
    assert_eq!(wb.tab(), Tab::Send);
    assert_eq!(wb.theme(), Theme::Dark);
    assert_eq!(wb.locale(), Locale::English);
    assert_eq!(wb.send_phase(), TransferPhase::Idle);
    assert_eq!(wb.receive_phase(), TransferPhase::Idle);
    assert_eq!(wb.status(), "Ready");
    assert_eq!(wb.save_path(), "/downloads");
    assert_eq!(wb.generation(), 0);
    assert!(!wb.send_view().start_enabled);
    assert!(wb.send_view().start_shown);
}

#[test]
fn catalogue_texts_fall_back_to_the_key_and_then_to_the_fallback() {
    assert_eq!(localized_text(Locale::German, "theme.label"), "Design");
    assert_eq!(localized_text(Locale::German, "sender.startSharing"), "Start Sharing");
    assert_eq!(localized_text(Locale::German, "no.such.key"), "no.such.key");
    assert_eq!(localized_status(Locale::English, "preparing", "Preparing encrypted share..."), "Preparing encrypted share...");
    assert_eq!(localized_status(Locale::English, "update.checkNow", "x"), "Check for updates");
    assert_eq!(localized_copy(Locale::English, "start"), "Start Sharing");
    assert_eq!(localized_copy(Locale::English, "ready"), "Ready");
    assert_eq!(localized_copy(Locale::English, "theme"), "Theme");
    assert_eq!(localized_copy(Locale::English, "nothing"), "");
    assert_eq!(localized_copy(Locale::SimplifiedChinese, "open_folder"), "打开文件夹");
}

#[test]
fn selecting_a_missing_path_changes_nothing() {
    let mut wb = Workbench::new("/downloads".to_string());
    let effects = wb.select_path("/nope".to_string(), false, false);
    assert!(effects.is_empty());
    assert_eq!(wb.selected_path(), None);
    let effects = wb.select_path("/data".to_string(), true, true);
    assert!(matches!(effects.as_slice(), [Effect::Notify]));
    assert_eq!(wb.selected_path(), Some("/data".to_string()));
    assert!(wb.selected_is_dir());
    assert_eq!(wb.status(), "Path selected");
}

#[test]
fn sharing_without_a_path_reports_the_drop_hint() {
    let mut wb = Workbench::new("/downloads".to_string());
    let effects = wb.start_sharing();
    assert!(matches!(effects.as_slice(), [Effect::Notify]));
    assert_eq!(wb.error(), Some("Drop files or folders here".to_string()));
    assert_eq!(wb.generation(), 0);
}

#[test]
fn a_share_goes_from_preparing_to_sharing_to_completed() {
    let mut wb = chosen();
    let effects = wb.start_sharing();
    assert_eq!(wb.generation(), 1);
    assert_eq!(wb.send_phase(), TransferPhase::Preparing);
    assert_eq!(wb.status(), "Preparing encrypted share...");
    match effects.as_slice() {
        [Effect::StartClock, Effect::SpawnSend { path, generation }] => {
            assert_eq!(path, "/data/report.pdf");
            assert_eq!(*generation, 1);
        }
        other => panic!("unexpected effects {other:?}"),
    }
    assert!(wb.start_sharing().is_empty());
    let effects = wb.finish_send_start(1, Ok("sendme-ticket".to_string()));
    assert!(matches!(effects.as_slice(), [Effect::ForgetSendTask, Effect::KeepShare, Effect::Notify]));
    assert_eq!(wb.send_phase(), TransferPhase::Sharing);
    assert_eq!(wb.ticket(), Some("sendme-ticket".to_string()));
    assert!(wb.send_view().ticket_shown);
    wb.apply_event(1, TransferEvent::Progress { role: Role::Sender, processed: 5, total: 10 });
    assert_eq!(wb.send_phase(), TransferPhase::Transporting);
    assert_eq!(wb.send_progress().total, 10);
    assert!(wb.send_view().progress_shown);
    let effects = wb.apply_event(1, TransferEvent::Completed { role: Role::Sender });
    assert!(matches!(effects.as_slice(), [Effect::RecordDuration, Effect::StopClock, Effect::Notify]));
    assert_eq!(wb.send_phase(), TransferPhase::Completed);
    assert_eq!(wb.completed_name(), Some("report.pdf".to_string()));
    assert_eq!(wb.completed_path(), Some("/data/report.pdf".to_string()));
    assert_eq!(wb.completed_size(), 10);
    assert_eq!(wb.status(), "Transfer completed");
    assert!(wb.send_view().completion_shown);
}

#[test]
fn stale_outcomes_and_events_are_ignored() {
    let mut wb = chosen();
    wb.start_sharing();
    wb.stop_sharing();
    assert_eq!(wb.generation(), 2);
    assert_eq!(wb.send_phase(), TransferPhase::Idle);
    assert!(wb.finish_send_start(1, Ok("late".to_string())).is_empty());
    assert_eq!(wb.ticket(), None);
    assert!(wb.apply_event(1, TransferEvent::Failed { role: Role::Sender, message: "late".to_string() }).is_empty());
    assert_eq!(wb.error(), None);
}

#[test]
fn stopping_an_open_share_waits_for_its_shutdown() {
    let mut wb = chosen();
    wb.start_sharing();
    wb.finish_send_start(1, Ok("t".to_string()));
    let effects = wb.stop_sharing();
    match effects.as_slice() {
        [Effect::AbortSend, Effect::ShutdownShare { generation }] => assert_eq!(*generation, 2),
        other => panic!("unexpected effects {other:?}"),
    }
    assert_eq!(wb.send_phase(), TransferPhase::Stopping);
    assert_eq!(wb.status(), "Stopping share...");
    let effects = wb.finish_stop_sharing(2, Err("closed badly".to_string()));
    assert!(matches!(effects.as_slice(), [Effect::StopClock, Effect::Notify]));
    assert_eq!(wb.send_phase(), TransferPhase::Idle);
    assert_eq!(wb.ticket(), None);
    assert_eq!(wb.error(), Some("closed badly".to_string()));
    assert_eq!(wb.status(), "Ready");
}

#[test]
fn a_failed_share_is_shown_until_tried_again() {
    let mut wb = chosen();
    wb.start_sharing();
    let effects = wb.finish_send_start(1, Err("no network".to_string()));
    assert!(matches!(effects.as_slice(), [Effect::ForgetSendTask, Effect::Notify]));
    assert_eq!(wb.send_phase(), TransferPhase::Failed);
    assert_eq!(wb.error(), Some("no network".to_string()));
    assert_eq!(wb.status(), "Sharing failed");
    let view = wb.send_view();
    assert!(view.failure_shown);
    assert!(!view.start_shown);
    assert!(!view.start_enabled);
    assert!(wb.start_sharing().is_empty());
    let effects = wb.try_again();
    assert!(matches!(effects.as_slice(), [Effect::AbortSend, Effect::StopClock, Effect::Notify]));
    assert_eq!(wb.send_phase(), TransferPhase::Idle);
    assert_eq!(wb.error(), None);
    assert_eq!(wb.status(), "Ready");
    assert_eq!(wb.generation(), 2);
    assert!(wb.send_view().start_enabled);
    assert!(!wb.send_view().failure_shown);
    assert!(wb.try_again().is_empty());
}

#[test]
fn receiving_needs_a_ticket_and_uses_it_trimmed() {
    let mut wb = Workbench::new("/downloads".to_string());
    assert!(!wb.receive_view().start_enabled);
    wb.start_receiving();
    assert_eq!(wb.error(), Some("Paste ticket here".to_string()));
    assert_eq!(wb.generation(), 0);
    wb.paste_ticket(Some("  blob123 \n".to_string()));
    assert!(wb.receive_view().start_enabled);
    let effects = wb.start_receiving();
    match effects.as_slice() {
        [Effect::StartClock, Effect::SpawnReceive { ticket, save_path, generation }] => {
            assert_eq!(ticket, "blob123");
            assert_eq!(save_path, "/downloads");
            assert_eq!(*generation, 1);
        }
        other => panic!("unexpected effects {other:?}"),
    }
    assert_eq!(wb.receive_phase(), TransferPhase::Connecting);
    assert!(wb.receive_view().progress_shown);
    wb.apply_event(1, TransferEvent::FileNames { role: Role::Receiver, file_names: vec!["a.txt".to_string()] });
    assert_eq!(wb.receive_files(), &vec!["a.txt".to_string()]);
    wb.apply_event(1, TransferEvent::Completed { role: Role::Receiver });
    assert_eq!(wb.status(), "Finalizing download");
    let effects = wb.finish_receive(1, Ok(ReceivedItem { path: "/downloads/a.txt".to_string(), size: 42 }));
    assert_eq!(wb.completed_name(), Some("a.txt".to_string()));
    assert!(matches!(effects.as_slice(), [Effect::ForgetReceiveTask, Effect::RecordDuration, Effect::StopClock, Effect::Notify]));
    assert_eq!(wb.receive_phase(), TransferPhase::Completed);
    assert_eq!(wb.completed_size(), 42);
    assert_eq!(wb.status(), "Download completed");
    assert!(wb.receive_view().completion_shown);
    let effects = wb.reveal_completed_path();
    match effects.as_slice() {
        [Effect::RevealPath(path), Effect::Notify] => assert_eq!(path, "/downloads/a.txt"),
        other => panic!("unexpected effects {other:?}"),
    }
}

#[test]
fn a_failed_receive_is_retried_and_a_stopped_receive_returns_to_idle() {
    let mut wb = Workbench::new("/downloads".to_string());
    wb.paste_ticket(Some("t".to_string()));
    wb.start_receiving();
    wb.finish_receive(1, Err("bad ticket".to_string()));
    assert_eq!(wb.receive_phase(), TransferPhase::Failed);
    assert_eq!(wb.error(), Some("bad ticket".to_string()));
    assert_eq!(wb.status(), "Receive failed");
    let view = wb.receive_view();
    assert!(view.failure_shown);
    assert!(!view.progress_shown);
    assert!(!view.input_shown);
    assert!(wb.start_receiving().is_empty());
    let effects = wb.retry_receiving();
    match effects.as_slice() {
        [Effect::AbortReceive, Effect::StartClock, Effect::SpawnReceive { ticket, save_path, generation }] => {
            assert_eq!(ticket, "t");
            assert_eq!(save_path, "/downloads");
            assert_eq!(*generation, 3);
        }
        other => panic!("unexpected effects {other:?}"),
    }
    assert_eq!(wb.receive_phase(), TransferPhase::Connecting);
    assert_eq!(wb.error(), None);
    let effects = wb.stop_receiving();
    assert!(matches!(effects.as_slice(), [Effect::AbortReceive, Effect::StopClock, Effect::Notify]));
    assert_eq!(wb.receive_phase(), TransferPhase::Idle);
    assert_eq!(wb.generation(), 4);
    assert!(wb.finish_receive(3, Err("late".to_string())).is_empty());
    assert!(wb.retry_receiving().is_empty());
}

#[test]
fn trying_again_after_a_failed_receive_returns_to_the_ticket_field() {
    let mut wb = Workbench::new("/downloads".to_string());
    wb.paste_ticket(Some("t".to_string()));
    wb.start_receiving();
    wb.apply_event(1, TransferEvent::Failed { role: Role::Receiver, message: "peer left".to_string() });
    assert_eq!(wb.receive_phase(), TransferPhase::Failed);
    assert_eq!(wb.send_phase(), TransferPhase::Idle);
    let effects = wb.try_again();
    assert!(matches!(effects.as_slice(), [Effect::AbortReceive, Effect::StopClock, Effect::Notify]));
    assert_eq!(wb.receive_phase(), TransferPhase::Idle);
    assert!(wb.receive_view().input_shown);
    assert_eq!(wb.generation(), 2);
}

#[test]
fn stopping_or_starting_afresh_also_leaves_a_failure() {
    let mut wb = Workbench::new("/downloads".to_string());
    wb.paste_ticket(Some("t".to_string()));
    wb.start_receiving();
    wb.finish_receive(1, Err("bad ticket".to_string()));
    assert_eq!(wb.receive_phase(), TransferPhase::Failed);
    wb.stop_receiving();
    assert_eq!(wb.receive_phase(), TransferPhase::Idle);
    let mut wb = chosen();
    wb.start_sharing();
    wb.finish_send_start(1, Err("no network".to_string()));
    let effects = wb.new_transfer();
    assert!(matches!(
        effects.as_slice(),
        [Effect::AbortSend, Effect::ResetDuration, Effect::StopClock, Effect::Notify]
    ));
    assert_eq!(wb.send_phase(), TransferPhase::Idle);
    assert_eq!(wb.error(), None);
    assert_eq!(wb.generation(), 2);
}

#[test]
fn tabs_switch_only_while_idle() {
    let mut wb = chosen();
    wb.select_tab(Tab::Receive);
    assert_eq!(wb.tab(), Tab::Receive);
    wb.start_sharing();
    assert!(wb.select_tab(Tab::Send).is_empty());
    assert_eq!(wb.tab(), Tab::Receive);
}

#[test]
fn new_transfer_is_refused_while_active_and_resets_otherwise() {
    let mut wb = chosen();
    wb.start_sharing();
    wb.new_transfer();
    assert_eq!(wb.error(), Some("Stop the current transfer first".to_string()));
    assert_eq!(wb.send_phase(), TransferPhase::Preparing);
    wb.finish_send_start(1, Ok("t".to_string()));
    wb.apply_event(1, TransferEvent::Completed { role: Role::Sender });
    let effects = wb.new_transfer();
    assert!(matches!(
        effects.as_slice(),
        [Effect::AbortSend, Effect::ReleaseShare, Effect::ResetDuration, Effect::StopClock, Effect::Notify]
    ));
    assert_eq!(wb.send_phase(), TransferPhase::Idle);
    assert_eq!(wb.selected_path(), None);
    assert_eq!(wb.ticket(), None);
    assert_eq!(wb.completed_path(), None);
    assert_eq!(wb.generation(), 2);
    assert_eq!(wb.error(), None);
}

#[test]
fn closing_the_window_releases_a_kept_share() {
    let mut wb = chosen();
    wb.start_sharing();
    wb.finish_send_start(1, Ok("t".to_string()));
    let effects = wb.stop_on_exit();
    assert!(matches!(effects.as_slice(), [Effect::AbortSend, Effect::AbortReceive, Effect::ReleaseShare]));
    let effects = wb.stop_on_exit();
    assert!(matches!(effects.as_slice(), [Effect::AbortSend, Effect::AbortReceive]));
}

#[test]
fn a_failure_event_fails_the_reporting_side() {
    let mut wb = chosen();
    wb.start_sharing();
    wb.finish_send_start(1, Ok("t".to_string()));
    wb.apply_event(1, TransferEvent::Started { role: Role::Sender });
    assert_eq!(wb.send_phase(), TransferPhase::Sharing);
    let effects = wb.apply_event(1, TransferEvent::Failed { role: Role::Sender, message: "peer left".to_string() });
    assert!(matches!(effects.as_slice(), [Effect::StopClock, Effect::Notify]));
    assert_eq!(wb.send_phase(), TransferPhase::Failed);
    assert_eq!(wb.receive_phase(), TransferPhase::Idle);
    assert_eq!(wb.error(), Some("peer left".to_string()));
    assert_eq!(wb.status(), "Transfer failed");
    let effects = wb.try_again();
    assert!(matches!(
        effects.as_slice(),
        [Effect::AbortSend, Effect::ReleaseShare, Effect::StopClock, Effect::Notify]
    ));
    assert_eq!(wb.ticket(), None);
    assert_eq!(wb.send_phase(), TransferPhase::Idle);
    assert!(wb.apply_event(1, TransferEvent::Started { role: Role::Sender }).is_empty());
}

#[test]
fn theme_and_language_cycle() {
    let mut wb = Workbench::new(String::new());
    assert_eq!(wb.theme(), Theme::Dark);
    assert_eq!(wb.theme_label(), "Dark");
    assert_eq!(wb.colors(false).background, 0x191919);
    wb.cycle_theme();
    assert_eq!(wb.theme(), Theme::Light);
    assert_eq!(wb.colors(true).background, 0xf2f5f9);
    wb.cycle_theme();
    assert_eq!(wb.theme(), Theme::System);
    assert_eq!(wb.colors(true).accent, 0x25d365);
    assert_eq!(wb.theme_label(), "System");
    wb.cycle_theme();
    assert_eq!(wb.theme(), Theme::Dark);
    wb.cycle_locale();
    assert_eq!(wb.locale(), Locale::Spanish);
    for _ in 0..20 {
        wb.cycle_locale();
    }
    assert_eq!(wb.locale(), Locale::English);
    for _ in 0..17 {
        wb.cycle_locale();
    }
    assert_eq!(wb.locale(), Locale::TraditionalChinese);
    wb.cycle_locale();
    assert_eq!(wb.locale(), Locale::Arabic);
}

#[test]
fn update_checks_report_their_outcome() {
    let mut wb = Workbench::new(String::new());
    assert_eq!(wb.update_button_label(), "Check for updates");
    let effects = wb.open_update_or_check();
    assert!(matches!(effects.as_slice(), [Effect::Notify, Effect::FetchUpdate, Effect::Notify]));
    assert!(wb.update_checking());
    assert!(wb.check_for_updates().is_empty());
    assert_eq!(wb.update_status(), Some("Checking for updates...".to_string()));
    wb.finish_update_check(Ok(Some(UpdateInfo {
        version: "0.9.1".to_string(),
        download_url: "https://example.test/setup.exe".to_string(),
    })));
    assert!(!wb.update_checking());
    assert_eq!(wb.update_status(), Some("Version 0.9.1 is available".to_string()));
    assert!(wb.has_update());
    let effects = wb.open_update_or_check();
    match effects.as_slice() {
        [Effect::OpenUrl(url), Effect::Notify] => assert_eq!(url, "https://example.test/setup.exe"),
        other => panic!("unexpected effects {other:?}"),
    }
    assert_eq!(wb.status(), "Opening the update download");
    wb.check_for_updates();
    wb.finish_update_check(Err("offline".to_string()));
    assert_eq!(wb.update_status(), Some("Update check failed: offline".to_string()));
    assert!(!wb.has_update());
    wb.check_for_updates();
    wb.finish_update_check(Ok(None));
    assert_eq!(wb.update_status(), Some("You are up to date".to_string()));
}

#[test]
fn copying_the_ticket_and_the_sponsor_link() {
    let mut wb = chosen();
    assert!(wb.copy_ticket().is_empty());
    wb.start_sharing();
    wb.finish_send_start(1, Ok("ticket-1".to_string()));
    let effects = wb.copy_ticket();
    match effects.as_slice() {
        [Effect::CopyToClipboard(t), Effect::Notify] => assert_eq!(t, "ticket-1"),
        other => panic!("unexpected effects {other:?}"),
    }
    assert_eq!(wb.status(), "Ticket copied to clipboard");
    let effects = wb.open_sponsor_page();
    match effects.as_slice() {
        [Effect::OpenUrl(url), Effect::Notify] => assert_eq!(url, "https://buymeacoffee.com/bruceblink"),
        other => panic!("unexpected effects {other:?}"),
    }
    wb.set_save_path("/elsewhere".to_string());
    assert_eq!(wb.save_path(), "/elsewhere");
    assert_eq!(wb.status(), "Download folder selected");
}

#[test]
fn ticket_edits_go_through_the_field() {
    let mut wb = Workbench::new(String::new());
    wb.edit_ticket(None, "a😀");
    assert_eq!(wb.ticket_input().as_str(), "a😀");
    wb.mark_ticket(Some(1..3), "b", Some(0..1));
    assert_eq!(wb.ticket_input().as_str(), "ab");
    assert_eq!(wb.ticket_input().selection(), 0..1);
}

#[test]
fn folder_sizes_sum_and_overflow_is_reported() {
    assert_eq!(total_size(&vec![]), Some(0));
    assert_eq!(total_size(&vec![1, 2, 3]), Some(6));
    assert_eq!(total_size(&vec![u64::MAX, 0]), Some(u64::MAX));
    assert_eq!(total_size(&vec![u64::MAX, 1]), None);
}

#[test]
fn stale_completion_after_new_transfer_is_ignored() {
    let mut wb = Workbench::new("/downloads".to_string());
    wb.paste_ticket(Some("t".to_string()));
    wb.start_receiving();
    wb.stop_receiving();
    wb.new_transfer();
    assert_eq!(wb.generation(), 3);
    assert!(wb
        .finish_receive(1, Ok(ReceivedItem { path: "/x".to_string(), size: 1 }))
        .is_empty());
    assert_eq!(wb.receive_phase(), TransferPhase::Idle);
    assert_eq!(wb.completed_path(), None);
}
