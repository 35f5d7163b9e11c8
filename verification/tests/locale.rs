use alter_sendme::locale::Locale;

#[test]
fn includes_every_original_locale() {
    assert_eq!(Locale::all().len(), 21);
    assert!(Locale::all().iter().any(|locale| locale.code() == "pt-BR"));
    assert!(Locale::all().iter().any(|locale| locale.code() == "zh-TW"));
}

#[test]
fn resolves_nested_common_translations() {
    assert_eq!(
        Locale::English.lookup("sender.startSharing"),
        Some("Start Sharing")
    );
    assert_eq!(
        Locale::SimplifiedChinese.lookup("sender.startSharing"),
        Some("开始共享")
    );
    assert_eq!(
        Locale::Japanese.ui_copy("drop"),
        Some("ファイルまたはフォルダをここにドロップ")
    );
    assert_eq!(Locale::English.ui_copy("open_folder"), Some("Open folder"));
    assert_eq!(
        Locale::SimplifiedChinese.ui_copy("open_folder"),
        Some("打开文件夹")
    );
}

#[test]
fn chinese_shell_navigation_does_not_fall_back_to_english() {
    let required = [
        "theme.label",
        "language.label",
        "language.select",
        "diagnostics.action",
        "history.title",
        "preferences.title",
        "preferences.relay",
        "preferences.retry",
        "preferences.chunk",
        "preferences.uploadRate",
        "preferences.unlimited",
        "preferences.uploadRateInvalid",
        "state.label",
    ];
    for locale in [Locale::SimplifiedChinese, Locale::TraditionalChinese] {
        for key in required {
            let translated = locale.lookup(key).expect("Chinese shell key exists");
            assert_ne!(translated, Locale::English.lookup(key).unwrap());
        }
    }
}

#[test]
fn every_non_english_locale_translates_the_navigation_shell() {
    let required = [
        "theme.label",
        "language.label",
        "language.select",
        "diagnostics.action",
        "history.title",
        "preferences.title",
        "preferences.relay",
        "preferences.retry",
        "preferences.chunk",
        "preferences.uploadRate",
        "preferences.unlimited",
        "preferences.uploadRateInvalid",
        "state.label",
    ];
    for locale in Locale::all()
        .iter()
        .copied()
        .filter(|locale| *locale != Locale::English)
    {
        for key in required {
            let translated = locale.lookup(key).expect("localized shell key exists");
            assert_ne!(
                translated,
                Locale::English.lookup(key).unwrap(),
                "locale {} still falls back for {key}",
                locale.code()
            );
        }
    }
}

#[test]
fn every_locale_has_the_complete_english_fallback_catalog() {
    let required = [
        "diagnostics.action",
        "history.title",
        "history.clear",
        "preferences.relay",
        "preferences.uploadRate",
        "preferences.unlimited",
        "preferences.uploadRateInvalid",
        "sender.saveTicket",
        "receiver.invalidTicket",
        "transfer.tryAgain",
    ];
    for locale in Locale::all() {
        for key in required {
            assert!(
                locale.lookup(key).is_some(),
                "locale {} is missing {key}",
                locale.code()
            );
        }
    }
}

#[test]
fn every_locale_is_listed_exactly_once() {
    let all = Locale::all();
    for (i, a) in all.iter().enumerate() {
        for b in &all[i + 1..] {
            assert_ne!(a, b);
            assert_ne!(a.code(), b.code());
        }
    }
    assert_eq!(Locale::default(), Locale::English);
    assert_eq!(Locale::BrazilianPortuguese.label(), "Português (Brasil)");
}

#[test]
fn unknown_keys_have_no_text_and_aliases_resolve() {
    assert_eq!(Locale::German.lookup("no.such.key"), None);
    assert_eq!(Locale::English.lookup("drop"), None);
    assert_eq!(Locale::English.ui_copy("drop"), Some("Drop files or folders here"));
    assert_eq!(Locale::German.ui_copy("sender.startSharing"), Some("Start Sharing"));
    assert_eq!(Locale::German.lookup("theme.label"), Some("Design"));
}
