//! The application shell (theme, language, history, settings, diagnostics and state
//! labels) has its own text in every locale: no locale but English shows the English one.

use vstd::prelude::*;
use crate::locale::{catalog_text, english_text, own_entries, table_get, Locale};
use crate::tables::{
    ARABIC, BRAZILIAN_PORTUGUESE, CZECH, FRENCH, GERMAN, HINDI, ITALIAN, JAPANESE, KOREAN,
    NORWEGIAN, PERSIAN, POLISH, RUSSIAN, SERBIAN, SIMPLIFIED_CHINESE, SPANISH, THAI, TRADITIONAL_CHINESE,
    TURKISH, UKRAINIAN,
};

verus! {

/// Whether `key` is one of the application shell's catalogue keys.
pub open spec fn shell_key(key: Seq<char>) -> bool {
    ||| key == "theme.label"@
    ||| key == "language.label"@
    ||| key == "language.select"@
    ||| key == "diagnostics.action"@
    ||| key == "history.title"@
    ||| key == "preferences.title"@
    ||| key == "preferences.relay"@
    ||| key == "preferences.retry"@
    ||| key == "preferences.chunk"@
    ||| key == "preferences.uploadRate"@
    ||| key == "preferences.unlimited"@
    ||| key == "preferences.uploadRateInvalid"@
    ||| key == "state.label"@
}

/// The English shell texts.
proof fn lemma_english_shell_texts()
    ensures
        english_text("theme.label"@) == Some("Theme"),
        english_text("language.label"@) == Some("Language"),
        english_text("language.select"@) == Some("Select language"),
        english_text("diagnostics.action"@) == Some("Diagnostics"),
        english_text("history.title"@) == Some("Transfer history"),
        english_text("preferences.title"@) == Some("Transfer settings"),
        english_text("preferences.relay"@) == Some("Relay"),
        english_text("preferences.retry"@) == Some("Retry limit"),
        english_text("preferences.chunk"@) == Some("Download chunk"),
        english_text("preferences.uploadRate"@) == Some("Upload limit"),
        english_text("preferences.unlimited"@) == Some("Unlimited"),
        english_text("preferences.uploadRateInvalid"@) == Some("Enter a whole number from 1 to 10240 MiB/s"),
        english_text("state.label"@) == Some("State"),
{
    reveal_strlit("appSubtitle");
    reveal_strlit("browse");
    reveal_strlit("diagnostics.action");
    reveal_strlit("donate");
    reveal_strlit("errors.receiveFailed");
    reveal_strlit("errors.sharingFailed");
    reveal_strlit("history.clear");
    reveal_strlit("history.title");
    reveal_strlit("language.label");
    reveal_strlit("language.select");
    reveal_strlit("preferences.chunk");
    reveal_strlit("preferences.relay");
    reveal_strlit("preferences.retry");
    reveal_strlit("preferences.title");
    reveal_strlit("preferences.unlimited");
    reveal_strlit("preferences.uploadRate");
    reveal_strlit("preferences.uploadRateInvalid");
    reveal_strlit("receive");
    reveal_strlit("receiver.connectingToSender");
    reveal_strlit("receiver.downloadCompleted");
    reveal_strlit("receiver.downloadingInProgress");
    reveal_strlit("receiver.invalidTicket");
    reveal_strlit("receiver.noFolderSelected");
    reveal_strlit("receiver.openFolder");
    reveal_strlit("receiver.pasteTicket");
    reveal_strlit("receiver.saveToFolder");
    reveal_strlit("receiver.stopReceiving");
    reveal_strlit("receiver.subtitle");
    reveal_strlit("send");
    reveal_strlit("sender.copyToClipboard");
    reveal_strlit("sender.dropFilesHere");
    reveal_strlit("sender.fileSelected");
    reveal_strlit("sender.folderSelected");
    reveal_strlit("sender.listeningForConnection");
    reveal_strlit("sender.orBrowse");
    reveal_strlit("sender.preparingForTransport");
    reveal_strlit("sender.saveTicket");
    reveal_strlit("sender.sendThisTicket");
    reveal_strlit("sender.sharingInProgress");
    reveal_strlit("sender.startSharing");
    reveal_strlit("sender.stopSharing");
    reveal_strlit("sender.stoppingTransmission");
    reveal_strlit("sender.subtitle");
    reveal_strlit("sender.transferCompleted");
    reveal_strlit("state.label");
    reveal_strlit("theme.dark");
    reveal_strlit("theme.label");
    reveal_strlit("theme.light");
    reveal_strlit("theme.system");
    reveal_strlit("transfer.complete");
    reveal_strlit("transfer.failed");
    reveal_strlit("transfer.file");
    reveal_strlit("transfer.newTransfer");
    reveal_strlit("transfer.stopped");
    reveal_strlit("transfer.tryAgain");
    reveal_strlit("update.checkNow");
    reveal_strlit("update.checking");
    reveal_strlit("update.failed");
    reveal_strlit("update.found");
    reveal_strlit("update.installed");
    reveal_strlit("update.upToDate");
    assert("appSubtitle"@.len() == 11);
    assert("appSubtitle"@[0] == 'a');
    assert("browse"@.len() == 6);
    assert("browse"@[0] == 'b');
    assert("diagnostics.action"@.len() == 18);
    assert("diagnostics.action"@[0] == 'd');
    assert("donate"@.len() == 6);
    assert("donate"@[0] == 'd');
    assert("errors.receiveFailed"@.len() == 20);
    assert("errors.receiveFailed"@[0] == 'e');
    assert("errors.receiveFailed"@[7] == 'r');
    assert("errors.sharingFailed"@.len() == 20);
    assert("errors.sharingFailed"@[0] == 'e');
    assert("errors.sharingFailed"@[7] == 's');
    assert("history.clear"@.len() == 13);
    assert("history.clear"@[0] == 'h');
    assert("history.clear"@[8] == 'c');
    assert("history.title"@.len() == 13);
    assert("history.title"@[0] == 'h');
    assert("history.title"@[8] == 't');
    assert("language.label"@.len() == 14);
    assert("language.select"@.len() == 15);
    assert("language.select"@[0] == 'l');
    assert("preferences.chunk"@.len() == 17);
    assert("preferences.chunk"@[0] == 'p');
    assert("preferences.chunk"@[12] == 'c');
    assert("preferences.relay"@.len() == 17);
    assert("preferences.relay"@[0] == 'p');
    assert("preferences.relay"@[12] == 'r');
    assert("preferences.relay"@[14] == 'l');
    assert("preferences.retry"@.len() == 17);
    assert("preferences.retry"@[0] == 'p');
    assert("preferences.retry"@[12] == 'r');
    assert("preferences.retry"@[14] == 't');
    assert("preferences.title"@.len() == 17);
    assert("preferences.title"@[0] == 'p');
    assert("preferences.title"@[12] == 't');
    assert("preferences.unlimited"@.len() == 21);
    assert("preferences.unlimited"@[0] == 'p');
    assert("preferences.uploadRate"@.len() == 22);
    assert("preferences.uploadRate"@[0] == 'p');
    assert("preferences.uploadRateInvalid"@.len() == 29);
    assert("preferences.uploadRateInvalid"@[0] == 'p');
    assert("receive"@.len() == 7);
    assert("receiver.connectingToSender"@.len() == 27);
    assert("receiver.connectingToSender"@[0] == 'r');
    assert("receiver.downloadCompleted"@.len() == 26);
    assert("receiver.downloadingInProgress"@.len() == 30);
    assert("receiver.invalidTicket"@.len() == 22);
    assert("receiver.invalidTicket"@[0] == 'r');
    assert("receiver.invalidTicket"@[9] == 'i');
    assert("receiver.noFolderSelected"@.len() == 25);
    assert("receiver.openFolder"@.len() == 19);
    assert("receiver.openFolder"@[0] == 'r');
    assert("receiver.pasteTicket"@.len() == 20);
    assert("receiver.pasteTicket"@[0] == 'r');
    assert("receiver.saveToFolder"@.len() == 21);
    assert("receiver.saveToFolder"@[0] == 'r');
    assert("receiver.stopReceiving"@.len() == 22);
    assert("receiver.stopReceiving"@[0] == 'r');
    assert("receiver.stopReceiving"@[9] == 's');
    assert("receiver.subtitle"@.len() == 17);
    assert("receiver.subtitle"@[0] == 'r');
    assert("send"@.len() == 4);
    assert("sender.copyToClipboard"@.len() == 22);
    assert("sender.copyToClipboard"@[0] == 's');
    assert("sender.dropFilesHere"@.len() == 20);
    assert("sender.dropFilesHere"@[0] == 's');
    assert("sender.fileSelected"@.len() == 19);
    assert("sender.fileSelected"@[0] == 's');
    assert("sender.fileSelected"@[7] == 'f');
    assert("sender.folderSelected"@.len() == 21);
    assert("sender.folderSelected"@[0] == 's');
    assert("sender.folderSelected"@[7] == 'f');
    assert("sender.listeningForConnection"@.len() == 29);
    assert("sender.listeningForConnection"@[0] == 's');
    assert("sender.orBrowse"@.len() == 15);
    assert("sender.orBrowse"@[0] == 's');
    assert("sender.orBrowse"@[7] == 'o');
    assert("sender.preparingForTransport"@.len() == 28);
    assert("sender.saveTicket"@.len() == 17);
    assert("sender.saveTicket"@[0] == 's');
    assert("sender.sendThisTicket"@.len() == 21);
    assert("sender.sendThisTicket"@[0] == 's');
    assert("sender.sendThisTicket"@[7] == 's');
    assert("sender.sharingInProgress"@.len() == 24);
    assert("sender.sharingInProgress"@[7] == 's');
    assert("sender.startSharing"@.len() == 19);
    assert("sender.startSharing"@[0] == 's');
    assert("sender.startSharing"@[7] == 's');
    assert("sender.stopSharing"@.len() == 18);
    assert("sender.stopSharing"@[0] == 's');
    assert("sender.stoppingTransmission"@.len() == 27);
    assert("sender.stoppingTransmission"@[0] == 's');
    assert("sender.subtitle"@.len() == 15);
    assert("sender.subtitle"@[0] == 's');
    assert("sender.subtitle"@[7] == 's');
    assert("sender.transferCompleted"@.len() == 24);
    assert("sender.transferCompleted"@[7] == 't');
    assert("state.label"@.len() == 11);
    assert("state.label"@[0] == 's');
    assert("theme.dark"@.len() == 10);
    assert("theme.label"@.len() == 11);
    assert("theme.label"@[0] == 't');
    assert("theme.label"@[7] == 'a');
    assert("theme.light"@.len() == 11);
    assert("theme.light"@[0] == 't');
    assert("theme.light"@[7] == 'i');
    assert("theme.system"@.len() == 12);
    assert("theme.system"@[0] == 't');
    assert("transfer.complete"@.len() == 17);
    assert("transfer.complete"@[0] == 't');
    assert("transfer.complete"@[9] == 'c');
    assert("transfer.failed"@.len() == 15);
    assert("transfer.failed"@[0] == 't');
    assert("transfer.file"@.len() == 13);
    assert("transfer.file"@[0] == 't');
    assert("transfer.newTransfer"@.len() == 20);
    assert("transfer.newTransfer"@[0] == 't');
    assert("transfer.stopped"@.len() == 16);
    assert("transfer.stopped"@[0] == 't');
    assert("transfer.tryAgain"@.len() == 17);
    assert("transfer.tryAgain"@[0] == 't');
    assert("transfer.tryAgain"@[9] == 't');
    assert("update.checkNow"@.len() == 15);
    assert("update.checkNow"@[0] == 'u');
    assert("update.checkNow"@[7] == 'c');
    assert("update.checkNow"@[12] == 'N');
    assert("update.checking"@.len() == 15);
    assert("update.checking"@[0] == 'u');
    assert("update.checking"@[7] == 'c');
    assert("update.checking"@[12] == 'i');
    assert("update.failed"@.len() == 13);
    assert("update.failed"@[0] == 'u');
    assert("update.found"@.len() == 12);
    assert("update.found"@[0] == 'u');
    assert("update.installed"@.len() == 16);
    assert("update.installed"@[0] == 'u');
    assert("update.upToDate"@.len() == 15);
    assert("update.upToDate"@[0] == 'u');
    assert("update.upToDate"@[7] == 'u');
    reveal_with_fuel(table_get, 62);
}

/// The Arabic shell texts, each differing from the English one.
proof fn lemma_arabic_shell_texts()
    ensures
        table_get(ARABIC@, "theme.label"@) == Some("السمة"),
        table_get(ARABIC@, "language.label"@) == Some("اللغة"),
        table_get(ARABIC@, "language.select"@) == Some("اختر اللغة"),
        table_get(ARABIC@, "diagnostics.action"@) == Some("التشخيص"),
        table_get(ARABIC@, "history.title"@) == Some("سجل النقل"),
        table_get(ARABIC@, "preferences.title"@) == Some("إعدادات النقل"),
        table_get(ARABIC@, "preferences.relay"@) == Some("خادم الترحيل"),
        table_get(ARABIC@, "preferences.retry"@) == Some("حد إعادة المحاولة"),
        table_get(ARABIC@, "preferences.chunk"@) == Some("حجم جزء التنزيل"),
        table_get(ARABIC@, "preferences.uploadRate"@) == Some("حد الرفع"),
        table_get(ARABIC@, "preferences.unlimited"@) == Some("غير محدود"),
        table_get(ARABIC@, "preferences.uploadRateInvalid"@) == Some("أدخل عددًا صحيحًا من 1 إلى 10240 ميبيبايت/ث"),
        table_get(ARABIC@, "state.label"@) == Some("الحالة"),
        "السمة"@ != "Theme"@,
        "اللغة"@ != "Language"@,
        "اختر اللغة"@ != "Select language"@,
        "التشخيص"@ != "Diagnostics"@,
        "سجل النقل"@ != "Transfer history"@,
        "إعدادات النقل"@ != "Transfer settings"@,
        "خادم الترحيل"@ != "Relay"@,
        "حد إعادة المحاولة"@ != "Retry limit"@,
        "حجم جزء التنزيل"@ != "Download chunk"@,
        "حد الرفع"@ != "Upload limit"@,
        "غير محدود"@ != "Unlimited"@,
        "أدخل عددًا صحيحًا من 1 إلى 10240 ميبيبايت/ث"@ != "Enter a whole number from 1 to 10240 MiB/s"@,
        "الحالة"@ != "State"@,
{
    reveal_strlit("diagnostics.action");
    reveal_strlit("history.title");
    reveal_strlit("language.label");
    reveal_strlit("language.select");
    reveal_strlit("preferences.chunk");
    reveal_strlit("preferences.relay");
    reveal_strlit("preferences.retry");
    reveal_strlit("preferences.title");
    reveal_strlit("preferences.unlimited");
    reveal_strlit("preferences.uploadRate");
    reveal_strlit("preferences.uploadRateInvalid");
    reveal_strlit("state.label");
    reveal_strlit("theme.label");
    assert("diagnostics.action"@.len() == 18);
    assert("history.title"@.len() == 13);
    assert("language.label"@.len() == 14);
    assert("language.select"@.len() == 15);
    assert("preferences.chunk"@.len() == 17);
    assert("preferences.chunk"@[12] == 'c');
    assert("preferences.relay"@.len() == 17);
    assert("preferences.relay"@[12] == 'r');
    assert("preferences.relay"@[14] == 'l');
    assert("preferences.retry"@.len() == 17);
    assert("preferences.retry"@[12] == 'r');
    assert("preferences.retry"@[14] == 't');
    assert("preferences.title"@.len() == 17);
    assert("preferences.title"@[12] == 't');
    assert("preferences.unlimited"@.len() == 21);
    assert("preferences.uploadRate"@.len() == 22);
    assert("preferences.uploadRateInvalid"@.len() == 29);
    assert("state.label"@.len() == 11);
    assert("state.label"@[0] == 's');
    assert("theme.label"@.len() == 11);
    assert("theme.label"@[0] == 't');
    reveal_strlit("Diagnostics");
    reveal_strlit("Download chunk");
    reveal_strlit("Enter a whole number from 1 to 10240 MiB/s");
    reveal_strlit("Language");
    reveal_strlit("Relay");
    reveal_strlit("Retry limit");
    reveal_strlit("Select language");
    reveal_strlit("State");
    reveal_strlit("Theme");
    reveal_strlit("Transfer history");
    reveal_strlit("Transfer settings");
    reveal_strlit("Unlimited");
    reveal_strlit("Upload limit");
    reveal_strlit("أدخل عددًا صحيحًا من 1 إلى 10240 ميبيبايت/ث");
    reveal_strlit("إعدادات النقل");
    reveal_strlit("اختر اللغة");
    reveal_strlit("التشخيص");
    reveal_strlit("الحالة");
    reveal_strlit("السمة");
    reveal_strlit("اللغة");
    reveal_strlit("حجم جزء التنزيل");
    reveal_strlit("حد إعادة المحاولة");
    reveal_strlit("حد الرفع");
    reveal_strlit("خادم الترحيل");
    reveal_strlit("سجل النقل");
    reveal_strlit("غير محدود");
    assert("Diagnostics"@.len() == 11);
    assert("Download chunk"@.len() == 14);
    assert("Enter a whole number from 1 to 10240 MiB/s"@.len() == 42);
    assert("Language"@.len() == 8);
    assert("Relay"@.len() == 5);
    assert("Retry limit"@.len() == 11);
    assert("Select language"@.len() == 15);
    assert("State"@.len() == 5);
    assert("Theme"@.len() == 5);
    assert("Theme"@[0] == 'T');
    assert("Transfer history"@.len() == 16);
    assert("Transfer settings"@.len() == 17);
    assert("Unlimited"@.len() == 9);
    assert("Unlimited"@[0] == 'U');
    assert("Upload limit"@.len() == 12);
    assert("أدخل عددًا صحيحًا من 1 إلى 10240 ميبيبايت/ث"@.len() == 43);
    assert("إعدادات النقل"@.len() == 13);
    assert("اختر اللغة"@.len() == 10);
    assert("التشخيص"@.len() == 7);
    assert("الحالة"@.len() == 6);
    assert("السمة"@.len() == 5);
    assert("السمة"@[0] == 'ا');
    assert("اللغة"@.len() == 5);
    assert("حجم جزء التنزيل"@.len() == 15);
    assert("حد إعادة المحاولة"@.len() == 17);
    assert("حد الرفع"@.len() == 8);
    assert("خادم الترحيل"@.len() == 12);
    assert("سجل النقل"@.len() == 9);
    assert("غير محدود"@.len() == 9);
    assert("غير محدود"@[0] == 'غ');
    reveal_with_fuel(table_get, 14);
}

/// The Czech shell texts, each differing from the English one.
proof fn lemma_czech_shell_texts()
    ensures
        table_get(CZECH@, "theme.label"@) == Some("Motiv"),
        table_get(CZECH@, "language.label"@) == Some("Jazyk"),
        table_get(CZECH@, "language.select"@) == Some("Vyberte jazyk"),
        table_get(CZECH@, "diagnostics.action"@) == Some("Diagnostika"),
        table_get(CZECH@, "history.title"@) == Some("Historie přenosů"),
        table_get(CZECH@, "preferences.title"@) == Some("Nastavení přenosu"),
        table_get(CZECH@, "preferences.relay"@) == Some("Přenosový server"),
        table_get(CZECH@, "preferences.retry"@) == Some("Limit opakování"),
        table_get(CZECH@, "preferences.chunk"@) == Some("Velikost bloku stahování"),
        table_get(CZECH@, "preferences.uploadRate"@) == Some("Limit odesílání"),
        table_get(CZECH@, "preferences.unlimited"@) == Some("Bez omezení"),
        table_get(CZECH@, "preferences.uploadRateInvalid"@) == Some("Zadejte celé číslo od 1 do 10240 MiB/s"),
        table_get(CZECH@, "state.label"@) == Some("Stav"),
        "Motiv"@ != "Theme"@,
        "Jazyk"@ != "Language"@,
        "Vyberte jazyk"@ != "Select language"@,
        "Diagnostika"@ != "Diagnostics"@,
        "Historie přenosů"@ != "Transfer history"@,
        "Nastavení přenosu"@ != "Transfer settings"@,
        "Přenosový server"@ != "Relay"@,
        "Limit opakování"@ != "Retry limit"@,
        "Velikost bloku stahování"@ != "Download chunk"@,
        "Limit odesílání"@ != "Upload limit"@,
        "Bez omezení"@ != "Unlimited"@,
        "Zadejte celé číslo od 1 do 10240 MiB/s"@ != "Enter a whole number from 1 to 10240 MiB/s"@,
        "Stav"@ != "State"@,
{
    reveal_strlit("diagnostics.action");
    reveal_strlit("history.title");
    reveal_strlit("language.label");
    reveal_strlit("language.select");
    reveal_strlit("preferences.chunk");
    reveal_strlit("preferences.relay");
    reveal_strlit("preferences.retry");
    reveal_strlit("preferences.title");
    reveal_strlit("preferences.unlimited");
    reveal_strlit("preferences.uploadRate");
    reveal_strlit("preferences.uploadRateInvalid");
    reveal_strlit("state.label");
    reveal_strlit("theme.label");
    assert("diagnostics.action"@.len() == 18);
    assert("history.title"@.len() == 13);
    assert("language.label"@.len() == 14);
    assert("language.select"@.len() == 15);
    assert("preferences.chunk"@.len() == 17);
    assert("preferences.chunk"@[12] == 'c');
    assert("preferences.relay"@.len() == 17);
    assert("preferences.relay"@[12] == 'r');
    assert("preferences.relay"@[14] == 'l');
    assert("preferences.retry"@.len() == 17);
    assert("preferences.retry"@[12] == 'r');
    assert("preferences.retry"@[14] == 't');
    assert("preferences.title"@.len() == 17);
    assert("preferences.title"@[12] == 't');
    assert("preferences.unlimited"@.len() == 21);
    assert("preferences.uploadRate"@.len() == 22);
    assert("preferences.uploadRateInvalid"@.len() == 29);
    assert("state.label"@.len() == 11);
    assert("state.label"@[0] == 's');
    assert("theme.label"@.len() == 11);
    assert("theme.label"@[0] == 't');
    reveal_strlit("Bez omezení");
    reveal_strlit("Diagnostics");
    reveal_strlit("Diagnostika");
    reveal_strlit("Download chunk");
    reveal_strlit("Enter a whole number from 1 to 10240 MiB/s");
    reveal_strlit("Historie přenosů");
    reveal_strlit("Jazyk");
    reveal_strlit("Language");
    reveal_strlit("Limit odesílání");
    reveal_strlit("Limit opakování");
    reveal_strlit("Motiv");
    reveal_strlit("Nastavení přenosu");
    reveal_strlit("Přenosový server");
    reveal_strlit("Relay");
    reveal_strlit("Retry limit");
    reveal_strlit("Select language");
    reveal_strlit("State");
    reveal_strlit("Stav");
    reveal_strlit("Theme");
    reveal_strlit("Transfer history");
    reveal_strlit("Transfer settings");
    reveal_strlit("Unlimited");
    reveal_strlit("Upload limit");
    reveal_strlit("Velikost bloku stahování");
    reveal_strlit("Vyberte jazyk");
    reveal_strlit("Zadejte celé číslo od 1 do 10240 MiB/s");
    assert("Bez omezení"@.len() == 11);
    assert("Diagnostics"@.len() == 11);
    assert("Diagnostics"@[9] == 'c');
    assert("Diagnostika"@.len() == 11);
    assert("Diagnostika"@[9] == 'k');
    assert("Download chunk"@.len() == 14);
    assert("Enter a whole number from 1 to 10240 MiB/s"@.len() == 42);
    assert("Historie přenosů"@.len() == 16);
    assert("Historie přenosů"@[0] == 'H');
    assert("Jazyk"@.len() == 5);
    assert("Language"@.len() == 8);
    assert("Limit odesílání"@.len() == 15);
    assert("Limit opakování"@.len() == 15);
    assert("Motiv"@.len() == 5);
    assert("Motiv"@[0] == 'M');
    assert("Nastavení přenosu"@.len() == 17);
    assert("Nastavení přenosu"@[0] == 'N');
    assert("Přenosový server"@.len() == 16);
    assert("Relay"@.len() == 5);
    assert("Retry limit"@.len() == 11);
    assert("Select language"@.len() == 15);
    assert("State"@.len() == 5);
    assert("Stav"@.len() == 4);
    assert("Theme"@.len() == 5);
    assert("Theme"@[0] == 'T');
    assert("Transfer history"@.len() == 16);
    assert("Transfer history"@[0] == 'T');
    assert("Transfer settings"@.len() == 17);
    assert("Transfer settings"@[0] == 'T');
    assert("Unlimited"@.len() == 9);
    assert("Upload limit"@.len() == 12);
    assert("Velikost bloku stahování"@.len() == 24);
    assert("Vyberte jazyk"@.len() == 13);
    assert("Zadejte celé číslo od 1 do 10240 MiB/s"@.len() == 38);
    reveal_with_fuel(table_get, 14);
}

/// The German shell texts, each differing from the English one.
proof fn lemma_german_shell_texts()
    ensures
        table_get(GERMAN@, "theme.label"@) == Some("Design"),
        table_get(GERMAN@, "language.label"@) == Some("Sprache"),
        table_get(GERMAN@, "language.select"@) == Some("Sprache auswählen"),
        table_get(GERMAN@, "diagnostics.action"@) == Some("Diagnose"),
        table_get(GERMAN@, "history.title"@) == Some("Übertragungsverlauf"),
        table_get(GERMAN@, "preferences.title"@) == Some("Übertragungseinstellungen"),
        table_get(GERMAN@, "preferences.relay"@) == Some("Relay-Server"),
        table_get(GERMAN@, "preferences.retry"@) == Some("Wiederholungslimit"),
        table_get(GERMAN@, "preferences.chunk"@) == Some("Download-Blockgröße"),
        table_get(GERMAN@, "preferences.uploadRate"@) == Some("Upload-Limit"),
        table_get(GERMAN@, "preferences.unlimited"@) == Some("Unbegrenzt"),
        table_get(GERMAN@, "preferences.uploadRateInvalid"@) == Some("Geben Sie eine ganze Zahl von 1 bis 10240 MiB/s ein"),
        table_get(GERMAN@, "state.label"@) == Some("Status"),
        "Design"@ != "Theme"@,
        "Sprache"@ != "Language"@,
        "Sprache auswählen"@ != "Select language"@,
        "Diagnose"@ != "Diagnostics"@,
        "Übertragungsverlauf"@ != "Transfer history"@,
        "Übertragungseinstellungen"@ != "Transfer settings"@,
        "Relay-Server"@ != "Relay"@,
        "Wiederholungslimit"@ != "Retry limit"@,
        "Download-Blockgröße"@ != "Download chunk"@,
        "Upload-Limit"@ != "Upload limit"@,
        "Unbegrenzt"@ != "Unlimited"@,
        "Geben Sie eine ganze Zahl von 1 bis 10240 MiB/s ein"@ != "Enter a whole number from 1 to 10240 MiB/s"@,
        "Status"@ != "State"@,
{
    reveal_strlit("diagnostics.action");
    reveal_strlit("history.title");
    reveal_strlit("language.label");
    reveal_strlit("language.select");
    reveal_strlit("preferences.chunk");
    reveal_strlit("preferences.relay");
    reveal_strlit("preferences.retry");
    reveal_strlit("preferences.title");
    reveal_strlit("preferences.unlimited");
    reveal_strlit("preferences.uploadRate");
    reveal_strlit("preferences.uploadRateInvalid");
    reveal_strlit("state.label");
    reveal_strlit("theme.label");
    assert("diagnostics.action"@.len() == 18);
    assert("history.title"@.len() == 13);
    assert("language.label"@.len() == 14);
    assert("language.select"@.len() == 15);
    assert("preferences.chunk"@.len() == 17);
    assert("preferences.chunk"@[12] == 'c');
    assert("preferences.relay"@.len() == 17);
    assert("preferences.relay"@[12] == 'r');
    assert("preferences.relay"@[14] == 'l');
    assert("preferences.retry"@.len() == 17);
    assert("preferences.retry"@[12] == 'r');
    assert("preferences.retry"@[14] == 't');
    assert("preferences.title"@.len() == 17);
    assert("preferences.title"@[12] == 't');
    assert("preferences.unlimited"@.len() == 21);
    assert("preferences.uploadRate"@.len() == 22);
    assert("preferences.uploadRateInvalid"@.len() == 29);
    assert("state.label"@.len() == 11);
    assert("state.label"@[0] == 's');
    assert("theme.label"@.len() == 11);
    assert("theme.label"@[0] == 't');
    reveal_strlit("Design");
    reveal_strlit("Diagnose");
    reveal_strlit("Diagnostics");
    reveal_strlit("Download chunk");
    reveal_strlit("Download-Blockgröße");
    reveal_strlit("Enter a whole number from 1 to 10240 MiB/s");
    reveal_strlit("Geben Sie eine ganze Zahl von 1 bis 10240 MiB/s ein");
    reveal_strlit("Language");
    reveal_strlit("Relay");
    reveal_strlit("Relay-Server");
    reveal_strlit("Retry limit");
    reveal_strlit("Select language");
    reveal_strlit("Sprache");
    reveal_strlit("Sprache auswählen");
    reveal_strlit("State");
    reveal_strlit("Status");
    reveal_strlit("Theme");
    reveal_strlit("Transfer history");
    reveal_strlit("Transfer settings");
    reveal_strlit("Unbegrenzt");
    reveal_strlit("Unlimited");
    reveal_strlit("Upload limit");
    reveal_strlit("Upload-Limit");
    reveal_strlit("Wiederholungslimit");
    reveal_strlit("Übertragungseinstellungen");
    reveal_strlit("Übertragungsverlauf");
    assert("Design"@.len() == 6);
    assert("Diagnose"@.len() == 8);
    assert("Diagnostics"@.len() == 11);
    assert("Download chunk"@.len() == 14);
    assert("Download-Blockgröße"@.len() == 19);
    assert("Enter a whole number from 1 to 10240 MiB/s"@.len() == 42);
    assert("Geben Sie eine ganze Zahl von 1 bis 10240 MiB/s ein"@.len() == 51);
    assert("Language"@.len() == 8);
    assert("Relay"@.len() == 5);
    assert("Relay-Server"@.len() == 12);
    assert("Retry limit"@.len() == 11);
    assert("Select language"@.len() == 15);
    assert("Sprache"@.len() == 7);
    assert("Sprache auswählen"@.len() == 17);
    assert("State"@.len() == 5);
    assert("Status"@.len() == 6);
    assert("Theme"@.len() == 5);
    assert("Transfer history"@.len() == 16);
    assert("Transfer settings"@.len() == 17);
    assert("Unbegrenzt"@.len() == 10);
    assert("Unlimited"@.len() == 9);
    assert("Upload limit"@.len() == 12);
    assert("Upload limit"@[6] == ' ');
    assert("Upload-Limit"@.len() == 12);
    assert("Upload-Limit"@[6] == '-');
    assert("Wiederholungslimit"@.len() == 18);
    assert("Übertragungseinstellungen"@.len() == 25);
    assert("Übertragungsverlauf"@.len() == 19);
    reveal_with_fuel(table_get, 14);
}

/// The Spanish shell texts, each differing from the English one.
proof fn lemma_spanish_shell_texts()
    ensures
        table_get(SPANISH@, "theme.label"@) == Some("Tema"),
        table_get(SPANISH@, "language.label"@) == Some("Idioma"),
        table_get(SPANISH@, "language.select"@) == Some("Seleccionar idioma"),
        table_get(SPANISH@, "diagnostics.action"@) == Some("Diagnóstico"),
        table_get(SPANISH@, "history.title"@) == Some("Historial de transferencias"),
        table_get(SPANISH@, "preferences.title"@) == Some("Ajustes de transferencia"),
        table_get(SPANISH@, "preferences.relay"@) == Some("Servidor de retransmisión"),
        table_get(SPANISH@, "preferences.retry"@) == Some("Límite de reintentos"),
        table_get(SPANISH@, "preferences.chunk"@) == Some("Tamaño de bloque de descarga"),
        table_get(SPANISH@, "preferences.uploadRate"@) == Some("Límite de subida"),
        table_get(SPANISH@, "preferences.unlimited"@) == Some("Sin límite"),
        table_get(SPANISH@, "preferences.uploadRateInvalid"@) == Some("Introduce un número entero de 1 a 10240 MiB/s"),
        table_get(SPANISH@, "state.label"@) == Some("Estado"),
        "Tema"@ != "Theme"@,
        "Idioma"@ != "Language"@,
        "Seleccionar idioma"@ != "Select language"@,
        "Diagnóstico"@ != "Diagnostics"@,
        "Historial de transferencias"@ != "Transfer history"@,
        "Ajustes de transferencia"@ != "Transfer settings"@,
        "Servidor de retransmisión"@ != "Relay"@,
        "Límite de reintentos"@ != "Retry limit"@,
        "Tamaño de bloque de descarga"@ != "Download chunk"@,
        "Límite de subida"@ != "Upload limit"@,
        "Sin límite"@ != "Unlimited"@,
        "Introduce un número entero de 1 a 10240 MiB/s"@ != "Enter a whole number from 1 to 10240 MiB/s"@,
        "Estado"@ != "State"@,
{
    reveal_strlit("diagnostics.action");
    reveal_strlit("history.title");
    reveal_strlit("language.label");
    reveal_strlit("language.select");
    reveal_strlit("preferences.chunk");
    reveal_strlit("preferences.relay");
    reveal_strlit("preferences.retry");
    reveal_strlit("preferences.title");
    reveal_strlit("preferences.unlimited");
    reveal_strlit("preferences.uploadRate");
    reveal_strlit("preferences.uploadRateInvalid");
    reveal_strlit("state.label");
    reveal_strlit("theme.label");
    assert("diagnostics.action"@.len() == 18);
    assert("history.title"@.len() == 13);
    assert("language.label"@.len() == 14);
    assert("language.select"@.len() == 15);
    assert("preferences.chunk"@.len() == 17);
    assert("preferences.chunk"@[12] == 'c');
    assert("preferences.relay"@.len() == 17);
    assert("preferences.relay"@[12] == 'r');
    assert("preferences.relay"@[14] == 'l');
    assert("preferences.retry"@.len() == 17);
    assert("preferences.retry"@[12] == 'r');
    assert("preferences.retry"@[14] == 't');
    assert("preferences.title"@.len() == 17);
    assert("preferences.title"@[12] == 't');
    assert("preferences.unlimited"@.len() == 21);
    assert("preferences.uploadRate"@.len() == 22);
    assert("preferences.uploadRateInvalid"@.len() == 29);
    assert("state.label"@.len() == 11);
    assert("state.label"@[0] == 's');
    assert("theme.label"@.len() == 11);
    assert("theme.label"@[0] == 't');
    reveal_strlit("Ajustes de transferencia");
    reveal_strlit("Diagnostics");
    reveal_strlit("Diagnóstico");
    reveal_strlit("Download chunk");
    reveal_strlit("Enter a whole number from 1 to 10240 MiB/s");
    reveal_strlit("Estado");
    reveal_strlit("Historial de transferencias");
    reveal_strlit("Idioma");
    reveal_strlit("Introduce un número entero de 1 a 10240 MiB/s");
    reveal_strlit("Language");
    reveal_strlit("Límite de reintentos");
    reveal_strlit("Límite de subida");
    reveal_strlit("Relay");
    reveal_strlit("Retry limit");
    reveal_strlit("Seleccionar idioma");
    reveal_strlit("Select language");
    reveal_strlit("Servidor de retransmisión");
    reveal_strlit("Sin límite");
    reveal_strlit("State");
    reveal_strlit("Tamaño de bloque de descarga");
    reveal_strlit("Tema");
    reveal_strlit("Theme");
    reveal_strlit("Transfer history");
    reveal_strlit("Transfer settings");
    reveal_strlit("Unlimited");
    reveal_strlit("Upload limit");
    assert("Ajustes de transferencia"@.len() == 24);
    assert("Diagnostics"@.len() == 11);
    assert("Diagnostics"@[5] == 'o');
    assert("Diagnóstico"@.len() == 11);
    assert("Diagnóstico"@[5] == 'ó');
    assert("Download chunk"@.len() == 14);
    assert("Enter a whole number from 1 to 10240 MiB/s"@.len() == 42);
    assert("Estado"@.len() == 6);
    assert("Historial de transferencias"@.len() == 27);
    assert("Idioma"@.len() == 6);
    assert("Introduce un número entero de 1 a 10240 MiB/s"@.len() == 45);
    assert("Language"@.len() == 8);
    assert("Límite de reintentos"@.len() == 20);
    assert("Límite de subida"@.len() == 16);
    assert("Relay"@.len() == 5);
    assert("Retry limit"@.len() == 11);
    assert("Seleccionar idioma"@.len() == 18);
    assert("Select language"@.len() == 15);
    assert("Servidor de retransmisión"@.len() == 25);
    assert("Sin límite"@.len() == 10);
    assert("State"@.len() == 5);
    assert("Tamaño de bloque de descarga"@.len() == 28);
    assert("Tema"@.len() == 4);
    assert("Theme"@.len() == 5);
    assert("Transfer history"@.len() == 16);
    assert("Transfer settings"@.len() == 17);
    assert("Unlimited"@.len() == 9);
    assert("Upload limit"@.len() == 12);
    reveal_with_fuel(table_get, 14);
}

/// The Persian shell texts, each differing from the English one.
proof fn lemma_persian_shell_texts()
    ensures
        table_get(PERSIAN@, "theme.label"@) == Some("پوسته"),
        table_get(PERSIAN@, "language.label"@) == Some("زبان"),
        table_get(PERSIAN@, "language.select"@) == Some("انتخاب زبان"),
        table_get(PERSIAN@, "diagnostics.action"@) == Some("عیب‌یابی"),
        table_get(PERSIAN@, "history.title"@) == Some("تاریخچه انتقال"),
        table_get(PERSIAN@, "preferences.title"@) == Some("تنظیمات انتقال"),
        table_get(PERSIAN@, "preferences.relay"@) == Some("سرور رله"),
        table_get(PERSIAN@, "preferences.retry"@) == Some("حد تلاش مجدد"),
        table_get(PERSIAN@, "preferences.chunk"@) == Some("اندازه بخش دانلود"),
        table_get(PERSIAN@, "preferences.uploadRate"@) == Some("حد آپلود"),
        table_get(PERSIAN@, "preferences.unlimited"@) == Some("نامحدود"),
        table_get(PERSIAN@, "preferences.uploadRateInvalid"@) == Some("یک عدد صحیح از ۱ تا ۱۰۲۴۰ مبی‌بایت بر ثانیه وارد کنید"),
        table_get(PERSIAN@, "state.label"@) == Some("وضعیت"),
        "پوسته"@ != "Theme"@,
        "زبان"@ != "Language"@,
        "انتخاب زبان"@ != "Select language"@,
        "عیب‌یابی"@ != "Diagnostics"@,
        "تاریخچه انتقال"@ != "Transfer history"@,
        "تنظیمات انتقال"@ != "Transfer settings"@,
        "سرور رله"@ != "Relay"@,
        "حد تلاش مجدد"@ != "Retry limit"@,
        "اندازه بخش دانلود"@ != "Download chunk"@,
        "حد آپلود"@ != "Upload limit"@,
        "نامحدود"@ != "Unlimited"@,
        "یک عدد صحیح از ۱ تا ۱۰۲۴۰ مبی‌بایت بر ثانیه وارد کنید"@ != "Enter a whole number from 1 to 10240 MiB/s"@,
        "وضعیت"@ != "State"@,
{
    reveal_strlit("diagnostics.action");
    reveal_strlit("history.title");
    reveal_strlit("language.label");
    reveal_strlit("language.select");
    reveal_strlit("preferences.chunk");
    reveal_strlit("preferences.relay");
    reveal_strlit("preferences.retry");
    reveal_strlit("preferences.title");
    reveal_strlit("preferences.unlimited");
    reveal_strlit("preferences.uploadRate");
    reveal_strlit("preferences.uploadRateInvalid");
    reveal_strlit("state.label");
    reveal_strlit("theme.label");
    assert("diagnostics.action"@.len() == 18);
    assert("history.title"@.len() == 13);
    assert("language.label"@.len() == 14);
    assert("language.select"@.len() == 15);
    assert("preferences.chunk"@.len() == 17);
    assert("preferences.chunk"@[12] == 'c');
    assert("preferences.relay"@.len() == 17);
    assert("preferences.relay"@[12] == 'r');
    assert("preferences.relay"@[14] == 'l');
    assert("preferences.retry"@.len() == 17);
    assert("preferences.retry"@[12] == 'r');
    assert("preferences.retry"@[14] == 't');
    assert("preferences.title"@.len() == 17);
    assert("preferences.title"@[12] == 't');
    assert("preferences.unlimited"@.len() == 21);
    assert("preferences.uploadRate"@.len() == 22);
    assert("preferences.uploadRateInvalid"@.len() == 29);
    assert("state.label"@.len() == 11);
    assert("state.label"@[0] == 's');
    assert("theme.label"@.len() == 11);
    assert("theme.label"@[0] == 't');
    reveal_strlit("Diagnostics");
    reveal_strlit("Download chunk");
    reveal_strlit("Enter a whole number from 1 to 10240 MiB/s");
    reveal_strlit("Language");
    reveal_strlit("Relay");
    reveal_strlit("Retry limit");
    reveal_strlit("Select language");
    reveal_strlit("State");
    reveal_strlit("Theme");
    reveal_strlit("Transfer history");
    reveal_strlit("Transfer settings");
    reveal_strlit("Unlimited");
    reveal_strlit("Upload limit");
    reveal_strlit("انتخاب زبان");
    reveal_strlit("اندازه بخش دانلود");
    reveal_strlit("تاریخچه انتقال");
    reveal_strlit("تنظیمات انتقال");
    reveal_strlit("حد آپلود");
    reveal_strlit("حد تلاش مجدد");
    reveal_strlit("زبان");
    reveal_strlit("سرور رله");
    reveal_strlit("عیب‌یابی");
    reveal_strlit("نامحدود");
    reveal_strlit("وضعیت");
    reveal_strlit("پوسته");
    reveal_strlit("یک عدد صحیح از ۱ تا ۱۰۲۴۰ مبی‌بایت بر ثانیه وارد کنید");
    assert("Diagnostics"@.len() == 11);
    assert("Download chunk"@.len() == 14);
    assert("Enter a whole number from 1 to 10240 MiB/s"@.len() == 42);
    assert("Language"@.len() == 8);
    assert("Relay"@.len() == 5);
    assert("Retry limit"@.len() == 11);
    assert("Select language"@.len() == 15);
    assert("State"@.len() == 5);
    assert("State"@[0] == 'S');
    assert("Theme"@.len() == 5);
    assert("Theme"@[0] == 'T');
    assert("Transfer history"@.len() == 16);
    assert("Transfer settings"@.len() == 17);
    assert("Unlimited"@.len() == 9);
    assert("Upload limit"@.len() == 12);
    assert("انتخاب زبان"@.len() == 11);
    assert("اندازه بخش دانلود"@.len() == 17);
    assert("تاریخچه انتقال"@.len() == 14);
    assert("تنظیمات انتقال"@.len() == 14);
    assert("حد آپلود"@.len() == 8);
    assert("حد تلاش مجدد"@.len() == 12);
    assert("زبان"@.len() == 4);
    assert("سرور رله"@.len() == 8);
    assert("عیب‌یابی"@.len() == 8);
    assert("نامحدود"@.len() == 7);
    assert("وضعیت"@.len() == 5);
    assert("وضعیت"@[0] == 'و');
    assert("پوسته"@.len() == 5);
    assert("پوسته"@[0] == 'پ');
    assert("یک عدد صحیح از ۱ تا ۱۰۲۴۰ مبی‌بایت بر ثانیه وارد کنید"@.len() == 53);
    reveal_with_fuel(table_get, 14);
}

/// The French shell texts, each differing from the English one.
proof fn lemma_french_shell_texts()
    ensures
        table_get(FRENCH@, "theme.label"@) == Some("Thème"),
        table_get(FRENCH@, "language.label"@) == Some("Langue"),
        table_get(FRENCH@, "language.select"@) == Some("Choisir la langue"),
        table_get(FRENCH@, "diagnostics.action"@) == Some("Diagnostic"),
        table_get(FRENCH@, "history.title"@) == Some("Historique des transferts"),
        table_get(FRENCH@, "preferences.title"@) == Some("Paramètres de transfert"),
        table_get(FRENCH@, "preferences.relay"@) == Some("Relais"),
        table_get(FRENCH@, "preferences.retry"@) == Some("Limite de tentatives"),
        table_get(FRENCH@, "preferences.chunk"@) == Some("Taille des blocs de téléchargement"),
        table_get(FRENCH@, "preferences.uploadRate"@) == Some("Limite d’envoi"),
        table_get(FRENCH@, "preferences.unlimited"@) == Some("Illimité"),
        table_get(FRENCH@, "preferences.uploadRateInvalid"@) == Some("Saisissez un nombre entier de 1 à 10240 Mio/s"),
        table_get(FRENCH@, "state.label"@) == Some("État"),
        "Thème"@ != "Theme"@,
        "Langue"@ != "Language"@,
        "Choisir la langue"@ != "Select language"@,
        "Diagnostic"@ != "Diagnostics"@,
        "Historique des transferts"@ != "Transfer history"@,
        "Paramètres de transfert"@ != "Transfer settings"@,
        "Relais"@ != "Relay"@,
        "Limite de tentatives"@ != "Retry limit"@,
        "Taille des blocs de téléchargement"@ != "Download chunk"@,
        "Limite d’envoi"@ != "Upload limit"@,
        "Illimité"@ != "Unlimited"@,
        "Saisissez un nombre entier de 1 à 10240 Mio/s"@ != "Enter a whole number from 1 to 10240 MiB/s"@,
        "État"@ != "State"@,
{
    reveal_strlit("diagnostics.action");
    reveal_strlit("history.title");
    reveal_strlit("language.label");
    reveal_strlit("language.select");
    reveal_strlit("preferences.chunk");
    reveal_strlit("preferences.relay");
    reveal_strlit("preferences.retry");
    reveal_strlit("preferences.title");
    reveal_strlit("preferences.unlimited");
    reveal_strlit("preferences.uploadRate");
    reveal_strlit("preferences.uploadRateInvalid");
    reveal_strlit("state.label");
    reveal_strlit("theme.label");
    assert("diagnostics.action"@.len() == 18);
    assert("history.title"@.len() == 13);
    assert("language.label"@.len() == 14);
    assert("language.select"@.len() == 15);
    assert("preferences.chunk"@.len() == 17);
    assert("preferences.chunk"@[12] == 'c');
    assert("preferences.relay"@.len() == 17);
    assert("preferences.relay"@[12] == 'r');
    assert("preferences.relay"@[14] == 'l');
    assert("preferences.retry"@.len() == 17);
    assert("preferences.retry"@[12] == 'r');
    assert("preferences.retry"@[14] == 't');
    assert("preferences.title"@.len() == 17);
    assert("preferences.title"@[12] == 't');
    assert("preferences.unlimited"@.len() == 21);
    assert("preferences.uploadRate"@.len() == 22);
    assert("preferences.uploadRateInvalid"@.len() == 29);
    assert("state.label"@.len() == 11);
    assert("state.label"@[0] == 's');
    assert("theme.label"@.len() == 11);
    assert("theme.label"@[0] == 't');
    reveal_strlit("Choisir la langue");
    reveal_strlit("Diagnostic");
    reveal_strlit("Diagnostics");
    reveal_strlit("Download chunk");
    reveal_strlit("Enter a whole number from 1 to 10240 MiB/s");
    reveal_strlit("Historique des transferts");
    reveal_strlit("Illimité");
    reveal_strlit("Language");
    reveal_strlit("Langue");
    reveal_strlit("Limite de tentatives");
    reveal_strlit("Limite d’envoi");
    reveal_strlit("Paramètres de transfert");
    reveal_strlit("Relais");
    reveal_strlit("Relay");
    reveal_strlit("Retry limit");
    reveal_strlit("Saisissez un nombre entier de 1 à 10240 Mio/s");
    reveal_strlit("Select language");
    reveal_strlit("State");
    reveal_strlit("Taille des blocs de téléchargement");
    reveal_strlit("Theme");
    reveal_strlit("Thème");
    reveal_strlit("Transfer history");
    reveal_strlit("Transfer settings");
    reveal_strlit("Unlimited");
    reveal_strlit("Upload limit");
    reveal_strlit("État");
    assert("Choisir la langue"@.len() == 17);
    assert("Diagnostic"@.len() == 10);
    assert("Diagnostics"@.len() == 11);
    assert("Download chunk"@.len() == 14);
    assert("Enter a whole number from 1 to 10240 MiB/s"@.len() == 42);
    assert("Historique des transferts"@.len() == 25);
    assert("Illimité"@.len() == 8);
    assert("Language"@.len() == 8);
    assert("Langue"@.len() == 6);
    assert("Limite de tentatives"@.len() == 20);
    assert("Limite d’envoi"@.len() == 14);
    assert("Paramètres de transfert"@.len() == 23);
    assert("Relais"@.len() == 6);
    assert("Relay"@.len() == 5);
    assert("Retry limit"@.len() == 11);
    assert("Saisissez un nombre entier de 1 à 10240 Mio/s"@.len() == 45);
    assert("Select language"@.len() == 15);
    assert("State"@.len() == 5);
    assert("Taille des blocs de téléchargement"@.len() == 34);
    assert("Theme"@.len() == 5);
    assert("Theme"@[2] == 'e');
    assert("Thème"@.len() == 5);
    assert("Thème"@[2] == 'è');
    assert("Transfer history"@.len() == 16);
    assert("Transfer settings"@.len() == 17);
    assert("Unlimited"@.len() == 9);
    assert("Upload limit"@.len() == 12);
    assert("État"@.len() == 4);
    reveal_with_fuel(table_get, 14);
}

/// The Hindi shell texts, each differing from the English one.
proof fn lemma_hindi_shell_texts()
    ensures
        table_get(HINDI@, "theme.label"@) == Some("थीम"),
        table_get(HINDI@, "language.label"@) == Some("भाषा"),
        table_get(HINDI@, "language.select"@) == Some("भाषा चुनें"),
        table_get(HINDI@, "diagnostics.action"@) == Some("निदान"),
        table_get(HINDI@, "history.title"@) == Some("स्थानांतरण इतिहास"),
        table_get(HINDI@, "preferences.title"@) == Some("स्थानांतरण सेटिंग्स"),
        table_get(HINDI@, "preferences.relay"@) == Some("रिले"),
        table_get(HINDI@, "preferences.retry"@) == Some("पुनः प्रयास सीमा"),
        table_get(HINDI@, "preferences.chunk"@) == Some("डाउनलोड खंड"),
        table_get(HINDI@, "preferences.uploadRate"@) == Some("अपलोड सीमा"),
        table_get(HINDI@, "preferences.unlimited"@) == Some("असीमित"),
        table_get(HINDI@, "preferences.uploadRateInvalid"@) == Some("1 से 10240 MiB/s तक पूर्ण संख्या दर्ज करें"),
        table_get(HINDI@, "state.label"@) == Some("स्थिति"),
        "थीम"@ != "Theme"@,
        "भाषा"@ != "Language"@,
        "भाषा चुनें"@ != "Select language"@,
        "निदान"@ != "Diagnostics"@,
        "स्थानांतरण इतिहास"@ != "Transfer history"@,
        "स्थानांतरण सेटिंग्स"@ != "Transfer settings"@,
        "रिले"@ != "Relay"@,
        "पुनः प्रयास सीमा"@ != "Retry limit"@,
        "डाउनलोड खंड"@ != "Download chunk"@,
        "अपलोड सीमा"@ != "Upload limit"@,
        "असीमित"@ != "Unlimited"@,
        "1 से 10240 MiB/s तक पूर्ण संख्या दर्ज करें"@ != "Enter a whole number from 1 to 10240 MiB/s"@,
        "स्थिति"@ != "State"@,
{
    reveal_strlit("diagnostics.action");
    reveal_strlit("history.title");
    reveal_strlit("language.label");
    reveal_strlit("language.select");
    reveal_strlit("preferences.chunk");
    reveal_strlit("preferences.relay");
    reveal_strlit("preferences.retry");
    reveal_strlit("preferences.title");
    reveal_strlit("preferences.unlimited");
    reveal_strlit("preferences.uploadRate");
    reveal_strlit("preferences.uploadRateInvalid");
    reveal_strlit("state.label");
    reveal_strlit("theme.label");
    assert("diagnostics.action"@.len() == 18);
    assert("history.title"@.len() == 13);
    assert("language.label"@.len() == 14);
    assert("language.select"@.len() == 15);
    assert("preferences.chunk"@.len() == 17);
    assert("preferences.chunk"@[12] == 'c');
    assert("preferences.relay"@.len() == 17);
    assert("preferences.relay"@[12] == 'r');
    assert("preferences.relay"@[14] == 'l');
    assert("preferences.retry"@.len() == 17);
    assert("preferences.retry"@[12] == 'r');
    assert("preferences.retry"@[14] == 't');
    assert("preferences.title"@.len() == 17);
    assert("preferences.title"@[12] == 't');
    assert("preferences.unlimited"@.len() == 21);
    assert("preferences.uploadRate"@.len() == 22);
    assert("preferences.uploadRateInvalid"@.len() == 29);
    assert("state.label"@.len() == 11);
    assert("state.label"@[0] == 's');
    assert("theme.label"@.len() == 11);
    assert("theme.label"@[0] == 't');
    reveal_strlit("1 से 10240 MiB/s तक पूर्ण संख्या दर्ज करें");
    reveal_strlit("Diagnostics");
    reveal_strlit("Download chunk");
    reveal_strlit("Enter a whole number from 1 to 10240 MiB/s");
    reveal_strlit("Language");
    reveal_strlit("Relay");
    reveal_strlit("Retry limit");
    reveal_strlit("Select language");
    reveal_strlit("State");
    reveal_strlit("Theme");
    reveal_strlit("Transfer history");
    reveal_strlit("Transfer settings");
    reveal_strlit("Unlimited");
    reveal_strlit("Upload limit");
    reveal_strlit("अपलोड सीमा");
    reveal_strlit("असीमित");
    reveal_strlit("डाउनलोड खंड");
    reveal_strlit("थीम");
    reveal_strlit("निदान");
    reveal_strlit("पुनः प्रयास सीमा");
    reveal_strlit("भाषा");
    reveal_strlit("भाषा चुनें");
    reveal_strlit("रिले");
    reveal_strlit("स्थानांतरण इतिहास");
    reveal_strlit("स्थानांतरण सेटिंग्स");
    reveal_strlit("स्थिति");
    assert("1 से 10240 MiB/s तक पूर्ण संख्या दर्ज करें"@.len() == 42);
    assert("1 से 10240 MiB/s तक पूर्ण संख्या दर्ज करें"@[0] == '1');
    assert("Diagnostics"@.len() == 11);
    assert("Download chunk"@.len() == 14);
    assert("Enter a whole number from 1 to 10240 MiB/s"@.len() == 42);
    assert("Enter a whole number from 1 to 10240 MiB/s"@[0] == 'E');
    assert("Language"@.len() == 8);
    assert("Relay"@.len() == 5);
    assert("Retry limit"@.len() == 11);
    assert("Select language"@.len() == 15);
    assert("State"@.len() == 5);
    assert("Theme"@.len() == 5);
    assert("Transfer history"@.len() == 16);
    assert("Transfer settings"@.len() == 17);
    assert("Unlimited"@.len() == 9);
    assert("Upload limit"@.len() == 12);
    assert("अपलोड सीमा"@.len() == 10);
    assert("असीमित"@.len() == 6);
    assert("डाउनलोड खंड"@.len() == 11);
    assert("थीम"@.len() == 3);
    assert("निदान"@.len() == 5);
    assert("पुनः प्रयास सीमा"@.len() == 16);
    assert("भाषा"@.len() == 4);
    assert("भाषा चुनें"@.len() == 10);
    assert("रिले"@.len() == 4);
    assert("स्थानांतरण इतिहास"@.len() == 17);
    assert("स्थानांतरण सेटिंग्स"@.len() == 19);
    assert("स्थिति"@.len() == 6);
    reveal_with_fuel(table_get, 14);
}

/// The Italian shell texts, each differing from the English one.
proof fn lemma_italian_shell_texts()
    ensures
        table_get(ITALIAN@, "theme.label"@) == Some("Tema"),
        table_get(ITALIAN@, "language.label"@) == Some("Lingua"),
        table_get(ITALIAN@, "language.select"@) == Some("Seleziona lingua"),
        table_get(ITALIAN@, "diagnostics.action"@) == Some("Diagnostica"),
        table_get(ITALIAN@, "history.title"@) == Some("Cronologia trasferimenti"),
        table_get(ITALIAN@, "preferences.title"@) == Some("Impostazioni di trasferimento"),
        table_get(ITALIAN@, "preferences.relay"@) == Some("Server relay"),
        table_get(ITALIAN@, "preferences.retry"@) == Some("Limite di tentativi"),
        table_get(ITALIAN@, "preferences.chunk"@) == Some("Dimensione blocco di download"),
        table_get(ITALIAN@, "preferences.uploadRate"@) == Some("Limite di caricamento"),
        table_get(ITALIAN@, "preferences.unlimited"@) == Some("Illimitato"),
        table_get(ITALIAN@, "preferences.uploadRateInvalid"@) == Some("Inserisci un numero intero da 1 a 10240 MiB/s"),
        table_get(ITALIAN@, "state.label"@) == Some("Stato"),
        "Tema"@ != "Theme"@,
        "Lingua"@ != "Language"@,
        "Seleziona lingua"@ != "Select language"@,
        "Diagnostica"@ != "Diagnostics"@,
        "Cronologia trasferimenti"@ != "Transfer history"@,
        "Impostazioni di trasferimento"@ != "Transfer settings"@,
        "Server relay"@ != "Relay"@,
        "Limite di tentativi"@ != "Retry limit"@,
        "Dimensione blocco di download"@ != "Download chunk"@,
        "Limite di caricamento"@ != "Upload limit"@,
        "Illimitato"@ != "Unlimited"@,
        "Inserisci un numero intero da 1 a 10240 MiB/s"@ != "Enter a whole number from 1 to 10240 MiB/s"@,
        "Stato"@ != "State"@,
{
    reveal_strlit("diagnostics.action");
    reveal_strlit("history.title");
    reveal_strlit("language.label");
    reveal_strlit("language.select");
    reveal_strlit("preferences.chunk");
    reveal_strlit("preferences.relay");
    reveal_strlit("preferences.retry");
    reveal_strlit("preferences.title");
    reveal_strlit("preferences.unlimited");
    reveal_strlit("preferences.uploadRate");
    reveal_strlit("preferences.uploadRateInvalid");
    reveal_strlit("state.label");
    reveal_strlit("theme.label");
    assert("diagnostics.action"@.len() == 18);
    assert("history.title"@.len() == 13);
    assert("language.label"@.len() == 14);
    assert("language.select"@.len() == 15);
    assert("preferences.chunk"@.len() == 17);
    assert("preferences.chunk"@[12] == 'c');
    assert("preferences.relay"@.len() == 17);
    assert("preferences.relay"@[12] == 'r');
    assert("preferences.relay"@[14] == 'l');
    assert("preferences.retry"@.len() == 17);
    assert("preferences.retry"@[12] == 'r');
    assert("preferences.retry"@[14] == 't');
    assert("preferences.title"@.len() == 17);
    assert("preferences.title"@[12] == 't');
    assert("preferences.unlimited"@.len() == 21);
    assert("preferences.uploadRate"@.len() == 22);
    assert("preferences.uploadRateInvalid"@.len() == 29);
    assert("state.label"@.len() == 11);
    assert("state.label"@[0] == 's');
    assert("theme.label"@.len() == 11);
    assert("theme.label"@[0] == 't');
    reveal_strlit("Cronologia trasferimenti");
    reveal_strlit("Diagnostica");
    reveal_strlit("Diagnostics");
    reveal_strlit("Dimensione blocco di download");
    reveal_strlit("Download chunk");
    reveal_strlit("Enter a whole number from 1 to 10240 MiB/s");
    reveal_strlit("Illimitato");
    reveal_strlit("Impostazioni di trasferimento");
    reveal_strlit("Inserisci un numero intero da 1 a 10240 MiB/s");
    reveal_strlit("Language");
    reveal_strlit("Limite di caricamento");
    reveal_strlit("Limite di tentativi");
    reveal_strlit("Lingua");
    reveal_strlit("Relay");
    reveal_strlit("Retry limit");
    reveal_strlit("Select language");
    reveal_strlit("Seleziona lingua");
    reveal_strlit("Server relay");
    reveal_strlit("State");
    reveal_strlit("Stato");
    reveal_strlit("Tema");
    reveal_strlit("Theme");
    reveal_strlit("Transfer history");
    reveal_strlit("Transfer settings");
    reveal_strlit("Unlimited");
    reveal_strlit("Upload limit");
    assert("Cronologia trasferimenti"@.len() == 24);
    assert("Diagnostica"@.len() == 11);
    assert("Diagnostica"@[10] == 'a');
    assert("Diagnostics"@.len() == 11);
    assert("Diagnostics"@[10] == 's');
    assert("Dimensione blocco di download"@.len() == 29);
    assert("Download chunk"@.len() == 14);
    assert("Enter a whole number from 1 to 10240 MiB/s"@.len() == 42);
    assert("Illimitato"@.len() == 10);
    assert("Impostazioni di trasferimento"@.len() == 29);
    assert("Inserisci un numero intero da 1 a 10240 MiB/s"@.len() == 45);
    assert("Language"@.len() == 8);
    assert("Limite di caricamento"@.len() == 21);
    assert("Limite di tentativi"@.len() == 19);
    assert("Lingua"@.len() == 6);
    assert("Relay"@.len() == 5);
    assert("Retry limit"@.len() == 11);
    assert("Select language"@.len() == 15);
    assert("Seleziona lingua"@.len() == 16);
    assert("Server relay"@.len() == 12);
    assert("State"@.len() == 5);
    assert("State"@[4] == 'e');
    assert("Stato"@.len() == 5);
    assert("Stato"@[4] == 'o');
    assert("Tema"@.len() == 4);
    assert("Theme"@.len() == 5);
    assert("Transfer history"@.len() == 16);
    assert("Transfer settings"@.len() == 17);
    assert("Unlimited"@.len() == 9);
    assert("Upload limit"@.len() == 12);
    reveal_with_fuel(table_get, 14);
}

/// The Japanese shell texts, each differing from the English one.
proof fn lemma_japanese_shell_texts()
    ensures
        table_get(JAPANESE@, "theme.label"@) == Some("テーマ"),
        table_get(JAPANESE@, "language.label"@) == Some("言語"),
        table_get(JAPANESE@, "language.select"@) == Some("言語を選択"),
        table_get(JAPANESE@, "diagnostics.action"@) == Some("診断"),
        table_get(JAPANESE@, "history.title"@) == Some("転送履歴"),
        table_get(JAPANESE@, "preferences.title"@) == Some("転送設定"),
        table_get(JAPANESE@, "preferences.relay"@) == Some("リレー"),
        table_get(JAPANESE@, "preferences.retry"@) == Some("再試行の上限"),
        table_get(JAPANESE@, "preferences.chunk"@) == Some("ダウンロードチャンク"),
        table_get(JAPANESE@, "preferences.uploadRate"@) == Some("アップロード上限"),
        table_get(JAPANESE@, "preferences.unlimited"@) == Some("無制限"),
        table_get(JAPANESE@, "preferences.uploadRateInvalid"@) == Some("1〜10240 MiB/s の整数を入力してください"),
        table_get(JAPANESE@, "state.label"@) == Some("状態"),
        "テーマ"@ != "Theme"@,
        "言語"@ != "Language"@,
        "言語を選択"@ != "Select language"@,
        "診断"@ != "Diagnostics"@,
        "転送履歴"@ != "Transfer history"@,
        "転送設定"@ != "Transfer settings"@,
        "リレー"@ != "Relay"@,
        "再試行の上限"@ != "Retry limit"@,
        "ダウンロードチャンク"@ != "Download chunk"@,
        "アップロード上限"@ != "Upload limit"@,
        "無制限"@ != "Unlimited"@,
        "1〜10240 MiB/s の整数を入力してください"@ != "Enter a whole number from 1 to 10240 MiB/s"@,
        "状態"@ != "State"@,
{
    reveal_strlit("diagnostics.action");
    reveal_strlit("history.title");
    reveal_strlit("language.label");
    reveal_strlit("language.select");
    reveal_strlit("preferences.chunk");
    reveal_strlit("preferences.relay");
    reveal_strlit("preferences.retry");
    reveal_strlit("preferences.title");
    reveal_strlit("preferences.unlimited");
    reveal_strlit("preferences.uploadRate");
    reveal_strlit("preferences.uploadRateInvalid");
    reveal_strlit("sender.dropFilesHere");
    reveal_strlit("state.label");
    reveal_strlit("theme.label");
    assert("diagnostics.action"@.len() == 18);
    assert("history.title"@.len() == 13);
    assert("language.label"@.len() == 14);
    assert("language.select"@.len() == 15);
    assert("preferences.chunk"@.len() == 17);
    assert("preferences.chunk"@[12] == 'c');
    assert("preferences.relay"@.len() == 17);
    assert("preferences.relay"@[12] == 'r');
    assert("preferences.relay"@[14] == 'l');
    assert("preferences.retry"@.len() == 17);
    assert("preferences.retry"@[12] == 'r');
    assert("preferences.retry"@[14] == 't');
    assert("preferences.title"@.len() == 17);
    assert("preferences.title"@[12] == 't');
    assert("preferences.unlimited"@.len() == 21);
    assert("preferences.uploadRate"@.len() == 22);
    assert("preferences.uploadRateInvalid"@.len() == 29);
    assert("sender.dropFilesHere"@.len() == 20);
    assert("state.label"@.len() == 11);
    assert("state.label"@[0] == 's');
    assert("theme.label"@.len() == 11);
    assert("theme.label"@[0] == 't');
    reveal_strlit("1〜10240 MiB/s の整数を入力してください");
    reveal_strlit("Diagnostics");
    reveal_strlit("Download chunk");
    reveal_strlit("Enter a whole number from 1 to 10240 MiB/s");
    reveal_strlit("Language");
    reveal_strlit("Relay");
    reveal_strlit("Retry limit");
    reveal_strlit("Select language");
    reveal_strlit("State");
    reveal_strlit("Theme");
    reveal_strlit("Transfer history");
    reveal_strlit("Transfer settings");
    reveal_strlit("Unlimited");
    reveal_strlit("Upload limit");
    reveal_strlit("アップロード上限");
    reveal_strlit("ダウンロードチャンク");
    reveal_strlit("テーマ");
    reveal_strlit("リレー");
    reveal_strlit("再試行の上限");
    reveal_strlit("無制限");
    reveal_strlit("状態");
    reveal_strlit("言語");
    reveal_strlit("言語を選択");
    reveal_strlit("診断");
    reveal_strlit("転送履歴");
    reveal_strlit("転送設定");
    assert("1〜10240 MiB/s の整数を入力してください"@.len() == 26);
    assert("Diagnostics"@.len() == 11);
    assert("Download chunk"@.len() == 14);
    assert("Enter a whole number from 1 to 10240 MiB/s"@.len() == 42);
    assert("Language"@.len() == 8);
    assert("Relay"@.len() == 5);
    assert("Retry limit"@.len() == 11);
    assert("Select language"@.len() == 15);
    assert("State"@.len() == 5);
    assert("Theme"@.len() == 5);
    assert("Transfer history"@.len() == 16);
    assert("Transfer settings"@.len() == 17);
    assert("Unlimited"@.len() == 9);
    assert("Upload limit"@.len() == 12);
    assert("アップロード上限"@.len() == 8);
    assert("ダウンロードチャンク"@.len() == 10);
    assert("テーマ"@.len() == 3);
    assert("リレー"@.len() == 3);
    assert("再試行の上限"@.len() == 6);
    assert("無制限"@.len() == 3);
    assert("状態"@.len() == 2);
    assert("言語"@.len() == 2);
    assert("言語を選択"@.len() == 5);
    assert("診断"@.len() == 2);
    assert("転送履歴"@.len() == 4);
    assert("転送設定"@.len() == 4);
    reveal_with_fuel(table_get, 15);
}

/// The Korean shell texts, each differing from the English one.
proof fn lemma_korean_shell_texts()
    ensures
        table_get(KOREAN@, "theme.label"@) == Some("테마"),
        table_get(KOREAN@, "language.label"@) == Some("언어"),
        table_get(KOREAN@, "language.select"@) == Some("언어 선택"),
        table_get(KOREAN@, "diagnostics.action"@) == Some("진단"),
        table_get(KOREAN@, "history.title"@) == Some("전송 기록"),
        table_get(KOREAN@, "preferences.title"@) == Some("전송 설정"),
        table_get(KOREAN@, "preferences.relay"@) == Some("릴레이"),
        table_get(KOREAN@, "preferences.retry"@) == Some("재시도 한도"),
        table_get(KOREAN@, "preferences.chunk"@) == Some("다운로드 청크"),
        table_get(KOREAN@, "preferences.uploadRate"@) == Some("업로드 한도"),
        table_get(KOREAN@, "preferences.unlimited"@) == Some("무제한"),
        table_get(KOREAN@, "preferences.uploadRateInvalid"@) == Some("1에서 10240 MiB/s 사이의 정수를 입력하세요"),
        table_get(KOREAN@, "state.label"@) == Some("상태"),
        "테마"@ != "Theme"@,
        "언어"@ != "Language"@,
        "언어 선택"@ != "Select language"@,
        "진단"@ != "Diagnostics"@,
        "전송 기록"@ != "Transfer history"@,
        "전송 설정"@ != "Transfer settings"@,
        "릴레이"@ != "Relay"@,
        "재시도 한도"@ != "Retry limit"@,
        "다운로드 청크"@ != "Download chunk"@,
        "업로드 한도"@ != "Upload limit"@,
        "무제한"@ != "Unlimited"@,
        "1에서 10240 MiB/s 사이의 정수를 입력하세요"@ != "Enter a whole number from 1 to 10240 MiB/s"@,
        "상태"@ != "State"@,
{
    reveal_strlit("diagnostics.action");
    reveal_strlit("history.title");
    reveal_strlit("language.label");
    reveal_strlit("language.select");
    reveal_strlit("preferences.chunk");
    reveal_strlit("preferences.relay");
    reveal_strlit("preferences.retry");
    reveal_strlit("preferences.title");
    reveal_strlit("preferences.unlimited");
    reveal_strlit("preferences.uploadRate");
    reveal_strlit("preferences.uploadRateInvalid");
    reveal_strlit("state.label");
    reveal_strlit("theme.label");
    assert("diagnostics.action"@.len() == 18);
    assert("history.title"@.len() == 13);
    assert("language.label"@.len() == 14);
    assert("language.select"@.len() == 15);
    assert("preferences.chunk"@.len() == 17);
    assert("preferences.chunk"@[12] == 'c');
    assert("preferences.relay"@.len() == 17);
    assert("preferences.relay"@[12] == 'r');
    assert("preferences.relay"@[14] == 'l');
    assert("preferences.retry"@.len() == 17);
    assert("preferences.retry"@[12] == 'r');
    assert("preferences.retry"@[14] == 't');
    assert("preferences.title"@.len() == 17);
    assert("preferences.title"@[12] == 't');
    assert("preferences.unlimited"@.len() == 21);
    assert("preferences.uploadRate"@.len() == 22);
    assert("preferences.uploadRateInvalid"@.len() == 29);
    assert("state.label"@.len() == 11);
    assert("state.label"@[0] == 's');
    assert("theme.label"@.len() == 11);
    assert("theme.label"@[0] == 't');
    reveal_strlit("1에서 10240 MiB/s 사이의 정수를 입력하세요");
    reveal_strlit("Diagnostics");
    reveal_strlit("Download chunk");
    reveal_strlit("Enter a whole number from 1 to 10240 MiB/s");
    reveal_strlit("Language");
    reveal_strlit("Relay");
    reveal_strlit("Retry limit");
    reveal_strlit("Select language");
    reveal_strlit("State");
    reveal_strlit("Theme");
    reveal_strlit("Transfer history");
    reveal_strlit("Transfer settings");
    reveal_strlit("Unlimited");
    reveal_strlit("Upload limit");
    reveal_strlit("다운로드 청크");
    reveal_strlit("릴레이");
    reveal_strlit("무제한");
    reveal_strlit("상태");
    reveal_strlit("언어");
    reveal_strlit("언어 선택");
    reveal_strlit("업로드 한도");
    reveal_strlit("재시도 한도");
    reveal_strlit("전송 기록");
    reveal_strlit("전송 설정");
    reveal_strlit("진단");
    reveal_strlit("테마");
    assert("1에서 10240 MiB/s 사이의 정수를 입력하세요"@.len() == 29);
    assert("Diagnostics"@.len() == 11);
    assert("Download chunk"@.len() == 14);
    assert("Enter a whole number from 1 to 10240 MiB/s"@.len() == 42);
    assert("Language"@.len() == 8);
    assert("Relay"@.len() == 5);
    assert("Retry limit"@.len() == 11);
    assert("Select language"@.len() == 15);
    assert("State"@.len() == 5);
    assert("Theme"@.len() == 5);
    assert("Transfer history"@.len() == 16);
    assert("Transfer settings"@.len() == 17);
    assert("Unlimited"@.len() == 9);
    assert("Upload limit"@.len() == 12);
    assert("다운로드 청크"@.len() == 7);
    assert("릴레이"@.len() == 3);
    assert("무제한"@.len() == 3);
    assert("상태"@.len() == 2);
    assert("언어"@.len() == 2);
    assert("언어 선택"@.len() == 5);
    assert("업로드 한도"@.len() == 6);
    assert("재시도 한도"@.len() == 6);
    assert("전송 기록"@.len() == 5);
    assert("전송 설정"@.len() == 5);
    assert("진단"@.len() == 2);
    assert("테마"@.len() == 2);
    reveal_with_fuel(table_get, 14);
}

/// The Norwegian shell texts, each differing from the English one.
proof fn lemma_norwegian_shell_texts()
    ensures
        table_get(NORWEGIAN@, "theme.label"@) == Some("Tema"),
        table_get(NORWEGIAN@, "language.label"@) == Some("Språk"),
        table_get(NORWEGIAN@, "language.select"@) == Some("Velg språk"),
        table_get(NORWEGIAN@, "diagnostics.action"@) == Some("Diagnostikk"),
        table_get(NORWEGIAN@, "history.title"@) == Some("Overføringshistorikk"),
        table_get(NORWEGIAN@, "preferences.title"@) == Some("Overføringsinnstillinger"),
        table_get(NORWEGIAN@, "preferences.relay"@) == Some("Relé"),
        table_get(NORWEGIAN@, "preferences.retry"@) == Some("Grense for nye forsøk"),
        table_get(NORWEGIAN@, "preferences.chunk"@) == Some("Nedlastingsblokk"),
        table_get(NORWEGIAN@, "preferences.uploadRate"@) == Some("Opplastingsgrense"),
        table_get(NORWEGIAN@, "preferences.unlimited"@) == Some("Ubegrenset"),
        table_get(NORWEGIAN@, "preferences.uploadRateInvalid"@) == Some("Skriv inn et heltall fra 1 til 10240 MiB/s"),
        table_get(NORWEGIAN@, "state.label"@) == Some("Tilstand"),
        "Tema"@ != "Theme"@,
        "Språk"@ != "Language"@,
        "Velg språk"@ != "Select language"@,
        "Diagnostikk"@ != "Diagnostics"@,
        "Overføringshistorikk"@ != "Transfer history"@,
        "Overføringsinnstillinger"@ != "Transfer settings"@,
        "Relé"@ != "Relay"@,
        "Grense for nye forsøk"@ != "Retry limit"@,
        "Nedlastingsblokk"@ != "Download chunk"@,
        "Opplastingsgrense"@ != "Upload limit"@,
        "Ubegrenset"@ != "Unlimited"@,
        "Skriv inn et heltall fra 1 til 10240 MiB/s"@ != "Enter a whole number from 1 to 10240 MiB/s"@,
        "Tilstand"@ != "State"@,
{
    reveal_strlit("diagnostics.action");
    reveal_strlit("history.title");
    reveal_strlit("language.label");
    reveal_strlit("language.select");
    reveal_strlit("preferences.chunk");
    reveal_strlit("preferences.relay");
    reveal_strlit("preferences.retry");
    reveal_strlit("preferences.title");
    reveal_strlit("preferences.unlimited");
    reveal_strlit("preferences.uploadRate");
    reveal_strlit("preferences.uploadRateInvalid");
    reveal_strlit("state.label");
    reveal_strlit("theme.label");
    assert("diagnostics.action"@.len() == 18);
    assert("history.title"@.len() == 13);
    assert("language.label"@.len() == 14);
    assert("language.select"@.len() == 15);
    assert("preferences.chunk"@.len() == 17);
    assert("preferences.chunk"@[12] == 'c');
    assert("preferences.relay"@.len() == 17);
    assert("preferences.relay"@[12] == 'r');
    assert("preferences.relay"@[14] == 'l');
    assert("preferences.retry"@.len() == 17);
    assert("preferences.retry"@[12] == 'r');
    assert("preferences.retry"@[14] == 't');
    assert("preferences.title"@.len() == 17);
    assert("preferences.title"@[12] == 't');
    assert("preferences.unlimited"@.len() == 21);
    assert("preferences.uploadRate"@.len() == 22);
    assert("preferences.uploadRateInvalid"@.len() == 29);
    assert("state.label"@.len() == 11);
    assert("state.label"@[0] == 's');
    assert("theme.label"@.len() == 11);
    assert("theme.label"@[0] == 't');
    reveal_strlit("Diagnostics");
    reveal_strlit("Diagnostikk");
    reveal_strlit("Download chunk");
    reveal_strlit("Enter a whole number from 1 to 10240 MiB/s");
    reveal_strlit("Grense for nye forsøk");
    reveal_strlit("Language");
    reveal_strlit("Nedlastingsblokk");
    reveal_strlit("Opplastingsgrense");
    reveal_strlit("Overføringshistorikk");
    reveal_strlit("Overføringsinnstillinger");
    reveal_strlit("Relay");
    reveal_strlit("Relé");
    reveal_strlit("Retry limit");
    reveal_strlit("Select language");
    reveal_strlit("Skriv inn et heltall fra 1 til 10240 MiB/s");
    reveal_strlit("Språk");
    reveal_strlit("State");
    reveal_strlit("Tema");
    reveal_strlit("Theme");
    reveal_strlit("Tilstand");
    reveal_strlit("Transfer history");
    reveal_strlit("Transfer settings");
    reveal_strlit("Ubegrenset");
    reveal_strlit("Unlimited");
    reveal_strlit("Upload limit");
    reveal_strlit("Velg språk");
    assert("Diagnostics"@.len() == 11);
    assert("Diagnostics"@[9] == 'c');
    assert("Diagnostikk"@.len() == 11);
    assert("Diagnostikk"@[9] == 'k');
    assert("Download chunk"@.len() == 14);
    assert("Enter a whole number from 1 to 10240 MiB/s"@.len() == 42);
    assert("Enter a whole number from 1 to 10240 MiB/s"@[0] == 'E');
    assert("Grense for nye forsøk"@.len() == 21);
    assert("Language"@.len() == 8);
    assert("Nedlastingsblokk"@.len() == 16);
    assert("Opplastingsgrense"@.len() == 17);
    assert("Overføringshistorikk"@.len() == 20);
    assert("Overføringsinnstillinger"@.len() == 24);
    assert("Relay"@.len() == 5);
    assert("Relé"@.len() == 4);
    assert("Retry limit"@.len() == 11);
    assert("Select language"@.len() == 15);
    assert("Skriv inn et heltall fra 1 til 10240 MiB/s"@.len() == 42);
    assert("Skriv inn et heltall fra 1 til 10240 MiB/s"@[0] == 'S');
    assert("Språk"@.len() == 5);
    assert("State"@.len() == 5);
    assert("Tema"@.len() == 4);
    assert("Theme"@.len() == 5);
    assert("Tilstand"@.len() == 8);
    assert("Transfer history"@.len() == 16);
    assert("Transfer settings"@.len() == 17);
    assert("Ubegrenset"@.len() == 10);
    assert("Unlimited"@.len() == 9);
    assert("Upload limit"@.len() == 12);
    assert("Velg språk"@.len() == 10);
    reveal_with_fuel(table_get, 14);
}

/// The Polish shell texts, each differing from the English one.
proof fn lemma_polish_shell_texts()
    ensures
        table_get(POLISH@, "theme.label"@) == Some("Motyw"),
        table_get(POLISH@, "language.label"@) == Some("Język"),
        table_get(POLISH@, "language.select"@) == Some("Wybierz język"),
        table_get(POLISH@, "diagnostics.action"@) == Some("Diagnostyka"),
        table_get(POLISH@, "history.title"@) == Some("Historia transferów"),
        table_get(POLISH@, "preferences.title"@) == Some("Ustawienia transferu"),
        table_get(POLISH@, "preferences.relay"@) == Some("Przekaźnik"),
        table_get(POLISH@, "preferences.retry"@) == Some("Limit ponowień"),
        table_get(POLISH@, "preferences.chunk"@) == Some("Rozmiar fragmentu pobierania"),
        table_get(POLISH@, "preferences.uploadRate"@) == Some("Limit wysyłania"),
        table_get(POLISH@, "preferences.unlimited"@) == Some("Bez limitu"),
        table_get(POLISH@, "preferences.uploadRateInvalid"@) == Some("Wpisz liczbę całkowitą od 1 do 10240 MiB/s"),
        table_get(POLISH@, "state.label"@) == Some("Stan"),
        "Motyw"@ != "Theme"@,
        "Język"@ != "Language"@,
        "Wybierz język"@ != "Select language"@,
        "Diagnostyka"@ != "Diagnostics"@,
        "Historia transferów"@ != "Transfer history"@,
        "Ustawienia transferu"@ != "Transfer settings"@,
        "Przekaźnik"@ != "Relay"@,
        "Limit ponowień"@ != "Retry limit"@,
        "Rozmiar fragmentu pobierania"@ != "Download chunk"@,
        "Limit wysyłania"@ != "Upload limit"@,
        "Bez limitu"@ != "Unlimited"@,
        "Wpisz liczbę całkowitą od 1 do 10240 MiB/s"@ != "Enter a whole number from 1 to 10240 MiB/s"@,
        "Stan"@ != "State"@,
{
    reveal_strlit("diagnostics.action");
    reveal_strlit("history.title");
    reveal_strlit("language.label");
    reveal_strlit("language.select");
    reveal_strlit("preferences.chunk");
    reveal_strlit("preferences.relay");
    reveal_strlit("preferences.retry");
    reveal_strlit("preferences.title");
    reveal_strlit("preferences.unlimited");
    reveal_strlit("preferences.uploadRate");
    reveal_strlit("preferences.uploadRateInvalid");
    reveal_strlit("state.label");
    reveal_strlit("theme.label");
    assert("diagnostics.action"@.len() == 18);
    assert("history.title"@.len() == 13);
    assert("language.label"@.len() == 14);
    assert("language.select"@.len() == 15);
    assert("preferences.chunk"@.len() == 17);
    assert("preferences.chunk"@[12] == 'c');
    assert("preferences.relay"@.len() == 17);
    assert("preferences.relay"@[12] == 'r');
    assert("preferences.relay"@[14] == 'l');
    assert("preferences.retry"@.len() == 17);
    assert("preferences.retry"@[12] == 'r');
    assert("preferences.retry"@[14] == 't');
    assert("preferences.title"@.len() == 17);
    assert("preferences.title"@[12] == 't');
    assert("preferences.unlimited"@.len() == 21);
    assert("preferences.uploadRate"@.len() == 22);
    assert("preferences.uploadRateInvalid"@.len() == 29);
    assert("state.label"@.len() == 11);
    assert("state.label"@[0] == 's');
    assert("theme.label"@.len() == 11);
    assert("theme.label"@[0] == 't');
    reveal_strlit("Bez limitu");
    reveal_strlit("Diagnostics");
    reveal_strlit("Diagnostyka");
    reveal_strlit("Download chunk");
    reveal_strlit("Enter a whole number from 1 to 10240 MiB/s");
    reveal_strlit("Historia transferów");
    reveal_strlit("Język");
    reveal_strlit("Language");
    reveal_strlit("Limit ponowień");
    reveal_strlit("Limit wysyłania");
    reveal_strlit("Motyw");
    reveal_strlit("Przekaźnik");
    reveal_strlit("Relay");
    reveal_strlit("Retry limit");
    reveal_strlit("Rozmiar fragmentu pobierania");
    reveal_strlit("Select language");
    reveal_strlit("Stan");
    reveal_strlit("State");
    reveal_strlit("Theme");
    reveal_strlit("Transfer history");
    reveal_strlit("Transfer settings");
    reveal_strlit("Unlimited");
    reveal_strlit("Upload limit");
    reveal_strlit("Ustawienia transferu");
    reveal_strlit("Wpisz liczbę całkowitą od 1 do 10240 MiB/s");
    reveal_strlit("Wybierz język");
    assert("Bez limitu"@.len() == 10);
    assert("Diagnostics"@.len() == 11);
    assert("Diagnostics"@[8] == 'i');
    assert("Diagnostyka"@.len() == 11);
    assert("Diagnostyka"@[8] == 'y');
    assert("Download chunk"@.len() == 14);
    assert("Enter a whole number from 1 to 10240 MiB/s"@.len() == 42);
    assert("Enter a whole number from 1 to 10240 MiB/s"@[0] == 'E');
    assert("Historia transferów"@.len() == 19);
    assert("Język"@.len() == 5);
    assert("Language"@.len() == 8);
    assert("Limit ponowień"@.len() == 14);
    assert("Limit wysyłania"@.len() == 15);
    assert("Motyw"@.len() == 5);
    assert("Motyw"@[0] == 'M');
    assert("Przekaźnik"@.len() == 10);
    assert("Relay"@.len() == 5);
    assert("Retry limit"@.len() == 11);
    assert("Rozmiar fragmentu pobierania"@.len() == 28);
    assert("Select language"@.len() == 15);
    assert("Stan"@.len() == 4);
    assert("State"@.len() == 5);
    assert("Theme"@.len() == 5);
    assert("Theme"@[0] == 'T');
    assert("Transfer history"@.len() == 16);
    assert("Transfer settings"@.len() == 17);
    assert("Unlimited"@.len() == 9);
    assert("Upload limit"@.len() == 12);
    assert("Ustawienia transferu"@.len() == 20);
    assert("Wpisz liczbę całkowitą od 1 do 10240 MiB/s"@.len() == 42);
    assert("Wpisz liczbę całkowitą od 1 do 10240 MiB/s"@[0] == 'W');
    assert("Wybierz język"@.len() == 13);
    reveal_with_fuel(table_get, 14);
}

/// The BrazilianPortuguese shell texts, each differing from the English one.
proof fn lemma_brazilian_portuguese_shell_texts()
    ensures
        table_get(BRAZILIAN_PORTUGUESE@, "theme.label"@) == Some("Tema"),
        table_get(BRAZILIAN_PORTUGUESE@, "language.label"@) == Some("Idioma"),
        table_get(BRAZILIAN_PORTUGUESE@, "language.select"@) == Some("Selecionar idioma"),
        table_get(BRAZILIAN_PORTUGUESE@, "diagnostics.action"@) == Some("Diagnóstico"),
        table_get(BRAZILIAN_PORTUGUESE@, "history.title"@) == Some("Histórico de transferências"),
        table_get(BRAZILIAN_PORTUGUESE@, "preferences.title"@) == Some("Configurações de transferência"),
        table_get(BRAZILIAN_PORTUGUESE@, "preferences.relay"@) == Some("Servidor de retransmissão"),
        table_get(BRAZILIAN_PORTUGUESE@, "preferences.retry"@) == Some("Limite de tentativas"),
        table_get(BRAZILIAN_PORTUGUESE@, "preferences.chunk"@) == Some("Tamanho do bloco de download"),
        table_get(BRAZILIAN_PORTUGUESE@, "preferences.uploadRate"@) == Some("Limite de envio"),
        table_get(BRAZILIAN_PORTUGUESE@, "preferences.unlimited"@) == Some("Ilimitado"),
        table_get(BRAZILIAN_PORTUGUESE@, "preferences.uploadRateInvalid"@) == Some("Digite um número inteiro de 1 a 10240 MiB/s"),
        table_get(BRAZILIAN_PORTUGUESE@, "state.label"@) == Some("Estado"),
        "Tema"@ != "Theme"@,
        "Idioma"@ != "Language"@,
        "Selecionar idioma"@ != "Select language"@,
        "Diagnóstico"@ != "Diagnostics"@,
        "Histórico de transferências"@ != "Transfer history"@,
        "Configurações de transferência"@ != "Transfer settings"@,
        "Servidor de retransmissão"@ != "Relay"@,
        "Limite de tentativas"@ != "Retry limit"@,
        "Tamanho do bloco de download"@ != "Download chunk"@,
        "Limite de envio"@ != "Upload limit"@,
        "Ilimitado"@ != "Unlimited"@,
        "Digite um número inteiro de 1 a 10240 MiB/s"@ != "Enter a whole number from 1 to 10240 MiB/s"@,
        "Estado"@ != "State"@,
{
    reveal_strlit("diagnostics.action");
    reveal_strlit("history.title");
    reveal_strlit("language.label");
    reveal_strlit("language.select");
    reveal_strlit("preferences.chunk");
    reveal_strlit("preferences.relay");
    reveal_strlit("preferences.retry");
    reveal_strlit("preferences.title");
    reveal_strlit("preferences.unlimited");
    reveal_strlit("preferences.uploadRate");
    reveal_strlit("preferences.uploadRateInvalid");
    reveal_strlit("state.label");
    reveal_strlit("theme.label");
    assert("diagnostics.action"@.len() == 18);
    assert("history.title"@.len() == 13);
    assert("language.label"@.len() == 14);
    assert("language.select"@.len() == 15);
    assert("preferences.chunk"@.len() == 17);
    assert("preferences.chunk"@[12] == 'c');
    assert("preferences.relay"@.len() == 17);
    assert("preferences.relay"@[12] == 'r');
    assert("preferences.relay"@[14] == 'l');
    assert("preferences.retry"@.len() == 17);
    assert("preferences.retry"@[12] == 'r');
    assert("preferences.retry"@[14] == 't');
    assert("preferences.title"@.len() == 17);
    assert("preferences.title"@[12] == 't');
    assert("preferences.unlimited"@.len() == 21);
    assert("preferences.uploadRate"@.len() == 22);
    assert("preferences.uploadRateInvalid"@.len() == 29);
    assert("state.label"@.len() == 11);
    assert("state.label"@[0] == 's');
    assert("theme.label"@.len() == 11);
    assert("theme.label"@[0] == 't');
    reveal_strlit("Configurações de transferência");
    reveal_strlit("Diagnostics");
    reveal_strlit("Diagnóstico");
    reveal_strlit("Digite um número inteiro de 1 a 10240 MiB/s");
    reveal_strlit("Download chunk");
    reveal_strlit("Enter a whole number from 1 to 10240 MiB/s");
    reveal_strlit("Estado");
    reveal_strlit("Histórico de transferências");
    reveal_strlit("Idioma");
    reveal_strlit("Ilimitado");
    reveal_strlit("Language");
    reveal_strlit("Limite de envio");
    reveal_strlit("Limite de tentativas");
    reveal_strlit("Relay");
    reveal_strlit("Retry limit");
    reveal_strlit("Selecionar idioma");
    reveal_strlit("Select language");
    reveal_strlit("Servidor de retransmissão");
    reveal_strlit("State");
    reveal_strlit("Tamanho do bloco de download");
    reveal_strlit("Tema");
    reveal_strlit("Theme");
    reveal_strlit("Transfer history");
    reveal_strlit("Transfer settings");
    reveal_strlit("Unlimited");
    reveal_strlit("Upload limit");
    assert("Configurações de transferência"@.len() == 30);
    assert("Diagnostics"@.len() == 11);
    assert("Diagnostics"@[5] == 'o');
    assert("Diagnóstico"@.len() == 11);
    assert("Diagnóstico"@[5] == 'ó');
    assert("Digite um número inteiro de 1 a 10240 MiB/s"@.len() == 43);
    assert("Download chunk"@.len() == 14);
    assert("Enter a whole number from 1 to 10240 MiB/s"@.len() == 42);
    assert("Estado"@.len() == 6);
    assert("Histórico de transferências"@.len() == 27);
    assert("Idioma"@.len() == 6);
    assert("Ilimitado"@.len() == 9);
    assert("Ilimitado"@[0] == 'I');
    assert("Language"@.len() == 8);
    assert("Limite de envio"@.len() == 15);
    assert("Limite de tentativas"@.len() == 20);
    assert("Relay"@.len() == 5);
    assert("Retry limit"@.len() == 11);
    assert("Selecionar idioma"@.len() == 17);
    assert("Select language"@.len() == 15);
    assert("Servidor de retransmissão"@.len() == 25);
    assert("State"@.len() == 5);
    assert("Tamanho do bloco de download"@.len() == 28);
    assert("Tema"@.len() == 4);
    assert("Theme"@.len() == 5);
    assert("Transfer history"@.len() == 16);
    assert("Transfer settings"@.len() == 17);
    assert("Unlimited"@.len() == 9);
    assert("Unlimited"@[0] == 'U');
    assert("Upload limit"@.len() == 12);
    reveal_with_fuel(table_get, 14);
}

/// The Russian shell texts, each differing from the English one.
proof fn lemma_russian_shell_texts()
    ensures
        table_get(RUSSIAN@, "theme.label"@) == Some("Тема"),
        table_get(RUSSIAN@, "language.label"@) == Some("Язык"),
        table_get(RUSSIAN@, "language.select"@) == Some("Выберите язык"),
        table_get(RUSSIAN@, "diagnostics.action"@) == Some("Диагностика"),
        table_get(RUSSIAN@, "history.title"@) == Some("История передач"),
        table_get(RUSSIAN@, "preferences.title"@) == Some("Настройки передачи"),
        table_get(RUSSIAN@, "preferences.relay"@) == Some("Ретранслятор"),
        table_get(RUSSIAN@, "preferences.retry"@) == Some("Лимит повторов"),
        table_get(RUSSIAN@, "preferences.chunk"@) == Some("Размер блока загрузки"),
        table_get(RUSSIAN@, "preferences.uploadRate"@) == Some("Лимит отдачи"),
        table_get(RUSSIAN@, "preferences.unlimited"@) == Some("Без ограничений"),
        table_get(RUSSIAN@, "preferences.uploadRateInvalid"@) == Some("Введите целое число от 1 до 10240 МиБ/с"),
        table_get(RUSSIAN@, "state.label"@) == Some("Состояние"),
        "Тема"@ != "Theme"@,
        "Язык"@ != "Language"@,
        "Выберите язык"@ != "Select language"@,
        "Диагностика"@ != "Diagnostics"@,
        "История передач"@ != "Transfer history"@,
        "Настройки передачи"@ != "Transfer settings"@,
        "Ретранслятор"@ != "Relay"@,
        "Лимит повторов"@ != "Retry limit"@,
        "Размер блока загрузки"@ != "Download chunk"@,
        "Лимит отдачи"@ != "Upload limit"@,
        "Без ограничений"@ != "Unlimited"@,
        "Введите целое число от 1 до 10240 МиБ/с"@ != "Enter a whole number from 1 to 10240 MiB/s"@,
        "Состояние"@ != "State"@,
{
    reveal_strlit("diagnostics.action");
    reveal_strlit("history.title");
    reveal_strlit("language.label");
    reveal_strlit("language.select");
    reveal_strlit("preferences.chunk");
    reveal_strlit("preferences.relay");
    reveal_strlit("preferences.retry");
    reveal_strlit("preferences.title");
    reveal_strlit("preferences.unlimited");
    reveal_strlit("preferences.uploadRate");
    reveal_strlit("preferences.uploadRateInvalid");
    reveal_strlit("state.label");
    reveal_strlit("theme.label");
    assert("diagnostics.action"@.len() == 18);
    assert("history.title"@.len() == 13);
    assert("language.label"@.len() == 14);
    assert("language.select"@.len() == 15);
    assert("preferences.chunk"@.len() == 17);
    assert("preferences.chunk"@[12] == 'c');
    assert("preferences.relay"@.len() == 17);
    assert("preferences.relay"@[12] == 'r');
    assert("preferences.relay"@[14] == 'l');
    assert("preferences.retry"@.len() == 17);
    assert("preferences.retry"@[12] == 'r');
    assert("preferences.retry"@[14] == 't');
    assert("preferences.title"@.len() == 17);
    assert("preferences.title"@[12] == 't');
    assert("preferences.unlimited"@.len() == 21);
    assert("preferences.uploadRate"@.len() == 22);
    assert("preferences.uploadRateInvalid"@.len() == 29);
    assert("state.label"@.len() == 11);
    assert("state.label"@[0] == 's');
    assert("theme.label"@.len() == 11);
    assert("theme.label"@[0] == 't');
    reveal_strlit("Diagnostics");
    reveal_strlit("Download chunk");
    reveal_strlit("Enter a whole number from 1 to 10240 MiB/s");
    reveal_strlit("Language");
    reveal_strlit("Relay");
    reveal_strlit("Retry limit");
    reveal_strlit("Select language");
    reveal_strlit("State");
    reveal_strlit("Theme");
    reveal_strlit("Transfer history");
    reveal_strlit("Transfer settings");
    reveal_strlit("Unlimited");
    reveal_strlit("Upload limit");
    reveal_strlit("Без ограничений");
    reveal_strlit("Введите целое число от 1 до 10240 МиБ/с");
    reveal_strlit("Выберите язык");
    reveal_strlit("Диагностика");
    reveal_strlit("История передач");
    reveal_strlit("Лимит отдачи");
    reveal_strlit("Лимит повторов");
    reveal_strlit("Настройки передачи");
    reveal_strlit("Размер блока загрузки");
    reveal_strlit("Ретранслятор");
    reveal_strlit("Состояние");
    reveal_strlit("Тема");
    reveal_strlit("Язык");
    assert("Diagnostics"@.len() == 11);
    assert("Diagnostics"@[0] == 'D');
    assert("Download chunk"@.len() == 14);
    assert("Enter a whole number from 1 to 10240 MiB/s"@.len() == 42);
    assert("Language"@.len() == 8);
    assert("Relay"@.len() == 5);
    assert("Retry limit"@.len() == 11);
    assert("Select language"@.len() == 15);
    assert("State"@.len() == 5);
    assert("Theme"@.len() == 5);
    assert("Transfer history"@.len() == 16);
    assert("Transfer settings"@.len() == 17);
    assert("Unlimited"@.len() == 9);
    assert("Upload limit"@.len() == 12);
    assert("Upload limit"@[0] == 'U');
    assert("Без ограничений"@.len() == 15);
    assert("Введите целое число от 1 до 10240 МиБ/с"@.len() == 39);
    assert("Выберите язык"@.len() == 13);
    assert("Диагностика"@.len() == 11);
    assert("Диагностика"@[0] == 'Д');
    assert("История передач"@.len() == 15);
    assert("Лимит отдачи"@.len() == 12);
    assert("Лимит отдачи"@[0] == 'Л');
    assert("Лимит повторов"@.len() == 14);
    assert("Настройки передачи"@.len() == 18);
    assert("Размер блока загрузки"@.len() == 21);
    assert("Ретранслятор"@.len() == 12);
    assert("Состояние"@.len() == 9);
    assert("Тема"@.len() == 4);
    assert("Язык"@.len() == 4);
    reveal_with_fuel(table_get, 14);
}

/// The Serbian shell texts, each differing from the English one.
proof fn lemma_serbian_shell_texts()
    ensures
        table_get(SERBIAN@, "theme.label"@) == Some("Тема"),
        table_get(SERBIAN@, "language.label"@) == Some("Језик"),
        table_get(SERBIAN@, "language.select"@) == Some("Изаберите језик"),
        table_get(SERBIAN@, "diagnostics.action"@) == Some("Дијагностика"),
        table_get(SERBIAN@, "history.title"@) == Some("Историја преноса"),
        table_get(SERBIAN@, "preferences.title"@) == Some("Подешавања преноса"),
        table_get(SERBIAN@, "preferences.relay"@) == Some("Релеј"),
        table_get(SERBIAN@, "preferences.retry"@) == Some("Ограничење понављања"),
        table_get(SERBIAN@, "preferences.chunk"@) == Some("Величина блока преузимања"),
        table_get(SERBIAN@, "preferences.uploadRate"@) == Some("Ограничење отпремања"),
        table_get(SERBIAN@, "preferences.unlimited"@) == Some("Неограничено"),
        table_get(SERBIAN@, "preferences.uploadRateInvalid"@) == Some("Унесите цео број од 1 до 10240 MiB/s"),
        table_get(SERBIAN@, "state.label"@) == Some("Стање"),
        "Тема"@ != "Theme"@,
        "Језик"@ != "Language"@,
        "Изаберите језик"@ != "Select language"@,
        "Дијагностика"@ != "Diagnostics"@,
        "Историја преноса"@ != "Transfer history"@,
        "Подешавања преноса"@ != "Transfer settings"@,
        "Релеј"@ != "Relay"@,
        "Ограничење понављања"@ != "Retry limit"@,
        "Величина блока преузимања"@ != "Download chunk"@,
        "Ограничење отпремања"@ != "Upload limit"@,
        "Неограничено"@ != "Unlimited"@,
        "Унесите цео број од 1 до 10240 MiB/s"@ != "Enter a whole number from 1 to 10240 MiB/s"@,
        "Стање"@ != "State"@,
{
    reveal_strlit("diagnostics.action");
    reveal_strlit("history.title");
    reveal_strlit("language.label");
    reveal_strlit("language.select");
    reveal_strlit("preferences.chunk");
    reveal_strlit("preferences.relay");
    reveal_strlit("preferences.retry");
    reveal_strlit("preferences.title");
    reveal_strlit("preferences.unlimited");
    reveal_strlit("preferences.uploadRate");
    reveal_strlit("preferences.uploadRateInvalid");
    reveal_strlit("state.label");
    reveal_strlit("theme.label");
    assert("diagnostics.action"@.len() == 18);
    assert("history.title"@.len() == 13);
    assert("language.label"@.len() == 14);
    assert("language.select"@.len() == 15);
    assert("preferences.chunk"@.len() == 17);
    assert("preferences.chunk"@[12] == 'c');
    assert("preferences.relay"@.len() == 17);
    assert("preferences.relay"@[12] == 'r');
    assert("preferences.relay"@[14] == 'l');
    assert("preferences.retry"@.len() == 17);
    assert("preferences.retry"@[12] == 'r');
    assert("preferences.retry"@[14] == 't');
    assert("preferences.title"@.len() == 17);
    assert("preferences.title"@[12] == 't');
    assert("preferences.unlimited"@.len() == 21);
    assert("preferences.uploadRate"@.len() == 22);
    assert("preferences.uploadRateInvalid"@.len() == 29);
    assert("state.label"@.len() == 11);
    assert("state.label"@[0] == 's');
    assert("theme.label"@.len() == 11);
    assert("theme.label"@[0] == 't');
    reveal_strlit("Diagnostics");
    reveal_strlit("Download chunk");
    reveal_strlit("Enter a whole number from 1 to 10240 MiB/s");
    reveal_strlit("Language");
    reveal_strlit("Relay");
    reveal_strlit("Retry limit");
    reveal_strlit("Select language");
    reveal_strlit("State");
    reveal_strlit("Theme");
    reveal_strlit("Transfer history");
    reveal_strlit("Transfer settings");
    reveal_strlit("Unlimited");
    reveal_strlit("Upload limit");
    reveal_strlit("Језик");
    reveal_strlit("Величина блока преузимања");
    reveal_strlit("Дијагностика");
    reveal_strlit("Изаберите језик");
    reveal_strlit("Историја преноса");
    reveal_strlit("Неограничено");
    reveal_strlit("Ограничење отпремања");
    reveal_strlit("Ограничење понављања");
    reveal_strlit("Подешавања преноса");
    reveal_strlit("Релеј");
    reveal_strlit("Стање");
    reveal_strlit("Тема");
    reveal_strlit("Унесите цео број од 1 до 10240 MiB/s");
    assert("Diagnostics"@.len() == 11);
    assert("Download chunk"@.len() == 14);
    assert("Enter a whole number from 1 to 10240 MiB/s"@.len() == 42);
    assert("Language"@.len() == 8);
    assert("Relay"@.len() == 5);
    assert("Relay"@[0] == 'R');
    assert("Retry limit"@.len() == 11);
    assert("Select language"@.len() == 15);
    assert("Select language"@[0] == 'S');
    assert("State"@.len() == 5);
    assert("State"@[0] == 'S');
    assert("Theme"@.len() == 5);
    assert("Transfer history"@.len() == 16);
    assert("Transfer history"@[0] == 'T');
    assert("Transfer settings"@.len() == 17);
    assert("Unlimited"@.len() == 9);
    assert("Upload limit"@.len() == 12);
    assert("Језик"@.len() == 5);
    assert("Величина блока преузимања"@.len() == 25);
    assert("Дијагностика"@.len() == 12);
    assert("Изаберите језик"@.len() == 15);
    assert("Изаберите језик"@[0] == 'И');
    assert("Историја преноса"@.len() == 16);
    assert("Историја преноса"@[0] == 'И');
    assert("Неограничено"@.len() == 12);
    assert("Ограничење отпремања"@.len() == 20);
    assert("Ограничење понављања"@.len() == 20);
    assert("Подешавања преноса"@.len() == 18);
    assert("Релеј"@.len() == 5);
    assert("Релеј"@[0] == 'Р');
    assert("Стање"@.len() == 5);
    assert("Стање"@[0] == 'С');
    assert("Тема"@.len() == 4);
    assert("Унесите цео број од 1 до 10240 MiB/s"@.len() == 36);
    reveal_with_fuel(table_get, 14);
}

/// The Thai shell texts, each differing from the English one.
proof fn lemma_thai_shell_texts()
    ensures
        table_get(THAI@, "theme.label"@) == Some("ธีม"),
        table_get(THAI@, "language.label"@) == Some("ภาษา"),
        table_get(THAI@, "language.select"@) == Some("เลือกภาษา"),
        table_get(THAI@, "diagnostics.action"@) == Some("การวินิจฉัย"),
        table_get(THAI@, "history.title"@) == Some("ประวัติการโอน"),
        table_get(THAI@, "preferences.title"@) == Some("การตั้งค่าการโอน"),
        table_get(THAI@, "preferences.relay"@) == Some("รีเลย์"),
        table_get(THAI@, "preferences.retry"@) == Some("ขีดจำกัดการลองใหม่"),
        table_get(THAI@, "preferences.chunk"@) == Some("ขนาดชิ้นส่วนดาวน์โหลด"),
        table_get(THAI@, "preferences.uploadRate"@) == Some("ขีดจำกัดการอัปโหลด"),
        table_get(THAI@, "preferences.unlimited"@) == Some("ไม่จำกัด"),
        table_get(THAI@, "preferences.uploadRateInvalid"@) == Some("ป้อนจำนวนเต็มตั้งแต่ 1 ถึง 10240 MiB/s"),
        table_get(THAI@, "state.label"@) == Some("สถานะ"),
        "ธีม"@ != "Theme"@,
        "ภาษา"@ != "Language"@,
        "เลือกภาษา"@ != "Select language"@,
        "การวินิจฉัย"@ != "Diagnostics"@,
        "ประวัติการโอน"@ != "Transfer history"@,
        "การตั้งค่าการโอน"@ != "Transfer settings"@,
        "รีเลย์"@ != "Relay"@,
        "ขีดจำกัดการลองใหม่"@ != "Retry limit"@,
        "ขนาดชิ้นส่วนดาวน์โหลด"@ != "Download chunk"@,
        "ขีดจำกัดการอัปโหลด"@ != "Upload limit"@,
        "ไม่จำกัด"@ != "Unlimited"@,
        "ป้อนจำนวนเต็มตั้งแต่ 1 ถึง 10240 MiB/s"@ != "Enter a whole number from 1 to 10240 MiB/s"@,
        "สถานะ"@ != "State"@,
{
    reveal_strlit("diagnostics.action");
    reveal_strlit("history.title");
    reveal_strlit("language.label");
    reveal_strlit("language.select");
    reveal_strlit("preferences.chunk");
    reveal_strlit("preferences.relay");
    reveal_strlit("preferences.retry");
    reveal_strlit("preferences.title");
    reveal_strlit("preferences.unlimited");
    reveal_strlit("preferences.uploadRate");
    reveal_strlit("preferences.uploadRateInvalid");
    reveal_strlit("state.label");
    reveal_strlit("theme.label");
    assert("diagnostics.action"@.len() == 18);
    assert("history.title"@.len() == 13);
    assert("language.label"@.len() == 14);
    assert("language.select"@.len() == 15);
    assert("preferences.chunk"@.len() == 17);
    assert("preferences.chunk"@[12] == 'c');
    assert("preferences.relay"@.len() == 17);
    assert("preferences.relay"@[12] == 'r');
    assert("preferences.relay"@[14] == 'l');
    assert("preferences.retry"@.len() == 17);
    assert("preferences.retry"@[12] == 'r');
    assert("preferences.retry"@[14] == 't');
    assert("preferences.title"@.len() == 17);
    assert("preferences.title"@[12] == 't');
    assert("preferences.unlimited"@.len() == 21);
    assert("preferences.uploadRate"@.len() == 22);
    assert("preferences.uploadRateInvalid"@.len() == 29);
    assert("state.label"@.len() == 11);
    assert("state.label"@[0] == 's');
    assert("theme.label"@.len() == 11);
    assert("theme.label"@[0] == 't');
    reveal_strlit("Diagnostics");
    reveal_strlit("Download chunk");
    reveal_strlit("Enter a whole number from 1 to 10240 MiB/s");
    reveal_strlit("Language");
    reveal_strlit("Relay");
    reveal_strlit("Retry limit");
    reveal_strlit("Select language");
    reveal_strlit("State");
    reveal_strlit("Theme");
    reveal_strlit("Transfer history");
    reveal_strlit("Transfer settings");
    reveal_strlit("Unlimited");
    reveal_strlit("Upload limit");
    reveal_strlit("การตั้งค่าการโอน");
    reveal_strlit("การวินิจฉัย");
    reveal_strlit("ขนาดชิ้นส่วนดาวน์โหลด");
    reveal_strlit("ขีดจำกัดการลองใหม่");
    reveal_strlit("ขีดจำกัดการอัปโหลด");
    reveal_strlit("ธีม");
    reveal_strlit("ประวัติการโอน");
    reveal_strlit("ป้อนจำนวนเต็มตั้งแต่ 1 ถึง 10240 MiB/s");
    reveal_strlit("ภาษา");
    reveal_strlit("รีเลย์");
    reveal_strlit("สถานะ");
    reveal_strlit("เลือกภาษา");
    reveal_strlit("ไม่จำกัด");
    assert("Diagnostics"@.len() == 11);
    assert("Diagnostics"@[0] == 'D');
    assert("Download chunk"@.len() == 14);
    assert("Enter a whole number from 1 to 10240 MiB/s"@.len() == 42);
    assert("Language"@.len() == 8);
    assert("Relay"@.len() == 5);
    assert("Retry limit"@.len() == 11);
    assert("Select language"@.len() == 15);
    assert("State"@.len() == 5);
    assert("State"@[0] == 'S');
    assert("Theme"@.len() == 5);
    assert("Transfer history"@.len() == 16);
    assert("Transfer settings"@.len() == 17);
    assert("Unlimited"@.len() == 9);
    assert("Upload limit"@.len() == 12);
    assert("การตั้งค่าการโอน"@.len() == 16);
    assert("การวินิจฉัย"@.len() == 11);
    assert("การวินิจฉัย"@[0] == 'ก');
    assert("ขนาดชิ้นส่วนดาวน์โหลด"@.len() == 21);
    assert("ขีดจำกัดการลองใหม่"@.len() == 18);
    assert("ขีดจำกัดการอัปโหลด"@.len() == 18);
    assert("ธีม"@.len() == 3);
    assert("ประวัติการโอน"@.len() == 13);
    assert("ป้อนจำนวนเต็มตั้งแต่ 1 ถึง 10240 MiB/s"@.len() == 38);
    assert("ภาษา"@.len() == 4);
    assert("รีเลย์"@.len() == 6);
    assert("สถานะ"@.len() == 5);
    assert("สถานะ"@[0] == 'ส');
    assert("เลือกภาษา"@.len() == 9);
    assert("ไม่จำกัด"@.len() == 8);
    reveal_with_fuel(table_get, 14);
}

/// The Turkish shell texts, each differing from the English one.
proof fn lemma_turkish_shell_texts()
    ensures
        table_get(TURKISH@, "theme.label"@) == Some("Tema"),
        table_get(TURKISH@, "language.label"@) == Some("Dil"),
        table_get(TURKISH@, "language.select"@) == Some("Dil seçin"),
        table_get(TURKISH@, "diagnostics.action"@) == Some("Tanılama"),
        table_get(TURKISH@, "history.title"@) == Some("Aktarım geçmişi"),
        table_get(TURKISH@, "preferences.title"@) == Some("Aktarım ayarları"),
        table_get(TURKISH@, "preferences.relay"@) == Some("Röle"),
        table_get(TURKISH@, "preferences.retry"@) == Some("Yeniden deneme sınırı"),
        table_get(TURKISH@, "preferences.chunk"@) == Some("İndirme parçası"),
        table_get(TURKISH@, "preferences.uploadRate"@) == Some("Yükleme sınırı"),
        table_get(TURKISH@, "preferences.unlimited"@) == Some("Sınırsız"),
        table_get(TURKISH@, "preferences.uploadRateInvalid"@) == Some("1 ile 10240 MiB/s arasında bir tam sayı girin"),
        table_get(TURKISH@, "state.label"@) == Some("Durum"),
        "Tema"@ != "Theme"@,
        "Dil"@ != "Language"@,
        "Dil seçin"@ != "Select language"@,
        "Tanılama"@ != "Diagnostics"@,
        "Aktarım geçmişi"@ != "Transfer history"@,
        "Aktarım ayarları"@ != "Transfer settings"@,
        "Röle"@ != "Relay"@,
        "Yeniden deneme sınırı"@ != "Retry limit"@,
        "İndirme parçası"@ != "Download chunk"@,
        "Yükleme sınırı"@ != "Upload limit"@,
        "Sınırsız"@ != "Unlimited"@,
        "1 ile 10240 MiB/s arasında bir tam sayı girin"@ != "Enter a whole number from 1 to 10240 MiB/s"@,
        "Durum"@ != "State"@,
{
    reveal_strlit("diagnostics.action");
    reveal_strlit("history.title");
    reveal_strlit("language.label");
    reveal_strlit("language.select");
    reveal_strlit("preferences.chunk");
    reveal_strlit("preferences.relay");
    reveal_strlit("preferences.retry");
    reveal_strlit("preferences.title");
    reveal_strlit("preferences.unlimited");
    reveal_strlit("preferences.uploadRate");
    reveal_strlit("preferences.uploadRateInvalid");
    reveal_strlit("state.label");
    reveal_strlit("theme.label");
    assert("diagnostics.action"@.len() == 18);
    assert("history.title"@.len() == 13);
    assert("language.label"@.len() == 14);
    assert("language.select"@.len() == 15);
    assert("preferences.chunk"@.len() == 17);
    assert("preferences.chunk"@[12] == 'c');
    assert("preferences.relay"@.len() == 17);
    assert("preferences.relay"@[12] == 'r');
    assert("preferences.relay"@[14] == 'l');
    assert("preferences.retry"@.len() == 17);
    assert("preferences.retry"@[12] == 'r');
    assert("preferences.retry"@[14] == 't');
    assert("preferences.title"@.len() == 17);
    assert("preferences.title"@[12] == 't');
    assert("preferences.unlimited"@.len() == 21);
    assert("preferences.uploadRate"@.len() == 22);
    assert("preferences.uploadRateInvalid"@.len() == 29);
    assert("state.label"@.len() == 11);
    assert("state.label"@[0] == 's');
    assert("theme.label"@.len() == 11);
    assert("theme.label"@[0] == 't');
    reveal_strlit("1 ile 10240 MiB/s arasında bir tam sayı girin");
    reveal_strlit("Aktarım ayarları");
    reveal_strlit("Aktarım geçmişi");
    reveal_strlit("Diagnostics");
    reveal_strlit("Dil");
    reveal_strlit("Dil seçin");
    reveal_strlit("Download chunk");
    reveal_strlit("Durum");
    reveal_strlit("Enter a whole number from 1 to 10240 MiB/s");
    reveal_strlit("Language");
    reveal_strlit("Relay");
    reveal_strlit("Retry limit");
    reveal_strlit("Röle");
    reveal_strlit("Select language");
    reveal_strlit("State");
    reveal_strlit("Sınırsız");
    reveal_strlit("Tanılama");
    reveal_strlit("Tema");
    reveal_strlit("Theme");
    reveal_strlit("Transfer history");
    reveal_strlit("Transfer settings");
    reveal_strlit("Unlimited");
    reveal_strlit("Upload limit");
    reveal_strlit("Yeniden deneme sınırı");
    reveal_strlit("Yükleme sınırı");
    reveal_strlit("İndirme parçası");
    assert("1 ile 10240 MiB/s arasında bir tam sayı girin"@.len() == 45);
    assert("Aktarım ayarları"@.len() == 16);
    assert("Aktarım geçmişi"@.len() == 15);
    assert("Diagnostics"@.len() == 11);
    assert("Dil"@.len() == 3);
    assert("Dil seçin"@.len() == 9);
    assert("Download chunk"@.len() == 14);
    assert("Durum"@.len() == 5);
    assert("Durum"@[0] == 'D');
    assert("Enter a whole number from 1 to 10240 MiB/s"@.len() == 42);
    assert("Language"@.len() == 8);
    assert("Relay"@.len() == 5);
    assert("Retry limit"@.len() == 11);
    assert("Röle"@.len() == 4);
    assert("Select language"@.len() == 15);
    assert("State"@.len() == 5);
    assert("State"@[0] == 'S');
    assert("Sınırsız"@.len() == 8);
    assert("Tanılama"@.len() == 8);
    assert("Tema"@.len() == 4);
    assert("Theme"@.len() == 5);
    assert("Transfer history"@.len() == 16);
    assert("Transfer settings"@.len() == 17);
    assert("Unlimited"@.len() == 9);
    assert("Upload limit"@.len() == 12);
    assert("Yeniden deneme sınırı"@.len() == 21);
    assert("Yükleme sınırı"@.len() == 14);
    assert("İndirme parçası"@.len() == 15);
    reveal_with_fuel(table_get, 14);
}

/// The Ukrainian shell texts, each differing from the English one.
proof fn lemma_ukrainian_shell_texts()
    ensures
        table_get(UKRAINIAN@, "theme.label"@) == Some("Тема"),
        table_get(UKRAINIAN@, "language.label"@) == Some("Мова"),
        table_get(UKRAINIAN@, "language.select"@) == Some("Виберіть мову"),
        table_get(UKRAINIAN@, "diagnostics.action"@) == Some("Діагностика"),
        table_get(UKRAINIAN@, "history.title"@) == Some("Історія передач"),
        table_get(UKRAINIAN@, "preferences.title"@) == Some("Налаштування передачі"),
        table_get(UKRAINIAN@, "preferences.relay"@) == Some("Ретранслятор"),
        table_get(UKRAINIAN@, "preferences.retry"@) == Some("Ліміт повторів"),
        table_get(UKRAINIAN@, "preferences.chunk"@) == Some("Розмір блоку завантаження"),
        table_get(UKRAINIAN@, "preferences.uploadRate"@) == Some("Ліміт вивантаження"),
        table_get(UKRAINIAN@, "preferences.unlimited"@) == Some("Без обмежень"),
        table_get(UKRAINIAN@, "preferences.uploadRateInvalid"@) == Some("Введіть ціле число від 1 до 10240 МіБ/с"),
        table_get(UKRAINIAN@, "state.label"@) == Some("Стан"),
        "Тема"@ != "Theme"@,
        "Мова"@ != "Language"@,
        "Виберіть мову"@ != "Select language"@,
        "Діагностика"@ != "Diagnostics"@,
        "Історія передач"@ != "Transfer history"@,
        "Налаштування передачі"@ != "Transfer settings"@,
        "Ретранслятор"@ != "Relay"@,
        "Ліміт повторів"@ != "Retry limit"@,
        "Розмір блоку завантаження"@ != "Download chunk"@,
        "Ліміт вивантаження"@ != "Upload limit"@,
        "Без обмежень"@ != "Unlimited"@,
        "Введіть ціле число від 1 до 10240 МіБ/с"@ != "Enter a whole number from 1 to 10240 MiB/s"@,
        "Стан"@ != "State"@,
{
    reveal_strlit("diagnostics.action");
    reveal_strlit("history.title");
    reveal_strlit("language.label");
    reveal_strlit("language.select");
    reveal_strlit("preferences.chunk");
    reveal_strlit("preferences.relay");
    reveal_strlit("preferences.retry");
    reveal_strlit("preferences.title");
    reveal_strlit("preferences.unlimited");
    reveal_strlit("preferences.uploadRate");
    reveal_strlit("preferences.uploadRateInvalid");
    reveal_strlit("state.label");
    reveal_strlit("theme.label");
    assert("diagnostics.action"@.len() == 18);
    assert("history.title"@.len() == 13);
    assert("language.label"@.len() == 14);
    assert("language.select"@.len() == 15);
    assert("preferences.chunk"@.len() == 17);
    assert("preferences.chunk"@[12] == 'c');
    assert("preferences.relay"@.len() == 17);
    assert("preferences.relay"@[12] == 'r');
    assert("preferences.relay"@[14] == 'l');
    assert("preferences.retry"@.len() == 17);
    assert("preferences.retry"@[12] == 'r');
    assert("preferences.retry"@[14] == 't');
    assert("preferences.title"@.len() == 17);
    assert("preferences.title"@[12] == 't');
    assert("preferences.unlimited"@.len() == 21);
    assert("preferences.uploadRate"@.len() == 22);
    assert("preferences.uploadRateInvalid"@.len() == 29);
    assert("state.label"@.len() == 11);
    assert("state.label"@[0] == 's');
    assert("theme.label"@.len() == 11);
    assert("theme.label"@[0] == 't');
    reveal_strlit("Diagnostics");
    reveal_strlit("Download chunk");
    reveal_strlit("Enter a whole number from 1 to 10240 MiB/s");
    reveal_strlit("Language");
    reveal_strlit("Relay");
    reveal_strlit("Retry limit");
    reveal_strlit("Select language");
    reveal_strlit("State");
    reveal_strlit("Theme");
    reveal_strlit("Transfer history");
    reveal_strlit("Transfer settings");
    reveal_strlit("Unlimited");
    reveal_strlit("Upload limit");
    reveal_strlit("Історія передач");
    reveal_strlit("Без обмежень");
    reveal_strlit("Введіть ціле число від 1 до 10240 МіБ/с");
    reveal_strlit("Виберіть мову");
    reveal_strlit("Діагностика");
    reveal_strlit("Ліміт вивантаження");
    reveal_strlit("Ліміт повторів");
    reveal_strlit("Мова");
    reveal_strlit("Налаштування передачі");
    reveal_strlit("Ретранслятор");
    reveal_strlit("Розмір блоку завантаження");
    reveal_strlit("Стан");
    reveal_strlit("Тема");
    assert("Diagnostics"@.len() == 11);
    assert("Diagnostics"@[0] == 'D');
    assert("Download chunk"@.len() == 14);
    assert("Enter a whole number from 1 to 10240 MiB/s"@.len() == 42);
    assert("Language"@.len() == 8);
    assert("Relay"@.len() == 5);
    assert("Retry limit"@.len() == 11);
    assert("Select language"@.len() == 15);
    assert("State"@.len() == 5);
    assert("Theme"@.len() == 5);
    assert("Transfer history"@.len() == 16);
    assert("Transfer settings"@.len() == 17);
    assert("Unlimited"@.len() == 9);
    assert("Upload limit"@.len() == 12);
    assert("Історія передач"@.len() == 15);
    assert("Без обмежень"@.len() == 12);
    assert("Введіть ціле число від 1 до 10240 МіБ/с"@.len() == 39);
    assert("Виберіть мову"@.len() == 13);
    assert("Діагностика"@.len() == 11);
    assert("Діагностика"@[0] == 'Д');
    assert("Ліміт вивантаження"@.len() == 18);
    assert("Ліміт повторів"@.len() == 14);
    assert("Мова"@.len() == 4);
    assert("Налаштування передачі"@.len() == 21);
    assert("Ретранслятор"@.len() == 12);
    assert("Розмір блоку завантаження"@.len() == 25);
    assert("Стан"@.len() == 4);
    assert("Тема"@.len() == 4);
    reveal_with_fuel(table_get, 14);
}

/// The SimplifiedChinese shell texts, each differing from the English one.
proof fn lemma_simplified_chinese_shell_texts()
    ensures
        table_get(SIMPLIFIED_CHINESE@, "theme.label"@) == Some("主题"),
        table_get(SIMPLIFIED_CHINESE@, "language.label"@) == Some("语言"),
        table_get(SIMPLIFIED_CHINESE@, "language.select"@) == Some("选择语言"),
        table_get(SIMPLIFIED_CHINESE@, "diagnostics.action"@) == Some("诊断"),
        table_get(SIMPLIFIED_CHINESE@, "history.title"@) == Some("传输历史"),
        table_get(SIMPLIFIED_CHINESE@, "preferences.title"@) == Some("传输设置"),
        table_get(SIMPLIFIED_CHINESE@, "preferences.relay"@) == Some("中继"),
        table_get(SIMPLIFIED_CHINESE@, "preferences.retry"@) == Some("重试次数"),
        table_get(SIMPLIFIED_CHINESE@, "preferences.chunk"@) == Some("下载分块"),
        table_get(SIMPLIFIED_CHINESE@, "preferences.uploadRate"@) == Some("上传限速"),
        table_get(SIMPLIFIED_CHINESE@, "preferences.unlimited"@) == Some("不限速"),
        table_get(SIMPLIFIED_CHINESE@, "preferences.uploadRateInvalid"@) == Some("请输入 1 到 10240 MiB/s 之间的整数"),
        table_get(SIMPLIFIED_CHINESE@, "state.label"@) == Some("状态"),
        "主题"@ != "Theme"@,
        "语言"@ != "Language"@,
        "选择语言"@ != "Select language"@,
        "诊断"@ != "Diagnostics"@,
        "传输历史"@ != "Transfer history"@,
        "传输设置"@ != "Transfer settings"@,
        "中继"@ != "Relay"@,
        "重试次数"@ != "Retry limit"@,
        "下载分块"@ != "Download chunk"@,
        "上传限速"@ != "Upload limit"@,
        "不限速"@ != "Unlimited"@,
        "请输入 1 到 10240 MiB/s 之间的整数"@ != "Enter a whole number from 1 to 10240 MiB/s"@,
        "状态"@ != "State"@,
{
    reveal_strlit("diagnostics.action");
    reveal_strlit("history.title");
    reveal_strlit("language.label");
    reveal_strlit("language.select");
    reveal_strlit("preferences.chunk");
    reveal_strlit("preferences.relay");
    reveal_strlit("preferences.retry");
    reveal_strlit("preferences.title");
    reveal_strlit("preferences.unlimited");
    reveal_strlit("preferences.uploadRate");
    reveal_strlit("preferences.uploadRateInvalid");
    reveal_strlit("receiver.openFolder");
    reveal_strlit("sender.startSharing");
    reveal_strlit("state.label");
    reveal_strlit("theme.label");
    assert("diagnostics.action"@.len() == 18);
    assert("history.title"@.len() == 13);
    assert("language.label"@.len() == 14);
    assert("language.select"@.len() == 15);
    assert("preferences.chunk"@.len() == 17);
    assert("preferences.chunk"@[12] == 'c');
    assert("preferences.relay"@.len() == 17);
    assert("preferences.relay"@[12] == 'r');
    assert("preferences.relay"@[14] == 'l');
    assert("preferences.retry"@.len() == 17);
    assert("preferences.retry"@[12] == 'r');
    assert("preferences.retry"@[14] == 't');
    assert("preferences.title"@.len() == 17);
    assert("preferences.title"@[12] == 't');
    assert("preferences.unlimited"@.len() == 21);
    assert("preferences.uploadRate"@.len() == 22);
    assert("preferences.uploadRateInvalid"@.len() == 29);
    assert("receiver.openFolder"@.len() == 19);
    assert("receiver.openFolder"@[0] == 'r');
    assert("sender.startSharing"@.len() == 19);
    assert("sender.startSharing"@[0] == 's');
    assert("state.label"@.len() == 11);
    assert("state.label"@[0] == 's');
    assert("theme.label"@.len() == 11);
    assert("theme.label"@[0] == 't');
    reveal_strlit("Diagnostics");
    reveal_strlit("Download chunk");
    reveal_strlit("Enter a whole number from 1 to 10240 MiB/s");
    reveal_strlit("Language");
    reveal_strlit("Relay");
    reveal_strlit("Retry limit");
    reveal_strlit("Select language");
    reveal_strlit("State");
    reveal_strlit("Theme");
    reveal_strlit("Transfer history");
    reveal_strlit("Transfer settings");
    reveal_strlit("Unlimited");
    reveal_strlit("Upload limit");
    reveal_strlit("上传限速");
    reveal_strlit("下载分块");
    reveal_strlit("不限速");
    reveal_strlit("中继");
    reveal_strlit("主题");
    reveal_strlit("传输历史");
    reveal_strlit("传输设置");
    reveal_strlit("状态");
    reveal_strlit("诊断");
    reveal_strlit("语言");
    reveal_strlit("请输入 1 到 10240 MiB/s 之间的整数");
    reveal_strlit("选择语言");
    reveal_strlit("重试次数");
    assert("Diagnostics"@.len() == 11);
    assert("Download chunk"@.len() == 14);
    assert("Enter a whole number from 1 to 10240 MiB/s"@.len() == 42);
    assert("Language"@.len() == 8);
    assert("Relay"@.len() == 5);
    assert("Retry limit"@.len() == 11);
    assert("Select language"@.len() == 15);
    assert("State"@.len() == 5);
    assert("Theme"@.len() == 5);
    assert("Transfer history"@.len() == 16);
    assert("Transfer settings"@.len() == 17);
    assert("Unlimited"@.len() == 9);
    assert("Upload limit"@.len() == 12);
    assert("上传限速"@.len() == 4);
    assert("下载分块"@.len() == 4);
    assert("不限速"@.len() == 3);
    assert("中继"@.len() == 2);
    assert("主题"@.len() == 2);
    assert("传输历史"@.len() == 4);
    assert("传输设置"@.len() == 4);
    assert("状态"@.len() == 2);
    assert("诊断"@.len() == 2);
    assert("语言"@.len() == 2);
    assert("请输入 1 到 10240 MiB/s 之间的整数"@.len() == 25);
    assert("选择语言"@.len() == 4);
    assert("重试次数"@.len() == 4);
    reveal_with_fuel(table_get, 16);
}

/// The TraditionalChinese shell texts, each differing from the English one.
proof fn lemma_traditional_chinese_shell_texts()
    ensures
        table_get(TRADITIONAL_CHINESE@, "theme.label"@) == Some("主題"),
        table_get(TRADITIONAL_CHINESE@, "language.label"@) == Some("語言"),
        table_get(TRADITIONAL_CHINESE@, "language.select"@) == Some("選擇語言"),
        table_get(TRADITIONAL_CHINESE@, "diagnostics.action"@) == Some("診斷"),
        table_get(TRADITIONAL_CHINESE@, "history.title"@) == Some("傳輸紀錄"),
        table_get(TRADITIONAL_CHINESE@, "preferences.title"@) == Some("傳輸設定"),
        table_get(TRADITIONAL_CHINESE@, "preferences.relay"@) == Some("中繼"),
        table_get(TRADITIONAL_CHINESE@, "preferences.retry"@) == Some("重試次數"),
        table_get(TRADITIONAL_CHINESE@, "preferences.chunk"@) == Some("下載分塊"),
        table_get(TRADITIONAL_CHINESE@, "preferences.uploadRate"@) == Some("上傳限速"),
        table_get(TRADITIONAL_CHINESE@, "preferences.unlimited"@) == Some("不限速"),
        table_get(TRADITIONAL_CHINESE@, "preferences.uploadRateInvalid"@) == Some("請輸入 1 到 10240 MiB/s 之間的整數"),
        table_get(TRADITIONAL_CHINESE@, "state.label"@) == Some("狀態"),
        "主題"@ != "Theme"@,
        "語言"@ != "Language"@,
        "選擇語言"@ != "Select language"@,
        "診斷"@ != "Diagnostics"@,
        "傳輸紀錄"@ != "Transfer history"@,
        "傳輸設定"@ != "Transfer settings"@,
        "中繼"@ != "Relay"@,
        "重試次數"@ != "Retry limit"@,
        "下載分塊"@ != "Download chunk"@,
        "上傳限速"@ != "Upload limit"@,
        "不限速"@ != "Unlimited"@,
        "請輸入 1 到 10240 MiB/s 之間的整數"@ != "Enter a whole number from 1 to 10240 MiB/s"@,
        "狀態"@ != "State"@,
{
    reveal_strlit("diagnostics.action");
    reveal_strlit("history.title");
    reveal_strlit("language.label");
    reveal_strlit("language.select");
    reveal_strlit("preferences.chunk");
    reveal_strlit("preferences.relay");
    reveal_strlit("preferences.retry");
    reveal_strlit("preferences.title");
    reveal_strlit("preferences.unlimited");
    reveal_strlit("preferences.uploadRate");
    reveal_strlit("preferences.uploadRateInvalid");
    reveal_strlit("state.label");
    reveal_strlit("theme.label");
    assert("diagnostics.action"@.len() == 18);
    assert("history.title"@.len() == 13);
    assert("language.label"@.len() == 14);
    assert("language.select"@.len() == 15);
    assert("preferences.chunk"@.len() == 17);
    assert("preferences.chunk"@[12] == 'c');
    assert("preferences.relay"@.len() == 17);
    assert("preferences.relay"@[12] == 'r');
    assert("preferences.relay"@[14] == 'l');
    assert("preferences.retry"@.len() == 17);
    assert("preferences.retry"@[12] == 'r');
    assert("preferences.retry"@[14] == 't');
    assert("preferences.title"@.len() == 17);
    assert("preferences.title"@[12] == 't');
    assert("preferences.unlimited"@.len() == 21);
    assert("preferences.uploadRate"@.len() == 22);
    assert("preferences.uploadRateInvalid"@.len() == 29);
    assert("state.label"@.len() == 11);
    assert("state.label"@[0] == 's');
    assert("theme.label"@.len() == 11);
    assert("theme.label"@[0] == 't');
    reveal_strlit("Diagnostics");
    reveal_strlit("Download chunk");
    reveal_strlit("Enter a whole number from 1 to 10240 MiB/s");
    reveal_strlit("Language");
    reveal_strlit("Relay");
    reveal_strlit("Retry limit");
    reveal_strlit("Select language");
    reveal_strlit("State");
    reveal_strlit("Theme");
    reveal_strlit("Transfer history");
    reveal_strlit("Transfer settings");
    reveal_strlit("Unlimited");
    reveal_strlit("Upload limit");
    reveal_strlit("上傳限速");
    reveal_strlit("下載分塊");
    reveal_strlit("不限速");
    reveal_strlit("中繼");
    reveal_strlit("主題");
    reveal_strlit("傳輸紀錄");
    reveal_strlit("傳輸設定");
    reveal_strlit("狀態");
    reveal_strlit("診斷");
    reveal_strlit("語言");
    reveal_strlit("請輸入 1 到 10240 MiB/s 之間的整數");
    reveal_strlit("選擇語言");
    reveal_strlit("重試次數");
    assert("Diagnostics"@.len() == 11);
    assert("Download chunk"@.len() == 14);
    assert("Enter a whole number from 1 to 10240 MiB/s"@.len() == 42);
    assert("Language"@.len() == 8);
    assert("Relay"@.len() == 5);
    assert("Retry limit"@.len() == 11);
    assert("Select language"@.len() == 15);
    assert("State"@.len() == 5);
    assert("Theme"@.len() == 5);
    assert("Transfer history"@.len() == 16);
    assert("Transfer settings"@.len() == 17);
    assert("Unlimited"@.len() == 9);
    assert("Upload limit"@.len() == 12);
    assert("上傳限速"@.len() == 4);
    assert("下載分塊"@.len() == 4);
    assert("不限速"@.len() == 3);
    assert("中繼"@.len() == 2);
    assert("主題"@.len() == 2);
    assert("傳輸紀錄"@.len() == 4);
    assert("傳輸設定"@.len() == 4);
    assert("狀態"@.len() == 2);
    assert("診斷"@.len() == 2);
    assert("語言"@.len() == 2);
    assert("請輸入 1 到 10240 MiB/s 之間的整數"@.len() == 25);
    assert("選擇語言"@.len() == 4);
    assert("重試次數"@.len() == 4);
    reveal_with_fuel(table_get, 14);
}

/// Every locale but English has its own text for each shell key, and that text is not
/// the English one: the shell never falls back to English outside the English locale.
pub proof fn lemma_shell_texts_localised(locale: Locale, key: Seq<char>)
    requires
        locale != Locale::English,
        shell_key(key),
    ensures
        catalog_text(locale, key) is Some,
        english_text(key) is Some,
        catalog_text(locale, key)->0@ != english_text(key)->0@,
{
    lemma_english_shell_texts();
    match locale {
        Locale::Arabic => lemma_arabic_shell_texts(),
        Locale::Czech => lemma_czech_shell_texts(),
        Locale::German => lemma_german_shell_texts(),
        Locale::Spanish => lemma_spanish_shell_texts(),
        Locale::Persian => lemma_persian_shell_texts(),
        Locale::French => lemma_french_shell_texts(),
        Locale::Hindi => lemma_hindi_shell_texts(),
        Locale::Italian => lemma_italian_shell_texts(),
        Locale::Japanese => lemma_japanese_shell_texts(),
        Locale::Korean => lemma_korean_shell_texts(),
        Locale::Norwegian => lemma_norwegian_shell_texts(),
        Locale::Polish => lemma_polish_shell_texts(),
        Locale::BrazilianPortuguese => lemma_brazilian_portuguese_shell_texts(),
        Locale::Russian => lemma_russian_shell_texts(),
        Locale::Serbian => lemma_serbian_shell_texts(),
        Locale::Thai => lemma_thai_shell_texts(),
        Locale::Turkish => lemma_turkish_shell_texts(),
        Locale::Ukrainian => lemma_ukrainian_shell_texts(),
        Locale::SimplifiedChinese => lemma_simplified_chinese_shell_texts(),
        Locale::TraditionalChinese => lemma_traditional_chinese_shell_texts(),
        Locale::English => {},
    }
}

} // verus!
