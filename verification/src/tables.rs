//! The bundled text tables: English, which every locale falls back to,
//! and each other locale's own entries. Keys are dotted paths into the catalogue.

use vstd::prelude::*;

verus! {
/// The English catalogue, complete for every key the client shows.
pub const ENGLISH: [(&'static str, &'static str); 61] = [
    ("appSubtitle", "Peer-to-peer file transfer"),
    ("browse", "Browse"),
    ("diagnostics.action", "Diagnostics"),
    ("donate", "Donate"),
    ("errors.receiveFailed", "Receive failed"),
    ("errors.sharingFailed", "Sharing failed"),
    ("history.clear", "Clear history"),
    ("history.title", "Transfer history"),
    ("language.label", "Language"),
    ("language.select", "Select language"),
    ("preferences.chunk", "Download chunk"),
    ("preferences.relay", "Relay"),
    ("preferences.retry", "Retry limit"),
    ("preferences.title", "Transfer settings"),
    ("preferences.unlimited", "Unlimited"),
    ("preferences.uploadRate", "Upload limit"),
    ("preferences.uploadRateInvalid", "Enter a whole number from 1 to 10240 MiB/s"),
    ("receive", "Receive"),
    ("receiver.connectingToSender", "Connecting to sender..."),
    ("receiver.downloadCompleted", "Download completed"),
    ("receiver.downloadingInProgress", "Downloading in progress"),
    ("receiver.invalidTicket", "Invalid ticket"),
    ("receiver.noFolderSelected", "No folder selected"),
    ("receiver.openFolder", "Open folder"),
    ("receiver.pasteTicket", "Paste ticket here"),
    ("receiver.saveToFolder", "Save to folder"),
    ("receiver.stopReceiving", "Stop receiving"),
    ("receiver.subtitle", "Paste a ticket to receive files from a sender"),
    ("send", "Send"),
    ("sender.copyToClipboard", "Copy to clipboard"),
    ("sender.dropFilesHere", "Drop files or folders here"),
    ("sender.fileSelected", "File selected"),
    ("sender.folderSelected", "Folder selected"),
    ("sender.listeningForConnection", "Listening for a connection"),
    ("sender.orBrowse", "or click to browse"),
    ("sender.preparingForTransport", "Preparing for transport..."),
    ("sender.saveTicket", "Save ticket"),
    ("sender.sendThisTicket", "Send this ticket to the receiver"),
    ("sender.sharingInProgress", "Sharing in progress"),
    ("sender.startSharing", "Start Sharing"),
    ("sender.stopSharing", "Stop Sharing"),
    ("sender.stoppingTransmission", "Stopping transmission..."),
    ("sender.subtitle", "Share files and folders directly with another device"),
    ("sender.transferCompleted", "Transfer completed"),
    ("state.label", "State"),
    ("theme.dark", "Dark"),
    ("theme.label", "Theme"),
    ("theme.light", "Light"),
    ("theme.system", "System"),
    ("transfer.complete", "Transfer complete"),
    ("transfer.failed", "Transfer failed"),
    ("transfer.file", "File"),
    ("transfer.newTransfer", "New transfer"),
    ("transfer.stopped", "Stop the current transfer first"),
    ("transfer.tryAgain", "Try again"),
    ("update.checkNow", "Check for updates"),
    ("update.checking", "Checking for updates..."),
    ("update.failed", "Update check failed"),
    ("update.found", "Version {{version}} is available"),
    ("update.installed", "Opening the update download"),
    ("update.upToDate", "You are up to date"),
];

/// The Arabic entries; every other key falls back to English.
pub const ARABIC: [(&'static str, &'static str); 13] = [
    ("diagnostics.action", "التشخيص"),
    ("history.title", "سجل النقل"),
    ("language.label", "اللغة"),
    ("language.select", "اختر اللغة"),
    ("preferences.chunk", "حجم جزء التنزيل"),
    ("preferences.relay", "خادم الترحيل"),
    ("preferences.retry", "حد إعادة المحاولة"),
    ("preferences.title", "إعدادات النقل"),
    ("preferences.unlimited", "غير محدود"),
    ("preferences.uploadRate", "حد الرفع"),
    ("preferences.uploadRateInvalid", "أدخل عددًا صحيحًا من 1 إلى 10240 ميبيبايت/ث"),
    ("state.label", "الحالة"),
    ("theme.label", "السمة"),
];

/// The Czech entries; every other key falls back to English.
pub const CZECH: [(&'static str, &'static str); 13] = [
    ("diagnostics.action", "Diagnostika"),
    ("history.title", "Historie přenosů"),
    ("language.label", "Jazyk"),
    ("language.select", "Vyberte jazyk"),
    ("preferences.chunk", "Velikost bloku stahování"),
    ("preferences.relay", "Přenosový server"),
    ("preferences.retry", "Limit opakování"),
    ("preferences.title", "Nastavení přenosu"),
    ("preferences.unlimited", "Bez omezení"),
    ("preferences.uploadRate", "Limit odesílání"),
    ("preferences.uploadRateInvalid", "Zadejte celé číslo od 1 do 10240 MiB/s"),
    ("state.label", "Stav"),
    ("theme.label", "Motiv"),
];

/// The German entries; every other key falls back to English.
pub const GERMAN: [(&'static str, &'static str); 13] = [
    ("diagnostics.action", "Diagnose"),
    ("history.title", "Übertragungsverlauf"),
    ("language.label", "Sprache"),
    ("language.select", "Sprache auswählen"),
    ("preferences.chunk", "Download-Blockgröße"),
    ("preferences.relay", "Relay-Server"),
    ("preferences.retry", "Wiederholungslimit"),
    ("preferences.title", "Übertragungseinstellungen"),
    ("preferences.unlimited", "Unbegrenzt"),
    ("preferences.uploadRate", "Upload-Limit"),
    ("preferences.uploadRateInvalid", "Geben Sie eine ganze Zahl von 1 bis 10240 MiB/s ein"),
    ("state.label", "Status"),
    ("theme.label", "Design"),
];

/// The Spanish entries; every other key falls back to English.
pub const SPANISH: [(&'static str, &'static str); 13] = [
    ("diagnostics.action", "Diagnóstico"),
    ("history.title", "Historial de transferencias"),
    ("language.label", "Idioma"),
    ("language.select", "Seleccionar idioma"),
    ("preferences.chunk", "Tamaño de bloque de descarga"),
    ("preferences.relay", "Servidor de retransmisión"),
    ("preferences.retry", "Límite de reintentos"),
    ("preferences.title", "Ajustes de transferencia"),
    ("preferences.unlimited", "Sin límite"),
    ("preferences.uploadRate", "Límite de subida"),
    ("preferences.uploadRateInvalid", "Introduce un número entero de 1 a 10240 MiB/s"),
    ("state.label", "Estado"),
    ("theme.label", "Tema"),
];

/// The Persian entries; every other key falls back to English.
pub const PERSIAN: [(&'static str, &'static str); 13] = [
    ("diagnostics.action", "عیب‌یابی"),
    ("history.title", "تاریخچه انتقال"),
    ("language.label", "زبان"),
    ("language.select", "انتخاب زبان"),
    ("preferences.chunk", "اندازه بخش دانلود"),
    ("preferences.relay", "سرور رله"),
    ("preferences.retry", "حد تلاش مجدد"),
    ("preferences.title", "تنظیمات انتقال"),
    ("preferences.unlimited", "نامحدود"),
    ("preferences.uploadRate", "حد آپلود"),
    ("preferences.uploadRateInvalid", "یک عدد صحیح از ۱ تا ۱۰۲۴۰ مبی‌بایت بر ثانیه وارد کنید"),
    ("state.label", "وضعیت"),
    ("theme.label", "پوسته"),
];

/// The French entries; every other key falls back to English.
pub const FRENCH: [(&'static str, &'static str); 13] = [
    ("diagnostics.action", "Diagnostic"),
    ("history.title", "Historique des transferts"),
    ("language.label", "Langue"),
    ("language.select", "Choisir la langue"),
    ("preferences.chunk", "Taille des blocs de téléchargement"),
    ("preferences.relay", "Relais"),
    ("preferences.retry", "Limite de tentatives"),
    ("preferences.title", "Paramètres de transfert"),
    ("preferences.unlimited", "Illimité"),
    ("preferences.uploadRate", "Limite d’envoi"),
    ("preferences.uploadRateInvalid", "Saisissez un nombre entier de 1 à 10240 Mio/s"),
    ("state.label", "État"),
    ("theme.label", "Thème"),
];

/// The Hindi entries; every other key falls back to English.
pub const HINDI: [(&'static str, &'static str); 13] = [
    ("diagnostics.action", "निदान"),
    ("history.title", "स्थानांतरण इतिहास"),
    ("language.label", "भाषा"),
    ("language.select", "भाषा चुनें"),
    ("preferences.chunk", "डाउनलोड खंड"),
    ("preferences.relay", "रिले"),
    ("preferences.retry", "पुनः प्रयास सीमा"),
    ("preferences.title", "स्थानांतरण सेटिंग्स"),
    ("preferences.unlimited", "असीमित"),
    ("preferences.uploadRate", "अपलोड सीमा"),
    ("preferences.uploadRateInvalid", "1 से 10240 MiB/s तक पूर्ण संख्या दर्ज करें"),
    ("state.label", "स्थिति"),
    ("theme.label", "थीम"),
];

/// The Italian entries; every other key falls back to English.
pub const ITALIAN: [(&'static str, &'static str); 13] = [
    ("diagnostics.action", "Diagnostica"),
    ("history.title", "Cronologia trasferimenti"),
    ("language.label", "Lingua"),
    ("language.select", "Seleziona lingua"),
    ("preferences.chunk", "Dimensione blocco di download"),
    ("preferences.relay", "Server relay"),
    ("preferences.retry", "Limite di tentativi"),
    ("preferences.title", "Impostazioni di trasferimento"),
    ("preferences.unlimited", "Illimitato"),
    ("preferences.uploadRate", "Limite di caricamento"),
    ("preferences.uploadRateInvalid", "Inserisci un numero intero da 1 a 10240 MiB/s"),
    ("state.label", "Stato"),
    ("theme.label", "Tema"),
];

/// The Japanese entries; every other key falls back to English.
pub const JAPANESE: [(&'static str, &'static str); 14] = [
    ("diagnostics.action", "診断"),
    ("history.title", "転送履歴"),
    ("language.label", "言語"),
    ("language.select", "言語を選択"),
    ("preferences.chunk", "ダウンロードチャンク"),
    ("preferences.relay", "リレー"),
    ("preferences.retry", "再試行の上限"),
    ("preferences.title", "転送設定"),
    ("preferences.unlimited", "無制限"),
    ("preferences.uploadRate", "アップロード上限"),
    ("preferences.uploadRateInvalid", "1〜10240 MiB/s の整数を入力してください"),
    ("sender.dropFilesHere", "ファイルまたはフォルダをここにドロップ"),
    ("state.label", "状態"),
    ("theme.label", "テーマ"),
];

/// The Korean entries; every other key falls back to English.
pub const KOREAN: [(&'static str, &'static str); 13] = [
    ("diagnostics.action", "진단"),
    ("history.title", "전송 기록"),
    ("language.label", "언어"),
    ("language.select", "언어 선택"),
    ("preferences.chunk", "다운로드 청크"),
    ("preferences.relay", "릴레이"),
    ("preferences.retry", "재시도 한도"),
    ("preferences.title", "전송 설정"),
    ("preferences.unlimited", "무제한"),
    ("preferences.uploadRate", "업로드 한도"),
    ("preferences.uploadRateInvalid", "1에서 10240 MiB/s 사이의 정수를 입력하세요"),
    ("state.label", "상태"),
    ("theme.label", "테마"),
];

/// The Norwegian entries; every other key falls back to English.
pub const NORWEGIAN: [(&'static str, &'static str); 13] = [
    ("diagnostics.action", "Diagnostikk"),
    ("history.title", "Overføringshistorikk"),
    ("language.label", "Språk"),
    ("language.select", "Velg språk"),
    ("preferences.chunk", "Nedlastingsblokk"),
    ("preferences.relay", "Relé"),
    ("preferences.retry", "Grense for nye forsøk"),
    ("preferences.title", "Overføringsinnstillinger"),
    ("preferences.unlimited", "Ubegrenset"),
    ("preferences.uploadRate", "Opplastingsgrense"),
    ("preferences.uploadRateInvalid", "Skriv inn et heltall fra 1 til 10240 MiB/s"),
    ("state.label", "Tilstand"),
    ("theme.label", "Tema"),
];

/// The Polish entries; every other key falls back to English.
pub const POLISH: [(&'static str, &'static str); 13] = [
    ("diagnostics.action", "Diagnostyka"),
    ("history.title", "Historia transferów"),
    ("language.label", "Język"),
    ("language.select", "Wybierz język"),
    ("preferences.chunk", "Rozmiar fragmentu pobierania"),
    ("preferences.relay", "Przekaźnik"),
    ("preferences.retry", "Limit ponowień"),
    ("preferences.title", "Ustawienia transferu"),
    ("preferences.unlimited", "Bez limitu"),
    ("preferences.uploadRate", "Limit wysyłania"),
    ("preferences.uploadRateInvalid", "Wpisz liczbę całkowitą od 1 do 10240 MiB/s"),
    ("state.label", "Stan"),
    ("theme.label", "Motyw"),
];

/// The Brazilian Portuguese entries; every other key falls back to English.
pub const BRAZILIAN_PORTUGUESE: [(&'static str, &'static str); 13] = [
    ("diagnostics.action", "Diagnóstico"),
    ("history.title", "Histórico de transferências"),
    ("language.label", "Idioma"),
    ("language.select", "Selecionar idioma"),
    ("preferences.chunk", "Tamanho do bloco de download"),
    ("preferences.relay", "Servidor de retransmissão"),
    ("preferences.retry", "Limite de tentativas"),
    ("preferences.title", "Configurações de transferência"),
    ("preferences.unlimited", "Ilimitado"),
    ("preferences.uploadRate", "Limite de envio"),
    ("preferences.uploadRateInvalid", "Digite um número inteiro de 1 a 10240 MiB/s"),
    ("state.label", "Estado"),
    ("theme.label", "Tema"),
];

/// The Russian entries; every other key falls back to English.
pub const RUSSIAN: [(&'static str, &'static str); 13] = [
    ("diagnostics.action", "Диагностика"),
    ("history.title", "История передач"),
    ("language.label", "Язык"),
    ("language.select", "Выберите язык"),
    ("preferences.chunk", "Размер блока загрузки"),
    ("preferences.relay", "Ретранслятор"),
    ("preferences.retry", "Лимит повторов"),
    ("preferences.title", "Настройки передачи"),
    ("preferences.unlimited", "Без ограничений"),
    ("preferences.uploadRate", "Лимит отдачи"),
    ("preferences.uploadRateInvalid", "Введите целое число от 1 до 10240 МиБ/с"),
    ("state.label", "Состояние"),
    ("theme.label", "Тема"),
];

/// The Serbian entries; every other key falls back to English.
pub const SERBIAN: [(&'static str, &'static str); 13] = [
    ("diagnostics.action", "Дијагностика"),
    ("history.title", "Историја преноса"),
    ("language.label", "Језик"),
    ("language.select", "Изаберите језик"),
    ("preferences.chunk", "Величина блока преузимања"),
    ("preferences.relay", "Релеј"),
    ("preferences.retry", "Ограничење понављања"),
    ("preferences.title", "Подешавања преноса"),
    ("preferences.unlimited", "Неограничено"),
    ("preferences.uploadRate", "Ограничење отпремања"),
    ("preferences.uploadRateInvalid", "Унесите цео број од 1 до 10240 MiB/s"),
    ("state.label", "Стање"),
    ("theme.label", "Тема"),
];

/// The Thai entries; every other key falls back to English.
pub const THAI: [(&'static str, &'static str); 13] = [
    ("diagnostics.action", "การวินิจฉัย"),
    ("history.title", "ประวัติการโอน"),
    ("language.label", "ภาษา"),
    ("language.select", "เลือกภาษา"),
    ("preferences.chunk", "ขนาดชิ้นส่วนดาวน์โหลด"),
    ("preferences.relay", "รีเลย์"),
    ("preferences.retry", "ขีดจำกัดการลองใหม่"),
    ("preferences.title", "การตั้งค่าการโอน"),
    ("preferences.unlimited", "ไม่จำกัด"),
    ("preferences.uploadRate", "ขีดจำกัดการอัปโหลด"),
    ("preferences.uploadRateInvalid", "ป้อนจำนวนเต็มตั้งแต่ 1 ถึง 10240 MiB/s"),
    ("state.label", "สถานะ"),
    ("theme.label", "ธีม"),
];

/// The Turkish entries; every other key falls back to English.
pub const TURKISH: [(&'static str, &'static str); 13] = [
    ("diagnostics.action", "Tanılama"),
    ("history.title", "Aktarım geçmişi"),
    ("language.label", "Dil"),
    ("language.select", "Dil seçin"),
    ("preferences.chunk", "İndirme parçası"),
    ("preferences.relay", "Röle"),
    ("preferences.retry", "Yeniden deneme sınırı"),
    ("preferences.title", "Aktarım ayarları"),
    ("preferences.unlimited", "Sınırsız"),
    ("preferences.uploadRate", "Yükleme sınırı"),
    ("preferences.uploadRateInvalid", "1 ile 10240 MiB/s arasında bir tam sayı girin"),
    ("state.label", "Durum"),
    ("theme.label", "Tema"),
];

/// The Ukrainian entries; every other key falls back to English.
pub const UKRAINIAN: [(&'static str, &'static str); 13] = [
    ("diagnostics.action", "Діагностика"),
    ("history.title", "Історія передач"),
    ("language.label", "Мова"),
    ("language.select", "Виберіть мову"),
    ("preferences.chunk", "Розмір блоку завантаження"),
    ("preferences.relay", "Ретранслятор"),
    ("preferences.retry", "Ліміт повторів"),
    ("preferences.title", "Налаштування передачі"),
    ("preferences.unlimited", "Без обмежень"),
    ("preferences.uploadRate", "Ліміт вивантаження"),
    ("preferences.uploadRateInvalid", "Введіть ціле число від 1 до 10240 МіБ/с"),
    ("state.label", "Стан"),
    ("theme.label", "Тема"),
];

/// The Simplified Chinese entries; every other key falls back to English.
pub const SIMPLIFIED_CHINESE: [(&'static str, &'static str); 15] = [
    ("diagnostics.action", "诊断"),
    ("history.title", "传输历史"),
    ("language.label", "语言"),
    ("language.select", "选择语言"),
    ("preferences.chunk", "下载分块"),
    ("preferences.relay", "中继"),
    ("preferences.retry", "重试次数"),
    ("preferences.title", "传输设置"),
    ("preferences.unlimited", "不限速"),
    ("preferences.uploadRate", "上传限速"),
    ("preferences.uploadRateInvalid", "请输入 1 到 10240 MiB/s 之间的整数"),
    ("receiver.openFolder", "打开文件夹"),
    ("sender.startSharing", "开始共享"),
    ("state.label", "状态"),
    ("theme.label", "主题"),
];

/// The Traditional Chinese entries; every other key falls back to English.
pub const TRADITIONAL_CHINESE: [(&'static str, &'static str); 13] = [
    ("diagnostics.action", "診斷"),
    ("history.title", "傳輸紀錄"),
    ("language.label", "語言"),
    ("language.select", "選擇語言"),
    ("preferences.chunk", "下載分塊"),
    ("preferences.relay", "中繼"),
    ("preferences.retry", "重試次數"),
    ("preferences.title", "傳輸設定"),
    ("preferences.unlimited", "不限速"),
    ("preferences.uploadRate", "上傳限速"),
    ("preferences.uploadRateInvalid", "請輸入 1 到 10240 MiB/s 之間的整數"),
    ("state.label", "狀態"),
    ("theme.label", "主題"),
];

} // verus!
