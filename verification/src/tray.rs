//! The tray: its menu in each language, and what its clicks and menu
//! entries do.
use vstd::prelude::*;
use crate::settings::{flag_setting, stored_setting, stored_text, text_setting, text_value, Resolved};
use crate::text::same_text;

verus! {

/// The languages that the tray menu comes in.
#[derive(Clone, Copy, Debug, PartialEq, Eq, Structural)]
pub enum Language {
    En,
    ZhCn,
    ZhTw,
    Ja,
    Ko,
    Fr,
    De,
    Ru,
    PtBr,
    Fa,
    Uk,
}

/// The language of a code; English for a code that names none.
pub open spec fn language_of(code: Seq<char>) -> Language {
    if code == "zh_cn"@ {
        Language::ZhCn
    } else if code == "zh_tw"@ {
        Language::ZhTw
    } else if code == "ja"@ {
        Language::Ja
    } else if code == "ko"@ {
        Language::Ko
    } else if code == "fr"@ {
        Language::Fr
    } else if code == "de"@ {
        Language::De
    } else if code == "ru"@ {
        Language::Ru
    } else if code == "pt_br"@ {
        Language::PtBr
    } else if code == "fa"@ {
        Language::Fa
    } else if code == "uk"@ {
        Language::Uk
    } else {
        Language::En
    }
}

impl Language {
    /// The code of the language in the configuration.
    pub open spec fn code_of(self) -> Seq<char> {
        match self {
            Language::En => "en"@,
            Language::ZhCn => "zh_cn"@,
            Language::ZhTw => "zh_tw"@,
            Language::Ja => "ja"@,
            Language::Ko => "ko"@,
            Language::Fr => "fr"@,
            Language::De => "de"@,
            Language::Ru => "ru"@,
            Language::PtBr => "pt_br"@,
            Language::Fa => "fa"@,
            Language::Uk => "uk"@,
        }
    }

    /// The code of the language.
    pub fn code(&self) -> (r: &'static str)
        ensures
            r@ == self.code_of(),
    {
        match self {
            Language::En => "en",
            Language::ZhCn => "zh_cn",
            Language::ZhTw => "zh_tw",
            Language::Ja => "ja",
            Language::Ko => "ko",
            Language::Fr => "fr",
            Language::De => "de",
            Language::Ru => "ru",
            Language::PtBr => "pt_br",
            Language::Fa => "fa",
            Language::Uk => "uk",
        }
    }

    /// The language of `code`; English for an unknown code.
    pub fn from_code(code: &str) -> (r: Language)
        ensures
            r == language_of(code@),
    {
        if same_text(code, "zh_cn") {
            Language::ZhCn
        } else if same_text(code, "zh_tw") {
            Language::ZhTw
        } else if same_text(code, "ja") {
            Language::Ja
        } else if same_text(code, "ko") {
            Language::Ko
        } else if same_text(code, "fr") {
            Language::Fr
        } else if same_text(code, "de") {
            Language::De
        } else if same_text(code, "ru") {
            Language::Ru
        } else if same_text(code, "pt_br") {
            Language::PtBr
        } else if same_text(code, "fa") {
            Language::Fa
        } else if same_text(code, "uk") {
            Language::Uk
        } else {
            Language::En
        }
    }
}

/// The entries of the tray menu. `AutoCopy` is the submenu that holds the
/// four `Copy` entries.
#[derive(Clone, Copy, Debug, PartialEq, Eq, Structural)]
pub enum MenuItem {
    InputTranslate,
    ClipboardMonitor,
    AutoCopy,
    CopySource,
    CopyTarget,
    CopySourceTarget,
    CopyDisable,
    OcrRecognize,
    OcrTranslate,
    Config,
    CheckUpdate,
    ViewLog,
    Restart,
    Quit,
}

/// The text of an entry in a language.
pub open spec fn item_label(lang: Language, item: MenuItem) -> Seq<char> {
    match lang {
        Language::En => match item {
            MenuItem::InputTranslate => "Input Translate"@,
            MenuItem::ClipboardMonitor => "Clipboard Monitor"@,
            MenuItem::CopySource => "Source"@,
            MenuItem::CopyTarget => "Target"@,
            MenuItem::CopySourceTarget => "Source+Target"@,
            MenuItem::CopyDisable => "Disable"@,
            MenuItem::OcrRecognize => "OCR Recognize"@,
            MenuItem::OcrTranslate => "OCR Translate"@,
            MenuItem::Config => "Config"@,
            MenuItem::CheckUpdate => "Check Update"@,
            MenuItem::ViewLog => "View Log"@,
            MenuItem::Restart => "Restart"@,
            MenuItem::Quit => "Quit"@,
            MenuItem::AutoCopy => "Auto Copy"@,
        },
        Language::ZhCn => match item {
            MenuItem::InputTranslate => "输入翻译"@,
            MenuItem::ClipboardMonitor => "监听剪切板"@,
            MenuItem::CopySource => "原文"@,
            MenuItem::CopyTarget => "译文"@,
            MenuItem::CopySourceTarget => "原文+译文"@,
            MenuItem::CopyDisable => "关闭"@,
            MenuItem::OcrRecognize => "文字识别"@,
            MenuItem::OcrTranslate => "截图翻译"@,
            MenuItem::Config => "偏好设置"@,
            MenuItem::CheckUpdate => "检查更新"@,
            MenuItem::ViewLog => "查看日志"@,
            MenuItem::Restart => "重启应用"@,
            MenuItem::Quit => "退出"@,
            MenuItem::AutoCopy => "自动复制"@,
        },
        Language::ZhTw => match item {
            MenuItem::InputTranslate => "輸入翻譯"@,
            MenuItem::ClipboardMonitor => "偵聽剪貼簿"@,
            MenuItem::CopySource => "原文"@,
            MenuItem::CopyTarget => "譯文"@,
            MenuItem::CopySourceTarget => "原文+譯文"@,
            MenuItem::CopyDisable => "關閉"@,
            MenuItem::OcrRecognize => "文字識別"@,
            MenuItem::OcrTranslate => "截圖翻譯"@,
            MenuItem::Config => "偏好設定"@,
            MenuItem::CheckUpdate => "檢查更新"@,
            MenuItem::ViewLog => "查看日誌"@,
            MenuItem::Restart => "重啓程式"@,
            MenuItem::Quit => "退出"@,
            MenuItem::AutoCopy => "自動複製"@,
        },
        Language::Ja => match item {
            MenuItem::InputTranslate => "翻訳を入力"@,
            MenuItem::ClipboardMonitor => "クリップボードを監視する"@,
            MenuItem::CopySource => "原文"@,
            MenuItem::CopyTarget => "訳文"@,
            MenuItem::CopySourceTarget => "原文+訳文"@,
            MenuItem::CopyDisable => "閉じる"@,
            MenuItem::OcrRecognize => "テキスト認識"@,
            MenuItem::OcrTranslate => "スクリーンショットの翻訳"@,
            MenuItem::Config => "プリファレンス設定"@,
            MenuItem::CheckUpdate => "更新を確認する"@,
            MenuItem::ViewLog => "ログを見る"@,
            MenuItem::Restart => "アプリの再起動"@,
            MenuItem::Quit => "退出する"@,
            MenuItem::AutoCopy => "自動コピー"@,
        },
        Language::Ko => match item {
            MenuItem::InputTranslate => "입력 번역"@,
            MenuItem::ClipboardMonitor => "감청 전단판"@,
            MenuItem::CopySource => "원문"@,
            MenuItem::CopyTarget => "번역문"@,
            MenuItem::CopySourceTarget => "원문+번역문"@,
            MenuItem::CopyDisable => "닫기"@,
            MenuItem::OcrRecognize => "문자인식"@,
            MenuItem::OcrTranslate => "스크린샷 번역"@,
            MenuItem::Config => "기본 설정"@,
            MenuItem::CheckUpdate => "업데이트 확인"@,
            MenuItem::ViewLog => "로그 보기"@,
            MenuItem::Restart => "응용 프로그램 다시 시작"@,
            MenuItem::Quit => "퇴출"@,
            MenuItem::AutoCopy => "자동 복사"@,
        },
        Language::Fr => match item {
            MenuItem::InputTranslate => "Traduction d'entrée"@,
            MenuItem::ClipboardMonitor => "Surveiller le presse-papiers"@,
            MenuItem::CopySource => "Source"@,
            MenuItem::CopyTarget => "Cible"@,
            MenuItem::CopySourceTarget => "Source+Cible"@,
            MenuItem::CopyDisable => "Désactiver"@,
            MenuItem::OcrRecognize => "Reconnaissance de texte"@,
            MenuItem::OcrTranslate => "Traduction d'image"@,
            MenuItem::Config => "Paramètres"@,
            MenuItem::CheckUpdate => "Vérifier les mises à jour"@,
            MenuItem::ViewLog => "Voir le journal"@,
            MenuItem::Restart => "Redémarrer l'application"@,
            MenuItem::Quit => "Quitter"@,
            MenuItem::AutoCopy => "Copier automatiquement"@,
        },
        Language::De => match item {
            MenuItem::InputTranslate => "Eingabeübersetzung"@,
            MenuItem::ClipboardMonitor => "Zwischenablage überwachen"@,
            MenuItem::CopySource => "Quelle"@,
            MenuItem::CopyTarget => "Ziel"@,
            MenuItem::CopySourceTarget => "Quelle+Ziel"@,
            MenuItem::CopyDisable => "Deaktivieren"@,
            MenuItem::OcrRecognize => "Texterkennung"@,
            MenuItem::OcrTranslate => "Bildübersetzung"@,
            MenuItem::Config => "Einstellungen"@,
            MenuItem::CheckUpdate => "Auf Updates prüfen"@,
            MenuItem::ViewLog => "Protokoll anzeigen"@,
            MenuItem::Restart => "Anwendung neu starten"@,
            MenuItem::Quit => "Beenden"@,
            MenuItem::AutoCopy => "Automatisch kopieren"@,
        },
        Language::Ru => match item {
            MenuItem::InputTranslate => "Ввод перевода"@,
            MenuItem::ClipboardMonitor => "Следить за буфером обмена"@,
            MenuItem::CopySource => "Источник"@,
            MenuItem::CopyTarget => "Цель"@,
            MenuItem::CopySourceTarget => "Источник+Цель"@,
            MenuItem::CopyDisable => "Отключить"@,
            MenuItem::OcrRecognize => "Распознавание текста"@,
            MenuItem::OcrTranslate => "Перевод изображения"@,
            MenuItem::Config => "Настройки"@,
            MenuItem::CheckUpdate => "Проверить обновления"@,
            MenuItem::ViewLog => "Просмотр журнала"@,
            MenuItem::Restart => "Перезапустить приложение"@,
            MenuItem::Quit => "Выйти"@,
            MenuItem::AutoCopy => "Автоматически копировать"@,
        },
        Language::PtBr => match item {
            MenuItem::InputTranslate => "Tradução de entrada"@,
            MenuItem::ClipboardMonitor => "Monitorar área de transferência"@,
            MenuItem::CopySource => "Fonte"@,
            MenuItem::CopyTarget => "Alvo"@,
            MenuItem::CopySourceTarget => "Fonte+Alvo"@,
            MenuItem::CopyDisable => "Desativar"@,
            MenuItem::OcrRecognize => "Reconhecimento de texto"@,
            MenuItem::OcrTranslate => "Tradução de imagem"@,
            MenuItem::Config => "Configurações"@,
            MenuItem::CheckUpdate => "Verificar atualizações"@,
            MenuItem::ViewLog => "Ver registro"@,
            MenuItem::Restart => "Reiniciar aplicativo"@,
            MenuItem::Quit => "Sair"@,
            MenuItem::AutoCopy => "Copiar automaticamente"@,
        },
        Language::Fa => match item {
            MenuItem::InputTranslate => "ترجمه ورودی"@,
            MenuItem::ClipboardMonitor => "نظارت بر کلیپ بورد"@,
            MenuItem::CopySource => "منبع"@,
            MenuItem::CopyTarget => "هدف"@,
            MenuItem::CopySourceTarget => "منبع+هدف"@,
            MenuItem::CopyDisable => "غیرفعال"@,
            MenuItem::OcrRecognize => "تشخیص متن"@,
            MenuItem::OcrTranslate => "ترجمه تصویر"@,
            MenuItem::Config => "تنظیمات"@,
            MenuItem::CheckUpdate => "بررسی به روزرسانی"@,
            MenuItem::ViewLog => "مشاهده گزارش"@,
            MenuItem::Restart => "راه اندازی مجدد"@,
            MenuItem::Quit => "خروج"@,
            MenuItem::AutoCopy => "کپی خودکار"@,
        },
        Language::Uk => match item {
            MenuItem::InputTranslate => "Введення перекладу"@,
            MenuItem::ClipboardMonitor => "Спостерігати за буфером обміну"@,
            MenuItem::CopySource => "Джерело"@,
            MenuItem::CopyTarget => "Ціль"@,
            MenuItem::CopySourceTarget => "Джерело+Ціль"@,
            MenuItem::CopyDisable => "Вимкнути"@,
            MenuItem::OcrRecognize => "Розпізнавання тексту"@,
            MenuItem::OcrTranslate => "Переклад зображення"@,
            MenuItem::Config => "Налаштування"@,
            MenuItem::CheckUpdate => "Перевірити оновлення"@,
            MenuItem::ViewLog => "Переглянути журнал"@,
            MenuItem::Restart => "Перезапустити додаток"@,
            MenuItem::Quit => "Вийти"@,
            MenuItem::AutoCopy => "Автоматично копіювати"@,
        },
    }
}

/// The text of an entry in a language.
pub fn label(lang: Language, item: MenuItem) -> (r: &'static str)
    ensures
        r@ == item_label(lang, item),
{
    match lang {
        Language::En => match item {
            MenuItem::InputTranslate => "Input Translate",
            MenuItem::ClipboardMonitor => "Clipboard Monitor",
            MenuItem::CopySource => "Source",
            MenuItem::CopyTarget => "Target",
            MenuItem::CopySourceTarget => "Source+Target",
            MenuItem::CopyDisable => "Disable",
            MenuItem::OcrRecognize => "OCR Recognize",
            MenuItem::OcrTranslate => "OCR Translate",
            MenuItem::Config => "Config",
            MenuItem::CheckUpdate => "Check Update",
            MenuItem::ViewLog => "View Log",
            MenuItem::Restart => "Restart",
            MenuItem::Quit => "Quit",
            MenuItem::AutoCopy => "Auto Copy",
        },
        Language::ZhCn => match item {
            MenuItem::InputTranslate => "输入翻译",
            MenuItem::ClipboardMonitor => "监听剪切板",
            MenuItem::CopySource => "原文",
            MenuItem::CopyTarget => "译文",
            MenuItem::CopySourceTarget => "原文+译文",
            MenuItem::CopyDisable => "关闭",
            MenuItem::OcrRecognize => "文字识别",
            MenuItem::OcrTranslate => "截图翻译",
            MenuItem::Config => "偏好设置",
            MenuItem::CheckUpdate => "检查更新",
            MenuItem::ViewLog => "查看日志",
            MenuItem::Restart => "重启应用",
            MenuItem::Quit => "退出",
            MenuItem::AutoCopy => "自动复制",
        },
        Language::ZhTw => match item {
            MenuItem::InputTranslate => "輸入翻譯",
            MenuItem::ClipboardMonitor => "偵聽剪貼簿",
            MenuItem::CopySource => "原文",
            MenuItem::CopyTarget => "譯文",
            MenuItem::CopySourceTarget => "原文+譯文",
            MenuItem::CopyDisable => "關閉",
            MenuItem::OcrRecognize => "文字識別",
            MenuItem::OcrTranslate => "截圖翻譯",
            MenuItem::Config => "偏好設定",
            MenuItem::CheckUpdate => "檢查更新",
            MenuItem::ViewLog => "查看日誌",
            MenuItem::Restart => "重啓程式",
            MenuItem::Quit => "退出",
            MenuItem::AutoCopy => "自動複製",
        },
        Language::Ja => match item {
            MenuItem::InputTranslate => "翻訳を入力",
            MenuItem::ClipboardMonitor => "クリップボードを監視する",
            MenuItem::CopySource => "原文",
            MenuItem::CopyTarget => "訳文",
            MenuItem::CopySourceTarget => "原文+訳文",
            MenuItem::CopyDisable => "閉じる",
            MenuItem::OcrRecognize => "テキスト認識",
            MenuItem::OcrTranslate => "スクリーンショットの翻訳",
            MenuItem::Config => "プリファレンス設定",
            MenuItem::CheckUpdate => "更新を確認する",
            MenuItem::ViewLog => "ログを見る",
            MenuItem::Restart => "アプリの再起動",
            MenuItem::Quit => "退出する",
            MenuItem::AutoCopy => "自動コピー",
        },
        Language::Ko => match item {
            MenuItem::InputTranslate => "입력 번역",
            MenuItem::ClipboardMonitor => "감청 전단판",
            MenuItem::CopySource => "원문",
            MenuItem::CopyTarget => "번역문",
            MenuItem::CopySourceTarget => "원문+번역문",
            MenuItem::CopyDisable => "닫기",
            MenuItem::OcrRecognize => "문자인식",
            MenuItem::OcrTranslate => "스크린샷 번역",
            MenuItem::Config => "기본 설정",
            MenuItem::CheckUpdate => "업데이트 확인",
            MenuItem::ViewLog => "로그 보기",
            MenuItem::Restart => "응용 프로그램 다시 시작",
            MenuItem::Quit => "퇴출",
            MenuItem::AutoCopy => "자동 복사",
        },
        Language::Fr => match item {
            MenuItem::InputTranslate => "Traduction d'entrée",
            MenuItem::ClipboardMonitor => "Surveiller le presse-papiers",
            MenuItem::CopySource => "Source",
            MenuItem::CopyTarget => "Cible",
            MenuItem::CopySourceTarget => "Source+Cible",
            MenuItem::CopyDisable => "Désactiver",
            MenuItem::OcrRecognize => "Reconnaissance de texte",
            MenuItem::OcrTranslate => "Traduction d'image",
            MenuItem::Config => "Paramètres",
            MenuItem::CheckUpdate => "Vérifier les mises à jour",
            MenuItem::ViewLog => "Voir le journal",
            MenuItem::Restart => "Redémarrer l'application",
            MenuItem::Quit => "Quitter",
            MenuItem::AutoCopy => "Copier automatiquement",
        },
        Language::De => match item {
            MenuItem::InputTranslate => "Eingabeübersetzung",
            MenuItem::ClipboardMonitor => "Zwischenablage überwachen",
            MenuItem::CopySource => "Quelle",
            MenuItem::CopyTarget => "Ziel",
            MenuItem::CopySourceTarget => "Quelle+Ziel",
            MenuItem::CopyDisable => "Deaktivieren",
            MenuItem::OcrRecognize => "Texterkennung",
            MenuItem::OcrTranslate => "Bildübersetzung",
            MenuItem::Config => "Einstellungen",
            MenuItem::CheckUpdate => "Auf Updates prüfen",
            MenuItem::ViewLog => "Protokoll anzeigen",
            MenuItem::Restart => "Anwendung neu starten",
            MenuItem::Quit => "Beenden",
            MenuItem::AutoCopy => "Automatisch kopieren",
        },
        Language::Ru => match item {
            MenuItem::InputTranslate => "Ввод перевода",
            MenuItem::ClipboardMonitor => "Следить за буфером обмена",
            MenuItem::CopySource => "Источник",
            MenuItem::CopyTarget => "Цель",
            MenuItem::CopySourceTarget => "Источник+Цель",
            MenuItem::CopyDisable => "Отключить",
            MenuItem::OcrRecognize => "Распознавание текста",
            MenuItem::OcrTranslate => "Перевод изображения",
            MenuItem::Config => "Настройки",
            MenuItem::CheckUpdate => "Проверить обновления",
            MenuItem::ViewLog => "Просмотр журнала",
            MenuItem::Restart => "Перезапустить приложение",
            MenuItem::Quit => "Выйти",
            MenuItem::AutoCopy => "Автоматически копировать",
        },
        Language::PtBr => match item {
            MenuItem::InputTranslate => "Tradução de entrada",
            MenuItem::ClipboardMonitor => "Monitorar área de transferência",
            MenuItem::CopySource => "Fonte",
            MenuItem::CopyTarget => "Alvo",
            MenuItem::CopySourceTarget => "Fonte+Alvo",
            MenuItem::CopyDisable => "Desativar",
            MenuItem::OcrRecognize => "Reconhecimento de texto",
            MenuItem::OcrTranslate => "Tradução de imagem",
            MenuItem::Config => "Configurações",
            MenuItem::CheckUpdate => "Verificar atualizações",
            MenuItem::ViewLog => "Ver registro",
            MenuItem::Restart => "Reiniciar aplicativo",
            MenuItem::Quit => "Sair",
            MenuItem::AutoCopy => "Copiar automaticamente",
        },
        Language::Fa => match item {
            MenuItem::InputTranslate => "ترجمه ورودی",
            MenuItem::ClipboardMonitor => "نظارت بر کلیپ بورد",
            MenuItem::CopySource => "منبع",
            MenuItem::CopyTarget => "هدف",
            MenuItem::CopySourceTarget => "منبع+هدف",
            MenuItem::CopyDisable => "غیرفعال",
            MenuItem::OcrRecognize => "تشخیص متن",
            MenuItem::OcrTranslate => "ترجمه تصویر",
            MenuItem::Config => "تنظیمات",
            MenuItem::CheckUpdate => "بررسی به روزرسانی",
            MenuItem::ViewLog => "مشاهده گزارش",
            MenuItem::Restart => "راه اندازی مجدد",
            MenuItem::Quit => "خروج",
            MenuItem::AutoCopy => "کپی خودکار",
        },
        Language::Uk => match item {
            MenuItem::InputTranslate => "Введення перекладу",
            MenuItem::ClipboardMonitor => "Спостерігати за буфером обміну",
            MenuItem::CopySource => "Джерело",
            MenuItem::CopyTarget => "Ціль",
            MenuItem::CopySourceTarget => "Джерело+Ціль",
            MenuItem::CopyDisable => "Вимкнути",
            MenuItem::OcrRecognize => "Розпізнавання тексту",
            MenuItem::OcrTranslate => "Переклад зображення",
            MenuItem::Config => "Налаштування",
            MenuItem::CheckUpdate => "Перевірити оновлення",
            MenuItem::ViewLog => "Переглянути журнал",
            MenuItem::Restart => "Перезапустити додаток",
            MenuItem::Quit => "Вийти",
            MenuItem::AutoCopy => "Автоматично копіювати",
        },
    }
}

/// The id by which the menu reports a click on an entry. The submenu's id
/// is its text.
pub open spec fn item_id(lang: Language, item: MenuItem) -> Seq<char> {
    match item {
        MenuItem::InputTranslate => "input_translate"@,
        MenuItem::ClipboardMonitor => "clipboard_monitor"@,
        MenuItem::AutoCopy => item_label(lang, MenuItem::AutoCopy),
        MenuItem::CopySource => "copy_source"@,
        MenuItem::CopyTarget => "copy_target"@,
        MenuItem::CopySourceTarget => "copy_source_target"@,
        MenuItem::CopyDisable => "copy_disable"@,
        MenuItem::OcrRecognize => "ocr_recognize"@,
        MenuItem::OcrTranslate => "ocr_translate"@,
        MenuItem::Config => "config"@,
        MenuItem::CheckUpdate => "check_update"@,
        MenuItem::ViewLog => "view_log"@,
        MenuItem::Restart => "restart"@,
        MenuItem::Quit => "quit"@,
    }
}

/// The id of an entry.
pub fn id(lang: Language, item: MenuItem) -> (r: &'static str)
    ensures
        r@ == item_id(lang, item),
{
    match item {
        MenuItem::InputTranslate => "input_translate",
        MenuItem::ClipboardMonitor => "clipboard_monitor",
        MenuItem::AutoCopy => label(lang, MenuItem::AutoCopy),
        MenuItem::CopySource => "copy_source",
        MenuItem::CopyTarget => "copy_target",
        MenuItem::CopySourceTarget => "copy_source_target",
        MenuItem::CopyDisable => "copy_disable",
        MenuItem::OcrRecognize => "ocr_recognize",
        MenuItem::OcrTranslate => "ocr_translate",
        MenuItem::Config => "config",
        MenuItem::CheckUpdate => "check_update",
        MenuItem::ViewLog => "view_log",
        MenuItem::Restart => "restart",
        MenuItem::Quit => "quit",
    }
}

/// Whether an entry is a check box, and whether it is checked: the clipboard
/// monitor when the monitor is on, each copy mode when it is the current one.
pub open spec fn item_check(item: MenuItem, monitor_on: bool, copy_mode: Seq<char>) -> Option<
    bool,
> {
    match item {
        MenuItem::ClipboardMonitor => Some(monitor_on),
        MenuItem::CopySource => Some(copy_mode == "source"@),
        MenuItem::CopyTarget => Some(copy_mode == "target"@),
        MenuItem::CopySourceTarget => Some(copy_mode == "source_target"@),
        MenuItem::CopyDisable => Some(copy_mode == "disable"@),
        _ => None,
    }
}

/// An entry of the tray menu as the menu shows it.
pub struct MenuEntry {
    pub id: String,
    pub label: String,
    /// `Some` for a check box, with whether it is checked.
    pub check: Option<bool>,
    /// Whether the entry opens the submenu.
    pub submenu: bool,
}

/// An entry's id, text, check state and whether it opens the submenu.
pub struct EntryView {
    pub id: Seq<char>,
    pub label: Seq<char>,
    pub check: Option<bool>,
    pub submenu: bool,
}

impl View for MenuEntry {
    type V = EntryView;

    open spec fn view(&self) -> EntryView {
        EntryView { id: self.id@, label: self.label@, check: self.check, submenu: self.submenu }
    }
}

/// The entry for `item` in a language, given the monitor switch and the copy
/// mode.
pub open spec fn entry_of(lang: Language, item: MenuItem, monitor_on: bool, copy_mode: Seq<char>) -> EntryView {
    EntryView {
        id: item_id(lang, item),
        label: item_label(lang, item),
        check: item_check(item, monitor_on, copy_mode),
        submenu: item == MenuItem::AutoCopy,
    }
}

/// The entries of the menu, top to bottom.
pub open spec fn menu_items() -> Seq<MenuItem> {
    seq![
        MenuItem::InputTranslate,
        MenuItem::ClipboardMonitor,
        MenuItem::AutoCopy,
        MenuItem::OcrRecognize,
        MenuItem::OcrTranslate,
        MenuItem::Config,
        MenuItem::CheckUpdate,
        MenuItem::ViewLog,
        MenuItem::Restart,
        MenuItem::Quit,
    ]
}

/// The entries of the submenu, top to bottom.
pub open spec fn submenu_items() -> Seq<MenuItem> {
    seq![MenuItem::CopySource, MenuItem::CopyTarget, MenuItem::CopySourceTarget, MenuItem::CopyDisable]
}

/// The tray menu: its entries and those of its submenu.
pub struct TrayMenu {
    pub items: Vec<MenuEntry>,
    pub submenu_items: Vec<MenuEntry>,
}

/// The menu for a language, monitor switch and copy mode.
pub open spec fn menu_of(lang: Language, monitor_on: bool, copy_mode: Seq<char>) -> (Seq<EntryView>, Seq<EntryView>) {
    (
        menu_items().map_values(|i: MenuItem| entry_of(lang, i, monitor_on, copy_mode)),
        submenu_items().map_values(|i: MenuItem| entry_of(lang, i, monitor_on, copy_mode)),
    )
}

impl View for TrayMenu {
    type V = (Seq<EntryView>, Seq<EntryView>);

    open spec fn view(&self) -> (Seq<EntryView>, Seq<EntryView>) {
        (
            self.items@.map_values(|e: MenuEntry| e@),
            self.submenu_items@.map_values(|e: MenuEntry| e@),
        )
    }
}

/// The entry for `item`.
fn entry(lang: Language, item: MenuItem, monitor_on: bool, copy_mode: &str) -> (r: MenuEntry)
    ensures
        r@ == entry_of(lang, item, monitor_on, copy_mode@),
{
    let check = match item {
        MenuItem::ClipboardMonitor => Some(monitor_on),
        MenuItem::CopySource => Some(same_text(copy_mode, "source")),
        MenuItem::CopyTarget => Some(same_text(copy_mode, "target")),
        MenuItem::CopySourceTarget => Some(same_text(copy_mode, "source_target")),
        MenuItem::CopyDisable => Some(same_text(copy_mode, "disable")),
        _ => None,
    };
    let submenu = match item {
        MenuItem::AutoCopy => true,
        _ => false,
    };
    MenuEntry {
        id: id(lang, item).to_owned(),
        label: label(lang, item).to_owned(),
        check,
        submenu,
    }
}

/// The tray menu in `lang`: the input window, the clipboard monitor (a check
/// box, checked when `monitor_on`), the auto-copy submenu (a check box for
/// each copy mode, the current `copy_mode` checked), the two OCR windows,
/// settings, the update check, the log, restart and quit.
pub fn tray_menu(lang: Language, monitor_on: bool, copy_mode: &str) -> (r: TrayMenu)
    ensures
        r@ == menu_of(lang, monitor_on, copy_mode@),
{
    let mut items: Vec<MenuEntry> = Vec::new();
    items.push(entry(lang, MenuItem::InputTranslate, monitor_on, copy_mode));
    items.push(entry(lang, MenuItem::ClipboardMonitor, monitor_on, copy_mode));
    items.push(entry(lang, MenuItem::AutoCopy, monitor_on, copy_mode));
    items.push(entry(lang, MenuItem::OcrRecognize, monitor_on, copy_mode));
    items.push(entry(lang, MenuItem::OcrTranslate, monitor_on, copy_mode));
    items.push(entry(lang, MenuItem::Config, monitor_on, copy_mode));
    items.push(entry(lang, MenuItem::CheckUpdate, monitor_on, copy_mode));
    items.push(entry(lang, MenuItem::ViewLog, monitor_on, copy_mode));
    items.push(entry(lang, MenuItem::Restart, monitor_on, copy_mode));
    items.push(entry(lang, MenuItem::Quit, monitor_on, copy_mode));
    let mut submenu_items: Vec<MenuEntry> = Vec::new();
    submenu_items.push(entry(lang, MenuItem::CopySource, monitor_on, copy_mode));
    submenu_items.push(entry(lang, MenuItem::CopyTarget, monitor_on, copy_mode));
    submenu_items.push(entry(lang, MenuItem::CopySourceTarget, monitor_on, copy_mode));
    submenu_items.push(entry(lang, MenuItem::CopyDisable, monitor_on, copy_mode));
    let r = TrayMenu { items, submenu_items };
    assert(r@.0 =~= menu_of(lang, monitor_on, copy_mode@).0);
    assert(r@.1 =~= menu_of(lang, monitor_on, copy_mode@).1);
    r
}

/// What is copied to the clipboard by itself after each result.
#[derive(Clone, Copy, Debug, PartialEq, Eq, Structural)]
pub enum CopyMode {
    Source,
    Target,
    SourceTarget,
    Disable,
}

impl CopyMode {
    /// The mode's value in the configuration.
    pub open spec fn name_of(self) -> Seq<char> {
        match self {
            CopyMode::Source => "source"@,
            CopyMode::Target => "target"@,
            CopyMode::SourceTarget => "source_target"@,
            CopyMode::Disable => "disable"@,
        }
    }

    /// The mode's value in the configuration.
    pub fn name(&self) -> (r: &'static str)
        ensures
            r@ == self.name_of(),
    {
        match self {
            CopyMode::Source => "source",
            CopyMode::Target => "target",
            CopyMode::SourceTarget => "source_target",
            CopyMode::Disable => "disable",
        }
    }
}

/// What a click on a menu entry does.
#[derive(Clone, Copy, Debug, PartialEq, Eq, Structural)]
pub enum MenuCommand {
    InputTranslate,
    SetCopyMode(CopyMode),
    ToggleClipboardMonitor,
    OcrRecognize,
    OcrTranslate,
    OpenConfig,
    CheckUpdate,
    ViewLog,
    Restart,
    Quit,
}

/// The command of a menu entry's id; none for other ids.
pub open spec fn menu_command(id: Seq<char>) -> Option<MenuCommand> {
    if id == "input_translate"@ {
        Some(MenuCommand::InputTranslate)
    } else if id == "copy_source"@ {
        Some(MenuCommand::SetCopyMode(CopyMode::Source))
    } else if id == "clipboard_monitor"@ {
        Some(MenuCommand::ToggleClipboardMonitor)
    } else if id == "copy_target"@ {
        Some(MenuCommand::SetCopyMode(CopyMode::Target))
    } else if id == "copy_source_target"@ {
        Some(MenuCommand::SetCopyMode(CopyMode::SourceTarget))
    } else if id == "copy_disable"@ {
        Some(MenuCommand::SetCopyMode(CopyMode::Disable))
    } else if id == "ocr_recognize"@ {
        Some(MenuCommand::OcrRecognize)
    } else if id == "ocr_translate"@ {
        Some(MenuCommand::OcrTranslate)
    } else if id == "config"@ {
        Some(MenuCommand::OpenConfig)
    } else if id == "check_update"@ {
        Some(MenuCommand::CheckUpdate)
    } else if id == "view_log"@ {
        Some(MenuCommand::ViewLog)
    } else if id == "restart"@ {
        Some(MenuCommand::Restart)
    } else if id == "quit"@ {
        Some(MenuCommand::Quit)
    } else {
        None
    }
}

/// The command of the menu entry whose id a menu event carries.
pub fn menu_event_handler(id: &str) -> (r: Option<MenuCommand>)
    ensures
        r == menu_command(id@),
{
    if same_text(id, "input_translate") {
        Some(MenuCommand::InputTranslate)
    } else if same_text(id, "copy_source") {
        Some(MenuCommand::SetCopyMode(CopyMode::Source))
    } else if same_text(id, "clipboard_monitor") {
        Some(MenuCommand::ToggleClipboardMonitor)
    } else if same_text(id, "copy_target") {
        Some(MenuCommand::SetCopyMode(CopyMode::Target))
    } else if same_text(id, "copy_source_target") {
        Some(MenuCommand::SetCopyMode(CopyMode::SourceTarget))
    } else if same_text(id, "copy_disable") {
        Some(MenuCommand::SetCopyMode(CopyMode::Disable))
    } else if same_text(id, "ocr_recognize") {
        Some(MenuCommand::OcrRecognize)
    } else if same_text(id, "ocr_translate") {
        Some(MenuCommand::OcrTranslate)
    } else if same_text(id, "config") {
        Some(MenuCommand::OpenConfig)
    } else if same_text(id, "check_update") {
        Some(MenuCommand::CheckUpdate)
    } else if same_text(id, "view_log") {
        Some(MenuCommand::ViewLog)
    } else if same_text(id, "restart") {
        Some(MenuCommand::Restart)
    } else if same_text(id, "quit") {
        Some(MenuCommand::Quit)
    } else {
        None
    }
}

/// The windows that a click on the tray icon can open.
#[derive(Clone, Copy, Debug, PartialEq, Eq, Structural)]
pub enum WindowCommand {
    Config,
    InputTranslate,
    OcrRecognize,
    OcrTranslate,
}

/// The window that the configured tray click event opens: none for
/// `disable`, and the settings for an unknown event.
pub open spec fn tray_click_window(event: Seq<char>) -> Option<WindowCommand> {
    if event == "config"@ {
        Some(WindowCommand::Config)
    } else if event == "translate"@ {
        Some(WindowCommand::InputTranslate)
    } else if event == "ocr_recognize"@ {
        Some(WindowCommand::OcrRecognize)
    } else if event == "ocr_translate"@ {
        Some(WindowCommand::OcrTranslate)
    } else if event == "disable"@ {
        None
    } else {
        Some(WindowCommand::Config)
    }
}

/// What a click on the tray icon does.
pub struct TrayClick {
    /// The configured event (`tray_click_event`; `config` when unset, which
    /// is then stored).
    pub event: Resolved<String>,
    /// The window that opens.
    pub window: Option<WindowCommand>,
}

/// A click on the tray icon with the configured event `stored`.
pub fn on_tray_click(stored: Option<String>) -> (r: TrayClick)
    ensures
        r.event.value@ == stored_text(stored, "config"@),
        r.event.store_default == (stored is None),
        r.window == tray_click_window(r.event.value@),
{
    let event = stored_setting(stored, "config");
    let e = event.value.as_str();
    let window = if same_text(e, "config") {
        Some(WindowCommand::Config)
    } else if same_text(e, "translate") {
        Some(WindowCommand::InputTranslate)
    } else if same_text(e, "ocr_recognize") {
        Some(WindowCommand::OcrRecognize)
    } else if same_text(e, "ocr_translate") {
        Some(WindowCommand::OcrTranslate)
    } else if same_text(e, "disable") {
        None
    } else {
        Some(WindowCommand::Config)
    };
    TrayClick { event, window }
}

/// The mouse buttons of a click on the tray icon.
#[derive(Clone, Copy, Debug, PartialEq, Eq, Structural)]
pub enum MouseButton {
    Left,
    Right,
    Middle,
}

/// Whether the button went up or down.
#[derive(Clone, Copy, Debug, PartialEq, Eq, Structural)]
pub enum MouseButtonState {
    Up,
    Down,
}

/// What happened to the tray icon.
#[derive(Clone, Copy, Debug, PartialEq, Eq, Structural)]
pub enum TrayEvent {
    Click { button: MouseButton, state: MouseButtonState },
    Other,
}

/// Whether a tray event is the click that runs the tray click event: the
/// left button going up (on Windows; other systems ignore it).
pub fn tray_event_handler(event: TrayEvent) -> (r: bool)
    ensures
        r == (event == TrayEvent::Click { button: MouseButton::Left, state: MouseButtonState::Up }),
{
    match event {
        TrayEvent::Click { button: MouseButton::Left, state: MouseButtonState::Up } => true,
        _ => false,
    }
}

/// A click on the clipboard monitor entry.
pub struct ClipboardToggle {
    /// The switch as it was (`clipboard_monitor`; off when unset, which is
    /// then stored).
    pub before: Resolved<bool>,
    /// The switch after the click, which is stored; the monitor starts when
    /// it is on.
    pub enabled: bool,
    /// The switch's text for the monitor's shared state: `true` or `false`.
    pub state_text: String,
}

/// The monitor switch after a click, from its stored value.
pub open spec fn toggled(stored: Option<bool>) -> bool {
    !match stored {
        Some(b) => b,
        None => false,
    }
}

/// A click on the clipboard monitor entry, with the stored switch `stored`.
pub fn on_clipboard_monitor_click(stored: Option<bool>) -> (r: ClipboardToggle)
    ensures
        r.before.value == match stored {
            Some(b) => b,
            None => false,
        },
        r.before.store_default == (stored is None),
        r.enabled == toggled(stored),
        r.state_text@ == (if r.enabled { "true"@ } else { "false"@ }),
{
    let before = flag_setting(stored, false);
    let enabled = !before.value;
    let state_text = if enabled { "true".to_owned() } else { "false".to_owned() };
    ClipboardToggle { before, enabled, state_text }
}

/// The settings behind the tray menu, and the menu they give.
pub struct TrayUpdate {
    /// `app_language`: the given code, else the stored one, else `en`.
    pub language: Resolved<String>,
    /// `translate_auto_copy`: the given mode, else the stored one, else
    /// `disable`.
    pub copy_mode: Resolved<String>,
    /// `clipboard_monitor`: the stored switch, else off.
    pub clipboard_monitor: Resolved<bool>,
    pub menu: TrayMenu,
}

/// The tray menu for the given language and copy mode (each read from the
/// configuration when empty) and the stored monitor switch; an unknown
/// language gives the English menu.
pub fn update_tray(
    language: &str,
    copy_mode: &str,
    stored_language: Option<String>,
    stored_copy_mode: Option<String>,
    stored_monitor: Option<bool>,
) -> (r: TrayUpdate)
    ensures
        r.language.value@ == text_value(language@, stored_language, "en"@),
        r.language.store_default == (language@.len() == 0 && stored_language is None),
        r.copy_mode.value@ == text_value(copy_mode@, stored_copy_mode, "disable"@),
        r.copy_mode.store_default == (copy_mode@.len() == 0 && stored_copy_mode is None),
        r.clipboard_monitor.value == match stored_monitor {
            Some(b) => b,
            None => false,
        },
        r.clipboard_monitor.store_default == (stored_monitor is None),
        r.menu@ == menu_of(
            language_of(r.language.value@),
            r.clipboard_monitor.value,
            r.copy_mode.value@,
        ),
{
    let language = text_setting(language, stored_language, "en");
    let copy_mode = text_setting(copy_mode, stored_copy_mode, "disable");
    let clipboard_monitor = flag_setting(stored_monitor, false);
    let lang = Language::from_code(language.value.as_str());
    let menu = tray_menu(lang, clipboard_monitor.value, copy_mode.value.as_str());
    TrayUpdate { language, copy_mode, clipboard_monitor, menu }
}

/// Each language's code gives that language back.
pub proof fn law_language_codes_round_trip(lang: Language)
    ensures
        language_of(lang.code_of()) == lang,
{
    reveal_strlit("en");
    assert("en"@.len() == 2);
    reveal_strlit("zh_cn");
    assert("zh_cn"@.len() == 5);
    reveal_strlit("zh_tw");
    assert("zh_tw"@.len() == 5);
    reveal_strlit("ja");
    assert("ja"@.len() == 2);
    reveal_strlit("ko");
    assert("ko"@.len() == 2);
    reveal_strlit("fr");
    assert("fr"@.len() == 2);
    reveal_strlit("de");
    assert("de"@.len() == 2);
    reveal_strlit("ru");
    assert("ru"@.len() == 2);
    reveal_strlit("pt_br");
    assert("pt_br"@.len() == 5);
    reveal_strlit("fa");
    assert("fa"@.len() == 2);
    reveal_strlit("uk");
    assert("uk"@.len() == 2);
    assert("en"@[0] != "ja"@[0]);
    assert("en"@ != "ja"@);
    assert("en"@[0] != "ko"@[0]);
    assert("en"@ != "ko"@);
    assert("en"@[0] != "fr"@[0]);
    assert("en"@ != "fr"@);
    assert("en"@[0] != "de"@[0]);
    assert("en"@ != "de"@);
    assert("en"@[0] != "ru"@[0]);
    assert("en"@ != "ru"@);
    assert("en"@[0] != "fa"@[0]);
    assert("en"@ != "fa"@);
    assert("en"@[0] != "uk"@[0]);
    assert("en"@ != "uk"@);
    assert("zh_cn"@[3] != "zh_tw"@[3]);
    assert("zh_cn"@ != "zh_tw"@);
    assert("zh_cn"@[0] != "pt_br"@[0]);
    assert("zh_cn"@ != "pt_br"@);
    assert("zh_tw"@[0] != "pt_br"@[0]);
    assert("zh_tw"@ != "pt_br"@);
    assert("ja"@[0] != "ko"@[0]);
    assert("ja"@ != "ko"@);
    assert("ja"@[0] != "fr"@[0]);
    assert("ja"@ != "fr"@);
    assert("ja"@[0] != "de"@[0]);
    assert("ja"@ != "de"@);
    assert("ja"@[0] != "ru"@[0]);
    assert("ja"@ != "ru"@);
    assert("ja"@[0] != "fa"@[0]);
    assert("ja"@ != "fa"@);
    assert("ja"@[0] != "uk"@[0]);
    assert("ja"@ != "uk"@);
    assert("ko"@[0] != "fr"@[0]);
    assert("ko"@ != "fr"@);
    assert("ko"@[0] != "de"@[0]);
    assert("ko"@ != "de"@);
    assert("ko"@[0] != "ru"@[0]);
    assert("ko"@ != "ru"@);
    assert("ko"@[0] != "fa"@[0]);
    assert("ko"@ != "fa"@);
    assert("ko"@[0] != "uk"@[0]);
    assert("ko"@ != "uk"@);
    assert("fr"@[0] != "de"@[0]);
    assert("fr"@ != "de"@);
    assert("fr"@[0] != "ru"@[0]);
    assert("fr"@ != "ru"@);
    assert("fr"@[1] != "fa"@[1]);
    assert("fr"@ != "fa"@);
    assert("fr"@[0] != "uk"@[0]);
    assert("fr"@ != "uk"@);
    assert("de"@[0] != "ru"@[0]);
    assert("de"@ != "ru"@);
    assert("de"@[0] != "fa"@[0]);
    assert("de"@ != "fa"@);
    assert("de"@[0] != "uk"@[0]);
    assert("de"@ != "uk"@);
    assert("ru"@[0] != "fa"@[0]);
    assert("ru"@ != "fa"@);
    assert("ru"@[0] != "uk"@[0]);
    assert("ru"@ != "uk"@);
    assert("fa"@[0] != "uk"@[0]);
    assert("fa"@ != "uk"@);
}

/// The command that a click on an entry runs; the submenu runs none.
pub open spec fn item_command(item: MenuItem) -> Option<MenuCommand> {
    match item {
        MenuItem::InputTranslate => Some(MenuCommand::InputTranslate),
        MenuItem::ClipboardMonitor => Some(MenuCommand::ToggleClipboardMonitor),
        MenuItem::AutoCopy => None,
        MenuItem::CopySource => Some(MenuCommand::SetCopyMode(CopyMode::Source)),
        MenuItem::CopyTarget => Some(MenuCommand::SetCopyMode(CopyMode::Target)),
        MenuItem::CopySourceTarget => Some(MenuCommand::SetCopyMode(CopyMode::SourceTarget)),
        MenuItem::CopyDisable => Some(MenuCommand::SetCopyMode(CopyMode::Disable)),
        MenuItem::OcrRecognize => Some(MenuCommand::OcrRecognize),
        MenuItem::OcrTranslate => Some(MenuCommand::OcrTranslate),
        MenuItem::Config => Some(MenuCommand::OpenConfig),
        MenuItem::CheckUpdate => Some(MenuCommand::CheckUpdate),
        MenuItem::ViewLog => Some(MenuCommand::ViewLog),
        MenuItem::Restart => Some(MenuCommand::Restart),
        MenuItem::Quit => Some(MenuCommand::Quit),
    }
}

/// Every entry of the menu, in every language, reports an id that the menu
/// handler maps to the entry's own command; and a copy mode's entry is
/// checked exactly when that mode is the current one.
pub proof fn law_menu_entries_handled(lang: Language, item: MenuItem, monitor_on: bool, copy_mode: Seq<char>)
    ensures
        item != MenuItem::AutoCopy ==> menu_command(item_id(lang, item)) == item_command(item),
        item_command(item) matches Some(MenuCommand::SetCopyMode(m)) ==> item_check(
            item,
            monitor_on,
            copy_mode,
        ) == Some(copy_mode == m.name_of()),
{
    reveal_strlit("input_translate");
    assert("input_translate"@.len() == 15);
    reveal_strlit("copy_source");
    assert("copy_source"@.len() == 11);
    reveal_strlit("clipboard_monitor");
    assert("clipboard_monitor"@.len() == 17);
    reveal_strlit("copy_target");
    assert("copy_target"@.len() == 11);
    reveal_strlit("copy_source_target");
    assert("copy_source_target"@.len() == 18);
    reveal_strlit("copy_disable");
    assert("copy_disable"@.len() == 12);
    reveal_strlit("ocr_recognize");
    assert("ocr_recognize"@.len() == 13);
    reveal_strlit("ocr_translate");
    assert("ocr_translate"@.len() == 13);
    reveal_strlit("config");
    assert("config"@.len() == 6);
    reveal_strlit("check_update");
    assert("check_update"@.len() == 12);
    reveal_strlit("view_log");
    assert("view_log"@.len() == 8);
    reveal_strlit("restart");
    assert("restart"@.len() == 7);
    reveal_strlit("quit");
    assert("quit"@.len() == 4);
    assert("copy_source"@[5] != "copy_target"@[5]);
    assert("copy_disable"@[1] != "check_update"@[1]);
    assert("ocr_recognize"@[4] != "ocr_translate"@[4]);
}

/// At most one copy mode is checked, and one is exactly when the current
/// mode is one of the four.
pub proof fn law_one_copy_mode_checked(lang: Language, monitor_on: bool, copy_mode: Seq<char>)
    ensures
        ({
            let sub = menu_of(lang, monitor_on, copy_mode).1;
            &&& sub.len() == 4
            &&& forall|i: int, j: int|
                0 <= i < j < 4 ==> !(#[trigger] sub[i].check == Some(true) && #[trigger] sub[j].check
                    == Some(true))
            &&& (exists|i: int| 0 <= i < 4 && #[trigger] sub[i].check == Some(true)) <==> (
            copy_mode == "source"@ || copy_mode == "target"@ || copy_mode == "source_target"@
                || copy_mode == "disable"@)
        }),
{
    reveal_strlit("source");
    assert("source"@.len() == 6);
    reveal_strlit("target");
    assert("target"@.len() == 6);
    reveal_strlit("source_target");
    assert("source_target"@.len() == 13);
    reveal_strlit("disable");
    assert("disable"@.len() == 7);
    assert("source"@[0] != "target"@[0]);
    let sub = menu_of(lang, monitor_on, copy_mode).1;
    assert(sub[0].check == Some(copy_mode == "source"@));
    assert(sub[1].check == Some(copy_mode == "target"@));
    assert(sub[2].check == Some(copy_mode == "source_target"@));
    assert(sub[3].check == Some(copy_mode == "disable"@));
}

/// Two clicks on the clipboard monitor entry give the switch back.
pub proof fn law_toggle_twice(stored: Option<bool>)
    ensures
        toggled(Some(toggled(Some(toggled(stored))))) == toggled(stored),
        toggled(None) == true,
{
}

/// Each code of the configuration selects the language that it names: `ja`
/// gives the Japanese menu, `ko` the Korean one, and so on; every other code
/// gives the English menu.
pub proof fn law_language_codes(code: Seq<char>)
    ensures
        language_of("en"@) == Language::En,
        language_of("zh_cn"@) == Language::ZhCn,
        language_of("zh_tw"@) == Language::ZhTw,
        language_of("ja"@) == Language::Ja,
        language_of("ko"@) == Language::Ko,
        language_of("fr"@) == Language::Fr,
        language_of("de"@) == Language::De,
        language_of("ru"@) == Language::Ru,
        language_of("pt_br"@) == Language::PtBr,
        language_of("fa"@) == Language::Fa,
        language_of("uk"@) == Language::Uk,
        ({
            &&& code != "en"@
            &&& code != "zh_cn"@
            &&& code != "zh_tw"@
            &&& code != "ja"@
            &&& code != "ko"@
            &&& code != "fr"@
            &&& code != "de"@
            &&& code != "ru"@
            &&& code != "pt_br"@
            &&& code != "fa"@
            &&& code != "uk"@
        }) ==> language_of(code) == Language::En,
{
    law_language_codes_round_trip(Language::En);
    law_language_codes_round_trip(Language::ZhCn);
    law_language_codes_round_trip(Language::ZhTw);
    law_language_codes_round_trip(Language::Ja);
    law_language_codes_round_trip(Language::Ko);
    law_language_codes_round_trip(Language::Fr);
    law_language_codes_round_trip(Language::De);
    law_language_codes_round_trip(Language::Ru);
    law_language_codes_round_trip(Language::PtBr);
    law_language_codes_round_trip(Language::Fa);
    law_language_codes_round_trip(Language::Uk);
}

/// The text of every entry of the tray menu in every language, and the id
/// that a click on it reports: the click on the entry that reads, say,
/// 文字识别 reports `ocr_recognize`. The submenu reports its own text.
pub proof fn law_menu_texts()
    ensures
        item_label(Language::En, MenuItem::InputTranslate) == "Input Translate"@,
        item_id(Language::En, MenuItem::InputTranslate) == "input_translate"@,
        item_label(Language::En, MenuItem::ClipboardMonitor) == "Clipboard Monitor"@,
        item_id(Language::En, MenuItem::ClipboardMonitor) == "clipboard_monitor"@,
        item_label(Language::En, MenuItem::CopySource) == "Source"@,
        item_id(Language::En, MenuItem::CopySource) == "copy_source"@,
        item_label(Language::En, MenuItem::CopyTarget) == "Target"@,
        item_id(Language::En, MenuItem::CopyTarget) == "copy_target"@,
        item_label(Language::En, MenuItem::CopySourceTarget) == "Source+Target"@,
        item_id(Language::En, MenuItem::CopySourceTarget) == "copy_source_target"@,
        item_label(Language::En, MenuItem::CopyDisable) == "Disable"@,
        item_id(Language::En, MenuItem::CopyDisable) == "copy_disable"@,
        item_label(Language::En, MenuItem::OcrRecognize) == "OCR Recognize"@,
        item_id(Language::En, MenuItem::OcrRecognize) == "ocr_recognize"@,
        item_label(Language::En, MenuItem::OcrTranslate) == "OCR Translate"@,
        item_id(Language::En, MenuItem::OcrTranslate) == "ocr_translate"@,
        item_label(Language::En, MenuItem::Config) == "Config"@,
        item_id(Language::En, MenuItem::Config) == "config"@,
        item_label(Language::En, MenuItem::CheckUpdate) == "Check Update"@,
        item_id(Language::En, MenuItem::CheckUpdate) == "check_update"@,
        item_label(Language::En, MenuItem::ViewLog) == "View Log"@,
        item_id(Language::En, MenuItem::ViewLog) == "view_log"@,
        item_label(Language::En, MenuItem::Restart) == "Restart"@,
        item_id(Language::En, MenuItem::Restart) == "restart"@,
        item_label(Language::En, MenuItem::Quit) == "Quit"@,
        item_id(Language::En, MenuItem::Quit) == "quit"@,
        item_label(Language::En, MenuItem::AutoCopy) == "Auto Copy"@,
        item_id(Language::En, MenuItem::AutoCopy) == "Auto Copy"@,
        item_label(Language::ZhCn, MenuItem::InputTranslate) == "输入翻译"@,
        item_id(Language::ZhCn, MenuItem::InputTranslate) == "input_translate"@,
        item_label(Language::ZhCn, MenuItem::ClipboardMonitor) == "监听剪切板"@,
        item_id(Language::ZhCn, MenuItem::ClipboardMonitor) == "clipboard_monitor"@,
        item_label(Language::ZhCn, MenuItem::CopySource) == "原文"@,
        item_id(Language::ZhCn, MenuItem::CopySource) == "copy_source"@,
        item_label(Language::ZhCn, MenuItem::CopyTarget) == "译文"@,
        item_id(Language::ZhCn, MenuItem::CopyTarget) == "copy_target"@,
        item_label(Language::ZhCn, MenuItem::CopySourceTarget) == "原文+译文"@,
        item_id(Language::ZhCn, MenuItem::CopySourceTarget) == "copy_source_target"@,
        item_label(Language::ZhCn, MenuItem::CopyDisable) == "关闭"@,
        item_id(Language::ZhCn, MenuItem::CopyDisable) == "copy_disable"@,
        item_label(Language::ZhCn, MenuItem::OcrRecognize) == "文字识别"@,
        item_id(Language::ZhCn, MenuItem::OcrRecognize) == "ocr_recognize"@,
        item_label(Language::ZhCn, MenuItem::OcrTranslate) == "截图翻译"@,
        item_id(Language::ZhCn, MenuItem::OcrTranslate) == "ocr_translate"@,
        item_label(Language::ZhCn, MenuItem::Config) == "偏好设置"@,
        item_id(Language::ZhCn, MenuItem::Config) == "config"@,
        item_label(Language::ZhCn, MenuItem::CheckUpdate) == "检查更新"@,
        item_id(Language::ZhCn, MenuItem::CheckUpdate) == "check_update"@,
        item_label(Language::ZhCn, MenuItem::ViewLog) == "查看日志"@,
        item_id(Language::ZhCn, MenuItem::ViewLog) == "view_log"@,
        item_label(Language::ZhCn, MenuItem::Restart) == "重启应用"@,
        item_id(Language::ZhCn, MenuItem::Restart) == "restart"@,
        item_label(Language::ZhCn, MenuItem::Quit) == "退出"@,
        item_id(Language::ZhCn, MenuItem::Quit) == "quit"@,
        item_label(Language::ZhCn, MenuItem::AutoCopy) == "自动复制"@,
        item_id(Language::ZhCn, MenuItem::AutoCopy) == "自动复制"@,
        item_label(Language::ZhTw, MenuItem::InputTranslate) == "輸入翻譯"@,
        item_id(Language::ZhTw, MenuItem::InputTranslate) == "input_translate"@,
        item_label(Language::ZhTw, MenuItem::ClipboardMonitor) == "偵聽剪貼簿"@,
        item_id(Language::ZhTw, MenuItem::ClipboardMonitor) == "clipboard_monitor"@,
        item_label(Language::ZhTw, MenuItem::CopySource) == "原文"@,
        item_id(Language::ZhTw, MenuItem::CopySource) == "copy_source"@,
        item_label(Language::ZhTw, MenuItem::CopyTarget) == "譯文"@,
        item_id(Language::ZhTw, MenuItem::CopyTarget) == "copy_target"@,
        item_label(Language::ZhTw, MenuItem::CopySourceTarget) == "原文+譯文"@,
        item_id(Language::ZhTw, MenuItem::CopySourceTarget) == "copy_source_target"@,
        item_label(Language::ZhTw, MenuItem::CopyDisable) == "關閉"@,
        item_id(Language::ZhTw, MenuItem::CopyDisable) == "copy_disable"@,
        item_label(Language::ZhTw, MenuItem::OcrRecognize) == "文字識別"@,
        item_id(Language::ZhTw, MenuItem::OcrRecognize) == "ocr_recognize"@,
        item_label(Language::ZhTw, MenuItem::OcrTranslate) == "截圖翻譯"@,
        item_id(Language::ZhTw, MenuItem::OcrTranslate) == "ocr_translate"@,
        item_label(Language::ZhTw, MenuItem::Config) == "偏好設定"@,
        item_id(Language::ZhTw, MenuItem::Config) == "config"@,
        item_label(Language::ZhTw, MenuItem::CheckUpdate) == "檢查更新"@,
        item_id(Language::ZhTw, MenuItem::CheckUpdate) == "check_update"@,
        item_label(Language::ZhTw, MenuItem::ViewLog) == "查看日誌"@,
        item_id(Language::ZhTw, MenuItem::ViewLog) == "view_log"@,
        item_label(Language::ZhTw, MenuItem::Restart) == "重啓程式"@,
        item_id(Language::ZhTw, MenuItem::Restart) == "restart"@,
        item_label(Language::ZhTw, MenuItem::Quit) == "退出"@,
        item_id(Language::ZhTw, MenuItem::Quit) == "quit"@,
        item_label(Language::ZhTw, MenuItem::AutoCopy) == "自動複製"@,
        item_id(Language::ZhTw, MenuItem::AutoCopy) == "自動複製"@,
        item_label(Language::Ja, MenuItem::InputTranslate) == "翻訳を入力"@,
        item_id(Language::Ja, MenuItem::InputTranslate) == "input_translate"@,
        item_label(Language::Ja, MenuItem::ClipboardMonitor) == "クリップボードを監視する"@,
        item_id(Language::Ja, MenuItem::ClipboardMonitor) == "clipboard_monitor"@,
        item_label(Language::Ja, MenuItem::CopySource) == "原文"@,
        item_id(Language::Ja, MenuItem::CopySource) == "copy_source"@,
        item_label(Language::Ja, MenuItem::CopyTarget) == "訳文"@,
        item_id(Language::Ja, MenuItem::CopyTarget) == "copy_target"@,
        item_label(Language::Ja, MenuItem::CopySourceTarget) == "原文+訳文"@,
        item_id(Language::Ja, MenuItem::CopySourceTarget) == "copy_source_target"@,
        item_label(Language::Ja, MenuItem::CopyDisable) == "閉じる"@,
        item_id(Language::Ja, MenuItem::CopyDisable) == "copy_disable"@,
        item_label(Language::Ja, MenuItem::OcrRecognize) == "テキスト認識"@,
        item_id(Language::Ja, MenuItem::OcrRecognize) == "ocr_recognize"@,
        item_label(Language::Ja, MenuItem::OcrTranslate) == "スクリーンショットの翻訳"@,
        item_id(Language::Ja, MenuItem::OcrTranslate) == "ocr_translate"@,
        item_label(Language::Ja, MenuItem::Config) == "プリファレンス設定"@,
        item_id(Language::Ja, MenuItem::Config) == "config"@,
        item_label(Language::Ja, MenuItem::CheckUpdate) == "更新を確認する"@,
        item_id(Language::Ja, MenuItem::CheckUpdate) == "check_update"@,
        item_label(Language::Ja, MenuItem::ViewLog) == "ログを見る"@,
        item_id(Language::Ja, MenuItem::ViewLog) == "view_log"@,
        item_label(Language::Ja, MenuItem::Restart) == "アプリの再起動"@,
        item_id(Language::Ja, MenuItem::Restart) == "restart"@,
        item_label(Language::Ja, MenuItem::Quit) == "退出する"@,
        item_id(Language::Ja, MenuItem::Quit) == "quit"@,
        item_label(Language::Ja, MenuItem::AutoCopy) == "自動コピー"@,
        item_id(Language::Ja, MenuItem::AutoCopy) == "自動コピー"@,
        item_label(Language::Ko, MenuItem::InputTranslate) == "입력 번역"@,
        item_id(Language::Ko, MenuItem::InputTranslate) == "input_translate"@,
        item_label(Language::Ko, MenuItem::ClipboardMonitor) == "감청 전단판"@,
        item_id(Language::Ko, MenuItem::ClipboardMonitor) == "clipboard_monitor"@,
        item_label(Language::Ko, MenuItem::CopySource) == "원문"@,
        item_id(Language::Ko, MenuItem::CopySource) == "copy_source"@,
        item_label(Language::Ko, MenuItem::CopyTarget) == "번역문"@,
        item_id(Language::Ko, MenuItem::CopyTarget) == "copy_target"@,
        item_label(Language::Ko, MenuItem::CopySourceTarget) == "원문+번역문"@,
        item_id(Language::Ko, MenuItem::CopySourceTarget) == "copy_source_target"@,
        item_label(Language::Ko, MenuItem::CopyDisable) == "닫기"@,
        item_id(Language::Ko, MenuItem::CopyDisable) == "copy_disable"@,
        item_label(Language::Ko, MenuItem::OcrRecognize) == "문자인식"@,
        item_id(Language::Ko, MenuItem::OcrRecognize) == "ocr_recognize"@,
        item_label(Language::Ko, MenuItem::OcrTranslate) == "스크린샷 번역"@,
        item_id(Language::Ko, MenuItem::OcrTranslate) == "ocr_translate"@,
        item_label(Language::Ko, MenuItem::Config) == "기본 설정"@,
        item_id(Language::Ko, MenuItem::Config) == "config"@,
        item_label(Language::Ko, MenuItem::CheckUpdate) == "업데이트 확인"@,
        item_id(Language::Ko, MenuItem::CheckUpdate) == "check_update"@,
        item_label(Language::Ko, MenuItem::ViewLog) == "로그 보기"@,
        item_id(Language::Ko, MenuItem::ViewLog) == "view_log"@,
        item_label(Language::Ko, MenuItem::Restart) == "응용 프로그램 다시 시작"@,
        item_id(Language::Ko, MenuItem::Restart) == "restart"@,
        item_label(Language::Ko, MenuItem::Quit) == "퇴출"@,
        item_id(Language::Ko, MenuItem::Quit) == "quit"@,
        item_label(Language::Ko, MenuItem::AutoCopy) == "자동 복사"@,
        item_id(Language::Ko, MenuItem::AutoCopy) == "자동 복사"@,
        item_label(Language::Fr, MenuItem::InputTranslate) == "Traduction d'entrée"@,
        item_id(Language::Fr, MenuItem::InputTranslate) == "input_translate"@,
        item_label(Language::Fr, MenuItem::ClipboardMonitor) == "Surveiller le presse-papiers"@,
        item_id(Language::Fr, MenuItem::ClipboardMonitor) == "clipboard_monitor"@,
        item_label(Language::Fr, MenuItem::CopySource) == "Source"@,
        item_id(Language::Fr, MenuItem::CopySource) == "copy_source"@,
        item_label(Language::Fr, MenuItem::CopyTarget) == "Cible"@,
        item_id(Language::Fr, MenuItem::CopyTarget) == "copy_target"@,
        item_label(Language::Fr, MenuItem::CopySourceTarget) == "Source+Cible"@,
        item_id(Language::Fr, MenuItem::CopySourceTarget) == "copy_source_target"@,
        item_label(Language::Fr, MenuItem::CopyDisable) == "Désactiver"@,
        item_id(Language::Fr, MenuItem::CopyDisable) == "copy_disable"@,
        item_label(Language::Fr, MenuItem::OcrRecognize) == "Reconnaissance de texte"@,
        item_id(Language::Fr, MenuItem::OcrRecognize) == "ocr_recognize"@,
        item_label(Language::Fr, MenuItem::OcrTranslate) == "Traduction d'image"@,
        item_id(Language::Fr, MenuItem::OcrTranslate) == "ocr_translate"@,
        item_label(Language::Fr, MenuItem::Config) == "Paramètres"@,
        item_id(Language::Fr, MenuItem::Config) == "config"@,
        item_label(Language::Fr, MenuItem::CheckUpdate) == "Vérifier les mises à jour"@,
        item_id(Language::Fr, MenuItem::CheckUpdate) == "check_update"@,
        item_label(Language::Fr, MenuItem::ViewLog) == "Voir le journal"@,
        item_id(Language::Fr, MenuItem::ViewLog) == "view_log"@,
        item_label(Language::Fr, MenuItem::Restart) == "Redémarrer l'application"@,
        item_id(Language::Fr, MenuItem::Restart) == "restart"@,
        item_label(Language::Fr, MenuItem::Quit) == "Quitter"@,
        item_id(Language::Fr, MenuItem::Quit) == "quit"@,
        item_label(Language::Fr, MenuItem::AutoCopy) == "Copier automatiquement"@,
        item_id(Language::Fr, MenuItem::AutoCopy) == "Copier automatiquement"@,
        item_label(Language::De, MenuItem::InputTranslate) == "Eingabeübersetzung"@,
        item_id(Language::De, MenuItem::InputTranslate) == "input_translate"@,
        item_label(Language::De, MenuItem::ClipboardMonitor) == "Zwischenablage überwachen"@,
        item_id(Language::De, MenuItem::ClipboardMonitor) == "clipboard_monitor"@,
        item_label(Language::De, MenuItem::CopySource) == "Quelle"@,
        item_id(Language::De, MenuItem::CopySource) == "copy_source"@,
        item_label(Language::De, MenuItem::CopyTarget) == "Ziel"@,
        item_id(Language::De, MenuItem::CopyTarget) == "copy_target"@,
        item_label(Language::De, MenuItem::CopySourceTarget) == "Quelle+Ziel"@,
        item_id(Language::De, MenuItem::CopySourceTarget) == "copy_source_target"@,
        item_label(Language::De, MenuItem::CopyDisable) == "Deaktivieren"@,
        item_id(Language::De, MenuItem::CopyDisable) == "copy_disable"@,
        item_label(Language::De, MenuItem::OcrRecognize) == "Texterkennung"@,
        item_id(Language::De, MenuItem::OcrRecognize) == "ocr_recognize"@,
        item_label(Language::De, MenuItem::OcrTranslate) == "Bildübersetzung"@,
        item_id(Language::De, MenuItem::OcrTranslate) == "ocr_translate"@,
        item_label(Language::De, MenuItem::Config) == "Einstellungen"@,
        item_id(Language::De, MenuItem::Config) == "config"@,
        item_label(Language::De, MenuItem::CheckUpdate) == "Auf Updates prüfen"@,
        item_id(Language::De, MenuItem::CheckUpdate) == "check_update"@,
        item_label(Language::De, MenuItem::ViewLog) == "Protokoll anzeigen"@,
        item_id(Language::De, MenuItem::ViewLog) == "view_log"@,
        item_label(Language::De, MenuItem::Restart) == "Anwendung neu starten"@,
        item_id(Language::De, MenuItem::Restart) == "restart"@,
        item_label(Language::De, MenuItem::Quit) == "Beenden"@,
        item_id(Language::De, MenuItem::Quit) == "quit"@,
        item_label(Language::De, MenuItem::AutoCopy) == "Automatisch kopieren"@,
        item_id(Language::De, MenuItem::AutoCopy) == "Automatisch kopieren"@,
        item_label(Language::Ru, MenuItem::InputTranslate) == "Ввод перевода"@,
        item_id(Language::Ru, MenuItem::InputTranslate) == "input_translate"@,
        item_label(Language::Ru, MenuItem::ClipboardMonitor) == "Следить за буфером обмена"@,
        item_id(Language::Ru, MenuItem::ClipboardMonitor) == "clipboard_monitor"@,
        item_label(Language::Ru, MenuItem::CopySource) == "Источник"@,
        item_id(Language::Ru, MenuItem::CopySource) == "copy_source"@,
        item_label(Language::Ru, MenuItem::CopyTarget) == "Цель"@,
        item_id(Language::Ru, MenuItem::CopyTarget) == "copy_target"@,
        item_label(Language::Ru, MenuItem::CopySourceTarget) == "Источник+Цель"@,
        item_id(Language::Ru, MenuItem::CopySourceTarget) == "copy_source_target"@,
        item_label(Language::Ru, MenuItem::CopyDisable) == "Отключить"@,
        item_id(Language::Ru, MenuItem::CopyDisable) == "copy_disable"@,
        item_label(Language::Ru, MenuItem::OcrRecognize) == "Распознавание текста"@,
        item_id(Language::Ru, MenuItem::OcrRecognize) == "ocr_recognize"@,
        item_label(Language::Ru, MenuItem::OcrTranslate) == "Перевод изображения"@,
        item_id(Language::Ru, MenuItem::OcrTranslate) == "ocr_translate"@,
        item_label(Language::Ru, MenuItem::Config) == "Настройки"@,
        item_id(Language::Ru, MenuItem::Config) == "config"@,
        item_label(Language::Ru, MenuItem::CheckUpdate) == "Проверить обновления"@,
        item_id(Language::Ru, MenuItem::CheckUpdate) == "check_update"@,
        item_label(Language::Ru, MenuItem::ViewLog) == "Просмотр журнала"@,
        item_id(Language::Ru, MenuItem::ViewLog) == "view_log"@,
        item_label(Language::Ru, MenuItem::Restart) == "Перезапустить приложение"@,
        item_id(Language::Ru, MenuItem::Restart) == "restart"@,
        item_label(Language::Ru, MenuItem::Quit) == "Выйти"@,
        item_id(Language::Ru, MenuItem::Quit) == "quit"@,
        item_label(Language::Ru, MenuItem::AutoCopy) == "Автоматически копировать"@,
        item_id(Language::Ru, MenuItem::AutoCopy) == "Автоматически копировать"@,
        item_label(Language::PtBr, MenuItem::InputTranslate) == "Tradução de entrada"@,
        item_id(Language::PtBr, MenuItem::InputTranslate) == "input_translate"@,
        item_label(Language::PtBr, MenuItem::ClipboardMonitor) == "Monitorar área de transferência"@,
        item_id(Language::PtBr, MenuItem::ClipboardMonitor) == "clipboard_monitor"@,
        item_label(Language::PtBr, MenuItem::CopySource) == "Fonte"@,
        item_id(Language::PtBr, MenuItem::CopySource) == "copy_source"@,
        item_label(Language::PtBr, MenuItem::CopyTarget) == "Alvo"@,
        item_id(Language::PtBr, MenuItem::CopyTarget) == "copy_target"@,
        item_label(Language::PtBr, MenuItem::CopySourceTarget) == "Fonte+Alvo"@,
        item_id(Language::PtBr, MenuItem::CopySourceTarget) == "copy_source_target"@,
        item_label(Language::PtBr, MenuItem::CopyDisable) == "Desativar"@,
        item_id(Language::PtBr, MenuItem::CopyDisable) == "copy_disable"@,
        item_label(Language::PtBr, MenuItem::OcrRecognize) == "Reconhecimento de texto"@,
        item_id(Language::PtBr, MenuItem::OcrRecognize) == "ocr_recognize"@,
        item_label(Language::PtBr, MenuItem::OcrTranslate) == "Tradução de imagem"@,
        item_id(Language::PtBr, MenuItem::OcrTranslate) == "ocr_translate"@,
        item_label(Language::PtBr, MenuItem::Config) == "Configurações"@,
        item_id(Language::PtBr, MenuItem::Config) == "config"@,
        item_label(Language::PtBr, MenuItem::CheckUpdate) == "Verificar atualizações"@,
        item_id(Language::PtBr, MenuItem::CheckUpdate) == "check_update"@,
        item_label(Language::PtBr, MenuItem::ViewLog) == "Ver registro"@,
        item_id(Language::PtBr, MenuItem::ViewLog) == "view_log"@,
        item_label(Language::PtBr, MenuItem::Restart) == "Reiniciar aplicativo"@,
        item_id(Language::PtBr, MenuItem::Restart) == "restart"@,
        item_label(Language::PtBr, MenuItem::Quit) == "Sair"@,
        item_id(Language::PtBr, MenuItem::Quit) == "quit"@,
        item_label(Language::PtBr, MenuItem::AutoCopy) == "Copiar automaticamente"@,
        item_id(Language::PtBr, MenuItem::AutoCopy) == "Copiar automaticamente"@,
        item_label(Language::Fa, MenuItem::InputTranslate) == "ترجمه ورودی"@,
        item_id(Language::Fa, MenuItem::InputTranslate) == "input_translate"@,
        item_label(Language::Fa, MenuItem::ClipboardMonitor) == "نظارت بر کلیپ بورد"@,
        item_id(Language::Fa, MenuItem::ClipboardMonitor) == "clipboard_monitor"@,
        item_label(Language::Fa, MenuItem::CopySource) == "منبع"@,
        item_id(Language::Fa, MenuItem::CopySource) == "copy_source"@,
        item_label(Language::Fa, MenuItem::CopyTarget) == "هدف"@,
        item_id(Language::Fa, MenuItem::CopyTarget) == "copy_target"@,
        item_label(Language::Fa, MenuItem::CopySourceTarget) == "منبع+هدف"@,
        item_id(Language::Fa, MenuItem::CopySourceTarget) == "copy_source_target"@,
        item_label(Language::Fa, MenuItem::CopyDisable) == "غیرفعال"@,
        item_id(Language::Fa, MenuItem::CopyDisable) == "copy_disable"@,
        item_label(Language::Fa, MenuItem::OcrRecognize) == "تشخیص متن"@,
        item_id(Language::Fa, MenuItem::OcrRecognize) == "ocr_recognize"@,
        item_label(Language::Fa, MenuItem::OcrTranslate) == "ترجمه تصویر"@,
        item_id(Language::Fa, MenuItem::OcrTranslate) == "ocr_translate"@,
        item_label(Language::Fa, MenuItem::Config) == "تنظیمات"@,
        item_id(Language::Fa, MenuItem::Config) == "config"@,
        item_label(Language::Fa, MenuItem::CheckUpdate) == "بررسی به روزرسانی"@,
        item_id(Language::Fa, MenuItem::CheckUpdate) == "check_update"@,
        item_label(Language::Fa, MenuItem::ViewLog) == "مشاهده گزارش"@,
        item_id(Language::Fa, MenuItem::ViewLog) == "view_log"@,
        item_label(Language::Fa, MenuItem::Restart) == "راه اندازی مجدد"@,
        item_id(Language::Fa, MenuItem::Restart) == "restart"@,
        item_label(Language::Fa, MenuItem::Quit) == "خروج"@,
        item_id(Language::Fa, MenuItem::Quit) == "quit"@,
        item_label(Language::Fa, MenuItem::AutoCopy) == "کپی خودکار"@,
        item_id(Language::Fa, MenuItem::AutoCopy) == "کپی خودکار"@,
        item_label(Language::Uk, MenuItem::InputTranslate) == "Введення перекладу"@,
        item_id(Language::Uk, MenuItem::InputTranslate) == "input_translate"@,
        item_label(Language::Uk, MenuItem::ClipboardMonitor) == "Спостерігати за буфером обміну"@,
        item_id(Language::Uk, MenuItem::ClipboardMonitor) == "clipboard_monitor"@,
        item_label(Language::Uk, MenuItem::CopySource) == "Джерело"@,
        item_id(Language::Uk, MenuItem::CopySource) == "copy_source"@,
        item_label(Language::Uk, MenuItem::CopyTarget) == "Ціль"@,
        item_id(Language::Uk, MenuItem::CopyTarget) == "copy_target"@,
        item_label(Language::Uk, MenuItem::CopySourceTarget) == "Джерело+Ціль"@,
        item_id(Language::Uk, MenuItem::CopySourceTarget) == "copy_source_target"@,
        item_label(Language::Uk, MenuItem::CopyDisable) == "Вимкнути"@,
        item_id(Language::Uk, MenuItem::CopyDisable) == "copy_disable"@,
        item_label(Language::Uk, MenuItem::OcrRecognize) == "Розпізнавання тексту"@,
        item_id(Language::Uk, MenuItem::OcrRecognize) == "ocr_recognize"@,
        item_label(Language::Uk, MenuItem::OcrTranslate) == "Переклад зображення"@,
        item_id(Language::Uk, MenuItem::OcrTranslate) == "ocr_translate"@,
        item_label(Language::Uk, MenuItem::Config) == "Налаштування"@,
        item_id(Language::Uk, MenuItem::Config) == "config"@,
        item_label(Language::Uk, MenuItem::CheckUpdate) == "Перевірити оновлення"@,
        item_id(Language::Uk, MenuItem::CheckUpdate) == "check_update"@,
        item_label(Language::Uk, MenuItem::ViewLog) == "Переглянути журнал"@,
        item_id(Language::Uk, MenuItem::ViewLog) == "view_log"@,
        item_label(Language::Uk, MenuItem::Restart) == "Перезапустити додаток"@,
        item_id(Language::Uk, MenuItem::Restart) == "restart"@,
        item_label(Language::Uk, MenuItem::Quit) == "Вийти"@,
        item_id(Language::Uk, MenuItem::Quit) == "quit"@,
        item_label(Language::Uk, MenuItem::AutoCopy) == "Автоматично копіювати"@,
        item_id(Language::Uk, MenuItem::AutoCopy) == "Автоматично копіювати"@,
{
}

/// What each id of the menu runs: `ocr_recognize` text recognition,
/// `ocr_translate` screenshot translation, each `copy_` id its copy mode, and
/// so on.
pub proof fn law_menu_commands()
    ensures
        menu_command("input_translate"@) == Some(MenuCommand::InputTranslate),
        menu_command("clipboard_monitor"@) == Some(MenuCommand::ToggleClipboardMonitor),
        menu_command("copy_source"@) == Some(MenuCommand::SetCopyMode(CopyMode::Source)),
        menu_command("copy_target"@) == Some(MenuCommand::SetCopyMode(CopyMode::Target)),
        menu_command("copy_source_target"@) == Some(MenuCommand::SetCopyMode(CopyMode::SourceTarget)),
        menu_command("copy_disable"@) == Some(MenuCommand::SetCopyMode(CopyMode::Disable)),
        menu_command("ocr_recognize"@) == Some(MenuCommand::OcrRecognize),
        menu_command("ocr_translate"@) == Some(MenuCommand::OcrTranslate),
        menu_command("config"@) == Some(MenuCommand::OpenConfig),
        menu_command("check_update"@) == Some(MenuCommand::CheckUpdate),
        menu_command("view_log"@) == Some(MenuCommand::ViewLog),
        menu_command("restart"@) == Some(MenuCommand::Restart),
        menu_command("quit"@) == Some(MenuCommand::Quit),
{
    law_menu_entries_handled(Language::En, MenuItem::InputTranslate, false, Seq::<char>::empty());
    law_menu_entries_handled(Language::En, MenuItem::ClipboardMonitor, false, Seq::<char>::empty());
    law_menu_entries_handled(Language::En, MenuItem::CopySource, false, Seq::<char>::empty());
    law_menu_entries_handled(Language::En, MenuItem::CopyTarget, false, Seq::<char>::empty());
    law_menu_entries_handled(Language::En, MenuItem::CopySourceTarget, false, Seq::<char>::empty());
    law_menu_entries_handled(Language::En, MenuItem::CopyDisable, false, Seq::<char>::empty());
    law_menu_entries_handled(Language::En, MenuItem::OcrRecognize, false, Seq::<char>::empty());
    law_menu_entries_handled(Language::En, MenuItem::OcrTranslate, false, Seq::<char>::empty());
    law_menu_entries_handled(Language::En, MenuItem::Config, false, Seq::<char>::empty());
    law_menu_entries_handled(Language::En, MenuItem::CheckUpdate, false, Seq::<char>::empty());
    law_menu_entries_handled(Language::En, MenuItem::ViewLog, false, Seq::<char>::empty());
    law_menu_entries_handled(Language::En, MenuItem::Restart, false, Seq::<char>::empty());
    law_menu_entries_handled(Language::En, MenuItem::Quit, false, Seq::<char>::empty());
}

/// What a click on the tray icon opens for each configured event: the
/// settings for `config`, the input window for `translate`, the windows of
/// text recognition and screenshot translation for `ocr_recognize` and
/// `ocr_translate`, and nothing for `disable`.
pub proof fn law_tray_click_windows()
    ensures
        tray_click_window("config"@) == Some(WindowCommand::Config),
        tray_click_window("translate"@) == Some(WindowCommand::InputTranslate),
        tray_click_window("ocr_recognize"@) == Some(WindowCommand::OcrRecognize),
        tray_click_window("ocr_translate"@) == Some(WindowCommand::OcrTranslate),
        tray_click_window("disable"@) is None,
{
    reveal_strlit("config");
    assert("config"@.len() == 6);
    reveal_strlit("translate");
    assert("translate"@.len() == 9);
    reveal_strlit("ocr_recognize");
    assert("ocr_recognize"@.len() == 13);
    reveal_strlit("ocr_translate");
    assert("ocr_translate"@.len() == 13);
    reveal_strlit("disable");
    assert("disable"@.len() == 7);
    assert("config"@[0] != "translate"@[0]);
    assert("config"@[0] != "ocr_recognize"@[0]);
    assert("config"@[0] != "ocr_translate"@[0]);
    assert("translate"@[0] != "ocr_recognize"@[0]);
    assert("translate"@[0] != "ocr_translate"@[0]);
    assert("ocr_recognize"@[4] != "ocr_translate"@[4]);
}

} // verus!
