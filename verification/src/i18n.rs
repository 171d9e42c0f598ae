//! User-interface texts in the languages the application offers.

pub mod keys;

use crate::text::{contains_text, has_substring, lowercase, lowercase_of, replace_text, replaced, same_text};
use vstd::prelude::*;

verus! {

/// A language the user interface can be shown in.
#[derive(Debug, Clone, Copy, PartialEq, Eq, Hash, Structural)]
pub enum Language {
    English,
    Chinese,
}

/// The operating system whose locale report is being read.
#[derive(Debug, Clone, Copy, PartialEq, Eq, Structural)]
pub enum Platform {
    /// The report is the name of the UI culture.
    Windows,
    /// The report is the list of preferred languages.
    MacOs,
    /// The report is the value of `LANG`.
    Linux,
    /// No report is read on any other system.
    Other,
}

/// The names under which Chinese is recognised, compared after lower-casing.
pub open spec fn names_chinese(lowered: Seq<char>) -> bool {
    ||| lowered == "chinese"@
    ||| lowered == "中文"@
    ||| lowered == "zh"@
    ||| lowered == "zh_cn"@
    ||| lowered == "zh-cn"@
}

/// The language a name stands for: Chinese for its five names in any case,
/// English for everything else.
pub open spec fn language_named(name: Seq<char>) -> Language {
    if names_chinese(lowercase_of(name)) {
        Language::Chinese
    } else {
        Language::English
    }
}

/// The language a system's locale report asks for.
pub open spec fn detected_language(platform: Platform, report: Option<Seq<char>>) -> Language {
    match report {
        None => Language::English,
        Some(text) => {
            let lowered = lowercase_of(text);
            let chinese = match platform {
                Platform::Windows => has_substring(lowered, "zh"@) || has_substring(
                    lowered,
                    "chinese"@,
                ),
                Platform::MacOs => has_substring(lowered, "zh"@) || has_substring(
                    text,
                    "中文"@,
                ),
                Platform::Linux => has_substring(lowered, "zh"@),
                Platform::Other => false,
            };
            if chinese {
                Language::Chinese
            } else {
                Language::English
            }
        },
    }
}

/// The English text filed under a key; a key without a text stands for itself.
pub open spec fn english_text(key: Seq<char>) -> Seq<char> {
    if key == keys::APP_NAME@ {
        "Impactor"@
    } else if key == keys::BACK@ {
        "Back"@
    } else if key == keys::NEXT@ {
        "Next"@
    } else if key == keys::CANCEL@ {
        "Cancel"@
    } else if key == keys::VERIFY@ {
        "Verify"@
    } else if key == keys::SETTINGS@ {
        "Settings"@
    } else if key == keys::DEVICE_UTILITIES@ {
        "Device Utilities"@
    } else if key == keys::IMPORT_IPA@ {
        "Import .ipa / .tipa"@
    } else if key == keys::GIVE_STAR@ {
        "Give me a ⭐ star :3"@
    } else if key == keys::NO_DEVICE@ {
        "No Device"@
    } else if key == keys::IDLE@ {
        "Idle."@
    } else if key == keys::NAME@ {
        "Name:"@
    } else if key == keys::IDENTIFIER@ {
        "Identifier:"@
    } else if key == keys::VERSION@ {
        "Version:"@
    } else if key == keys::SIGNING_OPTIONS@ {
        "Signing Options"@
    } else if key == keys::INSTALL_OPTIONS@ {
        "Install Options"@
    } else if key == keys::BUNDLE_IDENTIFIER@ {
        "Bundle identifier"@
    } else if key == keys::GENERAL@ {
        "General:"@
    } else if key == keys::ADVANCED@ {
        "Advanced:"@
    } else if key == keys::SUPPORT_OLDER_VERSIONS@ {
        "Support older versions (7+)"@
    } else if key == keys::FORCE_FILE_SHARING@ {
        "Force File Sharing"@
    } else if key == keys::FORCE_IPAD_FULLSCREEN@ {
        "Force iPad Fullscreen"@
    } else if key == keys::FORCE_GAME_MODE@ {
        "Force Game Mode"@
    } else if key == keys::FORCE_PRO_MOTION@ {
        "Force Pro Motion"@
    } else if key == keys::ONLY_REGISTER_MAIN_BUNDLE@ {
        "Only register main bundle"@
    } else if key == keys::FORCE_LIQUID_GLASS@ {
        "Force Liquid Glass (26+)"@
    } else if key == keys::INSTALL@ {
        "Install"@
    } else if key == keys::EXPORT@ {
        "Export"@
    } else if key == keys::APPLE_ID@ {
        "Apple ID"@
    } else if key == keys::ADHOC@ {
        "Adhoc"@
    } else if key == keys::NO_MODIFY@ {
        "No Modify"@
    } else if key == keys::TWEAKS@ {
        "Tweaks"@
    } else if key == keys::ADD_TWEAK@ {
        "Add Tweak"@
    } else if key == keys::REMOVE_TWEAK@ {
        "Remove Tweak"@
    } else if key == keys::ADD_BUNDLE@ {
        "Add Bundle"@
    } else if key == keys::NO_TWEAKS_ADDED@ {
        "No tweaks added"@
    } else if key == keys::REMOVE@ {
        "Remove"@
    } else if key == keys::NO_PACKAGE_SELECTED@ {
        "No package selected"@
    } else if key == keys::GO_BACK_SELECT_FILE@ {
        "Go back and select a file"@
    } else if key == keys::MODE@ {
        "Mode:"@
    } else if key == keys::SELECT_MODE@ {
        "Select mode"@
    } else if key == keys::SIGNING_METHOD@ {
        "Signing:"@
    } else if key == keys::SELECT_SIGNING_METHOD@ {
        "Select signing method"@
    } else if key == keys::SIGN_ONLY_DESCRIPTION@ {
        "Sign and export (no installation)"@
    } else if key == keys::INSTALL_DESCRIPTION@ {
        "Sign and install to device"@
    } else if key == keys::TWEAK_FILES@ {
        "Tweak files"@
    } else if key == keys::SELECT_TWEAK_FILE@ {
        "Select Tweak File"@
    } else if key == keys::SELECT_BUNDLE_FOLDER@ {
        "Select Bundle Folder"@
    } else if key == keys::ACCOUNTS@ {
        "Accounts"@
    } else if key == keys::ADD_ACCOUNT@ {
        "Add Account"@
    } else if key == keys::REMOVE_SELECTED@ {
        "Remove Selected"@
    } else if key == keys::EXPORT_P12@ {
        "Export P12"@
    } else if key == keys::LANGUAGE@ {
        "Language"@
    } else if key == keys::SELECT_LANGUAGE@ {
        "Select Language"@
    } else if key == keys::LOADING_ACCOUNTS@ {
        "Loading accounts..."@
    } else if key == keys::NO_ACCOUNTS_ADDED@ {
        "No accounts added yet"@
    } else if key == keys::SIGN_IN_WITH_APPLE_ID@ {
        "Sign in with Apple ID"@
    } else if key == keys::EMAIL@ {
        "Email"@
    } else if key == keys::PASSWORD@ {
        "Password"@
    } else if key == keys::TWO_FACTOR_CODE@ {
        "2FA Code"@
    } else if key == keys::SUBMIT@ {
        "Submit"@
    } else if key == keys::EMAIL_REQUIRED@ {
        "Email required"@
    } else if key == keys::PASSWORD_REQUIRED@ {
        "Password required"@
    } else if key == keys::CODE_REQUIRED@ {
        "Code required"@
    } else if key == keys::PREPARING@ {
        "Preparing..."@
    } else if key == keys::INSTALLING@ {
        "Installing..."@
    } else if key == keys::SIGNING@ {
        "Signing..."@
    } else if key == keys::COMPLETE@ {
        "Complete!"@
    } else if key == keys::FAILED@ {
        "Failed"@
    } else if key == keys::INSTALLATION_COMPLETE@ {
        "Installation complete!"@
    } else if key == keys::INSTALLATION_FAILED@ {
        "Installation failed"@
    } else if key == keys::ERROR_EMAIL_PASSWORD_REQUIRED@ {
        "Email and password required"@
    } else if key == keys::ERROR_NO_DEVICE_SELECTED@ {
        "No device selected"@
    } else if key == keys::ERROR_NO_PACKAGE_SELECTED@ {
        "No package selected"@
    } else if key == keys::ERROR_NO_ACCOUNT_SELECTED@ {
        "No account selected"@
    } else if key == keys::ERROR_LOGIN_FAILED@ {
        "Login failed"@
    } else if key == keys::IOS_APP_PACKAGE@ {
        "iOS App Package"@
    } else if key == keys::SELECT_IPA_TIPA_FILE@ {
        "Select IPA/TIPA file"@
    } else {
        key
    }
}

/// The Chinese text filed under a key; a key without a text stands for itself.
pub open spec fn chinese_text(key: Seq<char>) -> Seq<char> {
    if key == keys::APP_NAME@ {
        "Impactor"@
    } else if key == keys::BACK@ {
        "返回"@
    } else if key == keys::NEXT@ {
        "下一步"@
    } else if key == keys::CANCEL@ {
        "取消"@
    } else if key == keys::VERIFY@ {
        "验证"@
    } else if key == keys::SETTINGS@ {
        "设置"@
    } else if key == keys::DEVICE_UTILITIES@ {
        "设备工具"@
    } else if key == keys::IMPORT_IPA@ {
        "导入 .ipa / .tipa"@
    } else if key == keys::GIVE_STAR@ {
        "给我个⭐星吧 :3"@
    } else if key == keys::NO_DEVICE@ {
        "无设备"@
    } else if key == keys::IDLE@ {
        "空闲。"@
    } else if key == keys::NAME@ {
        "名称："@
    } else if key == keys::IDENTIFIER@ {
        "标识符："@
    } else if key == keys::VERSION@ {
        "版本："@
    } else if key == keys::SIGNING_OPTIONS@ {
        "签名选项"@
    } else if key == keys::INSTALL_OPTIONS@ {
        "安装选项"@
    } else if key == keys::BUNDLE_IDENTIFIER@ {
        "Bundle 标识符"@
    } else if key == keys::GENERAL@ {
        "常规："@
    } else if key == keys::ADVANCED@ {
        "高级："@
    } else if key == keys::SUPPORT_OLDER_VERSIONS@ {
        "支持旧版本 (7+)"@
    } else if key == keys::FORCE_FILE_SHARING@ {
        "强制文件共享"@
    } else if key == keys::FORCE_IPAD_FULLSCREEN@ {
        "强制 iPad 全屏"@
    } else if key == keys::FORCE_GAME_MODE@ {
        "强制游戏模式"@
    } else if key == keys::FORCE_PRO_MOTION@ {
        "强制 Pro Motion"@
    } else if key == keys::ONLY_REGISTER_MAIN_BUNDLE@ {
        "仅注册主 bundle"@
    } else if key == keys::FORCE_LIQUID_GLASS@ {
        "强制 Liquid Glass (26+)"@
    } else if key == keys::INSTALL@ {
        "安装"@
    } else if key == keys::EXPORT@ {
        "导出"@
    } else if key == keys::APPLE_ID@ {
        "Apple ID"@
    } else if key == keys::ADHOC@ {
        "Adhoc"@
    } else if key == keys::NO_MODIFY@ {
        "不修改"@
    } else if key == keys::TWEAKS@ {
        "Tweaks"@
    } else if key == keys::ADD_TWEAK@ {
        "添加 Tweak"@
    } else if key == keys::REMOVE_TWEAK@ {
        "移除 Tweak"@
    } else if key == keys::ADD_BUNDLE@ {
        "添加 Bundle"@
    } else if key == keys::NO_TWEAKS_ADDED@ {
        "未添加 Tweak"@
    } else if key == keys::REMOVE@ {
        "移除"@
    } else if key == keys::NO_PACKAGE_SELECTED@ {
        "未选择包"@
    } else if key == keys::GO_BACK_SELECT_FILE@ {
        "返回并选择文件"@
    } else if key == keys::MODE@ {
        "模式："@
    } else if key == keys::SELECT_MODE@ {
        "选择模式"@
    } else if key == keys::SIGNING_METHOD@ {
        "签名："@
    } else if key == keys::SELECT_SIGNING_METHOD@ {
        "选择签名方式"@
    } else if key == keys::SIGN_ONLY_DESCRIPTION@ {
        "签名并导出（不安装）"@
    } else if key == keys::INSTALL_DESCRIPTION@ {
        "签名并安装到设备"@
    } else if key == keys::TWEAK_FILES@ {
        "Tweak 文件"@
    } else if key == keys::SELECT_TWEAK_FILE@ {
        "选择 Tweak 文件"@
    } else if key == keys::SELECT_BUNDLE_FOLDER@ {
        "选择 Bundle 文件夹"@
    } else if key == keys::ACCOUNTS@ {
        "账户"@
    } else if key == keys::ADD_ACCOUNT@ {
        "添加账户"@
    } else if key == keys::REMOVE_SELECTED@ {
        "移除选中"@
    } else if key == keys::EXPORT_P12@ {
        "导出 P12"@
    } else if key == keys::LANGUAGE@ {
        "语言"@
    } else if key == keys::SELECT_LANGUAGE@ {
        "选择语言"@
    } else if key == keys::LOADING_ACCOUNTS@ {
        "正在加载账户..."@
    } else if key == keys::NO_ACCOUNTS_ADDED@ {
        "尚未添加账户"@
    } else if key == keys::SIGN_IN_WITH_APPLE_ID@ {
        "使用 Apple ID 登录"@
    } else if key == keys::EMAIL@ {
        "电子邮件"@
    } else if key == keys::PASSWORD@ {
        "密码"@
    } else if key == keys::TWO_FACTOR_CODE@ {
        "双重验证码"@
    } else if key == keys::SUBMIT@ {
        "提交"@
    } else if key == keys::EMAIL_REQUIRED@ {
        "需要电子邮件"@
    } else if key == keys::PASSWORD_REQUIRED@ {
        "需要密码"@
    } else if key == keys::CODE_REQUIRED@ {
        "需要验证码"@
    } else if key == keys::PREPARING@ {
        "准备中..."@
    } else if key == keys::INSTALLING@ {
        "安装中..."@
    } else if key == keys::SIGNING@ {
        "签名中..."@
    } else if key == keys::COMPLETE@ {
        "完成！"@
    } else if key == keys::FAILED@ {
        "失败"@
    } else if key == keys::INSTALLATION_COMPLETE@ {
        "安装完成！"@
    } else if key == keys::INSTALLATION_FAILED@ {
        "安装失败"@
    } else if key == keys::ERROR_EMAIL_PASSWORD_REQUIRED@ {
        "需要电子邮件和密码"@
    } else if key == keys::ERROR_NO_DEVICE_SELECTED@ {
        "未选择设备"@
    } else if key == keys::ERROR_NO_PACKAGE_SELECTED@ {
        "未选择包"@
    } else if key == keys::ERROR_NO_ACCOUNT_SELECTED@ {
        "未选择账户"@
    } else if key == keys::ERROR_LOGIN_FAILED@ {
        "登录失败"@
    } else if key == keys::IOS_APP_PACKAGE@ {
        "iOS 应用包"@
    } else if key == keys::SELECT_IPA_TIPA_FILE@ {
        "选择 IPA/TIPA 文件"@
    } else {
        key
    }
}

/// The text filed under a key in a language.
pub open spec fn translation(language: Language, key: Seq<char>) -> Seq<char> {
    match language {
        Language::English => english_text(key),
        Language::Chinese => chinese_text(key),
    }
}

/// The character that writes a single decimal digit.
pub open spec fn digit_char(digit: nat) -> char
    recommends
        digit < 10,
{
    if digit == 0 {
        '0'
    } else if digit == 1 {
        '1'
    } else if digit == 2 {
        '2'
    } else if digit == 3 {
        '3'
    } else if digit == 4 {
        '4'
    } else if digit == 5 {
        '5'
    } else if digit == 6 {
        '6'
    } else if digit == 7 {
        '7'
    } else if digit == 8 {
        '8'
    } else {
        '9'
    }
}

/// A number written in decimal, without leading zeros.
pub open spec fn decimal(n: nat) -> Seq<char>
    decreases n,
{
    if n < 10 {
        seq![digit_char(n)]
    } else {
        decimal(n / 10).push(digit_char(n % 10))
    }
}

/// The placeholder that the argument at `index` fills: the index in braces.
pub open spec fn placeholder(index: nat) -> Seq<char> {
    seq!['{'] + decimal(index) + seq!['}']
}

/// `text` after the first `count` arguments have filled their placeholders,
/// one after the other.
pub open spec fn substituted(text: Seq<char>, args: Seq<Seq<char>>, count: nat) -> Seq<char>
    recommends
        count <= args.len(),
    decreases count,
{
    if count == 0 {
        text
    } else {
        replaced(
            substituted(text, args, (count - 1) as nat),
            placeholder((count - 1) as nat),
            args[count - 1],
        )
    }
}

/// The texts of a sequence of string slices.
pub open spec fn texts_of(args: Seq<&str>) -> Seq<Seq<char>> {
    Seq::new(args.len(), |i: int| args[i]@)
}

/// `format!` of the standard library on one index between literal braces:
/// the index is written in decimal, as `Display` for `usize` does.
#[verifier::external_body]
fn placeholder_for(index: usize) -> (r: String)
    ensures
        r@ == placeholder(index as nat),
{
    format!("{{{}}}", index)
}

impl Language {
    /// Reads a language from one of its names; an unknown name is English.
    pub fn from_str(s: &str) -> (r: Language)
        ensures
            r == language_named(s@),
    {
        let lowered = lowercase(s);
        Self::from_lowercase(lowered.as_str())
    }

    /// Reads a language from one of its names, given in lower case.
    pub fn from_lowercase(name: &str) -> (r: Language)
        ensures
            r == if names_chinese(name@) {
                Language::Chinese
            } else {
                Language::English
            },
    {
        if same_text(name, "chinese") || same_text(name, "中文") || same_text(name, "zh")
            || same_text(name, "zh_cn") || same_text(name, "zh-cn") {
            Language::Chinese
        } else {
            Language::English
        }
    }

    /// The language's name in the language itself.
    pub open spec fn label(self) -> Seq<char> {
        match self {
            Language::English => "English"@,
            Language::Chinese => "中文"@,
        }
    }

    /// The language's two-letter code.
    pub open spec fn code(self) -> Seq<char> {
        match self {
            Language::English => "en"@,
            Language::Chinese => "zh"@,
        }
    }

    /// The language's name in the language itself.
    pub fn as_str(&self) -> (r: &str)
        ensures
            r@ == self.label(),
    {
        match self {
            Language::English => "English",
            Language::Chinese => "中文",
        }
    }

    /// The language's two-letter code.
    pub fn as_code(&self) -> (r: &str)
        ensures
            r@ == self.code(),
    {
        match self {
            Language::English => "en",
            Language::Chinese => "zh",
        }
    }
}

/// The texts of the user interface, in the language currently chosen.
pub struct I18n {
    language: Language,
}

impl I18n {
    /// The language currently chosen.
    pub closed spec fn language(&self) -> Language {
        self.language
    }

    /// Starts in the language that the system's locale report asks for.
    /// `report` is what the platform's locale query gave, `None` when it
    /// gave nothing.
    pub fn new(platform: Platform, report: Option<&str>) -> (r: I18n)
        ensures
            r.language() == detected_language(
                platform,
                match report {
                    Some(text) => Some(text@),
                    None => None,
                },
            ),
    {
        I18n { language: Self::detect_system_language(platform, report) }
    }

    /// Decides the language from a system's locale report.
    pub fn detect_system_language(platform: Platform, report: Option<&str>) -> (r: Language)
        ensures
            r == detected_language(
                platform,
                match report {
                    Some(text) => Some(text@),
                    None => None,
                },
            ),
    {
        match report {
            None => Language::English,
            Some(text) => {
                let lowered = lowercase(text);
                let chinese = match platform {
                    Platform::Windows => contains_text(lowered.as_str(), "zh") || contains_text(
                        lowered.as_str(),
                        "chinese",
                    ),
                    Platform::MacOs => contains_text(lowered.as_str(), "zh") || contains_text(
                        text,
                        "中文",
                    ),
                    Platform::Linux => contains_text(lowered.as_str(), "zh"),
                    Platform::Other => false,
                };
                if chinese {
                    Language::Chinese
                } else {
                    Language::English
                }
            },
        }
    }

    /// Chooses a language.
    pub fn set_language(&mut self, language: Language)
        ensures
            final(self).language() == language,
    {
        self.language = language;
    }

    /// The language currently chosen.
    pub fn get_language(&self) -> (r: Language)
        ensures
            r == self.language(),
    {
        self.language
    }

    /// The text filed under `key` in the chosen language.
    pub fn t(&self, key: &str) -> (r: String)
        ensures
            r@ == translation(self.language(), key@),
    {
        match self.language {
            Language::English => self.get_english(key),
            Language::Chinese => self.get_chinese(key),
        }
    }

    /// The English text filed under `key`.
    pub fn get_english(&self, key: &str) -> (r: String)
        ensures
            r@ == english_text(key@),
    {
        if same_text(key, keys::APP_NAME) {
            "Impactor".to_owned()
        } else if same_text(key, keys::BACK) {
            "Back".to_owned()
        } else if same_text(key, keys::NEXT) {
            "Next".to_owned()
        } else if same_text(key, keys::CANCEL) {
            "Cancel".to_owned()
        } else if same_text(key, keys::VERIFY) {
            "Verify".to_owned()
        } else if same_text(key, keys::SETTINGS) {
            "Settings".to_owned()
        } else if same_text(key, keys::DEVICE_UTILITIES) {
            "Device Utilities".to_owned()
        } else if same_text(key, keys::IMPORT_IPA) {
            "Import .ipa / .tipa".to_owned()
        } else if same_text(key, keys::GIVE_STAR) {
            "Give me a ⭐ star :3".to_owned()
        } else if same_text(key, keys::NO_DEVICE) {
            "No Device".to_owned()
        } else if same_text(key, keys::IDLE) {
            "Idle.".to_owned()
        } else if same_text(key, keys::NAME) {
            "Name:".to_owned()
        } else if same_text(key, keys::IDENTIFIER) {
            "Identifier:".to_owned()
        } else if same_text(key, keys::VERSION) {
            "Version:".to_owned()
        } else if same_text(key, keys::SIGNING_OPTIONS) {
            "Signing Options".to_owned()
        } else if same_text(key, keys::INSTALL_OPTIONS) {
            "Install Options".to_owned()
        } else if same_text(key, keys::BUNDLE_IDENTIFIER) {
            "Bundle identifier".to_owned()
        } else if same_text(key, keys::GENERAL) {
            "General:".to_owned()
        } else if same_text(key, keys::ADVANCED) {
            "Advanced:".to_owned()
        } else if same_text(key, keys::SUPPORT_OLDER_VERSIONS) {
            "Support older versions (7+)".to_owned()
        } else if same_text(key, keys::FORCE_FILE_SHARING) {
            "Force File Sharing".to_owned()
        } else if same_text(key, keys::FORCE_IPAD_FULLSCREEN) {
            "Force iPad Fullscreen".to_owned()
        } else if same_text(key, keys::FORCE_GAME_MODE) {
            "Force Game Mode".to_owned()
        } else if same_text(key, keys::FORCE_PRO_MOTION) {
            "Force Pro Motion".to_owned()
        } else if same_text(key, keys::ONLY_REGISTER_MAIN_BUNDLE) {
            "Only register main bundle".to_owned()
        } else if same_text(key, keys::FORCE_LIQUID_GLASS) {
            "Force Liquid Glass (26+)".to_owned()
        } else if same_text(key, keys::INSTALL) {
            "Install".to_owned()
        } else if same_text(key, keys::EXPORT) {
            "Export".to_owned()
        } else if same_text(key, keys::APPLE_ID) {
            "Apple ID".to_owned()
        } else if same_text(key, keys::ADHOC) {
            "Adhoc".to_owned()
        } else if same_text(key, keys::NO_MODIFY) {
            "No Modify".to_owned()
        } else if same_text(key, keys::TWEAKS) {
            "Tweaks".to_owned()
        } else if same_text(key, keys::ADD_TWEAK) {
            "Add Tweak".to_owned()
        } else if same_text(key, keys::REMOVE_TWEAK) {
            "Remove Tweak".to_owned()
        } else if same_text(key, keys::ADD_BUNDLE) {
            "Add Bundle".to_owned()
        } else if same_text(key, keys::NO_TWEAKS_ADDED) {
            "No tweaks added".to_owned()
        } else if same_text(key, keys::REMOVE) {
            "Remove".to_owned()
        } else if same_text(key, keys::NO_PACKAGE_SELECTED) {
            "No package selected".to_owned()
        } else if same_text(key, keys::GO_BACK_SELECT_FILE) {
            "Go back and select a file".to_owned()
        } else if same_text(key, keys::MODE) {
            "Mode:".to_owned()
        } else if same_text(key, keys::SELECT_MODE) {
            "Select mode".to_owned()
        } else if same_text(key, keys::SIGNING_METHOD) {
            "Signing:".to_owned()
        } else if same_text(key, keys::SELECT_SIGNING_METHOD) {
            "Select signing method".to_owned()
        } else if same_text(key, keys::SIGN_ONLY_DESCRIPTION) {
            "Sign and export (no installation)".to_owned()
        } else if same_text(key, keys::INSTALL_DESCRIPTION) {
            "Sign and install to device".to_owned()
        } else if same_text(key, keys::TWEAK_FILES) {
            "Tweak files".to_owned()
        } else if same_text(key, keys::SELECT_TWEAK_FILE) {
            "Select Tweak File".to_owned()
        } else if same_text(key, keys::SELECT_BUNDLE_FOLDER) {
            "Select Bundle Folder".to_owned()
        } else if same_text(key, keys::ACCOUNTS) {
            "Accounts".to_owned()
        } else if same_text(key, keys::ADD_ACCOUNT) {
            "Add Account".to_owned()
        } else if same_text(key, keys::REMOVE_SELECTED) {
            "Remove Selected".to_owned()
        } else if same_text(key, keys::EXPORT_P12) {
            "Export P12".to_owned()
        } else if same_text(key, keys::LANGUAGE) {
            "Language".to_owned()
        } else if same_text(key, keys::SELECT_LANGUAGE) {
            "Select Language".to_owned()
        } else if same_text(key, keys::LOADING_ACCOUNTS) {
            "Loading accounts...".to_owned()
        } else if same_text(key, keys::NO_ACCOUNTS_ADDED) {
            "No accounts added yet".to_owned()
        } else if same_text(key, keys::SIGN_IN_WITH_APPLE_ID) {
            "Sign in with Apple ID".to_owned()
        } else if same_text(key, keys::EMAIL) {
            "Email".to_owned()
        } else if same_text(key, keys::PASSWORD) {
            "Password".to_owned()
        } else if same_text(key, keys::TWO_FACTOR_CODE) {
            "2FA Code".to_owned()
        } else if same_text(key, keys::SUBMIT) {
            "Submit".to_owned()
        } else if same_text(key, keys::EMAIL_REQUIRED) {
            "Email required".to_owned()
        } else if same_text(key, keys::PASSWORD_REQUIRED) {
            "Password required".to_owned()
        } else if same_text(key, keys::CODE_REQUIRED) {
            "Code required".to_owned()
        } else if same_text(key, keys::PREPARING) {
            "Preparing...".to_owned()
        } else if same_text(key, keys::INSTALLING) {
            "Installing...".to_owned()
        } else if same_text(key, keys::SIGNING) {
            "Signing...".to_owned()
        } else if same_text(key, keys::COMPLETE) {
            "Complete!".to_owned()
        } else if same_text(key, keys::FAILED) {
            "Failed".to_owned()
        } else if same_text(key, keys::INSTALLATION_COMPLETE) {
            "Installation complete!".to_owned()
        } else if same_text(key, keys::INSTALLATION_FAILED) {
            "Installation failed".to_owned()
        } else if same_text(key, keys::ERROR_EMAIL_PASSWORD_REQUIRED) {
            "Email and password required".to_owned()
        } else if same_text(key, keys::ERROR_NO_DEVICE_SELECTED) {
            "No device selected".to_owned()
        } else if same_text(key, keys::ERROR_NO_PACKAGE_SELECTED) {
            "No package selected".to_owned()
        } else if same_text(key, keys::ERROR_NO_ACCOUNT_SELECTED) {
            "No account selected".to_owned()
        } else if same_text(key, keys::ERROR_LOGIN_FAILED) {
            "Login failed".to_owned()
        } else if same_text(key, keys::IOS_APP_PACKAGE) {
            "iOS App Package".to_owned()
        } else if same_text(key, keys::SELECT_IPA_TIPA_FILE) {
            "Select IPA/TIPA file".to_owned()
        } else {
            key.to_owned()
        }
    }

    /// The Chinese text filed under `key`.
    pub fn get_chinese(&self, key: &str) -> (r: String)
        ensures
            r@ == chinese_text(key@),
    {
        if same_text(key, keys::APP_NAME) {
            "Impactor".to_owned()
        } else if same_text(key, keys::BACK) {
            "返回".to_owned()
        } else if same_text(key, keys::NEXT) {
            "下一步".to_owned()
        } else if same_text(key, keys::CANCEL) {
            "取消".to_owned()
        } else if same_text(key, keys::VERIFY) {
            "验证".to_owned()
        } else if same_text(key, keys::SETTINGS) {
            "设置".to_owned()
        } else if same_text(key, keys::DEVICE_UTILITIES) {
            "设备工具".to_owned()
        } else if same_text(key, keys::IMPORT_IPA) {
            "导入 .ipa / .tipa".to_owned()
        } else if same_text(key, keys::GIVE_STAR) {
            "给我个⭐星吧 :3".to_owned()
        } else if same_text(key, keys::NO_DEVICE) {
            "无设备".to_owned()
        } else if same_text(key, keys::IDLE) {
            "空闲。".to_owned()
        } else if same_text(key, keys::NAME) {
            "名称：".to_owned()
        } else if same_text(key, keys::IDENTIFIER) {
            "标识符：".to_owned()
        } else if same_text(key, keys::VERSION) {
            "版本：".to_owned()
        } else if same_text(key, keys::SIGNING_OPTIONS) {
            "签名选项".to_owned()
        } else if same_text(key, keys::INSTALL_OPTIONS) {
            "安装选项".to_owned()
        } else if same_text(key, keys::BUNDLE_IDENTIFIER) {
            "Bundle 标识符".to_owned()
        } else if same_text(key, keys::GENERAL) {
            "常规：".to_owned()
        } else if same_text(key, keys::ADVANCED) {
            "高级：".to_owned()
        } else if same_text(key, keys::SUPPORT_OLDER_VERSIONS) {
            "支持旧版本 (7+)".to_owned()
        } else if same_text(key, keys::FORCE_FILE_SHARING) {
            "强制文件共享".to_owned()
        } else if same_text(key, keys::FORCE_IPAD_FULLSCREEN) {
            "强制 iPad 全屏".to_owned()
        } else if same_text(key, keys::FORCE_GAME_MODE) {
            "强制游戏模式".to_owned()
        } else if same_text(key, keys::FORCE_PRO_MOTION) {
            "强制 Pro Motion".to_owned()
        } else if same_text(key, keys::ONLY_REGISTER_MAIN_BUNDLE) {
            "仅注册主 bundle".to_owned()
        } else if same_text(key, keys::FORCE_LIQUID_GLASS) {
            "强制 Liquid Glass (26+)".to_owned()
        } else if same_text(key, keys::INSTALL) {
            "安装".to_owned()
        } else if same_text(key, keys::EXPORT) {
            "导出".to_owned()
        } else if same_text(key, keys::APPLE_ID) {
            "Apple ID".to_owned()
        } else if same_text(key, keys::ADHOC) {
            "Adhoc".to_owned()
        } else if same_text(key, keys::NO_MODIFY) {
            "不修改".to_owned()
        } else if same_text(key, keys::TWEAKS) {
            "Tweaks".to_owned()
        } else if same_text(key, keys::ADD_TWEAK) {
            "添加 Tweak".to_owned()
        } else if same_text(key, keys::REMOVE_TWEAK) {
            "移除 Tweak".to_owned()
        } else if same_text(key, keys::ADD_BUNDLE) {
            "添加 Bundle".to_owned()
        } else if same_text(key, keys::NO_TWEAKS_ADDED) {
            "未添加 Tweak".to_owned()
        } else if same_text(key, keys::REMOVE) {
            "移除".to_owned()
        } else if same_text(key, keys::NO_PACKAGE_SELECTED) {
            "未选择包".to_owned()
        } else if same_text(key, keys::GO_BACK_SELECT_FILE) {
            "返回并选择文件".to_owned()
        } else if same_text(key, keys::MODE) {
            "模式：".to_owned()
        } else if same_text(key, keys::SELECT_MODE) {
            "选择模式".to_owned()
        } else if same_text(key, keys::SIGNING_METHOD) {
            "签名：".to_owned()
        } else if same_text(key, keys::SELECT_SIGNING_METHOD) {
            "选择签名方式".to_owned()
        } else if same_text(key, keys::SIGN_ONLY_DESCRIPTION) {
            "签名并导出（不安装）".to_owned()
        } else if same_text(key, keys::INSTALL_DESCRIPTION) {
            "签名并安装到设备".to_owned()
        } else if same_text(key, keys::TWEAK_FILES) {
            "Tweak 文件".to_owned()
        } else if same_text(key, keys::SELECT_TWEAK_FILE) {
            "选择 Tweak 文件".to_owned()
        } else if same_text(key, keys::SELECT_BUNDLE_FOLDER) {
            "选择 Bundle 文件夹".to_owned()
        } else if same_text(key, keys::ACCOUNTS) {
            "账户".to_owned()
        } else if same_text(key, keys::ADD_ACCOUNT) {
            "添加账户".to_owned()
        } else if same_text(key, keys::REMOVE_SELECTED) {
            "移除选中".to_owned()
        } else if same_text(key, keys::EXPORT_P12) {
            "导出 P12".to_owned()
        } else if same_text(key, keys::LANGUAGE) {
            "语言".to_owned()
        } else if same_text(key, keys::SELECT_LANGUAGE) {
            "选择语言".to_owned()
        } else if same_text(key, keys::LOADING_ACCOUNTS) {
            "正在加载账户...".to_owned()
        } else if same_text(key, keys::NO_ACCOUNTS_ADDED) {
            "尚未添加账户".to_owned()
        } else if same_text(key, keys::SIGN_IN_WITH_APPLE_ID) {
            "使用 Apple ID 登录".to_owned()
        } else if same_text(key, keys::EMAIL) {
            "电子邮件".to_owned()
        } else if same_text(key, keys::PASSWORD) {
            "密码".to_owned()
        } else if same_text(key, keys::TWO_FACTOR_CODE) {
            "双重验证码".to_owned()
        } else if same_text(key, keys::SUBMIT) {
            "提交".to_owned()
        } else if same_text(key, keys::EMAIL_REQUIRED) {
            "需要电子邮件".to_owned()
        } else if same_text(key, keys::PASSWORD_REQUIRED) {
            "需要密码".to_owned()
        } else if same_text(key, keys::CODE_REQUIRED) {
            "需要验证码".to_owned()
        } else if same_text(key, keys::PREPARING) {
            "准备中...".to_owned()
        } else if same_text(key, keys::INSTALLING) {
            "安装中...".to_owned()
        } else if same_text(key, keys::SIGNING) {
            "签名中...".to_owned()
        } else if same_text(key, keys::COMPLETE) {
            "完成！".to_owned()
        } else if same_text(key, keys::FAILED) {
            "失败".to_owned()
        } else if same_text(key, keys::INSTALLATION_COMPLETE) {
            "安装完成！".to_owned()
        } else if same_text(key, keys::INSTALLATION_FAILED) {
            "安装失败".to_owned()
        } else if same_text(key, keys::ERROR_EMAIL_PASSWORD_REQUIRED) {
            "需要电子邮件和密码".to_owned()
        } else if same_text(key, keys::ERROR_NO_DEVICE_SELECTED) {
            "未选择设备".to_owned()
        } else if same_text(key, keys::ERROR_NO_PACKAGE_SELECTED) {
            "未选择包".to_owned()
        } else if same_text(key, keys::ERROR_NO_ACCOUNT_SELECTED) {
            "未选择账户".to_owned()
        } else if same_text(key, keys::ERROR_LOGIN_FAILED) {
            "登录失败".to_owned()
        } else if same_text(key, keys::IOS_APP_PACKAGE) {
            "iOS 应用包".to_owned()
        } else if same_text(key, keys::SELECT_IPA_TIPA_FILE) {
            "选择 IPA/TIPA 文件".to_owned()
        } else {
            key.to_owned()
        }
    }
}

/// Chooses the language of `i18n`.
pub fn set_language(i18n: &mut I18n, language: Language)
    ensures
        final(i18n).language() == language,
{
    i18n.set_language(language);
}

/// The language `i18n` currently shows.
pub fn get_language(i18n: &I18n) -> (r: Language)
    ensures
        r == i18n.language(),
{
    i18n.get_language()
}

/// The text filed under `key` in the language `i18n` currently shows.
pub fn t(i18n: &I18n, key: &str) -> (r: String)
    ensures
        r@ == translation(i18n.language(), key@),
{
    i18n.t(key)
}

/// The text filed under `key` with its placeholders filled: the argument at
/// index `i` takes the place of every `{i}`, the arguments applied in order.
pub fn tf(i18n: &I18n, key: &str, args: &[&str]) -> (r: String)
    ensures
        r@ == substituted(
            translation(i18n.language(), key@),
            texts_of(args@),
            args@.len(),
        ),
{
    let mut text = t(i18n, key);
    let mut i: usize = 0;
    while i < args.len()
        invariant
            i <= args@.len(),
            text@ == substituted(translation(i18n.language(), key@), texts_of(args@), i as nat),
        decreases args@.len() - i,
    {
        let pattern = placeholder_for(i);
        text = replace_text(text.as_str(), pattern.as_str(), args[i]);
        i += 1;
    }
    text
}

} // verus!
