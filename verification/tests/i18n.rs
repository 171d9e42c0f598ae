use plume_core::i18n::keys;
use plume_core::i18n::{get_language, set_language, t, tf, I18n, Language, Platform};

#[test]
fn test_language_from_str() {
    assert_eq!(Language::from_str("English"), Language::English);
    assert_eq!(Language::from_str("chinese"), Language::Chinese);
    assert_eq!(Language::from_str("中文"), Language::Chinese);
    assert_eq!(Language::from_str("zh"), Language::Chinese);
    assert_eq!(Language::from_str("zh_cn"), Language::Chinese);
}

#[test]
fn test_translation() {
    let mut i18n = I18n::new(Platform::Other, None);
    i18n.set_language(Language::English);
    assert_eq!(i18n.t(keys::BACK), "Back");

    i18n.set_language(Language::Chinese);
    assert_eq!(i18n.t(keys::BACK), "返回");
}

#[test]
fn language_names_ignore_case() {
    assert_eq!(Language::from_str("ZH-CN"), Language::Chinese);
    assert_eq!(Language::from_str("Chinese"), Language::Chinese);
    assert_eq!(Language::from_str(""), Language::English);
    assert_eq!(Language::from_str("zh_tw"), Language::English);
}

#[test]
fn language_labels_and_codes() {
    assert_eq!(Language::English.as_str(), "English");
    assert_eq!(Language::Chinese.as_str(), "中文");
    assert_eq!(Language::English.as_code(), "en");
    assert_eq!(Language::Chinese.as_code(), "zh");
}

#[test]
fn unknown_key_stands_for_itself() {
    let i18n = I18n::new(Platform::Other, None);
    assert_eq!(i18n.get_english("no_such_key"), "no_such_key");
    assert_eq!(i18n.get_chinese("no_such_key"), "no_such_key");
    assert_eq!(i18n.t(""), "");
}

#[test]
fn shared_key_takes_the_first_text() {
    let i18n = I18n::new(Platform::Other, None);
    assert_eq!(keys::APP_NAME, keys::APP_NAME_PLACEHOLDER);
    assert_eq!(i18n.get_english(keys::APP_NAME_PLACEHOLDER), "Impactor");
    assert_eq!(i18n.get_chinese(keys::APP_NAME_PLACEHOLDER), "Impactor");
}

#[test]
fn every_table_entry_is_found() {
    let i18n = I18n::new(Platform::Other, None);
    assert_eq!(i18n.get_english(keys::SELECT_IPA_TIPA_FILE), "Select IPA/TIPA file");
    assert_eq!(i18n.get_chinese(keys::SELECT_IPA_TIPA_FILE), "选择 IPA/TIPA 文件");
    assert_eq!(i18n.get_english(keys::GIVE_STAR), "Give me a ⭐ star :3");
    assert_eq!(i18n.get_chinese(keys::ERROR_LOGIN_FAILED), "登录失败");
}

#[test]
fn locale_report_decides_the_start_language() {
    assert_eq!(I18n::new(Platform::Linux, Some("zh_CN.UTF-8")).get_language(), Language::Chinese);
    assert_eq!(I18n::new(Platform::Linux, Some("en_US.UTF-8")).get_language(), Language::English);
    assert_eq!(I18n::new(Platform::Linux, Some("Chinese")).get_language(), Language::English);
    assert_eq!(I18n::new(Platform::Linux, None).get_language(), Language::English);
    assert_eq!(I18n::new(Platform::Windows, Some("Chinese")).get_language(), Language::Chinese);
    assert_eq!(I18n::new(Platform::Windows, Some("ZH-cn")).get_language(), Language::Chinese);
    assert_eq!(I18n::new(Platform::MacOs, Some("(\n  \"中文\"\n)")).get_language(), Language::Chinese);
    assert_eq!(I18n::new(Platform::MacOs, Some("(\n  \"en-US\"\n)")).get_language(), Language::English);
    assert_eq!(I18n::new(Platform::Other, Some("zh")).get_language(), Language::English);
    assert_eq!(
        I18n::detect_system_language(Platform::MacOs, Some("zh-Hans-CN")),
        Language::Chinese
    );
}

#[test]
fn free_functions_follow_the_instance() {
    let mut i18n = I18n::new(Platform::Other, None);
    assert_eq!(get_language(&i18n), Language::English);
    set_language(&mut i18n, Language::Chinese);
    assert_eq!(get_language(&i18n), Language::Chinese);
    assert_eq!(t(&i18n, keys::CANCEL), "取消");
    set_language(&mut i18n, Language::English);
    assert_eq!(t(&i18n, keys::CANCEL), "Cancel");
}

#[test]
fn placeholders_are_filled_in_order() {
    let i18n = I18n::new(Platform::Other, None);
    assert_eq!(tf(&i18n, "{0} of {1}", &["3", "7"]), "3 of 7");
    assert_eq!(tf(&i18n, "{0}{0}", &["ab"]), "abab");
    assert_eq!(tf(&i18n, "{1}", &["x"]), "{1}");
    assert_eq!(tf(&i18n, "{0}", &["{1}", "y"]), "y");
    assert_eq!(tf(&i18n, keys::BACK, &["unused"]), "Back");
    assert_eq!(tf(&i18n, "plain", &[]), "plain");
    let many = ["a", "b", "c", "d", "e", "f", "g", "h", "i", "j", "k"];
    assert_eq!(tf(&i18n, "{10}-{9}-{0}", &many), "k-j-a");
}

#[test]
fn lower_case_names_are_matched_exactly() {
    assert_eq!(Language::from_lowercase("zh"), Language::Chinese);
    assert_eq!(Language::from_lowercase("zh-cn"), Language::Chinese);
    assert_eq!(Language::from_lowercase("中文"), Language::Chinese);
    assert_eq!(Language::from_lowercase("chinese"), Language::Chinese);
    assert_eq!(Language::from_lowercase("zh_cn"), Language::Chinese);
    assert_eq!(Language::from_lowercase("ZH"), Language::English);
    assert_eq!(Language::from_lowercase("zh "), Language::English);
    assert_eq!(Language::from_lowercase("english"), Language::English);
}
