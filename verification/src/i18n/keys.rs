//! The keys under which the user-interface texts are filed.

use vstd::prelude::*;

verus! {

// Main Application
pub const APP_NAME: &'static str = "app_name";

// Navigation
pub const BACK: &'static str = "back";
pub const NEXT: &'static str = "next";
pub const CANCEL: &'static str = "cancel";
pub const VERIFY: &'static str = "verify";
pub const SETTINGS: &'static str = "settings";

// General Screen
pub const DEVICE_UTILITIES: &'static str = "device_utilities";
pub const IMPORT_IPA: &'static str = "import_ipa";
pub const GIVE_STAR: &'static str = "give_star";
pub const NO_DEVICE: &'static str = "no_device";
pub const IDLE: &'static str = "idle";

// Package Screen
pub const NAME: &'static str = "name";
pub const IDENTIFIER: &'static str = "identifier";
pub const VERSION: &'static str = "version";
pub const SIGNING_OPTIONS: &'static str = "signing_options";
pub const INSTALL_OPTIONS: &'static str = "install_options";
pub const APP_NAME_PLACEHOLDER: &'static str = "app_name";
pub const BUNDLE_IDENTIFIER: &'static str = "bundle_identifier";
pub const GENERAL: &'static str = "general";
pub const ADVANCED: &'static str = "advanced";

// Checkbox labels
pub const SUPPORT_OLDER_VERSIONS: &'static str = "support_older_versions";
pub const FORCE_FILE_SHARING: &'static str = "force_file_sharing";
pub const FORCE_IPAD_FULLSCREEN: &'static str = "force_ipad_fullscreen";
pub const FORCE_GAME_MODE: &'static str = "force_game_mode";
pub const FORCE_PRO_MOTION: &'static str = "force_pro_motion";
pub const ONLY_REGISTER_MAIN_BUNDLE: &'static str = "only_register_main_bundle";
pub const FORCE_LIQUID_GLASS: &'static str = "force_liquid_glass";

// Install mode
pub const INSTALL: &'static str = "install";
pub const EXPORT: &'static str = "export";
pub const APPLE_ID: &'static str = "apple_id";
pub const ADHOC: &'static str = "adhoc";
pub const NO_MODIFY: &'static str = "no_modify";

// Tweaks
pub const TWEAKS: &'static str = "tweaks";
pub const ADD_TWEAK: &'static str = "add_tweak";
pub const REMOVE_TWEAK: &'static str = "remove_tweak";
pub const ADD_BUNDLE: &'static str = "add_bundle";
pub const NO_TWEAKS_ADDED: &'static str = "no_tweaks_added";
pub const REMOVE: &'static str = "remove";

// Package Screen
pub const NO_PACKAGE_SELECTED: &'static str = "no_package_selected";
pub const GO_BACK_SELECT_FILE: &'static str = "go_back_select_file";
pub const MODE: &'static str = "mode";
pub const SELECT_MODE: &'static str = "select_mode";
pub const SIGNING_METHOD: &'static str = "signing_method";
pub const SELECT_SIGNING_METHOD: &'static str = "select_signing_method";
pub const SIGN_ONLY_DESCRIPTION: &'static str = "sign_only_description";
pub const INSTALL_DESCRIPTION: &'static str = "install_description";

// Tweak File Dialog
pub const TWEAK_FILES: &'static str = "tweak_files";
pub const SELECT_TWEAK_FILE: &'static str = "select_tweak_file";
pub const SELECT_BUNDLE_FOLDER: &'static str = "select_bundle_folder";

// Settings Screen
pub const ACCOUNTS: &'static str = "accounts";
pub const ADD_ACCOUNT: &'static str = "add_account";
pub const REMOVE_SELECTED: &'static str = "remove_selected";
pub const EXPORT_P12: &'static str = "export_p12";
pub const LANGUAGE: &'static str = "language";
pub const SELECT_LANGUAGE: &'static str = "select_language";
pub const LOADING_ACCOUNTS: &'static str = "loading_accounts";
pub const NO_ACCOUNTS_ADDED: &'static str = "no_accounts_added";

// Login Window
pub const SIGN_IN_WITH_APPLE_ID: &'static str = "sign_in_with_apple_id";
pub const EMAIL: &'static str = "email";
pub const PASSWORD: &'static str = "password";
pub const TWO_FACTOR_CODE: &'static str = "two_factor_code";
pub const SUBMIT: &'static str = "submit";
pub const EMAIL_REQUIRED: &'static str = "email_required";
pub const PASSWORD_REQUIRED: &'static str = "password_required";
pub const CODE_REQUIRED: &'static str = "code_required";

// Progress Screen
pub const PREPARING: &'static str = "preparing";
pub const INSTALLING: &'static str = "installing";
pub const SIGNING: &'static str = "signing";
pub const COMPLETE: &'static str = "complete";
pub const FAILED: &'static str = "failed";
pub const INSTALLATION_COMPLETE: &'static str = "installation_complete";
pub const INSTALLATION_FAILED: &'static str = "installation_failed";

// Error Messages
pub const ERROR_EMAIL_PASSWORD_REQUIRED: &'static str = "error_email_password_required";
pub const ERROR_NO_DEVICE_SELECTED: &'static str = "error_no_device_selected";
pub const ERROR_NO_PACKAGE_SELECTED: &'static str = "error_no_package_selected";
pub const ERROR_NO_ACCOUNT_SELECTED: &'static str = "error_no_account_selected";
pub const ERROR_LOGIN_FAILED: &'static str = "error_login_failed";

// File dialog
pub const IOS_APP_PACKAGE: &'static str = "ios_app_package";
pub const SELECT_IPA_TIPA_FILE: &'static str = "select_ipa_tipa_file";

} // verus!
