use hartex::localization::{bundle_outcome, create_bundle, join_path, LocaleId, LOCALES_ROOT};

fn modules() -> Vec<String> {
    vec!["discord".to_string(), "commands".to_string()]
}

#[test]
fn parse_canonicalises() {
    assert_eq!(LocaleId::parse("en-us").unwrap().as_str(), "en-US");
    assert_eq!(LocaleId::parse("zh_hant_tw").unwrap().as_str(), "zh-Hant-TW");
    assert_eq!(LocaleId::parse("de").unwrap().as_str(), "de");
}

#[test]
fn parse_rejects_garbage() {
    assert!(LocaleId::parse("not a locale!").is_none());
    assert!(LocaleId::parse("en-US-x").is_none());
}

#[test]
fn fallback_is_en_us() {
    assert_eq!(LocaleId::en_us().as_str(), "en-US");
    assert!(LocaleId::en_us().same_as(&LocaleId::parse("EN-us").unwrap()));
    assert!(!LocaleId::en_us().same_as(&LocaleId::parse("en-GB").unwrap()));
}

#[test]
fn bundle_for_no_locale() {
    let plan = create_bundle(None, &modules());
    assert_eq!(plan.locale.as_str(), "en-US");
    assert_eq!(plan.root, vec![LOCALES_ROOT.to_string()]);
    assert_eq!(LOCALES_ROOT, "../localization/locales");
}

#[test]
fn bundle_for_fallback_locale() {
    let plan = create_bundle(LocaleId::parse("en-US"), &modules());
    assert_eq!(plan.locale.as_str(), "en-US");
    assert_eq!(plan.root, vec!["../localization/locales".to_string()]);
}

#[test]
fn bundle_for_other_locale() {
    let plan = create_bundle(LocaleId::parse("zh-TW"), &modules());
    assert_eq!(plan.locale.as_str(), "zh-TW");
    assert_eq!(
        plan.root,
        vec![
            "../localization/locales".to_string(),
            "zh-TW".to_string(),
            "discord".to_string(),
            "commands".to_string()
        ]
    );
}

#[test]
fn bundle_outcome_cases() {
    assert_eq!(bundle_outcome("../localization/locales", Ok(true)), Ok(()));
    assert_eq!(
        bundle_outcome("../localization/locales/zh-TW", Ok(false)),
        Err("localization root not found: ../localization/locales/zh-TW".to_string())
    );
    assert_eq!(
        bundle_outcome("x", Err("permission denied".to_string())),
        Err("permission denied".to_string())
    );
}

#[test]
fn join_path_of_bundle_roots() {
    let plan = create_bundle(LocaleId::parse("zh-TW"), &modules());
    assert_eq!(join_path(&plan.root), "../localization/locales/zh-TW/discord/commands");
    let plan = create_bundle(None, &modules());
    assert_eq!(join_path(&plan.root), "../localization/locales");
    assert_eq!(join_path(&vec![]), "");
}
