use optimus::registry::{LanguageRegistry, RegistryError};
use optimus::types::Language;

#[test]
fn test_registry_from_names() {
    let reg =
        LanguageRegistry::from_names(&vec!["python".to_string(), "java".to_string()]).unwrap();
    assert!(reg.is_enabled(Language::Python));
    assert!(reg.is_enabled(Language::Java));
    assert!(!reg.is_enabled(Language::Rust));
    assert_eq!(reg.enabled_languages().len(), 2);
}

#[test]
fn test_registry_dedups_repeated_names() {
    let reg = LanguageRegistry::from_names(&vec![
        "python".to_string(),
        "python".to_string(),
        "java".to_string(),
        "python".to_string(),
    ])
    .unwrap();
    assert!(reg.is_enabled(Language::Python));
    assert!(reg.is_enabled(Language::Java));
    assert_eq!(reg.enabled_languages().len(), 2);
}

#[test]
fn test_registry_rejects_unknown_language() {
    let r = LanguageRegistry::from_names(&vec!["python".to_string(), "cobol".to_string()]);
    match r {
        Err(RegistryError::UnknownLanguage(name)) => assert_eq!(name, "cobol"),
        _ => panic!("an unknown name must be rejected"),
    }
}

#[test]
fn test_registry_rejects_empty_configuration() {
    assert!(matches!(
        LanguageRegistry::from_names(&vec![]),
        Err(RegistryError::NoLanguages)
    ));
}

#[test]
fn test_language_name_round_trip() {
    for lang in [Language::Python, Language::Java, Language::Rust] {
        assert_eq!(Language::from_str(lang.as_str()), Some(lang));
    }
    assert_eq!(Language::from_str("haskell"), None);
    assert_eq!(Language::from_str("Python"), None);
}

#[test]
fn test_all_variants() {
    let all = Language::all_variants();
    assert_eq!(all, vec![Language::Python, Language::Java, Language::Rust]);
}
