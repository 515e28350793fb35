use llmup::llama::{classify_log_line, log_shown, LogKey, LogLevel, Token, TokenAttr, VocabType};

#[test]
fn token_index() {
    assert_eq!(Token(42).as_index(), 42);
}

#[test]
fn token_attribute_bits() {
    let a = TokenAttr(8 | 32);
    assert!(a.is_control());
    assert!(a.is_byte());
    assert!(!a.is_normal());
    assert!(!a.is_undefined());
    assert!(TokenAttr(0).is_undefined());
    assert!(TokenAttr(1).is_unknown());
    assert!(TokenAttr(2).is_unused());
    assert!(TokenAttr(4).is_normal());
    assert!(TokenAttr(16).is_user_defined());
    assert!(TokenAttr(64).is_normalized());
    assert!(TokenAttr(128).is_lstrip());
    assert!(TokenAttr(256).is_rstrip());
    assert!(TokenAttr(512).is_single_word());
}

#[test]
fn vocab_and_level_codes() {
    assert_eq!(VocabType::from_code(0), None);
    assert_eq!(VocabType::from_code(2), Some(VocabType::BPE));
    assert_eq!(VocabType::from_code(6), Some(VocabType::PLAMO2));
    assert_eq!(LogLevel::from_code(4), LogLevel::Error);
    assert_eq!(LogLevel::from_code(5), LogLevel::Trace);
    assert_eq!(LogLevel::Warn.as_str(), "WARN");
    assert!(LogLevel::Debug < LogLevel::Error);
}

#[test]
fn log_lines_are_classified() {
    assert_eq!(LogKey::from_category("llama_model_loader"), LogKey::ModelLoader);
    assert_eq!(LogKey::from_category("llama_model_load_from_file_impl"), LogKey::ModelLoad);
    assert_eq!(LogKey::from_category("something_else"), LogKey::Unknown);
    let (k, m) = classify_log_line("load_tensors: offloading 0 layers\n");
    assert_eq!(k, LogKey::LoadTensors);
    assert_eq!(m, " offloading 0 layers");
    let (k, m) = classify_log_line("no category here\n");
    assert_eq!(k, LogKey::Unknown);
    assert_eq!(m, "no category here");
}

#[test]
fn log_filter() {
    assert!(log_shown(LogLevel::Error, LogKey::Context, false));
    assert!(log_shown(LogLevel::Info, LogKey::ModelLoader, false));
    assert!(!log_shown(LogLevel::Info, LogKey::Context, false));
    assert!(log_shown(LogLevel::Info, LogKey::Context, true));
}
