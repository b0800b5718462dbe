use embedding_index::config::Config;
use embedding_index::identity::resolve;
use embedding_index::translate::{translate_prompt, translation_target};

#[test]
fn resolve_hashes_text_without_id() {
    let id = resolve(&None, &"hello world".to_string());
    assert_eq!(id, "5eb63bbbe01eeed093cb22bb8f5acdc3");
}

#[test]
fn resolve_is_stable_across_calls() {
    let text = "the same words".to_string();
    assert_eq!(resolve(&None, &text), resolve(&None, &text));
    assert_eq!(resolve(&Some(String::new()), &text), resolve(&None, &text));
}

#[test]
fn resolve_changes_with_text() {
    let a = resolve(&None, &"first".to_string());
    let b = resolve(&None, &"second".to_string());
    assert_ne!(a, b);
    assert_eq!(a.len(), 32);
}

#[test]
fn resolve_keeps_explicit_id() {
    let id = resolve(&Some("doc-7".to_string()), &"hello world".to_string());
    assert_eq!(id, "doc-7");
}

#[test]
fn resolve_hashes_empty_explicit_id() {
    let id = resolve(&Some(String::new()), &"hello world".to_string());
    assert_eq!(id, "5eb63bbbe01eeed093cb22bb8f5acdc3");
}

#[test]
fn resolve_hashes_empty_text() {
    let id = resolve(&None, &String::new());
    assert_eq!(id, "d41d8cd98f00b204e9800998ecf8427e");
}

#[test]
fn prompt_names_language_and_text() {
    let p = translate_prompt("hola mundo", "English");
    assert_eq!(
        p,
        "Please translate below text to English without any extra explation and type exact text if It already translated:\nhola mundo"
    );
}

#[test]
fn empty_target_means_no_translation() {
    assert_eq!(translation_target(&Some(String::new())), None);
    assert_eq!(translation_target(&None), None);
    assert_eq!(translation_target(&Some("en".to_string())), Some("en".to_string()));
}

#[test]
fn standard_config_values() {
    let c = Config::standard();
    assert_eq!(c.embedding_model, "bge-m3");
    assert_eq!(c.prompt_model, "gemma2");
    assert_eq!(c.default_limit, 10);
    assert_eq!(c.vector_size, 1024);
    assert_eq!(c.metric, embedding_index::config::VectorMetric::Cosine);
    assert_eq!(c.limit_for(None), 10);
    assert_eq!(c.limit_for(Some(3)), 3);
    assert_eq!(c.embedding_model_for(&None), "bge-m3");
    assert_eq!(c.embedding_model_for(&Some("nomic".to_string())), "nomic");
}
