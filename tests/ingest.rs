use embedding_index::config::{Config, VectorMetric};
use embedding_index::ingest::{IngestAction, IngestEvent, IngestPhase, Ingestion, PipelineError, MID_DISTANCE};
use embedding_index::model::{DataType, PostDatabaseItem, PostDatabaseReq, PostEmbeddingsItem, PostEmbeddingsReq};
use embedding_index::store::{point_id, ORIGINAL_DOCUMENT};
use serde_json::Value;

fn request(data: DataType, translate_to: Option<&str>, nearest: Option<usize>) -> PostDatabaseReq {
    PostDatabaseReq {
        data,
        model: None,
        collection: "demo".to_string(),
        translate_to: translate_to.map(|s| s.to_string()),
        calculate_nearest: nearest,
    }
}

fn texts(list: &[&str]) -> DataType {
    DataType::StringList(list.iter().map(|s| s.to_string()).collect())
}

fn vector(x: f32) -> Vec<f32> {
    vec![x; 1024]
}

fn embed_text(a: &IngestAction<Vec<f32>>) -> String {
    match a {
        IngestAction::Embed { text, model } => {
            assert_eq!(model, "bge-m3");
            text.clone()
        }
        _ => panic!("expected an embedding request"),
    }
}

#[test]
fn single_text_is_hashed_and_stored() {
    let config = Config::standard();
    let mut ing: Ingestion<Vec<f32>> = Ingestion::new(request(texts(&["hello world"]), None, None), &config);
    let a = ing.action();
    assert_eq!(embed_text(&a), "hello world");
    let a = ing.step(IngestEvent::Embedded(Some(vec![vector(0.5)])));
    assert!(matches!(a, IngestAction::CheckCollection { ref collection } if collection == "demo"));
    let a = ing.step(IngestEvent::CollectionChecked(Some(false)));
    assert!(matches!(a, IngestAction::CreateCollection { ref collection, size: 1024, metric: VectorMetric::Cosine } if collection == "demo"));
    let a = ing.step(IngestEvent::CollectionCreated(true));
    match a {
        IngestAction::Upsert { collection, points } => {
            assert_eq!(collection, "demo");
            assert_eq!(points.len(), 1);
            assert_eq!(points[0].id, point_id("5eb63bbbe01eeed093cb22bb8f5acdc3"));
            assert_eq!(points[0].payload.get(ORIGINAL_DOCUMENT), Some(&Value::from("hello world")));
            assert_eq!(points[0].vector, vector(0.5));
        }
        _ => panic!("expected the batch write"),
    }
    let a = ing.step(IngestEvent::Upserted(true));
    assert!(matches!(a, IngestAction::Done));
    assert_eq!(ing.phase(), IngestPhase::Finished);
    let results = ing.into_results();
    assert_eq!(results.len(), 1);
    assert_eq!(results[0].id, "5eb63bbbe01eeed093cb22bb8f5acdc3");
    assert_eq!(results[0].text, "hello world");
    assert_eq!(results[0].english, None);
    assert_eq!(results[0].metadata, None);
    assert_eq!(results[0].embeddings.len(), 1024);
}

#[test]
fn existing_collection_is_not_created() {
    let config = Config::standard();
    let mut ing: Ingestion<Vec<f32>> = Ingestion::new(request(texts(&["a"]), None, None), &config);
    ing.step(IngestEvent::Embedded(Some(vec![vector(1.0)])));
    let a = ing.step(IngestEvent::CollectionChecked(Some(true)));
    assert!(matches!(a, IngestAction::Upsert { .. }));
}

#[test]
fn translation_runs_before_embedding() {
    let config = Config::standard();
    let mut ing: Ingestion<Vec<f32>> = Ingestion::new(request(texts(&["bonjour"]), Some("English"), None), &config);
    match ing.action() {
        IngestAction::Generate { prompt, model } => {
            assert_eq!(model, "gemma2");
            assert!(prompt.ends_with("\nbonjour"));
            assert!(prompt.contains("English"));
        }
        _ => panic!("expected a translation request"),
    }
    let a = ing.step(IngestEvent::Generated(Some("hello".to_string())));
    assert_eq!(embed_text(&a), "hello");
    ing.step(IngestEvent::Embedded(Some(vec![vector(0.1)])));
    let r = &ing.results()[0];
    assert_eq!(r.text, "bonjour");
    assert_eq!(r.english, Some("hello".to_string()));
    assert_eq!(r.id, "f02368945726d5fc2a14eb576f7276c0");
}

#[test]
fn empty_target_skips_translation() {
    let config = Config::standard();
    let mut ing: Ingestion<Vec<f32>> = Ingestion::new(request(texts(&["x"]), Some(""), None), &config);
    assert_eq!(embed_text(&ing.action()), "x");
    ing.step(IngestEvent::Embedded(Some(vec![vector(0.1)])));
    assert_eq!(ing.results()[0].english, None);
}

#[test]
fn explicit_ids_are_kept() {
    let config = Config::standard();
    let items = vec![
        PostDatabaseItem { id: Some("first".to_string()), text: "one".to_string(), metadata: None },
        PostDatabaseItem { id: None, text: "two".to_string(), metadata: None },
    ];
    let mut ing: Ingestion<Vec<f32>> = Ingestion::new(request(DataType::ItemList(items), Some("en"), None), &config);
    ing.step(IngestEvent::Generated(Some("one".to_string())));
    ing.step(IngestEvent::Embedded(Some(vec![vector(0.1)])));
    ing.step(IngestEvent::Generated(Some("two".to_string())));
    ing.step(IngestEvent::Embedded(Some(vec![vector(0.2)])));
    assert_eq!(ing.ids(), vec!["first".to_string(), "b8a9f715dbb64fd5c56e7783c6820a61".to_string()]);
}

#[test]
fn neighbor_score_on_empty_collection_is_zero() {
    let config = Config::standard();
    let mut ing: Ingestion<Vec<f32>> = Ingestion::new(request(texts(&["first ever"]), None, Some(1)), &config);
    let a = ing.step(IngestEvent::Embedded(Some(vec![vector(0.3)])));
    assert!(matches!(a, IngestAction::ScoreNeighbors { item: 0, limit: 1, ref collection } if collection == "demo"));
    let a = ing.step(IngestEvent::Scored { mid_distance: Value::from(0.0f32), fallback: false });
    assert!(matches!(a, IngestAction::CheckCollection { .. }));
    let meta = ing.results()[0].metadata.clone().unwrap();
    assert_eq!(meta.get(MID_DISTANCE), Some(&Value::from(0.0f32)));
    assert!(ing.fallback_ids().is_empty());
}

#[test]
fn every_item_is_scored_before_write() {
    let config = Config::standard();
    let mut ing: Ingestion<Vec<f32>> = Ingestion::new(request(texts(&["a", "b"]), None, Some(3)), &config);
    ing.step(IngestEvent::Embedded(Some(vec![vector(0.1)])));
    let a = ing.step(IngestEvent::Embedded(Some(vec![vector(0.2)])));
    assert!(matches!(a, IngestAction::ScoreNeighbors { item: 0, limit: 3, .. }));
    let a = ing.step(IngestEvent::Scored { mid_distance: Value::from(0.5f32), fallback: false });
    assert!(matches!(a, IngestAction::ScoreNeighbors { item: 1, limit: 3, .. }));
    let a = ing.step(IngestEvent::Scored { mid_distance: Value::from(0.0f32), fallback: true });
    assert!(matches!(a, IngestAction::CheckCollection { .. }));
    assert_eq!(ing.fallback_ids(), &vec!["92eb5ffee6ae2fec3ad71c777531578f".to_string()]);
    let a = ing.step(IngestEvent::CollectionChecked(Some(true)));
    match a {
        IngestAction::Upsert { points, .. } => {
            assert_eq!(points[0].payload.get(MID_DISTANCE), Some(&Value::from(0.5f32)));
            assert_eq!(points[1].payload.get(MID_DISTANCE), Some(&Value::from(0.0f32)));
        }
        _ => panic!("expected the batch write"),
    }
}

#[test]
fn mid_distance_joins_existing_metadata() {
    let config = Config::standard();
    let mut meta = serde_json::Map::new();
    meta.insert("source".to_string(), Value::from("web"));
    let items = vec![PostDatabaseItem { id: None, text: "t".to_string(), metadata: Some(meta) }];
    let mut ing: Ingestion<Vec<f32>> = Ingestion::new(request(DataType::ItemList(items), None, Some(2)), &config);
    ing.step(IngestEvent::Embedded(Some(vec![vector(0.1)])));
    ing.step(IngestEvent::Scored { mid_distance: Value::from(0.25f32), fallback: false });
    let m = ing.results()[0].metadata.clone().unwrap();
    assert_eq!(m.get("source"), Some(&Value::from("web")));
    assert_eq!(m.get(MID_DISTANCE), Some(&Value::from(0.25f32)));
}

#[test]
fn failed_generation_fails_request() {
    let config = Config::standard();
    let mut ing: Ingestion<Vec<f32>> = Ingestion::new(request(texts(&["a"]), Some("en"), None), &config);
    let a = ing.step(IngestEvent::Generated(None));
    assert!(matches!(a, IngestAction::Failed(PipelineError::Provider)));
    let a = ing.step(IngestEvent::Embedded(Some(vec![vector(0.1)])));
    assert!(matches!(a, IngestAction::Failed(PipelineError::Provider)));
    assert!(ing.results().is_empty());
}

#[test]
fn empty_embedding_answer_fails_request() {
    let config = Config::standard();
    let mut ing: Ingestion<Vec<f32>> = Ingestion::new(request(texts(&["a", "b"]), None, None), &config);
    let a = ing.step(IngestEvent::Embedded(Some(vec![])));
    assert!(matches!(a, IngestAction::Failed(PipelineError::Provider)));
    assert_eq!(ing.phase(), IngestPhase::Failed(PipelineError::Provider));
}

#[test]
fn failed_embedding_call_fails_request() {
    let config = Config::standard();
    let mut ing: Ingestion<Vec<f32>> = Ingestion::new(request(texts(&["a"]), None, None), &config);
    let a = ing.step(IngestEvent::Embedded(None));
    assert!(matches!(a, IngestAction::Failed(PipelineError::Provider)));
}

#[test]
fn store_failures_fail_request() {
    let config = Config::standard();
    let mut ing: Ingestion<Vec<f32>> = Ingestion::new(request(texts(&["a"]), None, None), &config);
    ing.step(IngestEvent::Embedded(Some(vec![vector(0.1)])));
    let a = ing.step(IngestEvent::CollectionChecked(None));
    assert!(matches!(a, IngestAction::Failed(PipelineError::Store)));

    let mut ing: Ingestion<Vec<f32>> = Ingestion::new(request(texts(&["a"]), None, None), &config);
    ing.step(IngestEvent::Embedded(Some(vec![vector(0.1)])));
    ing.step(IngestEvent::CollectionChecked(Some(false)));
    let a = ing.step(IngestEvent::CollectionCreated(false));
    assert!(matches!(a, IngestAction::Failed(PipelineError::Store)));

    let mut ing: Ingestion<Vec<f32>> = Ingestion::new(request(texts(&["a"]), None, None), &config);
    ing.step(IngestEvent::Embedded(Some(vec![vector(0.1)])));
    ing.step(IngestEvent::CollectionChecked(Some(true)));
    let a = ing.step(IngestEvent::Upserted(false));
    assert!(matches!(a, IngestAction::Failed(PipelineError::Store)));
}

#[test]
fn unexpected_event_changes_nothing() {
    let config = Config::standard();
    let mut ing: Ingestion<Vec<f32>> = Ingestion::new(request(texts(&["a"]), None, None), &config);
    let a = ing.step(IngestEvent::Upserted(true));
    assert_eq!(embed_text(&a), "a");
    assert_eq!(ing.phase(), IngestPhase::Embedding);
}

#[test]
fn empty_request_only_ensures_collection() {
    let config = Config::standard();
    let mut ing: Ingestion<Vec<f32>> = Ingestion::new(request(texts(&[]), None, Some(2)), &config);
    assert!(matches!(ing.action(), IngestAction::CheckCollection { .. }));
    let a = ing.step(IngestEvent::CollectionChecked(Some(true)));
    assert!(matches!(a, IngestAction::Done));
}

#[test]
fn precomputed_embeddings_are_stored() {
    let config = Config::standard();
    let req = PostEmbeddingsReq {
        data: vec![
            PostEmbeddingsItem { id: "given".to_string(), text: "one".to_string(), metadata: None, english: None, embeddings: vec![0.5f32, 0.5] },
            PostEmbeddingsItem { id: String::new(), text: "two".to_string(), metadata: None, english: Some("two".to_string()), embeddings: vec![0.1f32, 0.9] },
        ],
        collection: "pre".to_string(),
        calculate_nearest: None,
    };
    let mut ing: Ingestion<Vec<f32>> = Ingestion::from_embeddings(req, &config);
    assert!(matches!(ing.action(), IngestAction::CheckCollection { ref collection } if collection == "pre"));
    assert_eq!(ing.ids(), vec!["given".to_string(), "b8a9f715dbb64fd5c56e7783c6820a61".to_string()]);
    let a = ing.step(IngestEvent::CollectionChecked(Some(true)));
    match a {
        IngestAction::Upsert { points, .. } => {
            assert_eq!(points.len(), 2);
            assert_eq!(points[0].id, point_id("given"));
            assert_eq!(points[0].vector, vec![0.5f32, 0.5]);
            assert_eq!(points[1].vector, vec![0.1f32, 0.9]);
        }
        _ => panic!("expected the batch write"),
    }
    assert_eq!(ing.results()[1].embeddings, vec![0.1f32, 0.9]);
}

#[test]
fn precomputed_embeddings_are_scored() {
    let config = Config::standard();
    let req = PostEmbeddingsReq {
        data: vec![PostEmbeddingsItem { id: "k".to_string(), text: "t".to_string(), metadata: None, english: None, embeddings: vec![1.0f32] }],
        collection: "pre".to_string(),
        calculate_nearest: Some(5),
    };
    let ing: Ingestion<Vec<f32>> = Ingestion::from_embeddings(req, &config);
    assert!(matches!(ing.action(), IngestAction::ScoreNeighbors { item: 0, limit: 5, .. }));
}
