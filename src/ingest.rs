//! The ingestion pipeline as a state machine. Each item is resolved,
//! translated when asked, and embedded, in order; when asked, each embedded
//! item is then scored against its nearest stored neighbors; finally the
//! collection is made sure of and all items are written in one batch. The
//! caller performs each action and reports its outcome as an event. Any
//! provider or store failure ends the request; a failed neighbor lookup does
//! not.

use vstd::prelude::*;
use crate::config::{Config, VectorMetric};
use crate::identity::{opt_view, resolve, resolved_id};
use crate::json::{entries_or_empty, json_entries, object_insert, object_or_empty};
use crate::model::{
    normalizes, FindDatabaseResult, PostDatabaseItem, PostDatabaseReq, PostDatabaseResult,
    PostEmbeddingsItem, PostEmbeddingsReq,
};
use crate::ollama::{Ollama, first_of};
use crate::store::{
    PointKey, StorePoint, StoredPoint, lemma_text_round_trip, reads, stores, upsert_points,
    uuid_v5_dns,
};
use crate::translate::{prompt_text, target_language, translate_prompt, translation_target};

verus! {

/// Metadata key under which an item's mean neighbor distance is recorded.
pub const MID_DISTANCE: &'static str = "mid_distance";

/// Why a request failed.
#[derive(Clone, Copy, Debug, PartialEq, Eq, Structural)]
pub enum PipelineError {
    /// The embedding or generation call failed or gave no usable output.
    Provider,
    /// A call to the vector store failed.
    Store,
}

/// Where an ingestion stands.
#[derive(Clone, Copy, Debug, PartialEq, Eq, Structural)]
pub enum IngestPhase {
    /// Waiting for the translation of the next item.
    Translating,
    /// Waiting for the embedding of the next item.
    Embedding,
    /// Waiting for the neighbor score of the next embedded item.
    Scoring,
    /// Waiting to learn whether the collection exists.
    Checking,
    /// Waiting for the collection to be created.
    Creating,
    /// Waiting for the batch write.
    Upserting,
    /// All items are stored.
    Finished,
    /// The request failed.
    Failed(PipelineError),
}

/// What the caller is to do next.
pub enum IngestAction<E> {
    /// Ask the generation model `model` for a completion of `prompt`.
    Generate { prompt: String, model: String },
    /// Ask the embedding model `model` to embed `text`.
    Embed { text: String, model: String },
    /// Query `collection` for up to `limit` neighbors of the embedding of
    /// result `item`, and report their mean distance.
    ScoreNeighbors { collection: String, item: usize, limit: usize },
    /// Find out whether `collection` exists.
    CheckCollection { collection: String },
    /// Create `collection` for vectors of `size`, compared by `metric`.
    CreateCollection { collection: String, size: u64, metric: VectorMetric },
    /// Write `points` to `collection` in one batch.
    Upsert { collection: String, points: Vec<StorePoint<E>> },
    /// Nothing is left to do; the results are complete.
    Done,
    /// The request failed.
    Failed(PipelineError),
}

/// The outcome of an action.
pub enum IngestEvent<E> {
    /// The completion asked for, or `None` when generation failed.
    Generated(Option<String>),
    /// The embeddings the provider returned, or `None` when the call failed.
    Embedded(Option<Vec<E>>),
    /// The mean neighbor distance as a JSON number. `fallback` is set when the
    /// lookup failed and the value is the neutral default.
    Scored { mid_distance: serde_json::Value, fallback: bool },
    /// Whether the collection exists, or `None` when the store failed.
    CollectionChecked(Option<bool>),
    /// Whether the collection was created.
    CollectionCreated(bool),
    /// Whether the batch was written.
    Upserted(bool),
}

/// The state of an ingestion, as values.
pub ghost struct IngestionView<E> {
    pub model: Seq<char>,
    pub prompt_model: Seq<char>,
    pub vector_size: u64,
    pub metric: VectorMetric,
    pub collection: Seq<char>,
    pub target: Option<Seq<char>>,
    pub nearest: Option<usize>,
    pub pending: Seq<PostDatabaseItem>,
    pub english: Option<Seq<char>>,
    pub results: Seq<PostDatabaseResult<E>>,
    pub scored: nat,
    pub fallback_ids: Seq<Seq<char>>,
    pub precomputed: bool,
    pub phase: IngestPhase,
}

/// One ingestion request in progress.
pub struct Ingestion<E> {
    model: String,
    prompt_model: String,
    vector_size: u64,
    metric: VectorMetric,
    collection: String,
    target: Option<String>,
    nearest: Option<usize>,
    pending: Vec<PostDatabaseItem>,
    english: Option<String>,
    results: Vec<PostDatabaseResult<E>>,
    scored: usize,
    fallback_ids: Vec<String>,
    precomputed: bool,
    phase: IngestPhase,
}

/// `r` is the result of embedding `item`, with translation `english`, as `e`.
pub open spec fn embeds<E>(
    r: PostDatabaseResult<E>,
    item: PostDatabaseItem,
    english: Option<Seq<char>>,
    e: E,
) -> bool {
    &&& r.id@ == resolved_id(opt_view(item.id), item.text@)
    &&& r.text@ == item.text@
    &&& r.metadata == item.metadata
    &&& opt_view(r.english) == english
    &&& r.embeddings == e
}

/// `r` is `before` with `mid_distance` recorded in its metadata.
pub open spec fn scores<E>(
    r: PostDatabaseResult<E>,
    before: PostDatabaseResult<E>,
    mid_distance: serde_json::Value,
) -> bool {
    &&& r.id == before.id
    &&& r.text == before.text
    &&& r.english == before.english
    &&& r.embeddings == before.embeddings
    &&& r.metadata matches Some(m) && json_entries(m) == entries_or_empty(before.metadata).insert(
        MID_DISTANCE@,
        mid_distance,
    )
}

/// `r` is the result that stands for a precomputed item.
pub open spec fn takes<E>(r: PostDatabaseResult<E>, item: PostEmbeddingsItem<E>) -> bool {
    &&& r.id@ == resolved_id(Some(item.id@), item.text@)
    &&& r.text == item.text
    &&& r.metadata == item.metadata
    &&& r.english == item.english
    &&& r.embeddings == item.embeddings
}

impl<E: Clone> IngestionView<E> {
    /// The phase that follows once an item is settled: the next item's
    /// translation or embedding, the next neighbor score, or the collection.
    pub open spec fn resume_phase(self) -> IngestPhase {
        if self.pending.len() > 0 {
            if self.target is Some {
                IngestPhase::Translating
            } else {
                IngestPhase::Embedding
            }
        } else if self.nearest is Some && self.scored < self.results.len() {
            IngestPhase::Scoring
        } else {
            IngestPhase::Checking
        }
    }

    /// The phase once the collection is known to exist.
    pub open spec fn write_phase(self) -> IngestPhase {
        if self.results.len() == 0 {
            IngestPhase::Finished
        } else {
            IngestPhase::Upserting
        }
    }

    /// The state is consistent.
    pub open spec fn wf(self) -> bool {
        &&& self.scored <= self.results.len()
        &&& self.target matches Some(l) ==> l.len() > 0
        &&& forall|i: int| 0 <= i < self.results.len() ==> (#[trigger] self.results[i]).id@.len() > 0
        &&& !self.precomputed ==> forall|i: int|
            0 <= i < self.results.len() ==> ((#[trigger] self.results[i]).english is Some) == (
            self.target is Some)
        &&& self.phase == IngestPhase::Translating ==> {
            &&& self.pending.len() > 0
            &&& self.target is Some
            &&& self.english is None
        }
        &&& self.phase == IngestPhase::Embedding ==> {
            &&& self.pending.len() > 0
            &&& (self.english is Some <==> self.target is Some)
        }
        &&& self.phase == IngestPhase::Scoring ==> {
            &&& self.pending.len() == 0
            &&& self.english is None
            &&& self.nearest is Some
            &&& self.scored < self.results.len()
        }
        &&& self.writing() ==> {
            &&& self.pending.len() == 0
            &&& self.english is None
            &&& self.nearest is Some ==> self.scored == self.results.len()
        }
    }

    /// The state is past embedding and scoring: at the collection, the write,
    /// or done.
    pub open spec fn writing(self) -> bool {
        ||| self.phase == IngestPhase::Checking
        ||| self.phase == IngestPhase::Creating
        ||| self.phase == IngestPhase::Upserting
        ||| self.phase == IngestPhase::Finished
    }

    /// `a` is the action the state asks for.
    pub open spec fn asks(self, a: IngestAction<E>) -> bool {
        match self.phase {
            IngestPhase::Translating => match a {
                IngestAction::Generate { prompt, model } => {
                    &&& prompt@ == prompt_text(self.pending[0].text@, self.target->0)
                    &&& model@ == self.prompt_model
                },
                _ => false,
            },
            IngestPhase::Embedding => match a {
                IngestAction::Embed { text, model } => {
                    &&& text@ == match self.english {
                        Some(t) => t,
                        None => self.pending[0].text@,
                    }
                    &&& model@ == self.model
                },
                _ => false,
            },
            IngestPhase::Scoring => match a {
                IngestAction::ScoreNeighbors { collection, item, limit } => {
                    &&& collection@ == self.collection
                    &&& item == self.scored
                    &&& limit == self.nearest->0
                },
                _ => false,
            },
            IngestPhase::Checking => match a {
                IngestAction::CheckCollection { collection } => collection@ == self.collection,
                _ => false,
            },
            IngestPhase::Creating => match a {
                IngestAction::CreateCollection { collection, size, metric } => {
                    &&& collection@ == self.collection
                    &&& size == self.vector_size
                    &&& metric == self.metric
                },
                _ => false,
            },
            IngestPhase::Upserting => match a {
                IngestAction::Upsert { collection, points } => {
                    &&& collection@ == self.collection
                    &&& points@.len() == self.results.len()
                    &&& forall|i: int|
                        0 <= i < points@.len() ==> #[trigger] stores(points@[i], self.results[i])
                },
                _ => false,
            },
            IngestPhase::Finished => a is Done,
            IngestPhase::Failed(e) => a == IngestAction::<E>::Failed(e),
        }
    }

    /// The state is this one, but in phase `p`.
    pub open spec fn moves_to(self, next: IngestionView<E>, p: IngestPhase) -> bool {
        next == IngestionView { phase: p, ..self }
    }

    /// `next` is the state that follows this one on event `e`. An event that
    /// does not answer the pending action changes nothing.
    pub open spec fn steps_to(self, e: IngestEvent<E>, next: IngestionView<E>) -> bool {
        match (self.phase, e) {
            (IngestPhase::Translating, IngestEvent::Generated(Some(t))) => next == IngestionView {
                english: Some(t@),
                phase: IngestPhase::Embedding,
                ..self
            },
            (IngestPhase::Translating, IngestEvent::Generated(None)) => self.moves_to(
                next,
                IngestPhase::Failed(PipelineError::Provider),
            ),
            (IngestPhase::Embedding, IngestEvent::Embedded(answer)) => match first_of(answer) {
                Some(v) => {
                    &&& next.results.len() == self.results.len() + 1
                    &&& next.results.drop_last() == self.results
                    &&& embeds(next.results.last(), self.pending[0], self.english, v)
                    &&& next == IngestionView {
                        pending: self.pending.drop_first(),
                        english: None,
                        results: next.results,
                        phase: next.resume_phase(),
                        ..self
                    }
                },
                None => self.moves_to(next, IngestPhase::Failed(PipelineError::Provider)),
            },
            (IngestPhase::Scoring, IngestEvent::Scored { mid_distance, fallback }) => {
                let before = self.results[self.scored as int];
                &&& next.results.len() == self.results.len()
                &&& scores(next.results[self.scored as int], before, mid_distance)
                &&& next.results == self.results.update(
                    self.scored as int,
                    next.results[self.scored as int],
                )
                &&& next == IngestionView {
                    results: next.results,
                    scored: self.scored + 1,
                    fallback_ids: if fallback {
                        self.fallback_ids.push(before.id@)
                    } else {
                        self.fallback_ids
                    },
                    phase: next.resume_phase(),
                    ..self
                }
            },
            (IngestPhase::Checking, IngestEvent::CollectionChecked(Some(true))) => self.moves_to(
                next,
                self.write_phase(),
            ),
            (IngestPhase::Checking, IngestEvent::CollectionChecked(Some(false))) => self.moves_to(
                next,
                IngestPhase::Creating,
            ),
            (IngestPhase::Checking, IngestEvent::CollectionChecked(None)) => self.moves_to(
                next,
                IngestPhase::Failed(PipelineError::Store),
            ),
            (IngestPhase::Creating, IngestEvent::CollectionCreated(ok)) => self.moves_to(
                next,
                if ok {
                    self.write_phase()
                } else {
                    IngestPhase::Failed(PipelineError::Store)
                },
            ),
            (IngestPhase::Upserting, IngestEvent::Upserted(ok)) => self.moves_to(
                next,
                if ok {
                    IngestPhase::Finished
                } else {
                    IngestPhase::Failed(PipelineError::Store)
                },
            ),
            _ => next == self,
        }
    }
}

/// Translation is a side channel: each result an embedding adds carries a
/// translation exactly when the request asked for one, that translation is
/// the generated text the embedding was computed from, and the result's own
/// text stays the raw text of the item.
pub proof fn lemma_translation_side_channel<E: Clone>(
    s: IngestionView<E>,
    e: IngestEvent<E>,
    next: IngestionView<E>,
)
    requires
        s.wf(),
        s.steps_to(e, next),
        next.results.len() > s.results.len(),
    ensures
        (next.results.last().english is Some) == (s.target is Some),
        opt_view(next.results.last().english) == s.english,
        next.results.last().text@ == s.pending[0].text@,
        next.results.last().id@ == resolved_id(opt_view(s.pending[0].id), s.pending[0].text@),
{
}

/// Translation covers the whole request: in an ingestion of texts, every
/// result carries a translation exactly when the request asked for one.
pub proof fn lemma_every_result_translated<E: Clone>(s: IngestionView<E>)
    requires
        s.wf(),
        !s.precomputed,
    ensures
        forall|i: int|
            0 <= i < s.results.len() ==> ((#[trigger] s.results[i]).english is Some) == (
            s.target is Some),
{
}

/// Each point of the batch write carries the embedding of its result, under
/// the UUID of the result's id.
pub proof fn lemma_points_carry_embeddings<E: Clone>(s: IngestionView<E>, a: IngestAction<E>, i: int)
    requires
        s.wf(),
        s.asks(a),
        a matches IngestAction::Upsert { points, .. } && 0 <= i < points@.len(),
    ensures
        a matches IngestAction::Upsert { points, .. } && {
            &&& points@.len() == s.results.len()
            &&& cloned(s.results[i].embeddings, points@[i].vector)
            &&& points@[i].id@ == uuid_v5_dns(s.results[i].id@)
        },
{
    if let IngestAction::Upsert { points, .. } = a {
        assert(stores(points@[i], s.results[i]));
    }
}

/// Neighbor scoring comes before the write: when the batch write is asked
/// for, every item is embedded and, if scoring was asked for, scored.
pub proof fn lemma_scoring_precedes_write<E: Clone>(s: IngestionView<E>, a: IngestAction<E>)
    requires
        s.wf(),
        s.asks(a),
        a is Upsert,
    ensures
        s.pending.len() == 0,
        s.nearest is Some ==> s.scored == s.results.len(),
{
}

/// Text round trip: a point of the batch write, when a query later returns
/// it, reads back as the raw text of its result, whatever was embedded.
pub proof fn lemma_written_text_reads_back<E: Clone, D>(
    s: IngestionView<E>,
    a: IngestAction<E>,
    i: int,
    key: Option<PointKey>,
    distance: D,
    n: FindDatabaseResult<D>,
)
    requires
        s.wf(),
        s.asks(a),
        a matches IngestAction::Upsert { points, .. } && 0 <= i < points@.len() && reads(
            n,
            (StoredPoint { id: key, payload: points@[i].payload, distance }),
        ),
    ensures
        n.text@ == s.results[i].text@,
        n.distance == distance,
{
    if let IngestAction::Upsert { points, .. } = a {
        lemma_text_round_trip(s.results[i], points@[i], key, distance, n);
    }
}

/// A failed request asks for nothing more, and no later event revives it.
pub proof fn lemma_failure_is_final<E: Clone>(
    s: IngestionView<E>,
    e: IngestEvent<E>,
    next: IngestionView<E>,
    err: PipelineError,
)
    requires
        s.phase == IngestPhase::Failed(err),
        s.steps_to(e, next),
    ensures
        next == s,
        s.asks(IngestAction::<E>::Failed(err)),
{
}

impl<E> View for Ingestion<E> {
    type V = IngestionView<E>;

    closed spec fn view(&self) -> IngestionView<E> {
        IngestionView {
            model: self.model@,
            prompt_model: self.prompt_model@,
            vector_size: self.vector_size,
            metric: self.metric,
            collection: self.collection@,
            target: opt_view(self.target),
            nearest: self.nearest,
            pending: self.pending@,
            english: opt_view(self.english),
            results: self.results@,
            scored: self.scored as nat,
            fallback_ids: self.fallback_ids@.map_values(|s: String| s@),
            precomputed: self.precomputed,
            phase: self.phase,
        }
    }
}

impl<E: Clone> Ingestion<E> {
    /// Starts ingesting the items of `req`; `action` gives the first action.
    pub fn new(req: PostDatabaseReq, config: &Config) -> (r: Ingestion<E>)
        ensures
            r@.wf(),
            r@.model == match req.model {
                Some(m) => m@,
                None => config.embedding_model@,
            },
            r@.prompt_model == config.prompt_model@,
            r@.vector_size == config.vector_size,
            r@.metric == config.metric,
            r@.collection == req.collection@,
            r@.target == target_language(opt_view(req.translate_to)),
            r@.nearest == req.calculate_nearest,
            normalizes(req.data, r@.pending),
            r@.english is None,
            r@.results.len() == 0,
            r@.scored == 0,
            r@.fallback_ids.len() == 0,
            !r@.precomputed,
            r@.phase == r@.resume_phase(),
    {
        let model = config.embedding_model_for(&req.model);
        let target = translation_target(&req.translate_to);
        let PostDatabaseReq { data, model: _, collection, translate_to: _, calculate_nearest } = req;
        let pending = data.into_items();
        let mut r = Ingestion {
            model,
            prompt_model: config.prompt_model.clone(),
            vector_size: config.vector_size,
            metric: config.metric,
            collection,
            target,
            nearest: calculate_nearest,
            pending,
            english: None,
            results: Vec::new(),
            scored: 0,
            fallback_ids: Vec::new(),
            precomputed: false,
            phase: IngestPhase::Checking,
        };
        r.phase = r.next_phase();
        assert(r@.fallback_ids =~= Seq::empty());
        r
    }

    /// Starts storing items that come with their own embeddings; `action`
    /// gives the first action. An item with an empty id gets the content
    /// hash of its text.
    pub fn from_embeddings(req: PostEmbeddingsReq<E>, config: &Config) -> (r: Ingestion<E>)
        ensures
            r@.wf(),
            r@.vector_size == config.vector_size,
            r@.metric == config.metric,
            r@.collection == req.collection@,
            r@.target is None,
            r@.nearest == req.calculate_nearest,
            r@.pending.len() == 0,
            r@.english is None,
            r@.results.len() == req.data@.len(),
            forall|i: int| 0 <= i < r@.results.len() ==> #[trigger] takes(r@.results[i], req.data@[i]),
            r@.scored == 0,
            r@.fallback_ids.len() == 0,
            r@.precomputed,
            r@.phase == r@.resume_phase(),
    {
        let PostEmbeddingsReq { data, collection, calculate_nearest } = req;
        let ghost all = data@;
        let mut rest = data;
        let mut results: Vec<PostDatabaseResult<E>> = Vec::new();
        while rest.len() > 0
            invariant
                results@.len() + rest@.len() == all.len(),
                rest@ == all.subrange(results@.len() as int, all.len() as int),
                forall|j: int| 0 <= j < results@.len() ==> #[trigger] takes(results@[j], all[j]),
                forall|j: int| 0 <= j < results@.len() ==> (#[trigger] results@[j]).id@.len() > 0,
            decreases rest@.len(),
        {
            let item = rest.remove(0);
            let PostEmbeddingsItem { id, text, metadata, english, embeddings } = item;
            let id = resolve(&Some(id), &text);
            results.push(PostDatabaseResult { text, metadata, english, embeddings, id });
        }
        let mut r = Ingestion {
            model: config.embedding_model.clone(),
            prompt_model: config.prompt_model.clone(),
            vector_size: config.vector_size,
            metric: config.metric,
            collection,
            target: None,
            nearest: calculate_nearest,
            pending: Vec::new(),
            english: None,
            results,
            scored: 0,
            fallback_ids: Vec::new(),
            precomputed: true,
            phase: IngestPhase::Checking,
        };
        r.phase = r.next_phase();
        assert(r@.fallback_ids =~= Seq::empty());
        r
    }

    fn next_phase(&self) -> (p: IngestPhase)
        ensures
            p == self@.resume_phase(),
    {
        if self.pending.len() > 0 {
            if self.target.is_some() {
                IngestPhase::Translating
            } else {
                IngestPhase::Embedding
            }
        } else if self.nearest.is_some() && self.scored < self.results.len() {
            IngestPhase::Scoring
        } else {
            IngestPhase::Checking
        }
    }

    /// The action the ingestion waits on.
    pub fn action(&self) -> (a: IngestAction<E>)
        requires
            self@.wf(),
        ensures
            self@.asks(a),
    {
        match self.phase {
            IngestPhase::Translating => match &self.target {
                Some(lang) => IngestAction::Generate {
                    prompt: translate_prompt(self.pending[0].text.as_str(), lang.as_str()),
                    model: self.prompt_model.clone(),
                },
                None => IngestAction::Done,
            },
            IngestPhase::Embedding => {
                let text = match &self.english {
                    Some(t) => t.clone(),
                    None => self.pending[0].text.clone(),
                };
                IngestAction::Embed { text, model: self.model.clone() }
            },
            IngestPhase::Scoring => IngestAction::ScoreNeighbors {
                collection: self.collection.clone(),
                item: self.scored,
                limit: match self.nearest {
                    Some(k) => k,
                    None => 0,
                },
            },
            IngestPhase::Checking => IngestAction::CheckCollection {
                collection: self.collection.clone(),
            },
            IngestPhase::Creating => IngestAction::CreateCollection {
                collection: self.collection.clone(),
                size: self.vector_size,
                metric: self.metric,
            },
            IngestPhase::Upserting => IngestAction::Upsert {
                collection: self.collection.clone(),
                points: upsert_points(&self.results),
            },
            IngestPhase::Finished => IngestAction::Done,
            IngestPhase::Failed(e) => IngestAction::Failed(e),
        }
    }

    /// Takes the outcome of the pending action and gives the next action.
    pub fn step(&mut self, event: IngestEvent<E>) -> (a: IngestAction<E>)
        requires
            old(self)@.wf(),
        ensures
            final(self)@.wf(),
            old(self)@.steps_to(event, final(self)@),
            final(self)@.asks(a),
    {
        let ghost before = self@;
        match event {
            IngestEvent::Generated(answer) => {
                if self.phase == IngestPhase::Translating {
                    match answer {
                        Some(t) => {
                            self.english = Some(t);
                            self.phase = IngestPhase::Embedding;
                        },
                        None => {
                            self.phase = IngestPhase::Failed(PipelineError::Provider);
                        },
                    }
                }
            },
            IngestEvent::Embedded(answer) => {
                if self.phase == IngestPhase::Embedding {
                    match Ollama::first_embedding(answer) {
                        Some(e) => {
                            let item = self.pending.remove(0);
                            let id = resolve(&item.id, &item.text);
                            let english = self.english.take();
                            let PostDatabaseItem { id: _, text, metadata } = item;
                            self.results.push(
                                PostDatabaseResult { text, metadata, english, embeddings: e, id },
                            );
                            self.phase = self.next_phase();
                            assert(self@.pending =~= before.pending.drop_first());
                            assert(self@.results.drop_last() =~= before.results);
                        },
                        None => {
                            self.phase = IngestPhase::Failed(PipelineError::Provider);
                        },
                    }
                }
            },
            IngestEvent::Scored { mid_distance, fallback } => {
                if self.phase == IngestPhase::Scoring {
                    let i = self.scored;
                    let n = self.results.len();
                    let mut r = self.results.remove(i);
                    let mut metadata = object_or_empty(&r.metadata);
                    object_insert(&mut metadata, String::from_str(MID_DISTANCE), mid_distance);
                    if fallback {
                        self.fallback_ids.push(r.id.clone());
                    }
                    r.metadata = Some(metadata);
                    self.results.insert(i, r);
                    self.scored = i + 1;
                    self.phase = self.next_phase();
                    assert(self@.results =~= before.results.update(i as int, r));
                    if fallback {
                        assert(self@.fallback_ids =~= before.fallback_ids.push(before.results[i as int].id@));
                    } else {
                        assert(self@.fallback_ids =~= before.fallback_ids);
                    }
                }
            },
            IngestEvent::CollectionChecked(answer) => {
                if self.phase == IngestPhase::Checking {
                    self.phase = match answer {
                        Some(true) => self.after_collection(),
                        Some(false) => IngestPhase::Creating,
                        None => IngestPhase::Failed(PipelineError::Store),
                    };
                }
            },
            IngestEvent::CollectionCreated(ok) => {
                if self.phase == IngestPhase::Creating {
                    self.phase = if ok {
                        self.after_collection()
                    } else {
                        IngestPhase::Failed(PipelineError::Store)
                    };
                }
            },
            IngestEvent::Upserted(ok) => {
                if self.phase == IngestPhase::Upserting {
                    self.phase = if ok {
                        IngestPhase::Finished
                    } else {
                        IngestPhase::Failed(PipelineError::Store)
                    };
                }
            },
        }
        self.action()
    }

    fn after_collection(&self) -> (p: IngestPhase)
        ensures
            p == self@.write_phase(),
    {
        if self.results.len() == 0 {
            IngestPhase::Finished
        } else {
            IngestPhase::Upserting
        }
    }

    /// Where the ingestion stands.
    pub fn phase(&self) -> (p: IngestPhase)
        ensures
            p == self@.phase,
    {
        self.phase
    }

    /// The results so far, in the order of the request's items.
    pub fn results(&self) -> (r: &Vec<PostDatabaseResult<E>>)
        ensures
            r@ == self@.results,
    {
        &self.results
    }

    /// The results, in the order of the request's items.
    pub fn into_results(self) -> (r: Vec<PostDatabaseResult<E>>)
        ensures
            r@ == self@.results,
    {
        self.results
    }

    /// The ids of the results whose neighbor lookup failed, so that their
    /// mid distance is the neutral default rather than a measured one.
    pub fn fallback_ids(&self) -> (r: &Vec<String>)
        ensures
            r@.map_values(|s: String| s@) == self@.fallback_ids,
    {
        &self.fallback_ids
    }

    /// The ids of the results, in order.
    pub fn ids(&self) -> (r: Vec<String>)
        ensures
            r@.len() == self@.results.len(),
            forall|i: int| 0 <= i < r@.len() ==> (#[trigger] r@[i])@ == self@.results[i].id@,
    {
        let mut r: Vec<String> = Vec::new();
        let mut i: usize = 0;
        while i < self.results.len()
            invariant
                i <= self.results@.len(),
                r@.len() == i,
                forall|j: int| 0 <= j < i ==> (#[trigger] r@[j])@ == self.results@[j].id@,
            decreases self.results@.len() - i,
        {
            r.push(self.results[i].id.clone());
            i = i + 1;
        }
        r
    }
}

} // verus!
