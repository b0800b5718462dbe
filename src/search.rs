//! The retrieval pipeline as a state machine: translate the query when
//! asked, embed it, ask the store for the nearest points, and read them back
//! as neighbors in the order the store ranked them. Any failure ends the
//! search with no partial result.

use vstd::prelude::*;
use crate::config::Config;
use crate::identity::opt_view;
use crate::ingest::PipelineError;
use crate::model::{FindDatabaseReq, FindDatabaseResult};
use crate::ollama::{Ollama, first_of};
use crate::store::{StoredPoint, neighbors_from_points, reads};
use crate::translate::{prompt_text, target_language, translate_prompt, translation_target};

verus! {

/// Where a search stands.
#[derive(Clone, Copy, Debug, PartialEq, Eq, Structural)]
pub enum SearchPhase {
    /// Waiting for the translation of the query.
    Translating,
    /// Waiting for the embedding of the query.
    Embedding,
    /// Waiting for the store's nearest points.
    Querying,
    /// The neighbors are known.
    Finished,
    /// The search failed.
    Failed(PipelineError),
}

/// What the caller is to do next.
pub enum SearchAction {
    /// Ask the generation model `model` for a completion of `prompt`.
    Generate { prompt: String, model: String },
    /// Ask the embedding model `model` to embed `text`.
    Embed { text: String, model: String },
    /// Ask `collection` for up to `limit` points nearest to the query vector,
    /// with their payloads.
    Query { collection: String, limit: usize },
    /// The neighbors are known.
    Done,
    /// The search failed.
    Failed(PipelineError),
}

/// The outcome of an action.
pub enum SearchEvent<E, D> {
    /// The completion asked for, or `None` when generation failed.
    Generated(Option<String>),
    /// The embeddings the provider returned, or `None` when the call failed.
    Embedded(Option<Vec<E>>),
    /// The points the store ranked nearest first, each with its distance, or
    /// `None` when the query failed.
    Queried(Option<Vec<StoredPoint<D>>>),
}

/// The state of a search, as values.
pub ghost struct SearchView<E, D> {
    pub model: Seq<char>,
    pub prompt_model: Seq<char>,
    pub collection: Seq<char>,
    pub text: Seq<char>,
    pub target: Option<Seq<char>>,
    pub limit: usize,
    pub english: Option<Seq<char>>,
    pub vector: Option<E>,
    pub neighbors: Seq<FindDatabaseResult<D>>,
    pub phase: SearchPhase,
}

/// One search request in progress.
pub struct Search<E, D> {
    model: String,
    prompt_model: String,
    collection: String,
    text: String,
    target: Option<String>,
    limit: usize,
    english: Option<String>,
    vector: Option<E>,
    neighbors: Vec<FindDatabaseResult<D>>,
    phase: SearchPhase,
}

impl<E, D> SearchView<E, D> {
    /// The state is consistent.
    pub open spec fn wf(self) -> bool {
        &&& self.target matches Some(l) ==> l.len() > 0
        &&& self.phase == SearchPhase::Translating ==> {
            &&& self.target is Some
            &&& self.english is None
        }
        &&& self.phase == SearchPhase::Embedding ==> (self.english is Some <==> self.target is Some)
        &&& self.phase == SearchPhase::Querying ==> self.vector is Some
    }

    /// `a` is the action the state asks for.
    pub open spec fn asks(self, a: SearchAction) -> bool {
        match self.phase {
            SearchPhase::Translating => match a {
                SearchAction::Generate { prompt, model } => {
                    &&& prompt@ == prompt_text(self.text, self.target->0)
                    &&& model@ == self.prompt_model
                },
                _ => false,
            },
            SearchPhase::Embedding => match a {
                SearchAction::Embed { text, model } => {
                    &&& text@ == match self.english {
                        Some(t) => t,
                        None => self.text,
                    }
                    &&& model@ == self.model
                },
                _ => false,
            },
            SearchPhase::Querying => match a {
                SearchAction::Query { collection, limit } => {
                    &&& collection@ == self.collection
                    &&& limit == self.limit
                },
                _ => false,
            },
            SearchPhase::Finished => a is Done,
            SearchPhase::Failed(e) => a == SearchAction::Failed(e),
        }
    }

    /// The state is this one, but in phase `p`.
    pub open spec fn moves_to(self, next: SearchView<E, D>, p: SearchPhase) -> bool {
        next == SearchView { phase: p, ..self }
    }

    /// `next` is the state that follows this one on event `e`. An event that
    /// does not answer the pending action changes nothing.
    pub open spec fn steps_to(self, e: SearchEvent<E, D>, next: SearchView<E, D>) -> bool {
        match (self.phase, e) {
            (SearchPhase::Translating, SearchEvent::Generated(Some(t))) => next == SearchView {
                english: Some(t@),
                phase: SearchPhase::Embedding,
                ..self
            },
            (SearchPhase::Translating, SearchEvent::Generated(None)) => self.moves_to(
                next,
                SearchPhase::Failed(PipelineError::Provider),
            ),
            (SearchPhase::Embedding, SearchEvent::Embedded(answer)) => match first_of(answer) {
                Some(v) => next == SearchView {
                    vector: Some(v),
                    phase: SearchPhase::Querying,
                    ..self
                },
                None => self.moves_to(next, SearchPhase::Failed(PipelineError::Provider)),
            },
            (SearchPhase::Querying, SearchEvent::Queried(Some(points))) => {
                &&& next.neighbors.len() == points@.len()
                &&& forall|i: int|
                    0 <= i < points@.len() ==> #[trigger] reads(next.neighbors[i], points@[i])
                &&& next == SearchView {
                    neighbors: next.neighbors,
                    phase: SearchPhase::Finished,
                    ..self
                }
            },
            (SearchPhase::Querying, SearchEvent::Queried(None)) => self.moves_to(
                next,
                SearchPhase::Failed(PipelineError::Store),
            ),
            _ => next == self,
        }
    }
}

/// The search keeps the store's ranking: when the store gives its points in
/// an order of their distances, the neighbors come in that same order.
pub proof fn lemma_neighbors_keep_order<E, D>(
    s: SearchView<E, D>,
    points: Vec<StoredPoint<D>>,
    next: SearchView<E, D>,
    before: spec_fn(D, D) -> bool,
)
    requires
        s.phase == SearchPhase::Querying,
        s.steps_to(SearchEvent::Queried(Some(points)), next),
        forall|i: int, j: int|
            0 <= i < j < points@.len() ==> before(points@[i].distance, points@[j].distance),
    ensures
        next.phase == SearchPhase::Finished,
        next.neighbors.len() == points@.len(),
        forall|i: int, j: int|
            0 <= i < j < next.neighbors.len() ==> before(
                next.neighbors[i].distance,
                next.neighbors[j].distance,
            ),
{
    assert forall|i: int, j: int| 0 <= i < j < next.neighbors.len() implies before(
        next.neighbors[i].distance,
        next.neighbors[j].distance,
    ) by {
        assert(reads(next.neighbors[i], points@[i]));
        assert(reads(next.neighbors[j], points@[j]));
    }
}

impl<E, D> View for Search<E, D> {
    type V = SearchView<E, D>;

    closed spec fn view(&self) -> SearchView<E, D> {
        SearchView {
            model: self.model@,
            prompt_model: self.prompt_model@,
            collection: self.collection@,
            text: self.text@,
            target: opt_view(self.target),
            limit: self.limit,
            english: opt_view(self.english),
            vector: self.vector,
            neighbors: self.neighbors@,
            phase: self.phase,
        }
    }
}

impl<E, D> Search<E, D> {
    /// Starts the search that `req` asks for; `action` gives the first
    /// action.
    pub fn new(req: FindDatabaseReq, config: &Config) -> (r: Search<E, D>)
        ensures
            r@.wf(),
            r@.model == match req.model {
                Some(m) => m@,
                None => config.embedding_model@,
            },
            r@.prompt_model == config.prompt_model@,
            r@.collection == req.collection@,
            r@.text == req.text@,
            r@.target == target_language(opt_view(req.translate_to)),
            r@.limit == match req.limit {
                Some(n) => n,
                None => config.default_limit,
            },
            r@.english is None,
            r@.vector is None,
            r@.neighbors.len() == 0,
            r@.phase == if r@.target is Some {
                SearchPhase::Translating
            } else {
                SearchPhase::Embedding
            },
    {
        let model = config.embedding_model_for(&req.model);
        let target = translation_target(&req.translate_to);
        let limit = config.limit_for(req.limit);
        let phase = if target.is_some() {
            SearchPhase::Translating
        } else {
            SearchPhase::Embedding
        };
        let FindDatabaseReq { text, model: _, collection, translate_to: _, limit: _ } = req;
        Search {
            model,
            prompt_model: config.prompt_model.clone(),
            collection,
            text,
            target,
            limit,
            english: None,
            vector: None,
            neighbors: Vec::new(),
            phase,
        }
    }

    /// The action the search waits on.
    pub fn action(&self) -> (a: SearchAction)
        requires
            self@.wf(),
        ensures
            self@.asks(a),
    {
        match self.phase {
            SearchPhase::Translating => match &self.target {
                Some(lang) => SearchAction::Generate {
                    prompt: translate_prompt(self.text.as_str(), lang.as_str()),
                    model: self.prompt_model.clone(),
                },
                None => SearchAction::Done,
            },
            SearchPhase::Embedding => {
                let text = match &self.english {
                    Some(t) => t.clone(),
                    None => self.text.clone(),
                };
                SearchAction::Embed { text, model: self.model.clone() }
            },
            SearchPhase::Querying => SearchAction::Query {
                collection: self.collection.clone(),
                limit: self.limit,
            },
            SearchPhase::Finished => SearchAction::Done,
            SearchPhase::Failed(e) => SearchAction::Failed(e),
        }
    }

    /// Takes the outcome of the pending action and gives the next action.
    pub fn step(&mut self, event: SearchEvent<E, D>) -> (a: SearchAction)
        requires
            old(self)@.wf(),
        ensures
            final(self)@.wf(),
            old(self)@.steps_to(event, final(self)@),
            final(self)@.asks(a),
    {
        match event {
            SearchEvent::Generated(answer) => {
                if self.phase == SearchPhase::Translating {
                    match answer {
                        Some(t) => {
                            self.english = Some(t);
                            self.phase = SearchPhase::Embedding;
                        },
                        None => {
                            self.phase = SearchPhase::Failed(PipelineError::Provider);
                        },
                    }
                }
            },
            SearchEvent::Embedded(answer) => {
                if self.phase == SearchPhase::Embedding {
                    match Ollama::first_embedding(answer) {
                        Some(v) => {
                            self.vector = Some(v);
                            self.phase = SearchPhase::Querying;
                        },
                        None => {
                            self.phase = SearchPhase::Failed(PipelineError::Provider);
                        },
                    }
                }
            },
            SearchEvent::Queried(answer) => {
                if self.phase == SearchPhase::Querying {
                    match answer {
                        Some(points) => {
                            self.neighbors = neighbors_from_points(points);
                            self.phase = SearchPhase::Finished;
                        },
                        None => {
                            self.phase = SearchPhase::Failed(PipelineError::Store);
                        },
                    }
                }
            },
        }
        self.action()
    }

    /// Where the search stands.
    pub fn phase(&self) -> (p: SearchPhase)
        ensures
            p == self@.phase,
    {
        self.phase
    }

    /// The vector to query with, once the query text is embedded.
    pub fn query_vector(&self) -> (r: Option<&E>)
        ensures
            r == match self@.vector {
                Some(v) => Some(&v),
                None => None::<&E>,
            },
    {
        self.vector.as_ref()
    }

    /// The neighbors found, nearest first.
    pub fn into_neighbors(self) -> (r: Vec<FindDatabaseResult<D>>)
        ensures
            r@ == self@.neighbors,
    {
        self.neighbors
    }
}

} // verus!
