//! Configuration of the pipelines: model names, result limit, and the shape
//! of a newly created collection.

use vstd::prelude::*;

verus! {

/// Model that embeds text unless a request names another.
pub const DEFAULT_EMBEDDING_MODEL: &'static str = "bge-m3";

/// Model that translates text.
pub const DEFAULT_PROMPT_MODEL: &'static str = "gemma2";

/// Number of neighbors a search returns unless it asks for another number.
pub const DEFAULT_LIMIT: usize = 10;

/// Vector size of a collection created on first write; such a collection
/// measures distance by `VectorMetric::Cosine`.
pub const VECTOR_SIZE: u64 = 1024;

/// How a collection measures the distance between vectors.
#[derive(Clone, Copy, Debug, PartialEq, Eq, Structural)]
pub enum VectorMetric {
    Cosine,
    Dot,
    Euclid,
}

/// What the pipelines are built with.
pub struct Config {
    pub embedding_model: String,
    pub prompt_model: String,
    pub default_limit: usize,
    pub vector_size: u64,
    pub metric: VectorMetric,
}

impl Config {
    /// The configuration with the default models, limit and vector size.
    pub fn standard() -> (r: Config)
        ensures
            r.embedding_model@ == DEFAULT_EMBEDDING_MODEL@,
            r.prompt_model@ == DEFAULT_PROMPT_MODEL@,
            r.default_limit == DEFAULT_LIMIT,
            r.vector_size == VECTOR_SIZE,
            r.metric == VectorMetric::Cosine,
    {
        Config {
            embedding_model: String::from_str(DEFAULT_EMBEDDING_MODEL),
            prompt_model: String::from_str(DEFAULT_PROMPT_MODEL),
            default_limit: DEFAULT_LIMIT,
            vector_size: VECTOR_SIZE,
            metric: VectorMetric::Cosine,
        }
    }

    /// The embedding model a request uses: its own, or the configured one.
    pub fn embedding_model_for(&self, requested: &Option<String>) -> (r: String)
        ensures
            r@ == match *requested {
                Some(m) => m@,
                None => self.embedding_model@,
            },
    {
        match requested {
            Some(m) => m.clone(),
            None => self.embedding_model.clone(),
        }
    }

    /// The number of neighbors a search asks for: its own, or the default.
    pub fn limit_for(&self, requested: Option<usize>) -> (r: usize)
        ensures
            r == match requested {
                Some(n) => n,
                None => self.default_limit,
            },
    {
        match requested {
            Some(n) => n,
            None => self.default_limit,
        }
    }
}

} // verus!
