//! The embedding provider adapter: how a provider's answer becomes one
//! embedding or a failure.

use vstd::prelude::*;

verus! {

/// The embedding and generation provider.
pub struct Ollama {}

/// The embedding a provider answer yields: the first of the embeddings it
/// returned; none when the call failed or returned no embedding.
pub open spec fn first_of<E>(answer: Option<Vec<E>>) -> Option<E> {
    match answer {
        Some(v) => if v@.len() > 0 { Some(v@[0]) } else { None },
        None => None,
    }
}

impl Ollama {
    /// The single embedding of a provider answer. An answer with no
    /// embedding is a failure, not an empty vector.
    pub fn first_embedding<E>(answer: Option<Vec<E>>) -> (r: Option<E>)
        ensures
            r == first_of(answer),
    {
        match answer {
            Some(v) => {
                let mut v = v;
                if v.len() > 0 {
                    Some(v.remove(0))
                } else {
                    None
                }
            },
            None => None,
        }
    }
}

} // verus!
