//! Requests and results of the pipelines. Embedding vectors and distances are
//! type parameters: the pipelines carry them and never compute with them.

use vstd::prelude::*;
use crate::json::JsonObject;

verus! {

/// An item to store: an optional id, its raw text, optional metadata.
pub struct PostDatabaseItem {
    pub id: Option<String>,
    pub text: String,
    pub metadata: Option<JsonObject>,
}

/// The items of an insert request: bare texts, or items.
pub enum DataType {
    StringList(Vec<String>),
    ItemList(Vec<PostDatabaseItem>),
}

/// A request to embed and store items.
pub struct PostDatabaseReq {
    pub data: DataType,
    pub model: Option<String>,
    pub collection: String,
    pub translate_to: Option<String>,
    pub calculate_nearest: Option<usize>,
}

/// A stored item as the insert response reports it.
pub struct PostDatabaseResult<E> {
    pub text: String,
    pub metadata: Option<JsonObject>,
    pub english: Option<String>,
    pub embeddings: E,
    pub id: String,
}

/// An item that comes with its own embedding.
pub struct PostEmbeddingsItem<E> {
    pub id: String,
    pub text: String,
    pub metadata: Option<JsonObject>,
    pub english: Option<String>,
    pub embeddings: E,
}

/// A request to store items with precomputed embeddings.
pub struct PostEmbeddingsReq<E> {
    pub data: Vec<PostEmbeddingsItem<E>>,
    pub collection: String,
    pub calculate_nearest: Option<usize>,
}

/// A similarity search request.
pub struct FindDatabaseReq {
    pub text: String,
    pub model: Option<String>,
    pub collection: String,
    pub translate_to: Option<String>,
    pub limit: Option<usize>,
}

/// A neighbor found by a search; lower `distance` means more similar.
pub struct FindDatabaseResult<D> {
    pub id: String,
    pub text: String,
    pub metadata: Option<JsonObject>,
    pub distance: D,
}

/// An item made of a bare text: no id and no metadata.
pub open spec fn is_bare_item(item: PostDatabaseItem, text: Seq<char>) -> bool {
    &&& item.id is None
    &&& item.text@ == text
    &&& item.metadata is None
}

/// `items` are the items of `data`, bare texts made into items without id or
/// metadata, in their order.
pub open spec fn normalizes(data: DataType, items: Seq<PostDatabaseItem>) -> bool {
    &&& items.len() == data.len()
    &&& data matches DataType::ItemList(l) ==> items == l@
    &&& data matches DataType::StringList(l) ==> forall|i: int|
        0 <= i < l@.len() ==> #[trigger] is_bare_item(items[i], l@[i]@)
}

impl DataType {
    /// The number of items the data holds.
    pub open spec fn len(self) -> nat {
        match self {
            DataType::StringList(l) => l@.len(),
            DataType::ItemList(l) => l@.len(),
        }
    }

    /// The items of the data, bare texts made into items without id or
    /// metadata, in their order.
    pub fn into_items(self) -> (r: Vec<PostDatabaseItem>)
        ensures
            normalizes(self, r@),
    {
        match self {
            DataType::ItemList(l) => l,
            DataType::StringList(l) => {
                let mut r: Vec<PostDatabaseItem> = Vec::new();
                let mut i: usize = 0;
                while i < l.len()
                    invariant
                        i <= l@.len(),
                        r@.len() == i,
                        forall|j: int| 0 <= j < i ==> #[trigger] is_bare_item(r@[j], l@[j]@),
                    decreases l@.len() - i,
                {
                    r.push(PostDatabaseItem { id: None, text: l[i].clone(), metadata: None });
                    i = i + 1;
                }
                r
            },
        }
    }
}

} // verus!
