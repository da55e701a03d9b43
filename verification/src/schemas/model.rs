//! Descriptions of the models that backends serve.
use vstd::prelude::*;

verus! {

/// A model served by a connected backend.
pub struct ModelInfo {
    /// The model identifier, which can be referenced in the API endpoints.
    pub id: String,
    /// The Unix timestamp (in seconds) when the model was created.
    pub created: u64,
    /// The object type, which is always "model".
    pub object: String,
    /// The organization that owns the model.
    pub owned_by: String,
}

impl Clone for ModelInfo {
    fn clone(&self) -> (r: Self)
        ensures
            r == *self,
    {
        ModelInfo {
            id: self.id.clone(),
            created: self.created,
            object: self.object.clone(),
            owned_by: self.owned_by.clone(),
        }
    }
}

/// The answer to a request for the list of models.
pub struct ListModelsResponse {
    /// The object type, which is always "list".
    pub object: String,
    /// Available models.
    pub data: Vec<ModelInfo>,
}

} // verus!
