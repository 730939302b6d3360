//! The shapes of the OpenRouter frontend model listing.
//!
//! The listing itself comes over HTTP outside the library; these are the
//! plain values a parsed listing decodes into.

use vstd::prelude::*;

verus! {

/// One model of the listing.
#[derive(Default, Debug, Clone, PartialEq)]
pub struct Model {
    pub slug: String,
    pub updated_at: String,
    pub created_at: String,
    pub name: String,
    pub short_name: String,
    pub author: String,
    pub description: String,
    pub context_length: i64,
    pub input_modalities: Vec<String>,
    pub output_modalities: Vec<String>,
    pub has_text_output: bool,
    pub group: String,
    pub permaslug: String,
    pub endpoint: Option<Endpoint>,
}

/// The serving endpoint of a model, when the listing carries one.
#[derive(Default, Debug, Clone, PartialEq)]
pub struct Endpoint {
    pub name: String,
    pub context_length: i64,
    pub model_variant_slug: String,
    pub model_variant_permaslug: String,
    pub is_free: bool,
}

/// The envelope of the whole listing.
#[derive(Default, Debug, Clone, PartialEq)]
pub struct ModelsResponse {
    pub data: Vec<Model>,
}

} // verus!
