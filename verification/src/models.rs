//! The models that an endpoint offers, as its list reports them.

use vstd::prelude::*;

verus! {

/// The finer points of a model. A detail that the endpoint left out is the empty string.
#[derive(Debug)]
pub struct ModelDetails {
    pub format: String,
    pub family: String,
    pub parameter_size: String,
    pub quantization_level: String,
}

/// The details of a model as plain values.
pub struct ModelDetailsView {
    pub format: Seq<char>,
    pub family: Seq<char>,
    pub parameter_size: Seq<char>,
    pub quantization_level: Seq<char>,
}

/// One entry of the model list.
#[derive(Debug)]
pub struct ModelInfo {
    /// The name under which the model is asked for.
    pub name: String,
    /// The size of the model in bytes; 0 where the endpoint left it out.
    pub size: i64,
    /// The hash of the model's content; empty where the endpoint left it out.
    pub digest: String,
    pub details: ModelDetails,
}

/// An entry of the model list as plain values.
pub struct ModelInfoView {
    pub name: Seq<char>,
    pub size: i64,
    pub digest: Seq<char>,
    pub details: ModelDetailsView,
}

impl View for ModelDetails {
    type V = ModelDetailsView;

    open spec fn view(&self) -> ModelDetailsView {
        ModelDetailsView {
            format: self.format@,
            family: self.family@,
            parameter_size: self.parameter_size@,
            quantization_level: self.quantization_level@,
        }
    }
}

impl View for ModelInfo {
    type V = ModelInfoView;

    open spec fn view(&self) -> ModelInfoView {
        ModelInfoView {
            name: self.name@,
            size: self.size,
            digest: self.digest@,
            details: self.details@,
        }
    }
}

/// A text that may be missing: the text itself, or the empty text.
pub open spec fn text_or_empty(text: Option<String>) -> Seq<char> {
    match text {
        Some(text) => text@,
        None => Seq::<char>::empty(),
    }
}

/// The details in which every field is empty.
pub open spec fn empty_details() -> ModelDetailsView {
    ModelDetailsView {
        format: Seq::<char>::empty(),
        family: Seq::<char>::empty(),
        parameter_size: Seq::<char>::empty(),
        quantization_level: Seq::<char>::empty(),
    }
}

/// `text`, or the empty string where there is none.
fn or_empty(text: Option<String>) -> (filled: String)
    ensures
        filled@ == text_or_empty(text),
{
    match text {
        Some(text) => text,
        None => String::new(),
    }
}

impl Default for ModelDetails {
    /// The details in which every field is empty.
    fn default() -> (details: ModelDetails)
        ensures
            details@ == empty_details(),
    {
        ModelDetails {
            format: String::new(),
            family: String::new(),
            parameter_size: String::new(),
            quantization_level: String::new(),
        }
    }
}

impl ModelDetails {
    /// The details made of the fields that the endpoint gave: each one that is missing becomes
    /// the empty string.
    pub fn from_parts(
        format: Option<String>,
        family: Option<String>,
        parameter_size: Option<String>,
        quantization_level: Option<String>,
    ) -> (details: ModelDetails)
        ensures
            details@ == (ModelDetailsView {
                format: text_or_empty(format),
                family: text_or_empty(family),
                parameter_size: text_or_empty(parameter_size),
                quantization_level: text_or_empty(quantization_level),
            }),
    {
        ModelDetails {
            format: or_empty(format),
            family: or_empty(family),
            parameter_size: or_empty(parameter_size),
            quantization_level: or_empty(quantization_level),
        }
    }
}

impl ModelInfo {
    /// The entry made of what the endpoint gave for one model. The name is always there; a
    /// missing size is 0, a missing digest the empty string, and missing details are all empty.
    pub fn from_parts(
        name: String,
        size: Option<i64>,
        digest: Option<String>,
        details: Option<ModelDetails>,
    ) -> (model: ModelInfo)
        ensures
            model@ == (ModelInfoView {
                name: name@,
                size: match size {
                    Some(size) => size,
                    None => 0i64,
                },
                digest: text_or_empty(digest),
                details: match details {
                    Some(details) => details@,
                    None => empty_details(),
                },
            }),
    {
        ModelInfo {
            name,
            size: match size {
                Some(size) => size,
                None => 0,
            },
            digest: or_empty(digest),
            details: match details {
                Some(details) => details,
                None => ModelDetails::default(),
            },
        }
    }
}

} // verus!
