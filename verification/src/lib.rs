//! Names image files after what a vision model sees in them.
//!
//! The library holds every decision of that work and none of its input or output:
//!
//! - [`sanitize`] turns the text of a model into a base file name that is safe everywhere;
//! - [`compress`] brings an image under a byte budget, by quality first and by size second;
//! - [`payload`] derives the budget from the context length and writes the image in base64;
//! - [`inference`] builds the request to the endpoint and says what a reply means;
//! - [`pipeline`] names one image, step by step, and [`rename`] applies a batch of renames:
//!   each tells its caller what to do on the file system or the network and takes the answer;
//! - [`paths`], [`info`], [`models`] and [`failure`] hold the smaller rules around them.
//!
//! [`codec`] is the one place that calls the image codec and the base64 encoder.

pub mod codec;
pub mod compress;
pub mod failure;
pub mod inference;
pub mod info;
pub mod models;
pub mod paths;
pub mod payload;
pub mod pipeline;
pub mod rename;
pub mod sanitize;
pub mod text;
