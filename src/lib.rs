//! The Gamma distribution with shape α and rate β: parameter validation and
//! the branch policies of its density, log-density, distribution function and
//! Marsaglia–Tsang sampler, all stated over the binary64 encodings of the values
//! involved.

pub mod binary64;
pub mod gamma;
pub mod sampler;
