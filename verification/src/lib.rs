//! Dictionary validation, version strings and build information of a data
//! validation library, with their contracts.
pub mod errors;
pub mod output_dict;
pub mod json;
pub mod dict;
pub mod version;
pub mod iteration_order;
pub mod dict_laws;
