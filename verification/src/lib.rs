pub mod css;
pub mod errors;
pub mod mirror;
pub mod scan;
pub mod urls;
