//! A verified catalog of trading-card data: cards with kind-dependent
//! side attributes, products and their sets, and a structural filter
//! engine that decides which entities satisfy a partially-specified
//! query object.

pub mod card;
pub mod catalog;
pub mod date;
pub mod digits;
pub mod filter;
pub mod product;
pub mod strutil;
