//! Canteen menus of the Studentenwerk Schleswig-Holstein as typed records.
//!
//! The library reads the menu and catalogue pages of the upstream site into
//! meals and allergens, plans which pages a refresh fetches, keeps the latest
//! complete snapshot in a cache with a time to live, and filters the records
//! of a snapshot for a query. It never touches the network: whoever uses it
//! fetches the pages and hands their text over.
//!
//! Every function states what it returns over the views of its arguments.
//! Three outside engines do what is not this library's business: an HTML
//! parser with CSS selectors, a pattern engine and an entity decoder. Their
//! answers have names, and the contracts are exact in terms of those names.

pub mod api_filter;
pub mod cache;
pub mod config;
pub mod data;
pub mod dom;
pub mod error;
pub mod markup;
pub mod model;
pub mod number;
pub mod page;
pub mod parser;
pub mod price;
pub mod scrapers;
pub mod text;
pub mod views;
