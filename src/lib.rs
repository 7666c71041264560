//! A small portfolio site's content layer: an in-memory content store behind
//! repository interfaces, thin application services, and the page renderer that
//! turns posts and services into view models and HTML.

pub mod models;
pub mod text;
pub mod ports;
pub mod repositories;
pub mod services;
pub mod views;
