use vstd::prelude::*;

pub mod action;
pub mod client;
pub mod cookies;
pub mod json;
pub mod protocol;
pub mod strutil;

verus! {

/// The single API endpoint every request is sent to.
pub const API: &'static str = "http://wiki.bibanon.org/api.php";

/// Article metadata as read from a package directory's description file.
pub struct Metadata {
    pub title: String,
    pub summary: String,
    pub source: String,
    pub type_: String,
    pub tags: Vec<String>,
    pub stats: Vec<String>,
    pub sub: Option<String>,
}

} // verus!
