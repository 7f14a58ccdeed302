//! The shape of the provider's metadata documents.
//!
//! The provider answers a fetch with a response carrying a list of video
//! items; a response with no items means the identifier matched no
//! content. These types hold that shape as plain values; the network
//! client that fills them lives outside the library.

use vstd::prelude::*;

verus! {

/// One thumbnail of a video.
pub struct Thumbnail {
    pub height: u32,
    pub url: String,
    pub width: u32,
}

/// The thumbnails of a video, by size.
pub struct Thumbnails {
    pub default: Thumbnail,
    pub high: Thumbnail,
    pub maxres: Option<Thumbnail>,
    pub medium: Thumbnail,
    pub standard: Option<Thumbnail>,
}

/// A title and description in the requested locale.
pub struct Localized {
    pub description: String,
    pub title: String,
}

/// The descriptive part of a video item.
pub struct YouTubeSnippet {
    pub category_id: String,
    pub channel_id: String,
    pub channel_title: String,
    pub description: String,
    pub live_broadcast_content: String,
    pub localized: Localized,
    pub published_at: String,
    pub thumbnails: Thumbnails,
    pub title: String,
}

/// One video item of a response.
pub struct YouTubeVideoItem {
    pub etag: String,
    pub id: String,
    pub kind: String,
    pub snippet: YouTubeSnippet,
}

/// The paging block of a response.
pub struct PageInfo {
    pub results_per_page: u32,
    pub total_results: u32,
}

/// A whole provider response.
pub struct YouTubeApiResponse {
    pub etag: String,
    pub kind: String,
    pub items: Vec<YouTubeVideoItem>,
    pub page_info: PageInfo,
}

impl YouTubeApiResponse {
    /// Whether the response matched any content: a fetch whose response
    /// carries no items reports the identifier as not found.
    pub fn has_items(&self) -> (r: bool)
        ensures
            r == (self.items@.len() > 0),
    {
        self.items.len() > 0
    }
}

} // verus!
