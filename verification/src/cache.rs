use vstd::prelude::*;
use crate::json::{is_whole_number, Json, JsonModel, ObjectBuilder};
use crate::registry::opt_text;
use crate::server::text_or_null;
use crate::text::{signed_decimal, signed_text};

verus! {

/// What the cache store counts.
#[derive(Debug, Clone, PartialEq, Eq)]
pub struct CacheCounts {
    pub cached_playlists: i32,
    pub downloaded_streams: i32,
    pub probe_results: i32,
    /// The bytes of all downloads; none where nothing was downloaded.
    pub total_download_size: Option<i64>,
    pub latest_download: Option<String>,
    pub latest_cache: Option<String>,
}

/// A number as a document.
pub open spec fn number_doc(n: int) -> JsonModel {
    JsonModel::Number(signed_decimal(n))
}

/// The statistics of the cache as the resource `m3u8://cache/stats` shows
/// them. Where nothing was downloaded the size is 0.
pub open spec fn cache_stats_model(c: CacheCounts) -> JsonModel {
    JsonModel::Object(
        Seq::empty().push(("cached_playlists"@, number_doc(c.cached_playlists as int))).push(
            ("downloaded_streams"@, number_doc(c.downloaded_streams as int)),
        ).push(("probe_results"@, number_doc(c.probe_results as int))).push(
            (
                "total_download_size"@,
                number_doc(
                    match c.total_download_size {
                        Some(n) => n as int,
                        None => 0,
                    },
                ),
            ),
        ).push(("latest_download"@, text_or_null(opt_text(c.latest_download)))).push(
            ("latest_cache"@, text_or_null(opt_text(c.latest_cache))),
        ),
    )
}

fn number(n: i64) -> (j: Json)
    ensures
        j@ == number_doc(n as int),
{
    Json::Number(signed_text(n))
}

fn text_or_nothing(s: &Option<String>) -> (j: Json)
    ensures
        j@ == text_or_null(opt_text(*s)),
{
    match s {
        Some(t) => Json::text(t.as_str()),
        None => Json::Null,
    }
}

/// The statistics of the cache as the resource `m3u8://cache/stats` shows
/// them.
pub fn cache_stats_doc(counts: &CacheCounts) -> (doc: Json)
    ensures
        doc@ == cache_stats_model(*counts),
        doc@.plain_numbers(),
{
    let size = match counts.total_download_size {
        Some(n) => n,
        None => 0,
    };
    proof {
        let members = cache_stats_model(*counts)->Object_0;
        assert forall|i: int| 0 <= i < members.len() implies (
        #[trigger] members[i]).1.plain_numbers() by {
            if i == 0 {
                assert(is_whole_number(signed_decimal(counts.cached_playlists as int)));
            } else if i == 1 {
                assert(is_whole_number(signed_decimal(counts.downloaded_streams as int)));
            } else if i == 2 {
                assert(is_whole_number(signed_decimal(counts.probe_results as int)));
            } else if i == 3 {
                assert(is_whole_number(signed_decimal(size as int)));
            } else if i == 4 {
            } else {
                assert(i == 5);
            }
        }
    }
    ObjectBuilder::new().with("cached_playlists", number(counts.cached_playlists as i64)).with(
        "downloaded_streams",
        number(counts.downloaded_streams as i64),
    ).with("probe_results", number(counts.probe_results as i64)).with(
        "total_download_size",
        number(size),
    ).with("latest_download", text_or_nothing(&counts.latest_download)).with(
        "latest_cache",
        text_or_nothing(&counts.latest_cache),
    ).build()
}

} // verus!
