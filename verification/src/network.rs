//! Download formats and canonical download-URL construction.
use vstd::prelude::*;

use crate::text::{
    append_chars, append_str, chars_to_string, is_space, lower_char, lower_spec, str_to_chars,
    trim_chars, trim_end_spec, trim_spec, trim_start_spec, lower_chars,
};

verus! {

/// The two downloadable extract formats; each owns a fixed filename suffix.
#[derive(Clone, Copy, Debug)]
pub enum DownloadFormat {
    Pbf,
    Shapefile,
}

/// The filename suffix owned by a format.
pub open spec fn suffix_spec(format: DownloadFormat) -> Seq<char> {
    match format {
        DownloadFormat::Pbf => "-latest.osm.pbf"@,
        DownloadFormat::Shapefile => "-latest-free.shp.zip"@,
    }
}

impl DownloadFormat {
    pub fn suffix(&self) -> (r: &'static str)
        ensures
            r@ == suffix_spec(*self),
    {
        match self {
            DownloadFormat::Pbf => "-latest.osm.pbf",
            DownloadFormat::Shapefile => "-latest-free.shp.zip",
        }
    }
}

/// Capacity of the bounded event channel between background work and the
/// coordinator: a producer past it blocks its own background task, never the
/// reactor.
pub const EVENT_CHANNEL_CAPACITY: usize = 100;

/// A lifecycle event, the sole channel of truth from background work to the
/// coordinator. Progress is an integer percentage from 0 to 100.
#[derive(Debug)]
pub enum DownloadEvent {
    Progress(u64),
    Complete(String),
    Error(String),
    ImportStarted,
    ImportFinished(String),
    ImportFailed(String),
}

/// A region selector component, trimmed and lowercased.
pub open spec fn norm_spec(s: Seq<char>) -> Seq<char> {
    lower_spec(trim_spec(s))
}

/// The canonical download URL for a region selector and a format: the most
/// specific non-empty component wins, and empty country/region mean "not
/// specified" rather than literal empty path segments.
pub open spec fn url_spec(
    continent: Seq<char>,
    country: Seq<char>,
    region: Seq<char>,
    format: DownloadFormat,
) -> Seq<char> {
    let base = "https://download.geofabrik.de"@;
    let c = norm_spec(continent);
    let k = norm_spec(country);
    let r = norm_spec(region);
    let sfx = suffix_spec(format);
    if r.len() == 0 {
        if k.len() == 0 {
            base + "/"@ + c + sfx
        } else {
            base + "/"@ + c + "/"@ + k + sfx
        }
    } else {
        base + "/"@ + c + "/"@ + k + "/"@ + r + sfx
    }
}

/// The downloader: it resolves region selectors to canonical URLs; the
/// streaming and retrying of one logical download is modelled in `fetch`.
pub struct Downloader {}

impl Downloader {
    pub fn new() -> (r: Self) {
        Downloader {  }
    }

    /// Resolves a region selector and a format to the canonical download URL.
    pub fn construct_url(
        &self,
        continent: &str,
        country: &str,
        region: &str,
        format: &DownloadFormat,
    ) -> (r: String)
        ensures
            r@ == url_spec(continent@, country@, region@, *format),
    {
        let c = lower_chars(&trim_chars(&str_to_chars(continent)));
        let k = lower_chars(&trim_chars(&str_to_chars(country)));
        let g = lower_chars(&trim_chars(&str_to_chars(region)));
        let mut out: Vec<char> = Vec::new();
        append_str(&mut out, "https://download.geofabrik.de");
        append_str(&mut out, "/");
        append_chars(&mut out, &c);
        if g.len() == 0 {
            if k.len() > 0 {
                append_str(&mut out, "/");
                append_chars(&mut out, &k);
            }
        } else {
            append_str(&mut out, "/");
            append_chars(&mut out, &k);
            append_str(&mut out, "/");
            append_chars(&mut out, &g);
        }
        append_str(&mut out, format.suffix());
        proof {
            assert(out@ =~= url_spec(continent@, country@, region@, *format));
        }
        chars_to_string(&out)
    }
}

proof fn lemma_trim_start_head(s: Seq<char>)
    ensures
        trim_start_spec(s).len() > 0 ==> !is_space(trim_start_spec(s)[0]),
    decreases s.len(),
{
    if s.len() > 0 && is_space(s[0]) {
        lemma_trim_start_head(s.drop_first());
    }
}

proof fn lemma_trim_end_last(s: Seq<char>)
    ensures
        trim_end_spec(s).len() > 0 ==> !is_space(trim_end_spec(s)[trim_end_spec(s).len() - 1]),
    decreases s.len(),
{
    if s.len() > 0 && is_space(s[s.len() - 1]) {
        lemma_trim_end_last(s.drop_last());
    }
}

proof fn lemma_trim_end_keeps_head(s: Seq<char>)
    requires
        s.len() > 0,
        !is_space(s[0]),
    ensures
        trim_end_spec(s).len() > 0,
        trim_end_spec(s)[0] == s[0],
    decreases s.len(),
{
    if is_space(s[s.len() - 1]) {
        lemma_trim_end_keeps_head(s.drop_last());
    }
}

/// A sequence with no whitespace at either end is unchanged by trimming.
proof fn lemma_trim_of_trimmed(s: Seq<char>)
    requires
        s.len() > 0 ==> !is_space(s[0]) && !is_space(s[s.len() - 1]),
    ensures
        trim_spec(s) == s,
{
}

proof fn lemma_lower_preserves_space(c: char)
    ensures
        is_space(lower_char(c)) == is_space(c),
{
}

proof fn lemma_norm_idempotent(s: Seq<char>)
    ensures
        norm_spec(norm_spec(s)) == norm_spec(s),
{
    let t = trim_spec(s);
    let lt = lower_spec(t);
    lemma_trim_start_head(s);
    lemma_trim_end_last(trim_start_spec(s));
    if trim_start_spec(s).len() > 0 {
        lemma_trim_end_keeps_head(trim_start_spec(s));
    }
    // `t` has no whitespace at either end, and lowering preserves that.
    if t.len() > 0 {
        lemma_lower_preserves_space(t[0]);
        lemma_lower_preserves_space(t[t.len() - 1]);
        assert(lt[0] == lower_char(t[0]));
        assert(lt[lt.len() - 1] == lower_char(t[t.len() - 1]));
    }
    lemma_trim_of_trimmed(lt);
    assert(lower_spec(lt) =~= lt);
}

/// Resolution is insensitive to surrounding whitespace and letter case: a
/// selector already in canonical (trimmed, lowercased) form resolves to the
/// same URL as any selector that normalizes to it. Determinism itself is the
/// `construct_url` contract: the result is a function of the inputs alone.
pub proof fn lemma_url_normalization_invariant(
    continent: Seq<char>,
    country: Seq<char>,
    region: Seq<char>,
    format: DownloadFormat,
)
    ensures
        url_spec(
            norm_spec(continent),
            norm_spec(country),
            norm_spec(region),
            format,
        ) == url_spec(continent, country, region, format),
{
    lemma_norm_idempotent(continent);
    lemma_norm_idempotent(country);
    lemma_norm_idempotent(region);
}

} // verus!
