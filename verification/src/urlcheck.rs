use vstd::prelude::*;
use crate::strutil::{starts_with, contains_seq, str_starts_with, str_contains};

verus! {

/// The Unicode lowercase mapping of a character sequence, as
/// `str::to_lowercase` computes it.
pub uninterp spec fn lower_of(s: Seq<char>) -> Seq<char>;

/// Relies on `str::to_lowercase`: the result is the lowercase equivalent of
/// the input and depends on its characters alone.
#[verifier::external_body]
fn lowercase(s: &str) -> (r: String)
    ensures
        r@ == lower_of(s@),
{
    s.to_lowercase()
}

/// A lowercased candidate counts as downloadable: it is an absolute `http`
/// or `https` URL and names one of the known video sites.
pub open spec fn is_video_seq(low: Seq<char>) -> bool {
    &&& (starts_with(low, "http://"@) || starts_with(low, "https://"@))
    &&& {
        ||| contains_seq(low, "pornhub.com"@)
        ||| contains_seq(low, "xvideos.com"@)
        ||| contains_seq(low, "xhamster.com"@)
        ||| contains_seq(low, "youtube.com"@)
        ||| contains_seq(low, "youtu.be"@)
        ||| contains_seq(low, "vimeo.com"@)
        ||| contains_seq(low, "dailymotion.com"@)
        ||| contains_seq(low, "twitch.tv"@)
        ||| contains_seq(low, "tiktok.com"@)
        ||| contains_seq(low, "instagram.com"@)
        ||| contains_seq(low, "facebook.com"@)
        ||| contains_seq(low, "twitter.com"@)
        ||| contains_seq(low, "x.com"@)
    }
}

/// Classifies an already-lowercased candidate string.
pub fn is_video_text(low: &str) -> (r: bool)
    ensures
        r == is_video_seq(low@),
{
    if !str_starts_with(low, "http://") && !str_starts_with(low, "https://") {
        return false;
    }
    str_contains(low, "pornhub.com") || str_contains(low, "xvideos.com")
        || str_contains(low, "xhamster.com") || str_contains(low, "youtube.com")
        || str_contains(low, "youtu.be") || str_contains(low, "vimeo.com")
        || str_contains(low, "dailymotion.com") || str_contains(low, "twitch.tv")
        || str_contains(low, "tiktok.com") || str_contains(low, "instagram.com")
        || str_contains(low, "facebook.com") || str_contains(low, "twitter.com")
        || str_contains(low, "x.com")
}

/// Whether a discovered candidate counts as a video URL: the test is made on
/// the lowercase form of the string.
pub fn is_video_url(url: &str) -> (r: bool)
    ensures
        r == is_video_seq(lower_of(url@)),
{
    let low = lowercase(url);
    is_video_text(low.as_str())
}

} // verus!
