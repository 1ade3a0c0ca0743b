//! Candidate video sources extracted from an HTML page.
//!
//! The page structure itself is the business of the HTML library; this
//! module fixes the selector and attribute names this program reads and
//! gives the extraction a contract the rest of the crate can build on.

use vstd::prelude::*;
use kuchiki::traits::TendrilSink;

verus! {

/// One candidate source read off the page: where the file lives and the
/// resolution label shown in the menu.
pub struct Video {
    pub url: String,
    pub resolution: String,
}

/// The `(url, resolution)` pairs that matching `selector` against the
/// document built from `html` yields, in document order, reading the
/// attributes named `url_attr` and `res_attr` (an absent attribute reads
/// as the empty string). The value depends on these four strings alone.
pub uninterp spec fn sources_in(
    html: Seq<char>,
    selector: Seq<char>,
    url_attr: Seq<char>,
    res_attr: Seq<char>,
) -> Seq<(Seq<char>, Seq<char>)>;

/// Relies on kuchiki: `parse_html().one(..)` builds the DOM of `html`,
/// `select` yields the elements matching `selector` in document order
/// (or `Err` for a selector that does not parse, which the fixed
/// selectors of this crate never are), and `Attributes::get` reads an
/// attribute in the null namespace. The result is a function of the
/// four argument strings alone.
#[verifier::external_body]
fn query_sources(html: &str, selector: &str, url_attr: &str, res_attr: &str) -> (r: Vec<Video>)
    ensures
        r@.len() == sources_in(html@, selector@, url_attr@, res_attr@).len(),
        forall|i: int| 0 <= i < r@.len() ==> r@[i].url@ == sources_in(
            html@,
            selector@,
            url_attr@,
            res_attr@,
        )[i].0 && r@[i].resolution@ == sources_in(html@, selector@, url_attr@, res_attr@)[i].1,
{
    let document = kuchiki::parse_html().one(html);
    match document.select(selector) {
        Ok(matches) => matches
            .map(|m| Video {
                url: m.attributes.borrow().get(url_attr).unwrap_or("").to_string(),
                resolution: m.attributes.borrow().get(res_attr).unwrap_or("").to_string(),
            })
            .collect(),
        Err(()) => Vec::new(),
    }
}

/// The sources of the player this program targets: the `src` and `res`
/// attributes of every `source` element under the `my-player` element.
pub open spec fn player_sources(html: Seq<char>) -> Seq<(Seq<char>, Seq<char>)> {
    sources_in(html, "#my-player > source"@, "src"@, "res"@)
}

/// Extract the candidate sources of the targeted player from a fetched
/// HTML page, in document order.
pub fn extract_sources(html: &str) -> (r: Vec<Video>)
    ensures
        r@.len() == player_sources(html@).len(),
        forall|i: int| 0 <= i < r@.len() ==> r@[i].url@ == player_sources(html@)[i].0
            && r@[i].resolution@ == player_sources(html@)[i].1,
{
    query_sources(html, "#my-player > source", "src", "res")
}

} // verus!
