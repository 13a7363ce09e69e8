//! The REST pagination engine: following "next" relations in link headers
//! until a page carries none, and the law that such a run delivers every
//! page exactly once, in order.

use vstd::prelude::*;
use crate::outcome::ApiError;

verus! {

/// What the standard link-relation syntax yields for a header: `None` when
/// the header is unparsable, otherwise the target of the relation marked
/// "next", if one is present.
pub uninterp spec fn link_next_of(header: Seq<char>) -> Option<Option<Seq<char>>>;

/// The view of an optional string.
pub open spec fn view_opt(o: Option<String>) -> Option<Seq<char>> {
    match o {
        Some(s) => Some(s@),
        None => None,
    }
}

/// Relies on hyper_old_types::header::Link: parsing a link header per the
/// standard link-relation syntax and picking the first relation marked
/// "next" is a function of the header text alone.
#[verifier::external_body]
fn parse_next_link(header: &str) -> (r: Result<Option<String>, ()>)
    ensures
        r matches Ok(n) ==> link_next_of(header@) == Some(view_opt(n)),
        r is Err ==> link_next_of(header@) is None,
{
    let links: hyper_old_types::header::Link = match header.parse() {
        Ok(links) => links,
        Err(_) => return Err(()),
    };
    for value in links.values() {
        let is_next = value
            .rel()
            .map(|rels| rels.iter().any(|r| *r == hyper_old_types::header::RelationType::Next))
            .unwrap_or(false);
        if is_next {
            return Ok(Some(value.link().to_string()));
        }
    }
    Ok(None)
}

/// One pagination step: from a page's optional link header to the URL of
/// the next page. No header or no "next" relation ends the traversal; an
/// unparsable header is a protocol violation.
pub fn next_page_url(link_header: Option<&String>) -> (r: Result<Option<String>, ApiError>)
    ensures
        link_header is None ==> r == Ok::<Option<String>, ApiError>(None::<String>),
        link_header matches Some(h) && link_next_of(h@) is None ==> r == Err::<
            Option<String>,
            ApiError,
        >(ApiError::Protocol),
        link_header matches Some(h) ==> (link_next_of(h@) matches Some(n) ==> (r matches Ok(m)
            && view_opt(m) == n)),
{
    match link_header {
        None => Ok(None),
        Some(h) => match parse_next_link(h.as_str()) {
            Ok(n) => Ok(n),
            Err(_) => Err(ApiError::Protocol),
        },
    }
}

/// Whether a page's link header leads the engine to a further page.
pub open spec fn page_has_next(header: Option<Seq<char>>) -> bool {
    header matches Some(h) && link_next_of(h) matches Some(Some(_))
}

/// The pages the engine feeds to the accumulation step, given the link
/// headers of the pages the transport would return, paired with the pages
/// themselves: page after page while a "next" relation is announced,
/// stopping with the first page that announces none.
pub open spec fn pages_delivered<A>(headers: Seq<Option<Seq<char>>>, pages: Seq<A>) -> Seq<A>
    decreases headers.len(),
{
    if headers.len() == 0 || pages.len() == 0 {
        Seq::empty()
    } else if page_has_next(headers[0]) {
        seq![pages[0]] + pages_delivered(headers.drop_first(), pages.drop_first())
    } else {
        seq![pages[0]]
    }
}

/// Pagination law: over a run of n pages in which every page but the last
/// carries a "next" link and the last does not, the accumulation step sees
/// every page exactly once, in order — the traversal delivers the whole
/// run unchanged.
pub proof fn lemma_pagination_delivers_all<A>(headers: Seq<Option<Seq<char>>>, pages: Seq<A>)
    requires
        headers.len() == pages.len(),
        headers.len() > 0,
        forall|i: int| 0 <= i < headers.len() - 1 ==> page_has_next(#[trigger] headers[i]),
        !page_has_next(headers[headers.len() - 1]),
    ensures
        pages_delivered(headers, pages) == pages,
    decreases headers.len(),
{
    if headers.len() == 1 {
        assert(pages_delivered(headers, pages) =~= pages);
    } else {
        lemma_pagination_delivers_all(headers.drop_first(), pages.drop_first());
        assert(pages_delivered(headers, pages) =~= pages);
    }
}

} // verus!
