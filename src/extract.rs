//! Reading the candidate identifiers out of the markup and filtering them.
use crate::exclusion::{texts_of, Config};
use crate::normalize::{names_of, Country};
use scraper::{Html, Selector};
use vstd::prelude::*;

verus! {

/// The view of an optional string.
pub open spec fn opt_text(o: Option<String>) -> Option<Seq<char>> {
    match o {
        Some(s) => Some(s@),
        None => None,
    }
}

/// The value of the `id` attribute of each `span` element of `markup`, in
/// document order, with `None` for a span that has no such attribute, as
/// scraper's tolerant HTML parser reads the text as a fragment.
pub uninterp spec fn span_ids_of(markup: Seq<char>) -> Seq<Option<Seq<char>>>;

/// Relies on scraper's `Html::parse_fragment`, `Selector::parse("span")`,
/// `Html::select` and `Element::attr("id")`: the parser never fails (it
/// recovers from malformed markup), `select` walks the matching elements in
/// document order, and `attr` gives the attribute's value if present.
#[verifier::external_body]
fn span_ids(markup: &str) -> (r: Vec<Option<String>>)
    ensures
        r@.len() == span_ids_of(markup@).len(),
        forall|i: int| 0 <= i < r@.len() ==> opt_text(#[trigger] r@[i]) == span_ids_of(markup@)[i],
{
    let fragment = Html::parse_fragment(markup);
    let selector = Selector::parse("span").unwrap();
    fragment.select(&selector).map(|e| e.value().attr("id").map(String::from)).collect()
}

/// The identifiers that survive filtering, in their original order: spans
/// without an identifier and excluded identifiers are dropped, duplicates kept.
pub open spec fn kept_ids(ids: Seq<Option<Seq<char>>>, excluded: Seq<Seq<char>>) -> Seq<Seq<char>>
    decreases ids.len(),
{
    if ids.len() == 0 {
        seq![]
    } else {
        let rest = kept_ids(ids.drop_last(), excluded);
        match ids.last() {
            Some(t) => if excluded.contains(t) {
                rest
            } else {
                rest.push(t)
            },
            None => rest,
        }
    }
}

/// The raw entities of a list of span identifiers: those present and not
/// excluded by `config`, in order.
pub fn select_entity_ids(span_ids: &Vec<Option<String>>, config: &Config) -> (r: Vec<Country>)
    ensures
        names_of(r@) == kept_ids(
            span_ids@.map_values(|o: Option<String>| opt_text(o)),
            texts_of(config.excluded_ids@),
        ),
{
    let ghost ids = span_ids@.map_values(|o: Option<String>| opt_text(o));
    let ghost excluded = texts_of(config.excluded_ids@);
    let mut kept: Vec<Country> = Vec::new();
    let mut i: usize = 0;
    while i < span_ids.len()
        invariant
            i <= span_ids@.len(),
            ids == span_ids@.map_values(|o: Option<String>| opt_text(o)),
            excluded == texts_of(config.excluded_ids@),
            names_of(kept@) == kept_ids(ids.subrange(0, i as int), excluded),
        decreases span_ids@.len() - i,
    {
        let ghost before = kept@;
        assert(ids.subrange(0, i + 1).drop_last() =~= ids.subrange(0, i as int));
        match &span_ids[i] {
            Some(id) => {
                if !config.excludes(id.as_str()) {
                    kept.push(Country { name: id.clone() });
                    assert(names_of(kept@) =~= names_of(before).push(id@));
                }
            },
            None => {},
        }
        i = i + 1;
    }
    assert(ids.subrange(0, span_ids@.len() as int) =~= ids);
    kept
}

/// The raw entities of the markup: the identifier of every span element,
/// in document order, less those that `config` excludes. Markup without
/// span elements gives an empty list; malformed markup is read as far as
/// the parser recovers.
pub fn get_countries(markup: &str, config: &Config) -> (r: Vec<Country>)
    ensures
        names_of(r@) == kept_ids(span_ids_of(markup@), texts_of(config.excluded_ids@)),
{
    let ids = span_ids(markup);
    assert(ids@.map_values(|o: Option<String>| opt_text(o)) =~= span_ids_of(markup@));
    select_entity_ids(&ids, config)
}

} // verus!
