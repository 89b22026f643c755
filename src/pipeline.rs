//! One run of fetch, extract and normalize.
use crate::exclusion::{texts_of, Config};
use crate::extract::{get_countries, kept_ids, span_ids_of};
use crate::normalize::{display_name, names_of, parse_countries, Country};
use vstd::prelude::*;

verus! {

/// Why the markup could not be retrieved.
#[derive(Clone, Copy, Debug, PartialEq, Eq)]
pub enum FetchError {
    /// The source could not be reached or its body could not be read.
    Transport,
    /// The source answered with a status other than success.
    Status(u16),
}

/// Why a pipeline run produced no entity list. Reading the markup itself
/// cannot fail: the HTML parser recovers from any text, so the only
/// run-level failure is the fetch.
#[derive(Clone, Copy, Debug, PartialEq, Eq)]
pub enum PipelineError {
    Fetch(FetchError),
}

/// The display names that one run yields from the markup `markup`.
pub open spec fn entity_names(markup: Seq<char>, excluded: Seq<Seq<char>>) -> Seq<Seq<char>> {
    kept_ids(span_ids_of(markup), excluded).map_values(|t: Seq<char>| display_name(t))
}

/// Completes a run from the outcome of fetching the source: a failed fetch
/// aborts the run with no entities; fetched markup is extracted, filtered
/// and normalized, in document order.
pub fn run_pipeline(fetched: Result<String, FetchError>, config: &Config) -> (r: Result<
    Vec<Country>,
    PipelineError,
>)
    ensures
        match fetched {
            Err(e) => r == Err::<Vec<Country>, PipelineError>(PipelineError::Fetch(e)),
            Ok(markup) => r is Ok && names_of(r->Ok_0@) == entity_names(
                markup@,
                texts_of(config.excluded_ids@),
            ),
        },
{
    match fetched {
        Err(e) => Err(PipelineError::Fetch(e)),
        Ok(markup) => {
            let raw = get_countries(markup.as_str(), config);
            Ok(parse_countries(raw))
        },
    }
}

} // verus!
