//! The source location and the identifiers that are page structure, not entities.
use vstd::prelude::*;

verus! {

/// The view of a sequence of strings: their characters, in order.
pub open spec fn texts_of(s: Seq<String>) -> Seq<Seq<char>> {
    s.map_values(|t: String| t@)
}

/// The address of the reference page.
pub open spec fn standard_source_url() -> Seq<char> {
    "https://en.wikipedia.org/wiki/List_of_sovereign_states"@
}

/// The identifiers of the reference page that name its sections and
/// navigation anchors rather than entities.
pub open spec fn standard_exclusions() -> Seq<Seq<char>> {
    seq![
        "List_of_states"@,
        "Other_states"@,
        "Criteria_for_inclusion"@,
        "See_also"@,
        "Notes"@,
        "References"@,
        "Bibliography"@,
    ]
}

/// Where the markup comes from and which identifiers are dropped from it.
#[derive(Clone, Debug)]
pub struct Config {
    pub source_url: String,
    pub excluded_ids: Vec<String>,
}

impl Config {
    /// The configuration of the reference page.
    pub fn standard() -> (r: Config)
        ensures
            r.source_url@ == standard_source_url(),
            texts_of(r.excluded_ids@) == standard_exclusions(),
    {
        let excluded_ids = vec![
            "List_of_states".to_owned(),
            "Other_states".to_owned(),
            "Criteria_for_inclusion".to_owned(),
            "See_also".to_owned(),
            "Notes".to_owned(),
            "References".to_owned(),
            "Bibliography".to_owned(),
        ];
        assert(texts_of(excluded_ids@) =~= standard_exclusions());
        Config {
            source_url: "https://en.wikipedia.org/wiki/List_of_sovereign_states".to_owned(),
            excluded_ids,
        }
    }

    /// Whether `token` matches one of the excluded identifiers exactly
    /// (case-sensitive, character for character).
    pub fn excludes(&self, token: &str) -> (r: bool)
        ensures
            r == texts_of(self.excluded_ids@).contains(token@),
    {
        let wanted = token.to_owned();
        let mut i: usize = 0;
        while i < self.excluded_ids.len()
            invariant
                i <= self.excluded_ids@.len(),
                wanted@ == token@,
                forall|j: int| 0 <= j < i ==> self.excluded_ids@[j]@ != token@,
            decreases self.excluded_ids@.len() - i,
        {
            if self.excluded_ids[i] == wanted {
                assert(texts_of(self.excluded_ids@)[i as int] == token@);
                return true;
            }
            i = i + 1;
        }
        proof {
            if texts_of(self.excluded_ids@).contains(token@) {
                let j = choose|j: int|
                    0 <= j < texts_of(self.excluded_ids@).len() && texts_of(
                        self.excluded_ids@,
                    )[j] == token@;
                assert(self.excluded_ids@[j]@ == token@);
            }
        }
        false
    }
}

/// Whether `token` is one of the reference page's structural identifiers.
/// The match is exact: no case folding or other rewriting comes first.
pub fn is_excluded(token: &str) -> (r: bool)
    ensures
        r == standard_exclusions().contains(token@),
{
    Config::standard().excludes(token)
}

} // verus!
