//! Turning a raw identifier into a display-ready name.
use vstd::prelude::*;
use vstd::string::*;

verus! {

/// A named entity (a country) as extracted from the reference page.
#[derive(Clone, Debug)]
pub struct Country {
    pub name: String,
}

/// The display form of one character: an underscore becomes a space.
pub open spec fn display_char(c: char) -> char {
    if c == '_' {
        ' '
    } else {
        c
    }
}

/// The display form of a raw identifier: every underscore becomes a single
/// space, every other character is kept as it is.
pub open spec fn display_name(token: Seq<char>) -> Seq<char> {
    token.map_values(|c: char| display_char(c))
}

/// The names of a sequence of entities, in order.
pub open spec fn names_of(countries: Seq<Country>) -> Seq<Seq<char>> {
    countries.map_values(|c: Country| c.name@)
}

/// Builds the entity for a raw identifier, replacing each underscore with a
/// space. No other rewriting (trimming, case folding) takes place.
pub fn normalize(token: &str) -> (r: Country)
    ensures
        r.name@ == display_name(token@),
        r.name@.len() == token@.len(),
        !r.name@.contains('_'),
        !token@.contains('_') ==> r.name@ == token@,
{
    let n = token.unicode_len();
    let mut name = String::new();
    let mut i: usize = 0;
    while i < n
        invariant
            n == token@.len(),
            i <= n,
            name@ == display_name(token@.subrange(0, i as int)),
        decreases n - i,
    {
        let c = token.get_char(i);
        let ghost before = name@;
        if c == '_' {
            proof {
                reveal_strlit(" ");
            }
            name.append(" ");
        } else {
            let piece = token.substring_char(i, i + 1);
            assert(piece@ =~= seq![c]);
            name.append(piece);
        }
        proof {
            assert(token@.subrange(0, i + 1) =~= token@.subrange(0, i as int).push(c));
            assert(display_name(token@.subrange(0, i + 1)) =~= before.push(display_char(c)));
            assert(name@ =~= before.push(display_char(c)));
        }
        i = i + 1;
    }
    proof {
        assert(token@.subrange(0, n as int) == token@);
        lemma_display_name_has_no_underscore(token@);
        lemma_display_name_keeps_plain_text(token@);
    }
    Country { name }
}

/// A display name holds no underscore.
pub proof fn lemma_display_name_has_no_underscore(token: Seq<char>)
    ensures
        !display_name(token).contains('_'),
{
    assert forall|i: int| 0 <= i < display_name(token).len() implies display_name(token)[i]
        != '_' by {
        assert(display_name(token)[i] == display_char(token[i]));
    }
}

/// An identifier without underscores is its own display name.
pub proof fn lemma_display_name_keeps_plain_text(token: Seq<char>)
    ensures
        !token.contains('_') ==> display_name(token) == token,
{
    if !token.contains('_') {
        assert forall|i: int| 0 <= i < token.len() implies display_name(token)[i] == token[i] by {
            assert(token[i] != '_');
        }
        assert(display_name(token) =~= token);
    }
}

/// Normalizing is idempotent: the display name of a display name is itself.
pub proof fn lemma_normalize_idempotent(token: Seq<char>)
    ensures
        display_name(display_name(token)) == display_name(token),
{
    lemma_display_name_has_no_underscore(token);
    lemma_display_name_keeps_plain_text(display_name(token));
}

impl Country {
    /// The entity with its name in display form (underscores become spaces).
    pub fn parse(&self) -> (r: Country)
        ensures
            r.name@ == display_name(self.name@),
    {
        normalize(self.name.as_str())
    }
}

/// Normalizes every entity of the list, keeping their order.
pub fn parse_countries(countries: Vec<Country>) -> (r: Vec<Country>)
    ensures
        names_of(r@) == names_of(countries@).map_values(|t: Seq<char>| display_name(t)),
{
    let mut parsed: Vec<Country> = Vec::new();
    let mut i: usize = 0;
    while i < countries.len()
        invariant
            i <= countries@.len(),
            parsed@.len() == i,
            forall|j: int| 0 <= j < i ==> parsed@[j].name@ == display_name(countries@[j].name@),
        decreases countries@.len() - i,
    {
        parsed.push(countries[i].parse());
        i = i + 1;
    }
    assert(names_of(parsed@) =~= names_of(countries@).map_values(
        |t: Seq<char>| display_name(t),
    ));
    parsed
}

} // verus!
