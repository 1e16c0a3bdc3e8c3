//! Rules for the redirects themselves: which targets are accepted, and how a
//! free random name is found.

use rand::distributions::DistString;
use rand::SeedableRng;
use vstd::prelude::*;

verus! {

/// Length of a random name.
pub const NAME_LEN: usize = 8;

/// How many random names are tried before the search gives up.
pub const NAME_TRIES: u32 = 3;

/// What `regex::Regex::new` and `is_match` return together: whether `pattern`
/// matches somewhere in `text`, and `None` where the pattern does not compile.
pub uninterp spec fn regex_outcome(pattern: Seq<char>, text: Seq<char>) -> Option<bool>;

/// Calls `regex::Regex::new` on the pattern and `is_match` on the text. Trusted:
/// both depend on their arguments alone, so the result is `regex_outcome` of
/// the two strings.
#[verifier::external_body]
fn regex_is_match(pattern: &str, text: &str) -> (r: Option<bool>)
    ensures
        r == regex_outcome(pattern@, text@),
{
    match regex::Regex::new(pattern) {
        Ok(re) => Some(re.is_match(text)),
        Err(_) => None,
    }
}

/// Calls `SmallRng::from_rng` on the system's generator and
/// `Alphanumeric.sample_string` of the rand crate. Trusted: a string that comes
/// back has `len` characters, each a letter or a digit of ASCII. `None` where the
/// system gave no random bytes. The length is bounded so that the string can be
/// allocated.
#[verifier::external_body]
fn sample_alphanumeric(len: usize) -> (r: Option<String>)
    requires
        len <= 0xffff,
    ensures
        r matches Some(s) ==> s@.len() == len && forall|i: int|
            0 <= i < s@.len() ==> is_alphanumeric(#[trigger] s@[i]),
{
    match rand::rngs::SmallRng::from_rng(rand::rngs::OsRng) {
        Ok(mut rng) => Some(rand::distributions::Alphanumeric.sample_string(&mut rng, len)),
        Err(_) => None,
    }
}

/// A letter or a digit of ASCII.
pub open spec fn is_alphanumeric(c: char) -> bool {
    ('A' <= c && c <= 'Z') || ('a' <= c && c <= 'z') || ('0' <= c && c <= '9')
}

/// The shape of a random name.
pub open spec fn is_random_name(name: Seq<char>) -> bool {
    name.len() == NAME_LEN && forall|i: int|
        0 <= i < name.len() ==> is_alphanumeric(#[trigger] name[i])
}

/// The pattern that the target of a redirect must hold: `http` or `https`, a
/// host of dotted labels and a top-level domain of two letters or more.
pub open spec fn target_pattern() -> Seq<char> {
    "https?://[^-][A-z\\d-]{1,63}(?:\\.[^-][A-z\\d-]+){0,63}\\.[A-z]{2,}"@
}

/// Whether a match outcome accepts the target: the pattern compiled and
/// matched.
pub open spec fn accepts(outcome: Option<bool>) -> bool {
    outcome == Some(true)
}

/// Reads a match outcome. `None`, a pattern that does not compile, accepts
/// nothing.
pub fn accepted(outcome: Option<bool>) -> (ok: bool)
    ensures
        ok == accepts(outcome),
{
    match outcome {
        Some(matched) => matched,
        None => false,
    }
}

/// Where a request leads that names no redirect, or whose redirect cannot be
/// read.
pub open spec fn fallback_target() -> Seq<char> {
    "https://lmpk.tk"@
}

/// The target that a request for a name is sent to: the target stored under
/// the name, or the fallback where the store holds none or failed.
pub fn resolve(found: Option<String>) -> (target: String)
    ensures
        match found {
            Some(t) => target == t,
            None => target@ == fallback_target(),
        },
{
    match found {
        Some(t) => t,
        None => "https://lmpk.tk".to_owned(),
    }
}

/// Whether `target` is accepted as the target of a redirect.
pub fn target_allowed(target: &str) -> (ok: bool)
    ensures
        ok == accepts(regex_outcome(target_pattern(), target@)),
{
    accepted(
        regex_is_match(
            "https?://[^-][A-z\\d-]{1,63}(?:\\.[^-][A-z\\d-]+){0,63}\\.[A-z]{2,}",
            target,
        ),
    )
}

/// What the store answered to the question whether a name is in use.
#[derive(Clone, Copy, Debug, PartialEq, Eq, Structural)]
pub enum NameLookup {
    /// A redirect has the name.
    Taken,
    /// No redirect has the name.
    Free,
    /// The store failed.
    Unavailable,
}

/// The search for a free random name.
#[derive(Clone, Debug, PartialEq, Eq)]
pub enum NameSearch {
    /// The store is to be asked for `candidate`; `tries` names may still be
    /// asked for, this one included.
    Asking { candidate: String, tries: u32 },
    /// The name is free.
    Found(String),
    /// No free name was found within the tries, or no name could be drawn.
    Exhausted,
    /// The store failed.
    Unavailable,
}

/// The search for a free random name, as plain values.
pub enum NameSearchView {
    Asking { candidate: Seq<char>, tries: u32 },
    Found(Seq<char>),
    Exhausted,
    Unavailable,
}

impl View for NameSearch {
    type V = NameSearchView;

    open spec fn view(&self) -> NameSearchView {
        match self {
            NameSearch::Asking { candidate, tries } => NameSearchView::Asking {
                candidate: candidate@,
                tries: *tries,
            },
            NameSearch::Found(name) => NameSearchView::Found(name@),
            NameSearch::Exhausted => NameSearchView::Exhausted,
            NameSearch::Unavailable => NameSearchView::Unavailable,
        }
    }
}

/// The characters of a name, if there is one.
pub open spec fn drawn(name: Option<String>) -> Option<Seq<char>> {
    match name {
        Some(n) => Some(n@),
        None => None,
    }
}

impl NameSearchView {
    /// The search before the store was asked: with `tries` names allowed and
    /// `fresh` drawn as the first, `None` where none could be drawn.
    pub open spec fn begin(tries: u32, fresh: Option<Seq<char>>) -> NameSearchView {
        if tries == 0 {
            NameSearchView::Exhausted
        } else {
            match fresh {
                Some(candidate) => NameSearchView::Asking { candidate, tries },
                None => NameSearchView::Exhausted,
            }
        }
    }

    /// The search after the store answered for the candidate. `fresh` is the
    /// name drawn next, which is looked at only where the candidate is taken and
    /// a try is left.
    pub open spec fn next(self, lookup: NameLookup, fresh: Option<Seq<char>>) -> NameSearchView {
        match self {
            NameSearchView::Asking { candidate, tries } => match lookup {
                NameLookup::Free => NameSearchView::Found(candidate),
                NameLookup::Unavailable => NameSearchView::Unavailable,
                NameLookup::Taken => if tries > 1 {
                    NameSearchView::begin((tries - 1) as u32, fresh)
                } else {
                    NameSearchView::Exhausted
                },
            },
            _ => self,
        }
    }

    /// Whether a name must be drawn to take `lookup`.
    pub open spec fn draws(self, lookup: NameLookup) -> bool {
        self matches NameSearchView::Asking { tries, .. } && tries > 1 && lookup
            == NameLookup::Taken
    }

    /// Every name in the search has the shape of a random name, and a search
    /// that asks has a try left.
    pub open spec fn wf(self) -> bool {
        match self {
            NameSearchView::Asking { candidate, tries } => is_random_name(candidate) && tries > 0,
            NameSearchView::Found(name) => is_random_name(name),
            _ => true,
        }
    }
}

impl NameSearch {
    /// Starts a search with the first candidate given.
    pub fn begin_with(tries: u32, fresh: Option<String>) -> (search: NameSearch)
        ensures
            search@ == NameSearchView::begin(tries, drawn(fresh)),
    {
        if tries == 0 {
            return NameSearch::Exhausted;
        }
        match fresh {
            Some(candidate) => NameSearch::Asking { candidate, tries },
            None => NameSearch::Exhausted,
        }
    }

    /// Starts a search that may ask the store for `tries` names, and draws the
    /// first.
    pub fn begin(tries: u32) -> (search: NameSearch)
        ensures
            search@.wf(),
            tries == 0 ==> search@ == NameSearchView::Exhausted,
            exists|fresh: Option<Seq<char>>|
                {
                    &&& search@ == NameSearchView::begin(tries, fresh)
                    &&& fresh matches Some(name) ==> is_random_name(name)
                },
    {
        if tries == 0 {
            let search = NameSearch::begin_with(tries, None);
            assert(search@ == NameSearchView::begin(tries, None));
            return search;
        }
        let fresh = sample_alphanumeric(NAME_LEN);
        let ghost plain = drawn(fresh);
        let search = NameSearch::begin_with(tries, fresh);
        assert(search@ == NameSearchView::begin(tries, plain));
        search
    }

    /// Takes the store's answer for the candidate, with the next name given.
    pub fn answered_with(self, lookup: NameLookup, fresh: Option<String>) -> (search: NameSearch)
        ensures
            search@ == self@.next(lookup, drawn(fresh)),
    {
        match self {
            NameSearch::Asking { candidate, tries } => match lookup {
                NameLookup::Free => NameSearch::Found(candidate),
                NameLookup::Unavailable => NameSearch::Unavailable,
                NameLookup::Taken => {
                    if tries == 0 {
                        NameSearch::Exhausted
                    } else {
                        NameSearch::begin_with(tries - 1, fresh)
                    }
                },
            },
            NameSearch::Found(name) => NameSearch::Found(name),
            NameSearch::Exhausted => NameSearch::Exhausted,
            NameSearch::Unavailable => NameSearch::Unavailable,
        }
    }

    /// Takes the store's answer for the candidate. A free candidate is the name;
    /// for a taken one the next name is drawn while a try is left.
    pub fn answered(self, lookup: NameLookup) -> (search: NameSearch)
        ensures
            self@.wf() ==> search@.wf(),
            !self@.draws(lookup) ==> search@ == self@.next(lookup, None),
            exists|fresh: Option<Seq<char>>|
                {
                    &&& search@ == self@.next(lookup, fresh)
                    &&& fresh matches Some(name) ==> is_random_name(name)
                },
    {
        let needed = match &self {
            NameSearch::Asking { tries, .. } => *tries > 1 && match lookup {
                NameLookup::Taken => true,
                _ => false,
            },
            _ => false,
        };
        if needed {
            let fresh = sample_alphanumeric(NAME_LEN);
            let ghost plain = drawn(fresh);
            let ghost before = self@;
            let search = self.answered_with(lookup, fresh);
            assert(search@ == before.next(lookup, plain));
            search
        } else {
            let ghost before = self@;
            let search = self.answered_with(lookup, None);
            assert(search@ == before.next(lookup, None));
            search
        }
    }
}

/// A search ends after at most as many answers as it has tries: each answer
/// either ends it or leaves it asking with one try fewer.
pub proof fn law_search_is_bounded(
    search: NameSearchView,
    lookup: NameLookup,
    fresh: Option<Seq<char>>,
)
    requires
        search.wf(),
        search is Asking,
    ensures
        search.next(lookup, fresh) matches NameSearchView::Asking { tries, .. } ==> tries
            == search->Asking_tries - 1,
        lookup == NameLookup::Free ==> search.next(lookup, fresh) == NameSearchView::Found(
            search->Asking_candidate,
        ),
        lookup == NameLookup::Unavailable ==> search.next(lookup, fresh)
            == NameSearchView::Unavailable,
{
}

} // verus!
