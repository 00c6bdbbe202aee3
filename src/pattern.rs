//! Compiled step patterns, backed by the `regex` crate.

use vstd::prelude::*;

verus! {

/// Whether `regex::Regex::new` accepts the pattern.
pub uninterp spec fn pattern_is_valid(p: Seq<char>) -> bool;

/// The groups of the leftmost match of pattern `p` in `text`: the whole match
/// first, then each group in order, `None` for a group that took no part in
/// the match; `None` when the pattern does not match at all.
pub uninterp spec fn pattern_groups(p: Seq<char>, text: Seq<char>) -> Option<Seq<Option<Seq<char>>>>;

/// A group's text, empty for a group that took no part in the match.
pub open spec fn group_text(g: Option<Seq<char>>) -> Seq<char> {
    match g {
        Some(t) => t,
        None => Seq::empty(),
    }
}

/// The captures handed to a handler: the text of each group of the leftmost
/// match of `p` in `text`; `None` when the pattern does not match.
pub open spec fn pattern_captures(p: Seq<char>, text: Seq<char>) -> Option<Seq<Seq<char>>> {
    match pattern_groups(p, text) {
        Some(gs) => Some(gs.map_values(|g: Option<Seq<char>>| group_text(g))),
        None => None,
    }
}

/// The view of a group as returned by `captures_of`.
pub open spec fn group_view(g: Option<String>) -> Option<Seq<char>> {
    match g {
        Some(s) => Some(s@),
        None => None,
    }
}

/// Relies on `regex::Regex::new`: it returns `Ok` exactly for the patterns of
/// its syntax, which depends on the pattern alone.
#[verifier::external_body]
fn compiles(p: &str) -> (r: bool)
    ensures
        r == pattern_is_valid(p@),
{
    regex::Regex::new(p).is_ok()
}

/// Relies on `regex::Regex::captures` of the pattern compiled by
/// `regex::Regex::new`, which cannot fail on a valid pattern: the groups of
/// the leftmost match, group 0 being the whole match.
#[verifier::external_body]
fn captures_of(p: &str, text: &str) -> (r: Option<Vec<Option<String>>>)
    requires
        pattern_is_valid(p@),
    ensures
        match r {
            Some(v) => pattern_groups(p@, text@) == Some(v@.map_values(|g: Option<String>| group_view(g))),
            None => pattern_groups(p@, text@) is None,
        },
{
    let re = regex::Regex::new(p).unwrap();
    re.captures(text).map(|c| c.iter().map(|m| m.map(|m| m.as_str().to_string())).collect())
}

/// The error of registering a pattern that does not compile.
#[derive(Debug)]
pub struct PatternError {
    pub pattern: String,
}

/// A step pattern that is known to compile, identified by its source text.
pub struct HashableRegex {
    source: String,
}

impl HashableRegex {
    #[verifier::type_invariant]
    spec fn inv(self) -> bool {
        pattern_is_valid(self.source@)
    }

    /// The pattern's source text.
    pub closed spec fn view(&self) -> Seq<char> {
        self.source@
    }

    pub fn new(p: &str) -> (r: Result<HashableRegex, PatternError>)
        ensures
            r is Ok <==> pattern_is_valid(p@),
            match r {
                Ok(h) => h@ == p@,
                Err(e) => e.pattern@ == p@,
            },
    {
        if compiles(p) {
            Ok(HashableRegex { source: p.to_string() })
        } else {
            Err(PatternError { pattern: p.to_string() })
        }
    }

    pub fn as_str(&self) -> (r: &str)
        ensures
            r@ == self@,
    {
        self.source.as_str()
    }

    /// The groups of the pattern's leftmost match in `text`.
    pub fn captures(&self, text: &str) -> (r: Option<Vec<String>>)
        ensures
            match r {
                Some(v) => pattern_captures(self@, text@) == Some(v@.map_values(|s: String| s@)),
                None => pattern_captures(self@, text@) is None,
            },
    {
        proof {
            use_type_invariant(self);
        }
        match captures_of(self.source.as_str(), text) {
            None => None,
            Some(groups) => {
                let ghost gs = groups@.map_values(|g: Option<String>| group_view(g));
                let mut out: Vec<String> = Vec::new();
                let mut i: usize = 0;
                while i < groups.len()
                    invariant
                        i <= groups@.len(),
                        gs == groups@.map_values(|g: Option<String>| group_view(g)),
                        out@.len() == i,
                        forall|j: int| 0 <= j < i ==> out@[j]@ == group_text(gs[j]),
                    decreases groups@.len() - i,
                {
                    let t = match &groups[i] {
                        Some(s) => s.clone(),
                        None => String::new(),
                    };
                    out.push(t);
                    i = i + 1;
                }
                assert(out@.map_values(|s: String| s@) =~= gs.map_values(
                    |g: Option<Seq<char>>| group_text(g),
                ));
                Some(out)
            },
        }
    }
}

/// Two patterns are equal when their source texts are.
impl PartialEq for HashableRegex {
    fn eq(&self, other: &HashableRegex) -> (r: bool) {
        self.source == other.source
    }
}

impl vstd::std_specs::cmp::PartialEqSpecImpl for HashableRegex {
    open spec fn obeys_eq_spec() -> bool {
        true
    }

    open spec fn eq_spec(&self, other: &HashableRegex) -> bool {
        self@ == other@
    }
}

impl Eq for HashableRegex {

}

} // verus!
