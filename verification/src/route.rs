//! Routes: the patterns that requests are matched against.

use vstd::prelude::*;
use vstd::string::StringExecFns;
use vstd::utf8::{decode_utf8, encode_utf8, encode_utf8_decode_utf8};
use regex::Regex;
use crate::error::ConfigError;

verus! {

/// `regex::Regex`, a compiled regular expression. Nothing of what it holds
/// is visible here; [`regex_language`] stands for what it matches.
#[verifier::external_type_specification]
#[verifier::external_body]
pub struct ExRegex(Regex);

/// `regex::Error`, the reason why `Regex::new` refused a pattern.
#[verifier::external_type_specification]
#[verifier::external_body]
pub struct ExRegexError(regex::Error);

/// The haystacks in which a compiled expression finds a match: those for
/// which `Regex::is_match` answers `true`.
pub uninterp spec fn regex_language(re: Regex) -> Set<Seq<char>>;

/// What `Regex::new` makes of a pattern: nothing where it refuses the
/// pattern, and else the haystacks in which the expression that it returns
/// finds a match.
pub uninterp spec fn pattern_language(pattern: Seq<char>) -> Option<Set<Seq<char>>>;

/// Calls `Regex::new`. Whether the pattern is accepted, and what the
/// compiled expression matches, depends on the pattern alone.
#[verifier::external_body]
fn compile(pattern: &str) -> (r: Result<Regex, regex::Error>)
    ensures
        match r {
            Ok(re) => pattern_language(pattern@) == Some(regex_language(re)),
            Err(_) => pattern_language(pattern@) is None,
        },
{
    Regex::new(pattern)
}

/// Calls `Regex::is_match`, which says whether the expression finds a match
/// anywhere in the haystack.
#[verifier::external_body]
fn is_match_regex(re: &Regex, haystack: &str) -> (found: bool)
    ensures
        found == regex_language(*re).contains(haystack@),
{
    re.is_match(haystack)
}

/// Calls `Regex::clone`. The copy matches what the expression that it was
/// made from matches.
#[verifier::external_body]
fn clone_regex(re: &Regex) -> (copy: Regex)
    ensures
        regex_language(copy) == regex_language(*re),
{
    re.clone()
}

/// Whether two string slices hold the same characters. The slices are
/// compared byte by byte: two texts have the same UTF-8 encoding exactly
/// when they are the same text.
fn str_eq(left: &str, right: &str) -> (same: bool)
    ensures
        same == (left@ == right@),
{
    let left_bytes = left.as_bytes();
    let right_bytes = right.as_bytes();
    proof {
        encode_utf8_decode_utf8(left@);
        encode_utf8_decode_utf8(right@);
    }
    if left_bytes.len() != right_bytes.len() {
        return false;
    }
    let mut i: usize = 0;
    while i < left_bytes.len()
        invariant
            i <= left_bytes.len(),
            left_bytes.len() == right_bytes.len(),
            left_bytes@ == encode_utf8(left@),
            right_bytes@ == encode_utf8(right@),
            decode_utf8(encode_utf8(left@)) == left@,
            decode_utf8(encode_utf8(right@)) == right@,
            forall|k: int| 0 <= k < i ==> left_bytes[k] == right_bytes[k],
        decreases left_bytes.len() - i,
    {
        if left_bytes[i] != right_bytes[i] {
            return false;
        }
        i += 1;
    }
    assert(left_bytes@ =~= right_bytes@);
    true
}

/// `path` wrapped so that, as a regular expression, it has to match a whole
/// haystack: `^(path)$`.
pub open spec fn anchored(path: Seq<char>) -> Seq<char> {
    seq!['^', '('] + path + seq![')', '$']
}

/// What a route is made of.
pub struct RouteView {
    /// The path as it was written down.
    pub path: Seq<char>,
    /// The method that a request must have, if the route asks for one.
    pub method: Option<Seq<char>>,
    /// Whether the path is read as a regular expression.
    pub regex: bool,
}

impl RouteView {
    /// Whether the route can be built: a path that is to be read as a
    /// regular expression has to compile, anchored at both ends.
    pub open spec fn compiles(self) -> bool {
        self.regex ==> pattern_language(anchored(self.path)) is Some
    }

    /// Whether the route takes a request's path. A route whose path is a
    /// regular expression takes the paths that the expression matches from
    /// end to end; any other route takes its own path and no other.
    pub open spec fn takes_path(self, route: Seq<char>) -> bool {
        if self.regex {
            pattern_language(anchored(self.path)) matches Some(paths) && paths.contains(route)
        } else {
            self.path == route
        }
    }

    /// Whether a request with this path and method falls under the route.
    /// A route without a method takes every method.
    pub open spec fn matches(self, route: Seq<char>, method: Seq<char>) -> bool {
        &&& self.method matches Some(required) ==> required == method
        &&& self.takes_path(route)
    }
}

/// A route that asks for a method takes no request with another method,
/// whatever the request's path is.
pub proof fn lemma_other_method_never_matches(
    rule: RouteView,
    route: Seq<char>,
    method: Seq<char>,
)
    requires
        rule.method matches Some(required) && required != method,
    ensures
        !rule.matches(route, method),
{
}

/// The method of a view, from the method of a route or a builder.
spec fn method_of(method: Option<&'static str>) -> Option<Seq<char>> {
    match method {
        Some(method) => Some(method@),
        None => None,
    }
}

/// A route under construction. The calls that set its parts can come in any
/// order: the route is made of what was set last when it is built.
#[derive(Debug)]
pub struct RouteBuilder {
    path: &'static str,
    method: Option<&'static str>,
    regex: bool,
}

/// One route of the table. Where its path is a regular expression, the
/// route holds the expression compiled from that path, anchored at both
/// ends.
#[derive(Debug)]
pub struct Route {
    path: &'static str,
    method: Option<&'static str>,
    regex: Option<Regex>,
}

impl View for RouteBuilder {
    type V = RouteView;

    closed spec fn view(&self) -> RouteView {
        RouteView { path: self.path@, method: method_of(self.method), regex: self.regex }
    }
}

impl View for Route {
    type V = RouteView;

    closed spec fn view(&self) -> RouteView {
        RouteView { path: self.path@, method: method_of(self.method), regex: self.regex is Some }
    }
}

impl RouteBuilder {
    /// A route for the empty path, any method, matched literally.
    pub fn new() -> (builder: Self)
        ensures
            builder@ == (RouteView { path: Seq::<char>::empty(), method: None, regex: false }),
    {
        proof {
            reveal_strlit("");
        }
        let builder = Self { path: "", method: None, regex: false };
        assert(builder@.path =~= Seq::<char>::empty());
        builder
    }

    /// Sets the path.
    pub fn set_path(&mut self, path: &'static str) -> (builder: &mut Self)
        ensures
            builder@ == (RouteView { path: path@, ..old(self)@ }),
            *final(self) == *final(builder),
    {
        self.path = path;
        self
    }

    /// Limits the route to requests with this method.
    pub fn set_method(&mut self, method: &'static str) -> (builder: &mut Self)
        ensures
            builder@ == (RouteView { method: Some(method@), ..old(self)@ }),
            *final(self) == *final(builder),
    {
        self.method = Some(method);
        self
    }

    /// Has the path read as a regular expression that a request's path has
    /// to match from end to end. The expression is compiled when the route
    /// is built, from the path that the builder holds then.
    pub fn enable_regex(&mut self) -> (builder: &mut Self)
        ensures
            builder@ == (RouteView { regex: true, ..old(self)@ }),
            *final(self) == *final(builder),
    {
        self.regex = true;
        self
    }

    /// The route described so far. A path that is to be read as a regular
    /// expression is compiled here, anchored at both ends, and a path that
    /// does not compile is refused: no route comes to exist for it.
    pub fn build(&self) -> (r: Result<Route, ConfigError>)
        ensures
            self@.compiles() <==> r is Ok,
            r matches Ok(route) ==> route@ == self@,
            r matches Err(e) ==> e == ConfigError::InvalidPattern,
    {
        if self.regex {
            let mut pattern = String::from_str("^(");
            pattern.append(self.path);
            pattern.append(")$");
            proof {
                reveal_strlit("^(");
                reveal_strlit(")$");
                assert(pattern@ =~= anchored(self.path@));
            }
            match compile(pattern.as_str()) {
                Ok(re) => Ok(Route { path: self.path, method: self.method, regex: Some(re) }),
                Err(_) => Err(ConfigError::InvalidPattern),
            }
        } else {
            Ok(Route { path: self.path, method: self.method, regex: None })
        }
    }
}

impl Default for RouteBuilder {
    fn default() -> (builder: Self)
        ensures
            builder@ == (RouteView { path: Seq::<char>::empty(), method: None, regex: false }),
    {
        Self::new()
    }
}

impl Clone for RouteBuilder {
    fn clone(&self) -> (copy: Self)
        ensures
            copy@ == self@,
    {
        RouteBuilder { path: self.path, method: self.method, regex: self.regex }
    }
}

impl Clone for Route {
    fn clone(&self) -> (copy: Self)
        ensures
            copy@ == self@,
    {
        proof {
            use_type_invariant(self);
        }
        let regex = match &self.regex {
            Some(re) => Some(clone_regex(re)),
            None => None,
        };
        Route { path: self.path, method: self.method, regex }
    }
}

impl Route {
    #[verifier::type_invariant]
    spec fn holds_its_own_expression(self) -> bool {
        self.regex matches Some(re) ==> pattern_language(anchored(self.path@)) == Some(
            regex_language(re),
        )
    }

    /// Whether a request for `route` with `method` falls under this route.
    /// A route that exists has compiled.
    pub fn is_match(&self, route: &str, method: &str) -> (matched: bool)
        ensures
            matched == self@.matches(route@, method@),
            self@.compiles(),
    {
        proof {
            use_type_invariant(self);
        }
        if let Some(required) = self.method {
            if !str_eq(required, method) {
                return false;
            }
        }
        match &self.regex {
            Some(re) => is_match_regex(re, route),
            None => str_eq(self.path, route),
        }
    }
}

} // verus!
