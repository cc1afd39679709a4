//! The route-template grammar and its parser.
//!
//! A template is a nonempty string of literal runs and `{name}` parameter
//! placeholders:
//!
//! ```text
//! route     ::= (path | parameter)+
//! path      ::= run of characters excluding '{'
//! parameter ::= '{' name '}'      where name = run of characters
//!                                 excluding '}', nonempty
//! ```
//!
//! Parsing is single-pass and unambiguous: at each position either a maximal
//! literal run up to the next `{` is consumed, or a full `{name}` parameter.
//! It fails on empty input, on a `{` with no matching `}`, and on an empty
//! parameter name. Concatenating the parsed segments back (literals
//! verbatim, parameters as `{name}`) reproduces the input exactly.

use vstd::prelude::*;
use vstd::string::{StrSliceExecFns, StringExecFns};

use crate::error::{DefinitionError, ParseRouteError};

verus! {

/// Mathematical model of one parsed piece of a template: a literal run of
/// characters, or a parameter placeholder with its name.
pub enum Segment {
    Literal(Seq<char>),
    Parameter(Seq<char>),
}

/// A component of a route, either a path (literal text) or a named
/// parameter. Used to reconstruct the route with parameter values injected.
#[derive(Debug, Clone, PartialEq, Eq)]
pub enum RouteComponent {
    Path(String),
    Parameter(String),
}

impl View for RouteComponent {
    type V = Segment;

    open spec fn view(&self) -> Segment {
        match self {
            RouteComponent::Path(t) => Segment::Literal(t@),
            RouteComponent::Parameter(n) => Segment::Parameter(n@),
        }
    }
}

/// The segments denoted by a sequence of components.
pub open spec fn segments_of(cs: Seq<RouteComponent>) -> Seq<Segment> {
    cs.map_values(|c: RouteComponent| c@)
}

/// Index of the first occurrence of `c` in `s` at or after position `i`,
/// or `s.len()` if there is none.
pub open spec fn find_from(s: Seq<char>, c: char, i: int) -> int
    decreases s.len() - i,
{
    if i < 0 || i >= s.len() {
        s.len() as int
    } else if s[i] == c {
        i
    } else {
        find_from(s, c, i + 1)
    }
}

pub proof fn lemma_find_from(s: Seq<char>, c: char, i: int)
    requires
        0 <= i <= s.len(),
    ensures
        i <= find_from(s, c, i) <= s.len(),
        find_from(s, c, i) < s.len() ==> s[find_from(s, c, i)] == c,
        forall|k: int| i <= k < find_from(s, c, i) ==> s[k] != c,
    decreases s.len() - i,
{
    if i < s.len() && s[i] != c {
        lemma_find_from(s, c, i + 1);
    }
}

/// The segments of the template suffix `s[i..]`, or `None` if the suffix
/// does not match the grammar (an unterminated `{`, or an empty parameter
/// name). The empty suffix parses to no segments.
pub open spec fn parse_from(s: Seq<char>, i: int) -> Option<Seq<Segment>>
    decreases s.len() - i,
    via parse_from_decreases
{
    if i < 0 || i >= s.len() {
        Some(Seq::empty())
    } else if s[i] == '{' {
        let j = find_from(s, '}', i + 1);
        if j >= s.len() {
            // unterminated parameter
            None
        } else if j == i + 1 {
            // empty parameter name
            None
        } else {
            match parse_from(s, j + 1) {
                None => None,
                Some(rest) => Some(seq![Segment::Parameter(s.subrange(i + 1, j))] + rest),
            }
        }
    } else {
        let j = find_from(s, '{', i + 1);
        match parse_from(s, j) {
            None => None,
            Some(rest) => Some(seq![Segment::Literal(s.subrange(i, j))] + rest),
        }
    }
}

#[via_fn]
proof fn parse_from_decreases(s: Seq<char>, i: int) {
    if 0 <= i < s.len() {
        if s[i] == '{' {
            lemma_find_from(s, '}', i + 1);
        } else {
            lemma_find_from(s, '{', i + 1);
        }
    }
}

/// The segments of the whole template string, or `None` if it does not
/// match the grammar. The grammar demands at least one segment, so the
/// empty string fails.
pub open spec fn spec_parse(s: Seq<char>) -> Option<Seq<Segment>> {
    if s.len() == 0 {
        None
    } else {
        parse_from(s, 0)
    }
}

/// The text a single segment renders back to: literals verbatim, parameters
/// as `{name}`.
pub open spec fn render_segment(g: Segment) -> Seq<char> {
    match g {
        Segment::Literal(t) => t,
        Segment::Parameter(n) => seq!['{'] + n + seq!['}'],
    }
}

/// The concatenation of the renderings of all segments.
pub open spec fn render(segs: Seq<Segment>) -> Seq<char>
    decreases segs.len(),
{
    if segs.len() == 0 {
        Seq::empty()
    } else {
        render_segment(segs[0]) + render(segs.drop_first())
    }
}

pub proof fn lemma_render_app(a: Seq<Segment>, b: Seq<Segment>)
    ensures
        render(a + b) == render(a) + render(b),
    decreases a.len(),
{
    if a.len() == 0 {
        assert(a + b =~= b);
        assert(render(a) + render(b) =~= render(b));
    } else {
        assert((a + b).drop_first() =~= a.drop_first() + b);
        lemma_render_app(a.drop_first(), b);
        assert(render(a + b) =~= render_segment(a[0]) + (render(a.drop_first()) + render(b)));
        assert(render_segment(a[0]) + render(a.drop_first()) + render(b) =~= render_segment(a[0])
            + (render(a.drop_first()) + render(b)));
    }
}

proof fn lemma_parse_from_render(s: Seq<char>, i: int, segs: Seq<Segment>)
    requires
        0 <= i <= s.len(),
        parse_from(s, i) == Some(segs),
    ensures
        render(segs) == s.subrange(i, s.len() as int),
    decreases s.len() - i,
{
    if i >= s.len() {
        assert(render(segs) =~= s.subrange(i, s.len() as int));
    } else if s[i] == '{' {
        let j = find_from(s, '}', i + 1);
        lemma_find_from(s, '}', i + 1);
        let rest = parse_from(s, j + 1)->Some_0;
        let head = Segment::Parameter(s.subrange(i + 1, j));
        lemma_parse_from_render(s, j + 1, rest);
        lemma_render_app(seq![head], rest);
        assert(render(seq![head]) =~= render_segment(head) + render(seq![head].drop_first()));
        assert(seq![head].drop_first() =~= Seq::<Segment>::empty());
        assert(render(segs) =~= s.subrange(i, s.len() as int));
    } else {
        let j = find_from(s, '{', i + 1);
        lemma_find_from(s, '{', i + 1);
        let rest = parse_from(s, j)->Some_0;
        let head = Segment::Literal(s.subrange(i, j));
        lemma_parse_from_render(s, j, rest);
        lemma_render_app(seq![head], rest);
        assert(render(seq![head]) =~= render_segment(head) + render(seq![head].drop_first()));
        assert(seq![head].drop_first() =~= Seq::<Segment>::empty());
        assert(render(segs) =~= s.subrange(i, s.len() as int));
    }
}

/// Round-trip law: a template string that parses is reproduced exactly by
/// rendering the parsed segments back — literal segments verbatim,
/// parameter segments as `{name}`.
pub proof fn lemma_parse_round_trip(s: Seq<char>, segs: Seq<Segment>)
    requires
        spec_parse(s) == Some(segs),
    ensures
        render(segs) == s,
{
    lemma_parse_from_render(s, 0, segs);
    assert(s.subrange(0, s.len() as int) =~= s);
}

/// Parses a route template string into its ordered components, following
/// the grammar above: maximal literal runs, and `{name}` parameters.
pub fn parse_route_into_components(input: &str) -> (r: Result<Vec<RouteComponent>, ParseRouteError>)
    ensures
        match r {
            Ok(cs) => spec_parse(input@) == Some(segments_of(cs@)),
            Err(_) => spec_parse(input@) is None,
        },
{
    let ghost s = input@;
    let n = input.unicode_len();
    if n == 0 {
        return Err(ParseRouteError { message: "route must not be empty".to_owned() });
    }
    let mut comps: Vec<RouteComponent> = Vec::new();
    let mut i: usize = 0;
    proof {
        assert(segments_of(comps@) + parse_from(s, 0)->Some_0 =~= parse_from(s, 0)->Some_0);
    }
    while i < n
        invariant
            n == s.len(),
            s == input@,
            0 < n,
            i <= n,
            parse_from(s, i as int) is Some ==> parse_from(s, 0) == Some(
                segments_of(comps@) + parse_from(s, i as int)->Some_0,
            ),
            parse_from(s, i as int) is None ==> parse_from(s, 0) is None,
        decreases n - i,
    {
        let c = input.get_char(i);
        if c == '{' {
            // scan for the matching '}'
            let mut j: usize = i + 1;
            while j < n && input.get_char(j) != '}'
                invariant
                    n == s.len(),
                    s == input@,
                    i + 1 <= j <= n,
                    forall|k: int| i + 1 <= k < j ==> s[k] != '}',
                decreases n - j,
            {
                j += 1;
            }
            proof {
                lemma_find_from(s, '}', i + 1);
                assert(j == find_from(s, '}', i + 1));
            }
            if j == n {
                return Err(
                    ParseRouteError { message: "parameter is missing its closing brace".to_owned() },
                );
            }
            if j == i + 1 {
                return Err(ParseRouteError { message: "parameter name must not be empty".to_owned() });
            }
            let name = input.substring_char(i + 1, j).to_owned();
            let ghost head = Segment::Parameter(s.subrange(i as int + 1, j as int));
            comps.push(RouteComponent::Parameter(name));
            proof {
                assert(segments_of(comps@) =~= segments_of(comps@.drop_last()) + seq![head]);
                if parse_from(s, j as int + 1) is Some {
                    let rest = parse_from(s, j as int + 1)->Some_0;
                    assert(parse_from(s, i as int) == Some(seq![head] + rest));
                    assert(segments_of(comps@.drop_last()) + (seq![head] + rest) =~= segments_of(
                        comps@,
                    ) + rest);
                }
            }
            i = j + 1;
        } else {
            // consume a maximal literal run up to the next '{'
            let mut j: usize = i + 1;
            while j < n && input.get_char(j) != '{'
                invariant
                    n == s.len(),
                    s == input@,
                    i + 1 <= j <= n,
                    forall|k: int| i + 1 <= k < j ==> s[k] != '{',
                decreases n - j,
            {
                j += 1;
            }
            proof {
                lemma_find_from(s, '{', i + 1);
                assert(j == find_from(s, '{', i + 1));
            }
            let text = input.substring_char(i, j).to_owned();
            let ghost head = Segment::Literal(s.subrange(i as int, j as int));
            comps.push(RouteComponent::Path(text));
            proof {
                assert(segments_of(comps@) =~= segments_of(comps@.drop_last()) + seq![head]);
                if parse_from(s, j as int) is Some {
                    let rest = parse_from(s, j as int)->Some_0;
                    assert(parse_from(s, i as int) == Some(seq![head] + rest));
                    assert(segments_of(comps@.drop_last()) + (seq![head] + rest) =~= segments_of(
                        comps@,
                    ) + rest);
                }
            }
            i = j;
        }
    }
    proof {
        assert(parse_from(s, i as int) == Some(Seq::<Segment>::empty()));
        assert(segments_of(comps@) + Seq::<Segment>::empty() =~= segments_of(comps@));
    }
    Ok(comps)
}

/// Renders components back into a template string: literal components
/// verbatim, parameter components as `{name}`.
pub fn render_components(components: &Vec<RouteComponent>) -> (r: String)
    ensures
        r@ == render(segments_of(components@)),
{
    let ghost segs = segments_of(components@);
    let mut out = String::new();
    let mut i: usize = 0;
    proof {
        assert(segs.take(0) =~= Seq::<Segment>::empty());
    }
    while i < components.len()
        invariant
            segs == segments_of(components@),
            i <= components.len(),
            components@.len() == segs.len(),
            out@ == render(segs.take(i as int)),
        decreases components.len() - i,
    {
        proof {
            assert(segs.take(i as int + 1) =~= segs.take(i as int) + seq![segs[i as int]]);
            lemma_render_app(segs.take(i as int), seq![segs[i as int]]);
            assert(render(seq![segs[i as int]]) =~= render_segment(segs[i as int]) + render(
                seq![segs[i as int]].drop_first(),
            ));
            assert(seq![segs[i as int]].drop_first() =~= Seq::<Segment>::empty());
            assert(render(seq![segs[i as int]]) =~= render_segment(segs[i as int]));
        }
        match &components[i] {
            RouteComponent::Path(t) => {
                out.append(t.as_str());
            },
            RouteComponent::Parameter(nm) => {
                proof {
                    reveal_strlit("{");
                    reveal_strlit("}");
                }
                out.append("{");
                out.append(nm.as_str());
                out.append("}");
                proof {
                    assert(out@ =~= render(segs.take(i as int)) + render_segment(segs[i as int]));
                }
            },
        }
        i += 1;
    }
    proof {
        assert(segs.take(segs.len() as int) =~= segs);
    }
    out
}

/// Mathematical model of a [`Route`]: the template's source string and the
/// segments it parses to.
pub struct TemplateModel {
    pub source: Seq<char>,
    pub segments: Seq<Segment>,
}

/// A parsed route template: the source string together with its components.
/// Values built by [`Route::parse`] are well formed: the source starts with
/// `/` and the components are exactly what the source parses to.
#[derive(Debug, Clone, PartialEq, Eq)]
pub struct Route {
    /// The route as a string.
    pub route: String,
    /// The components found in this route.
    pub components: Vec<RouteComponent>,
}

impl View for Route {
    type V = TemplateModel;

    open spec fn view(&self) -> TemplateModel {
        TemplateModel { source: self.route@, segments: segments_of(self.components@) }
    }
}

impl Route {
    /// A route is well formed when its source string starts with `/` and
    /// parses exactly to its components.
    pub open spec fn wf(&self) -> bool {
        &&& self@.source.len() > 0
        &&& self@.source[0] == '/'
        &&& spec_parse(self@.source) == Some(self@.segments)
    }

    /// A well-formed route equals its source string when its segments are
    /// concatenated back: literal segments verbatim, parameter segments as
    /// `{name}`.
    pub proof fn lemma_source_renders(&self)
        requires
            self.wf(),
        ensures
            render(self@.segments) == self@.source,
    {
        lemma_parse_round_trip(self@.source, self@.segments);
    }

    /// Parses a template string into a [`Route`]. The string must start
    /// with `/` and match the template grammar, else a
    /// [`DefinitionError::MalformedTemplate`] carrying the string is
    /// returned.
    pub fn parse(input: &str) -> (r: Result<Route, DefinitionError>)
        ensures
            match r {
                Ok(route) => {
                    &&& input@.len() > 0
                    &&& input@[0] == '/'
                    &&& spec_parse(input@) == Some(route@.segments)
                    &&& route@.source == input@
                    &&& route.wf()
                },
                Err(e) => {
                    &&& (input@.len() == 0 || input@[0] != '/' || spec_parse(input@) is None)
                    &&& (e@ matches crate::error::DefinitionErrorModel::MalformedTemplate(t)
                        && t == input@)
                },
            },
    {
        let n = input.unicode_len();
        if n == 0 {
            return Err(DefinitionError::MalformedTemplate(input.to_owned()));
        }
        if input.get_char(0) != '/' {
            return Err(DefinitionError::MalformedTemplate(input.to_owned()));
        }
        match parse_route_into_components(input) {
            Ok(components) => Ok(Route { route: input.to_owned(), components }),
            Err(_) => Err(DefinitionError::MalformedTemplate(input.to_owned())),
        }
    }
}

} // verus!
