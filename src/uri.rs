use vstd::prelude::*;

verus! {

/// The text of an optional part, empty when the part is absent.
pub open spec fn part_text(p: Option<String>) -> Seq<char> {
    match p {
        Some(s) => s@,
        None => Seq::empty(),
    }
}

/// The URI of an incoming request, as the HTTP engine split it: an
/// origin-form target (`/a?b`) has only a path, an absolute-form target
/// (`http://host:port/a?b`) has all three parts.
pub struct RequestUri {
    pub scheme: Option<String>,
    pub authority: Option<String>,
    pub path_and_query: Option<String>,
}

impl RequestUri {
    /// `scheme://authority`, or as much of it as the URI has.
    pub open spec fn origin(&self) -> Seq<char> {
        let scheme = match self.scheme {
            Some(s) => s@ + seq![':', '/', '/'],
            None => Seq::empty(),
        };
        scheme + part_text(self.authority)
    }

    /// The whole URI as it is written.
    pub open spec fn text(&self) -> Seq<char> {
        self.origin() + part_text(self.path_and_query)
    }

    /// A target the engine accepts: a path and query, when present, starts
    /// with `/`, and a scheme comes with an authority.
    pub open spec fn well_formed(&self) -> bool {
        &&& (self.path_and_query matches Some(p) ==> p@.len() > 0 && p@[0] == '/')
        &&& (self.scheme is Some ==> self.authority is Some)
    }

    /// The path and query that are forwarded upstream: scheme and authority
    /// are dropped, and a URI without a path gives the empty string.
    pub fn forward_path(&self) -> (r: String)
        ensures
            r@ == part_text(self.path_and_query),
    {
        match &self.path_and_query {
            Some(p) => p.clone(),
            None => String::new(),
        }
    }
}

/// The forwarded path is what remains of a well-formed URI once its scheme
/// and authority are cut off the front: it is a suffix of the URI's text,
/// holds all of it after the origin, and begins a path whenever it is not
/// empty.
pub proof fn lemma_forward_path_strips_origin(u: RequestUri)
    requires
        u.well_formed(),
    ensures
        u.text() == u.origin() + part_text(u.path_and_query),
        part_text(u.path_and_query) == u.text().subrange(u.origin().len() as int, u.text().len() as int),
        part_text(u.path_and_query).len() > 0 ==> part_text(u.path_and_query)[0] == '/',
{
    let o = u.origin();
    let p = part_text(u.path_and_query);
    assert(u.text().subrange(o.len() as int, u.text().len() as int) =~= p);
}

} // verus!
