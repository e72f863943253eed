//! Kind matching: topic filters ("globs") and sets of them.
//!
//! A plugin chooses the kinds of message it wants by a list of globs. The
//! language has three forms: `*` takes every kind, `example/*` takes the
//! kinds that start with `example/`, and anything without an asterisk takes
//! exactly itself. Kinds and globs are compared scalar value by scalar value.

use crate::text::{chars_of, equals, find_char, lemma_find_contains, starts_with};
use vstd::prelude::*;

verus! {

/// What a glob means: the mathematical value of a compiled filter.
pub enum Filter {
    /// Every kind.
    All,
    /// The kinds that start with these characters.
    Prefix(Seq<char>),
    /// This kind and no other.
    Exact(Seq<char>),
}

impl Filter {
    /// Whether the filter lets `kind` through.
    pub open spec fn matches(self, kind: Seq<char>) -> bool {
        match self {
            Filter::All => true,
            Filter::Prefix(p) => p.is_prefix_of(kind),
            Filter::Exact(e) => kind == e,
        }
    }
}

/// Whether `glob` ends with a slash and an asterisk.
pub open spec fn ends_with_slash_star(glob: Seq<char>) -> bool {
    glob.len() >= 2 && glob[glob.len() - 2] == '/' && glob[glob.len() - 1] == '*'
}

/// The filter that a glob string stands for, or `None` where the string is
/// no glob: the empty string, and any string with an asterisk other than `*`
/// itself or a single asterisk right after a final slash.
pub open spec fn compile(glob: Seq<char>) -> Option<Filter> {
    if glob.len() == 0 {
        None
    } else if glob == seq!['*'] {
        Some(Filter::All)
    } else if !glob.contains('*') {
        Some(Filter::Exact(glob))
    } else if ends_with_slash_star(glob) && !glob.drop_last().contains('*') {
        Some(Filter::Prefix(glob.drop_last()))
    } else {
        None
    }
}

/// Whether any of `filters` lets `kind` through.
pub open spec fn matches_any(filters: Seq<Filter>, kind: Seq<char>) -> bool {
    exists|i: int| 0 <= i < filters.len() && #[trigger] filters[i].matches(kind)
}

/// Whether `globs[i]` is the first string of `globs` that is no glob.
pub open spec fn first_invalid(globs: Seq<&str>, i: int) -> bool {
    &&& 0 <= i < globs.len()
    &&& compile(globs[i]@) is None
    &&& forall|j: int| 0 <= j < i ==> compile(#[trigger] globs[j]@) is Some
}

/// The error type for glob parsing: holds the string that is no glob.
#[derive(Debug)]
pub struct GlobError(pub String);

/// Represents a parsed glob.
#[derive(Debug)]
pub enum Glob {
    /// Equivalent to `*`. Matches any kind.
    MatchAll,
    /// Equivalent to `example/*`. Matches kinds starting with `example/`.
    MatchPrefix(String),
    /// Equivalent to `example/kind`. Only matches `example/kind`.
    MatchExact(String),
}

impl View for Glob {
    type V = Filter;

    open spec fn view(&self) -> Filter {
        match self {
            Glob::MatchAll => Filter::All,
            Glob::MatchPrefix(p) => Filter::Prefix(p@),
            Glob::MatchExact(e) => Filter::Exact(e@),
        }
    }
}

impl Glob {
    /// Compiles a glob string.
    ///
    /// Returns the glob that `compile` describes, or a `GlobError` that holds
    /// the string where it describes none.
    pub fn from_str(glob: &str) -> (r: Result<Glob, GlobError>)
        ensures
            match r {
                Ok(g) => compile(glob@) == Some(g@),
                Err(e) => compile(glob@) is None && e.0@ == glob@,
            },
    {
        let v: Vec<char> = chars_of(glob);
        let n: usize = v.len();
        if n == 0 {
            return Err(GlobError(glob.to_owned()));
        }
        proof {
            lemma_find_contains(v@, '*');
            assert(v@.subrange(0, n as int) =~= v@);
        }
        match find_char(&v, 0, n, '*') {
            None => {
                assert(v@ != seq!['*']) by {
                    if v@ == seq!['*'] {
                        assert(v@[0] == '*');
                    }
                }
                Ok(Glob::MatchExact(glob.to_owned()))
            },
            Some(star) => {
                assert(v@[star as int] == '*');
                if n == 1 {
                    assert(v@ =~= seq!['*']);
                    Ok(Glob::MatchAll)
                } else if star == n - 1 && v[n - 2] == '/' {
                    // The first asterisk is the last character: the glob is a
                    // kind prefix.
                    assert(v@.drop_last() == glob@.subrange(0, n - 1));
                    Ok(Glob::MatchPrefix(glob.substring_char(0, n - 1).to_owned()))
                } else {
                    // An asterisk stands before the end, or not after a slash.
                    assert(ends_with_slash_star(v@) ==> v@.drop_last().contains('*')) by {
                        if ends_with_slash_star(v@) {
                            assert(v@.drop_last()[star as int] == '*');
                        }
                    }
                    Err(GlobError(glob.to_owned()))
                }
            },
        }
    }

    /// Checks whether `kind`, given by its characters, matches the glob.
    pub fn matches(&self, kind: &Vec<char>) -> (r: bool)
        ensures
            r == self@.matches(kind@),
    {
        match self {
            Glob::MatchAll => true,
            Glob::MatchPrefix(ns) => starts_with(kind, ns.as_str()),
            Glob::MatchExact(k) => equals(kind, k.as_str()),
        }
    }
}

impl core::str::FromStr for Glob {
    type Err = GlobError;

    /// Compiles a glob string, as the function of the same name on `Glob`
    /// does.
    fn from_str(glob: &str) -> (r: Result<Glob, GlobError>)
        ensures
            match r {
                Ok(g) => compile(glob@) == Some(g@),
                Err(e) => compile(glob@) is None && e.0@ == glob@,
            },
    {
        Glob::from_str(glob)
    }
}

/// A set of glob rules.
///
/// The glob set is the main abstraction for interacting with globs at a plugin
/// level. A kind matches the set if it matches any glob in it.
#[derive(Debug)]
pub struct GlobSet {
    globs: Vec<Glob>,
}

impl View for GlobSet {
    type V = Seq<Filter>;

    closed spec fn view(&self) -> Seq<Filter> {
        self.globs@.map_values(|g: Glob| g@)
    }
}

impl GlobSet {
    /// Creates a `GlobSet` from a list of glob strings.
    ///
    /// The set holds one glob for each string, in the order given. If any
    /// string is no glob there is no set: the error holds the first such
    /// string.
    pub fn from_globs(globs: &[&str]) -> (r: Result<GlobSet, GlobError>)
        ensures
            match r {
                Ok(set) => {
                    &&& set@.len() == globs@.len()
                    &&& forall|i: int|
                        0 <= i < globs@.len() ==> compile(#[trigger] globs@[i]@) == Some(set@[i])
                },
                Err(e) => exists|i: int| first_invalid(globs@, i) && e.0@ == globs@[i]@,
            },
    {
        let mut gs = GlobSet { globs: Vec::with_capacity(globs.len()) };
        let mut i: usize = 0;
        while i < globs.len()
            invariant
                i <= globs@.len(),
                gs@.len() == i,
                forall|j: int| 0 <= j < i ==> compile(#[trigger] globs@[j]@) == Some(gs@[j]),
            decreases globs@.len() - i,
        {
            match gs.add_glob(globs[i]) {
                Ok(()) => {},
                Err(e) => {
                    assert(first_invalid(globs@, i as int));
                    return Err(e);
                },
            }
            i += 1;
        }
        Ok(gs)
    }

    /// The set that takes every kind: it holds the one glob `*`.
    pub fn all() -> (set: GlobSet)
        ensures
            set@ == seq![Filter::All],
    {
        let mut globs: Vec<Glob> = Vec::new();
        globs.push(Glob::MatchAll);
        let set = GlobSet { globs };
        assert(set@ =~= seq![Filter::All]);
        set
    }

    /// Checks if `kind` matches any of the globs in the set.
    pub fn match_kind(&self, kind: &str) -> (r: bool)
        ensures
            r == matches_any(self@, kind@),
    {
        let text: Vec<char> = chars_of(kind);
        self.match_chars(&text)
    }

    /// Checks if `kind`, given by its characters, matches any of the globs
    /// in the set. The globs are tried in their order, up to the first that
    /// matches.
    pub fn match_chars(&self, kind: &Vec<char>) -> (r: bool)
        ensures
            r == matches_any(self@, kind@),
    {
        let mut i: usize = 0;
        while i < self.globs.len()
            invariant
                i <= self.globs@.len(),
                forall|j: int| 0 <= j < i ==> !(#[trigger] self@[j]).matches(kind@),
            decreases self.globs@.len() - i,
        {
            if self.globs[i].matches(kind) {
                assert(self@[i as int].matches(kind@));
                return true;
            }
            i += 1;
        }
        false
    }

    /// Adds a glob to the set.
    ///
    /// The glob string is compiled with `Glob::from_str` and put behind the
    /// globs that the set holds. A string that is no glob comes back in the
    /// error, and the set stays as it was.
    pub fn add_glob(&mut self, glob: &str) -> (r: Result<(), GlobError>)
        ensures
            match r {
                Ok(()) => compile(glob@) matches Some(f) && final(self)@ == old(self)@.push(f),
                Err(e) => compile(glob@) is None && e.0@ == glob@ && final(self)@ == old(self)@,
            },
    {
        match Glob::from_str(glob) {
            Ok(g) => {
                self.globs.push(g);
                assert(self@ =~= old(self)@.push(g@));
                Ok(())
            },
            Err(e) => Err(e),
        }
    }
}

/// What matching means for each form of glob, for every kind `t`: `*` takes
/// `t`; a prefix glob takes `t` exactly when `t` starts with the prefix; an
/// exact glob takes `t` exactly when `t` is that kind.
pub proof fn lemma_glob_match(t: Seq<char>, p: Seq<char>, e: Seq<char>)
    ensures
        Filter::All.matches(t),
        Filter::Prefix(p).matches(t) <==> p.len() <= t.len() && t.subrange(0, p.len() as int) == p,
        Filter::Exact(e).matches(t) <==> t == e,
{
}

/// A set is built from valid strings only: where one of the strings is no
/// glob, there is no set that `from_globs` could return for them.
pub proof fn lemma_from_globs_atomic(globs: Seq<&str>, bad: int)
    requires
        0 <= bad < globs.len(),
        compile(globs[bad]@) is None,
    ensures
        exists|i: int| first_invalid(globs, i),
        !exists|set: Seq<Filter>|
            set.len() == globs.len() && forall|i: int|
                0 <= i < globs.len() ==> compile(#[trigger] globs[i]@) == Some(set[i]),
    decreases bad,
{
    if forall|j: int| 0 <= j < bad ==> compile(#[trigger] globs[j]@) is Some {
        assert(first_invalid(globs, bad));
    } else {
        let j = choose|j: int| 0 <= j < bad && compile(#[trigger] globs[j]@) is None;
        lemma_from_globs_atomic(globs, j);
    }
}

} // verus!
