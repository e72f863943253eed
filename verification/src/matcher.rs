//! Kind matching on glob strings as they stand, without compiling them.
//!
//! A kind is held against a glob string character by character, and the
//! answer is that of the glob that the string stands for: `*` takes every
//! kind, `example/*` takes the kinds that start with `example/`, anything
//! without an asterisk takes exactly itself. A string that is no glob takes
//! no kind.

use crate::glob::{compile, ends_with_slash_star, Filter};
use crate::text::chars_of;
use vstd::prelude::*;

verus! {

/// The pairs that a greedy zip of `a` and `b` yields: as many as the longer of
/// the two has items, with `None` where the shorter one has run out.
pub open spec fn greedy_zip<A, B>(a: Seq<A>, b: Seq<B>) -> Seq<(Option<A>, Option<B>)> {
    Seq::new(
        if a.len() >= b.len() {
            a.len()
        } else {
            b.len()
        },
        |i: int|
            (
                if i < a.len() {
                    Some(a[i])
                } else {
                    None
                },
                if i < b.len() {
                    Some(b[i])
                } else {
                    None
                },
            ),
    )
}

/// Whether `kind` matches the glob string `glob`: the string is a glob, and
/// the filter that it stands for takes the kind.
pub open spec fn kind_test(kind: Seq<char>, glob: Seq<char>) -> bool {
    match compile(glob) {
        Some(filter) => filter.matches(kind),
        None => false,
    }
}

/// This is a variant of `zip` that stops when both underlying sequences are
/// used up.
pub struct GreedyZip<A, B> {
    a: Vec<A>,
    b: Vec<B>,
    pos: usize,
}

impl<A, B> View for GreedyZip<A, B> {
    type V = Seq<(Option<A>, Option<B>)>;

    /// The pairs that are still to come.
    closed spec fn view(&self) -> Seq<(Option<A>, Option<B>)> {
        greedy_zip(self.a@, self.b@).skip(self.pos as int)
    }
}

impl<A, B> GreedyZip<A, B> {
    /// The position is never behind the end of the longer side.
    #[verifier::type_invariant]
    spec fn in_range(&self) -> bool {
        self.pos <= self.a@.len() || self.pos <= self.b@.len()
    }
}

impl<A: Copy, B: Copy> GreedyZip<A, B> {
    /// Zips `a` and `b` greedily.
    pub fn new(a: Vec<A>, b: Vec<B>) -> (z: GreedyZip<A, B>)
        ensures
            z@ == greedy_zip(a@, b@),
    {
        let z = GreedyZip { a, b, pos: 0 };
        assert(z@ =~= greedy_zip(a@, b@));
        z
    }

    /// Yields the next pair, or `None` once both sides are used up.
    pub fn next(&mut self) -> (r: Option<(Option<A>, Option<B>)>)
        ensures
            match r {
                Some(pair) => old(self)@.len() > 0 && pair == old(self)@[0] && final(self)@ == old(
                    self,
                )@.drop_first(),
                None => old(self)@.len() == 0 && final(self)@ == old(self)@,
            },
    {
        proof {
            use_type_invariant(&*self);
        }
        let i: usize = self.pos;
        if i < self.a.len() || i < self.b.len() {
            let left: Option<A> = if i < self.a.len() {
                Some(self.a[i])
            } else {
                None
            };
            let right: Option<B> = if i < self.b.len() {
                Some(self.b[i])
            } else {
                None
            };
            self.pos = i + 1;
            assert(old(self)@[0] == greedy_zip(self.a@, self.b@)[i as int]);
            assert(self@ =~= old(self)@.drop_first());
            Some((left, right))
        } else {
            None
        }
    }
}

/// Checks whether `kind` matches any of the glob strings in `globs`.
pub fn kind_matches(kind: &str, globs: &[&str]) -> (r: bool)
    ensures
        r == exists|i: int| 0 <= i < globs@.len() && kind_test(kind@, #[trigger] globs@[i]@),
{
    let mut i: usize = 0;
    while i < globs.len()
        invariant
            i <= globs@.len(),
            forall|j: int| 0 <= j < i ==> !kind_test(kind@, #[trigger] globs@[j]@),
        decreases globs@.len() - i,
    {
        if test_kind(kind, globs[i]) {
            return true;
        }
        i += 1;
    }
    false
}

/// Checks whether `kind` matches the glob string `glob`.
///
/// The two are walked side by side up to the first asterisk of the glob
/// string or the first difference. An asterisk counts where it ends the
/// string and stands alone or behind a slash.
pub fn test_kind(kind: &str, glob: &str) -> (r: bool)
    ensures
        r == kind_test(kind@, glob@),
{
    let mut it = GreedyZip::new(chars_of(kind), chars_of(glob));
    let ghost all = greedy_zip(kind@, glob@);
    let ghost mut n: int = 0;
    let mut before: Option<char> = None;
    loop
        invariant
            0 <= n <= all.len(),
            all == greedy_zip(kind@, glob@),
            it@ == all.skip(n),
            n <= kind@.len() && n <= glob@.len(),
            kind@.subrange(0, n) == glob@.subrange(0, n),
            forall|j: int| 0 <= j < n ==> glob@[j] != '*',
            before == if n == 0 {
                None
            } else {
                Some(glob@[n - 1])
            },
        decreases all.len() - n,
    {
        match it.next() {
            None => {
                // Both have run out: the glob string has no asterisk.
                proof {
                    assert(all.skip(n).len() == 0);
                    assert(kind@.subrange(0, n) =~= kind@);
                    assert(glob@.subrange(0, n) =~= glob@);
                    lemma_plain(kind@, glob@);
                }
                return before.is_some();
            },
            Some((_, None)) => {
                // The glob string has run out before the kind.
                proof {
                    assert(all.skip(n)[0] == all[n]);
                    assert(glob@.subrange(0, n) =~= glob@);
                    lemma_plain(kind@, glob@);
                }
                return false;
            },
            Some((k, Some(gch))) => {
                assert(all.skip(n)[0] == all[n]);
                if gch == '*' {
                    // The asterisk takes the rest of the kind, if the glob
                    // string ends here.
                    let last: bool = match it.next() {
                        None => true,
                        Some((_, None)) => true,
                        Some((_, Some(_))) => false,
                    };
                    proof {
                        assert(all.skip(n).drop_first() =~= all.skip(n + 1));
                        if all.skip(n + 1).len() > 0 {
                            assert(all.skip(n + 1)[0] == all[n + 1]);
                        }
                        assert(last == (n + 1 == glob@.len()));
                        lemma_star(kind@, glob@, n);
                    }
                    return last && match before {
                        None => true,
                        Some(c) => c == '/',
                    };
                }
                let same: bool = match k {
                    Some(kch) => kch == gch,
                    None => false,
                };
                if !same {
                    // The kind has run out, or the characters are not equal.
                    proof {
                        lemma_apart(kind@, glob@, n);
                    }
                    return false;
                }
                before = Some(gch);
                proof {
                    assert(kind@.subrange(0, n + 1) =~= kind@.subrange(0, n).push(kind@[n]));
                    assert(glob@.subrange(0, n + 1) =~= glob@.subrange(0, n).push(glob@[n]));
                    assert(all.skip(n).drop_first() =~= all.skip(n + 1));
                    n = n + 1;
                }
            },
        }
    }
}

/// A glob string without an asterisk takes exactly itself, unless it is
/// empty.
proof fn lemma_plain(kind: Seq<char>, glob: Seq<char>)
    requires
        forall|j: int| 0 <= j < glob.len() ==> glob[j] != '*',
    ensures
        kind_test(kind, glob) == (glob.len() > 0 && kind == glob),
{
    if glob == seq!['*'] {
        assert(glob[0] == '*');
    }
}

/// Where `kind` and `glob` agree on their first `n` characters and the first
/// asterisk of `glob` stands at `n`, `kind` matches exactly when the
/// asterisk ends `glob` and stands alone or behind a slash.
proof fn lemma_star(kind: Seq<char>, glob: Seq<char>, n: int)
    requires
        0 <= n <= kind.len(),
        n < glob.len(),
        glob[n] == '*',
        forall|j: int| 0 <= j < n ==> glob[j] != '*',
        kind.subrange(0, n) == glob.subrange(0, n),
    ensures
        kind_test(kind, glob) == (n + 1 == glob.len() && (n == 0 || glob[n - 1] == '/')),
{
    if n + 1 == glob.len() && (n == 0 || glob[n - 1] == '/') {
        if n == 0 {
            assert(glob =~= seq!['*']);
        } else {
            assert(glob != seq!['*']);
            assert(ends_with_slash_star(glob));
            assert(glob.drop_last() =~= glob.subrange(0, n));
            assert(!glob.drop_last().contains('*'));
            assert(compile(glob) == Some(Filter::Prefix(glob.drop_last())));
            assert(glob.drop_last().is_prefix_of(kind));
        }
    } else {
        if glob == seq!['*'] {
            assert(n == 0);
        }
        if ends_with_slash_star(glob) && !glob.drop_last().contains('*') {
            if n < glob.len() - 1 {
                assert(glob.drop_last()[n] == '*');
            }
        }
        assert(compile(glob) is None);
    }
}

/// Where `kind` and `glob` agree on their first `n` characters, none of them
/// an asterisk, and `glob` goes on with a character that is no asterisk
/// while `kind` ends or goes on with another, `kind` does not match.
proof fn lemma_apart(kind: Seq<char>, glob: Seq<char>, n: int)
    requires
        0 <= n <= kind.len(),
        n < glob.len(),
        glob[n] != '*',
        n < kind.len() ==> kind[n] != glob[n],
    ensures
        !kind_test(kind, glob),
{
    match compile(glob) {
        Some(Filter::All) => {
            assert(glob[0] == '*');
        },
        Some(Filter::Prefix(p)) => {
            assert(glob[glob.len() - 1] == '*');
            if p.is_prefix_of(kind) {
                assert(kind.subrange(0, p.len() as int)[n] == p[n]);
            }
        },
        Some(Filter::Exact(e)) => {},
        None => {},
    }
}

} // verus!
