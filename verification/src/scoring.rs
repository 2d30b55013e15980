//! The scoring engine: counting exact matches (right symbol, right place) and
//! colour matches (right symbol, wrong place) between a secret code and a
//! guess of the same length, over any alphabet of symbols.
//!
//! The mathematical model: `exact_matches` counts agreeing positions, and the
//! colour matches are the size of the multiset intersection of the two
//! residuals, the symbols left on each side once the agreeing positions are
//! taken out.  This makes the rule "each secret symbol is consumed at most
//! once" explicit.

use vstd::prelude::*;
use vstd::multiset::Multiset;
use vstd::assert_multisets_equal;

verus! {

broadcast use {
    vstd::multiset::group_multiset_axioms,
    vstd::multiset::group_multiset_properties,
    vstd::seq_lib::group_to_multiset_ensures,
};

/// The outcome of scoring one guess against a secret: `bulls` counts the
/// positions where guess and secret hold the same symbol, `cows` counts the
/// symbols shared between guess and secret at different positions, without
/// using any secret symbol twice.
#[derive(PartialEq, Eq, Structural, Clone, Copy, Debug)]
pub struct Score {
    pub bulls: usize,
    pub cows: usize,
}

impl Score {
    pub fn new(bulls: usize, cows: usize) -> (r: Score)
        ensures
            r.bulls == bulls,
            r.cows == cows,
    {
        Score { bulls, cows }
    }
}

/// The number of positions at which the two sequences agree.
pub open spec fn exact_matches<T>(s: Seq<T>, g: Seq<T>) -> nat
    decreases s.len(),
{
    if s.len() == 0 || g.len() == 0 {
        0
    } else {
        exact_matches(s.drop_last(), g.drop_last()) + if s.last() == g.last() {
            1nat
        } else {
            0nat
        }
    }
}

/// The symbols of `s` at the positions where `s` and `g` disagree, in order.
pub open spec fn residual<T>(s: Seq<T>, g: Seq<T>) -> Seq<T>
    decreases s.len(),
{
    if s.len() == 0 || g.len() == 0 {
        Seq::empty()
    } else if s.last() == g.last() {
        residual(s.drop_last(), g.drop_last())
    } else {
        residual(s.drop_last(), g.drop_last()).push(s.last())
    }
}

/// The multiset of symbols sitting at agreeing positions.
pub open spec fn exact_part<T>(s: Seq<T>, g: Seq<T>) -> Multiset<T>
    decreases s.len(),
{
    if s.len() == 0 || g.len() == 0 {
        Multiset::empty()
    } else if s.last() == g.last() {
        exact_part(s.drop_last(), g.drop_last()).insert(s.last())
    } else {
        exact_part(s.drop_last(), g.drop_last())
    }
}

/// The number of colour matches: how many symbols the two residuals share,
/// counted with multiplicity.
pub open spec fn colour_matches<T>(s: Seq<T>, g: Seq<T>) -> nat {
    residual(s, g).to_multiset().intersection_with(residual(g, s).to_multiset()).len()
}

/// The size of the multiset intersection of the two whole codes: for each
/// symbol, the smaller of its two occurrence counts, summed over all symbols.
pub open spec fn shared_symbols<T>(s: Seq<T>, g: Seq<T>) -> nat {
    s.to_multiset().intersection_with(g.to_multiset()).len()
}

/// Each code splits into the symbols at agreeing positions and its residual.
/// The agreeing part is one and the same multiset on both sides.
proof fn lemma_code_decomposition<T>(s: Seq<T>, g: Seq<T>)
    requires
        s.len() == g.len(),
    ensures
        s.to_multiset() == exact_part(s, g).add(residual(s, g).to_multiset()),
        g.to_multiset() == exact_part(s, g).add(residual(g, s).to_multiset()),
    decreases s.len(),
{
    if s.len() == 0 {
        assert(s.to_multiset() =~= exact_part(s, g).add(residual(s, g).to_multiset()));
        assert(g.to_multiset() =~= exact_part(s, g).add(residual(g, s).to_multiset()));
    } else {
        let s0 = s.drop_last();
        let g0 = g.drop_last();
        lemma_code_decomposition(s0, g0);
        assert(s =~= s0.push(s.last()));
        assert(g =~= g0.push(g.last()));
        assert(s.to_multiset() =~= s0.to_multiset().insert(s.last()));
        assert(g.to_multiset() =~= g0.to_multiset().insert(g.last()));
        if s.last() == g.last() {
            assert(s.to_multiset() =~= exact_part(s, g).add(residual(s, g).to_multiset()));
            assert(g.to_multiset() =~= exact_part(s, g).add(residual(g, s).to_multiset()));
        } else {
            assert(residual(s, g).to_multiset() =~= residual(s0, g0).to_multiset().insert(
                s.last(),
            ));
            assert(residual(g, s).to_multiset() =~= residual(g0, s0).to_multiset().insert(
                g.last(),
            ));
            assert(s.to_multiset() =~= exact_part(s, g).add(residual(s, g).to_multiset()));
            assert(g.to_multiset() =~= exact_part(s, g).add(residual(g, s).to_multiset()));
        }
    }
}

/// The agreeing part holds one symbol per agreeing position.
proof fn lemma_exact_part_len<T>(s: Seq<T>, g: Seq<T>)
    requires
        s.len() == g.len(),
    ensures
        exact_part(s, g).len() == exact_matches(s, g),
    decreases s.len(),
{
    if s.len() != 0 {
        lemma_exact_part_len(s.drop_last(), g.drop_last());
    }
}

/// Intersecting two multisets that share a common part `e` keeps all of `e`
/// and intersects only the rest.
proof fn lemma_intersection_add_common<T>(e: Multiset<T>, a: Multiset<T>, b: Multiset<T>)
    ensures
        e.add(a).intersection_with(e.add(b)).len() == e.len() + a.intersection_with(b).len(),
{
    broadcast use vstd::multiset::lemma_intersection_count;

    assert_multisets_equal!(e.add(a).intersection_with(e.add(b)), e.add(a.intersection_with(b)));
}

/// The two matching disciplines together account exactly for the multiset
/// intersection of the two codes: for each symbol, the smaller of its two
/// occurrence counts, summed, equals exact matches plus colour matches.
pub proof fn lemma_score_decomposition<T>(s: Seq<T>, g: Seq<T>)
    requires
        s.len() == g.len(),
    ensures
        exact_matches(s, g) + colour_matches(s, g) == shared_symbols(s, g),
{
    lemma_code_decomposition(s, g);
    lemma_exact_part_len(s, g);
    lemma_intersection_add_common(
        exact_part(s, g),
        residual(s, g).to_multiset(),
        residual(g, s).to_multiset(),
    );
}

/// A multiset intersection is no larger than either operand.
proof fn lemma_intersection_le<T>(a: Multiset<T>, b: Multiset<T>)
    ensures
        a.intersection_with(b).len() <= a.len(),
        a.intersection_with(b).len() <= b.len(),
{
    broadcast use vstd::multiset::lemma_intersection_count;

    let i = a.intersection_with(b);
    assert(i.subset_of(a));
    assert(i.subset_of(b));
    assert(a.sub(i).len() == a.len() - i.len());
    assert(b.sub(i).len() == b.len() - i.len());
}

/// Exact matches and colour matches together never exceed the shared symbol
/// count, nor the length of the codes.
pub proof fn lemma_score_bounds<T>(s: Seq<T>, g: Seq<T>)
    requires
        s.len() == g.len(),
    ensures
        exact_matches(s, g) + colour_matches(s, g) <= shared_symbols(s, g),
        exact_matches(s, g) + colour_matches(s, g) <= s.len(),
{
    lemma_score_decomposition(s, g);
    lemma_intersection_le(s.to_multiset(), g.to_multiset());
}

/// Exact matching does not care which code is the secret and which the guess.
pub proof fn lemma_exact_matches_symmetric<T>(s: Seq<T>, g: Seq<T>)
    ensures
        exact_matches(s, g) == exact_matches(g, s),
    decreases s.len(),
{
    if s.len() != 0 && g.len() != 0 {
        lemma_exact_matches_symmetric(s.drop_last(), g.drop_last());
    }
}

/// A code scored against itself matches everywhere and yields no colour
/// matches: a symbol already counted as exact is never counted again.
pub proof fn lemma_perfect_match<T>(s: Seq<T>)
    ensures
        exact_matches(s, s) == s.len(),
        colour_matches(s, s) == 0,
    decreases s.len(),
{
    if s.len() != 0 {
        lemma_perfect_match(s.drop_last());
    }
    assert(residual(s, s).to_multiset().intersection_with(residual(s, s).to_multiset())
        =~= Multiset::empty()) by {
        broadcast use vstd::multiset::lemma_intersection_count;

    }
}

/// A symbol of a code: the scoring engine only ever compares symbols for
/// equality.
pub trait Symbol: Sized + Copy {
    /// Decides whether two symbols are equal.
    fn sym_eq(&self, other: &Self) -> (r: bool)
        ensures
            r == (self == other),
    ;
}

impl Symbol for char {
    fn sym_eq(&self, other: &Self) -> (r: bool)
        ensures
            r == (self == other),
    {
        *self == *other
    }
}

/// Looks for `x` in `bag` and reports the first position holding it.
fn find_symbol<T: Symbol>(bag: &Vec<T>, x: &T) -> (r: Option<usize>)
    ensures
        match r {
            Some(k) => k < bag@.len() && bag@[k as int] == *x,
            None => !bag@.contains(*x),
        },
{
    let n = bag.len();
    let mut k: usize = 0;
    while k < n
        invariant
            k <= n,
            n == bag@.len(),
            forall|m: int| 0 <= m < k ==> bag@[m] != *x,
        decreases n - k,
    {
        if bag[k].sym_eq(x) {
            return Some(k);
        }
        k += 1;
    }
    None
}

/// Removing a symbol present in the bag takes exactly one match out of the
/// intersection with a residual extended by that same symbol.
proof fn lemma_consume_found<T>(b: Multiset<T>, r: Multiset<T>, c: T)
    requires
        b.count(c) >= 1,
    ensures
        b.intersection_with(r.insert(c)).len() == 1 + b.remove(c).intersection_with(r).len(),
{
    broadcast use vstd::multiset::lemma_intersection_count;

    assert_multisets_equal!(
        b.intersection_with(r.insert(c)),
        b.remove(c).intersection_with(r).insert(c),
    );
}

/// A symbol absent from the bag adds nothing to the intersection.
proof fn lemma_consume_missing<T>(b: Multiset<T>, r: Multiset<T>, c: T)
    requires
        b.count(c) == 0,
    ensures
        b.intersection_with(r.insert(c)).len() == b.intersection_with(r).len(),
{
    broadcast use vstd::multiset::lemma_intersection_count;

    assert_multisets_equal!(b.intersection_with(r.insert(c)), b.intersection_with(r));
}

/// Scores a guess against a secret of the same length.
///
/// First pass: count the agreeing positions and collect the secret's leftover
/// symbols into a bag.  Second pass: for every disagreeing guess symbol that
/// is still in the bag, count one colour match and take that symbol out, so
/// that no secret symbol is claimed twice.
pub fn score_codes<T: Symbol>(secret: &Vec<T>, guess: &Vec<T>) -> (r: (usize, usize))
    requires
        secret@.len() == guess@.len(),
    ensures
        r.0 == exact_matches(secret@, guess@),
        r.1 == colour_matches(secret@, guess@),
{
    let n = secret.len();
    let mut bulls: usize = 0;
    let mut bag: Vec<T> = Vec::new();
    let mut i: usize = 0;
    while i < n
        invariant
            i <= n,
            n == secret@.len(),
            n == guess@.len(),
            bulls <= i,
            bulls == exact_matches(secret@.take(i as int), guess@.take(i as int)),
            bag@ == residual(secret@.take(i as int), guess@.take(i as int)),
        decreases n - i,
    {
        proof {
            assert(secret@.take(i + 1).drop_last() =~= secret@.take(i as int));
            assert(guess@.take(i + 1).drop_last() =~= guess@.take(i as int));
        }
        if secret[i].sym_eq(&guess[i]) {
            bulls += 1;
        } else {
            bag.push(secret[i]);
        }
        i += 1;
    }
    proof {
        assert(secret@.take(n as int) =~= secret@);
        assert(guess@.take(n as int) =~= guess@);
    }
    let mut cows: usize = 0;
    let mut j: usize = n;
    while j > 0
        invariant
            j <= n,
            n == secret@.len(),
            n == guess@.len(),
            cows <= n - j,
            cows + bag@.to_multiset().intersection_with(
                residual(guess@.take(j as int), secret@.take(j as int)).to_multiset(),
            ).len() == colour_matches(secret@, guess@),
        decreases j,
    {
        j -= 1;
        proof {
            assert(guess@.take(j + 1).drop_last() =~= guess@.take(j as int));
            assert(secret@.take(j + 1).drop_last() =~= secret@.take(j as int));
        }
        let ghost rest = residual(guess@.take(j as int), secret@.take(j as int)).to_multiset();
        if !secret[j].sym_eq(&guess[j]) {
            let ghost c = guess@[j as int];
            assert(residual(guess@.take(j + 1), secret@.take(j + 1)).to_multiset() =~= rest.insert(
                c,
            ));
            match find_symbol(&bag, &guess[j]) {
                Some(k) => {
                    proof {
                        lemma_consume_found(bag@.to_multiset(), rest, c);
                    }
                    bag.remove(k);
                    cows += 1;
                },
                None => {
                    proof {
                        lemma_consume_missing(bag@.to_multiset(), rest, c);
                    }
                },
            }
        }
    }
    proof {
        assert(residual(guess@.take(0), secret@.take(0)).to_multiset() =~= Multiset::empty());
        assert(bag@.to_multiset().intersection_with(Multiset::empty()) =~= Multiset::empty()) by {
            broadcast use vstd::multiset::lemma_intersection_count;

        }
    }
    (bulls, cows)
}

} // verus!
