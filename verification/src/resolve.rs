//! Resolving a property of an element from explicit values and defaults.
//!
//! The values that a property has along the chain from an element to the
//! root are given as a sequence, the element's own value first; an entry is
//! `None` where the property is not set.

use vstd::prelude::*;

verus! {

/// The nearest explicit value of a property from position `from` of the
/// chain on.
pub open spec fn inherited<T>(chain: Seq<Option<T>>, from: int) -> Option<T>
    decreases chain.len() - from,
{
    if from < 0 || from >= chain.len() {
        None
    } else {
        match chain[from] {
            Some(v) => Some(v),
            None => inherited(chain, from + 1),
        }
    }
}

/// The value of a property that is inherited: the nearest explicit value,
/// or the default where there is none.
pub open spec fn value_inherited<T>(chain: Seq<Option<T>>, default: T) -> T {
    match inherited(chain, 0) {
        Some(v) => v,
        None => default,
    }
}

/// The value of a property that is not inherited: the element's own value,
/// or the default where it has none.
pub open spec fn value_own<T>(chain: Seq<Option<T>>, default: T) -> T {
    if chain.len() > 0 && chain[0] is Some {
        chain[0].unwrap()
    } else {
        default
    }
}

/// A property that is set nowhere from position `from` on has no
/// explicit value there.
pub proof fn lemma_unset_has_no_value<T>(chain: Seq<Option<T>>, from: int)
    requires
        forall|i: int| 0 <= i < chain.len() ==> (#[trigger] chain[i]) is None,
    ensures
        inherited(chain, from) is None,
    decreases chain.len() - from,
{
    if 0 <= from < chain.len() {
        lemma_unset_has_no_value(chain, from + 1);
    }
}

/// A property that is set neither on the element nor on any ancestor
/// resolves to its default, inherited or not.
pub proof fn lemma_unset_gives_default<T>(chain: Seq<Option<T>>, default: T)
    requires
        forall|i: int| 0 <= i < chain.len() ==> (#[trigger] chain[i]) is None,
    ensures
        value_inherited(chain, default) == default,
        value_own(chain, default) == default,
{
    lemma_unset_has_no_value(chain, 0);
}

/// The closest explicit value wins: the element's own value if it has one,
/// else what its parent has.
pub proof fn lemma_closest_wins<T>(chain: Seq<Option<T>>, default: T)
    requires
        chain.len() > 0,
    ensures
        chain[0] is Some ==> value_inherited(chain, default) == chain[0].unwrap(),
        chain[0] is None ==> value_inherited(chain, default) == value_inherited(
            chain.subrange(1, chain.len() as int),
            default,
        ),
{
    if chain[0] is None {
        lemma_inherited_shift(chain, 1);
    }
}

/// Looking from position `from` on is looking from the start of the chain
/// without its first `from` entries.
proof fn lemma_inherited_shift<T>(chain: Seq<Option<T>>, from: int)
    requires
        0 <= from <= chain.len(),
    ensures
        inherited(chain, from) == inherited(chain.subrange(from, chain.len() as int), 0),
    decreases chain.len() - from,
{
    let rest = chain.subrange(from, chain.len() as int);
    if from < chain.len() {
        if chain[from] is None {
            lemma_inherited_shift(chain, from + 1);
            lemma_inherited_shift(rest, 1);
            assert(rest.subrange(1, rest.len() as int) =~= chain.subrange(
                from + 1,
                chain.len() as int,
            ));
        }
    }
}

/// Resolves a property that is inherited.
pub fn resolve_inherited<T: Copy>(chain: &[Option<T>], default: T) -> (value: T)
    ensures
        value == value_inherited(chain@, default),
{
    let mut i: usize = 0;
    while i < chain.len()
        invariant
            i <= chain@.len(),
            inherited(chain@, 0) == inherited(chain@, i as int),
        decreases chain@.len() - i,
    {
        match chain[i] {
            Some(v) => {
                return v;
            },
            None => {},
        }
        i = i + 1;
    }
    default
}

/// Resolves a property that is not inherited.
pub fn resolve_own<T: Copy>(chain: &[Option<T>], default: T) -> (value: T)
    ensures
        value == value_own(chain@, default),
{
    if chain.len() > 0 {
        match chain[0] {
            Some(v) => v,
            None => default,
        }
    } else {
        default
    }
}

} // verus!
