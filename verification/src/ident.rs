//! Identifiers of images, machines and instances.
//!
//! An identifier starts out as a random string of URL-friendly symbols.
//! Where that string is already taken it is lengthened, one symbol at a
//! time, until it is not: [`fresh_from`] says which identifier comes out,
//! and [`lemma_fresh_from`] that it is never one of the taken ones.

use vstd::prelude::*;

verus! {

/// The number of symbols in a random identifier.
pub const ID_LENGTH: usize = 21;

/// The symbols that identifiers are made of: letters, digits, `_` and `-`.
pub open spec fn is_id_symbol(c: char) -> bool {
    ||| 'a' <= c <= 'z'
    ||| 'A' <= c <= 'Z'
    ||| '0' <= c <= '9'
    ||| c == '_'
    ||| c == '-'
}

/// Whether `id` is made of identifier symbols only.
pub open spec fn is_id(id: Seq<char>) -> bool {
    forall|i: int| 0 <= i < id.len() ==> is_id_symbol(#[trigger] id[i])
}

/// A random identifier.
///
/// Calls `nanoid::format` with the random source `nanoid::rngs::default`,
/// the alphabet `nanoid::alphabet::SAFE` and a length of 21, as the macro
/// `nanoid!()` does. That function draws random bytes from the operating
/// system until it has 21 symbols of the alphabet, and returns them. The
/// alphabet holds the 64 symbols of [`is_id_symbol`], each one byte long.
/// The contract is believed, not proved. It claims the length and the
/// alphabet of the result and nothing of which symbols come out.
#[verifier::external_body]
pub(crate) fn random_id() -> (id: String)
    ensures
        id@.len() == ID_LENGTH,
        is_id(id@),
{
    nanoid::format(nanoid::rngs::default, &nanoid::alphabet::SAFE, 21)
}

/// The identifier that is assigned when `candidate` is proposed and the
/// identifiers in `used` are taken: the candidate itself where it is free,
/// and else the candidate followed by as many `0` as it takes to make it
/// free.
pub open spec fn fresh_from(used: Set<Seq<char>>, candidate: Seq<char>) -> Seq<char>
    decreases used.len(),
    when used.finite()
{
    if used.contains(candidate) {
        fresh_from(used.remove(candidate), candidate.push('0'))
    } else {
        candidate
    }
}

/// The identifier that is assigned is free, starts with the candidate and
/// is the candidate where that is free. It is made of identifier symbols
/// where the candidate is.
pub proof fn lemma_fresh_from(used: Set<Seq<char>>, candidate: Seq<char>)
    requires
        used.finite(),
    ensures
        !used.contains(fresh_from(used, candidate)),
        candidate.is_prefix_of(fresh_from(used, candidate)),
        !used.contains(candidate) ==> fresh_from(used, candidate) == candidate,
        is_id(candidate) ==> is_id(fresh_from(used, candidate)),
    decreases used.len(),
{
    if used.contains(candidate) {
        let longer = candidate.push('0');
        let rest = used.remove(candidate);
        lemma_fresh_from(rest, longer);
        let id = fresh_from(rest, longer);
        assert(longer.is_prefix_of(id));
        assert(id.len() >= longer.len());
        assert(id != candidate);
        assert(candidate.is_prefix_of(id)) by {
            assert(candidate =~= longer.subrange(0, candidate.len() as int));
            assert(longer =~= id.subrange(0, longer.len() as int));
            assert(candidate =~= id.subrange(0, candidate.len() as int));
        }
        if is_id(candidate) {
            assert(is_id(longer));
        }
    }
}

} // verus!
