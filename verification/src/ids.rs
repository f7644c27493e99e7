use vstd::prelude::*;

verus! {

/// A character of the URL-safe alphabet `A-Za-z0-9_-`.
pub open spec fn is_url_safe_char(c: char) -> bool {
    ||| ('A' <= c && c <= 'Z')
    ||| ('a' <= c && c <= 'z')
    ||| ('0' <= c && c <= '9')
    ||| c == '_'
    ||| c == '-'
}

/// The shape of a generated identifier: 21 URL-safe characters.
pub open spec fn is_generated_id(s: Seq<char>) -> bool {
    &&& s.len() == 21
    &&& forall|i: int| 0 <= i < s.len() ==> is_url_safe_char(#[trigger] s[i])
}

/// Generates a fresh random identifier with `nanoid::format`, fed by
/// `nanoid::rngs::default` (operating-system randomness), over the alphabet
/// `nanoid::alphabet::SAFE` and with 21 symbols, which is what `nanoid!()` does.
/// The source pushes one alphabet symbol per random byte (the alphabet has 64
/// symbols, so its power-of-two path masks each byte into range): the contract
/// claims 21 characters, each of `A-Za-z0-9_-`. Which characters come out is
/// random, and nothing more is claimed of them.
#[verifier::external_body]
pub(crate) fn generate_id() -> (id: String)
    ensures
        is_generated_id(id@),
{
    nanoid::format(nanoid::rngs::default, &nanoid::alphabet::SAFE, 21)
}

} // verus!
