//! Names for players who did not choose one.

use vstd::prelude::*;
use vstd::string::*;
use crate::encoding::decimal_text;
use crate::encoding::push_decimal;
use crate::encoding::lemma_decimal_text_nonempty;

verus! {

/// The name generated from `entropy`: the word `player`, a hyphen and the
/// number in decimal.
pub open spec fn generated_name(entropy: u64) -> Seq<char> {
    "player-"@ + decimal_text(entropy as nat)
}

/// A name for an anonymous player, drawn from `entropy`. It is never empty.
pub fn random_name(entropy: u64) -> (name: String)
    ensures
        name@ == generated_name(entropy),
        name@.len() > 0,
{
    let mut name = String::from_str("player-");
    push_decimal(&mut name, entropy);
    proof {
        lemma_decimal_text_nonempty(entropy as nat);
    }
    name
}

} // verus!
