//! Laws of the `Debug` text of bitfields: which bits are reported as unknown.

use vstd::prelude::*;

use crate::bitfield::{listed_names, unlisted_bits};

verus! {

/// Bit `b` of `x` is set.
pub open spec fn bit_set(x: u64, b: u64) -> bool {
    (x >> b) & 1u64 == 1u64
}

/// The constant with bits `mask` is named in the text of `value`: all its bits are set in `value`,
/// and it has bits unless `value` has none.
pub open spec fn named_for(value: u64, mask: u64) -> bool {
    (value & mask) == mask && (mask != 0 || value == 0)
}

/// Clearing the bits of a mask clears exactly those bits.
proof fn lemma_bit_of_and_not(p: u64, m: u64, b: u64)
    requires
        b < 64,
    ensures
        bit_set(p & !m, b) == (bit_set(p, b) && !bit_set(m, b)),
{
    assert((((p & !m) >> b) & 1u64 == 1u64) == (((p >> b) & 1u64 == 1u64) && !((m >> b) & 1u64 == 1u64)))
        by (bit_vector)
        requires
            b < 64,
    ;
}

/// A bit of a bitfield's value is reported as unknown exactly when it is set in the value and
/// no named constant has it: no set bit is lost from the text, and no named bit is repeated.
pub proof fn lemma_unknown_bits_are_uncovered(value: u64, constants: Seq<(&str, u64)>, b: u64)
    requires
        b < 64,
    ensures
        bit_set(unlisted_bits(value, constants), b) <==> (bit_set(value, b) && !(exists|i: int|
            0 <= i < constants.len() && named_for(value, #[trigger] constants[i].1) && bit_set(
                constants[i].1,
                b,
            ))),
    decreases constants.len(),
{
    if constants.len() > 0 {
        let previous = constants.drop_last();
        lemma_unknown_bits_are_uncovered(value, previous, b);
        let (_, mask) = constants.last();
        if named_for(value, mask) {
            lemma_bit_of_and_not(unlisted_bits(value, previous), mask, b);
        }
        assert forall|i: int| 0 <= i < previous.len() implies #[trigger] previous[i] == constants[i] by {}
        if exists|i: int| 0 <= i < constants.len() && named_for(value, #[trigger] constants[i].1) && bit_set(
            constants[i].1,
            b,
        ) {
            let i = choose|i: int|
                0 <= i < constants.len() && named_for(value, #[trigger] constants[i].1) && bit_set(
                    constants[i].1,
                    b,
                );
            if i < previous.len() {
                assert(previous[i] == constants[i]);
            }
        }
        if exists|i: int| 0 <= i < previous.len() && named_for(value, #[trigger] previous[i].1) && bit_set(
            previous[i].1,
            b,
        ) {
            let i = choose|i: int|
                0 <= i < previous.len() && named_for(value, #[trigger] previous[i].1) && bit_set(
                    previous[i].1,
                    b,
                );
            assert(constants[i] == previous[i]);
        }
    }
}

/// The names in the text of a bitfield are those of the constants named for its value, in the
/// order in which the constants are given.
pub proof fn lemma_names_are_named_constants(value: u64, constants: Seq<(&str, u64)>)
    ensures
        listed_names(value, constants) == constants.filter(|c: (&str, u64)| named_for(value, c.1)).map_values(
            |c: (&str, u64)| c.0@,
        ),
    decreases constants.len(),
{
    reveal(Seq::filter);
    if constants.len() > 0 {
        let previous = constants.drop_last();
        lemma_names_are_named_constants(value, previous);
        let pred = |c: (&str, u64)| named_for(value, c.1);
        let name_of = |c: (&str, u64)| c.0@;
        let kept = previous.filter(pred);
        if pred(constants.last()) {
            assert(kept.push(constants.last()).map_values(name_of) =~= kept.map_values(name_of).push(
                constants.last().0@,
            ));
        }
    }
}

} // verus!
