//! `Debug` text of engine bitfields: the names of the constants whose bits are all set, and the
//! bits that no listed constant covers.

use vstd::prelude::*;

use crate::text::{hex_upper, push_hex_upper};

verus! {

/// The constant with bits `mask` is listed for the bitfield `value`: all its bits are set in
/// `value`, and a constant without bits is listed only when `value` has none either.
pub open spec fn mask_listed(value: u64, mask: u64) -> bool {
    !(mask == 0 && value != 0) && (value & mask) == mask
}

/// The names of the constants listed for `value`, in the order of `constants`.
pub open spec fn listed_names(value: u64, constants: Seq<(&str, u64)>) -> Seq<Seq<char>>
    decreases constants.len(),
{
    if constants.len() == 0 {
        seq![]
    } else {
        let previous = listed_names(value, constants.drop_last());
        let (name, mask) = constants.last();
        if mask_listed(value, mask) {
            previous.push(name@)
        } else {
            previous
        }
    }
}

/// The bits of `value` that no constant listed for it covers.
pub open spec fn unlisted_bits(value: u64, constants: Seq<(&str, u64)>) -> u64
    decreases constants.len(),
{
    if constants.len() == 0 {
        value
    } else {
        let previous = unlisted_bits(value, constants.drop_last());
        let (_, mask) = constants.last();
        if mask_listed(value, mask) {
            previous & !mask
        } else {
            previous
        }
    }
}

/// `names` separated by `" | "`.
pub open spec fn join_with_bars(names: Seq<Seq<char>>) -> Seq<char>
    decreases names.len(),
{
    if names.len() == 0 {
        seq![]
    } else if names.len() == 1 {
        names[0]
    } else {
        join_with_bars(names.drop_last()) + seq![' ', '|', ' '] + names.last()
    }
}

/// The text between the braces: the listed names, then `Unknown(0x..)` with the uncovered bits
/// in upper-case hexadecimal, if any.
pub open spec fn bitfield_body(value: u64, constants: Seq<(&str, u64)>) -> Seq<char> {
    let names = listed_names(value, constants);
    let rest = unlisted_bits(value, constants);
    if rest != 0 {
        let separator = if names.len() == 0 { Seq::<char>::empty() } else { seq![' ', '|', ' '] };
        join_with_bars(names) + separator + seq!['U', 'n', 'k', 'n', 'o', 'w', 'n', '(', '0', 'x']
            + hex_upper(rest as nat) + seq![')']
    } else {
        join_with_bars(names)
    }
}

/// The `Debug` text of a bitfield: `Name { A | B | Unknown(0x..) }`.
pub open spec fn bitfield_text(bitfield_name: Seq<char>, value: u64, constants: Seq<(&str, u64)>) -> Seq<char> {
    bitfield_name + seq![' ', '{', ' '] + bitfield_body(value, constants) + seq![' ', '}']
}

/// Appending a name to a list separates it from the previous ones by a bar.
proof fn lemma_join_push(names: Seq<Seq<char>>, name: Seq<char>)
    ensures
        join_with_bars(names.push(name)) == (if names.len() == 0 {
            name
        } else {
            join_with_bars(names) + seq![' ', '|', ' '] + name
        }),
{
    assert(names.push(name).drop_last() =~= names);
}

/// Formats the bitfield `value` of type `bitfield_name`, whose constants are the pairs of name and
/// bits in `constants`, as `Name { A | B }`: every constant whose bits are all set in `value` is
/// named (a constant without bits only when `value` is zero), and bits that no named constant
/// covers follow as `Unknown(0x..)`.
pub fn bitfield_debug_string(bitfield_name: &str, value: u64, constants: &[(&str, u64)]) -> (r: String)
    ensures
        r@ == bitfield_text(bitfield_name@, value, constants@),
{
    proof {
        reveal_strlit(" | ");
        reveal_strlit("Unknown(0x");
        reveal_strlit(")");
        reveal_strlit(" { ");
        reveal_strlit(" }");
    }
    let value_bits = value;
    let mut remaining_bits = value_bits;
    let mut string = String::new();
    let mut first = true;

    let mut i: usize = 0;
    proof {
        assert(constants@.take(0) =~= Seq::<(&str, u64)>::empty());
    }
    while i < constants.len()
        invariant
            i <= constants@.len(),
            string@ == join_with_bars(listed_names(value, constants@.take(i as int))),
            first == (listed_names(value, constants@.take(i as int)).len() == 0),
            remaining_bits == unlisted_bits(value, constants@.take(i as int)),
            value_bits == value,
        decreases constants@.len() - i,
    {
        let (name, mask) = constants[i];
        proof {
            assert(constants@.take(i as int + 1).drop_last() =~= constants@.take(i as int));
            assert(constants@.take(i as int + 1).last() == constants@[i as int]);
            lemma_join_push(listed_names(value, constants@.take(i as int)), name@);
            let previous = listed_names(value, constants@.take(i as int));
            assert(listed_names(value, constants@.take(i as int + 1)) == (if mask_listed(value, mask) {
                previous.push(name@)
            } else {
                previous
            }));
        }
        if mask == 0 && value_bits != 0 {
            i += 1;
            continue;
        }
        if value_bits & mask == mask {
            remaining_bits &= !mask;

            let ghost before = string@;
            if first {
                first = false;
            } else {
                string.append(" | ");
            }
            string.append(name);
            proof {
                reveal_strlit(" | ");
                let previous = listed_names(value, constants@.take(i as int));
                if previous.len() == 0 {
                    assert(before =~= Seq::<char>::empty());
                    assert(string@ =~= name@);
                } else {
                    assert(string@ =~= before + seq![' ', '|', ' '] + name@);
                }
            }
        }
        i += 1;
    }
    proof {
        assert(constants@.take(constants@.len() as int) =~= constants@);
    }

    if remaining_bits != 0 {
        if !first {
            string.append(" | ");
        }
        string.append("Unknown(0x");
        push_hex_upper(&mut string, remaining_bits);
        string.append(")");
    }

    let mut text = String::new();
    text.append(bitfield_name);
    text.append(" { ");
    text.append(string.as_str());
    text.append(" }");
    proof {
        assert(text@ =~= bitfield_text(bitfield_name@, value, constants@));
    }
    text
}

} // verus!
