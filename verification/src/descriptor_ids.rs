//! The descriptor ids of the gauges, worked out, and that no two are the
//! same: a registry accepts all the gauges.

use crate::gauges::{descriptor_id, fnv_offset, fnv_prefix, fnv_step};
use crate::metrics::{distinct_ids, exposed_names, family_name, gauge_name, NetworkGauge, ValidatorGauge};
use vstd::prelude::*;
use vstd::utf8::{encode_utf8, is_ascii_chars, is_ascii_chars_encode_utf8};

verus! {

/// Eight steps of the hash.
pub open spec fn fnv_steps(
    hash: u64,
    b0: u8,
    b1: u8,
    b2: u8,
    b3: u8,
    b4: u8,
    b5: u8,
    b6: u8,
    b7: u8,
) -> u64 {
    fnv_step(
        fnv_step(
            fnv_step(
                fnv_step(fnv_step(fnv_step(fnv_step(fnv_step(hash, b0), b1), b2), b3), b4),
                b5,
            ),
            b6,
        ),
        b7,
    )
}

/// The descriptor id of `hyperliquid_validator_recent_blocks`.
pub proof fn id_of_recent_blocks()
    ensures
        descriptor_id(family_name(ValidatorGauge::RecentBlocks)) == 0x23ea36e54d1490d6,
{
    let name = "hyperliquid_validator_recent_blocks"@;
    reveal(descriptor_id);
    reveal_strlit("hyperliquid_validator_recent_blocks");
    assert(is_ascii_chars(name));
    is_ascii_chars_encode_utf8(name);
    assert(encode_utf8(name).len() == 35);
    reveal_with_fuel(fnv_prefix, 37);
    assert(fnv_step(fnv_step(fnv_step(fnv_step(fnv_steps(
        fnv_steps(
            fnv_steps(
                fnv_steps(
                    fnv_offset(),
                    0x68, 0x79, 0x70, 0x65, 0x72, 0x6c, 0x69, 0x71,
                ),
                0x75, 0x69, 0x64, 0x5f, 0x76, 0x61, 0x6c, 0x69,
            ),
            0x64, 0x61, 0x74, 0x6f, 0x72, 0x5f, 0x72, 0x65,
        ),
        0x63, 0x65, 0x6e, 0x74, 0x5f, 0x62, 0x6c, 0x6f,
    ), 0x63), 0x6b), 0x73), 0xff) == 0x23ea36e54d1490d6) by (bit_vector);
}

/// The descriptor id of `hyperliquid_validator_is_jailed`.
pub proof fn id_of_is_jailed()
    ensures
        descriptor_id(family_name(ValidatorGauge::IsJailed)) == 0x985b698499d0fed4,
{
    let name = "hyperliquid_validator_is_jailed"@;
    reveal(descriptor_id);
    reveal_strlit("hyperliquid_validator_is_jailed");
    assert(is_ascii_chars(name));
    is_ascii_chars_encode_utf8(name);
    assert(encode_utf8(name).len() == 31);
    reveal_with_fuel(fnv_prefix, 33);
    assert(fnv_steps(
        fnv_steps(
            fnv_steps(
                fnv_steps(
                    fnv_offset(),
                    0x68, 0x79, 0x70, 0x65, 0x72, 0x6c, 0x69, 0x71,
                ),
                0x75, 0x69, 0x64, 0x5f, 0x76, 0x61, 0x6c, 0x69,
            ),
            0x64, 0x61, 0x74, 0x6f, 0x72, 0x5f, 0x69, 0x73,
        ),
        0x5f, 0x6a, 0x61, 0x69, 0x6c, 0x65, 0x64, 0xff,
    ) == 0x985b698499d0fed4) by (bit_vector);
}

/// The descriptor id of `hyperliquid_validator_stake`.
pub proof fn id_of_stake()
    ensures
        descriptor_id(family_name(ValidatorGauge::Stake)) == 0x2eaaf4e07b6d7122,
{
    let name = "hyperliquid_validator_stake"@;
    reveal(descriptor_id);
    reveal_strlit("hyperliquid_validator_stake");
    assert(is_ascii_chars(name));
    is_ascii_chars_encode_utf8(name);
    assert(encode_utf8(name).len() == 27);
    reveal_with_fuel(fnv_prefix, 29);
    assert(fnv_step(fnv_step(fnv_step(fnv_step(fnv_steps(
        fnv_steps(
            fnv_steps(
                fnv_offset(),
                0x68, 0x79, 0x70, 0x65, 0x72, 0x6c, 0x69, 0x71,
            ),
            0x75, 0x69, 0x64, 0x5f, 0x76, 0x61, 0x6c, 0x69,
        ),
        0x64, 0x61, 0x74, 0x6f, 0x72, 0x5f, 0x73, 0x74,
    ), 0x61), 0x6b), 0x65), 0xff) == 0x2eaaf4e07b6d7122) by (bit_vector);
}

/// The descriptor id of `hyperliquid_network_total_active_stake`.
pub proof fn id_of_total_active_stake()
    ensures
        descriptor_id(gauge_name(NetworkGauge::TotalActiveStake)) == 0x9d793645d5c99fc2,
{
    let name = "hyperliquid_network_total_active_stake"@;
    reveal(descriptor_id);
    reveal_strlit("hyperliquid_network_total_active_stake");
    assert(is_ascii_chars(name));
    is_ascii_chars_encode_utf8(name);
    assert(encode_utf8(name).len() == 38);
    reveal_with_fuel(fnv_prefix, 40);
    assert(fnv_step(fnv_step(fnv_step(fnv_step(fnv_step(fnv_step(fnv_step(fnv_steps(
        fnv_steps(
            fnv_steps(
                fnv_steps(
                    fnv_offset(),
                    0x68, 0x79, 0x70, 0x65, 0x72, 0x6c, 0x69, 0x71,
                ),
                0x75, 0x69, 0x64, 0x5f, 0x6e, 0x65, 0x74, 0x77,
            ),
            0x6f, 0x72, 0x6b, 0x5f, 0x74, 0x6f, 0x74, 0x61,
        ),
        0x6c, 0x5f, 0x61, 0x63, 0x74, 0x69, 0x76, 0x65,
    ), 0x5f), 0x73), 0x74), 0x61), 0x6b), 0x65), 0xff) == 0x9d793645d5c99fc2) by (bit_vector);
}

/// The descriptor id of `hyperliquid_network_total_jailed_stake`.
pub proof fn id_of_total_jailed_stake()
    ensures
        descriptor_id(gauge_name(NetworkGauge::TotalJailedStake)) == 0x7e51a3869a22552b,
{
    let name = "hyperliquid_network_total_jailed_stake"@;
    reveal(descriptor_id);
    reveal_strlit("hyperliquid_network_total_jailed_stake");
    assert(is_ascii_chars(name));
    is_ascii_chars_encode_utf8(name);
    assert(encode_utf8(name).len() == 38);
    reveal_with_fuel(fnv_prefix, 40);
    assert(fnv_step(fnv_step(fnv_step(fnv_step(fnv_step(fnv_step(fnv_step(fnv_steps(
        fnv_steps(
            fnv_steps(
                fnv_steps(
                    fnv_offset(),
                    0x68, 0x79, 0x70, 0x65, 0x72, 0x6c, 0x69, 0x71,
                ),
                0x75, 0x69, 0x64, 0x5f, 0x6e, 0x65, 0x74, 0x77,
            ),
            0x6f, 0x72, 0x6b, 0x5f, 0x74, 0x6f, 0x74, 0x61,
        ),
        0x6c, 0x5f, 0x6a, 0x61, 0x69, 0x6c, 0x65, 0x64,
    ), 0x5f), 0x73), 0x74), 0x61), 0x6b), 0x65), 0xff) == 0x7e51a3869a22552b) by (bit_vector);
}

/// The descriptor id of `hyperliquid_network_total_validators`.
pub proof fn id_of_total_validators()
    ensures
        descriptor_id(gauge_name(NetworkGauge::TotalValidators)) == 0xaeed9c1f1eab1c8e,
{
    let name = "hyperliquid_network_total_validators"@;
    reveal(descriptor_id);
    reveal_strlit("hyperliquid_network_total_validators");
    assert(is_ascii_chars(name));
    is_ascii_chars_encode_utf8(name);
    assert(encode_utf8(name).len() == 36);
    reveal_with_fuel(fnv_prefix, 38);
    assert(fnv_step(fnv_step(fnv_step(fnv_step(fnv_step(fnv_steps(
        fnv_steps(
            fnv_steps(
                fnv_steps(
                    fnv_offset(),
                    0x68, 0x79, 0x70, 0x65, 0x72, 0x6c, 0x69, 0x71,
                ),
                0x75, 0x69, 0x64, 0x5f, 0x6e, 0x65, 0x74, 0x77,
            ),
            0x6f, 0x72, 0x6b, 0x5f, 0x74, 0x6f, 0x74, 0x61,
        ),
        0x6c, 0x5f, 0x76, 0x61, 0x6c, 0x69, 0x64, 0x61,
    ), 0x74), 0x6f), 0x72), 0x73), 0xff) == 0xaeed9c1f1eab1c8e) by (bit_vector);
}

/// The descriptor id of `hyperliquid_request_time`.
pub proof fn id_of_request_time()
    ensures
        descriptor_id(gauge_name(NetworkGauge::RequestTime)) == 0x5878dc67e352cde2,
{
    let name = "hyperliquid_request_time"@;
    reveal(descriptor_id);
    reveal_strlit("hyperliquid_request_time");
    assert(is_ascii_chars(name));
    is_ascii_chars_encode_utf8(name);
    assert(encode_utf8(name).len() == 24);
    reveal_with_fuel(fnv_prefix, 26);
    assert(fnv_step(fnv_steps(
        fnv_steps(
            fnv_steps(
                fnv_offset(),
                0x68, 0x79, 0x70, 0x65, 0x72, 0x6c, 0x69, 0x71,
            ),
            0x75, 0x69, 0x64, 0x5f, 0x72, 0x65, 0x71, 0x75,
        ),
        0x65, 0x73, 0x74, 0x5f, 0x74, 0x69, 0x6d, 0x65,
    ), 0xff) == 0x5878dc67e352cde2) by (bit_vector);
}

/// No two gauges have the same descriptor id.
pub proof fn gauge_ids_are_distinct()
    ensures
        distinct_ids(),
{
    id_of_recent_blocks();
    id_of_is_jailed();
    id_of_stake();
    id_of_total_active_stake();
    id_of_total_jailed_stake();
    id_of_total_validators();
    id_of_request_time();
    assert forall|i: int, j: int| 0 <= i < j < exposed_names().len() implies descriptor_id(
        #[trigger] exposed_names()[i],
    ) != descriptor_id(#[trigger] exposed_names()[j]) by {
        assert(i == 0 || i == 1 || i == 2 || i == 3 || i == 4 || i == 5);
        assert(j == 1 || j == 2 || j == 3 || j == 4 || j == 5 || j == 6);
    }
}

} // verus!
