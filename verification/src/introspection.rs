//! Instruction introspection over the Instructions sysvar.
//!
//! The sysvar's account data lays out every instruction of the transaction:
//!
//! ```text
//! Header
//!   [0..2]                    num_instructions (u16 LE)
//!   [2..2 + 2*N]              instruction offset table ([u16 LE; N])
//!   [len-2..len]              current_index (u16 LE)
//! Each instruction (at its offset)
//!   [0..2]                    num_accounts (u16 LE)
//!   [2..2 + 33*A]             accounts: A * { meta:u8 (bit0=signer,bit1=writable), pubkey:[u8;32] }
//!   [.. + 32]                 program_id ([u8;32])
//!   [.. + 2]                  data_len (u16 LE)
//!   [.. + data_len]           data
//! ```

use vstd::prelude::*;

use crate::bytes::{copy32, matches_at};
use crate::error::{dice, DiceError, ProgramError};

verus! {

/// The Instructions sysvar address (`Sysvar1nstructions1111111111111111111111111`).
pub const INSTRUCTIONS_SYSVAR_ID: [u8; 32] = [
    6, 167, 213, 23, 24, 123, 209, 102, 53, 218, 212, 4, 85, 253, 194, 192, 193, 36, 198, 143, 33,
    86, 117, 165, 219, 186, 203, 95, 8, 0, 0, 0,
];

/// The little-endian `u16` stored at `at`.
pub open spec fn le16(d: Seq<u8>, at: int) -> int {
    d[at] + 256 * d[at + 1]
}

/// `n` bytes starting at `at` lie inside `d`.
pub open spec fn fits(d: Seq<u8>, at: int, n: int) -> bool {
    0 <= at && 0 <= n && at + n <= d.len()
}

/// Index of the instruction being executed (the trailer of the sysvar).
pub open spec fn current_index(d: Seq<u8>) -> int {
    le16(d, d.len() - 2)
}

/// Index of the instruction just before the current one.
pub open spec fn target_index(d: Seq<u8>) -> int {
    current_index(d) - 1
}

/// Where the target instruction's entry starts, per the offset table.
pub open spec fn entry_offset(d: Seq<u8>) -> int {
    le16(d, 2 + 2 * target_index(d))
}

/// How many accounts the target instruction names.
pub open spec fn account_count(d: Seq<u8>) -> int {
    le16(d, entry_offset(d))
}

/// Where the target instruction's `i`-th account (meta byte, then key) starts.
pub open spec fn account_at(d: Seq<u8>, i: int) -> int {
    entry_offset(d) + 2 + 33 * i
}

/// Where the target instruction's program id starts.
pub open spec fn program_id_at(d: Seq<u8>) -> int {
    account_at(d, account_count(d))
}

/// Length of the target instruction's data.
pub open spec fn data_len(d: Seq<u8>) -> int {
    le16(d, program_id_at(d) + 32)
}

/// Where the target instruction's data starts.
pub open spec fn data_at(d: Seq<u8>) -> int {
    program_id_at(d) + 34
}

/// The sysvar holds a previous instruction, and all of its entry lies inside
/// the data.
pub open spec fn well_laid_out(d: Seq<u8>) -> bool {
    &&& d.len() >= 2
    &&& current_index(d) != 0
    &&& target_index(d) < le16(d, 0)
    &&& fits(d, 2 + 2 * target_index(d), 2)
    &&& fits(d, entry_offset(d), 2)
    &&& fits(d, program_id_at(d), 34)
    &&& fits(d, data_at(d), data_len(d))
}

/// The target instruction's `i`-th account is `key`, marked as a signer.
pub open spec fn signs(d: Seq<u8>, i: int, key: Seq<u8>) -> bool {
    &&& d[account_at(d, i)] % 2 == 1
    &&& d.subrange(account_at(d, i) + 1, account_at(d, i) + 33) == key
}

/// `key` signed the target instruction.
pub open spec fn signed_by(d: Seq<u8>, key: Seq<u8>) -> bool {
    exists|i: int| 0 <= i < account_count(d) && #[trigger] signs(d, i, key)
}

/// What the introspection of the instruction before the current one yields:
/// the 32-byte preimage carried by a `reveal` of `program_id` signed by `house`.
pub open spec fn spec_prev_reveal_preimage(
    d: Seq<u8>,
    program_id: Seq<u8>,
    house: Seq<u8>,
    reveal_discriminator: u8,
) -> Result<Seq<u8>, ProgramError> {
    if !well_laid_out(d) {
        Err(ProgramError::InvalidInstructionData)
    } else if d.subrange(program_id_at(d), program_id_at(d) + 32) != program_id {
        Err(dice(DiceError::NotReveal))
    } else if !signed_by(d, house) {
        Err(dice(DiceError::BadSignature))
    } else if data_len(d) == 0 || d[data_at(d)] != reveal_discriminator {
        Err(dice(DiceError::NotReveal))
    } else if data_len(d) < 33 {
        Err(ProgramError::InvalidInstructionData)
    } else {
        Ok(d.subrange(data_at(d) + 1, data_at(d) + 33))
    }
}

/// Byte `i` of `d` is one that introspection reads: the instruction count, the
/// trailer holding the current index, the target's offset-table entry, or the
/// target instruction's entry from its account count through its data.
pub open spec fn read_by_introspection(d: Seq<u8>, i: int) -> bool {
    ||| i < 2
    ||| i >= d.len() - 2
    ||| 2 + 2 * target_index(d) <= i < 4 + 2 * target_index(d)
    ||| entry_offset(d) <= i < data_at(d) + data_len(d)
}

/// No other instruction of the transaction affects introspection: two sysvar
/// images of the same length that agree on the count, the trailer, the
/// target's offset entry and the target's entry give the same result.
pub proof fn lemma_introspection_reads_only_the_target(
    d1: Seq<u8>,
    d2: Seq<u8>,
    program_id: Seq<u8>,
    house: Seq<u8>,
    reveal_discriminator: u8,
)
    requires
        d1.len() == d2.len(),
        forall|i: int|
            0 <= i < d1.len() && #[trigger] read_by_introspection(d1, i) ==> d1[i] == d2[i],
    ensures
        spec_prev_reveal_preimage(d1, program_id, house, reveal_discriminator)
            == spec_prev_reveal_preimage(d2, program_id, house, reveal_discriminator),
{
    let n = d1.len() as int;
    if n < 2 {
        return;
    }
    assert(read_by_introspection(d1, n - 2) && read_by_introspection(d1, n - 1));
    assert(current_index(d1) == current_index(d2));
    if current_index(d1) == 0 {
        return;
    }
    let t = target_index(d1);
    assert(read_by_introspection(d1, 0) && read_by_introspection(d1, 1));
    assert(le16(d1, 0) == le16(d2, 0));
    if !(t < le16(d1, 0)) || !fits(d1, 2 + 2 * t, 2) {
        assert(!well_laid_out(d1) && !well_laid_out(d2));
        return;
    }
    assert(read_by_introspection(d1, 2 + 2 * t) && read_by_introspection(d1, 3 + 2 * t));
    assert(entry_offset(d1) == entry_offset(d2));
    let off = entry_offset(d1);
    if !fits(d1, off, 2) {
        assert(!well_laid_out(d1) && !well_laid_out(d2));
        return;
    }
    assert(data_at(d1) + data_len(d1) >= off + 36);
    assert(read_by_introspection(d1, off) && read_by_introspection(d1, off + 1));
    assert(account_count(d1) == account_count(d2));
    let prog = program_id_at(d1);
    assert(prog == program_id_at(d2));
    if !fits(d1, prog, 34) {
        assert(!well_laid_out(d1) && !well_laid_out(d2));
        return;
    }
    assert(read_by_introspection(d1, prog + 32) && read_by_introspection(d1, prog + 33));
    assert(data_len(d1) == data_len(d2));
    assert(data_at(d1) == data_at(d2));
    assert(well_laid_out(d1) == well_laid_out(d2));
    if !well_laid_out(d1) {
        return;
    }
    let da = data_at(d1);
    let dl = data_len(d1);
    assert forall|i: int| off <= i < da + dl implies d1[i] == d2[i] by {
        assert(read_by_introspection(d1, i));
    }
    assert(d1.subrange(prog, prog + 32) =~= d2.subrange(prog, prog + 32));
    assert forall|i: int| 0 <= i < account_count(d1) implies #[trigger] signs(d1, i, house)
        == signs(d2, i, house) by {
        let a = account_at(d1, i);
        assert(a == account_at(d2, i));
        assert(d1[a] == d2[a]);
        assert(d1.subrange(a + 1, a + 33) =~= d2.subrange(a + 1, a + 33));
    }
    if signed_by(d1, house) {
        let i = choose|i: int| 0 <= i < account_count(d1) && #[trigger] signs(d1, i, house);
        assert(signs(d2, i, house));
    }
    if signed_by(d2, house) {
        let i = choose|i: int| 0 <= i < account_count(d2) && #[trigger] signs(d2, i, house);
        assert(signs(d1, i, house));
    }
    if dl > 0 {
        assert(d1[da] == d2[da]);
    }
    if dl >= 33 {
        assert(d1.subrange(da + 1, da + 33) =~= d2.subrange(da + 1, da + 33));
    }
}

/// An executable 32-byte result stands for the spec one.
pub open spec fn same_bytes_result(
    r: Result<[u8; 32], ProgramError>,
    s: Result<Seq<u8>, ProgramError>,
) -> bool {
    match (r, s) {
        (Ok(a), Ok(b)) => a@ == b,
        (Err(e), Err(f)) => e == f,
        _ => false,
    }
}

/// The little-endian `u16` at `at`, or `InvalidInstructionData` when the two
/// bytes are not all inside `data`.
pub fn read_u16(data: &[u8], at: usize) -> (r: Result<u16, ProgramError>)
    requires
        at + 2 <= usize::MAX,
    ensures
        match r {
            Ok(v) => fits(data@, at as int, 2) && v == le16(data@, at as int),
            Err(e) => !fits(data@, at as int, 2) && e == ProgramError::InvalidInstructionData,
        },
{
    if at + 2 > data.len() {
        return Err(ProgramError::InvalidInstructionData);
    }
    let lo = data[at] as u16;
    let hi = data[at + 1] as u16;
    Ok(lo + 256 * hi)
}

/// Take the instruction immediately preceding the current one, verify it is a
/// `reveal` of `program_id` signed by `house`, and return the 32-byte preimage
/// it carries.
///
/// The program id and the `reveal` discriminator are pinned alongside the house
/// signature, so a same-transaction instruction that merely happens to carry
/// the house as a signer cannot be mistaken for a reveal.
pub fn prev_reveal_preimage(
    sysvar_data: &[u8],
    program_id: &[u8; 32],
    house: &[u8; 32],
    reveal_discriminator: u8,
) -> (r: Result<[u8; 32], ProgramError>)
    ensures
        same_bytes_result(
            r,
            spec_prev_reveal_preimage(sysvar_data@, program_id@, house@, reveal_discriminator),
        ),
{
    let ghost d = sysvar_data@;
    let len = sysvar_data.len();
    if len < 2 {
        return Err(ProgramError::InvalidInstructionData);
    }
    let current = sysvar_data[len - 2] as u16 + 256 * (sysvar_data[len - 1] as u16);
    if current == 0 {
        // No preceding instruction to introspect.
        return Err(ProgramError::InvalidInstructionData);
    }
    let target = (current - 1) as usize;

    let num_instructions = read_u16(sysvar_data, 0)? as usize;
    if target >= num_instructions {
        return Err(ProgramError::InvalidInstructionData);
    }

    // Walk to the target instruction via its offset-table entry.
    let offset = read_u16(sysvar_data, 2 + target * 2)? as usize;
    let mut cur = offset;
    let num_accounts = read_u16(sysvar_data, cur)? as usize;
    cur += 2;

    let mut house_is_signer = false;
    let mut i: usize = 0;
    while i < num_accounts
        invariant
            d == sysvar_data@,
            len == d.len(),
            well_laid_out(d) ==> fits(d, entry_offset(d), 2),
            offset == entry_offset(d),
            num_accounts == account_count(d),
            i <= num_accounts,
            num_accounts <= 0xffff,
            offset <= 0xffff,
            cur == account_at(d, i as int),
            cur <= len,
            house_is_signer == exists|j: int| 0 <= j < i && #[trigger] signs(d, j, house@),
        decreases num_accounts - i,
    {
        if cur + 33 > len {
            return Err(ProgramError::InvalidInstructionData);
        }
        let meta = sysvar_data[cur];
        let is_signer = meta & 1 != 0;
        assert(is_signer == (meta % 2 == 1)) by (bit_vector)
            requires
                is_signer == (meta & 1 != 0),
        ;
        let matches = matches_at(sysvar_data, cur + 1, house);
        let ghost before = house_is_signer;
        if is_signer && matches {
            house_is_signer = true;
        }
        proof {
            assert(signs(d, i as int, house@) == (is_signer && matches));
            if house_is_signer && !before {
                assert(signs(d, i as int, house@));
            }
            if !house_is_signer {
                assert forall|j: int| 0 <= j < i + 1 implies !signs(d, j, house@) by {
                    if j < i {
                        assert(!(0 <= j < i && signs(d, j, house@)));
                    }
                }
            }
        }
        cur += 33;
        i += 1;
    }

    if cur + 32 > len {
        return Err(ProgramError::InvalidInstructionData);
    }
    let prog = cur;
    cur += 32;
    let data_len = read_u16(sysvar_data, cur)? as usize;
    cur += 2;
    if cur + data_len > len {
        return Err(ProgramError::InvalidInstructionData);
    }
    let ix_data = cur;

    if !matches_at(sysvar_data, prog, program_id) {
        return Err(DiceError::NotReveal.into());
    }
    if !house_is_signer {
        return Err(DiceError::BadSignature.into());
    }
    // [discriminator: u8][preimage: [u8; 32]]
    if data_len == 0 || sysvar_data[ix_data] != reveal_discriminator {
        return Err(DiceError::NotReveal.into());
    }
    if data_len < 33 {
        return Err(ProgramError::InvalidInstructionData);
    }
    Ok(copy32(sysvar_data, ix_data + 1))
}

} // verus!
