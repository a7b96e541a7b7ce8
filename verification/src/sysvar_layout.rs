//! The Instructions sysvar as the runtime writes it, and what the introspection
//! reads back from it.
//!
//! `instructions_sysvar_data` is the documented layout of the sysvar for a
//! transaction: the instruction count, the offset table, every instruction's
//! entry, and the index of the executing instruction. The law at the end states
//! that `prev_reveal_preimage` recovers, from such data, exactly what the
//! instruction before the executing one carries.

use vstd::prelude::*;

use vstd::arithmetic::div_mod::{lemma_fundamental_div_mod, lemma_fundamental_div_mod_converse};

use crate::error::{dice, DiceError, ProgramError};
use crate::{ID, REVEAL_DISCRIMINATOR};
use crate::introspection::{
    account_at, account_count, data_at, data_len, entry_offset, fits, le16, program_id_at, signed_by,
    signs, spec_prev_reveal_preimage, well_laid_out,
};

verus! {

/// An account of an instruction, as the sysvar records it.
#[derive(Clone, Copy, Debug)]
pub struct SysvarAccountMeta {
    pub pubkey: [u8; 32],
    pub is_signer: bool,
    pub is_writable: bool,
}

/// An instruction of the transaction, as the sysvar records it.
#[derive(Debug)]
pub struct SysvarInstruction {
    pub accounts: Vec<SysvarAccountMeta>,
    pub program_id: [u8; 32],
    pub data: Vec<u8>,
}

/// `n` as two little-endian bytes.
pub open spec fn u16_le_bytes(n: int) -> Seq<u8> {
    seq![(n % 256) as u8, (n / 256 % 256) as u8]
}

/// The meta byte of an account: bit 0 for a signer, bit 1 for a writable one.
pub open spec fn meta_byte(a: SysvarAccountMeta) -> u8 {
    ((if a.is_signer { 1int } else { 0 }) + (if a.is_writable { 2int } else { 0 })) as u8
}

/// The accounts of an instruction: for each, its meta byte then its key.
pub open spec fn encode_accounts(accounts: Seq<SysvarAccountMeta>) -> Seq<u8> {
    Seq::new(
        (33 * accounts.len()) as nat,
        |j: int|
            if j % 33 == 0 {
                meta_byte(accounts[j / 33])
            } else {
                accounts[j / 33].pubkey@[j % 33 - 1]
            },
    )
}

/// The entry of one instruction: account count, accounts, program id, data
/// length, data.
pub open spec fn encode_instruction(ix: SysvarInstruction) -> Seq<u8> {
    u16_le_bytes(ix.accounts@.len() as int) + encode_accounts(ix.accounts@) + ix.program_id@
        + u16_le_bytes(ix.data@.len() as int) + ix.data@
}

/// The entries of all instructions, one after the other.
pub open spec fn encode_entries(ixs: Seq<SysvarInstruction>) -> Seq<u8>
    decreases ixs.len(),
{
    if ixs.len() == 0 {
        seq![]
    } else {
        encode_entries(ixs.drop_last()) + encode_instruction(ixs.last())
    }
}

/// Where the entry of instruction `k` starts: after the count, the offset
/// table and the entries before it.
pub open spec fn entry_start(ixs: Seq<SysvarInstruction>, k: int) -> int {
    2 + 2 * (ixs.len() as int) + encode_entries(ixs.take(k)).len()
}

/// The offset table: the start of every entry, as a little-endian `u16`.
pub open spec fn offset_table(ixs: Seq<SysvarInstruction>) -> Seq<u8> {
    Seq::new((2 * ixs.len()) as nat, |j: int| u16_le_bytes(entry_start(ixs, j / 2))[j % 2])
}

/// The data of the Instructions sysvar while instruction `current` of `ixs`
/// executes.
pub open spec fn instructions_sysvar_data(ixs: Seq<SysvarInstruction>, current: int) -> Seq<u8> {
    u16_le_bytes(ixs.len() as int) + offset_table(ixs) + encode_entries(ixs) + u16_le_bytes(
        current,
    )
}

/// Every count, length and offset of the layout fits in its `u16`.
pub open spec fn encodable(ixs: Seq<SysvarInstruction>, current: int) -> bool {
    &&& 0 <= current < 0x1_0000
    &&& 2 + 2 * ixs.len() + encode_entries(ixs).len() < 0x1_0000
    &&& forall|k: int|
        0 <= k < ixs.len() ==> #[trigger] ixs[k].accounts@.len() < 0x1_0000
            && ixs[k].data@.len() < 0x1_0000
}

/// `key` is a signer among the accounts of `ix`.
pub open spec fn signed_in(ix: SysvarInstruction, key: Seq<u8>) -> bool {
    exists|i: int|
        0 <= i < ix.accounts@.len() && (#[trigger] ix.accounts@[i]).is_signer
            && ix.accounts@[i].pubkey@ == key
}

/// What introspection makes of instruction `ix`: a `reveal` of `program_id`
/// signed by `house`, whose data starts with the discriminator and carries a
/// 32-byte preimage after it.
pub open spec fn introspect_instruction(
    ix: SysvarInstruction,
    program_id: Seq<u8>,
    house: Seq<u8>,
    reveal_discriminator: u8,
) -> Result<Seq<u8>, ProgramError> {
    if ix.program_id@ != program_id {
        Err(dice(DiceError::NotReveal))
    } else if !signed_in(ix, house) {
        Err(dice(DiceError::BadSignature))
    } else if ix.data@.len() == 0 || ix.data@[0] != reveal_discriminator {
        Err(dice(DiceError::NotReveal))
    } else if ix.data@.len() < 33 {
        Err(ProgramError::InvalidInstructionData)
    } else {
        Ok(ix.data@.subrange(1, 33))
    }
}

proof fn lemma_u16_le_bytes(n: int)
    requires
        0 <= n < 0x1_0000,
    ensures
        u16_le_bytes(n).len() == 2,
        u16_le_bytes(n)[0] + 256 * u16_le_bytes(n)[1] == n,
{
    lemma_fundamental_div_mod(n, 256);
    assert(n / 256 < 256);
    assert(n / 256 % 256 == n / 256);
}

proof fn lemma_entries_prefix(ixs: Seq<SysvarInstruction>, k: int)
    requires
        0 <= k <= ixs.len(),
    ensures
        encode_entries(ixs.take(k)).len() <= encode_entries(ixs).len(),
        encode_entries(ixs).subrange(0, encode_entries(ixs.take(k)).len() as int)
            == encode_entries(ixs.take(k)),
    decreases ixs.len(),
{
    if k == ixs.len() {
        assert(ixs.take(k) =~= ixs);
        assert(encode_entries(ixs).subrange(0, encode_entries(ixs).len() as int)
            =~= encode_entries(ixs));
    } else {
        let init = ixs.drop_last();
        assert(init.take(k) =~= ixs.take(k));
        lemma_entries_prefix(init, k);
        let p = encode_entries(ixs.take(k));
        assert(encode_entries(ixs).subrange(0, p.len() as int) =~= encode_entries(init).subrange(
            0,
            p.len() as int,
        ));
    }
}

proof fn lemma_entries_step(ixs: Seq<SysvarInstruction>, t: int)
    requires
        0 <= t < ixs.len(),
    ensures
        encode_entries(ixs.take(t + 1)) == encode_entries(ixs.take(t)) + encode_instruction(ixs[t]),
{
    assert(ixs.take(t + 1).drop_last() =~= ixs.take(t));
    assert(ixs.take(t + 1).last() == ixs[t]);
}

/// The entry of instruction `t` lies in the sysvar data at `entry_start`.
proof fn lemma_entry_in_data(ixs: Seq<SysvarInstruction>, current: int, t: int)
    requires
        0 <= t < ixs.len(),
        0 <= current < 0x1_0000,
    ensures
        ({
            let d = instructions_sysvar_data(ixs, current);
            let s = entry_start(ixs, t);
            let e = encode_instruction(ixs[t]);
            &&& s + e.len() + 2 <= d.len()
            &&& forall|j: int| 0 <= j < e.len() ==> d[s + j] == e[j]
        }),
{
    let d = instructions_sysvar_data(ixs, current);
    let s = entry_start(ixs, t);
    let e = encode_instruction(ixs[t]);
    let all = encode_entries(ixs);
    let before = encode_entries(ixs.take(t));
    lemma_entries_prefix(ixs, t + 1);
    lemma_entries_step(ixs, t);
    let head = u16_le_bytes(ixs.len() as int) + offset_table(ixs);
    assert(head.len() == 2 + 2 * ixs.len());
    assert forall|j: int| 0 <= j < e.len() implies d[s + j] == e[j] by {
        assert(all[before.len() + j] == encode_entries(ixs.take(t + 1))[before.len() + j]);
        assert((head + all)[s + j] == all[before.len() + j]);
    }
}

proof fn lemma_div_mod_33(i: int, r: int)
    requires
        0 <= i,
        0 <= r < 33,
    ensures
        (33 * i + r) / 33 == i,
        (33 * i + r) % 33 == r,
{
    lemma_fundamental_div_mod_converse(33 * i + r, 33, i, r);
}

/// The parse of an entry `ix` written at `s`, once the header has led there.
proof fn lemma_entry_parse(
    d: Seq<u8>,
    s: int,
    ix: SysvarInstruction,
    program_id: Seq<u8>,
    house: Seq<u8>,
    reveal_discriminator: u8,
)
    requires
        0 <= s,
        s + encode_instruction(ix).len() <= d.len(),
        forall|j: int|
            0 <= j < encode_instruction(ix).len() ==> d[s + j] == encode_instruction(ix)[j],
        ix.accounts@.len() < 0x1_0000,
        ix.data@.len() < 0x1_0000,
        d.len() >= 2,
        le16(d, d.len() - 2) != 0,
        le16(d, d.len() - 2) - 1 < le16(d, 0),
        fits(d, 2 + 2 * (le16(d, d.len() - 2) - 1), 2),
        entry_offset(d) == s,
    ensures
        spec_prev_reveal_preimage(d, program_id, house, reveal_discriminator)
            == introspect_instruction(ix, program_id, house, reveal_discriminator),
{
    let na = ix.accounts@.len() as int;
    let dl = ix.data@.len() as int;
    let acc = encode_accounts(ix.accounts@);
    let p1 = u16_le_bytes(na);
    let p2 = p1 + acc;
    let p3 = p2 + ix.program_id@;
    let p4 = p3 + u16_le_bytes(dl);
    let e = encode_instruction(ix);
    assert(e == p4 + ix.data@);
    lemma_u16_le_bytes(na);
    lemma_u16_le_bytes(dl);
    assert(acc.len() == 33 * na);
    assert(e.len() == 2 + 33 * na + 34 + dl);

    // The account count.
    assert(d[s] == e[0] && e[0] == p1[0]);
    assert(d[s + 1] == e[1] && e[1] == p1[1]);
    assert(account_count(d) == na);
    let prog = s + 2 + 33 * na;
    assert(program_id_at(d) == prog);

    // The data length.
    assert(d[prog + 32] == e[2 + 33 * na + 32]);
    assert(e[2 + 33 * na + 32] == p4[2 + 33 * na + 32]);
    assert(d[prog + 33] == e[2 + 33 * na + 33]);
    assert(e[2 + 33 * na + 33] == p4[2 + 33 * na + 33]);
    assert(data_len(d) == dl);
    assert(data_at(d) == prog + 34);
    assert(well_laid_out(d));

    // The program id.
    assert forall|j: int| 0 <= j < 32 implies d[prog + j] == ix.program_id@[j] by {
        assert(d[prog + j] == e[2 + 33 * na + j]);
        assert(e[2 + 33 * na + j] == p4[2 + 33 * na + j]);
        assert(p4[2 + 33 * na + j] == p3[2 + 33 * na + j]);
    }
    assert((d.subrange(prog, prog + 32) == program_id) == (ix.program_id@ == program_id)) by {
        assert(d.subrange(prog, prog + 32) =~= ix.program_id@);
    }

    // The signers.
    assert forall|i: int| 0 <= i < na implies #[trigger] signs(d, i, house) == (
    ix.accounts@[i].is_signer && ix.accounts@[i].pubkey@ == house) by {
        let a = account_at(d, i);
        assert(a == s + 2 + 33 * i);
        lemma_div_mod_33(i, 0);
        assert(d[a] == e[2 + 33 * i]);
        assert(e[2 + 33 * i] == p4[2 + 33 * i]);
        assert(p4[2 + 33 * i] == p3[2 + 33 * i]);
        assert(p3[2 + 33 * i] == p2[2 + 33 * i]);
        assert(p2[2 + 33 * i] == acc[33 * i]);
        assert(d[a] == meta_byte(ix.accounts@[i]));
        assert((meta_byte(ix.accounts@[i]) % 2 == 1) == ix.accounts@[i].is_signer);
        assert forall|j: int| 0 <= j < 32 implies d[a + 1 + j] == ix.accounts@[i].pubkey@[j] by {
            lemma_div_mod_33(i, j + 1);
            assert(d[a + 1 + j] == e[2 + 33 * i + 1 + j]);
            assert(e[2 + 33 * i + 1 + j] == p4[2 + 33 * i + 1 + j]);
            assert(p4[2 + 33 * i + 1 + j] == p3[2 + 33 * i + 1 + j]);
            assert(p3[2 + 33 * i + 1 + j] == p2[2 + 33 * i + 1 + j]);
            assert(p2[2 + 33 * i + 1 + j] == acc[33 * i + 1 + j]);
        }
        assert(d.subrange(a + 1, a + 33) =~= ix.accounts@[i].pubkey@);
    }
    if signed_by(d, house) {
        let i = choose|i: int| 0 <= i < account_count(d) && #[trigger] signs(d, i, house);
        assert(ix.accounts@[i].is_signer);
    }
    if signed_in(ix, house) {
        let i = choose|i: int|
            0 <= i < ix.accounts@.len() && (#[trigger] ix.accounts@[i]).is_signer
                && ix.accounts@[i].pubkey@ == house;
        assert(signs(d, i, house));
    }
    assert(signed_by(d, house) == signed_in(ix, house));

    // The instruction data.
    let da = prog + 34;
    assert forall|j: int| 0 <= j < dl implies d[da + j] == ix.data@[j] by {
        assert(d[da + j] == e[2 + 33 * na + 34 + j]);
    }
    if dl >= 33 {
        assert(d.subrange(da + 1, da + 33) =~= ix.data@.subrange(1, 33));
    }
}

/// Introspection reads back the instruction before the executing one: from
/// the sysvar data of any transaction whose counts, lengths and offsets fit the
/// layout, `prev_reveal_preimage` yields exactly what `introspect_instruction`
/// makes of instruction `current - 1`, and when the executing instruction is
/// the first one there is nothing to read.
pub proof fn lemma_introspection_reads_previous_instruction(
    ixs: Seq<SysvarInstruction>,
    current: int,
    program_id: Seq<u8>,
    house: Seq<u8>,
    reveal_discriminator: u8,
)
    requires
        encodable(ixs, current),
        current <= ixs.len(),
    ensures
        current == 0 ==> spec_prev_reveal_preimage(
            instructions_sysvar_data(ixs, current),
            program_id,
            house,
            reveal_discriminator,
        ) == Err::<Seq<u8>, ProgramError>(ProgramError::InvalidInstructionData),
        current >= 1 ==> spec_prev_reveal_preimage(
            instructions_sysvar_data(ixs, current),
            program_id,
            house,
            reveal_discriminator,
        ) == introspect_instruction(ixs[current - 1], program_id, house, reveal_discriminator),
{
    let d = instructions_sysvar_data(ixs, current);
    let n = ixs.len() as int;
    let all = encode_entries(ixs);
    let table = offset_table(ixs);
    let head = u16_le_bytes(n) + table;
    let body = head + all;
    lemma_u16_le_bytes(current);
    lemma_u16_le_bytes(n);
    assert(d == body + u16_le_bytes(current));
    assert(d.len() == 2 + 2 * n + all.len() + 2);
    assert(d[d.len() - 2] == u16_le_bytes(current)[0]);
    assert(d[d.len() - 1] == u16_le_bytes(current)[1]);
    assert(le16(d, d.len() - 2) == current);
    if current >= 1 {
        let t = current - 1;
        assert(d[0] == head[0] && head[0] == u16_le_bytes(n)[0]);
        assert(d[1] == head[1] && head[1] == u16_le_bytes(n)[1]);
        assert(le16(d, 0) == n);
        let s = entry_start(ixs, t);
        lemma_entries_prefix(ixs, t);
        lemma_u16_le_bytes(s);
        assert(d[2 + 2 * t] == table[2 * t]);
        assert(d[2 + 2 * t + 1] == table[2 * t + 1]);
        assert(table[2 * t] == u16_le_bytes(s)[0]);
        assert((2 * t + 1) / 2 == t && (2 * t + 1) % 2 == 1);
        assert(table[2 * t + 1] == u16_le_bytes(s)[1]);
        assert(entry_offset(d) == s);
        lemma_entry_in_data(ixs, current, t);
        assert(ixs[t].accounts@.len() < 0x1_0000 && ixs[t].data@.len() < 0x1_0000);
        lemma_entry_parse(d, s, ixs[t], program_id, house, reveal_discriminator);
    }
}

/// What a `reveal` writes is what `resolve_bet` reads: when the instruction
/// before the executing one is a `reveal` of this program, signed by the house
/// and carrying `[REVEAL_DISCRIMINATOR] ++ preimage`, introspection yields that
/// preimage.
pub proof fn lemma_reveal_round_trip(
    ixs: Seq<SysvarInstruction>,
    current: int,
    house: [u8; 32],
    preimage: [u8; 32],
)
    requires
        encodable(ixs, current),
        1 <= current <= ixs.len(),
        ixs[current - 1].program_id == ID,
        ixs[current - 1].data@ == seq![REVEAL_DISCRIMINATOR] + preimage@,
        signed_in(ixs[current - 1], house@),
    ensures
        spec_prev_reveal_preimage(
            instructions_sysvar_data(ixs, current),
            ID@,
            house@,
            REVEAL_DISCRIMINATOR,
        ) == Ok::<Seq<u8>, ProgramError>(preimage@),
{
    lemma_introspection_reads_previous_instruction(ixs, current, ID@, house@, REVEAL_DISCRIMINATOR);
    let data = ixs[current - 1].data@;
    assert(data[0] == REVEAL_DISCRIMINATOR);
    assert(data.subrange(1, 33) =~= preimage@);
}

} // verus!
