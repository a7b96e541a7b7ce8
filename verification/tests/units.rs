//! Exact results of each part of the program on chosen inputs.

use quasar_dice::introspection::{prev_reveal_preimage, read_u16, INSTRUCTIONS_SYSVAR_ID};
use quasar_dice::odds::{roll_from_hash, winning_payout};
use quasar_dice::{
    close_table, initialize, open_table, place_bet, refund_bet, resolve_bet, reveal_instruction,
    Bet, CloseTable, DiceError, Initialize, OpenTable, OpenTableBumps, PlaceBet, PlaceBetBumps,
    ProgramError, RefundBet, RefundBetBumps, ResolveBet, ResolveBetBumps, Reveal, SysvarAccount,
    Table, Transfer, ID, REVEAL_DISCRIMINATOR,
};
use sha2::{Digest, Sha256};

const HOUSE: [u8; 32] = [0x11; 32];
const PLAYER: [u8; 32] = [0x22; 32];
const VAULT: [u8; 32] = [0x33; 32];

fn custom(e: DiceError) -> ProgramError {
    ProgramError::Custom(e.code())
}

fn sha(bytes: &[u8]) -> [u8; 32] {
    Sha256::digest(bytes).into()
}

/// One instruction entry: accounts as (meta byte, key), program id, data.
fn entry(accounts: &[(u8, [u8; 32])], program: [u8; 32], data: &[u8]) -> Vec<u8> {
    let mut e = vec![];
    e.extend_from_slice(&(accounts.len() as u16).to_le_bytes());
    for (m, k) in accounts {
        e.push(*m);
        e.extend_from_slice(k);
    }
    e.extend_from_slice(&program);
    e.extend_from_slice(&(data.len() as u16).to_le_bytes());
    e.extend_from_slice(data);
    e
}

fn sysvar(entries: &[Vec<u8>], current: u16) -> Vec<u8> {
    let mut out = vec![];
    out.extend_from_slice(&(entries.len() as u16).to_le_bytes());
    let mut off = 2 + 2 * entries.len();
    for e in entries {
        out.extend_from_slice(&(off as u16).to_le_bytes());
        off += e.len();
    }
    for e in entries {
        out.extend_from_slice(e);
    }
    out.extend_from_slice(&current.to_le_bytes());
    out
}

fn reveal_data(preimage: &[u8; 32]) -> Vec<u8> {
    let mut d = vec![REVEAL_DISCRIMINATOR];
    d.extend_from_slice(preimage);
    d
}

fn settle_sysvar(preimage: &[u8; 32]) -> Vec<u8> {
    sysvar(
        &[
            entry(&[(1, HOUSE)], ID, &reveal_data(preimage)),
            entry(&[(3, HOUSE), (2, PLAYER)], ID, &[3, 1, 0, 0, 0, 0, 0, 0, 0]),
        ],
        1,
    )
}

fn table(commitment: [u8; 32], claimed: bool) -> Table {
    Table { house: HOUSE, commitment, claimed, bump: 7 }
}

fn bet(guess_roll: u8) -> Bet {
    Bet { player: PLAYER, amount: 50_000_000, guess_roll, bump: 9, entropy: [0x5a; 32], slot: 100 }
}

fn blank_bet() -> Bet {
    Bet { player: [0; 32], amount: 0, guess_roll: 0, bump: 0, entropy: [0; 32], slot: 0 }
}

// --- error codes ------------------------------------------------------------

#[test]
fn error_codes_are_ordinals() {
    assert_eq!(DiceError::MinimumBet.code(), 0);
    assert_eq!(DiceError::MinimumRoll.code(), 1);
    assert_eq!(DiceError::MaximumRoll.code(), 2);
    assert_eq!(DiceError::BadSignature.code(), 3);
    assert_eq!(DiceError::CommitRevealMismatch.code(), 4);
    assert_eq!(DiceError::Overflow.code(), 5);
    assert_eq!(DiceError::TimeoutNotReached.code(), 6);
    assert_eq!(DiceError::NotReveal.code(), 7);
    assert_eq!(DiceError::TableInUse.code(), 8);
    assert_eq!(ProgramError::from(DiceError::CommitRevealMismatch), ProgramError::Custom(4));
}

#[test]
fn error_codes_decode_back() {
    for e in [
        DiceError::MinimumBet,
        DiceError::MinimumRoll,
        DiceError::MaximumRoll,
        DiceError::BadSignature,
        DiceError::CommitRevealMismatch,
        DiceError::Overflow,
        DiceError::TimeoutNotReached,
        DiceError::NotReveal,
        DiceError::TableInUse,
    ] {
        assert_eq!(DiceError::try_from_code(e.code()), Ok(e));
    }
    assert_eq!(DiceError::try_from_code(9), Err(ProgramError::InvalidArgument));
}

// --- introspection ----------------------------------------------------------

#[test]
fn read_u16_is_little_endian() {
    assert_eq!(read_u16(&[0x34, 0x12, 0xff], 0), Ok(0x1234));
    assert_eq!(read_u16(&[0x34, 0x12, 0xff], 1), Ok(0xff12));
    assert_eq!(read_u16(&[0x34, 0x12, 0xff], 2), Err(ProgramError::InvalidInstructionData));
}

#[test]
fn introspection_recovers_the_preimage() {
    let p = [0x42; 32];
    assert_eq!(prev_reveal_preimage(&settle_sysvar(&p), &ID, &HOUSE, 2), Ok(p));
}

#[test]
fn introspection_finds_the_house_among_several_accounts() {
    let p = [0x43; 32];
    let data = sysvar(
        &[
            entry(&[], [9; 32], &[1, 2, 3]),
            entry(&[(2, PLAYER), (3, HOUSE)], ID, &reveal_data(&p)),
            entry(&[], ID, &[3]),
        ],
        2,
    );
    assert_eq!(prev_reveal_preimage(&data, &ID, &HOUSE, 2), Ok(p));
}

#[test]
fn introspection_rejects_malformed_data() {
    let bad = Err(ProgramError::InvalidInstructionData);
    assert_eq!(prev_reveal_preimage(&[], &ID, &HOUSE, 2), bad);
    assert_eq!(prev_reveal_preimage(&[1], &ID, &HOUSE, 2), bad);
    // The executing instruction is the first: nothing precedes it.
    let first = sysvar(&[entry(&[(1, HOUSE)], ID, &reveal_data(&[1; 32]))], 0);
    assert_eq!(prev_reveal_preimage(&first, &ID, &HOUSE, 2), bad);
    // The current index points past the instruction count.
    let past = sysvar(&[entry(&[(1, HOUSE)], ID, &reveal_data(&[1; 32]))], 2);
    assert_eq!(prev_reveal_preimage(&past, &ID, &HOUSE, 2), bad);
    // The entry is cut short inside its accounts.
    let mut cut = settle_sysvar(&[1; 32]);
    cut.truncate(2 + 4 + 2 + 20);
    cut.extend_from_slice(&1u16.to_le_bytes());
    assert_eq!(prev_reveal_preimage(&cut, &ID, &HOUSE, 2), bad);
    // The reveal carries fewer than 32 bytes after its discriminator.
    let short = sysvar(&[entry(&[(1, HOUSE)], ID, &[2, 1, 2, 3]), entry(&[], ID, &[3])], 1);
    assert_eq!(prev_reveal_preimage(&short, &ID, &HOUSE, 2), bad);
}

#[test]
fn introspection_rejects_another_program() {
    let data = sysvar(
        &[entry(&[(1, HOUSE)], [9; 32], &reveal_data(&[1; 32])), entry(&[], ID, &[3])],
        1,
    );
    assert_eq!(prev_reveal_preimage(&data, &ID, &HOUSE, 2), Err(custom(DiceError::NotReveal)));
}

#[test]
fn introspection_rejects_an_unsigned_house() {
    // The house is present but only writable, and another key signed.
    let data = sysvar(
        &[entry(&[(2, HOUSE), (1, PLAYER)], ID, &reveal_data(&[1; 32])), entry(&[], ID, &[3])],
        1,
    );
    assert_eq!(prev_reveal_preimage(&data, &ID, &HOUSE, 2), Err(custom(DiceError::BadSignature)));
}

#[test]
fn introspection_rejects_another_instruction() {
    let mut other = reveal_data(&[1; 32]);
    other[0] = 1;
    let data = sysvar(&[entry(&[(1, HOUSE)], ID, &other), entry(&[], ID, &[3])], 1);
    assert_eq!(prev_reveal_preimage(&data, &ID, &HOUSE, 2), Err(custom(DiceError::NotReveal)));
    let empty = sysvar(&[entry(&[(1, HOUSE)], ID, &[]), entry(&[], ID, &[3])], 1);
    assert_eq!(prev_reveal_preimage(&empty, &ID, &HOUSE, 2), Err(custom(DiceError::NotReveal)));
}

// --- the odds -----------------------------------------------------------------

#[test]
fn rolls_of_chosen_hashes() {
    assert_eq!(roll_from_hash(&[0; 32]), 1);
    assert_eq!(roll_from_hash(&[0xff; 32]), 55);
    let mut counting = [0u8; 32];
    for (i, b) in counting.iter_mut().enumerate() {
        *b = i as u8;
    }
    assert_eq!(roll_from_hash(&counting), 97);
}

#[test]
fn payouts_of_chosen_bets() {
    assert_eq!(winning_payout(50_000_000, 10), Ok(547_222_222));
    assert_eq!(winning_payout(10_000_000, 99), Ok(10_051_020));
    assert_eq!(winning_payout(u64::MAX, 2), Err(custom(DiceError::Overflow)));
    assert_eq!(winning_payout(u64::MAX, 99), Err(custom(DiceError::Overflow)));
    assert_eq!(winning_payout(0, 50), Ok(0));
}

#[test]
fn a_higher_guess_never_pays_more() {
    let mut last = u64::MAX;
    for guess in 2..=99u8 {
        let p = winning_payout(50_000_000, guess).unwrap();
        assert!(p <= last);
        last = p;
    }
}

// --- the instructions -------------------------------------------------------

#[test]
fn initialize_funds_the_vault() {
    let t = initialize(&Initialize { house: HOUSE, vault: VAULT }, 77).unwrap();
    assert_eq!((t.from, t.to, t.lamports, t.vault_bump), (HOUSE, VAULT, 77, None));
}

#[test]
fn open_table_posts_the_commitment() {
    let mut a = OpenTable { house: HOUSE, table: Table { house: [0; 32], commitment: [0; 32], claimed: false, bump: 0 } };
    assert_eq!(open_table(&mut a, &OpenTableBumps { table: 200 }, 5, [0xcc; 32]), Ok(()));
    assert_eq!(a.table.house, HOUSE);
    assert_eq!(a.table.commitment, [0xcc; 32]);
    assert_eq!(a.table.bump, 200);
    assert!(!a.table.claimed);
}

fn place(table: Table, amount: u64, guess: u8, clock: Result<u64, ProgramError>) -> (PlaceBet, Result<Transfer, ProgramError>) {
    let mut a = PlaceBet { player: PLAYER, house: HOUSE, vault: VAULT, table, bet: blank_bet() };
    let r = place_bet(&mut a, &PlaceBetBumps { bet: 31 }, 1, amount, guess, [0x5a; 32], clock);
    (a, r)
}

#[test]
fn place_bet_records_the_bet_and_claims_the_table() {
    let (a, r) = place(table([1; 32], false), 10_000_000, 99, Ok(500));
    let t = r.unwrap();
    assert_eq!((t.from, t.to, t.lamports, t.vault_bump), (PLAYER, VAULT, 10_000_000, None));
    assert!(a.table.claimed);
    assert_eq!(a.table.commitment, [1; 32]);
    assert_eq!(a.bet.player, PLAYER);
    assert_eq!(a.bet.amount, 10_000_000);
    assert_eq!(a.bet.guess_roll, 99);
    assert_eq!(a.bet.bump, 31);
    assert_eq!(a.bet.entropy, [0x5a; 32]);
    assert_eq!(a.bet.slot, 500);
}

#[test]
fn place_bet_refusals() {
    let (a, r) = place(table([1; 32], false), 9_999_999, 50, Ok(1));
    assert_eq!(r.unwrap_err(), custom(DiceError::MinimumBet));
    assert!(!a.table.claimed);
    let (_, r) = place(table([1; 32], false), 10_000_000, 0, Ok(1));
    assert_eq!(r.unwrap_err(), custom(DiceError::MinimumRoll));
    let (_, r) = place(table([1; 32], false), 10_000_000, 100, Ok(1));
    assert_eq!(r.unwrap_err(), custom(DiceError::MaximumRoll));
    let (_, r) = place(table([1; 32], true), 10_000_000, 50, Ok(1));
    assert_eq!(r.unwrap_err(), custom(DiceError::TableInUse));
    // A validation failure comes before the claim check.
    let (_, r) = place(table([1; 32], true), 1, 50, Ok(1));
    assert_eq!(r.unwrap_err(), custom(DiceError::MinimumBet));
    // A clock that cannot be read fails the bet after the table is claimed.
    let (a, r) = place(table([1; 32], false), 10_000_000, 50, Err(ProgramError::Other(17)));
    assert_eq!(r.unwrap_err(), ProgramError::Other(17));
    assert!(a.table.claimed);
}

#[test]
fn a_second_bet_on_a_table_is_refused() {
    let (a, r) = place(table([1; 32], false), 10_000_000, 50, Ok(1));
    assert!(r.is_ok());
    let (_, r) = place(a.table, 20_000_000, 60, Ok(2));
    assert_eq!(r.unwrap_err(), custom(DiceError::TableInUse));
}

#[test]
fn reveal_does_nothing() {
    assert_eq!(reveal_instruction(&Reveal { house: HOUSE }, [3; 32]), Ok(()));
}

fn refund(slot: Result<u64, ProgramError>) -> Result<Transfer, ProgramError> {
    let mut a = RefundBet { player: PLAYER, house: HOUSE, vault: VAULT, bet: bet(50) };
    refund_bet(&mut a, &RefundBetBumps { vault: 250 }, 1, slot)
}

#[test]
fn refund_waits_for_the_timeout() {
    assert_eq!(refund(Ok(99)).unwrap_err(), custom(DiceError::Overflow));
    assert_eq!(refund(Ok(100)).unwrap_err(), custom(DiceError::TimeoutNotReached));
    assert_eq!(refund(Ok(1100)).unwrap_err(), custom(DiceError::TimeoutNotReached));
    assert_eq!(refund(Err(ProgramError::Other(2))).unwrap_err(), ProgramError::Other(2));
    let t = refund(Ok(1101)).unwrap();
    assert_eq!((t.from, t.to, t.lamports, t.vault_bump), (VAULT, PLAYER, 50_000_000, Some(250)));
}

#[test]
fn close_table_only_when_unclaimed() {
    assert_eq!(close_table(&CloseTable { house: HOUSE, table: table([1; 32], false) }, 1), Ok(()));
    assert_eq!(
        close_table(&CloseTable { house: HOUSE, table: table([1; 32], true) }, 1),
        Err(custom(DiceError::TableInUse))
    );
}

fn resolve(commitment: [u8; 32], guess: u8, address: [u8; 32], data: Vec<u8>) -> Result<Option<Transfer>, ProgramError> {
    let mut a = ResolveBet {
        house: HOUSE,
        player: PLAYER,
        vault: VAULT,
        table: table(commitment, true),
        bet: bet(guess),
        instruction_sysvar: SysvarAccount { address, data },
    };
    resolve_bet(&mut a, &ResolveBetBumps { vault: 251 }, 1)
}

fn roll_for(preimage: &[u8; 32]) -> u8 {
    let mut mixed = preimage.to_vec();
    mixed.extend_from_slice(&[0x5a; 32]);
    roll_from_hash(&sha(&mixed))
}

#[test]
fn resolve_pays_a_win_and_keeps_a_loss() {
    let p = [7u8; 32];
    let roll = roll_for(&p);
    assert_eq!(roll, 97);
    let win = resolve(sha(&p), 98, INSTRUCTIONS_SYSVAR_ID, settle_sysvar(&p)).unwrap().unwrap();
    assert_eq!((win.from, win.to, win.vault_bump), (VAULT, PLAYER, Some(251)));
    assert_eq!(win.lamports, (50_000_000u128 * 9850 / 97 / 100) as u64);
    assert!(matches!(resolve(sha(&p), 97, INSTRUCTIONS_SYSVAR_ID, settle_sysvar(&p)), Ok(None)));
    assert!(matches!(resolve(sha(&p), 1, INSTRUCTIONS_SYSVAR_ID, settle_sysvar(&p)), Ok(None)));
}

#[test]
fn resolve_checks_the_sysvar_and_the_commitment() {
    let p = [7u8; 32];
    assert_eq!(
        resolve(sha(&p), 98, [5; 32], settle_sysvar(&p)).unwrap_err(),
        custom(DiceError::BadSignature)
    );
    // A commitment equal to the preimage itself is not the preimage's hash.
    assert_eq!(
        resolve(p, 98, INSTRUCTIONS_SYSVAR_ID, settle_sysvar(&p)).unwrap_err(),
        custom(DiceError::CommitRevealMismatch)
    );
    assert_eq!(
        resolve(sha(&p), 98, INSTRUCTIONS_SYSVAR_ID, vec![0, 0]).unwrap_err(),
        ProgramError::InvalidInstructionData
    );
}

#[test]
fn the_roll_mixes_preimage_and_entropy() {
    // The same preimage with the entropy swapped out settles differently.
    let p = [7u8; 32];
    let plain = roll_from_hash(&sha(&p));
    assert_ne!(plain, roll_for(&p));
}

#[test]
fn open_table_starts_unclaimed() {
    let mut a = OpenTable { house: HOUSE, table: Table { house: [9; 32], commitment: [9; 32], claimed: true, bump: 9 } };
    assert_eq!(open_table(&mut a, &OpenTableBumps { table: 201 }, 6, [0xdd; 32]), Ok(()));
    assert!(!a.table.claimed);
    assert_eq!(a.table.house, HOUSE);
    assert_eq!(a.table.commitment, [0xdd; 32]);
    assert_eq!(a.table.bump, 201);
}

#[test]
fn introspection_ignores_other_instructions() {
    let p = [0x44; 32];
    let build = |other: &[u8]| {
        sysvar(
            &[
                entry(&[(1, PLAYER)], [8; 32], other),
                entry(&[(1, HOUSE)], ID, &reveal_data(&p)),
                entry(&[(3, HOUSE)], ID, &[3, 0]),
            ],
            2,
        )
    };
    let a = build(&[1, 2, 3, 4]);
    let b = build(&[9, 9, 9, 9]);
    assert_ne!(a, b);
    assert_eq!(prev_reveal_preimage(&a, &ID, &HOUSE, 2), Ok(p));
    assert_eq!(prev_reveal_preimage(&b, &ID, &HOUSE, 2), Ok(p));
}
