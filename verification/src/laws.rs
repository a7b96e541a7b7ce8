//! Properties of the game that span several instructions.

use vstd::prelude::*;

use crate::constants::{
    HOUSE_EDGE_BASIS_POINTS, MAX_ROLL, MIN_BET_LAMPORTS, MIN_ROLL, REFUND_TIMEOUT_SLOTS,
};
use crate::error::{dice, DiceError, ProgramError};
use crate::hash::sha256_digest;
use crate::instructions::close_table::spec_close;
use crate::instructions::place_bet::spec_create_bet;
use crate::instructions::refund_bet::spec_refund;
use crate::instructions::resolve_bet::{spec_resolve, spec_settle};
use crate::instructions::{OpenTable, PlaceBet, RefundBet, ResolveBet};
use crate::introspection::{spec_prev_reveal_preimage, INSTRUCTIONS_SYSVAR_ID};
use crate::odds::{le_value, spec_payout, spec_roll, u128_modulus};
use crate::state::{Bet, Table, Transfer};
use crate::{ID, REVEAL_DISCRIMINATOR};

verus! {

/// A table that has just been opened, never bet against, can be closed by the
/// house.
pub proof fn lemma_unclaimed_table_closes(opened: OpenTable, commitment: [u8; 32], bump: u8)
    ensures
        spec_close(Table { house: opened.house, commitment, claimed: false, bump }) == Ok::<
            (),
            ProgramError,
        >(()),
{
}

/// Once a bet has been accepted against a table, the table keeps the house's
/// commitment and can no longer be closed: the house cannot close-and-reopen
/// the round with a substituted commitment after seeing the player's entropy.
pub proof fn lemma_claimed_table_cannot_close(
    a: PlaceBet,
    guess_roll: u8,
    amount: u64,
    entropy: [u8; 32],
    bump: u8,
    clock: Result<u64, ProgramError>,
)
    requires
        spec_create_bet(a, guess_roll, amount, entropy, bump, clock).1 is Ok,
    ensures
        spec_create_bet(a, guess_roll, amount, entropy, bump, clock).0.table.commitment
            == a.table.commitment,
        spec_create_bet(a, guess_roll, amount, entropy, bump, clock).0.table.house == a.table.house,
        spec_close(spec_create_bet(a, guess_roll, amount, entropy, bump, clock).0.table) == Err::<
            (),
            ProgramError,
        >(dice(DiceError::TableInUse)),
{
}

/// One bet per table: after a bet has been accepted, no further bet against the
/// same table is accepted, whoever places it and whatever it stakes.
pub proof fn lemma_one_bet_per_table(
    first: PlaceBet,
    guess_roll: u8,
    amount: u64,
    entropy: [u8; 32],
    bump: u8,
    clock: Result<u64, ProgramError>,
    second: PlaceBet,
    guess_roll2: u8,
    amount2: u64,
    entropy2: [u8; 32],
    bump2: u8,
    clock2: Result<u64, ProgramError>,
)
    requires
        spec_create_bet(first, guess_roll, amount, entropy, bump, clock).1 is Ok,
        second.table == spec_create_bet(first, guess_roll, amount, entropy, bump, clock).0.table,
    ensures
        spec_create_bet(second, guess_roll2, amount2, entropy2, bump2, clock2).1 is Err,
        spec_create_bet(second, guess_roll2, amount2, entropy2, bump2, clock2).0 == second,
{
}

/// A player whose bet the house never settles is made whole: once more than
/// `REFUND_TIMEOUT_SLOTS` slots have passed since the bet, the refund moves
/// exactly the stake that was deposited back from the vault to the player;
/// before that, the refund is refused.
pub proof fn lemma_refund_returns_stake(
    a: PlaceBet,
    guess_roll: u8,
    amount: u64,
    entropy: [u8; 32],
    bump: u8,
    placed_at: u64,
    r: RefundBet,
    vault_bump: u8,
    now: u64,
)
    requires
        spec_create_bet(a, guess_roll, amount, entropy, bump, Ok(placed_at)).1 is Ok,
        r.bet == spec_create_bet(a, guess_roll, amount, entropy, bump, Ok(placed_at)).0.bet,
        r.player == a.player,
        r.vault == a.vault,
        placed_at <= now,
    ensures
        now - placed_at > REFUND_TIMEOUT_SLOTS ==> spec_refund(r, vault_bump, Ok(now)) == Ok::<
            Transfer,
            ProgramError,
        >(Transfer { from: a.vault, to: a.player, lamports: amount, vault_bump: Some(vault_bump) }),
        now - placed_at <= REFUND_TIMEOUT_SLOTS ==> spec_refund(r, vault_bump, Ok(now)) == Err::<
            Transfer,
            ProgramError,
        >(dice(DiceError::TimeoutNotReached)),
{
}

/// The house wins ties: a guess that does not strictly exceed the roll pays
/// nothing, and one that does is paid `spec_payout` when it fits in a `u64`.
pub proof fn lemma_house_wins_ties(
    bet: Bet,
    vault: [u8; 32],
    player: [u8; 32],
    vault_bump: u8,
    roll: int,
)
    ensures
        bet.guess_roll <= roll ==> spec_settle(bet, vault, player, vault_bump, roll) == Ok::<
            Option<Transfer>,
            ProgramError,
        >(None),
        bet.guess_roll > roll && spec_payout(bet.amount, bet.guess_roll) <= u64::MAX
            ==> spec_settle(bet, vault, player, vault_bump, roll) == Ok::<
            Option<Transfer>,
            ProgramError,
        >(
            Some(
                Transfer {
                    from: vault,
                    to: player,
                    lamports: spec_payout(bet.amount, bet.guess_roll) as u64,
                    vault_bump: Some(vault_bump),
                },
            ),
        ),
{
}

/// A settle goes through only with the preimage that the preceding `reveal`
/// carried, signed by the house, and only if that preimage opens the table's
/// commitment: a switched preimage is rejected.
pub proof fn lemma_settle_opens_commitment(a: ResolveBet, vault_bump: u8)
    requires
        spec_resolve(a, vault_bump) is Ok,
    ensures
        spec_prev_reveal_preimage(a.instruction_sysvar.data@, ID@, a.house@, REVEAL_DISCRIMINATOR) is Ok,
        sha256_digest(
            spec_prev_reveal_preimage(
                a.instruction_sysvar.data@,
                ID@,
                a.house@,
                REVEAL_DISCRIMINATOR,
            )->Ok_0,
        ) == a.table.commitment@,
{
}

/// The payout scales inversely with how many numbers the guess covers: a
/// higher guess never pays more on the same stake.
pub proof fn lemma_payout_decreases_with_guess(amount: u64, guess: u8, higher: u8)
    requires
        2 <= guess <= higher,
    ensures
        spec_payout(amount, higher) <= spec_payout(amount, guess),
{
    let scaled = amount * (10_000 - HOUSE_EDGE_BASIS_POINTS);
    assert(scaled / (higher - 1) <= scaled / (guess - 1)) by (nonlinear_arith)
        requires
            scaled >= 0,
            1 <= guess - 1 <= higher - 1,
    {
        vstd::arithmetic::div_mod::lemma_div_is_ordered_by_denominator(
            scaled,
            guess - 1,
            higher - 1,
        );
    }
    vstd::arithmetic::div_mod::lemma_div_is_ordered(
        scaled / (higher - 1),
        scaled / (guess - 1),
        100,
    );
}

/// The house edge is withheld: a winning payout never exceeds the fair odds
/// `amount * 100 / (guess - 1)` less `HOUSE_EDGE_BASIS_POINTS` basis points.
pub proof fn lemma_payout_withholds_edge(amount: u64, guess: u8)
    requires
        guess >= 2,
    ensures
        0 <= spec_payout(amount, guess),
        spec_payout(amount, guess) * (guess - 1) * 100 <= amount * (10_000
            - HOUSE_EDGE_BASIS_POINTS),
{
    let scaled = amount * (10_000 - HOUSE_EDGE_BASIS_POINTS);
    let d = guess - 1;
    assert(scaled / d / 100 * d * 100 <= scaled) by (nonlinear_arith)
        requires
            scaled >= 0,
            d >= 1,
    {
        vstd::arithmetic::div_mod::lemma_fundamental_div_mod(scaled, d);
        vstd::arithmetic::div_mod::lemma_fundamental_div_mod(scaled / d, 100);
        vstd::arithmetic::div_mod::lemma_mod_bound(scaled, d);
        vstd::arithmetic::div_mod::lemma_mod_bound(scaled / d, 100);
        vstd::arithmetic::div_mod::lemma_div_pos_is_pos(scaled, d);
    }
    vstd::arithmetic::div_mod::lemma_div_pos_is_pos(scaled, d);
    vstd::arithmetic::div_mod::lemma_div_pos_is_pos(scaled / d, 100);
}

/// A bet read at slot `slot` is accepted exactly when the stake is at least
/// `MIN_BET_LAMPORTS`, the guess is in `MIN_ROLL..=MAX_ROLL` and the table is
/// not yet claimed; an accepted bet records exactly its arguments (the signing
/// player, the stake, the guess, the bump found for its address, the entropy in
/// the order the player passed it, and the slot), claims the table and leaves
/// everything else as it was.
pub proof fn lemma_accepted_bet_records_its_arguments(
    a: PlaceBet,
    guess_roll: u8,
    amount: u64,
    entropy: [u8; 32],
    bump: u8,
    slot: u64,
)
    ensures
        (spec_create_bet(a, guess_roll, amount, entropy, bump, Ok(slot)).1 is Ok) <==> (
        amount >= MIN_BET_LAMPORTS && MIN_ROLL <= guess_roll <= MAX_ROLL && !a.table.claimed),
        spec_create_bet(a, guess_roll, amount, entropy, bump, Ok(slot)).1 is Ok ==> {
            let after = spec_create_bet(a, guess_roll, amount, entropy, bump, Ok(slot)).0;
            &&& after.bet.player == a.player
            &&& after.bet.amount == amount
            &&& after.bet.guess_roll == guess_roll
            &&& after.bet.bump == bump
            &&& after.bet.entropy == entropy
            &&& after.bet.slot == slot
            &&& after.table.claimed
            &&& after.table.house == a.table.house
            &&& after.table.commitment == a.table.commitment
            &&& after.table.bump == a.table.bump
            &&& after.player == a.player
            &&& after.house == a.house
            &&& after.vault == a.vault
        },
{
}

/// A refund pays the player the bet names: once the timeout has passed, the
/// stake a bet recorded goes back from the vault to the player who placed it,
/// when the refunding player is the one the bet records.
pub proof fn lemma_refund_pays_the_recorded_player(
    a: PlaceBet,
    guess_roll: u8,
    amount: u64,
    entropy: [u8; 32],
    bump: u8,
    placed_at: u64,
    r: RefundBet,
    vault_bump: u8,
    now: u64,
)
    requires
        spec_create_bet(a, guess_roll, amount, entropy, bump, Ok(placed_at)).1 is Ok,
        r.bet == spec_create_bet(a, guess_roll, amount, entropy, bump, Ok(placed_at)).0.bet,
        r.player == r.bet.player,
        r.vault == a.vault,
        placed_at <= now,
        now - placed_at > REFUND_TIMEOUT_SLOTS,
    ensures
        spec_refund(r, vault_bump, Ok(now)) == Ok::<Transfer, ProgramError>(
            Transfer { from: a.vault, to: a.player, lamports: amount, vault_bump: Some(vault_bump) },
        ),
{
}

/// A settle rolls on the revealed preimage followed by exactly the 32 entropy
/// bytes the player passed when betting, in that order: once the sysvar, the
/// reveal and the commitment check out, with `roll` the roll of
/// `sha256(preimage ++ entropy)`, a guess above `roll` is paid
/// `amount * 9850 / (guess - 1) / 100` from the vault to the player who placed
/// the bet (an `Overflow` when that does not fit in a `u64`), and any other
/// guess is paid nothing.
pub proof fn lemma_settle_rolls_on_preimage_then_entropy(
    placed: PlaceBet,
    guess_roll: u8,
    amount: u64,
    entropy: [u8; 32],
    bump: u8,
    slot: u64,
    a: ResolveBet,
    vault_bump: u8,
    preimage: Seq<u8>,
)
    requires
        spec_create_bet(placed, guess_roll, amount, entropy, bump, Ok(slot)).1 is Ok,
        a.bet == spec_create_bet(placed, guess_roll, amount, entropy, bump, Ok(slot)).0.bet,
        a.player == a.bet.player,
        a.instruction_sysvar.address == INSTRUCTIONS_SYSVAR_ID,
        spec_prev_reveal_preimage(a.instruction_sysvar.data@, ID@, a.house@, REVEAL_DISCRIMINATOR)
            == Ok::<Seq<u8>, ProgramError>(preimage),
        sha256_digest(preimage) == a.table.commitment@,
    ensures
        ({
            let mixed = preimage + entropy@;
            let h = sha256_digest(mixed);
            let roll = ((le_value(h.subrange(0, 16)) + le_value(h.subrange(16, 32))) as int
                % u128_modulus()) % 100 + 1;
            let payout = amount * 9850 / (guess_roll - 1) / 100;
            &&& mixed.len() == preimage.len() + 32
            &&& mixed.subrange(0, preimage.len() as int) == preimage
            &&& mixed.subrange(preimage.len() as int, mixed.len() as int) == entropy@
            &&& guess_roll <= roll ==> spec_resolve(a, vault_bump) == Ok::<
                Option<Transfer>,
                ProgramError,
            >(None)
            &&& guess_roll > roll && payout <= u64::MAX ==> spec_resolve(a, vault_bump) == Ok::<
                Option<Transfer>,
                ProgramError,
            >(
                Some(
                    Transfer {
                        from: a.vault,
                        to: placed.player,
                        lamports: payout as u64,
                        vault_bump: Some(vault_bump),
                    },
                ),
            )
            &&& guess_roll > roll && payout > u64::MAX ==> spec_resolve(a, vault_bump) == Err::<
                Option<Transfer>,
                ProgramError,
            >(dice(DiceError::Overflow))
        }),
{
    let mixed = preimage + entropy@;
    assert(mixed.subrange(0, preimage.len() as int) =~= preimage);
    assert(mixed.subrange(preimage.len() as int, mixed.len() as int) =~= entropy@);
    assert(a.instruction_sysvar.address@ == INSTRUCTIONS_SYSVAR_ID@);
}

/// The roll of a hash is its two little-endian 128-bit halves added modulo
/// `2^128`, then taken modulo 100, plus one: for instance the all-zero hash
/// rolls 1, a first byte of 3 with a seventeenth byte of 4 rolls 8, and a
/// second byte of 1 (the value 256) rolls 57.
pub proof fn lemma_roll_of_stated_hashes()
    ensures
        forall|h: Seq<u8>| #[trigger] spec_roll(h) == ((le_value(h.subrange(0, 16)) + le_value(
            h.subrange(16, 32),
        )) as int % u128_modulus()) % 100 + 1,
        forall|h: Seq<u8>| 1 <= #[trigger] spec_roll(h) <= 100,
        spec_roll(Seq::new(32, |i: int| 0u8)) == 1,
        spec_roll(Seq::new(32, |i: int| if i == 0 { 3u8 } else if i == 16 { 4u8 } else { 0u8 })) == 8,
        spec_roll(Seq::new(32, |i: int| if i == 1 { 1u8 } else { 0u8 })) == 57,
{
    reveal_with_fuel(le_value, 17);
    let z = Seq::new(32, |i: int| 0u8);
    let x = Seq::new(32, |i: int| if i == 0 { 3u8 } else if i == 16 { 4u8 } else { 0u8 });
    let y = Seq::new(32, |i: int| if i == 1 { 1u8 } else { 0u8 });
    lemma_le_value_zero(z.subrange(0, 16));
    lemma_le_value_zero(z.subrange(16, 32));
    lemma_le_value_zero(x.subrange(0, 16).drop_first());
    lemma_le_value_zero(x.subrange(16, 32).drop_first());
    lemma_le_value_zero(y.subrange(0, 16).drop_first().drop_first());
    lemma_le_value_zero(y.subrange(16, 32));
    assert(le_value(x.subrange(0, 16)) == 3);
    assert(le_value(x.subrange(16, 32)) == 4);
    assert(le_value(y.subrange(0, 16).drop_first()) == 1);
    assert(le_value(y.subrange(0, 16)) == 256);
    assert(le_value(y.subrange(16, 32)) == 0);
    vstd::arithmetic::div_mod::lemma_small_mod(256, u128_modulus() as nat);
    assert((256int % u128_modulus()) % 100 + 1 == 57);
    assert(spec_roll(y) == 57);
}

/// A run of zero bytes spells zero.
proof fn lemma_le_value_zero(s: Seq<u8>)
    requires
        forall|i: int| 0 <= i < s.len() ==> s[i] == 0,
    ensures
        le_value(s) == 0,
    decreases s.len(),
{
    if s.len() > 0 {
        lemma_le_value_zero(s.drop_first());
    }
}

} // verus!
