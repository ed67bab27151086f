//! DF-style value argument resolution.
//!
//! Characters argue about Schwartz values; the winner shifts the loser's value
//! based on the conviction gap and the defender's openness to persuasion.

use vstd::prelude::*;

use crate::binary64::Real;

verus! {

/// `1.0`: the most a loser's value can shift.
pub const LOSER_SHIFT_CAP_BITS: u64 = 0x3FF0_0000_0000_0000;

/// `0.1`: the most a winner's value can reinforce itself.
pub const WINNER_SHIFT_CAP_BITS: u64 = 0x3FB9_9999_9999_999A;

/// Input to a value argument resolution.
#[derive(Debug)]
pub struct ValueArgumentInput {
    /// Name of the character initiating the argument.
    pub attacker: String,
    /// Name of the character defending their position.
    pub defender: String,
    /// The Schwartz value being contested.
    pub value_at_stake: String,
    /// How strongly the attacker holds their position. Range: `[0.0, 1.0]`.
    pub attacker_conviction: Real,
    /// How strongly the defender holds their position. Range: `[0.0, 1.0]`.
    pub defender_conviction: Real,
    /// How open the defender is to changing their position. Range: `[0.0, 1.0]`.
    pub defender_openness: Real,
}

/// Output of a value argument resolution.
#[derive(Debug)]
pub struct ValueArgumentResult {
    /// Name of the character who won the argument.
    pub winner: String,
    /// Name of the character who lost the argument.
    pub loser: String,
    /// The Schwartz value that was contested.
    pub value_at_stake: String,
    /// Magnitude of the shift applied to the loser's value. Range: `[0.0, 1.0]`.
    pub loser_value_shift: Real,
    /// Small self-reinforcement applied to the winner's value. Range: `[0.0, 0.1]`.
    pub winner_value_shift: Real,
}

impl Clone for ValueArgumentInput {
    fn clone(&self) -> (r: ValueArgumentInput)
        ensures
            r == *self,
    {
        ValueArgumentInput {
            attacker: self.attacker.clone(),
            defender: self.defender.clone(),
            value_at_stake: self.value_at_stake.clone(),
            attacker_conviction: self.attacker_conviction,
            defender_conviction: self.defender_conviction,
            defender_openness: self.defender_openness,
        }
    }
}

impl Clone for ValueArgumentResult {
    fn clone(&self) -> (r: ValueArgumentResult)
        ensures
            r == *self,
    {
        ValueArgumentResult {
            winner: self.winner.clone(),
            loser: self.loser.clone(),
            value_at_stake: self.value_at_stake.clone(),
            loser_value_shift: self.loser_value_shift,
            winner_value_shift: self.winner_value_shift,
        }
    }
}

/// Resolve a value argument.
///
/// The character with higher conviction wins. On a tie, the attacker wins.
///
/// - Loser shift = `conviction_gap × defender_openness`, clamped to `[0.0, 1.0]`.
/// - Winner self-reinforcement = `conviction_gap × 0.1`, clamped to `[0.0, 0.1]`.
///
/// `conviction_gap` is `|attacker_conviction - defender_conviction|`. The two
/// products are binary64 arithmetic, done by the caller: `loser_pull` is
/// `conviction_gap × defender_openness` and `winner_pull` is
/// `conviction_gap × 0.1`.
pub fn resolve_value_argument(input: &ValueArgumentInput, loser_pull: Real, winner_pull: Real) -> (r:
    ValueArgumentResult)
    ensures
        input.attacker_conviction.ge_spec(input.defender_conviction) ==> r.winner == input.attacker
            && r.loser == input.defender,
        !input.attacker_conviction.ge_spec(input.defender_conviction) ==> r.winner
            == input.defender && r.loser == input.attacker,
        r.value_at_stake == input.value_at_stake,
        r.loser_value_shift == loser_pull.clamp_spec(
            Real::zero_spec(),
            Real { bits: LOSER_SHIFT_CAP_BITS },
        ),
        r.winner_value_shift == winner_pull.clamp_spec(
            Real::zero_spec(),
            Real { bits: WINNER_SHIFT_CAP_BITS },
        ),
        // the more convinced character wins; on a tie, the attacker
        input.attacker_conviction.gt_spec(input.defender_conviction) ==> r.winner == input.attacker,
        input.attacker_conviction.eq_value(input.defender_conviction) ==> r.winner
            == input.attacker,
        input.defender_conviction.gt_spec(input.attacker_conviction) ==> r.winner
            == input.defender,
        // a pull already within range is taken as it is; one outside goes to the nearer bound
        Real::zero_spec().le_spec(loser_pull) && loser_pull.le_spec(
            Real { bits: LOSER_SHIFT_CAP_BITS },
        ) ==> r.loser_value_shift == loser_pull,
        loser_pull.lt_spec(Real::zero_spec()) ==> r.loser_value_shift == Real::zero_spec(),
        loser_pull.gt_spec(Real { bits: LOSER_SHIFT_CAP_BITS }) ==> r.loser_value_shift == (Real { bits: LOSER_SHIFT_CAP_BITS }),
        Real::zero_spec().le_spec(winner_pull) && winner_pull.le_spec(
            Real { bits: WINNER_SHIFT_CAP_BITS },
        ) ==> r.winner_value_shift == winner_pull,
        winner_pull.lt_spec(Real::zero_spec()) ==> r.winner_value_shift == Real::zero_spec(),
        winner_pull.gt_spec(Real { bits: WINNER_SHIFT_CAP_BITS }) ==> r.winner_value_shift == (Real { bits: WINNER_SHIFT_CAP_BITS }),
        // the shifts stay within their ranges
        !loser_pull.nan() ==> r.loser_value_shift.ge_spec(Real::zero_spec())
            && r.loser_value_shift.le_spec(Real { bits: LOSER_SHIFT_CAP_BITS }),
        !winner_pull.nan() ==> r.winner_value_shift.ge_spec(Real::zero_spec())
            && r.winner_value_shift.le_spec(Real { bits: WINNER_SHIFT_CAP_BITS }),
{
    let attacker_wins = input.attacker_conviction.ge(&input.defender_conviction);

    let (winner, loser) = if attacker_wins {
        (input.attacker.clone(), input.defender.clone())
    } else {
        (input.defender.clone(), input.attacker.clone())
    };

    let zero = Real::zero();
    let loser_value_shift = loser_pull.clamp(&zero, &Real { bits: LOSER_SHIFT_CAP_BITS });
    let winner_value_shift = winner_pull.clamp(&zero, &Real { bits: WINNER_SHIFT_CAP_BITS });

    ValueArgumentResult {
        winner,
        loser,
        value_at_stake: input.value_at_stake.clone(),
        loser_value_shift,
        winner_value_shift,
    }
}

} // verus!
