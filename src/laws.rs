use vstd::prelude::*;

use crate::constants::{FREE_MINT_CAP, PRO_PERCENT, TEAM_PERCENT, TREAS_PERCENT};
use crate::contract::{share, ContractView};
use crate::error::ContractError;

verus! {

/// One call to the contract, as it acts on the abstract state.
pub enum Step<T> {
    AddExtension { sender: Seq<char>, id: Seq<char>, ext: T },
    FreeMint { sender: Seq<char>, owner: Seq<char> },
    Sign { sender: Seq<char> },
    Withdraw { balance: u128 },
    SetReveal { sender: Seq<char>, flag: bool },
    SetWhitelist { sender: Seq<char>, member: Seq<char>, flag: bool },
}

pub open spec fn apply<T>(v: ContractView<T>, step: Step<T>) -> ContractView<T> {
    match step {
        Step::AddExtension { sender, id, ext } => v.add_extension(sender, id, ext).0,
        Step::FreeMint { sender, owner } => v.free_mint(sender, owner).0,
        Step::Sign { sender } => v.sign(sender).0,
        Step::Withdraw { balance } => v.withdraw(balance).0,
        Step::SetReveal { sender, flag } => v.set_reveal(sender, flag).0,
        Step::SetWhitelist { sender, member, flag } => v.set_whitelist(sender, member, flag).0,
    }
}

/// The state after the calls `steps`, made in order from `v`.
pub open spec fn run<T>(v: ContractView<T>, steps: Seq<Step<T>>) -> ContractView<T>
    decreases steps.len(),
{
    if steps.len() == 0 {
        v
    } else {
        apply(run(v, steps.drop_last()), steps.last())
    }
}

/// Whatever calls are made, in whatever order, from a well-formed state (a fresh
/// contract is one), the free-mint counter never exceeds its cap.
pub proof fn law_counter_never_exceeds_cap<T>(v: ContractView<T>, steps: Seq<Step<T>>)
    requires
        v.wf(),
    ensures
        run(v, steps).wf(),
        run(v, steps).freemint_count <= FREE_MINT_CAP,
    decreases steps.len(),
{
    if steps.len() > 0 {
        law_counter_never_exceeds_cap(v, steps.drop_last());
        let p = run(v, steps.drop_last());
        match steps.last() {
            Step::AddExtension { sender, id, ext } => p.lemma_add_extension_keeps_wf(sender, id, ext),
            Step::FreeMint { sender, owner } => p.lemma_steps_keep_wf(sender, owner, false, 0),
            Step::Sign { sender } => p.lemma_steps_keep_wf(sender, sender, false, 0),
            Step::Withdraw { balance } => p.lemma_steps_keep_wf(Seq::empty(), Seq::empty(), false, balance),
            Step::SetReveal { sender, flag } => p.lemma_steps_keep_wf(sender, sender, flag, 0),
            Step::SetWhitelist { sender, member, flag } => p.lemma_steps_keep_wf(sender, member, flag, 0),
        }
    }
}

/// A claim by the minter succeeds exactly when the counter is below its cap and the
/// next token id holds a pre-seeded, unclaimed record; it then takes one slot.
pub proof fn law_claim_succeeds_iff<T>(v: ContractView<T>, owner: Seq<char>)
    requires
        v.wf(),
    ensures
        v.free_mint(v.minter, owner).1 is Ok <==> (v.freemint_count < FREE_MINT_CAP && v.is_pre_seeded(v.next_token_id())),
        v.free_mint(v.minter, owner).1 is Ok ==> v.free_mint(v.minter, owner).0.freemint_count == v.freemint_count + 1,
        v.free_mint(v.minter, owner).1 is Err ==> v.free_mint(v.minter, owner).0 == v,
{
}

/// Pre-seeding an unclaimed id twice succeeds both times, and the second extension
/// replaces the first.
pub proof fn law_pre_seed_twice_overwrites<T>(v: ContractView<T>, id: Seq<char>, first: T, second: T)
    requires
        v.wf(),
        !v.is_claimed(id),
    ensures
        v.add_extension(v.minter, id, first).1 is Ok,
        v.add_extension(v.minter, id, first).0.add_extension(v.minter, id, second).1 is Ok,
        v.add_extension(v.minter, id, first).0.add_extension(v.minter, id, second).0 == v.add_extension(
            v.minter,
            id,
            second,
        ).0,
        v.add_extension(v.minter, id, first).0.add_extension(v.minter, id, second).0.extensions[id] == second,
{
    let a = v.add_extension(v.minter, id, first).0;
    let b = a.add_extension(v.minter, id, second).0;
    let c = v.add_extension(v.minter, id, second).0;
    assert(b.tokens =~= c.tokens);
    assert(b.extensions =~= c.extensions);
}

/// Once the minter has claimed a token, pre-seeding its id again fails with `Claimed`.
pub proof fn law_pre_seed_after_claim_fails<T>(v: ContractView<T>, owner: Seq<char>, ext: T)
    requires
        v.wf(),
        v.free_mint(v.minter, owner).1 is Ok,
    ensures
        v.free_mint(v.minter, owner).0.add_extension(v.minter, v.next_token_id(), ext).1 == Err::<(), ContractError>(
            ContractError::Claimed {},
        ),
{
}

/// A claim whose id was never pre-seeded fails with `CannotGetExtension`.
pub proof fn law_claim_without_pre_seed_fails<T>(v: ContractView<T>, owner: Seq<char>)
    requires
        v.wf(),
        v.freemint_count < FREE_MINT_CAP,
        !v.tokens.contains_key(v.next_token_id()),
    ensures
        v.free_mint(v.minter, owner).1 == Err::<Seq<char>, ContractError>(ContractError::CannotGetExtension {}),
{
}

/// A claim whose id is already claimed fails with `Claimed`, once the counter allows
/// a claim at all.
pub proof fn law_claim_of_claimed_id_fails<T>(v: ContractView<T>, owner: Seq<char>)
    requires
        v.wf(),
        v.freemint_count < FREE_MINT_CAP,
        v.is_claimed(v.next_token_id()),
    ensures
        v.free_mint(v.minter, owner).1 == Err::<Seq<char>, ContractError>(ContractError::Claimed {}),
{
}

/// After a successful claim, a second claim, by anyone and for any owner, fails.
pub proof fn law_second_claim_fails<T>(v: ContractView<T>, owner: Seq<char>, sender: Seq<char>, other: Seq<char>)
    requires
        v.wf(),
        v.free_mint(v.minter, owner).1 is Ok,
    ensures
        v.free_mint(v.minter, owner).0.free_mint(sender, other).1 is Err,
{
}

/// A withdrawal succeeds exactly when all three parties have signed; it then clears
/// the three signatures and pays out no more than the balance, short of it by at most
/// the rounding of the three shares.
pub proof fn law_withdraw_needs_all_signatures<T>(v: ContractView<T>, balance: u128)
    requires
        v.wf(),
    ensures
        v.withdraw(balance).1 is Ok <==> v.all_signed(),
        v.withdraw(balance).1 is Ok ==> {
            let w = v.withdraw(balance).0;
            &&& !w.team_signed && !w.pro_signed && !w.treas_signed
            &&& v.withdraw(balance).1 == Ok::<Seq<(Seq<char>, u128)>, ContractError>(v.payouts(balance))
        },
        share(balance, TEAM_PERCENT) + share(balance, PRO_PERCENT) + share(balance, TREAS_PERCENT) <= balance,
        balance - (share(balance, TEAM_PERCENT) + share(balance, PRO_PERCENT) + share(balance, TREAS_PERCENT)) <= 2,
{
    let b = balance as int;
    assert(share(balance, TEAM_PERCENT) + share(balance, PRO_PERCENT) + share(balance, TREAS_PERCENT) <= balance
        && balance - (share(balance, TEAM_PERCENT) + share(balance, PRO_PERCENT) + share(balance, TREAS_PERCENT)) <= 2) by {
        let q1 = b * 30 / 100;
        let q2 = b * 14 / 100;
        let q3 = b * 56 / 100;
        assert(100 * q1 <= b * 30 < 100 * q1 + 100);
        assert(100 * q2 <= b * 14 < 100 * q2 + 100);
        assert(100 * q3 <= b * 56 < 100 * q3 + 100);
        assert(q1 + q2 + q3 <= b && b - (q1 + q2 + q3) <= 2);
    }
}

/// Signing twice by the same party has the effect of signing once.
pub proof fn law_sign_idempotent<T>(v: ContractView<T>, sender: Seq<char>)
    requires
        v.wf(),
    ensures
        v.sign(sender).0.sign(sender) == v.sign(sender),
{
}

/// A signature from anyone outside the three parties fails with `NotSigner` and
/// leaves the state as it was.
pub proof fn law_non_signer_rejected<T>(v: ContractView<T>, sender: Seq<char>)
    requires
        v.wf(),
        !v.is_signer(sender),
    ensures
        v.sign(sender) == (v, Err::<(), ContractError>(ContractError::NotSigner {})),
{
}

} // verus!
