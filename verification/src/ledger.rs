//! The pool together with all its open positions, and what every instruction keeps of it.
use crate::accounts::{
    state_violation, Account, AccountState, ClaimRewards, InitializePool, Stake, Unstake,
    UpdatePool,
};
use crate::claim::PendingClaim;
use crate::error::{Failure, StakingError};
use crate::pool::initialize_refusal;
use crate::pubkey::Pubkey;
use crate::rewards::{
    elapsed_word, interest, law_interest_grows, law_splitting_a_span_earns_no_more,
    lemma_rewards_are_at_most_the_interest, reward_amount, rewards_defined,
};
use crate::state::{StakerInfo, StakingPool, INITIAL_REWARD_POOL};
use crate::unstake::{PendingEmergencyUnstake, UnstakeStep};
use vstd::prelude::*;

verus! {

/// A pool and its open positions, by number.
pub struct Ledger {
    pub key: Pubkey,
    pub pool: StakingPool,
    pub positions: Map<u64, StakerInfo>,
}

/// The sum of the stakes of the positions numbered below `bound`.
pub open spec fn staked_below(positions: Map<u64, StakerInfo>, bound: nat) -> int
    decreases bound,
{
    if bound == 0 {
        0
    } else {
        let id = (bound - 1) as u64;
        staked_below(positions, (bound - 1) as nat) + if positions.contains_key(id) {
            positions[id].staked_amount as int
        } else {
            0
        }
    }
}

impl Ledger {
    /// The totals of the pool are those of its open positions, every position is well formed and
    /// numbered, and the numbers from the next one on are free.
    pub open spec fn consistent(self) -> bool {
        &&& self.positions.dom().finite()
        &&& forall|id: u64| #[trigger]
            self.positions.contains_key(id) ==> {
                &&& 1 <= id < self.pool.next_position_id
                &&& self.positions[id].position_id == id
                &&& self.positions[id].pool == self.key
                &&& self.positions[id].well_formed()
            }
        &&& self.pool.total_staked == staked_below(
            self.positions,
            self.pool.next_position_id as nat,
        )
        &&& self.pool.staker_count == self.positions.len()
        &&& 1 <= self.pool.next_position_id
        &&& self.pool.reward_pool_amount <= INITIAL_REWARD_POOL
    }

    /// The position is one of the open ones.
    pub open spec fn holds(self, position: StakerInfo) -> bool {
        self.positions.contains_key(position.position_id) && self.positions[position.position_id]
            == position
    }

    /// The accounts show the ledger as it is: its pool, and at the address of a position that is open
    /// the position itself.
    pub open spec fn shows(
        self,
        pool: Account<StakingPool>,
        state: AccountState,
        position: StakerInfo,
    ) -> bool {
        &&& pool.key == self.key
        &&& pool.data == self.pool
        &&& state is Open ==> self.holds(position)
    }

    /// The ledger with this pool and one more position, or another state of a position.
    pub open spec fn with_position(self, pool: StakingPool, position: StakerInfo) -> Ledger {
        Ledger {
            key: self.key,
            pool,
            positions: self.positions.insert(position.position_id, position),
        }
    }

    /// The ledger with this pool and without this position.
    pub open spec fn without_position(self, pool: StakingPool, position: StakerInfo) -> Ledger {
        Ledger { key: self.key, pool, positions: self.positions.remove(position.position_id) }
    }
}

impl Ledger {
    /// The number was given to a position that is no longer open.
    pub open spec fn retired(self, id: u64) -> bool {
        1 <= id < self.pool.next_position_id && !self.positions.contains_key(id)
    }

    /// An admitted stake of `amount` turns the ledger into `later`.
    pub open spec fn stakes(
        self,
        accounts: Stake,
        amount: u64,
        clock: Result<i64, u64>,
        later: Ledger,
    ) -> bool {
        let pending = accounts.pending(amount, clock->Ok_0);
        &&& accounts.pool.key == self.key
        &&& accounts.pool.data == self.pool
        &&& accounts.refusal(amount, clock) is None
        &&& pending.settleable(accounts)
        &&& later == self.with_position(
            pending.settled(accounts).pool.data,
            pending.settled(accounts).staker.data,
        )
    }

    /// Closing an open position, with or without its rewards, turns the ledger into `later`.
    pub open spec fn closes(self, accounts: Unstake, later: Ledger) -> bool {
        &&& self.shows(accounts.pool, accounts.staker_state, accounts.staker.data)
        &&& accounts.staker_state is Open
        &&& later == self.without_position(
            accounts.after_closing().pool.data,
            accounts.staker.data,
        )
    }

    /// An admitted claim of an open position turns the ledger into `later`.
    pub open spec fn claims(
        self,
        accounts: ClaimRewards,
        clock: Result<i64, u64>,
        later: Ledger,
    ) -> bool {
        &&& self.shows(accounts.pool, accounts.staker_state, accounts.staker.data)
        &&& accounts.staker_state is Open
        &&& accounts.computable(clock)
        &&& accounts.refusal(clock) is None
        &&& match accounts.pending(clock->Ok_0) {
            None => later == self,
            Some(pending) => {
                &&& pending.settleable(accounts)
                &&& later == self.with_position(
                    pending.settled(accounts).pool.data,
                    pending.settled(accounts).staker.data,
                )
            },
        }
    }

    /// Pausing or resuming turns the ledger into `later`.
    pub open spec fn updates(self, accounts: UpdatePool, later: Ledger) -> bool {
        &&& accounts.pool.key == self.key
        &&& accounts.pool.data == self.pool
        &&& later == (Ledger { pool: accounts.toggled().pool.data, ..self })
    }

    /// The instruction turns the ledger into `later`.
    pub open spec fn runs(self, instruction: Instruction, later: Ledger) -> bool {
        match instruction {
            Instruction::Stake { accounts, amount, clock } => self.stakes(
                accounts,
                amount,
                clock,
                later,
            ),
            Instruction::Close { accounts } => self.closes(accounts, later),
            Instruction::Claim { accounts, clock } => self.claims(accounts, clock, later),
            Instruction::Update { accounts } => self.updates(accounts, later),
        }
    }
}

/// An instruction that changes a ledger, with what it is given. A position is closed by an unstake
/// or by an emergency unstake.
pub enum Instruction {
    Stake { accounts: Stake, amount: u64, clock: Result<i64, u64> },
    Close { accounts: Unstake },
    Claim { accounts: ClaimRewards, clock: Result<i64, u64> },
    Update { accounts: UpdatePool },
}

impl Instruction {
    /// What the instruction pays in claimed rewards to the position numbered `id`.
    pub open spec fn claimed(self, id: u64) -> int {
        match self {
            Instruction::Claim { accounts, clock } => match accounts.pending(clock->Ok_0) {
                Some(pending) if accounts.staker.data.position_id == id => {
                    pending.transfer.amount as int
                },
                _ => 0,
            },
            _ => 0,
        }
    }
}

/// The ledgers of a pool in turn, with the instructions between them.
pub struct History {
    pub ledgers: Seq<Ledger>,
    pub instructions: Seq<Instruction>,
}

impl History {
    /// The first ledger is consistent, and each instruction turns one ledger into the next.
    pub open spec fn valid(self) -> bool {
        &&& self.ledgers.len() == self.instructions.len() + 1
        &&& self.ledgers[0].consistent()
        &&& forall|i: int|
            0 <= i < self.instructions.len() ==> (#[trigger] self.ledgers[i]).runs(
                self.instructions[i],
                self.ledgers[i + 1],
            )
    }

    /// The history begins with the opening of the pool.
    pub open spec fn begins_with(self, accounts: InitializePool, reward_pool_amount: u64) -> bool {
        self.ledgers[0] == opened(accounts, reward_pool_amount)
    }

    /// How many of the first `count` instructions are stakes.
    pub open spec fn stakes_among(self, count: nat) -> nat
        decreases count,
    {
        if count == 0 {
            0
        } else {
            self.stakes_among((count - 1) as nat) + if self.instructions[count - 1] is Stake {
                1nat
            } else {
                0
            }
        }
    }

    /// What the first `count` instructions pay in claimed rewards to the position numbered `id`.
    pub open spec fn claimed_among(self, id: u64, count: nat) -> int
        decreases count,
    {
        if count == 0 {
            0
        } else {
            self.claimed_among(id, (count - 1) as nat) + self.instructions[count - 1].claimed(id)
        }
    }
}

/// The ledger of a pool that has just been opened.
pub open spec fn opened(accounts: InitializePool, reward_pool_amount: u64) -> Ledger {
    Ledger {
        key: accounts.pool.key,
        pool: accounts.initialized(reward_pool_amount).pool.data,
        positions: Map::empty(),
    }
}

/// What was fixed when the pool was opened is the same in both.
pub open spec fn same_terms(pool: StakingPool, later: StakingPool) -> bool {
    &&& later.authority == pool.authority
    &&& later.zara_mint == pool.zara_mint
    &&& later.reward_pool_amount == pool.reward_pool_amount
}

proof fn lemma_insert_keeps_staked_below(
    positions: Map<u64, StakerInfo>,
    id: u64,
    position: StakerInfo,
    bound: nat,
)
    requires
        bound <= id || positions.contains_key(id) && positions[id].staked_amount
            == position.staked_amount,
        bound <= u64::MAX,
    ensures
        staked_below(positions.insert(id, position), bound) == staked_below(positions, bound),
    decreases bound,
{
    if bound > 0 {
        lemma_insert_keeps_staked_below(positions, id, position, (bound - 1) as nat);
    }
}

proof fn lemma_remove_lowers_staked_below(positions: Map<u64, StakerInfo>, id: u64, bound: nat)
    requires
        positions.contains_key(id),
        bound <= u64::MAX,
    ensures
        staked_below(positions.remove(id), bound) == staked_below(positions, bound) - if id
            < bound {
            positions[id].staked_amount as int
        } else {
            0
        },
    decreases bound,
{
    if bound > 0 {
        lemma_remove_lowers_staked_below(positions, id, (bound - 1) as nat);
    }
}

proof fn lemma_staked_below_holds_each(positions: Map<u64, StakerInfo>, id: u64, bound: nat)
    requires
        positions.contains_key(id),
        id < bound <= u64::MAX,
    ensures
        positions[id].staked_amount <= staked_below(positions, bound),
    decreases bound,
{
    lemma_staked_below_nonnegative(positions, (bound - 1) as nat);
    if id < bound - 1 {
        lemma_staked_below_holds_each(positions, id, (bound - 1) as nat);
    }
}

proof fn lemma_staked_below_nonnegative(positions: Map<u64, StakerInfo>, bound: nat)
    ensures
        0 <= staked_below(positions, bound),
    decreases bound,
{
    if bound > 0 {
        lemma_staked_below_nonnegative(positions, (bound - 1) as nat);
    }
}

proof fn lemma_staked_below_nothing(bound: nat)
    ensures
        staked_below(Map::empty(), bound) == 0,
    decreases bound,
{
    if bound > 0 {
        lemma_staked_below_nothing((bound - 1) as nat);
    }
}

/// A pool that has been opened is consistent, without positions.
pub proof fn law_an_opened_pool_is_consistent(
    accounts: InitializePool,
    reward_pool_amount: u64,
    clock: Result<i64, u64>,
)
    requires
        initialize_refusal(reward_pool_amount, clock) is None,
    ensures
        opened(accounts, reward_pool_amount).consistent(),
{
    lemma_staked_below_nothing(1);
}

/// A stake keeps the ledger consistent: it opens a well-formed position, under a number that no
/// open position has, and leaves the others as they are.
pub proof fn law_stake_keeps_the_ledger_consistent(
    ledger: Ledger,
    accounts: Stake,
    amount: u64,
    clock: Result<i64, u64>,
)
    requires
        ledger.consistent(),
        accounts.pool.key == ledger.key,
        accounts.pool.data == ledger.pool,
        accounts.refusal(amount, clock) is None,
        accounts.pending(amount, clock->Ok_0).settleable(accounts),
    ensures
        ({
            let settled = accounts.pending(amount, clock->Ok_0).settled(accounts);
            &&& !ledger.positions.contains_key(settled.staker.data.position_id)
            &&& settled.staker.data.well_formed()
            &&& ledger.with_position(settled.pool.data, settled.staker.data).consistent()
            &&& same_terms(ledger.pool, settled.pool.data)
        }),
{
    let settled = accounts.pending(amount, clock->Ok_0).settled(accounts);
    let id = ledger.pool.next_position_id;
    let position = settled.staker.data;
    law_interest_grows(
        position.staked_amount,
        position.stake_start_time,
        position.stake_start_time,
        position.apr,
        position.staked_amount,
        position.stake_start_time,
        position.stake_start_time,
        position.apr,
    );
    lemma_insert_keeps_staked_below(ledger.positions, id, position, id as nat);
}

/// Where the pool is consistent its totals hold every open position, so that an unstake can always
/// be settled; and closing the position, with or without rewards, keeps the ledger consistent.
pub proof fn law_unstake_keeps_the_ledger_consistent(ledger: Ledger, accounts: Unstake)
    requires
        ledger.consistent(),
        accounts.pool.key == ledger.key,
        accounts.pool.data == ledger.pool,
        ledger.holds(accounts.staker.data),
    ensures
        accounts.counted(),
        ledger.without_position(
            accounts.after_closing().pool.data,
            accounts.staker.data,
        ).consistent(),
        !ledger.without_position(accounts.after_closing().pool.data, accounts.staker.data).holds(
            accounts.staker.data,
        ),
        same_terms(ledger.pool, accounts.after_closing().pool.data),
{
    let id = accounts.staker.data.position_id;
    let bound = ledger.pool.next_position_id as nat;
    lemma_staked_below_holds_each(ledger.positions, id, bound);
    lemma_remove_lowers_staked_below(ledger.positions, id, bound);
    assert(ledger.positions.dom().contains(id));
}

/// A claim keeps the ledger consistent: the position stays open, on the same terms.
pub proof fn law_claim_keeps_the_ledger_consistent(
    ledger: Ledger,
    accounts: ClaimRewards,
    clock: Result<i64, u64>,
)
    requires
        ledger.consistent(),
        accounts.pool.key == ledger.key,
        accounts.pool.data == ledger.pool,
        ledger.holds(accounts.staker.data),
        accounts.computable(clock),
        accounts.refusal(clock) is None,
        accounts.pending(clock->Ok_0) matches Some(pending) ==> pending.settleable(accounts),
    ensures
        accounts.pending(clock->Ok_0) matches Some(pending) ==> {
            let settled = pending.settled(accounts);
            &&& settled.pool == accounts.pool
            &&& ledger.with_position(settled.pool.data, settled.staker.data).consistent()
            &&& accounts.staker.data.last_claim_time <= settled.staker.data.last_claim_time
        },
{
    let now = clock->Ok_0;
    if let Some(pending) = accounts.pending(now) {
        let staker = accounts.staker.data;
        let settled = pending.settled(accounts);
        law_lifetime_rewards_are_at_most_the_interest(staker, now);
        lemma_insert_keeps_staked_below(
            ledger.positions,
            staker.position_id,
            settled.staker.data,
            ledger.pool.next_position_id as nat,
        );
        assert(ledger.positions.dom().insert(staker.position_id) =~= ledger.positions.dom());
    }
}

/// Over its whole life a position is paid no more than the interest on its stake: what it has
/// claimed, and what a claim or an unstake pays now, comes to at most the interest since the stake
/// began.
pub proof fn law_lifetime_rewards_are_at_most_the_interest(position: StakerInfo, now: i64)
    requires
        position.well_formed(),
        rewards_defined(position.staked_amount, position.last_claim_time, now, position.apr),
    ensures
        position.last_claim_time <= now,
        position.reward_debt + reward_amount(
            position.staked_amount,
            position.last_claim_time,
            now,
            position.apr,
        ) <= interest(position.staked_amount, position.stake_start_time, now, position.apr),
{
    lemma_defined_rewards_look_back(position, now);
    lemma_rewards_are_at_most_the_interest(
        position.staked_amount,
        position.last_claim_time,
        now,
        position.apr,
    );
    law_splitting_a_span_earns_no_more(
        position.staked_amount,
        position.stake_start_time,
        position.last_claim_time,
        now,
        position.apr,
    );
}

/// Of a well-formed position the rewards are defined only up to a time not before the last claim.
proof fn lemma_defined_rewards_look_back(position: StakerInfo, now: i64)
    requires
        position.well_formed(),
        rewards_defined(position.staked_amount, position.last_claim_time, now, position.apr),
    ensures
        position.last_claim_time <= now,
{
    if now < position.last_claim_time {
        let yearly = position.staked_amount * position.apr;
        let word = elapsed_word(position.last_claim_time, now);
        assert(yearly >= 2) by (nonlinear_arith)
            requires
                yearly == position.staked_amount * position.apr,
                position.staked_amount >= 2,
                position.apr >= 1,
        ;
        assert(yearly * word >= 2 * word) by (nonlinear_arith)
            requires
                yearly >= 2,
                word >= 0,
        ;
    }
}

/// Pausing and resuming keep the ledger consistent.
pub proof fn law_update_keeps_the_ledger_consistent(ledger: Ledger, accounts: UpdatePool)
    requires
        ledger.consistent(),
        accounts.pool.key == ledger.key,
        accounts.pool.data == ledger.pool,
    ensures
        (Ledger { pool: accounts.toggled().pool.data, ..ledger }).consistent(),
        same_terms(ledger.pool, accounts.toggled().pool.data),
{
}

proof fn lemma_fewer_positions_than_numbers(positions: Map<u64, StakerInfo>, bound: nat)
    requires
        positions.dom().finite(),
        1 <= bound <= u64::MAX,
        forall|id: u64| #[trigger] positions.contains_key(id) ==> 1 <= id < bound,
    ensures
        positions.len() < bound,
    decreases bound,
{
    if bound == 1 {
        assert(positions.dom() =~= Set::empty());
    } else {
        let last = (bound - 1) as u64;
        let rest = positions.remove(last);
        assert forall|id: u64| #[trigger] rest.contains_key(id) implies 1 <= id < bound - 1 by {
            assert(positions.contains_key(id));
        }
        lemma_fewer_positions_than_numbers(rest, (bound - 1) as nat);
    }
}

/// Where the ledger is consistent and the stake vault covers all open stakes, an admitted stake can
/// be settled as long as there are numbers left and the end of its lock can be told; and the vault,
/// with the stake in it, covers all stakes again.
pub proof fn law_a_covered_vault_takes_stakes(
    ledger: Ledger,
    accounts: Stake,
    amount: u64,
    clock: Result<i64, u64>,
)
    requires
        ledger.consistent(),
        accounts.pool.data == ledger.pool,
        ledger.pool.total_staked <= accounts.stake_vault.data.amount,
        accounts.refusal(amount, clock) is None,
        ledger.pool.next_position_id < u64::MAX,
        clock->Ok_0 + accounts.pending(amount, clock->Ok_0).tier.lock_period() <= i64::MAX,
    ensures
        accounts.pending(amount, clock->Ok_0).settleable(accounts),
        accounts.pending(amount, clock->Ok_0).settled(accounts).pool.data.total_staked
            <= accounts.stake_vault.data.amount + amount,
{
    lemma_fewer_positions_than_numbers(ledger.positions, ledger.pool.next_position_id as nat);
}

/// Where the ledger is consistent and the stake vault covers all open stakes, no position is
/// refused its stake for want of tokens; and the vault, with the stake taken out, covers the
/// remaining ones.
pub proof fn law_a_covered_vault_returns_every_stake(
    ledger: Ledger,
    accounts: Unstake,
    clock: Result<i64, u64>,
)
    requires
        ledger.consistent(),
        accounts.pool.data == ledger.pool,
        ledger.holds(accounts.staker.data),
        ledger.pool.total_staked <= accounts.stake_vault.data.amount,
    ensures
        accounts.refusal(clock) != Some(Failure::Staking(StakingError::InsufficientStakeVault)),
        accounts.emergency_refusal() is None <==> ledger.pool.paused,
        accounts.after_closing().pool.data.total_staked <= accounts.stake_vault.data.amount
            - accounts.stake_transfer().amount,
{
    lemma_staked_below_holds_each(
        ledger.positions,
        accounts.staker.data.position_id,
        ledger.pool.next_position_id as nat,
    );
}

/// Every instruction keeps the ledger consistent and the terms of the pool, and a number that was
/// given to a position which is no longer open is never open again.
pub proof fn law_every_step_keeps_the_ledger(
    ledger: Ledger,
    instruction: Instruction,
    later: Ledger,
)
    requires
        ledger.consistent(),
        ledger.runs(instruction, later),
    ensures
        later.consistent(),
        same_terms(ledger.pool, later.pool),
        ledger.pool.next_position_id <= later.pool.next_position_id,
        forall|id: u64| #[trigger] ledger.retired(id) ==> later.retired(id),
{
    match instruction {
        Instruction::Stake { accounts, amount, clock } => {
            law_stake_keeps_the_ledger_consistent(ledger, accounts, amount, clock);
        },
        Instruction::Close { accounts } => {
            law_unstake_keeps_the_ledger_consistent(ledger, accounts);
        },
        Instruction::Claim { accounts, clock } => {
            law_claim_keeps_the_ledger_consistent(ledger, accounts, clock);
        },
        Instruction::Update { accounts } => {
            law_update_keeps_the_ledger_consistent(ledger, accounts);
        },
    }
}

/// The number of a position that has just been closed is retired.
pub proof fn law_closing_retires_the_number(ledger: Ledger, accounts: Unstake, later: Ledger)
    requires
        ledger.consistent(),
        ledger.closes(accounts, later),
    ensures
        later.retired(accounts.staker.data.position_id),
{
}

/// However many instructions follow, the ledger stays consistent, on the same terms, and a retired
/// number stays retired.
pub proof fn law_a_retired_number_stays_retired(history: History, i: int, j: int, id: u64)
    requires
        history.valid(),
        0 <= i <= j < history.ledgers.len(),
    ensures
        history.ledgers[j].consistent(),
        same_terms(history.ledgers[i].pool, history.ledgers[j].pool),
        history.ledgers[i].retired(id) ==> history.ledgers[j].retired(id),
    decreases j,
{
    if j > 0 {
        let before = history.ledgers[j - 1];
        assert(before.runs(history.instructions[j - 1], history.ledgers[j - 1 + 1]));
        if i < j {
            law_a_retired_number_stays_retired(history, i, j - 1, id);
        } else {
            law_a_retired_number_stays_retired(history, j - 1, j - 1, id);
        }
        law_every_step_keeps_the_ledger(
            before,
            history.instructions[j - 1],
            history.ledgers[j],
        );
    }
}

/// A position is paid out at most once: of all the closings in the life of a pool, with rewards or
/// without, no two are of the same number.
pub proof fn law_a_position_is_paid_out_once(
    history: History,
    i: int,
    first: Unstake,
    j: int,
    second: Unstake,
)
    requires
        history.valid(),
        0 <= i < history.instructions.len(),
        0 <= j < history.instructions.len(),
        history.instructions[i] == (Instruction::Close { accounts: first }),
        history.instructions[j] == (Instruction::Close { accounts: second }),
        first.staker.data.position_id == second.staker.data.position_id,
    ensures
        i == j,
{
    if i < j {
        lemma_a_closed_position_is_not_held(history, i, first, j);
        assert(history.ledgers[j].runs(history.instructions[j], history.ledgers[j + 1]));
    } else if j < i {
        lemma_a_closed_position_is_not_held(history, j, second, i);
        assert(history.ledgers[i].runs(history.instructions[i], history.ledgers[i + 1]));
    }
}

proof fn lemma_a_closed_position_is_not_held(history: History, i: int, first: Unstake, j: int)
    requires
        history.valid(),
        0 <= i < j < history.ledgers.len(),
        history.instructions[i] == (Instruction::Close { accounts: first }),
    ensures
        !history.ledgers[j].positions.contains_key(first.staker.data.position_id),
{
    let id = first.staker.data.position_id;
    assert(history.ledgers[i].runs(history.instructions[i], history.ledgers[i + 1]));
    law_a_retired_number_stays_retired(history, i, i, id);
    law_closing_retires_the_number(history.ledgers[i], first, history.ledgers[i + 1]);
    law_a_retired_number_stays_retired(history, i + 1, j, id);
}

/// Once a position has been closed, with rewards or without, every later attempt to close it again
/// or to claim for it is refused, whatever the time: nothing is moved. The accounts of the attempt
/// show the ledger as it then is; if there is an open position in them, it is the closed one.
pub proof fn law_a_closed_position_is_refused_ever_after(
    history: History,
    i: int,
    first: Unstake,
    j: int,
    unstake: Unstake,
    claim: ClaimRewards,
    clock: Result<i64, u64>,
)
    requires
        history.valid(),
        0 <= i < j < history.ledgers.len(),
        history.instructions[i] == (Instruction::Close { accounts: first }),
        history.ledgers[j].shows(unstake.pool, unstake.staker_state, unstake.staker.data),
        unstake.staker_state is Open ==> unstake.staker.data.position_id
            == first.staker.data.position_id,
        history.ledgers[j].shows(claim.pool, claim.staker_state, claim.staker.data),
        claim.staker_state is Open ==> claim.staker.data.position_id
            == first.staker.data.position_id,
    ensures
        unstake.staker_state !is Open,
        unstake.admitted_decision(clock) == Some(
            Err::<(u8, UnstakeStep), Failure>(state_violation(unstake.staker_state)->0),
        ),
        unstake.admitted_emergency_decision() == Some(
            Err::<(u8, PendingEmergencyUnstake), Failure>(state_violation(unstake.staker_state)->0),
        ),
        claim.staker_state !is Open,
        claim.admitted_decision(clock) == Some(
            Err::<(u8, Option<PendingClaim>), Failure>(state_violation(claim.staker_state)->0),
        ),
{
    lemma_a_closed_position_is_not_held(history, i, first, j);
}

/// Positions are numbered in the order of the stakes, from one on: the n-th stake since the pool was
/// opened opens the position numbered n, and no number is given twice.
pub proof fn law_positions_are_numbered_in_order(
    history: History,
    accounts: InitializePool,
    reward_pool_amount: u64,
    count: nat,
)
    requires
        history.valid(),
        history.begins_with(accounts, reward_pool_amount),
        count <= history.instructions.len(),
    ensures
        history.ledgers[count as int].pool.next_position_id == 1 + history.stakes_among(count),
        count < history.instructions.len() ==> (history.instructions[count as int] matches
            Instruction::Stake { accounts, amount, clock } ==> {
            let position = accounts.pending(amount, clock->Ok_0).settled(accounts).staker.data;
            &&& position.position_id == history.stakes_among(count + 1)
            &&& history.ledgers[count as int + 1].holds(position)
            &&& !history.ledgers[count as int].positions.contains_key(position.position_id)
        }),
    decreases count,
{
    let k = count as int;
    law_a_retired_number_stays_retired(history, k, k, 0);
    if count > 0 {
        law_positions_are_numbered_in_order(
            history,
            accounts,
            reward_pool_amount,
            (count - 1) as nat,
        );
        assert(history.ledgers[k - 1].runs(history.instructions[k - 1], history.ledgers[k - 1 + 1]));
    }
    if count < history.instructions.len() {
        assert(history.ledgers[k].runs(history.instructions[k], history.ledgers[k + 1]));
    }
}

/// What an open position has booked as claimed is exactly what all the claims since the pool was
/// opened have paid it, and at most the interest since its stake began.
pub proof fn law_all_claims_of_a_position_are_booked(
    history: History,
    accounts: InitializePool,
    reward_pool_amount: u64,
    count: nat,
    id: u64,
)
    requires
        history.valid(),
        history.begins_with(accounts, reward_pool_amount),
        count <= history.instructions.len(),
        history.ledgers[count as int].positions.contains_key(id),
    ensures
        ({
            let position = history.ledgers[count as int].positions[id];
            &&& position.reward_debt == history.claimed_among(id, count)
            &&& history.claimed_among(id, count) <= interest(
                position.staked_amount,
                position.stake_start_time,
                position.last_claim_time,
                position.apr,
            )
        }),
{
    lemma_claims_are_booked(history, accounts, reward_pool_amount, count, id);
    law_a_retired_number_stays_retired(history, count as int, count as int, id);
}

/// All that a position is paid in rewards in its life, by every claim since the pool was opened and
/// by the unstake that ends it, comes to at most the interest on its stake up to then.
pub proof fn law_a_life_pays_at_most_the_interest(
    history: History,
    accounts: InitializePool,
    reward_pool_amount: u64,
    count: nat,
    unstake: Unstake,
    now: i64,
)
    requires
        history.valid(),
        history.begins_with(accounts, reward_pool_amount),
        count <= history.instructions.len(),
        history.ledgers[count as int].holds(unstake.staker.data),
        unstake.refusal(Ok(now)) is None,
        unstake.computable(Ok(now)),
    ensures
        history.claimed_among(unstake.staker.data.position_id, count) + unstake.rewards(now)
            <= interest(
            unstake.staker.data.staked_amount,
            unstake.staker.data.stake_start_time,
            now,
            unstake.staker.data.apr,
        ),
{
    let position = unstake.staker.data;
    let k = count as int;
    law_a_retired_number_stays_retired(history, k, k, position.position_id);
    lemma_claims_are_booked(history, accounts, reward_pool_amount, count, position.position_id);
    law_lifetime_rewards_are_at_most_the_interest(position, now);
}

proof fn lemma_claims_are_booked(
    history: History,
    accounts: InitializePool,
    reward_pool_amount: u64,
    count: nat,
    id: u64,
)
    requires
        history.valid(),
        history.begins_with(accounts, reward_pool_amount),
        count <= history.instructions.len(),
    ensures
        history.ledgers[count as int].positions.contains_key(id)
            ==> history.ledgers[count as int].positions[id].reward_debt == history.claimed_among(
            id,
            count,
        ),
        history.ledgers[count as int].pool.next_position_id <= id ==> history.claimed_among(
            id,
            count,
        ) == 0,
    decreases count,
{
    if count > 0 {
        let k = count as int;
        lemma_claims_are_booked(history, accounts, reward_pool_amount, (count - 1) as nat, id);
        law_a_retired_number_stays_retired(history, k - 1, k - 1, id);
        assert(history.ledgers[k - 1].runs(history.instructions[k - 1], history.ledgers[k - 1 + 1]));
    }
}

} // verus!
