//! The allocation policy: liquid target and baseline, per-asset weights,
//! reward share, and the rules by which operations settle.

use vstd::prelude::*;
use crate::error::SaturnFundError;
use crate::state::accounts::Pubkey;

verus! {

/// The weight of one asset: the percentage of the fund's total value that
/// should be held in `token_mint`.
#[derive(Clone, Copy, Debug, PartialEq, Eq, Structural)]
pub struct TokenAllocation {
    pub token_mint: Pubkey,
    pub percentage: u8,
}

/// What the engine does when settlement would leave the liquid reserve under
/// the baseline.
#[derive(Clone, Copy, Debug, PartialEq, Eq, Structural)]
pub enum BaselineEnforcement {
    /// Refuse the operation.
    Block,
    /// Go on, and report the amount that has to be moved into the reserve in
    /// the same transaction.
    TopUp,
}

/// How operations settle.
#[derive(Clone, Copy, Debug, PartialEq, Eq, Structural)]
pub struct SettlementRules {
    /// The percentage of a redemption shortfall that is raised by selling
    /// holdings; the rest comes from the fund's other reserve assets.
    pub shortfall_sale_percentage: u8,
    /// The percentage of a transferred amount that is kept as a fee.
    pub transfer_fee_percentage: u8,
    /// What happens under the baseline.
    pub baseline_enforcement: BaselineEnforcement,
}

impl SettlementRules {
    /// Both percentages are at most 100.
    pub open spec fn in_range(self) -> bool {
        self.shortfall_sale_percentage <= 100 && self.transfer_fee_percentage <= 100
    }
}

/// Whether the weights are ordered by strictly ascending key, so that no
/// asset has two weights.
pub open spec fn ascending_weights(s: Seq<TokenAllocation>) -> bool {
    forall|i: int, j: int| 0 <= i < j < s.len() ==> s[i].token_mint.rank() < s[j].token_mint.rank()
}

/// The sum of the weights.
pub open spec fn weights_sum(s: Seq<TokenAllocation>) -> nat
    decreases s.len(),
{
    if s.len() == 0 {
        0
    } else {
        weights_sum(s.drop_last()) + s.last().percentage as nat
    }
}

/// The weight configured for `mint`, if there is one.
pub open spec fn find_weight(s: Seq<TokenAllocation>, mint: Pubkey) -> Option<u8>
    decreases s.len(),
{
    if s.len() == 0 {
        None
    } else if s[0].token_mint == mint {
        Some(s[0].percentage)
    } else {
        find_weight(s.drop_first(), mint)
    }
}

/// The sum over a prefix grows by the weight that extends it.
pub proof fn lemma_weights_step(s: Seq<TokenAllocation>, i: int)
    requires
        0 <= i < s.len(),
    ensures
        weights_sum(s.subrange(0, i + 1)) == weights_sum(s.subrange(0, i)) + s[i].percentage,
{
    assert(s.subrange(0, i + 1).drop_last() =~= s.subrange(0, i));
}

/// No prefix sums to more than the whole.
pub proof fn lemma_prefix_weights_le(s: Seq<TokenAllocation>, i: int)
    requires
        0 <= i <= s.len(),
    ensures
        weights_sum(s.subrange(0, i)) <= weights_sum(s),
    decreases s.len(),
{
    if i == s.len() {
        assert(s.subrange(0, i) =~= s);
    } else {
        assert(s.drop_last().subrange(0, i) =~= s.subrange(0, i));
        lemma_prefix_weights_le(s.drop_last(), i);
    }
}

/// No single weight is above the sum of all.
pub proof fn lemma_weight_le_sum(s: Seq<TokenAllocation>, i: int)
    requires
        0 <= i < s.len(),
    ensures
        s[i].percentage <= weights_sum(s),
{
    lemma_weights_step(s, i);
    lemma_prefix_weights_le(s, i + 1);
}

/// Checks that the weights name each asset once, in ascending order of key.
pub fn is_ascending(weights: &Vec<TokenAllocation>) -> (b: bool)
    ensures
        b == ascending_weights(weights@),
{
    let n: usize = weights.len();
    let mut i: usize = 1;
    while i < n
        invariant
            n == weights@.len(),
            1 <= i,
            forall|a: int, b: int|
                0 <= a < b < i && b < n ==> weights@[a].token_mint.rank() < weights@[b].token_mint.rank(),
        decreases n - i,
    {
        if !weights[i - 1].token_mint.precedes(&weights[i].token_mint) {
            return false;
        }
        assert forall|a: int, b: int| 0 <= a < b < i + 1 && b < n implies weights@[a].token_mint.rank()
            < weights@[b].token_mint.rank() by {
            if b == i && a < i - 1 {
                assert(weights@[a].token_mint.rank() < weights@[i - 1].token_mint.rank());
            }
        }
        i = i + 1;
    }
    true
}

/// Checks that the weights together are at most 100.
pub fn sums_within_whole(weights: &Vec<TokenAllocation>) -> (b: bool)
    ensures
        b == (weights_sum(weights@) <= 100),
{
    let n: usize = weights.len();
    let mut sum: u64 = 0;
    let mut i: usize = 0;
    assert(weights@.subrange(0, 0) =~= Seq::<TokenAllocation>::empty());
    while i < n
        invariant
            n == weights@.len(),
            i <= n,
            sum == weights_sum(weights@.subrange(0, i as int)),
            sum <= 100,
        decreases n - i,
    {
        proof {
            lemma_weights_step(weights@, i as int);
            lemma_prefix_weights_le(weights@, i as int + 1);
        }
        sum = sum + weights[i].percentage as u64;
        if sum > 100 {
            return false;
        }
        i = i + 1;
    }
    assert(weights@.subrange(0, n as int) =~= weights@);
    true
}

/// What an allocation policy holds.
pub struct AllocationView {
    pub holding_tokens: Seq<TokenAllocation>,
    pub target_amount_percentage: u8,
    pub baseline_amount_percentage: u8,
    pub liquidity_pool_reward_percentage: u8,
    pub liquidity_pool_reward_destination: Pubkey,
    pub rules: SettlementRules,
}

impl AllocationView {
    /// The policy's invariant: liquid target and baseline together are at
    /// most 100, and so are the weights together.
    pub open spec fn valid(self) -> bool {
        &&& self.target_amount_percentage + self.baseline_amount_percentage <= 100
        &&& weights_sum(self.holding_tokens) <= 100
    }

    /// What every policy value satisfies by construction: the weights name
    /// each asset once, in ascending order, and the reward share and the
    /// settlement percentages are at most 100.
    pub open spec fn wf(self) -> bool {
        &&& ascending_weights(self.holding_tokens)
        &&& self.liquidity_pool_reward_percentage <= 100
        &&& self.rules.in_range()
    }

    /// The weight configured for `mint`, if there is one.
    pub open spec fn weight_of(self, mint: Pubkey) -> Option<u8> {
        find_weight(self.holding_tokens, mint)
    }

    /// The policy with its three steering percentages replaced.
    pub open spec fn with_percentages(self, target: u8, baseline: u8, reward: u8) -> AllocationView {
        AllocationView {
            target_amount_percentage: target,
            baseline_amount_percentage: baseline,
            liquidity_pool_reward_percentage: reward,
            ..self
        }
    }
}

/// The stored policy as contracts see it: its view, or nothing where no policy
/// has been stored yet.
pub open spec fn policy_view(allocation: Option<Allocation>) -> Option<AllocationView> {
    match allocation {
        Some(a) => Some(a@),
        None => None,
    }
}

/// The fund's allocation policy. A value of this type is a candidate: it
/// takes effect only once it has been validated and stored.
#[derive(Debug)]
pub struct Allocation {
    holding_tokens: Vec<TokenAllocation>,
    target_amount_percentage: u8,
    baseline_amount_percentage: u8,
    liquidity_pool_reward_percentage: u8,
    liquidity_pool_reward_destination: Pubkey,
    rules: SettlementRules,
}

impl View for Allocation {
    type V = AllocationView;

    closed spec fn view(&self) -> AllocationView {
        AllocationView {
            holding_tokens: self.holding_tokens@,
            target_amount_percentage: self.target_amount_percentage,
            baseline_amount_percentage: self.baseline_amount_percentage,
            liquidity_pool_reward_percentage: self.liquidity_pool_reward_percentage,
            liquidity_pool_reward_destination: self.liquidity_pool_reward_destination,
            rules: self.rules,
        }
    }
}

impl Allocation {
    #[verifier::type_invariant]
    closed spec fn inv(self) -> bool {
        self@.wf()
    }

    /// What `new` answers for the given parts.
    pub open spec fn new_spec(
        holding_tokens: Seq<TokenAllocation>,
        target_amount_percentage: u8,
        baseline_amount_percentage: u8,
        liquidity_pool_reward_percentage: u8,
        liquidity_pool_reward_destination: Pubkey,
        rules: SettlementRules,
    ) -> Result<AllocationView, SaturnFundError> {
        if !ascending_weights(holding_tokens) {
            Err(SaturnFundError::InvalidAccountData)
        } else if liquidity_pool_reward_percentage > 100 || !rules.in_range() {
            Err(SaturnFundError::InvalidPercentage)
        } else {
            Ok(
                AllocationView {
                    holding_tokens,
                    target_amount_percentage,
                    baseline_amount_percentage,
                    liquidity_pool_reward_percentage,
                    liquidity_pool_reward_destination,
                    rules,
                },
            )
        }
    }

    /// Builds a candidate policy. Weights that do not name each asset once in
    /// ascending order of key are refused with `InvalidAccountData`; after
    /// that, a reward share or a settlement percentage above 100 is refused
    /// with `InvalidPercentage`.
    pub fn new(
        holding_tokens: Vec<TokenAllocation>,
        target_amount_percentage: u8,
        baseline_amount_percentage: u8,
        liquidity_pool_reward_percentage: u8,
        liquidity_pool_reward_destination: Pubkey,
        rules: SettlementRules,
    ) -> (r: Result<Allocation, SaturnFundError>)
        ensures
            match r {
                Ok(a) => Ok::<AllocationView, SaturnFundError>(a@),
                Err(e) => Err(e),
            } == Self::new_spec(
                holding_tokens@,
                target_amount_percentage,
                baseline_amount_percentage,
                liquidity_pool_reward_percentage,
                liquidity_pool_reward_destination,
                rules,
            ),
    {
        if !is_ascending(&holding_tokens) {
            return Err(SaturnFundError::InvalidAccountData);
        }
        if liquidity_pool_reward_percentage > 100 || rules.shortfall_sale_percentage > 100
            || rules.transfer_fee_percentage > 100 {
            return Err(SaturnFundError::InvalidPercentage);
        }
        Ok(
            Allocation {
                holding_tokens,
                target_amount_percentage,
                baseline_amount_percentage,
                liquidity_pool_reward_percentage,
                liquidity_pool_reward_destination,
                rules,
            },
        )
    }

    /// The per-asset weights, in ascending order of key.
    pub fn holding_tokens(&self) -> (r: &Vec<TokenAllocation>)
        ensures
            r@ == self@.holding_tokens,
            self@.wf(),
    {
        proof {
            use_type_invariant(self);
        }
        &self.holding_tokens
    }

    /// The percentage of the fund's value that the liquid reserve is steered
    /// toward.
    pub fn target_amount_percentage(&self) -> (r: u8)
        ensures
            r == self@.target_amount_percentage,
    {
        self.target_amount_percentage
    }

    /// The percentage of the fund's value that the liquid reserve must not
    /// fall under.
    pub fn baseline_amount_percentage(&self) -> (r: u8)
        ensures
            r == self@.baseline_amount_percentage,
    {
        self.baseline_amount_percentage
    }

    /// The percentage of collected rewards that goes to the reward
    /// destination.
    pub fn liquidity_pool_reward_percentage(&self) -> (r: u8)
        ensures
            r == self@.liquidity_pool_reward_percentage,
            r <= 100,
    {
        proof {
            use_type_invariant(self);
        }
        self.liquidity_pool_reward_percentage
    }

    /// Where the reward share is sent.
    pub fn liquidity_pool_reward_destination(&self) -> (r: Pubkey)
        ensures
            r == self@.liquidity_pool_reward_destination,
    {
        self.liquidity_pool_reward_destination
    }

    /// The settlement rules.
    pub fn rules(&self) -> (r: SettlementRules)
        ensures
            r == self@.rules,
            r.in_range(),
    {
        proof {
            use_type_invariant(self);
        }
        self.rules
    }

    /// The weight configured for `mint`, if there is one.
    pub fn weight_of(&self, mint: &Pubkey) -> (r: Option<u8>)
        ensures
            r == self@.weight_of(*mint),
    {
        let n: usize = self.holding_tokens.len();
        let mut i: usize = 0;
        assert(self.holding_tokens@.subrange(0, n as int) =~= self.holding_tokens@);
        while i < n
            invariant
                n == self.holding_tokens@.len(),
                i <= n,
                find_weight(self.holding_tokens@, *mint) == find_weight(
                    self.holding_tokens@.subrange(i as int, n as int),
                    *mint,
                ),
            decreases n - i,
        {
            let w: TokenAllocation = self.holding_tokens[i];
            if w.token_mint == *mint {
                return Some(w.percentage);
            }
            assert(self.holding_tokens@.subrange(i as int, n as int).drop_first()
                =~= self.holding_tokens@.subrange(i as int + 1, n as int));
            i = i + 1;
        }
        None
    }

    /// Whether the weights together are at most 100.
    pub fn weights_within_whole(&self) -> (b: bool)
        ensures
            b == (weights_sum(self@.holding_tokens) <= 100),
    {
        sums_within_whole(&self.holding_tokens)
    }

    /// Replaces the three steering percentages. A reward share above 100 is
    /// refused with `InvalidPercentage`, and nothing changes.
    pub fn set_percentages(&mut self, target: u8, baseline: u8, reward: u8) -> (r: Result<
        (),
        SaturnFundError,
    >)
        ensures
            reward <= 100 <==> r is Ok,
            r is Ok ==> final(self)@ == old(self)@.with_percentages(target, baseline, reward),
            r matches Err(e) ==> e == SaturnFundError::InvalidPercentage && final(self)@ == old(self)@,
    {
        proof {
            use_type_invariant(&*self);
        }
        if reward > 100 {
            return Err(SaturnFundError::InvalidPercentage);
        }
        self.target_amount_percentage = target;
        self.baseline_amount_percentage = baseline;
        self.liquidity_pool_reward_percentage = reward;
        Ok(())
    }
}

} // verus!
