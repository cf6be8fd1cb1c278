//! The state that the Solido program keeps on chain, and the rules that read it.
use vstd::prelude::*;
use crate::account_map::{
    AccountMap, AccountSet, map_required_bytes, SET_ENTRY_BYTES, VALIDATOR_ENTRY_BYTES,
};
use crate::error::LidoError;
use crate::pubkey::{
    create_program_address, find_program_address, found_program_address, le_bytes,
    program_address, try_find_program_address, u64_le_seed, Pubkey, zero_key,
};
use crate::token::{scaled, Lamports, Rational, StLamports};

verus! {

/// Version number written into new Solido instances.
pub const LIDO_VERSION: u8 = 0;

/// Constant size of header size = 1 version, 2 public keys, 1 u64, 2 u8
pub const LIDO_CONSTANT_HEADER_SIZE: usize = 1 + 2 * 32 + 8 + 2;

/// Constant size of fee struct: 2 public keys + 3 u32
pub const LIDO_CONSTANT_FEE_SIZE: usize = 2 * 32 + 3 * 4;

/// Constant size of Lido
pub const LIDO_CONSTANT_SIZE: usize = LIDO_CONSTANT_HEADER_SIZE + LIDO_CONSTANT_FEE_SIZE;

/// The enrolled validators, keyed by vote account.
pub type Validators = AccountMap<Validator>;

/// The maintainers, who may run the maintenance operations.
pub type Maintainers = AccountSet;

/// Seed of the reserve account, the account where deposited SOL waits.
pub open spec fn reserve_authority_seed() -> Seq<u8> {
    seq![114u8, 101u8, 115u8, 101u8, 114u8, 118u8, 101u8, 95u8, 97u8, 117u8, 116u8, 104u8, 111u8, 114u8, 105u8, 116u8, 121u8]
}

/// Seed of the stake accounts that Solido creates for a validator.
pub open spec fn validator_stake_account_seed() -> Seq<u8> {
    seq![118u8, 97u8, 108u8, 105u8, 100u8, 97u8, 116u8, 111u8, 114u8, 95u8, 115u8, 116u8, 97u8, 107u8, 101u8, 95u8, 97u8, 99u8, 99u8, 111u8, 117u8, 110u8, 116u8]
}

/// The bytes `reserve_authority`.
pub fn reserve_authority_seed_bytes() -> (v: Vec<u8>)
    ensures
        v@ == reserve_authority_seed(),
{
    let v: Vec<u8> = vec![114u8, 101u8, 115u8, 101u8, 114u8, 118u8, 101u8, 95u8, 97u8, 117u8, 116u8, 104u8, 111u8, 114u8, 105u8, 116u8, 121u8];
    assert(v@ =~= reserve_authority_seed());
    v
}

/// The bytes `validator_stake_account`.
pub fn validator_stake_account_seed_bytes() -> (v: Vec<u8>)
    ensures
        v@ == validator_stake_account_seed(),
{
    let v: Vec<u8> = vec![118u8, 97u8, 108u8, 105u8, 100u8, 97u8, 116u8, 111u8, 114u8, 95u8, 115u8, 116u8, 97u8, 107u8, 101u8, 95u8, 97u8, 99u8, 99u8, 111u8, 117u8, 110u8, 116u8];
    assert(v@ =~= validator_stake_account_seed());
    v
}

/// The seeds of the `seed`-th stake account of a validator.
pub open spec fn stake_account_seeds(solido_account: Seq<u8>, validator_vote_account: Seq<u8>, seed: u64) -> Seq<Seq<u8>> {
    seq![solido_account, validator_vote_account, validator_stake_account_seed(), le_bytes(seed)]
}

/// The seeds of the reserve account of a Solido instance.
pub open spec fn reserve_account_seeds(solido_address: Seq<u8>, bump_seed: u8) -> Seq<Seq<u8>> {
    seq![solido_address, reserve_authority_seed(), seq![bump_seed]]
}

/// A validator enrolled in Solido.
#[derive(Clone, Copy, Debug, PartialEq, Eq)]
pub struct Validator {
    /// Fees in stSOL that the validator is entitled too, but hasn't claimed yet.
    pub fee_credit: StLamports,
    /// SPL token account denominated in stSOL to transfer fees to when claiming them.
    pub fee_address: Pubkey,
    /// Start (inclusive) of the seed range for currently active stake accounts.
    pub stake_accounts_seed_begin: u64,
    /// End (exclusive) of the seed range for currently active stake accounts.
    pub stake_accounts_seed_end: u64,
    /// Sum of the balances of the stake accounts.
    pub stake_accounts_balance: Lamports,
}

impl Validator {
    /// A validator with no credit, no stake accounts and no stake.
    pub fn new(fee_address: Pubkey) -> (v: Validator)
        ensures
            v.fee_address == fee_address,
            v.fee_credit.0 == 0,
            v.stake_accounts_seed_begin == 0,
            v.stake_accounts_seed_end == 0,
            v.stake_accounts_balance.0 == 0,
    {
        Validator {
            fee_address,
            fee_credit: StLamports(0),
            stake_accounts_seed_begin: 0,
            stake_accounts_seed_end: 0,
            stake_accounts_balance: Lamports(0),
        }
    }

    /// The address and bump seed of the `seed`-th stake account of the
    /// validator with vote account `validator_vote_account`. Where no bump
    /// seed yields an address the derivation panics; `requires` leaves that out.
    pub fn find_stake_account_address(
        program_id: &Pubkey,
        solido_account: &Pubkey,
        validator_vote_account: &Pubkey,
        seed: u64,
    ) -> (res: (Pubkey, u8))
        requires
            found_program_address(
                stake_account_seeds(solido_account@, validator_vote_account@, seed),
                program_id@,
            ) is Some,
        ensures
            found_program_address(stake_account_seeds(solido_account@, validator_vote_account@, seed), program_id@)
                == Some((res.0@, res.1)),
    {
        let seeds = Self::stake_account_seed_list(solido_account, validator_vote_account, seed);
        find_program_address(&seeds, program_id)
    }

    /// As [`Validator::find_stake_account_address`], but `None` where no bump
    /// seed yields an address.
    pub fn try_find_stake_account_address(
        program_id: &Pubkey,
        solido_account: &Pubkey,
        validator_vote_account: &Pubkey,
        seed: u64,
    ) -> (res: Option<(Pubkey, u8)>)
        ensures
            match res {
                Some((key, bump)) => found_program_address(
                    stake_account_seeds(solido_account@, validator_vote_account@, seed),
                    program_id@,
                ) == Some((key@, bump)),
                None => found_program_address(
                    stake_account_seeds(solido_account@, validator_vote_account@, seed),
                    program_id@,
                ) is None,
            },
    {
        let seeds = Self::stake_account_seed_list(solido_account, validator_vote_account, seed);
        match try_find_program_address(&seeds, program_id) {
            Some(_) => Some(
                Self::find_stake_account_address(program_id, solido_account, validator_vote_account, seed),
            ),
            None => None,
        }
    }

    fn stake_account_seed_list(solido_account: &Pubkey, validator_vote_account: &Pubkey, seed: u64) -> (seeds: Vec<Vec<u8>>)
        ensures
            seeds.deep_view() == stake_account_seeds(solido_account@, validator_vote_account@, seed),
    {
        let mut seeds: Vec<Vec<u8>> = Vec::new();
        seeds.push(solido_account.to_seed());
        seeds.push(validator_vote_account.to_seed());
        seeds.push(validator_stake_account_seed_bytes());
        seeds.push(u64_le_seed(seed));
        assert(seeds.deep_view()[0] =~= solido_account@);
        assert(seeds.deep_view()[1] =~= validator_vote_account@);
        assert(seeds.deep_view()[2] =~= validator_stake_account_seed());
        assert(seeds.deep_view()[3] =~= le_bytes(seed));
        assert(seeds.deep_view() =~= stake_account_seeds(solido_account@, validator_vote_account@, seed));
        seeds
    }
}

/// Determines how fees are split up among these parties, represented as the
/// number of parts of the total. For example, if each party has 1 part, then
/// they all get an equal share of the fee.
#[derive(Clone, Copy, Debug, Default, PartialEq, Eq, Structural)]
pub struct FeeDistribution {
    pub treasury_fee: u32,
    pub validation_fee: u32,
    pub developer_fee: u32,
}

/// The total number of parts.
pub open spec fn fee_parts(fd: FeeDistribution) -> int {
    fd.treasury_fee + fd.validation_fee + fd.developer_fee
}

impl FeeDistribution {
    /// The total number of parts. It cannot overflow: the three `u32` parts
    /// are added as `u64`.
    pub fn sum(&self) -> (s: u64)
        ensures
            s == fee_parts(*self),
    {
        self.treasury_fee as u64 + self.validation_fee as u64 + self.developer_fee as u64
    }

    /// The treasury's share of the fee.
    pub fn treasury_fraction(&self) -> (r: Rational)
        ensures
            r.numerator == self.treasury_fee,
            r.denominator == fee_parts(*self),
    {
        Rational { numerator: self.treasury_fee as u64, denominator: self.sum() }
    }

    /// The validators' share of the fee, together.
    pub fn validation_fraction(&self) -> (r: Rational)
        ensures
            r.numerator == self.validation_fee,
            r.denominator == fee_parts(*self),
    {
        Rational { numerator: self.validation_fee as u64, denominator: self.sum() }
    }
}

/// Specifies the fee recipients, accounts that should be created by Lido's minter
#[derive(Clone, Copy, Debug, PartialEq, Eq)]
pub struct FeeRecipients {
    pub treasury_account: Pubkey,
    pub developer_account: Pubkey,
}

/// How a reward is split: what the treasury gets, what each validator gets,
/// and what the developer gets.
#[derive(Clone, Copy, Debug, PartialEq, Eq, Structural)]
pub struct Fees {
    pub treasury_amount: StLamports,
    pub reward_per_validator: StLamports,
    pub developer_amount: StLamports,
}

/// The split of `reward` among the treasury, `num_validators` validators and
/// the developer. Treasury and validators get their share rounded down; the
/// validators' share is split evenly, rounded down; the developer gets the
/// rest. `None` where there are no parts or no validators.
pub open spec fn fee_split(fd: FeeDistribution, num_validators: u64, reward: u64) -> Option<Fees> {
    let parts = fee_parts(fd);
    if parts == 0 || num_validators == 0 {
        None
    } else {
        let treasury = reward * fd.treasury_fee / parts;
        let validation_target = reward * fd.validation_fee / parts;
        let per_validator = validation_target / (num_validators as int);
        let developer = reward - treasury - per_validator * num_validators;
        Some(
            Fees {
                treasury_amount: StLamports(treasury as u64),
                reward_per_validator: StLamports(per_validator as u64),
                developer_amount: StLamports(developer as u64),
            },
        )
    }
}

/// Bounds of the shares: each rounded-down share is at most its exact share,
/// and the two shares together do not exceed the reward.
proof fn lemma_shares_bounded(reward: int, t: int, v: int, d: int)
    requires
        reward >= 0,
        t >= 0,
        v >= 0,
        d >= 0,
        t + v + d > 0,
    ensures
        0 <= reward * t / (t + v + d),
        0 <= reward * v / (t + v + d),
        reward * t / (t + v + d) + reward * v / (t + v + d) <= reward,
        (reward * t / (t + v + d)) * (t + v + d) <= reward * t,
        (reward * v / (t + v + d)) * (t + v + d) <= reward * v,
{
    let s = t + v + d;
    let qt = reward * t / s;
    let qv = reward * v / s;
    assert(0 <= qt && qt * s <= reward * t) by (nonlinear_arith)
        requires
            reward >= 0,
            t >= 0,
            s > 0,
            qt == reward * t / s,
    ;
    assert(0 <= qv && qv * s <= reward * v) by (nonlinear_arith)
        requires
            reward >= 0,
            v >= 0,
            s > 0,
            qv == reward * v / s,
    ;
    assert(qt + qv <= reward) by (nonlinear_arith)
        requires
            qt * s <= reward * t,
            qv * s <= reward * v,
            s == t + v + d,
            d >= 0,
            reward >= 0,
            s > 0,
    ;
}

/// Splits the fee on `reward` among the treasury, `num_validators` validators
/// and the developer (see [`fee_split`]).
pub fn distribute_fees(fee_distribution: &FeeDistribution, num_validators: u64, reward: Lamports) -> (res: Option<Fees>)
    ensures
        res == fee_split(*fee_distribution, num_validators, reward.0),
{
    let amount = StLamports(reward.0);
    proof {
        if fee_parts(*fee_distribution) > 0 {
            lemma_shares_bounded(
                reward.0 as int,
                fee_distribution.treasury_fee as int,
                fee_distribution.validation_fee as int,
                fee_distribution.developer_fee as int,
            );
        }
    }
    let treasury_amount = match amount.mul_rational(fee_distribution.treasury_fraction()) {
        Some(x) => x,
        None => return None,
    };
    // The actual amount that goes to validation can be a tiny bit lower
    // than the target amount, when the number of validators does not divide
    // the target amount. The loss is at most `num_validators` stLamports.
    let validation_target = match amount.mul_rational(fee_distribution.validation_fraction()) {
        Some(x) => x,
        None => return None,
    };
    let reward_per_validator = match validation_target.checked_div(num_validators) {
        Some(x) => x,
        None => return None,
    };
    assert(reward_per_validator.0 * num_validators <= validation_target.0) by (nonlinear_arith)
        requires
            num_validators > 0,
            reward_per_validator.0 == validation_target.0 / num_validators,
    ;
    let validation_actual = match reward_per_validator.checked_mul(num_validators) {
        Some(x) => x,
        None => return None,
    };
    // The leftovers are for the developer. Rather than computing the fraction,
    // we compute the leftovers, to ensure that the output amount equals the
    // input amount.
    let after_treasury = match amount.checked_sub(treasury_amount) {
        Some(x) => x,
        None => return None,
    };
    let developer_amount = match after_treasury.checked_sub(validation_actual) {
        Some(x) => x,
        None => return None,
    };
    Some(Fees { treasury_amount, reward_per_validator, developer_amount })
}


/// The state of one Solido instance.
#[derive(Clone, Debug, PartialEq, Eq)]
pub struct Lido {
    /// Version number for the Lido
    pub lido_version: u8,
    /// Manager of the Lido program, able to execute administrative functions
    pub manager: Pubkey,
    /// The SPL Token mint address for stSOL.
    pub st_sol_mint: Pubkey,
    /// Total Lido tokens in circulation
    pub st_sol_total_shares: StLamports,
    /// Bump seeds for signing messages on behalf of the authority
    pub sol_reserve_authority_bump_seed: u8,
    pub deposit_authority_bump_seed: u8,
    /// Fees
    pub fee_distribution: FeeDistribution,
    pub fee_recipients: FeeRecipients,
    /// Map of enrolled validators, maps their vote account to `Validator` details.
    pub validators: Validators,
    /// The set of maintainers.
    ///
    /// Maintainers are granted low security risk privileges. Maintainers are
    /// expected to run the maintenance daemon, that invokes the maintenance
    /// operations. These are gated on the signer being present in this set.
    pub maintainers: Maintainers,
}

impl Default for Lido {
    /// An unset instance: all keys zero, all amounts and fees zero, no
    /// validators and no maintainers.
    fn default() -> (l: Lido)
        ensures
            l.lido_version == 0,
            l.manager@ == zero_key(),
            l.st_sol_mint@ == zero_key(),
            l.st_sol_total_shares.0 == 0,
            l.sol_reserve_authority_bump_seed == 0,
            l.deposit_authority_bump_seed == 0,
            l.fee_distribution == (FeeDistribution { treasury_fee: 0, validation_fee: 0, developer_fee: 0 }),
            l.fee_recipients.treasury_account@ == zero_key(),
            l.fee_recipients.developer_account@ == zero_key(),
            l.validators.entries@.len() == 0,
            l.validators.maximum_entries == 0,
            l.maintainers.entries@.len() == 0,
            l.maintainers.maximum_entries == 0,
    {
        Lido {
            lido_version: 0,
            manager: Pubkey::zero(),
            st_sol_mint: Pubkey::zero(),
            st_sol_total_shares: StLamports(0),
            sol_reserve_authority_bump_seed: 0,
            deposit_authority_bump_seed: 0,
            fee_distribution: FeeDistribution { treasury_fee: 0, validation_fee: 0, developer_fee: 0 },
            fee_recipients: FeeRecipients { treasury_account: Pubkey::zero(), developer_account: Pubkey::zero() },
            validators: AccountMap::new(0),
            maintainers: AccountMap::new(0),
        }
    }
}

/// Serialized size of a Solido instance with room for `max_validators`
/// validators and `max_maintainers` maintainers.
pub open spec fn lido_packed_size(max_validators: int, max_maintainers: int) -> int {
    LIDO_CONSTANT_SIZE + map_required_bytes(VALIDATOR_ENTRY_BYTES as int, max_validators)
        + map_required_bytes(SET_ENTRY_BYTES as int, max_maintainers)
}

/// The stSOL minted for a deposit of `stake` lamports when `total` lamports
/// back `total_shares` stSOL: the deposit itself while nothing is staked yet,
/// else its proportional share rounded down; `None` where that overflows.
pub open spec fn pool_tokens_for_deposit(total_shares: u64, stake: u64, total: u64) -> Option<u64> {
    if total == 0 {
        Some(stake)
    } else {
        scaled(stake, Rational { numerator: total_shares, denominator: total })
    }
}

/// Whether the four bytes are a valid tag of an optional field of a token
/// account: absent `[0, 0, 0, 0]` or present `[1, 0, 0, 0]`.
pub open spec fn option_tag_valid(tag: Seq<u8>) -> bool {
    tag == seq![0u8, 0u8, 0u8, 0u8] || tag == seq![1u8, 0u8, 0u8, 0u8]
}

/// Serialized size of an SPL token account.
pub const TOKEN_ACCOUNT_LEN: usize = 165;

/// Whether the first 165 bytes of `data` decode as an SPL token account: the
/// delegate, native-amount and close-authority tags are valid and the state
/// byte is one of uninitialized, initialized or frozen.
pub open spec fn token_account_decodes(data: Seq<u8>) -> bool {
    &&& option_tag_valid(data.subrange(72, 76))
    &&& data[108] <= 2
    &&& option_tag_valid(data.subrange(109, 113))
    &&& option_tag_valid(data.subrange(129, 133))
}

/// Whether `data` holds an SPL token account: it is long enough and its
/// first 165 bytes decode as one.
pub open spec fn is_token_account(data: Seq<u8>) -> bool {
    data.len() >= TOKEN_ACCOUNT_LEN && token_account_decodes(data)
}

/// The mint recorded in a token account: its first 32 bytes.
pub open spec fn token_account_mint(data: Seq<u8>) -> Seq<u8> {
    data.subrange(0, 32)
}

/// Calls `Account::unpack_from_slice` of `spl_token` and keeps the mint. That
/// function panics on fewer than 165 bytes; `requires` leaves that out.
/// Claimed: it decodes exactly where [`token_account_decodes`] holds, and the
/// mint is the first 32 bytes.
#[verifier::external_body]
fn unpack_token_account_mint(data: &[u8]) -> (res: Option<Pubkey>)
    requires
        data@.len() >= TOKEN_ACCOUNT_LEN,
    ensures
        res is Some <==> token_account_decodes(data@),
        res matches Some(mint) ==> mint@ == token_account_mint(data@),
{
    #[allow(deprecated)]
    let account = <spl_token::state::Account as spl_token::solana_program::program_pack::Pack>::unpack_from_slice(data);
    account.ok().map(|a| Pubkey(a.mint.to_bytes()))
}

/// The reserve account of the instance at `solido_address` of the program
/// `program_id`, derived with the instance's reserve bump seed.
pub open spec fn reserve_account(lido: Lido, program_id: Seq<u8>, solido_address: Seq<u8>) -> Option<Seq<u8>> {
    program_address(reserve_account_seeds(solido_address, lido.sol_reserve_authority_bump_seed), program_id)
}

impl Lido {
    /// Calculates the total size of Lido given two variables: `max_validators`
    /// and `max_maintainers`, the maximum number of maintainers and validators,
    /// respectively: the size of an instance whose two maps are filled to
    /// their bounds.
    pub fn calculate_size(max_validators: u32, max_maintainers: u32) -> (n: usize)
        requires
            lido_packed_size(max_validators as int, max_maintainers as int) <= usize::MAX,
        ensures
            n == lido_packed_size(max_validators as int, max_maintainers as int),
    {
        let validators_bytes = Validators::required_bytes(max_validators as usize);
        let maintainers_bytes = Maintainers::required_bytes(max_maintainers as usize);
        LIDO_CONSTANT_SIZE + validators_bytes + maintainers_bytes
    }

    /// The stSOL to mint for a deposit of `stake_lamports` when the instance
    /// holds `total_lamports`.
    pub fn calc_pool_tokens_for_deposit(&self, stake_lamports: Lamports, total_lamports: Lamports) -> (res: Option<StLamports>)
        ensures
            res == (match pool_tokens_for_deposit(self.st_sol_total_shares.0, stake_lamports.0, total_lamports.0) {
                Some(t) => Some(StLamports(t)),
                None => None::<StLamports>,
            }),
    {
        if total_lamports.0 == 0 {
            return Some(StLamports(stake_lamports.0));
        }
        let ratio = Rational { numerator: self.st_sol_total_shares.0, denominator: total_lamports.0 };
        StLamports(stake_lamports.0).mul_rational(ratio)
    }

    /// Succeeds on an instance that is not yet in use: one whose manager is unset.
    pub fn is_initialized(&self) -> (res: Result<(), LidoError>)
        ensures
            res is Ok <==> self.manager@ == zero_key(),
            res matches Err(e) ==> e == LidoError::AlreadyInUse,
    {
        if !self.manager.same_as(&Pubkey::zero()) {
            Err(LidoError::AlreadyInUse)
        } else {
            Ok(())
        }
    }

    /// Confirm that the given account is Solido's stSOL mint.
    pub fn check_mint_is_st_sol_mint(&self, mint_account_key: &Pubkey) -> (res: Result<(), LidoError>)
        ensures
            res is Ok <==> self.st_sol_mint@ == mint_account_key@,
            res matches Err(e) ==> e == LidoError::InvalidStSolAccount,
    {
        if !self.st_sol_mint.same_as(mint_account_key) {
            return Err(LidoError::InvalidStSolAccount);
        }
        Ok(())
    }

    /// Confirm that the given account data is an SPL token account with our
    /// stSOL mint as mint. Data too short to hold a token account is not one.
    pub fn check_is_st_sol_account(&self, token_account_data: &[u8]) -> (res: Result<(), LidoError>)
        ensures
            !is_token_account(token_account_data@) ==> res == Err::<(), LidoError>(LidoError::InvalidStSolAccount),
            is_token_account(token_account_data@) && token_account_mint(token_account_data@) != self.st_sol_mint@
                ==> res == Err::<(), LidoError>(LidoError::InvalidFeeRecipient),
            res is Ok <==> is_token_account(token_account_data@)
                && token_account_mint(token_account_data@) == self.st_sol_mint@,
    {
        if token_account_data.len() < TOKEN_ACCOUNT_LEN {
            return Err(LidoError::InvalidStSolAccount);
        }
        let mint = match unpack_token_account_mint(token_account_data) {
            Some(mint) => mint,
            None => return Err(LidoError::InvalidStSolAccount),
        };
        if !mint.same_as(&self.st_sol_mint) {
            return Err(LidoError::InvalidFeeRecipient);
        }
        Ok(())
    }

    /// Checks if the passed manager is the same as the one stored in the state
    pub fn check_manager(&self, manager_key: &Pubkey) -> (res: Result<(), LidoError>)
        ensures
            res is Ok <==> self.manager@ == manager_key@,
            res matches Err(e) ==> e == LidoError::InvalidManager,
    {
        if !self.manager.same_as(manager_key) {
            return Err(LidoError::InvalidManager);
        }
        Ok(())
    }

    /// Checks if the passed maintainer belong to the list of maintainers
    pub fn check_maintainer(&self, maintainer_key: &Pubkey) -> (res: Result<(), LidoError>)
        ensures
            res is Ok <==> self.maintainers.has_key(maintainer_key@),
            res matches Err(e) ==> e == LidoError::InvalidManager,
    {
        if !self.maintainers.contains_key(maintainer_key) {
            return Err(LidoError::InvalidManager);
        }
        Ok(())
    }

    /// Return the address of the reserve account, the account where SOL gets
    /// deposited into.
    pub fn get_reserve_account(&self, program_id: &Pubkey, solido_address: &Pubkey) -> (res: Result<Pubkey, LidoError>)
        ensures
            match res {
                Ok(key) => reserve_account(*self, program_id@, solido_address@) == Some(key@),
                Err(e) => reserve_account(*self, program_id@, solido_address@) is None
                    && e == LidoError::InvalidReserveAuthority,
            },
    {
        let mut seeds: Vec<Vec<u8>> = Vec::new();
        seeds.push(solido_address.to_seed());
        seeds.push(reserve_authority_seed_bytes());
        seeds.push(vec![self.sol_reserve_authority_bump_seed]);
        let ghost expected = reserve_account_seeds(solido_address@, self.sol_reserve_authority_bump_seed);
        assert(seeds.deep_view()[0] =~= expected[0]);
        assert(seeds.deep_view()[1] =~= expected[1]);
        assert(seeds.deep_view()[2] =~= expected[2]);
        assert(seeds.deep_view() =~= expected);
        match create_program_address(&seeds, program_id) {
            Ok(key) => Ok(key),
            Err(_) => Err(LidoError::InvalidReserveAuthority),
        }
    }

    /// Confirm that the reserve authority belongs to this Lido instance, return
    /// the reserve address.
    pub fn check_reserve_authority(
        &self,
        program_id: &Pubkey,
        solido_address: &Pubkey,
        reserve_authority_key: &Pubkey,
    ) -> (res: Result<Pubkey, LidoError>)
        ensures
            match res {
                Ok(key) => reserve_account(*self, program_id@, solido_address@) == Some(key@)
                    && key@ == reserve_authority_key@,
                Err(e) => e == LidoError::InvalidReserveAuthority
                    && reserve_account(*self, program_id@, solido_address@) != Some(reserve_authority_key@),
            },
    {
        let reserve_id = match self.get_reserve_account(program_id, solido_address) {
            Ok(key) => key,
            Err(e) => return Err(e),
        };
        if !reserve_id.same_as(reserve_authority_key) {
            return Err(LidoError::InvalidReserveAuthority);
        }
        Ok(reserve_id)
    }
}


/// Splitting a fee conserves it: the treasury's amount, the validators'
/// amounts together and the developer's amount add up to the reward.
pub proof fn lemma_fee_split_conserves_reward(fd: FeeDistribution, num_validators: u64, reward: u64)
    requires
        fee_split(fd, num_validators, reward) is Some,
    ensures
        ({
            let f = fee_split(fd, num_validators, reward).unwrap();
            f.treasury_amount.0 + f.reward_per_validator.0 * num_validators + f.developer_amount.0 == reward
        }),
{
    let parts = fee_parts(fd);
    lemma_shares_bounded(reward as int, fd.treasury_fee as int, fd.validation_fee as int, fd.developer_fee as int);
    let target = reward * fd.validation_fee / parts;
    let per = target / (num_validators as int);
    assert(0 <= per && per * num_validators <= target) by (nonlinear_arith)
        requires
            num_validators > 0,
            target >= 0,
            per == target / (num_validators as int),
    ;
}

/// Rounding the validators' amount down to a multiple of their number loses
/// less than one stLamport per validator.
pub proof fn lemma_fee_split_validation_loss_below_validator_count(fd: FeeDistribution, num_validators: u64, reward: u64)
    requires
        fee_split(fd, num_validators, reward) is Some,
    ensures
        ({
            let f = fee_split(fd, num_validators, reward).unwrap();
            let target = reward * fd.validation_fee / fee_parts(fd);
            0 <= target - f.reward_per_validator.0 * num_validators < num_validators
        }),
{
    let parts = fee_parts(fd);
    lemma_shares_bounded(reward as int, fd.treasury_fee as int, fd.validation_fee as int, fd.developer_fee as int);
    let target = reward * fd.validation_fee / parts;
    let per = target / (num_validators as int);
    assert(0 <= per && per * num_validators <= target && target - per * num_validators < num_validators)
        by (nonlinear_arith)
        requires
            num_validators > 0,
            target >= 0,
            per == target / (num_validators as int),
    ;
    assert(per <= u64::MAX) by (nonlinear_arith)
        requires
            per * num_validators <= target,
            target <= reward,
            reward <= u64::MAX,
            num_validators > 0,
            per >= 0,
    ;
}

/// Rounding favours the developer: the developer's amount is at least its
/// exact share of the reward.
pub proof fn lemma_fee_split_developer_gets_at_least_its_share(fd: FeeDistribution, num_validators: u64, reward: u64)
    requires
        fee_split(fd, num_validators, reward) is Some,
    ensures
        fee_split(fd, num_validators, reward).unwrap().developer_amount.0 * fee_parts(fd) >= reward * fd.developer_fee,
{
    let parts = fee_parts(fd);
    let t = fd.treasury_fee as int;
    let v = fd.validation_fee as int;
    let d = fd.developer_fee as int;
    let r = reward as int;
    lemma_shares_bounded(r, t, v, d);
    lemma_fee_split_conserves_reward(fd, num_validators, reward);
    let qt = r * t / parts;
    let qv = r * v / parts;
    let per = qv / (num_validators as int);
    assert(0 <= per && per * num_validators <= qv) by (nonlinear_arith)
        requires
            num_validators > 0,
            qv >= 0,
            per == qv / (num_validators as int),
    ;
    let dev = r - qt - per * num_validators;
    assert(dev * parts >= r * d) by (nonlinear_arith)
        requires
            dev == r - qt - per * num_validators,
            per * num_validators <= qv,
            qt * parts <= r * t,
            qv * parts <= r * v,
            parts == t + v + d,
            parts > 0,
    ;
}

/// A deposit into a staked instance mints its proportional share rounded
/// down: never more, and less by under one stSOL unit's worth of stake.
pub proof fn lemma_pool_tokens_proportional(total_shares: u64, stake: u64, total: u64)
    requires
        total > 0,
        pool_tokens_for_deposit(total_shares, stake, total) is Some,
    ensures
        ({
            let t = pool_tokens_for_deposit(total_shares, stake, total).unwrap();
            &&& t * total <= stake * total_shares
            &&& stake * total_shares < (t + 1) * total
        }),
{
    let p = stake * total_shares;
    let q = p / (total as int);
    assert(q * total <= p && p < (q + 1) * total) by (nonlinear_arith)
        requires
            total > 0,
            p >= 0,
            q == p / (total as int),
    ;
}

/// When the stSOL supply equals the SOL behind it, a deposit mints exactly
/// its own amount.
pub proof fn lemma_pool_tokens_at_par(stake: u64, total: u64)
    ensures
        pool_tokens_for_deposit(total, stake, total) == Some(stake),
{
    if total > 0 {
        assert((stake as int) * (total as int) / (total as int) == stake) by (nonlinear_arith)
            requires
                total > 0,
        ;
    }
}

/// Depositing more never mints less.
pub proof fn lemma_pool_tokens_monotonic(total_shares: u64, stake1: u64, stake2: u64, total: u64)
    requires
        stake1 <= stake2,
        pool_tokens_for_deposit(total_shares, stake1, total) is Some,
        pool_tokens_for_deposit(total_shares, stake2, total) is Some,
    ensures
        pool_tokens_for_deposit(total_shares, stake1, total).unwrap()
            <= pool_tokens_for_deposit(total_shares, stake2, total).unwrap(),
{
    if total > 0 {
        let p1 = stake1 * total_shares;
        let p2 = stake2 * total_shares;
        assert(p1 <= p2) by (nonlinear_arith)
            requires
                stake1 <= stake2,
                p1 == stake1 * total_shares,
                p2 == stake2 * total_shares,
                total_shares >= 0,
        ;
        assert(p1 / (total as int) <= p2 / (total as int)) by (nonlinear_arith)
            requires
                p1 <= p2,
                total > 0,
        ;
    }
}

/// The size of an instance grows with its bounds: each extra validator
/// costs one validator entry and each extra maintainer one address.
pub proof fn lemma_lido_packed_size_steps(max_validators: int, max_maintainers: int)
    ensures
        lido_packed_size(max_validators + 1, max_maintainers) == lido_packed_size(max_validators, max_maintainers)
            + VALIDATOR_ENTRY_BYTES,
        lido_packed_size(max_validators, max_maintainers + 1) == lido_packed_size(max_validators, max_maintainers)
            + SET_ENTRY_BYTES,
{
    assert(VALIDATOR_ENTRY_BYTES as int * (max_validators + 1) == VALIDATOR_ENTRY_BYTES as int * max_validators
        + VALIDATOR_ENTRY_BYTES) by (nonlinear_arith);
    assert(SET_ENTRY_BYTES as int * (max_maintainers + 1) == SET_ENTRY_BYTES as int * max_maintainers
        + SET_ENTRY_BYTES) by (nonlinear_arith);
}

/// Where `calculate_size` accepts a bound one validator larger, it accepts
/// the bound itself, and the two sizes differ by one validator entry.
pub proof fn lemma_calculate_size_step(max_validators: u32, max_maintainers: u32)
    requires
        max_validators < u32::MAX,
        lido_packed_size(max_validators + 1, max_maintainers as int) <= usize::MAX,
    ensures
        lido_packed_size(max_validators as int, max_maintainers as int) <= usize::MAX,
        lido_packed_size(max_validators + 1, max_maintainers as int)
            - lido_packed_size(max_validators as int, max_maintainers as int) == VALIDATOR_ENTRY_BYTES,
{
    lemma_lido_packed_size_steps(max_validators as int, max_maintainers as int);
}

/// A fee split never fails on a usable distribution: with some fee parts and
/// at least one validator there is always a split, whatever the reward and
/// the number of validators. The treasury gets its share rounded down, each
/// validator gets the validators' share divided among them rounded down, and
/// the developer gets what is left.
pub proof fn lemma_fee_split_succeeds(fd: FeeDistribution, num_validators: u64, reward: u64)
    requires
        fd.treasury_fee + fd.validation_fee + fd.developer_fee > 0,
        num_validators > 0,
    ensures
        fee_split(fd, num_validators, reward) is Some,
        ({
            let f = fee_split(fd, num_validators, reward).unwrap();
            let parts = fd.treasury_fee + fd.validation_fee + fd.developer_fee;
            let treasury = f.treasury_amount.0 as int;
            let per = f.reward_per_validator.0 as int;
            &&& treasury * parts <= reward * fd.treasury_fee < (treasury + 1) * parts
            &&& per * num_validators * parts <= reward * fd.validation_fee
            &&& reward * fd.validation_fee < (per + 1) * num_validators * parts
            &&& f.developer_amount.0 == reward - treasury - per * num_validators
        }),
{
    let t = fd.treasury_fee as int;
    let v = fd.validation_fee as int;
    let d = fd.developer_fee as int;
    let r = reward as int;
    let s = t + v + d;
    let n = num_validators as int;
    lemma_shares_bounded(r, t, v, d);
    lemma_fee_split_conserves_reward(fd, num_validators, reward);
    let qt = r * t / s;
    let qv = r * v / s;
    let per = qv / n;
    assert(qt * s <= r * t < (qt + 1) * s) by (nonlinear_arith)
        requires
            s > 0,
            r * t >= 0,
            qt == r * t / s,
    ;
    assert(qv * s <= r * v < (qv + 1) * s) by (nonlinear_arith)
        requires
            s > 0,
            r * v >= 0,
            qv == r * v / s,
    ;
    assert(0 <= per && per * n <= qv < (per + 1) * n) by (nonlinear_arith)
        requires
            n > 0,
            qv >= 0,
            per == qv / n,
    ;
    assert(per * n * s <= r * v) by (nonlinear_arith)
        requires
            per * n <= qv,
            qv * s <= r * v,
            s > 0,
    ;
    assert(r * v < (per + 1) * n * s) by (nonlinear_arith)
        requires
            r * v < (qv + 1) * s,
            qv + 1 <= (per + 1) * n,
            s > 0,
    ;
    assert(per <= qv) by (nonlinear_arith)
        requires
            per * n <= qv,
            n > 0,
            per >= 0,
    ;
}

/// Minting for a deposit into a staked instance (`total > 0`) fails exactly
/// when the deposit's proportional share does not fit in a `u64`; the product
/// `stake * total_shares` itself may exceed a `u64`. Otherwise the minted
/// amount is that share rounded down.
pub proof fn lemma_pool_tokens_succeed_when_share_fits(total_shares: u64, stake: u64, total: u64)
    requires
        total > 0,
    ensures
        stake * total_shares < (u64::MAX + 1) * total ==> ({
            &&& pool_tokens_for_deposit(total_shares, stake, total) is Some
            &&& pool_tokens_for_deposit(total_shares, stake, total).unwrap() * total <= stake * total_shares
            &&& stake * total_shares < (pool_tokens_for_deposit(total_shares, stake, total).unwrap() + 1) * total
        }),
        stake * total_shares >= (u64::MAX + 1) * total ==> pool_tokens_for_deposit(total_shares, stake, total) is None,
{
    let p = stake * total_shares;
    let q = p / (total as int);
    assert(p >= 0) by (nonlinear_arith)
        requires
            p == stake * total_shares,
    ;
    assert(q * total <= p < (q + 1) * total) by (nonlinear_arith)
        requires
            total > 0,
            p >= 0,
            q == p / (total as int),
    ;
    if p < (u64::MAX + 1) * total {
        assert(q <= u64::MAX) by (nonlinear_arith)
            requires
                q * total <= p,
                p < (u64::MAX + 1) * total,
                total > 0,
        ;
    } else {
        assert(q > u64::MAX) by (nonlinear_arith)
            requires
                p < (q + 1) * total,
                p >= (u64::MAX + 1) * total,
                total > 0,
        ;
    }
}

} // verus!
