use vstd::prelude::*;

use crate::config::{ConfigModule, Error};

verus! {

/// Identifier of a fungible token.
pub type TokenId = u64;

/// Address of an account or contract; `0` is the zero address.
pub type Address = u64;

/// A token amount.
pub type Amount = u128;

/// Ordered pair of token ids under which a bonding contract is registered.
#[derive(Clone, Copy, Debug, PartialEq, Eq, Structural)]
pub struct PairTokens {
    pub first_token_id: TokenId,
    pub second_token_id: TokenId,
}

/// A registered pair and the bonding contract that trades it.
#[derive(Clone, Copy, Debug, PartialEq, Eq, Structural)]
pub struct PairContractMetadata {
    pub first_token_id: TokenId,
    pub second_token_id: TokenId,
    pub address: Address,
}

/// What a bonding contract reports of itself.
#[derive(Clone, Debug)]
pub struct PairData {
    pub first_token_id: TokenId,
    pub second_token_id: TokenId,
    pub first_token_reserve: Amount,
    pub second_token_reserve: Amount,
    pub owner_fee_percent: u64,
    pub market_cap: Amount,
    pub db_id: Vec<u8>,
    /// The bonding contract's lifecycle state, by its encoded discriminant.
    pub state: u8,
}

/// A bonding contract's report, with the contract's address.
#[derive(Clone, Debug)]
pub struct PairContractData {
    pub sc_address: Address,
    pub first_token_id: TokenId,
    pub second_token_id: TokenId,
    pub first_token_reserve: Amount,
    pub second_token_reserve: Amount,
    pub owner_fee_percent: u64,
    pub market_cap: Amount,
    pub db_id: Vec<u8>,
    pub state: u8,
}

/// Arguments of a bonding contract's `init`.
#[derive(Clone, Debug)]
pub struct InitArgs {
    pub allowed_token: TokenId,
    pub fees_collector: Address,
    pub initial_virtual_liquidity: Amount,
    pub oracle_address: Address,
    pub max_market_cap: Amount,
    pub jeetdex_router_sc_address: Address,
    pub issue_token_cost: Amount,
    pub wegld_unwrap_sc: Address,
    pub reach_jeetdex_fee: Amount,
    pub db_id: Vec<u8>,
}

/// Deploy a new bonding contract from `template` with `args`.
#[derive(Clone, Debug)]
pub struct DeployRequest {
    pub template: Address,
    pub args: InitArgs,
}

/// Upgrade bonding contract `target` in place from `template` with `args`.
#[derive(Clone, Debug)]
pub struct UpgradeRequest {
    pub target: Address,
    pub template: Address,
    pub args: InitArgs,
}

impl ConfigModule {
    /// `args` carries the current configuration and correlation id `db_id`.
    pub open spec fn init_args_match(&self, args: &InitArgs, db_id: Seq<u8>) -> bool {
        &&& args.allowed_token == self.allowed_token
        &&& args.fees_collector == self.fees_collector
        &&& args.initial_virtual_liquidity == self.initial_virtual_liquidity
        &&& args.oracle_address == self.oracle_address
        &&& args.max_market_cap == self.max_market_cap
        &&& args.jeetdex_router_sc_address == self.jeetdex_router_sc_address
        &&& args.issue_token_cost == self.issue_token_cost
        &&& args.wegld_unwrap_sc == self.wegld_unwrap_sc
        &&& args.reach_jeetdex_fee == self.reach_jeetdex_fee
        &&& args.db_id@ == db_id
    }

    /// The pair's contract, tried in the given order, then in the reverse.
    pub open spec fn resolve_pair(&self, first: TokenId, second: TokenId) -> Option<Address> {
        let direct = self.pair_address(PairTokens { first_token_id: first, second_token_id: second });
        if direct is Some {
            direct
        } else {
            self.pair_address(PairTokens { first_token_id: second, second_token_id: first })
        }
    }

    fn build_init_args(&self, db_id: Vec<u8>) -> (r: InitArgs)
        ensures
            self.init_args_match(&r, db_id@),
    {
        InitArgs {
            allowed_token: self.allowed_token,
            fees_collector: self.fees_collector,
            initial_virtual_liquidity: self.initial_virtual_liquidity,
            oracle_address: self.oracle_address,
            max_market_cap: self.max_market_cap,
            jeetdex_router_sc_address: self.jeetdex_router_sc_address,
            issue_token_cost: self.issue_token_cost,
            wegld_unwrap_sc: self.wegld_unwrap_sc,
            reach_jeetdex_fee: self.reach_jeetdex_fee,
            db_id,
        }
    }

    /// The request that deploys a bonding contract for correlation id `db_id`.
    pub fn create_bonding(&self, db_id: Vec<u8>) -> (r: Result<DeployRequest, Error>)
        ensures
            r is Ok <==> self.pair_template_address is Some,
            r matches Ok(d) ==> d.template == self.pair_template_address.unwrap()
                && self.init_args_match(&d.args, db_id@),
            r is Err ==> r->Err_0 == Error::ConfigurationIncomplete,
    {
        match self.pair_template_address {
            Some(template) => Ok(DeployRequest { template, args: self.build_init_args(db_id) }),
            None => Err(Error::ConfigurationIncomplete),
        }
    }

    /// The request that upgrades `bonding_address` with the current
    /// configuration and an empty correlation id.
    pub fn upgrade_bonding(&self, bonding_address: Address) -> (r: Result<UpgradeRequest, Error>)
        ensures
            r is Ok <==> self.pair_template_address is Some,
            r matches Ok(u) ==> u.target == bonding_address && u.template
                == self.pair_template_address.unwrap() && self.init_args_match(
                &u.args,
                Seq::empty(),
            ),
            r is Err ==> r->Err_0 == Error::ConfigurationIncomplete,
    {
        match self.pair_template_address {
            Some(template) => {
                let args = self.build_init_args(Vec::new());
                Ok(UpgradeRequest { target: bonding_address, template, args })
            },
            None => Err(Error::ConfigurationIncomplete),
        }
    }

    /// Every registered pair with its contract, in insertion order.
    pub fn get_all_pair_contract_metadata(&self) -> (r: Vec<PairContractMetadata>)
        ensures
            r@.len() == self.pair_map@.len(),
            forall|i: int|
                0 <= i < r@.len() ==> (#[trigger] r@[i]).first_token_id
                    == self.pair_map@[i].0.first_token_id && r@[i].second_token_id
                    == self.pair_map@[i].0.second_token_id && r@[i].address == self.pair_map@[i].1,
    {
        let mut result: Vec<PairContractMetadata> = Vec::new();
        let mut i: usize = 0;
        while i < self.pair_map.len()
            invariant
                i <= self.pair_map@.len(),
                result@.len() == i,
                forall|j: int|
                    0 <= j < i ==> (#[trigger] result@[j]).first_token_id
                        == self.pair_map@[j].0.first_token_id && result@[j].second_token_id
                        == self.pair_map@[j].0.second_token_id && result@[j].address
                        == self.pair_map@[j].1,
            decreases self.pair_map@.len() - i,
        {
            let (k, v) = self.pair_map[i];
            result.push(
                PairContractMetadata {
                    first_token_id: k.first_token_id,
                    second_token_id: k.second_token_id,
                    address: v,
                },
            );
            i = i + 1;
        }
        result
    }

    /// Joins the reports read from each registered contract, in registry
    /// order, with the contracts' addresses.
    pub fn get_all_pair_contract_data(&self, pair_data: &Vec<PairData>) -> (r: Result<
        Vec<PairContractData>,
        Error,
    >)
        ensures
            r is Ok <==> pair_data@.len() == self.pair_map@.len(),
            r is Err ==> r->Err_0 == Error::LengthMismatch,
            r matches Ok(v) ==> v@.len() == pair_data@.len() && forall|i: int|
                0 <= i < v@.len() ==> #[trigger] pair_contract_data_of(
                    v@[i],
                    self.pair_map@[i].1,
                    pair_data@[i],
                ),
    {
        if pair_data.len() != self.pair_map.len() {
            return Err(Error::LengthMismatch);
        }
        let mut result: Vec<PairContractData> = Vec::new();
        let mut i: usize = 0;
        while i < pair_data.len()
            invariant
                i <= pair_data@.len() == self.pair_map@.len(),
                result@.len() == i,
                forall|j: int|
                    0 <= j < i ==> #[trigger] pair_contract_data_of(
                        result@[j],
                        self.pair_map@[j].1,
                        pair_data@[j],
                    ),
            decreases pair_data@.len() - i,
        {
            let d = &pair_data[i];
            let db_id = d.db_id.clone();
            assert(db_id@ =~= d.db_id@);
            result.push(
                PairContractData {
                    sc_address: self.pair_map[i].1,
                    first_token_id: d.first_token_id,
                    second_token_id: d.second_token_id,
                    first_token_reserve: d.first_token_reserve,
                    second_token_reserve: d.second_token_reserve,
                    owner_fee_percent: d.owner_fee_percent,
                    market_cap: d.market_cap,
                    db_id,
                    state: d.state,
                },
            );
            i = i + 1;
        }
        Ok(result)
    }

    /// The contract registered for the two tokens, in either order.
    pub fn get_pair(&self, first_token_id: TokenId, second_token_id: TokenId) -> (r: Option<
        Address,
    >)
        ensures
            r == self.resolve_pair(first_token_id, second_token_id),
    {
        let address = self.lookup_pair(PairTokens { first_token_id, second_token_id });
        if address.is_some() {
            address
        } else {
            self.lookup_pair(
                PairTokens { first_token_id: second_token_id, second_token_id: first_token_id },
            )
        }
    }
}

/// `c` is report `d` of the contract at `address`.
pub open spec fn pair_contract_data_of(c: PairContractData, address: Address, d: PairData) -> bool {
    &&& c.sc_address == address
    &&& c.first_token_id == d.first_token_id
    &&& c.second_token_id == d.second_token_id
    &&& c.first_token_reserve == d.first_token_reserve
    &&& c.second_token_reserve == d.second_token_reserve
    &&& c.owner_fee_percent == d.owner_fee_percent
    &&& c.market_cap == d.market_cap
    &&& c.db_id@ == d.db_id@
    &&& c.state == d.state
}

/// Unordered resolution: where exactly one order of the two tokens is
/// registered, resolving them in either order finds the same contract.
pub proof fn lemma_resolve_unordered(c: &ConfigModule, a: TokenId, b: TokenId)
    requires
        c.pair_address(PairTokens { first_token_id: a, second_token_id: b }) is Some
            != c.pair_address(PairTokens { first_token_id: b, second_token_id: a }) is Some,
    ensures
        c.resolve_pair(a, b) == c.resolve_pair(b, a),
        c.resolve_pair(a, b) is Some,
{
}

} // verus!
