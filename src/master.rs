use vstd::prelude::*;

use crate::config::{ConfigModule, Error};
use crate::factory::{Address, Amount, DeployRequest, PairTokens, TokenId, UpgradeRequest};

verus! {

/// Decimals of every issued token.
pub const TOKEN_DECIMALS: usize = 18;

/// Gas reserved for the issuance call; more than this must be left to send it.
pub const ISSUE_GAS_LIMIT: u64 = 150000000;

/// An admin command that a bonding contract carries out itself.
#[derive(Clone, Copy, Debug, PartialEq, Eq, Structural)]
pub enum BondingCommand {
    Pause,
    Resume,
    SetJeetdexRouter(Address),
}

/// How an admin command was dispatched.
#[derive(Clone, Copy, Debug, PartialEq, Eq, Structural)]
pub enum AdminOutcome {
    /// Applied to this contract's own state.
    Applied,
    /// To be sent to the bonding contract `target`.
    Forward { target: Address, command: BondingCommand },
}

/// What an issuance carries from its request to its callback.
#[derive(Clone, Debug)]
pub struct ProvisioningContext {
    pub caller: Address,
    pub token_display_name: Vec<u8>,
    pub token_ticker: Vec<u8>,
    pub db_id: Vec<u8>,
    pub token_creator_buy: bool,
    pub payment: Amount,
}

/// Request to the issuing system contract for a new fungible token, with
/// no special properties.
#[derive(Clone, Debug)]
pub struct IssueRequest {
    pub cost: Amount,
    pub token_display_name: Vec<u8>,
    pub token_ticker: Vec<u8>,
    pub supply: Amount,
    pub num_decimals: usize,
    pub gas_limit: u64,
    pub context: ProvisioningContext,
}

/// The kind of token that came back with a callback.
#[derive(Clone, Copy, Debug, PartialEq, Eq, Structural)]
pub enum PaymentToken {
    Egld,
    Esdt(TokenId),
}

/// A payment of `amount` of `token`.
#[derive(Clone, Copy, Debug, PartialEq, Eq, Structural)]
pub struct Payment {
    pub token: PaymentToken,
    pub amount: Amount,
}

/// What to do after the issuance callback.
#[derive(Clone, Debug)]
pub enum CallbackAction {
    /// Deploy the bonding contract for the issued token.
    Deploy(DeployRequest),
    /// Send `amount` of EGLD back to `to`.
    Refund { to: Address, amount: Amount },
    /// Nothing is left to do.
    Nothing,
}

/// A transfer of `amount` of EGLD to `to`.
#[derive(Clone, Copy, Debug, PartialEq, Eq, Structural)]
pub struct EgldTransfer {
    pub to: Address,
    pub amount: Amount,
}

/// Transfers that follow the registration of a new bonding contract, in
/// the order in which they are made.
#[derive(Clone, Copy, Debug, PartialEq, Eq, Structural)]
pub struct ProvisioningEffects {
    /// The router that is told of the new contract, without checking the answer.
    pub router: Address,
    pub bonding_address: Address,
    /// The issued token, sent to the bonding contract with its identifier call.
    pub token_id: TokenId,
    pub amount: Amount,
    pub token_creator_buy: bool,
    pub caller: Address,
    /// EGLD for the fees collector: what the fee leaves over the issuance cost.
    pub fee_transfer: Option<EgldTransfer>,
}

/// The first check of `init` that fails, if any.
pub open spec fn init_error(
    pair_template_address: Address,
    token_supply: Amount,
    new_token_fee: Amount,
    initial_virtual_liquidity: Amount,
    max_market_cap: Amount,
    jeetdex_router_sc_address: Address,
    issue_token_cost: Amount,
    wegld_unwrap_sc: Address,
    reach_jeetdex_fee: Amount,
) -> Option<Error> {
    if pair_template_address == 0 {
        Some(Error::ZeroTemplate)
    } else if token_supply == 0 {
        Some(Error::ZeroSupply)
    } else if new_token_fee == 0 {
        Some(Error::ZeroFee)
    } else if initial_virtual_liquidity == 0 {
        Some(Error::ZeroVirtualLiquidity)
    } else if max_market_cap == 0 {
        Some(Error::ZeroMaxMarketCap)
    } else if issue_token_cost == 0 {
        Some(Error::ZeroIssueCost)
    } else if wegld_unwrap_sc == 0 {
        Some(Error::ZeroUnwrapAddress)
    } else if jeetdex_router_sc_address == 0 {
        Some(Error::ZeroRouterAddress)
    } else if reach_jeetdex_fee == 0 {
        Some(Error::ZeroReachFee)
    } else {
        None
    }
}

/// What the fees collector is owed once a token is issued.
pub open spec fn remaining_fee(new_token_fee: Amount, issue_token_cost: Amount) -> Option<Amount> {
    if new_token_fee > issue_token_cost {
        Some((new_token_fee - issue_token_cost) as Amount)
    } else {
        None
    }
}

/// The factory contract: its own address and its storage.
pub struct MasterContract {
    pub self_address: Address,
    pub storage: ConfigModule,
}

impl MasterContract {
    #[allow(clippy::too_many_arguments)]
    pub fn init(
        self_address: Address,
        pair_template_address: Address,
        token_supply: Amount,
        fees_collector: Address,
        new_token_fee: Amount,
        initial_virtual_liquidity: Amount,
        initial_token_to_buy_with: TokenId,
        oracle_address: Address,
        max_market_cap: Amount,
        jeetdex_router_sc_address: Address,
        issue_token_cost: Amount,
        wegld_unwrap_sc: Address,
        reach_jeetdex_fee: Amount,
    ) -> (r: Result<MasterContract, Error>)
        ensures
            r is Ok <==> init_error(
                pair_template_address,
                token_supply,
                new_token_fee,
                initial_virtual_liquidity,
                max_market_cap,
                jeetdex_router_sc_address,
                issue_token_cost,
                wegld_unwrap_sc,
                reach_jeetdex_fee,
            ) is None,
            r is Err ==> Some(r->Err_0) == init_error(
                pair_template_address,
                token_supply,
                new_token_fee,
                initial_virtual_liquidity,
                max_market_cap,
                jeetdex_router_sc_address,
                issue_token_cost,
                wegld_unwrap_sc,
                reach_jeetdex_fee,
            ),
            r matches Ok(m) ==> {
                &&& m.self_address == self_address
                &&& m.storage.state
                &&& m.storage.pair_template_address == Some(pair_template_address)
                &&& m.storage.token_supply == token_supply
                &&& m.storage.new_token_fee == new_token_fee
                &&& m.storage.fees_collector == fees_collector
                &&& m.storage.initial_virtual_liquidity == initial_virtual_liquidity
                &&& m.storage.allowed_token == initial_token_to_buy_with
                &&& m.storage.oracle_address == oracle_address
                &&& m.storage.max_market_cap == max_market_cap
                &&& m.storage.jeetdex_router_sc_address == jeetdex_router_sc_address
                &&& m.storage.issue_token_cost == issue_token_cost
                &&& m.storage.wegld_unwrap_sc == wegld_unwrap_sc
                &&& m.storage.reach_jeetdex_fee == reach_jeetdex_fee
                &&& m.storage.jeet_wegld_sc_address == 0
                &&& m.storage.jeet_token_id == 0
                &&& m.storage.pair_map@.len() == 0
                &&& m.storage.address_pair_map@.len() == 0
                &&& m.storage.registry_wf()
            },
    {
        if pair_template_address == 0 {
            return Err(Error::ZeroTemplate);
        }
        if token_supply == 0 {
            return Err(Error::ZeroSupply);
        }
        if new_token_fee == 0 {
            return Err(Error::ZeroFee);
        }
        if initial_virtual_liquidity == 0 {
            return Err(Error::ZeroVirtualLiquidity);
        }
        if max_market_cap == 0 {
            return Err(Error::ZeroMaxMarketCap);
        }
        if issue_token_cost == 0 {
            return Err(Error::ZeroIssueCost);
        }
        if wegld_unwrap_sc == 0 {
            return Err(Error::ZeroUnwrapAddress);
        }
        if jeetdex_router_sc_address == 0 {
            return Err(Error::ZeroRouterAddress);
        }
        if reach_jeetdex_fee == 0 {
            return Err(Error::ZeroReachFee);
        }
        let storage = ConfigModule {
            state: true,
            oracle_address,
            fees_collector,
            jeet_wegld_sc_address: 0,
            initial_virtual_liquidity,
            issue_token_cost,
            wegld_unwrap_sc,
            token_supply,
            new_token_fee,
            reach_jeetdex_fee,
            max_market_cap,
            pair_template_address: Some(pair_template_address),
            jeetdex_router_sc_address,
            pair_map: Vec::new(),
            address_pair_map: Vec::new(),
            allowed_token: initial_token_to_buy_with,
            jeet_token_id: 0,
        };
        Ok(MasterContract { self_address, storage })
    }

    /// Pauses the contract, as its code is upgraded.
    pub fn upgrade(&mut self)
        ensures
            final(self).self_address == old(self).self_address,
            final(self).storage == (ConfigModule { state: false, ..old(self).storage }),
    {
        self.storage.state = false;
    }

    /// Pauses this contract, or a registered bonding contract.
    pub fn pause(&mut self, address: Address) -> (r: Result<AdminOutcome, Error>)
        ensures
            final(self).self_address == old(self).self_address,
            address == old(self).self_address ==> r == Ok::<AdminOutcome, Error>(
                AdminOutcome::Applied,
            ) && final(self).storage == (ConfigModule { state: false, ..old(self).storage }),
            address != old(self).self_address ==> final(self).storage == old(self).storage && (
            if old(self).storage.address_pair(address) is Some {
                r == Ok::<AdminOutcome, Error>(
                    AdminOutcome::Forward { target: address, command: BondingCommand::Pause },
                )
            } else {
                r == Err::<AdminOutcome, Error>(Error::UnauthorizedTarget)
            }),
    {
        if address == self.self_address {
            self.storage.state = false;
            Ok(AdminOutcome::Applied)
        } else {
            self.storage.check_is_pair_sc(address)?;
            Ok(AdminOutcome::Forward { target: address, command: BondingCommand::Pause })
        }
    }

    /// Resumes this contract, where the two pair maps have the same size, or
    /// a registered bonding contract.
    pub fn resume(&mut self, address: Address) -> (r: Result<AdminOutcome, Error>)
        ensures
            final(self).self_address == old(self).self_address,
            address == old(self).self_address ==> if old(self).storage.pair_map@.len() == old(
                self,
            ).storage.address_pair_map@.len() {
                r == Ok::<AdminOutcome, Error>(AdminOutcome::Applied) && final(self).storage == (
                ConfigModule { state: true, ..old(self).storage })
            } else {
                r == Err::<AdminOutcome, Error>(Error::RegistryInconsistent) && final(self).storage
                    == old(self).storage
            },
            address != old(self).self_address ==> final(self).storage == old(self).storage && (
            if old(self).storage.address_pair(address) is Some {
                r == Ok::<AdminOutcome, Error>(
                    AdminOutcome::Forward { target: address, command: BondingCommand::Resume },
                )
            } else {
                r == Err::<AdminOutcome, Error>(Error::UnauthorizedTarget)
            }),
    {
        if address == self.self_address {
            if self.storage.pair_map.len() != self.storage.address_pair_map.len() {
                return Err(Error::RegistryInconsistent);
            }
            self.storage.state = true;
            Ok(AdminOutcome::Applied)
        } else {
            self.storage.check_is_pair_sc(address)?;
            Ok(AdminOutcome::Forward { target: address, command: BondingCommand::Resume })
        }
    }

    /// Sets the router of this contract, or of a registered bonding contract.
    pub fn set_jeetdex_router(&mut self, address: Address, jeet_router_address: Address) -> (r:
        Result<AdminOutcome, Error>)
        ensures
            final(self).self_address == old(self).self_address,
            address == old(self).self_address ==> r == Ok::<AdminOutcome, Error>(
                AdminOutcome::Applied,
            ) && final(self).storage == (ConfigModule {
                jeetdex_router_sc_address: jeet_router_address,
                ..old(self).storage
            }),
            address != old(self).self_address ==> final(self).storage == old(self).storage && (
            if old(self).storage.address_pair(address) is Some {
                r == Ok::<AdminOutcome, Error>(
                    AdminOutcome::Forward {
                        target: address,
                        command: BondingCommand::SetJeetdexRouter(jeet_router_address),
                    },
                )
            } else {
                r == Err::<AdminOutcome, Error>(Error::UnauthorizedTarget)
            }),
    {
        if address == self.self_address {
            self.storage.jeetdex_router_sc_address = jeet_router_address;
            Ok(AdminOutcome::Applied)
        } else {
            self.storage.check_is_pair_sc(address)?;
            Ok(
                AdminOutcome::Forward {
                    target: address,
                    command: BondingCommand::SetJeetdexRouter(jeet_router_address),
                },
            )
        }
    }

    /// The first check of a token request that fails, if any.
    pub open spec fn new_token_error(&self, payment: Amount, gas_left: u64) -> Option<Error> {
        if !self.storage.state {
            Some(Error::NotActive)
        } else if self.storage.new_token_fee != 0 && payment != self.storage.new_token_fee {
            Some(Error::FeeMismatch)
        } else if self.storage.token_supply == 0 {
            Some(Error::SupplyUnset)
        } else if gas_left <= ISSUE_GAS_LIMIT {
            Some(Error::InsufficientGas)
        } else {
            None
        }
    }

    /// Checks a request for a new token, paid with `payment`, and builds the
    /// issuance call with what its callback needs; nothing is changed.
    #[allow(clippy::too_many_arguments)]
    pub fn create_new_token_endpoint(
        &self,
        caller: Address,
        payment: Amount,
        gas_left: u64,
        token_display_name: Vec<u8>,
        token_ticker: Vec<u8>,
        db_id: Vec<u8>,
        token_creator_buy: bool,
    ) -> (r: Result<IssueRequest, Error>)
        ensures
            r is Ok <==> self.new_token_error(payment, gas_left) is None,
            r is Err ==> Some(r->Err_0) == self.new_token_error(payment, gas_left),
            r matches Ok(q) ==> {
                &&& q.cost == self.storage.issue_token_cost
                &&& q.token_display_name@ == token_display_name@
                &&& q.token_ticker@ == token_ticker@
                &&& q.supply == self.storage.token_supply
                &&& q.num_decimals == TOKEN_DECIMALS
                &&& q.gas_limit == ISSUE_GAS_LIMIT
                &&& q.context.caller == caller
                &&& q.context.token_display_name@ == token_display_name@
                &&& q.context.token_ticker@ == token_ticker@
                &&& q.context.db_id@ == db_id@
                &&& q.context.token_creator_buy == token_creator_buy
                &&& q.context.payment == payment
            },
    {
        if !self.storage.is_active() {
            return Err(Error::NotActive);
        }
        if self.storage.new_token_fee != 0 && payment != self.storage.new_token_fee {
            return Err(Error::FeeMismatch);
        }
        if self.storage.token_supply == 0 {
            return Err(Error::SupplyUnset);
        }
        if gas_left <= ISSUE_GAS_LIMIT {
            return Err(Error::InsufficientGas);
        }
        let name = token_display_name.clone();
        let ticker = token_ticker.clone();
        assert(name@ =~= token_display_name@);
        assert(ticker@ =~= token_ticker@);
        let context = ProvisioningContext {
            caller,
            token_display_name,
            token_ticker,
            db_id,
            token_creator_buy,
            payment,
        };
        Ok(
            IssueRequest {
                cost: self.storage.issue_token_cost,
                token_display_name: name,
                token_ticker: ticker,
                supply: self.storage.token_supply,
                num_decimals: TOKEN_DECIMALS,
                gas_limit: ISSUE_GAS_LIMIT,
                context,
            },
        )
    }

    /// Decides what follows an issuance: on success, deploying the bonding
    /// contract for the issued token; on failure, refunding the configured
    /// fee where EGLD came back.
    pub fn token_issue_callback(
        &self,
        context: &ProvisioningContext,
        issued: bool,
        returned: Payment,
    ) -> (r: Result<CallbackAction, Error>)
        ensures
            issued && returned.token is Egld ==> r == Err::<CallbackAction, Error>(
                Error::NotFungible,
            ),
            issued && returned.token is Esdt ==> if self.storage.pair_template_address is Some {
                (r matches Ok(CallbackAction::Deploy(d)) && d.template
                    == self.storage.pair_template_address.unwrap()
                    && self.storage.init_args_match(&d.args, context.db_id@))
            } else {
                r == Err::<CallbackAction, Error>(Error::ConfigurationIncomplete)
            },
            !issued ==> r == Ok::<CallbackAction, Error>(
                if returned.token is Egld && returned.amount > 0 {
                    CallbackAction::Refund { to: context.caller, amount: self.storage.new_token_fee }
                } else {
                    CallbackAction::Nothing
                },
            ),
    {
        if issued {
            match returned.token {
                PaymentToken::Esdt(_) => {
                    let d = self.storage.create_bonding(context.db_id.clone())?;
                    Ok(CallbackAction::Deploy(d))
                },
                PaymentToken::Egld => Err(Error::NotFungible),
            }
        } else if returned.token == PaymentToken::Egld && returned.amount > 0 {
            Ok(CallbackAction::Refund { to: context.caller, amount: self.storage.new_token_fee })
        } else {
            Ok(CallbackAction::Nothing)
        }
    }

    /// Registers the bonding contract deployed for issued token `token_id`
    /// under the pair (`token_id`, allowed token), and lists the transfers
    /// that follow: the `amount` of the issued token to the new contract, and
    /// what the fee leaves over the issuance cost to the fees collector.
    pub fn register_bonding(
        &mut self,
        context: &ProvisioningContext,
        token_id: TokenId,
        amount: Amount,
        bonding_address: Address,
    ) -> (r: Result<ProvisioningEffects, Error>)
        ensures
            final(self).self_address == old(self).self_address,
            final(self).storage.same_settings(&old(self).storage),
            ({
                let k = PairTokens {
                    first_token_id: token_id,
                    second_token_id: old(self).storage.allowed_token,
                };
                &&& r is Ok <==> old(self).storage.pair_address(k) is None && old(
                    self,
                ).storage.address_pair(bonding_address) is None
                &&& r is Ok ==> final(self).storage.pair_map@ == old(self).storage.pair_map@.push(
                    (k, bonding_address),
                ) && final(self).storage.address_pair_map@ == old(
                    self,
                ).storage.address_pair_map@.push((bonding_address, k))
            }),
            r is Err ==> r->Err_0 == Error::DuplicatePair && final(self).storage.pair_map@ == old(
                self,
            ).storage.pair_map@ && final(self).storage.address_pair_map@ == old(
                self,
            ).storage.address_pair_map@,
            old(self).storage.registry_wf() ==> final(self).storage.registry_wf(),
            r matches Ok(e) ==> e == (ProvisioningEffects {
                router: old(self).storage.jeetdex_router_sc_address,
                bonding_address,
                token_id,
                amount,
                token_creator_buy: context.token_creator_buy,
                caller: context.caller,
                fee_transfer: match remaining_fee(
                    old(self).storage.new_token_fee,
                    old(self).storage.issue_token_cost,
                ) {
                    Some(f) => Some(EgldTransfer { to: old(self).storage.fees_collector, amount: f }),
                    None => None,
                },
            }),
    {
        let k = PairTokens { first_token_id: token_id, second_token_id: self.storage.allowed_token };
        let res = self.storage.insert_pair(k, bonding_address);
        if res.is_err() {
            return Err(Error::DuplicatePair);
        }
        let fee = self.storage.new_token_fee;
        let cost = self.storage.issue_token_cost;
        let fee_transfer = if fee > cost {
            Some(EgldTransfer { to: self.storage.fees_collector, amount: fee - cost })
        } else {
            None
        };
        Ok(
            ProvisioningEffects {
                router: self.storage.jeetdex_router_sc_address,
                bonding_address,
                token_id,
                amount,
                token_creator_buy: context.token_creator_buy,
                caller: context.caller,
                fee_transfer,
            },
        )
    }

    /// The first check of a pair upgrade that fails, if any.
    pub open spec fn upgrade_pair_error(&self, first: TokenId, second: TokenId) -> Option<Error> {
        if !self.storage.state {
            Some(Error::NotActive)
        } else if first == second {
            Some(Error::IdenticalTokens)
        } else if self.storage.allowed_token != second {
            Some(Error::TokenNotAllowed)
        } else if self.storage.resolve_pair(first, second) is None {
            Some(Error::PairNotFound)
        } else if self.storage.pair_template_address is None {
            Some(Error::ConfigurationIncomplete)
        } else {
            None
        }
    }

    /// Builds the one upgrade request for the bonding contract of a pair,
    /// registered in either order, with the current configuration.
    pub fn upgrade_pair_endpoint(&self, first_token_id: TokenId, second_token_id: TokenId) -> (r:
        Result<UpgradeRequest, Error>)
        ensures
            r is Ok <==> self.upgrade_pair_error(first_token_id, second_token_id) is None,
            r is Err ==> Some(r->Err_0) == self.upgrade_pair_error(first_token_id, second_token_id),
            r matches Ok(u) ==> u.target == self.storage.resolve_pair(
                first_token_id,
                second_token_id,
            ).unwrap() && u.template == self.storage.pair_template_address.unwrap()
                && self.storage.init_args_match(&u.args, Seq::empty()),
    {
        if !self.storage.is_active() {
            return Err(Error::NotActive);
        }
        if first_token_id == second_token_id {
            return Err(Error::IdenticalTokens);
        }
        if self.storage.allowed_token != second_token_id {
            return Err(Error::TokenNotAllowed);
        }
        match self.storage.get_pair(first_token_id, second_token_id) {
            Some(bonding_address) => self.storage.upgrade_bonding(bonding_address),
            None => Err(Error::PairNotFound),
        }
    }
}

} // verus!
