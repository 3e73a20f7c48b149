use vstd::prelude::*;

use crate::factory::{Address, Amount, PairTokens, TokenId};

verus! {

/// Errors that the library reports to its callers.
#[derive(Clone, Copy, Debug, PartialEq, Eq, Structural)]
pub enum Error {
    /// The system is paused.
    NotActive,
    /// The attached payment differs from the configured new-token fee.
    FeeMismatch,
    /// The token supply is zero or unset.
    SupplyUnset,
    /// Not enough gas is left to pay for the issuance and its callback.
    InsufficientGas,
    /// The target address is not a registered bonding contract.
    UnauthorizedTarget,
    /// The two pair maps do not have the same size.
    RegistryInconsistent,
    /// No bonding contract template has been configured.
    ConfigurationIncomplete,
    /// The pair is not registered in either order.
    PairNotFound,
    /// The two token ids of a pair are equal.
    IdenticalTokens,
    /// The second token of a pair is not the allowed quote token.
    TokenNotAllowed,
    /// The pair or the address is already registered.
    DuplicatePair,
    /// The issuance did not return a fungible token.
    NotFungible,
    /// The fee vector handed over does not match the registry.
    LengthMismatch,
    /// The template address is the zero address.
    ZeroTemplate,
    /// The token supply is zero.
    ZeroSupply,
    /// The new-token fee is zero.
    ZeroFee,
    /// The initial virtual liquidity is zero.
    ZeroVirtualLiquidity,
    /// The maximum market cap is zero.
    ZeroMaxMarketCap,
    /// The issuance cost is zero.
    ZeroIssueCost,
    /// The unwrap contract address is the zero address.
    ZeroUnwrapAddress,
    /// The router address is the zero address.
    ZeroRouterAddress,
    /// The reach-router fee is zero.
    ZeroReachFee,
    /// The fees collector is the zero address.
    ZeroFeesCollector,
}

/// Value of the last entry of `s` whose key is `k`, if any.
pub open spec fn find_entry<K, V>(s: Seq<(K, V)>, k: K) -> Option<V>
    decreases s.len(),
{
    if s.len() == 0 {
        None
    } else if s.last().0 == k {
        Some(s.last().1)
    } else {
        find_entry(s.drop_last(), k)
    }
}

/// No key occurs twice in `s`.
pub open spec fn keys_distinct<K, V>(s: Seq<(K, V)>) -> bool {
    forall|i: int, j: int| 0 <= i < j < s.len() ==> #[trigger] s[i].0 != #[trigger] s[j].0
}

pub proof fn lemma_find_push<K, V>(s: Seq<(K, V)>, e: (K, V), k: K)
    ensures
        find_entry(s.push(e), k) == if e.0 == k {
            Some(e.1)
        } else {
            find_entry(s, k)
        },
{
    assert(s.push(e).drop_last() =~= s);
}

pub proof fn lemma_find_none<K, V>(s: Seq<(K, V)>, k: K)
    ensures
        find_entry(s, k) is None <==> forall|i: int| 0 <= i < s.len() ==> #[trigger] s[i].0 != k,
    decreases s.len(),
{
    if s.len() > 0 {
        lemma_find_none(s.drop_last(), k);
        assert forall|i: int| 0 <= i < s.len() - 1 implies #[trigger] s[i] == s.drop_last()[i] by {}
        if find_entry(s, k) is None {
            assert forall|i: int| 0 <= i < s.len() implies #[trigger] s[i].0 != k by {
                if i < s.len() - 1 {
                    assert(s.drop_last()[i].0 != k);
                }
            }
        }
    }
}

pub proof fn lemma_find_some<K, V>(s: Seq<(K, V)>, k: K)
    requires
        find_entry(s, k) is Some,
    ensures
        exists|i: int| 0 <= i < s.len() && #[trigger] s[i] == (k, find_entry(s, k).unwrap()),
    decreases s.len(),
{
    if s.last().0 == k {
        assert(s[s.len() - 1] == (k, find_entry(s, k).unwrap()));
    } else {
        lemma_find_some(s.drop_last(), k);
        let i = choose|i: int|
            0 <= i < s.drop_last().len() && #[trigger] s.drop_last()[i] == (
                k,
                find_entry(s.drop_last(), k).unwrap(),
            );
        assert(s[i] == s.drop_last()[i]);
    }
}

pub proof fn lemma_find_at<K, V>(s: Seq<(K, V)>, i: int)
    requires
        keys_distinct(s),
        0 <= i < s.len(),
    ensures
        find_entry(s, s[i].0) == Some(s[i].1),
    decreases s.len(),
{
    if i < s.len() - 1 {
        assert(s[i].0 != s[s.len() - 1].0);
        let t = s.drop_last();
        assert(t[i] == s[i]);
        assert forall|a: int, b: int| 0 <= a < b < t.len() implies #[trigger] t[a].0
            != #[trigger] t[b].0 by {
            assert(t[a] == s[a] && t[b] == s[b]);
        }
        lemma_find_at(t, i);
    }
}

/// The contract's storage: configuration values and the two pair maps.
///
/// A zero amount stands for an unset amount, as an empty storage entry
/// decodes to zero.
pub struct ConfigModule {
    pub state: bool,
    pub oracle_address: Address,
    pub fees_collector: Address,
    pub jeet_wegld_sc_address: Address,
    pub initial_virtual_liquidity: Amount,
    pub issue_token_cost: Amount,
    pub wegld_unwrap_sc: Address,
    pub token_supply: Amount,
    pub new_token_fee: Amount,
    pub reach_jeetdex_fee: Amount,
    pub max_market_cap: Amount,
    pub pair_template_address: Option<Address>,
    pub jeetdex_router_sc_address: Address,
    /// Pair to bonding contract, in insertion order.
    pub pair_map: Vec<(PairTokens, Address)>,
    /// Bonding contract to pair, in insertion order.
    pub address_pair_map: Vec<(Address, PairTokens)>,
    pub allowed_token: TokenId,
    pub jeet_token_id: TokenId,
}

impl ConfigModule {
    /// The address registered for pair `k`.
    pub open spec fn pair_address(&self, k: PairTokens) -> Option<Address> {
        find_entry(self.pair_map@, k)
    }

    /// The pair registered for address `a`.
    pub open spec fn address_pair(&self, a: Address) -> Option<PairTokens> {
        find_entry(self.address_pair_map@, a)
    }

    /// Both maps hold the same entries, key and value swapped, at the same
    /// positions, and neither holds a key twice.
    pub open spec fn registry_wf(&self) -> bool {
        &&& self.pair_map@.len() == self.address_pair_map@.len()
        &&& forall|i: int|
            0 <= i < self.pair_map@.len() ==> #[trigger] self.address_pair_map@[i] == (
                self.pair_map@[i].1,
                self.pair_map@[i].0,
            )
        &&& keys_distinct(self.pair_map@)
        &&& keys_distinct(self.address_pair_map@)
    }

    /// Every field except the two pair maps is the same in `self` and `o`.
    pub open spec fn same_settings(&self, o: &ConfigModule) -> bool {
        &&& self.state == o.state
        &&& self.oracle_address == o.oracle_address
        &&& self.fees_collector == o.fees_collector
        &&& self.jeet_wegld_sc_address == o.jeet_wegld_sc_address
        &&& self.initial_virtual_liquidity == o.initial_virtual_liquidity
        &&& self.issue_token_cost == o.issue_token_cost
        &&& self.wegld_unwrap_sc == o.wegld_unwrap_sc
        &&& self.token_supply == o.token_supply
        &&& self.new_token_fee == o.new_token_fee
        &&& self.reach_jeetdex_fee == o.reach_jeetdex_fee
        &&& self.max_market_cap == o.max_market_cap
        &&& self.pair_template_address == o.pair_template_address
        &&& self.jeetdex_router_sc_address == o.jeetdex_router_sc_address
        &&& self.allowed_token == o.allowed_token
        &&& self.jeet_token_id == o.jeet_token_id
    }

    pub fn is_active(&self) -> (r: bool)
        ensures
            r == self.state,
    {
        self.state
    }

    /// Looks `address` up among the registered bonding contracts.
    pub fn is_pair_sc(&self, address: Address) -> (r: bool)
        ensures
            r == self.address_pair(address).is_some(),
    {
        let n = self.address_pair_map.len();
        let mut i: usize = n;
        assert(self.address_pair_map@.take(n as int) =~= self.address_pair_map@);
        while i > 0
            invariant
                i <= n == self.address_pair_map@.len(),
                find_entry(self.address_pair_map@, address) == find_entry(
                    self.address_pair_map@.take(i as int),
                    address,
                ),
            decreases i,
        {
            let s = Ghost(self.address_pair_map@.take(i as int));
            assert(s@.drop_last() =~= self.address_pair_map@.take(i - 1));
            if self.address_pair_map[i - 1].0 == address {
                return true;
            }
            i = i - 1;
        }
        assert(self.address_pair_map@.take(0) =~= Seq::<(Address, PairTokens)>::empty());
        false
    }

    pub fn set_fees_collector(&mut self, fees_collector: Address) -> (r: Result<(), Error>)
        ensures
            r is Ok <==> fees_collector != 0,
            r is Ok ==> *final(self) == (ConfigModule { fees_collector, ..*old(self) }),
            r is Err ==> r == Err::<(), Error>(Error::ZeroFeesCollector) && *final(self) == *old(
                self,
            ),
    {
        if fees_collector == 0 {
            return Err(Error::ZeroFeesCollector);
        }
        self.fees_collector = fees_collector;
        Ok(())
    }

    pub fn set_initial_virtual_liquidity(&mut self, virtual_liquidity: Amount)
        ensures
            *final(self) == (ConfigModule {
                initial_virtual_liquidity: virtual_liquidity,
                ..*old(self)
            }),
    {
        self.initial_virtual_liquidity = virtual_liquidity;
    }

    pub fn set_token_supply(&mut self, token_supply: Amount) -> (r: Result<(), Error>)
        ensures
            r is Ok <==> token_supply > 0,
            r is Ok ==> *final(self) == (ConfigModule { token_supply, ..*old(self) }),
            r is Err ==> r == Err::<(), Error>(Error::ZeroSupply) && *final(self) == *old(self),
    {
        if token_supply == 0 {
            return Err(Error::ZeroSupply);
        }
        self.token_supply = token_supply;
        Ok(())
    }

    pub fn set_new_token_fee(&mut self, new_token_fee: Amount) -> (r: Result<(), Error>)
        ensures
            r is Ok <==> new_token_fee > 0,
            r is Ok ==> *final(self) == (ConfigModule { new_token_fee, ..*old(self) }),
            r is Err ==> r == Err::<(), Error>(Error::ZeroFee) && *final(self) == *old(self),
    {
        if new_token_fee == 0 {
            return Err(Error::ZeroFee);
        }
        self.new_token_fee = new_token_fee;
        Ok(())
    }

    pub fn set_max_market_cap(&mut self, max_market_cap: Amount) -> (r: Result<(), Error>)
        ensures
            r is Ok <==> max_market_cap > 0,
            r is Ok ==> *final(self) == (ConfigModule { max_market_cap, ..*old(self) }),
            r is Err ==> r == Err::<(), Error>(Error::ZeroMaxMarketCap) && *final(self) == *old(
                self,
            ),
    {
        if max_market_cap == 0 {
            return Err(Error::ZeroMaxMarketCap);
        }
        self.max_market_cap = max_market_cap;
        Ok(())
    }

    #[allow(non_snake_case)]
    pub fn set_Bonding_template_address(&mut self, address: Address)
        ensures
            *final(self) == (ConfigModule { pair_template_address: Some(address), ..*old(self) }),
    {
        self.pair_template_address = Some(address);
    }

    /// Looks pair `k` up, in the order given.
    pub fn lookup_pair(&self, k: PairTokens) -> (r: Option<Address>)
        ensures
            r == self.pair_address(k),
    {
        let n = self.pair_map.len();
        let mut i: usize = n;
        assert(self.pair_map@.take(n as int) =~= self.pair_map@);
        while i > 0
            invariant
                i <= n == self.pair_map@.len(),
                find_entry(self.pair_map@, k) == find_entry(self.pair_map@.take(i as int), k),
            decreases i,
        {
            let s = Ghost(self.pair_map@.take(i as int));
            assert(s@.drop_last() =~= self.pair_map@.take(i - 1));
            if self.pair_map[i - 1].0 == k {
                return Some(self.pair_map[i - 1].1);
            }
            i = i - 1;
        }
        assert(self.pair_map@.take(0) =~= Seq::<(PairTokens, Address)>::empty());
        None
    }

    /// Registers bonding contract `address` under pair `k`, in both maps at
    /// once; fails, changing nothing, where either is already registered.
    pub fn insert_pair(&mut self, k: PairTokens, address: Address) -> (r: Result<(), Error>)
        ensures
            r is Ok <==> old(self).pair_address(k) is None && old(self).address_pair(address) is None,
            r is Ok ==> final(self).pair_map@ == old(self).pair_map@.push((k, address))
                && final(self).address_pair_map@ == old(self).address_pair_map@.push((address, k)),
            r is Err ==> r == Err::<(), Error>(Error::DuplicatePair)
                && final(self).pair_map@ == old(self).pair_map@
                && final(self).address_pair_map@ == old(self).address_pair_map@,
            final(self).same_settings(old(self)),
            old(self).registry_wf() ==> final(self).registry_wf(),
            r is Ok ==> final(self).pair_address(k) == Some(address)
                && final(self).address_pair(address) == Some(k),
    {
        if self.lookup_pair(k).is_some() || self.is_pair_sc(address) {
            return Err(Error::DuplicatePair);
        }
        let ghost s0 = self.pair_map@;
        let ghost a0 = self.address_pair_map@;
        self.pair_map.push((k, address));
        self.address_pair_map.push((address, k));
        proof {
            lemma_find_push(s0, (k, address), k);
            lemma_find_push(a0, (address, k), address);
            lemma_find_none(s0, k);
            lemma_find_none(a0, address);
            let s1 = self.pair_map@;
            let a1 = self.address_pair_map@;
            if keys_distinct(s0) {
            assert forall|i: int, j: int| 0 <= i < j < s1.len() implies #[trigger] s1[i].0
                != #[trigger] s1[j].0 by {
                if j < s0.len() {
                    assert(s1[i] == s0[i] && s1[j] == s0[j]);
                } else {
                    assert(s1[i] == s0[i]);
                }
            }
            }
            if keys_distinct(a0) {
            assert forall|i: int, j: int| 0 <= i < j < a1.len() implies #[trigger] a1[i].0
                != #[trigger] a1[j].0 by {
                if j < a0.len() {
                    assert(a1[i] == a0[i] && a1[j] == a0[j]);
                } else {
                    assert(a1[i] == a0[i]);
                }
            }
            }
            if s0.len() == a0.len() {
                assert forall|i: int| 0 <= i < s1.len() && i < s0.len() implies #[trigger] s1[i]
                    == s0[i] && a1[i] == a0[i] by {}
            }
        }
        Ok(())
    }

    /// Fails with `UnauthorizedTarget` unless `pair_address` is a registered
    /// bonding contract.
    pub fn check_is_pair_sc(&self, pair_address: Address) -> (r: Result<(), Error>)
        ensures
            r is Ok <==> self.address_pair(pair_address).is_some(),
            r is Err ==> r == Err::<(), Error>(Error::UnauthorizedTarget),
    {
        if self.is_pair_sc(pair_address) {
            Ok(())
        } else {
            Err(Error::UnauthorizedTarget)
        }
    }
}

/// Bidirectionality: in a well-formed registry every pair's address maps
/// back to that pair and the two maps have the same size.
pub proof fn lemma_registry_bidirectional(c: &ConfigModule, k: PairTokens)
    requires
        c.registry_wf(),
    ensures
        c.pair_map@.len() == c.address_pair_map@.len(),
        c.pair_address(k) is Some ==> c.address_pair(c.pair_address(k).unwrap()) == Some(k),
{
    if c.pair_address(k) is Some {
        lemma_find_some(c.pair_map@, k);
        let i = choose|i: int|
            0 <= i < c.pair_map@.len() && #[trigger] c.pair_map@[i] == (
                k,
                find_entry(c.pair_map@, k).unwrap(),
            );
        assert(c.address_pair_map@[i] == (c.pair_map@[i].1, c.pair_map@[i].0));
        lemma_find_at(c.address_pair_map@, i);
    }
}

} // verus!
