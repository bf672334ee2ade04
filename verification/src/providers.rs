//! What is known of each endpoint: its chain, whether that chain takes
//! legacy transactions only, and the gas price it reported.

use vstd::prelude::*;
use ethers_core::types as eth;
use crate::uint::U256;

verus! {

/// What one endpoint reported when it was first used.
#[derive(Clone, Debug, PartialEq, Eq)]
pub struct ProviderInfo {
    pub url: String,
    pub chain: u64,
    /// Transactions for this endpoint are legacy transactions.
    pub is_legacy: bool,
    /// The gas price, where the endpoint reported one.
    pub gas_price: Option<U256>,
}

/// The endpoints of a run, each held once.
#[derive(Clone, Debug)]
pub struct ProviderRegistry {
    pub providers: Vec<ProviderInfo>,
}

/// What `ethers_core` says of the chain with this id: whether it takes
/// legacy transactions only, and nothing where it does not know the chain.
pub uninterp spec fn legacy_chain(chain: u64) -> Option<bool>;

/// `is_legacy` of `ethers_core::types::Chain`, asked of the chain that
/// `ethers_core` knows under this id, which its `TryFrom<u64>` finds. The
/// contract names the answer, and the lack of one for an id that is not
/// known, and says nothing else of either.
#[verifier::external_body]
fn ethers_is_legacy(chain: u64) -> (legacy: Option<bool>)
    ensures
        legacy == legacy_chain(chain),
{
    match eth::Chain::try_from(chain) {
        Ok(known) => Some(known.is_legacy()),
        Err(_) => None,
    }
}

/// Whether transactions for a chain are legacy transactions: where the user
/// forces that, or the chain is known to take no others. A chain that is not
/// known counts as one with a fee market.
pub open spec fn counts_as_legacy(force_legacy: bool, chain: u64) -> bool {
    force_legacy || legacy_chain(chain) == Some(true)
}

/// Decides whether transactions for a chain are legacy transactions.
pub fn is_legacy_chain(force_legacy: bool, chain: u64) -> (legacy: bool)
    ensures
        legacy == counts_as_legacy(force_legacy, chain),
{
    if force_legacy {
        true
    } else {
        match ethers_is_legacy(chain) {
            Some(legacy) => legacy,
            None => false,
        }
    }
}

/// The first entry for `url` in a list of endpoints.
pub open spec fn find_in(providers: Seq<ProviderInfo>, url: Seq<char>) -> Option<ProviderInfo>
    decreases providers.len(),
{
    if providers.len() == 0 {
        None
    } else if providers[0].url@ == url {
        Some(providers[0])
    } else {
        find_in(providers.drop_first(), url)
    }
}

impl ProviderRegistry {
    /// What the registry holds for `url`.
    pub open spec fn registered(&self, url: Seq<char>) -> Option<ProviderInfo> {
        find_in(self.providers@, url)
    }

    pub fn new() -> (registry: ProviderRegistry)
        ensures
            registry.providers@.len() == 0,
    {
        ProviderRegistry { providers: Vec::new() }
    }

    /// The entry of an endpoint that has been initialised.
    pub fn get(&self, url: &String) -> (info: Option<&ProviderInfo>)
        ensures
            info is Some <==> self.registered(url@) is Some,
            info is Some ==> *info->0 == self.registered(url@)->0,
    {
        let mut i: usize = 0;
        assert(self.providers@.skip(0) =~= self.providers@);
        while i < self.providers.len()
            invariant
                i <= self.providers@.len(),
                self.registered(url@) == find_in(self.providers@.skip(i as int), url@),
            decreases self.providers@.len() - i,
        {
            assert(self.providers@.skip(i as int)[0] == self.providers@[i as int]);
            assert(self.providers@.skip(i as int).drop_first() =~= self.providers@.skip(i + 1));
            if self.providers[i].url == *url {
                return Some(&self.providers[i]);
            }
            i += 1;
        }
        None
    }

    /// Enters an endpoint with what it reported, unless the registry holds
    /// it already: then nothing changes. Whether its chain counts as legacy
    /// is what `is_legacy_chain` decides.
    pub fn get_or_init(
        &mut self,
        url: String,
        force_legacy: bool,
        chain: u64,
        gas_price: Option<U256>,
    ) -> (added: bool)
        ensures
            added == (old(self).registered(url@) is None),
            !added ==> *final(self) == *old(self),
            added ==> final(self).providers@ == old(self).providers@.push(
                ProviderInfo {
                    url,
                    chain,
                    is_legacy: counts_as_legacy(force_legacy, chain),
                    gas_price,
                },
            ),
            final(self).registered(url@) is Some,
            added ==> final(self).registered(url@) == Some(
                ProviderInfo {
                    url,
                    chain,
                    is_legacy: counts_as_legacy(force_legacy, chain),
                    gas_price,
                },
            ),
            forall|other: Seq<char>|
                other != url@ ==> #[trigger] final(self).registered(other) == old(self).registered(
                    other,
                ),
    {
        if self.get(&url).is_some() {
            return false;
        }
        let is_legacy = is_legacy_chain(force_legacy, chain);
        let info = ProviderInfo { url, chain, is_legacy, gas_price };
        proof {
            lemma_push_keeps_found(self.providers@, info);
        }
        self.providers.push(info);
        true
    }
}

/// Adding an entry at the end changes what is found for its own URL only,
/// and only where nothing was found for it before.
pub proof fn lemma_push_keeps_found(providers: Seq<ProviderInfo>, info: ProviderInfo)
    ensures
        forall|url: Seq<char>|
            url != info.url@ ==> #[trigger] find_in(providers.push(info), url) == find_in(
                providers,
                url,
            ),
        find_in(providers, info.url@) is Some ==> find_in(providers.push(info), info.url@)
            == find_in(providers, info.url@),
        find_in(providers, info.url@) is None ==> find_in(providers.push(info), info.url@) == Some(
            info,
        ),
    decreases providers.len(),
{
    if providers.len() == 0 {
        assert(providers.push(info).drop_first() =~= providers);
        assert forall|url: Seq<char>| url != info.url@ implies #[trigger] find_in(
            providers.push(info),
            url,
        ) == find_in(providers, url) by {
            assert(find_in(providers.push(info).drop_first(), url) is None);
        }
    } else {
        lemma_push_keeps_found(providers.drop_first(), info);
        assert(providers.push(info).drop_first() =~= providers.drop_first().push(info));
        assert(providers.push(info)[0] == providers[0]);
        assert forall|url: Seq<char>| url != info.url@ implies #[trigger] find_in(
            providers.push(info),
            url,
        ) == find_in(providers, url) by {
            assert(find_in(providers.drop_first().push(info), url) == find_in(
                providers.drop_first(),
                url,
            ));
        }
    }
}

} // verus!
