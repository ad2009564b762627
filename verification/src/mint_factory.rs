//! The factory that sets up the sale and the royalties of a new collection.

use crate::address::ComponentAddress;
use crate::address::ResourceAddress;
use crate::amount::unit;
use crate::error::Error;
use crate::minter::MintingConfig;
use crate::minter::MintingSettings;
use crate::royalty::RoyalNFTs;
use crate::royalty::RoyaltyConfigInput;
use vstd::prelude::*;

verus! {

/// The addresses a new collection and its component are given.
#[derive(Clone, Copy, Debug, PartialEq, Eq, Structural)]
pub struct FreshMint {
    /// The address of the component.
    pub mint_component: ComponentAddress,
    /// The collection.
    pub resource_address: ResourceAddress,
}

/// The badges a new collection's component works with.
#[derive(Clone, Copy, Debug, PartialEq, Eq, Structural)]
pub struct MintBadges {
    /// The creator's badge.
    pub nft_creator_admin: ResourceAddress,
    /// The badge the component keeps for itself.
    pub internal_creator_admin: ResourceAddress,
    /// The class of the component's transient token.
    pub transient_token_address: ResourceAddress,
    /// The badge of the temporary admin.
    pub virtual_admin_minting_badge: ResourceAddress,
}

/// The factory.
#[derive(Clone, Copy, Debug, PartialEq, Eq, Structural)]
pub struct MintFactory {
    pub dapp_deff: ComponentAddress,
    pub admin: ResourceAddress,
}

impl MintFactory {
    pub fn start_mint_factory(dapp_definition: ComponentAddress, admin: ResourceAddress) -> (r: MintFactory)
        ensures
            r == (MintFactory { dapp_deff: dapp_definition, admin }),
    {
        MintFactory { dapp_deff: dapp_definition, admin }
    }

    /// Sets up the royalties and the sale of the collection `fresh`, with its
    /// component at `fresh.mint_component`.  The rates must satisfy
    /// `rate <= maximum <= 1`; the sale is not open yet.
    pub fn create_royal_nft(
        &self,
        fresh: FreshMint,
        badges: MintBadges,
        minting_config: MintingConfig,
        royalty_config_input: RoyaltyConfigInput,
    ) -> (r: Result<(RoyalNFTs, MintingSettings), Error>)
        ensures
            r is Ok ==> {
                &&& r->Ok_0.0.wf()
                &&& r->Ok_0.0.nft_manager == fresh.resource_address
                &&& r->Ok_0.0.royalty_component == fresh.mint_component
                &&& r->Ok_0.0.admin_config.nft_creator_admin == badges.nft_creator_admin
                &&& r->Ok_0.0.royalty_config.royalty_percent
                    == royalty_config_input.royalty_percent
                &&& r->Ok_0.0.royalty_config.maximum_royalty_percent
                    == royalty_config_input.maximum_royalty_percent
                &&& !r->Ok_0.0.delivery_pending()
                &&& r->Ok_0.1.wf()
                &&& r->Ok_0.1.mint_price == minting_config.mint_price
                &&& r->Ok_0.1.mint_currency == minting_config.mint_currency
                &&& r->Ok_0.1.initial_sale_cap == minting_config.initial_sale_cap
                &&& r->Ok_0.1.mint_id == 0
                &&& !r->Ok_0.1.reveal_step
            },
            r is Ok <==> royalty_config_input.royalty_percent@
                <= royalty_config_input.maximum_royalty_percent@
                && royalty_config_input.maximum_royalty_percent@ <= unit(),
            r is Err ==> r->Err_0 == (if royalty_config_input.royalty_percent@ <= unit()
                && royalty_config_input.royalty_percent@
                > royalty_config_input.maximum_royalty_percent@ {
                Error::RateAboveMaximum
            } else {
                Error::RateAboveOne
            }),
    {
        let royalty = match RoyalNFTs::start_royalty_nft(
            fresh.resource_address,
            royalty_config_input,
            fresh.mint_component,
            badges.nft_creator_admin,
            badges.internal_creator_admin,
            badges.transient_token_address,
        ) {
            Ok(royalty) => royalty,
            Err(e) => {
                return Err(e);
            },
        };
        let minting = MintingSettings::start_minting_nft(
            minting_config,
            badges.virtual_admin_minting_badge,
        );
        Ok((royalty, minting))
    }
}

} // verus!
