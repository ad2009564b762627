//! The primary sale of a collection.
//!
//! A creator opens the sale with a price, a cap, a starting time and the
//! venues that may sell.  Buyers then mint editions, which are numbered in
//! the order in which they are minted.  The creator can confine the sale to an
//! allow list that gives each account an allowance.
//!
//! A buyer who names an account gets the editions together with the royalty
//! component's transient token, and must clear the delivery as after a
//! purchase: see [`crate::delivery`].

use crate::address::ComponentAddress;
use crate::address::Key;
use crate::address::ResourceAddress;
use crate::amount::mul_floor;
use crate::amount::unit;
use crate::amount::Amount;
use crate::error::Error;
use crate::id_set::lemma_distinct_ids_of_distinct;
use crate::resource::FungibleBucket;
use crate::resource::NonFungibleBucket;
use crate::resource::Proof;
use crate::royalty::RoyalNFTs;
use crate::table::Table;
use vstd::prelude::*;

verus! {

/// What a creator states when setting up the sale of a collection.
#[derive(Clone, Copy, Debug, PartialEq, Eq, Structural)]
pub struct MintingConfig {
    pub mint_price: Amount,
    pub mint_currency: ResourceAddress,
    pub initial_sale_cap: u64,
}

/// The state of the sale.
pub struct MintingSettings {
    /// The price of one edition.
    pub mint_price: Amount,
    /// The currency the price is in.
    pub mint_currency: ResourceAddress,
    /// The number of editions the sale is capped at.
    pub initial_sale_cap: u64,
    /// The number of the next edition.
    pub mint_id: u64,
    /// The time, in seconds since the epoch, from which editions can be
    /// bought; none while the sale was never opened.
    pub mint_enabled_after: Option<i64>,
    /// Whether the sale is open.
    pub reveal_step: bool,
    /// The takings of the sale.
    pub mint_payments_vault: Amount,
    /// The credentials of the venues that may sell.
    pub minting_venue: Table<ResourceAddress, ()>,
    /// For each account on the allow list, how many editions it has bought
    /// and how many it may buy at most.
    pub allow_list: Table<ComponentAddress, (u64, u64)>,
    /// Whether only the accounts on the allow list may buy.
    pub restrict_mint: bool,
    /// The badge of the temporary admin.
    pub virtual_admin_minting_badge: ResourceAddress,
    /// The account of the temporary admin, if one is named.
    pub virtual_account_admin: Option<ComponentAddress>,
}

/// What a buyer gets out of a mint.
pub struct Minted {
    /// What the payment held beyond the price of the editions.
    pub change: FungibleBucket,
    /// The editions.
    pub nfts: NonFungibleBucket,
    /// The royalty component's transient token, when the buyer named an
    /// account.
    pub transient_token: Option<FungibleBucket>,
}

/// The numbers of `n` editions from number `from` on.
pub open spec fn edition_ids(from: u64, n: u64) -> Seq<u64> {
    Seq::new(n as nat, |i: int| (from + i) as u64)
}

/// `venues` with every credential of `more` added.
pub open spec fn with_venues(venues: Map<ResourceAddress, ()>, more: Seq<ResourceAddress>) -> Map<
    ResourceAddress,
    (),
>
    decreases more.len(),
{
    if more.len() == 0 {
        venues
    } else {
        with_venues(venues, more.drop_last()).insert(more.last(), ())
    }
}

/// `list` with every entry of `entries` put in, a later entry for an account
/// replacing an earlier one.
pub open spec fn with_allowances(
    list: Map<ComponentAddress, (u64, u64)>,
    entries: Seq<(ComponentAddress, (u64, u64))>,
) -> Map<ComponentAddress, (u64, u64)>
    decreases entries.len(),
{
    if entries.len() == 0 {
        list
    } else {
        with_allowances(list, entries.drop_last()).insert(entries.last().0, entries.last().1)
    }
}

/// `list` without the accounts of `accounts`.
pub open spec fn without_accounts(
    list: Map<ComponentAddress, (u64, u64)>,
    accounts: Seq<ComponentAddress>,
) -> Map<ComponentAddress, (u64, u64)>
    decreases accounts.len(),
{
    if accounts.len() == 0 {
        list
    } else {
        without_accounts(list, accounts.drop_last()).remove(accounts.last())
    }
}

/// The numbers of `n` editions from number `from` on.
fn number_editions(from: u64, n: u64) -> (r: Vec<u64>)
    requires
        from + n <= u64::MAX,
    ensures
        r@ == edition_ids(from, n),
        r@.no_duplicates(),
{
    let mut out: Vec<u64> = Vec::new();
    let mut i: u64 = 0;
    while i < n
        invariant
            i <= n,
            from + n <= u64::MAX,
            out@.len() == i,
            forall|q: int| 0 <= q < i ==> out@[q] == from + q,
        decreases n - i,
    {
        out.push(from + i);
        i += 1;
    }
    proof {
        assert(out@ =~= edition_ids(from, n));
    }
    out
}

impl MintingSettings {
    pub open spec fn wf(&self) -> bool {
        self.minting_venue.wf() && self.allow_list.wf()
    }

    /// Whether `auth` may mint on the creator's behalf: it is the creator's
    /// badge, or the temporary admin is switched on and it is the temporary
    /// admin's badge.
    pub open spec fn mint_authorized(&self, royalty: &RoyalNFTs, auth: Proof) -> bool {
        royalty.is_admin(auth) || (royalty.admin_config.temp_admin && auth.resource_address
            == self.virtual_admin_minting_badge)
    }

    /// Whether the sale has started at time `now`.
    pub open spec fn started(&self, now: i64) -> bool {
        self.mint_enabled_after is Some && now >= self.mint_enabled_after->Some_0
    }

    /// Whether `account` may buy `amount` editions under the allow list, as
    /// far as the list is in force.
    pub open spec fn allowance_check(&self, account: Option<ComponentAddress>, amount: u64) -> Result<
        (),
        Error,
    > {
        if !self.restrict_mint {
            Ok(())
        } else if account is None || !self.allow_list@.contains_key(account->Some_0) {
            Err(Error::NotAuthorized)
        } else {
            let entry = self.allow_list@[account->Some_0];
            if entry.0 > entry.1 || amount > entry.1 - entry.0 {
                Err(Error::MintLimitExceeded)
            } else {
                Ok(())
            }
        }
    }

    /// The price of `amount` editions bought through `permission` with
    /// `payment` at time `now`, for delivery to `account` if one is named, or
    /// the reason they cannot be bought.
    pub open spec fn mint_preview_check(
        &self,
        royalty: &RoyalNFTs,
        payment: FungibleBucket,
        amount: u64,
        account: Option<ComponentAddress>,
        permission: Proof,
        now: i64,
    ) -> Result<Amount, Error> {
        let required = amount * self.mint_price@;
        if !self.reveal_step {
            Err(Error::MintNotEnabled)
        } else if !self.minting_venue@.contains_key(permission.resource_address) {
            Err(Error::BuyerNotPermitted)
        } else if required > u128::MAX {
            Err(Error::Overflow)
        } else if payment.amount@ < required {
            Err(Error::InsufficientPayment)
        } else if amount == 0 {
            Err(Error::NothingToTrade)
        } else if payment.resource_address != self.mint_currency {
            Err(Error::PaymentMismatch)
        } else if self.mint_payments_vault@ + required > u128::MAX {
            Err(Error::Overflow)
        } else if self.allowance_check(account, amount) is Err {
            Err(self.allowance_check(account, amount)->Err_0)
        } else if self.mint_id > self.initial_sale_cap {
            Err(Error::SaleCapReached)
        } else if !self.started(now) {
            Err(Error::MintNotEnabled)
        } else if amount > self.initial_sale_cap {
            Err(Error::SaleCapReached)
        } else if self.mint_id + amount > u64::MAX {
            Err(Error::Overflow)
        } else if account is Some && royalty.delivery_check() is Err {
            Err(royalty.delivery_check()->Err_0)
        } else {
            Ok(Amount { attos: required as u128 })
        }
    }

    /// The state of the sale after `amount` editions were bought for
    /// `required`: they are numbered and paid for, the buyer's allowance is
    /// used as far as the allow list is in force, and the sale is closed if
    /// the numbering has reached the cap.
    pub open spec fn minted(
        &self,
        next: &MintingSettings,
        amount: u64,
        account: Option<ComponentAddress>,
        required: Amount,
    ) -> bool {
        &&& next.mint_id == self.mint_id + amount
        &&& next.mint_payments_vault@ == self.mint_payments_vault@ + required@
        &&& next.reveal_step == (self.reveal_step && !(self.mint_id < self.initial_sale_cap
            && self.initial_sale_cap <= self.mint_id + amount))
        &&& next.allow_list@ == (if self.restrict_mint {
            self.allow_list@.insert(
                account->Some_0,
                (
                    (self.allow_list@[account->Some_0].0 + amount) as u64,
                    self.allow_list@[account->Some_0].1,
                ),
            )
        } else {
            self.allow_list@
        })
        &&& !self.restrict_mint ==> next.allow_list == self.allow_list
        &&& *next == (MintingSettings {
            mint_id: next.mint_id,
            mint_payments_vault: next.mint_payments_vault,
            reveal_step: next.reveal_step,
            allow_list: next.allow_list,
            ..*self
        })
    }

    /// Sets up a sale that is not open yet.
    pub fn start_minting_nft(minting_config: MintingConfig, virtual_admin_minting_badge: ResourceAddress) -> (r:
        MintingSettings)
        ensures
            r.wf(),
            r.mint_price == minting_config.mint_price,
            r.mint_currency == minting_config.mint_currency,
            r.initial_sale_cap == minting_config.initial_sale_cap,
            r.mint_id == 0,
            r.mint_enabled_after is None,
            !r.reveal_step,
            r.mint_payments_vault@ == 0,
            r.minting_venue@ == Map::<ResourceAddress, ()>::empty(),
            r.allow_list@ == Map::<ComponentAddress, (u64, u64)>::empty(),
            !r.restrict_mint,
            r.virtual_admin_minting_badge == virtual_admin_minting_badge,
            r.virtual_account_admin is None,
    {
        MintingSettings {
            mint_price: minting_config.mint_price,
            mint_currency: minting_config.mint_currency,
            initial_sale_cap: minting_config.initial_sale_cap,
            mint_id: 0,
            mint_enabled_after: None,
            reveal_step: false,
            mint_payments_vault: Amount::zero(),
            minting_venue: Table::new(),
            allow_list: Table::new(),
            restrict_mint: false,
            virtual_admin_minting_badge,
            virtual_account_admin: None,
        }
    }

    fn check_admin(royalty: &RoyalNFTs, auth: &Proof) -> (r: bool)
        ensures
            r == royalty.is_admin(*auth),
    {
        auth.resource_address.same(&royalty.admin_config.nft_creator_admin)
    }

    /// Opens the sale: sets cap, price and starting time, and admits the
    /// venues.
    pub fn enable_mint_reveal(
        &mut self,
        royalty: &RoyalNFTs,
        auth: &Proof,
        initial_sale_cap: u64,
        enable_mint_after: i64,
        mint_price: Amount,
        minting_venues: Vec<ResourceAddress>,
    ) -> (r: Result<(), Error>)
        requires
            old(self).wf(),
        ensures
            final(self).wf(),
            r is Ok <==> royalty.is_admin(*auth),
            r is Err ==> r->Err_0 == Error::NotAuthorized && *final(self) == *old(self),
            r is Ok ==> final(self).minting_venue@ == with_venues(
                old(self).minting_venue@,
                minting_venues@,
            ) && *final(self) == (MintingSettings {
                initial_sale_cap,
                mint_price,
                reveal_step: true,
                mint_enabled_after: Some(enable_mint_after),
                minting_venue: final(self).minting_venue,
                ..*old(self)
            }),
    {
        if !Self::check_admin(royalty, auth) {
            return Err(Error::NotAuthorized);
        }
        self.initial_sale_cap = initial_sale_cap;
        self.mint_price = mint_price;
        self.reveal_step = true;
        self.mint_enabled_after = Some(enable_mint_after);
        let mut i: usize = 0;
        proof {
            assert(minting_venues@.take(0) =~= Seq::<ResourceAddress>::empty());
        }
        while i < minting_venues.len()
            invariant
                i <= minting_venues.len(),
                self.minting_venue.wf(),
                self.allow_list.wf(),
                self.minting_venue@ == with_venues(
                    old(self).minting_venue@,
                    minting_venues@.take(i as int),
                ),
                *self == (MintingSettings {
                    initial_sale_cap,
                    mint_price,
                    reveal_step: true,
                    mint_enabled_after: Some(enable_mint_after),
                    minting_venue: self.minting_venue,
                    ..*old(self)
                }),
            decreases minting_venues.len() - i,
        {
            proof {
                assert(minting_venues@.take(i as int + 1).drop_last() =~= minting_venues@.take(
                    i as int,
                ));
            }
            self.minting_venue.insert(minting_venues[i], ());
            i += 1;
        }
        proof {
            assert(minting_venues@.take(minting_venues@.len() as int) =~= minting_venues@);
        }
        Ok(())
    }

    /// Closes the sale.
    pub fn cancel_public_mint(&mut self, royalty: &RoyalNFTs, auth: &Proof) -> (r: Result<(), Error>)
        ensures
            r is Ok <==> royalty.is_admin(*auth),
            r is Err ==> r->Err_0 == Error::NotAuthorized && *final(self) == *old(self),
            r is Ok ==> *final(self) == (MintingSettings { reveal_step: false, ..*old(self) }),
    {
        if !Self::check_admin(royalty, auth) {
            return Err(Error::NotAuthorized);
        }
        self.reveal_step = false;
        Ok(())
    }

    /// Puts accounts on the allow list, each with the number of editions it
    /// has bought and the number it may buy at most.
    pub fn add_to_allow_list(
        &mut self,
        royalty: &RoyalNFTs,
        auth: &Proof,
        accounts: Vec<(ComponentAddress, (u64, u64))>,
    ) -> (r: Result<(), Error>)
        requires
            old(self).wf(),
        ensures
            final(self).wf(),
            r is Ok <==> royalty.is_admin(*auth),
            r is Err ==> r->Err_0 == Error::NotAuthorized && *final(self) == *old(self),
            r is Ok ==> final(self).allow_list@ == with_allowances(
                old(self).allow_list@,
                accounts@,
            ) && *final(self) == (MintingSettings {
                allow_list: final(self).allow_list,
                ..*old(self)
            }),
    {
        if !Self::check_admin(royalty, auth) {
            return Err(Error::NotAuthorized);
        }
        let mut i: usize = 0;
        proof {
            assert(accounts@.take(0) =~= Seq::<(ComponentAddress, (u64, u64))>::empty());
        }
        while i < accounts.len()
            invariant
                i <= accounts.len(),
                self.minting_venue.wf(),
                self.allow_list.wf(),
                self.allow_list@ == with_allowances(
                    old(self).allow_list@,
                    accounts@.take(i as int),
                ),
                *self == (MintingSettings { allow_list: self.allow_list, ..*old(self) }),
            decreases accounts.len() - i,
        {
            proof {
                assert(accounts@.take(i as int + 1).drop_last() =~= accounts@.take(i as int));
            }
            self.allow_list.insert(accounts[i].0, accounts[i].1);
            i += 1;
        }
        proof {
            assert(accounts@.take(accounts@.len() as int) =~= accounts@);
        }
        Ok(())
    }

    /// Takes accounts off the allow list.
    pub fn remove_from_allow_list(&mut self, royalty: &RoyalNFTs, auth: &Proof, accounts: Vec<ComponentAddress>) -> (r:
        Result<(), Error>)
        requires
            old(self).wf(),
        ensures
            final(self).wf(),
            r is Ok <==> royalty.is_admin(*auth),
            r is Err ==> r->Err_0 == Error::NotAuthorized && *final(self) == *old(self),
            r is Ok ==> final(self).allow_list@ == without_accounts(
                old(self).allow_list@,
                accounts@,
            ) && *final(self) == (MintingSettings {
                allow_list: final(self).allow_list,
                ..*old(self)
            }),
    {
        if !Self::check_admin(royalty, auth) {
            return Err(Error::NotAuthorized);
        }
        let mut i: usize = 0;
        proof {
            assert(accounts@.take(0) =~= Seq::<ComponentAddress>::empty());
        }
        while i < accounts.len()
            invariant
                i <= accounts.len(),
                self.minting_venue.wf(),
                self.allow_list.wf(),
                self.allow_list@ == without_accounts(
                    old(self).allow_list@,
                    accounts@.take(i as int),
                ),
                *self == (MintingSettings { allow_list: self.allow_list, ..*old(self) }),
            decreases accounts.len() - i,
        {
            proof {
                assert(accounts@.take(i as int + 1).drop_last() =~= accounts@.take(i as int));
            }
            self.allow_list.remove(&accounts[i]);
            i += 1;
        }
        proof {
            assert(accounts@.take(accounts@.len() as int) =~= accounts@);
        }
        Ok(())
    }

    /// Confines the sale to the allow list, or opens it to everyone.
    pub fn restrict_mint_list(&mut self, royalty: &RoyalNFTs, auth: &Proof, restrict: bool) -> (r: Result<
        (),
        Error,
    >)
        ensures
            r is Ok <==> royalty.is_admin(*auth),
            r is Err ==> r->Err_0 == Error::NotAuthorized && *final(self) == *old(self),
            r is Ok ==> *final(self) == (MintingSettings { restrict_mint: restrict, ..*old(self) }),
    {
        if !Self::check_admin(royalty, auth) {
            return Err(Error::NotAuthorized);
        }
        self.restrict_mint = restrict;
        Ok(())
    }

    /// Admits a venue.
    pub fn add_permissioned_mint_buyer(&mut self, royalty: &RoyalNFTs, auth: &Proof, buyer: ResourceAddress) -> (r:
        Result<(), Error>)
        requires
            old(self).wf(),
        ensures
            final(self).wf(),
            r is Ok <==> royalty.is_admin(*auth),
            r is Err ==> r->Err_0 == Error::NotAuthorized && *final(self) == *old(self),
            r is Ok ==> final(self).minting_venue@ == old(self).minting_venue@.insert(buyer, ())
                && *final(self) == (MintingSettings {
                minting_venue: final(self).minting_venue,
                ..*old(self)
            }),
    {
        if !Self::check_admin(royalty, auth) {
            return Err(Error::NotAuthorized);
        }
        self.minting_venue.insert(buyer, ());
        Ok(())
    }

    /// Withdraws the admission of a venue.
    pub fn remove_permissioned_mint_buyer(&mut self, royalty: &RoyalNFTs, auth: &Proof, buyer: ResourceAddress) -> (r:
        Result<(), Error>)
        requires
            old(self).wf(),
        ensures
            final(self).wf(),
            r is Ok <==> royalty.is_admin(*auth),
            r is Err ==> r->Err_0 == Error::NotAuthorized && *final(self) == *old(self),
            r is Ok ==> final(self).minting_venue@ == old(self).minting_venue@.remove(buyer)
                && *final(self) == (MintingSettings {
                minting_venue: final(self).minting_venue,
                ..*old(self)
            }),
    {
        if !Self::check_admin(royalty, auth) {
            return Err(Error::NotAuthorized);
        }
        self.minting_venue.remove(&buyer);
        Ok(())
    }

    /// Names the account of the temporary admin.
    pub fn add_virtual_account_admin(&mut self, royalty: &RoyalNFTs, auth: &Proof, account: ComponentAddress) -> (r:
        Result<(), Error>)
        ensures
            r is Ok <==> royalty.is_admin(*auth),
            r is Err ==> r->Err_0 == Error::NotAuthorized && *final(self) == *old(self),
            r is Ok ==> *final(self) == (MintingSettings {
                virtual_account_admin: Some(account),
                ..*old(self)
            }),
    {
        if !Self::check_admin(royalty, auth) {
            return Err(Error::NotAuthorized);
        }
        self.virtual_account_admin = Some(account);
        Ok(())
    }

    /// Forgets the account of the temporary admin.
    pub fn remove_virtual_account_admin(&mut self, royalty: &RoyalNFTs, auth: &Proof) -> (r: Result<
        (),
        Error,
    >)
        ensures
            r is Ok <==> royalty.is_admin(*auth),
            r is Err ==> r->Err_0 == Error::NotAuthorized && *final(self) == *old(self),
            r is Ok ==> *final(self) == (MintingSettings {
                virtual_account_admin: None,
                ..*old(self)
            }),
    {
        if !Self::check_admin(royalty, auth) {
            return Err(Error::NotAuthorized);
        }
        self.virtual_account_admin = None;
        Ok(())
    }

    /// Hands the creator one badge of the temporary admin.
    pub fn mint_temp_admin(&self, royalty: &RoyalNFTs, auth: &Proof) -> (r: Result<FungibleBucket, Error>)
        ensures
            r == (if royalty.is_admin(*auth) {
                Ok::<FungibleBucket, Error>(
                    FungibleBucket {
                        resource_address: self.virtual_admin_minting_badge,
                        divisibility: 0,
                        amount: Amount { attos: unit() as u128 },
                    },
                )
            } else {
                Err(Error::NotAuthorized)
            }),
    {
        if !Self::check_admin(royalty, auth) {
            return Err(Error::NotAuthorized);
        }
        Ok(
            FungibleBucket {
                resource_address: self.virtual_admin_minting_badge,
                divisibility: 0,
                amount: Amount::one(),
            },
        )
    }

    /// Hands the creator the takings of the sale.
    pub fn withdraw_from_mint_vault(&mut self, royalty: &RoyalNFTs, auth: &Proof) -> (r: Result<
        FungibleBucket,
        Error,
    >)
        ensures
            r == (if royalty.is_admin(*auth) {
                Ok::<FungibleBucket, Error>(
                    FungibleBucket {
                        resource_address: old(self).mint_currency,
                        divisibility: 18,
                        amount: old(self).mint_payments_vault,
                    },
                )
            } else {
                Err(Error::NotAuthorized)
            }),
            r is Err ==> *final(self) == *old(self),
            r is Ok ==> *final(self) == (MintingSettings {
                mint_payments_vault: Amount { attos: 0 },
                ..*old(self)
            }),
    {
        if !Self::check_admin(royalty, auth) {
            return Err(Error::NotAuthorized);
        }
        let takings = self.mint_payments_vault;
        self.mint_payments_vault = Amount::zero();
        Ok(FungibleBucket::new(self.mint_currency, takings))
    }

    /// Mints `editions` editions for the creator, free of charge and whatever
    /// the state of the sale.
    pub fn direct_mint(&mut self, royalty: &RoyalNFTs, auth_proof: &Proof, editions: u64) -> (r: Result<
        NonFungibleBucket,
        Error,
    >)
        ensures
            match r {
                Ok(nfts) => {
                    &&& old(self).mint_authorized(royalty, *auth_proof)
                    &&& old(self).mint_id + editions <= u64::MAX
                    &&& nfts.wf()
                    &&& nfts.resource() == royalty.nft_manager
                    &&& nfts.local_ids() == edition_ids(old(self).mint_id, editions)
                    &&& *final(self) == (MintingSettings {
                        mint_id: (old(self).mint_id + editions) as u64,
                        ..*old(self)
                    })
                },
                Err(e) => *final(self) == *old(self) && e == (if !old(self).mint_authorized(
                    royalty,
                    *auth_proof,
                ) {
                    Error::NotAuthorized
                } else {
                    Error::Overflow
                }) && (!old(self).mint_authorized(royalty, *auth_proof) || old(self).mint_id
                    + editions > u64::MAX),
            },
    {
        let authorized = Self::check_admin(royalty, auth_proof) || (royalty.admin_config.temp_admin
            && auth_proof.resource_address.same(&self.virtual_admin_minting_badge));
        if !authorized {
            return Err(Error::NotAuthorized);
        }
        if editions > u64::MAX - self.mint_id {
            return Err(Error::Overflow);
        }
        let ids = number_editions(self.mint_id, editions);
        proof {
            lemma_distinct_ids_of_distinct(ids@);
        }
        let nfts = NonFungibleBucket::new(royalty.nft_manager, &ids);
        self.mint_id = self.mint_id + editions;
        Ok(nfts)
    }

    /// The price of `amount` editions, when it is within the range of
    /// amounts.
    fn price_of(&self, amount: u64) -> (r: Option<Amount>)
        ensures
            amount * self.mint_price@ <= u128::MAX ==> r == Some(
                Amount { attos: (amount * self.mint_price@) as u128 },
            ),
            amount * self.mint_price@ > u128::MAX ==> r is None,
    {
        let count = Amount::from_units(amount);
        proof {
            let n = amount as nat;
            let p = self.mint_price@;
            let u = unit();
            assert((n * u * p) / u == n * p) by (nonlinear_arith)
                requires
                    u > 0,
            ;
            assert(mul_floor(count@, p) == n * p);
        }
        count.checked_mul(self.mint_price)
    }

    /// Evaluates [`MintingSettings::allowance_check`].
    fn check_allowance(&self, account: Option<ComponentAddress>, amount: u64) -> (r: Result<(), Error>)
        requires
            self.wf(),
        ensures
            r == self.allowance_check(account, amount),
    {
        if !self.restrict_mint {
            return Ok(());
        }
        let account = match account {
            Some(account) => account,
            None => {
                return Err(Error::NotAuthorized);
            },
        };
        match self.allow_list.get(&account) {
            Some(entry) => {
                if entry.0 > entry.1 || amount > entry.1 - entry.0 {
                    Err(Error::MintLimitExceeded)
                } else {
                    Ok(())
                }
            },
            None => Err(Error::NotAuthorized),
        }
    }

    /// The price of the editions, or the reason they cannot be bought.
    /// Nothing changes.
    pub fn quote_mint_preview(
        &self,
        royalty: &RoyalNFTs,
        payment: &FungibleBucket,
        amount: u64,
        account: Option<ComponentAddress>,
        permission: &Proof,
        now: i64,
    ) -> (r: Result<Amount, Error>)
        requires
            self.wf(),
        ensures
            r == self.mint_preview_check(royalty, *payment, amount, account, *permission, now),
    {
        if !self.reveal_step {
            return Err(Error::MintNotEnabled);
        }
        if !self.minting_venue.contains_key(&permission.resource_address) {
            return Err(Error::BuyerNotPermitted);
        }
        let required = match self.price_of(amount) {
            Some(required) => required,
            None => {
                return Err(Error::Overflow);
            },
        };
        if payment.amount.attos < required.attos {
            return Err(Error::InsufficientPayment);
        }
        if amount == 0 {
            return Err(Error::NothingToTrade);
        }
        if !payment.resource_address.same(&self.mint_currency) {
            return Err(Error::PaymentMismatch);
        }
        if self.mint_payments_vault.checked_add(required).is_none() {
            return Err(Error::Overflow);
        }
        match self.check_allowance(account, amount) {
            Ok(()) => {},
            Err(e) => {
                return Err(e);
            },
        }
        if self.mint_id > self.initial_sale_cap {
            return Err(Error::SaleCapReached);
        }
        match self.mint_enabled_after {
            Some(start) => {
                if now < start {
                    return Err(Error::MintNotEnabled);
                }
            },
            None => {
                return Err(Error::MintNotEnabled);
            },
        }
        if amount > self.initial_sale_cap {
            return Err(Error::SaleCapReached);
        }
        if amount > u64::MAX - self.mint_id {
            return Err(Error::Overflow);
        }
        if account.is_some() {
            match royalty.can_start_delivery() {
                Ok(()) => {},
                Err(e) => {
                    return Err(e);
                },
            }
        }
        Ok(required)
    }

    /// Sells `amount` editions through the venue that shows `permission`,
    /// at time `now`.
    ///
    /// The sale must be open and started, the venue admitted, the payment in
    /// the sale's currency and at least the price of the editions, the
    /// buyer's allowance sufficient where the allow list is in force, and the
    /// numbering not beyond the cap.  The buyer gets the editions and the
    /// change.  A buyer who names an account also gets the royalty
    /// component's transient token, and the delivery awaits clearing.  The
    /// sale closes when the numbering reaches the cap.
    pub fn mint_preview_nft(
        &mut self,
        royalty: &mut RoyalNFTs,
        payment: FungibleBucket,
        amount: u64,
        account: Option<ComponentAddress>,
        permission: &Proof,
        now: i64,
    ) -> (r: Result<Minted, Error>)
        requires
            old(self).wf(),
            old(royalty).wf(),
        ensures
            final(self).wf(),
            final(royalty).wf(),
            match r {
                Ok(out) => {
                    let check = old(self).mint_preview_check(
                        old(royalty),
                        payment,
                        amount,
                        account,
                        *permission,
                        now,
                    );
                    &&& check is Ok
                    &&& old(self).minted(final(self), amount, account, check->Ok_0)
                    &&& out.change == (FungibleBucket {
                        resource_address: payment.resource_address,
                        divisibility: payment.divisibility,
                        amount: Amount { attos: (payment.amount@ - check->Ok_0@) as u128 },
                    })
                    &&& out.nfts.wf()
                    &&& out.nfts.resource() == old(royalty).nft_manager
                    &&& out.nfts.local_ids() == edition_ids(old(self).mint_id, amount)
                    &&& match account {
                        Some(recipient) => out.transient_token == Some(
                            old(royalty).transient_token(),
                        ) && old(royalty).delivering(
                            final(royalty),
                            edition_ids(old(self).mint_id, amount),
                            recipient,
                        ),
                        None => out.transient_token is None && *final(royalty) == *old(royalty),
                    }
                },
                Err(e) => {
                    &&& old(self).mint_preview_check(
                        old(royalty),
                        payment,
                        amount,
                        account,
                        *permission,
                        now,
                    ) == Err::<Amount, Error>(e)
                    &&& *final(self) == *old(self)
                    &&& *final(royalty) == *old(royalty)
                },
            },
    {
        let required = match self.quote_mint_preview(
            royalty,
            &payment,
            amount,
            account,
            permission,
            now,
        ) {
            Ok(required) => required,
            Err(e) => {
                return Err(e);
            },
        };
        let ids = number_editions(self.mint_id, amount);
        proof {
            lemma_distinct_ids_of_distinct(ids@);
        }
        let nfts = NonFungibleBucket::new(royalty.nft_manager, &ids);
        let transient_token = match account {
            Some(recipient) => {
                match royalty.start_delivery(ids, recipient) {
                    Ok(token) => Some(token),
                    Err(e) => {
                        return Err(e);
                    },
                }
            },
            None => None,
        };
        self.mint_payments_vault = Amount {
            attos: self.mint_payments_vault.attos + required.attos,
        };
        if self.restrict_mint {
            match account {
                Some(recipient) => {
                    match self.allow_list.get(&recipient) {
                        Some(entry) => {
                            let used = entry.0 + amount;
                            let most = entry.1;
                            self.allow_list.insert(recipient, (used, most));
                        },
                        None => {},
                    }
                },
                None => {},
            }
        }
        if self.mint_id < self.initial_sale_cap && self.initial_sale_cap - self.mint_id <= amount {
            self.reveal_step = false;
        }
        self.mint_id = self.mint_id + amount;
        Ok(
            Minted {
                change: FungibleBucket {
                    resource_address: payment.resource_address,
                    divisibility: payment.divisibility,
                    amount: Amount { attos: payment.amount.attos - required.attos },
                },
                nfts,
                transient_token,
            },
        )
    }

    /// The price of `no_editions` editions bought through `permission` with
    /// `payment` at time `now` and carried away by the venue, or the reason
    /// they cannot be bought.
    pub open spec fn mint_standard_check(
        &self,
        payment: FungibleBucket,
        no_editions: u64,
        permission: Proof,
        now: i64,
    ) -> Result<Amount, Error> {
        let required = no_editions * self.mint_price@;
        if !self.reveal_step {
            Err(Error::MintNotEnabled)
        } else if payment.amount@ < self.mint_price@ {
            Err(Error::InsufficientPayment)
        } else if payment.resource_address != self.mint_currency {
            Err(Error::PaymentMismatch)
        } else if self.mint_id >= self.initial_sale_cap {
            Err(Error::SaleCapReached)
        } else if !self.minting_venue@.contains_key(permission.resource_address) {
            Err(Error::BuyerNotPermitted)
        } else if no_editions > self.initial_sale_cap {
            Err(Error::SaleCapReached)
        } else if !self.started(now) {
            Err(Error::MintNotEnabled)
        } else if self.mint_id + no_editions > u64::MAX {
            Err(Error::Overflow)
        } else if required > u128::MAX {
            Err(Error::Overflow)
        } else if payment.amount@ < required {
            Err(Error::InsufficientPayment)
        } else if self.mint_payments_vault@ + required > u128::MAX {
            Err(Error::Overflow)
        } else {
            Ok(Amount { attos: required as u128 })
        }
    }

    /// Sells `no_editions` editions to the venue that shows `permission`, at
    /// time `now`, without a delivery to clear: the venue carries the
    /// editions away itself.
    pub fn mint_standard_preview_nft(
        &mut self,
        royalty: &RoyalNFTs,
        payment: FungibleBucket,
        no_editions: u64,
        permission: &Proof,
        now: i64,
    ) -> (r: Result<(NonFungibleBucket, FungibleBucket), Error>)
        requires
            old(self).wf(),
        ensures
            final(self).wf(),
            match r {
                Ok(out) => {
                    let check = old(self).mint_standard_check(
                        payment,
                        no_editions,
                        *permission,
                        now,
                    );
                    &&& check is Ok
                    &&& out.0.wf()
                    &&& out.0.resource() == royalty.nft_manager
                    &&& out.0.local_ids() == edition_ids(old(self).mint_id, no_editions)
                    &&& out.1 == (FungibleBucket {
                        resource_address: payment.resource_address,
                        divisibility: payment.divisibility,
                        amount: Amount { attos: (payment.amount@ - check->Ok_0@) as u128 },
                    })
                    &&& *final(self) == (MintingSettings {
                        mint_id: (old(self).mint_id + no_editions) as u64,
                        mint_payments_vault: Amount {
                            attos: (old(self).mint_payments_vault@ + check->Ok_0@) as u128,
                        },
                        ..*old(self)
                    })
                },
                Err(e) => old(self).mint_standard_check(payment, no_editions, *permission, now)
                    == Err::<Amount, Error>(e) && *final(self) == *old(self),
            },
    {
        if !self.reveal_step {
            return Err(Error::MintNotEnabled);
        }
        if payment.amount.attos < self.mint_price.attos {
            return Err(Error::InsufficientPayment);
        }
        if !payment.resource_address.same(&self.mint_currency) {
            return Err(Error::PaymentMismatch);
        }
        if self.mint_id >= self.initial_sale_cap {
            return Err(Error::SaleCapReached);
        }
        if !self.minting_venue.contains_key(&permission.resource_address) {
            return Err(Error::BuyerNotPermitted);
        }
        if no_editions > self.initial_sale_cap {
            return Err(Error::SaleCapReached);
        }
        match self.mint_enabled_after {
            Some(start) => {
                if now < start {
                    return Err(Error::MintNotEnabled);
                }
            },
            None => {
                return Err(Error::MintNotEnabled);
            },
        }
        if no_editions > u64::MAX - self.mint_id {
            return Err(Error::Overflow);
        }
        let required = match self.price_of(no_editions) {
            Some(required) => required,
            None => {
                return Err(Error::Overflow);
            },
        };
        if payment.amount.attos < required.attos {
            return Err(Error::InsufficientPayment);
        }
        let takings = match self.mint_payments_vault.checked_add(required) {
            Some(takings) => takings,
            None => {
                return Err(Error::Overflow);
            },
        };
        let ids = number_editions(self.mint_id, no_editions);
        proof {
            lemma_distinct_ids_of_distinct(ids@);
        }
        let nfts = NonFungibleBucket::new(royalty.nft_manager, &ids);
        self.mint_payments_vault = takings;
        self.mint_id = self.mint_id + no_editions;
        Ok(
            (
                nfts,
                FungibleBucket {
                    resource_address: payment.resource_address,
                    divisibility: payment.divisibility,
                    amount: Amount { attos: payment.amount.attos - required.attos },
                },
            ),
        )
    }
}

} // verus!
