//! The marketplace: the stored state and the operations on it.

use vstd::prelude::*;
use crate::auction::{Auction, Settlement};
use crate::config::MarketConfig;
use crate::error::{AdminError, AuctionError, OracleError, ProductError};
use crate::freshness::FreshnessRating;
use crate::ident::{identity_view, Identity, Tag};
use crate::model::{ListingKey, MarketState, PriceKey};
use crate::oracle::{publish, MarketPriceRecord};
use crate::product::{Product, ProductDetails, QualityGrade};
use crate::steps;
use crate::steps::option_of;
use crate::store::{
    admin_view, auction_map, farmers_distinct, has_ledger, has_price, ledger_of, ledgers_wf,
    lemma_ledger_found, lemma_ledger_opened, lemma_maps_after_slot_change, lemma_price_found,
    lemma_price_pushed, lemma_price_replaced, lemma_replace_listing, lemma_slot_appended,
    listed_map, listing_wf, price_index, price_key, price_keys_distinct, price_map, product_map,
    slot, FarmerLedger, Listing,
};

verus! {

/// The marketplace.
///
/// Its view is the [`MarketState`] that it stores.
pub struct Marketplace {
    config: MarketConfig,
    admin: Option<Identity>,
    ledgers: Vec<FarmerLedger>,
    prices: Vec<MarketPriceRecord>,
}

impl View for Marketplace {
    type V = MarketState;

    closed spec fn view(&self) -> MarketState {
        MarketState {
            config: self.config,
            admin: admin_view(self.admin),
            listed: listed_map(self.ledgers@),
            products: product_map(self.ledgers@),
            auctions: auction_map(self.ledgers@),
            prices: price_map(self.prices@),
        }
    }
}

impl Marketplace {
    /// What the stored data obeys at all times.
    #[verifier::type_invariant]
    pub closed spec fn wf(&self) -> bool {
        &&& self.config.wf()
        &&& ledgers_wf(self.config, self.ledgers@)
        &&& price_keys_distinct(self.prices@)
    }

    /// The state of a well-formed marketplace obeys the model's invariant.
    pub proof fn lemma_view_inv(&self)
        requires
            self.wf(),
        ensures
            self@.inv(),
    {
        let ledgers = self.ledgers@;
        let prices = self.prices@;
        assert forall|key: ListingKey| slot(ledgers, key) is Some implies {
            let i = ledger_of(ledgers, key.0);
            &&& 0 <= i < ledgers.len()
            &&& ledgers[i].farmer@ == key.0
            &&& listing_wf(self.config, key.0, key.1 - 1, slot(ledgers, key)->0)
        } by {
            let i = ledger_of(ledgers, key.0);
            assert(listing_wf(self.config, ledgers[i].farmer@, key.1 - 1, ledgers[i].listings@[key.1 - 1]));
        }
        assert forall|key: PriceKey| #[trigger]
            self@.prices.contains_key(key) implies self@.price_consistent(key) by {
            let i = price_index(prices, key);
            assert(price_key(prices[i]) == key);
        }
        assert forall|farmer: Seq<char>, id: u64| #[trigger]
            self@.products.contains_key((farmer, id)) <==> 1 <= id <= self@.listing_count(farmer) by {
            assert(self@.products.contains_key((farmer, id)) <==> slot(ledgers, (farmer, id)) is Some);
        }
        assert forall|key: ListingKey| #[trigger]
            self@.products.contains_key(key) implies self@.product_consistent(key) by {
            assert(slot(ledgers, key) is Some);
        }
        assert forall|key: ListingKey| #[trigger]
            self@.auctions.contains_key(key) implies self@.auction_consistent(key) by {
            assert(slot(ledgers, key) is Some);
        }
    }

    /// A marketplace under `config`, with nothing stored and no administrator.
    ///
    /// There is none under a configuration that is not well formed.
    pub fn new(config: MarketConfig) -> (market: Option<Marketplace>)
        ensures
            match market {
                Some(market) => config.wf() && market@ == MarketState::empty(config),
                None => !config.wf(),
            },
    {
        if !config.is_well_formed() {
            return None;
        }
        let market = Marketplace { config, admin: None, ledgers: Vec::new(), prices: Vec::new() };
        proof {
            assert(market@.listed =~= Map::empty());
            assert(market@.products =~= Map::empty());
            assert(market@.auctions =~= Map::empty());
            assert(market@.prices =~= Map::empty());
        }
        Some(market)
    }

    /// The configuration that the marketplace was set up with.
    pub fn config(&self) -> (config: &MarketConfig)
        ensures
            *config == self@.config,
    {
        &self.config
    }

    /// Sets the administrator, once: a second call fails and changes nothing.
    pub fn initialize(&mut self, admin: Identity) -> (outcome: Result<(), AdminError>)
        ensures
            outcome == old(self)@.initialize_outcome(),
            final(self)@ == old(self)@.after_initialize(admin@),
    {
        proof {
            use_type_invariant(&*self);
        }
        match steps::initialize(self.admin.as_ref()) {
            Err(e) => Err(e),
            Ok(()) => {
                self.admin = Some(admin);
                Ok(())
            },
        }
    }

    /// The administrator, once set.
    pub fn admin(&self) -> (admin: Option<&Identity>)
        ensures
            identity_view(admin) == self@.admin,
    {
        self.admin.as_ref()
    }

    /// Tells whether `caller` is the administrator.
    pub fn check_admin(&self, caller: &Identity) -> (outcome: Result<(), AdminError>)
        ensures
            outcome == self@.admin_check(caller@),
    {
        match &self.admin {
            None => Err(AdminError::NotInitialized),
            Some(admin) => if *admin == *caller {
                Ok(())
            } else {
                Err(AdminError::Unauthorized)
            },
        }
    }
}

impl Marketplace {
    /// Finds the ledger of `farmer`.
    fn find_ledger(&self, farmer: &Identity) -> (found: Option<usize>)
        requires
            farmers_distinct(self.ledgers@),
        ensures
            match found {
                Some(i) => {
                    &&& i < self.ledgers@.len()
                    &&& self.ledgers@[i as int].farmer@ == farmer@
                    &&& has_ledger(self.ledgers@, farmer@)
                    &&& ledger_of(self.ledgers@, farmer@) == i
                },
                None => !has_ledger(self.ledgers@, farmer@),
            },
    {
        let mut i: usize = 0;
        while i < self.ledgers.len()
            invariant
                i <= self.ledgers@.len(),
                farmers_distinct(self.ledgers@),
                forall|k: int| 0 <= k < i ==> (#[trigger] self.ledgers@[k]).farmer@ != farmer@,
            decreases self.ledgers@.len() - i,
        {
            if self.ledgers[i].farmer == *farmer {
                proof {
                    lemma_ledger_found(self.ledgers@, i as int);
                }
                return Some(i);
            }
            i += 1;
        }
        None
    }

    /// Finds the slot of a listing: the place of its farmer's ledger and its
    /// place in that ledger.
    fn locate(&self, farmer: &Identity, listing_id: u64) -> (found: Option<(usize, usize)>)
        requires
            farmers_distinct(self.ledgers@),
        ensures
            match found {
                Some((i, j)) => {
                    &&& i < self.ledgers@.len()
                    &&& j < self.ledgers@[i as int].listings@.len()
                    &&& self.ledgers@[i as int].farmer@ == farmer@
                    &&& j + 1 == listing_id
                    &&& slot(self.ledgers@, (farmer@, listing_id)) == Some(
                        self.ledgers@[i as int].listings@[j as int],
                    )
                },
                None => slot(self.ledgers@, (farmer@, listing_id)) is None,
            },
    {
        match self.find_ledger(farmer) {
            None => None,
            Some(i) => {
                let count = self.ledgers[i].listings.len();
                if listing_id == 0 || listing_id > count as u64 {
                    None
                } else {
                    Some((i, (listing_id - 1) as usize))
                }
            },
        }
    }

    /// Finds the reference price of a category in a region.
    fn find_price(&self, product_type: &Tag, region: &Tag) -> (found: Option<usize>)
        requires
            price_keys_distinct(self.prices@),
        ensures
            match found {
                Some(i) => {
                    &&& i < self.prices@.len()
                    &&& price_key(self.prices@[i as int]) == (product_type@, region@)
                    &&& has_price(self.prices@, (product_type@, region@))
                    &&& price_index(self.prices@, (product_type@, region@)) == i
                },
                None => !has_price(self.prices@, (product_type@, region@)),
            },
    {
        let mut i: usize = 0;
        while i < self.prices.len()
            invariant
                i <= self.prices@.len(),
                price_keys_distinct(self.prices@),
                forall|k: int| 0 <= k < i ==> price_key(#[trigger] self.prices@[k]) != (product_type@, region@),
            decreases self.prices@.len() - i,
        {
            if self.prices[i].product_type == *product_type && self.prices[i].region == *region {
                proof {
                    lemma_price_found(self.prices@, i as int);
                }
                return Some(i);
            }
            i += 1;
        }
        None
    }

    /// Looks up a listing.
    fn product_ref(&self, farmer: &Identity, listing_id: u64) -> (found: Option<&Product>)
        requires
            self.wf(),
        ensures
            option_of(found) == self@.product_at((farmer@, listing_id)),
            found is Some ==> found->0.priced_by(self.config),
    {
        match self.locate(farmer, listing_id) {
            None => None,
            Some((i, j)) => {
                proof {
                    assert(listing_wf(
                        self.config,
                        self.ledgers@[i as int].farmer@,
                        j as int,
                        self.ledgers@[i as int].listings@[j as int],
                    ));
                }
                Some(&self.ledgers[i].listings[j].product)
            },
        }
    }

    /// Looks up an auction.
    fn auction_ref(&self, farmer: &Identity, listing_id: u64) -> (found: Option<&Auction>)
        requires
            self.wf(),
        ensures
            option_of(found) == self@.auction_at((farmer@, listing_id)),
    {
        match self.locate(farmer, listing_id) {
            None => None,
            Some((i, j)) => self.ledgers[i].listings[j].auction.as_ref(),
        }
    }

    /// Looks up an auction and copies it.
    fn auction_copy(&self, farmer: &Identity, listing_id: u64) -> (found: Option<Auction>)
        requires
            self.wf(),
        ensures
            found == self@.auction_at((farmer@, listing_id)),
    {
        match self.auction_ref(farmer, listing_id) {
            None => None,
            Some(auction) => Some(auction.clone()),
        }
    }

    /// Stores an auction in the slot of its listing.
    fn store_auction(&mut self, farmer: &Identity, listing_id: u64, auction: Auction)
        requires
            old(self).wf(),
            old(self)@.products.contains_key((farmer@, listing_id)),
            auction.farmer@ == farmer@,
            auction.listing_id == listing_id,
            auction.quantity_available <= old(self)@.products[(farmer@, listing_id)].details.quantity,
            auction.auction_end_time <= old(self)@.products[(farmer@, listing_id)].expiry_date,
            auction.highest_bidder is None ==> auction.highest_bid == 0,
        ensures
            final(self)@ == (MarketState {
                auctions: old(self)@.auctions.insert((farmer@, listing_id), auction),
                ..old(self)@
            }),
    {
        let place = self.locate(farmer, listing_id);
        let (i, j) = place.unwrap();
        let ghost before = self.ledgers@;
        let ghost key = (farmer@, listing_id);
        let mut ledgers: Vec<FarmerLedger> = Vec::new();
        std::mem::swap(&mut ledgers, &mut self.ledgers);
        ledgers[i].listings[j].auction = Some(auction);
        proof {
            let listing = ledgers@[i as int].listings@[j as int];
            assert(listing_wf(
                self.config,
                before[i as int].farmer@,
                j as int,
                before[i as int].listings@[j as int],
            ));
            lemma_replace_listing(self.config, before, ledgers@, i as int, j as int, listing);
            assert(product_map(before).insert(key, listing.product) =~= product_map(before));
        }
        self.ledgers = ledgers;
    }

    /// Looks up a reference price.
    fn price_ref(&self, product_type: &Tag, region: &Tag) -> (found: Option<&MarketPriceRecord>)
        requires
            self.wf(),
        ensures
            option_of(found) == self@.price_at((product_type@, region@)),
    {
        match self.find_price(product_type, region) {
            None => None,
            Some(i) => Some(&self.prices[i]),
        }
    }

    /// Number of listings that `farmer` has made.
    pub fn listing_count(&self, farmer: &Identity) -> (count: u64)
        ensures
            count == self@.listing_count(farmer@),
    {
        proof {
            use_type_invariant(self);
        }
        match self.find_ledger(farmer) {
            None => 0,
            Some(i) => self.ledgers[i].listings.len() as u64,
        }
    }

    /// Reads a listing as it is stored.
    ///
    /// The answer depends on the stored state alone: asked again before any
    /// change, it is the same.
    pub fn get_product(&self, farmer: &Identity, listing_id: u64) -> (outcome: Result<
        &Product,
        ProductError,
    >)
        ensures
            match self@.product_outcome((farmer@, listing_id)) {
                Ok(product) => outcome == Ok::<&Product, ProductError>(&product),
                Err(e) => outcome == Err::<&Product, ProductError>(e),
            },
    {
        proof {
            use_type_invariant(self);
        }
        steps::get_product(self.admin.is_some(), self.product_ref(farmer, listing_id))
    }

    /// Tells whether a listing is expired at time `now`: it is once `now` lies
    /// after its expiry date, and not yet at that date.
    pub fn check_product_expiry(&self, farmer: &Identity, listing_id: u64, now: u64) -> (outcome: Result<
        bool,
        ProductError,
    >)
        ensures
            outcome == self@.expiry_outcome((farmer@, listing_id), now),
    {
        proof {
            use_type_invariant(self);
        }
        steps::check_product_expiry(self.admin.is_some(), self.product_ref(farmer, listing_id), now)
    }

    /// Reads an auction as it is stored.
    ///
    /// The answer depends on the stored state alone: asked again before any
    /// change, it is the same.
    pub fn get_auction(&self, farmer: &Identity, listing_id: u64) -> (outcome: Result<
        &Auction,
        AuctionError,
    >)
        ensures
            match self@.auction_outcome((farmer@, listing_id)) {
                Ok(auction) => outcome == Ok::<&Auction, AuctionError>(&auction),
                Err(e) => outcome == Err::<&Auction, AuctionError>(e),
            },
    {
        proof {
            use_type_invariant(self);
        }
        steps::get_auction(self.admin.is_some(), self.auction_ref(farmer, listing_id))
    }
}

impl Marketplace {
    /// Lists a product of `farmer` at time `now`.
    ///
    /// The submission is held to the listing rules in their order, and the
    /// first one broken is reported. A valid submission gets the farmer's next
    /// listing number, counted from 1, and is stored with the expiry date,
    /// tier and price that the configuration gives it at `now`.
    pub fn add_product(&mut self, farmer: &Identity, details: ProductDetails, now: u64) -> (outcome: Result<
        u64,
        ProductError,
    >)
        ensures
            outcome == old(self)@.add_product_outcome(*farmer, details, now),
            final(self)@ == old(self)@.after_add_product(*farmer, details, now),
    {
        proof {
            use_type_invariant(&*self);
        }
        if self.admin.is_none() {
            return Err(ProductError::NotInitialized);
        }
        let found = self.find_ledger(farmer);
        let mut product = match Product::list(&self.config, farmer.clone(), 0, details, now) {
            Err(e) => {
                return Err(e);
            },
            Ok(product) => product,
        };
        let ghost before = self.ledgers@;
        let mut ledgers: Vec<FarmerLedger> = Vec::new();
        std::mem::swap(&mut ledgers, &mut self.ledgers);
        let id: u64;
        match found {
            Some(i) => {
                ledgers[i].listings.push(Listing { product, auction: None });
                let count = ledgers[i].listings.len();
                id = count as u64;
                ledgers[i].listings[count - 1].product.listing_id = id;
                proof {
                    let listing = ledgers@[i as int].listings@[count - 1];
                    assert(listing.product == Product::listed(self.config, *farmer, id, details, now));
                    assert(ledgers@[i as int].listings@ =~= before[i as int].listings@.push(listing));
                    lemma_slot_appended(before, ledgers@, i as int, listing);
                    lemma_maps_after_slot_change(before, ledgers@, (farmer@, id), listing);
                    assert(auction_map(before).remove((farmer@, id)) =~= auction_map(before));
                    assert(ledgers_wf(self.config, ledgers@)) by {
                        assert forall|a: int, b: int|
                            0 <= a < ledgers@.len() && 0 <= b < ledgers@[a].listings@.len() implies listing_wf(
                            self.config,
                            ledgers@[a].farmer@,
                            b,
                            #[trigger] ledgers@[a].listings@[b],
                        ) by {
                            if a != i || b != count - 1 {
                                assert(ledgers@[a].listings@[b] == before[a].listings@[b]);
                            }
                        }
                    }
                }
            },
            None => {
                id = 1;
                product.listing_id = id;
                let mut listings: Vec<Listing> = Vec::new();
                listings.push(Listing { product, auction: None });
                let ledger = FarmerLedger { farmer: farmer.clone(), listings };
                proof {
                    let listing = ledger.listings@[0];
                    assert(listing.product == Product::listed(self.config, *farmer, id, details, now));
                    assert(ledger.listings@ =~= seq![listing]);
                    lemma_ledger_opened(before, before.push(ledger), ledger, listing);
                    lemma_maps_after_slot_change(before, before.push(ledger), (farmer@, id), listing);
                    assert(auction_map(before).remove((farmer@, id)) =~= auction_map(before));
                }
                ledgers.push(ledger);
                proof {
                    assert(ledgers_wf(self.config, ledgers@)) by {
                        assert forall|a: int, b: int|
                            0 <= a < ledgers@.len() && 0 <= b < ledgers@[a].listings@.len() implies listing_wf(
                            self.config,
                            ledgers@[a].farmer@,
                            b,
                            #[trigger] ledgers@[a].listings@[b],
                        ) by {
                            if a < before.len() {
                                assert(ledgers@[a].listings@[b] == before[a].listings@[b]);
                            }
                        }
                    }
                }
            },
        }
        self.ledgers = ledgers;
        Ok(id)
    }
}

impl Marketplace {
    /// Brings a listing's tier and price up to time `now`, stores both and
    /// returns the tier.
    pub fn update_product_freshness(&mut self, farmer: &Identity, listing_id: u64, now: u64) -> (outcome:
        Result<FreshnessRating, ProductError>)
        ensures
            outcome == old(self)@.refresh_outcome((farmer@, listing_id), now),
            final(self)@ == old(self)@.after_refresh((farmer@, listing_id), now),
    {
        proof {
            use_type_invariant(&*self);
        }
        if self.admin.is_none() {
            return Err(ProductError::NotInitialized);
        }
        let (i, j) = match self.locate(farmer, listing_id) {
            None => {
                return Err(ProductError::ProductNotFound);
            },
            Some(place) => place,
        };
        let ghost before = self.ledgers@;
        let ghost key = (farmer@, listing_id);
        let mut ledgers: Vec<FarmerLedger> = Vec::new();
        std::mem::swap(&mut ledgers, &mut self.ledgers);
        let rating = ledgers[i].listings[j].product.refresh(&self.config, now);
        proof {
            let listing = ledgers@[i as int].listings@[j as int];
            assert(before[i as int].listings@[j as int].auction == listing.auction);
            assert(listing_wf(
                self.config,
                before[i as int].farmer@,
                j as int,
                before[i as int].listings@[j as int],
            ));
            lemma_replace_listing(self.config, before, ledgers@, i as int, j as int, listing);
            match listing.auction {
                Some(auction) => {
                    assert(auction_map(before).insert(key, auction) =~= auction_map(before));
                },
                None => {
                    assert(auction_map(before).remove(key) =~= auction_map(before));
                },
            }
        }
        self.ledgers = ledgers;
        Ok(rating)
    }

    /// Opens an auction on a listing at time `now`.
    ///
    /// The listing has to exist and to have no auction yet, and the end time
    /// has to lie after `now` and not after the product's expiry date. The new
    /// auction has no bid and offers the listing's quantity.
    pub fn create_auction(
        &mut self,
        farmer: &Identity,
        listing_id: u64,
        reserve_price: u64,
        end_time: u64,
        min_quantity: u32,
        bulk_discount_threshold: u32,
        bulk_discount_percentage: u32,
        dynamic_pricing: bool,
        now: u64,
    ) -> (outcome: Result<(), AuctionError>)
        ensures
            outcome == match old(self)@.create_auction_rejection((farmer@, listing_id), end_time, now) {
                Some(e) => Err::<(), AuctionError>(e),
                None => Ok(()),
            },
            final(self)@ == old(self)@.after_create_auction(
                (farmer@, listing_id),
                reserve_price,
                end_time,
                min_quantity,
                bulk_discount_threshold,
                bulk_discount_percentage,
                dynamic_pricing,
                now,
            ),
    {
        proof {
            use_type_invariant(&*self);
        }
        proof {
            self.lemma_view_inv();
        }
        match steps::create_auction(
            self.admin.is_some(),
            self.product_ref(farmer, listing_id),
            self.auction_ref(farmer, listing_id).is_some(),
            reserve_price,
            end_time,
            min_quantity,
            bulk_discount_threshold,
            bulk_discount_percentage,
            dynamic_pricing,
            now,
        ) {
            Err(e) => Err(e),
            Ok(auction) => {
                self.store_auction(farmer, listing_id, auction);
                Ok(())
            },
        }
    }
}

impl Marketplace {
    /// Submits a bid on the auction of `farmer`'s listing at time `now`.
    ///
    /// A bid by the farmer is refused whatever it offers. Otherwise the bid
    /// has to come before the end time, to offer at least the reserve price
    /// for each unit, and to exceed the highest bid so far after its bulk
    /// discount. An accepted bid is stored at its discounted amount; a refused
    /// bid leaves no trace.
    pub fn place_bid(
        &mut self,
        listing_id: u64,
        total_bid_amount: u64,
        bid_quantity: u32,
        bidder: &Identity,
        farmer: &Identity,
        now: u64,
    ) -> (outcome: Result<bool, AuctionError>)
        ensures
            outcome == match old(self)@.bid_rejection(
                (farmer@, listing_id),
                bidder@,
                total_bid_amount,
                bid_quantity,
                now,
            ) {
                Some(e) => Err::<bool, AuctionError>(e),
                None => Ok(true),
            },
            final(self)@ == old(self)@.after_bid(
                (farmer@, listing_id),
                *bidder,
                total_bid_amount,
                bid_quantity,
                now,
            ),
    {
        proof {
            use_type_invariant(&*self);
        }
        proof {
            self.lemma_view_inv();
        }
        match steps::place_bid(
            self.admin.is_some(),
            self.auction_copy(farmer, listing_id),
            total_bid_amount,
            bid_quantity,
            bidder,
            now,
        ) {
            Err(e) => Err(e),
            Ok(auction) => {
                self.store_auction(farmer, listing_id, auction);
                Ok(true)
            },
        }
    }

    /// Moves the end time of an open auction at time `now`.
    ///
    /// An auction that has ended cannot be extended. The new end time has to
    /// lie after `now` and not after the product's expiry date.
    pub fn extend_auction(&mut self, farmer: &Identity, listing_id: u64, new_end_time: u64, now: u64) -> (outcome:
        Result<(), AuctionError>)
        ensures
            outcome == match old(self)@.extend_rejection((farmer@, listing_id), new_end_time, now) {
                Some(e) => Err::<(), AuctionError>(e),
                None => Ok(()),
            },
            final(self)@ == old(self)@.after_extend((farmer@, listing_id), new_end_time, now),
    {
        proof {
            use_type_invariant(&*self);
        }
        proof {
            self.lemma_view_inv();
        }
        match steps::extend_auction(
            self.admin.is_some(),
            self.auction_copy(farmer, listing_id),
            self.product_ref(farmer, listing_id),
            new_end_time,
            now,
        ) {
            Err(e) => Err(e),
            Ok(auction) => {
                self.store_auction(farmer, listing_id, auction);
                Ok(())
            },
        }
    }

    /// Closes an ended auction at time `now` and reports the winner, the
    /// winning amount and the quantity committed.
    ///
    /// The auction stays on record as finalized: it takes no bid, no
    /// extension and no second finalizing, and its listing takes no new auction.
    pub fn finalize_auction(&mut self, farmer: &Identity, listing_id: u64, now: u64) -> (outcome: Result<
        Settlement,
        AuctionError,
    >)
        ensures
            outcome == old(self)@.finalize_outcome((farmer@, listing_id), now),
            final(self)@ == old(self)@.after_finalize((farmer@, listing_id), now),
    {
        proof {
            use_type_invariant(&*self);
        }
        proof {
            self.lemma_view_inv();
        }
        match steps::finalize_auction(self.admin.is_some(), self.auction_copy(farmer, listing_id), now) {
            Err(e) => Err(e),
            Ok((auction, settlement)) => {
                self.store_auction(farmer, listing_id, auction);
                Ok(settlement)
            },
        }
    }
}

impl Marketplace {
    /// Publishes the reference price of a category in a region at time `now`.
    ///
    /// Only the administrator may publish. The new record takes the place of
    /// the one that was there; no history is kept.
    pub fn update_market_price(
        &mut self,
        caller: &Identity,
        product_type: Tag,
        region: Tag,
        price: u64,
        trend: i32,
        valid_for: u64,
        now: u64,
    ) -> (outcome: Result<(), OracleError>)
        ensures
            outcome == old(self)@.update_price_outcome(caller@),
            final(self)@ == old(self)@.after_update_price(
                caller@,
                (MarketPriceRecord {
                    product_type,
                    region,
                    reference_price: price,
                    trend,
                    recorded_at: now,
                    valid_for,
                }),
            ),
    {
        proof {
            use_type_invariant(&*self);
        }
        let record = match publish(
            self.admin.as_ref(),
            caller,
            product_type,
            region,
            price,
            trend,
            valid_for,
            now,
        ) {
            Err(e) => {
                return Err(e);
            },
            Ok(record) => record,
        };
        let found = self.find_price(&record.product_type, &record.region);
        let ghost before = self.prices@;
        let mut prices: Vec<MarketPriceRecord> = Vec::new();
        std::mem::swap(&mut prices, &mut self.prices);
        match found {
            Some(i) => {
                proof {
                    lemma_price_replaced(before, i as int, record);
                }
                prices[i] = record;
            },
            None => {
                proof {
                    lemma_price_pushed(before, record);
                }
                prices.push(record);
            },
        }
        self.prices = prices;
        Ok(())
    }

    /// Reads the reference price of a category in a region at time `now`.
    ///
    /// Under the strict policy a record past its validity window counts as
    /// missing; under the lenient one it is still returned.
    pub fn fetch_market_price(&self, product_type: &Tag, region: &Tag, now: u64) -> (outcome: Result<
        &MarketPriceRecord,
        OracleError,
    >)
        ensures
            match self@.price_outcome((product_type@, region@), now) {
                Ok(record) => outcome == Ok::<&MarketPriceRecord, OracleError>(&record),
                Err(e) => outcome == Err::<&MarketPriceRecord, OracleError>(e),
            },
    {
        proof {
            use_type_invariant(self);
        }
        steps::fetch_market_price(
            self.admin.is_some(),
            self.price_ref(product_type, region),
            self.config.strict_price_validity,
            now,
        )
    }

    /// Compares a listing's current price with the reference price of its
    /// category and region at time `now`: by how many hundredths of the
    /// reference price the listing lies above or below it.
    ///
    /// A reference price of zero admits no comparison.
    pub fn compare_with_market(&self, farmer: &Identity, listing_id: u64, now: u64) -> (outcome: Result<
        i128,
        OracleError,
    >)
        requires
            self@.reference_for((farmer@, listing_id), now) matches Ok(record) ==> record.reference_price > 0,
        ensures
            match self@.compare_outcome((farmer@, listing_id), now) {
                Ok(delta) => outcome matches Ok(found) && found == delta,
                Err(e) => outcome == Err::<i128, OracleError>(e),
            },
    {
        proof {
            use_type_invariant(self);
        }
        self.try_compare_with_market(farmer, listing_id, now).unwrap()
    }

    /// Compares a listing's current price with the market as
    /// [`Marketplace::compare_with_market`] does, where the comparison is
    /// defined; where the reference price on record is zero, there is no answer.
    pub fn try_compare_with_market(&self, farmer: &Identity, listing_id: u64, now: u64) -> (outcome: Option<
        Result<i128, OracleError>,
    >)
        ensures
            match self@.reference_for((farmer@, listing_id), now) {
                Ok(record) => if record.reference_price == 0 {
                    outcome is None
                } else {
                    outcome matches Some(Ok(found)) && found == self@.compare_outcome(
                        (farmer@, listing_id),
                        now,
                    )->Ok_0
                },
                Err(e) => outcome == Some(Err::<i128, OracleError>(e)),
            },
    {
        proof {
            use_type_invariant(self);
        }
        let product = self.product_ref(farmer, listing_id);
        let record = match product {
            None => None,
            Some(product) => self.price_ref(&product.details.product_type, &product.details.region),
        };
        proof {
            if product is Some {
                crate::product::lemma_price_at_bound(
                    product->0.details.base_price,
                    self.config.tiers.percent_of(product->0.freshness_rating),
                );
                assert(product->0.details.base_price * 329 <= u64::MAX * 329) by (nonlinear_arith);
            }
        }
        steps::compare_with_market(
            self.admin.is_some(),
            product,
            record,
            self.config.strict_price_validity,
            now,
        )
    }

    /// Suggests a price for a product of a category in a region at time `now`.
    ///
    /// The reference price is changed in turn by the percentage of the
    /// quality grade, by that of the freshness tier, by that of the category's
    /// seasonal status and by the published trend, each change taken of the
    /// result of the one before.
    pub fn suggest_price(
        &self,
        product_type: &Tag,
        region: &Tag,
        quality: QualityGrade,
        freshness: FreshnessRating,
        now: u64,
    ) -> (outcome: Result<i128, OracleError>)
        ensures
            match self@.suggest_outcome((product_type@, region@), quality, freshness, now) {
                Ok(price) => outcome matches Ok(found) && found == price,
                Err(e) => outcome == Err::<i128, OracleError>(e),
            },
    {
        proof {
            use_type_invariant(self);
        }
        steps::suggest_price(
            self.admin.is_some(),
            self.price_ref(product_type, region),
            &self.config,
            quality,
            freshness,
            now,
        )
    }
}

} // verus!
