//! What holds of the marketplace whatever is done with it.
//!
//! Each law is stated over the model of `crate::model` and over the spec
//! functions of the auction and the freshness clock, which are the terms in
//! which the executable operations are specified.

use vstd::prelude::*;
use crate::auction::{Auction, AuctionPhase, Bid};
use crate::error::{AdminError, AuctionError, OracleError, ProductError};
use crate::freshness::{age_at, FreshnessProfile, FreshnessRating};
use crate::ident::Identity;
use crate::model::{ListingKey, MarketState};
use crate::oracle::MarketPriceRecord;
use crate::pricing::percent_applied;
use crate::product::{lemma_price_at_bound, price_at, stored_expiry, ProductDetails};

verus! {

/// A valid submission is stored under the number that listing it returned,
/// with the details as submitted and with the price that its base price has
/// in the tier of its age at the time of listing. Nothing but that tier moves
/// the price.
pub proof fn law_listing_is_priced_by_its_tier(
    state: MarketState,
    farmer: Identity,
    details: ProductDetails,
    now: u64,
)
    requires
        state.add_product_outcome(farmer, details, now) is Ok,
    ensures
        ({
            let id = state.add_product_outcome(farmer, details, now)->Ok_0;
            let after = state.after_add_product(farmer, details, now);
            let tier = state.config.profile_of(details.product_type@).rating_at(
                age_at(details.harvest_date, now),
            );
            &&& after.product_outcome((farmer@, id)) is Ok
            &&& after.product_outcome((farmer@, id))->Ok_0.details == details
            &&& after.product_outcome((farmer@, id))->Ok_0.freshness_rating == tier
            &&& after.product_outcome((farmer@, id))->Ok_0.current_price == price_at(
                details.base_price,
                state.config.tiers.percent_of(tier),
            )
        }),
{
    let tier = state.config.profile_of(details.product_type@).rating_at(age_at(details.harvest_date, now));
    lemma_price_at_bound(details.base_price, state.config.tiers.percent_of(tier));
    assert(details.base_price * 329 <= u64::MAX * 329) by (nonlinear_arith);
}

/// A product listed at the very instant of its harvest is in the freshest
/// tier, and its price is its base price moved by that tier's percentage.
pub proof fn law_same_instant_listing_is_freshest(
    state: MarketState,
    farmer: Identity,
    details: ProductDetails,
    now: u64,
)
    requires
        state.inv(),
        state.add_product_outcome(farmer, details, now) is Ok,
        details.harvest_date == now,
    ensures
        ({
            let id = state.add_product_outcome(farmer, details, now)->Ok_0;
            let listed = state.after_add_product(farmer, details, now).product_outcome((farmer@, id));
            &&& listed is Ok
            &&& listed->Ok_0.freshness_rating == FreshnessRating::Peak
            &&& listed->Ok_0.current_price == price_at(details.base_price, state.config.tiers.peak)
        }),
{
    crate::config::lemma_profile_of_wf(state.config, details.product_type@);
    law_listing_is_priced_by_its_tier(state, farmer, details, now);
}

/// A farmer's listings are numbered from 1 without gaps, and listing a
/// product never disturbs a listing that was there.
pub proof fn law_listing_numbers_are_never_reused(
    state: MarketState,
    farmer: Identity,
    details: ProductDetails,
    now: u64,
)
    requires
        state.inv(),
        state.listing_count(farmer@) < u64::MAX,
        state.add_product_outcome(farmer, details, now) is Ok,
    ensures
        ({
            let id = state.add_product_outcome(farmer, details, now)->Ok_0;
            let after = state.after_add_product(farmer, details, now);
            &&& id == state.listing_count(farmer@) + 1
            &&& !state.products.contains_key((farmer@, id))
            &&& after.listing_count(farmer@) == id
            &&& forall|key: ListingKey| #[trigger]
                state.products.contains_key(key) ==> after.products.contains_key(key)
                    && after.products[key] == state.products[key]
        }),
{
    let id = state.add_product_outcome(farmer, details, now)->Ok_0;
    assert(state.products.contains_key((farmer@, id)) <==> 1 <= id <= state.listing_count(farmer@));
}

/// An accepted bid raises the highest bid, and a refused one leaves the
/// auction as it was.
pub proof fn law_bid_never_lowers_highest(auction: Auction, bid: Bid)
    ensures
        after_one_bid(auction, bid).highest_bid >= auction.highest_bid,
        auction.bid_rejection(bid.bidder@, bid.total_amount, bid.quantity, bid.placed_at) is None
            ==> after_one_bid(auction, bid).highest_bid > auction.highest_bid,
        auction.bid_rejection(bid.bidder@, bid.total_amount, bid.quantity, bid.placed_at) is Some
            ==> after_one_bid(auction, bid) == auction,
{
    if auction.bid_rejection(bid.bidder@, bid.total_amount, bid.quantity, bid.placed_at) is None {
        lemma_effective_bid_in_range(auction, bid.total_amount, bid.quantity);
    }
}

/// The auction after one bid has been submitted to it.
pub open spec fn after_one_bid(auction: Auction, bid: Bid) -> Auction {
    if auction.bid_rejection(bid.bidder@, bid.total_amount, bid.quantity, bid.placed_at) is None {
        auction.after_bid(bid.bidder, bid.total_amount, bid.quantity)
    } else {
        auction
    }
}

/// The auction after a sequence of bids has been submitted to it, one by one.
pub open spec fn after_bids(auction: Auction, bids: Seq<Bid>) -> Auction
    decreases bids.len(),
{
    if bids.len() == 0 {
        auction
    } else {
        after_one_bid(after_bids(auction, bids.drop_last()), bids.last())
    }
}

/// A bid's amount after the discount is never more than what was offered.
pub proof fn lemma_effective_bid_in_range(auction: Auction, total_amount: u64, quantity: u32)
    ensures
        auction.effective(total_amount, quantity) <= total_amount,
{
    assert(0 <= total_amount * auction.bulk_discount_percentage) by (nonlinear_arith);
}

/// Over any sequence of bids on one auction, the highest bid never decreases.
pub proof fn law_highest_bid_is_monotonic(auction: Auction, bids: Seq<Bid>, shorter: int)
    requires
        0 <= shorter <= bids.len(),
    ensures
        after_bids(auction, bids.take(shorter)).highest_bid <= after_bids(auction, bids).highest_bid,
    decreases bids.len(),
{
    if shorter == bids.len() {
        assert(bids.take(shorter) =~= bids);
    } else {
        let earlier = bids.drop_last();
        assert(earlier.take(shorter) =~= bids.take(shorter));
        law_highest_bid_is_monotonic(auction, earlier, shorter);
        law_bid_never_lowers_highest(after_bids(auction, earlier), bids.last());
    }
}

/// A bid whose amount after the discount does not exceed the highest bid is
/// never accepted; where nothing else stands against it, it is turned down as
/// too low.
pub proof fn law_bid_not_above_highest_is_rejected(
    auction: Auction,
    bidder: Seq<char>,
    total_amount: u64,
    quantity: u32,
    now: u64,
)
    requires
        auction.effective(total_amount, quantity) <= auction.highest_bid,
    ensures
        auction.bid_rejection(bidder, total_amount, quantity, now) is Some,
        bidder != auction.farmer@ && auction.phase_at(now) == AuctionPhase::Open
            ==> auction.bid_rejection(bidder, total_amount, quantity, now) == Some(
            AuctionError::BidTooLow,
        ),
{
}

/// The first bid on an auction clears the comparison with the highest bid as
/// soon as it meets the reserve, provided that the reserve is positive, the
/// quantity is positive and the discount is below the whole.
pub proof fn law_first_bid_clears_highest(auction: Auction, total_amount: u64, quantity: u32)
    requires
        auction.highest_bid == 0,
        auction.bulk_discount_percentage < 100,
        auction.reserve_price > 0,
        quantity > 0,
        total_amount >= auction.reserve_price * quantity,
    ensures
        auction.effective(total_amount, quantity) > auction.highest_bid,
{
    assert(auction.reserve_price * quantity > 0) by (nonlinear_arith)
        requires
            auction.reserve_price > 0,
            quantity > 0,
    ;
    assert(total_amount * auction.bulk_discount_percentage < total_amount * 100) by (nonlinear_arith)
        requires
            total_amount > 0,
            auction.bulk_discount_percentage < 100,
    ;
}

/// The farmer who owns a listing never has a bid accepted on its auction,
/// whatever the bid offers and whenever it comes: the state stays as it was,
/// and where the auction exists the bid is refused as the farmer's own.
pub proof fn law_self_bid_is_rejected(
    state: MarketState,
    farmer: Identity,
    listing_id: u64,
    total_amount: u64,
    quantity: u32,
    now: u64,
)
    requires
        state.inv(),
    ensures
        state.bid_rejection((farmer@, listing_id), farmer@, total_amount, quantity, now) is Some,
        state.admin is Some && state.auctions.contains_key((farmer@, listing_id)) ==> state.bid_rejection(
            (farmer@, listing_id),
            farmer@,
            total_amount,
            quantity,
            now,
        ) == Some(AuctionError::InvalidBidder),
        state.after_bid((farmer@, listing_id), farmer, total_amount, quantity, now) == state,
{
}

/// An auction itself refuses its farmer's bid before it looks at anything else.
pub proof fn law_auction_refuses_its_farmer(auction: Auction, total_amount: u64, quantity: u32, now: u64)
    ensures
        auction.bid_rejection(auction.farmer@, total_amount, quantity, now) == Some(
            AuctionError::InvalidBidder,
        ),
{
}

/// Once the administrator is set, setting it again fails and changes nothing.
pub proof fn law_initialization_happens_once(state: MarketState, first: Seq<char>, second: Seq<char>)
    requires
        state.admin is None,
    ensures
        state.initialize_outcome() == Ok::<(), AdminError>(()),
        state.after_initialize(first).admin == Some(first),
        state.after_initialize(first).initialize_outcome() == Err::<(), AdminError>(
            AdminError::AlreadyInitialized,
        ),
        state.after_initialize(first).after_initialize(second) == state.after_initialize(first),
{
}

/// In any state that has an administrator, initialization fails and leaves
/// the state, and so the administrator, as it was.
pub proof fn law_double_initialization_fails(state: MarketState, admin: Seq<char>)
    requires
        state.admin is Some,
    ensures
        state.initialize_outcome() == Err::<(), AdminError>(AdminError::AlreadyInitialized),
        state.after_initialize(admin) == state,
{
}

/// A finalized auction is terminal: it refuses every bid, every extension and
/// every further finalizing, at any time.
pub proof fn law_finalized_is_terminal(
    auction: Auction,
    bidder: Seq<char>,
    total_amount: u64,
    quantity: u32,
    new_end_time: u64,
    expiry_date: u64,
    now: u64,
)
    requires
        auction.finalize_rejection(now) is None,
    ensures
        ({
            let closed = auction.after_finalize();
            &&& forall|later: u64| #[trigger] closed.phase_at(later) == AuctionPhase::Finalized
            &&& forall|later: u64| #[trigger]
                closed.bid_rejection(bidder, total_amount, quantity, later) is Some
            &&& forall|later: u64| #[trigger]
                closed.extension_rejection(new_end_time, later, expiry_date) == Some(
                    AuctionError::AuctionEnded,
                )
            &&& forall|later: u64| #[trigger]
                closed.finalize_rejection(later) == Some(AuctionError::AuctionEnded)
            &&& closed.quantity_available <= auction.quantity_available
            &&& closed.highest_bid == auction.highest_bid
            &&& closed.highest_bidder == auction.highest_bidder
        }),
{
}

/// From its end time on, an auction refuses every bid and every extension;
/// finalizing it fails exactly when no bid was placed.
pub proof fn law_ended_auction(
    auction: Auction,
    bidder: Seq<char>,
    total_amount: u64,
    quantity: u32,
    new_end_time: u64,
    expiry_date: u64,
    now: u64,
)
    requires
        !auction.finalized,
        now >= auction.auction_end_time,
    ensures
        auction.bid_rejection(bidder, total_amount, quantity, now) is Some,
        bidder != auction.farmer@ ==> auction.bid_rejection(bidder, total_amount, quantity, now) == Some(
            AuctionError::AuctionEnded,
        ),
        auction.extension_rejection(new_end_time, now, expiry_date) == Some(AuctionError::AuctionEnded),
        auction.highest_bidder is None ==> auction.finalize_rejection(now) == Some(
            AuctionError::NoBidsPlaced,
        ),
        auction.highest_bidder is Some ==> auction.finalize_rejection(now) is None,
{
}

/// A listing that has an auction, finalized or not, takes no second one.
pub proof fn law_one_auction_per_listing(state: MarketState, key: ListingKey, end_time: u64, now: u64)
    requires
        state.inv(),
        state.admin is Some,
        state.auctions.contains_key(key),
    ensures
        state.create_auction_rejection(key, end_time, now) == Some(AuctionError::AuctionAlreadyExists),
{
}

/// Setting the administrator keeps the invariant.
pub proof fn law_initialize_keeps_invariant(state: MarketState, admin: Seq<char>)
    requires
        state.inv(),
    ensures
        state.after_initialize(admin).inv(),
{
}

/// Listing a product keeps the invariant, as long as the farmer's listings
/// can still be numbered.
pub proof fn law_add_product_keeps_invariant(
    state: MarketState,
    farmer: Identity,
    details: ProductDetails,
    now: u64,
)
    requires
        state.inv(),
        state.listing_count(farmer@) < u64::MAX,
    ensures
        state.after_add_product(farmer, details, now).inv(),
{
    let after = state.after_add_product(farmer, details, now);
    if state.add_product_outcome(farmer, details, now) is Ok {
        let id = state.add_product_outcome(farmer, details, now)->Ok_0;
        let tier = state.config.profile_of(details.product_type@).rating_at(
            age_at(details.harvest_date, now),
        );
        lemma_price_at_bound(details.base_price, state.config.tiers.percent_of(tier));
        assert(details.base_price * 329 <= u64::MAX * 329) by (nonlinear_arith);
        assert forall|other: Seq<char>, number: u64| #[trigger]
            after.products.contains_key((other, number)) <==> 1 <= number <= after.listing_count(
                other,
            ) by {
            assert(state.products.contains_key((other, number)) <==> 1 <= number
                <= state.listing_count(other));
        }
        assert forall|key: ListingKey| #[trigger]
            after.auctions.contains_key(key) implies after.auction_consistent(key) by {
            assert(state.products.contains_key(key));
            assert(state.products.contains_key((farmer@, id)) <==> 1 <= id <= state.listing_count(
                farmer@,
            ));
        }
    }
}

/// Refreshing a listing keeps the invariant.
pub proof fn law_refresh_keeps_invariant(state: MarketState, key: ListingKey, now: u64)
    requires
        state.inv(),
    ensures
        state.after_refresh(key, now).inv(),
{
    let after = state.after_refresh(key, now);
    if state.product_outcome(key) is Ok {
        let product = state.products[key];
        lemma_price_at_bound(
            product.details.base_price,
            state.config.tiers.percent_of(product.rating_at(state.config, now)),
        );
        assert(product.details.base_price * 329 <= u64::MAX * 329) by (nonlinear_arith);
        assert forall|other: Seq<char>, number: u64| #[trigger]
            after.products.contains_key((other, number)) <==> 1 <= number <= after.listing_count(
                other,
            ) by {
            assert(state.products.contains_key((other, number)) <==> 1 <= number
                <= state.listing_count(other));
        }
        assert forall|other: ListingKey| #[trigger]
            after.auctions.contains_key(other) implies after.auction_consistent(other) by {
            assert(state.auctions.contains_key(other));
        }
    }
}

/// Opening an auction keeps the invariant.
pub proof fn law_create_auction_keeps_invariant(
    state: MarketState,
    key: ListingKey,
    reserve_price: u64,
    end_time: u64,
    min_quantity: u32,
    bulk_discount_threshold: u32,
    bulk_discount_percentage: u32,
    dynamic_pricing: bool,
    now: u64,
)
    requires
        state.inv(),
    ensures
        state.after_create_auction(
            key,
            reserve_price,
            end_time,
            min_quantity,
            bulk_discount_threshold,
            bulk_discount_percentage,
            dynamic_pricing,
            now,
        ).inv(),
{
    let after = state.after_create_auction(
        key,
        reserve_price,
        end_time,
        min_quantity,
        bulk_discount_threshold,
        bulk_discount_percentage,
        dynamic_pricing,
        now,
    );
    if state.create_auction_rejection(key, end_time, now) is None {
        assert(state.products.contains_key(key));
        assert forall|other: ListingKey| #[trigger]
            after.auctions.contains_key(other) implies after.auction_consistent(other) by {
            if other != key {
                assert(state.auctions.contains_key(other));
            }
        }
    }
}

/// A bid keeps the invariant.
pub proof fn law_bid_keeps_invariant(
    state: MarketState,
    key: ListingKey,
    bidder: Identity,
    total_amount: u64,
    quantity: u32,
    now: u64,
)
    requires
        state.inv(),
    ensures
        state.after_bid(key, bidder, total_amount, quantity, now).inv(),
{
    let after = state.after_bid(key, bidder, total_amount, quantity, now);
    if state.bid_rejection(key, bidder@, total_amount, quantity, now) is None {
        assert(state.auctions.contains_key(key));
        assert forall|other: ListingKey| #[trigger]
            after.auctions.contains_key(other) implies after.auction_consistent(other) by {
            assert(state.auctions.contains_key(other));
        }
    }
}

/// An extension keeps the invariant.
pub proof fn law_extend_keeps_invariant(state: MarketState, key: ListingKey, new_end_time: u64, now: u64)
    requires
        state.inv(),
    ensures
        state.after_extend(key, new_end_time, now).inv(),
{
    let after = state.after_extend(key, new_end_time, now);
    if state.extend_rejection(key, new_end_time, now) is None {
        assert(state.auctions.contains_key(key));
        assert forall|other: ListingKey| #[trigger]
            after.auctions.contains_key(other) implies after.auction_consistent(other) by {
            assert(state.auctions.contains_key(other));
        }
    }
}

/// Finalizing keeps the invariant: what an auction offers never exceeds what
/// its listing holds.
pub proof fn law_finalize_keeps_invariant(state: MarketState, key: ListingKey, now: u64)
    requires
        state.inv(),
    ensures
        state.after_finalize(key, now).inv(),
{
    let after = state.after_finalize(key, now);
    if state.finalize_outcome(key, now) is Ok {
        assert(state.auctions.contains_key(key));
        assert forall|other: ListingKey| #[trigger]
            after.auctions.contains_key(other) implies after.auction_consistent(other) by {
            assert(state.auctions.contains_key(other));
        }
    }
}

/// Publishing a reference price keeps the invariant.
pub proof fn law_update_price_keeps_invariant(
    state: MarketState,
    caller: Seq<char>,
    record: MarketPriceRecord,
)
    requires
        state.inv(),
    ensures
        state.after_update_price(caller, record).inv(),
{
}

/// A bid on one auction never lowers that auction's highest bid and touches
/// no other auction, no listing and no reference price.
pub proof fn law_market_bid_never_lowers_highest(
    state: MarketState,
    key: ListingKey,
    bidder: Identity,
    total_amount: u64,
    quantity: u32,
    now: u64,
)
    requires
        state.auctions.contains_key(key),
    ensures
        ({
            let after = state.after_bid(key, bidder, total_amount, quantity, now);
            &&& after.auctions.contains_key(key)
            &&& after.auctions[key].highest_bid >= state.auctions[key].highest_bid
            &&& after.auctions.dom() == state.auctions.dom()
            &&& forall|other: ListingKey|
                other != key && state.auctions.contains_key(other) ==> #[trigger] after.auctions[other]
                    == state.auctions[other]
            &&& after.products == state.products
            &&& after.prices == state.prices
            &&& after.admin == state.admin
        }),
{
    let after = state.after_bid(key, bidder, total_amount, quantity, now);
    if state.bid_rejection(key, bidder@, total_amount, quantity, now) is None {
        lemma_effective_bid_in_range(state.auctions[key], total_amount, quantity);
        assert(after.auctions.dom() =~= state.auctions.dom());
    }
}

/// A product expires when the time lies after its harvest date plus the shelf
/// life of its category, and not before: the moment of expiry itself is not
/// yet expired.
pub proof fn law_expiry_follows_shelf_life(
    state: MarketState,
    farmer: Identity,
    details: ProductDetails,
    listed_at: u64,
    now: u64,
)
    requires
        state.add_product_outcome(farmer, details, listed_at) is Ok,
    ensures
        ({
            let id = state.add_product_outcome(farmer, details, listed_at)->Ok_0;
            let after = state.after_add_product(farmer, details, listed_at);
            let shelf_life = state.config.profile_of(details.product_type@).shelf_life;
            after.expiry_outcome((farmer@, id), now) == Ok::<bool, ProductError>(
                now > details.harvest_date + shelf_life,
            )
        }),
{
}

/// Refreshing a listing twice at the same time is the same as refreshing it once.
pub proof fn law_refresh_is_idempotent(state: MarketState, key: ListingKey, now: u64)
    ensures
        state.after_refresh(key, now).after_refresh(key, now) == state.after_refresh(key, now),
        state.after_refresh(key, now).refresh_outcome(key, now) == state.refresh_outcome(key, now),
{
    let once = state.after_refresh(key, now);
    if state.product_outcome(key) is Ok {
        let product = state.products[key];
        assert(once.products[key].refreshed(state.config, now) == product.refreshed(state.config, now));
        assert(once.products.insert(key, product.refreshed(state.config, now)) =~= once.products);
    }
}

/// Only the administrator changes a reference price: whoever else tries is
/// turned down and every record stays as it was.
pub proof fn law_only_the_administrator_publishes(
    state: MarketState,
    caller: Seq<char>,
    record: MarketPriceRecord,
)
    requires
        state.admin != Some(caller),
    ensures
        state.update_price_outcome(caller) is Err,
        state.admin is Some ==> state.update_price_outcome(caller) == Err::<(), OracleError>(
            OracleError::InvalidPriceData,
        ),
        state.after_update_price(caller, record) == state,
{
}

/// A reference price that the administrator publishes is the one read back
/// for its category and region at the time of publication, and it replaces
/// the record that was there.
pub proof fn law_published_price_is_read_back(
    state: MarketState,
    caller: Seq<char>,
    record: MarketPriceRecord,
)
    requires
        state.admin == Some(caller),
    ensures
        ({
            let after = state.after_update_price(caller, record);
            let key = (record.product_type@, record.region@);
            &&& after.price_outcome(key, record.recorded_at) == Ok::<MarketPriceRecord, OracleError>(record)
            &&& forall|other: (Seq<char>, Seq<char>)|
                other != key ==> #[trigger] after.prices.contains_key(other) == state.prices.contains_key(
                    other,
                )
        }),
{
}

/// An operation that fails leaves the state as it was.
pub proof fn law_failure_changes_nothing(
    state: MarketState,
    identity: Identity,
    details: ProductDetails,
    key: ListingKey,
    record: MarketPriceRecord,
    reserve_price: u64,
    end_time: u64,
    min_quantity: u32,
    bulk_discount_threshold: u32,
    bulk_discount_percentage: u32,
    dynamic_pricing: bool,
    total_amount: u64,
    quantity: u32,
    now: u64,
)
    ensures
        state.initialize_outcome() is Err ==> state.after_initialize(identity@) == state,
        state.add_product_outcome(identity, details, now) is Err ==> state.after_add_product(
            identity,
            details,
            now,
        ) == state,
        state.refresh_outcome(key, now) is Err ==> state.after_refresh(key, now) == state,
        state.create_auction_rejection(key, end_time, now) is Some ==> state.after_create_auction(
            key,
            reserve_price,
            end_time,
            min_quantity,
            bulk_discount_threshold,
            bulk_discount_percentage,
            dynamic_pricing,
            now,
        ) == state,
        state.bid_rejection(key, identity@, total_amount, quantity, now) is Some ==> state.after_bid(
            key,
            identity,
            total_amount,
            quantity,
            now,
        ) == state,
        state.extend_rejection(key, end_time, now) is Some ==> state.after_extend(key, end_time, now)
            == state,
        state.finalize_outcome(key, now) is Err ==> state.after_finalize(key, now) == state,
        state.update_price_outcome(identity@) is Err ==> state.after_update_price(identity@, record)
            == state,
{
}

/// A product never becomes fresher with age.
pub proof fn law_rating_is_monotonic(profile: FreshnessProfile, younger: nat, older: nat)
    requires
        profile.wf(),
        younger <= older,
    ensures
        profile.rating_at(younger).rank() <= profile.rating_at(older).rank(),
{
}

/// A product read at the instant of its harvest is in the freshest tier.
pub proof fn law_fresh_at_harvest(profile: FreshnessProfile, harvest_date: u64)
    requires
        profile.wf(),
    ensures
        profile.rating_at(age_at(harvest_date, harvest_date)) == FreshnessRating::Peak,
{
}

/// A time lies after the stored expiry date exactly when it lies after the
/// harvest date plus the shelf life: holding the stored date at the largest
/// time that can be written down changes no answer.
pub proof fn law_stored_expiry_is_exact(harvest_date: u64, shelf_life: u64, time: u64)
    ensures
        time > stored_expiry(harvest_date, shelf_life) <==> time > harvest_date + shelf_life,
{
}

/// A price is never negative, and a percentage of at least -100 never takes
/// an amount that is not negative below zero even before the floor.
pub proof fn law_price_is_never_negative(base_price: u64, percent: i16)
    ensures
        0 <= price_at(base_price, percent),
        -100 <= percent ==> price_at(base_price, percent) == percent_applied(
            base_price as int,
            percent as int,
        ),
{
    if -100 <= percent {
        let amount = base_price as int;
        if percent < 0 {
            assert(-(amount * percent) <= amount * 100) by (nonlinear_arith)
                requires
                    0 <= amount,
                    -100 <= percent < 0,
            ;
            assert(0 <= -(amount * percent)) by (nonlinear_arith)
                requires
                    0 <= amount,
                    percent < 0,
            ;
        } else {
            assert(0 <= amount * percent) by (nonlinear_arith)
                requires
                    0 <= amount,
                    0 <= percent,
            ;
        }
    }
}

} // verus!
