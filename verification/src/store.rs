//! How the marketplace keeps its records, and what follows for the maps that
//! it presents.
//!
//! Listings are kept per farmer, in the order in which they were made, so that
//! a listing's number is its place in its farmer's ledger. An auction lives in
//! the slot of its listing, so a listing never has two. Reference prices are
//! kept in a list in which no key occurs twice.

use vstd::prelude::*;
use crate::auction::Auction;
use crate::config::MarketConfig;
use crate::ident::Identity;
use crate::model::{ListingKey, PriceKey};
use crate::oracle::MarketPriceRecord;
use crate::product::Product;

verus! {

/// A listing and the auction on it, if one has been opened.
pub struct Listing {
    pub product: Product,
    pub auction: Option<Auction>,
}

/// The listings of one farmer, in the order in which they were made.
pub struct FarmerLedger {
    pub farmer: Identity,
    pub listings: Vec<Listing>,
}

/// No farmer has two ledgers.
pub open spec fn farmers_distinct(ledgers: Seq<FarmerLedger>) -> bool {
    forall|i: int, j: int|
        0 <= i < j < ledgers.len() ==> (#[trigger] ledgers[i]).farmer@ != (#[trigger] ledgers[j]).farmer@
}

/// The farmer has a ledger.
pub open spec fn has_ledger(ledgers: Seq<FarmerLedger>, farmer: Seq<char>) -> bool {
    exists|i: int| 0 <= i < ledgers.len() && (#[trigger] ledgers[i]).farmer@ == farmer
}

/// Place of the farmer's ledger, where the farmer has one.
pub open spec fn ledger_of(ledgers: Seq<FarmerLedger>, farmer: Seq<char>) -> int {
    choose|i: int| 0 <= i < ledgers.len() && (#[trigger] ledgers[i]).farmer@ == farmer
}

/// The listing that `key` names, if it is there: the farmer's ledger at the
/// place that the listing's number gives.
pub open spec fn slot(ledgers: Seq<FarmerLedger>, key: ListingKey) -> Option<Listing> {
    if has_ledger(ledgers, key.0) && 1 <= key.1 <= ledgers[ledger_of(ledgers, key.0)].listings@.len() {
        Some(ledgers[ledger_of(ledgers, key.0)].listings@[key.1 - 1])
    } else {
        None
    }
}

/// Number of listings of each farmer who has a ledger.
pub open spec fn listed_map(ledgers: Seq<FarmerLedger>) -> Map<Seq<char>, nat> {
    Map::new(
        |farmer: Seq<char>| has_ledger(ledgers, farmer),
        |farmer: Seq<char>| ledgers[ledger_of(ledgers, farmer)].listings@.len(),
    )
}

/// The listings by key.
pub open spec fn product_map(ledgers: Seq<FarmerLedger>) -> Map<ListingKey, Product> {
    Map::new(|key: ListingKey| slot(ledgers, key) is Some, |key: ListingKey| slot(ledgers, key)->0.product)
}

/// The auctions by key.
pub open spec fn auction_map(ledgers: Seq<FarmerLedger>) -> Map<ListingKey, Auction> {
    Map::new(
        |key: ListingKey| slot(ledgers, key) is Some && slot(ledgers, key)->0.auction is Some,
        |key: ListingKey| slot(ledgers, key)->0.auction->0,
    )
}

/// The listing at place `place` of the ledger of `farmer` is what it has to
/// be: it carries that farmer and that number, its price is that of its tier,
/// and its auction, if any, stands on it.
pub open spec fn listing_wf(config: MarketConfig, farmer: Seq<char>, place: int, listing: Listing) -> bool {
    &&& listing.product.farmer@ == farmer
    &&& listing.product.listing_id == place + 1
    &&& listing.product.priced_by(config)
    &&& listing.auction matches Some(auction) ==> {
        &&& auction.farmer@ == farmer
        &&& auction.listing_id == place + 1
        &&& auction.quantity_available <= listing.product.details.quantity
        &&& auction.auction_end_time <= listing.product.expiry_date
        &&& auction.highest_bidder is None ==> auction.highest_bid == 0
    }
}

/// Every listing of every ledger is what it has to be, and no farmer has two ledgers.
pub open spec fn ledgers_wf(config: MarketConfig, ledgers: Seq<FarmerLedger>) -> bool {
    &&& farmers_distinct(ledgers)
    &&& forall|i: int, j: int|
        0 <= i < ledgers.len() && 0 <= j < ledgers[i].listings@.len() ==> listing_wf(
            config,
            ledgers[i].farmer@,
            j,
            #[trigger] ledgers[i].listings@[j],
        )
}

/// The key under which a reference price is kept.
pub open spec fn price_key(record: MarketPriceRecord) -> PriceKey {
    (record.product_type@, record.region@)
}

/// No key has two reference prices.
pub open spec fn price_keys_distinct(prices: Seq<MarketPriceRecord>) -> bool {
    forall|i: int, j: int|
        0 <= i < j < prices.len() ==> price_key(#[trigger] prices[i]) != price_key(#[trigger] prices[j])
}

/// A reference price is kept under `key`.
pub open spec fn has_price(prices: Seq<MarketPriceRecord>, key: PriceKey) -> bool {
    exists|i: int| 0 <= i < prices.len() && price_key(#[trigger] prices[i]) == key
}

/// Place of the reference price kept under `key`, where there is one.
pub open spec fn price_index(prices: Seq<MarketPriceRecord>, key: PriceKey) -> int {
    choose|i: int| 0 <= i < prices.len() && price_key(#[trigger] prices[i]) == key
}

/// The reference prices by key.
pub open spec fn price_map(prices: Seq<MarketPriceRecord>) -> Map<PriceKey, MarketPriceRecord> {
    Map::new(
        |key: PriceKey| has_price(prices, key),
        |key: PriceKey| prices[price_index(prices, key)],
    )
}

/// The text of the administrator, once set.
pub open spec fn admin_view(admin: Option<Identity>) -> Option<Seq<char>> {
    match admin {
        Some(identity) => Some(identity@),
        None => None,
    }
}

/// A ledger found at some place is the farmer's ledger.
pub proof fn lemma_ledger_found(ledgers: Seq<FarmerLedger>, i: int)
    requires
        farmers_distinct(ledgers),
        0 <= i < ledgers.len(),
    ensures
        has_ledger(ledgers, ledgers[i].farmer@),
        ledger_of(ledgers, ledgers[i].farmer@) == i,
{
    let found = ledger_of(ledgers, ledgers[i].farmer@);
    assert(0 <= found < ledgers.len() && ledgers[found].farmer@ == ledgers[i].farmer@);
}

/// A reference price found at some place is the one kept under its key.
pub proof fn lemma_price_found(prices: Seq<MarketPriceRecord>, i: int)
    requires
        price_keys_distinct(prices),
        0 <= i < prices.len(),
    ensures
        has_price(prices, price_key(prices[i])),
        price_index(prices, price_key(prices[i])) == i,
{
    let found = price_index(prices, price_key(prices[i]));
    assert(0 <= found < prices.len() && price_key(prices[found]) == price_key(prices[i]));
}

/// Two ledger sequences name the same farmers at the same places.
pub open spec fn same_farmers(old_ledgers: Seq<FarmerLedger>, new_ledgers: Seq<FarmerLedger>) -> bool {
    &&& new_ledgers.len() == old_ledgers.len()
    &&& forall|k: int|
        0 <= k < old_ledgers.len() ==> (#[trigger] new_ledgers[k]).farmer@ == old_ledgers[k].farmer@
}

/// The slots of `new_ledgers` are those of `old_ledgers`, but for the slot of
/// `key`, which holds `listing`.
pub open spec fn slots_differ_at(
    old_ledgers: Seq<FarmerLedger>,
    new_ledgers: Seq<FarmerLedger>,
    key: ListingKey,
    listing: Listing,
) -> bool {
    forall|other: ListingKey| #[trigger]
        slot(new_ledgers, other) == if other == key {
            Some(listing)
        } else {
            slot(old_ledgers, other)
        }
}

/// Ledgers that name the same farmers at the same places are found alike.
pub proof fn lemma_same_farmers(old_ledgers: Seq<FarmerLedger>, new_ledgers: Seq<FarmerLedger>)
    requires
        farmers_distinct(old_ledgers),
        same_farmers(old_ledgers, new_ledgers),
    ensures
        farmers_distinct(new_ledgers),
        forall|farmer: Seq<char>| #[trigger]
            has_ledger(new_ledgers, farmer) == has_ledger(old_ledgers, farmer),
        forall|farmer: Seq<char>|
            has_ledger(old_ledgers, farmer) ==> #[trigger] ledger_of(new_ledgers, farmer) == ledger_of(
                old_ledgers,
                farmer,
            ),
{
    assert forall|i: int, j: int| 0 <= i < j < new_ledgers.len() implies (#[trigger] new_ledgers[i]).farmer@
        != (#[trigger] new_ledgers[j]).farmer@ by {
        assert(old_ledgers[i].farmer@ != old_ledgers[j].farmer@);
    }
    assert forall|farmer: Seq<char>| #[trigger]
        has_ledger(new_ledgers, farmer) == has_ledger(old_ledgers, farmer) by {
        if has_ledger(new_ledgers, farmer) {
            let k = ledger_of(new_ledgers, farmer);
            assert(old_ledgers[k].farmer@ == farmer);
        }
        if has_ledger(old_ledgers, farmer) {
            let k = ledger_of(old_ledgers, farmer);
            assert(new_ledgers[k].farmer@ == farmer);
        }
    }
    assert forall|farmer: Seq<char>| has_ledger(old_ledgers, farmer) implies #[trigger] ledger_of(
        new_ledgers,
        farmer,
    ) == ledger_of(old_ledgers, farmer) by {
        let k = ledger_of(old_ledgers, farmer);
        assert(new_ledgers[k].farmer@ == farmer);
        lemma_ledger_found(new_ledgers, k);
    }
}

/// Replacing the listing at place `j` of ledger `i` changes that slot alone.
pub proof fn lemma_slot_replaced(
    old_ledgers: Seq<FarmerLedger>,
    new_ledgers: Seq<FarmerLedger>,
    i: int,
    j: int,
    listing: Listing,
)
    requires
        farmers_distinct(old_ledgers),
        same_farmers(old_ledgers, new_ledgers),
        0 <= i < old_ledgers.len(),
        0 <= j < old_ledgers[i].listings@.len(),
        j < u64::MAX,
        forall|k: int| 0 <= k < old_ledgers.len() && k != i ==> #[trigger] new_ledgers[k] == old_ledgers[k],
        new_ledgers[i].listings@ == old_ledgers[i].listings@.update(j, listing),
    ensures
        farmers_distinct(new_ledgers),
        slots_differ_at(old_ledgers, new_ledgers, (old_ledgers[i].farmer@, (j + 1) as u64), listing),
        listed_map(new_ledgers) == listed_map(old_ledgers),
{
    lemma_same_farmers(old_ledgers, new_ledgers);
    lemma_ledger_found(old_ledgers, i);
    let key = (old_ledgers[i].farmer@, (j + 1) as u64);
    assert forall|other: ListingKey| #[trigger]
        slot(new_ledgers, other) == if other == key {
            Some(listing)
        } else {
            slot(old_ledgers, other)
        } by {
        if has_ledger(old_ledgers, other.0) {
            let k = ledger_of(old_ledgers, other.0);
            assert(ledger_of(new_ledgers, other.0) == k);
            assert(old_ledgers[k].farmer@ == other.0);
            if k != i {
                assert(new_ledgers[k] == old_ledgers[k]);
            }
        }
    }
    assert(listed_map(new_ledgers) =~= listed_map(old_ledgers)) by {
        assert forall|farmer: Seq<char>| has_ledger(old_ledgers, farmer) implies new_ledgers[ledger_of(
            new_ledgers,
            farmer,
        )].listings@.len() == old_ledgers[ledger_of(old_ledgers, farmer)].listings@.len() by {
            let k = ledger_of(old_ledgers, farmer);
            assert(ledger_of(new_ledgers, farmer) == k);
            if k != i {
                assert(new_ledgers[k] == old_ledgers[k]);
            }
        }
    }
}

/// Appending a listing to ledger `i` fills the next slot of its farmer.
pub proof fn lemma_slot_appended(
    old_ledgers: Seq<FarmerLedger>,
    new_ledgers: Seq<FarmerLedger>,
    i: int,
    listing: Listing,
)
    requires
        farmers_distinct(old_ledgers),
        same_farmers(old_ledgers, new_ledgers),
        0 <= i < old_ledgers.len(),
        old_ledgers[i].listings@.len() < u64::MAX,
        forall|k: int| 0 <= k < old_ledgers.len() && k != i ==> #[trigger] new_ledgers[k] == old_ledgers[k],
        new_ledgers[i].listings@ == old_ledgers[i].listings@.push(listing),
    ensures
        farmers_distinct(new_ledgers),
        slots_differ_at(
            old_ledgers,
            new_ledgers,
            (old_ledgers[i].farmer@, (old_ledgers[i].listings@.len() + 1) as u64),
            listing,
        ),
        slot(old_ledgers, (old_ledgers[i].farmer@, (old_ledgers[i].listings@.len() + 1) as u64)) is None,
        listed_map(new_ledgers) == listed_map(old_ledgers).insert(
            old_ledgers[i].farmer@,
            old_ledgers[i].listings@.len() + 1,
        ),
{
    lemma_same_farmers(old_ledgers, new_ledgers);
    lemma_ledger_found(old_ledgers, i);
    let count = old_ledgers[i].listings@.len();
    let key = (old_ledgers[i].farmer@, (count + 1) as u64);
    assert forall|other: ListingKey| #[trigger]
        slot(new_ledgers, other) == if other == key {
            Some(listing)
        } else {
            slot(old_ledgers, other)
        } by {
        if has_ledger(old_ledgers, other.0) {
            let k = ledger_of(old_ledgers, other.0);
            assert(ledger_of(new_ledgers, other.0) == k);
            assert(old_ledgers[k].farmer@ == other.0);
            if k != i {
                assert(new_ledgers[k] == old_ledgers[k]);
            }
        }
    }
    assert(listed_map(new_ledgers) =~= listed_map(old_ledgers).insert(old_ledgers[i].farmer@, count + 1)) by {
        assert forall|farmer: Seq<char>| has_ledger(old_ledgers, farmer) && farmer != old_ledgers[i].farmer@
            implies new_ledgers[ledger_of(new_ledgers, farmer)].listings@.len() == old_ledgers[ledger_of(
            old_ledgers,
            farmer,
        )].listings@.len() by {
            let k = ledger_of(old_ledgers, farmer);
            assert(ledger_of(new_ledgers, farmer) == k);
            assert(old_ledgers[k].farmer@ == farmer);
            assert(new_ledgers[k] == old_ledgers[k]);
        }
        assert(ledger_of(new_ledgers, old_ledgers[i].farmer@) == i);
    }
}

/// A new ledger with one listing fills the first slot of its farmer.
pub proof fn lemma_ledger_opened(
    old_ledgers: Seq<FarmerLedger>,
    new_ledgers: Seq<FarmerLedger>,
    ledger: FarmerLedger,
    listing: Listing,
)
    requires
        farmers_distinct(old_ledgers),
        !has_ledger(old_ledgers, ledger.farmer@),
        ledger.listings@ == seq![listing],
        new_ledgers == old_ledgers.push(ledger),
    ensures
        farmers_distinct(new_ledgers),
        slots_differ_at(old_ledgers, new_ledgers, (ledger.farmer@, 1u64), listing),
        slot(old_ledgers, (ledger.farmer@, 1u64)) is None,
        listed_map(new_ledgers) == listed_map(old_ledgers).insert(ledger.farmer@, 1),
{
    let last = old_ledgers.len() as int;
    assert forall|a: int, b: int| 0 <= a < b < new_ledgers.len() implies (#[trigger] new_ledgers[a]).farmer@
        != (#[trigger] new_ledgers[b]).farmer@ by {
        if b == last {
            assert(old_ledgers[a].farmer@ != ledger.farmer@);
        } else {
            assert(old_ledgers[a].farmer@ != old_ledgers[b].farmer@);
        }
    }
    lemma_ledger_found(new_ledgers, last);
    assert forall|farmer: Seq<char>| has_ledger(old_ledgers, farmer) implies has_ledger(new_ledgers, farmer)
        && ledger_of(new_ledgers, farmer) == ledger_of(old_ledgers, farmer) by {
        let k = ledger_of(old_ledgers, farmer);
        assert(new_ledgers[k] == old_ledgers[k]);
        lemma_ledger_found(new_ledgers, k);
    }
    assert forall|farmer: Seq<char>| has_ledger(new_ledgers, farmer) && farmer != ledger.farmer@
        implies has_ledger(old_ledgers, farmer) by {
        let k = ledger_of(new_ledgers, farmer);
        assert(k != last);
        assert(old_ledgers[k].farmer@ == farmer);
    }
    let key = (ledger.farmer@, 1u64);
    assert forall|other: ListingKey| #[trigger]
        slot(new_ledgers, other) == if other == key {
            Some(listing)
        } else {
            slot(old_ledgers, other)
        } by {
        if has_ledger(old_ledgers, other.0) {
            let k = ledger_of(old_ledgers, other.0);
            assert(new_ledgers[k] == old_ledgers[k]);
        }
    }
    assert(listed_map(new_ledgers) =~= listed_map(old_ledgers).insert(ledger.farmer@, 1)) by {
        assert forall|farmer: Seq<char>| has_ledger(old_ledgers, farmer) implies new_ledgers[ledger_of(
            new_ledgers,
            farmer,
        )] == old_ledgers[ledger_of(old_ledgers, farmer)] by {
            let k = ledger_of(old_ledgers, farmer);
            assert(new_ledgers[k] == old_ledgers[k]);
        }
    }
}

/// The maps that follow from a change of one slot.
pub proof fn lemma_maps_after_slot_change(
    old_ledgers: Seq<FarmerLedger>,
    new_ledgers: Seq<FarmerLedger>,
    key: ListingKey,
    listing: Listing,
)
    requires
        slots_differ_at(old_ledgers, new_ledgers, key, listing),
    ensures
        product_map(new_ledgers) == product_map(old_ledgers).insert(key, listing.product),
        auction_map(new_ledgers) == match listing.auction {
            Some(auction) => auction_map(old_ledgers).insert(key, auction),
            None => auction_map(old_ledgers).remove(key),
        },
{
    assert forall|other: ListingKey|
        slot(new_ledgers, other) == if other == key {
            Some(listing)
        } else {
            slot(old_ledgers, other)
        } by {
        assert(slot(new_ledgers, other) == slot(new_ledgers, other));
    }
    assert(product_map(new_ledgers) =~= product_map(old_ledgers).insert(key, listing.product));
    match listing.auction {
        Some(auction) => {
            assert(auction_map(new_ledgers) =~= auction_map(old_ledgers).insert(key, auction));
        },
        None => {
            assert(auction_map(new_ledgers) =~= auction_map(old_ledgers).remove(key));
        },
    }
}

/// Replacing one listing by a well-formed one keeps the ledgers well formed,
/// and changes the maps at that listing's key alone.
pub proof fn lemma_replace_listing(
    config: MarketConfig,
    old_ledgers: Seq<FarmerLedger>,
    new_ledgers: Seq<FarmerLedger>,
    i: int,
    j: int,
    listing: Listing,
)
    requires
        ledgers_wf(config, old_ledgers),
        same_farmers(old_ledgers, new_ledgers),
        0 <= i < old_ledgers.len(),
        0 <= j < old_ledgers[i].listings@.len(),
        j < u64::MAX,
        forall|k: int| 0 <= k < old_ledgers.len() && k != i ==> #[trigger] new_ledgers[k] == old_ledgers[k],
        new_ledgers[i].listings@ == old_ledgers[i].listings@.update(j, listing),
        listing_wf(config, old_ledgers[i].farmer@, j, listing),
    ensures
        ledgers_wf(config, new_ledgers),
        listed_map(new_ledgers) == listed_map(old_ledgers),
        product_map(new_ledgers) == product_map(old_ledgers).insert(
            (old_ledgers[i].farmer@, (j + 1) as u64),
            listing.product,
        ),
        auction_map(new_ledgers) == match listing.auction {
            Some(auction) => auction_map(old_ledgers).insert(
                (old_ledgers[i].farmer@, (j + 1) as u64),
                auction,
            ),
            None => auction_map(old_ledgers).remove((old_ledgers[i].farmer@, (j + 1) as u64)),
        },
{
    lemma_slot_replaced(old_ledgers, new_ledgers, i, j, listing);
    lemma_maps_after_slot_change(
        old_ledgers,
        new_ledgers,
        (old_ledgers[i].farmer@, (j + 1) as u64),
        listing,
    );
    assert forall|a: int, b: int|
        0 <= a < new_ledgers.len() && 0 <= b < new_ledgers[a].listings@.len() implies listing_wf(
        config,
        new_ledgers[a].farmer@,
        b,
        #[trigger] new_ledgers[a].listings@[b],
    ) by {
        if a != i || b != j {
            assert(new_ledgers[a].listings@[b] == old_ledgers[a].listings@[b]);
        }
    }
}

/// Overwriting a reference price by one of the same key changes that entry alone.
pub proof fn lemma_price_replaced(prices: Seq<MarketPriceRecord>, i: int, record: MarketPriceRecord)
    requires
        price_keys_distinct(prices),
        0 <= i < prices.len(),
        price_key(record) == price_key(prices[i]),
    ensures
        price_keys_distinct(prices.update(i, record)),
        price_map(prices.update(i, record)) == price_map(prices).insert(price_key(record), record),
{
    let after = prices.update(i, record);
    assert forall|a: int, b: int| 0 <= a < b < after.len() implies price_key(#[trigger] after[a])
        != price_key(#[trigger] after[b]) by {
        assert(price_key(prices[a]) != price_key(prices[b]));
    }
    assert forall|key: PriceKey| has_price(after, key) == has_price(prices, key) by {
        if has_price(after, key) {
            let k = price_index(after, key);
            assert(price_key(prices[k]) == key);
        }
        if has_price(prices, key) {
            let k = price_index(prices, key);
            assert(price_key(after[k]) == key);
        }
    }
    assert forall|key: PriceKey| has_price(prices, key) implies after[price_index(after, key)] == if key
        == price_key(record) {
        record
    } else {
        prices[price_index(prices, key)]
    } by {
        let k = price_index(prices, key);
        assert(price_key(after[k]) == key);
        lemma_price_found(after, k);
    }
    assert(has_price(prices, price_key(record))) by {
        lemma_price_found(prices, i);
    }
    assert(price_map(after) =~= price_map(prices).insert(price_key(record), record));
}

/// Adding a reference price under a new key adds that entry alone.
pub proof fn lemma_price_pushed(prices: Seq<MarketPriceRecord>, record: MarketPriceRecord)
    requires
        price_keys_distinct(prices),
        !has_price(prices, price_key(record)),
    ensures
        price_keys_distinct(prices.push(record)),
        price_map(prices.push(record)) == price_map(prices).insert(price_key(record), record),
{
    let after = prices.push(record);
    let last = prices.len() as int;
    assert forall|a: int, b: int| 0 <= a < b < after.len() implies price_key(#[trigger] after[a])
        != price_key(#[trigger] after[b]) by {
        if b == last {
            assert(price_key(prices[a]) != price_key(record));
        } else {
            assert(price_key(prices[a]) != price_key(prices[b]));
        }
    }
    lemma_price_found(after, last);
    assert forall|key: PriceKey| has_price(prices, key) implies has_price(after, key) && after[price_index(
        after,
        key,
    )] == prices[price_index(prices, key)] by {
        let k = price_index(prices, key);
        assert(after[k] == prices[k]);
        lemma_price_found(after, k);
    }
    assert forall|key: PriceKey| has_price(after, key) && key != price_key(record) implies has_price(
        prices,
        key,
    ) by {
        let k = price_index(after, key);
        assert(k != last);
        assert(price_key(prices[k]) == key);
    }
    assert(price_map(after) =~= price_map(prices).insert(price_key(record), record));
}

} // verus!
