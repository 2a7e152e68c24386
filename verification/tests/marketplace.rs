use agricultural_auction::config::{
    CategoryRule, MarketConfig, QualityAdjustments, SeasonalAdjustments, SeasonalStatus,
    TierAdjustments,
};
use agricultural_auction::error::{AdminError, AuctionError, OracleError, ProductError};
use agricultural_auction::freshness::FreshnessProfile;
use agricultural_auction::ident::{Identity, Tag};
use agricultural_auction::market::Marketplace;
use agricultural_auction::product::{ProductDetails, StorageCondition};

const DAY_SECS: u64 = 24 * 60 * 60;

/// The host's clock, which only the test advances.
struct Clock {
    now: u64,
}

impl Clock {
    fn timestamp(&self) -> u64 {
        self.now
    }
}

fn deployment() -> MarketConfig {
    let mut config = MarketConfig::new(
        FreshnessProfile::even(14),
        SeasonalStatus::YearRound,
        TierAdjustments { peak: 0, excellent: 10, good: 0, fair: -10, poor: -25 },
        QualityAdjustments { grade_a: 30, grade_b: 0, grade_c: -15 },
        SeasonalAdjustments { in_season: -5, off_season: 10, year_round: -5 },
        false,
    );
    config.add_rule(CategoryRule {
        category: Tag::new("Leafy_Greens"),
        profile: FreshnessProfile::even(7),
        season: SeasonalStatus::InSeason,
    });
    config
}

fn setup_test() -> (Clock, Marketplace, Identity, Identity, Identity, Identity, Identity) {
    let clock = Clock { now: 0 };
    let admin = Identity::new("admin");
    let farmer1 = Identity::new("farmer1");
    let farmer2 = Identity::new("farmer2");
    let bidder1 = Identity::new("bidder1");
    let bidder2 = Identity::new("bidder2");
    let mut market = Marketplace::new(deployment()).unwrap();
    market.initialize(admin.clone()).unwrap();
    (clock, market, admin, farmer1, farmer2, bidder1, bidder2)
}

fn create_product_details(clock: &Clock, name: &str, p_type: &str, region: &str) -> ProductDetails {
    ProductDetails {
        name: String::from(name),
        description: String::from("A test product description."),
        base_price: 1000,
        weight_kg: 50,
        quantity: 100,
        harvest_date: clock.timestamp(),
        images: vec![String::from("img1.url")],
        certifications: vec![Tag::new("Organic")],
        storage_condition: StorageCondition::RoomTemperature,
        product_type: Tag::new(p_type),
        region: Tag::new(region),
    }
}

fn advance_time(clock: &mut Clock, seconds: u64) {
    clock.now += seconds;
}

#[test]
fn test_initialize_already_initialized() {
    let (_, mut market, admin, _, _, _, _) = setup_test();
    let result = market.initialize(admin.clone());

    match result {
        Err(e) if e == AdminError::AlreadyInitialized => (),
        _ => panic!("Result does not match expected error: {:?}", result),
    }
    assert_eq!(market.admin(), Some(&admin));
}

#[test]
fn test_add_product_invalid_description() {
    let (clock, mut market, _, farmer1, _, _, _) = setup_test();
    let mut details = create_product_details(&clock, "Tomato", "Fruit", "North");
    details.description = String::from("Too short");

    let result = market.add_product(&farmer1, details.clone(), clock.timestamp());
    match result {
        Err(e) if e == ProductError::InvalidDescription => (),
        _ => panic!("Result does not match expected error: {:?}", result),
    }

    details.description = "a".repeat(501);
    let result = market.add_product(&farmer1, details, clock.timestamp());
    match result {
        Err(e) if e == ProductError::InvalidDescription => (),
        _ => panic!("Result does not match expected error: {:?}", result),
    }
}

#[test]
fn test_add_product_invalid_price() {
    let (clock, mut market, _, farmer1, _, _, _) = setup_test();
    let mut details = create_product_details(&clock, "Tomato", "Fruit", "North");
    details.base_price = 0;
    let result = market.add_product(&farmer1, details, clock.timestamp());
    match result {
        Err(e) if e == ProductError::InvalidPrice => (),
        _ => panic!("Result does not match expected error: {:?}", result),
    }
}

#[test]
fn test_add_product_invalid_images() {
    let (clock, mut market, _, farmer1, _, _, _) = setup_test();
    let mut details = create_product_details(&clock, "Tomato", "Fruit", "North");
    details.images = vec![];

    let result = market.add_product(&farmer1, details, clock.timestamp());
    match result {
        Err(e) if e == ProductError::InvalidImageCount => (),
        _ => panic!("Result does not match expected error: {:?}", result),
    }
}

#[test]
fn test_add_product_invalid_harvest_date() {
    let (clock, mut market, _, farmer1, _, _, _) = setup_test();
    let mut details = create_product_details(&clock, "Tomato", "Fruit", "North");
    details.harvest_date = clock.timestamp() + 1000;
    let result = market.add_product(&farmer1, details, clock.timestamp());
    match result {
        Err(e) if e == ProductError::InvalidHarvestDate => (),
        _ => panic!("Result does not match expected error: {:?}", result),
    }
}

#[test]
fn test_get_nonexistent_product() {
    let (_, market, _, farmer1, _, _, _) = setup_test();
    let result = market.get_product(&farmer1, 123);
    match result {
        Err(e) if e == ProductError::ProductNotFound => (),
        _ => panic!("Result does not match expected error: {:?}", result),
    }
}

#[test]
fn test_create_auction_already_exists() {
    let (clock, mut market, _, farmer1, _, _, _) = setup_test();
    let details = create_product_details(&clock, "Apple", "Fruit", "West");
    let product_id = market.add_product(&farmer1, details, clock.timestamp()).unwrap();
    let reserve_price = 800u64;
    let auction_end_time = clock.timestamp() + 2 * DAY_SECS;

    market
        .create_auction(
            &farmer1,
            product_id,
            reserve_price,
            auction_end_time,
            10,
            50,
            10,
            false,
            clock.timestamp(),
        )
        .unwrap();

    let result = market.create_auction(
        &farmer1,
        product_id,
        reserve_price,
        auction_end_time,
        10,
        50,
        10,
        false,
        clock.timestamp(),
    );
    match result {
        Err(e) if e == AuctionError::AuctionAlreadyExists => (),
        _ => panic!("Result does not match expected error: {:?}", result),
    }
}

#[test]
fn test_create_auction_product_not_found() {
    let (clock, mut market, _, farmer1, _, _, _) = setup_test();
    let reserve_price = 800u64;
    let auction_end_time = clock.timestamp() + 2 * DAY_SECS;
    let non_existent_product_id = 999u64;

    let result = market.create_auction(
        &farmer1,
        non_existent_product_id,
        reserve_price,
        auction_end_time,
        10,
        50,
        10,
        false,
        clock.timestamp(),
    );
    match result {
        Err(e) if e == AuctionError::ProductNotFound => (),
        _ => panic!("Result does not match expected error: {:?}", result),
    }
}

#[test]
fn test_place_bid_with_bulk_discount() {
    let (clock, mut market, _, farmer1, _, bidder1, _) = setup_test();
    let details = create_product_details(&clock, "Potato", "Root_Vegetables", "Central");
    let product_id = market.add_product(&farmer1, details, clock.timestamp()).unwrap();
    let reserve_price = 500u64;
    let auction_end_time = clock.timestamp() + DAY_SECS;
    let min_quantity = 10u32;
    let bulk_threshold = 20u32;
    let bulk_discount = 10u32;

    market
        .create_auction(
            &farmer1,
            product_id,
            reserve_price,
            auction_end_time,
            min_quantity,
            bulk_threshold,
            bulk_discount,
            false,
            clock.timestamp(),
        )
        .unwrap();

    let bid_quantity = 25u32;
    let bid_amount_per_unit = 600u64;
    let total_bid_amount = bid_amount_per_unit * (bid_quantity as u64);
    let expected_discount = total_bid_amount * (bulk_discount as u64) / 100;
    let expected_effective_bid = total_bid_amount - expected_discount;

    let bid_successful = market
        .place_bid(product_id, total_bid_amount, bid_quantity, &bidder1, &farmer1, clock.timestamp())
        .unwrap();
    assert!(bid_successful);

    let auction = market.get_auction(&farmer1, product_id).unwrap();
    assert_eq!(auction.highest_bid, expected_effective_bid);
    assert_eq!(auction.highest_bidder, Some(bidder1));
}

#[test]
fn test_place_bid_too_low_reserve() {
    let (clock, mut market, _, farmer1, _, bidder1, _) = setup_test();
    let details = create_product_details(&clock, "Grape", "Fruit", "East");
    let product_id = market.add_product(&farmer1, details, clock.timestamp()).unwrap();
    let reserve_price = 1000u64;
    let auction_end_time = clock.timestamp() + 3 * DAY_SECS;
    market
        .create_auction(
            &farmer1,
            product_id,
            reserve_price,
            auction_end_time,
            5,
            50,
            0,
            false,
            clock.timestamp(),
        )
        .unwrap();

    let bid_quantity = 10u32;
    let bid_amount_per_unit = 900u64;
    let total_bid_amount = bid_amount_per_unit * (bid_quantity as u64);

    let result = market.place_bid(
        product_id,
        total_bid_amount,
        bid_quantity,
        &bidder1,
        &farmer1,
        clock.timestamp(),
    );
    match result {
        Err(e) if e == AuctionError::BidTooLow => (),
        _ => panic!("Result does not match expected error: {:?}", result),
    }
}

#[test]
fn test_place_bid_too_low_highest() {
    let (clock, mut market, _, farmer1, _, bidder1, bidder2) = setup_test();
    let details = create_product_details(&clock, "Grape", "Fruit", "East");
    let product_id = market.add_product(&farmer1, details, clock.timestamp()).unwrap();
    let reserve_price = 1000u64;
    let auction_end_time = clock.timestamp() + 3 * DAY_SECS;
    market
        .create_auction(
            &farmer1,
            product_id,
            reserve_price,
            auction_end_time,
            5,
            50,
            0,
            false,
            clock.timestamp(),
        )
        .unwrap();

    let bid1_quantity = 10u32;
    let bid1_amount_per_unit = 1100u64;
    let total_bid1_amount = bid1_amount_per_unit * (bid1_quantity as u64);
    market
        .place_bid(product_id, total_bid1_amount, bid1_quantity, &bidder1, &farmer1, clock.timestamp())
        .unwrap();

    let bid2_quantity = 10u32;
    let bid2_amount_per_unit = 1050u64;
    let total_bid2_amount = bid2_amount_per_unit * (bid2_quantity as u64);

    let result = market.place_bid(
        product_id,
        total_bid2_amount,
        bid2_quantity,
        &bidder2,
        &farmer1,
        clock.timestamp(),
    );
    match result {
        Err(e) if e == AuctionError::BidTooLow => (),
        _ => panic!("Result does not match expected error: {:?}", result),
    }
}

#[test]
fn test_place_bid_auction_ended() {
    let (mut clock, mut market, _, farmer1, _, bidder1, _) = setup_test();
    let details = create_product_details(&clock, "Grape", "Fruit", "East");
    let product_id = market.add_product(&farmer1, details, clock.timestamp()).unwrap();
    let reserve_price = 1000u64;
    let auction_end_time = clock.timestamp() + 100;
    market
        .create_auction(
            &farmer1,
            product_id,
            reserve_price,
            auction_end_time,
            5,
            50,
            0,
            false,
            clock.timestamp(),
        )
        .unwrap();

    advance_time(&mut clock, 200);

    let bid_quantity = 10u32;
    let bid_amount_per_unit = 1100u64;
    let total_bid_amount = bid_amount_per_unit * (bid_quantity as u64);

    let result = market.place_bid(
        product_id,
        total_bid_amount,
        bid_quantity,
        &bidder1,
        &farmer1,
        clock.timestamp(),
    );
    match result {
        Err(e) if e == AuctionError::AuctionEnded => (),
        _ => panic!("Result does not match expected error: {:?}", result),
    }
}

#[test]
fn test_place_bid_farmer_cannot_bid() {
    let (clock, mut market, _, farmer1, _, _, _) = setup_test();
    let details = create_product_details(&clock, "Grape", "Fruit", "East");
    let product_id = market.add_product(&farmer1, details, clock.timestamp()).unwrap();
    let reserve_price = 1000u64;
    let auction_end_time = clock.timestamp() + DAY_SECS;
    market
        .create_auction(
            &farmer1,
            product_id,
            reserve_price,
            auction_end_time,
            5,
            50,
            0,
            false,
            clock.timestamp(),
        )
        .unwrap();

    let bid_quantity = 10u32;
    let bid_amount_per_unit = 1100u64;
    let total_bid_amount = bid_amount_per_unit * (bid_quantity as u64);

    let result = market.place_bid(
        product_id,
        total_bid_amount,
        bid_quantity,
        &farmer1,
        &farmer1,
        clock.timestamp(),
    );
    match result {
        Err(e) if e == AuctionError::InvalidBidder => (),
        _ => panic!("Result does not match expected error: {:?}", result),
    }
}

#[test]
fn test_extend_auction_already_ended() {
    let (mut clock, mut market, _, farmer1, _, _, _) = setup_test();
    let details = create_product_details(&clock, "Orange", "Citrus", "South");
    let product_id = market.add_product(&farmer1, details, clock.timestamp()).unwrap();
    let reserve_price = 700u64;
    let auction_end_time = clock.timestamp() + 100;
    market
        .create_auction(
            &farmer1,
            product_id,
            reserve_price,
            auction_end_time,
            10,
            50,
            0,
            false,
            clock.timestamp(),
        )
        .unwrap();

    advance_time(&mut clock, 200);

    let new_end_time = auction_end_time + DAY_SECS;
    let result = market.extend_auction(&farmer1, product_id, new_end_time, clock.timestamp());
    match result {
        Err(e) if e == AuctionError::AuctionEnded => (),
        _ => panic!("Result does not match expected error: {:?}", result),
    }
}

#[test]
fn test_finalize_auction_not_yet_ended() {
    let (clock, mut market, _, farmer1, _, bidder1, _) = setup_test();
    let details = create_product_details(&clock, "Lemon", "Citrus", "West");
    let product_id = market.add_product(&farmer1, details, clock.timestamp()).unwrap();
    let reserve_price = 600u64;
    let auction_end_time = clock.timestamp() + DAY_SECS;
    market
        .create_auction(
            &farmer1,
            product_id,
            reserve_price,
            auction_end_time,
            20,
            50,
            0,
            false,
            clock.timestamp(),
        )
        .unwrap();
    market.place_bid(product_id, 700 * 20, 20, &bidder1, &farmer1, clock.timestamp()).unwrap();

    let result = market.finalize_auction(&farmer1, product_id, clock.timestamp());
    match result {
        Err(e) if e == AuctionError::AuctionNotYetEnded => (),
        _ => panic!("Result does not match expected error: {:?}", result),
    }
}

#[test]
fn test_finalize_auction_no_bids() {
    let (mut clock, mut market, _, farmer1, _, _, _) = setup_test();
    let details = create_product_details(&clock, "Lemon", "Citrus", "West");
    let product_id = market.add_product(&farmer1, details, clock.timestamp()).unwrap();
    let reserve_price = 600u64;
    let auction_end_time = clock.timestamp() + 100;
    market
        .create_auction(
            &farmer1,
            product_id,
            reserve_price,
            auction_end_time,
            20,
            50,
            0,
            false,
            clock.timestamp(),
        )
        .unwrap();

    advance_time(&mut clock, 200);

    let result = market.finalize_auction(&farmer1, product_id, clock.timestamp());
    match result {
        Err(e) if e == AuctionError::NoBidsPlaced => (),
        _ => panic!("Result does not match expected error: {:?}", result),
    }
}

#[test]
fn test_update_market_price_unauthorized() {
    let (clock, mut market, _, farmer1, _, _, _) = setup_test();
    let product_type = Tag::new("Corn");
    let region = Tag::new("Midwest");
    let price = 150u64;

    let result = market.update_market_price(
        &farmer1,
        product_type.clone(),
        region.clone(),
        price,
        1,
        1000,
        clock.timestamp(),
    );
    match result {
        Err(e) if e == OracleError::InvalidPriceData => (),
        _ => panic!("Result does not match expected error: {:?}", result),
    }
    assert!(market.fetch_market_price(&product_type, &region, clock.timestamp()).is_err());
}

#[test]
fn test_fetch_market_price_not_available() {
    let (clock, market, _, _, _, _, _) = setup_test();
    let product_type = Tag::new("Wheat");
    let region = Tag::new("Plains");

    let result = market.fetch_market_price(&product_type, &region, clock.timestamp());
    match result {
        Err(e) if e == OracleError::PriceDataNotAvailable => (),
        _ => panic!("Result does not match expected error: {:?}", result),
    }
}

#[test]
fn test_compare_with_market() {
    let (clock, mut market, admin, farmer1, _, _, _) = setup_test();
    let product_type = Tag::new("Soybeans");
    let region = Tag::new("South");
    let market_price_val = 200u64;

    market
        .update_market_price(
            &admin,
            product_type.clone(),
            region.clone(),
            market_price_val,
            0,
            5000,
            clock.timestamp(),
        )
        .unwrap();

    let mut details = create_product_details(&clock, "Soybeans", "Grains", "South");
    details.base_price = 220;
    details.product_type = product_type.clone();
    details.region = region.clone();
    let product_id = market.add_product(&farmer1, details.clone(), clock.timestamp()).unwrap();

    let difference = market.compare_with_market(&farmer1, product_id, clock.timestamp()).unwrap();
    assert_eq!(difference, 10);

    details.base_price = 180;
    let product_id_2 = market.add_product(&farmer1, details, clock.timestamp()).unwrap();
    let difference_2 = market.compare_with_market(&farmer1, product_id_2, clock.timestamp()).unwrap();
    assert_eq!(difference_2, -10);
}

#[test]
fn test_check_product_expiry() {
    let (mut clock, mut market, _, farmer1, _, _, _) = setup_test();
    let details = create_product_details(&clock, "Spinach", "Leafy_Greens", "Coast");
    let product_id = market.add_product(&farmer1, details, clock.timestamp()).unwrap();

    advance_time(&mut clock, 6 * DAY_SECS);
    let is_expired1 = market.check_product_expiry(&farmer1, product_id, clock.timestamp()).unwrap();
    assert_eq!(is_expired1, false);

    advance_time(&mut clock, 2 * DAY_SECS);
    let is_expired2 = market.check_product_expiry(&farmer1, product_id, clock.timestamp()).unwrap();
    assert_eq!(is_expired2, true);
}
