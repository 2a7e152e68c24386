//! The auction state machine: opening an auction on a listing, bidding,
//! extending, and finalizing.
//!
//! An auction is `Open` until its end time, `Ended` from then on, and
//! `Finalized` once its winner has been reported. Only an open auction takes
//! bids and extensions; only an ended one can be finalized, once.

use vstd::prelude::*;
use crate::error::AuctionError;
use crate::ident::Identity;
use crate::product::Product;

verus! {

/// Where an auction stands at a given time.
#[derive(Clone, Copy, Debug, PartialEq, Eq, Structural)]
pub enum AuctionPhase {
    /// Before the end time: bids and extensions are taken.
    Open,
    /// From the end time on: the auction waits to be finalized.
    Ended,
    /// The winner has been reported; nothing changes any more.
    Finalized,
}

/// An auction on one listing.
#[derive(Debug)]
pub struct Auction {
    /// Number of the listing among its farmer's listings.
    pub listing_id: u64,
    /// The farmer who owns the listing.
    pub farmer: Identity,
    /// Least price per unit that a bid has to offer.
    pub reserve_price: u64,
    pub auction_end_time: u64,
    pub min_quantity: u32,
    /// Least quantity for which a bid earns the bulk discount.
    pub bulk_discount_threshold: u32,
    /// The bulk discount, in hundredths of the bid.
    pub bulk_discount_percentage: u32,
    pub dynamic_pricing: bool,
    /// Units on offer: the listing's quantity, less what finalizing committed.
    pub quantity_available: u32,
    /// The highest bid after its discount; zero while there is none.
    pub highest_bid: u64,
    pub highest_bidder: Option<Identity>,
    /// Quantity that the highest bid asked for; zero while there is none.
    pub highest_bid_quantity: u32,
    /// Set by finalizing, never cleared.
    pub finalized: bool,
}

impl Clone for Auction {
    fn clone(&self) -> (copy: Auction)
        ensures
            copy == *self,
    {
        Auction {
            listing_id: self.listing_id,
            farmer: self.farmer.clone(),
            reserve_price: self.reserve_price,
            auction_end_time: self.auction_end_time,
            min_quantity: self.min_quantity,
            bulk_discount_threshold: self.bulk_discount_threshold,
            bulk_discount_percentage: self.bulk_discount_percentage,
            dynamic_pricing: self.dynamic_pricing,
            quantity_available: self.quantity_available,
            highest_bid: self.highest_bid,
            highest_bidder: match &self.highest_bidder {
                Some(bidder) => Some(bidder.clone()),
                None => None,
            },
            highest_bid_quantity: self.highest_bid_quantity,
            finalized: self.finalized,
        }
    }
}

/// What finalizing an auction reports.
#[derive(Debug)]
pub struct Settlement {
    pub winner: Identity,
    /// The winning bid after its discount.
    pub amount: u64,
    /// Units committed to the winner.
    pub quantity: u32,
}

impl Clone for Settlement {
    fn clone(&self) -> (copy: Settlement)
        ensures
            copy == *self,
    {
        Settlement { winner: self.winner.clone(), amount: self.amount, quantity: self.quantity }
    }
}

/// A bid as it is submitted.
#[derive(Debug)]
pub struct Bid {
    pub bidder: Identity,
    /// What the bidder offers for the whole quantity, before any discount.
    pub total_amount: u64,
    pub quantity: u32,
    /// Time of submission.
    pub placed_at: u64,
}

impl Clone for Bid {
    fn clone(&self) -> (copy: Bid)
        ensures
            copy == *self,
    {
        Bid {
            bidder: self.bidder.clone(),
            total_amount: self.total_amount,
            quantity: self.quantity,
            placed_at: self.placed_at,
        }
    }
}

/// Least total that a bid for `quantity` units has to offer.
pub open spec fn minimum_required(reserve_price: u64, quantity: u32) -> int {
    reserve_price * quantity
}

/// A bid's amount after the bulk discount: the discount applies from the
/// threshold quantity on, and its fraction is dropped.
pub open spec fn effective_bid(
    total_amount: u64,
    quantity: u32,
    bulk_discount_threshold: u32,
    bulk_discount_percentage: u32,
) -> int {
    if quantity >= bulk_discount_threshold {
        total_amount - (total_amount * bulk_discount_percentage) / 100
    } else {
        total_amount as int
    }
}

/// Tells whether an end time may be set at time `now` on an auction of a
/// product that expires at `expiry_date`.
pub open spec fn end_time_allowed(end_time: u64, now: u64, expiry_date: u64) -> bool {
    now < end_time <= expiry_date
}

impl Auction {
    /// Where the auction stands at time `now`.
    pub open spec fn phase_at(&self, now: u64) -> AuctionPhase {
        if self.finalized {
            AuctionPhase::Finalized
        } else if now >= self.auction_end_time {
            AuctionPhase::Ended
        } else {
            AuctionPhase::Open
        }
    }

    /// The auction as it is opened on `product`.
    pub open spec fn opened(
        product: Product,
        reserve_price: u64,
        end_time: u64,
        min_quantity: u32,
        bulk_discount_threshold: u32,
        bulk_discount_percentage: u32,
        dynamic_pricing: bool,
    ) -> Auction {
        Auction {
            listing_id: product.listing_id,
            farmer: product.farmer,
            reserve_price,
            auction_end_time: end_time,
            min_quantity,
            bulk_discount_threshold,
            bulk_discount_percentage,
            dynamic_pricing,
            quantity_available: product.details.quantity,
            highest_bid: 0,
            highest_bidder: None,
            highest_bid_quantity: 0,
            finalized: false,
        }
    }

    /// The amount of a bid on this auction after the bulk discount.
    pub open spec fn effective(&self, total_amount: u64, quantity: u32) -> int {
        effective_bid(
            total_amount,
            quantity,
            self.bulk_discount_threshold,
            self.bulk_discount_percentage,
        )
    }

    /// Why a bid is turned down at time `now`, if it is.
    ///
    /// The checks come in a fixed order: the bidder, the phase, the reserve,
    /// the highest bid so far.
    pub open spec fn bid_rejection(
        &self,
        bidder: Seq<char>,
        total_amount: u64,
        quantity: u32,
        now: u64,
    ) -> Option<AuctionError> {
        if bidder == self.farmer@ {
            Some(AuctionError::InvalidBidder)
        } else if self.phase_at(now) != AuctionPhase::Open {
            Some(AuctionError::AuctionEnded)
        } else if total_amount < minimum_required(self.reserve_price, quantity) {
            Some(AuctionError::BidTooLow)
        } else if self.effective(total_amount, quantity) <= self.highest_bid {
            Some(AuctionError::BidTooLow)
        } else {
            None
        }
    }

    /// The auction after it has accepted a bid.
    pub open spec fn after_bid(self, bidder: Identity, total_amount: u64, quantity: u32) -> Auction {
        Auction {
            highest_bid: self.effective(total_amount, quantity) as u64,
            highest_bidder: Some(bidder),
            highest_bid_quantity: quantity,
            ..self
        }
    }

    /// Why an extension to `new_end_time` is turned down at time `now`, if it is.
    pub open spec fn extension_rejection(
        &self,
        new_end_time: u64,
        now: u64,
        expiry_date: u64,
    ) -> Option<AuctionError> {
        if self.phase_at(now) != AuctionPhase::Open {
            Some(AuctionError::AuctionEnded)
        } else if !end_time_allowed(new_end_time, now, expiry_date) {
            Some(AuctionError::InvalidAuctionEndTime)
        } else {
            None
        }
    }

    /// Why the auction cannot be finalized at time `now`, if it cannot.
    pub open spec fn finalize_rejection(&self, now: u64) -> Option<AuctionError> {
        if self.finalized {
            Some(AuctionError::AuctionEnded)
        } else if now < self.auction_end_time {
            Some(AuctionError::AuctionNotYetEnded)
        } else if self.highest_bidder is None {
            Some(AuctionError::NoBidsPlaced)
        } else {
            None
        }
    }

    /// Units that finalizing commits to the winner: what the highest bid asked
    /// for, as far as the auction has it.
    pub open spec fn committed_quantity(&self) -> u32 {
        if self.highest_bid_quantity <= self.quantity_available {
            self.highest_bid_quantity
        } else {
            self.quantity_available
        }
    }

    /// The auction after it has been finalized.
    pub open spec fn after_finalize(self) -> Auction {
        Auction {
            quantity_available: (self.quantity_available - self.committed_quantity()) as u32,
            finalized: true,
            ..self
        }
    }

    /// What finalizing the auction reports.
    pub open spec fn settlement(&self) -> Settlement {
        Settlement {
            winner: self.highest_bidder->0,
            amount: self.highest_bid,
            quantity: self.committed_quantity(),
        }
    }

    /// Where the auction stands at time `now`.
    pub fn phase(&self, now: u64) -> (phase: AuctionPhase)
        ensures
            phase == self.phase_at(now),
    {
        if self.finalized {
            AuctionPhase::Finalized
        } else if now >= self.auction_end_time {
            AuctionPhase::Ended
        } else {
            AuctionPhase::Open
        }
    }

    /// Opens an auction on `product` at time `now`.
    ///
    /// The end time has to lie in the future and not after the product's expiry.
    pub fn open(
        product: &Product,
        reserve_price: u64,
        end_time: u64,
        min_quantity: u32,
        bulk_discount_threshold: u32,
        bulk_discount_percentage: u32,
        dynamic_pricing: bool,
        now: u64,
    ) -> (outcome: Result<Auction, AuctionError>)
        ensures
            outcome == if end_time_allowed(end_time, now, product.expiry_date) {
                Ok::<Auction, AuctionError>(
                    Auction::opened(
                        *product,
                        reserve_price,
                        end_time,
                        min_quantity,
                        bulk_discount_threshold,
                        bulk_discount_percentage,
                        dynamic_pricing,
                    ),
                )
            } else {
                Err(AuctionError::InvalidAuctionEndTime)
            },
    {
        if end_time <= now || end_time > product.expiry_date {
            return Err(AuctionError::InvalidAuctionEndTime);
        }
        Ok(
            Auction {
                listing_id: product.listing_id,
                farmer: product.farmer.clone(),
                reserve_price,
                auction_end_time: end_time,
                min_quantity,
                bulk_discount_threshold,
                bulk_discount_percentage,
                dynamic_pricing,
                quantity_available: product.details.quantity,
                highest_bid: 0,
                highest_bidder: None,
                highest_bid_quantity: 0,
                finalized: false,
            },
        )
    }

    /// Computes the amount of a bid after the bulk discount, where that amount
    /// is not negative.
    pub fn effective_amount(&self, total_amount: u64, quantity: u32) -> (amount: Option<u64>)
        ensures
            amount == if self.effective(total_amount, quantity) >= 0 {
                Some(self.effective(total_amount, quantity) as u64)
            } else {
                None
            },
    {
        if quantity >= self.bulk_discount_threshold {
            assert(total_amount * self.bulk_discount_percentage <= u64::MAX * u32::MAX)
                by (nonlinear_arith);
            let product: u128 = (total_amount as u128) * (self.bulk_discount_percentage as u128);
            let discount: u128 = product / 100;
            if discount > total_amount as u128 {
                None
            } else {
                Some(total_amount - (discount as u64))
            }
        } else {
            Some(total_amount)
        }
    }

    /// Submits a bid of `total_amount` for `quantity` units at time `now`.
    ///
    /// An accepted bid becomes the highest bid, at its amount after the
    /// discount. A rejected bid changes nothing.
    pub fn place_bid(
        &mut self,
        total_amount: u64,
        quantity: u32,
        bidder: &Identity,
        now: u64,
    ) -> (outcome: Result<bool, AuctionError>)
        ensures
            match old(self).bid_rejection(bidder@, total_amount, quantity, now) {
                Some(e) => outcome == Err::<bool, AuctionError>(e) && *final(self) == *old(self),
                None => outcome == Ok::<bool, AuctionError>(true) && *final(self) == old(self).after_bid(
                    *bidder,
                    total_amount,
                    quantity,
                ),
            },
            final(self).highest_bid >= old(self).highest_bid,
            outcome is Ok ==> final(self).highest_bid > old(self).highest_bid,
    {
        if *bidder == self.farmer {
            return Err(AuctionError::InvalidBidder);
        }
        if self.finalized || now >= self.auction_end_time {
            return Err(AuctionError::AuctionEnded);
        }
        assert(self.reserve_price * quantity <= u64::MAX * u32::MAX) by (nonlinear_arith);
        let required: u128 = (self.reserve_price as u128) * (quantity as u128);
        if (total_amount as u128) < required {
            return Err(AuctionError::BidTooLow);
        }
        match self.effective_amount(total_amount, quantity) {
            None => Err(AuctionError::BidTooLow),
            Some(amount) => {
                if amount <= self.highest_bid {
                    return Err(AuctionError::BidTooLow);
                }
                self.highest_bid = amount;
                self.highest_bidder = Some(bidder.clone());
                self.highest_bid_quantity = quantity;
                Ok(true)
            },
        }
    }

    /// Moves the end time of an open auction at time `now`; `expiry_date` is
    /// the expiry of the product on auction.
    pub fn extend(&mut self, new_end_time: u64, now: u64, expiry_date: u64) -> (outcome: Result<
        (),
        AuctionError,
    >)
        ensures
            match old(self).extension_rejection(new_end_time, now, expiry_date) {
                Some(e) => outcome == Err::<(), AuctionError>(e) && *final(self) == *old(self),
                None => outcome == Ok::<(), AuctionError>(()) && *final(self) == (Auction {
                    auction_end_time: new_end_time,
                    ..*old(self)
                }),
            },
    {
        if self.finalized || now >= self.auction_end_time {
            return Err(AuctionError::AuctionEnded);
        }
        if new_end_time <= now || new_end_time > expiry_date {
            return Err(AuctionError::InvalidAuctionEndTime);
        }
        self.auction_end_time = new_end_time;
        Ok(())
    }

    /// Closes an ended auction at time `now` and reports its winner.
    pub fn finalize(&mut self, now: u64) -> (outcome: Result<Settlement, AuctionError>)
        ensures
            match old(self).finalize_rejection(now) {
                Some(e) => outcome == Err::<Settlement, AuctionError>(e) && *final(self) == *old(self),
                None => outcome == Ok::<Settlement, AuctionError>(old(self).settlement())
                    && *final(self) == old(self).after_finalize(),
            },
    {
        if self.finalized {
            return Err(AuctionError::AuctionEnded);
        }
        if now < self.auction_end_time {
            return Err(AuctionError::AuctionNotYetEnded);
        }
        let winner = match &self.highest_bidder {
            None => {
                return Err(AuctionError::NoBidsPlaced);
            },
            Some(bidder) => bidder.clone(),
        };
        let quantity: u32 = if self.highest_bid_quantity <= self.quantity_available {
            self.highest_bid_quantity
        } else {
            self.quantity_available
        };
        self.quantity_available = self.quantity_available - quantity;
        self.finalized = true;
        Ok(Settlement { winner, amount: self.highest_bid, quantity })
    }
}

} // verus!
