//! The registry and its four operations: minting, setting a price, transfer
//! and purchase. Each either takes effect as a whole or is rejected and
//! changes nothing.

use vstd::prelude::*;

use crate::bounded::MAX_KITTIES_OWNED;
use crate::hashing::{dna_of, gen_dna};
use crate::laws::{
    law_empty_in_order, law_listed_by_owner_only, law_mint_keeps_order,
    law_set_price_keeps_order, lemma_swap_removed, law_transfer_keeps_order,
};
use crate::model::Registry;
use crate::store::RegistryStore;
use crate::types::{
    AccountId, Balance, BlockNumber, Dna, Error, Event, Kitty, Payment, Settlement,
};

verus! {

/// A registry of kitties. Its view is the [`Registry`] it stands for.
pub struct Pallet {
    store: RegistryStore,
}

impl View for Pallet {
    type V = Registry;

    closed spec fn view(&self) -> Registry {
        self.store@
    }
}

impl Pallet {
    /// The storage is sound.
    pub closed spec fn inv(&self) -> bool {
        self.store.inv()
    }

    /// The registry is in order: its storage is sound and what it holds is
    /// well-formed.
    pub open spec fn wf(&self) -> bool {
        self.inv() && self@.wf()
    }

    /// A registry in which nothing was minted.
    pub fn new() -> (pallet: Pallet)
        ensures
            pallet.wf(),
            pallet@ == Registry::empty(),
    {
        let pallet = Pallet { store: RegistryStore::new() };
        proof {
            law_empty_in_order();
        }
        pallet
    }

    /// How many kitties were minted.
    pub fn all_kitties_count(&self) -> (count: u64)
        ensures
            count == self@.count,
    {
        self.store.total_count()
    }

    /// The kitties that `who` holds, in the order of the list.
    pub fn kitties_owned(&self, who: AccountId) -> (ids: Vec<Dna>)
        ensures
            ids@ == self@.kitties_owned[who],
    {
        self.store.owner_list(who)
    }

    /// The kitty `kitty_dna`, if it was minted.
    pub fn kitties(&self, kitty_dna: &Dna) -> (kitty: Option<Kitty>)
        requires
            self.wf(),
        ensures
            kitty == if self@.kitties.contains_key(*kitty_dna) {
                Some(self@.kitties[*kitty_dna])
            } else {
                None
            },
    {
        self.store.get_asset(kitty_dna)
    }

    /// The owner of the kitty `kitty_dna`, if it was minted.
    pub fn owner_of(&self, kitty_dna: &Dna) -> (owner: Option<AccountId>)
        requires
            self.wf(),
        ensures
            owner == self@.owner_of(*kitty_dna),
    {
        match self.store.get_asset(kitty_dna) {
            Some(kitty) => Some(kitty.owner),
            None => None,
        }
    }

    /// Mints a kitty for `sender`. Its identifier is derived from `random`,
    /// a draw of the host's randomness, the block the draw was made in, and
    /// `sender`; with that identifier the call does what [`Self::mint`] does.
    pub fn create_kitty(
        &mut self,
        sender: AccountId,
        random: Dna,
        block_number: BlockNumber,
    ) -> (result: Result<Event, Error>)
        requires
            old(self).wf(),
        ensures
            final(self).wf(),
            result == old(self)@.mint(sender, dna_of(random@, block_number, sender)).result,
            final(self)@ == old(self)@.mint(sender, dna_of(random@, block_number, sender)).state,
    {
        let kitty_dna = gen_dna(&random, block_number, sender);
        self.mint(sender, kitty_dna)
    }

    /// Mints the kitty `kitty_dna` for `owner`, unpriced. The call is
    /// rejected with `DuplicateKitty` where the identifier is taken, with
    /// `TooManyOwned` where the list of `owner` is full, and with `Overflow`
    /// where the count cannot grow.
    pub fn mint(&mut self, owner: AccountId, kitty_dna: Dna) -> (result: Result<Event, Error>)
        requires
            old(self).wf(),
        ensures
            final(self).wf(),
            result == old(self)@.mint(owner, kitty_dna).result,
            final(self)@ == old(self)@.mint(owner, kitty_dna).state,
    {
        proof {
            law_mint_keeps_order(self@, owner, kitty_dna);
        }
        if self.store.asset_exists(&kitty_dna) {
            return Err(Error::DuplicateKitty);
        }
        if self.store.owned_count(owner) >= MAX_KITTIES_OWNED as usize {
            return Err(Error::TooManyOwned);
        }
        match self.store.increment_total_count() {
            Ok(_) => {},
            Err(error) => {
                return Err(error);
            },
        }
        // The list has room, so the store takes the identifier.
        self.store.append_to_owner(owner, kitty_dna).unwrap();
        self.store.put_asset(kitty_dna, Kitty::new(kitty_dna, owner));
        Ok(Event::Created { kitty: kitty_dna, owner })
    }

    /// Sets the asking price of the kitty `kitty_dna`, or withdraws it with
    /// `None`. Only the owner may: the call is rejected with `NoKitty` where
    /// there is no such kitty and with `NotOwner` where `sender` does not own
    /// it.
    pub fn set_price(
        &mut self,
        sender: AccountId,
        kitty_dna: Dna,
        new_price: Option<Balance>,
    ) -> (result: Result<Event, Error>)
        requires
            old(self).wf(),
        ensures
            final(self).wf(),
            result == old(self)@.set_price(sender, kitty_dna, new_price).result,
            final(self)@ == old(self)@.set_price(sender, kitty_dna, new_price).state,
    {
        proof {
            law_set_price_keeps_order(self@, sender, kitty_dna, new_price);
        }
        let kitty = match self.store.get_asset(&kitty_dna) {
            Some(kitty) => kitty,
            None => {
                return Err(Error::NoKitty);
            },
        };
        if kitty.owner != sender {
            return Err(Error::NotOwner);
        }
        self.store.put_asset(
            kitty_dna,
            Kitty { dna: kitty.dna, price: new_price, gender: kitty.gender, owner: kitty.owner },
        );
        Ok(Event::PriceSet { kitty: kitty_dna, price: new_price })
    }

    /// Hands the kitty `kitty_dna` over from `from` to `to` and withdraws its
    /// price. The call is rejected with `NoKitty` where there is no such
    /// kitty, with `NotOwner` where `from` does not own it, with
    /// `TransferToSelf` where `to` is `from`, and with `TooManyOwned` where
    /// the list of `to` is full.
    pub fn transfer(&mut self, from: AccountId, to: AccountId, kitty_dna: Dna) -> (result: Result<
        Event,
        Error,
    >)
        requires
            old(self).wf(),
        ensures
            final(self).wf(),
            result == old(self)@.transfer(from, to, kitty_dna).result,
            final(self)@ == old(self)@.transfer(from, to, kitty_dna).state,
    {
        let mut kitty = match self.store.get_asset(&kitty_dna) {
            Some(kitty) => kitty,
            None => {
                return Err(Error::NoKitty);
            },
        };
        match self.do_transfer(&mut kitty, from, to) {
            Ok(_) => Ok(Event::Transferred { from, to, kitty: kitty_dna }),
            Err(error) => Err(error),
        }
    }

    /// The kitty `kitty_dna` and the payment that `buyer` owes for it on a
    /// bid of `bid_price`, or why no payment is asked.
    fn sale_terms(&self, buyer: AccountId, kitty_dna: &Dna, bid_price: Balance) -> (terms: Result<
        (Kitty, Payment),
        Error,
    >)
        requires
            self.wf(),
        ensures
            match self@.quote(buyer, *kitty_dna, bid_price) {
                Ok(payment) => terms == Ok::<(Kitty, Payment), Error>(
                    (self@.kitties[*kitty_dna], payment),
                ),
                Err(error) => terms == Err::<(Kitty, Payment), Error>(error),
            },
    {
        let kitty = match self.store.get_asset(kitty_dna) {
            Some(kitty) => kitty,
            None => {
                return Err(Error::NoKitty);
            },
        };
        match kitty.price {
            None => Err(Error::NotForSale),
            Some(price) => {
                if bid_price < price {
                    Err(Error::BidPriceTooLow)
                } else {
                    Ok(
                        (
                            kitty,
                            Payment { from: buyer, to: kitty.owner, amount: price, keep_alive: true },
                        ),
                    )
                }
            },
        }
    }

    /// The payment that `buyer` owes for the kitty `kitty_dna` on a bid of
    /// `bid_price`: the asking price, to the owner. None is asked, and the
    /// purchase is rejected, with `NoKitty` where there is no such kitty,
    /// with `NotForSale` where it has no price, and with `BidPriceTooLow`
    /// where the bid is below the price.
    pub fn purchase_quote(&self, buyer: AccountId, kitty_dna: &Dna, bid_price: Balance) -> (quote:
        Result<Payment, Error>)
        requires
            self.wf(),
        ensures
            quote == self@.quote(buyer, *kitty_dna, bid_price),
    {
        match self.sale_terms(buyer, kitty_dna, bid_price) {
            Ok(terms) => Ok(terms.1),
            Err(error) => Err(error),
        }
    }

    /// Ends a purchase. `paid` says whether the currency ledger made the
    /// payment that [`Self::purchase_quote`] names for the same arguments.
    /// Where no payment is asked, the purchase is rejected as
    /// `purchase_quote` says, whatever `paid` is. Where the ledger refused
    /// the payment, the purchase is rejected with `InsufficientBalance`.
    /// Where the ledger made it, the kitty goes to `buyer` and its price is
    /// withdrawn; if it cannot go, because `buyer` owns it (`TransferToSelf`)
    /// or the list of `buyer` is full (`TooManyOwned`), the purchase is
    /// rejected and `refund` names the payment that hands the money back.
    pub fn settle_purchase(
        &mut self,
        buyer: AccountId,
        kitty_dna: Dna,
        bid_price: Balance,
        paid: bool,
    ) -> (settled: Settlement)
        requires
            old(self).wf(),
        ensures
            final(self).wf(),
            settled.result == old(self)@.buy(buyer, kitty_dna, bid_price, paid).result,
            settled.refund == old(self)@.refund(buyer, kitty_dna, bid_price, paid),
            final(self)@ == old(self)@.buy(buyer, kitty_dna, bid_price, paid).state,
    {
        let (mut kitty, payment) = match self.sale_terms(buyer, &kitty_dna, bid_price) {
            Ok(terms) => terms,
            Err(error) => {
                return Settlement { result: Err(error), refund: None };
            },
        };
        if !paid {
            return Settlement { result: Err(Error::InsufficientBalance), refund: None };
        }
        match self.do_transfer(&mut kitty, payment.to, buyer) {
            Ok(_) => Settlement {
                result: Ok(
                    Event::Sold {
                        seller: payment.to,
                        buyer,
                        kitty: kitty_dna,
                        price: payment.amount,
                    },
                ),
                refund: None,
            },
            Err(error) => Settlement {
                result: Err(error),
                refund: Some(
                    Payment {
                        from: payment.to,
                        to: payment.from,
                        amount: payment.amount,
                        keep_alive: false,
                    },
                ),
            },
        }
    }

    /// Buys the kitty `kitty_dna` for `buyer` at its asking price, which
    /// `bid_price` must reach. `pay` stands for the currency ledger: it is
    /// called once, with the payment to make, where there is a kitty for
    /// sale at a price that the bid reaches, and not at all otherwise. With
    /// its answer the purchase ends as [`Self::settle_purchase`] says: the
    /// kitty moves only if `pay` returned `true`, and where it returned
    /// `true` and the kitty cannot move, `refund` names the payment that the
    /// ledger is to make to hand the money back.
    pub fn buy_kitty<F: FnOnce(Payment) -> bool>(
        &mut self,
        buyer: AccountId,
        kitty_dna: Dna,
        bid_price: Balance,
        pay: F,
    ) -> (settled: Settlement)
        requires
            old(self).wf(),
            old(self)@.quote(buyer, kitty_dna, bid_price) matches Ok(payment) ==> call_requires(
                pay,
                (payment,),
            ),
        ensures
            final(self).wf(),
            old(self)@.quote(buyer, kitty_dna, bid_price) matches Err(error) ==> {
                &&& settled.result == Err::<Event, Error>(error)
                &&& settled.refund is None
                &&& final(self)@ == old(self)@
            },
            old(self)@.quote(buyer, kitty_dna, bid_price) matches Ok(payment) ==> exists|paid: bool|
                {
                    &&& call_ensures(pay, (payment,), paid)
                    &&& settled.result == old(self)@.buy(buyer, kitty_dna, bid_price, paid).result
                    &&& settled.refund == old(self)@.refund(buyer, kitty_dna, bid_price, paid)
                    &&& final(self)@ == old(self)@.buy(buyer, kitty_dna, bid_price, paid).state
                },
    {
        let payment = match self.purchase_quote(buyer, &kitty_dna, bid_price) {
            Ok(payment) => payment,
            Err(error) => {
                return Settlement { result: Err(error), refund: None };
            },
        };
        let paid = pay(payment);
        self.settle_purchase(buyer, kitty_dna, bid_price, paid)
    }

    /// Moves `kitty`, the record that the registry holds under its
    /// identifier, from `from` into the hands of `to`. The move is rejected
    /// with `NotOwner` where `from` does not own the kitty, with
    /// `TransferToSelf` where `to` is `from`, and with `TooManyOwned` where
    /// the list of `to` is full; then neither `kitty` nor the registry
    /// changes. Where it goes through, the kitty has no price and `to` as its
    /// owner, in `kitty` as in the registry; it has left the list of `from`,
    /// whose last identifier took its place, and stands at the end of the
    /// list of `to`.
    pub fn do_transfer(&mut self, kitty: &mut Kitty, from: AccountId, to: AccountId) -> (done:
        Result<(), Error>)
        requires
            old(self).wf(),
            old(self)@.kitties.contains_key(old(kitty).dna),
            old(self)@.kitties[old(kitty).dna] == *old(kitty),
        ensures
            final(self).wf(),
            done == match old(self)@.transfer_error(from, to, old(kitty).dna) {
                Some(error) => Err::<(), Error>(error),
                None => Ok::<(), Error>(()),
            },
            done is Err ==> final(self)@ == old(self)@ && *final(kitty) == *old(kitty),
            done is Ok ==> {
                &&& final(self)@ == old(self)@.moved(old(kitty).dna, to)
                &&& *final(kitty) == (Kitty { price: None, owner: to, ..*old(kitty) })
                &&& final(self)@.kitties[old(kitty).dna] == *final(kitty)
                &&& final(self)@.kitties_owned[to].len() == old(self)@.kitties_owned[to].len() + 1
                &&& final(self)@.kitties_owned[from].len() == old(self)@.kitties_owned[from].len()
                    - 1
            },
    {
        proof {
            law_transfer_keeps_order(self@, from, to, kitty.dna);
            law_listed_by_owner_only(self@, from, kitty.dna);
            if self@.kitties_owned[from].contains(kitty.dna) {
                assert(self@.list_ok(from));
                lemma_swap_removed(self@.kitties_owned[from], kitty.dna);
            }
        }
        if kitty.owner != from {
            return Err(Error::NotOwner);
        }
        if from == to {
            return Err(Error::TransferToSelf);
        }
        if self.store.owned_count(to) >= MAX_KITTIES_OWNED as usize {
            return Err(Error::TooManyOwned);
        }
        // The kitty stands in the list of its owner and the other list has
        // room, so the store does both.
        self.store.remove_from_owner(from, kitty.dna).unwrap();
        self.store.append_to_owner(to, kitty.dna).unwrap();
        kitty.price = None;
        kitty.owner = to;
        self.store.put_asset(kitty.dna, *kitty);
        assert(self@.kitties_owned =~= old(self)@.moved(kitty.dna, to).kitties_owned);
        Ok(())
    }
}

} // verus!
