//! The registry as a mathematical value, and each operation as a function
//! from the state before a call to the state after it and the call's result.

use vstd::prelude::*;

use crate::bounded::MAX_KITTIES_OWNED;
use crate::types::{fresh_kitty, gender_of, AccountId, Balance, Dna, Error, Event, Kitty, Payment};

verus! {

/// The state of a registry.
#[verifier::ext_equal]
pub struct Registry {
    /// Every minted kitty, by identifier.
    pub kitties: Map<Dna, Kitty>,
    /// For each account the kitties it holds, in the order of its list. The
    /// map has every account as a key; an account that holds nothing has the
    /// empty list.
    pub kitties_owned: Map<AccountId, Seq<Dna>>,
    /// How many kitties were minted.
    pub count: nat,
}

/// A state and the result of the call that led to it.
#[verifier::ext_equal]
pub struct Outcome {
    pub state: Registry,
    pub result: Result<Event, Error>,
}

/// A call of one of the four operations, with its arguments. For a purchase
/// `paid` says whether the currency ledger made the payment asked of it.
#[allow(inconsistent_fields)]
pub enum Call {
    Mint { who: AccountId, dna: Dna },
    SetPrice { who: AccountId, id: Dna, new_price: Option<Balance> },
    Transfer { from: AccountId, to: AccountId, id: Dna },
    Buy { buyer: AccountId, id: Dna, bid_price: Balance, paid: bool },
}

/// `i` is the first place at which `id` stands in `list`.
pub open spec fn is_first_index(list: Seq<Dna>, id: Dna, i: int) -> bool {
    &&& 0 <= i < list.len()
    &&& list[i] == id
    &&& forall|j: int| 0 <= j < i ==> list[j] != id
}

/// The first place at which `id` stands in `list`, where it stands in it.
pub open spec fn first_index(list: Seq<Dna>, id: Dna) -> int {
    choose|i: int| is_first_index(list, id, i)
}

/// `list` without the first `id` in it: the last identifier takes the place
/// of the one removed, so the order of the others is not kept.
pub open spec fn swap_removed(list: Seq<Dna>, id: Dna) -> Seq<Dna> {
    list.update(first_index(list, id), list.last()).drop_last()
}

impl Registry {
    /// The registry in which nothing was minted.
    pub open spec fn empty() -> Registry {
        Registry {
            kitties: Map::empty(),
            kitties_owned: Map::total(|who: AccountId| Seq::<Dna>::empty()),
            count: 0,
        }
    }

    /// The owner of a kitty, where it exists.
    pub open spec fn owner_of(self, id: Dna) -> Option<AccountId> {
        if self.kitties.contains_key(id) {
            Some(self.kitties[id].owner)
        } else {
            None
        }
    }

    /// The kitty `id` is recorded under its own identifier, has the category
    /// that its identifier gives, and stands in its owner's list.
    pub open spec fn kitty_ok(self, id: Dna) -> bool {
        let kitty = self.kitties[id];
        &&& kitty.dna == id
        &&& kitty.gender == gender_of(id)
        &&& self.kitties_owned[kitty.owner].contains(id)
    }

    /// The list of `who` is within capacity, names no kitty twice, and names
    /// only kitties that `who` owns.
    pub open spec fn list_ok(self, who: AccountId) -> bool {
        let list = self.kitties_owned[who];
        &&& list.len() <= MAX_KITTIES_OWNED
        &&& list.no_duplicates()
        &&& forall|i: int|
            0 <= i < list.len() ==> self.kitties.contains_key(#[trigger] list[i])
                && self.kitties[list[i]].owner == who
    }

    /// What holds of every registry that was reached from the empty one:
    /// the count is the number of kitties, every kitty has exactly one owner
    /// and stands in that owner's list and in no other, and no list is over
    /// capacity.
    pub open spec fn wf(self) -> bool {
        &&& self.kitties.dom().finite()
        &&& self.count == self.kitties.dom().len()
        &&& self.count <= u64::MAX
        &&& forall|who: AccountId| #[trigger] self.kitties_owned.contains_key(who)
        &&& forall|id: Dna| #[trigger] self.kitties.contains_key(id) ==> self.kitty_ok(id)
        &&& forall|who: AccountId| #[trigger] self.list_ok(who)
    }

    /// The call was rejected with `error`; the state stays.
    pub open spec fn rejected(self, error: Error) -> Outcome {
        Outcome { state: self, result: Err(error) }
    }

    /// Minting of the kitty `dna` for `who`.
    pub open spec fn mint(self, who: AccountId, dna: Dna) -> Outcome {
        if self.kitties.contains_key(dna) {
            self.rejected(Error::DuplicateKitty)
        } else if self.kitties_owned[who].len() >= MAX_KITTIES_OWNED {
            self.rejected(Error::TooManyOwned)
        } else if self.count >= u64::MAX {
            self.rejected(Error::Overflow)
        } else {
            Outcome {
                state: Registry {
                    kitties: self.kitties.insert(dna, fresh_kitty(dna, who)),
                    kitties_owned: self.kitties_owned.insert(
                        who,
                        self.kitties_owned[who].push(dna),
                    ),
                    count: self.count + 1,
                },
                result: Ok(Event::Created { kitty: dna, owner: who }),
            }
        }
    }

    /// `who` sets the asking price of the kitty `id`, or withdraws it with
    /// `None`.
    pub open spec fn set_price(self, who: AccountId, id: Dna, new_price: Option<Balance>) -> Outcome {
        if !self.kitties.contains_key(id) {
            self.rejected(Error::NoKitty)
        } else if self.kitties[id].owner != who {
            self.rejected(Error::NotOwner)
        } else {
            Outcome {
                state: Registry {
                    kitties: self.kitties.insert(
                        id,
                        Kitty { price: new_price, ..self.kitties[id] },
                    ),
                    ..self
                },
                result: Ok(Event::PriceSet { kitty: id, price: new_price }),
            }
        }
    }

    /// The kitty `id` in the hands of `to`: its price is withdrawn, it leaves
    /// the list of its owner and joins the end of the list of `to`.
    pub open spec fn moved(self, id: Dna, to: AccountId) -> Registry {
        let from = self.kitties[id].owner;
        Registry {
            kitties: self.kitties.insert(id, Kitty { price: None, owner: to, ..self.kitties[id] }),
            kitties_owned: self.kitties_owned.insert(
                from,
                swap_removed(self.kitties_owned[from], id),
            ).insert(to, self.kitties_owned[to].push(id)),
            count: self.count,
        }
    }

    /// Why the kitty `id` cannot go from `from` to `to`, if it cannot.
    pub open spec fn transfer_error(self, from: AccountId, to: AccountId, id: Dna) -> Option<Error> {
        if !self.kitties.contains_key(id) {
            Some(Error::NoKitty)
        } else if self.kitties[id].owner != from {
            Some(Error::NotOwner)
        } else if from == to {
            Some(Error::TransferToSelf)
        } else if self.kitties_owned[to].len() >= MAX_KITTIES_OWNED {
            Some(Error::TooManyOwned)
        } else {
            None
        }
    }

    /// `from` hands the kitty `id` over to `to`.
    pub open spec fn transfer(self, from: AccountId, to: AccountId, id: Dna) -> Outcome {
        match self.transfer_error(from, to, id) {
            Some(error) => self.rejected(error),
            None => Outcome {
                state: self.moved(id, to),
                result: Ok(Event::Transferred { from, to, kitty: id }),
            },
        }
    }

    /// The payment that `buyer` owes for the kitty `id` on a bid of
    /// `bid_price`, or why none is asked: there is no such kitty, it is not
    /// for sale, or the bid is below its price. The amount is the asking
    /// price, whatever the bid, and it goes to the owner.
    pub open spec fn quote(self, buyer: AccountId, id: Dna, bid_price: Balance) -> Result<
        Payment,
        Error,
    > {
        if !self.kitties.contains_key(id) {
            Err(Error::NoKitty)
        } else {
            match self.kitties[id].price {
                None => Err(Error::NotForSale),
                Some(price) => if bid_price < price {
                    Err(Error::BidPriceTooLow)
                } else {
                    Ok(
                        Payment {
                            from: buyer,
                            to: self.kitties[id].owner,
                            amount: price,
                            keep_alive: true,
                        },
                    )
                },
            }
        }
    }

    /// The payment that the ledger made in the course of a purchase: the one
    /// that [`Self::quote`] names, where there is one and `paid` holds.
    pub open spec fn payment_made(
        self,
        buyer: AccountId,
        id: Dna,
        bid_price: Balance,
        paid: bool,
    ) -> Option<Payment> {
        match self.quote(buyer, id, bid_price) {
            Ok(payment) => if paid {
                Some(payment)
            } else {
                None
            },
            Err(_) => None,
        }
    }

    /// Why a kitty that was paid for cannot go to `buyer`, if it cannot: the
    /// buyer owns it already, or the buyer's list is full.
    pub open spec fn delivery_error(self, buyer: AccountId, id: Dna) -> Option<Error> {
        self.transfer_error(self.kitties[id].owner, buyer, id)
    }

    /// The payment that undoes `payment`: the same amount, back from the
    /// receiver to the payer. It does not ask that the account it leaves
    /// stays above the ledger's minimum.
    pub open spec fn reversed(payment: Payment) -> Payment {
        Payment { from: payment.to, to: payment.from, amount: payment.amount, keep_alive: false }
    }

    /// The payment that the ledger is to make at the end of a purchase, if
    /// any: where the payment was made and the kitty cannot go to the buyer,
    /// the payment is handed back.
    pub open spec fn refund(
        self,
        buyer: AccountId,
        id: Dna,
        bid_price: Balance,
        paid: bool,
    ) -> Option<Payment> {
        match self.payment_made(buyer, id, bid_price, paid) {
            Some(payment) => if self.delivery_error(buyer, id) is Some {
                Some(Self::reversed(payment))
            } else {
                None
            },
            None => None,
        }
    }

    /// `buyer` buys the kitty `id` on a bid of `bid_price`. `paid` says
    /// whether the currency ledger made the payment that [`Self::quote`]
    /// names; it is asked only where there is one. A payment that the ledger
    /// refused ends the purchase with `InsufficientBalance`. Only after a
    /// payment that was made is it seen whether the kitty can go to the
    /// buyer; where it cannot, the purchase is rejected and [`Self::refund`]
    /// names the payment that hands the money back.
    pub open spec fn buy(self, buyer: AccountId, id: Dna, bid_price: Balance, paid: bool) -> Outcome {
        match self.quote(buyer, id, bid_price) {
            Err(error) => self.rejected(error),
            Ok(payment) => if !paid {
                self.rejected(Error::InsufficientBalance)
            } else {
                match self.delivery_error(buyer, id) {
                    Some(error) => self.rejected(error),
                    None => Outcome {
                        state: self.moved(id, buyer),
                        result: Ok(
                            Event::Sold {
                                seller: payment.to,
                                buyer,
                                kitty: id,
                                price: payment.amount,
                            },
                        ),
                    },
                }
            },
        }
    }

    /// What `call` does to the registry.
    pub open spec fn apply(self, call: Call) -> Outcome {
        match call {
            Call::Mint { who, dna } => self.mint(who, dna),
            Call::SetPrice { who, id, new_price } => self.set_price(who, id, new_price),
            Call::Transfer { from, to, id } => self.transfer(from, to, id),
            Call::Buy { buyer, id, bid_price, paid } => self.buy(buyer, id, bid_price, paid),
        }
    }

    /// The registry after `calls`, made one after the other.
    pub open spec fn run(self, calls: Seq<Call>) -> Registry
        decreases calls.len(),
    {
        if calls.len() == 0 {
            self
        } else {
            self.run(calls.drop_last()).apply(calls.last()).state
        }
    }

    /// How many of `calls`, made one after the other, are mints that went
    /// through.
    pub open spec fn mints_in(self, calls: Seq<Call>) -> nat
        decreases calls.len(),
    {
        if calls.len() == 0 {
            0
        } else {
            let before = self.run(calls.drop_last());
            let last: nat = if calls.last() is Mint && before.apply(calls.last()).result is Ok {
                1
            } else {
                0
            };
            self.mints_in(calls.drop_last()) + last
        }
    }
}

} // verus!
