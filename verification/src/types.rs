//! The plain values the registry works on.

use vstd::prelude::*;

verus! {

/// Identity of an account, as the host hands it over after authentication.
pub type AccountId = u64;

/// An amount of the host's currency.
pub type Balance = u128;

/// Position of the ledger at the time of a call.
pub type BlockNumber = u64;

/// A 256-bit identifier. Every kitty is known by one.
pub type Dna = [u8; 32];

/// The two categories a kitty can fall into.
#[derive(Clone, Copy, Debug, PartialEq, Eq, Structural)]
pub enum Gender {
    Male,
    Female,
}

/// A minted kitty.
#[derive(Clone, Copy, Debug, PartialEq, Eq)]
pub struct Kitty {
    /// The identifier, fixed at mint time.
    pub dna: Dna,
    /// The asking price; `None` while the kitty is not for sale.
    pub price: Option<Balance>,
    /// The category, a function of `dna`.
    pub gender: Gender,
    /// The account that holds the kitty.
    pub owner: AccountId,
}

/// What the registry reports after a call that went through.
#[derive(Clone, Copy, Debug, PartialEq, Eq)]
#[allow(inconsistent_fields)]
pub enum Event {
    /// A new kitty was minted.
    Created { kitty: Dna, owner: AccountId },
    /// A kitty went from one account to another without payment.
    Transferred { from: AccountId, to: AccountId, kitty: Dna },
    /// The owner set or withdrew the asking price.
    PriceSet { kitty: Dna, price: Option<Balance> },
    /// A kitty was sold at its asking price.
    Sold { seller: AccountId, buyer: AccountId, kitty: Dna, price: Balance },
}

/// Why a call was rejected. A rejected call leaves the registry as it was.
#[derive(Clone, Copy, Debug, PartialEq, Eq, Structural)]
pub enum Error {
    /// The account already holds as many kitties as one account may.
    TooManyOwned,
    /// A kitty with this identifier exists already.
    DuplicateKitty,
    /// The count of kitties cannot grow any further.
    Overflow,
    /// No kitty has this identifier.
    NoKitty,
    /// The caller does not own the kitty.
    NotOwner,
    /// Sender and receiver of a kitty are the same account.
    TransferToSelf,
    /// The bid is below the asking price.
    BidPriceTooLow,
    /// The kitty has no asking price.
    NotForSale,
    /// The currency ledger refused the payment.
    InsufficientBalance,
}

/// What the currency ledger is asked to do for a sale: to take the price from
/// the buyer to the seller, or to hand it back.
#[derive(Clone, Copy, Debug, PartialEq, Eq)]
pub struct Payment {
    /// The account that pays.
    pub from: AccountId,
    /// The account that is paid.
    pub to: AccountId,
    /// The amount, which is the asking price.
    pub amount: Balance,
    /// Whether the payer's account must stay above the ledger's minimum.
    pub keep_alive: bool,
}

/// How a purchase ended.
#[derive(Clone, Copy, Debug, PartialEq, Eq)]
pub struct Settlement {
    /// The sale, or why there was none.
    pub result: Result<Event, Error>,
    /// The payment that the ledger still has to make: where the buyer paid
    /// and the kitty could not be handed over, the money goes back.
    pub refund: Option<Payment>,
}

/// The category an identifier stands for: the parity of its leading byte,
/// even for male and odd for female.
pub open spec fn gender_of(dna: Dna) -> Gender {
    if dna[0] % 2 == 0 {
        Gender::Male
    } else {
        Gender::Female
    }
}

/// A kitty as it is at the moment of minting: unpriced, in the hands of the
/// minter, with the category its identifier gives it.
pub open spec fn fresh_kitty(dna: Dna, owner: AccountId) -> Kitty {
    Kitty { dna, price: None, gender: gender_of(dna), owner }
}

impl Kitty {
    /// Derives the category of a kitty from its identifier.
    pub fn generate_gender(random_hash: Dna) -> (gender: Gender)
        ensures
            gender == gender_of(random_hash),
    {
        if random_hash[0] % 2 == 0 {
            Gender::Male
        } else {
            Gender::Female
        }
    }

    /// A new kitty for `owner`, not for sale.
    pub fn new(dna: Dna, owner: AccountId) -> (kitty: Kitty)
        ensures
            kitty == fresh_kitty(dna, owner),
    {
        Kitty { dna, gender: Kitty::generate_gender(dna), owner, price: None }
    }
}

/// Tells whether two identifiers are the same.
pub fn dna_eq(a: &Dna, b: &Dna) -> (same: bool)
    ensures
        same == (*a == *b),
{
    let mut i: usize = 0;
    while i < 32
        invariant
            i <= 32,
            forall|j: int| 0 <= j < i ==> a[j] == b[j],
        decreases 32 - i,
    {
        if a[i] != b[i] {
            return false;
        }
        i += 1;
    }
    assert(*a =~= *b);
    true
}

} // verus!
