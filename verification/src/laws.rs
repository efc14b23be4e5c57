//! What holds of the registry in every state and after every call.

use vstd::prelude::*;

use crate::bounded::MAX_KITTIES_OWNED;
use crate::model::{first_index, is_first_index, swap_removed, Call, Registry};
use crate::types::{AccountId, Balance, Dna, Error, Event};

verus! {

/// Where `id` stands in a list, [`first_index`] is the first place at which it
/// stands; in a list without repetitions that is its only place.
pub proof fn lemma_first_index(list: Seq<Dna>, id: Dna)
    requires
        list.contains(id),
    ensures
        is_first_index(list, id, first_index(list, id)),
        list.no_duplicates() ==> forall|i: int|
            0 <= i < list.len() && list[i] == id ==> i == first_index(list, id),
{
    let some = choose|i: int| 0 <= i < list.len() && list[i] == id;
    lemma_has_first(list, id, some);
}

proof fn lemma_has_first(list: Seq<Dna>, id: Dna, at: int)
    requires
        0 <= at < list.len(),
        list[at] == id,
    ensures
        exists|i: int| is_first_index(list, id, i),
    decreases at,
{
    if exists|j: int| 0 <= j < at && list[j] == id {
        let j = choose|j: int| 0 <= j < at && list[j] == id;
        lemma_has_first(list, id, j);
    } else {
        assert(is_first_index(list, id, at));
    }
}

/// Taking `id` out of a list without repetitions leaves a list without
/// repetitions that is shorter by one and holds the other identifiers, all of
/// them and no more.
pub proof fn lemma_swap_removed(list: Seq<Dna>, id: Dna)
    requires
        list.no_duplicates(),
        list.contains(id),
    ensures
        swap_removed(list, id).len() == list.len() - 1,
        swap_removed(list, id).no_duplicates(),
        forall|other: Dna|
            swap_removed(list, id).contains(other) <==> list.contains(other) && other != id,
{
    lemma_first_index(list, id);
    let at = first_index(list, id);
    let rest = swap_removed(list, id);
    let last = list.len() - 1;
    assert forall|other: Dna| rest.contains(other) <==> list.contains(other) && other
        != id by {
        if rest.contains(other) {
            let i = choose|i: int| 0 <= i < rest.len() && rest[i] == other;
            if i == at {
            } else {
            }
        }
        if list.contains(other) && other != id {
            let i = choose|i: int| 0 <= i < list.len() && list[i] == other;
            if i == last {
                assert(rest[at] == other);
            } else {
                assert(rest[i] == other);
            }
        }
    }
}

/// An identifier that no kitty has stands in no list.
proof fn lemma_unminted_unlisted(s: Registry, who: AccountId, dna: Dna)
    requires
        s.wf(),
        !s.kitties.contains_key(dna),
    ensures
        !s.kitties_owned[who].contains(dna),
{
    assert(s.list_ok(who));
}

/// A kitty stands in the list of its owner and in the list of no other
/// account.
pub proof fn law_listed_by_owner_only(s: Registry, who: AccountId, id: Dna)
    requires
        s.wf(),
        s.kitties.contains_key(id),
    ensures
        s.kitties_owned[who].contains(id) <==> s.kitties[id].owner == who,
{
    assert(s.list_ok(who));
    assert(s.kitty_ok(id));
}

/// What stands in a list still stands in it when the list grows at the end.
proof fn lemma_push_keeps(list: Seq<Dna>, id: Dna, new: Dna)
    requires
        list.contains(id),
    ensures
        list.push(new).contains(id),
        list.push(new).contains(new),
{
    let i = choose|i: int| 0 <= i < list.len() && list[i] == id;
    assert(list.push(new)[i] == id);
    assert(list.push(new)[list.len() as int] == new);
}

/// Minting leaves a registry in order: whether the call goes through or not,
/// every kitty still has one owner and one place in a list, no list is over
/// capacity, and the count is the number of kitties.
pub proof fn law_mint_keeps_order(s: Registry, who: AccountId, dna: Dna)
    requires
        s.wf(),
    ensures
        s.mint(who, dna).state.wf(),
{
    if s.mint(who, dna).result is Ok {
        let t = s.mint(who, dna).state;
        let list = s.kitties_owned[who];
        lemma_unminted_unlisted(s, who, dna);
        assert(t.kitties.dom() =~= s.kitties.dom().insert(dna));
        assert forall|id: Dna| #[trigger] t.kitties.contains_key(id) implies t.kitty_ok(id) by {
            if id == dna {
                assert(list.push(dna)[list.len() as int] == dna);
            } else {
                assert(s.kitty_ok(id));
                if s.kitties[id].owner == who {
                    lemma_push_keeps(list, id, dna);
                }
            }
        }
        assert forall|a: AccountId| #[trigger] t.list_ok(a) by {
            assert(s.list_ok(a));
        }
    }
}

/// Setting a price leaves a registry in order.
pub proof fn law_set_price_keeps_order(
    s: Registry,
    who: AccountId,
    id: Dna,
    new_price: Option<Balance>,
)
    requires
        s.wf(),
    ensures
        s.set_price(who, id, new_price).state.wf(),
{
    if s.set_price(who, id, new_price).result is Ok {
        let t = s.set_price(who, id, new_price).state;
        assert(t.kitties.dom() =~= s.kitties.dom());
        assert forall|other: Dna| #[trigger] t.kitties.contains_key(other) implies t.kitty_ok(
            other,
        ) by {
            assert(s.kitty_ok(other));
        }
        assert forall|a: AccountId| #[trigger] t.list_ok(a) by {
            assert(s.list_ok(a));
        }
    }
}

/// Moving a kitty to an account that is not its owner and has room leaves a
/// registry in order.
pub proof fn lemma_moved_keeps_order(s: Registry, id: Dna, to: AccountId)
    requires
        s.wf(),
        s.kitties.contains_key(id),
        s.kitties[id].owner != to,
        s.kitties_owned[to].len() < MAX_KITTIES_OWNED,
    ensures
        s.moved(id, to).wf(),
{
    let t = s.moved(id, to);
    let from = s.kitties[id].owner;
    let from_list = s.kitties_owned[from];
    let to_list = s.kitties_owned[to];
    law_listed_by_owner_only(s, from, id);
    law_listed_by_owner_only(s, to, id);
    assert(s.list_ok(from));
    lemma_swap_removed(from_list, id);
    assert(t.kitties.dom() =~= s.kitties.dom());
    assert forall|other: Dna| #[trigger] t.kitties.contains_key(other) implies t.kitty_ok(
        other,
    ) by {
        if other == id {
            assert(to_list.push(id)[to_list.len() as int] == id);
        } else {
            assert(s.kitty_ok(other));
            if s.kitties[other].owner == to {
                lemma_push_keeps(to_list, other, id);
            }
        }
    }
    assert forall|a: AccountId| #[trigger] t.list_ok(a) by {
        assert(s.list_ok(a));
        law_listed_by_owner_only(s, a, id);
        if a == from {
            let shorter = swap_removed(from_list, id);
            assert forall|i: int| 0 <= i < shorter.len() implies t.kitties.contains_key(
                #[trigger] shorter[i],
            ) && t.kitties[shorter[i]].owner == from by {
                assert(from_list.contains(shorter[i]) && shorter[i] != id);
            }
        }
    }
}

/// A transfer leaves a registry in order.
pub proof fn law_transfer_keeps_order(s: Registry, from: AccountId, to: AccountId, id: Dna)
    requires
        s.wf(),
    ensures
        s.transfer(from, to, id).state.wf(),
{
    if s.transfer_error(from, to, id) is None {
        lemma_moved_keeps_order(s, id, to);
    }
}

/// A purchase leaves a registry in order, whether it was paid or not.
pub proof fn law_buy_keeps_order(
    s: Registry,
    buyer: AccountId,
    id: Dna,
    bid_price: Balance,
    paid: bool,
)
    requires
        s.wf(),
    ensures
        s.buy(buyer, id, bid_price, paid).state.wf(),
{
    if s.buy(buyer, id, bid_price, paid).result is Ok {
        lemma_moved_keeps_order(s, id, buyer);
    }
}

/// Every call leaves a registry in order.
pub proof fn law_call_keeps_order(s: Registry, call: Call)
    requires
        s.wf(),
    ensures
        s.apply(call).state.wf(),
{
    match call {
        Call::Mint { who, dna } => law_mint_keeps_order(s, who, dna),
        Call::SetPrice { who, id, new_price } => law_set_price_keeps_order(s, who, id, new_price),
        Call::Transfer { from, to, id } => law_transfer_keeps_order(s, from, to, id),
        Call::Buy { buyer, id, bid_price, paid } => law_buy_keeps_order(
            s,
            buyer,
            id,
            bid_price,
            paid,
        ),
    }
}

/// The empty registry is in order.
pub proof fn law_empty_in_order()
    ensures
        Registry::empty().wf(),
{
    let s = Registry::empty();
    assert(s.kitties.dom() =~= Set::<Dna>::empty());
    assert forall|who: AccountId| #[trigger] s.list_ok(who) by {
        assert(s.kitties_owned[who] =~= Seq::<Dna>::empty());
    }
}

/// Whatever calls are made, in whatever order and with whatever outcome, the
/// registry stays in order, and its count is what it was plus the number of
/// mints that went through: a mint that was rejected leaves no gap.
pub proof fn law_run_keeps_order(s: Registry, calls: Seq<Call>)
    requires
        s.wf(),
    ensures
        s.run(calls).wf(),
        s.run(calls).count == s.count + s.mints_in(calls),
    decreases calls.len(),
{
    if calls.len() > 0 {
        law_run_keeps_order(s, calls.drop_last());
        law_call_keeps_order(s.run(calls.drop_last()), calls.last());
    }
}

/// Whatever calls were made on a registry that started empty, no two of its
/// kitties share an identifier.
pub proof fn law_identifiers_unique(calls: Seq<Call>, a: Dna, b: Dna)
    requires
        Registry::empty().run(calls).kitties.contains_key(a),
        Registry::empty().run(calls).kitties.contains_key(b),
        a != b,
    ensures
        Registry::empty().run(calls).kitties[a].dna != Registry::empty().run(calls).kitties[b].dna,
{
    law_empty_in_order();
    law_run_keeps_order(Registry::empty(), calls);
    let s = Registry::empty().run(calls);
    assert(s.kitty_ok(a));
    assert(s.kitty_ok(b));
}

/// A mint under an identifier that is taken is rejected and changes nothing:
/// no kitty is ever overwritten.
pub proof fn law_taken_identifier_rejected(s: Registry, who: AccountId, dna: Dna)
    requires
        s.kitties.contains_key(dna),
    ensures
        s.mint(who, dna).result == Err::<Event, Error>(Error::DuplicateKitty),
        s.mint(who, dna).state == s,
{
}

/// Whatever calls were made on a registry that started empty, its count and
/// the number of its kitties are the number of mints that went through.
pub proof fn law_count_is_mints(calls: Seq<Call>)
    ensures
        Registry::empty().run(calls).count == Registry::empty().mints_in(calls),
        Registry::empty().run(calls).kitties.dom().len() == Registry::empty().mints_in(calls),
{
    law_empty_in_order();
    law_run_keeps_order(Registry::empty(), calls);
}

/// A mint that goes through adds one to the count, and no other call changes
/// it: the count never goes down.
pub proof fn law_count_steps(s: Registry, call: Call)
    ensures
        s.apply(call).state.count == if call is Mint && s.apply(call).result is Ok {
            s.count + 1
        } else {
            s.count
        },
{
}

/// No list is ever longer than `MAX_KITTIES_OWNED`. A mint for an account
/// whose list is full, a transfer to it and a purchase by it are rejected and
/// change nothing; what was paid for such a purchase is handed back.
pub proof fn law_capacity(
    s: Registry,
    who: AccountId,
    from: AccountId,
    id: Dna,
    bid_price: Balance,
    paid: bool,
)
    requires
        s.wf(),
    ensures
        s.kitties_owned[who].len() <= MAX_KITTIES_OWNED,
        s.kitties_owned[who].len() == MAX_KITTIES_OWNED ==> {
            &&& s.mint(who, id).result is Err
            &&& s.mint(who, id).state == s
            &&& s.transfer(from, who, id).result is Err
            &&& s.transfer(from, who, id).state == s
            &&& s.buy(who, id, bid_price, paid).result is Err
            &&& s.buy(who, id, bid_price, paid).state == s
            &&& s.payment_made(who, id, bid_price, paid) matches Some(payment) ==> s.refund(
                who,
                id,
                bid_price,
                paid,
            ) == Some(Registry::reversed(payment))
        },
{
    assert(s.list_ok(who));
}

/// A call that is rejected changes nothing: the state after it is the state
/// before it, in every part.
pub proof fn law_rejected_call_changes_nothing(s: Registry, call: Call)
    ensures
        s.apply(call).result is Err ==> s.apply(call).state == s,
{
}

/// A transfer that is rejected, at whatever check, leaves the kitty's owner
/// and price and the lists of both accounts as they were.
pub proof fn law_rejected_transfer_changes_nothing(
    s: Registry,
    from: AccountId,
    to: AccountId,
    id: Dna,
)
    ensures
        s.transfer(from, to, id).result is Err ==> {
            &&& s.transfer(from, to, id).state == s
            &&& s.transfer(from, to, id).state.kitties[id] == s.kitties[id]
            &&& s.transfer(from, to, id).state.kitties_owned[from] == s.kitties_owned[from]
            &&& s.transfer(from, to, id).state.kitties_owned[to] == s.kitties_owned[to]
        },
{
}

/// After a transfer or a purchase that went through the kitty has no price,
/// whatever its price was.
pub proof fn law_price_reset(
    s: Registry,
    from: AccountId,
    to: AccountId,
    id: Dna,
    bid_price: Balance,
    paid: bool,
)
    ensures
        s.transfer(from, to, id).result is Ok ==> s.transfer(from, to, id).state.kitties[id].price
            is None,
        s.buy(to, id, bid_price, paid).result is Ok ==> s.buy(
            to,
            id,
            bid_price,
            paid,
        ).state.kitties[id].price is None,
{
}

/// A transfer or a purchase that went through puts the kitty in the hands
/// of the receiver: it is the kitty's owner, the kitty stands in its list
/// and no longer in the list of the former owner.
pub proof fn lemma_moved_changes_hands(s: Registry, id: Dna, to: AccountId)
    requires
        s.wf(),
        s.kitties.contains_key(id),
        s.kitties[id].owner != to,
    ensures
        s.moved(id, to).kitties[id].owner == to,
        s.moved(id, to).kitties_owned[to].contains(id),
        !s.moved(id, to).kitties_owned[s.kitties[id].owner].contains(id),
{
    let from = s.kitties[id].owner;
    let to_list = s.kitties_owned[to];
    assert(s.kitty_ok(id));
    assert(s.list_ok(from));
    lemma_swap_removed(s.kitties_owned[from], id);
    assert(to_list.push(id)[to_list.len() as int] == id);
}

/// In a sale payment and kitty go together. A purchase goes through if and
/// only if the ledger made the payment and no payment back is ordered. Where
/// it goes through, the payment went from the buyer to the seller, in the
/// amount of the asking price, and the kitty went from the seller to the
/// buyer. Where it does not, the registry stays as it was, and a payment that
/// was made is handed back in full to the account that made it: in the end
/// either both have moved or neither has.
pub proof fn law_sale_couples_payment_and_kitty(
    s: Registry,
    buyer: AccountId,
    id: Dna,
    bid_price: Balance,
    paid: bool,
)
    requires
        s.wf(),
    ensures
        s.buy(buyer, id, bid_price, paid).result is Ok <==> s.payment_made(
            buyer,
            id,
            bid_price,
            paid,
        ) is Some && s.refund(buyer, id, bid_price, paid) is None,
        s.buy(buyer, id, bid_price, paid).result is Ok ==> {
            &&& s.payment_made(buyer, id, bid_price, paid) matches Some(payment)
            &&& payment.from == buyer
            &&& payment.to == s.kitties[id].owner
            &&& s.kitties[id].price == Some(payment.amount)
            &&& payment.to != buyer
            &&& s.buy(buyer, id, bid_price, paid).state.kitties[id].owner == buyer
            &&& s.buy(buyer, id, bid_price, paid).state.kitties_owned[buyer].contains(id)
            &&& !s.buy(buyer, id, bid_price, paid).state.kitties_owned[payment.to].contains(id)
        },
        s.buy(buyer, id, bid_price, paid).result is Err ==> {
            &&& s.buy(buyer, id, bid_price, paid).state == s
            &&& s.payment_made(buyer, id, bid_price, paid) matches Some(payment) ==> s.refund(
                buyer,
                id,
                bid_price,
                paid,
            ) == Some(Registry::reversed(payment))
        },
        s.refund(buyer, id, bid_price, paid) is Some ==> s.payment_made(
            buyer,
            id,
            bid_price,
            paid,
        ) is Some,
{
    if s.buy(buyer, id, bid_price, paid).result is Ok {
        lemma_moved_changes_hands(s, id, buyer);
    }
}

/// A payment that the ledger refused ends a purchase with
/// `InsufficientBalance`, whoever the buyer is and whatever the buyer's list
/// holds, and changes nothing.
pub proof fn law_refused_payment_ends_purchase(
    s: Registry,
    buyer: AccountId,
    id: Dna,
    bid_price: Balance,
)
    requires
        s.quote(buyer, id, bid_price) is Ok,
    ensures
        s.buy(buyer, id, bid_price, false).result == Err::<Event, Error>(
            Error::InsufficientBalance,
        ),
        s.buy(buyer, id, bid_price, false).state == s,
        s.refund(buyer, id, bid_price, false) is None,
{
}

/// A transfer of a kitty by its owner to itself is rejected with
/// `TransferToSelf` and changes nothing.
pub proof fn law_self_transfer_rejected(s: Registry, caller: AccountId, id: Dna)
    requires
        s.kitties.contains_key(id),
        s.kitties[id].owner == caller,
    ensures
        s.transfer(caller, caller, id).result == Err::<Event, Error>(
            Error::TransferToSelf,
        ),
        s.transfer(caller, caller, id).state == s,
{
}

/// No transfer to the caller itself goes through or changes anything,
/// whoever the caller is and whether or not the kitty exists.
pub proof fn law_self_transfer_changes_nothing(s: Registry, caller: AccountId, id: Dna)
    ensures
        s.transfer(caller, caller, id).result is Err,
        s.transfer(caller, caller, id).state == s,
{
}

} // verus!
