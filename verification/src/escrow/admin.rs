//! M-of-N approval: how many of the signers of a call are admins.

use vstd::prelude::*;

use crate::address::{contains_address, Address};

verus! {

/// The number of distinct admins among the signers.
pub open spec fn distinct_admins(admins: Seq<Address>, signers: Seq<Address>) -> nat {
    signers.to_set().intersect(admins.to_set()).len()
}

/// `list` holds exactly the admins among `signers`.
spec fn are_admins_among(
    list: Seq<Address>,
    admins: Seq<Address>,
    signers: Seq<Address>,
) -> bool {
    forall|a: Address| #[trigger]
        list.contains(a) <==> admins.contains(a) && signers.contains(a)
}

/// Counts the distinct addresses in `signers` that belong to `admin_set`. An address that signs
/// twice counts once.
pub fn count_distinct_admins(admin_set: &Vec<Address>, signers: &Vec<Address>) -> (r: usize)
    ensures
        r == distinct_admins(admin_set@, signers@),
{
    let mut counted: Vec<Address> = Vec::new();
    let mut i: usize = 0;
    while i < signers.len()
        invariant
            i <= signers.len(),
            counted@.no_duplicates(),
            are_admins_among(counted@, admin_set@, signers@.take(i as int)),
        decreases signers.len() - i,
    {
        let signer = signers[i];
        let ghost before = counted@;
        let ghost seen = signers@.take(i as int);
        let ghost now = signers@.take(i + 1);
        assert(now =~= seen.push(signer));
        assert forall|a: Address| #[trigger] now.contains(a) <==> seen.contains(a) || a == signer by {
            vstd::seq_lib::lemma_seq_contains_after_push(seen, signer, a);
        }
        if contains_address(admin_set, signer) && !contains_address(&counted, signer) {
            counted.push(signer);
            proof {
                assert forall|a: Address| #[trigger] counted@.contains(a) <==> before.contains(a)
                    || a == signer by {
                    vstd::seq_lib::lemma_seq_contains_after_push(before, signer, a);
                }
            }
        }
        i = i + 1;
        assert(are_admins_among(counted@, admin_set@, now));
    }
    proof {
        assert(signers@.take(i as int) =~= signers@);
        assert(counted@.to_set() =~= signers@.to_set().intersect(admin_set@.to_set()));
        counted@.unique_seq_to_set();
    }
    counted.len()
}

/// To be another address than the given one.
pub open spec fn other_than(address: Address) -> spec_fn(Address) -> bool {
    |a: Address| a != address
}

/// The list without any occurrence of an address.
pub open spec fn without(list: Seq<Address>, address: Address) -> Seq<Address> {
    list.filter(other_than(address))
}

/// The addresses of a list other than `address`, in their order.
pub fn remove_address(list: &Vec<Address>, address: Address) -> (r: Vec<Address>)
    ensures
        r@ == without(list@, address),
{
    let mut out: Vec<Address> = Vec::new();
    let mut i: usize = 0;
    let ghost keep = other_than(address);
    proof {
        reveal(Seq::filter);
        assert(list@.take(0) =~= Seq::empty());
    }
    while i < list.len()
        invariant
            i <= list.len(),
            keep == other_than(address),
            out@ == list@.take(i as int).filter(keep),
        decreases list.len() - i,
    {
        proof {
            assert(list@.take(i + 1).drop_last() =~= list@.take(i as int));
            reveal(Seq::filter);
        }
        if list[i] != address {
            out.push(list[i]);
        }
        i = i + 1;
    }
    assert(list@.take(i as int) =~= list@);
    out
}

/// Signing twice does not count twice: what counts is who signed, not how often or in what order.
pub proof fn law_count_depends_on_the_set_of_signers(
    admins: Seq<Address>,
    signers: Seq<Address>,
    others: Seq<Address>,
)
    requires
        signers.to_set() == others.to_set(),
    ensures
        distinct_admins(admins, signers) == distinct_admins(admins, others),
{
}

/// A signer who already signed adds nothing.
pub proof fn law_repeated_signer_adds_nothing(
    admins: Seq<Address>,
    signers: Seq<Address>,
    again: Address,
)
    requires
        signers.contains(again),
    ensures
        distinct_admins(admins, signers.push(again)) == distinct_admins(admins, signers),
{
    assert forall|a: Address| signers.push(again).contains(a) <==> #[trigger] signers.contains(
        a,
    ) by {
        vstd::seq_lib::lemma_seq_contains_after_push(signers, again, a);
    }
    assert(signers.push(again).to_set() =~= signers.to_set());
}

/// A signer who is no admin adds nothing.
pub proof fn law_outsider_adds_nothing(
    admins: Seq<Address>,
    signers: Seq<Address>,
    outsider: Address,
)
    requires
        !admins.contains(outsider),
    ensures
        distinct_admins(admins, signers.push(outsider)) == distinct_admins(admins, signers),
{
    assert forall|a: Address| signers.push(outsider).contains(a) <==> (#[trigger] signers.contains(
        a,
    ) || a == outsider) by {
        vstd::seq_lib::lemma_seq_contains_after_push(signers, outsider, a);
    }
    assert(signers.push(outsider).to_set().intersect(admins.to_set())
        =~= signers.to_set().intersect(admins.to_set()));
}

/// The count never exceeds the number of signers nor the number of admins.
pub proof fn law_count_is_bounded(admins: Seq<Address>, signers: Seq<Address>)
    ensures
        distinct_admins(admins, signers) <= signers.len(),
        distinct_admins(admins, signers) <= admins.len(),
{
    signers.lemma_cardinality_of_set();
    admins.lemma_cardinality_of_set();
    let both = signers.to_set().intersect(admins.to_set());
    vstd::set_lib::lemma_len_subset(both, signers.to_set());
    vstd::set_lib::lemma_len_subset(both, admins.to_set());
}

/// When every admin signs, the count is the number of distinct admins.
pub proof fn law_all_admins_sign(admins: Seq<Address>, signers: Seq<Address>)
    requires
        forall|a: Address| admins.contains(a) ==> signers.contains(a),
    ensures
        distinct_admins(admins, signers) == admins.to_set().len(),
{
    assert(signers.to_set().intersect(admins.to_set()) =~= admins.to_set());
}

} // verus!
