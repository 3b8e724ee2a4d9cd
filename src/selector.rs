use crate::client::ClientId;
use rand::seq::IteratorRandom;
use vstd::prelude::*;

verus! {

/// Relies on rand::seq::IteratorRandom::choose_multiple over thread_rng:
/// reservoir sampling keeps `amount` of the items, each taken from a
/// distinct position of the input. It reserves room for `amount` items up
/// front, so `amount` stays within the number of items, whose room exists.
#[verifier::external_body]
fn choose_multiple_ids(items: Vec<ClientId>, amount: usize) -> (r: Vec<ClientId>)
    requires
        amount <= items@.len(),
    ensures
        r@.len() == amount,
        forall|i: int| 0 <= i < r@.len() ==> items@.contains(#[trigger] r@[i]),
        items@.no_duplicates() ==> r@.no_duplicates(),
{
    items.into_iter().choose_multiple(&mut rand::thread_rng(), amount)
}

/// A policy that picks the clients that move from `Waiting` to `Selected`
/// when a phase starts. `selected` is the current selection, for policies
/// that consult it (stratified, sticky). Every policy picks
/// `min(min_count, |waiting|)` clients, all of them waiting, none twice.
pub trait Selector {
    fn select(&mut self, min_count: usize, waiting: Vec<ClientId>, selected: Vec<ClientId>) -> (r:
        Vec<ClientId>)
        ensures
            r@.len() == if waiting@.len() < min_count {
                waiting@.len()
            } else {
                min_count as nat
            },
            forall|i: int| 0 <= i < r@.len() ==> waiting@.contains(#[trigger] r@[i]),
            waiting@.no_duplicates() ==> r@.no_duplicates(),
    ;
}

/// The default policy: `min_count` distinct clients of `waiting`, drawn
/// uniformly at random, or all of them where fewer wait. It does not consult
/// the current selection.
pub struct RandomSelector;

impl Selector for RandomSelector {
    fn select(&mut self, min_count: usize, waiting: Vec<ClientId>, selected: Vec<ClientId>) -> (r:
        Vec<ClientId>) {
        let amount: usize = if min_count < waiting.len() {
            min_count
        } else {
            waiting.len()
        };
        choose_multiple_ids(waiting, amount)
    }
}

} // verus!
