//! The two stateful services as message handlers: each takes one call at a
//! time against the state it owns and produces the answer.

use vstd::prelude::*;
use crate::catalog::{Catalog, choices_for, first_with_id, suggestion_order};
use crate::fleet::{Fleets, add_outcome, remove_outcome, rename_outcome};
use crate::orchestrator::{ServiceAnswer, ServiceCall};

verus! {

/// The service that owns what a call is about.
#[derive(Debug, Clone, Copy, PartialEq, Eq, Structural)]
pub enum Destination {
    /// The data service, owner of the catalog.
    Data,
    /// The collection service, owner of the fleets.
    Collection,
}

/// The destination of each kind of call.
pub open spec fn destination_of(call: ServiceCall) -> Destination {
    match call {
        ServiceCall::LookupModel(_) | ServiceCall::Suggest(_) => Destination::Data,
        _ => Destination::Collection,
    }
}

/// Which service a call goes to.
pub fn route(call: &ServiceCall) -> (r: Destination)
    ensures
        r == destination_of(*call),
{
    match call {
        ServiceCall::LookupModel(_) | ServiceCall::Suggest(_) => Destination::Data,
        _ => Destination::Collection,
    }
}

/// The data service's answer to one call; calls for the collection service
/// are answered `Unavailable`.
pub fn answer_data(catalog: &Catalog, call: &ServiceCall) -> (r: ServiceAnswer)
    ensures
        match *call {
            ServiceCall::LookupModel(id) => r == ServiceAnswer::Model(
                first_with_id(catalog.ship_models(), id@),
            ),
            ServiceCall::Suggest(q) => r matches ServiceAnswer::Suggestions(v) && choices_for(
                v@,
                catalog.ship_models(),
                suggestion_order(catalog.ship_models(), q@),
            ),
            _ => r is Unavailable,
        },
{
    match call {
        ServiceCall::LookupModel(id) => ServiceAnswer::Model(catalog.get_ship_by_identifier(id)),
        ServiceCall::Suggest(q) => ServiceAnswer::Suggestions(catalog.suggest(q)),
        _ => ServiceAnswer::Unavailable,
    }
}

/// The collection service's answer to one call, applied to the fleets it
/// owns; calls for the data service are answered `Unavailable` and change
/// nothing.
pub fn answer_collection(fleets: &mut Fleets, call: ServiceCall) -> (r: ServiceAnswer)
    requires
        old(fleets).wf(),
    ensures
        final(fleets).wf(),
        match call {
            ServiceCall::AddEntry(u, m, n) => {
                let (s, res) = add_outcome(old(fleets).state(), u, Some(m), n);
                final(fleets).state() == s && r == ServiceAnswer::Added(res)
            },
            ServiceCall::ListEntries(u) => final(fleets).state() == old(fleets).state() && (r matches ServiceAnswer::Entries(v)
                && v@ == crate::fleet::owned_by(old(fleets).state().entries, u)),
            ServiceCall::RemoveEntry(u, id) => {
                let (s, res) = remove_outcome(old(fleets).state(), u, id);
                final(fleets).state() == s && r == ServiceAnswer::Removed(res)
            },
            ServiceCall::RenameEntry(u, id, name) => {
                let (s, res) = rename_outcome(old(fleets).state(), u, id, name);
                final(fleets).state() == s && r == ServiceAnswer::Renamed(res)
            },
            _ => final(fleets).state() == old(fleets).state() && r is Unavailable,
        },
{
    match call {
        ServiceCall::AddEntry(u, m, n) => {
            let model = Some(m);
            ServiceAnswer::Added(fleets.add_entry(u, &model, n))
        },
        ServiceCall::ListEntries(u) => ServiceAnswer::Entries(fleets.list_entries(u)),
        ServiceCall::RemoveEntry(u, id) => ServiceAnswer::Removed(fleets.remove_entry(u, id)),
        ServiceCall::RenameEntry(u, id, name) => ServiceAnswer::Renamed(fleets.rename_entry(u, id, name)),
        _ => ServiceAnswer::Unavailable,
    }
}

} // verus!
