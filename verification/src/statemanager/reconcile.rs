//! Which scenarios are to be brought back to work.

use crate::grouping::lemma_contains_push;
use crate::messages::PackageState;
use crate::statemanager::manager::package_changes_view;
use crate::string_map::StringMap;
use vstd::prelude::*;

verus! {

/// How the pods of a package are.
#[derive(Clone, Copy, Debug, PartialEq, Eq, Structural)]
pub enum PodStatus {
    Failed,
    Running,
}

/// A request to bring a scenario back to work.
#[derive(Clone, Debug, PartialEq, Eq)]
pub struct ReconcileRequest {
    /// The scenario that holds the package that failed.
    pub scenario_name: String,
    /// How the pods of the package are.
    pub current: PodStatus,
    /// How they are to be.
    pub desired: PodStatus,
}

/// The contents of a `ReconcileRequest`.
#[verifier::ext_equal]
pub struct ReconcileView {
    pub scenario_name: Seq<char>,
    pub current: PodStatus,
    pub desired: PodStatus,
}

impl View for ReconcileRequest {
    type V = ReconcileView;

    open spec fn view(&self) -> ReconcileView {
        ReconcileView {
            scenario_name: self.scenario_name@,
            current: self.current,
            desired: self.desired,
        }
    }
}

/// The contents of a list of requests.
pub open spec fn reconcile_views(requests: Seq<ReconcileRequest>) -> Seq<ReconcileView> {
    requests.map_values(|request: ReconcileRequest| request@)
}

/// The request to bring this scenario, a package of which has failed, back to work.
pub open spec fn reconcile_request(scenario_name: Seq<char>) -> ReconcileView {
    ReconcileView { scenario_name, current: PodStatus::Failed, desired: PodStatus::Running }
}

/// The packages that went into error, and that some scenario holds, in the order of the
/// changes.
pub open spec fn packages_in_error(
    changes: Seq<(Seq<char>, PackageState)>,
    scenarios: Map<Seq<char>, Seq<char>>,
) -> Seq<Seq<char>>
    decreases changes.len(),
{
    if changes.len() == 0 {
        Seq::empty()
    } else {
        let before = packages_in_error(changes.drop_last(), scenarios);
        let (name, state) = changes.last();
        if state == PackageState::Error && scenarios.contains_key(name) {
            before.push(name)
        } else {
            before
        }
    }
}

/// What is to be asked for when packages changed their states: for each package that went
/// into error, to bring the scenario that holds it back to work. Which scenario holds a
/// package is told by `scenarios`; a package that none holds is passed over.
pub open spec fn reconciled(
    changes: Seq<(Seq<char>, PackageState)>,
    scenarios: Map<Seq<char>, Seq<char>>,
) -> Seq<ReconcileView> {
    packages_in_error(changes, scenarios).map_values(
        |name: Seq<char>| reconcile_request(scenarios[name]),
    )
}

/// What is to be asked for when packages changed their states. Which scenario holds a package
/// is told by `scenarios`.
pub fn packages_to_reconcile(
    changes: &Vec<(String, PackageState)>,
    scenarios: &StringMap<String>,
) -> (requests: Vec<ReconcileRequest>)
    ensures
        reconcile_views(requests@) == reconciled(package_changes_view(changes@), scenarios@),
{
    let ghost all = package_changes_view(changes@);
    let mut requests: Vec<ReconcileRequest> = Vec::new();
    let mut i: usize = 0;
    assert(reconcile_views(requests@) =~= reconciled(all.take(0), scenarios@));
    while i < changes.len()
        invariant
            i <= changes@.len(),
            all == package_changes_view(changes@),
            reconcile_views(requests@) == reconciled(all.take(i as int), scenarios@),
        decreases changes@.len() - i,
    {
        let ghost before = requests@;
        let ghost done = reconciled(all.take(i as int), scenarios@);
        assert(all.take(i + 1).drop_last() =~= all.take(i as int));
        assert(all.take(i + 1).last() == (changes@[i as int].0@, changes@[i as int].1));
        if changes[i].1 == PackageState::Error {
            if let Some(scenario_name) = scenarios.get(changes[i].0.as_str()) {
                requests.push(
                    ReconcileRequest {
                        scenario_name: scenario_name.clone(),
                        current: PodStatus::Failed,
                        desired: PodStatus::Running,
                    },
                );
                let ghost request = reconcile_request(scenarios@[changes@[i as int].0@]);
                assert(reconcile_views(requests@) =~= reconcile_views(before).push(request));
                assert(reconciled(all.take(i + 1), scenarios@) =~= done.push(request));
            }
        }
        i += 1;
    }
    assert(all.take(changes@.len() as int) =~= all);
    requests
}

/// Exactly the packages that went into error, and that some scenario holds, lead to a request.
pub proof fn law_failed_packages_are_reconciled(
    changes: Seq<(Seq<char>, PackageState)>,
    scenarios: Map<Seq<char>, Seq<char>>,
    name: Seq<char>,
)
    ensures
        packages_in_error(changes, scenarios).contains(name) <==> {
            &&& changes.contains((name, PackageState::Error))
            &&& scenarios.contains_key(name)
        },
    decreases changes.len(),
{
    if changes.len() > 0 {
        let rest = changes.drop_last();
        law_failed_packages_are_reconciled(rest, scenarios, name);
        lemma_contains_push(rest, changes.last(), (name, PackageState::Error));
        lemma_contains_push(packages_in_error(rest, scenarios), changes.last().0, name);
        assert(changes =~= rest.push(changes.last()));
    }
}

/// Each request is for the scenario of one package that went into error, from failed to
/// running; and there are as many requests as such packages.
pub proof fn law_requests_name_scenarios(
    changes: Seq<(Seq<char>, PackageState)>,
    scenarios: Map<Seq<char>, Seq<char>>,
    i: int,
)
    requires
        0 <= i < packages_in_error(changes, scenarios).len(),
    ensures
        reconciled(changes, scenarios).len() == packages_in_error(changes, scenarios).len(),
        reconciled(changes, scenarios)[i].scenario_name == scenarios[packages_in_error(
            changes,
            scenarios,
        )[i]],
        reconciled(changes, scenarios)[i].current == PodStatus::Failed,
        reconciled(changes, scenarios)[i].desired == PodStatus::Running,
{
}

} // verus!
