use creep_core::assignment::{assign, find_first, plan_search, Search, Sighting, Want};
use creep_core::creep_roles::Role;
use creep_core::task::{Task, WorldHandle};

fn h(id: u128) -> WorldHandle {
    WorldHandle { id }
}

#[test]
fn carrying_upgrader_takes_first_controller() {
    let found = vec![
        Sighting::Other,
        Sighting::Spawn(h(1), 300),
        Sighting::Controller(h(2)),
        Sighting::Controller(h(3)),
    ];
    assert_eq!(assign(Role::Upgrader, 1, &found), Some(Task::Upgrade(h(2))));
    assert_eq!(assign(Role::Upgrader, 50, &found), Some(Task::Upgrade(h(2))));
}

#[test]
fn carrying_upgrader_without_controller_stays_idle() {
    let found = vec![Sighting::Spawn(h(1), 300), Sighting::Source(h(4)), Sighting::Other];
    assert_eq!(assign(Role::Upgrader, 50, &found), None);
}

#[test]
fn empty_builder_harvests_though_sites_are_present() {
    let found = vec![
        Sighting::ConstructionSite(Some(h(10))),
        Sighting::Source(h(11)),
        Sighting::Source(h(12)),
    ];
    assert_eq!(plan_search(Role::Builder, 0), Some(Search::ActiveSources));
    assert_eq!(assign(Role::Builder, 0, &found), Some(Task::Harvest(h(11))));
}

#[test]
fn carrying_builder_takes_first_site_with_a_handle() {
    let found = vec![
        Sighting::ConstructionSite(None),
        Sighting::Source(h(11)),
        Sighting::ConstructionSite(Some(h(10))),
        Sighting::ConstructionSite(Some(h(13))),
    ];
    assert_eq!(assign(Role::Builder, 5, &found), Some(Task::Build(h(10))));
}

#[test]
fn carrying_builder_with_only_fresh_sites_stays_idle() {
    let found = vec![Sighting::ConstructionSite(None), Sighting::ConstructionSite(None)];
    assert_eq!(assign(Role::Builder, 5, &found), None);
}

#[test]
fn carrying_harvester_prefers_spawn_over_earlier_extension() {
    let found = vec![
        Sighting::Extension(h(20), 50),
        Sighting::Spawn(h(21), 100),
        Sighting::Spawn(h(22), 100),
    ];
    assert_eq!(assign(Role::Harvester, 50, &found), Some(Task::TransferToSpawn(h(21))));
}

#[test]
fn carrying_harvester_skips_full_structures() {
    let found = vec![
        Sighting::Spawn(h(21), 0),
        Sighting::Extension(h(20), 0),
        Sighting::Extension(h(23), -5),
        Sighting::Extension(h(24), 1),
    ];
    assert_eq!(assign(Role::Harvester, 50, &found), Some(Task::TransferToExtension(h(24))));
}

#[test]
fn carrying_harvester_with_everything_full_stays_idle() {
    let found = vec![Sighting::Spawn(h(21), 0), Sighting::Extension(h(20), 0), Sighting::Other];
    assert_eq!(assign(Role::Harvester, 50, &found), None);
}

#[test]
fn empty_agent_of_any_recognised_role_harvests_first_source() {
    let found = vec![Sighting::Controller(h(2)), Sighting::Source(h(5)), Sighting::Source(h(6))];
    assert_eq!(assign(Role::Harvester, 0, &found), Some(Task::Harvest(h(5))));
    assert_eq!(assign(Role::Upgrader, 0, &found), Some(Task::Harvest(h(5))));
    assert_eq!(assign(Role::Builder, 0, &found), Some(Task::Harvest(h(5))));
    assert_eq!(assign(Role::Repairer, 0, &found), Some(Task::Harvest(h(5))));
}

#[test]
fn empty_repairer_searches_for_sources() {
    assert_eq!(plan_search(Role::Repairer, 0), Some(Search::ActiveSources));
    let found = vec![Sighting::Source(h(1)), Sighting::Source(h(2))];
    assert_eq!(assign(Role::Repairer, 0, &found), Some(Task::Harvest(h(1))));
    assert_eq!(assign(Role::Repairer, 0, &Vec::new()), None);
}

#[test]
fn carrying_repairer_has_nothing_to_spend_on() {
    let found = vec![
        Sighting::Controller(h(2)),
        Sighting::Source(h(5)),
        Sighting::Spawn(h(6), 300),
        Sighting::Extension(h(7), 50),
        Sighting::ConstructionSite(Some(h(8))),
    ];
    assert_eq!(plan_search(Role::Repairer, 1), None);
    assert_eq!(plan_search(Role::Repairer, 50), None);
    assert_eq!(assign(Role::Repairer, 1, &found), None);
    assert_eq!(assign(Role::Repairer, 50, &found), None);
}

#[test]
fn empty_agent_without_source_stays_idle() {
    let found = vec![Sighting::Controller(h(2)), Sighting::ConstructionSite(Some(h(3)))];
    assert_eq!(assign(Role::Builder, 0, &found), None);
    assert_eq!(assign(Role::Harvester, 0, &Vec::new()), None);
}

#[test]
fn unknown_role_gets_no_task_and_no_search() {
    let found = vec![Sighting::Controller(h(2)), Sighting::Source(h(5))];
    assert_eq!(plan_search(Role::Unknown, 0), None);
    assert_eq!(plan_search(Role::Unknown, 10), None);
    assert_eq!(assign(Role::Unknown, 0, &found), None);
    assert_eq!(assign(Role::Unknown, 10, &found), None);
}

#[test]
fn search_depends_on_role_and_load() {
    assert_eq!(plan_search(Role::Harvester, 0), Some(Search::ActiveSources));
    assert_eq!(plan_search(Role::Upgrader, 0), Some(Search::ActiveSources));
    assert_eq!(plan_search(Role::Harvester, 1), Some(Search::Structures));
    assert_eq!(plan_search(Role::Upgrader, 1), Some(Search::Structures));
    assert_eq!(plan_search(Role::Builder, 1), Some(Search::ConstructionSites));
}

#[test]
fn what_each_sighting_offers() {
    assert_eq!(Want::Source.offer(&Sighting::Source(h(1))), Some(Task::Harvest(h(1))));
    assert_eq!(Want::Controller.offer(&Sighting::Controller(h(1))), Some(Task::Upgrade(h(1))));
    assert_eq!(Want::Site.offer(&Sighting::ConstructionSite(Some(h(1)))), Some(Task::Build(h(1))));
    assert_eq!(Want::Site.offer(&Sighting::ConstructionSite(None)), None);
    assert_eq!(Want::Spawn.offer(&Sighting::Spawn(h(1), 1)), Some(Task::TransferToSpawn(h(1))));
    assert_eq!(Want::Spawn.offer(&Sighting::Spawn(h(1), 0)), None);
    assert_eq!(
        Want::Extension.offer(&Sighting::Extension(h(1), 1)),
        Some(Task::TransferToExtension(h(1)))
    );
    assert_eq!(Want::Extension.offer(&Sighting::Extension(h(1), 0)), None);
    assert_eq!(Want::Spawn.offer(&Sighting::Extension(h(1), 9)), None);
    assert_eq!(Want::Extension.offer(&Sighting::Spawn(h(1), 9)), None);
    assert_eq!(Want::Source.offer(&Sighting::Other), None);
    assert_eq!(Want::Controller.offer(&Sighting::Source(h(1))), None);
}

#[test]
fn find_first_keeps_discovery_order() {
    let found = vec![Sighting::Source(h(9)), Sighting::Source(h(3)), Sighting::Source(h(5))];
    assert_eq!(find_first(&found, Want::Source), Some(Task::Harvest(h(9))));
    assert_eq!(find_first(&found, Want::Controller), None);
    assert_eq!(find_first(&Vec::new(), Want::Source), None);
}
