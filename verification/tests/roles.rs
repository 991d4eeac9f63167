use creep_core::creep_roles::{
    get_creep_role, get_expected_count, role_code, set_creep_role, set_creep_role_2, CreepMemory,
    Role,
};

#[test]
fn role_integers_follow_declaration_order() {
    assert_eq!(Role::Unknown.to_int(), 0);
    assert_eq!(Role::Harvester.to_int(), 1);
    assert_eq!(Role::Upgrader.to_int(), 2);
    assert_eq!(Role::Builder.to_int(), 3);
    assert_eq!(Role::Repairer.to_int(), 4);
}

#[test]
fn role_from_int_reads_back_every_role() {
    for role in Role::all() {
        assert_eq!(Role::from_int(role.to_int()), Some(role));
    }
}

#[test]
fn role_from_int_rejects_what_names_no_role() {
    assert_eq!(Role::from_int(5), None);
    assert_eq!(Role::from_int(-1), None);
    assert_eq!(Role::from_int(i32::MAX), None);
    assert_eq!(Role::from_int(i32::MIN), None);
}

#[test]
fn roles_are_listed_in_fixed_order() {
    assert_eq!(
        Role::all(),
        vec![Role::Unknown, Role::Harvester, Role::Upgrader, Role::Builder, Role::Repairer]
    );
}

#[test]
fn only_unknown_is_not_recognised() {
    assert!(Role::Harvester.is_recognised());
    assert!(Role::Upgrader.is_recognised());
    assert!(Role::Builder.is_recognised());
    assert!(Role::Repairer.is_recognised());
    assert!(!Role::Unknown.is_recognised());
}

#[test]
fn three_roles_have_a_rule_for_spending() {
    assert!(Role::Harvester.is_spender());
    assert!(Role::Upgrader.is_spender());
    assert!(Role::Builder.is_spender());
    assert!(!Role::Repairer.is_spender());
    assert!(!Role::Unknown.is_spender());
}

#[test]
fn quota_goes_with_a_rule_for_spending() {
    for role in Role::all() {
        assert_eq!(get_expected_count(role) > 0, role.is_spender());
    }
}

#[test]
fn quota_table() {
    assert_eq!(get_expected_count(Role::Unknown), 0);
    assert_eq!(get_expected_count(Role::Harvester), 2);
    assert_eq!(get_expected_count(Role::Upgrader), 3);
    assert_eq!(get_expected_count(Role::Builder), 3);
    assert_eq!(get_expected_count(Role::Repairer), 0);
}

#[test]
fn unreadable_record_reads_as_unknown() {
    assert_eq!(get_creep_role(&None), Role::Unknown);
}

#[test]
fn corrupt_record_reads_as_unknown() {
    assert_eq!(get_creep_role(&Some(CreepMemory { role: 5 })), Role::Unknown);
    assert_eq!(get_creep_role(&Some(CreepMemory { role: -3 })), Role::Unknown);
    assert_eq!(get_creep_role(&Some(CreepMemory { role: i32::MAX })), Role::Unknown);
}

#[test]
fn stored_role_is_read_back() {
    assert_eq!(get_creep_role(&Some(CreepMemory { role: 1 })), Role::Harvester);
    assert_eq!(get_creep_role(&Some(CreepMemory { role: 2 })), Role::Upgrader);
    assert_eq!(get_creep_role(&Some(CreepMemory { role: 3 })), Role::Builder);
    assert_eq!(get_creep_role(&Some(CreepMemory { role: 4 })), Role::Repairer);
    assert_eq!(get_creep_role(&Some(CreepMemory { role: 0 })), Role::Unknown);
}

#[test]
fn set_creep_role_overwrites_the_record() {
    let mut memory = CreepMemory { role: 1 };
    set_creep_role(&mut memory, Role::Builder);
    assert_eq!(memory, CreepMemory { role: 3 });
    assert_eq!(get_creep_role(&Some(memory)), Role::Builder);
}

#[test]
fn set_creep_role_2_makes_a_fresh_record() {
    for role in Role::all() {
        let memory = set_creep_role_2(role);
        assert_eq!(memory.role, role.to_int());
        assert_eq!(get_creep_role(&Some(memory)), role);
    }
}

#[test]
fn role_code_is_what_the_record_holds() {
    assert_eq!(role_code(&Some(CreepMemory { role: 3 })), 3);
    assert_eq!(role_code(&Some(CreepMemory { role: 77 })), 77);
    assert_eq!(role_code(&Some(CreepMemory { role: -2 })), -2);
    assert_eq!(role_code(&None), 0);
}
