use monitor_manager::topology::{
    TopologyMode, topology_to_mode_str, parse_topology_from_str, mode_from_normalized,
    parse_agent_set_mode, topology_from_code, keyword_to_mode,
};

fn all_modes() -> Vec<TopologyMode> {
    vec![
        TopologyMode::Internal,
        TopologyMode::External,
        TopologyMode::Extend,
        TopologyMode::Clone,
        TopologyMode::Single("0:0:12345".to_string()),
    ]
}

#[test]
fn mode_strings() {
    assert_eq!(topology_to_mode_str(&TopologyMode::Clone), "clone");
    assert_eq!(topology_to_mode_str(&TopologyMode::Extend), "extend");
    assert_eq!(topology_to_mode_str(&TopologyMode::Internal), "internal");
    assert_eq!(topology_to_mode_str(&TopologyMode::External), "external");
    assert_eq!(topology_to_mode_str(&TopologyMode::Single("1:0:7".to_string())), "single:1:0:7");
}

#[test]
fn agent_get_roundtrip() {
    for m in all_modes() {
        let text = topology_to_mode_str(&m);
        assert_eq!(mode_from_normalized(&text), Some(m.clone()));
        assert_eq!(parse_topology_from_str(&text), Some(m.clone()));
        assert_eq!(parse_topology_from_str(&format!("  {}\r\n", text)), Some(m));
    }
}

#[test]
fn agent_set_roundtrip() {
    for m in all_modes() {
        let text = topology_to_mode_str(&m);
        assert_eq!(parse_agent_set_mode(&text), Some(m));
    }
}

#[test]
fn parse_trims_and_lowercases() {
    assert_eq!(parse_topology_from_str(" CLONE \n"), Some(TopologyMode::Clone));
    assert_eq!(parse_topology_from_str("Extend"), Some(TopologyMode::Extend));
    assert_eq!(parse_topology_from_str("SINGLE:AB"), Some(TopologyMode::Single("ab".to_string())));
    assert_eq!(parse_topology_from_str("single:"), Some(TopologyMode::Single(String::new())));
    assert_eq!(parse_topology_from_str("duplicate"), None);
    assert_eq!(parse_topology_from_str(""), None);
}

#[test]
fn agent_set_argument_rules() {
    assert_eq!(parse_agent_set_mode("single:single:1"), Some(TopologyMode::Single("1".to_string())));
    assert_eq!(parse_agent_set_mode("single:AB"), Some(TopologyMode::Single("AB".to_string())));
    assert_eq!(parse_agent_set_mode("EXTEND"), Some(TopologyMode::Extend));
    assert_eq!(parse_agent_set_mode("Single:AB"), None);
    assert_eq!(parse_agent_set_mode(" clone"), None);
    assert_eq!(parse_agent_set_mode("mirror"), None);
}

#[test]
fn keywords_are_exact() {
    assert_eq!(keyword_to_mode("internal"), Some(TopologyMode::Internal));
    assert_eq!(keyword_to_mode("Internal"), None);
}

#[test]
fn topology_codes() {
    assert_eq!(topology_from_code(1), Some(TopologyMode::Internal));
    assert_eq!(topology_from_code(2), Some(TopologyMode::Clone));
    assert_eq!(topology_from_code(4), Some(TopologyMode::Extend));
    assert_eq!(topology_from_code(8), Some(TopologyMode::External));
    assert_eq!(topology_from_code(3), None);
    assert_eq!(topology_from_code(0), None);
}

#[test]
fn equality_and_clone() {
    let a = TopologyMode::Single("x".to_string());
    assert_eq!(a.clone(), a);
    assert!(a.same_as(&TopologyMode::Single("x".to_string())));
    assert!(!a.same_as(&TopologyMode::Single("y".to_string())));
    assert!(TopologyMode::Clone != TopologyMode::Extend);
}
