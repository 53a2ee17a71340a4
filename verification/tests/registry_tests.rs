use mini_rdk::common_v1::ResourceName;
use mini_rdk::registry::{same_name, Registry};

fn name(subtype: &str, name: &str) -> ResourceName {
    ResourceName {
        namespace: "rdk".to_string(),
        typ: "component".to_string(),
        subtype: subtype.to_string(),
        name: name.to_string(),
    }
}

#[test]
fn same_name_compares_all_four_parts() {
    assert!(same_name(&name("motor", "m1"), &name("motor", "m1")));
    assert!(!same_name(&name("motor", "m1"), &name("motor", "m2")));
    assert!(!same_name(&name("motor", "m1"), &name("board", "m1")));
}

#[test]
fn registry_lists_exactly_what_boot_inserted() {
    let mut reg: Registry<u32> = Registry::new();
    assert_eq!(reg.len(), 0);
    reg.insert(name("motor", "m1"), 1);
    reg.insert(name("motor", "m2"), 2);
    reg.insert(name("board", "b"), 3);
    reg.insert(name("base", "base"), 4);
    assert_eq!(reg.len(), 4);
    let listed: Vec<String> = reg.names().iter().map(|n| n.to_canonical_string()).collect();
    assert_eq!(
        listed,
        vec![
            "rdk:component:motor/m1".to_string(),
            "rdk:component:motor/m2".to_string(),
            "rdk:component:board/b".to_string(),
            "rdk:component:base/base".to_string(),
        ]
    );
}

#[test]
fn lookup_finds_registered_handles_only() {
    let mut reg: Registry<u32> = Registry::new();
    reg.insert(name("motor", "m1"), 7);
    reg.insert(name("board", "b"), 8);
    assert_eq!(reg.get(&name("motor", "m1")), Some(&7));
    assert_eq!(reg.get(&name("board", "b")), Some(&8));
    // an unknown resource has no handle; the dispatcher answers not-found
    assert_eq!(reg.get(&name("motor", "unknown")), None);
    assert_eq!(reg.get(&name("camera", "m1")), None);
}

#[test]
fn duplicate_insert_replaces_silently() {
    let mut reg: Registry<u32> = Registry::new();
    reg.insert(name("motor", "m1"), 1);
    reg.insert(name("motor", "m2"), 2);
    reg.insert(name("motor", "m1"), 9);
    assert_eq!(reg.len(), 2);
    assert_eq!(reg.get(&name("motor", "m1")), Some(&9));
    assert_eq!(reg.get(&name("motor", "m2")), Some(&2));
}
