use cs_trigger::memory::{entity_entry_address, module_name_matches};

fn utf16(s: &str) -> Vec<u16> {
    s.encode_utf16().collect()
}

/// A module path as the system leaves it in a fixed buffer of 260 units.
fn buffer(path: &str) -> Vec<u16> {
    let mut b = utf16(path);
    b.resize(260, 0);
    b
}

#[test]
fn matches_last_path_component() {
    let name = utf16("client.dll");
    assert!(module_name_matches(&buffer("C:\\Games\\cs2\\bin\\client.dll"), &name));
    assert!(!module_name_matches(&buffer("C:\\Games\\cs2\\bin\\engine.dll"), &name));
    assert!(!module_name_matches(&buffer("C:\\client.dll\\other.dll"), &name));
}

#[test]
fn match_is_a_prefix_of_the_component() {
    let name = utf16("client");
    assert!(module_name_matches(&buffer("C:\\bin\\client.dll"), &name));
    assert!(module_name_matches(&utf16("client"), &name));
    assert!(!module_name_matches(&utf16("clien"), &name));
    assert!(module_name_matches(&utf16("anything"), &utf16("")));
    assert!(!module_name_matches(&utf16(""), &name));
}

#[test]
fn path_without_separator_is_its_own_component() {
    assert!(module_name_matches(&utf16("engine.dll"), &utf16("engine")));
    assert!(module_name_matches(&utf16("dir\\"), &utf16("")));
    assert!(!module_name_matches(&utf16("dir\\"), &utf16("dir")));
}

#[test]
fn stale_units_after_the_terminator_still_count() {
    // A shorter path written over a longer one leaves the old tail behind.
    let mut b = buffer("C:\\Windows\\System32\\ntdll.dll");
    let new: Vec<u16> = utf16("C:\\a.dll");
    b[..new.len()].copy_from_slice(&new);
    b[new.len()] = 0;
    assert!(module_name_matches(&b, &utf16("ntdll.dll")));
    assert!(!module_name_matches(&b, &utf16("a.dll")));
}

#[test]
fn entity_entries_are_sixteen_bytes_apart() {
    assert_eq!(entity_entry_address(0x1000, 0x200, 0), 0x1200);
    assert_eq!(entity_entry_address(0x1000, 0x200, 1), 0x1210);
    assert_eq!(entity_entry_address(0x1000, 0x200, 63), 0x1200 + 63 * 16);
}
