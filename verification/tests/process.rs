use cs_trigger::process::{Module, Process};

fn module(name: &str) -> Module {
    Module { name: String::from(name) }
}

#[test]
fn get_module_finds_first_by_name() {
    let p = Process::new(42, vec![module("engine.dll"), module("client.dll"), module("client.dll")]);
    let found = p.get_module("client.dll");
    assert!(found.is_some());
    assert_eq!(found.unwrap().name, "client.dll");
    assert!(std::ptr::eq(found.unwrap(), p.get_module("client.dll").unwrap()));
    assert!(p.get_module("panorama.dll").is_none());
    assert!(p.get_module("client").is_none());
}

#[test]
fn process_without_modules() {
    let p = Process::new(7, vec![]);
    assert!(p.get_module("client.dll").is_none());
}
