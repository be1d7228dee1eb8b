use luna::embed::config::LunaConfig;
use luna::modules::module_builder::{run_in_order, GlobalAttachment, ModuleBuilder, PreloadEntries};
use std::cell::RefCell;

type Init = fn(&RefCell<Vec<u32>>) -> Result<(), String>;

fn first(log: &RefCell<Vec<u32>>) -> Result<(), String> {
    log.borrow_mut().push(1);
    Ok(())
}
fn second(log: &RefCell<Vec<u32>>) -> Result<(), String> {
    log.borrow_mut().push(2);
    Ok(())
}
fn failing(log: &RefCell<Vec<u32>>) -> Result<(), String> {
    log.borrow_mut().push(9);
    Err("init failed".to_string())
}

#[test]
fn globals_run_in_registration_order() {
    let b: ModuleBuilder<Init, u8> = ModuleBuilder::new().with_global(first as Init).with_global(second as Init);
    let (g, p) = b.build();
    assert!(p.is_empty());
    let log = RefCell::new(Vec::new());
    g.attach(&log).unwrap();
    assert_eq!(*log.borrow(), vec![1, 2]);
}

#[test]
fn first_failure_stops_the_rest() {
    let g: GlobalAttachment<Init> = GlobalAttachment::new()
        .add_function(first as Init)
        .add_function(failing as Init)
        .add_function(second as Init);
    let log = RefCell::new(Vec::new());
    assert_eq!(g.attach(&log), Err("init failed".to_string()));
    assert_eq!(*log.borrow(), vec![1, 9]);
}

#[test]
fn empty_attachment_succeeds() {
    let g: GlobalAttachment<Init> = GlobalAttachment::new();
    let log = RefCell::new(Vec::new());
    assert!(g.attach(&log).is_ok());
    assert!(log.borrow().is_empty());
    let fs: Vec<Init> = vec![first, second];
    assert!(run_in_order(&fs, &log).is_ok());
    assert_eq!(*log.borrow(), vec![1, 2]);
}

#[test]
fn preloads_keep_names_and_order() {
    let b: ModuleBuilder<Init, u8> = ModuleBuilder::new()
        .with_preload("alpha", 1)
        .with_global(first as Init)
        .with_preload("beta", 2);
    assert_eq!(b.globals().functions().len(), 1);
    assert_eq!(b.preloads().entries(), &vec![("alpha", 1), ("beta", 2)]);
    let (_, p) = b.build();
    assert!(!p.is_empty());
    assert_eq!(p.into_entries(), vec![("alpha", 1), ("beta", 2)]);
    let q: PreloadEntries<u8> = PreloadEntries::new().add_entry("m", 7);
    assert_eq!(q.entries().len(), 1);
}

#[test]
fn sandboxed_runtime_loads_no_module() {
    let full = || -> ModuleBuilder<Init, u8> { ModuleBuilder::new().with_global(first as Init).with_preload("m", 1) };
    let sandboxed = ModuleBuilder::for_config(&LunaConfig { sandbox: true }, full());
    assert_eq!(sandboxed.globals().functions().len(), 0);
    assert!(sandboxed.preloads().is_empty());
    let open = ModuleBuilder::for_config(&LunaConfig { sandbox: false }, full());
    assert_eq!(open.globals().functions().len(), 1);
    assert_eq!(open.preloads().entries(), &vec![("m", 1)]);
}
