//! Module enumeration order and the loader's failure policy.

use vminit::modules::{is_module_file_name, module_load_order, DirEntry, ModuleLoader};

fn entry(name: &[u8], is_file: bool) -> DirEntry {
    DirEntry { name: name.to_vec(), is_file }
}

#[test]
fn load_order_is_lexicographic_and_filters_extension() {
    let entries = vec![entry(b"b.ko", true), entry(b"a.ko", true), entry(b"c.txt", true)];
    let order = module_load_order(&entries);
    assert_eq!(order, vec![b"a.ko".to_vec(), b"b.ko".to_vec()]);
}

#[test]
fn load_order_skips_non_files() {
    let entries = vec![entry(b"dir.ko", false), entry(b"m.ko", true)];
    let order = module_load_order(&entries);
    assert_eq!(order, vec![b"m.ko".to_vec()]);
}

#[test]
fn load_order_of_empty_directory_is_empty() {
    let order = module_load_order(&Vec::new());
    assert_eq!(order, Vec::<Vec<u8>>::new());
}

#[test]
fn load_order_sorts_bytewise() {
    let entries = vec![
        entry(b"z10.ko", true),
        entry(b"z2.ko", true),
        entry(b"a.ko", true),
    ];
    let order = module_load_order(&entries);
    // Byte-wise comparison: "z10" sorts before "z2".
    assert_eq!(
        order,
        vec![b"a.ko".to_vec(), b"z10.ko".to_vec(), b"z2.ko".to_vec()]
    );
}

#[test]
fn module_extension_needs_a_stem() {
    assert!(is_module_file_name(b"a.ko"));
    assert!(is_module_file_name(b"a.b.ko"));
    assert!(!is_module_file_name(b".ko"));
    assert!(!is_module_file_name(b"ako"));
    assert!(!is_module_file_name(b"a.kot"));
}

#[test]
fn one_failure_does_not_stop_the_loader() {
    let modules = vec![b"a.ko".to_vec(), b"b.ko".to_vec(), b"c.ko".to_vec()];
    let mut loader = ModuleLoader::new(modules);
    // First module fails to insert; the rest must still be attempted.
    assert_eq!(loader.current(), Some(&b"a.ko".to_vec()));
    loader.record(false);
    assert_eq!(loader.current(), Some(&b"b.ko".to_vec()));
    loader.record(true);
    assert_eq!(loader.current(), Some(&b"c.ko".to_vec()));
    loader.record(false);
    assert_eq!(loader.current(), None);
    assert!(loader.finished());
    // The loader as a whole still reports success.
    assert!(loader.overall_success());
}
