use novavm::publish::{validate_publish_request, ModuleDependency, ModuleInfo};
use novavm::vm_status::CONSTRAINT_NOT_SATISFIED;
use std::collections::BTreeMap;

fn module(name: &str, deps: Vec<(u128, &str)>) -> ModuleInfo {
    ModuleInfo {
        name: name.to_string(),
        dependencies: deps
            .into_iter()
            .map(|(address, n)| ModuleDependency {
                address,
                name: n.to_string(),
                display: format!("0x{:x}::{}", address, n),
            })
            .collect(),
    }
}

fn message(r: Result<(), novavm::vm_status::VMError>) -> String {
    let e = r.unwrap_err();
    assert_eq!(e.major_status, CONSTRAINT_NOT_SATISFIED);
    e.message.unwrap()
}

#[test]
fn bundle_matching_its_metadata_passes() {
    let modules = vec![module("a", vec![(1, "vector")]), module("b", vec![(2, "a")])];
    let mut allowed = BTreeMap::new();
    allowed.insert(1u128, vec!["".to_string()]);
    allowed.insert(2u128, vec!["a".to_string()]);
    assert!(validate_publish_request(
        &modules,
        vec!["b".to_string(), "a".to_string()],
        Some(allowed)
    )
    .is_ok());
    // without restrictions any dependency goes
    assert!(validate_publish_request(&modules, vec!["a".to_string(), "b".to_string()], None).is_ok());
}

#[test]
fn unregistered_module() {
    let modules = vec![module("a", vec![]), module("c", vec![])];
    assert_eq!(
        message(validate_publish_request(&modules, vec!["a".to_string(), "b".to_string()], None)),
        "metadata and code bundle mismatch: unregistered module: 'c'"
    );
    // a module published twice is unregistered the second time
    let twice = vec![module("a", vec![]), module("a", vec![])];
    assert_eq!(
        message(validate_publish_request(&twice, vec!["a".to_string()], None)),
        "metadata and code bundle mismatch: unregistered module: 'a'"
    );
}

#[test]
fn unregistered_dependency() {
    let modules = vec![module("a", vec![(1, "vector"), (3, "secret")])];
    let mut allowed = BTreeMap::new();
    allowed.insert(1u128, vec!["vector".to_string()]);
    assert_eq!(
        message(validate_publish_request(&modules, vec!["a".to_string()], Some(allowed))),
        "metadata and code bundle mismatch: unregistered dependency: '0x3::secret'"
    );
}

#[test]
fn missing_module() {
    let modules = vec![module("a", vec![])];
    assert_eq!(
        message(validate_publish_request(&modules, vec!["a".to_string(), "b".to_string()], None)),
        "metadata and code bundle mismatch: not all registered modules published"
    );
}
