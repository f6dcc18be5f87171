//! Checks on a module bundle published from Move code: it must hold exactly
//! the modules that were registered for it, and, where dependencies are
//! restricted, depend only on allowed modules.

use crate::text::{join2, str_eq};
use crate::vm_status::{VMError, CONSTRAINT_NOT_SATISFIED};
use std::collections::BTreeMap;
use vstd::prelude::*;

verus! {

broadcast use {vstd::std_specs::btree::group_btree_axioms, vstd::laws_cmp::group_laws_cmp};

/// A module another module depends on: its address and name, and how it is
/// written in messages (`<address>::<name>`).
pub struct ModuleDependency {
    pub address: u128,
    pub name: String,
    pub display: String,
}

/// What publishing checks of a module: its name and immediate dependencies.
pub struct ModuleInfo {
    pub name: String,
    pub dependencies: Vec<ModuleDependency>,
}

/// The plain content of a list of names.
pub open spec fn names_view(v: Seq<String>) -> Seq<Seq<char>> {
    v.map_values(|s: String| s@)
}

/// Whether `dep` is allowed: its address has allowed modules, and they are
/// all of them (the empty name) or include `dep`'s name.
pub open spec fn dependency_allowed(allowed: Map<u128, Vec<String>>, dep: ModuleDependency) -> bool {
    &&& allowed.contains_key(dep.address)
    &&& (names_view(allowed[dep.address]@).contains(Seq::empty()) || names_view(
        allowed[dep.address]@,
    ).contains(dep.name@))
}

/// The first dependency of `deps` that is not allowed, as its display text.
pub open spec fn first_unallowed(deps: Seq<ModuleDependency>, allowed: Option<Map<u128, Vec<String>>>) -> Option<
    Seq<char>,
>
    decreases deps.len(),
{
    match allowed {
        None => None,
        Some(a) => if deps.len() == 0 {
            None
        } else if !dependency_allowed(a, deps[0]) {
            Some(deps[0].display@)
        } else {
            first_unallowed(deps.skip(1), allowed)
        },
    }
}

/// The plain content of the allowed dependencies.
pub open spec fn allowed_view(a: Option<BTreeMap<u128, Vec<String>>>) -> Option<Map<u128, Vec<String>>> {
    match a {
        Some(m) => Some(m@),
        None => None,
    }
}

/// The outcome of checking `modules` in order against the names still
/// expected: `Ok`, or the reason the bundle does not match its metadata.
pub open spec fn publish_check(
    modules: Seq<ModuleInfo>,
    expected: Set<Seq<char>>,
    allowed: Option<Map<u128, Vec<String>>>,
) -> Result<(), Seq<char>>
    decreases modules.len(),
{
    if modules.len() == 0 {
        if expected == Set::<Seq<char>>::empty() {
            Ok(())
        } else {
            Err("not all registered modules published"@)
        }
    } else if !expected.contains(modules[0].name@) {
        Err("unregistered module: '"@ + modules[0].name@ + "'"@)
    } else {
        match first_unallowed(modules[0].dependencies@, allowed) {
            Some(d) => Err("unregistered dependency: '"@ + d + "'"@),
            None => publish_check(modules.skip(1), expected.remove(modules[0].name@), allowed),
        }
    }
}

/// The names of `modules`, in order.
pub open spec fn module_names(modules: Seq<ModuleInfo>) -> Seq<Seq<char>> {
    modules.map_values(|m: ModuleInfo| m.name@)
}

/// A bundle that passes holds exactly the expected modules, each once.
pub proof fn lemma_published_exactly(
    modules: Seq<ModuleInfo>,
    expected: Set<Seq<char>>,
    allowed: Option<Map<u128, Vec<String>>>,
)
    requires
        publish_check(modules, expected, allowed) is Ok,
    ensures
        module_names(modules).no_duplicates(),
        module_names(modules).to_set() == expected,
    decreases modules.len(),
{
    if modules.len() == 0 {
        assert(module_names(modules).to_set() =~= expected);
    } else {
        let name = modules[0].name@;
        let rest = modules.skip(1);
        lemma_published_exactly(rest, expected.remove(name), allowed);
        let names = module_names(modules);
        let rest_names = module_names(rest);
        assert(names =~= seq![name] + rest_names);
        assert forall|i: int, j: int| 0 <= i < j < names.len() implies names[i] != names[j] by {
            if i == 0 {
                assert(names[j] == rest_names[j - 1]);
                assert(rest_names.to_set().contains(rest_names[j - 1]));
            } else {
                assert(names[i] == rest_names[i - 1]);
                assert(names[j] == rest_names[j - 1]);
            }
        }
        assert forall|n: Seq<char>| #[trigger] names.to_set().contains(n) == expected.contains(n) by {
            if names.contains(n) {
                let i = choose|i: int| 0 <= i < names.len() && names[i] == n;
                if i > 0 {
                    assert(rest_names[i - 1] == n);
                    assert(rest_names.to_set().contains(n));
                }
            }
            if expected.contains(n) && n != name {
                assert(rest_names.to_set().contains(n));
                let i = choose|i: int| 0 <= i < rest_names.len() && rest_names[i] == n;
                assert(names[i + 1] == n);
            }
            if n == name {
                assert(names[0] == n);
            }
        }
        assert(names.to_set() =~= expected);
    }
}

/// The error a bundle that does not match its metadata gets.
pub open spec fn metadata_error_text(msg: Seq<char>) -> Seq<char> {
    "metadata and code bundle mismatch: "@ + msg
}

fn metadata_validation_error(msg: String) -> (e: VMError)
    ensures
        e.major_status == CONSTRAINT_NOT_SATISFIED,
        e.message matches Some(m) && m@ == metadata_error_text(msg@),
{
    VMError {
        major_status: CONSTRAINT_NOT_SATISFIED,
        message: Some(join2("metadata and code bundle mismatch: ", msg.as_str())),
    }
}

fn quoted(prefix: &str, name: &str) -> (r: String)
    ensures
        r@ == prefix@ + name@ + "'"@,
{
    let s = join2(prefix, name);
    s.concat("'")
}

fn contains_name(names: &Vec<String>, name: &str) -> (r: Option<usize>)
    ensures
        r matches Some(i) ==> i < names@.len() && names@[i as int]@ == name@,
        r is Some <==> names_view(names@).contains(name@),
{
    let mut i: usize = 0;
    while i < names.len()
        invariant
            i <= names@.len(),
            forall|j: int| 0 <= j < i ==> names@[j]@ != name@,
        decreases names.len() - i,
    {
        if str_eq(names[i].as_str(), name) {
            assert(names_view(names@)[i as int] == name@);
            return Some(i);
        }
        i = i + 1;
    }
    proof {
        if names_view(names@).contains(name@) {
            let j = choose|j: int| 0 <= j < names_view(names@).len() && names_view(names@)[j] == name@;
            assert(names@[j]@ == name@);
        }
    }
    None
}

#[verifier::loop_isolation(false)]
fn check_dependencies(
    deps: &Vec<ModuleDependency>,
    allowed_deps: &Option<BTreeMap<u128, Vec<String>>>,
) -> (r: Option<String>)
    ensures
        match first_unallowed(
            deps@,
            allowed_view(*allowed_deps),
        ) {
            Some(t) => r matches Some(s) && s@ == t,
            None => r is None,
        },
{
    let ghost allowed_v = allowed_view(*allowed_deps);
    if let Some(allowed) = allowed_deps {
        let mut i: usize = 0;
        assert(deps@.skip(0) =~= deps@);
        while i < deps.len()
            invariant
                allowed_v == Some(allowed@),
                i <= deps@.len(),
                first_unallowed(deps@, allowed_v) == first_unallowed(deps@.skip(i as int), allowed_v),
            decreases deps.len() - i,
        {
            let dep = &deps[i];
            let ok = match allowed.get(&dep.address) {
                Some(modules) => {
                    let any = contains_name(modules, "").is_some();
                    let named = contains_name(modules, dep.name.as_str()).is_some();
                    proof {
                        reveal_strlit("");
                        assert(""@ =~= Seq::<char>::empty());
                        assert(allowed@.contains_key(dep.address) && allowed@[dep.address] == *modules);
                    }
                    any || named
                },
                None => false,
            };
            proof {
                assert(ok == dependency_allowed(allowed@, *dep));
                assert(deps@.skip(i as int)[0] == *dep);
                assert(deps@.skip(i as int).skip(1) =~= deps@.skip(i + 1));
            }
            if !ok {
                return Some(dep.display.clone());
            }
            i = i + 1;
        }
        proof {
            assert(deps@.skip(i as int).len() == 0);
        }
    }
    None
}

/// Checks a published bundle against what was registered for it: each
/// module must be one of `expected_modules` (each at most once), and, when
/// `allowed_deps` restricts them, each dependency must be allowed (an
/// address whose allowed names include the empty name allows all its
/// modules). Every expected module must be published.
#[verifier::loop_isolation(false)]
pub fn validate_publish_request(
    modules: &Vec<ModuleInfo>,
    expected_modules: Vec<String>,
    allowed_deps: Option<BTreeMap<u128, Vec<String>>>,
) -> (r: Result<(), VMError>)
    requires
        names_view(expected_modules@).no_duplicates(),
    ensures
        match publish_check(
            modules@,
            names_view(expected_modules@).to_set(),
            allowed_view(allowed_deps),
        ) {
            Ok(()) => r is Ok,
            Err(msg) => r matches Err(e) && e.major_status == CONSTRAINT_NOT_SATISFIED && (
            e.message matches Some(m) && m@ == metadata_error_text(msg)),
        },
{
    let ghost allowed_v = allowed_view(allowed_deps);
    let ghost whole = publish_check(modules@, names_view(expected_modules@).to_set(), allowed_v);
    let mut expected_modules = expected_modules;
    let mut i: usize = 0;
    assert(modules@.skip(0) =~= modules@);
    while i < modules.len()
        invariant
            i <= modules@.len(),
            names_view(expected_modules@).no_duplicates(),
            allowed_v == allowed_view(allowed_deps),
            whole == publish_check(modules@.skip(i as int), names_view(expected_modules@).to_set(), allowed_v),
        decreases modules.len() - i,
    {
        let m = &modules[i];
        let ghost names = names_view(expected_modules@);
        proof {
            assert(modules@.skip(i as int)[0] == *m);
            assert(modules@.skip(i as int).skip(1) =~= modules@.skip(i + 1));
        }
        match contains_name(&expected_modules, m.name.as_str()) {
            None => {
                proof {
                    assert(!names.to_set().contains(m.name@));
                    assert(modules@.skip(i as int).len() > 0);
                    assert(publish_check(modules@.skip(i as int), names.to_set(), allowed_v) == Err::<(), Seq<char>>(
                        "unregistered module: '"@ + m.name@ + "'"@,
                    ));
                }
                return Err(metadata_validation_error(quoted("unregistered module: '", m.name.as_str())));
            },
            Some(k) => {
                expected_modules.remove(k);
                proof {
                    let after = names_view(expected_modules@);
                    assert(after =~= names.remove(k as int));
                    assert(names[k as int] == m.name@);
                    assert forall|a: int, b: int| 0 <= a < b < after.len() implies after[a] != after[b] by {
                        let a0 = if a < k { a } else { a + 1 };
                        let b0 = if b < k { b } else { b + 1 };
                        assert(after[a] == names[a0]);
                        assert(after[b] == names[b0]);
                    }
                    assert forall|n: Seq<char>| #[trigger] after.to_set().contains(n) == names.to_set().remove(m.name@).contains(n) by {
                        if after.contains(n) {
                            let a = choose|a: int| 0 <= a < after.len() && after[a] == n;
                            let a0 = if a < k { a } else { a + 1 };
                            assert(names[a0] == n);
                            assert(a0 != k);
                        }
                        if names.contains(n) && n != m.name@ {
                            let a0 = choose|a: int| 0 <= a < names.len() && names[a] == n;
                            assert(a0 != k);
                            let a = if a0 < k { a0 } else { a0 - 1 };
                            assert(after[a] == n);
                        }
                    }
                    assert(after.to_set() =~= names.to_set().remove(m.name@));
                    assert(names.to_set().contains(m.name@));
                }
            },
        }
        match check_dependencies(&m.dependencies, &allowed_deps) {
            Some(dep) => {
                return Err(metadata_validation_error(quoted("unregistered dependency: '", dep.as_str())));
            },
            None => {},
        }
        i = i + 1;
    }
    proof {
        assert(modules@.skip(i as int).len() == 0);
        let names = names_view(expected_modules@);
        if names.len() > 0 {
            assert(names.to_set().contains(names[0]));
        } else {
            assert(names.to_set() =~= Set::<Seq<char>>::empty());
        }
    }
    if expected_modules.len() != 0 {
        let msg = "not all registered modules published".to_owned();
        return Err(metadata_validation_error(msg));
    }
    Ok(())
}

/// `name` is among the module names listed for `address` in `allowed`, or
/// the empty name (all modules of the address) is.
pub open spec fn listed_for(allowed: Map<u128, Vec<String>>, address: u128, name: Seq<char>) -> bool {
    &&& allowed.contains_key(address)
    &&& exists|j: int|
        0 <= j < allowed[address]@.len() && (#[trigger] allowed[address]@[j]@ == name
            || allowed[address]@[j]@ == Seq::<char>::empty())
}

proof fn lemma_dependency_allowed_listed(allowed: Map<u128, Vec<String>>, dep: ModuleDependency)
    ensures
        dependency_allowed(allowed, dep) <==> listed_for(allowed, dep.address, dep.name@),
{
    if allowed.contains_key(dep.address) {
        let names = allowed[dep.address]@;
        let nv = names_view(names);
        if listed_for(allowed, dep.address, dep.name@) {
            let j = choose|j: int|
                0 <= j < names.len() && (#[trigger] names[j]@ == dep.name@ || names[j]@
                    == Seq::<char>::empty());
            assert(nv[j] == names[j]@);
        }
        if nv.contains(Seq::empty()) {
            let j = choose|j: int| 0 <= j < nv.len() && nv[j] == Seq::<char>::empty();
            assert(names[j]@ == nv[j]);
        }
        if nv.contains(dep.name@) {
            let j = choose|j: int| 0 <= j < nv.len() && nv[j] == dep.name@;
            assert(names[j]@ == nv[j]);
        }
    }
}

proof fn lemma_first_unallowed_none(deps: Seq<ModuleDependency>, allowed: Map<u128, Vec<String>>)
    ensures
        first_unallowed(deps, Some(allowed)) is None <==> forall|k: int|
            0 <= k < deps.len() ==> listed_for(allowed, (#[trigger] deps[k]).address, deps[k].name@),
    decreases deps.len(),
{
    if deps.len() > 0 {
        let rest = deps.skip(1);
        lemma_first_unallowed_none(rest, allowed);
        lemma_dependency_allowed_listed(allowed, deps[0]);
        if forall|k: int|
            0 <= k < rest.len() ==> listed_for(allowed, (#[trigger] rest[k]).address, rest[k].name@) {
            assert forall|k: int| 0 <= k < deps.len() && k > 0 implies listed_for(
                allowed,
                (#[trigger] deps[k]).address,
                deps[k].name@,
            ) by {
                assert(rest[k - 1] == deps[k]);
            }
        } else {
            let k = choose|k: int|
                0 <= k < rest.len() && !listed_for(allowed, (#[trigger] rest[k]).address, rest[k].name@);
            assert(rest[k] == deps[k + 1]);
        }
    }
}

/// A bundle that passes its check depends only on allowed modules: where
/// dependencies are restricted, every dependency of every module is at an
/// address with allowed names, one of which is its name (or the empty
/// name, which allows the whole address).
pub proof fn lemma_passed_dependencies_listed(
    modules: Seq<ModuleInfo>,
    expected: Set<Seq<char>>,
    allowed: Map<u128, Vec<String>>,
)
    requires
        publish_check(modules, expected, Some(allowed)) is Ok,
    ensures
        forall|i: int, k: int|
            0 <= i < modules.len() && 0 <= k < modules[i].dependencies@.len() ==> listed_for(
                allowed,
                (#[trigger] modules[i].dependencies@[k]).address,
                modules[i].dependencies@[k].name@,
            ),
    decreases modules.len(),
{
    if modules.len() > 0 {
        let rest = modules.skip(1);
        lemma_first_unallowed_none(modules[0].dependencies@, allowed);
        lemma_passed_dependencies_listed(rest, expected.remove(modules[0].name@), allowed);
        assert forall|i: int, k: int|
            0 <= i < modules.len() && 0 <= k < modules[i].dependencies@.len() implies listed_for(
            allowed,
            (#[trigger] modules[i].dependencies@[k]).address,
            modules[i].dependencies@[k].name@,
        ) by {
            if i > 0 {
                assert(rest[i - 1] == modules[i]);
                assert(rest[i - 1].dependencies@[k] == modules[i].dependencies@[k]);
            }
        }
    }
}

/// A bundle that holds exactly the expected modules, each once, and whose
/// dependencies are all allowed (where they are restricted: each at an
/// address with allowed names, one of which is its name or the empty name)
/// passes its check.
pub proof fn lemma_listed_bundle_passes(
    modules: Seq<ModuleInfo>,
    expected: Set<Seq<char>>,
    allowed: Option<Map<u128, Vec<String>>>,
)
    requires
        module_names(modules).no_duplicates(),
        module_names(modules).to_set() == expected,
        allowed matches Some(a) ==> forall|i: int, k: int|
            0 <= i < modules.len() && 0 <= k < modules[i].dependencies@.len() ==> listed_for(
                a,
                (#[trigger] modules[i].dependencies@[k]).address,
                modules[i].dependencies@[k].name@,
            ),
    ensures
        publish_check(modules, expected, allowed) is Ok,
    decreases modules.len(),
{
    let names = module_names(modules);
    if modules.len() == 0 {
        assert(expected =~= Set::<Seq<char>>::empty()) by {
            assert forall|n: Seq<char>| !expected.contains(n) by {
                if expected.contains(n) {
                    assert(names.to_set().contains(n));
                }
            }
        }
    } else {
        let name = modules[0].name@;
        let rest = modules.skip(1);
        let rest_names = module_names(rest);
        assert(names =~= seq![name] + rest_names);
        assert(names[0] == name);
        assert(names.to_set().contains(name));
        if let Some(a) = allowed {
            lemma_first_unallowed_none(modules[0].dependencies@, a);
            assert forall|k: int| 0 <= k < modules[0].dependencies@.len() implies listed_for(
                a,
                (#[trigger] modules[0].dependencies@[k]).address,
                modules[0].dependencies@[k].name@,
            ) by {}
            assert forall|i: int, k: int|
                0 <= i < rest.len() && 0 <= k < rest[i].dependencies@.len() implies listed_for(
                a,
                (#[trigger] rest[i].dependencies@[k]).address,
                rest[i].dependencies@[k].name@,
            ) by {
                assert(rest[i] == modules[i + 1]);
                assert(modules[i + 1].dependencies@[k] == rest[i].dependencies@[k]);
            }
        }
        assert(rest_names.no_duplicates()) by {
            assert forall|i: int, j: int| 0 <= i < j < rest_names.len() implies rest_names[i]
                != rest_names[j] by {
                assert(rest_names[i] == names[i + 1]);
                assert(rest_names[j] == names[j + 1]);
            }
        }
        assert(rest_names.to_set() =~= expected.remove(name)) by {
            assert forall|n: Seq<char>| #[trigger] rest_names.to_set().contains(n) == expected.remove(
                name,
            ).contains(n) by {
                if rest_names.contains(n) {
                    let i = choose|i: int| 0 <= i < rest_names.len() && rest_names[i] == n;
                    assert(names[i + 1] == n);
                    assert(names[0] != names[i + 1]);
                    assert(names.to_set().contains(n));
                }
                if expected.contains(n) && n != name {
                    assert(names.to_set().contains(n));
                    let i = choose|i: int| 0 <= i < names.len() && names[i] == n;
                    assert(i != 0);
                    assert(rest_names[i - 1] == n);
                    assert(rest_names.to_set().contains(n));
                }
            }
        }
        lemma_listed_bundle_passes(rest, expected.remove(name), allowed);
    }
}

} // verus!
