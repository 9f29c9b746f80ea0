//! What a bundle of modules has to meet before it is published.

use crate::keyed_map::KeyedMap;
use crate::request::ModuleProbe;
use crate::transaction::CompiledModule;
use crate::types::{AccountAddress, ModuleId};
use crate::vm_status::{StatusCode, VMStatus};
use vstd::prelude::*;

verus! {

/// Whether `name` is one of `names`.
pub open spec fn is_named(names: Seq<String>, name: Seq<char>) -> bool {
    exists|i: int| 0 <= i < names.len() && (#[trigger] names[i])@ == name
}

/// Whether `name` is one of `names`.
pub fn contains_name(names: &Vec<String>, name: &String) -> (result: bool)
    ensures
        result == is_named(names@, name@),
{
    let mut i: usize = 0;
    while i < names.len()
        invariant
            i <= names@.len(),
            forall|j: int| 0 <= j < i ==> (#[trigger] names@[j])@ != name@,
        decreases names@.len() - i,
    {
        if names[i] == *name {
            return true;
        }
        i += 1;
    }
    false
}

/// Whether the module at place `i` may be published as one of the modules
/// that the package announces: its name is announced, and no earlier module
/// of the bundle has taken it.
pub open spec fn module_registered(
    modules: Seq<CompiledModule>,
    expected_modules: Seq<String>,
    i: int,
) -> bool {
    &&& is_named(expected_modules, modules[i].self_id.name@)
    &&& forall|j: int| 0 <= j < i ==> (#[trigger] modules[j]).self_id.name@ != modules[i].self_id.name@
}

/// Whether the module at place `i` may be published as one of the modules
/// that the package announces.
pub fn verify_module_registered(
    modules: &Vec<CompiledModule>,
    expected_modules: &Vec<String>,
    i: usize,
) -> (result: bool)
    requires
        i < modules@.len(),
    ensures
        result == module_registered(modules@, expected_modules@, i as int),
{
    if !contains_name(expected_modules, &modules[i].self_id.name) {
        return false;
    }
    let mut j: usize = 0;
    while j < i
        invariant
            j <= i,
            i < modules@.len(),
            forall|k: int|
                0 <= k < j ==> (#[trigger] modules@[k]).self_id.name@ != modules@[i as int].self_id.name@,
        decreases i - j,
    {
        if modules[j].self_id.name == modules[i].self_id.name {
            return false;
        }
        j += 1;
    }
    true
}

/// Whether the package may depend on `dependency`: the address of the
/// dependency is listed, with the name of the module or with the empty name,
/// which stands for every module of the address.
pub open spec fn dependency_allowed(
    dependency: ModuleId,
    allowed_deps: Map<AccountAddress, Vec<String>>,
) -> bool {
    allowed_deps.contains_key(dependency.address) && (is_named(
        allowed_deps[dependency.address]@,
        Seq::empty(),
    ) || is_named(allowed_deps[dependency.address]@, dependency.name@))
}

/// Whether the package may depend on everything that `module` depends on
/// directly. Where no dependencies are listed, it may depend on anything.
pub open spec fn dependencies_allowed(
    module: CompiledModule,
    allowed_deps: Option<Map<AccountAddress, Vec<String>>>,
) -> bool {
    match allowed_deps {
        None => true,
        Some(allowed) => forall|d: int|
            0 <= d < module.immediate_dependencies@.len() ==> dependency_allowed(
                #[trigger] module.immediate_dependencies@[d],
                allowed,
            ),
    }
}

/// The listed dependencies as a map.
pub open spec fn allowed_map(allowed_deps: Option<KeyedMap<AccountAddress, Vec<String>>>) -> Option<
    Map<AccountAddress, Vec<String>>,
> {
    match allowed_deps {
        None => None,
        Some(allowed) => Some(allowed@),
    }
}

/// Whether the package may depend on everything that `module` depends on
/// directly.
pub fn verify_dependencies_allowed(
    module: &CompiledModule,
    allowed_deps: &Option<KeyedMap<AccountAddress, Vec<String>>>,
) -> (result: bool)
    ensures
        result == dependencies_allowed(*module, allowed_map(*allowed_deps)),
{
    match allowed_deps {
        None => true,
        Some(allowed) => {
            let empty = String::new();
            let mut d: usize = 0;
            while d < module.immediate_dependencies.len()
                invariant
                    d <= module.immediate_dependencies@.len(),
                    empty@ == Seq::<char>::empty(),
                    allowed_map(*allowed_deps) == Some(allowed@),
                    forall|k: int|
                        0 <= k < d ==> dependency_allowed(
                            #[trigger] module.immediate_dependencies@[k],
                            allowed@,
                        ),
                decreases module.immediate_dependencies@.len() - d,
            {
                let dependency = &module.immediate_dependencies[d];
                let listed = match allowed.get(&dependency.address) {
                    Some(names) => contains_name(names, &empty) || contains_name(
                        names,
                        &dependency.name,
                    ),
                    None => false,
                };
                if !listed {
                    proof {
                        assert(!dependency_allowed(module.immediate_dependencies@[d as int], allowed@));
                    }
                    return false;
                }
                d += 1;
            }
            true
        },
    }
}

/// Whether some module of the bundle has this name.
pub open spec fn has_module_named(modules: Seq<CompiledModule>, name: Seq<char>) -> bool {
    exists|j: int| 0 <= j < modules.len() && (#[trigger] modules[j]).self_id.name@ == name
}

/// Whether every module that the package announces is in the bundle.
pub open spec fn all_expected_published(
    modules: Seq<CompiledModule>,
    expected_modules: Seq<String>,
) -> bool {
    forall|e: int|
        0 <= e < expected_modules.len() ==> has_module_named(
            modules,
            (#[trigger] expected_modules[e])@,
        )
}

/// Whether some module of the bundle has this name.
fn bundle_has_module(modules: &Vec<CompiledModule>, name: &String) -> (result: bool)
    ensures
        result == has_module_named(modules@, name@),
{
    let mut j: usize = 0;
    while j < modules.len()
        invariant
            j <= modules@.len(),
            forall|k: int| 0 <= k < j ==> (#[trigger] modules@[k]).self_id.name@ != name@,
        decreases modules@.len() - j,
    {
        if modules[j].self_id.name == *name {
            return true;
        }
        j += 1;
    }
    false
}

/// Whether every module that the package announces is in the bundle.
pub fn verify_all_expected_published(
    modules: &Vec<CompiledModule>,
    expected_modules: &Vec<String>,
) -> (result: bool)
    ensures
        result == all_expected_published(modules@, expected_modules@),
{
    let mut e: usize = 0;
    while e < expected_modules.len()
        invariant
            e <= expected_modules@.len(),
            forall|k: int|
                0 <= k < e ==> has_module_named(modules@, (#[trigger] expected_modules@[k])@),
        decreases expected_modules@.len() - e,
    {
        if !bundle_has_module(modules, &expected_modules[e]) {
            return false;
        }
        e += 1;
    }
    true
}

/// What the first module from place `i` on that cannot be added says: the
/// failure to decode it, or that a module of its name exists.
pub open spec fn first_probe_failure(probes: Seq<ModuleProbe>, i: int) -> Option<VMStatus>
    decreases probes.len() - i,
{
    if i < 0 || i >= probes.len() {
        None
    } else {
        match probes[i].failure {
            Some(error) => Some(error),
            None => if probes[i].loaded {
                Some(
                    VMStatus::Error {
                        status_code: StatusCode::DUPLICATE_MODULE_NAME,
                        sub_status: None,
                    },
                )
            } else {
                first_probe_failure(probes, i + 1)
            },
        }
    }
}

/// Checks that every module of a bundle decodes and is new.
pub fn verify_module_bundle(probes: &Vec<ModuleProbe>) -> (result: Result<(), VMStatus>)
    ensures
        match result {
            Ok(_) => first_probe_failure(probes@, 0) is None,
            Err(error) => first_probe_failure(probes@, 0) == Some(error),
        },
{
    let mut i: usize = 0;
    while i < probes.len()
        invariant
            i <= probes@.len(),
            first_probe_failure(probes@, 0) == first_probe_failure(probes@, i as int),
        decreases probes@.len() - i,
    {
        match &probes[i].failure {
            Some(error) => {
                return Err(error.duplicate());
            },
            None => {
                if probes[i].loaded {
                    return Err(VMStatus::error(StatusCode::DUPLICATE_MODULE_NAME, None));
                }
            },
        }
        i += 1;
    }
    Ok(())
}

} // verus!
