//! Validating and applying an enable/disable request. Recompiling the
//! manifest and handing it to the container runtime follow; a failure there
//! does not undo the configuration change, which can simply be re-applied.

use vstd::prelude::*;
use crate::config::{Config, same_text};
use crate::error::StoreError;
use crate::services::{ServiceKind, get_all_services, is_registered, kind_name, registry};

verus! {

/// The disabled set after an enable (`enable == true`) or disable request for `name`.
pub open spec fn toggled(disabled: Set<Seq<char>>, name: Seq<char>, enable: bool) -> Set<Seq<char>> {
    if enable {
        disabled.remove(name)
    } else {
        disabled.insert(name)
    }
}

/// The registered service called `name`, if any.
pub fn find_service(name: &str) -> (r: Option<ServiceKind>)
    ensures
        r is Some <==> is_registered(name@),
        r is Some ==> kind_name(r->Some_0) == name@,
{
    let kinds = get_all_services();
    let mut i: usize = 0;
    while i < kinds.len()
        invariant
            i <= kinds@.len(),
            kinds@ == registry(),
            forall|j: int| 0 <= j < i ==> kind_name(#[trigger] registry()[j]) != name@,
        decreases kinds@.len() - i,
    {
        if same_text(kinds[i].name(), name) {
            return Some(kinds[i]);
        }
        i = i + 1;
    }
    None
}

/// Validates and applies an enable or disable request. A name that matches no
/// registered service is reported as `NotFound` and leaves the configuration
/// as it was; otherwise the disabled set is updated and the service returned.
pub fn toggle_service(config: &mut Config, name: &str, enable: bool) -> (r: Result<
    ServiceKind,
    StoreError,
>)
    ensures
        !is_registered(name@) ==> r == Err::<ServiceKind, StoreError>(StoreError::NotFound)
            && final(config)@ == old(config)@,
        is_registered(name@) ==> r is Ok && kind_name(r->Ok_0) == name@ && final(config)@
            == toggled(old(config)@, name@, enable),
{
    match find_service(name) {
        None => Err(StoreError::NotFound),
        Some(kind) => {
            if enable {
                config.enable_service(name);
            } else {
                config.disable_service(name);
            }
            Ok(kind)
        },
    }
}

/// Disabling and then enabling a service leaves it enabled, whatever the
/// disabled set held before.
pub proof fn lemma_disable_then_enable(disabled: Set<Seq<char>>, name: Seq<char>)
    ensures
        !toggled(toggled(disabled, name, false), name, true).contains(name),
        toggled(toggled(disabled, name, false), name, true) == disabled.remove(name),
{
    assert(toggled(toggled(disabled, name, false), name, true) =~= disabled.remove(name));
}

} // verus!
