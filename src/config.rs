use vstd::prelude::*;
use crate::services::strs;

verus! {

/// Which services the operator has switched off. A service whose name is not
/// in the set is enabled; order and repetition carry no meaning.
#[derive(Debug, Clone)]
pub struct Config {
    pub disabled_services: Vec<String>,
}

impl View for Config {
    type V = Set<Seq<char>>;

    open spec fn view(&self) -> Set<Seq<char>> {
        strs(self.disabled_services@).to_set()
    }
}

/// Exact text equality of two string slices.
pub fn same_text(a: &str, b: &str) -> (r: bool)
    ensures
        r == (a@ == b@),
{
    String::from_str(a) == String::from_str(b)
}

impl Default for Config {
    fn default() -> (r: Config)
        ensures
            r@ == Set::<Seq<char>>::empty(),
    {
        let r = Config { disabled_services: Vec::new() };
        assert(r@ =~= Set::<Seq<char>>::empty());
        r
    }
}

impl Config {
    /// True unless `service_name` is in the disabled set.
    pub fn is_enabled(&self, service_name: &str) -> (r: bool)
        ensures
            r == !self@.contains(service_name@),
    {
        let target = String::from_str(service_name);
        let mut i: usize = 0;
        while i < self.disabled_services.len()
            invariant
                i <= self.disabled_services@.len(),
                target@ == service_name@,
                forall|j: int| 0 <= j < i ==> self.disabled_services@[j]@ != service_name@,
            decreases self.disabled_services@.len() - i,
        {
            if self.disabled_services[i] == target {
                assert(strs(self.disabled_services@)[i as int] == service_name@);
                return false;
            }
            i = i + 1;
        }
        assert(!strs(self.disabled_services@).contains(service_name@));
        true
    }

    /// Removes `service_name` from the disabled set; no effect when it is enabled already.
    pub fn enable_service(&mut self, service_name: &str)
        ensures
            final(self)@ == old(self)@.remove(service_name@),
    {
        let ghost old_names = strs(self.disabled_services@);
        let target = String::from_str(service_name);
        let mut kept: Vec<String> = Vec::new();
        let mut i: usize = 0;
        while i < self.disabled_services.len()
            invariant
                i <= self.disabled_services@.len(),
                old_names == strs(self.disabled_services@),
                target@ == service_name@,
                forall|x: Seq<char>|
                    strs(kept@).contains(x) <==> (exists|j: int|
                        0 <= j < i && old_names[j] == x && x != service_name@),
            decreases self.disabled_services@.len() - i,
        {
            if !(self.disabled_services[i] == target) {
                let ghost before = strs(kept@);
                kept.push(self.disabled_services[i].clone());
                assert(strs(kept@) =~= before.push(old_names[i as int]));
                assert forall|x: Seq<char>|
                    strs(kept@).contains(x) <==> (exists|j: int|
                        0 <= j < i + 1 && old_names[j] == x && x != service_name@) by {
                    if strs(kept@).contains(x) {
                        if x == old_names[i as int] {
                            assert(old_names[i as int] != service_name@);
                            assert(0 <= i < i + 1 && old_names[i as int] == x);
                        } else {
                            let k = choose|k: int| 0 <= k < strs(kept@).len() && strs(kept@)[k] == x;
                            assert(before[k] == x);
                            assert(before.contains(x));
                            let j = choose|j: int| 0 <= j < i && old_names[j] == x && x != service_name@;
                            assert(0 <= j < i + 1 && old_names[j] == x);
                        }
                    }
                    if exists|j: int| 0 <= j < i + 1 && old_names[j] == x && x != service_name@ {
                        let j = choose|j: int| 0 <= j < i + 1 && old_names[j] == x && x != service_name@;
                        if j == i {
                            assert(strs(kept@)[before.len() as int] == x);
                        } else {
                            assert(before.contains(x));
                            let k = choose|k: int| 0 <= k < before.len() && before[k] == x;
                            assert(strs(kept@)[k] == x);
                        }
                    }
                }
            } else {
                assert forall|x: Seq<char>|
                    strs(kept@).contains(x) <==> (exists|j: int|
                        0 <= j < i + 1 && old_names[j] == x && x != service_name@) by {
                    if exists|j: int| 0 <= j < i + 1 && old_names[j] == x && x != service_name@ {
                        let j = choose|j: int| 0 <= j < i + 1 && old_names[j] == x && x != service_name@;
                        assert(j != i);
                    }
                }
            }
            i = i + 1;
        }
        self.disabled_services = kept;
        assert(self@ =~= old_names.to_set().remove(service_name@)) by {
            assert forall|x: Seq<char>|
                self@.contains(x) <==> old_names.to_set().remove(service_name@).contains(x) by {
                if old_names.contains(x) && x != service_name@ {
                    let j = choose|j: int| 0 <= j < old_names.len() && old_names[j] == x;
                }
            }
        }
    }

    /// Adds `service_name` to the disabled set; no effect when it is disabled already.
    pub fn disable_service(&mut self, service_name: &str)
        ensures
            final(self)@ == old(self)@.insert(service_name@),
    {
        if self.is_enabled(service_name) {
            let ghost before = strs(self.disabled_services@);
            self.disabled_services.push(String::from_str(service_name));
            assert(strs(self.disabled_services@) =~= before.push(service_name@));
            assert(self@ =~= before.to_set().insert(service_name@)) by {
                assert forall|x: Seq<char>|
                    self@.contains(x) <==> before.to_set().insert(service_name@).contains(x) by {
                    let now = strs(self.disabled_services@);
                    if now.contains(x) && x != service_name@ {
                        let j = choose|j: int| 0 <= j < now.len() && now[j] == x;
                        assert(j < before.len());
                        assert(before[j] == x);
                    }
                    if before.contains(x) {
                        let j = choose|j: int| 0 <= j < before.len() && before[j] == x;
                        assert(now[j] == x);
                    }
                    if x == service_name@ {
                        assert(now[before.len() as int] == x);
                    }
                }
            }
        } else {
            assert(self@.insert(service_name@) =~= self@);
        }
    }
}

} // verus!
