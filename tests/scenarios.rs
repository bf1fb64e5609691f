use addin1c::envelope::{name_copy, settled_result};
use addin1c::memory::accept_block;
use addin1c::variant::SlotWrite;
use addin1c::{
    os_string, AddInContainer, Component, Connection, HostCall, MemoryManager, MethodInfo,
    Methods, ParamValue, PropInfo, SimpleAddin, TVariant, Variant,
};

/// A host allocator stand-in that counts its calls and grants a limited number of blocks.
struct CountingHost {
    frees: usize,
    allocs: usize,
    grants_left: usize,
    next_addr: usize,
    log: Vec<HostCall>,
}

impl CountingHost {
    fn new(grants: usize) -> CountingHost {
        CountingHost { frees: 0, allocs: 0, grants_left: grants, next_addr: 0x1000, log: Vec::new() }
    }

    /// Makes the host calls a slot asks for and closes it with the host's answer.
    fn settle(&mut self, v: SlotWrite) -> (TVariant, bool) {
        let mut answer = None;
        for call in v.host_calls() {
            self.log.push(call);
            match call {
                HostCall::Free { .. } => self.frees += 1,
                HostCall::Alloc { .. } => {
                    self.allocs += 1;
                    if self.grants_left > 0 {
                        self.grants_left -= 1;
                        self.next_addr += 0x100;
                        answer = accept_block(true, self.next_addr);
                    } else {
                        answer = accept_block(false, 0);
                    }
                }
            }
        }
        v.finish(answer)
    }
}

struct Counter {
    prop1: i32,
    text: Vec<u16>,
    handler_calls: usize,
}

impl SimpleAddin for Counter {
    fn name() -> Vec<u16> {
        os_string("Class2")
    }

    fn methods() -> Vec<MethodInfo> {
        vec![
            MethodInfo { name: os_string("Method1"), method: Methods::Method1 },
            MethodInfo { name: os_string("Method2"), method: Methods::Method2 },
        ]
    }

    fn method_aliases(method: usize) -> Vec<Vec<u16>> {
        match method {
            1 => vec![os_string("Sum")],
            _ => Vec::new(),
        }
    }

    fn param_default(method: usize, param: usize) -> Option<ParamValue> {
        match (method, param) {
            (1, 1) => Some(ParamValue::I32(100)),
            _ => None,
        }
    }

    fn properties() -> Vec<PropInfo> {
        vec![
            PropInfo { name: os_string("Prop1"), getter: true, setter: true },
            PropInfo { name: os_string("Text"), getter: true, setter: false },
        ]
    }

    fn get_prop(&mut self, prop: usize, val: &mut Variant) -> bool {
        self.handler_calls += 1;
        match prop {
            0 => {
                val.set_i32(self.prop1);
                true
            }
            1 => {
                val.set_str(&self.text);
                true
            }
            _ => false,
        }
    }

    fn set_prop(&mut self, prop: usize, val: &ParamValue) -> bool {
        self.handler_calls += 1;
        match (prop, val) {
            (0, ParamValue::I32(x)) => {
                self.prop1 = *x;
                true
            }
            _ => false,
        }
    }

    fn call_method(&mut self, method: usize, params: &mut [Variant], ret: &mut Variant) -> bool {
        self.handler_calls += 1;
        match method {
            0 => {
                let ParamValue::I32(x) = params[0].get() else { return false };
                self.prop1 = x;
                ret.set_i32(x * 2);
                true
            }
            1 => {
                let (ParamValue::I32(a), ParamValue::I32(b)) = (params[0].get(), params[1].get())
                else {
                    return false;
                };
                self.prop1 = a + b;
                ret.set_i32(a + b);
                true
            }
            _ => false,
        }
    }
}

fn counter() -> Counter {
    Counter { prop1: 0, text: os_string("hello"), handler_calls: 0 }
}

fn attached() -> Component<AddInContainer<Counter>> {
    let mut c = Component::new(AddInContainer::new(counter()));
    assert!(c.set_mem_manager(MemoryManager { addr: 0x10 }));
    assert!(c.init(Connection { addr: 0x20 }));
    c
}

fn read_prop(c: &mut Component<AddInContainer<Counter>>, host: &mut CountingHost, num: i64) -> (bool, TVariant) {
    read_prop_into(c, host, num, TVariant::Empty)
}

fn read_prop_into(
    c: &mut Component<AddInContainer<Counter>>,
    host: &mut CountingHost,
    num: i64,
    slot: TVariant,
) -> (bool, TVariant) {
    let (ok, write) = c.get_prop_val(num, slot);
    let (slot, written) = host.settle(write.unwrap());
    (settled_result(ok, written), slot)
}

fn call_func(
    c: &mut Component<AddInContainer<Counter>>,
    host: &mut CountingHost,
    num: i64,
    args: Vec<TVariant>,
) -> (bool, TVariant) {
    let (ok, writes) = c.call_as_func(num, args, TVariant::Empty);
    let (params, ret) = writes.unwrap();
    let mut all = true;
    for p in params {
        all &= host.settle(p).1;
    }
    let (slot, written) = host.settle(ret);
    (settled_result(ok, all && written), slot)
}

#[test]
fn scenario_a_property_and_method() {
    let mut c = attached();
    let mut host = CountingHost::new(10);
    let prop = c.find_prop(&os_string("Prop1"));
    let method = c.find_method(&os_string("Method1"));
    assert_eq!(prop, 0);
    assert_eq!(method, 0);

    let (ok, slot) = read_prop(&mut c, &mut host, prop);
    assert!(ok);
    assert_eq!(slot, TVariant::I32(0));

    let (ok, slot) = call_func(&mut c, &mut host, method, vec![TVariant::I32(5)]);
    assert!(ok);
    assert_eq!(slot, TVariant::I32(10));

    let (ok, slot) = read_prop(&mut c, &mut host, prop);
    assert!(ok);
    assert_eq!(slot, TVariant::I32(5));
}

#[test]
fn scenario_b_allocator_exhausted() {
    let mut c = attached();
    let mut host = CountingHost::new(0);
    let prop = c.find_prop(&os_string("Text"));
    assert_eq!(prop, 1);
    let (ok, slot) = read_prop_into(&mut c, &mut host, prop, TVariant::I32(7));
    assert!(!ok);
    assert_eq!(slot, TVariant::I32(7));
    assert_eq!(slot.tag(), addin1c::variant::VTYPE_I4);
    assert_eq!(host.allocs, 1);
    assert_eq!(host.frees, 0);
}

#[test]
fn scenario_c_two_parameter_method() {
    let mut c = attached();
    let mut host = CountingHost::new(10);
    let method = c.find_method(&os_string("Method2"));
    assert_eq!(method, 1);
    assert_eq!(c.get_n_params(method), 2);
    let (ok, slot) = call_func(&mut c, &mut host, method, vec![TVariant::I32(3), TVariant::I32(4)]);
    assert!(ok);
    assert_eq!(slot, TVariant::I32(7));
}

#[test]
fn scenario_d_property_without_setter() {
    let mut adapter = AddInContainer::new(counter());
    assert!(!adapter.is_prop_writable(1));
    assert!(adapter.is_prop_readable(1));
    assert!(!adapter.set_prop_val(1, &ParamValue::I32(3)));
    let mut c = Component::new(adapter);
    assert!(c.set_mem_manager(MemoryManager { addr: 0x10 }));
    assert!(!c.is_prop_writable(1));
    assert!(!c.set_prop_val(1, &TVariant::I32(3)));
}

#[test]
fn set_without_setter_runs_no_handler() {
    let mut adapter = AddInContainer::new(counter());
    assert!(!adapter.set_prop_val(1, &ParamValue::I32(3)));
    assert!(!adapter.set_prop_val(9, &ParamValue::I32(3)));
    assert!(adapter.set_prop_val(0, &ParamValue::I32(3)));
    let mut v = Variant::new(ParamValue::Empty);
    assert!(adapter.get_prop_val(0, &mut v));
    assert_eq!(v.get(), ParamValue::I32(3));
}

#[test]
fn call_with_too_few_parameters_fails() {
    let mut c = attached();
    let mut host = CountingHost::new(10);
    let (ok, slot) = call_func(&mut c, &mut host, 1, vec![TVariant::I32(3)]);
    assert!(!ok);
    assert_eq!(slot, TVariant::Empty);
    let (ok, _) = call_func(&mut c, &mut host, 0, vec![]);
    assert!(!ok);
    assert!(host.log.is_empty());
}

#[test]
fn procedure_call_has_no_result_slot() {
    let mut c = attached();
    let (ok, writes) = c.call_as_proc(0, vec![TVariant::I32(9)]);
    assert!(ok);
    assert_eq!(writes.unwrap().len(), 1);
    let mut host = CountingHost::new(10);
    let (ok, slot) = read_prop(&mut c, &mut host, 0);
    assert!(ok);
    assert_eq!(slot, TVariant::I32(9));
}

#[test]
fn unknown_names_give_the_sentinel() {
    let mut c = attached();
    assert_eq!(c.find_prop(&os_string("prop1")), -1);
    assert_eq!(c.find_prop(&os_string("Prop")), -1);
    let mut unterminated = os_string("Prop1");
    unterminated.pop();
    assert_eq!(c.find_prop(&unterminated), -1);
    assert_eq!(c.find_method(&os_string("Method3")), -1);
    assert_eq!(c.find_method(&[]), -1);
    assert_eq!(c.get_n_props(), 2);
    assert_eq!(c.get_n_methods(), 2);
}

#[test]
fn names_are_copied_only_with_a_memory_manager() {
    let mut bare = Component::new(AddInContainer::new(counter()));
    assert!(bare.register_extension_as().is_none());
    assert!(bare.get_prop_name(0, 0).is_none());
    let mut c = attached();
    let ext = c.register_extension_as().unwrap();
    assert_eq!(ext.units, os_string("Class2"));
    assert_eq!(ext.request, HostCall::Alloc { bytes: 14 });
    let name = c.get_method_name(1, 5).unwrap();
    assert_eq!(name.units, os_string("Method2"));
    assert_eq!(c.get_method_name(1, 1).unwrap().units, os_string("Sum"));
    assert_eq!(c.get_method_name(1, -1).unwrap().units, os_string("Method2"));
    assert_eq!(c.get_prop_name(0, -2).unwrap().units, os_string("Prop1"));
    let copy = name_copy(MemoryManager { addr: 0x10 }, os_string("Ab")).unwrap();
    assert_eq!(copy.request, HostCall::Alloc { bytes: 6 });
    assert_eq!(copy.units, os_string("Ab"));
    assert!(c.get_prop_name(2, 0).is_none());
    assert!(c.get_prop_name(-1, 0).is_none());
}

#[test]
fn entries_without_memory_manager_fail() {
    let mut c = Component::new(AddInContainer::new(counter()));
    assert!(c.memory_manager().is_none());
    let (ok, w) = c.get_prop_val(0, TVariant::Empty);
    assert!(!ok && w.is_none());
    let (ok, w) = c.call_as_func(0, vec![TVariant::I32(1)], TVariant::Empty);
    assert!(!ok && w.is_none());
    let (ok, w) = c.call_as_proc(0, vec![TVariant::I32(1)]);
    assert!(!ok && w.is_none());
    let (ok, w) = c.get_param_def_value(1, 1, TVariant::Empty);
    assert!(!ok && w.is_none());
}

#[test]
fn aliases_defaults_and_results() {
    let mut c = attached();
    let mut host = CountingHost::new(10);
    assert_eq!(c.find_method(&os_string("Sum")), 1);
    assert!(c.has_ret_val(0));
    assert!(!c.has_ret_val(5));
    let (ok, w) = c.get_param_def_value(1, 1, TVariant::Empty);
    assert!(ok);
    assert_eq!(host.settle(w.unwrap()), (TVariant::I32(100), true));
    let (ok, w) = c.get_param_def_value(1, 0, TVariant::Empty);
    assert!(!ok);
    assert!(!w.unwrap().is_modified());
    let (ok, slot) = call_func(&mut c, &mut host, 1, vec![TVariant::I32(3), TVariant::I32(4), TVariant::I32(5)]);
    assert!(ok);
    assert_eq!(slot, TVariant::I32(7));
}

struct NoResult;

impl SimpleAddin for NoResult {
    fn name() -> Vec<u16> {
        os_string("NoResult")
    }

    fn methods() -> Vec<MethodInfo> {
        vec![MethodInfo { name: os_string("Run"), method: Methods::Method0 }]
    }

    fn has_return(_method: usize) -> bool {
        false
    }
}

#[test]
fn function_call_needs_a_returning_method() {
    let mut a = AddInContainer::new(NoResult);
    assert!(!a.has_ret_val(0));
    let mut ret = Variant::new(ParamValue::Empty);
    assert!(!a.call_as_func(0, &mut [], &mut ret));
    assert!(!ret.is_modified());
}

struct Flaky;

impl SimpleAddin for Flaky {
    fn name() -> Vec<u16> {
        os_string("Flaky")
    }

    fn methods() -> Vec<MethodInfo> {
        vec![MethodInfo { name: os_string("Fail"), method: Methods::Method0 }]
    }

    fn call_method(&mut self, _method: usize, _params: &mut [Variant], ret: &mut Variant) -> bool {
        ret.set_i32(99);
        false
    }
}

#[test]
fn failed_function_call_leaves_result_slot() {
    let mut a = AddInContainer::new(Flaky);
    let mut ret = Variant::new(ParamValue::I32(1));
    assert!(!a.call_as_func(0, &mut [], &mut ret));
    assert!(!ret.is_modified());
    assert_eq!(ret.get(), ParamValue::I32(1));

    let mut c = Component::new(AddInContainer::new(Flaky));
    assert!(c.set_mem_manager(MemoryManager { addr: 0x10 }));
    let (ok, writes) = c.call_as_func(0, vec![], TVariant::I32(1));
    assert!(!ok);
    let (_, ret) = writes.unwrap();
    assert!(!ret.is_modified());
}

#[test]
fn tables_are_taken_as_declared() {
    let entries = addin1c::simple::read_entries::<Counter>(Counter::methods());
    assert_eq!(entries.len(), 2);
    assert_eq!(entries[1].aliases, vec![os_string("Sum")]);
    assert_eq!(entries[1].defaults.len(), 2);
    let a = AddInContainer::from_tables(counter(), os_string("X"), Counter::properties(), entries);
    assert_eq!(a.register_extension_as(), os_string("X"));
    assert_eq!(a.get_n_methods(), 2);
    assert_eq!(a.find_method(&os_string("Sum")), Some(1));
}
