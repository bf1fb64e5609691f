//! The reflection-table addin: a plugin declares its name, its properties and its
//! methods as tables, and an adapter derives every raw operation from them.
use vstd::prelude::*;

use crate::addin::{self, Connection, DEFAULT_PROTOCOL_VERSION};
use crate::names::{is_first_match, same_units};
use crate::variant::{ParamValue, Value, Variant};

verus! {

/// The call shape of a method: how many parameters its handler takes.
#[derive(Clone, Copy, PartialEq, Eq, Structural, Debug)]
pub enum Methods {
    Method0,
    Method1,
    Method2,
    Method3,
    Method4,
    Method5,
    Method6,
    Method7,
}

impl Methods {
    /// The number of parameters of this shape.
    pub open spec fn arity(&self) -> nat {
        match self {
            Methods::Method0 => 0,
            Methods::Method1 => 1,
            Methods::Method2 => 2,
            Methods::Method3 => 3,
            Methods::Method4 => 4,
            Methods::Method5 => 5,
            Methods::Method6 => 6,
            Methods::Method7 => 7,
        }
    }

    /// The number of parameters of this shape.
    pub fn params(&self) -> (r: usize)
        ensures
            r == self.arity(),
    {
        match self {
            Methods::Method0 => 0,
            Methods::Method1 => 1,
            Methods::Method2 => 2,
            Methods::Method3 => 3,
            Methods::Method4 => 4,
            Methods::Method5 => 5,
            Methods::Method6 => 6,
            Methods::Method7 => 7,
        }
    }

    /// Calls the handler of method `method` of `addin` with the first `arity` values of
    /// `params`; the values after them are not handed over and stay as they are. Fewer
    /// values than that fail the call before the handler runs.
    pub fn call<T: Addin>(
        &self,
        addin: &mut T,
        method: usize,
        params: &mut [Variant],
        val: &mut Variant,
    ) -> (r: bool)
        ensures
            old(params)@.len() < self.arity() ==> {
                &&& !r
                &&& *final(addin) == *old(addin)
                &&& final(params)@ == old(params)@
                &&& *final(val) == *old(val)
            },
            old(params)@.len() >= self.arity() ==> exists|head: Seq<Variant>|
                #![trigger head.len()]
                final(params)@ == head + old(params)@.subrange(self.arity() as int, old(params)@.len() as int),
    {
        let n = self.params();
        if params.len() < n {
            return false;
        }
        let head = leading_params(params, n);
        addin.call_method(method, head, val)
    }
}

/// The first `n` values of `params`, handed out to be written; the values after them
/// stay as they are.
pub fn leading_params(params: &mut [Variant], n: usize) -> (head: &mut [Variant])
    requires
        n <= old(params)@.len(),
    ensures
        head@ == old(params)@.subrange(0, n as int),
        final(params)@ == final(head)@ + old(params)@.subrange(n as int, old(params)@.len() as int),
{
    let (head, rest) = params.split_at_mut(n);
    head
}

/// A method of a reflection-table addin.
pub struct MethodInfo {
    /// Null-terminated UTF-16 name.
    pub name: Vec<u16>,
    /// Call shape.
    pub method: Methods,
}

/// A property of a reflection-table addin.
pub struct PropInfo {
    /// Null-terminated UTF-16 name.
    pub name: Vec<u16>,
    /// Whether the addin serves reads of the property.
    pub getter: bool,
    /// Whether the addin serves writes of the property.
    pub setter: bool,
}

/// The surface of a reflection-table addin: its tables and one handler per table.
#[allow(unused_variables)]
pub trait Addin {
    /// The extension's null-terminated UTF-16 name.
    fn name() -> Vec<u16>;

    /// The protocol version the addin follows.
    fn get_info() -> u16 {
        DEFAULT_PROTOCOL_VERSION
    }

    /// The methods, in index order.
    fn methods() -> Vec<MethodInfo> {
        Vec::new()
    }

    /// The properties, in index order.
    fn properties() -> Vec<PropInfo> {
        Vec::new()
    }

    /// Other names of method `method`, each null-terminated UTF-16; alias `k + 1` of
    /// the method is the `k`-th of them.
    fn method_aliases(method: usize) -> Vec<Vec<u16>> {
        Vec::new()
    }

    /// Whether method `method` returns a value.
    fn has_return(method: usize) -> bool {
        true
    }

    /// The default value of parameter `param` of method `method`, if it has one.
    fn param_default(method: usize, param: usize) -> Option<ParamValue> {
        None
    }

    /// Attaches the host's connection; `false` refuses the attachment.
    fn init(&mut self, connection: Connection) -> bool {
        true
    }

    /// Reads property `prop` into `val`; called only for a property with a getter.
    fn get_prop(&mut self, prop: usize, val: &mut Variant) -> bool {
        false
    }

    /// Writes `val` into property `prop`; called only for a property with a setter.
    fn set_prop(&mut self, prop: usize, val: &ParamValue) -> bool {
        false
    }

    /// Runs method `method` on exactly as many parameters as its shape takes, writing
    /// its result into `ret`.
    fn call_method(&mut self, method: usize, params: &mut [Variant], ret: &mut Variant) -> bool {
        false
    }
}

/// The names of a property table, in index order.
pub open spec fn prop_names(props: Seq<PropInfo>) -> Seq<Seq<u16>> {
    props.map_values(|p: PropInfo| p.name@)
}

/// What a reflection-table addin declares of one method.
pub struct MethodEntry {
    /// Null-terminated UTF-16 name.
    pub name: Vec<u16>,
    /// Call shape.
    pub method: Methods,
    /// Other names of the method.
    pub aliases: Vec<Vec<u16>>,
    /// Whether the method returns a value.
    pub returns: bool,
    /// Default value of each parameter, where it has one.
    pub defaults: Vec<Option<ParamValue>>,
}

/// Whether `name` is the method's name or one of its aliases.
pub open spec fn known_as(e: MethodEntry, name: Seq<u16>) -> bool {
    e.name@ == name || exists|k: int| 0 <= k < e.aliases@.len() && #[trigger] e.aliases@[k]@ == name
}

/// The name that alias index `alias` picks for a method: 0 and any index past its
/// aliases give the primary name.
pub open spec fn alias_name(e: MethodEntry, alias: usize) -> Seq<u16> {
    if 1 <= alias <= e.aliases@.len() {
        e.aliases@[alias - 1]@
    } else {
        e.name@
    }
}

/// The default value of parameter `param` of a method, if it declares one.
pub open spec fn default_of(e: MethodEntry, param: usize) -> Option<Value> {
    if param < e.defaults@.len() {
        match e.defaults@[param as int] {
            Some(v) => Some(v@),
            None => None,
        }
    } else {
        None
    }
}

/// A reflection-table addin together with the tables it declared, answering the raw
/// contract from them.
pub struct AddInContainer<T> {
    addin: T,
    name: Vec<u16>,
    props: Vec<PropInfo>,
    methods: Vec<MethodEntry>,
}

/// The declarations of each method of `methods`: its name and shape as given, and its
/// aliases, return flag and parameter defaults as `T` declares them, one default slot
/// per parameter.
pub fn read_entries<T: Addin>(methods: Vec<MethodInfo>) -> (r: Vec<MethodEntry>)
    ensures
        r@.len() == methods@.len(),
        forall|i: int|
            0 <= i < r@.len() ==> (#[trigger] r@[i]).name@ == methods@[i].name@ && r@[i].method
                == methods@[i].method && r@[i].defaults@.len() == methods@[i].method.arity(),
{
    let mut entries: Vec<MethodEntry> = Vec::new();
    let mut i: usize = 0;
    while i < methods.len()
        invariant
            i <= methods@.len(),
            entries@.len() == i,
            forall|j: int|
                0 <= j < i ==> (#[trigger] entries@[j]).name@ == methods@[j].name@ && entries@[j].method
                    == methods@[j].method && entries@[j].defaults@.len() == methods@[j].method.arity(),
        decreases methods@.len() - i,
    {
        let n = methods[i].method.params();
        let mut defaults: Vec<Option<ParamValue>> = Vec::new();
        let mut p: usize = 0;
        while p < n
            invariant
                p <= n,
                defaults@.len() == p,
            decreases n - p,
        {
            defaults.push(T::param_default(i, p));
            p = p + 1;
        }
        let name = methods[i].name.clone();
        assert(name@ =~= methods@[i as int].name@);
        entries.push(
            MethodEntry {
                name,
                method: methods[i].method,
                aliases: T::method_aliases(i),
                returns: T::has_return(i),
                defaults,
            },
        );
        i = i + 1;
    }
    entries
}

impl<T: Addin> AddInContainer<T> {
    /// The wrapped addin.
    pub closed spec fn addin(&self) -> T {
        self.addin
    }

    /// The extension name.
    pub closed spec fn ext_name(&self) -> Seq<u16> {
        self.name@
    }

    /// The property table.
    pub closed spec fn props(&self) -> Seq<PropInfo> {
        self.props@
    }

    /// The method table.
    pub closed spec fn methods(&self) -> Seq<MethodEntry> {
        self.methods@
    }

    /// Wraps `add_in`, reading its tables once.
    pub fn new(add_in: T) -> (r: Self)
        ensures
            r.addin() == add_in,
    {
        let name = T::name();
        let props = T::properties();
        let methods = read_entries::<T>(T::methods());
        AddInContainer::from_tables(add_in, name, props, methods)
    }

    /// Wraps `add_in` with the tables it declared: its name, its properties and its
    /// methods, in index order.
    pub fn from_tables(add_in: T, name: Vec<u16>, props: Vec<PropInfo>, methods: Vec<MethodEntry>) -> (r: Self)
        ensures
            r.addin() == add_in,
            r.ext_name() == name@,
            r.props() == props@,
            r.methods() == methods@,
    {
        AddInContainer { addin: add_in, name, props, methods }
    }

    /// The extension's name.
    pub fn register_extension_as(&self) -> (r: Vec<u16>)
        ensures
            r@ == self.ext_name(),
    {
        let r = self.name.clone();
        assert(r@ =~= self.name@);
        r
    }

    /// The protocol version the addin follows.
    pub fn get_info(&self) -> u16 {
        T::get_info()
    }

    /// Number of properties.
    pub fn get_n_props(&self) -> (r: usize)
        ensures
            r == self.props().len(),
    {
        self.props.len()
    }

    /// Index of the first property named exactly `name`, terminator included.
    pub fn find_prop(&self, name: &[u16]) -> (r: Option<usize>)
        ensures
            is_first_match(prop_names(self.props()), name@, r),
    {
        let mut i: usize = 0;
        while i < self.props.len()
            invariant
                0 <= i <= self.props@.len(),
                forall|j: int| 0 <= j < i ==> prop_names(self.props@)[j] != name@,
            decreases self.props@.len() - i,
        {
            if same_units(self.props[i].name.as_slice(), name) {
                return Some(i);
            }
            i = i + 1;
        }
        None
    }

    /// Name of property `num`; there are no localised names, so every `alias` gives the
    /// primary name.
    pub fn get_prop_name(&self, num: usize, alias: usize) -> (r: Option<Vec<u16>>)
        ensures
            num < self.props().len() ==> (r matches Some(n) && n@ == self.props()[num as int].name@),
            num >= self.props().len() ==> r is None,
    {
        if num < self.props.len() {
            let n = self.props[num].name.clone();
            assert(n@ =~= self.props@[num as int].name@);
            Some(n)
        } else {
            None
        }
    }

    /// Whether property `num` exists and has a getter.
    pub fn is_prop_readable(&self, num: usize) -> (r: bool)
        ensures
            r == (num < self.props().len() && self.props()[num as int].getter),
    {
        num < self.props.len() && self.props[num].getter
    }

    /// Whether property `num` exists and has a setter.
    pub fn is_prop_writable(&self, num: usize) -> (r: bool)
        ensures
            r == (num < self.props().len() && self.props()[num as int].setter),
    {
        num < self.props.len() && self.props[num].setter
    }

    /// Reads property `num` into `val` through the addin's getter. A property that does
    /// not exist or has no getter fails, and no handler runs.
    pub fn get_prop_val(&mut self, num: usize, val: &mut Variant) -> (r: bool)
        ensures
            final(self).ext_name() == old(self).ext_name(),
            final(self).props() == old(self).props(),
            final(self).methods() == old(self).methods(),
            !(num < old(self).props().len() && old(self).props()[num as int].getter) ==> {
                &&& !r
                &&& final(self).addin() == old(self).addin()
                &&& *final(val) == *old(val)
            },
    {
        if num < self.props.len() && self.props[num].getter {
            self.addin.get_prop(num, val)
        } else {
            false
        }
    }

    /// Writes `val` into property `num` through the addin's setter. A property that does
    /// not exist or has no setter fails, and no handler runs.
    pub fn set_prop_val(&mut self, num: usize, val: &ParamValue) -> (r: bool)
        ensures
            final(self).ext_name() == old(self).ext_name(),
            final(self).props() == old(self).props(),
            final(self).methods() == old(self).methods(),
            !(num < old(self).props().len() && old(self).props()[num as int].setter) ==> {
                &&& !r
                &&& final(self).addin() == old(self).addin()
            },
    {
        if num < self.props.len() && self.props[num].setter {
            self.addin.set_prop(num, val)
        } else {
            false
        }
    }

    /// Number of methods.
    pub fn get_n_methods(&self) -> (r: usize)
        ensures
            r == self.methods().len(),
    {
        self.methods.len()
    }

    /// Index of the first method whose name or one of whose aliases is exactly `name`,
    /// terminator included.
    pub fn find_method(&self, name: &[u16]) -> (r: Option<usize>)
        ensures
            r matches Some(i) ==> i < self.methods().len() && known_as(self.methods()[i as int], name@)
                && forall|j: int| 0 <= j < i ==> !known_as(#[trigger] self.methods()[j], name@),
            r is None ==> forall|j: int|
                0 <= j < self.methods().len() ==> !known_as(#[trigger] self.methods()[j], name@),
    {
        let mut i: usize = 0;
        while i < self.methods.len()
            invariant
                0 <= i <= self.methods@.len(),
                forall|j: int| 0 <= j < i ==> !known_as(#[trigger] self.methods@[j], name@),
            decreases self.methods@.len() - i,
        {
            if self.known_as(i, name) {
                return Some(i);
            }
            i = i + 1;
        }
        None
    }

    /// Whether method `i` is named `name` or has it as an alias.
    fn known_as(&self, i: usize, name: &[u16]) -> (r: bool)
        requires
            i < self.methods@.len(),
        ensures
            r == known_as(self.methods@[i as int], name@),
    {
        if same_units(self.methods[i].name.as_slice(), name) {
            return true;
        }
        let ghost e = self.methods@[i as int];
        let aliases = &self.methods[i].aliases;
        let mut k: usize = 0;
        while k < aliases.len()
            invariant
                0 <= k <= aliases@.len(),
                self.methods@[i as int].name@ != name@,
                aliases@ == e.aliases@,
                e == self.methods@[i as int],
                forall|j: int| 0 <= j < k ==> aliases@[j]@ != name@,
            decreases aliases@.len() - k,
        {
            if same_units(aliases[k].as_slice(), name) {
                assert(e.aliases@[k as int]@ == name@);
                return true;
            }
            k = k + 1;
        }
        false
    }

    /// Name of method `num` under alias index `alias`: 0, and any index past the
    /// method's aliases, give its primary name.
    pub fn get_method_name(&self, num: usize, alias: usize) -> (r: Option<Vec<u16>>)
        ensures
            num < self.methods().len() ==> (r matches Some(n) && n@ == alias_name(self.methods()[num as int], alias)),
            num >= self.methods().len() ==> r is None,
    {
        if num < self.methods.len() {
            let aliases = &self.methods[num].aliases;
            let n = if 1 <= alias && alias <= aliases.len() {
                aliases[alias - 1].clone()
            } else {
                self.methods[num].name.clone()
            };
            assert(n@ =~= alias_name(self.methods@[num as int], alias));
            Some(n)
        } else {
            None
        }
    }

    /// Whether method `num` exists and returns a value.
    pub fn has_ret_val(&self, num: usize) -> (r: bool)
        ensures
            r == (num < self.methods().len() && self.methods()[num as int].returns),
    {
        num < self.methods.len() && self.methods[num].returns
    }

    /// Writes the default value of parameter `param` of method `method` into `val`. A
    /// parameter without a default value fails and leaves `val` as it is.
    pub fn get_param_def_value(&self, method: usize, param: usize, val: &mut Variant) -> (r: bool)
        ensures
            method < self.methods().len() && default_of(self.methods()[method as int], param) is Some ==> r
                && final(val).written() == default_of(self.methods()[method as int], param),
            !(method < self.methods().len() && default_of(self.methods()[method as int], param) is Some)
                ==> !r && *final(val) == *old(val),
    {
        if method < self.methods.len() {
            let defaults = &self.methods[method].defaults;
            if param < defaults.len() {
                if let Some(v) = &defaults[param] {
                    val.set(v.duplicate());
                    return true;
                }
            }
        }
        false
    }

    /// Number of parameters of method `num`; 0 for a method that does not exist.
    pub fn get_n_params(&self, num: usize) -> (r: usize)
        ensures
            num < self.methods().len() ==> r == self.methods()[num as int].method.arity(),
            num >= self.methods().len() ==> r == 0,
    {
        if num < self.methods.len() {
            self.methods[num].method.params()
        } else {
            0
        }
    }

    /// Calls method `num` and discards what it returns: the result goes to a value of
    /// its own that is never handed back to the host. Fails, with no handler run, for a
    /// method that does not exist or when fewer parameters than its shape takes are given.
    /// Otherwise the handler gets the leading parameters, and the rest stay as they are.
    pub fn call_as_proc(&mut self, num: usize, params: &mut [Variant]) -> (r: bool)
        ensures
            final(self).ext_name() == old(self).ext_name(),
            final(self).props() == old(self).props(),
            final(self).methods() == old(self).methods(),
            num >= old(self).methods().len() || old(params)@.len() < old(self).methods()[num as int].method.arity()
                ==> {
                &&& !r
                &&& final(self).addin() == old(self).addin()
                &&& final(params)@ == old(params)@
            },
            num < old(self).methods().len() && old(params)@.len() >= old(self).methods()[num as int].method.arity()
                ==> exists|head: Seq<Variant>|
                #![trigger head.len()]
                final(params)@ == head + old(params)@.subrange(
                    old(self).methods()[num as int].method.arity() as int,
                    old(params)@.len() as int,
                ),
    {
        if num < self.methods.len() {
            let shape = self.methods[num].method;
            let mut discarded = Variant::new(ParamValue::Empty);
            shape.call(&mut self.addin, num, params, &mut discarded)
        } else {
            false
        }
    }

    /// Calls method `num`, writing its result into `val` when the call succeeds. Fails,
    /// with no handler run, for a method that does not exist or returns no value, and when
    /// fewer parameters than its shape takes are given. Otherwise the handler gets the
    /// leading parameters, and the rest stay as they are. The handler writes into a result
    /// of its own, and `val` takes it only when the handler succeeds: a failed call leaves
    /// `val` as it was.
    pub fn call_as_func(&mut self, num: usize, params: &mut [Variant], val: &mut Variant) -> (r: bool)
        ensures
            final(self).ext_name() == old(self).ext_name(),
            final(self).props() == old(self).props(),
            final(self).methods() == old(self).methods(),
            num >= old(self).methods().len() || !old(self).methods()[num as int].returns
                || old(params)@.len() < old(self).methods()[num as int].method.arity() ==> {
                &&& !r
                &&& final(self).addin() == old(self).addin()
                &&& final(params)@ == old(params)@
                &&& *final(val) == *old(val)
            },
            num < old(self).methods().len() && old(self).methods()[num as int].returns
                && old(params)@.len() >= old(self).methods()[num as int].method.arity()
                ==> exists|head: Seq<Variant>|
                #![trigger head.len()]
                final(params)@ == head + old(params)@.subrange(
                    old(self).methods()[num as int].method.arity() as int,
                    old(params)@.len() as int,
                ),
            !r ==> *final(val) == *old(val),
    {
        if num < self.methods.len() && self.methods[num].returns {
            let shape = self.methods[num].method;
            let mut result = Variant::new(val.get());
            let ok = shape.call(&mut self.addin, num, params, &mut result);
            if ok {
                *val = result;
            }
            ok
        } else {
            false
        }
    }
}

#[allow(unused_variables)]
impl<T: Addin> addin::Addin for AddInContainer<T> {
    fn init(&mut self, connection: Connection) -> bool {
        self.addin.init(connection)
    }

    fn get_info(&mut self) -> u16 {
        AddInContainer::<T>::get_info(self)
    }

    fn register_extension_as(&mut self) -> Vec<u16> {
        AddInContainer::<T>::register_extension_as(self)
    }

    fn get_n_props(&mut self) -> usize {
        AddInContainer::<T>::get_n_props(self)
    }

    fn find_prop(&mut self, name: &[u16]) -> Option<usize> {
        AddInContainer::<T>::find_prop(self, name)
    }

    fn get_prop_name(&mut self, num: usize, alias: usize) -> Option<Vec<u16>> {
        AddInContainer::<T>::get_prop_name(self, num, alias)
    }

    fn get_prop_val(&mut self, num: usize, val: &mut Variant) -> bool {
        AddInContainer::<T>::get_prop_val(self, num, val)
    }

    fn set_prop_val(&mut self, num: usize, val: &ParamValue) -> bool {
        AddInContainer::<T>::set_prop_val(self, num, val)
    }

    fn is_prop_readable(&mut self, num: usize) -> bool {
        AddInContainer::<T>::is_prop_readable(self, num)
    }

    fn is_prop_writable(&mut self, num: usize) -> bool {
        AddInContainer::<T>::is_prop_writable(self, num)
    }

    fn get_n_methods(&mut self) -> usize {
        AddInContainer::<T>::get_n_methods(self)
    }

    fn find_method(&mut self, name: &[u16]) -> Option<usize> {
        AddInContainer::<T>::find_method(self, name)
    }

    fn get_method_name(&mut self, num: usize, alias: usize) -> Option<Vec<u16>> {
        AddInContainer::<T>::get_method_name(self, num, alias)
    }

    fn get_n_params(&mut self, num: usize) -> usize {
        AddInContainer::<T>::get_n_params(self, num)
    }

    fn get_param_def_value(&mut self, method_num: usize, param_num: usize, value: &mut Variant) -> bool {
        AddInContainer::<T>::get_param_def_value(self, method_num, param_num, value)
    }

    fn has_ret_val(&mut self, method_num: usize) -> bool {
        AddInContainer::<T>::has_ret_val(self, method_num)
    }

    fn call_as_proc(&mut self, method_num: usize, params: &mut [Variant]) -> bool {
        AddInContainer::<T>::call_as_proc(self, method_num, params)
    }

    fn call_as_func(&mut self, method_num: usize, params: &mut [Variant], val: &mut Variant) -> bool {
        AddInContainer::<T>::call_as_func(self, method_num, params, val)
    }
}

} // verus!
