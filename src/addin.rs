//! The raw addin contract: every operation of the extension table, written by hand by
//! the plugin or derived by the reflection adapter.
use vstd::prelude::*;

use crate::variant::{ParamValue, Variant};

verus! {

/// The host's connection object, received at `init` and usable until `done`.
#[derive(Clone, Copy, PartialEq, Eq, Structural, Debug)]
pub struct Connection {
    /// Address of the host's connection object.
    pub addr: usize,
}

/// Protocol version that an addin reports unless it says otherwise.
pub const DEFAULT_PROTOCOL_VERSION: u16 = 2000;

/// The operations a plugin serves the host through its capability tables.
///
/// Names are null-terminated UTF-16, terminator included. Indexes count from 0.
#[allow(unused_variables)]
pub trait Addin {
    /// Attaches the host's connection; `false` refuses the attachment.
    fn init(&mut self, connection: Connection) -> bool {
        true
    }

    /// The protocol version the addin follows (2000 by default; 1000 is not to be used,
    /// because the host then creates objects statically).
    fn get_info(&mut self) -> u16 {
        DEFAULT_PROTOCOL_VERSION
    }

    /// Called before the host destroys the component.
    fn done(&mut self) {
    }

    /// The extension's name.
    fn register_extension_as(&mut self) -> Vec<u16>;

    /// Number of properties.
    fn get_n_props(&mut self) -> usize {
        0
    }

    /// Index of the property named `name`.
    fn find_prop(&mut self, name: &[u16]) -> Option<usize> {
        None
    }

    /// Name of property `num`; `alias` picks a localised name.
    fn get_prop_name(&mut self, num: usize, alias: usize) -> Option<Vec<u16>> {
        None
    }

    /// Writes the value of property `num` into `val`.
    fn get_prop_val(&mut self, num: usize, val: &mut Variant) -> bool {
        false
    }

    /// Sets property `num` to `val`.
    fn set_prop_val(&mut self, num: usize, val: &ParamValue) -> bool {
        false
    }

    /// Whether property `num` can be read.
    fn is_prop_readable(&mut self, num: usize) -> bool {
        false
    }

    /// Whether property `num` can be written.
    fn is_prop_writable(&mut self, num: usize) -> bool {
        false
    }

    /// Number of methods.
    fn get_n_methods(&mut self) -> usize {
        0
    }

    /// Index of the method named `name`.
    fn find_method(&mut self, name: &[u16]) -> Option<usize> {
        None
    }

    /// Name of method `num`; `alias` picks a localised name.
    fn get_method_name(&mut self, num: usize, alias: usize) -> Option<Vec<u16>> {
        None
    }

    /// Number of parameters of method `num`.
    fn get_n_params(&mut self, num: usize) -> usize {
        0
    }

    /// Writes the default value of parameter `param_num` of method `method_num`.
    fn get_param_def_value(&mut self, method_num: usize, param_num: usize, value: &mut Variant) -> bool {
        true
    }

    /// Whether method `method_num` returns a value.
    fn has_ret_val(&mut self, method_num: usize) -> bool {
        false
    }

    /// Calls method `method_num` as a procedure.
    fn call_as_proc(&mut self, method_num: usize, params: &mut [Variant]) -> bool {
        false
    }

    /// Calls method `method_num` as a function, writing its result into `val`.
    fn call_as_func(&mut self, method_num: usize, params: &mut [Variant], val: &mut Variant) -> bool {
        false
    }

    /// The host's locale.
    fn set_locale(&mut self, loc: &[u16]) {
    }

    /// The host's user interface language.
    fn set_user_interface_language_code(&mut self, lang: &[u16]) {
    }
}

} // verus!
