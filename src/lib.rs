//! Verified codec and message router for the System-Exclusive protocol of
//! the Korg nanoKONTROL2 control surface.

pub mod connection;
pub mod data;
pub mod enums;
pub mod error;
pub mod layout;
pub mod parameters;
pub mod scene_proofs;

use vstd::prelude::*;

use data::Data;
use enums::TransportButton;
use parameters::{ButtonParameters, Parameters};

pub use error::Error;

verus! {

/// What the library knows of one controller: its scene settings and the last
/// value received from each control.
#[derive(Debug, Copy, Clone, PartialEq, Eq)]
pub struct KorgNanokontrol2 {
    pub parameters: Parameters,
    pub data: Data,
}

/// Number of zero bits among the lowest `n` bits of `x`.
pub open spec fn zero_bits_below(x: u8, n: nat) -> nat
    decreases n,
{
    if n == 0 {
        0
    } else {
        zero_bits_below(x, (n - 1) as nat) + if (x >> ((n - 1) as u8)) & 1 == 0 {
            1nat
        } else {
            0nat
        }
    }
}

/// Number of zero bits of `x`.
pub open spec fn zero_bits(x: u8) -> nat {
    zero_bits_below(x, 8)
}

/// Whether a button whose settings are `b` is on when it sends `value`: off
/// at its off value, on at its on value, and otherwise whichever of the two
/// shares more bits with `value`, off on a tie.
pub open spec fn button_state(value: u8, b: ButtonParameters) -> bool {
    if value == b.off_value {
        false
    } else if value == b.on_value {
        true
    } else {
        zero_bits(value ^ b.off_value) < zero_bits(value ^ b.on_value)
    }
}

/// The number of zero bits of `x`.
pub fn count_zeros(x: u8) -> (r: u32)
    ensures
        r == zero_bits(x),
{
    let mut count: u32 = 0;
    let mut i: u8 = 0;
    while i < 8
        invariant
            i <= 8,
            count == zero_bits_below(x, i as nat),
            count <= i,
        decreases 8 - i,
    {
        if (x >> i) & 1 == 0 {
            count = count + 1;
        }
        i = i + 1;
    }
    count
}

/// Whether a button is on, judged from the value it sent and its settings.
pub fn get_button_state(value: u8, button_parameters: &ButtonParameters) -> (r: bool)
    ensures
        r == button_state(value, *button_parameters),
{
    let off_value = button_parameters.off_value;
    let on_value = button_parameters.on_value;
    if value == off_value {
        false
    } else if value == on_value {
        true
    } else {
        let off_distance = count_zeros(value ^ off_value);
        let on_distance = count_zeros(value ^ on_value);
        off_distance < on_distance
    }
}

impl KorgNanokontrol2 {
    /// The last value received from the slider of a channel strip.
    pub fn get_slider_value_raw(&self, group_index: usize) -> (r: u8)
        requires
            group_index < 8,
        ensures
            r == self.data.groups@[group_index as int].slider_value,
    {
        self.data.groups[group_index].slider_value
    }

    /// The last value received from the knob of a channel strip.
    pub fn get_knob_value_raw(&self, group_index: usize) -> (r: u8)
        requires
            group_index < 8,
        ensures
            r == self.data.groups@[group_index as int].knob_value,
    {
        self.data.groups[group_index].knob_value
    }

    /// Whether a transport button is on.
    pub fn get_transport_button_state(&self, button_type: TransportButton) -> (r: bool)
        ensures
            r == button_state(
                self.data.transport(button_type),
                self.parameters.transport(button_type),
            ),
    {
        let value = self.data.get_transport_button_value(button_type);
        let button_parameters = self.parameters.get_transport_button_parameters(button_type);
        get_button_state(value, button_parameters)
    }

    /// Whether the solo button of a channel strip is on.
    pub fn get_solo_button_state(&self, group_index: usize) -> (r: bool)
        requires
            group_index < 8,
        ensures
            r == button_state(
                self.data.groups@[group_index as int].solo,
                self.parameters.groups@[group_index as int].solo_button,
            ),
    {
        let value = self.data.groups[group_index].solo;
        let button_parameters = &self.parameters.groups[group_index].solo_button;
        get_button_state(value, button_parameters)
    }

    /// Whether the mute button of a channel strip is on.
    pub fn get_mute_button_state(&self, group_index: usize) -> (r: bool)
        requires
            group_index < 8,
        ensures
            r == button_state(
                self.data.groups@[group_index as int].mute,
                self.parameters.groups@[group_index as int].mute_button,
            ),
    {
        let value = self.data.groups[group_index].mute;
        let button_parameters = &self.parameters.groups[group_index].mute_button;
        get_button_state(value, button_parameters)
    }

    /// Whether the record button of a channel strip is on.
    pub fn get_record_button_state(&self, group_index: usize) -> (r: bool)
        requires
            group_index < 8,
        ensures
            r == button_state(
                self.data.groups@[group_index as int].record,
                self.parameters.groups@[group_index as int].record_button,
            ),
    {
        let value = self.data.groups[group_index].record;
        let button_parameters = &self.parameters.groups[group_index].record_button;
        get_button_state(value, button_parameters)
    }
}

} // verus!
