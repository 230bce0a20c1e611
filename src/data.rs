//! The last values received from the controls.

use vstd::prelude::*;

use crate::enums::TransportButton;

verus! {

/// The last values received from one channel strip.
#[derive(Debug, Copy, Clone, PartialEq, Eq, Structural)]
pub struct GroupData {
    pub slider_value: u8,
    pub knob_value: u8,
    pub solo: u8,
    pub mute: u8,
    pub record: u8,
}

/// The last values received from every control.
#[derive(Debug, Copy, Clone, PartialEq, Eq)]
pub struct Data {
    pub track_rewind: u8,
    pub track_fastforward: u8,
    pub cycle: u8,
    pub set: u8,
    pub marker_rewind: u8,
    pub marker_fastforward: u8,
    pub rewind: u8,
    pub fastforward: u8,
    pub stop: u8,
    pub play: u8,
    pub record: u8,
    pub groups: [GroupData; 8],
}

impl Data {
    /// The last value received from a transport button.
    pub open spec fn transport(self, b: TransportButton) -> u8 {
        match b {
            TransportButton::TrackRewind => self.track_rewind,
            TransportButton::TrackFastforward => self.track_fastforward,
            TransportButton::Cycle => self.cycle,
            TransportButton::MarkerSet => self.set,
            TransportButton::MarkerRewind => self.marker_rewind,
            TransportButton::MarkerFastforward => self.marker_fastforward,
            TransportButton::Rewind => self.rewind,
            TransportButton::Fastforward => self.fastforward,
            TransportButton::Stop => self.stop,
            TransportButton::Play => self.play,
            TransportButton::Record => self.record,
        }
    }

    /// The last value received from a transport button.
    pub fn get_transport_button_value(&self, button_type: TransportButton) -> (r: u8)
        ensures
            r == self.transport(button_type),
    {
        match button_type {
            TransportButton::TrackRewind => self.track_rewind,
            TransportButton::TrackFastforward => self.track_fastforward,
            TransportButton::Cycle => self.cycle,
            TransportButton::MarkerSet => self.set,
            TransportButton::MarkerRewind => self.marker_rewind,
            TransportButton::MarkerFastforward => self.marker_fastforward,
            TransportButton::Rewind => self.rewind,
            TransportButton::Fastforward => self.fastforward,
            TransportButton::Stop => self.stop,
            TransportButton::Play => self.play,
            TransportButton::Record => self.record,
        }
    }
}

impl Default for GroupData {
    fn default() -> (r: GroupData)
        ensures
            r == (GroupData { slider_value: 0, knob_value: 0, solo: 0, mute: 0, record: 0 }),
    {
        GroupData { slider_value: 0, knob_value: 0, solo: 0, mute: 0, record: 0 }
    }
}

impl Default for Data {
    /// Nothing received yet: every value 0.
    fn default() -> (r: Data)
        ensures
            forall|b: TransportButton| #[trigger] r.transport(b) == 0,
            forall|i: int|
                0 <= i < 8 ==> #[trigger] r.groups@[i] == (GroupData {
                    slider_value: 0,
                    knob_value: 0,
                    solo: 0,
                    mute: 0,
                    record: 0,
                }),
    {
        Data {
            track_rewind: 0,
            track_fastforward: 0,
            cycle: 0,
            set: 0,
            marker_rewind: 0,
            marker_fastforward: 0,
            rewind: 0,
            fastforward: 0,
            stop: 0,
            play: 0,
            record: 0,
            groups: [GroupData::default(); 8],
        }
    }
}

} // verus!
