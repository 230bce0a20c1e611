//! Proofs that relate a scene to its packed bytes: the steps that
//! `Parameters::create_scene_dump` is verified with, and the law that
//! decoding inverts encoding.

use vstd::prelude::*;

use crate::connection::data_dump_message;
use crate::enums::TransportButton;
use crate::layout::{
    data_dump_index, lemma_data_dump_index, lemma_data_dump_index_distinct, same_outside,
    scene_byte, slot_holds, slot_is_clear, lemma_write_logical,
};
use crate::parameters::{
    button_at, group_at, slider_at, lemma_scene_data_bounds, scene_data, transport_button_at, transport_slot,
    ButtonParameters, ControllerGroupParameters, Parameters, SliderParameters, CONTROL_WIDTH,
    CUSTOM_DAW_ASSIGN, CUSTOM_DAW_ASSIGN_LEN, FIRST_GROUP, FIRST_TRANSPORT_BUTTON, GROUP_COUNT,
    GROUP_WIDTH, LOGICAL_LEN, SCENE_DATA_END, SCENE_DUMP_LEN, TRANSPORT_CHANNEL,
};

verus! {

/// The logical bytes `0..k` of `d` are those of `p`, the rest of `d` is 0.
pub open spec fn holds_prefix(d: Seq<u8>, p: Parameters, k: int) -> bool {
    &&& d.len() == SCENE_DUMP_LEN
    &&& forall|m: int| 0 <= m < k ==> #[trigger] d[data_dump_index(m)] == p.logical_byte(m)
    &&& forall|m: int| k <= m < LOGICAL_LEN ==> #[trigger] d[data_dump_index(m)] == 0
    &&& forall|j: int| 0 <= j < SCENE_DUMP_LEN && j % 8 == 0 ==> #[trigger] d[j] == 0
}

/// Filling the next slot of a prefix with the scene's own bytes extends it.
pub(crate) proof fn lemma_extend_prefix(before: Seq<u8>, after: Seq<u8>, p: Parameters, k: int, s: Seq<u8>)
    requires
        0 <= k,
        k + s.len() <= LOGICAL_LEN,
        holds_prefix(before, p, k),
        slot_holds(after, k, s),
        same_outside(before, after, k, s.len() as int),
        forall|o: int| 0 <= o < s.len() ==> p.logical_byte(k + o) == #[trigger] s[o],
    ensures
        holds_prefix(after, p, k + s.len()),
{
    lemma_data_dump_index_distinct();
    assert forall|m: int| 0 <= m < k + s.len() implies #[trigger] after[data_dump_index(m)]
        == p.logical_byte(m) by {
        if m >= k {
            assert(s[m - k] == p.logical_byte(k + (m - k)));
        }
    }
}

/// The logical bytes of channel strip `i` are its own.
pub(crate) proof fn lemma_group_bytes(p: Parameters, i: int)
    requires
        0 <= i < GROUP_COUNT,
    ensures
        forall|o: int|
            0 <= o < GROUP_WIDTH ==> p.logical_byte(FIRST_GROUP + GROUP_WIDTH * i + o)
                == #[trigger] p.groups@[i].bytes()[o],
{
    assert forall|o: int| 0 <= o < GROUP_WIDTH implies p.logical_byte(
        FIRST_GROUP + GROUP_WIDTH * i + o,
    ) == #[trigger] p.groups@[i].bytes()[o] by {
        let k = FIRST_GROUP + GROUP_WIDTH * i + o;
        assert((k - FIRST_GROUP) / GROUP_WIDTH as int == i);
        assert((k - FIRST_GROUP) % GROUP_WIDTH as int == o);
    }
}

/// The logical bytes of transport button `t` are its own.
pub(crate) proof fn lemma_transport_bytes(p: Parameters, t: int)
    requires
        0 <= t < 11,
    ensures
        forall|o: int|
            0 <= o < CONTROL_WIDTH ==> p.logical_byte(FIRST_TRANSPORT_BUTTON + CONTROL_WIDTH * t + o)
                == #[trigger] p.transport(transport_button_at(t)).bytes()[o],
{
    assert forall|o: int| 0 <= o < CONTROL_WIDTH implies p.logical_byte(
        FIRST_TRANSPORT_BUTTON + CONTROL_WIDTH * t + o,
    ) == #[trigger] p.transport(transport_button_at(t)).bytes()[o] by {
        let k = FIRST_TRANSPORT_BUTTON + CONTROL_WIDTH * t + o;
        assert((k - FIRST_TRANSPORT_BUTTON) / CONTROL_WIDTH as int == t);
        assert((k - FIRST_TRANSPORT_BUTTON) % CONTROL_WIDTH as int == o);
    }
}

/// Adding transport button `t` to a scene buffer filled up to it.
pub(crate) proof fn lemma_transport_step(before: Seq<u8>, after: Seq<u8>, p: Parameters, t: int)
    requires
        0 <= t < 11,
        holds_prefix(before, p, FIRST_TRANSPORT_BUTTON + CONTROL_WIDTH * t),
        slot_holds(
            after,
            FIRST_TRANSPORT_BUTTON + CONTROL_WIDTH * t,
            p.transport(transport_button_at(t)).bytes(),
        ),
        same_outside(before, after, FIRST_TRANSPORT_BUTTON + CONTROL_WIDTH * t, CONTROL_WIDTH as int),
    ensures
        holds_prefix(after, p, FIRST_TRANSPORT_BUTTON + CONTROL_WIDTH * (t + 1)),
{
    lemma_transport_bytes(p, t);
    lemma_extend_prefix(
        before,
        after,
        p,
        FIRST_TRANSPORT_BUTTON + CONTROL_WIDTH * t,
        p.transport(transport_button_at(t)).bytes(),
    );
}

/// A prefix is clear from its end on.
pub(crate) proof fn lemma_prefix_clear(d: Seq<u8>, p: Parameters, k: int, w: int)
    requires
        holds_prefix(d, p, k),
        0 <= k,
        k + w <= LOGICAL_LEN,
    ensures
        slot_is_clear(d, k, w),
{
}

/// Adding one logical byte to a scene buffer filled up to it.
pub(crate) proof fn lemma_byte_step(d: Seq<u8>, p: Parameters, k: int, v: u8)
    requires
        holds_prefix(d, p, k),
        0 <= k < LOGICAL_LEN,
        p.logical_byte(k) == v,
    ensures
        holds_prefix(d.update(data_dump_index(k), v), p, k + 1),
{
    lemma_data_dump_index_distinct();
    lemma_write_logical(d, k, v);
    lemma_extend_prefix(d, d.update(data_dump_index(k), v), p, k, seq![v]);
}

/// Each logical byte of a scene sits at its packed position.
pub(crate) proof fn lemma_scene_dump_logical(p: Parameters, k: int)
    requires
        0 <= k < LOGICAL_LEN,
    ensures
        p.scene_dump()[data_dump_index(k)] == p.logical_byte(k),
{
    lemma_data_dump_index(k);
    lemma_data_dump_index(LOGICAL_LEN - 1);
    lemma_data_dump_index_distinct();
}

/// A slider reads back from its own six logical bytes.
pub(crate) proof fn lemma_slider_reads_back(raw: Seq<u8>, k: int, s: SliderParameters)
    requires
        forall|o: int| 0 <= o < CONTROL_WIDTH ==> scene_byte(raw, k + o) == #[trigger] s.bytes()[o],
    ensures
        slider_at(raw, k) == s,
{
    assert(scene_byte(raw, k) == s.bytes()[0]);
    assert(scene_byte(raw, k + 2) == s.bytes()[2]);
    assert(scene_byte(raw, k + 3) == s.bytes()[3]);
    assert(scene_byte(raw, k + 4) == s.bytes()[4]);
}

/// A button reads back from its own six logical bytes.
pub(crate) proof fn lemma_button_reads_back(raw: Seq<u8>, k: int, b: ButtonParameters)
    requires
        forall|o: int| 0 <= o < CONTROL_WIDTH ==> scene_byte(raw, k + o) == #[trigger] b.bytes()[o],
    ensures
        button_at(raw, k) == b,
{
    assert(scene_byte(raw, k) == b.bytes()[0]);
    assert(scene_byte(raw, k + 1) == b.bytes()[1]);
    assert(scene_byte(raw, k + 2) == b.bytes()[2]);
    assert(scene_byte(raw, k + 3) == b.bytes()[3]);
    assert(scene_byte(raw, k + 4) == b.bytes()[4]);
}

/// A channel strip with a valid channel reads back from its own 31 logical bytes.
pub(crate) proof fn lemma_group_reads_back(raw: Seq<u8>, k: int, g: ControllerGroupParameters)
    requires
        g.channel.is_valid(),
        forall|o: int| 0 <= o < GROUP_WIDTH ==> scene_byte(raw, k + o) == #[trigger] g.bytes()[o],
    ensures
        group_at(raw, k) == g,
{
    assert(scene_byte(raw, k) == g.bytes()[0]);
    assert forall|o: int| 0 <= o < CONTROL_WIDTH implies scene_byte(raw, (k + 1) + o)
        == #[trigger] g.slider.bytes()[o] by {
        assert(scene_byte(raw, k + (1 + o)) == g.bytes()[1 + o]);
    }
    lemma_slider_reads_back(raw, k + 1, g.slider);
    assert forall|o: int| 0 <= o < CONTROL_WIDTH implies scene_byte(raw, (k + 7) + o)
        == #[trigger] g.knob.bytes()[o] by {
        assert(scene_byte(raw, k + (7 + o)) == g.bytes()[7 + o]);
    }
    lemma_slider_reads_back(raw, k + 7, g.knob);
    assert forall|o: int| 0 <= o < CONTROL_WIDTH implies scene_byte(raw, (k + 13) + o)
        == #[trigger] g.solo_button.bytes()[o] by {
        assert(scene_byte(raw, k + (13 + o)) == g.bytes()[13 + o]);
    }
    lemma_button_reads_back(raw, k + 13, g.solo_button);
    assert forall|o: int| 0 <= o < CONTROL_WIDTH implies scene_byte(raw, (k + 19) + o)
        == #[trigger] g.mute_button.bytes()[o] by {
        assert(scene_byte(raw, k + (19 + o)) == g.bytes()[19 + o]);
    }
    lemma_button_reads_back(raw, k + 19, g.mute_button);
    assert forall|o: int| 0 <= o < CONTROL_WIDTH implies scene_byte(raw, (k + 25) + o)
        == #[trigger] g.record_button.bytes()[o] by {
        assert(scene_byte(raw, k + (25 + o)) == g.bytes()[25 + o]);
    }
    lemma_button_reads_back(raw, k + 25, g.record_button);
}

/// Channel strip `i` of a valid scene reads back from its own logical bytes.
pub(crate) proof fn lemma_group_decoded(p: Parameters, raw: Seq<u8>, i: int)
    requires
        p.is_valid(),
        0 <= i < GROUP_COUNT,
        forall|k: int| 0 <= k < LOGICAL_LEN - 1 ==> #[trigger] scene_byte(raw, k) == p.logical_byte(k),
    ensures
        p.groups@[i] == group_at(raw, FIRST_GROUP + GROUP_WIDTH * i),
{
    lemma_group_bytes(p, i);
    let k = FIRST_GROUP + GROUP_WIDTH * i;
    assert forall|o: int| 0 <= o < GROUP_WIDTH implies scene_byte(raw, k + o)
        == #[trigger] p.groups@[i].bytes()[o] by {
        assert(scene_byte(raw, k + o) == p.logical_byte(k + o));
    }
    lemma_group_reads_back(raw, k, p.groups@[i]);
}

/// A transport button reads back from its own logical bytes.
pub(crate) proof fn lemma_transport_decoded(p: Parameters, raw: Seq<u8>, b: TransportButton)
    requires
        forall|k: int| 0 <= k < LOGICAL_LEN - 1 ==> #[trigger] scene_byte(raw, k) == p.logical_byte(k),
    ensures
        p.transport(b) == button_at(raw, transport_slot(b)),
{
    let t: int = match b {
        TransportButton::TrackRewind => 0,
        TransportButton::TrackFastforward => 1,
        TransportButton::Cycle => 2,
        TransportButton::MarkerSet => 3,
        TransportButton::MarkerRewind => 4,
        TransportButton::MarkerFastforward => 5,
        TransportButton::Rewind => 6,
        TransportButton::Fastforward => 7,
        TransportButton::Stop => 8,
        TransportButton::Play => 9,
        TransportButton::Record => 10,
    };
    assert(transport_button_at(t) == b);
    assert(transport_slot(b) == FIRST_TRANSPORT_BUTTON + CONTROL_WIDTH * t);
    lemma_transport_bytes(p, t);
    let k = transport_slot(b);
    assert forall|o: int| 0 <= o < CONTROL_WIDTH implies scene_byte(raw, k + o)
        == #[trigger] p.transport(b).bytes()[o] by {
        assert(scene_byte(raw, k + o) == p.logical_byte(k + o));
    }
    lemma_button_reads_back(raw, k, p.transport(b));
}

/// A valid scene is decoded from any buffer whose logical bytes are its own.
pub(crate) proof fn lemma_decoded_from_own_bytes(p: Parameters, raw: Seq<u8>)
    requires
        p.is_valid(),
        forall|k: int| 0 <= k < LOGICAL_LEN - 1 ==> #[trigger] scene_byte(raw, k) == p.logical_byte(k),
    ensures
        p.decoded_from(raw),
{
    assert(scene_byte(raw, 0) == p.logical_byte(0));
    assert(scene_byte(raw, 1) == p.logical_byte(1));
    assert(scene_byte(raw, 2) == p.logical_byte(2));
    assert(scene_byte(raw, TRANSPORT_CHANNEL as int) == p.logical_byte(TRANSPORT_CHANNEL as int));
    assert forall|i: int| 0 <= i < GROUP_COUNT implies #[trigger] p.groups@[i] == group_at(
        raw,
        FIRST_GROUP + GROUP_WIDTH * i,
    ) by {
        lemma_group_decoded(p, raw, i);
    }
    assert forall|b: TransportButton| #[trigger] p.transport(b) == button_at(
        raw,
        transport_slot(b),
    ) by {
        lemma_transport_decoded(p, raw, b);
    }
    assert forall|i: int| 0 <= i < CUSTOM_DAW_ASSIGN_LEN implies #[trigger] p.custom_daw_assign@[i]
        == scene_byte(raw, CUSTOM_DAW_ASSIGN + i) by {
        assert(scene_byte(raw, CUSTOM_DAW_ASSIGN + i) == p.logical_byte(CUSTOM_DAW_ASSIGN + i));
    }
}

/// Two scenes decoded from one buffer have the same transport buttons.
pub(crate) proof fn lemma_decoded_transport_unique(p: Parameters, q: Parameters, raw: Seq<u8>)
    requires
        forall|b: TransportButton| #[trigger] p.transport(b) == button_at(raw, transport_slot(b)),
        forall|b: TransportButton| #[trigger] q.transport(b) == button_at(raw, transport_slot(b)),
    ensures
        forall|b: TransportButton| #[trigger] p.transport(b) == q.transport(b),
{
}

/// Two scenes decoded from one buffer are equal.
pub proof fn lemma_decoded_from_unique(p: Parameters, q: Parameters, raw: Seq<u8>)
    requires
        p.decoded_from(raw),
        q.decoded_from(raw),
    ensures
        p == q,
{
    assert forall|i: int| 0 <= i < GROUP_COUNT implies #[trigger] q.groups@[i] == p.groups@[i] by {
        assert(q.groups@[i] == group_at(raw, FIRST_GROUP + GROUP_WIDTH * i));
        assert(p.groups@[i] == group_at(raw, FIRST_GROUP + GROUP_WIDTH * i));
    }
    assert(q.groups =~= p.groups);
    assert(q.custom_daw_assign =~= p.custom_daw_assign);
    lemma_decoded_transport_unique(p, q, raw);
    assert(q.track_rewind == p.transport(TransportButton::TrackRewind));
    assert(q.track_fastforward == p.transport(TransportButton::TrackFastforward));
    assert(q.cycle == p.transport(TransportButton::Cycle));
    assert(q.set == p.transport(TransportButton::MarkerSet));
    assert(q.marker_rewind == p.transport(TransportButton::MarkerRewind));
    assert(q.marker_fastforward == p.transport(TransportButton::MarkerFastforward));
    assert(q.rewind == p.transport(TransportButton::Rewind));
    assert(q.fastforward == p.transport(TransportButton::Fastforward));
    assert(q.stop == p.transport(TransportButton::Stop));
    assert(q.play == p.transport(TransportButton::Play));
    assert(q.record == p.transport(TransportButton::Record));
}

/// Decoding and encoding are inverse: for a valid scene, the data-dump
/// message built from its packed buffer (under any global channel in the
/// header) decodes without error, and the scene is the one and only value
/// that it decodes to.
pub proof fn lemma_scene_round_trip(p: Parameters, global_channel: u8)
    requires
        p.is_valid(),
    ensures
        data_dump_message(global_channel, p.scene_dump()).len() >= SCENE_DATA_END,
        scene_byte(scene_data(data_dump_message(global_channel, p.scene_dump())), 0) < 16,
        forall|q: Parameters|
            #[trigger] q.decoded_from(scene_data(data_dump_message(global_channel, p.scene_dump())))
                <==> q == p,
{
    let dump = data_dump_message(global_channel, p.scene_dump());
    let raw = scene_data(dump);
    assert forall|k: int| 0 <= k < LOGICAL_LEN - 1 implies #[trigger] scene_byte(raw, k)
        == p.logical_byte(k) by {
        lemma_scene_data_bounds(k);
        lemma_scene_dump_logical(p, k);
    }
    lemma_decoded_from_own_bytes(p, raw);
    assert forall|q: Parameters| #[trigger] q.decoded_from(raw) implies q == p by {
        lemma_decoded_from_unique(p, q, raw);
    }
}

} // verus!
