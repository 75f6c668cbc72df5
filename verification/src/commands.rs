//! Command builders: one operation each, producing the opcode and payload
//! bytes and delegating the framing to the envelope codec.

use crate::effects::id_for_effect;
use crate::effects::spec_id_for_effect;
use crate::effects::Effect;
use crate::envelope::spec_wrap;
use crate::envelope::wrap_msg;
use crate::models::model_code;
use crate::models::spec_model_code;
use crate::models::FractalModel;
use crate::parse::TunerStatus;
use crate::preset_name::ascii_bytes;
use crate::preset_name::spec_ascii_bytes;
use crate::wire::encode_effect_id;
use crate::wire::encode_preset_number;
use crate::wire::spec_encode_effect_id;
use crate::wire::spec_encode_preset_number;
use crate::MidiMessage;
use vstd::prelude::*;

verus! {

/// Whether the metronome is engaged.
pub enum MetronomeStatus {
    On,
    Off,
}

/// The query for the current preset number.
pub fn get_preset_number(model: FractalModel) -> (r: MidiMessage)
    ensures
        r@ == spec_wrap(seq![spec_model_code(model), 0x14u8]),
{
    let mut p: Vec<u8> = Vec::new();
    p.push(model_code(model));
    p.push(0x14);
    assert(p@ =~= seq![spec_model_code(model), 0x14u8]);
    wrap_msg(p)
}

/// The query for the firmware version.
pub fn get_firmware_version(model: FractalModel) -> (r: MidiMessage)
    ensures
        r@ == spec_wrap(seq![spec_model_code(model), 0x08u8]),
{
    let mut p: Vec<u8> = Vec::new();
    p.push(model_code(model));
    p.push(0x08);
    assert(p@ =~= seq![spec_model_code(model), 0x08u8]);
    wrap_msg(p)
}

/// The command that detaches the editor session from the device.
pub fn disconnect_from_controller(model: FractalModel) -> (r: MidiMessage)
    ensures
        r@ == spec_wrap(seq![spec_model_code(model), 0x42u8]),
{
    let mut p: Vec<u8> = Vec::new();
    p.push(model_code(model));
    p.push(0x42);
    assert(p@ =~= seq![spec_model_code(model), 0x42u8]);
    wrap_msg(p)
}

/// The query for the MIDI channel the device listens on.
pub fn get_midi_channel(model: FractalModel) -> (r: MidiMessage)
    ensures
        r@ == spec_wrap(seq![spec_model_code(model), 0x17u8]),
{
    let mut p: Vec<u8> = Vec::new();
    p.push(model_code(model));
    p.push(0x17);
    assert(p@ =~= seq![spec_model_code(model), 0x17u8]);
    wrap_msg(p)
}

/// The query for the active blocks' flags of the current preset.
pub fn get_preset_blocks_flags(model: FractalModel) -> (r: MidiMessage)
    ensures
        r@ == spec_wrap(seq![spec_model_code(model), 0x0eu8]),
{
    let mut p: Vec<u8> = Vec::new();
    p.push(model_code(model));
    p.push(0x0e);
    assert(p@ =~= seq![spec_model_code(model), 0x0eu8]);
    wrap_msg(p)
}

/// The query for the routing grid of the current preset.
pub fn get_grid_layout_and_routing(model: FractalModel) -> (r: MidiMessage)
    ensures
        r@ == spec_wrap(seq![spec_model_code(model), 0x20u8]),
{
    let mut p: Vec<u8> = Vec::new();
    p.push(model_code(model));
    p.push(0x20);
    assert(p@ =~= seq![spec_model_code(model), 0x20u8]);
    wrap_msg(p)
}

/// The query for the current preset name: the newer generation uses its
/// own opcode with two trailing placeholder bytes, the others a shorter
/// opcode.
pub fn get_current_preset_name(model: FractalModel) -> (r: MidiMessage)
    ensures
        model == FractalModel::III ==> r@ == spec_wrap(
            seq![spec_model_code(model), 0x0du8, 0x7fu8, 0x7fu8],
        ),
        model != FractalModel::III ==> r@ == spec_wrap(seq![spec_model_code(model), 0x0fu8]),
{
    let mut p: Vec<u8> = Vec::new();
    p.push(model_code(model));
    if matches!(model, FractalModel::III) {
        p.push(0x0d);
        p.push(0x7f);
        p.push(0x7f);
        assert(p@ =~= seq![spec_model_code(model), 0x0du8, 0x7fu8, 0x7fu8]);
    } else {
        p.push(0x0f);
        assert(p@ =~= seq![spec_model_code(model), 0x0fu8]);
    }
    wrap_msg(p)
}

/// The command that selects a preset by its 14-bit number, high half first.
pub fn set_preset_number(model: FractalModel, n: u32) -> (r: MidiMessage)
    ensures
        r@ == spec_wrap(
            seq![
                spec_model_code(model),
                0x3cu8,
                spec_encode_preset_number(n).0,
                spec_encode_preset_number(n).1,
            ],
        ),
{
    let (a, b) = encode_preset_number(n);
    let mut p: Vec<u8> = Vec::new();
    p.push(model_code(model));
    p.push(0x3c);
    p.push(a);
    p.push(b);
    assert(p@ =~= seq![
        spec_model_code(model),
        0x3cu8,
        spec_encode_preset_number(n).0,
        spec_encode_preset_number(n).1,
    ]);
    wrap_msg(p)
}

/// The rename frame of a name: its ASCII bytes, space-padded to a payload
/// of exactly 32 name bytes.
pub open spec fn spec_set_current_preset_name(model: FractalModel, name: Seq<char>) -> Seq<u8> {
    spec_wrap(
        seq![spec_model_code(model), 0x09u8] + spec_ascii_bytes(name) + Seq::new(
            (32 - spec_ascii_bytes(name).len()) as nat,
            |i: int| 0x20u8,
        ),
    )
}

/// Non-ASCII characters never reach the wire: two names with the same
/// ASCII characters produce the same rename frame, whatever else either
/// holds. Dropped characters shorten the name and lengthen the padding;
/// nothing is transcoded and nothing fails.
pub proof fn lemma_rename_ignores_non_ascii(
    model: FractalModel,
    name1: Seq<char>,
    name2: Seq<char>,
)
    requires
        spec_ascii_bytes(name1) == spec_ascii_bytes(name2),
    ensures
        spec_set_current_preset_name(model, name1) == spec_set_current_preset_name(model, name2),
{
}

/// The command that renames the current preset: the name's ASCII characters
/// (other characters are dropped, never transcoded) padded with spaces to a
/// payload of exactly 32 name bytes, so the whole frame is 40 bytes.
pub fn set_current_preset_name(model: FractalModel, name: &str) -> (r: MidiMessage)
    requires
        spec_ascii_bytes(name@).len() <= 32,
    ensures
        r@ == spec_set_current_preset_name(model, name@),
        r@.len() == 40,
{
    let mut p: Vec<u8> = Vec::new();
    p.push(model_code(model));
    p.push(0x09);
    let bytes = ascii_bytes(name);
    let ghost head = seq![spec_model_code(model), 0x09u8];
    assert(p@ =~= head);
    let mut i: usize = 0;
    while i < bytes.len()
        invariant
            i <= bytes@.len(),
            p@ == head + bytes@.take(i as int),
        decreases bytes@.len() - i,
    {
        p.push(bytes[i]);
        assert(head + bytes@.take(i + 1) =~= (head + bytes@.take(i as int)).push(
            bytes@[i as int],
        ));
        i = i + 1;
    }
    assert(bytes@.take(bytes@.len() as int) =~= bytes@);
    let mut k: usize = bytes.len();
    while k < 32
        invariant
            bytes@.len() <= k <= 32,
            bytes@ == spec_ascii_bytes(name@),
            bytes@.len() <= 32,
            p@ == head + bytes@ + Seq::new((k - bytes@.len()) as nat, |i: int| 0x20u8),
        decreases 32 - k,
    {
        p.push(0x20);
        assert(head + bytes@ + Seq::new((k + 1 - bytes@.len()) as nat, |i: int| 0x20u8) =~= (head
            + bytes@ + Seq::new((k - bytes@.len()) as nat, |i: int| 0x20u8)).push(0x20u8));
        k = k + 1;
    }
    assert(p@.len() == 34);
    let r = wrap_msg(p);
    assert(r@.len() == 40);
    r
}

/// The three-byte Control Change message (not SysEx-wrapped) that turns the
/// tuner on or off on a 1-based MIDI channel.
pub fn toggle_tuner(midi_channel: u8, tuner_status: TunerStatus) -> (r: MidiMessage)
    requires
        1 <= midi_channel <= 80,
    ensures
        r@.len() == 3,
        r@[0] == 176 + midi_channel - 1,
        r@[1] == 15,
        r@[2] == (if tuner_status == TunerStatus::On {
            127u8
        } else {
            0u8
        }),
{
    let mut p: Vec<u8> = Vec::new();
    p.push(176 + (midi_channel - 1));
    p.push(15);
    p.push(
        match tuner_status {
            TunerStatus::On => 127,
            TunerStatus::Off => 0,
        },
    );
    p
}

/// The SysEx-wrapped command that turns the tuner on or off.
pub fn toggle_tuner_sysex(model: FractalModel, tuner_status: TunerStatus) -> (r: MidiMessage)
    ensures
        r@ == spec_wrap(
            seq![
                spec_model_code(model),
                0x11u8,
                (if tuner_status == TunerStatus::On {
                    1u8
                } else {
                    0u8
                }),
            ],
        ),
{
    let mut p: Vec<u8> = Vec::new();
    p.push(model_code(model));
    p.push(0x11);
    let flag = match tuner_status {
        TunerStatus::On => 1,
        TunerStatus::Off => 0,
    };
    p.push(flag);
    assert(p@ =~= seq![
        spec_model_code(model),
        0x11u8,
        (if tuner_status == TunerStatus::On {
            1u8
        } else {
            0u8
        }),
    ]);
    wrap_msg(p)
}

/// The three-byte Control Change message (not SysEx-wrapped) that turns the
/// metronome on or off on a 1-based MIDI channel.
pub fn toggle_metronome(midi_channel: u8, status: MetronomeStatus) -> (r: MidiMessage)
    requires
        1 <= midi_channel <= 80,
    ensures
        r@.len() == 3,
        r@[0] == 176 + midi_channel - 1,
        r@[1] == 122,
        r@[2] == (if status == MetronomeStatus::On {
            127u8
        } else {
            0u8
        }),
{
    let mut p: Vec<u8> = Vec::new();
    p.push(176 + (midi_channel - 1));
    p.push(122);
    p.push(
        match status {
            MetronomeStatus::On => 127,
            MetronomeStatus::Off => 0,
        },
    );
    p
}

/// The command that selects a scene by its 1-based number: the newer
/// generation sends the logical value directly under its own opcode, the
/// others send the 0-based wire value under the shared one.
pub fn set_scene_number(model: FractalModel, scene_number: u8) -> (r: MidiMessage)
    requires
        scene_number >= 1,
    ensures
        model == FractalModel::III ==> r@ == spec_wrap(
            seq![spec_model_code(model), 0x0cu8, scene_number],
        ),
        model != FractalModel::III ==> r@ == spec_wrap(
            seq![spec_model_code(model), 0x29u8, (scene_number - 1) as u8],
        ),
{
    let mut p: Vec<u8> = Vec::new();
    p.push(model_code(model));
    if matches!(model, FractalModel::III) {
        p.push(0x0c);
        p.push(scene_number);
        assert(p@ =~= seq![spec_model_code(model), 0x0cu8, scene_number]);
    } else {
        p.push(0x29);
        p.push(scene_number - 1);
        assert(p@ =~= seq![spec_model_code(model), 0x29u8, (scene_number - 1) as u8]);
    }
    wrap_msg(p)
}

/// The query for the parameters of one block, addressed by its
/// flat-generation effect id split into two 7-bit bytes.
pub fn get_block_parameters(model: FractalModel, effect: Effect) -> (r: MidiMessage)
    ensures
        r@ == spec_wrap(
            seq![
                spec_model_code(model),
                0x01u8,
                spec_encode_effect_id(spec_id_for_effect(effect)).0,
                spec_encode_effect_id(spec_id_for_effect(effect)).1,
            ],
        ),
{
    let (a, b) = encode_effect_id(id_for_effect(effect));
    let mut p: Vec<u8> = Vec::new();
    p.push(model_code(model));
    p.push(0x01);
    p.push(a);
    p.push(b);
    assert(p@ =~= seq![
        spec_model_code(model),
        0x01u8,
        spec_encode_effect_id(spec_id_for_effect(effect)).0,
        spec_encode_effect_id(spec_id_for_effect(effect)).1,
    ]);
    wrap_msg(p)
}

/// The command that stores the current state into a preset slot: a compact
/// two-byte number for the older generations, a long fixed template with
/// the number embedded and an opaque constant tail for the newer one.
pub fn store_in_preset(model: FractalModel, preset_number: u32) -> (r: MidiMessage)
    ensures
        model == FractalModel::III ==> r@ == spec_wrap(
            seq![
                spec_model_code(model),
                0x01u8,
                0x26u8,
                0x00u8,
                0x00u8,
                0x00u8,
                0x00u8,
                0x00u8,
                spec_encode_preset_number(preset_number).1,
                spec_encode_preset_number(preset_number).0,
                0x00u8,
                0x00u8,
                0x00u8,
                0x00u8,
                0x00u8,
                0x00u8,
                0x00u8,
            ],
        ),
        model != FractalModel::III ==> r@ == spec_wrap(
            seq![
                spec_model_code(model),
                0x1du8,
                spec_encode_preset_number(preset_number).0,
                spec_encode_preset_number(preset_number).1,
            ],
        ),
{
    let (a, b) = encode_preset_number(preset_number);
    let code = model_code(model);
    let mut p: Vec<u8> = Vec::new();
    if matches!(model, FractalModel::III) {
    p.push(code);
        p.push(0x01);
        p.push(0x26);
        p.push(0x00);
        p.push(0x00);
        p.push(0x00);
        p.push(0x00);
        p.push(0x00);
        p.push(b);
        p.push(a);
        p.push(0x00);
        p.push(0x00);
        p.push(0x00);
        p.push(0x00);
        p.push(0x00);
        p.push(0x00);
        p.push(0x00);
        assert(p@ =~= seq![
            spec_model_code(model),
            0x01u8,
            0x26u8,
            0x00u8,
            0x00u8,
            0x00u8,
            0x00u8,
            0x00u8,
            spec_encode_preset_number(preset_number).1,
            spec_encode_preset_number(preset_number).0,
            0x00u8,
            0x00u8,
            0x00u8,
            0x00u8,
            0x00u8,
            0x00u8,
            0x00u8,
        ]);
    } else {
        p.push(code);
        p.push(0x1d);
        p.push(a);
        p.push(b);
        assert(p@ =~= seq![
            spec_model_code(model),
            0x1du8,
            spec_encode_preset_number(preset_number).0,
            spec_encode_preset_number(preset_number).1,
        ]);
    }
    wrap_msg(p)
}

/// The command that sets the tempo: the 14-bit value split as the preset
/// number is, but sent low half first.
pub fn set_tempo(model: FractalModel, tempo: u32) -> (r: MidiMessage)
    ensures
        r@ == spec_wrap(
            seq![
                spec_model_code(model),
                0x14u8,
                spec_encode_preset_number(tempo).1,
                spec_encode_preset_number(tempo).0,
            ],
        ),
{
    let (a, b) = encode_preset_number(tempo);
    let mut p: Vec<u8> = Vec::new();
    p.push(model_code(model));
    p.push(0x14);
    p.push(b);
    p.push(a);
    assert(p@ =~= seq![
        spec_model_code(model),
        0x14u8,
        spec_encode_preset_number(tempo).1,
        spec_encode_preset_number(tempo).0,
    ]);
    wrap_msg(p)
}

/// The command that names a preset slot on the newer generation: a long,
/// mostly constant template with the slot number embedded at a fixed offset
/// and an opaque constant tail reproduced verbatim. The name itself is not
/// carried: the device takes it from the current edit buffer.
pub fn set_preset_name(model: FractalModel, preset_number: u32, name: &str) -> (r: MidiMessage)
    ensures
        r@ == spec_wrap(
            seq![
                spec_model_code(model),
                0x01u8,
                0x28u8,
                0x00u8,
                0x00u8,
                0x00u8,
                0x00u8,
                0x00u8,
                spec_encode_preset_number(preset_number).1,
                spec_encode_preset_number(preset_number).0,
                0x00u8,
                0x00u8,
                0x00u8,
                0x00u8,
                0x00u8,
                0x20u8,
                0x00u8,
                0x30u8,
                0x48u8,
                0x04u8,
                0x02u8,
                0x01u8,
                0x00u8,
                0x40u8,
                0x20u8,
                0x10u8,
                0x08u8,
                0x04u8,
                0x02u8,
                0x01u8,
                0x00u8,
                0x40u8,
                0x20u8,
                0x10u8,
                0x08u8,
                0x04u8,
                0x02u8,
                0x01u8,
                0x00u8,
                0x40u8,
                0x20u8,
                0x10u8,
                0x08u8,
                0x04u8,
                0x02u8,
                0x01u8,
                0x00u8,
                0x40u8,
                0x20u8,
                0x10u8,
                0x08u8,
                0x04u8,
                0x02u8,
                0x00u8,
            ],
        ),
{
    let (a, b) = encode_preset_number(preset_number);
    let code = model_code(model);
    let _ = name;
    let mut p: Vec<u8> = Vec::new();
    p.push(code);
    p.push(0x01);
    p.push(0x28);
    p.push(0x00);
    p.push(0x00);
    p.push(0x00);
    p.push(0x00);
    p.push(0x00);
    p.push(b);
    p.push(a);
    p.push(0x00);
    p.push(0x00);
    p.push(0x00);
    p.push(0x00);
    p.push(0x00);
    p.push(0x20);
    p.push(0x00);
    p.push(0x30);
    p.push(0x48);
    p.push(0x04);
    p.push(0x02);
    p.push(0x01);
    p.push(0x00);
    p.push(0x40);
    p.push(0x20);
    p.push(0x10);
    p.push(0x08);
    p.push(0x04);
    p.push(0x02);
    p.push(0x01);
    p.push(0x00);
    p.push(0x40);
    p.push(0x20);
    p.push(0x10);
    p.push(0x08);
    p.push(0x04);
    p.push(0x02);
    p.push(0x01);
    p.push(0x00);
    p.push(0x40);
    p.push(0x20);
    p.push(0x10);
    p.push(0x08);
    p.push(0x04);
    p.push(0x02);
    p.push(0x01);
    p.push(0x00);
    p.push(0x40);
    p.push(0x20);
    p.push(0x10);
    p.push(0x08);
    p.push(0x04);
    p.push(0x02);
    p.push(0x00);
    assert(p@ =~= seq![
        spec_model_code(model),
        0x01u8,
        0x28u8,
        0x00u8,
        0x00u8,
        0x00u8,
        0x00u8,
        0x00u8,
        spec_encode_preset_number(preset_number).1,
        spec_encode_preset_number(preset_number).0,
        0x00u8,
        0x00u8,
        0x00u8,
        0x00u8,
        0x00u8,
        0x20u8,
        0x00u8,
        0x30u8,
        0x48u8,
        0x04u8,
        0x02u8,
        0x01u8,
        0x00u8,
        0x40u8,
        0x20u8,
        0x10u8,
        0x08u8,
        0x04u8,
        0x02u8,
        0x01u8,
        0x00u8,
        0x40u8,
        0x20u8,
        0x10u8,
        0x08u8,
        0x04u8,
        0x02u8,
        0x01u8,
        0x00u8,
        0x40u8,
        0x20u8,
        0x10u8,
        0x08u8,
        0x04u8,
        0x02u8,
        0x01u8,
        0x00u8,
        0x40u8,
        0x20u8,
        0x10u8,
        0x08u8,
        0x04u8,
        0x02u8,
        0x00u8,
    ]);
    wrap_msg(p)
}

} // verus!
