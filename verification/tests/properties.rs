//! Tests of the library's stated properties on concrete values: the
//! checksum invariant of wrapped frames, the wire round trips, the duality
//! of the effect-id catalogs, the name padding rule, and the parser's
//! degradation to `Unknown` on unrecognized or too-short input.

use fractal_midi::checksum;
use fractal_midi::guess_model;
use fractal_midi::id_for_effect;
use fractal_midi::parse_message;
use fractal_midi::set_current_preset_name;
use fractal_midi::set_preset_number;
use fractal_midi::BlockGridBlock;
use fractal_midi::Channel;
use fractal_midi::Effect;
use fractal_midi::EffectID;
use fractal_midi::EffectStatus;
use fractal_midi::FractalMessage;
use fractal_midi::FractalModel;
use fractal_midi::TunerStatus;

#[test]
fn test_wrap_checksum_invariant_concrete() {
    // A frame built by a command builder: zeroing its checksum byte and
    // recomputing the checksum reproduces the stored byte.
    let frame = set_preset_number(FractalModel::II, 127);
    let stored = frame[frame.len() - 2];
    let mut zeroed = frame.clone();
    let n = zeroed.len();
    zeroed[n - 2] = 0;
    assert_eq!(stored, checksum(zeroed));
}

#[test]
fn test_guess_model() {
    assert_eq!(Some(FractalModel::II), guess_model("Axe-Fx II"));
    assert_eq!(Some(FractalModel::III), guess_model("Axe-Fx III"));
    assert_eq!(None, guess_model("Axe-Fx"));
    assert_eq!(None, guess_model(""));
}

#[test]
fn test_flat_table_duality_concrete() {
    // Id direction: every id of the flat forward table looks up an effect
    // whose id is the one looked up. The reverse lookup goes through a
    // parsed grid frame, so the table under test is the library's own.
    for id in (100u32..=169).chain([207]) {
        if id == 152 {
            continue;
        }
        let looked_up = parse_grid_effect(id);
        assert_eq!(u32::from(id_for_effect(looked_up)), id, "id {}", id);
    }
    // Effect direction on a sample: the id of an effect looks back up to
    // the same effect.
    for effect in [Effect::Amp1, Effect::Cab2, Effect::Looper1, Effect::Shunt] {
        let id = u32::from(id_for_effect(effect));
        assert_eq!(effect, parse_grid_effect(id));
    }
    // Members without an encoding in this generation share the 0 sentinel.
    assert_eq!(0, id_for_effect(Effect::Tuner));
    assert_eq!(0, id_for_effect(Effect::Unknown));
}

// Resolves a flat-generation wire id through a parsed grid frame.
fn parse_grid_effect(id: u32) -> Effect {
    let lo = (id & 0x7F) as u8;
    let hi = ((id >> 7) & 0x7F) as u8;
    let mut msg = vec![240, 0, 1, 116, 3, 0x20];
    for _ in 0..48 {
        msg.extend_from_slice(&[lo, hi, 0, 0]);
    }
    msg.push(0);
    msg.push(247);
    match parse_message(msg) {
        FractalMessage::BlockGrid(grid) => match &grid[0][0] {
            BlockGridBlock::EffectBlock { effect, .. } => *effect,
            BlockGridBlock::Empty => Effect::Unknown,
        },
        _ => panic!("expected a grid"),
    }
}

#[test]
fn test_preset_number_round_trip_concrete() {
    for n in [0u32, 1, 127, 128, 255, 389, 8191, 16383] {
        let frame = set_preset_number(FractalModel::II, n);
        // The response frame carries the same two bytes under the report
        // opcode; parsing it must return the number sent.
        let reply = vec![240, 0, 1, 116, 3, 0x14, frame[6], frame[7], 0, 247];
        assert_eq!(FractalMessage::CurrentPresetNumber(n), parse_message(reply));
    }
}

#[test]
fn test_name_padding_rule() {
    // Payload is always exactly 32 name bytes: 4 header + model + opcode +
    // 32 + checksum + terminator = 40 bytes in all.
    assert_eq!(40, set_current_preset_name(FractalModel::II, "").len());
    assert_eq!(40, set_current_preset_name(FractalModel::II, "x").len());
    assert_eq!(
        40,
        set_current_preset_name(FractalModel::II, "exactly thirty-two characters ok").len()
    );
    // Non-ASCII characters are dropped before padding, so they shorten the
    // name; the frame keeps its length.
    let dropped = set_current_preset_name(FractalModel::II, "caf\u{e9}");
    let plain = set_current_preset_name(FractalModel::II, "caf");
    assert_eq!(dropped, plain);
    assert_eq!(40, dropped.len());
}

#[test]
fn test_parse_short_frame_degrades() {
    assert_eq!(
        FractalMessage::Unknown(vec![240, 0, 1, 116]),
        parse_message(vec![240, 0, 1, 116])
    );
    // Recognized opcode, payload too short for its shape.
    assert_eq!(
        FractalMessage::Unknown(vec![240, 0, 1, 116, 3, 0x14]),
        parse_message(vec![240, 0, 1, 116, 3, 0x14])
    );
}

#[test]
fn test_parse_unknown_opcode_degrades() {
    let msg = vec![240, 0, 1, 116, 3, 0x7E, 1, 2, 3, 247];
    assert_eq!(FractalMessage::Unknown(msg.clone()), parse_message(msg));
}

#[test]
fn test_parse_tuner_status() {
    assert_eq!(
        FractalMessage::TunerStatus(TunerStatus::Off),
        parse_message(vec![240, 0, 1, 116, 3, 0x11, 0, 17, 247])
    );
    assert_eq!(
        FractalMessage::TunerStatus(TunerStatus::On),
        parse_message(vec![240, 0, 1, 116, 3, 0x11, 1, 16, 247])
    );
}

#[test]
fn test_parse_looper_state() {
    assert_eq!(
        parse_message(vec![240, 0, 1, 116, 0x10, 0x0F, 0b00101011, 0, 247]),
        FractalMessage::LooperState {
            record: true,
            play: true,
            overdub: false,
            once: true,
            reverse: false,
            half_speed: true,
        }
    );
}

#[test]
fn test_parse_status_dump() {
    // One three-byte record: raw id 58 resolves to the first drive/amp
    // block of the newer generation; 0x33 packs bypassed, channel B, and
    // three channels at most.
    assert_eq!(
        parse_message(vec![240, 0, 1, 116, 0x10, 0x13, 58, 0, 0x33, 0, 247]),
        FractalMessage::StatusDump(vec![EffectStatus {
            effect_id: 58,
            effect_id_iii: Some(EffectID::ID_DISTORT1),
            effect: Effect::Amp1,
            bypassed: true,
            channel: Channel::B,
            max_channels: 3,
        }])
    );
}

#[test]
fn test_parse_status_dump_bad_channel_degrades() {
    // Channel bits above three have no channel: the dump decodes to
    // Unknown as a whole.
    let msg = vec![240, 0, 1, 116, 0x10, 0x13, 58, 0, 0x0E, 0, 247];
    assert_eq!(FractalMessage::Unknown(msg.clone()), parse_message(msg));
}

#[test]
fn test_parse_scene_name() {
    let mut msg = vec![240, 0, 1, 116, 0x10, 0x0E, 2];
    let mut name: Vec<u8> = b"Lead boost".to_vec();
    name.resize(32, 0x20);
    msg.extend_from_slice(&name);
    msg.push(0);
    msg.push(247);
    assert_eq!(
        FractalMessage::SceneName(2, "Lead boost".to_string()),
        parse_message(msg)
    );
}

#[test]
fn test_parse_multipurpose_response() {
    assert_eq!(
        FractalMessage::MultipurposeResponse {
            function_id: 0x3C,
            response_code: 0,
        },
        parse_message(vec![240, 0, 1, 116, 3, 0x64, 0x3C, 0, 10, 247])
    );
}

#[test]
fn test_parse_tempo_axe_3() {
    // The newer generation reuses the preset-number opcode for the tempo,
    // low half first: the generation rule wins over the shared one.
    assert_eq!(
        FractalMessage::CurrentTempo(140),
        parse_message(vec![240, 0, 1, 116, 0x10, 0x14, 0x0C, 0x01, 0, 247])
    );
}

#[test]
fn test_encode_name_seven_char_boundary() {
    // Seven characters end exactly on a byte boundary; the eighth starts a
    // fresh byte.
    let seven = fractal_midi::encode_preset_name_iii("aaaaaaa");
    assert_eq!(8, seven.len());
    let eight = fractal_midi::encode_preset_name_iii("aaaaaaaa");
    assert_eq!(10, eight.len());
    assert_eq!(&seven[..], &eight[..8]);
}

#[test]
fn test_parse_block_flags_exact_window() {
    // A payload of exactly one five-byte window yields one record: every
    // complete window is kept, only a trailing partial one is dropped.
    assert_eq!(
        parse_message(vec![240, 0, 1, 116, 3, 14, 3, 74, 16, 83, 6]),
        FractalMessage::PresetBlocksFlags(vec![fractal_midi::BlockFlags {
            is_bypassed: false,
            xy_state: fractal_midi::XYState::X,
            cc: 37,
            effect_id: 106,
            effect: Effect::Amp1,
        }])
    );
}

#[test]
fn test_parse_grid_exact_windows() {
    // A frame whose payload holds exactly 48 four-byte windows decodes to
    // the full grid.
    let mut msg = vec![240, 0, 1, 116, 3, 0x20];
    for _ in 0..48 {
        msg.extend_from_slice(&[106, 0, 2, 0]);
    }
    assert_eq!(198, msg.len());
    match parse_message(msg) {
        FractalMessage::BlockGrid(grid) => {
            assert_eq!(
                grid[0][0],
                BlockGridBlock::EffectBlock {
                    effect_id: 106,
                    effect: Effect::Amp1,
                    connect_row_1: false,
                    connect_row_2: true,
                    connect_row_3: false,
                    connect_row_4: false,
                }
            );
            for row in 12..16 {
                for col in 0..4 {
                    assert_eq!(grid[row][col], BlockGridBlock::Empty);
                }
            }
        }
        other => panic!("expected a grid, got {:?}", other),
    }
}
