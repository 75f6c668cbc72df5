//! Tests of the inbound message parser.

use fractal_midi::parse_message;
use fractal_midi::BlockFlags;
use fractal_midi::BlockGridBlock;
use fractal_midi::Effect;
use fractal_midi::FractalMessage;
use fractal_midi::Parameter;
use fractal_midi::XYState;

#[test]
fn test_parse_message_preset_number() {
    assert_eq!(
        FractalMessage::CurrentPresetNumber(235),
        parse_message(vec![240, 0, 1, 116, 3, 20, 1, 107, 120, 247])
    );
    assert_eq!(
        FractalMessage::CurrentPresetNumber(236),
        parse_message(vec![240, 0, 1, 116, 3, 20, 1, 108, 121, 247])
    );
}

#[test]
fn test_parse_current_preset_name() {
    assert_eq!(
        parse_message(vec![
            240, 0, 1, 116, 3, 15, 66, 83, 32, 65, 67, 50, 48, 32, 66, 97, 115, 101, 32, 32,
            32, 32, 32, 32, 32, 32, 32, 32, 32, 32, 32, 32, 32, 32, 32, 32, 32, 0, 13, 247
        ]),
        FractalMessage::CurrentPresetName("BS AC20 Base".to_string())
    );
}

#[test]
fn test_parse_preset_name() {
    assert_eq!(
        parse_message(vec![
            240, 0, 1, 116, 16, 13, 15, 3, 66, 83, 32, 65, 67, 50, 48, 32, 66, 97, 115, 101,
            32, 83, 67, 32, 32, 32, 32, 32, 32, 32, 32, 32, 32, 32, 32, 32, 32, 32, 32, 0, 0,
            247
        ]),
        FractalMessage::PresetName(399, "BS AC20 Base SC".to_string())
    );
}

#[test]
fn test_parse_firmware_version() {
    assert_eq!(
        parse_message(vec![240, 0, 1, 116, 3, 8, 0x08, 0x02, 0, 0, 0, 0, 0, 247]),
        FractalMessage::FirmwareVersion { major: 8, minor: 2 }
    );
}

#[test]
fn test_parse_front_panel_change_detected() {
    assert_eq!(
        parse_message(vec![240, 0, 1, 116, 3, 0x21, 0, 0xF7]),
        FractalMessage::FrontPanelChangeDetected
    );
}

#[test]
fn test_parse_midi_tempo_beat() {
    assert_eq!(
        parse_message(vec![240, 0, 1, 116, 3, 0x10, 0xF7]),
        FractalMessage::MIDITempoBeat
    );
}

#[test]
fn test_parse_midi_channel() {
    assert_eq!(
        parse_message(vec![240, 0, 1, 116, 3, 0x17, 9, 0, 0xF7]),
        FractalMessage::MIDIChannel(10)
    );
}

#[test]
fn test_parse_tuner_info() {
    assert_eq!(
        parse_message(vec![240, 0, 1, 116, 3, 0x0D, 1, 2, 63, 0xF7]),
        FractalMessage::TunerInfo {
            note: 1,
            string_number: 2,
            tuner_data: 63
        }
    );
}

#[test]
fn test_parse_preset_blocks_flags() {
    assert_eq!(
        parse_message(vec![
            240, 0, 1, 116, 3, 14, 3, 74, 16, 83, 6, 3, 78, 24, 99, 6, 2, 86, 124, 39, 6, 3,
            94, 40, 3, 7, 2, 98, 48, 43, 120, 2, 100, 52, 51, 120, 3, 102, 124, 63, 120, 2, 10,
            125, 23, 7, 3, 38, 81, 115, 6, 2, 52, 125, 7, 120, 3, 58, 125, 127, 7, 247
        ]),
        FractalMessage::PresetBlocksFlags(vec![
            BlockFlags {
                is_bypassed: false,
                xy_state: XYState::X,
                cc: 37,
                effect_id: 106,
                effect: Effect::Amp1
            },
            BlockFlags {
                is_bypassed: false,
                xy_state: XYState::X,
                cc: 39,
                effect_id: 108,
                effect: Effect::Cab1
            },
            BlockFlags {
                is_bypassed: true,
                xy_state: XYState::X,
                cc: 43,
                effect_id: 100,
                effect: Effect::Compressor1
            },
            BlockFlags {
                is_bypassed: false,
                xy_state: XYState::X,
                cc: 47,
                effect_id: 112,
                effect: Effect::Delay1
            },
            BlockFlags {
                is_bypassed: true,
                xy_state: XYState::X,
                cc: 49,
                effect_id: 133,
                effect: Effect::Drive1
            },
            BlockFlags {
                is_bypassed: true,
                xy_state: XYState::X,
                cc: 50,
                effect_id: 134,
                effect: Effect::Drive2
            },
            BlockFlags {
                is_bypassed: false,
                xy_state: XYState::X,
                cc: 51,
                effect_id: 135,
                effect: Effect::Enhancer1
            },
            BlockFlags {
                is_bypassed: true,
                xy_state: XYState::X,
                cc: 69,
                effect_id: 114,
                effect: Effect::MultiDelay1
            },
            BlockFlags {
                is_bypassed: false,
                xy_state: XYState::X,
                cc: 83,
                effect_id: 110,
                effect: Effect::Reverb1
            },
            BlockFlags {
                is_bypassed: true,
                xy_state: XYState::X,
                cc: 90,
                effect_id: 128,
                effect: Effect::TremoloPanner1
            },
            BlockFlags {
                is_bypassed: false,
                xy_state: XYState::X,
                cc: 93,
                effect_id: 127,
                effect: Effect::VolumePan1
            },
        ])
    );
}

#[test]
fn test_parse_scene_number() {
    assert_eq!(
        parse_message(vec![240, 0, 1, 116, 3, 41, 0, 47, 247]),
        FractalMessage::CurrentSceneNumber(1)
    );
    assert_eq!(
        parse_message(vec![240, 0, 1, 116, 3, 41, 1, 47, 247]),
        FractalMessage::CurrentSceneNumber(2)
    );
    assert_eq!(
        parse_message(vec![240, 0, 1, 116, 3, 41, 7, 47, 247]),
        FractalMessage::CurrentSceneNumber(8)
    );
    assert_eq!(
        parse_message(vec![0xF0, 0x00, 0x01, 0x74, 0x10, 0x0C, 0x01, 0x18, 0xF7,]),
        FractalMessage::CurrentSceneNumber(1)
    )
}

#[test]
fn test_parse_grid_layout_and_routing() {
    assert_eq!(
        parse_message(vec![
            240, 0, 1, 116, 3, 32, 0, 0, 0, 0, 127, 0, 2, 0, 0, 0, 0, 0, 0, 0, 0, 0, 0, 0, 0,
            0, 100, 0, 2, 0, 0, 0, 0, 0, 0, 0, 0, 0, 0, 0, 0, 0, 0, 1, 2, 0, 0, 0, 0, 0, 0, 0,
            0, 0, 0, 0, 0, 0, 5, 1, 2, 0, 0, 0, 0, 0, 0, 0, 0, 0, 0, 0, 0, 0, 6, 1, 2, 0, 0, 0,
            0, 0, 0, 0, 0, 0, 0, 0, 0, 0, 106, 0, 2, 0, 0, 0, 0, 0, 0, 0, 0, 0, 0, 0, 0, 0,
            108, 0, 2, 0, 0, 0, 0, 0, 0, 0, 0, 0, 0, 0, 0, 0, 79, 1, 2, 0, 0, 0, 0, 0, 0, 0, 0,
            0, 0, 0, 0, 0, 112, 0, 2, 0, 0, 0, 0, 0, 0, 0, 0, 0, 0, 0, 0, 0, 114, 0, 2, 0, 0,
            0, 0, 0, 0, 0, 0, 0, 0, 0, 0, 0, 110, 0, 2, 0, 0, 0, 0, 0, 0, 0, 0, 0, 0, 0, 0, 0,
            7, 1, 2, 0, 0, 0, 0, 0, 0, 0, 0, 0, 29, 247
        ]),
        FractalMessage::BlockGrid([
            [
                BlockGridBlock::Empty,
                BlockGridBlock::EffectBlock {
                    effect_id: 127,
                    effect: Effect::VolumePan1,
                    connect_row_1: false,
                    connect_row_2: true,
                    connect_row_3: false,
                    connect_row_4: false,
                },
                BlockGridBlock::Empty,
                BlockGridBlock::Empty,
            ],
            [
                BlockGridBlock::Empty,
                BlockGridBlock::EffectBlock {
                    effect_id: 100,
                    effect: Effect::Compressor1,
                    connect_row_1: false,
                    connect_row_2: true,
                    connect_row_3: false,
                    connect_row_4: false,
                },
                BlockGridBlock::Empty,
                BlockGridBlock::Empty,
            ],
            [
                BlockGridBlock::Empty,
                BlockGridBlock::EffectBlock {
                    effect_id: 128,
                    effect: Effect::TremoloPanner1,
                    connect_row_1: false,
                    connect_row_2: true,
                    connect_row_3: false,
                    connect_row_4: false,
                },
                BlockGridBlock::Empty,
                BlockGridBlock::Empty,
            ],
            [
                BlockGridBlock::Empty,
                BlockGridBlock::EffectBlock {
                    effect_id: 133,
                    effect: Effect::Drive1,
                    connect_row_1: false,
                    connect_row_2: true,
                    connect_row_3: false,
                    connect_row_4: false,
                },
                BlockGridBlock::Empty,
                BlockGridBlock::Empty,
            ],
            [
                BlockGridBlock::Empty,
                BlockGridBlock::EffectBlock {
                    effect_id: 134,
                    effect: Effect::Drive2,
                    connect_row_1: false,
                    connect_row_2: true,
                    connect_row_3: false,
                    connect_row_4: false,
                },
                BlockGridBlock::Empty,
                BlockGridBlock::Empty,
            ],
            [
                BlockGridBlock::Empty,
                BlockGridBlock::EffectBlock {
                    effect_id: 106,
                    effect: Effect::Amp1,
                    connect_row_1: false,
                    connect_row_2: true,
                    connect_row_3: false,
                    connect_row_4: false,
                },
                BlockGridBlock::Empty,
                BlockGridBlock::Empty,
            ],
            [
                BlockGridBlock::Empty,
                BlockGridBlock::EffectBlock {
                    effect_id: 108,
                    effect: Effect::Cab1,
                    connect_row_1: false,
                    connect_row_2: true,
                    connect_row_3: false,
                    connect_row_4: false,
                },
                BlockGridBlock::Empty,
                BlockGridBlock::Empty,
            ],
            [
                BlockGridBlock::Empty,
                BlockGridBlock::EffectBlock {
                    effect_id: 207,
                    effect: Effect::Shunt,
                    connect_row_1: false,
                    connect_row_2: true,
                    connect_row_3: false,
                    connect_row_4: false,
                },
                BlockGridBlock::Empty,
                BlockGridBlock::Empty,
            ],
            [
                BlockGridBlock::Empty,
                BlockGridBlock::EffectBlock {
                    effect_id: 112,
                    effect: Effect::Delay1,
                    connect_row_1: false,
                    connect_row_2: true,
                    connect_row_3: false,
                    connect_row_4: false,
                },
                BlockGridBlock::Empty,
                BlockGridBlock::Empty,
            ],
            [
                BlockGridBlock::Empty,
                BlockGridBlock::EffectBlock {
                    effect_id: 114,
                    effect: Effect::MultiDelay1,
                    connect_row_1: false,
                    connect_row_2: true,
                    connect_row_3: false,
                    connect_row_4: false,
                },
                BlockGridBlock::Empty,
                BlockGridBlock::Empty,
            ],
            [
                BlockGridBlock::Empty,
                BlockGridBlock::EffectBlock {
                    effect_id: 110,
                    effect: Effect::Reverb1,
                    connect_row_1: false,
                    connect_row_2: true,
                    connect_row_3: false,
                    connect_row_4: false,
                },
                BlockGridBlock::Empty,
                BlockGridBlock::Empty,
            ],
            [
                BlockGridBlock::Empty,
                BlockGridBlock::EffectBlock {
                    effect_id: 135,
                    effect: Effect::Enhancer1,
                    connect_row_1: false,
                    connect_row_2: true,
                    connect_row_3: false,
                    connect_row_4: false,
                },
                BlockGridBlock::Empty,
                BlockGridBlock::Empty,
            ],
            [
                BlockGridBlock::Empty,
                BlockGridBlock::Empty,
                BlockGridBlock::Empty,
                BlockGridBlock::Empty,
            ],
            [
                BlockGridBlock::Empty,
                BlockGridBlock::Empty,
                BlockGridBlock::Empty,
                BlockGridBlock::Empty,
            ],
            [
                BlockGridBlock::Empty,
                BlockGridBlock::Empty,
                BlockGridBlock::Empty,
                BlockGridBlock::Empty,
            ],
            [
                BlockGridBlock::Empty,
                BlockGridBlock::Empty,
                BlockGridBlock::Empty,
                BlockGridBlock::Empty,
            ],
        ])
    );
}

#[test]
fn test_parse_block_parameters() {
    assert_eq!(
        parse_message(vec![
            240, 0, 1, 116, 3, 1, 106, 0, 0, 0, 109, 1, 0, 116, 0, 0, 2, 2, 65, 67, 45, 50, 48,
            32, 49, 50, 65, 88, 55, 32, 66, 0, 55, 247
        ]),
        FractalMessage::BlockParameters {
            effect_id: 106,
            effect: Effect::Amp1,
            parameter_id: 0,
            parameter: Parameter::EffectType,
            value_raw: 237
        }
    );
    assert_eq!(
        parse_message(vec![
            240, 0, 1, 116, 3, 1, 106, 0, 1, 0, 75, 104, 0, 25, 0, 0, 0, 0, 50, 46, 48, 52, 0,
            78, 247
        ]),
        FractalMessage::BlockParameters {
            effect_id: 106,
            effect: Effect::Amp1,
            parameter_id: 1,
            parameter: Parameter::InputDrive,
            value_raw: 13387
        }
    );
    assert_eq!(
        parse_message(vec![
            240, 0, 1, 116, 3, 1, 106, 0, 2, 0, 110, 70, 1, 49, 0, 0, 0, 0, 51, 46, 56, 56, 0,
            106, 247
        ]),
        FractalMessage::BlockParameters {
            effect_id: 106,
            effect: Effect::Amp1,
            parameter_id: 2,
            parameter: Parameter::Bass,
            value_raw: 25454
        }
    );
    assert_eq!(
        parse_message(vec![
            240, 0, 1, 116, 3, 1, 106, 0, 3, 0, 25, 29, 3, 102, 0, 0, 0, 0, 56, 46, 48, 55, 0,
            30, 247
        ]),
        FractalMessage::BlockParameters {
            effect_id: 106,
            effect: Effect::Amp1,
            parameter_id: 3,
            parameter: Parameter::Middle,
            value_raw: 52889
        }
    );
    assert_eq!(
        parse_message(vec![
            240, 0, 1, 116, 3, 1, 106, 0, 4, 0, 24, 51, 2, 76, 0, 0, 0, 0, 54, 46, 48, 48, 0,
            20, 247
        ]),
        FractalMessage::BlockParameters {
            effect_id: 106,
            effect: Effect::Amp1,
            parameter_id: 4,
            parameter: Parameter::Treble,
            value_raw: 39320
        }
    );
    assert_eq!(
        parse_message(vec![
            240, 0, 1, 116, 3, 1, 106, 0, 5, 0, 126, 127, 3, 127, 0, 0, 0, 0, 49, 48, 46, 48,
            48, 0, 58, 247
        ]),
        FractalMessage::BlockParameters {
            effect_id: 106,
            effect: Effect::Amp1,
            parameter_id: 5,
            parameter: Parameter::MasterVolume,
            value_raw: 65534
        }
    );
    assert_eq!(
        parse_message(vec![
            240, 0, 1, 116, 3, 1, 106, 0, 6, 0, 0, 0, 0, 0, 0, 0, 0, 0, 49, 48, 46, 48, 32, 72,
            122, 0, 102, 247
        ]),
        FractalMessage::BlockParameters {
            effect_id: 106,
            effect: Effect::Amp1,
            parameter_id: 6,
            parameter: Parameter::PreampLowCut,
            value_raw: 0
        }
    );
    assert_eq!(
        parse_message(vec![
            240, 0, 1, 116, 3, 1, 106, 0, 7, 0, 118, 50, 3, 107, 0, 0, 0, 0, 50, 48, 48, 48,
            48, 32, 72, 122, 0, 102, 247
        ]),
        FractalMessage::BlockParameters {
            effect_id: 106,
            effect: Effect::Amp1,
            parameter_id: 7,
            parameter: Parameter::HighCutFrequency,
            value_raw: 55670
        }
    );
}

