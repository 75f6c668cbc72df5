//! Tests of the command builders and the envelope codec.

use fractal_midi::checksum;
use fractal_midi::disconnect_from_controller;
use fractal_midi::encode_char_iii;
use fractal_midi::encode_preset_name_iii;
use fractal_midi::get_block_parameters;
use fractal_midi::get_current_preset_name;
use fractal_midi::get_firmware_version;
use fractal_midi::get_grid_layout_and_routing;
use fractal_midi::get_midi_channel;
use fractal_midi::get_preset_blocks_flags;
use fractal_midi::get_preset_number;
use fractal_midi::model_code;
use fractal_midi::set_current_preset_name;
use fractal_midi::set_preset_name;
use fractal_midi::set_preset_number;
use fractal_midi::set_scene_number;
use fractal_midi::set_tempo;
use fractal_midi::store_in_preset;
use fractal_midi::toggle_metronome;
use fractal_midi::toggle_tuner;
use fractal_midi::with_checksum;
use fractal_midi::Effect;
use fractal_midi::FractalModel;
use fractal_midi::MetronomeStatus;
use fractal_midi::TunerStatus;

#[test]
fn test_checksum() {
    assert_eq!(
        0x09,
        checksum(vec![0xF0, 0x00, 0x01, 0x74, 0x03, 0x0F, 0xF7])
    );
}

#[test]
fn test_with_checksum() {
    assert_eq!(
        vec![0xF0, 0x00, 0x01, 0x74, 0x03, 0x0F, 0x09, 0xF7],
        with_checksum(vec![0xF0, 0x00, 0x01, 0x74, 0x03, 0x0F, 0xF7])
    );
    assert_eq!(
        vec![0xF0, 0x00, 0x01, 0x74, 0x03, 0x14, 18, 0xF7],
        with_checksum(vec![0xF0, 0x00, 0x01, 0x74, 0x03, 0x14, 0xF7])
    );
}

#[test]
fn test_set_preset_name() {
    assert_eq!(
        vec![
            0xF0, 0x00, 0x01, 0x74, 0x10, 0x01, 0x28, 0x00, 0x00, 0x00, 0x00, 0x00, 0x05, 0x03,
            0x00, 0x00, 0x00, 0x00, 0x00, 0x20, 0x00, 0x30, 0x48, 0x04, 0x02, 0x01, 0x00, 0x40,
            0x20, 0x10, 0x08, 0x04, 0x02, 0x01, 0x00, 0x40, 0x20, 0x10, 0x08, 0x04, 0x02, 0x01,
            0x00, 0x40, 0x20, 0x10, 0x08, 0x04, 0x02, 0x01, 0x00, 0x40, 0x20, 0x10, 0x08, 0x04,
            0x02, 0x00, 0x64, 0xF7,
        ],
        set_preset_name(FractalModel::III, 389, "a")
    );
    assert_eq!(
        vec![
            0xF0, 0x00, 0x01, 0x74, 0x10, 0x01, 0x28, 0x00, 0x00, 0x00, 0x00, 0x00, 0x06, 0x03,
            0x00, 0x00, 0x00, 0x00, 0x00, 0x20, 0x00, 0x30, 0x48, 0x04, 0x02, 0x01, 0x00, 0x40,
            0x20, 0x10, 0x08, 0x04, 0x02, 0x01, 0x00, 0x40, 0x20, 0x10, 0x08, 0x04, 0x02, 0x01,
            0x00, 0x40, 0x20, 0x10, 0x08, 0x04, 0x02, 0x01, 0x00, 0x40, 0x20, 0x10, 0x08, 0x04,
            0x02, 0x00, 0x67, 0xF7,
        ],
        set_preset_name(FractalModel::III, 390, "a")
    );

}

#[test]
fn test_encode_char_iii() {
    assert_eq!(
        (0b00110000, 0b01000000, None),
        encode_char_iii(0, 0b00000000, 0b01100001)
    );
    assert_eq!(
        (0b01011000, 0b00100000, None),
        encode_char_iii(1, 0b01000000, 0b01100001)
    );
    assert_eq!(
        (0b00101100, 0b00010000, None),
        encode_char_iii(2, 0b00100000, 0b01100001)
    );

}

#[test]
fn test_encode_preset_name_iii() {
    let cases = vec![
        (vec![0x10, 0x00], " "),
        (vec![0x10, 0x40], "!"),
        (vec![0x18, 0x00], "0"),
        (vec![0x18, 0x40], "1"),
        (vec![0x19, 0x00], "2"),
        (vec![0x1A, 0x00], "4"),
        (vec![0x3E, 0x00], "|"),
        (vec![0x30, 0x40], "a"),
        (vec![0x30, 0x58, 0x20], "aa"),
        (vec![0x30, 0x58, 0x2C, 0x10], "aaa"),
        (vec![0x30, 0x58, 0x2C, 0x16, 0x08], "aaaa"),
        (vec![0x30, 0x58, 0x2C, 0x16, 0x0B, 0x04], "aaaaa"),
        (vec![0x30, 0x58, 0x2C, 0x16, 0x0B, 0x05, 0x42], "aaaaaa"),
        (
            vec![0x30, 0x58, 0x2C, 0x16, 0x0B, 0x05, 0x42, 0x61],
            "aaaaaaa",
        ),
        (
            vec![0x21, 0x5A, 0x0C, 0x16, 0x73, 0x1D, 0x4A, 0x64, 0x10, 0x40],
            "Changed!",
        ),
    ];
    for (msg, name) in cases {
        assert_eq!(
            msg,
            encode_preset_name_iii(name),
            "encode name '{}', expected {}",
            name,
            msg.iter()
                .map(|x| format!("{:b}", x))
                .collect::<Vec<String>>()
                .join(" ")
        );
    }
}

#[test]
fn test_get_preset_number() {
    assert_eq!(
        vec![
            0xF0,
            0x00,
            0x01,
            0x74,
            model_code(FractalModel::II),
            0x14,
            18,
            0xF7
        ],
        get_preset_number(FractalModel::II)
    );
}

#[test]
fn test_set_preset_number() {
    assert_eq!(
        vec![
            0xF0,
            0x00,
            0x01,
            0x74,
            model_code(FractalModel::II),
            0x3C,
            0,
            127,
            69,
            0xF7
        ],
        set_preset_number(FractalModel::II, 127)
    );
    assert_eq!(
        vec![
            0xF0,
            0x00,
            0x01,
            0x74,
            model_code(FractalModel::II),
            0x3C,
            1,
            0,
            59,
            0xF7
        ],
        set_preset_number(FractalModel::II, 128)
    );
}

#[test]
fn test_get_current_preset_name() {
    assert_eq!(
        vec![
            0xF0,
            0x00,
            0x01,
            0x74,
            model_code(FractalModel::II),
            0x0F,
            9,
            0xF7
        ],
        get_current_preset_name(FractalModel::II)
    );
}

#[test]
fn test_get_current_preset_name_axe_3() {
    assert_eq!(
        vec![0xF0, 0x00, 0x01, 0x74, 0x10, 0x0D, 0x7F, 0x7F, 24, 0xF7],
        get_current_preset_name(FractalModel::III)
    );
}

#[test]
fn test_set_current_preset_name() {
    assert_eq!(
        vec![
            0xF0,
            0x00,
            0x01,
            0x74,
            model_code(FractalModel::II),
            0x09,
            0x43,
            0x68,
            0x61,
            0x6E,
            0x67,
            0x65,
            0x64,
            0x21,
            0x20,
            0x20,
            0x20,
            0x20,
            0x20,
            0x20,
            0x20,
            0x20,
            0x20,
            0x20,
            0x20,
            0x20,
            0x20,
            0x20,
            0x20,
            0x20,
            0x20,
            0x20,
            0x20,
            0x20,
            0x20,
            0x20,
            0x20,
            0x20,
            0x6C,
            0xF7
        ],
        set_current_preset_name(FractalModel::II, "Changed!")
    );
    assert_eq!(
        set_current_preset_name(FractalModel::II, "O Praise The Name (Anstasis)"),
        set_current_preset_name(FractalModel::II, "O Praise The Name (An\u{c3}\u{a1}stasis)")
    );
}

#[test]
fn test_get_firmware_version() {
    assert_eq!(
        vec![
            0xF0,
            0x00,
            0x01,
            0x74,
            model_code(FractalModel::II),
            0x08,
            14,
            0xF7
        ],
        get_firmware_version(FractalModel::II)
    );
}

#[test]
fn test_disconnect_from_controller() {
    assert_eq!(
        vec![
            0xF0,
            0x00,
            0x01,
            0x74,
            model_code(FractalModel::II),
            0x42,
            68,
            0xF7
        ],
        disconnect_from_controller(FractalModel::II)
    );
}

#[test]
fn test_get_midi_channel() {
    assert_eq!(
        vec![240, 0, 1, 116, 3, 0x17, 17, 0xF7],
        get_midi_channel(FractalModel::II)
    );
}

#[test]
fn test_toggle_tuner() {
    assert_eq!(vec![176, 15, 0], toggle_tuner(1, TunerStatus::Off));
    assert_eq!(vec![177, 15, 0], toggle_tuner(2, TunerStatus::Off));
    assert_eq!(vec![176, 15, 127], toggle_tuner(1, TunerStatus::On));
}

#[test]
fn test_toggle_metronome() {
    assert_eq!(vec![176, 122, 0], toggle_metronome(1, MetronomeStatus::Off));
    assert_eq!(vec![177, 122, 0], toggle_metronome(2, MetronomeStatus::Off));
    assert_eq!(
        vec![176, 122, 127],
        toggle_metronome(1, MetronomeStatus::On)
    );
}

#[test]
fn test_get_preset_blocks_flags() {
    assert_eq!(
        vec![240, 0, 1, 116, 3, 0x0E, 8, 0xF7],
        get_preset_blocks_flags(FractalModel::II)
    );
}

#[test]
fn test_set_scene_number() {
    assert_eq!(
        vec![240, 0, 1, 116, 3, 41, 0, 47, 247],
        set_scene_number(FractalModel::II, 1)
    );
    assert_eq!(
        vec![0xF0, 0x00, 0x01, 0x74, 0x03, 0x29, 0x00, 0x2F, 0xF7],
        set_scene_number(FractalModel::II, 1)
    );
}

#[test]
fn test_set_scene_number_axe_3() {
    assert_eq!(
        vec![0xF0, 0x00, 0x01, 0x74, 0x10, 0x0C, 0x01, 0x18, 0xF7],
        set_scene_number(FractalModel::III, 1)
    );
}

#[test]
fn test_get_grid_layout_and_routing() {
    assert_eq!(
        vec![240, 0, 1, 116, 3, 0x20, 38, 0xF7],
        get_grid_layout_and_routing(FractalModel::II)
    );
}

#[test]
fn test_get_block_parameters() {
    assert_eq!(
        vec![240, 0, 1, 116, 3, 0x01, 0, 1, 6, 0xF7],
        get_block_parameters(FractalModel::II, Effect::TremoloPanner1)
    );
    assert_eq!(
        vec![240, 0, 1, 116, 3, 0x01, 127, 0, 120, 0xF7],
        get_block_parameters(FractalModel::II, Effect::VolumePan1)
    );
    assert_eq!(
        vec![240, 0, 1, 116, 3, 0x01, 1, 1, 7, 0xF7],
        get_block_parameters(FractalModel::II, Effect::TremoloPanner2)
    );
}

#[test]
fn test_store_in_preset() {
    assert_eq!(
        vec![0xF0, 0x00, 0x01, 0x74, 0x03, 0x1D, 0x01, 0x59, 0x43, 0xF7],
        store_in_preset(FractalModel::II, 217)
    );
    assert_eq!(
        vec![
            0xF0, 0x00, 0x01, 0x74, 0x10, 0x01, 0x26, 0x00, 0x00, 0x00, 0x00, 0x00, 0x0F, 0x03,
            0x00, 0x00, 0x00, 0x00, 0x00, 0x00, 0x00, 0x3E, 0xF7
        ],
        store_in_preset(FractalModel::III, 399)
    );
}

#[test]
fn test_set_tempo() {
    assert_eq!(
        vec![0xF0, 0x00, 0x01, 0x74, 0x10, 0x14, 0x46, 0x00, 0x47, 0xF7],
        set_tempo(FractalModel::III, 70)
    );
    assert_eq!(
        vec![0xF0, 0x00, 0x01, 0x74, 0x10, 0x14, 0x0C, 0x01, 0x0C, 0xF7],
        set_tempo(FractalModel::III, 140)
    );
}
