//! Inbound message parser: the typed message union, its mathematical view,
//! and the stateless dispatcher from a complete frame to one message.

use crate::effects::effect_for_id;
use crate::effects::effect_id_from_u32;
use crate::effects::effect_of_effect_id;
use crate::effects::parameter_for_id;
use crate::envelope::spec_checksum;
use crate::envelope::spec_header;
use crate::envelope::spec_wrap;
use crate::models::spec_model_code;
use crate::wire::spec_encode_preset_number;
use crate::effects::spec_effect_for_id;
use crate::effects::spec_effect_from_raw_id;
use crate::effects::spec_effect_id_from_u32;
use crate::effects::spec_parameter_for_id;
use crate::effects::Effect;
use crate::effects::EffectID;
use crate::effects::Parameter;
use crate::models::spec_model_from_code;
use crate::models::FractalModel;
use crate::preset_name::decode_preset_name;
use crate::preset_name::spec_decode_preset_name;
use crate::wire::decode_blocks_flags_effect_id;
use crate::wire::decode_effect_id;
use crate::wire::decode_parameter_value;
use crate::wire::decode_preset_number;
use crate::wire::spec_decode_blocks_flags_effect_id;
use crate::wire::spec_decode_effect_id;
use crate::wire::spec_decode_parameter_value;
use crate::wire::spec_decode_preset_number;
use crate::MidiMessage;
use vstd::prelude::*;

verus! {

/// Whether the tuner is engaged.
#[derive(Debug, PartialEq, Eq, Structural)]
pub enum TunerStatus {
    On,
    Off,
}

/// Which of the two variants of a processing block is active.
#[derive(Debug, PartialEq, Eq, Structural)]
pub enum XYState {
    X,
    Y,
}

/// One active processing block of a preset: bypass state, X/Y variant,
/// controller number, and the block's wire effect id with its resolution.
#[derive(Debug, PartialEq, Eq, Structural)]
pub struct BlockFlags {
    pub is_bypassed: bool,
    pub xy_state: XYState,
    pub cc: u8,
    pub effect_id: u32,
    pub effect: Effect,
}

/// One cell of the fixed routing grid: empty, or an effect block with its
/// row-connection flags.
#[derive(Debug, PartialEq, Eq, Structural)]
pub enum BlockGridBlock {
    EffectBlock {
        effect_id: u32,
        effect: Effect,
        connect_row_1: bool,
        connect_row_2: bool,
        connect_row_3: bool,
        connect_row_4: bool,
    },
    Empty,
}

/// The channel (variant A through D) a block of the newer generation is on.
#[derive(Clone, Copy, Debug, PartialEq, Eq, Structural)]
pub enum Channel {
    A,
    B,
    C,
    D,
}

/// One record of a status dump of the newer generation.
#[derive(Clone, Copy, Debug, PartialEq)]
pub struct EffectStatus {
    pub effect_id: u32,
    pub effect_id_iii: Option<EffectID>,
    pub effect: Effect,
    pub bypassed: bool,
    pub channel: Channel,
    pub max_channels: u8,
}

/// Every decodable inbound event. A frame that no rule recognizes, and a
/// recognized frame whose payload is too short for its shape, decode to
/// `Unknown` with the raw bytes: parsing never fails, it degrades.
#[derive(Debug, PartialEq)]
pub enum FractalMessage {
    Unknown(MidiMessage),
    StatusDump(Vec<EffectStatus>),
    LooperState {
        record: bool,
        play: bool,
        overdub: bool,
        once: bool,
        reverse: bool,
        half_speed: bool,
    },
    CurrentPresetNumber(u32),
    PresetName(u32, String),
    SceneName(u8, String),
    CurrentPresetName(String),
    CurrentSceneNumber(u8),
    CurrentTempo(u32),
    FirmwareVersion { major: u8, minor: u8 },
    FrontPanelChangeDetected,
    MIDITempoBeat,
    MIDIChannel(u8),
    TunerInfo { note: u8, string_number: u8, tuner_data: u8 },
    PresetBlocksFlags(Vec<BlockFlags>),
    BlockGrid([[BlockGridBlock; 4]; 16]),
    BlockParameters {
        effect_id: u32,
        effect: Effect,
        parameter_id: u32,
        parameter: Parameter,
        value_raw: u32,
    },
    TunerStatus(TunerStatus),
    MultipurposeResponse { function_id: u8, response_code: u8 },
}

/// The mathematical shape of a decoded message: `FractalMessage` with every
/// byte vector, string and array read as a sequence.
pub enum MessageView {
    Unknown(Seq<u8>),
    StatusDump(Seq<EffectStatus>),
    LooperState {
        record: bool,
        play: bool,
        overdub: bool,
        once: bool,
        reverse: bool,
        half_speed: bool,
    },
    CurrentPresetNumber(u32),
    PresetName(u32, Seq<char>),
    SceneName(u8, Seq<char>),
    CurrentPresetName(Seq<char>),
    CurrentSceneNumber(u8),
    CurrentTempo(u32),
    FirmwareVersion { major: u8, minor: u8 },
    FrontPanelChangeDetected,
    MIDITempoBeat,
    MIDIChannel(u8),
    TunerInfo { note: u8, string_number: u8, tuner_data: u8 },
    PresetBlocksFlags(Seq<BlockFlags>),
    BlockGrid(Seq<Seq<BlockGridBlock>>),
    BlockParameters {
        effect_id: u32,
        effect: Effect,
        parameter_id: u32,
        parameter: Parameter,
        value_raw: u32,
    },
    TunerStatus(TunerStatus),
    MultipurposeResponse { function_id: u8, response_code: u8 },
}

impl View for FractalMessage {
    type V = MessageView;

    open spec fn view(&self) -> MessageView {
        match self {
            FractalMessage::Unknown(m) => MessageView::Unknown(m@),
            FractalMessage::StatusDump(v) => MessageView::StatusDump(v@),
            FractalMessage::LooperState { record, play, overdub, once, reverse, half_speed } => (
            MessageView::LooperState {
                record: *record,
                play: *play,
                overdub: *overdub,
                once: *once,
                reverse: *reverse,
                half_speed: *half_speed,
            }),
            FractalMessage::CurrentPresetNumber(n) => MessageView::CurrentPresetNumber(*n),
            FractalMessage::PresetName(n, s) => MessageView::PresetName(*n, s@),
            FractalMessage::SceneName(n, s) => MessageView::SceneName(*n, s@),
            FractalMessage::CurrentPresetName(s) => MessageView::CurrentPresetName(s@),
            FractalMessage::CurrentSceneNumber(n) => MessageView::CurrentSceneNumber(*n),
            FractalMessage::CurrentTempo(n) => MessageView::CurrentTempo(*n),
            FractalMessage::FirmwareVersion { major, minor } => (MessageView::FirmwareVersion {
                major: *major,
                minor: *minor,
            }),
            FractalMessage::FrontPanelChangeDetected => MessageView::FrontPanelChangeDetected,
            FractalMessage::MIDITempoBeat => MessageView::MIDITempoBeat,
            FractalMessage::MIDIChannel(n) => MessageView::MIDIChannel(*n),
            FractalMessage::TunerInfo { note, string_number, tuner_data } => (
            MessageView::TunerInfo {
                note: *note,
                string_number: *string_number,
                tuner_data: *tuner_data,
            }),
            FractalMessage::PresetBlocksFlags(v) => MessageView::PresetBlocksFlags(v@),
            FractalMessage::BlockGrid(g) => MessageView::BlockGrid(
                g@.map_values(|row: [BlockGridBlock; 4]| row@),
            ),
            FractalMessage::BlockParameters { effect_id, effect, parameter_id, parameter, value_raw } => (
            MessageView::BlockParameters {
                effect_id: *effect_id,
                effect: *effect,
                parameter_id: *parameter_id,
                parameter: *parameter,
                value_raw: *value_raw,
            }),
            FractalMessage::TunerStatus(t) => MessageView::TunerStatus(*t),
            FractalMessage::MultipurposeResponse { function_id, response_code } => (
            MessageView::MultipurposeResponse {
                function_id: *function_id,
                response_code: *response_code,
            }),
        }
    }
}

/// The copy of `msg` from index `start` on.
fn tail_from(msg: &Vec<u8>, start: usize) -> (r: Vec<u8>)
    requires
        start <= msg@.len(),
    ensures
        r@ == msg@.skip(start as int),
{
    let mut out: Vec<u8> = Vec::new();
    let mut i: usize = start;
    while i < msg.len()
        invariant
            start <= i <= msg@.len(),
            out@ == msg@.subrange(start as int, i as int),
        decreases msg@.len() - i,
    {
        out.push(msg[i]);
        assert(msg@.subrange(start as int, i + 1 as int) =~= msg@.subrange(
            start as int,
            i as int,
        ).push(msg@[i as int]));
        i = i + 1;
    }
    assert(msg@.subrange(start as int, msg@.len() as int) =~= msg@.skip(start as int));
    out
}

/// How many fixed-size windows fit in `len` bytes: every complete window
/// is kept, a trailing partial window is dropped, never padded.
pub open spec fn spec_chunk_count(len: int, size: int) -> int {
    len / size
}

/// One five-byte block-flags record: byte 0 jointly encodes the bypass and
/// X/Y booleans, bytes 1 and 2 the controller number, bytes 3 and 4 the
/// wire effect id.
pub open spec fn spec_block_flags_record(c: Seq<u8>) -> BlockFlags {
    let a = c[0];
    let b = c[1];
    let cc2 = c[2];
    let effect_id = spec_decode_blocks_flags_effect_id(c[3], c[4]);
    BlockFlags {
        is_bypassed: !(a == 3 || a == 1),
        xy_state: if a == 3 || a == 2 {
            XYState::X
        } else {
            XYState::Y
        },
        cc: (((b & 0x7e) >> 1) + ((cc2 & 3) << 6)) as u8,
        effect_id,
        effect: spec_effect_for_id(effect_id),
    }
}

/// The block-flags records of a payload, one per complete five-byte
/// window.
pub open spec fn spec_block_flags(bytes: Seq<u8>) -> Seq<BlockFlags> {
    Seq::new(
        spec_chunk_count(bytes.len() as int, 5) as nat,
        |i: int| spec_block_flags_record(bytes.subrange(5 * i, 5 * i + 5)),
    )
}

/// Every complete window lies inside the payload.
proof fn lemma_chunk_in_range(len: int, size: int, i: int)
    requires
        len >= 0,
        size > 0,
        0 <= i < spec_chunk_count(len, size),
    ensures
        i * size + size <= len,
{
    assert(i + 1 <= len / size);
    assert((i + 1) * size <= (len / size) * size) by (nonlinear_arith)
        requires
            size > 0,
            i + 1 <= len / size,
    ;
    assert((len / size) * size <= len) by (nonlinear_arith)
        requires
            size > 0,
            len >= 0,
    ;
    assert((i + 1) * size == i * size + size) by (nonlinear_arith);
}

/// Decodes the complete five-byte windows of `msg` into block-flags
/// records.
fn decode_preset_blocks_flags(msg: MidiMessage) -> (r: Vec<BlockFlags>)
    ensures
        r@ == spec_block_flags(msg@),
{
    let n: usize = msg.len() / 5;
    assert(n == spec_chunk_count(msg@.len() as int, 5));
    let mut out: Vec<BlockFlags> = Vec::new();
    let mut k: usize = 0;
    while k < n
        invariant
            k <= n,
            n == spec_chunk_count(msg@.len() as int, 5),
            n * 5 + 5 <= msg@.len() + 5,
            out@ == spec_block_flags(msg@).take(k as int),
        decreases n - k,
    {
        proof {
            lemma_chunk_in_range(msg@.len() as int, 5, k as int);
        }
        let len = msg.len();
        assert(k * 5 + 5 <= len);
        let base = k * 5;
        let a = msg[base];
        let b = msg[base + 1];
        let c = msg[base + 2];
        let d = msg[base + 3];
        let e = msg[base + 4];
        let effect_id = decode_blocks_flags_effect_id(&d, &e);
        assert(((b & 0x7e) >> 1) + ((c & 3) << 6) < 0x100) by (bit_vector);
        let record = BlockFlags {
            is_bypassed: !(a == 3 || a == 1),
            cc: ((b & 0x7e) >> 1) + ((c & 3) << 6),
            effect_id,
            effect: effect_for_id(effect_id),
            xy_state: if a == 3 || a == 2 {
                XYState::X
            } else {
                XYState::Y
            },
        };
        assert(record == spec_block_flags_record(msg@.subrange(5 * k as int, 5 * k + 5)));
        out.push(record);
        assert(out@ =~= spec_block_flags(msg@).take(k + 1 as int));
        k = k + 1;
    }
    assert(spec_block_flags(msg@).take(n as int) =~= spec_block_flags(msg@));
    out
}

/// One four-byte grid window: bytes 0 and 1 carry a flat effect id (0 means
/// an empty cell), byte 2 a four-bit row-connection mask, byte 3 is unused.
pub open spec fn spec_grid_cell(c: Seq<u8>) -> BlockGridBlock {
    let effect_id = spec_decode_effect_id(c[0], c[1]);
    if effect_id == 0 {
        BlockGridBlock::Empty
    } else {
        BlockGridBlock::EffectBlock {
            effect_id,
            effect: spec_effect_for_id(effect_id),
            connect_row_1: 0 != (c[2] & 1),
            connect_row_2: 0 != (c[2] & 2),
            connect_row_3: 0 != (c[2] & 4),
            connect_row_4: 0 != (c[2] & 8),
        }
    }
}

/// The routing grid of a payload: sixteen rows of four cells, the first
/// twelve rows from the first 48 four-byte windows in row-major order, the
/// last four rows always empty.
pub open spec fn spec_block_grid(bytes: Seq<u8>) -> Seq<Seq<BlockGridBlock>> {
    Seq::new(
        16,
        |r: int|
            Seq::new(
                4,
                |c: int|
                    if r < 12 {
                        spec_grid_cell(bytes.subrange((r * 4 + c) * 4, (r * 4 + c) * 4 + 4))
                    } else {
                        BlockGridBlock::Empty
                    },
            ),
    )
}

/// Decodes grid window `i` of `msg`.
fn grid_cell(msg: &Vec<u8>, i: usize) -> (r: BlockGridBlock)
    requires
        4 * i + 4 <= msg@.len(),
    ensures
        r == spec_grid_cell(msg@.subrange(4 * i as int, 4 * i + 4)),
{
    let len = msg.len();
    assert(4 * i + 4 <= len);
    let base = 4 * i;
    let a = msg[base];
    let b = msg[base + 1];
    let c = msg[base + 2];
    let effect_id = decode_effect_id(&a, &b);
    if effect_id == 0 {
        BlockGridBlock::Empty
    } else {
        BlockGridBlock::EffectBlock {
            effect_id,
            effect: effect_for_id(effect_id),
            connect_row_1: 0 != (c & 1),
            connect_row_2: 0 != (c & 2),
            connect_row_3: 0 != (c & 4),
            connect_row_4: 0 != (c & 8),
        }
    }
}

/// Decodes grid row `row` of `msg`, reading windows `4*row` through
/// `4*row + 3`.
fn grid_row(msg: &Vec<u8>, row: usize) -> (r: [BlockGridBlock; 4])
    requires
        row < 12,
        msg@.len() >= 192,
    ensures
        r@ =~= Seq::new(
            4,
            |c: int| spec_grid_cell(msg@.subrange((row * 4 + c) * 4, (row * 4 + c) * 4 + 4)),
        ),
{
    let r = [
        grid_cell(msg, 4 * row),
        grid_cell(msg, 4 * row + 1),
        grid_cell(msg, 4 * row + 2),
        grid_cell(msg, 4 * row + 3),
    ];
    r
}

/// A row of four empty cells.
fn empty_row() -> (r: [BlockGridBlock; 4])
    ensures
        r@ =~= Seq::new(4, |c: int| BlockGridBlock::Empty),
{
    [BlockGridBlock::Empty, BlockGridBlock::Empty, BlockGridBlock::Empty, BlockGridBlock::Empty]
}

/// Decodes a grid payload of at least 48 complete four-byte windows into
/// the fixed sixteen-by-four grid, rows twelve and later forced empty.
#[verifier::rlimit(100)]
fn decode_block_grid(msg: MidiMessage) -> (r: [[BlockGridBlock; 4]; 16])
    requires
        msg@.len() >= 192,
    ensures
        r@.map_values(|row: [BlockGridBlock; 4]| row@) =~~= spec_block_grid(msg@),
{
    let m = &msg;
    let r = [
        grid_row(m, 0),
        grid_row(m, 1),
        grid_row(m, 2),
        grid_row(m, 3),
        grid_row(m, 4),
        grid_row(m, 5),
        grid_row(m, 6),
        grid_row(m, 7),
        grid_row(m, 8),
        grid_row(m, 9),
        grid_row(m, 10),
        grid_row(m, 11),
        empty_row(),
        empty_row(),
        empty_row(),
        empty_row(),
    ];
    r
}

/// The looper transport state of a single byte: six independent flag bits.
pub open spec fn spec_looper_state(b: u8) -> MessageView {
    MessageView::LooperState {
        record: b & 0x01 != 0,
        play: b & 0x02 != 0,
        overdub: b & 0x04 != 0,
        once: b & 0x08 != 0,
        reverse: b & 0x10 != 0,
        half_speed: b & 0x20 != 0,
    }
}

/// The channel a three-bit code denotes; the codes above three have no
/// channel, and a dump containing one decodes to `Unknown` as a whole.
pub open spec fn spec_channel_from_bits(b: u8) -> Channel {
    if b == 0 {
        Channel::A
    } else if b == 1 {
        Channel::B
    } else if b == 2 {
        Channel::C
    } else {
        Channel::D
    }
}

/// Whether every exact three-byte record of a status-dump payload carries a
/// representable channel code.
pub open spec fn spec_status_ok(bytes: Seq<u8>) -> bool {
    forall|i: int|
        0 <= i < bytes.len() / 3 ==> ((#[trigger] bytes[3 * i + 2] >> 1) & 7) < 4
}

/// One three-byte status record: a raw effect id and a packed state byte.
pub open spec fn spec_status_record(c: Seq<u8>) -> EffectStatus {
    let effect_id = spec_decode_effect_id(c[0], c[1]);
    let dd = c[2];
    EffectStatus {
        effect_id,
        effect_id_iii: spec_effect_id_from_u32(effect_id),
        effect: spec_effect_from_raw_id(effect_id),
        bypassed: dd & 0x01 != 0,
        channel: spec_channel_from_bits((dd >> 1) & 7),
        max_channels: (dd >> 4) & 7,
    }
}

/// The status records of a payload, one per exact three-byte window; a
/// trailing remainder is dropped.
pub open spec fn spec_status_dump(bytes: Seq<u8>) -> Seq<EffectStatus> {
    Seq::new(
        (bytes.len() / 3) as nat,
        |i: int| spec_status_record(bytes.subrange(3 * i, 3 * i + 3)),
    )
}

/// Decodes the exact three-byte windows of a status dump; `None` when a
/// record carries a channel code above three.
fn parse_status_dump(bytes: MidiMessage) -> (r: Option<Vec<EffectStatus>>)
    ensures
        spec_status_ok(bytes@) ==> (r matches Some(v) && v@ == spec_status_dump(bytes@)),
        !spec_status_ok(bytes@) ==> r is None,
{
    let n = bytes.len() / 3;
    let mut out: Vec<EffectStatus> = Vec::new();
    let mut k: usize = 0;
    while k < n
        invariant
            k <= n,
            n == bytes@.len() / 3,
            out@ == spec_status_dump(bytes@).take(k as int),
            forall|i: int| 0 <= i < k ==> ((#[trigger] bytes@[3 * i + 2] >> 1) & 7) < 4,
        decreases n - k,
    {
        let len = bytes.len();
        assert(3 * k + 3 <= len) by (nonlinear_arith)
            requires
                k < n,
                n == len / 3,
                len == bytes@.len(),
        ;
        let base = 3 * k;
        let a = bytes[base];
        let b = bytes[base + 1];
        let dd = bytes[base + 2];
        let chan_bits = (dd >> 1) & 7;
        assert(((dd >> 1) & 7) < 8) by (bit_vector);
        let channel = if chan_bits == 0 {
            Channel::A
        } else if chan_bits == 1 {
            Channel::B
        } else if chan_bits == 2 {
            Channel::C
        } else if chan_bits == 3 {
            Channel::D
        } else {
            assert(!spec_status_ok(bytes@));
            return None;
        };
        let effect_id = decode_effect_id(&a, &b);
        let record = EffectStatus {
            effect_id,
            effect_id_iii: effect_id_from_u32(effect_id),
            effect: match effect_id_from_u32(effect_id) {
                Some(e) => effect_of_effect_id(e),
                None => Effect::Unknown,
            },
            bypassed: dd & 0x01 != 0,
            channel,
            max_channels: (dd >> 4) & 7,
        };
        assert(record == spec_status_record(bytes@.subrange(3 * k as int, 3 * k + 3)));
        out.push(record);
        assert(out@ =~= spec_status_dump(bytes@).take(k + 1 as int));
        k = k + 1;
    }
    assert(spec_status_dump(bytes@).take(n as int) =~= spec_status_dump(bytes@));
    Some(out)
}

/// The message a complete inbound byte sequence decodes to. The dispatch
/// key is the model code at index 4 and the opcode at index 5; the rules of
/// the newer generation are checked before the shared ones, because several
/// opcodes are reused with a different meaning there. A sequence no rule
/// recognizes, or whose payload is too short for the recognized shape,
/// decodes to `Unknown` with the raw bytes.
pub open spec fn spec_parse(bytes: Seq<u8>) -> MessageView {
    if bytes.len() < 6 {
        MessageView::Unknown(bytes)
    } else {
        let iii = spec_model_from_code(bytes[4]) == Some(FractalModel::III);
        let op = bytes[5];
        if iii && op == 0x13 {
            if spec_status_ok(bytes.skip(6)) {
                MessageView::StatusDump(spec_status_dump(bytes.skip(6)))
            } else {
                MessageView::Unknown(bytes)
            }
        } else if iii && op == 0x0f {
            if bytes.len() >= 7 {
                spec_looper_state(bytes[6])
            } else {
                MessageView::Unknown(bytes)
            }
        } else if iii && op == 0x14 {
            if bytes.len() >= 8 {
                MessageView::CurrentTempo(spec_decode_effect_id(bytes[6], bytes[7]))
            } else {
                MessageView::Unknown(bytes)
            }
        } else if op == 0x14 {
            if bytes.len() >= 8 {
                MessageView::CurrentPresetNumber(spec_decode_preset_number(bytes[6], bytes[7]))
            } else {
                MessageView::Unknown(bytes)
            }
        } else if op == 0x21 {
            MessageView::FrontPanelChangeDetected
        } else if op == 0x01 {
            if bytes.len() >= 13 {
                MessageView::BlockParameters {
                    effect_id: spec_decode_effect_id(bytes[6], bytes[7]),
                    effect: spec_effect_for_id(spec_decode_effect_id(bytes[6], bytes[7])),
                    parameter_id: spec_decode_effect_id(bytes[8], bytes[9]),
                    parameter: spec_parameter_for_id(spec_decode_effect_id(bytes[8], bytes[9])),
                    value_raw: spec_decode_parameter_value(bytes[10], bytes[11], bytes[12]),
                }
            } else {
                MessageView::Unknown(bytes)
            }
        } else if op == 0x08 {
            if bytes.len() >= 8 {
                MessageView::FirmwareVersion { major: bytes[6], minor: bytes[7] }
            } else {
                MessageView::Unknown(bytes)
            }
        } else if iii && op == 0x0d {
            if bytes.len() >= 8 {
                MessageView::PresetName(
                    spec_decode_effect_id(bytes[6], bytes[7]),
                    spec_decode_preset_name(bytes.skip(8)),
                )
            } else {
                MessageView::Unknown(bytes)
            }
        } else if op == 0x0f {
            MessageView::CurrentPresetName(spec_decode_preset_name(bytes.skip(6)))
        } else if op == 0x10 {
            MessageView::MIDITempoBeat
        } else if op == 0x11 {
            if bytes.len() >= 7 {
                MessageView::TunerStatus(
                    if bytes[6] == 0 {
                        TunerStatus::Off
                    } else {
                        TunerStatus::On
                    },
                )
            } else {
                MessageView::Unknown(bytes)
            }
        } else if op == 0x17 {
            if bytes.len() >= 7 {
                MessageView::MIDIChannel(
                    if bytes[6] == 255 {
                        0u8
                    } else {
                        (bytes[6] + 1) as u8
                    },
                )
            } else {
                MessageView::Unknown(bytes)
            }
        } else if op == 0x0d {
            if bytes.len() >= 9 {
                MessageView::TunerInfo {
                    note: bytes[6],
                    string_number: bytes[7],
                    tuner_data: bytes[8],
                }
            } else {
                MessageView::Unknown(bytes)
            }
        } else if iii && op == 0x0e {
            if bytes.len() >= 7 {
                MessageView::SceneName(bytes[6], spec_decode_preset_name(bytes.skip(7)))
            } else {
                MessageView::Unknown(bytes)
            }
        } else if op == 0x0e {
            MessageView::PresetBlocksFlags(spec_block_flags(bytes.skip(6)))
        } else if op == 0x20 {
            if bytes.len() >= 198 {
                MessageView::BlockGrid(spec_block_grid(bytes.skip(6)))
            } else {
                MessageView::Unknown(bytes)
            }
        } else if op == 0x29 {
            if bytes.len() >= 7 {
                MessageView::CurrentSceneNumber(
                    if bytes[6] == 255 {
                        0u8
                    } else {
                        (bytes[6] + 1) as u8
                    },
                )
            } else {
                MessageView::Unknown(bytes)
            }
        } else if iii && op == 0x0c {
            if bytes.len() >= 7 {
                MessageView::CurrentSceneNumber(bytes[6])
            } else {
                MessageView::Unknown(bytes)
            }
        } else if op == 0x64 {
            if bytes.len() >= 8 {
                MessageView::MultipurposeResponse {
                    function_id: bytes[6],
                    response_code: bytes[7],
                }
            } else {
                MessageView::Unknown(bytes)
            }
        } else {
            MessageView::Unknown(bytes)
        }
    }
}

/// Decodes one complete inbound byte sequence into its typed message:
/// exactly the message `spec_parse` gives the bytes. Parsing is total and
/// never fails; unrecognized or too-short input decodes to `Unknown`.
#[verifier::rlimit(100)]
pub fn parse_message(msg: MidiMessage) -> (r: FractalMessage)
    ensures
        r@ == spec_parse(msg@),
{
    if msg.len() < 6 {
        return FractalMessage::Unknown(msg);
    }
    let iii = matches!(FractalModel::from_code(&msg[4]), Some(FractalModel::III));
    let op = msg[5];
    if iii && op == 0x13 {
        let tail = tail_from(&msg, 6);
        match parse_status_dump(tail) {
            Some(v) => FractalMessage::StatusDump(v),
            None => FractalMessage::Unknown(msg),
        }
    } else if iii && op == 0x0f {
        if msg.len() >= 7 {
            let b = msg[6];
            FractalMessage::LooperState {
                record: b & 0x01 != 0,
                play: b & 0x02 != 0,
                overdub: b & 0x04 != 0,
                once: b & 0x08 != 0,
                reverse: b & 0x10 != 0,
                half_speed: b & 0x20 != 0,
            }
        } else {
            FractalMessage::Unknown(msg)
        }
    } else if iii && op == 0x14 {
        if msg.len() >= 8 {
            FractalMessage::CurrentTempo(decode_effect_id(&msg[6], &msg[7]))
        } else {
            FractalMessage::Unknown(msg)
        }
    } else if op == 0x14 {
        if msg.len() >= 8 {
            FractalMessage::CurrentPresetNumber(decode_preset_number(msg[6], msg[7]))
        } else {
            FractalMessage::Unknown(msg)
        }
    } else if op == 0x21 {
        FractalMessage::FrontPanelChangeDetected
    } else if op == 0x01 {
        if msg.len() >= 13 {
            let effect_id = decode_effect_id(&msg[6], &msg[7]);
            let parameter_id = decode_effect_id(&msg[8], &msg[9]);
            FractalMessage::BlockParameters {
                effect_id,
                effect: effect_for_id(effect_id),
                parameter_id,
                parameter: parameter_for_id(parameter_id),
                value_raw: decode_parameter_value(msg[10], msg[11], msg[12]),
            }
        } else {
            FractalMessage::Unknown(msg)
        }
    } else if op == 0x08 {
        if msg.len() >= 8 {
            FractalMessage::FirmwareVersion { major: msg[6], minor: msg[7] }
        } else {
            FractalMessage::Unknown(msg)
        }
    } else if iii && op == 0x0d {
        if msg.len() >= 8 {
            let index = decode_effect_id(&msg[6], &msg[7]);
            let name = decode_preset_name(tail_from(&msg, 8));
            FractalMessage::PresetName(index, name)
        } else {
            FractalMessage::Unknown(msg)
        }
    } else if op == 0x0f {
        FractalMessage::CurrentPresetName(decode_preset_name(tail_from(&msg, 6)))
    } else if op == 0x10 {
        FractalMessage::MIDITempoBeat
    } else if op == 0x11 {
        if msg.len() >= 7 {
            FractalMessage::TunerStatus(
                if msg[6] == 0 {
                    TunerStatus::Off
                } else {
                    TunerStatus::On
                },
            )
        } else {
            FractalMessage::Unknown(msg)
        }
    } else if op == 0x17 {
        if msg.len() >= 7 {
            let w = msg[6];
            FractalMessage::MIDIChannel(
                if w == 255 {
                    0
                } else {
                    w + 1
                },
            )
        } else {
            FractalMessage::Unknown(msg)
        }
    } else if op == 0x0d {
        if msg.len() >= 9 {
            FractalMessage::TunerInfo {
                note: msg[6],
                string_number: msg[7],
                tuner_data: msg[8],
            }
        } else {
            FractalMessage::Unknown(msg)
        }
    } else if iii && op == 0x0e {
        if msg.len() >= 7 {
            let scene = msg[6];
            let name = decode_preset_name(tail_from(&msg, 7));
            FractalMessage::SceneName(scene, name)
        } else {
            FractalMessage::Unknown(msg)
        }
    } else if op == 0x0e {
        FractalMessage::PresetBlocksFlags(decode_preset_blocks_flags(tail_from(&msg, 6)))
    } else if op == 0x20 {
        if msg.len() >= 198 {
            FractalMessage::BlockGrid(decode_block_grid(tail_from(&msg, 6)))
        } else {
            FractalMessage::Unknown(msg)
        }
    } else if op == 0x29 {
        if msg.len() >= 7 {
            let w = msg[6];
            FractalMessage::CurrentSceneNumber(
                if w == 255 {
                    0
                } else {
                    w + 1
                },
            )
        } else {
            FractalMessage::Unknown(msg)
        }
    } else if iii && op == 0x0c {
        if msg.len() >= 7 {
            FractalMessage::CurrentSceneNumber(msg[6])
        } else {
            FractalMessage::Unknown(msg)
        }
    } else if op == 0x64 {
        if msg.len() >= 8 {
            FractalMessage::MultipurposeResponse { function_id: msg[6], response_code: msg[7] }
        } else {
            FractalMessage::Unknown(msg)
        }
    } else {
        FractalMessage::Unknown(msg)
    }
}

/// Shape of a wrapped frame: the header, the payload at offset 4, the
/// checksum, the terminator.
proof fn lemma_wrap_shape(payload: Seq<u8>)
    ensures
        spec_wrap(payload).len() == payload.len() + 6,
        forall|i: int| 0 <= i < payload.len() ==> spec_wrap(payload)[4 + i] == payload[i],
{
    let body = spec_header() + payload;
    let framed = body + seq![0xf7u8];
    assert(framed.drop_last() =~= body);
    assert(spec_wrap(payload) =~= body + seq![spec_checksum(framed), 0xf7u8]);
}

/// Round trip of a firmware-version response: wrapping the version bytes
/// under the shared opcode and parsing the frame returns the same version,
/// for every model.
#[verifier::rlimit(100)]
pub proof fn lemma_firmware_version_round_trip(model: FractalModel, major: u8, minor: u8)
    ensures
        spec_parse(spec_wrap(seq![spec_model_code(model), 0x08u8, major, minor]))
            == (MessageView::FirmwareVersion { major, minor }),
{
    let payload = seq![spec_model_code(model), 0x08u8, major, minor];
    lemma_wrap_shape(payload);
    crate::models::lemma_model_code_round_trip(model);
}

/// Round trip of a MIDI-channel response: the wire carries the 0-based
/// value, the parser returns the 1-based channel, for every model and every
/// channel from 1 up.
#[verifier::rlimit(100)]
pub proof fn lemma_midi_channel_round_trip(model: FractalModel, channel: u8)
    requires
        channel >= 1,
    ensures
        spec_parse(spec_wrap(seq![spec_model_code(model), 0x17u8, (channel - 1) as u8]))
            == MessageView::MIDIChannel(channel),
{
    let payload = seq![spec_model_code(model), 0x17u8, (channel - 1) as u8];
    lemma_wrap_shape(payload);
    crate::models::lemma_model_code_round_trip(model);
}

/// Round trip of a tuner-info response on the models that use the shared
/// meaning of its opcode (the newer generation reuses it for preset names):
/// the three bytes come back unchanged.
#[verifier::rlimit(100)]
pub proof fn lemma_tuner_info_round_trip(model: FractalModel, note: u8, string_number: u8, tuner_data: u8)
    requires
        model != FractalModel::III,
    ensures
        spec_parse(spec_wrap(seq![spec_model_code(model), 0x0du8, note, string_number, tuner_data]))
            == (MessageView::TunerInfo { note, string_number, tuner_data }),
{
    let payload = seq![spec_model_code(model), 0x0du8, note, string_number, tuner_data];
    lemma_wrap_shape(payload);
    crate::models::lemma_model_code_round_trip(model);
}

/// Round trip of a preset-number response on the models that use the shared
/// meaning of its opcode (the newer generation reuses it for the tempo):
/// encoding a 14-bit preset number, wrapping it and parsing the frame
/// returns the same number.
#[verifier::rlimit(100)]
pub proof fn lemma_preset_number_frame_round_trip(model: FractalModel, n: u32)
    requires
        model != FractalModel::III,
        n < 0x4000,
    ensures
        spec_parse(
            spec_wrap(
                seq![
                    spec_model_code(model),
                    0x14u8,
                    spec_encode_preset_number(n).0,
                    spec_encode_preset_number(n).1,
                ],
            ),
        ) == MessageView::CurrentPresetNumber(n),
{
    let payload = seq![
        spec_model_code(model),
        0x14u8,
        spec_encode_preset_number(n).0,
        spec_encode_preset_number(n).1,
    ];
    lemma_wrap_shape(payload);
    crate::models::lemma_model_code_round_trip(model);
    crate::wire::lemma_preset_number_round_trip(n);
}

/// Round trip of a tempo response of the newer generation: its reused
/// opcode carries the 14-bit value low half first, and parsing returns the
/// same value.
#[verifier::rlimit(100)]
pub proof fn lemma_tempo_frame_round_trip(n: u32)
    requires
        n < 0x4000,
    ensures
        spec_parse(
            spec_wrap(
                seq![
                    spec_model_code(FractalModel::III),
                    0x14u8,
                    spec_encode_preset_number(n).1,
                    spec_encode_preset_number(n).0,
                ],
            ),
        ) == MessageView::CurrentTempo(n),
{
    let payload = seq![
        spec_model_code(FractalModel::III),
        0x14u8,
        spec_encode_preset_number(n).1,
        spec_encode_preset_number(n).0,
    ];
    lemma_wrap_shape(payload);
    crate::models::lemma_model_code_round_trip(FractalModel::III);
    crate::wire::lemma_tempo_round_trip(n);
}

/// Round trip of scene selection: the older generations send the 0-based
/// wire value and the parser maps it back to the 1-based scene; the newer
/// generation carries the logical value directly under its own opcode.
#[verifier::rlimit(100)]
pub proof fn lemma_scene_number_round_trip(model: FractalModel, scene: u8)
    requires
        scene >= 1,
    ensures
        model != FractalModel::III ==> spec_parse(
            spec_wrap(seq![spec_model_code(model), 0x29u8, (scene - 1) as u8]),
        ) == MessageView::CurrentSceneNumber(scene),
        spec_parse(
            spec_wrap(seq![spec_model_code(FractalModel::III), 0x0cu8, scene]),
        ) == MessageView::CurrentSceneNumber(scene),
{
    if model != FractalModel::III {
        let payload = seq![spec_model_code(model), 0x29u8, (scene - 1) as u8];
        lemma_wrap_shape(payload);
        crate::models::lemma_model_code_round_trip(model);
    }
    let payload = seq![spec_model_code(FractalModel::III), 0x0cu8, scene];
    lemma_wrap_shape(payload);
    crate::models::lemma_model_code_round_trip(FractalModel::III);
}

} // verus!
