//! Effect and parameter catalogs: the closed effect enumeration, the two
//! non-overlapping effect-id generations (the flat per-slot id space and the
//! denser raw-id space of the newer generation), the small parameter table,
//! and the duality lemmas of the tables.

use vstd::prelude::*;

verus! {

/// The processing-block types across both hardware generations.
#[derive(Clone, Copy, Debug, PartialEq, Eq, Structural)]
pub enum Effect {
    Amp1,
    Amp2,
    Amp3,
    Amp4,
    Cab1,
    Cab2,
    Cab3,
    Cab4,
    Chorus1,
    Chorus2,
    Chorus3,
    Chorus4,
    Compressor1,
    Compressor2,
    Compressor3,
    Compressor4,
    Control,
    Controllers,
    Crossover1,
    Crossover2,
    Crossover3,
    Crossover4,
    Delay1,
    Delay2,
    Delay3,
    Delay4,
    Drive1,
    Drive2,
    Drive3,
    Drive4,
    Enhancer1,
    Enhancer2,
    Enhancer3,
    Enhancer4,
    FeedbackReturn1,
    FeedbackReturn2,
    FeedbackReturn3,
    FeedbackReturn4,
    FeedbackSend1,
    FeedbackSend2,
    FeedbackSend3,
    FeedbackSend4,
    Filter1,
    Filter2,
    Filter3,
    Filter4,
    Flanger1,
    Flanger2,
    Flanger3,
    Flanger4,
    FootController,
    Formant,
    Formant2,
    Formant3,
    Formant4,
    FXLoop,
    GateExpander1,
    GateExpander2,
    GateExpander3,
    GateExpander4,
    GraphicEQ1,
    GraphicEQ2,
    GraphicEQ3,
    GraphicEQ4,
    Input1,
    Input2,
    Input3,
    Input4,
    Input5,
    InputNoiseGate,
    IRCapture,
    IRPlayer1,
    IRPlayer2,
    IRPlayer3,
    IRPlayer4,
    Looper1,
    Looper2,
    Looper3,
    Looper4,
    MegatapDelay1,
    MegatapDelay2,
    MegatapDelay3,
    MegatapDelay4,
    MIDI,
    Mixer1,
    Mixer2,
    Mixer3,
    Mixer4,
    MultibandCompressor1,
    MultibandCompressor2,
    MultibandCompressor3,
    MultibandCompressor4,
    MultiDelay1,
    MultiDelay2,
    MultiDelay3,
    MultiDelay4,
    Multiplexer1,
    Multiplexer2,
    Multiplexer3,
    Multiplexer4,
    Output,
    Output1,
    Output2,
    Output3,
    Output4,
    ParametricEQ1,
    ParametricEQ2,
    ParametricEQ3,
    ParametricEQ4,
    Phaser1,
    Phaser2,
    Phaser3,
    Phaser4,
    Pitch1,
    Pitch2,
    Pitch3,
    Pitch4,
    PlexDelay1,
    PlexDelay2,
    PlexDelay3,
    PlexDelay4,
    PresetFC,
    QuadChorus1,
    QuadChorus2,
    RealtimeAnalyzer1,
    RealtimeAnalyzer2,
    RealtimeAnalyzer3,
    RealtimeAnalyzer4,
    Resonator1,
    Resonator2,
    Resonator3,
    Resonator4,
    Reverb1,
    Reverb2,
    Reverb3,
    Reverb4,
    RingModulator1,
    RingModulator2,
    RingModulator3,
    RingModulator4,
    RotarySpeaker1,
    RotarySpeaker2,
    RotarySpeaker3,
    RotarySpeaker4,
    Shunt,
    Synth1,
    Synth2,
    Synth3,
    Synth4,
    TenTapDelay1,
    TenTapDelay2,
    TenTapDelay3,
    TenTapDelay4,
    ToneMatch1,
    ToneMatch2,
    ToneMatch3,
    ToneMatch4,
    TremoloPanner1,
    TremoloPanner2,
    TremoloPanner3,
    TremoloPanner4,
    Tuner,
    Unknown,
    Vocoder1,
    Vocoder2,
    Vocoder3,
    Vocoder4,
    VolumePan1,
    VolumePan2,
    VolumePan3,
    VolumePan4,
    Wah1,
    Wah2,
    Wah3,
    Wah4,
}

/// The raw effect ids of the newer hardware generation.
#[allow(non_camel_case_types)]
#[derive(Clone, Copy, Debug, PartialEq, Eq, Structural)]
pub enum EffectID {
    ID_CONTROL,
    ID_TUNER,
    ID_IRCAPTURE,
    ID_INPUT1,
    ID_INPUT2,
    ID_INPUT3,
    ID_INPUT4,
    ID_INPUT5,
    ID_OUTPUT1,
    ID_OUTPUT2,
    ID_OUTPUT3,
    ID_OUTPUT4,
    ID_COMP1,
    ID_COMP2,
    ID_COMP3,
    ID_COMP4,
    ID_GRAPHEQ1,
    ID_GRAPHEQ2,
    ID_GRAPHEQ3,
    ID_GRAPHEQ4,
    ID_PARAEQ1,
    ID_PARAEQ2,
    ID_PARAEQ3,
    ID_PARAEQ4,
    ID_DISTORT1,
    ID_DISTORT2,
    ID_DISTORT3,
    ID_DISTORT4,
    ID_CAB1,
    ID_CAB2,
    ID_CAB3,
    ID_CAB4,
    ID_REVERB1,
    ID_REVERB2,
    ID_REVERB3,
    ID_REVERB4,
    ID_DELAY1,
    ID_DELAY2,
    ID_DELAY3,
    ID_DELAY4,
    ID_MULTITAP1,
    ID_MULTITAP2,
    ID_MULTITAP3,
    ID_MULTITAP4,
    ID_CHORUS1,
    ID_CHORUS2,
    ID_CHORUS3,
    ID_CHORUS4,
    ID_FLANGER1,
    ID_FLANGER2,
    ID_FLANGER3,
    ID_FLANGER4,
    ID_ROTARY1,
    ID_ROTARY2,
    ID_ROTARY3,
    ID_ROTARY4,
    ID_PHASER1,
    ID_PHASER2,
    ID_PHASER3,
    ID_PHASER4,
    ID_WAH1,
    ID_WAH2,
    ID_WAH3,
    ID_WAH4,
    ID_FORMANT1,
    ID_FORMANT2,
    ID_FORMANT3,
    ID_FORMANT4,
    ID_VOLUME1,
    ID_VOLUME2,
    ID_VOLUME3,
    ID_VOLUME4,
    ID_TREMOLO1,
    ID_TREMOLO2,
    ID_TREMOLO3,
    ID_TREMOLO4,
    ID_PITCH1,
    ID_PITCH2,
    ID_PITCH3,
    ID_PITCH4,
    ID_FILTER1,
    ID_FILTER2,
    ID_FILTER3,
    ID_FILTER4,
    ID_FUZZ1,
    ID_FUZZ2,
    ID_FUZZ3,
    ID_FUZZ4,
    ID_ENHANCER1,
    ID_ENHANCER2,
    ID_ENHANCER3,
    ID_ENHANCER4,
    ID_MIXER1,
    ID_MIXER2,
    ID_MIXER3,
    ID_MIXER4,
    ID_SYNTH1,
    ID_SYNTH2,
    ID_SYNTH3,
    ID_SYNTH4,
    ID_VOCODER1,
    ID_VOCODER2,
    ID_VOCODER3,
    ID_VOCODER4,
    ID_MEGATAP1,
    ID_MEGATAP2,
    ID_MEGATAP3,
    ID_MEGATAP4,
    ID_CROSSOVER1,
    ID_CROSSOVER2,
    ID_CROSSOVER3,
    ID_CROSSOVER4,
    ID_GATE1,
    ID_GATE2,
    ID_GATE3,
    ID_GATE4,
    ID_RINGMOD1,
    ID_RINGMOD2,
    ID_RINGMOD3,
    ID_RINGMOD4,
    ID_MULTICOMP1,
    ID_MULTICOMP2,
    ID_MULTICOMP3,
    ID_MULTICOMP4,
    ID_TENTAP1,
    ID_TENTAP2,
    ID_TENTAP3,
    ID_TENTAP4,
    ID_RESONATOR1,
    ID_RESONATOR2,
    ID_RESONATOR3,
    ID_RESONATOR4,
    ID_LOOPER1,
    ID_LOOPER2,
    ID_LOOPER3,
    ID_LOOPER4,
    ID_TONEMATCH1,
    ID_TONEMATCH2,
    ID_TONEMATCH3,
    ID_TONEMATCH4,
    ID_RTA1,
    ID_RTA2,
    ID_RTA3,
    ID_RTA4,
    ID_PLEX1,
    ID_PLEX2,
    ID_PLEX3,
    ID_PLEX4,
    ID_FBSEND1,
    ID_FBSEND2,
    ID_FBSEND3,
    ID_FBSEND4,
    ID_FBRETURN1,
    ID_FBRETURN2,
    ID_FBRETURN3,
    ID_FBRETURN4,
    ID_MIDIBLOCK,
    ID_MULTIPLEXER1,
    ID_MULTIPLEXER2,
    ID_MULTIPLEXER3,
    ID_MULTIPLEXER4,
    ID_IRPLAYER1,
    ID_IRPLAYER2,
    ID_IRPLAYER3,
    ID_IRPLAYER4,
    ID_FOOTCONTROLLER,
    ID_PRESET_FC,
}

/// The per-block tunable parameters, keyed by small integer id.
#[derive(Debug, PartialEq, Eq, Structural)]
pub enum Parameter {
    EffectType,
    InputDrive,
    Bass,
    Middle,
    Treble,
    MasterVolume,
    PreampLowCut,
    HighCutFrequency,
    Unknown,
}

/// The flat-generation wire id of an effect; 0 when the effect has no
/// encoding in that generation (the same sentinel the grid decoder uses for
/// an empty cell).
pub open spec fn spec_id_for_effect(effect: Effect) -> u8 {
    match effect {
        Effect::Compressor1 => 100,
        Effect::Compressor2 => 101,
        Effect::GraphicEQ1 => 102,
        Effect::GraphicEQ2 => 103,
        Effect::ParametricEQ1 => 104,
        Effect::ParametricEQ2 => 105,
        Effect::Amp1 => 106,
        Effect::Amp2 => 107,
        Effect::Cab1 => 108,
        Effect::Cab2 => 109,
        Effect::Reverb1 => 110,
        Effect::Reverb2 => 111,
        Effect::Delay1 => 112,
        Effect::Delay2 => 113,
        Effect::MultiDelay1 => 114,
        Effect::MultiDelay2 => 115,
        Effect::Chorus1 => 116,
        Effect::Chorus2 => 117,
        Effect::Flanger1 => 118,
        Effect::Flanger2 => 119,
        Effect::RotarySpeaker1 => 120,
        Effect::RotarySpeaker2 => 121,
        Effect::Phaser1 => 122,
        Effect::Phaser2 => 123,
        Effect::Wah1 => 124,
        Effect::Wah2 => 125,
        Effect::Formant => 126,
        Effect::VolumePan1 => 127,
        Effect::TremoloPanner1 => 128,
        Effect::TremoloPanner2 => 129,
        Effect::Pitch1 => 130,
        Effect::Filter1 => 131,
        Effect::Filter2 => 132,
        Effect::Drive1 => 133,
        Effect::Drive2 => 134,
        Effect::Enhancer1 => 135,
        Effect::FXLoop => 136,
        Effect::Mixer1 => 137,
        Effect::Mixer2 => 138,
        Effect::InputNoiseGate => 139,
        Effect::Output => 140,
        Effect::Controllers => 141,
        Effect::FeedbackSend1 => 142,
        Effect::FeedbackReturn1 => 143,
        Effect::Synth1 => 144,
        Effect::Synth2 => 145,
        Effect::Vocoder1 => 146,
        Effect::MegatapDelay1 => 147,
        Effect::Crossover1 => 148,
        Effect::Crossover2 => 149,
        Effect::GateExpander1 => 150,
        Effect::GateExpander2 => 151,
        Effect::Pitch2 => 153,
        Effect::MultibandCompressor1 => 154,
        Effect::MultibandCompressor2 => 155,
        Effect::QuadChorus1 => 156,
        Effect::QuadChorus2 => 157,
        Effect::Resonator1 => 158,
        Effect::Resonator2 => 159,
        Effect::GraphicEQ3 => 160,
        Effect::GraphicEQ4 => 161,
        Effect::ParametricEQ3 => 162,
        Effect::ParametricEQ4 => 163,
        Effect::Filter3 => 164,
        Effect::Filter4 => 165,
        Effect::VolumePan2 => 166,
        Effect::VolumePan3 => 167,
        Effect::VolumePan4 => 168,
        Effect::Looper1 => 169,
        Effect::Shunt => 207,
        _ => 0,
    }
}

/// The flat-generation wire id of `effect`; 0 when the effect has no
/// encoding in that generation.
pub fn id_for_effect(effect: Effect) -> (r: u8)
    ensures
        r == spec_id_for_effect(effect),
{
    match effect {
        Effect::Compressor1 => 100,
        Effect::Compressor2 => 101,
        Effect::GraphicEQ1 => 102,
        Effect::GraphicEQ2 => 103,
        Effect::ParametricEQ1 => 104,
        Effect::ParametricEQ2 => 105,
        Effect::Amp1 => 106,
        Effect::Amp2 => 107,
        Effect::Cab1 => 108,
        Effect::Cab2 => 109,
        Effect::Reverb1 => 110,
        Effect::Reverb2 => 111,
        Effect::Delay1 => 112,
        Effect::Delay2 => 113,
        Effect::MultiDelay1 => 114,
        Effect::MultiDelay2 => 115,
        Effect::Chorus1 => 116,
        Effect::Chorus2 => 117,
        Effect::Flanger1 => 118,
        Effect::Flanger2 => 119,
        Effect::RotarySpeaker1 => 120,
        Effect::RotarySpeaker2 => 121,
        Effect::Phaser1 => 122,
        Effect::Phaser2 => 123,
        Effect::Wah1 => 124,
        Effect::Wah2 => 125,
        Effect::Formant => 126,
        Effect::VolumePan1 => 127,
        Effect::TremoloPanner1 => 128,
        Effect::TremoloPanner2 => 129,
        Effect::Pitch1 => 130,
        Effect::Filter1 => 131,
        Effect::Filter2 => 132,
        Effect::Drive1 => 133,
        Effect::Drive2 => 134,
        Effect::Enhancer1 => 135,
        Effect::FXLoop => 136,
        Effect::Mixer1 => 137,
        Effect::Mixer2 => 138,
        Effect::InputNoiseGate => 139,
        Effect::Output => 140,
        Effect::Controllers => 141,
        Effect::FeedbackSend1 => 142,
        Effect::FeedbackReturn1 => 143,
        Effect::Synth1 => 144,
        Effect::Synth2 => 145,
        Effect::Vocoder1 => 146,
        Effect::MegatapDelay1 => 147,
        Effect::Crossover1 => 148,
        Effect::Crossover2 => 149,
        Effect::GateExpander1 => 150,
        Effect::GateExpander2 => 151,
        Effect::Pitch2 => 153,
        Effect::MultibandCompressor1 => 154,
        Effect::MultibandCompressor2 => 155,
        Effect::QuadChorus1 => 156,
        Effect::QuadChorus2 => 157,
        Effect::Resonator1 => 158,
        Effect::Resonator2 => 159,
        Effect::GraphicEQ3 => 160,
        Effect::GraphicEQ4 => 161,
        Effect::ParametricEQ3 => 162,
        Effect::ParametricEQ4 => 163,
        Effect::Filter3 => 164,
        Effect::Filter4 => 165,
        Effect::VolumePan2 => 166,
        Effect::VolumePan3 => 167,
        Effect::VolumePan4 => 168,
        Effect::Looper1 => 169,
        Effect::Shunt => 207,
        _ => 0,
    }
}

/// The effect a flat-generation wire id denotes; `Unknown` for every id
/// outside the table.
pub open spec fn spec_effect_for_id(id: u32) -> Effect {

    if id == 2 {
        Effect::Control
    } else if id == 100 {
        Effect::Compressor1
    } else if id == 101 {
        Effect::Compressor2
    } else if id == 102 {
        Effect::GraphicEQ1
    } else if id == 103 {
        Effect::GraphicEQ2
    } else if id == 104 {
        Effect::ParametricEQ1
    } else if id == 105 {
        Effect::ParametricEQ2
    } else if id == 106 {
        Effect::Amp1
    } else if id == 107 {
        Effect::Amp2
    } else if id == 108 {
        Effect::Cab1
    } else if id == 109 {
        Effect::Cab2
    } else if id == 110 {
        Effect::Reverb1
    } else if id == 111 {
        Effect::Reverb2
    } else if id == 112 {
        Effect::Delay1
    } else if id == 113 {
        Effect::Delay2
    } else if id == 114 {
        Effect::MultiDelay1
    } else if id == 115 {
        Effect::MultiDelay2
    } else if id == 116 {
        Effect::Chorus1
    } else if id == 117 {
        Effect::Chorus2
    } else if id == 118 {
        Effect::Flanger1
    } else if id == 119 {
        Effect::Flanger2
    } else if id == 120 {
        Effect::RotarySpeaker1
    } else if id == 121 {
        Effect::RotarySpeaker2
    } else if id == 122 {
        Effect::Phaser1
    } else if id == 123 {
        Effect::Phaser2
    } else if id == 124 {
        Effect::Wah1
    } else if id == 125 {
        Effect::Wah2
    } else if id == 126 {
        Effect::Formant
    } else if id == 127 {
        Effect::VolumePan1
    } else if id == 128 {
        Effect::TremoloPanner1
    } else if id == 129 {
        Effect::TremoloPanner2
    } else if id == 130 {
        Effect::Pitch1
    } else if id == 131 {
        Effect::Filter1
    } else if id == 132 {
        Effect::Filter2
    } else if id == 133 {
        Effect::Drive1
    } else if id == 134 {
        Effect::Drive2
    } else if id == 135 {
        Effect::Enhancer1
    } else if id == 136 {
        Effect::FXLoop
    } else if id == 137 {
        Effect::Mixer1
    } else if id == 138 {
        Effect::Mixer2
    } else if id == 139 {
        Effect::InputNoiseGate
    } else if id == 140 {
        Effect::Output
    } else if id == 141 {
        Effect::Controllers
    } else if id == 142 {
        Effect::FeedbackSend1
    } else if id == 143 {
        Effect::FeedbackReturn1
    } else if id == 144 {
        Effect::Synth1
    } else if id == 145 {
        Effect::Synth2
    } else if id == 146 {
        Effect::Vocoder1
    } else if id == 147 {
        Effect::MegatapDelay1
    } else if id == 148 {
        Effect::Crossover1
    } else if id == 149 {
        Effect::Crossover2
    } else if id == 150 {
        Effect::GateExpander1
    } else if id == 151 {
        Effect::GateExpander2
    } else if id == 153 {
        Effect::Pitch2
    } else if id == 154 {
        Effect::MultibandCompressor1
    } else if id == 155 {
        Effect::MultibandCompressor2
    } else if id == 156 {
        Effect::QuadChorus1
    } else if id == 157 {
        Effect::QuadChorus2
    } else if id == 158 {
        Effect::Resonator1
    } else if id == 159 {
        Effect::Resonator2
    } else if id == 160 {
        Effect::GraphicEQ3
    } else if id == 161 {
        Effect::GraphicEQ4
    } else if id == 162 {
        Effect::ParametricEQ3
    } else if id == 163 {
        Effect::ParametricEQ4
    } else if id == 164 {
        Effect::Filter3
    } else if id == 165 {
        Effect::Filter4
    } else if id == 166 {
        Effect::VolumePan2
    } else if id == 167 {
        Effect::VolumePan3
    } else if id == 168 {
        Effect::VolumePan4
    } else if id == 169 {
        Effect::Looper1
    } else if id == 207 {
        Effect::Shunt
    } else {
        Effect::Unknown
    }
}

/// The effect a flat-generation wire id denotes; `Unknown` for every id
/// outside the table.
pub fn effect_for_id(id: u32) -> (r: Effect)
    ensures
        r == spec_effect_for_id(id),
{

    if id == 2 {
        Effect::Control
    } else if id == 100 {
        Effect::Compressor1
    } else if id == 101 {
        Effect::Compressor2
    } else if id == 102 {
        Effect::GraphicEQ1
    } else if id == 103 {
        Effect::GraphicEQ2
    } else if id == 104 {
        Effect::ParametricEQ1
    } else if id == 105 {
        Effect::ParametricEQ2
    } else if id == 106 {
        Effect::Amp1
    } else if id == 107 {
        Effect::Amp2
    } else if id == 108 {
        Effect::Cab1
    } else if id == 109 {
        Effect::Cab2
    } else if id == 110 {
        Effect::Reverb1
    } else if id == 111 {
        Effect::Reverb2
    } else if id == 112 {
        Effect::Delay1
    } else if id == 113 {
        Effect::Delay2
    } else if id == 114 {
        Effect::MultiDelay1
    } else if id == 115 {
        Effect::MultiDelay2
    } else if id == 116 {
        Effect::Chorus1
    } else if id == 117 {
        Effect::Chorus2
    } else if id == 118 {
        Effect::Flanger1
    } else if id == 119 {
        Effect::Flanger2
    } else if id == 120 {
        Effect::RotarySpeaker1
    } else if id == 121 {
        Effect::RotarySpeaker2
    } else if id == 122 {
        Effect::Phaser1
    } else if id == 123 {
        Effect::Phaser2
    } else if id == 124 {
        Effect::Wah1
    } else if id == 125 {
        Effect::Wah2
    } else if id == 126 {
        Effect::Formant
    } else if id == 127 {
        Effect::VolumePan1
    } else if id == 128 {
        Effect::TremoloPanner1
    } else if id == 129 {
        Effect::TremoloPanner2
    } else if id == 130 {
        Effect::Pitch1
    } else if id == 131 {
        Effect::Filter1
    } else if id == 132 {
        Effect::Filter2
    } else if id == 133 {
        Effect::Drive1
    } else if id == 134 {
        Effect::Drive2
    } else if id == 135 {
        Effect::Enhancer1
    } else if id == 136 {
        Effect::FXLoop
    } else if id == 137 {
        Effect::Mixer1
    } else if id == 138 {
        Effect::Mixer2
    } else if id == 139 {
        Effect::InputNoiseGate
    } else if id == 140 {
        Effect::Output
    } else if id == 141 {
        Effect::Controllers
    } else if id == 142 {
        Effect::FeedbackSend1
    } else if id == 143 {
        Effect::FeedbackReturn1
    } else if id == 144 {
        Effect::Synth1
    } else if id == 145 {
        Effect::Synth2
    } else if id == 146 {
        Effect::Vocoder1
    } else if id == 147 {
        Effect::MegatapDelay1
    } else if id == 148 {
        Effect::Crossover1
    } else if id == 149 {
        Effect::Crossover2
    } else if id == 150 {
        Effect::GateExpander1
    } else if id == 151 {
        Effect::GateExpander2
    } else if id == 153 {
        Effect::Pitch2
    } else if id == 154 {
        Effect::MultibandCompressor1
    } else if id == 155 {
        Effect::MultibandCompressor2
    } else if id == 156 {
        Effect::QuadChorus1
    } else if id == 157 {
        Effect::QuadChorus2
    } else if id == 158 {
        Effect::Resonator1
    } else if id == 159 {
        Effect::Resonator2
    } else if id == 160 {
        Effect::GraphicEQ3
    } else if id == 161 {
        Effect::GraphicEQ4
    } else if id == 162 {
        Effect::ParametricEQ3
    } else if id == 163 {
        Effect::ParametricEQ4
    } else if id == 164 {
        Effect::Filter3
    } else if id == 165 {
        Effect::Filter4
    } else if id == 166 {
        Effect::VolumePan2
    } else if id == 167 {
        Effect::VolumePan3
    } else if id == 168 {
        Effect::VolumePan4
    } else if id == 169 {
        Effect::Looper1
    } else if id == 207 {
        Effect::Shunt
    } else {
        Effect::Unknown
    }
}

/// The raw id a member of the newer generation's id space is transmitted as.
pub open spec fn spec_raw_id_of(e: EffectID) -> u32 {
    match e {
        EffectID::ID_CONTROL => 2,
        EffectID::ID_TUNER => 35,
        EffectID::ID_IRCAPTURE => 36,
        EffectID::ID_INPUT1 => 37,
        EffectID::ID_INPUT2 => 38,
        EffectID::ID_INPUT3 => 39,
        EffectID::ID_INPUT4 => 40,
        EffectID::ID_INPUT5 => 41,
        EffectID::ID_OUTPUT1 => 42,
        EffectID::ID_OUTPUT2 => 43,
        EffectID::ID_OUTPUT3 => 44,
        EffectID::ID_OUTPUT4 => 45,
        EffectID::ID_COMP1 => 46,
        EffectID::ID_COMP2 => 47,
        EffectID::ID_COMP3 => 48,
        EffectID::ID_COMP4 => 49,
        EffectID::ID_GRAPHEQ1 => 50,
        EffectID::ID_GRAPHEQ2 => 51,
        EffectID::ID_GRAPHEQ3 => 52,
        EffectID::ID_GRAPHEQ4 => 53,
        EffectID::ID_PARAEQ1 => 54,
        EffectID::ID_PARAEQ2 => 55,
        EffectID::ID_PARAEQ3 => 56,
        EffectID::ID_PARAEQ4 => 57,
        EffectID::ID_DISTORT1 => 58,
        EffectID::ID_DISTORT2 => 59,
        EffectID::ID_DISTORT3 => 60,
        EffectID::ID_DISTORT4 => 61,
        EffectID::ID_CAB1 => 62,
        EffectID::ID_CAB2 => 63,
        EffectID::ID_CAB3 => 64,
        EffectID::ID_CAB4 => 65,
        EffectID::ID_REVERB1 => 66,
        EffectID::ID_REVERB2 => 67,
        EffectID::ID_REVERB3 => 68,
        EffectID::ID_REVERB4 => 69,
        EffectID::ID_DELAY1 => 70,
        EffectID::ID_DELAY2 => 71,
        EffectID::ID_DELAY3 => 72,
        EffectID::ID_DELAY4 => 73,
        EffectID::ID_MULTITAP1 => 74,
        EffectID::ID_MULTITAP2 => 75,
        EffectID::ID_MULTITAP3 => 76,
        EffectID::ID_MULTITAP4 => 77,
        EffectID::ID_CHORUS1 => 78,
        EffectID::ID_CHORUS2 => 79,
        EffectID::ID_CHORUS3 => 80,
        EffectID::ID_CHORUS4 => 81,
        EffectID::ID_FLANGER1 => 82,
        EffectID::ID_FLANGER2 => 83,
        EffectID::ID_FLANGER3 => 84,
        EffectID::ID_FLANGER4 => 85,
        EffectID::ID_ROTARY1 => 86,
        EffectID::ID_ROTARY2 => 87,
        EffectID::ID_ROTARY3 => 88,
        EffectID::ID_ROTARY4 => 89,
        EffectID::ID_PHASER1 => 90,
        EffectID::ID_PHASER2 => 91,
        EffectID::ID_PHASER3 => 92,
        EffectID::ID_PHASER4 => 93,
        EffectID::ID_WAH1 => 94,
        EffectID::ID_WAH2 => 95,
        EffectID::ID_WAH3 => 96,
        EffectID::ID_WAH4 => 97,
        EffectID::ID_FORMANT1 => 98,
        EffectID::ID_FORMANT2 => 99,
        EffectID::ID_FORMANT3 => 100,
        EffectID::ID_FORMANT4 => 101,
        EffectID::ID_VOLUME1 => 102,
        EffectID::ID_VOLUME2 => 103,
        EffectID::ID_VOLUME3 => 104,
        EffectID::ID_VOLUME4 => 105,
        EffectID::ID_TREMOLO1 => 106,
        EffectID::ID_TREMOLO2 => 107,
        EffectID::ID_TREMOLO3 => 108,
        EffectID::ID_TREMOLO4 => 109,
        EffectID::ID_PITCH1 => 110,
        EffectID::ID_PITCH2 => 111,
        EffectID::ID_PITCH3 => 112,
        EffectID::ID_PITCH4 => 113,
        EffectID::ID_FILTER1 => 114,
        EffectID::ID_FILTER2 => 115,
        EffectID::ID_FILTER3 => 116,
        EffectID::ID_FILTER4 => 117,
        EffectID::ID_FUZZ1 => 118,
        EffectID::ID_FUZZ2 => 119,
        EffectID::ID_FUZZ3 => 120,
        EffectID::ID_FUZZ4 => 121,
        EffectID::ID_ENHANCER1 => 122,
        EffectID::ID_ENHANCER2 => 123,
        EffectID::ID_ENHANCER3 => 124,
        EffectID::ID_ENHANCER4 => 125,
        EffectID::ID_MIXER1 => 126,
        EffectID::ID_MIXER2 => 127,
        EffectID::ID_MIXER3 => 128,
        EffectID::ID_MIXER4 => 129,
        EffectID::ID_SYNTH1 => 130,
        EffectID::ID_SYNTH2 => 131,
        EffectID::ID_SYNTH3 => 132,
        EffectID::ID_SYNTH4 => 133,
        EffectID::ID_VOCODER1 => 134,
        EffectID::ID_VOCODER2 => 135,
        EffectID::ID_VOCODER3 => 136,
        EffectID::ID_VOCODER4 => 137,
        EffectID::ID_MEGATAP1 => 138,
        EffectID::ID_MEGATAP2 => 139,
        EffectID::ID_MEGATAP3 => 140,
        EffectID::ID_MEGATAP4 => 141,
        EffectID::ID_CROSSOVER1 => 142,
        EffectID::ID_CROSSOVER2 => 143,
        EffectID::ID_CROSSOVER3 => 144,
        EffectID::ID_CROSSOVER4 => 145,
        EffectID::ID_GATE1 => 146,
        EffectID::ID_GATE2 => 147,
        EffectID::ID_GATE3 => 148,
        EffectID::ID_GATE4 => 149,
        EffectID::ID_RINGMOD1 => 150,
        EffectID::ID_RINGMOD2 => 151,
        EffectID::ID_RINGMOD3 => 152,
        EffectID::ID_RINGMOD4 => 153,
        EffectID::ID_MULTICOMP1 => 154,
        EffectID::ID_MULTICOMP2 => 155,
        EffectID::ID_MULTICOMP3 => 156,
        EffectID::ID_MULTICOMP4 => 157,
        EffectID::ID_TENTAP1 => 158,
        EffectID::ID_TENTAP2 => 159,
        EffectID::ID_TENTAP3 => 160,
        EffectID::ID_TENTAP4 => 161,
        EffectID::ID_RESONATOR1 => 162,
        EffectID::ID_RESONATOR2 => 163,
        EffectID::ID_RESONATOR3 => 164,
        EffectID::ID_RESONATOR4 => 165,
        EffectID::ID_LOOPER1 => 166,
        EffectID::ID_LOOPER2 => 167,
        EffectID::ID_LOOPER3 => 168,
        EffectID::ID_LOOPER4 => 169,
        EffectID::ID_TONEMATCH1 => 170,
        EffectID::ID_TONEMATCH2 => 171,
        EffectID::ID_TONEMATCH3 => 172,
        EffectID::ID_TONEMATCH4 => 173,
        EffectID::ID_RTA1 => 174,
        EffectID::ID_RTA2 => 175,
        EffectID::ID_RTA3 => 176,
        EffectID::ID_RTA4 => 177,
        EffectID::ID_PLEX1 => 178,
        EffectID::ID_PLEX2 => 179,
        EffectID::ID_PLEX3 => 180,
        EffectID::ID_PLEX4 => 181,
        EffectID::ID_FBSEND1 => 182,
        EffectID::ID_FBSEND2 => 183,
        EffectID::ID_FBSEND3 => 184,
        EffectID::ID_FBSEND4 => 185,
        EffectID::ID_FBRETURN1 => 186,
        EffectID::ID_FBRETURN2 => 187,
        EffectID::ID_FBRETURN3 => 188,
        EffectID::ID_FBRETURN4 => 189,
        EffectID::ID_MIDIBLOCK => 190,
        EffectID::ID_MULTIPLEXER1 => 191,
        EffectID::ID_MULTIPLEXER2 => 192,
        EffectID::ID_MULTIPLEXER3 => 193,
        EffectID::ID_MULTIPLEXER4 => 194,
        EffectID::ID_IRPLAYER1 => 195,
        EffectID::ID_IRPLAYER2 => 196,
        EffectID::ID_IRPLAYER3 => 197,
        EffectID::ID_IRPLAYER4 => 198,
        EffectID::ID_FOOTCONTROLLER => 199,
        EffectID::ID_PRESET_FC => 200,
    }
}

/// The member of the newer generation's raw-id space a wire value denotes;
/// `None` for a value outside the table.
pub open spec fn spec_effect_id_from_u32(id: u32) -> Option<EffectID> {

    if id == 2 {
        Some(EffectID::ID_CONTROL)
    } else if id == 35 {
        Some(EffectID::ID_TUNER)
    } else if id == 36 {
        Some(EffectID::ID_IRCAPTURE)
    } else if id == 37 {
        Some(EffectID::ID_INPUT1)
    } else if id == 38 {
        Some(EffectID::ID_INPUT2)
    } else if id == 39 {
        Some(EffectID::ID_INPUT3)
    } else if id == 40 {
        Some(EffectID::ID_INPUT4)
    } else if id == 41 {
        Some(EffectID::ID_INPUT5)
    } else if id == 42 {
        Some(EffectID::ID_OUTPUT1)
    } else if id == 43 {
        Some(EffectID::ID_OUTPUT2)
    } else if id == 44 {
        Some(EffectID::ID_OUTPUT3)
    } else if id == 45 {
        Some(EffectID::ID_OUTPUT4)
    } else if id == 46 {
        Some(EffectID::ID_COMP1)
    } else if id == 47 {
        Some(EffectID::ID_COMP2)
    } else if id == 48 {
        Some(EffectID::ID_COMP3)
    } else if id == 49 {
        Some(EffectID::ID_COMP4)
    } else if id == 50 {
        Some(EffectID::ID_GRAPHEQ1)
    } else if id == 51 {
        Some(EffectID::ID_GRAPHEQ2)
    } else if id == 52 {
        Some(EffectID::ID_GRAPHEQ3)
    } else if id == 53 {
        Some(EffectID::ID_GRAPHEQ4)
    } else if id == 54 {
        Some(EffectID::ID_PARAEQ1)
    } else if id == 55 {
        Some(EffectID::ID_PARAEQ2)
    } else if id == 56 {
        Some(EffectID::ID_PARAEQ3)
    } else if id == 57 {
        Some(EffectID::ID_PARAEQ4)
    } else if id == 58 {
        Some(EffectID::ID_DISTORT1)
    } else if id == 59 {
        Some(EffectID::ID_DISTORT2)
    } else if id == 60 {
        Some(EffectID::ID_DISTORT3)
    } else if id == 61 {
        Some(EffectID::ID_DISTORT4)
    } else if id == 62 {
        Some(EffectID::ID_CAB1)
    } else if id == 63 {
        Some(EffectID::ID_CAB2)
    } else if id == 64 {
        Some(EffectID::ID_CAB3)
    } else if id == 65 {
        Some(EffectID::ID_CAB4)
    } else if id == 66 {
        Some(EffectID::ID_REVERB1)
    } else if id == 67 {
        Some(EffectID::ID_REVERB2)
    } else if id == 68 {
        Some(EffectID::ID_REVERB3)
    } else if id == 69 {
        Some(EffectID::ID_REVERB4)
    } else if id == 70 {
        Some(EffectID::ID_DELAY1)
    } else if id == 71 {
        Some(EffectID::ID_DELAY2)
    } else if id == 72 {
        Some(EffectID::ID_DELAY3)
    } else if id == 73 {
        Some(EffectID::ID_DELAY4)
    } else if id == 74 {
        Some(EffectID::ID_MULTITAP1)
    } else if id == 75 {
        Some(EffectID::ID_MULTITAP2)
    } else if id == 76 {
        Some(EffectID::ID_MULTITAP3)
    } else if id == 77 {
        Some(EffectID::ID_MULTITAP4)
    } else if id == 78 {
        Some(EffectID::ID_CHORUS1)
    } else if id == 79 {
        Some(EffectID::ID_CHORUS2)
    } else if id == 80 {
        Some(EffectID::ID_CHORUS3)
    } else if id == 81 {
        Some(EffectID::ID_CHORUS4)
    } else if id == 82 {
        Some(EffectID::ID_FLANGER1)
    } else if id == 83 {
        Some(EffectID::ID_FLANGER2)
    } else if id == 84 {
        Some(EffectID::ID_FLANGER3)
    } else if id == 85 {
        Some(EffectID::ID_FLANGER4)
    } else if id == 86 {
        Some(EffectID::ID_ROTARY1)
    } else if id == 87 {
        Some(EffectID::ID_ROTARY2)
    } else if id == 88 {
        Some(EffectID::ID_ROTARY3)
    } else if id == 89 {
        Some(EffectID::ID_ROTARY4)
    } else if id == 90 {
        Some(EffectID::ID_PHASER1)
    } else if id == 91 {
        Some(EffectID::ID_PHASER2)
    } else if id == 92 {
        Some(EffectID::ID_PHASER3)
    } else if id == 93 {
        Some(EffectID::ID_PHASER4)
    } else if id == 94 {
        Some(EffectID::ID_WAH1)
    } else if id == 95 {
        Some(EffectID::ID_WAH2)
    } else if id == 96 {
        Some(EffectID::ID_WAH3)
    } else if id == 97 {
        Some(EffectID::ID_WAH4)
    } else if id == 98 {
        Some(EffectID::ID_FORMANT1)
    } else if id == 99 {
        Some(EffectID::ID_FORMANT2)
    } else if id == 100 {
        Some(EffectID::ID_FORMANT3)
    } else if id == 101 {
        Some(EffectID::ID_FORMANT4)
    } else if id == 102 {
        Some(EffectID::ID_VOLUME1)
    } else if id == 103 {
        Some(EffectID::ID_VOLUME2)
    } else if id == 104 {
        Some(EffectID::ID_VOLUME3)
    } else if id == 105 {
        Some(EffectID::ID_VOLUME4)
    } else if id == 106 {
        Some(EffectID::ID_TREMOLO1)
    } else if id == 107 {
        Some(EffectID::ID_TREMOLO2)
    } else if id == 108 {
        Some(EffectID::ID_TREMOLO3)
    } else if id == 109 {
        Some(EffectID::ID_TREMOLO4)
    } else if id == 110 {
        Some(EffectID::ID_PITCH1)
    } else if id == 111 {
        Some(EffectID::ID_PITCH2)
    } else if id == 112 {
        Some(EffectID::ID_PITCH3)
    } else if id == 113 {
        Some(EffectID::ID_PITCH4)
    } else if id == 114 {
        Some(EffectID::ID_FILTER1)
    } else if id == 115 {
        Some(EffectID::ID_FILTER2)
    } else if id == 116 {
        Some(EffectID::ID_FILTER3)
    } else if id == 117 {
        Some(EffectID::ID_FILTER4)
    } else if id == 118 {
        Some(EffectID::ID_FUZZ1)
    } else if id == 119 {
        Some(EffectID::ID_FUZZ2)
    } else if id == 120 {
        Some(EffectID::ID_FUZZ3)
    } else if id == 121 {
        Some(EffectID::ID_FUZZ4)
    } else if id == 122 {
        Some(EffectID::ID_ENHANCER1)
    } else if id == 123 {
        Some(EffectID::ID_ENHANCER2)
    } else if id == 124 {
        Some(EffectID::ID_ENHANCER3)
    } else if id == 125 {
        Some(EffectID::ID_ENHANCER4)
    } else if id == 126 {
        Some(EffectID::ID_MIXER1)
    } else if id == 127 {
        Some(EffectID::ID_MIXER2)
    } else if id == 128 {
        Some(EffectID::ID_MIXER3)
    } else if id == 129 {
        Some(EffectID::ID_MIXER4)
    } else if id == 130 {
        Some(EffectID::ID_SYNTH1)
    } else if id == 131 {
        Some(EffectID::ID_SYNTH2)
    } else if id == 132 {
        Some(EffectID::ID_SYNTH3)
    } else if id == 133 {
        Some(EffectID::ID_SYNTH4)
    } else if id == 134 {
        Some(EffectID::ID_VOCODER1)
    } else if id == 135 {
        Some(EffectID::ID_VOCODER2)
    } else if id == 136 {
        Some(EffectID::ID_VOCODER3)
    } else if id == 137 {
        Some(EffectID::ID_VOCODER4)
    } else if id == 138 {
        Some(EffectID::ID_MEGATAP1)
    } else if id == 139 {
        Some(EffectID::ID_MEGATAP2)
    } else if id == 140 {
        Some(EffectID::ID_MEGATAP3)
    } else if id == 141 {
        Some(EffectID::ID_MEGATAP4)
    } else if id == 142 {
        Some(EffectID::ID_CROSSOVER1)
    } else if id == 143 {
        Some(EffectID::ID_CROSSOVER2)
    } else if id == 144 {
        Some(EffectID::ID_CROSSOVER3)
    } else if id == 145 {
        Some(EffectID::ID_CROSSOVER4)
    } else if id == 146 {
        Some(EffectID::ID_GATE1)
    } else if id == 147 {
        Some(EffectID::ID_GATE2)
    } else if id == 148 {
        Some(EffectID::ID_GATE3)
    } else if id == 149 {
        Some(EffectID::ID_GATE4)
    } else if id == 150 {
        Some(EffectID::ID_RINGMOD1)
    } else if id == 151 {
        Some(EffectID::ID_RINGMOD2)
    } else if id == 152 {
        Some(EffectID::ID_RINGMOD3)
    } else if id == 153 {
        Some(EffectID::ID_RINGMOD4)
    } else if id == 154 {
        Some(EffectID::ID_MULTICOMP1)
    } else if id == 155 {
        Some(EffectID::ID_MULTICOMP2)
    } else if id == 156 {
        Some(EffectID::ID_MULTICOMP3)
    } else if id == 157 {
        Some(EffectID::ID_MULTICOMP4)
    } else if id == 158 {
        Some(EffectID::ID_TENTAP1)
    } else if id == 159 {
        Some(EffectID::ID_TENTAP2)
    } else if id == 160 {
        Some(EffectID::ID_TENTAP3)
    } else if id == 161 {
        Some(EffectID::ID_TENTAP4)
    } else if id == 162 {
        Some(EffectID::ID_RESONATOR1)
    } else if id == 163 {
        Some(EffectID::ID_RESONATOR2)
    } else if id == 164 {
        Some(EffectID::ID_RESONATOR3)
    } else if id == 165 {
        Some(EffectID::ID_RESONATOR4)
    } else if id == 166 {
        Some(EffectID::ID_LOOPER1)
    } else if id == 167 {
        Some(EffectID::ID_LOOPER2)
    } else if id == 168 {
        Some(EffectID::ID_LOOPER3)
    } else if id == 169 {
        Some(EffectID::ID_LOOPER4)
    } else if id == 170 {
        Some(EffectID::ID_TONEMATCH1)
    } else if id == 171 {
        Some(EffectID::ID_TONEMATCH2)
    } else if id == 172 {
        Some(EffectID::ID_TONEMATCH3)
    } else if id == 173 {
        Some(EffectID::ID_TONEMATCH4)
    } else if id == 174 {
        Some(EffectID::ID_RTA1)
    } else if id == 175 {
        Some(EffectID::ID_RTA2)
    } else if id == 176 {
        Some(EffectID::ID_RTA3)
    } else if id == 177 {
        Some(EffectID::ID_RTA4)
    } else if id == 178 {
        Some(EffectID::ID_PLEX1)
    } else if id == 179 {
        Some(EffectID::ID_PLEX2)
    } else if id == 180 {
        Some(EffectID::ID_PLEX3)
    } else if id == 181 {
        Some(EffectID::ID_PLEX4)
    } else if id == 182 {
        Some(EffectID::ID_FBSEND1)
    } else if id == 183 {
        Some(EffectID::ID_FBSEND2)
    } else if id == 184 {
        Some(EffectID::ID_FBSEND3)
    } else if id == 185 {
        Some(EffectID::ID_FBSEND4)
    } else if id == 186 {
        Some(EffectID::ID_FBRETURN1)
    } else if id == 187 {
        Some(EffectID::ID_FBRETURN2)
    } else if id == 188 {
        Some(EffectID::ID_FBRETURN3)
    } else if id == 189 {
        Some(EffectID::ID_FBRETURN4)
    } else if id == 190 {
        Some(EffectID::ID_MIDIBLOCK)
    } else if id == 191 {
        Some(EffectID::ID_MULTIPLEXER1)
    } else if id == 192 {
        Some(EffectID::ID_MULTIPLEXER2)
    } else if id == 193 {
        Some(EffectID::ID_MULTIPLEXER3)
    } else if id == 194 {
        Some(EffectID::ID_MULTIPLEXER4)
    } else if id == 195 {
        Some(EffectID::ID_IRPLAYER1)
    } else if id == 196 {
        Some(EffectID::ID_IRPLAYER2)
    } else if id == 197 {
        Some(EffectID::ID_IRPLAYER3)
    } else if id == 198 {
        Some(EffectID::ID_IRPLAYER4)
    } else if id == 199 {
        Some(EffectID::ID_FOOTCONTROLLER)
    } else if id == 200 {
        Some(EffectID::ID_PRESET_FC)
    } else {
        None
    }
}

/// The member of the newer generation's raw-id space a wire value denotes;
/// `None` for a value outside the table.
pub fn effect_id_from_u32(id: u32) -> (r: Option<EffectID>)
    ensures
        r == spec_effect_id_from_u32(id),
{

    if id == 2 {
        Some(EffectID::ID_CONTROL)
    } else if id == 35 {
        Some(EffectID::ID_TUNER)
    } else if id == 36 {
        Some(EffectID::ID_IRCAPTURE)
    } else if id == 37 {
        Some(EffectID::ID_INPUT1)
    } else if id == 38 {
        Some(EffectID::ID_INPUT2)
    } else if id == 39 {
        Some(EffectID::ID_INPUT3)
    } else if id == 40 {
        Some(EffectID::ID_INPUT4)
    } else if id == 41 {
        Some(EffectID::ID_INPUT5)
    } else if id == 42 {
        Some(EffectID::ID_OUTPUT1)
    } else if id == 43 {
        Some(EffectID::ID_OUTPUT2)
    } else if id == 44 {
        Some(EffectID::ID_OUTPUT3)
    } else if id == 45 {
        Some(EffectID::ID_OUTPUT4)
    } else if id == 46 {
        Some(EffectID::ID_COMP1)
    } else if id == 47 {
        Some(EffectID::ID_COMP2)
    } else if id == 48 {
        Some(EffectID::ID_COMP3)
    } else if id == 49 {
        Some(EffectID::ID_COMP4)
    } else if id == 50 {
        Some(EffectID::ID_GRAPHEQ1)
    } else if id == 51 {
        Some(EffectID::ID_GRAPHEQ2)
    } else if id == 52 {
        Some(EffectID::ID_GRAPHEQ3)
    } else if id == 53 {
        Some(EffectID::ID_GRAPHEQ4)
    } else if id == 54 {
        Some(EffectID::ID_PARAEQ1)
    } else if id == 55 {
        Some(EffectID::ID_PARAEQ2)
    } else if id == 56 {
        Some(EffectID::ID_PARAEQ3)
    } else if id == 57 {
        Some(EffectID::ID_PARAEQ4)
    } else if id == 58 {
        Some(EffectID::ID_DISTORT1)
    } else if id == 59 {
        Some(EffectID::ID_DISTORT2)
    } else if id == 60 {
        Some(EffectID::ID_DISTORT3)
    } else if id == 61 {
        Some(EffectID::ID_DISTORT4)
    } else if id == 62 {
        Some(EffectID::ID_CAB1)
    } else if id == 63 {
        Some(EffectID::ID_CAB2)
    } else if id == 64 {
        Some(EffectID::ID_CAB3)
    } else if id == 65 {
        Some(EffectID::ID_CAB4)
    } else if id == 66 {
        Some(EffectID::ID_REVERB1)
    } else if id == 67 {
        Some(EffectID::ID_REVERB2)
    } else if id == 68 {
        Some(EffectID::ID_REVERB3)
    } else if id == 69 {
        Some(EffectID::ID_REVERB4)
    } else if id == 70 {
        Some(EffectID::ID_DELAY1)
    } else if id == 71 {
        Some(EffectID::ID_DELAY2)
    } else if id == 72 {
        Some(EffectID::ID_DELAY3)
    } else if id == 73 {
        Some(EffectID::ID_DELAY4)
    } else if id == 74 {
        Some(EffectID::ID_MULTITAP1)
    } else if id == 75 {
        Some(EffectID::ID_MULTITAP2)
    } else if id == 76 {
        Some(EffectID::ID_MULTITAP3)
    } else if id == 77 {
        Some(EffectID::ID_MULTITAP4)
    } else if id == 78 {
        Some(EffectID::ID_CHORUS1)
    } else if id == 79 {
        Some(EffectID::ID_CHORUS2)
    } else if id == 80 {
        Some(EffectID::ID_CHORUS3)
    } else if id == 81 {
        Some(EffectID::ID_CHORUS4)
    } else if id == 82 {
        Some(EffectID::ID_FLANGER1)
    } else if id == 83 {
        Some(EffectID::ID_FLANGER2)
    } else if id == 84 {
        Some(EffectID::ID_FLANGER3)
    } else if id == 85 {
        Some(EffectID::ID_FLANGER4)
    } else if id == 86 {
        Some(EffectID::ID_ROTARY1)
    } else if id == 87 {
        Some(EffectID::ID_ROTARY2)
    } else if id == 88 {
        Some(EffectID::ID_ROTARY3)
    } else if id == 89 {
        Some(EffectID::ID_ROTARY4)
    } else if id == 90 {
        Some(EffectID::ID_PHASER1)
    } else if id == 91 {
        Some(EffectID::ID_PHASER2)
    } else if id == 92 {
        Some(EffectID::ID_PHASER3)
    } else if id == 93 {
        Some(EffectID::ID_PHASER4)
    } else if id == 94 {
        Some(EffectID::ID_WAH1)
    } else if id == 95 {
        Some(EffectID::ID_WAH2)
    } else if id == 96 {
        Some(EffectID::ID_WAH3)
    } else if id == 97 {
        Some(EffectID::ID_WAH4)
    } else if id == 98 {
        Some(EffectID::ID_FORMANT1)
    } else if id == 99 {
        Some(EffectID::ID_FORMANT2)
    } else if id == 100 {
        Some(EffectID::ID_FORMANT3)
    } else if id == 101 {
        Some(EffectID::ID_FORMANT4)
    } else if id == 102 {
        Some(EffectID::ID_VOLUME1)
    } else if id == 103 {
        Some(EffectID::ID_VOLUME2)
    } else if id == 104 {
        Some(EffectID::ID_VOLUME3)
    } else if id == 105 {
        Some(EffectID::ID_VOLUME4)
    } else if id == 106 {
        Some(EffectID::ID_TREMOLO1)
    } else if id == 107 {
        Some(EffectID::ID_TREMOLO2)
    } else if id == 108 {
        Some(EffectID::ID_TREMOLO3)
    } else if id == 109 {
        Some(EffectID::ID_TREMOLO4)
    } else if id == 110 {
        Some(EffectID::ID_PITCH1)
    } else if id == 111 {
        Some(EffectID::ID_PITCH2)
    } else if id == 112 {
        Some(EffectID::ID_PITCH3)
    } else if id == 113 {
        Some(EffectID::ID_PITCH4)
    } else if id == 114 {
        Some(EffectID::ID_FILTER1)
    } else if id == 115 {
        Some(EffectID::ID_FILTER2)
    } else if id == 116 {
        Some(EffectID::ID_FILTER3)
    } else if id == 117 {
        Some(EffectID::ID_FILTER4)
    } else if id == 118 {
        Some(EffectID::ID_FUZZ1)
    } else if id == 119 {
        Some(EffectID::ID_FUZZ2)
    } else if id == 120 {
        Some(EffectID::ID_FUZZ3)
    } else if id == 121 {
        Some(EffectID::ID_FUZZ4)
    } else if id == 122 {
        Some(EffectID::ID_ENHANCER1)
    } else if id == 123 {
        Some(EffectID::ID_ENHANCER2)
    } else if id == 124 {
        Some(EffectID::ID_ENHANCER3)
    } else if id == 125 {
        Some(EffectID::ID_ENHANCER4)
    } else if id == 126 {
        Some(EffectID::ID_MIXER1)
    } else if id == 127 {
        Some(EffectID::ID_MIXER2)
    } else if id == 128 {
        Some(EffectID::ID_MIXER3)
    } else if id == 129 {
        Some(EffectID::ID_MIXER4)
    } else if id == 130 {
        Some(EffectID::ID_SYNTH1)
    } else if id == 131 {
        Some(EffectID::ID_SYNTH2)
    } else if id == 132 {
        Some(EffectID::ID_SYNTH3)
    } else if id == 133 {
        Some(EffectID::ID_SYNTH4)
    } else if id == 134 {
        Some(EffectID::ID_VOCODER1)
    } else if id == 135 {
        Some(EffectID::ID_VOCODER2)
    } else if id == 136 {
        Some(EffectID::ID_VOCODER3)
    } else if id == 137 {
        Some(EffectID::ID_VOCODER4)
    } else if id == 138 {
        Some(EffectID::ID_MEGATAP1)
    } else if id == 139 {
        Some(EffectID::ID_MEGATAP2)
    } else if id == 140 {
        Some(EffectID::ID_MEGATAP3)
    } else if id == 141 {
        Some(EffectID::ID_MEGATAP4)
    } else if id == 142 {
        Some(EffectID::ID_CROSSOVER1)
    } else if id == 143 {
        Some(EffectID::ID_CROSSOVER2)
    } else if id == 144 {
        Some(EffectID::ID_CROSSOVER3)
    } else if id == 145 {
        Some(EffectID::ID_CROSSOVER4)
    } else if id == 146 {
        Some(EffectID::ID_GATE1)
    } else if id == 147 {
        Some(EffectID::ID_GATE2)
    } else if id == 148 {
        Some(EffectID::ID_GATE3)
    } else if id == 149 {
        Some(EffectID::ID_GATE4)
    } else if id == 150 {
        Some(EffectID::ID_RINGMOD1)
    } else if id == 151 {
        Some(EffectID::ID_RINGMOD2)
    } else if id == 152 {
        Some(EffectID::ID_RINGMOD3)
    } else if id == 153 {
        Some(EffectID::ID_RINGMOD4)
    } else if id == 154 {
        Some(EffectID::ID_MULTICOMP1)
    } else if id == 155 {
        Some(EffectID::ID_MULTICOMP2)
    } else if id == 156 {
        Some(EffectID::ID_MULTICOMP3)
    } else if id == 157 {
        Some(EffectID::ID_MULTICOMP4)
    } else if id == 158 {
        Some(EffectID::ID_TENTAP1)
    } else if id == 159 {
        Some(EffectID::ID_TENTAP2)
    } else if id == 160 {
        Some(EffectID::ID_TENTAP3)
    } else if id == 161 {
        Some(EffectID::ID_TENTAP4)
    } else if id == 162 {
        Some(EffectID::ID_RESONATOR1)
    } else if id == 163 {
        Some(EffectID::ID_RESONATOR2)
    } else if id == 164 {
        Some(EffectID::ID_RESONATOR3)
    } else if id == 165 {
        Some(EffectID::ID_RESONATOR4)
    } else if id == 166 {
        Some(EffectID::ID_LOOPER1)
    } else if id == 167 {
        Some(EffectID::ID_LOOPER2)
    } else if id == 168 {
        Some(EffectID::ID_LOOPER3)
    } else if id == 169 {
        Some(EffectID::ID_LOOPER4)
    } else if id == 170 {
        Some(EffectID::ID_TONEMATCH1)
    } else if id == 171 {
        Some(EffectID::ID_TONEMATCH2)
    } else if id == 172 {
        Some(EffectID::ID_TONEMATCH3)
    } else if id == 173 {
        Some(EffectID::ID_TONEMATCH4)
    } else if id == 174 {
        Some(EffectID::ID_RTA1)
    } else if id == 175 {
        Some(EffectID::ID_RTA2)
    } else if id == 176 {
        Some(EffectID::ID_RTA3)
    } else if id == 177 {
        Some(EffectID::ID_RTA4)
    } else if id == 178 {
        Some(EffectID::ID_PLEX1)
    } else if id == 179 {
        Some(EffectID::ID_PLEX2)
    } else if id == 180 {
        Some(EffectID::ID_PLEX3)
    } else if id == 181 {
        Some(EffectID::ID_PLEX4)
    } else if id == 182 {
        Some(EffectID::ID_FBSEND1)
    } else if id == 183 {
        Some(EffectID::ID_FBSEND2)
    } else if id == 184 {
        Some(EffectID::ID_FBSEND3)
    } else if id == 185 {
        Some(EffectID::ID_FBSEND4)
    } else if id == 186 {
        Some(EffectID::ID_FBRETURN1)
    } else if id == 187 {
        Some(EffectID::ID_FBRETURN2)
    } else if id == 188 {
        Some(EffectID::ID_FBRETURN3)
    } else if id == 189 {
        Some(EffectID::ID_FBRETURN4)
    } else if id == 190 {
        Some(EffectID::ID_MIDIBLOCK)
    } else if id == 191 {
        Some(EffectID::ID_MULTIPLEXER1)
    } else if id == 192 {
        Some(EffectID::ID_MULTIPLEXER2)
    } else if id == 193 {
        Some(EffectID::ID_MULTIPLEXER3)
    } else if id == 194 {
        Some(EffectID::ID_MULTIPLEXER4)
    } else if id == 195 {
        Some(EffectID::ID_IRPLAYER1)
    } else if id == 196 {
        Some(EffectID::ID_IRPLAYER2)
    } else if id == 197 {
        Some(EffectID::ID_IRPLAYER3)
    } else if id == 198 {
        Some(EffectID::ID_IRPLAYER4)
    } else if id == 199 {
        Some(EffectID::ID_FOOTCONTROLLER)
    } else if id == 200 {
        Some(EffectID::ID_PRESET_FC)
    } else {
        None
    }
}

/// The logical effect each member of the newer generation's id space
/// resolves to.
pub open spec fn spec_effect_of_effect_id(e: EffectID) -> Effect {
    match e {
        EffectID::ID_CONTROL => Effect::Control,
        EffectID::ID_TUNER => Effect::Tuner,
        EffectID::ID_IRCAPTURE => Effect::IRCapture,
        EffectID::ID_INPUT1 => Effect::Input1,
        EffectID::ID_INPUT2 => Effect::Input2,
        EffectID::ID_INPUT3 => Effect::Input3,
        EffectID::ID_INPUT4 => Effect::Input4,
        EffectID::ID_INPUT5 => Effect::Input5,
        EffectID::ID_OUTPUT1 => Effect::Output1,
        EffectID::ID_OUTPUT2 => Effect::Output2,
        EffectID::ID_OUTPUT3 => Effect::Output3,
        EffectID::ID_OUTPUT4 => Effect::Output4,
        EffectID::ID_COMP1 => Effect::Compressor1,
        EffectID::ID_COMP2 => Effect::Compressor2,
        EffectID::ID_COMP3 => Effect::Compressor3,
        EffectID::ID_COMP4 => Effect::Compressor4,
        EffectID::ID_GRAPHEQ1 => Effect::GraphicEQ1,
        EffectID::ID_GRAPHEQ2 => Effect::GraphicEQ2,
        EffectID::ID_GRAPHEQ3 => Effect::GraphicEQ3,
        EffectID::ID_GRAPHEQ4 => Effect::GraphicEQ4,
        EffectID::ID_PARAEQ1 => Effect::ParametricEQ1,
        EffectID::ID_PARAEQ2 => Effect::ParametricEQ2,
        EffectID::ID_PARAEQ3 => Effect::ParametricEQ3,
        EffectID::ID_PARAEQ4 => Effect::ParametricEQ4,
        EffectID::ID_DISTORT1 => Effect::Amp1,
        EffectID::ID_DISTORT2 => Effect::Amp2,
        EffectID::ID_DISTORT3 => Effect::Amp3,
        EffectID::ID_DISTORT4 => Effect::Amp4,
        EffectID::ID_CAB1 => Effect::Cab1,
        EffectID::ID_CAB2 => Effect::Cab2,
        EffectID::ID_CAB3 => Effect::Cab3,
        EffectID::ID_CAB4 => Effect::Cab4,
        EffectID::ID_REVERB1 => Effect::Reverb1,
        EffectID::ID_REVERB2 => Effect::Reverb2,
        EffectID::ID_REVERB3 => Effect::Reverb3,
        EffectID::ID_REVERB4 => Effect::Reverb4,
        EffectID::ID_DELAY1 => Effect::Delay1,
        EffectID::ID_DELAY2 => Effect::Delay2,
        EffectID::ID_DELAY3 => Effect::Delay3,
        EffectID::ID_DELAY4 => Effect::Delay4,
        EffectID::ID_MULTITAP1 => Effect::MultiDelay1,
        EffectID::ID_MULTITAP2 => Effect::MultiDelay2,
        EffectID::ID_MULTITAP3 => Effect::MultiDelay3,
        EffectID::ID_MULTITAP4 => Effect::MultiDelay4,
        EffectID::ID_CHORUS1 => Effect::Chorus1,
        EffectID::ID_CHORUS2 => Effect::Chorus2,
        EffectID::ID_CHORUS3 => Effect::Chorus3,
        EffectID::ID_CHORUS4 => Effect::Chorus4,
        EffectID::ID_FLANGER1 => Effect::Flanger1,
        EffectID::ID_FLANGER2 => Effect::Flanger2,
        EffectID::ID_FLANGER3 => Effect::Flanger3,
        EffectID::ID_FLANGER4 => Effect::Flanger4,
        EffectID::ID_ROTARY1 => Effect::RotarySpeaker1,
        EffectID::ID_ROTARY2 => Effect::RotarySpeaker2,
        EffectID::ID_ROTARY3 => Effect::RotarySpeaker3,
        EffectID::ID_ROTARY4 => Effect::RotarySpeaker4,
        EffectID::ID_PHASER1 => Effect::Phaser1,
        EffectID::ID_PHASER2 => Effect::Phaser2,
        EffectID::ID_PHASER3 => Effect::Phaser3,
        EffectID::ID_PHASER4 => Effect::Phaser4,
        EffectID::ID_WAH1 => Effect::Wah1,
        EffectID::ID_WAH2 => Effect::Wah2,
        EffectID::ID_WAH3 => Effect::Wah3,
        EffectID::ID_WAH4 => Effect::Wah4,
        EffectID::ID_FORMANT1 => Effect::Formant,
        EffectID::ID_FORMANT2 => Effect::Formant2,
        EffectID::ID_FORMANT3 => Effect::Formant3,
        EffectID::ID_FORMANT4 => Effect::Formant4,
        EffectID::ID_VOLUME1 => Effect::VolumePan1,
        EffectID::ID_VOLUME2 => Effect::VolumePan2,
        EffectID::ID_VOLUME3 => Effect::VolumePan3,
        EffectID::ID_VOLUME4 => Effect::VolumePan4,
        EffectID::ID_TREMOLO1 => Effect::TremoloPanner1,
        EffectID::ID_TREMOLO2 => Effect::TremoloPanner2,
        EffectID::ID_TREMOLO3 => Effect::TremoloPanner3,
        EffectID::ID_TREMOLO4 => Effect::TremoloPanner4,
        EffectID::ID_PITCH1 => Effect::Pitch1,
        EffectID::ID_PITCH2 => Effect::Pitch2,
        EffectID::ID_PITCH3 => Effect::Pitch3,
        EffectID::ID_PITCH4 => Effect::Pitch4,
        EffectID::ID_FILTER1 => Effect::Filter1,
        EffectID::ID_FILTER2 => Effect::Filter2,
        EffectID::ID_FILTER3 => Effect::Filter3,
        EffectID::ID_FILTER4 => Effect::Filter4,
        EffectID::ID_FUZZ1 => Effect::Drive1,
        EffectID::ID_FUZZ2 => Effect::Drive2,
        EffectID::ID_FUZZ3 => Effect::Drive3,
        EffectID::ID_FUZZ4 => Effect::Drive4,
        EffectID::ID_ENHANCER1 => Effect::Enhancer1,
        EffectID::ID_ENHANCER2 => Effect::Enhancer2,
        EffectID::ID_ENHANCER3 => Effect::Enhancer3,
        EffectID::ID_ENHANCER4 => Effect::Enhancer4,
        EffectID::ID_MIXER1 => Effect::Mixer1,
        EffectID::ID_MIXER2 => Effect::Mixer2,
        EffectID::ID_MIXER3 => Effect::Mixer3,
        EffectID::ID_MIXER4 => Effect::Mixer4,
        EffectID::ID_SYNTH1 => Effect::Synth1,
        EffectID::ID_SYNTH2 => Effect::Synth2,
        EffectID::ID_SYNTH3 => Effect::Synth3,
        EffectID::ID_SYNTH4 => Effect::Synth4,
        EffectID::ID_VOCODER1 => Effect::Vocoder1,
        EffectID::ID_VOCODER2 => Effect::Vocoder2,
        EffectID::ID_VOCODER3 => Effect::Vocoder3,
        EffectID::ID_VOCODER4 => Effect::Vocoder4,
        EffectID::ID_MEGATAP1 => Effect::MegatapDelay1,
        EffectID::ID_MEGATAP2 => Effect::MegatapDelay2,
        EffectID::ID_MEGATAP3 => Effect::MegatapDelay3,
        EffectID::ID_MEGATAP4 => Effect::MegatapDelay4,
        EffectID::ID_CROSSOVER1 => Effect::Crossover1,
        EffectID::ID_CROSSOVER2 => Effect::Crossover2,
        EffectID::ID_CROSSOVER3 => Effect::Crossover3,
        EffectID::ID_CROSSOVER4 => Effect::Crossover4,
        EffectID::ID_GATE1 => Effect::GateExpander1,
        EffectID::ID_GATE2 => Effect::GateExpander2,
        EffectID::ID_GATE3 => Effect::GateExpander3,
        EffectID::ID_GATE4 => Effect::GateExpander4,
        EffectID::ID_RINGMOD1 => Effect::RingModulator1,
        EffectID::ID_RINGMOD2 => Effect::RingModulator2,
        EffectID::ID_RINGMOD3 => Effect::RingModulator3,
        EffectID::ID_RINGMOD4 => Effect::RingModulator4,
        EffectID::ID_MULTICOMP1 => Effect::MultibandCompressor1,
        EffectID::ID_MULTICOMP2 => Effect::MultibandCompressor2,
        EffectID::ID_MULTICOMP3 => Effect::MultibandCompressor3,
        EffectID::ID_MULTICOMP4 => Effect::MultibandCompressor4,
        EffectID::ID_TENTAP1 => Effect::TenTapDelay1,
        EffectID::ID_TENTAP2 => Effect::TenTapDelay2,
        EffectID::ID_TENTAP3 => Effect::TenTapDelay3,
        EffectID::ID_TENTAP4 => Effect::TenTapDelay4,
        EffectID::ID_RESONATOR1 => Effect::Resonator1,
        EffectID::ID_RESONATOR2 => Effect::Resonator2,
        EffectID::ID_RESONATOR3 => Effect::Resonator3,
        EffectID::ID_RESONATOR4 => Effect::Resonator4,
        EffectID::ID_LOOPER1 => Effect::Looper1,
        EffectID::ID_LOOPER2 => Effect::Looper2,
        EffectID::ID_LOOPER3 => Effect::Looper3,
        EffectID::ID_LOOPER4 => Effect::Looper4,
        EffectID::ID_TONEMATCH1 => Effect::ToneMatch1,
        EffectID::ID_TONEMATCH2 => Effect::ToneMatch2,
        EffectID::ID_TONEMATCH3 => Effect::ToneMatch3,
        EffectID::ID_TONEMATCH4 => Effect::ToneMatch4,
        EffectID::ID_RTA1 => Effect::RealtimeAnalyzer1,
        EffectID::ID_RTA2 => Effect::RealtimeAnalyzer2,
        EffectID::ID_RTA3 => Effect::RealtimeAnalyzer3,
        EffectID::ID_RTA4 => Effect::RealtimeAnalyzer4,
        EffectID::ID_PLEX1 => Effect::PlexDelay1,
        EffectID::ID_PLEX2 => Effect::PlexDelay2,
        EffectID::ID_PLEX3 => Effect::PlexDelay3,
        EffectID::ID_PLEX4 => Effect::PlexDelay4,
        EffectID::ID_FBSEND1 => Effect::FeedbackSend1,
        EffectID::ID_FBSEND2 => Effect::FeedbackSend2,
        EffectID::ID_FBSEND3 => Effect::FeedbackSend3,
        EffectID::ID_FBSEND4 => Effect::FeedbackSend4,
        EffectID::ID_FBRETURN1 => Effect::FeedbackReturn1,
        EffectID::ID_FBRETURN2 => Effect::FeedbackReturn2,
        EffectID::ID_FBRETURN3 => Effect::FeedbackReturn3,
        EffectID::ID_FBRETURN4 => Effect::FeedbackReturn4,
        EffectID::ID_MIDIBLOCK => Effect::MIDI,
        EffectID::ID_MULTIPLEXER1 => Effect::Multiplexer1,
        EffectID::ID_MULTIPLEXER2 => Effect::Multiplexer2,
        EffectID::ID_MULTIPLEXER3 => Effect::Multiplexer3,
        EffectID::ID_MULTIPLEXER4 => Effect::Multiplexer4,
        EffectID::ID_IRPLAYER1 => Effect::IRPlayer1,
        EffectID::ID_IRPLAYER2 => Effect::IRPlayer2,
        EffectID::ID_IRPLAYER3 => Effect::IRPlayer3,
        EffectID::ID_IRPLAYER4 => Effect::IRPlayer4,
        EffectID::ID_FOOTCONTROLLER => Effect::FootController,
        EffectID::ID_PRESET_FC => Effect::PresetFC,
    }
}

/// The logical effect a member of the newer generation's id space resolves
/// to.
pub fn effect_of_effect_id(e: EffectID) -> (r: Effect)
    ensures
        r == spec_effect_of_effect_id(e),
{
    match e {
        EffectID::ID_CONTROL => Effect::Control,
        EffectID::ID_TUNER => Effect::Tuner,
        EffectID::ID_IRCAPTURE => Effect::IRCapture,
        EffectID::ID_INPUT1 => Effect::Input1,
        EffectID::ID_INPUT2 => Effect::Input2,
        EffectID::ID_INPUT3 => Effect::Input3,
        EffectID::ID_INPUT4 => Effect::Input4,
        EffectID::ID_INPUT5 => Effect::Input5,
        EffectID::ID_OUTPUT1 => Effect::Output1,
        EffectID::ID_OUTPUT2 => Effect::Output2,
        EffectID::ID_OUTPUT3 => Effect::Output3,
        EffectID::ID_OUTPUT4 => Effect::Output4,
        EffectID::ID_COMP1 => Effect::Compressor1,
        EffectID::ID_COMP2 => Effect::Compressor2,
        EffectID::ID_COMP3 => Effect::Compressor3,
        EffectID::ID_COMP4 => Effect::Compressor4,
        EffectID::ID_GRAPHEQ1 => Effect::GraphicEQ1,
        EffectID::ID_GRAPHEQ2 => Effect::GraphicEQ2,
        EffectID::ID_GRAPHEQ3 => Effect::GraphicEQ3,
        EffectID::ID_GRAPHEQ4 => Effect::GraphicEQ4,
        EffectID::ID_PARAEQ1 => Effect::ParametricEQ1,
        EffectID::ID_PARAEQ2 => Effect::ParametricEQ2,
        EffectID::ID_PARAEQ3 => Effect::ParametricEQ3,
        EffectID::ID_PARAEQ4 => Effect::ParametricEQ4,
        EffectID::ID_DISTORT1 => Effect::Amp1,
        EffectID::ID_DISTORT2 => Effect::Amp2,
        EffectID::ID_DISTORT3 => Effect::Amp3,
        EffectID::ID_DISTORT4 => Effect::Amp4,
        EffectID::ID_CAB1 => Effect::Cab1,
        EffectID::ID_CAB2 => Effect::Cab2,
        EffectID::ID_CAB3 => Effect::Cab3,
        EffectID::ID_CAB4 => Effect::Cab4,
        EffectID::ID_REVERB1 => Effect::Reverb1,
        EffectID::ID_REVERB2 => Effect::Reverb2,
        EffectID::ID_REVERB3 => Effect::Reverb3,
        EffectID::ID_REVERB4 => Effect::Reverb4,
        EffectID::ID_DELAY1 => Effect::Delay1,
        EffectID::ID_DELAY2 => Effect::Delay2,
        EffectID::ID_DELAY3 => Effect::Delay3,
        EffectID::ID_DELAY4 => Effect::Delay4,
        EffectID::ID_MULTITAP1 => Effect::MultiDelay1,
        EffectID::ID_MULTITAP2 => Effect::MultiDelay2,
        EffectID::ID_MULTITAP3 => Effect::MultiDelay3,
        EffectID::ID_MULTITAP4 => Effect::MultiDelay4,
        EffectID::ID_CHORUS1 => Effect::Chorus1,
        EffectID::ID_CHORUS2 => Effect::Chorus2,
        EffectID::ID_CHORUS3 => Effect::Chorus3,
        EffectID::ID_CHORUS4 => Effect::Chorus4,
        EffectID::ID_FLANGER1 => Effect::Flanger1,
        EffectID::ID_FLANGER2 => Effect::Flanger2,
        EffectID::ID_FLANGER3 => Effect::Flanger3,
        EffectID::ID_FLANGER4 => Effect::Flanger4,
        EffectID::ID_ROTARY1 => Effect::RotarySpeaker1,
        EffectID::ID_ROTARY2 => Effect::RotarySpeaker2,
        EffectID::ID_ROTARY3 => Effect::RotarySpeaker3,
        EffectID::ID_ROTARY4 => Effect::RotarySpeaker4,
        EffectID::ID_PHASER1 => Effect::Phaser1,
        EffectID::ID_PHASER2 => Effect::Phaser2,
        EffectID::ID_PHASER3 => Effect::Phaser3,
        EffectID::ID_PHASER4 => Effect::Phaser4,
        EffectID::ID_WAH1 => Effect::Wah1,
        EffectID::ID_WAH2 => Effect::Wah2,
        EffectID::ID_WAH3 => Effect::Wah3,
        EffectID::ID_WAH4 => Effect::Wah4,
        EffectID::ID_FORMANT1 => Effect::Formant,
        EffectID::ID_FORMANT2 => Effect::Formant2,
        EffectID::ID_FORMANT3 => Effect::Formant3,
        EffectID::ID_FORMANT4 => Effect::Formant4,
        EffectID::ID_VOLUME1 => Effect::VolumePan1,
        EffectID::ID_VOLUME2 => Effect::VolumePan2,
        EffectID::ID_VOLUME3 => Effect::VolumePan3,
        EffectID::ID_VOLUME4 => Effect::VolumePan4,
        EffectID::ID_TREMOLO1 => Effect::TremoloPanner1,
        EffectID::ID_TREMOLO2 => Effect::TremoloPanner2,
        EffectID::ID_TREMOLO3 => Effect::TremoloPanner3,
        EffectID::ID_TREMOLO4 => Effect::TremoloPanner4,
        EffectID::ID_PITCH1 => Effect::Pitch1,
        EffectID::ID_PITCH2 => Effect::Pitch2,
        EffectID::ID_PITCH3 => Effect::Pitch3,
        EffectID::ID_PITCH4 => Effect::Pitch4,
        EffectID::ID_FILTER1 => Effect::Filter1,
        EffectID::ID_FILTER2 => Effect::Filter2,
        EffectID::ID_FILTER3 => Effect::Filter3,
        EffectID::ID_FILTER4 => Effect::Filter4,
        EffectID::ID_FUZZ1 => Effect::Drive1,
        EffectID::ID_FUZZ2 => Effect::Drive2,
        EffectID::ID_FUZZ3 => Effect::Drive3,
        EffectID::ID_FUZZ4 => Effect::Drive4,
        EffectID::ID_ENHANCER1 => Effect::Enhancer1,
        EffectID::ID_ENHANCER2 => Effect::Enhancer2,
        EffectID::ID_ENHANCER3 => Effect::Enhancer3,
        EffectID::ID_ENHANCER4 => Effect::Enhancer4,
        EffectID::ID_MIXER1 => Effect::Mixer1,
        EffectID::ID_MIXER2 => Effect::Mixer2,
        EffectID::ID_MIXER3 => Effect::Mixer3,
        EffectID::ID_MIXER4 => Effect::Mixer4,
        EffectID::ID_SYNTH1 => Effect::Synth1,
        EffectID::ID_SYNTH2 => Effect::Synth2,
        EffectID::ID_SYNTH3 => Effect::Synth3,
        EffectID::ID_SYNTH4 => Effect::Synth4,
        EffectID::ID_VOCODER1 => Effect::Vocoder1,
        EffectID::ID_VOCODER2 => Effect::Vocoder2,
        EffectID::ID_VOCODER3 => Effect::Vocoder3,
        EffectID::ID_VOCODER4 => Effect::Vocoder4,
        EffectID::ID_MEGATAP1 => Effect::MegatapDelay1,
        EffectID::ID_MEGATAP2 => Effect::MegatapDelay2,
        EffectID::ID_MEGATAP3 => Effect::MegatapDelay3,
        EffectID::ID_MEGATAP4 => Effect::MegatapDelay4,
        EffectID::ID_CROSSOVER1 => Effect::Crossover1,
        EffectID::ID_CROSSOVER2 => Effect::Crossover2,
        EffectID::ID_CROSSOVER3 => Effect::Crossover3,
        EffectID::ID_CROSSOVER4 => Effect::Crossover4,
        EffectID::ID_GATE1 => Effect::GateExpander1,
        EffectID::ID_GATE2 => Effect::GateExpander2,
        EffectID::ID_GATE3 => Effect::GateExpander3,
        EffectID::ID_GATE4 => Effect::GateExpander4,
        EffectID::ID_RINGMOD1 => Effect::RingModulator1,
        EffectID::ID_RINGMOD2 => Effect::RingModulator2,
        EffectID::ID_RINGMOD3 => Effect::RingModulator3,
        EffectID::ID_RINGMOD4 => Effect::RingModulator4,
        EffectID::ID_MULTICOMP1 => Effect::MultibandCompressor1,
        EffectID::ID_MULTICOMP2 => Effect::MultibandCompressor2,
        EffectID::ID_MULTICOMP3 => Effect::MultibandCompressor3,
        EffectID::ID_MULTICOMP4 => Effect::MultibandCompressor4,
        EffectID::ID_TENTAP1 => Effect::TenTapDelay1,
        EffectID::ID_TENTAP2 => Effect::TenTapDelay2,
        EffectID::ID_TENTAP3 => Effect::TenTapDelay3,
        EffectID::ID_TENTAP4 => Effect::TenTapDelay4,
        EffectID::ID_RESONATOR1 => Effect::Resonator1,
        EffectID::ID_RESONATOR2 => Effect::Resonator2,
        EffectID::ID_RESONATOR3 => Effect::Resonator3,
        EffectID::ID_RESONATOR4 => Effect::Resonator4,
        EffectID::ID_LOOPER1 => Effect::Looper1,
        EffectID::ID_LOOPER2 => Effect::Looper2,
        EffectID::ID_LOOPER3 => Effect::Looper3,
        EffectID::ID_LOOPER4 => Effect::Looper4,
        EffectID::ID_TONEMATCH1 => Effect::ToneMatch1,
        EffectID::ID_TONEMATCH2 => Effect::ToneMatch2,
        EffectID::ID_TONEMATCH3 => Effect::ToneMatch3,
        EffectID::ID_TONEMATCH4 => Effect::ToneMatch4,
        EffectID::ID_RTA1 => Effect::RealtimeAnalyzer1,
        EffectID::ID_RTA2 => Effect::RealtimeAnalyzer2,
        EffectID::ID_RTA3 => Effect::RealtimeAnalyzer3,
        EffectID::ID_RTA4 => Effect::RealtimeAnalyzer4,
        EffectID::ID_PLEX1 => Effect::PlexDelay1,
        EffectID::ID_PLEX2 => Effect::PlexDelay2,
        EffectID::ID_PLEX3 => Effect::PlexDelay3,
        EffectID::ID_PLEX4 => Effect::PlexDelay4,
        EffectID::ID_FBSEND1 => Effect::FeedbackSend1,
        EffectID::ID_FBSEND2 => Effect::FeedbackSend2,
        EffectID::ID_FBSEND3 => Effect::FeedbackSend3,
        EffectID::ID_FBSEND4 => Effect::FeedbackSend4,
        EffectID::ID_FBRETURN1 => Effect::FeedbackReturn1,
        EffectID::ID_FBRETURN2 => Effect::FeedbackReturn2,
        EffectID::ID_FBRETURN3 => Effect::FeedbackReturn3,
        EffectID::ID_FBRETURN4 => Effect::FeedbackReturn4,
        EffectID::ID_MIDIBLOCK => Effect::MIDI,
        EffectID::ID_MULTIPLEXER1 => Effect::Multiplexer1,
        EffectID::ID_MULTIPLEXER2 => Effect::Multiplexer2,
        EffectID::ID_MULTIPLEXER3 => Effect::Multiplexer3,
        EffectID::ID_MULTIPLEXER4 => Effect::Multiplexer4,
        EffectID::ID_IRPLAYER1 => Effect::IRPlayer1,
        EffectID::ID_IRPLAYER2 => Effect::IRPlayer2,
        EffectID::ID_IRPLAYER3 => Effect::IRPlayer3,
        EffectID::ID_IRPLAYER4 => Effect::IRPlayer4,
        EffectID::ID_FOOTCONTROLLER => Effect::FootController,
        EffectID::ID_PRESET_FC => Effect::PresetFC,
    }
}

/// The logical effect a raw id of the newer generation denotes: resolved
/// through the raw-id table, `Unknown` for a raw id outside it.
pub open spec fn spec_effect_from_raw_id(id: u32) -> Effect {
    match spec_effect_id_from_u32(id) {
        Some(e) => spec_effect_of_effect_id(e),
        None => Effect::Unknown,
    }
}

impl Effect {
    /// The logical effect a raw id of the newer generation denotes;
    /// `Unknown` for a raw id outside the table.
    pub fn from_effect_id(id: u32) -> (r: Effect)
        ensures
            r == spec_effect_from_raw_id(id),
    {
        match effect_id_from_u32(id) {
            Some(e) => effect_of_effect_id(e),
            None => Effect::Unknown,
        }
    }
}

/// The parameter a small integer id denotes; `Unknown` for ids outside the
/// table.
pub open spec fn spec_parameter_for_id(id: u32) -> Parameter {
    if id == 0 {
        Parameter::EffectType
    } else if id == 1 {
        Parameter::InputDrive
    } else if id == 2 {
        Parameter::Bass
    } else if id == 3 {
        Parameter::Middle
    } else if id == 4 {
        Parameter::Treble
    } else if id == 5 {
        Parameter::MasterVolume
    } else if id == 6 {
        Parameter::PreampLowCut
    } else if id == 7 {
        Parameter::HighCutFrequency
    } else {
        Parameter::Unknown
    }
}

/// The parameter a small integer id denotes; `Unknown` for ids outside the
/// table.
pub fn parameter_for_id(id: u32) -> (r: Parameter)
    ensures
        r == spec_parameter_for_id(id),
{
    if id == 0 {
        Parameter::EffectType
    } else if id == 1 {
        Parameter::InputDrive
    } else if id == 2 {
        Parameter::Bass
    } else if id == 3 {
        Parameter::Middle
    } else if id == 4 {
        Parameter::Treble
    } else if id == 5 {
        Parameter::MasterVolume
    } else if id == 6 {
        Parameter::PreampLowCut
    } else if id == 7 {
        Parameter::HighCutFrequency
    } else {
        Parameter::Unknown
    }
}

/// Duality of the flat-generation tables, id direction: for every id
/// present in the forward table, looking the id's effect back up reproduces
/// the id.
#[verifier::rlimit(100)]
pub proof fn lemma_flat_table_duality_ids(id: u32)
    requires
        (100 <= id <= 169 && id != 152) || id == 207,
    ensures
        spec_id_for_effect(spec_effect_for_id(id)) == id,
{
}

/// Duality of the flat-generation tables, effect direction: for every
/// effect present in the generation (its id is not the 0 sentinel), looking
/// its id back up reproduces the effect.
#[verifier::rlimit(100)]
pub proof fn lemma_flat_table_duality_effects(e: Effect)
    requires
        spec_id_for_effect(e) != 0,
    ensures
        spec_effect_for_id(spec_id_for_effect(e) as u32) == e,
{
}

/// Duality of the newer generation's raw-id table, member direction: every
/// member's raw id looks back up to that member.
#[verifier::rlimit(100)]
pub proof fn lemma_raw_table_duality_members(e: EffectID)
    ensures
        spec_effect_id_from_u32(spec_raw_id_of(e)) == Some(e),
{
}

/// Duality of the newer generation's raw-id table, id direction: every raw
/// id present in the table is the raw id of the member it denotes.
#[verifier::rlimit(100)]
pub proof fn lemma_raw_table_duality_ids(id: u32, e: EffectID)
    requires
        spec_effect_id_from_u32(id) == Some(e),
    ensures
        spec_raw_id_of(e) == id,
{
}

} // verus!
