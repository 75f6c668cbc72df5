//! Hardware model registry: the closed set of device models, their wire
//! codes, and inference of a model from a MIDI port's display name.

use vstd::prelude::*;

verus! {

/// The hardware models of the protocol family, each with a unique wire code.
#[derive(Clone, Copy, Debug, PartialEq, Eq, Structural)]
pub enum FractalModel {
    Standard,
    Ultra,
    MFC101,
    II,
    MFC101MK3,
    FX8,
    IIXL,
    IIXLPlus,
    AX8,
    FX8MK2,
    III,
}

/// The wire code of each model.
pub open spec fn spec_model_code(model: FractalModel) -> u8 {
    match model {
        FractalModel::Standard => 0x00,
        FractalModel::Ultra => 0x01,
        FractalModel::MFC101 => 0x02,
        FractalModel::II => 0x03,
        FractalModel::MFC101MK3 => 0x04,
        FractalModel::FX8 => 0x05,
        FractalModel::IIXL => 0x06,
        FractalModel::IIXLPlus => 0x07,
        FractalModel::AX8 => 0x08,
        FractalModel::FX8MK2 => 0x0a,
        FractalModel::III => 0x10,
    }
}

/// The wire code of `model`.
pub fn model_code(model: FractalModel) -> (r: u8)
    ensures
        r == spec_model_code(model),
{
    match model {
        FractalModel::Standard => 0x00,
        FractalModel::Ultra => 0x01,
        FractalModel::MFC101 => 0x02,
        FractalModel::II => 0x03,
        FractalModel::MFC101MK3 => 0x04,
        FractalModel::FX8 => 0x05,
        FractalModel::IIXL => 0x06,
        FractalModel::IIXLPlus => 0x07,
        FractalModel::AX8 => 0x08,
        FractalModel::FX8MK2 => 0x0a,
        FractalModel::III => 0x10,
    }
}

/// The model a wire code denotes; `None` for the gaps in the sparse range.
pub open spec fn spec_model_from_code(code: u8) -> Option<FractalModel> {
    if code == 0x00 {
        Some(FractalModel::Standard)
    } else if code == 0x01 {
        Some(FractalModel::Ultra)
    } else if code == 0x02 {
        Some(FractalModel::MFC101)
    } else if code == 0x03 {
        Some(FractalModel::II)
    } else if code == 0x04 {
        Some(FractalModel::MFC101MK3)
    } else if code == 0x05 {
        Some(FractalModel::FX8)
    } else if code == 0x06 {
        Some(FractalModel::IIXL)
    } else if code == 0x07 {
        Some(FractalModel::IIXLPlus)
    } else if code == 0x08 {
        Some(FractalModel::AX8)
    } else if code == 0x0a {
        Some(FractalModel::FX8MK2)
    } else if code == 0x10 {
        Some(FractalModel::III)
    } else {
        None
    }
}

impl FractalModel {
    /// The model a wire code denotes; `None` for the gaps in the sparse range.
    pub fn from_code(code: &u8) -> (r: Option<FractalModel>)
        ensures
            r == spec_model_from_code(*code),
    {
        if *code == 0x00 {
            Some(FractalModel::Standard)
        } else if *code == 0x01 {
            Some(FractalModel::Ultra)
        } else if *code == 0x02 {
            Some(FractalModel::MFC101)
        } else if *code == 0x03 {
            Some(FractalModel::II)
        } else if *code == 0x04 {
            Some(FractalModel::MFC101MK3)
        } else if *code == 0x05 {
            Some(FractalModel::FX8)
        } else if *code == 0x06 {
            Some(FractalModel::IIXL)
        } else if *code == 0x07 {
            Some(FractalModel::IIXLPlus)
        } else if *code == 0x08 {
            Some(FractalModel::AX8)
        } else if *code == 0x0a {
            Some(FractalModel::FX8MK2)
        } else if *code == 0x10 {
            Some(FractalModel::III)
        } else {
            None
        }
    }
}

/// Round trip of the model registry: every model's wire code resolves back
/// to that model.
pub proof fn lemma_model_code_round_trip(model: FractalModel)
    ensures
        spec_model_from_code(spec_model_code(model)) == Some(model),
{
}

/// The model named by a MIDI port's display name.
pub open spec fn spec_guess_model(name: Seq<char>) -> Option<FractalModel> {
    if name == "Axe-Fx II"@ {
        Some(FractalModel::II)
    } else if name == "Axe-Fx III"@ {
        Some(FractalModel::III)
    } else {
        None
    }
}

/// Relies on str's `PartialEq`: two string slices compare equal exactly when
/// their character sequences are equal.
#[verifier::external_body]
fn str_eq(a: &str, b: &str) -> (r: bool)
    ensures
        r == (a@ == b@),
{
    a == b
}

/// The model inferred from a MIDI port's display name; `None` when the name
/// is not a known device name.
pub fn guess_model(model_name: &str) -> (r: Option<FractalModel>)
    ensures
        r == spec_guess_model(model_name@),
{
    if str_eq(model_name, "Axe-Fx II") {
        Some(FractalModel::II)
    } else if str_eq(model_name, "Axe-Fx III") {
        Some(FractalModel::III)
    } else {
        None
    }
}

} // verus!
