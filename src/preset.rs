//! Named noise colours and the spectral defaults each one supplies.
//!
//! Exponents, curves and amplitudes are in hundredths (`100` is `1.0`);
//! band edges are in hertz.
use vstd::prelude::*;

verus! {

/// Spectral defaults of a named noise colour.
pub struct NoisePreset {
    /// Power-law exponent of the spectrum below the blend.
    pub exponent_centi: i32,
    /// Power-law exponent of the spectrum above the blend.
    pub high_exponent_centi: i32,
    /// Shape of the blend between the two exponents over log frequency.
    pub curve_centi: i32,
    /// High-pass corner.
    pub lowcut_hz: Option<u32>,
    /// Low-pass corner.
    pub highcut_hz: Option<u32>,
    pub amplitude_centi: i32,
}

pub open spec fn preset(e: i32, h: i32, lowcut: Option<u32>, highcut: Option<u32>) -> NoisePreset {
    NoisePreset {
        exponent_centi: e,
        high_exponent_centi: h,
        curve_centi: 100,
        lowcut_hz: lowcut,
        highcut_hz: highcut,
        amplitude_centi: 100,
    }
}

/// The preset of each known colour name (lower case).
pub open spec fn preset_table(name: Seq<char>) -> Option<NoisePreset> {
    if name == "pink"@ {
        Some(preset(100, 100, None, None))
    } else if name == "brown"@ {
        Some(preset(200, 200, None, None))
    } else if name == "red"@ {
        Some(preset(200, 150, None, None))
    } else if name == "green"@ {
        Some(preset(0, 0, Some(100), Some(8000)))
    } else if name == "blue"@ {
        Some(preset(-100i32, -100i32, None, None))
    } else if name == "purple"@ {
        Some(preset(-200i32, -200i32, None, None))
    } else if name == "deep brown"@ {
        Some(preset(250, 200, None, None))
    } else if name == "white"@ {
        Some(preset(0, 0, None, None))
    } else {
        None
    }
}

/// What `str::to_lowercase` returns for a string.
pub uninterp spec fn lower_of(s: Seq<char>) -> Seq<char>;

/// Relies on `str::to_lowercase`: the result depends on the characters alone.
#[verifier::external_body]
fn lowercase(s: &str) -> (r: String)
    ensures
        r@ == lower_of(s@),
{
    s.to_lowercase()
}

fn make(e: i32, h: i32, lowcut: Option<u32>, highcut: Option<u32>) -> (r: NoisePreset)
    ensures
        r == preset(e, h, lowcut, highcut),
{
    NoisePreset {
        exponent_centi: e,
        high_exponent_centi: h,
        curve_centi: 100,
        lowcut_hz: lowcut,
        highcut_hz: highcut,
        amplitude_centi: 100,
    }
}

/// The preset of a lower-case colour name, if it is a known one.
pub fn preset_for_type(nt: &str) -> (r: Option<NoisePreset>)
    ensures
        r == preset_table(nt@),
{
    let name = nt.to_owned();
    if name == "pink".to_owned() {
        Some(make(100, 100, None, None))
    } else if name == "brown".to_owned() {
        Some(make(200, 200, None, None))
    } else if name == "red".to_owned() {
        Some(make(200, 150, None, None))
    } else if name == "green".to_owned() {
        Some(make(0, 0, Some(100), Some(8000)))
    } else if name == "blue".to_owned() {
        Some(make(-100, -100, None, None))
    } else if name == "purple".to_owned() {
        Some(make(-200, -200, None, None))
    } else if name == "deep brown".to_owned() {
        Some(make(250, 200, None, None))
    } else if name == "white".to_owned() {
        Some(make(0, 0, None, None))
    } else {
        None
    }
}

/// The preset for a configured colour name, compared without regard to
/// case: a missing or unknown name gives pink.
pub open spec fn resolved_preset_spec(name: Option<Seq<char>>) -> NoisePreset {
    match name {
        Some(n) => match preset_table(lower_of(n)) {
            Some(p) => p,
            None => preset(100, 100, None, None),
        },
        None => preset(100, 100, None, None),
    }
}

/// The preset for a configured colour name: case is ignored, and a missing
/// or unknown name falls back to pink.
pub fn resolved_preset(name: Option<&str>) -> (r: NoisePreset)
    ensures
        r == resolved_preset_spec(
            match name {
                Some(n) => Some(n@),
                None => None,
            },
        ),
{
    match name {
        Some(n) => {
            let nt = lowercase(n);
            match preset_for_type(nt.as_str()) {
                Some(p) => p,
                None => make(100, 100, None, None),
            }
        },
        None => make(100, 100, None, None),
    }
}

} // verus!
