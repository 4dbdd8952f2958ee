use vstd::prelude::*;
use crate::response::ErrorKind;
use crate::response::response_text;
use crate::response::text_of;
use crate::response::well_formed_response;

verus! {

/// Temperature scales supported by the EZO RTD sensor.
#[derive(Debug, Copy, Clone, PartialEq, Eq, Structural)]
pub enum TemperatureScale {
    Celsius,
    Kelvin,
    Fahrenheit,
}

/// Response to the "S,?" command to query the temperature scale.
#[derive(Debug, Copy, Clone, PartialEq, Eq, Structural)]
pub struct TemperatureScaleResponse(pub TemperatureScale);

/// The exact literal the device answers for each scale: "?S,c", "?S,k" or
/// "?S,f", as ASCII bytes.
pub open spec fn scale_literal(scale: TemperatureScale) -> Seq<u8> {
    match scale {
        TemperatureScale::Celsius => seq![0x3Fu8, 0x53u8, 0x2Cu8, 0x63u8],
        TemperatureScale::Kelvin => seq![0x3Fu8, 0x53u8, 0x2Cu8, 0x6Bu8],
        TemperatureScale::Fahrenheit => seq![0x3Fu8, 0x53u8, 0x2Cu8, 0x66u8],
    }
}

/// The scale whose literal a response text matches exactly, if any; the
/// grammar tolerates no trimming, case folding or partial match.
pub open spec fn scale_of_text(t: Seq<u8>) -> Option<TemperatureScale> {
    if t == scale_literal(TemperatureScale::Celsius) {
        Some(TemperatureScale::Celsius)
    } else if t == scale_literal(TemperatureScale::Kelvin) {
        Some(TemperatureScale::Kelvin)
    } else if t == scale_literal(TemperatureScale::Fahrenheit) {
        Some(TemperatureScale::Fahrenheit)
    } else {
        None
    }
}

/// The whole outcome of a scale query on a raw buffer: a malformed frame is
/// rejected before the grammar, a well-framed text either names a scale or
/// fails to parse.
pub open spec fn scale_parse_result(s: Seq<u8>) -> Result<TemperatureScaleResponse, ErrorKind> {
    if !well_formed_response(s) {
        Err(ErrorKind::MalformedResponse)
    } else {
        match scale_of_text(text_of(s)) {
            Some(scale) => Ok(TemperatureScaleResponse(scale)),
            None => Err(ErrorKind::ResponseParse),
        }
    }
}

impl TemperatureScaleResponse {
    /// Parses the result of the "S,?" command to query the temperature
    /// scale. Assumes that the passed response is the device's reply without
    /// the initial status byte.
    pub fn parse(response: &[u8]) -> (r: Result<TemperatureScaleResponse, ErrorKind>)
        ensures
            r == scale_parse_result(response@),
    {
        let text = match response_text(response) {
            Ok(t) => t,
            Err(e) => {
                return Err(e);
            },
        };
        if text.len() == 4 && text[0] == 0x3F && text[1] == 0x53 && text[2] == 0x2C {
            if text[3] == 0x63 {
                proof {
                    assert(text@ =~= scale_literal(TemperatureScale::Celsius));
                }
                return Ok(TemperatureScaleResponse(TemperatureScale::Celsius));
            }
            if text[3] == 0x6B {
                proof {
                    assert(text@ =~= scale_literal(TemperatureScale::Kelvin));
                }
                return Ok(TemperatureScaleResponse(TemperatureScale::Kelvin));
            }
            if text[3] == 0x66 {
                proof {
                    assert(text@ =~= scale_literal(TemperatureScale::Fahrenheit));
                }
                return Ok(TemperatureScaleResponse(TemperatureScale::Fahrenheit));
            }
        }
        proof {
            assert(scale_of_text(text@) is None);
        }
        Err(ErrorKind::ResponseParse)
    }
}

} // verus!
