use vstd::prelude::*;
use crate::interval::DataLoggerStorageIntervalResponse;
use crate::interval::interval_of_text;
use crate::interval::interval_parse_result;
use crate::response::ErrorKind;
use crate::response::text_of;
use crate::response::well_formed_response;
use crate::scale::TemperatureScale;
use crate::scale::TemperatureScaleResponse;
use crate::scale::scale_literal;
use crate::scale::scale_of_text;
use crate::scale::scale_parse_result;

verus! {

/// Law: a well-framed buffer whose text is the literal of a scale parses to
/// exactly that scale, and a scale query succeeds on no other buffer.
pub proof fn lemma_scale_grammar_exact(s: Seq<u8>)
    ensures
        forall|scale: TemperatureScale|
            well_formed_response(s) && text_of(s) == scale_literal(scale)
                ==> scale_parse_result(s) == Ok::<TemperatureScaleResponse, ErrorKind>(
                TemperatureScaleResponse(scale),
            ),
        forall|scale: TemperatureScale|
            scale_parse_result(s) == Ok::<TemperatureScaleResponse, ErrorKind>(
                TemperatureScaleResponse(scale),
            ) ==> well_formed_response(s) && text_of(s) == scale_literal(scale),
{
    assert(scale_literal(TemperatureScale::Celsius)[3] == 0x63u8);
    assert(scale_literal(TemperatureScale::Kelvin)[3] == 0x6Bu8);
    assert(scale_literal(TemperatureScale::Fahrenheit)[3] == 0x66u8);
}

/// Law: a buffer that breaks the framing contract — no NUL terminator, an
/// embedded NUL, or text that is not valid UTF-8 — is rejected as malformed
/// by every parser, before any grammar is considered.
pub proof fn lemma_malformed_always_rejected(s: Seq<u8>)
    requires
        !well_formed_response(s),
    ensures
        scale_parse_result(s) == Err::<TemperatureScaleResponse, ErrorKind>(
            ErrorKind::MalformedResponse,
        ),
        interval_parse_result(s) == Err::<DataLoggerStorageIntervalResponse, ErrorKind>(
            ErrorKind::MalformedResponse,
        ),
{
}

/// Law: each parse result is a function of the buffer alone — the parsers
/// keep no state, so equal buffers always parse to equal results.
pub proof fn lemma_parse_deterministic(s1: Seq<u8>, s2: Seq<u8>)
    requires
        s1 == s2,
    ensures
        scale_parse_result(s1) == scale_parse_result(s2),
        interval_parse_result(s1) == interval_parse_result(s2),
{
}

/// Law: every rejected buffer yields the documented error kind and never the
/// other one — a broken frame is always `MalformedResponse`, a well-framed
/// text outside the grammar is always `ResponseParse` — and a parse succeeds
/// exactly when the buffer is well framed and its text is in the grammar.
pub proof fn lemma_error_taxonomy(s: Seq<u8>)
    ensures
        (scale_parse_result(s) == Err::<TemperatureScaleResponse, ErrorKind>(
            ErrorKind::MalformedResponse,
        )) <==> !well_formed_response(s),
        (scale_parse_result(s) == Err::<TemperatureScaleResponse, ErrorKind>(
            ErrorKind::ResponseParse,
        )) <==> (well_formed_response(s) && scale_of_text(text_of(s)) is None),
        (scale_parse_result(s) is Ok) <==> (well_formed_response(s) && scale_of_text(
            text_of(s),
        ) is Some),
        (interval_parse_result(s) == Err::<DataLoggerStorageIntervalResponse, ErrorKind>(
            ErrorKind::MalformedResponse,
        )) <==> !well_formed_response(s),
        (interval_parse_result(s) == Err::<DataLoggerStorageIntervalResponse, ErrorKind>(
            ErrorKind::ResponseParse,
        )) <==> (well_formed_response(s) && interval_of_text(text_of(s)) is None),
        (interval_parse_result(s) is Ok) <==> (well_formed_response(s) && interval_of_text(
            text_of(s),
        ) is Some),
{
}

} // verus!
