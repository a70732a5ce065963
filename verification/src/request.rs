//! Building the generation request.
//!
//! Parameters are validated and assembled into the JSON body of the
//! submission call before any network access: a bad duration or a
//! conflicting model selection fails here.

use vstd::prelude::*;
use crate::ClientError;
use crate::json::JsonValue;

verus! {

/// The model used when the caller names none.
pub const DEFAULT_MODEL_ID: u32 = 6;

/// The largest input image accepted for transport encoding: above this,
/// the encoder's output-size computation could overflow `usize`.
pub const MAX_IMAGE_BYTES: usize = usize::MAX / 4;

/// The standard base64 rendering of a byte sequence.
pub uninterp spec fn base64_of(bytes: Seq<u8>) -> Seq<char>;

/// Relies on `base64::engine::general_purpose::STANDARD` through
/// `base64::Engine::encode`: standard-alphabet base64 with padding, a
/// function of the input bytes alone; empty input encodes to the empty
/// string.  The length bound keeps the encoder's buffer-size
/// computation from overflowing.
#[verifier::external_body]
fn base64_encode(bytes: &Vec<u8>) -> (r: String)
    requires
        bytes@.len() <= MAX_IMAGE_BYTES,
    ensures
        r@ == base64_of(bytes@),
        bytes@.len() == 0 ==> r@.len() == 0,
{
    base64::Engine::encode(&base64::engine::general_purpose::STANDARD, bytes)
}

/// Whether a requested clip length is one the service renders.
pub open spec fn spec_valid_duration(duration_seconds: u32) -> bool {
    duration_seconds == 5 || duration_seconds == 10
}

/// The transport encoding of the optional input image: absent means empty.
pub open spec fn spec_image_field(image_bytes: Option<Vec<u8>>) -> Seq<char> {
    match image_bytes {
        Some(bytes) => base64_of(bytes@),
        None => Seq::<char>::empty(),
    }
}

/// Validate the generation parameters and assemble the submission body.
///
/// The image is handed in as raw bytes, already read from disk by the
/// caller; it is transport-encoded here.
pub fn build_request(
    prompt: &str,
    duration_seconds: u32,
    image_bytes: Option<Vec<u8>>,
    model_id: Option<u32>,
    model_name: Option<&str>,
) -> (r: Result<JsonValue, ClientError>)
    requires
        image_bytes matches Some(bytes) ==> bytes@.len() <= MAX_IMAGE_BYTES,
    ensures
        !spec_valid_duration(duration_seconds) <==> r == Err::<JsonValue, ClientError>(
            ClientError::InvalidParameter,
        ),
        (spec_valid_duration(duration_seconds) && model_id is Some && model_name is Some) <==> r
            == Err::<JsonValue, ClientError>(ClientError::ConflictingParameter),
        r is Ok <==> (spec_valid_duration(duration_seconds) && !(model_id is Some
            && model_name is Some)),
        r matches Ok(body) ==> {
            &&& body matches JsonValue::Obj(pairs) && pairs@.len() == 4
            &&& body.spec_str_field("prompt"@) == Some(prompt@)
            &&& body.spec_int_field("duration_seconds"@) == Some(duration_seconds as i64)
            &&& body.spec_str_field("input_image_base64"@) == Some(spec_image_field(image_bytes))
            &&& (match (model_id, model_name) {
                (Some(id), None) => body.spec_int_field("animation_model_id"@) == Some(id as i64)
                    && body.spec_get("animation_model_name"@) is None,
                (None, Some(name)) => body.spec_str_field("animation_model_name"@) == Some(name@)
                    && body.spec_get("animation_model_id"@) is None,
                (None, None) => body.spec_int_field("animation_model_id"@) == Some(
                    DEFAULT_MODEL_ID as i64,
                ) && body.spec_get("animation_model_name"@) is None,
                (Some(_), Some(_)) => false,
            })
        },
{
    if duration_seconds != 5 && duration_seconds != 10 {
        return Err(ClientError::InvalidParameter);
    }
    if model_id.is_some() && model_name.is_some() {
        return Err(ClientError::ConflictingParameter);
    }

    let encoded_image: String = match image_bytes {
        Some(bytes) => base64_encode(&bytes),
        None => String::new(),
    };

    let mut pairs: Vec<(String, JsonValue)> = Vec::new();
    pairs.push(("prompt".to_owned(), JsonValue::Str(prompt.to_owned())));
    pairs.push(("duration_seconds".to_owned(), JsonValue::Int(duration_seconds as i64)));
    pairs.push(("input_image_base64".to_owned(), JsonValue::Str(encoded_image)));
    match (model_id, model_name) {
        (Some(id), None) => {
            pairs.push(("animation_model_id".to_owned(), JsonValue::Int(id as i64)));
        },
        (None, Some(name)) => {
            pairs.push(("animation_model_name".to_owned(), JsonValue::Str(name.to_owned())));
        },
        _ => {
            pairs.push(("animation_model_id".to_owned(), JsonValue::Int(DEFAULT_MODEL_ID as i64)));
        },
    }

    let body = JsonValue::Obj(pairs);
    proof {
        reveal_with_fuel(crate::json::pairs_lookup_from, 5);
        reveal_strlit("prompt");
        reveal_strlit("duration_seconds");
        reveal_strlit("input_image_base64");
        reveal_strlit("animation_model_id");
        reveal_strlit("animation_model_name");
        assert("prompt"@.len() == 6);
        assert("duration_seconds"@.len() == 16);
        assert("input_image_base64"@.len() == 18);
        assert("animation_model_id"@.len() == 18);
        assert("animation_model_name"@.len() == 20);
        assert("input_image_base64"@[0] == 'i');
        assert("animation_model_id"@[0] == 'a');
        assert("input_image_base64"@ != "animation_model_id"@);
    }
    Ok(body)
}

} // verus!
