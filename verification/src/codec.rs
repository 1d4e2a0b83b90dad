use vstd::prelude::*;
use vstd::string::StringExecFns;

verus! {

/// The canonical name of the encoding that encoding_rs's label lookup
/// (`Encoding::for_label`) resolves `label` to, or `None` when the
/// label matches no encoding of the Encoding Standard.
pub uninterp spec fn label_lookup(label: Seq<char>) -> Option<Seq<char>>;

/// What `Encoding::decode` (with BOM sniffing) yields for `bytes`
/// under the encoding whose canonical name is `enc_name`: `Some(text)`
/// when the input decodes without malformed sequences, `None` when the
/// decoder reported errors.
pub uninterp spec fn decoded(enc_name: Seq<char>, bytes: Seq<u8>) -> Option<Seq<char>>;

/// What `Encoding::encode` yields for `text` under the encoding whose
/// canonical name is `enc_name`: `Some(bytes)` when every character is
/// representable, `None` when the encoder reported unmappable
/// characters.
pub uninterp spec fn encoded(enc_name: Seq<char>, text: Seq<char>) -> Option<Seq<u8>>;

/// Relies on encoding_rs::Encoding::for_label: the label is matched,
/// after ASCII-lowercasing and trimming, against the Encoding
/// Standard's label table, and the canonical name of the matching
/// encoding is returned. Every canonical name is itself in the label
/// table and resolves to its own encoding.
#[verifier::external_body]
fn lookup_label(label: &str) -> (r: Option<String>)
    ensures
        match r {
            Some(name) => label_lookup(label@) == Some(name@) && label_lookup(name@) == Some(
                name@,
            ),
            None => label_lookup(label@) is None,
        },
{
    encoding_rs::Encoding::for_label(label.as_bytes()).map(|e| e.name().to_owned())
}

/// Relies on encoding_rs::UTF_8 and Encoding::name: the canonical name
/// of the UTF-8 encoding is "UTF-8", and it is its own label.
#[verifier::external_body]
fn utf8_name() -> (r: String)
    ensures
        r@ == "UTF-8"@,
        label_lookup(r@) == Some(r@),
{
    encoding_rs::UTF_8.name().to_owned()
}

/// Relies on encoding_rs::Encoding::decode (with BOM sniffing) under
/// the encoding that Encoding::for_label gives for `enc_name`: `None`
/// exactly when the decoder reported malformed sequences, otherwise
/// the decoded text with any BOM removed. The length bound keeps the
/// decoder's output-buffer size calculation from overflowing usize.
#[verifier::external_body]
fn decode_with(enc_name: &str, bytes: &Vec<u8>) -> (r: Option<String>)
    requires
        label_lookup(enc_name@) == Some(enc_name@),
        bytes@.len() <= usize::MAX / 32,
    ensures
        match r {
            Some(text) => decoded(enc_name@, bytes@) == Some(text@),
            None => decoded(enc_name@, bytes@) is None,
        },
{
    let enc = encoding_rs::Encoding::for_label(enc_name.as_bytes()).unwrap();
    let (text, _, had_errors) = enc.decode(bytes);
    if had_errors {
        None
    } else {
        Some(text.into_owned())
    }
}

/// Relies on encoding_rs::Encoding::encode under the encoding that
/// Encoding::for_label gives for `enc_name`: `None` exactly when the
/// encoder reported unmappable characters, otherwise the encoded
/// bytes. The length bound keeps the encoder's output-buffer size
/// calculation from overflowing usize.
#[verifier::external_body]
fn encode_with(enc_name: &str, text: &str) -> (r: Option<Vec<u8>>)
    requires
        label_lookup(enc_name@) == Some(enc_name@),
        text@.len() <= usize::MAX / 32,
    ensures
        match r {
            Some(bytes) => encoded(enc_name@, text@) == Some(bytes@),
            None => encoded(enc_name@, text@) is None,
        },
{
    let enc = encoding_rs::Encoding::for_label(enc_name.as_bytes()).unwrap();
    let (bytes, _, had_errors) = enc.encode(text);
    if had_errors {
        None
    } else {
        Some(bytes.into_owned())
    }
}

/// The view of an optional encoding label as a caller hands it in.
pub open spec fn spec_label_view(label: Option<&str>) -> Option<Seq<char>> {
    match label {
        Some(l) => Some(l@),
        None => None,
    }
}

/// The canonical encoding name an optional label resolves to: the name
/// of the matching encoding, or UTF-8 when the label is absent or
/// unknown.
pub open spec fn spec_resolve_encoding(label: Option<Seq<char>>) -> Seq<char> {
    match label {
        Some(l) => match label_lookup(l) {
            Some(name) => name,
            None => "UTF-8"@,
        },
        None => "UTF-8"@,
    }
}

/// The error text reported when decoding fails, naming the encoding.
pub open spec fn spec_decode_error(enc_name: Seq<char>) -> Seq<char> {
    "Decoding file content with "@ + enc_name + " encoding failed"@
}

/// The error text reported when encoding fails, naming the encoding.
pub open spec fn spec_encode_error(enc_name: Seq<char>) -> Seq<char> {
    "Encoding file content with "@ + enc_name + " encoding failed"@
}

/// Resolves an optional encoding label: a label the Encoding Standard
/// knows yields its encoding's canonical name; an absent or unknown
/// label falls back to UTF-8.
pub fn resolve_encoding(encoding_label: Option<&str>) -> (r: String)
    ensures
        r@ == spec_resolve_encoding(spec_label_view(encoding_label)),
        label_lookup(r@) == Some(r@),
{
    match encoding_label {
        Some(label) => match lookup_label(label) {
            Some(name) => name,
            None => utf8_name(),
        },
        None => utf8_name(),
    }
}

/// Decodes a file's bytes as text under the encoding a caller asked
/// for: the label is resolved against the Encoding Standard, an absent
/// or unknown label falls back to UTF-8, and a byte sequence that is
/// invalid for the chosen encoding is an error — never a lossy
/// substitution.
pub fn decode_text(bytes: &Vec<u8>, encoding_label: Option<&str>) -> (r: Result<String, String>)
    requires
        bytes@.len() <= usize::MAX / 32,
    ensures
        ({
            let enc = spec_resolve_encoding(spec_label_view(encoding_label));
            match r {
                Ok(text) => decoded(enc, bytes@) == Some(text@),
                Err(msg) => decoded(enc, bytes@) is None && msg@ == spec_decode_error(enc),
            }
        }),
{
    let enc_name = resolve_encoding(encoding_label);
    match decode_with(enc_name.as_str(), bytes) {
        Some(text) => Ok(text),
        None => Err(
            String::from_str("Decoding file content with ").concat(enc_name.as_str()).concat(
                " encoding failed",
            ),
        ),
    }
}

/// Encodes text into a file's bytes under the encoding a caller asked
/// for: the label is resolved against the Encoding Standard, an absent
/// or unknown label falls back to UTF-8, and a character the chosen
/// encoding cannot represent is an error — never a lossy substitution.
pub fn encode_text(content: &str, encoding_label: Option<&str>) -> (r: Result<Vec<u8>, String>)
    requires
        content@.len() <= usize::MAX / 32,
    ensures
        ({
            let enc = spec_resolve_encoding(spec_label_view(encoding_label));
            match r {
                Ok(bytes) => encoded(enc, content@) == Some(bytes@),
                Err(msg) => encoded(enc, content@) is None && msg@ == spec_encode_error(enc),
            }
        }),
{
    let enc_name = resolve_encoding(encoding_label);
    match encode_with(enc_name.as_str(), content) {
        Some(bytes) => Ok(bytes),
        None => Err(
            String::from_str("Encoding file content with ").concat(enc_name.as_str()).concat(
                " encoding failed",
            ),
        ),
    }
}

} // verus!
