use vstd::prelude::*;
use vstd::utf8::{decode_utf8, encode_scalar, encode_utf8, valid_utf8};
use crate::enums::SioError;

verus! {

broadcast use vstd::utf8::encode_utf8_valid_utf8, vstd::utf8::encode_utf8_decode_utf8;

/// The application name libsoundio is given for a requested `name`: every
/// colon is replaced by an underscore.
pub open spec fn sanitized_name(name: Seq<char>) -> Seq<char> {
    name.map_values(|c: char| if c == ':' { '_' } else { c })
}

/// What reading a C string with the given bytes yields: its characters when
/// the bytes are valid UTF-8, and `EncodingString` otherwise.
pub open spec fn read_string(bytes: Seq<u8>) -> Result<Seq<char>, SioError> {
    if valid_utf8(bytes) {
        Ok(decode_utf8(bytes))
    } else {
        Err(SioError::EncodingString)
    }
}

/// Builds a `String` from bytes with `String::from_utf8`.
/// Claimed of the std function: it succeeds exactly when the bytes are valid
/// UTF-8, and then the string holds the characters those bytes encode.
#[verifier::external_body]
fn string_from_utf8(bytes: Vec<u8>) -> (r: Option<String>)
    ensures
        r is Some <==> valid_utf8(bytes@),
        r matches Some(s) ==> s@ == decode_utf8(bytes@),
{
    match String::from_utf8(bytes) {
        Ok(s) => Some(s),
        Err(_) => None,
    }
}

/// Turns the bytes of a C string (without its terminating NUL) into a
/// `String`; `EncodingString` when they are not valid UTF-8.
pub fn decode_c_string(bytes: Vec<u8>) -> (r: Result<String, SioError>)
    ensures
        r is Ok <==> valid_utf8(bytes@),
        r matches Ok(s) ==> read_string(bytes@) == Ok::<Seq<char>, SioError>(s@),
        r matches Err(e) ==> read_string(bytes@) == Err::<Seq<char>, SioError>(e),
{
    match string_from_utf8(bytes) {
        Some(s) => Ok(s),
        None => Err(SioError::EncodingString),
    }
}

proof fn lemma_scalar_bytes_nonzero(s: u32)
    requires
        s != 0,
        vstd::utf8::is_scalar(s),
    ensures
        !encode_scalar(s).contains(0u8),
{
    let e = encode_scalar(s);
    if vstd::utf8::has_width_1_encoding(s) {
        assert((s & 0x7F) as u8 != 0) by (bit_vector)
            requires
                s != 0,
                s <= 0x7F,
        ;
        assert(e[0] != 0u8);
    } else {
        assert(vstd::utf8::last_continuation_byte(s) != 0u8) by (bit_vector);
        assert(vstd::utf8::second_last_continuation_byte(s) != 0u8) by (bit_vector);
        assert(vstd::utf8::third_last_continuation_byte(s) != 0u8) by (bit_vector);
        assert(vstd::utf8::leading_byte_width_2(s) != 0u8) by (bit_vector);
        assert(vstd::utf8::leading_byte_width_3(s) != 0u8) by (bit_vector);
        assert(vstd::utf8::leading_byte_width_4(s) != 0u8) by (bit_vector);
        assert forall|i: int| 0 <= i < e.len() implies e[i] != 0u8 by {}
    }
}

/// The UTF-8 encoding of characters other than NUL holds no zero byte.
proof fn lemma_encode_without_nul(chars: Seq<char>)
    requires
        !chars.contains('\0'),
    ensures
        !encode_utf8(chars).contains(0u8),
    decreases chars.len(),
{
    if chars.len() > 0 {
        let rest = chars.drop_first();
        assert(!rest.contains('\0')) by {
            if rest.contains('\0') {
                let k = choose|k: int| 0 <= k < rest.len() && rest[k] == '\0';
                assert(chars[k + 1] == '\0');
            }
        }
        lemma_encode_without_nul(rest);
        assert(chars[0] != '\0');
        vstd::utf8::char_is_scalar(chars[0]);
        assert((chars[0] as u32) != 0u32) by {
            vstd::utf8::char_u32_cast(chars[0], chars[0] as u32);
        }
        lemma_scalar_bytes_nonzero(chars[0] as u32);
        let a = encode_scalar(chars[0] as u32);
        let b = encode_utf8(rest);
        assert(encode_utf8(chars) == a + b);
        assert forall|i: int| 0 <= i < (a + b).len() implies (a + b)[i] != 0u8 by {
            if i < a.len() {
                assert(a[i] == (a + b)[i]);
            } else {
                assert(b[i - a.len()] == (a + b)[i]);
            }
        }
    }
}

/// Sanitizing keeps the length of a name, turns every colon into an
/// underscore and keeps every other character as it is.
pub proof fn lemma_sanitized_name_pointwise(name: Seq<char>)
    ensures
        sanitized_name(name).len() == name.len(),
        forall|i: int|
            0 <= i < name.len() ==> (name[i] == ':' ==> #[trigger] sanitized_name(name)[i] == '_')
                && (name[i] != ':' ==> sanitized_name(name)[i] == name[i]),
{
}

/// Sanitizing a name that is already sanitized changes nothing: handing back
/// the name that was read keeps it as it is.
pub proof fn lemma_sanitized_name_stable(name: Seq<char>)
    ensures
        sanitized_name(sanitized_name(name)) == sanitized_name(name),
        !sanitized_name(name).contains(':'),
{
    assert(sanitized_name(sanitized_name(name)) =~= sanitized_name(name));
    let s = sanitized_name(name);
    if s.contains(':') {
        let k = choose|k: int| 0 <= k < s.len() && s[k] == ':';
        assert(s[k] == (if name[k] == ':' { '_' } else { name[k] }));
    }
}

/// Read-after-write of the application name: once a name without NUL has
/// been accepted, the bytes handed to libsoundio hold no NUL (so a C reader
/// sees all of them), and reading them back yields the sanitized name.
pub proof fn lemma_name_read_after_write(name: Seq<char>)
    requires
        !name.contains('\0'),
    ensures
        !encode_utf8(sanitized_name(name)).contains(0u8),
        read_string(encode_utf8(sanitized_name(name))) == Ok::<Seq<char>, SioError>(
            sanitized_name(name),
        ),
{
    let s = sanitized_name(name);
    assert(!s.contains('\0')) by {
        if s.contains('\0') {
            let k = choose|k: int| 0 <= k < s.len() && s[k] == '\0';
            assert(name[k] == '\0');
        }
    }
    lemma_encode_without_nul(s);
}

} // verus!
