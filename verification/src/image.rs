//! Recognising sprite-sheet image formats by their first bytes, and naming
//! pets imported from local files.
use vstd::prelude::*;

use crate::text::{
    digits, hex_digit, hex_padded, is_pet_id_char, is_valid_pet_id, owned, push_hex_padded, zeros,
};

verus! {

/// The eight-byte signature that opens every PNG file.
pub open spec fn png_signature() -> Seq<u8> {
    seq![0x89u8, 0x50u8, 0x4Eu8, 0x47u8, 0x0Du8, 0x0Au8, 0x1Au8, 0x0Au8]
}

/// `RIFF`, the first four bytes of a WebP file.
pub open spec fn riff_tag() -> Seq<u8> {
    seq![0x52u8, 0x49u8, 0x46u8, 0x46u8]
}

/// `WEBP`, bytes 8 to 11 of a WebP file.
pub open spec fn webp_tag() -> Seq<u8> {
    seq![0x57u8, 0x45u8, 0x42u8, 0x50u8]
}

pub open spec fn is_png(b: Seq<u8>) -> bool {
    b.len() >= 8 && b.take(8) == png_signature()
}

pub open spec fn is_webp(b: Seq<u8>) -> bool {
    b.len() >= 12 && b.take(4) == riff_tag() && b.subrange(8, 12) == webp_tag()
}

/// The file extension for an image that starts with `b`, if it is a PNG or a WebP.
pub open spec fn image_ext(b: Seq<u8>) -> Option<Seq<char>> {
    if is_png(b) {
        Some("png"@)
    } else if is_webp(b) {
        Some("webp"@)
    } else {
        None
    }
}

/// The extension (`png` or `webp`) of the image whose first bytes are
/// `bytes`, or `None` for any other content.
pub fn detect_image_ext(bytes: &[u8]) -> (r: Option<&'static str>)
    ensures
        r is Some <==> image_ext(bytes@) is Some,
        r is Some ==> r->0@ == image_ext(bytes@)->0,
{
    proof {
        reveal_strlit("png");
        reveal_strlit("webp");
    }
    if bytes.len() >= 8 && bytes[0] == 0x89 && bytes[1] == 0x50 && bytes[2] == 0x4E && bytes[3]
        == 0x47 && bytes[4] == 0x0D && bytes[5] == 0x0A && bytes[6] == 0x1A && bytes[7] == 0x0A {
        assert(bytes@.take(8) =~= png_signature());
        return Some("png");
    }
    assert(!is_png(bytes@)) by {
        if is_png(bytes@) {
            assert(bytes@.take(8)[0] == bytes@[0]);
            assert(bytes@.take(8)[1] == bytes@[1]);
            assert(bytes@.take(8)[2] == bytes@[2]);
            assert(bytes@.take(8)[3] == bytes@[3]);
            assert(bytes@.take(8)[4] == bytes@[4]);
            assert(bytes@.take(8)[5] == bytes@[5]);
            assert(bytes@.take(8)[6] == bytes@[6]);
            assert(bytes@.take(8)[7] == bytes@[7]);
        }
    }
    if bytes.len() >= 12 && bytes[0] == 0x52 && bytes[1] == 0x49 && bytes[2] == 0x46 && bytes[3]
        == 0x46 && bytes[8] == 0x57 && bytes[9] == 0x45 && bytes[10] == 0x42 && bytes[11] == 0x50 {
        assert(bytes@.take(4) =~= riff_tag());
        assert(bytes@.subrange(8, 12) =~= webp_tag());
        return Some("webp");
    }
    assert(!is_webp(bytes@)) by {
        if is_webp(bytes@) {
            assert(bytes@.take(4)[0] == bytes@[0]);
            assert(bytes@.take(4)[1] == bytes@[1]);
            assert(bytes@.take(4)[2] == bytes@[2]);
            assert(bytes@.take(4)[3] == bytes@[3]);
            assert(bytes@.subrange(8, 12)[0] == bytes@[8]);
            assert(bytes@.subrange(8, 12)[1] == bytes@[9]);
            assert(bytes@.subrange(8, 12)[2] == bytes@[10]);
            assert(bytes@.subrange(8, 12)[3] == bytes@[11]);
        }
    }
    None
}

/// The format is decided by the first twelve bytes: what follows a
/// recognised header never changes the answer, and neither does what
/// follows the twelfth byte.
pub proof fn law_image_ext_reads_header_only(head: Seq<u8>, tail: Seq<u8>)
    ensures
        image_ext(head) is Some ==> image_ext(head + tail) == image_ext(head),
        head.len() >= 12 ==> image_ext(head + tail) == image_ext(head),
{
    let b = head + tail;
    if head.len() >= 8 {
        assert(b.take(8) == head.take(8));
    }
    if head.len() >= 12 {
        assert(b.take(4) == head.take(4));
        assert(b.subrange(8, 12) == head.subrange(8, 12));
    }
    if image_ext(head) is Some && !is_png(head) {
        assert(b.take(4) == head.take(4));
        assert(b.subrange(8, 12) == head.subrange(8, 12));
        assert(head.len() >= 12);
    }
}

// ---------------------------------------------------------------------------
// Ids of pets imported from local files
// ---------------------------------------------------------------------------

/// The id of a pet imported at `nanos` nanoseconds after the epoch:
/// `uploaded-` and the time in lower-case hexadecimal, at least 16 digits.
pub open spec fn uploaded_id(nanos: nat) -> Seq<char> {
    "uploaded-"@ + hex_padded(nanos, 16)
}

proof fn lemma_hex_digits_are_id_chars(n: nat)
    ensures
        forall|i: int| 0 <= i < digits(n, 16).len() ==> #[trigger] is_pet_id_char(digits(n, 16)[i]),
    decreases n,
{
    if n >= 16 {
        lemma_hex_digits_are_id_chars(n / 16);
        let d = (n % 16) as nat;
        assert(is_pet_id_char(hex_digit(d)));
        let prev = digits(n / 16, 16);
        assert(digits(n, 16) == prev.push(hex_digit(d)));
        assert forall|i: int| 0 <= i < digits(n, 16).len() implies #[trigger] is_pet_id_char(
            digits(n, 16)[i],
        ) by {
            if i < prev.len() {
                assert(digits(n, 16)[i] == prev[i]);
            }
        }
    } else {
        assert(is_pet_id_char(hex_digit(n)));
    }
}

/// Every id made for an imported pet is a valid pet id.
pub proof fn law_uploaded_id_is_valid(nanos: nat)
    ensures
        is_valid_pet_id(uploaded_id(nanos)),
        uploaded_id(nanos).take(9) == "uploaded-"@,
        uploaded_id(nanos).len() >= 25,
{
    reveal_strlit("uploaded-");
    lemma_hex_digits_are_id_chars(nanos);
    let s = uploaded_id(nanos);
    let d = digits(nanos, 16);
    let h = hex_padded(nanos, 16);
    assert forall|i: int| 0 <= i < h.len() implies #[trigger] is_pet_id_char(h[i]) by {
        if d.len() < 16 {
            let z = zeros((16 - d.len()) as nat);
            if i >= z.len() {
                assert(h[i] == d[i - z.len()]);
            }
        }
    }
    assert forall|i: int| 0 <= i < s.len() implies #[trigger] is_pet_id_char(s[i]) by {
        if i >= 9 {
            assert(s[i] == h[i - 9]);
        }
    }
    assert(s.take(9) =~= "uploaded-"@);
}

/// The id for a pet imported at `nanos` nanoseconds after the epoch.
pub fn uploaded_id_from_nanos(nanos: u128) -> (r: String)
    ensures
        r@ == uploaded_id(nanos as nat),
        is_valid_pet_id(r@),
{
    let mut r = owned("uploaded-");
    push_hex_padded(&mut r, nanos, 16);
    proof {
        law_uploaded_id_is_valid(nanos as nat);
    }
    r
}

#[verifier::external_type_specification]
#[verifier::external_body]
pub struct ExSystemTime(std::time::SystemTime);

/// `SystemTime::now`: the current time of the system clock. Nothing is
/// stated of which time it is.
#[verifier::external_body]
fn system_now() -> std::time::SystemTime {
    std::time::SystemTime::now()
}

/// `SystemTime::duration_since(UNIX_EPOCH)` in nanoseconds, or `None` for a
/// time before the epoch. Nothing is stated of the value.
#[verifier::external_body]
fn nanos_since_epoch(t: std::time::SystemTime) -> Option<u128> {
    match t.duration_since(std::time::UNIX_EPOCH) {
        Ok(d) => Some(d.as_nanos()),
        Err(_) => None,
    }
}

/// The id for a pet imported when the clock read `reading`: the reading's
/// nanoseconds since the epoch, or 0 for a clock before the epoch (`None`).
pub fn uploaded_id_from_reading(reading: Option<u128>) -> (r: String)
    ensures
        reading is Some ==> r@ == uploaded_id(reading->0 as nat),
        reading is None ==> r@ == uploaded_id(0),
        is_valid_pet_id(r@),
{
    let nanos: u128 = match reading {
        Some(n) => n,
        None => 0,
    };
    uploaded_id_from_nanos(nanos)
}

/// A fresh id for a pet imported now: `uploaded-` and the current time in
/// nanoseconds, in hexadecimal (0 when the clock is before the epoch).
/// Whatever the clock says, the id is valid; which time it holds rests on
/// the clock alone.
pub fn generate_uploaded_id() -> (r: String)
    ensures
        exists|n: nat| r@ == uploaded_id(n),
        is_valid_pet_id(r@),
        r@.take(9) == "uploaded-"@,
{
    let reading = nanos_since_epoch(system_now());
    let r = uploaded_id_from_reading(reading);
    proof {
        match reading {
            Some(t) => law_uploaded_id_is_valid(t as nat),
            None => law_uploaded_id_is_valid(0),
        }
    }
    r
}

} // verus!
