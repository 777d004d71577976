use vstd::prelude::*;
use vstd::string::*;
use vstd::utf8::*;

use crate::text::{trim, trimmed};

verus! {

broadcast use vstd::string::group_string_axioms;

/// The largest lens document, in bytes (512 KiB).
pub const MAX_HTML_BYTES: usize = 524288;

/// The longest lens id, in bytes.
pub const MAX_ID_BYTES: usize = 64;

/// The longest lens name, in bytes.
pub const MAX_NAME_BYTES: usize = 80;

/// The longest lens icon name, in bytes.
pub const MAX_ICON_BYTES: usize = 32;

/// A byte that a lens id may hold: a lowercase ASCII letter, a digit, or `-`.
pub open spec fn is_id_byte(b: u8) -> bool {
    (97 <= b && b <= 122) || (48 <= b && b <= 57) || b == 45
}

/// A lens id: 1 to 64 bytes, each a lowercase letter, digit or hyphen,
/// neither starting nor ending with a hyphen.
pub open spec fn valid_id(id: Seq<u8>) -> bool {
    &&& 1 <= id.len() <= MAX_ID_BYTES
    &&& forall|k: int| 0 <= k < id.len() ==> is_id_byte(#[trigger] id[k])
    &&& id[0] != 45
    &&& id.last() != 45
}

/// A label (name or icon): not white space alone, and at most `max` bytes of UTF-8.
pub open spec fn valid_label(label: Seq<char>, max: nat) -> bool {
    trimmed(label).len() > 0 && encode_utf8(label).len() <= max
}

/// ASCII upper-case letters to lower case, other bytes unchanged.
pub open spec fn ascii_lower(b: u8) -> u8 {
    if 65 <= b && b <= 90 {
        (b + 32) as u8
    } else {
        b
    }
}

pub open spec fn lowered(s: Seq<u8>) -> Seq<u8> {
    s.map_values(|b: u8| ascii_lower(b))
}

/// Whether `needle` occurs as a contiguous run inside `hay`.
pub open spec fn contains_run(hay: Seq<u8>, needle: Seq<u8>) -> bool {
    exists|i: int| 0 <= i && i + needle.len() <= hay.len() && #[trigger] hay.subrange(i, i + needle.len()) == needle
}

/// A complete HTML document: its text, ASCII letters taken in lower case,
/// holds both `<html` and `</html>`.
pub open spec fn is_complete_document(html: Seq<u8>) -> bool {
    &&& contains_run(lowered(html), encode_utf8("<html"@))
    &&& contains_run(lowered(html), encode_utf8("</html>"@))
}

/// What validating a lens answers: the first rule that the lens breaks, by its
/// message, or `Ok` when it breaks none.
pub open spec fn lens_verdict(
    id: Seq<char>,
    name: Seq<char>,
    icon: Seq<char>,
    html: Seq<char>,
) -> Result<(), Seq<char>> {
    if !valid_id(encode_utf8(id)) {
        Err("Lens id must use 1-64 lowercase letters, numbers, or hyphens"@)
    } else if !valid_label(name, MAX_NAME_BYTES as nat) {
        Err("Lens name must use 1-80 characters"@)
    } else if !valid_label(icon, MAX_ICON_BYTES as nat) {
        Err("Lens icon must use 1-32 characters"@)
    } else if encode_utf8(html).len() > MAX_HTML_BYTES {
        Err("Lens HTML exceeds the 512 KiB limit"@)
    } else if !is_complete_document(encode_utf8(html)) {
        Err("Lens HTML must be a complete HTML document"@)
    } else {
        Ok(())
    }
}

/// `Ok` exactly when the verdict is `Ok`, and the same message otherwise.
pub open spec fn matches_verdict(r: Result<(), String>, verdict: Result<(), Seq<char>>) -> bool {
    match r {
        Ok(()) => verdict is Ok,
        Err(message) => verdict == Err::<(), Seq<char>>(message@),
    }
}

fn valid_id_bytes(id: &[u8]) -> (ok: bool)
    ensures
        ok == valid_id(id@),
{
    let n = id.len();
    if n == 0 || n > MAX_ID_BYTES {
        return false;
    }
    let mut i: usize = 0;
    while i < n
        invariant
            n == id@.len(),
            i <= n,
            forall|k: int| 0 <= k < i ==> is_id_byte(#[trigger] id@[k]),
        decreases n - i,
    {
        let b = id[i];
        if !((97 <= b && b <= 122) || (48 <= b && b <= 57) || b == 45) {
            assert(!is_id_byte(id@[i as int]));
            return false;
        }
        i = i + 1;
    }
    id[0] != 45 && id[n - 1] != 45
}

fn valid_label_text(label: &str, max: usize) -> (ok: bool)
    ensures
        ok == valid_label(label@, max as nat),
{
    let bytes = label.as_bytes();
    let blank = trim(label).is_empty();
    !blank && bytes.len() <= max
}

/// Whether `hay`, ASCII letters lowered, holds `needle` as a contiguous run.
fn contains_lowered(hay: &[u8], needle: &[u8]) -> (found: bool)
    ensures
        found == contains_run(lowered(hay@), needle@),
{
    let n = hay.len();
    let m = needle.len();
    let ghost low = lowered(hay@);
    if m > n {
        assert forall|i: int| 0 <= i && i + m <= n implies #[trigger] low.subrange(i, i + m)
            != needle@ by {}
        return false;
    }
    if m == 0 {
        assert(low.subrange(0, 0 + needle@.len() as int) =~= needle@);
        return true;
    }
    let mut i: usize = 0;
    while i <= n - m
        invariant
            n == hay@.len(),
            m == needle@.len(),
            0 < m <= n,
            low == lowered(hay@),
            i <= n - m + 1,
            forall|j: int| 0 <= j < i ==> #[trigger] low.subrange(j, j + m) != needle@,
        decreases n - m + 1 - i,
    {
        let mut k: usize = 0;
        let mut same = true;
        while k < m
            invariant
                n == hay@.len(),
                m == needle@.len(),
                i + m <= n,
                k <= m,
                low == lowered(hay@),
                same ==> forall|q: int| 0 <= q < k ==> low[i + q] == needle@[q],
                !same ==> low.subrange(i as int, i + m) != needle@,
            decreases m - k,
        {
            let b = hay[i + k];
            let lb = if 65 <= b && b <= 90 { b + 32 } else { b };
            assert(lb == low[i + k]);
            if lb != needle[k] {
                assert(low.subrange(i as int, i + m)[k as int] != needle@[k as int]);
                same = false;
            }
            k = k + 1;
        }
        if same {
            assert(low.subrange(i as int, i + m) =~= needle@);
            return true;
        }
        i = i + 1;
    }
    false
}

/// Checks the four parts of a lens against the lens rules, in order.
pub fn check_lens(id: &str, name: &str, icon: &str, html: &str) -> (r: Result<(), String>)
    ensures
        matches_verdict(r, lens_verdict(id@, name@, icon@, html@)),
{
    if !valid_id_bytes(id.as_bytes()) {
        return Err("Lens id must use 1-64 lowercase letters, numbers, or hyphens".to_owned());
    }
    if !valid_label_text(name, MAX_NAME_BYTES) {
        return Err("Lens name must use 1-80 characters".to_owned());
    }
    if !valid_label_text(icon, MAX_ICON_BYTES) {
        return Err("Lens icon must use 1-32 characters".to_owned());
    }
    let bytes = html.as_bytes();
    if bytes.len() > MAX_HTML_BYTES {
        return Err("Lens HTML exceeds the 512 KiB limit".to_owned());
    }
    if !contains_lowered(bytes, "<html".as_bytes()) || !contains_lowered(
        bytes,
        "</html>".as_bytes(),
    ) {
        return Err("Lens HTML must be a complete HTML document".to_owned());
    }
    Ok(())
}

/// A lens snapshot that the sidecar has already written to the mind directory.
#[derive(Clone, Debug, PartialEq)]
pub struct LensDefinition {
    pub id: String,
    pub name: String,
    pub icon: String,
    pub html: String,
}

/// Guards the renderer: decides whether Chamber is willing to display the
/// lens that arrived, and if not, says which rule it breaks.
pub fn validate(lens: &LensDefinition) -> (r: Result<(), String>)
    ensures
        matches_verdict(r, lens_verdict(lens.id@, lens.name@, lens.icon@, lens.html@)),
{
    check_lens(lens.id.as_str(), lens.name.as_str(), lens.icon.as_str(), lens.html.as_str())
}

/// A character that a lens id may hold: a lowercase ASCII letter, a digit, or `-`.
pub open spec fn is_id_char(c: char) -> bool {
    ('a' <= c && c <= 'z') || ('0' <= c && c <= '9') || c == '-'
}

proof fn lemma_leading_byte_of_wide_char(c: u32)
    requires
        is_scalar(c),
        !has_width_1_encoding(c),
    ensures
        encode_scalar(c)[0] >= 0xC0,
{
    if has_width_2_encoding(c) {
        assert(leading_byte_width_2(c) >= 0xC0) by (bit_vector)
            requires
                has_width_2_encoding(c),
        ;
    } else if has_width_3_encoding(c) {
        assert(leading_byte_width_3(c) >= 0xC0) by (bit_vector)
            requires
                has_width_3_encoding(c),
        ;
    } else {
        assert(leading_byte_width_4(c) >= 0xC0) by (bit_vector)
            requires
                has_width_4_encoding(c),
        ;
    }
}

proof fn lemma_id_bytes_spell_id_chars(id: Seq<char>)
    requires
        forall|k: int| 0 <= k < encode_utf8(id).len() ==> is_id_byte(#[trigger] encode_utf8(id)[k]),
    ensures
        is_ascii_chars(id),
        forall|i: int| 0 <= i < id.len() ==> is_id_char(#[trigger] id[i]),
    decreases id.len(),
{
    if id.len() > 0 {
        let c = id[0] as u32;
        let first = encode_scalar(c);
        let rest = id.drop_first();
        let bytes = encode_utf8(id);
        assert(bytes == first + encode_utf8(rest));
        char_is_scalar(id[0]);
        if !has_width_1_encoding(c) {
            lemma_leading_byte_of_wide_char(c);
            assert(bytes[0] == first[0]);
            assert(false);
        }
        assert(leading_byte_width_1(c) == c as u8) by (bit_vector)
            requires
                has_width_1_encoding(c),
        ;
        assert(first[0] == c as u8);
        assert(bytes[0] == first[0]);
        assert forall|k: int| 0 <= k < encode_utf8(rest).len() implies is_id_byte(
            #[trigger] encode_utf8(rest)[k],
        ) by {
            assert(encode_utf8(rest)[k] == bytes[k + 1]);
        }
        lemma_id_bytes_spell_id_chars(rest);
        assert forall|i: int| 0 <= i < id.len() implies is_id_char(#[trigger] id[i]) && '\0' <= id[i]
            <= '\u{7f}' by {
            if i > 0 {
                assert(id[i] == rest[i - 1]);
            } else {
                char_u32_cast(id[0], c);
            }
        }
    }
}

/// An accepted lens id is a plain path component: one to 64 characters, each
/// a lowercase ASCII letter, a digit or a hyphen, neither first nor last a
/// hyphen. The directory `.github/lens/<id>` that holds the lens thus holds no
/// separator and no dot, and stays where the sidecar means to write.
pub proof fn accepted_id_is_plain(id: Seq<char>, name: Seq<char>, icon: Seq<char>, html: Seq<char>)
    requires
        lens_verdict(id, name, icon, html) is Ok,
    ensures
        1 <= id.len() <= MAX_ID_BYTES,
        forall|i: int| 0 <= i < id.len() ==> is_id_char(#[trigger] id[i]),
        id[0] != '-',
        id.last() != '-',
{
    lemma_id_bytes_spell_id_chars(id);
    is_ascii_chars_encode_utf8(id);
    let bytes = encode_utf8(id);
    assert(id[0] as u8 == bytes[0]);
    assert(id[id.len() - 1] as u8 == bytes[bytes.len() - 1]);
}

/// The id rule accepts every id of 1 to 64 characters, each a lowercase ASCII
/// letter (`a` to `z`), an ASCII digit (`0` to `9`) or a hyphen, that neither
/// starts nor ends with a hyphen: whatever else a lens holds, validation
/// never refuses it for its id.
pub proof fn plain_ids_are_accepted(id: Seq<char>, name: Seq<char>, icon: Seq<char>, html: Seq<char>)
    requires
        1 <= id.len() <= 64,
        forall|i: int|
            0 <= i < id.len() ==> ('a' <= #[trigger] id[i] && id[i] <= 'z') || ('0' <= id[i]
                && id[i] <= '9') || id[i] == '-',
        id[0] != '-',
        id.last() != '-',
    ensures
        lens_verdict(id, name, icon, html) != Err::<(), Seq<char>>(
            "Lens id must use 1-64 lowercase letters, numbers, or hyphens"@,
        ),
        valid_label(name, MAX_NAME_BYTES as nat) && valid_label(icon, MAX_ICON_BYTES as nat)
            && encode_utf8(html).len() <= MAX_HTML_BYTES && is_complete_document(encode_utf8(html))
            ==> lens_verdict(id, name, icon, html) is Ok,
{
    assert(is_ascii_chars(id));
    is_ascii_chars_encode_utf8(id);
    let bytes = encode_utf8(id);
    assert forall|k: int| 0 <= k < bytes.len() implies is_id_byte(#[trigger] bytes[k]) by {
        assert(id[k] as u8 == bytes[k]);
    }
    assert(id[0] as u8 == bytes[0]);
    assert(id[id.len() - 1] as u8 == bytes[bytes.len() - 1]);
    assert(valid_id(bytes));
    reveal_strlit("Lens id must use 1-64 lowercase letters, numbers, or hyphens");
    reveal_strlit("Lens name must use 1-80 characters");
    reveal_strlit("Lens icon must use 1-32 characters");
    reveal_strlit("Lens HTML exceeds the 512 KiB limit");
    reveal_strlit("Lens HTML must be a complete HTML document");
    let id_message = "Lens id must use 1-64 lowercase letters, numbers, or hyphens"@;
    assert(id_message.len() == 60);
    assert("Lens name must use 1-80 characters"@.len() != id_message.len());
    assert("Lens icon must use 1-32 characters"@.len() != id_message.len());
    assert("Lens HTML exceeds the 512 KiB limit"@.len() != id_message.len());
    assert("Lens HTML must be a complete HTML document"@.len() != id_message.len());
}

} // verus!
