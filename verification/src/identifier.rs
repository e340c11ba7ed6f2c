//! Workspace identifiers and the file names made from them.
//!
//! Every request gets an identifier of 128 bits, drawn at random. The source
//! file and the compiled program of the request are named after it, so that
//! two requests with different identifiers never name the same file.

use vstd::prelude::*;
use vstd::string::StringExecFns;

verus! {

/// The bits that a randomly drawn identifier has fixed: its version digit and
/// the two variant bits below it.
pub open spec fn fixed_bits() -> u128 {
    0x0000_0000_0000_f000_c000_0000_0000_0000u128
}

/// A randomly drawn identifier has version 4 and the standard variant.
pub open spec fn is_random_form(bits: u128) -> bool {
    bits & fixed_bits() == 0x0000_0000_0000_4000_8000_0000_0000_0000u128
}

/// The `k`-th hexadecimal digit of `bits`, counted from the most significant
/// digit (0) to the least significant one (31).
pub open spec fn digit(bits: u128, k: int) -> u128 {
    (bits >> ((4 * (31 - k)) as u128)) & 0xf
}

/// The lower-case character for a hexadecimal digit.
pub open spec fn hex_char(d: u128) -> char {
    if d < 10 {
        ((d + 48) as u8) as char
    } else {
        ((d + 87) as u8) as char
    }
}

/// The places of the four hyphens in the written form of an identifier.
pub open spec fn is_hyphen_place(i: int) -> bool {
    i == 8 || i == 13 || i == 18 || i == 23
}

/// Which digit stands at place `i` of the written form, where `i` is not the
/// place of a hyphen.
pub open spec fn digit_at_place(i: int) -> int {
    if i < 8 {
        i
    } else if i < 13 {
        i - 1
    } else if i < 18 {
        i - 2
    } else if i < 23 {
        i - 3
    } else {
        i - 4
    }
}

/// The place at which digit `k` stands in the written form.
pub open spec fn place_of_digit(k: int) -> int {
    if k < 8 {
        k
    } else if k < 12 {
        k + 1
    } else if k < 16 {
        k + 2
    } else if k < 20 {
        k + 3
    } else {
        k + 4
    }
}

/// The written form of an identifier: its 32 hexadecimal digits in lower
/// case, most significant first, in groups of 8, 4, 4, 4 and 12 digits with a
/// hyphen between two groups.
pub open spec fn hyphenated_text(bits: u128) -> Seq<char> {
    Seq::new(
        36,
        |i: int|
            if is_hyphen_place(i) {
                '-'
            } else {
                hex_char(digit(bits, digit_at_place(i)))
            },
    )
}

/// The name of the compiled program of the request with identifier `bits`.
pub open spec fn artifact_name(bits: u128) -> Seq<char> {
    hyphenated_text(bits)
}

/// The name of the source file of the request with identifier `bits`.
pub open spec fn source_name(bits: u128) -> Seq<char> {
    hyphenated_text(bits) + ".rs"@
}

/// A name that denotes a file directly inside the directory it is resolved
/// in: it is not empty, does not start with a dot, and holds no separator and
/// no NUL.
pub open spec fn is_plain_file_name(name: Seq<char>) -> bool {
    &&& name.len() > 0
    &&& name[0] != '.'
    &&& forall|i: int|
        0 <= i < name.len() ==> name[i] != '/' && name[i] != '\\' && name[i] != '\0'
}

/// Draws an identifier with `uuid::Uuid::new_v4` and hands out its 128 bits.
///
/// Trusted: whatever is drawn, the version digit is 4 and the variant bits
/// are `10`. Nothing else is claimed of the result. The call panics where
/// the operating system cannot supply random bytes.
#[verifier::external_body]
fn random_bits() -> (bits: u128)
    ensures
        is_random_form(bits),
{
    uuid::Uuid::new_v4().as_u128()
}

/// Writes an identifier out as `uuid::Uuid` displays it.
///
/// Trusted: the result is the hyphenated lower-case form of the 128 bits.
#[verifier::external_body]
fn hyphenated(bits: u128) -> (text: String)
    ensures
        text@ == hyphenated_text(bits),
{
    uuid::Uuid::from_u128(bits).to_string()
}

/// The identifier of one request's workspace.
#[derive(Clone, Copy, Debug, PartialEq, Eq, Structural)]
pub struct WorkspaceId {
    pub bits: u128,
}

impl WorkspaceId {
    /// Draws a fresh identifier at random. Of what is drawn only the form is
    /// certain; that two draws differ is a matter of chance, with 122 random
    /// bits in each. Panics where the operating system cannot supply random
    /// bytes.
    pub fn generate() -> (id: WorkspaceId)
        ensures
            is_random_form(id.bits),
    {
        WorkspaceId { bits: random_bits() }
    }

    /// The name of the compiled program inside the workspace.
    pub fn artifact_file(&self) -> (name: String)
        ensures
            name@ == artifact_name(self.bits),
    {
        hyphenated(self.bits)
    }

    /// The name of the source file inside the workspace.
    pub fn source_file(&self) -> (name: String)
        ensures
            name@ == source_name(self.bits),
    {
        hyphenated(self.bits).concat(".rs")
    }
}

/// A value is made of its lowest hexadecimal digit and the digits above it.
proof fn lemma_split_lowest_digit(x: u128)
    ensures
        x == ((x >> 4) << 4) | (x & 0xf),
{
    assert(x == ((x >> 4) << 4) | (x & 0xf)) by (bit_vector);
}

/// Shifting by `s` and then by one digit more is shifting by `s + 4`.
proof fn lemma_shift_one_digit_more(x: u128, s: u128)
    requires
        s <= 120,
    ensures
        (x >> s) >> 4 == x >> ((s + 4) as u128),
{
    assert(s <= 120 ==> (x >> s) >> 4 == x >> ((s + 4) as u128)) by (bit_vector);
}

/// Two values with the same `n` leading digits agree above the other digits.
proof fn lemma_leading_digits_determine(a: u128, b: u128, n: int)
    requires
        1 <= n <= 32,
        forall|k: int| 0 <= k < n ==> digit(a, k) == digit(b, k),
    ensures
        a >> ((4 * (32 - n)) as u128) == b >> ((4 * (32 - n)) as u128),
    decreases n,
{
    let s = (4 * (32 - n)) as u128;
    assert(digit(a, n - 1) == digit(b, n - 1));
    assert(digit(a, n - 1) == (a >> s) & 0xf);
    assert(digit(b, n - 1) == (b >> s) & 0xf);
    lemma_split_lowest_digit(a >> s);
    lemma_split_lowest_digit(b >> s);
    if n == 1 {
        assert((a >> 124) >> 4 == 0) by (bit_vector);
        assert((b >> 124) >> 4 == 0) by (bit_vector);
    } else {
        lemma_leading_digits_determine(a, b, n - 1);
        lemma_shift_one_digit_more(a, s);
        lemma_shift_one_digit_more(b, s);
    }
}

/// The 32 digits of an identifier determine it.
pub proof fn lemma_digits_determine(a: u128, b: u128)
    requires
        forall|k: int| 0 <= k < 32 ==> digit(a, k) == digit(b, k),
    ensures
        a == b,
{
    lemma_leading_digits_determine(a, b, 32);
    assert(a >> 0 == a) by (bit_vector);
    assert(b >> 0 == b) by (bit_vector);
}

/// A digit is below 16, and different digits are written differently.
pub proof fn lemma_hex_char(bits: u128, k: int)
    requires
        0 <= k < 32,
    ensures
        digit(bits, k) < 16,
        hex_char(digit(bits, k)) != '-',
        hex_char(digit(bits, k)) != '.',
        hex_char(digit(bits, k)) != '/',
        hex_char(digit(bits, k)) != '\\',
        hex_char(digit(bits, k)) != '\0',
{
    let s = (4 * (31 - k)) as u128;
    assert((bits >> s) & 0xf < 16) by (bit_vector);
}

/// Two identifiers that are written the same way are the same identifier.
pub proof fn lemma_written_form_determines(a: u128, b: u128)
    requires
        hyphenated_text(a) == hyphenated_text(b),
    ensures
        a == b,
{
    assert forall|k: int| 0 <= k < 32 implies digit(a, k) == digit(b, k) by {
        let i = place_of_digit(k);
        assert(!is_hyphen_place(i) && digit_at_place(i) == k);
        assert(hyphenated_text(a)[i] == hex_char(digit(a, k)));
        assert(hyphenated_text(b)[i] == hex_char(digit(b, k)));
        lemma_hex_char(a, k);
        lemma_hex_char(b, k);
    }
    lemma_digits_determine(a, b);
}

/// Requests with different identifiers share no file name: their source
/// files differ, their compiled programs differ, and no source file of one
/// is the compiled program of another.
pub proof fn lemma_distinct_identifiers_distinct_names(a: u128, b: u128)
    requires
        a != b,
    ensures
        artifact_name(a) != artifact_name(b),
        source_name(a) != source_name(b),
        source_name(a) != artifact_name(b),
        artifact_name(a) != source_name(b),
{
    reveal_strlit(".rs");
    if artifact_name(a) == artifact_name(b) {
        lemma_written_form_determines(a, b);
    }
    if source_name(a) == source_name(b) {
        assert(source_name(a).subrange(0, 36) =~= hyphenated_text(a));
        assert(source_name(b).subrange(0, 36) =~= hyphenated_text(b));
        lemma_written_form_determines(a, b);
    }
    assert(source_name(a).len() == 39);
    assert(source_name(b).len() == 39);
    assert(artifact_name(a).len() == 36);
    assert(artifact_name(b).len() == 36);
}

/// Within one workspace the source file and the compiled program have
/// different names.
pub proof fn lemma_source_is_not_artifact(bits: u128)
    ensures
        source_name(bits) != artifact_name(bits),
{
    reveal_strlit(".rs");
    assert(source_name(bits).len() == 39);
    assert(artifact_name(bits).len() == 36);
}

/// Both names of a workspace denote files directly inside it: neither can
/// lead out of the workspace directory.
pub proof fn lemma_names_are_plain(bits: u128)
    ensures
        is_plain_file_name(artifact_name(bits)),
        is_plain_file_name(source_name(bits)),
{
    reveal_strlit(".rs");
    let short = artifact_name(bits);
    let long = source_name(bits);
    assert forall|i: int| 0 <= i < 36 implies short[i] != '.' && short[i] != '/' && short[i]
        != '\\' && short[i] != '\0' by {
        if !is_hyphen_place(i) {
            lemma_hex_char(bits, digit_at_place(i));
        }
    }
    assert forall|i: int| 0 <= i < long.len() implies long[i] != '/' && long[i] != '\\' && long[i]
        != '\0' by {
        if i < 36 {
            assert(long[i] == short[i]);
        } else {
            assert(long[i] == ".rs"@[i - 36]);
        }
    }
    assert(long[0] == short[0]);
}

/// A randomly drawn identifier shows its version and variant when written:
/// the first digit of the third group is `4`, and the fourth group starts
/// with `8`, `9`, `a` or `b`.
pub proof fn lemma_random_form_shows(bits: u128)
    requires
        is_random_form(bits),
    ensures
        hyphenated_text(bits)[14] == '4',
        hyphenated_text(bits)[19] == '8' || hyphenated_text(bits)[19] == '9' || hyphenated_text(
            bits,
        )[19] == 'a' || hyphenated_text(bits)[19] == 'b',
{
    assert(digit_at_place(14) == 12 && digit_at_place(19) == 16);
    assert(bits & 0x0000_0000_0000_f000_c000_0000_0000_0000u128
        == 0x0000_0000_0000_4000_8000_0000_0000_0000u128 ==> (bits >> 76) & 0xf == 4 && 8 <= (bits
        >> 60) & 0xf <= 11) by (bit_vector);
}

} // verus!
