//! Random identifiers over a caller-chosen alphabet, and version 4 and 5 UUIDs.

use crate::text::{hex_digit, push_char};
use vstd::prelude::*;
use vstd::string::StringExecFns;

verus! {

/// Preset alphabets for [`nanoid`] and [`nanoid_segmented`].
pub struct Alphabet;

impl Alphabet {
    /// Digits `0-9`.
    pub const NUMBERS: [char; 10] = ['0', '1', '2', '3', '4', '5', '6', '7', '8', '9'];

    /// Lower-case letters `a-z`.
    pub const LOWER: [char; 26] = [
        'a', 'b', 'c', 'd', 'e', 'f', 'g', 'h', 'i', 'j', 'k', 'l', 'm', 'n', 'o', 'p', 'q', 'r',
        's', 't', 'u', 'v', 'w', 'x', 'y', 'z',
    ];

    /// Upper-case letters `A-Z`.
    pub const UPPER: [char; 26] = [
        'A', 'B', 'C', 'D', 'E', 'F', 'G', 'H', 'I', 'J', 'K', 'L', 'M', 'N', 'O', 'P', 'Q', 'R',
        'S', 'T', 'U', 'V', 'W', 'X', 'Y', 'Z',
    ];

    /// Digits, then lower-case letters.
    pub const NUMBERS_LOWER: [char; 36] = [
        '0', '1', '2', '3', '4', '5', '6', '7', '8', '9', 'a', 'b', 'c', 'd', 'e', 'f', 'g', 'h',
        'i', 'j', 'k', 'l', 'm', 'n', 'o', 'p', 'q', 'r', 's', 't', 'u', 'v', 'w', 'x', 'y', 'z',
    ];

    /// Digits, then upper-case letters.
    pub const NUMBERS_UPPER: [char; 36] = [
        '0', '1', '2', '3', '4', '5', '6', '7', '8', '9', 'A', 'B', 'C', 'D', 'E', 'F', 'G', 'H',
        'I', 'J', 'K', 'L', 'M', 'N', 'O', 'P', 'Q', 'R', 'S', 'T', 'U', 'V', 'W', 'X', 'Y', 'Z',
    ];

    /// Digits, lower-case letters, then upper-case letters.
    pub const NUMBERS_LOWER_UPPER: [char; 62] = [
        '0', '1', '2', '3', '4', '5', '6', '7', '8', '9', 'a', 'b', 'c', 'd', 'e', 'f', 'g', 'h',
        'i', 'j', 'k', 'l', 'm', 'n', 'o', 'p', 'q', 'r', 's', 't', 'u', 'v', 'w', 'x', 'y', 'z',
        'A', 'B', 'C', 'D', 'E', 'F', 'G', 'H', 'I', 'J', 'K', 'L', 'M', 'N', 'O', 'P', 'Q', 'R',
        'S', 'T', 'U', 'V', 'W', 'X', 'Y', 'Z',
    ];

    /// Symbols that are hard to mistake for one another.
    pub const SAFE: [char; 32] = [
        '2', '3', '4', '5', '6', '7', '8', '9', 'A', 'B', 'C', 'D', 'E', 'F', 'G', 'H', 'J', 'K',
        'M', 'N', 'P', 'Q', 'R', 'S', 'T', 'W', 'X', 'Y', 'Z', 'a', 'b', 'c',
    ];

    /// The default alphabet: digits and letters of both cases.
    pub const DEFAULT: [char; 62] = [
        '0', '1', '2', '3', '4', '5', '6', '7', '8', '9', 'a', 'b', 'c', 'd', 'e', 'f', 'g', 'h',
        'i', 'j', 'k', 'l', 'm', 'n', 'o', 'p', 'q', 'r', 's', 't', 'u', 'v', 'w', 'x', 'y', 'z',
        'A', 'B', 'C', 'D', 'E', 'F', 'G', 'H', 'I', 'J', 'K', 'L', 'M', 'N', 'O', 'P', 'Q', 'R',
        'S', 'T', 'U', 'V', 'W', 'X', 'Y', 'Z',
    ];
}

/// An alphabet to draw from: between 1 and 255 symbols, which may be any
/// and may repeat. The generator picks a symbol by one random byte and
/// refuses an alphabet of more than 255.
pub open spec fn valid_alphabet(alphabet: Seq<char>) -> bool {
    1 <= alphabet.len() <= 255
}

/// Each preset alphabet is one to draw from.
pub proof fn lemma_presets_are_valid()
    ensures
        valid_alphabet(Alphabet::NUMBERS@),
        valid_alphabet(Alphabet::LOWER@),
        valid_alphabet(Alphabet::UPPER@),
        valid_alphabet(Alphabet::NUMBERS_LOWER@),
        valid_alphabet(Alphabet::NUMBERS_UPPER@),
        valid_alphabet(Alphabet::NUMBERS_LOWER_UPPER@),
        valid_alphabet(Alphabet::SAFE@),
        valid_alphabet(Alphabet::DEFAULT@),
{
}

/// Whether `alphabet` is one to draw from.
pub fn is_valid_alphabet(alphabet: &[char]) -> (valid: bool)
    ensures
        valid == valid_alphabet(alphabet@),
{
    1 <= alphabet.len() && alphabet.len() <= 255
}

/// Every symbol of `id` occurs in `alphabet`.
pub open spec fn drawn_from(id: Seq<char>, alphabet: Seq<char>) -> bool {
    forall|i: int| 0 <= i < id.len() ==> alphabet.contains(#[trigger] id[i])
}

/// The number of bytes that a symbol takes when written as UTF-8.
spec fn utf8_len(symbol: char) -> nat {
    if symbol <= '\u{7f}' {
        1
    } else if symbol <= '\u{7ff}' {
        2
    } else if symbol <= '\u{ffff}' {
        3
    } else {
        4
    }
}

/// All symbols of `alphabet` take `width` bytes.
spec fn all_of_width(alphabet: Seq<char>, width: nat) -> bool {
    forall|i: int| 0 <= i < alphabet.len() ==> utf8_len(#[trigger] alphabet[i]) == width
}

/// The generator counts an identifier in bytes, while symbols of an alphabet
/// may differ in length. So it is run over stand-ins of one length, one for
/// each position of the alphabet, and what it draws is read back by position.
/// This is the length of a stand-in in bytes: one byte where the alphabet has
/// at most 128 symbols, for which the one-byte symbols suffice, and else two.
spec fn stand_in_width(symbols: nat) -> nat {
    if symbols <= 128 {
        1
    } else {
        2
    }
}

/// The code of the stand-in for the first position: the first one-byte
/// symbol, or the first two-byte symbol.
spec fn stand_in_base(symbols: nat) -> nat {
    if symbols <= 128 {
        0
    } else {
        0x80
    }
}

/// `stand` holds the stand-ins for an alphabet of `symbols` symbols: in each
/// position the symbol whose code is the base plus the position.
spec fn stand_ins_for(stand: Seq<char>, symbols: nat) -> bool {
    &&& stand.len() == symbols
    &&& forall|k: int|
        0 <= k < symbols ==> (#[trigger] stand[k]) as int == stand_in_base(symbols) + k
}

/// The longest identifier that can be drawn over an alphabet of `symbols`
/// symbols. The generator computes eight times the size in bytes of what it
/// draws, which must fit in a `usize`. It draws one byte for each symbol over
/// an alphabet of at most 128 symbols, and two bytes over a larger one.
pub open spec fn max_length(symbols: nat) -> usize {
    if symbols <= 128 {
        (usize::MAX / 8) as usize
    } else {
        (usize::MAX / 16) as usize
    }
}

/// `char::from_u32`: the symbol with the given code, where the code is one
/// of a symbol.
#[verifier::external_body]
fn symbol_of(code: u32) -> (symbol: Option<char>)
    ensures
        symbol is Some <==> code < 0xD800 || 0xE000 <= code <= 0x10FFFF,
        symbol matches Some(found) ==> found as int == code,
{
    char::from_u32(code)
}

/// `nanoid::format` with the crate's default random source, its result
/// handed out symbol by symbol. The generator takes symbols from `alphabet`
/// by index and stops when the identifier is `size` bytes long. Over symbols
/// that all take the same number of bytes, and for a size that is a multiple
/// of that number, it stops after `size` bytes exactly, and all symbols of
/// the result are from `alphabet`. Which symbols come out is left open.
#[verifier::external_body]
fn generate(alphabet: &[char], size: usize) -> (id: Vec<char>)
    requires
        valid_alphabet(alphabet@),
        all_of_width(alphabet@, utf8_len(alphabet@[0])),
        1 <= size <= usize::MAX / 8,
        size as int % utf8_len(alphabet@[0]) as int == 0,
    ensures
        id@.len() * utf8_len(alphabet@[0]) == size,
        drawn_from(id@, alphabet@),
{
    ::nanoid::format(::nanoid::rngs::default, alphabet, size).chars().collect()
}

/// The code of a symbol.
fn code_of(symbol: char) -> (code: u32)
    ensures
        code == symbol as int,
{
    symbol as u32
}

/// The stand-ins for an alphabet of `symbols` symbols.
fn stand_ins(symbols: usize) -> (stand: Vec<char>)
    requires
        1 <= symbols <= 255,
    ensures
        stand_ins_for(stand@, symbols as nat),
        valid_alphabet(stand@),
        all_of_width(stand@, stand_in_width(symbols as nat)),
{
    let base: u32 = if symbols <= 128 {
        0
    } else {
        0x80
    };
    let mut stand: Vec<char> = Vec::new();
    let mut k: usize = 0;
    while k < symbols
        invariant
            1 <= symbols <= 255,
            k <= symbols,
            base == stand_in_base(symbols as nat),
            stand@.len() == k,
            forall|j: int| 0 <= j < k ==> (#[trigger] stand@[j]) as int == base + j,
        decreases symbols - k,
    {
        let symbol = symbol_of(base + k as u32).unwrap();
        stand.push(symbol);
        k += 1;
    }
    stand
}

/// A random identifier of `length` symbols drawn from `alphabet`, each
/// position of the alphabet being as likely as any other.
///
/// An identifier of no symbols is the empty string, over any alphabet. For
/// one symbol or more there must be an alphabet to draw from, and the length
/// must be one that the generator's arithmetic can take.
pub fn nanoid(alphabet: &[char], length: usize) -> (id: String)
    requires
        length > 0 ==> valid_alphabet(alphabet@),
        length <= max_length(alphabet@.len()),
    ensures
        id@.len() == length,
        drawn_from(id@, alphabet@),
{
    let mut id = String::new();
    if length == 0 {
        return id;
    }
    let symbols = alphabet.len();
    let stand = stand_ins(symbols);
    let base: u32 = if symbols <= 128 {
        0
    } else {
        0x80
    };
    let size = if symbols <= 128 {
        length
    } else {
        2 * length
    };
    let drawn = generate(stand.as_slice(), size);
    let mut i: usize = 0;
    while i < length
        invariant
            i <= length,
            symbols == alphabet@.len(),
            1 <= symbols <= 255,
            base == stand_in_base(symbols as nat),
            stand_ins_for(stand@, symbols as nat),
            drawn@.len() == length,
            drawn_from(drawn@, stand@),
            id@.len() == i,
            drawn_from(id@, alphabet@),
        decreases length - i,
    {
        let code = code_of(drawn[i]);
        proof {
            assert(stand@.contains(drawn@[i as int]));
            let k = choose|k: int| 0 <= k < stand@.len() && stand@[k] == drawn@[i as int];
            assert(stand@[k] as int == base + k);
        }
        let position = (code - base) as usize;
        let ghost before = id@;
        push_char(&mut id, alphabet[position]);
        assert forall|j: int| 0 <= j < id@.len() implies alphabet@.contains(#[trigger] id@[j]) by {
            if j < before.len() {
                assert(id@[j] == before[j]);
            } else {
                assert(id@[j] == alphabet@[position as int]);
            }
        }
        i += 1;
    }
    id
}

/// Length of segment `i` when `length` symbols are split into `segments`
/// groups: the quotient, and for the last group the remainder on top.
pub open spec fn segment_len(length: nat, segments: nat, i: nat) -> nat {
    if i + 1 == segments {
        length / segments + length % segments
    } else {
        length / segments
    }
}

/// `parts` are the groups of a segmented identifier of `length` symbols in
/// `segments` groups over `alphabet`.
pub open spec fn segmented(
    parts: Seq<Seq<char>>,
    alphabet: Seq<char>,
    length: nat,
    segments: nat,
) -> bool {
    &&& parts.len() == segments
    &&& forall|i: int|
        0 <= i < parts.len() ==> (#[trigger] parts[i]).len() == segment_len(
            length,
            segments,
            i as nat,
        )
    &&& forall|i: int| 0 <= i < parts.len() ==> drawn_from(#[trigger] parts[i], alphabet)
}

/// The groups written one after another with `separator` between neighbours.
pub open spec fn joined(parts: Seq<Seq<char>>, separator: char) -> Seq<char>
    decreases parts.len(),
{
    if parts.len() == 0 {
        Seq::empty()
    } else if parts.len() == 1 {
        parts[0]
    } else {
        joined(parts.drop_last(), separator).push(separator) + parts.last()
    }
}

/// Number of symbols in all groups together.
pub open spec fn total_len(parts: Seq<Seq<char>>) -> nat
    decreases parts.len(),
{
    if parts.len() == 0 {
        0
    } else {
        total_len(parts.drop_last()) + parts.last().len()
    }
}

/// The symbols of each string.
pub open spec fn texts(parts: Seq<String>) -> Seq<Seq<char>> {
    parts.map_values(|s: String| s@)
}

/// Joining puts one separator between each two neighbours and nothing else
/// beside the groups.
pub proof fn lemma_joined_len(parts: Seq<Seq<char>>, separator: char)
    requires
        parts.len() >= 1,
    ensures
        joined(parts, separator).len() == total_len(parts) + parts.len() - 1,
    decreases parts.len(),
{
    if parts.len() == 1 {
        assert(total_len(parts) == total_len(parts.drop_last()) + parts.last().len());
    } else {
        lemma_joined_len(parts.drop_last(), separator);
    }
}

/// Every symbol of `id` is the separator or occurs in `alphabet`.
pub open spec fn drawn_from_or(id: Seq<char>, alphabet: Seq<char>, separator: char) -> bool {
    forall|i: int|
        0 <= i < id.len() ==> id[i] == separator || alphabet.contains(#[trigger] id[i])
}

/// Joining groups over an alphabet gives symbols of the alphabet and
/// separators, nothing else.
pub proof fn lemma_joined_symbols(parts: Seq<Seq<char>>, separator: char, alphabet: Seq<char>)
    requires
        forall|i: int| 0 <= i < parts.len() ==> drawn_from(#[trigger] parts[i], alphabet),
    ensures
        drawn_from_or(joined(parts, separator), alphabet, separator),
    decreases parts.len(),
{
    if parts.len() > 1 {
        let front = parts.drop_last();
        lemma_joined_symbols(front, separator, alphabet);
        let head = joined(front, separator);
        let whole = joined(parts, separator);
        assert forall|k: int| 0 <= k < whole.len() implies whole[k] == separator
            || alphabet.contains(#[trigger] whole[k]) by {
            if k < head.len() {
                assert(whole[k] == head[k]);
            } else if k > head.len() {
                assert(whole[k] == parts.last()[k - head.len() - 1]);
            }
        }
    }
}

/// Groups of equal length `each` hold `parts.len() * each` symbols.
proof fn lemma_total_len_uniform(parts: Seq<Seq<char>>, each: nat)
    requires
        forall|i: int| 0 <= i < parts.len() ==> (#[trigger] parts[i]).len() == each,
    ensures
        total_len(parts) == parts.len() * each,
    decreases parts.len(),
{
    if parts.len() > 0 {
        let front = parts.drop_last();
        lemma_total_len_uniform(front, each);
        assert(parts.len() * each == front.len() * each + each) by (nonlinear_arith)
            requires
                parts.len() == front.len() + 1,
        ;
    } else {
        assert(parts.len() * each == 0) by (nonlinear_arith)
            requires
                parts.len() == 0,
        ;
    }
}

/// The groups of a segmented identifier hold `length` symbols in all: no
/// symbol is lost to the division, the last group takes the remainder.
pub proof fn lemma_segments_sum_to_length(
    parts: Seq<Seq<char>>,
    alphabet: Seq<char>,
    length: nat,
    segments: nat,
)
    requires
        segments >= 1,
        segmented(parts, alphabet, length, segments),
    ensures
        total_len(parts) == length,
{
    let each = length / segments;
    let front = parts.drop_last();
    lemma_total_len_uniform(front, each);
    assert(front.len() * each + each + length % segments == length) by (nonlinear_arith)
        requires
            front.len() + 1 == segments,
            each == length / segments,
            segments >= 1,
    ;
}

/// Writes `parts` one after another with `separator` between neighbours.
pub fn join_segments(parts: &Vec<String>, separator: char) -> (id: String)
    ensures
        id@ == joined(texts(parts@), separator),
{
    let mut id = String::new();
    let mut i: usize = 0;
    while i < parts.len()
        invariant
            i <= parts.len(),
            id@ == joined(texts(parts@).take(i as int), separator),
        decreases parts.len() - i,
    {
        let ghost before = texts(parts@).take(i as int);
        let ghost after = texts(parts@).take(i + 1);
        assert(after.drop_last() == before);
        if i > 0 {
            push_char(&mut id, separator);
        }
        id.append(parts[i].as_str());
        i += 1;
    }
    assert(texts(parts@).take(parts.len() as int) == texts(parts@));
    id
}

/// A random identifier of `length` symbols drawn from `alphabet`, written as
/// `segments` groups with `separator` between them. All groups have
/// `length / segments` symbols but the last, which also takes the remainder.
///
/// Each group is generated as [`nanoid`] generates, under the same
/// conditions; a group of no symbols is empty. There must be at least one
/// group to divide by.
pub fn nanoid_segmented(
    alphabet: &[char],
    length: usize,
    separator: char,
    segments: usize,
) -> (id: String)
    requires
        length > 0 ==> valid_alphabet(alphabet@),
        length <= max_length(alphabet@.len()),
        1 <= segments,
    ensures
        exists|parts: Seq<Seq<char>>|
            #[trigger] segmented(parts, alphabet@, length as nat, segments as nat) && id@
                == joined(parts, separator),
        id@.len() == length + segments - 1,
        drawn_from_or(id@, alphabet@, separator),
{
    let segment_length = length / segments;
    let remainder = length % segments;
    assert(segment_length + remainder <= length) by (nonlinear_arith)
        requires
            1 <= segments,
            segment_length == length / segments,
            remainder == length % segments,
    ;
    let mut segments_vec: Vec<String> = Vec::new();
    for i in 0..segments
        invariant
            length > 0 ==> valid_alphabet(alphabet@),
            length <= max_length(alphabet@.len()),
            1 <= segments,
            segment_length == length / segments,
            remainder == length % segments,
            segment_length + remainder <= length,
            segments_vec@.len() == i,
            forall|j: int|
                0 <= j < i ==> (#[trigger] segments_vec@[j])@.len() == segment_len(
                    length as nat,
                    segments as nat,
                    j as nat,
                ),
            forall|j: int| 0 <= j < i ==> drawn_from((#[trigger] segments_vec@[j])@, alphabet@),
    {
        let current_segment_length = if i == segments - 1 {
            segment_length + remainder
        } else {
            segment_length
        };
        let segment = nanoid(alphabet, current_segment_length);
        segments_vec.push(segment);
    }
    let id = join_segments(&segments_vec, separator);
    proof {
        let parts = texts(segments_vec@);
        assert(segmented(parts, alphabet@, length as nat, segments as nat));
        lemma_segments_sum_to_length(parts, alphabet@, length as nat, segments as nat);
        lemma_joined_len(parts, separator);
        lemma_joined_symbols(parts, separator, alphabet@);
    }
    id
}

/// A 128-bit identifier, held as its 16 bytes in network order.
#[derive(Clone, Copy, Debug, PartialEq, Eq, Hash)]
pub struct Uuid {
    pub bytes: [u8; 16],
}

impl View for Uuid {
    type V = Seq<u8>;

    open spec fn view(&self) -> Seq<u8> {
        self.bytes@
    }
}

/// The namespace for domain names, under which [`uuid_v5`] derives its
/// identifiers.
pub const NAMESPACE_DNS: [u8; 16] = [
    0x6b, 0xa7, 0xb8, 0x10, 0x9d, 0xad, 0x11, 0xd1, 0x80, 0xb4, 0x00, 0xc0, 0x4f, 0xd4, 0x30, 0xc8,
];

/// The version number that an identifier carries: the high half of byte 6.
pub open spec fn version_of(bytes: Seq<u8>) -> int {
    (bytes[6] >> 4u8) as int
}

/// The identifier is laid out as RFC 4122 says: the two high bits of byte 8
/// are `10`.
pub open spec fn is_rfc4122(bytes: Seq<u8>) -> bool {
    bytes[8] & 0xc0u8 == 0x80u8
}

/// The bytes of the version 5 identifier that `uuid::Uuid::new_v5` derives
/// from a namespace and a name. It is a SHA-1 digest of the two with the
/// version and layout bits set, and depends on nothing else.
pub uninterp spec fn name_based_sha1(namespace: Seq<u8>, name: Seq<u8>) -> Seq<u8>;

/// The identifier that [`uuid_v5`] gives to `name`.
pub open spec fn spec_uuid_v5(name: Seq<u8>) -> Seq<u8> {
    name_based_sha1(NAMESPACE_DNS@, name)
}

/// Whether a hyphen stands before byte `i` in the written form of an
/// identifier.
pub open spec fn hyphen_before(i: int) -> bool {
    i == 4 || i == 6 || i == 8 || i == 10
}

/// The written form of the first `n` bytes of an identifier: two lower-case
/// hex digits for each byte, and hyphens before bytes 4, 6, 8 and 10.
pub open spec fn hyphenated_prefix(bytes: Seq<u8>, n: nat) -> Seq<char>
    decreases n,
{
    if n == 0 {
        Seq::empty()
    } else {
        let written = hyphenated_prefix(bytes, (n - 1) as nat);
        let lead = if hyphen_before(n - 1) {
            written.push('-')
        } else {
            written
        };
        lead.push(hex_digit(bytes[n - 1] >> 4u8)).push(hex_digit(bytes[n - 1] & 0x0fu8))
    }
}

/// The usual written form of an identifier: its bytes in lower-case hex, in
/// groups of 4, 2, 2, 2 and 6 bytes with hyphens between them.
pub open spec fn hyphenated(bytes: Seq<u8>) -> Seq<char> {
    hyphenated_prefix(bytes, 16)
}

/// The written form of `n` bytes has two symbols for each byte and one for
/// each hyphen so far.
pub proof fn lemma_hyphenated_len(bytes: Seq<u8>, n: nat)
    requires
        n <= 16,
    ensures
        hyphenated_prefix(bytes, n).len() == 2 * n + if n <= 4 {
            0int
        } else if n <= 6 {
            1
        } else if n <= 8 {
            2
        } else if n <= 10 {
            3
        } else {
            4
        },
    decreases n,
{
    if n > 0 {
        lemma_hyphenated_len(bytes, (n - 1) as nat);
    }
}

/// The lower-case hex digit of a value below 16.
fn hex_symbol(nibble: u8) -> (symbol: char)
    requires
        nibble < 16,
    ensures
        symbol == hex_digit(nibble),
{
    if nibble < 10 {
        (0x30 + nibble) as char
    } else {
        (0x61 + (nibble - 10)) as char
    }
}

/// `uuid::Uuid::new_v4`: sixteen random bytes in which the version is set to
/// 4 and the layout to RFC 4122. The other 122 bits are left open.
#[verifier::external_body]
fn random_bytes_v4() -> (bytes: [u8; 16])
    ensures
        version_of(bytes@) == 4,
        is_rfc4122(bytes@),
{
    ::uuid::Uuid::new_v4().into_bytes()
}

/// `uuid::Uuid::new_v5` on a namespace given by its bytes: the result is
/// fixed by namespace and name, carries version 5 and the RFC 4122 layout.
#[verifier::external_body]
fn name_based_bytes(namespace: &[u8; 16], name: &[u8]) -> (bytes: [u8; 16])
    ensures
        bytes@ == name_based_sha1(namespace@, name@),
        version_of(bytes@) == 5,
        is_rfc4122(bytes@),
{
    ::uuid::Uuid::new_v5(&::uuid::Uuid::from_bytes(*namespace), name).into_bytes()
}

impl Uuid {
    /// The identifier with the given bytes.
    pub fn from_bytes(bytes: [u8; 16]) -> (id: Uuid)
        ensures
            id@ == bytes@,
    {
        Uuid { bytes }
    }

    /// The bytes of the identifier.
    pub fn into_bytes(self) -> (bytes: [u8; 16])
        ensures
            bytes@ == self@,
    {
        self.bytes
    }

    /// The identifier in its usual written form, 36 symbols long.
    pub fn hyphenated(&self) -> (text: String)
        ensures
            text@ == hyphenated(self@),
            text@.len() == 36,
    {
        let mut text = String::new();
        for i in 0..16usize
            invariant
                text@ == hyphenated_prefix(self@, i as nat),
        {
            if i == 4 || i == 6 || i == 8 || i == 10 {
                push_char(&mut text, '-');
            }
            let byte: u8 = self.bytes[i];
            assert(byte >> 4u8 < 16 && byte & 0x0fu8 < 16) by (bit_vector);
            push_char(&mut text, hex_symbol(byte >> 4));
            push_char(&mut text, hex_symbol(byte & 0x0f));
        }
        proof {
            lemma_hyphenated_len(self@, 16);
        }
        text
    }

    /// The version number that the identifier carries.
    pub fn get_version_num(&self) -> (version: usize)
        ensures
            version == version_of(self@),
    {
        let high: u8 = self.bytes[6] >> 4;
        high as usize
    }
}

/// A random (version 4) identifier.
pub fn uuid_v4() -> (id: Uuid)
    ensures
        version_of(id@) == 4,
        is_rfc4122(id@),
{
    Uuid { bytes: random_bytes_v4() }
}

/// The version 5 identifier of `name` in the namespace for domain names.
pub fn uuid_v5(name: &[u8]) -> (id: Uuid)
    ensures
        id@ == spec_uuid_v5(name@),
        version_of(id@) == 5,
        is_rfc4122(id@),
{
    let namespace = NAMESPACE_DNS;
    Uuid { bytes: name_based_bytes(&namespace, name) }
}

/// Equal names have equal version 5 identifiers: the identifier depends on
/// the name alone.
pub proof fn lemma_uuid_v5_deterministic(name: Seq<u8>, other: Seq<u8>)
    requires
        name == other,
    ensures
        spec_uuid_v5(name) == spec_uuid_v5(other),
{
}

} // verus!
