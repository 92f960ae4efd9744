use vstd::prelude::*;
use vstd::string::StrSliceExecFns;
use vstd::string::StringExecFns;

use crate::mode::Mode;

verus! {

/// Length in bytes of every secret.
pub const SECRET_LEN: u64 = 32;

/// Number of secrets in a keyspace file, and number of shard files.
pub const KEYSPACE_SLOTS: u32 = 65536;

/// Exact length in bytes of a keyspace file: 65536 secrets of 32 bytes.
pub const KEYSPACE_FILE_LEN: u64 = 2_097_152;

/// One file of the secret store, named relative to the secret directory.
#[derive(Copy, Clone, Debug, PartialEq, Eq, Structural)]
pub enum SecretFile {
    /// The file `secret`, which holds the one secret of `Mode0`.
    Single,
    /// The file `0000`, which holds the keyspace of `Mode16`.
    Keyspace,
    /// The shard file of `Mode32` with the given index.
    Shard(u16),
}

/// Where one secret lies: the file, and the byte offset of its first byte.
/// The secret is the `SECRET_LEN` bytes from there on.
#[derive(Copy, Clone, Debug, PartialEq, Eq, Structural)]
pub struct SecretLocation {
    pub file: SecretFile,
    pub offset: u64,
}

/// The lowercase hexadecimal digit for a value below 16.
pub open spec fn hex_digit(d: int) -> char
    recommends
        0 <= d < 16,
{
    "0123456789abcdef"@[d]
}

/// A 16-bit value as four lowercase hexadecimal digits, most significant
/// first, with leading zeros.
pub open spec fn hex4(n: int) -> Seq<char>
    recommends
        0 <= n < 65536,
{
    seq![hex_digit(n / 4096), hex_digit(n / 256 % 16), hex_digit(n / 16 % 16), hex_digit(n % 16)]
}

/// The low 16 bits of a key id: the slot of the secret within its file.
pub open spec fn low16(key_id: u32) -> int {
    key_id as int % 65536
}

/// The high 16 bits of a key id: the index of its shard.
pub open spec fn high16(key_id: u32) -> int {
    key_id as int / 65536
}

/// Where the secret for a key id lies under a mode.
pub open spec fn location(mode: Mode, key_id: u32) -> SecretLocation {
    match mode {
        Mode::Mode0 => SecretLocation { file: SecretFile::Single, offset: 0 },
        Mode::Mode16 => SecretLocation {
            file: SecretFile::Keyspace,
            offset: (low16(key_id) * 32) as u64,
        },
        Mode::Mode32 => SecretLocation {
            file: SecretFile::Shard(high16(key_id) as u16),
            offset: (low16(key_id) * 32) as u64,
        },
    }
}

/// How many files the store has under a mode.
pub open spec fn file_count(mode: Mode) -> nat {
    match mode {
        Mode::Mode0 => 1,
        Mode::Mode16 => 1,
        Mode::Mode32 => 65536,
    }
}

/// The files that the store has under a mode, counted from 0: the single
/// file of `Mode0` and of `Mode16`, the shards `0000` to `ffff` of `Mode32`.
pub open spec fn required_file(mode: Mode, index: int) -> SecretFile
    recommends
        0 <= index < file_count(mode),
{
    match mode {
        Mode::Mode0 => SecretFile::Single,
        Mode::Mode16 => SecretFile::Keyspace,
        Mode::Mode32 => SecretFile::Shard(index as u16),
    }
}

/// The number, among the files of the mode, of the file that holds the
/// secret for a key id.
pub open spec fn file_index(mode: Mode, key_id: u32) -> int {
    match mode {
        Mode::Mode0 => 0,
        Mode::Mode16 => 0,
        Mode::Mode32 => high16(key_id),
    }
}

impl SecretFile {
    /// The file's name within the secret directory.
    pub open spec fn name(self) -> Seq<char> {
        match self {
            SecretFile::Single => "secret"@,
            SecretFile::Keyspace => "0000"@,
            SecretFile::Shard(index) => hex4(index as int),
        }
    }

    /// The exact length in bytes that the file must have.
    pub open spec fn len(self) -> nat {
        match self {
            SecretFile::Single => 32,
            SecretFile::Keyspace => 2_097_152,
            SecretFile::Shard(_) => 2_097_152,
        }
    }

    /// Renders the file's name.
    pub fn file_name(&self) -> (name: String)
        ensures
            name@ == self.name(),
    {
        match self {
            SecretFile::Single => String::from_str("secret"),
            SecretFile::Keyspace => String::from_str("0000"),
            SecretFile::Shard(index) => shard_file_name(*index),
        }
    }

    /// The exact length in bytes that the file must have.
    pub fn expected_len(&self) -> (len: u64)
        ensures
            len == self.len(),
    {
        match self {
            SecretFile::Single => SECRET_LEN,
            SecretFile::Keyspace => KEYSPACE_FILE_LEN,
            SecretFile::Shard(_) => KEYSPACE_FILE_LEN,
        }
    }
}

/// Counts the files that the store has under a mode.
pub fn count_files(mode: Mode) -> (count: u32)
    ensures
        count == file_count(mode),
{
    match mode {
        Mode::Mode0 => 1,
        Mode::Mode16 => 1,
        Mode::Mode32 => KEYSPACE_SLOTS,
    }
}

/// One of the files that the store has under a mode, by its number.
pub fn nth_file(mode: Mode, index: u32) -> (file: SecretFile)
    requires
        index < file_count(mode),
    ensures
        file == required_file(mode, index as int),
{
    match mode {
        Mode::Mode0 => SecretFile::Single,
        Mode::Mode16 => SecretFile::Keyspace,
        Mode::Mode32 => SecretFile::Shard(index as u16),
    }
}

/// The name of a shard file: its index as four lowercase hexadecimal digits.
pub fn shard_file_name(index: u16) -> (name: String)
    ensures
        name@ == hex4(index as int),
{
    let digits = "0123456789abcdef";
    proof {
        reveal_strlit("0123456789abcdef");
    }
    let d3: usize = (index / 4096) as usize;
    let d2: usize = (index / 256 % 16) as usize;
    let d1: usize = (index / 16 % 16) as usize;
    let d0: usize = (index % 16) as usize;
    let mut name = String::new();
    name.append(digits.substring_ascii(d3, d3 + 1));
    name.append(digits.substring_ascii(d2, d2 + 1));
    name.append(digits.substring_ascii(d1, d1 + 1));
    name.append(digits.substring_ascii(d0, d0 + 1));
    name
}

/// Finds the secret for a key id under a mode.
pub fn locate_secret(mode: Mode, key_id: u32) -> (loc: SecretLocation)
    ensures
        loc == location(mode, key_id),
{
    let slot: u32 = key_id & 0xffff;
    let shard: u32 = (key_id & 0xffff0000) >> 16;
    proof {
        lemma_halves_are_masks(key_id);
    }
    let offset: u64 = slot as u64 * 32;
    match mode {
        Mode::Mode0 => SecretLocation { file: SecretFile::Single, offset: 0 },
        Mode::Mode16 => SecretLocation { file: SecretFile::Keyspace, offset },
        Mode::Mode32 => SecretLocation { file: SecretFile::Shard(shard as u16), offset },
    }
}

/// The two halves of a key id are what masking and shifting give: the low
/// half is the id under the mask `0xffff`, the high half is the id under the
/// mask `0xffff0000`, shifted right by 16.
pub proof fn lemma_halves_are_masks(key_id: u32)
    ensures
        low16(key_id) == key_id & 0xffff,
        high16(key_id) == (key_id & 0xffff0000) >> 16,
        0 <= low16(key_id) < 65536,
        0 <= high16(key_id) < 65536,
{
    assert(key_id & 0xffff == key_id % 65536) by (bit_vector);
    assert((key_id & 0xffff0000) >> 16 == key_id / 65536) by (bit_vector);
}

/// Every secret lies in one of the files of its mode, at a multiple of 32
/// and wholly within the exact length of that file.
pub proof fn lemma_location_in_layout(mode: Mode, key_id: u32)
    ensures
        0 <= file_index(mode, key_id) < file_count(mode),
        location(mode, key_id).file == required_file(mode, file_index(mode, key_id)),
        location(mode, key_id).offset % 32 == 0,
        location(mode, key_id).offset + 32 <= location(mode, key_id).file.len(),
{
}

/// Each digit below 16 has its own character: `0` to `9`, then `a` to `f`.
pub proof fn lemma_hex_digit(d: int)
    requires
        0 <= d < 16,
    ensures
        d < 10 ==> hex_digit(d) as int == '0' as int + d,
        d >= 10 ==> hex_digit(d) as int == 'a' as int + d - 10,
{
    reveal_strlit("0123456789abcdef");
}

/// Digits below 16 with the same character are the same digit.
pub proof fn lemma_hex_digits_differ(c: int, d: int)
    requires
        0 <= c < 16,
        0 <= d < 16,
        hex_digit(c) == hex_digit(d),
    ensures
        c == d,
{
    lemma_hex_digit(c);
    lemma_hex_digit(d);
}

/// A 16-bit value is made up of its four hexadecimal digits.
proof fn lemma_four_digits(n: u16)
    by (bit_vector)
    ensures
        n == 4096 * (n / 4096) + 256 * (n / 256 % 16) + 16 * (n / 16 % 16) + n % 16,
        n / 4096 < 16,
{
}

/// No two shards share a file name.
pub proof fn lemma_shard_names_differ(a: u16, b: u16)
    requires
        a != b,
    ensures
        SecretFile::Shard(a).name() != SecretFile::Shard(b).name(),
{
    let x = a as int;
    let y = b as int;
    if hex4(x) == hex4(y) {
        lemma_four_digits(a);
        lemma_four_digits(b);
        // Equal names have equal digits, place by place, and equal digits
        // stand for equal values.
        assert(x / 4096 == y / 4096) by {
            assert(hex4(x)[0] == hex4(y)[0]);
            lemma_hex_digits_differ(x / 4096, y / 4096);
        }
        assert(x / 256 % 16 == y / 256 % 16) by {
            assert(hex4(x)[1] == hex4(y)[1]);
            lemma_hex_digits_differ(x / 256 % 16, y / 256 % 16);
        }
        assert(x / 16 % 16 == y / 16 % 16) by {
            assert(hex4(x)[2] == hex4(y)[2]);
            lemma_hex_digits_differ(x / 16 % 16, y / 16 % 16);
        }
        assert(x % 16 == y % 16) by {
            assert(hex4(x)[3] == hex4(y)[3]);
            lemma_hex_digits_differ(x % 16, y % 16);
        }
    }
}

} // verus!
