//! Bounds of the reads that font parsing makes: which byte strings hold, at
//! every offset the parser follows, the bytes it reads there.
use vstd::prelude::*;

verus! {

/// Largest byte count that offsets of 32 bits can address.
pub const OFFSET_LIMIT: u64 = 0x1_0000_0000;

/// Signature of a TrueType collection, "ttcf".
pub const TAG_COLLECTION: u64 = 0x7474_6366;

/// Table tag "cmap".
pub const TAG_CMAP: u64 = 0x636D_6170;

/// Table tag "head".
pub const TAG_HEAD: u64 = 0x6865_6164;

/// Table tag "maxp".
pub const TAG_MAXP: u64 = 0x6D61_7870;

/// The big-endian 16-bit integer at `i`.
pub open spec fn be16(b: Seq<u8>, i: int) -> int {
    b[i] as int * 256 + b[i + 1] as int
}

/// The big-endian 32-bit integer at `i`.
pub open spec fn be32(b: Seq<u8>, i: int) -> int {
    be16(b, i) * 65536 + be16(b, i + 2)
}

/// Whether the data opens with one of the single-font signatures:
/// "1\0\0\0", "typ1", "OTTO" or 0x00010000.
pub open spec fn has_font_signature(b: Seq<u8>) -> bool {
    let v = be32(b, 0);
    v == 0x3100_0000 || v == 0x7479_7031 || v == 0x4F54_544F || v == 0x0001_0000
}

/// The number of tables in the directory of the font that starts at `fs`.
pub open spec fn table_count(b: Seq<u8>, fs: int) -> int {
    be16(b, fs + 4)
}

/// The directory of the font at `fs` lies wholly inside the data.
pub open spec fn directory_in_bounds(b: Seq<u8>, fs: int) -> bool {
    &&& fs + 6 <= b.len()
    &&& fs + 12 + 16 * table_count(b, fs) <= b.len()
}

/// The offset of the first directory entry from `i` on whose tag is `tag`,
/// or zero where there is none.
pub open spec fn table_from(b: Seq<u8>, fs: int, tag: int, i: int, n: int) -> int
    decreases n - i,
{
    if i >= n {
        0
    } else if be32(b, fs + 12 + 16 * i) == tag {
        be32(b, fs + 12 + 16 * i + 8)
    } else {
        table_from(b, fs, tag, i + 1, n)
    }
}

/// The offset of the table tagged `tag` of the font at `fs`, or zero.
pub open spec fn table_offset(b: Seq<u8>, fs: int, tag: int) -> int {
    table_from(b, fs, tag, 0, table_count(b, fs))
}

/// The character-map header at `c` and all its encoding records lie inside
/// the data, and each record's subtable offset added to `c` stays below the
/// 32-bit offset limit.
pub open spec fn cmap_in_bounds(b: Seq<u8>, c: int) -> bool {
    c == 0 || {
        &&& c + 4 <= b.len()
        &&& c + 4 + 8 * be16(b, c + 2) <= b.len()
        &&& forall|k: int|
            0 <= k < be16(b, c + 2) ==> c + #[trigger] be32(b, c + 8 + 8 * k) < OFFSET_LIMIT
    }
}

/// Every read of the font at `fs` lies inside the data: its directory, the
/// glyph count in "maxp", the character map and the index format in "head".
pub open spec fn font_in_bounds(b: Seq<u8>, fs: int) -> bool {
    &&& directory_in_bounds(b, fs)
    &&& cmap_in_bounds(b, table_offset(b, fs, TAG_CMAP as int))
    &&& (table_offset(b, fs, TAG_MAXP as int) == 0 || table_offset(b, fs, TAG_MAXP as int) + 6
        <= b.len())
    &&& (table_offset(b, fs, TAG_HEAD as int) == 0 || table_offset(b, fs, TAG_HEAD as int) + 52
        <= b.len())
}

/// The collection header lies inside the data and, for a collection of
/// exactly one font in a known version, so does every read of that font.
pub open spec fn collection_in_bounds(b: Seq<u8>) -> bool {
    &&& b.len() >= 20
    &&& ((be32(b, 4) != 0x0001_0000 && be32(b, 4) != 0x0002_0000) || be32(b, 8) != 1
        || font_in_bounds(b, be32(b, 12)))
}

/// Every read that parsing the data as a font makes lies inside it.
pub open spec fn font_data_in_bounds(b: Seq<u8>) -> bool {
    &&& 4 <= b.len() < OFFSET_LIMIT
    &&& if has_font_signature(b) {
        font_in_bounds(b, 0)
    } else if be32(b, 0) == TAG_COLLECTION {
        collection_in_bounds(b)
    } else {
        true
    }
}

fn read16(b: &[u8], i: u64) -> (r: u64)
    requires
        b@.len() < OFFSET_LIMIT,
        i + 2 <= b@.len(),
    ensures
        r == be16(b@, i as int),
{
    (b[i as usize] as u64) * 256 + (b[(i + 1) as usize] as u64)
}

fn read32(b: &[u8], i: u64) -> (r: u64)
    requires
        b@.len() < OFFSET_LIMIT,
        i + 4 <= b@.len(),
    ensures
        r == be32(b@, i as int),
        r < OFFSET_LIMIT,
{
    read16(b, i) * 65536 + read16(b, i + 2)
}

fn find_table(b: &[u8], fs: u64, tag: u64) -> (r: u64)
    requires
        b@.len() < OFFSET_LIMIT,
        fs < OFFSET_LIMIT,
        directory_in_bounds(b@, fs as int),
    ensures
        r == table_offset(b@, fs as int, tag as int),
        r < OFFSET_LIMIT,
{
    let n = read16(b, fs + 4);
    let mut i: u64 = 0;
    while i < n
        invariant
            b@.len() < OFFSET_LIMIT,
            fs < OFFSET_LIMIT,
            directory_in_bounds(b@, fs as int),
            n == table_count(b@, fs as int),
            i <= n,
            table_from(b@, fs as int, tag as int, i as int, n as int) == table_offset(
                b@,
                fs as int,
                tag as int,
            ),
        decreases n - i,
    {
        let loc = fs + 12 + 16 * i;
        if read32(b, loc) == tag {
            return read32(b, loc + 8);
        }
        i = i + 1;
    }
    0
}

fn check_cmap(b: &[u8], c: u64) -> (r: bool)
    requires
        b@.len() < OFFSET_LIMIT,
        c < OFFSET_LIMIT,
    ensures
        r == cmap_in_bounds(b@, c as int),
{
    if c == 0 {
        return true;
    }
    let len = b.len() as u64;
    if c + 4 > len {
        return false;
    }
    let n = read16(b, c + 2);
    if c + 4 + 8 * n > len {
        return false;
    }
    let mut k: u64 = 0;
    while k < n
        invariant
            b@.len() < OFFSET_LIMIT,
            len == b@.len(),
            c + 4 + 8 * n <= len,
            n == be16(b@, c + 2),
            k <= n,
            forall|j: int| 0 <= j < k ==> c + #[trigger] be32(b@, c + 8 + 8 * j) < OFFSET_LIMIT,
        decreases n - k,
    {
        if c + read32(b, c + 8 + 8 * k) >= OFFSET_LIMIT {
            return false;
        }
        k = k + 1;
    }
    true
}

fn check_font(b: &[u8], fs: u64) -> (r: bool)
    requires
        b@.len() < OFFSET_LIMIT,
        fs < OFFSET_LIMIT,
    ensures
        r == font_in_bounds(b@, fs as int),
{
    let len = b.len() as u64;
    if fs + 6 > len {
        return false;
    }
    if fs + 12 + 16 * read16(b, fs + 4) > len {
        return false;
    }
    let cmap = find_table(b, fs, TAG_CMAP);
    let maxp = find_table(b, fs, TAG_MAXP);
    let head = find_table(b, fs, TAG_HEAD);
    check_cmap(b, cmap) && (maxp == 0 || maxp + 6 <= len) && (head == 0 || head + 52 <= len)
}

/// Whether every read that parsing `bytes` as a font makes lies inside them.
pub fn font_data_checked(bytes: &[u8]) -> (r: bool)
    ensures
        r == font_data_in_bounds(bytes@),
{
    let len = bytes.len() as u64;
    if len < 4 || len >= OFFSET_LIMIT {
        return false;
    }
    let sig = read32(bytes, 0);
    if sig == 0x3100_0000 || sig == 0x7479_7031 || sig == 0x4F54_544F || sig == 0x0001_0000 {
        check_font(bytes, 0)
    } else if sig == TAG_COLLECTION {
        if len < 20 {
            return false;
        }
        let version = read32(bytes, 4);
        if (version != 0x0001_0000 && version != 0x0002_0000) || read32(bytes, 8) != 1 {
            true
        } else {
            check_font(bytes, read32(bytes, 12))
        }
    } else {
        true
    }
}

} // verus!
