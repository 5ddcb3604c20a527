use vstd::prelude::*;

verus! {

/// How far behind the start of a tag header its restrictions byte stands,
/// given the flags byte of the extended header: behind the ten bytes of the
/// header, the four of the extended header's size, the flag count, the flags,
/// the update field (one byte) where flag `0x40` is set, the checksum field
/// (six bytes) where flag `0x20` is set, and the length of the restrictions
/// field.
pub open spec fn restrictions_offset(flags: u8) -> int {
    17 + (if flags & 0x40 != 0 {
        1int
    } else {
        0int
    }) + (if flags & 0x20 != 0 {
        6int
    } else {
        0int
    })
}

/// Whether the bytes from `at` on read as the header of a version 2.4 `ID3`
/// tag with an extended header whose restrictions byte has bit `0x40` set:
/// the marker, the version, the flag of the extended header, its flag count
/// of one, its restrictions flag, and the bit in the restrictions byte.
pub open spec fn restricted_tag_at(bytes: Seq<u8>, at: int) -> bool {
    &&& 0 <= at
    &&& at + 16 <= bytes.len()
    &&& bytes[at] == 0x49
    &&& bytes[at + 1] == 0x44
    &&& bytes[at + 2] == 0x33
    &&& bytes[at + 3] == 4
    &&& bytes[at + 5] & 0x40 != 0
    &&& bytes[at + 14] == 1
    &&& bytes[at + 15] & 0x10 != 0
    &&& at + restrictions_offset(bytes[at + 15]) < bytes.len()
    &&& bytes[at + restrictions_offset(bytes[at + 15])] & 0x40 != 0
}

/// Whether such a tag header starts at `at`.
///
/// The tag reader that the probe uses cannot take such a header. Where the
/// probe would hand it one, the stream is turned away instead.
pub fn is_restricted_tag_at(bytes: &Vec<u8>, at: usize) -> (found: bool)
    ensures
        found == restricted_tag_at(bytes@, at as int),
{
    let len: usize = bytes.len();
    if len < 16 || at > len - 16 {
        return false;
    }
    if bytes[at] != 0x49 || bytes[at + 1] != 0x44 || bytes[at + 2] != 0x33 || bytes[at + 3] != 4 {
        return false;
    }
    if bytes[at + 5] & 0x40 == 0 || bytes[at + 14] != 1 {
        return false;
    }
    let flags: u8 = bytes[at + 15];
    if flags & 0x10 == 0 {
        return false;
    }
    let mut offset: usize = 17;
    if flags & 0x40 != 0 {
        offset += 1;
    }
    if flags & 0x20 != 0 {
        offset += 6;
    }
    if offset >= len - at {
        return false;
    }
    bytes[at + offset] & 0x40 != 0
}

} // verus!
