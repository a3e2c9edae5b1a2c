//! Account storage lessons: records that are created with fixed values and
//! then overwritten field by field, a flag, a key and value pair, and a key
//! with a fixed-size text slot filled from a string.

use vstd::prelude::*;
use vstd::string::StringSliceAdditionalSpecFns;

verus! {

/// Three numbers kept in one account.
#[derive(Debug, Clone, Copy, PartialEq, Eq, Structural)]
pub struct MyStorage {
    pub x: u64,
    pub y: u64,
    pub z: u64,
}

/// The record a new storage account starts with.
pub fn init_storage() -> (r: MyStorage)
    ensures
        r == (MyStorage { x: 0xaa, y: 0xbb, z: 0xcc }),
{
    MyStorage { x: 0xaa, y: 0xbb, z: 0xcc }
}

/// Stores the square of `value` in `x`. A square above `u64::MAX` overflows
/// and does not return, so it is left out.
pub fn set(s: &mut MyStorage, value: u64)
    requires
        value * value <= u64::MAX,
    ensures
        *final(s) == (MyStorage { x: (value * value) as u64, ..*old(s) }),
{
    s.x = value * value;
}

/// Stores `value` in `x` unchanged.
pub fn update(s: &mut MyStorage, value: u64)
    ensures
        *final(s) == (MyStorage { x: value, ..*old(s) }),
{
    s.x = value;
}

/// One stored flag.
#[derive(Debug, Clone, Copy, PartialEq, Eq, Structural)]
pub struct TrueOrFalse {
    pub flag: bool,
}

/// Sets the flag, whatever it held.
pub fn set_flag(t: &mut TrueOrFalse, value: bool)
    ensures
        final(t).flag == value,
{
    t.flag = value;
}

/// A number stored under a number key.
#[derive(Debug, Clone, Copy, PartialEq, Eq, Structural)]
pub struct Val {
    pub key: u64,
    pub value: u64,
}

/// Stores the pair, whatever the account held.
pub fn set_map_data(v: &mut Val, key: u64, value: u64)
    ensures
        *final(v) == (Val { key, value }),
{
    v.key = key;
    v.value = value;
}

/// A text slot of 32 bytes stored under a number key.
#[derive(Debug, Clone, Copy)]
pub struct Info {
    pub key: u64,
    pub value: [u8; 32],
}

/// What `copy_from_slice` leaves in `dst`: the first bytes, as many as both
/// hold, taken from `src`, the others unchanged.
pub open spec fn copied(src: Seq<u8>, dst: Seq<u8>) -> Seq<u8> {
    Seq::new(dst.len(), |i: int| if i < src.len() { src[i] } else { dst[i] })
}

/// Copies the bytes of `src` into the front of `dst`, as many as fit and no
/// more than `src` holds.
pub fn copy_from_slice(src: &[u8], dst: &mut [u8; 32])
    ensures
        final(dst)@ == copied(src@, old(dst)@),
{
    let max: usize = if src.len() < 32 { src.len() } else { 32 };
    let mut i: usize = 0;
    while i < max
        invariant
            max <= 32,
            max <= src@.len(),
            max == src@.len() || max == 32,
            i <= max,
            dst@.len() == 32,
            forall|j: int| 0 <= j < i ==> dst@[j] == src@[j],
            forall|j: int| i <= j < 32 ==> dst@[j] == old(dst)@[j],
        decreases max - i,
    {
        dst[i] = src[i];
        i = i + 1;
    }
    assert(dst@ =~= copied(src@, old(dst)@));
}

/// Stores `key` and the UTF-8 bytes of `value` in the text slot (see
/// `copy_from_slice`: a shorter text leaves the tail of the old one).
pub fn set_map_info(info: &mut Info, key: u64, value: &str)
    ensures
        final(info).key == key,
        final(info).value@ == copied(value.spec_bytes(), old(info).value@),
{
    info.key = key;
    copy_from_slice(value.as_bytes(), &mut info.value);
}

} // verus!
