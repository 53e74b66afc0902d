//! Dynamic offset configuration: the byte offsets and the key constant
//! that the field-decryption collaborators work from. Held by the caller
//! and passed explicitly; updating replaces every field at once.

use vstd::prelude::*;

verus! {

/// Default offset of the first shuffle mask from the image base.
pub const DEFAULT_SHUFFLE_OFFSET_1: u64 = 0xA94B00;
/// Default offset of the second shuffle mask from the image base.
pub const DEFAULT_SHUFFLE_OFFSET_2: u64 = 0xAF231F0;
/// Default key constant of the instance decryption.
pub const DEFAULT_KEY_CONST: u64 = 0x1554577E835E9F4;
/// Default offset of the bone array within a mesh.
pub const DEFAULT_BONE_ARRAY_OFFSET: u64 = 0x7B0;
/// Default offset of the bone index within a mesh.
pub const DEFAULT_BONE_INDEX_OFFSET: u64 = 0x7FC;
/// Default offset of the encrypted instance field within the world object.
pub const DEFAULT_UWORLD_ENCRYPT_OFFSET: u64 = 0x2A0;

/// The offsets and key the decryption collaborators are configured with.
#[derive(Clone, Copy, Debug)]
pub struct OffsetConfig {
    pub shuffle_offset_1: u64,
    pub shuffle_offset_2: u64,
    pub key_const: u64,
    pub bone_array_offset: u64,
    pub bone_index_offset: u64,
    pub uworld_encrypt_offset: u64,
}

impl OffsetConfig {
    /// The configuration the service starts with.
    pub fn new() -> (r: OffsetConfig)
        ensures
            r.shuffle_offset_1 == DEFAULT_SHUFFLE_OFFSET_1,
            r.shuffle_offset_2 == DEFAULT_SHUFFLE_OFFSET_2,
            r.key_const == DEFAULT_KEY_CONST,
            r.bone_array_offset == DEFAULT_BONE_ARRAY_OFFSET,
            r.bone_index_offset == DEFAULT_BONE_INDEX_OFFSET,
            r.uworld_encrypt_offset == DEFAULT_UWORLD_ENCRYPT_OFFSET,
    {
        OffsetConfig {
            shuffle_offset_1: DEFAULT_SHUFFLE_OFFSET_1,
            shuffle_offset_2: DEFAULT_SHUFFLE_OFFSET_2,
            key_const: DEFAULT_KEY_CONST,
            bone_array_offset: DEFAULT_BONE_ARRAY_OFFSET,
            bone_index_offset: DEFAULT_BONE_INDEX_OFFSET,
            uworld_encrypt_offset: DEFAULT_UWORLD_ENCRYPT_OFFSET,
        }
    }
}

/// Replace every configured offset and the key at once.
pub fn core_update_offsets(
    cfg: &mut OffsetConfig,
    shuffle_1: u64,
    shuffle_2: u64,
    key: u64,
    bone_array: u64,
    bone_index: u64,
    uworld_encrypt: u64,
)
    ensures
        final(cfg).shuffle_offset_1 == shuffle_1,
        final(cfg).shuffle_offset_2 == shuffle_2,
        final(cfg).key_const == key,
        final(cfg).bone_array_offset == bone_array,
        final(cfg).bone_index_offset == bone_index,
        final(cfg).uworld_encrypt_offset == uworld_encrypt,
{
    cfg.shuffle_offset_1 = shuffle_1;
    cfg.shuffle_offset_2 = shuffle_2;
    cfg.key_const = key;
    cfg.bone_array_offset = bone_array;
    cfg.bone_index_offset = bone_index;
    cfg.uworld_encrypt_offset = uworld_encrypt;
}

} // verus!
