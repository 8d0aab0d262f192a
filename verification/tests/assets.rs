use tephrite_rs::assets::{AssetRemap, AssetUpdate};

/// An index asset id as a key: generation in the high half of the index bits.
fn index_key(generation: u32, index: u32) -> u128 {
    (((generation as u64) << 32) | index as u64) as u128
}

#[test]
fn unknown_remote_id_gets_stable_local_placeholder() {
    let remote_id = index_key(9, 42);
    let mut remap = AssetRemap::new();

    let local1 = remap.remap_to_local_or_reserve(remote_id, 0x6a5e_0000_0000_4000_8000_0000_0000_0001);
    let local2 = remap.remap_to_local_or_reserve(remote_id, 0x6a5e_0000_0000_4000_8000_0000_0000_0002);

    assert_eq!(local1, local2);
    assert_ne!(local1, remote_id);
}

#[test]
fn placeholder_mapping_is_fulfilled_when_real_asset_arrives() {
    let remote_id = index_key(11, 77);
    let placeholder = 0x1234_5678_9abc_4def_8000_0000_0000_00ffu128;
    let mut remap = AssetRemap::new();

    let local = remap.remap_to_local_or_reserve(remote_id, placeholder);
    assert_eq!(local, placeholder);

    assert_eq!(remap.set_mapping(remote_id), AssetUpdate::Replace { local });
    assert_eq!(remap.remap_to_local(remote_id), Some(local));
}

#[test]
fn new_assets_are_added_then_cleared() {
    let mut remap = AssetRemap::new();
    assert_eq!(remap.set_mapping(5), AssetUpdate::AddNew);
    remap.record(5, 500);
    assert_eq!(remap.remap_to_local(5), Some(500));
    assert_eq!(remap.set_mapping(5), AssetUpdate::Replace { local: 500 });
    assert_eq!(remap.clear_mapping(5), Some(500));
    assert_eq!(remap.clear_mapping(5), None);
    assert_eq!(remap.remap_to_local(5), None);
}

/// A key standing for the default font's id.
const DEFAULT_FONT_KEY: u128 = 0xff59_2d7c_7b0a_4a0c_b4e8_3b0a_d10e_7c20;

#[test]
fn default_font_id_remaps_to_default_font_handle() {
    let mut remap = AssetRemap::new();
    let local = remap.remap_font_to_local_or_reserve(DEFAULT_FONT_KEY, DEFAULT_FONT_KEY, 77);
    assert_eq!(local, DEFAULT_FONT_KEY);
    assert_eq!(remap.remap_to_local(DEFAULT_FONT_KEY), None);
    let other = index_key(1, 5);
    assert_eq!(remap.remap_font_to_local_or_reserve(other, DEFAULT_FONT_KEY, 78), 78);
    assert_eq!(remap.remap_font_to_local_or_reserve(other, DEFAULT_FONT_KEY, 79), 78);
}
