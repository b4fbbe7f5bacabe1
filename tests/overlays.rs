use omdu_hook::address::{resolve, Addresses};
use omdu_hook::layout::{field_offsets, FieldKind};
use omdu_hook::overlay::{
    check_layout, declared_fields, overlay_fields, world_info_padding, Overlay, OverlayField,
    TArray,
};
use omdu_hook::variant::BuildVariant;

const VARIANTS: [BuildVariant; 2] = [
    BuildVariant::Manifest4932913164832566208,
    BuildVariant::Manifest808827202674972462,
];

#[test]
fn every_declared_offset_matches_recorded_offset() {
    for v in VARIANTS {
        for f in declared_fields() {
            assert_eq!(f.declared_offset(v), f.expected_offset(v), "{f:?} in {v:?}");
        }
        assert_eq!(check_layout(v), Ok(()));
    }
}

#[test]
fn world_info_offsets_differ_by_build() {
    let a = BuildVariant::Manifest4932913164832566208;
    let b = BuildVariant::Manifest808827202674972462;
    assert_eq!(OverlayField::WorldInfoNetMode.declared_offset(a), 0x638);
    assert_eq!(OverlayField::WorldInfoNextSwitchCountdown.declared_offset(a), 0x6f8);
    assert_eq!(OverlayField::WorldInfoNetMode.declared_offset(b), 0x620);
    assert_eq!(OverlayField::WorldInfoNextSwitchCountdown.declared_offset(b), 0x6e0);
    assert_eq!(world_info_padding(a), 0x638);
    assert_eq!(world_info_padding(b), 0x620);
}

#[test]
fn fixed_offsets() {
    let v = BuildVariant::Manifest4932913164832566208;
    assert_eq!(OverlayField::WorldNetworkNotify.declared_offset(v), 0x60);
    assert_eq!(OverlayField::WorldNetDriver.declared_offset(v), 0x120);
    assert_eq!(OverlayField::EngineClient.declared_offset(v), 0x6e0);
    assert_eq!(OverlayField::EngineSpawnServerActors.declared_offset(v), 0x310);
    assert_eq!(OverlayField::EngineConstructNetDriver.declared_offset(v), 0x318);
    assert_eq!(OverlayField::NetDriverInitListen.declared_offset(v), 0x298);
    assert_eq!(OverlayField::NetDriverNetObjectNotify.declared_offset(v), 0x68);
    assert_eq!(OverlayField::NetDriverMasterMap.declared_offset(v), 0x90);
    assert_eq!(OverlayField::NetDriverServerTravelPause.declared_offset(v), 0xb8);
    assert_eq!(OverlayField::PackageMapAddNetPackages.declared_offset(v), 0x290);
}

#[test]
fn c_layout_aligns_after_a_byte() {
    // a byte, then a float: the float moves to the next multiple of four
    let fields = vec![FieldKind::Byte, FieldKind::Float32, FieldKind::Byte, FieldKind::Pointer];
    assert_eq!(field_offsets(&fields), Some(vec![0, 4, 8, 16]));
    let empty: Vec<FieldKind> = Vec::new();
    assert_eq!(field_offsets(&empty), Some(vec![]));
    let padded = vec![FieldKind::Padding(3), FieldKind::Pointer];
    assert_eq!(field_offsets(&padded), Some(vec![0, 8]));
}

#[test]
fn overlay_fields_of_the_driver() {
    let v = BuildVariant::Manifest808827202674972462;
    let d = overlay_fields(v, Overlay::NetDriver);
    assert_eq!(d.len(), 7);
    assert_eq!(field_offsets(&d).unwrap()[6], 0xb8);
    assert_eq!(OverlayField::NetDriverMasterMap.overlay(), Overlay::NetDriver);
    assert_eq!(OverlayField::NetDriverMasterMap.index(), 4);
}

#[test]
fn empty_foreign_array() {
    let a = TArray::new();
    assert_eq!(a, TArray { data: 0, num: 0, max: 0 });
}

#[test]
fn address_tables() {
    let a = Addresses::for_variant(BuildVariant::Manifest4932913164832566208);
    assert_eq!(a.is_player_guid_valid, 0xf216c0);
    assert_eq!(a.u_world_listen, 0x7f6540);
    assert_eq!(a.g_engine, 0x26761e0);
    assert_eq!(a.g_use_seek_free_package_map, 0x2539738);
    assert_eq!(a.add_item, 0x677860);
    assert_eq!(a.u_package_net_object_notifies, 0x2559850);
    assert_eq!(a.u_world_get_world_info, 0x7f8cf0);
    let b = Addresses::for_variant(BuildVariant::Manifest808827202674972462);
    assert_eq!(b.is_player_guid_valid, 0xdd21d0);
    assert_eq!(b.u_world_listen, 0x7f8340);
    assert_eq!(b.g_engine, 0x238a200);
    assert_eq!(b.g_use_seek_free_package_map, 0x224e580);
    assert_eq!(b.add_item, 0xd14290);
    assert_eq!(b.u_package_net_object_notifies, 0x226d800);
    assert_eq!(b.u_world_get_world_info, 0x7fab90);
}

#[test]
fn addresses_move_by_the_base() {
    let t = Addresses::for_variant(BuildVariant::Manifest808827202674972462);
    let r = t.resolve(0x1_4000_0000).unwrap();
    assert_eq!(r.u_world_listen, 0x1_4000_0000 + 0x7f8340);
    assert_eq!(r.g_engine, 0x1_4000_0000 + 0x238a200);
    assert_eq!(t.resolve(usize::MAX - 0x100), None);
    assert_eq!(resolve(0x1000, 0x10), Some(0x1010));
    assert_eq!(resolve(0, 0), None);
    assert_eq!(resolve(usize::MAX, 1), None);
}
