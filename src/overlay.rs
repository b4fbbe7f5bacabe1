use vstd::prelude::*;

use crate::layout::{end_after, field_offsets, offset_of, FieldKind};
use crate::variant::BuildVariant;

verus! {

/// The foreign objects and virtual tables that the hook reads or writes.
#[derive(Clone, Copy, Debug, PartialEq, Eq, Structural)]
pub enum Overlay {
    World,
    WorldInfo,
    Engine,
    EngineVTable,
    NetDriver,
    NetDriverVTable,
    PackageMapVTable,
}

/// Every field the hook touches, named by the overlay that holds it.
#[derive(Clone, Copy, Debug, PartialEq, Eq, Structural)]
pub enum OverlayField {
    WorldNetworkNotify,
    WorldNetDriver,
    WorldInfoNetMode,
    WorldInfoNextSwitchCountdown,
    EngineClient,
    EngineSpawnServerActors,
    EngineConstructNetDriver,
    NetDriverInitListen,
    NetDriverNetObjectNotify,
    NetDriverMasterMap,
    NetDriverServerTravelPause,
    PackageMapAddNetPackages,
}

/// The declared fields of each overlay, padding included, in order.
pub open spec fn overlay_layout(v: BuildVariant, o: Overlay) -> Seq<FieldKind> {
    match o {
        Overlay::World => seq![
            FieldKind::Padding(0x60),
            FieldKind::Pointer,
            FieldKind::Padding(0xb8),
            FieldKind::Pointer,
        ],
        Overlay::WorldInfo => seq![
            FieldKind::Padding(world_info_leading_padding(v)),
            FieldKind::Byte,
            FieldKind::Padding(0xbc),
            FieldKind::Float32,
        ],
        Overlay::Engine => seq![FieldKind::Pointer, FieldKind::Padding(0x6d8), FieldKind::Pointer],
        Overlay::EngineVTable => seq![
            FieldKind::Padding(0x310),
            FieldKind::Pointer,
            FieldKind::Pointer,
        ],
        Overlay::NetDriver => seq![
            FieldKind::Pointer,
            FieldKind::Padding(0x60),
            FieldKind::Pointer,
            FieldKind::Padding(0x20),
            FieldKind::Pointer,
            FieldKind::Padding(0x20),
            FieldKind::Float32,
        ],
        Overlay::NetDriverVTable => seq![FieldKind::Padding(0x298), FieldKind::Pointer],
        Overlay::PackageMapVTable => seq![FieldKind::Padding(0x290), FieldKind::Pointer],
    }
}

/// The one layout difference between the builds: what precedes the net mode.
pub open spec fn world_info_leading_padding(v: BuildVariant) -> u32 {
    match v {
        BuildVariant::Manifest4932913164832566208 => 0x638,
        BuildVariant::Manifest808827202674972462 => 0x620,
    }
}

/// The overlay that declares a field.
pub open spec fn overlay_of(f: OverlayField) -> Overlay {
    match f {
        OverlayField::WorldNetworkNotify | OverlayField::WorldNetDriver => Overlay::World,
        OverlayField::WorldInfoNetMode
        | OverlayField::WorldInfoNextSwitchCountdown => Overlay::WorldInfo,
        OverlayField::EngineClient => Overlay::Engine,
        OverlayField::EngineSpawnServerActors
        | OverlayField::EngineConstructNetDriver => Overlay::EngineVTable,
        OverlayField::NetDriverInitListen => Overlay::NetDriverVTable,
        OverlayField::NetDriverNetObjectNotify
        | OverlayField::NetDriverMasterMap
        | OverlayField::NetDriverServerTravelPause => Overlay::NetDriver,
        OverlayField::PackageMapAddNetPackages => Overlay::PackageMapVTable,
    }
}

/// The position of a field among its overlay's declared fields.
pub open spec fn index_of(f: OverlayField) -> nat {
    match f {
        OverlayField::WorldNetworkNotify => 1,
        OverlayField::WorldNetDriver => 3,
        OverlayField::WorldInfoNetMode => 1,
        OverlayField::WorldInfoNextSwitchCountdown => 3,
        OverlayField::EngineClient => 2,
        OverlayField::EngineSpawnServerActors => 1,
        OverlayField::EngineConstructNetDriver => 2,
        OverlayField::NetDriverInitListen => 1,
        OverlayField::NetDriverNetObjectNotify => 2,
        OverlayField::NetDriverMasterMap => 4,
        OverlayField::NetDriverServerTravelPause => 6,
        OverlayField::PackageMapAddNetPackages => 1,
    }
}

/// The offsets recorded from the foreign binaries, apart from the declarations.
pub open spec fn expected_offset(v: BuildVariant, f: OverlayField) -> u64 {
    match f {
        OverlayField::WorldNetworkNotify => 0x60,
        OverlayField::WorldNetDriver => 0x120,
        OverlayField::WorldInfoNetMode => match v {
            BuildVariant::Manifest4932913164832566208 => 0x638,
            BuildVariant::Manifest808827202674972462 => 0x620,
        },
        OverlayField::WorldInfoNextSwitchCountdown => match v {
            BuildVariant::Manifest4932913164832566208 => 0x6f8,
            BuildVariant::Manifest808827202674972462 => 0x6e0,
        },
        OverlayField::EngineClient => 0x6e0,
        OverlayField::EngineSpawnServerActors => 0x310,
        OverlayField::EngineConstructNetDriver => 0x318,
        OverlayField::NetDriverInitListen => 0x298,
        OverlayField::NetDriverNetObjectNotify => 0x68,
        OverlayField::NetDriverMasterMap => 0x90,
        OverlayField::NetDriverServerTravelPause => 0xb8,
        OverlayField::PackageMapAddNetPackages => 0x290,
    }
}

/// The offset that the declarations give a field.
pub open spec fn declared_offset(v: BuildVariant, f: OverlayField) -> int {
    offset_of(overlay_layout(v, overlay_of(f)), index_of(f))
}

/// Where every overlay of a build ends.
pub open spec fn overlay_extent(v: BuildVariant, o: Overlay) -> int {
    let fields = overlay_layout(v, o);
    end_after(fields, fields.len())
}

pub open spec fn all_fields() -> Seq<OverlayField> {
    seq![
        OverlayField::WorldNetworkNotify,
        OverlayField::WorldNetDriver,
        OverlayField::WorldInfoNetMode,
        OverlayField::WorldInfoNextSwitchCountdown,
        OverlayField::EngineClient,
        OverlayField::EngineSpawnServerActors,
        OverlayField::EngineConstructNetDriver,
        OverlayField::NetDriverInitListen,
        OverlayField::NetDriverNetObjectNotify,
        OverlayField::NetDriverMasterMap,
        OverlayField::NetDriverServerTravelPause,
        OverlayField::PackageMapAddNetPackages,
    ]
}

/// For every build and every declared field, the offset that the C layout of
/// the declarations gives equals the offset recorded for that build.
#[verifier::rlimit(50)]
pub proof fn lemma_declared_offsets_match(v: BuildVariant, f: OverlayField)
    ensures
        declared_offset(v, f) == expected_offset(v, f),
        index_of(f) < overlay_layout(v, overlay_of(f)).len(),
        overlay_extent(v, overlay_of(f)) <= u64::MAX,
{
    reveal_with_fuel(end_after, 9);
    reveal_with_fuel(offset_of, 9);
    match f {
        OverlayField::WorldNetworkNotify | OverlayField::WorldNetDriver => {},
        OverlayField::WorldInfoNetMode | OverlayField::WorldInfoNextSwitchCountdown => {
            match v {
                BuildVariant::Manifest4932913164832566208 => {},
                BuildVariant::Manifest808827202674972462 => {},
            }
        },
        OverlayField::EngineClient => {},
        OverlayField::EngineSpawnServerActors | OverlayField::EngineConstructNetDriver => {},
        OverlayField::NetDriverInitListen => {},
        OverlayField::NetDriverNetObjectNotify => {},
        OverlayField::NetDriverMasterMap => {},
        OverlayField::NetDriverServerTravelPause => {},
        OverlayField::PackageMapAddNetPackages => {},
    }
}

/// The padding that leads the world-info overlay in a build.
pub fn world_info_padding(v: BuildVariant) -> (r: u32)
    ensures
        r == world_info_leading_padding(v),
{
    match v {
        BuildVariant::Manifest4932913164832566208 => 0x638,
        BuildVariant::Manifest808827202674972462 => 0x620,
    }
}

/// The declared fields of an overlay in a build.
pub fn overlay_fields(v: BuildVariant, o: Overlay) -> (r: Vec<FieldKind>)
    ensures
        r@ == overlay_layout(v, o),
{
    let r = match o {
        Overlay::World => vec![
            FieldKind::Padding(0x60),
            FieldKind::Pointer,
            FieldKind::Padding(0xb8),
            FieldKind::Pointer,
        ],
        Overlay::WorldInfo => vec![
            FieldKind::Padding(world_info_padding(v)),
            FieldKind::Byte,
            FieldKind::Padding(0xbc),
            FieldKind::Float32,
        ],
        Overlay::Engine => vec![FieldKind::Pointer, FieldKind::Padding(0x6d8), FieldKind::Pointer],
        Overlay::EngineVTable => vec![
            FieldKind::Padding(0x310),
            FieldKind::Pointer,
            FieldKind::Pointer,
        ],
        Overlay::NetDriver => vec![
            FieldKind::Pointer,
            FieldKind::Padding(0x60),
            FieldKind::Pointer,
            FieldKind::Padding(0x20),
            FieldKind::Pointer,
            FieldKind::Padding(0x20),
            FieldKind::Float32,
        ],
        Overlay::NetDriverVTable => vec![FieldKind::Padding(0x298), FieldKind::Pointer],
        Overlay::PackageMapVTable => vec![FieldKind::Padding(0x290), FieldKind::Pointer],
    };
    assert(r@ =~= overlay_layout(v, o));
    r
}

impl OverlayField {
    /// The overlay that declares this field.
    pub fn overlay(self) -> (r: Overlay)
        ensures
            r == overlay_of(self),
    {
        match self {
            OverlayField::WorldNetworkNotify | OverlayField::WorldNetDriver => Overlay::World,
            OverlayField::WorldInfoNetMode
            | OverlayField::WorldInfoNextSwitchCountdown => Overlay::WorldInfo,
            OverlayField::EngineClient => Overlay::Engine,
            OverlayField::EngineSpawnServerActors
            | OverlayField::EngineConstructNetDriver => Overlay::EngineVTable,
            OverlayField::NetDriverInitListen => Overlay::NetDriverVTable,
            OverlayField::NetDriverNetObjectNotify
            | OverlayField::NetDriverMasterMap
            | OverlayField::NetDriverServerTravelPause => Overlay::NetDriver,
            OverlayField::PackageMapAddNetPackages => Overlay::PackageMapVTable,
        }
    }

    /// The position of this field among its overlay's declared fields.
    pub fn index(self) -> (r: usize)
        ensures
            r == index_of(self),
    {
        match self {
            OverlayField::WorldNetworkNotify => 1,
            OverlayField::WorldNetDriver => 3,
            OverlayField::WorldInfoNetMode => 1,
            OverlayField::WorldInfoNextSwitchCountdown => 3,
            OverlayField::EngineClient => 2,
            OverlayField::EngineSpawnServerActors => 1,
            OverlayField::EngineConstructNetDriver => 2,
            OverlayField::NetDriverInitListen => 1,
            OverlayField::NetDriverNetObjectNotify => 2,
            OverlayField::NetDriverMasterMap => 4,
            OverlayField::NetDriverServerTravelPause => 6,
            OverlayField::PackageMapAddNetPackages => 1,
        }
    }

    /// The offset recorded for this field in a build.
    pub fn expected_offset(self, v: BuildVariant) -> (r: u64)
        ensures
            r == expected_offset(v, self),
    {
        match self {
            OverlayField::WorldNetworkNotify => 0x60,
            OverlayField::WorldNetDriver => 0x120,
            OverlayField::WorldInfoNetMode => match v {
                BuildVariant::Manifest4932913164832566208 => 0x638,
                BuildVariant::Manifest808827202674972462 => 0x620,
            },
            OverlayField::WorldInfoNextSwitchCountdown => match v {
                BuildVariant::Manifest4932913164832566208 => 0x6f8,
                BuildVariant::Manifest808827202674972462 => 0x6e0,
            },
            OverlayField::EngineClient => 0x6e0,
            OverlayField::EngineSpawnServerActors => 0x310,
            OverlayField::EngineConstructNetDriver => 0x318,
            OverlayField::NetDriverInitListen => 0x298,
            OverlayField::NetDriverNetObjectNotify => 0x68,
            OverlayField::NetDriverMasterMap => 0x90,
            OverlayField::NetDriverServerTravelPause => 0xb8,
            OverlayField::PackageMapAddNetPackages => 0x290,
        }
    }

    /// The offset that the declarations of a build give this field, laid out
    /// with C rules.
    pub fn declared_offset(self, v: BuildVariant) -> (r: u64)
        ensures
            r == declared_offset(v, self),
    {
        proof {
            lemma_declared_offsets_match(v, self);
        }
        let fields = overlay_fields(v, self.overlay());
        let offs = field_offsets(&fields);
        match offs {
            Some(o) => o[self.index()],
            None => 0,
        }
    }
}

/// Every field the hook touches.
pub fn declared_fields() -> (r: Vec<OverlayField>)
    ensures
        r@ == all_fields(),
{
    let r = vec![
        OverlayField::WorldNetworkNotify,
        OverlayField::WorldNetDriver,
        OverlayField::WorldInfoNetMode,
        OverlayField::WorldInfoNextSwitchCountdown,
        OverlayField::EngineClient,
        OverlayField::EngineSpawnServerActors,
        OverlayField::EngineConstructNetDriver,
        OverlayField::NetDriverInitListen,
        OverlayField::NetDriverNetObjectNotify,
        OverlayField::NetDriverMasterMap,
        OverlayField::NetDriverServerTravelPause,
        OverlayField::PackageMapAddNetPackages,
    ];
    assert(r@ =~= all_fields());
    r
}

/// A field whose declared offset differs from the recorded one.
#[derive(Clone, Copy, Debug, PartialEq, Eq, Structural)]
pub struct LayoutMismatch {
    pub field: OverlayField,
    pub declared: u64,
    pub expected: u64,
}

/// The layout self-check: compares every declared offset of a build with the
/// recorded one, and reports the first field that differs.
pub fn check_layout(v: BuildVariant) -> (r: Result<(), LayoutMismatch>)
    ensures
        r is Ok <==> forall|i: int|
            0 <= i < all_fields().len() ==> declared_offset(v, #[trigger] all_fields()[i])
                == expected_offset(v, all_fields()[i]),
        r matches Err(m) ==> m.declared == declared_offset(v, m.field) && m.expected
            == expected_offset(v, m.field) && m.declared != m.expected,
        r is Ok,
{
    let fields = declared_fields();
    let mut i: usize = 0;
    while i < fields.len()
        invariant
            fields@ == all_fields(),
            i <= fields@.len(),
            forall|j: int|
                0 <= j < i ==> declared_offset(v, #[trigger] all_fields()[j]) == expected_offset(
                    v,
                    all_fields()[j],
                ),
        decreases fields@.len() - i,
    {
        let f = fields[i];
        let declared = f.declared_offset(v);
        let expected = f.expected_offset(v);
        if declared != expected {
            proof {
                lemma_declared_offsets_match(v, f);
            }
            return Err(LayoutMismatch { field: f, declared, expected });
        }
        i = i + 1;
    }
    Ok(())
}

/// The host's growable array header: where the items are, how many there
/// are, and how many fit. The storage is the host's; the hook never
/// allocates or frees it, and grows it only through the host's own append.
#[derive(Clone, Copy, Debug, PartialEq, Eq, Structural)]
pub struct TArray {
    pub data: usize,
    pub num: i32,
    pub max: i32,
}

impl TArray {
    /// An empty array with no storage, as the host's own empty string.
    pub fn new() -> (r: TArray)
        ensures
            r == (TArray { data: 0, num: 0, max: 0 }),
    {
        TArray { data: 0, num: 0, max: 0 }
    }
}

} // verus!
