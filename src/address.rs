use vstd::prelude::*;

use crate::variant::BuildVariant;

verus! {

/// Offsets from the host module's base of the entry points and globals the
/// hook needs, or, once resolved, their absolute addresses.
#[derive(Clone, Copy, Debug, PartialEq, Eq, Structural)]
pub struct Addresses {
    pub is_player_guid_valid: usize,
    pub u_world_listen: usize,
    pub g_engine: usize,
    pub g_use_seek_free_package_map: usize,
    pub add_item: usize,
    pub u_package_net_object_notifies: usize,
    pub u_world_get_world_info: usize,
}

/// The offset table of each known build.
pub open spec fn address_table(v: BuildVariant) -> Addresses {
    match v {
        BuildVariant::Manifest4932913164832566208 => Addresses {
            is_player_guid_valid: 0xf216c0,
            u_world_listen: 0x7f6540,
            g_engine: 0x26761e0,
            g_use_seek_free_package_map: 0x2539738,
            add_item: 0x677860,
            u_package_net_object_notifies: 0x2559850,
            u_world_get_world_info: 0x7f8cf0,
        },
        BuildVariant::Manifest808827202674972462 => Addresses {
            is_player_guid_valid: 0xdd21d0,
            u_world_listen: 0x7f8340,
            g_engine: 0x238a200,
            g_use_seek_free_package_map: 0x224e580,
            add_item: 0xd14290,
            u_package_net_object_notifies: 0x226d800,
            u_world_get_world_info: 0x7fab90,
        },
    }
}

/// `base + offset`, where it is a non-null address.
pub open spec fn resolved(base: usize, offset: usize) -> Option<usize> {
    if base + offset <= usize::MAX && base + offset != 0 {
        Some((base + offset) as usize)
    } else {
        None
    }
}

/// Every entry of the table moved by `base`, where each is a non-null address.
pub open spec fn resolved_table(t: Addresses, base: usize) -> Option<Addresses> {
    if resolved(base, t.is_player_guid_valid) is Some && resolved(base, t.u_world_listen) is Some
        && resolved(base, t.g_engine) is Some && resolved(base, t.g_use_seek_free_package_map) is Some
        && resolved(base, t.add_item) is Some && resolved(
        base,
        t.u_package_net_object_notifies,
    ) is Some && resolved(base, t.u_world_get_world_info) is Some {
        Some(
            Addresses {
                is_player_guid_valid: (base + t.is_player_guid_valid) as usize,
                u_world_listen: (base + t.u_world_listen) as usize,
                g_engine: (base + t.g_engine) as usize,
                g_use_seek_free_package_map: (base + t.g_use_seek_free_package_map) as usize,
                add_item: (base + t.add_item) as usize,
                u_package_net_object_notifies: (base + t.u_package_net_object_notifies) as usize,
                u_world_get_world_info: (base + t.u_world_get_world_info) as usize,
            },
        )
    } else {
        None
    }
}

/// The absolute address at `offset` from `base`, or `None` where the sum
/// overflows or is null.
pub fn resolve(base: usize, offset: usize) -> (r: Option<usize>)
    ensures
        r == resolved(base, offset),
{
    match base.checked_add(offset) {
        Some(a) => if a != 0 {
            Some(a)
        } else {
            None
        },
        None => None,
    }
}

impl Addresses {
    /// The offset table of a build.
    pub fn for_variant(v: BuildVariant) -> (r: Addresses)
        ensures
            r == address_table(v),
    {
        match v {
            BuildVariant::Manifest4932913164832566208 => Addresses {
                is_player_guid_valid: 0xf216c0,
                u_world_listen: 0x7f6540,
                g_engine: 0x26761e0,
                g_use_seek_free_package_map: 0x2539738,
                add_item: 0x677860,
                u_package_net_object_notifies: 0x2559850,
                u_world_get_world_info: 0x7f8cf0,
            },
            BuildVariant::Manifest808827202674972462 => Addresses {
                is_player_guid_valid: 0xdd21d0,
                u_world_listen: 0x7f8340,
                g_engine: 0x238a200,
                g_use_seek_free_package_map: 0x224e580,
                add_item: 0xd14290,
                u_package_net_object_notifies: 0x226d800,
                u_world_get_world_info: 0x7fab90,
            },
        }
    }

    /// This table of offsets moved to a module loaded at `base`.
    pub fn resolve(&self, base: usize) -> (r: Option<Addresses>)
        ensures
            r == resolved_table(*self, base),
    {
        let is_player_guid_valid = match resolve(base, self.is_player_guid_valid) {
            Some(a) => a,
            None => return None,
        };
        let u_world_listen = match resolve(base, self.u_world_listen) {
            Some(a) => a,
            None => return None,
        };
        let g_engine = match resolve(base, self.g_engine) {
            Some(a) => a,
            None => return None,
        };
        let g_use_seek_free_package_map = match resolve(base, self.g_use_seek_free_package_map) {
            Some(a) => a,
            None => return None,
        };
        let add_item = match resolve(base, self.add_item) {
            Some(a) => a,
            None => return None,
        };
        let u_package_net_object_notifies = match resolve(
            base,
            self.u_package_net_object_notifies,
        ) {
            Some(a) => a,
            None => return None,
        };
        let u_world_get_world_info = match resolve(base, self.u_world_get_world_info) {
            Some(a) => a,
            None => return None,
        };
        Some(
            Addresses {
                is_player_guid_valid,
                u_world_listen,
                g_engine,
                g_use_seek_free_package_map,
                add_item,
                u_package_net_object_notifies,
                u_world_get_world_info,
            },
        )
    }
}

} // verus!
