use std::collections::HashMap;
use vstd::prelude::*;

verus! {

/// The USB vendor identifier of every supported controller.
pub const NZXT_VID: u16 = 0x1E71;

/// What a supported product is: its display name and its channel counts.
#[derive(Debug, Clone, Copy)]
pub struct CapabilityEntry {
    pub name: &'static str,
    pub rgb_channels: usize,
    pub fan_channels: usize,
}

/// The capability of a product identifier, if the product is supported.
pub open spec fn capability_of(product_id: u16) -> Option<CapabilityEntry> {
    let e = |name: &'static str, rgb: usize, fan: usize|
        Some(CapabilityEntry { name, rgb_channels: rgb, fan_channels: fan });
    match product_id {
        0x2009 => e("NZXT RGB & Fan Controller", 2, 3),
        0x2010 => e("NZXT RGB & Fan Controller", 2, 3),
        0x200E => e("NZXT RGB & Fan Controller", 2, 3),
        0x2011 => e("NZXT RGB & Fan Controller", 6, 3),
        0x2019 => e("NZXT RGB & Fan Controller", 6, 3),
        0x2020 => e("NZXT RGB & Fan Controller", 6, 3),
        0x201F => e("NZXT RGB & Fan Controller", 6, 3),
        0x2022 => e("NZXT RGB & Fan Controller 2024", 6, 3),
        0x201B => e("NZXT B650E Motherboard", 6, 3),
        0x2001 => e("NZXT Hue 2", 4, 0),
        0x2002 => e("NZXT Hue 2 Ambient", 2, 0),
        0x2005 => e("NZXT Hue 2 Motherboard", 2, 3),
        0x200B => e("NZXT Hue 2 Motherboard", 2, 3),
        0x2007 => e("NZXT Kraken X3 Series", 3, 0),
        0x2014 => e("NZXT Kraken X3 Series RGB", 3, 0),
        0x3012 => e("NZXT Kraken 2024 ELITE Series RGB", 2, 2),
        0x2012 => e("NZXT RGB Controller", 3, 0),
        0x2021 => e("NZXT RGB Controller", 3, 0),
        0x2006 => e("NZXT Smart Device V2", 2, 3),
        0x200D => e("NZXT Smart Device V2", 2, 3),
        0x200F => e("NZXT Smart Device V2", 2, 3),
        _ => None,
    }
}

fn entry(name: &'static str, rgb_channels: usize, fan_channels: usize) -> (r: Option<
    CapabilityEntry,
>)
    ensures
        r == Some(CapabilityEntry { name, rgb_channels, fan_channels }),
{
    Some(CapabilityEntry { name, rgb_channels, fan_channels })
}

/// Looks up the capability of a product; `None` for an unsupported product.
pub fn capability(product_id: u16) -> (r: Option<CapabilityEntry>)
    ensures
        r == capability_of(product_id),
{
    match product_id {
        0x2009 => entry("NZXT RGB & Fan Controller", 2, 3),
        0x2010 => entry("NZXT RGB & Fan Controller", 2, 3),
        0x200E => entry("NZXT RGB & Fan Controller", 2, 3),
        0x2011 => entry("NZXT RGB & Fan Controller", 6, 3),
        0x2019 => entry("NZXT RGB & Fan Controller", 6, 3),
        0x2020 => entry("NZXT RGB & Fan Controller", 6, 3),
        0x201F => entry("NZXT RGB & Fan Controller", 6, 3),
        0x2022 => entry("NZXT RGB & Fan Controller 2024", 6, 3),
        0x201B => entry("NZXT B650E Motherboard", 6, 3),
        0x2001 => entry("NZXT Hue 2", 4, 0),
        0x2002 => entry("NZXT Hue 2 Ambient", 2, 0),
        0x2005 => entry("NZXT Hue 2 Motherboard", 2, 3),
        0x200B => entry("NZXT Hue 2 Motherboard", 2, 3),
        0x2007 => entry("NZXT Kraken X3 Series", 3, 0),
        0x2014 => entry("NZXT Kraken X3 Series RGB", 3, 0),
        0x3012 => entry("NZXT Kraken 2024 ELITE Series RGB", 2, 2),
        0x2012 => entry("NZXT RGB Controller", 3, 0),
        0x2021 => entry("NZXT RGB Controller", 3, 0),
        0x2006 => entry("NZXT Smart Device V2", 2, 3),
        0x200D => entry("NZXT Smart Device V2", 2, 3),
        0x200F => entry("NZXT Smart Device V2", 2, 3),
        _ => None,
    }
}

/// What discovery does with an enumerated device: a device of another vendor,
/// or an unknown product, is skipped (`None`); a supported one gets its capability.
pub fn supported_capability(vendor_id: u16, product_id: u16) -> (r: Option<CapabilityEntry>)
    ensures
        r == if vendor_id == NZXT_VID {
            capability_of(product_id)
        } else {
            None
        },
{
    if vendor_id != NZXT_VID {
        None
    } else {
        capability(product_id)
    }
}

/// Every supported product, keyed by its product identifier.
pub fn known_controllers() -> (r: HashMap<u16, CapabilityEntry>)
    ensures
        forall|k: u16| #[trigger] r@.contains_key(k) <==> capability_of(k) is Some,
        forall|k: u16| r@.contains_key(k) ==> capability_of(k) == Some(#[trigger] r@[k]),
{
    broadcast use vstd::std_specs::hash::group_hash_axioms;

    let mut m: HashMap<u16, CapabilityEntry> = HashMap::new();
    m.insert(0x2009, CapabilityEntry { name: "NZXT RGB & Fan Controller", rgb_channels: 2, fan_channels: 3 });
    m.insert(0x2010, CapabilityEntry { name: "NZXT RGB & Fan Controller", rgb_channels: 2, fan_channels: 3 });
    m.insert(0x200E, CapabilityEntry { name: "NZXT RGB & Fan Controller", rgb_channels: 2, fan_channels: 3 });
    m.insert(0x2011, CapabilityEntry { name: "NZXT RGB & Fan Controller", rgb_channels: 6, fan_channels: 3 });
    m.insert(0x2019, CapabilityEntry { name: "NZXT RGB & Fan Controller", rgb_channels: 6, fan_channels: 3 });
    m.insert(0x2020, CapabilityEntry { name: "NZXT RGB & Fan Controller", rgb_channels: 6, fan_channels: 3 });
    m.insert(0x201F, CapabilityEntry { name: "NZXT RGB & Fan Controller", rgb_channels: 6, fan_channels: 3 });
    m.insert(0x2022, CapabilityEntry { name: "NZXT RGB & Fan Controller 2024", rgb_channels: 6, fan_channels: 3 });
    m.insert(0x201B, CapabilityEntry { name: "NZXT B650E Motherboard", rgb_channels: 6, fan_channels: 3 });
    m.insert(0x2001, CapabilityEntry { name: "NZXT Hue 2", rgb_channels: 4, fan_channels: 0 });
    m.insert(0x2002, CapabilityEntry { name: "NZXT Hue 2 Ambient", rgb_channels: 2, fan_channels: 0 });
    m.insert(0x2005, CapabilityEntry { name: "NZXT Hue 2 Motherboard", rgb_channels: 2, fan_channels: 3 });
    m.insert(0x200B, CapabilityEntry { name: "NZXT Hue 2 Motherboard", rgb_channels: 2, fan_channels: 3 });
    m.insert(0x2007, CapabilityEntry { name: "NZXT Kraken X3 Series", rgb_channels: 3, fan_channels: 0 });
    m.insert(0x2014, CapabilityEntry { name: "NZXT Kraken X3 Series RGB", rgb_channels: 3, fan_channels: 0 });
    m.insert(0x3012, CapabilityEntry { name: "NZXT Kraken 2024 ELITE Series RGB", rgb_channels: 2, fan_channels: 2 });
    m.insert(0x2012, CapabilityEntry { name: "NZXT RGB Controller", rgb_channels: 3, fan_channels: 0 });
    m.insert(0x2021, CapabilityEntry { name: "NZXT RGB Controller", rgb_channels: 3, fan_channels: 0 });
    m.insert(0x2006, CapabilityEntry { name: "NZXT Smart Device V2", rgb_channels: 2, fan_channels: 3 });
    m.insert(0x200D, CapabilityEntry { name: "NZXT Smart Device V2", rgb_channels: 2, fan_channels: 3 });
    m.insert(0x200F, CapabilityEntry { name: "NZXT Smart Device V2", rgb_channels: 2, fan_channels: 3 });
    m
}

} // verus!
