//! Version numbers of the XR runtime and of Vulkan, and the gates that the
//! headset path passes before it creates a device.

use crate::text::{decimal, decimal_digits};
use vstd::prelude::*;
use vstd::string::*;

verus! {

/// A version as the XR runtime reports it.
#[derive(Clone, Copy, Debug, PartialEq, Eq, Structural)]
pub struct Version {
    pub major: u16,
    pub minor: u16,
    pub patch: u32,
}

/// The 64-bit form of a version: major in the top 16 bits, minor in the
/// next 16, patch in the low 32.
pub open spec fn packed(major: u16, minor: u16, patch: u32) -> u64 {
    ((major as u64) << 48) | ((minor as u64) << 32) | (patch as u64)
}

/// The packed form of a Vulkan version: a 3-bit variant, a 7-bit major, a
/// 10-bit minor and a 12-bit patch, from the top bit down. A component too
/// wide for its field spills into the fields above it, and what passes the
/// top bit is lost.
pub open spec fn vulkan_packed(variant: u32, major: u32, minor: u32, patch: u32) -> u32 {
    (variant << 29) | (major << 22) | (minor << 12) | patch
}

/// `openxr::Version::new`, read back with `into_raw`: the three parts
/// shifted into their fields and or-ed together.
#[verifier::external_body]
fn pack(major: u16, minor: u16, patch: u32) -> (raw: u64)
    ensures
        raw == packed(major, minor, patch),
{
    openxr::Version::new(major, minor, patch).into_raw()
}

/// `openxr::Version::major` on a raw value: its top 16 bits.
#[verifier::external_body]
fn raw_major(raw: u64) -> (major: u16)
    ensures
        major == (raw >> 48) as u16,
{
    openxr::Version::from_raw(raw).major()
}

/// `openxr::Version::minor` on a raw value: bits 32 to 47.
#[verifier::external_body]
fn raw_minor(raw: u64) -> (minor: u16)
    ensures
        minor == ((raw >> 32) & 0xffff) as u16,
{
    openxr::Version::from_raw(raw).minor()
}

/// `openxr::Version::patch` on a raw value: its low 32 bits.
#[verifier::external_body]
fn raw_patch(raw: u64) -> (patch: u32)
    ensures
        patch == (raw & 0xffff_ffff) as u32,
{
    openxr::Version::from_raw(raw).patch()
}

/// `ash::vk::make_api_version`: the four parts shifted into their fields and
/// or-ed together, in 32 bits.
#[verifier::external_body]
fn make_vulkan_version(variant: u32, major: u32, minor: u32, patch: u32) -> (raw: u32)
    ensures
        raw == vulkan_packed(variant, major, minor, patch),
{
    ash::vk::make_api_version(variant, major, minor, patch)
}

impl Version {
    /// The packed form of this version.
    pub open spec fn raw(self) -> u64 {
        packed(self.major, self.minor, self.patch)
    }

    /// Whether this version is older than `other`: by major, then by minor,
    /// then by patch.
    pub open spec fn precedes(self, other: Version) -> bool {
        self.major < other.major || (self.major == other.major && (self.minor < other.minor || (
        self.minor == other.minor && self.patch < other.patch)))
    }

    /// The text of this version: its three parts in decimal, with dots
    /// between them.
    pub open spec fn text(self) -> Seq<char> {
        decimal_digits(self.major as nat) + seq!['.'] + decimal_digits(self.minor as nat) + seq![
            '.',
        ] + decimal_digits(self.patch as nat)
    }

    /// The version with these three parts.
    pub fn new(major: u16, minor: u16, patch: u32) -> (version: Version)
        ensures
            version == (Version { major, minor, patch }),
    {
        Version { major, minor, patch }
    }

    /// Unpacks a version from its 64-bit form.
    pub fn from_raw(raw: u64) -> (version: Version)
        ensures
            version.raw() == raw,
            version.major == raw / 0x1_0000_0000_0000,
            version.minor == (raw / 0x1_0000_0000) % 0x1_0000,
            version.patch == raw % 0x1_0000_0000,
    {
        let major: u16 = raw_major(raw);
        let minor: u16 = raw_minor(raw);
        let patch: u32 = raw_patch(raw);
        proof {
            lemma_unpack(raw);
        }
        Version { major, minor, patch }
    }

    /// Packs this version into its 64-bit form.
    pub fn into_raw(self) -> (raw: u64)
        ensures
            raw == self.raw(),
            raw == self.major * 0x1_0000_0000_0000 + self.minor * 0x1_0000_0000 + self.patch,
    {
        proof {
            lemma_pack(self.major, self.minor, self.patch);
        }
        pack(self.major, self.minor, self.patch)
    }

    /// Whether this version is older than `other`.
    pub fn older_than(self, other: Version) -> (older: bool)
        ensures
            older == self.precedes(other),
    {
        proof {
            lemma_raw_order(self, other);
        }
        self.into_raw() < other.into_raw()
    }

    /// Writes this version as `major.minor.patch`.
    pub fn to_text(self) -> (text: String)
        ensures
            text@ == self.text(),
    {
        let text: String = decimal(self.major as u32);
        let text: String = text.concat(".");
        let text: String = text.concat(decimal(self.minor as u32).as_str());
        let text: String = text.concat(".");
        let text: String = text.concat(decimal(self.patch).as_str());
        proof {
            reveal_strlit(".");
        }
        text
    }
}

proof fn lemma_pack(major: u16, minor: u16, patch: u32)
    ensures
        packed(major, minor, patch) == major * 0x1_0000_0000_0000 + minor * 0x1_0000_0000 + patch,
{
    assert(((major as u64) << 48) | ((minor as u64) << 32) | (patch as u64) == (major as u64)
        * 0x1_0000_0000_0000 + (minor as u64) * 0x1_0000_0000 + (patch as u64)) by (bit_vector);
}

proof fn lemma_unpack(raw: u64)
    ensures
        packed((raw >> 48) as u16, ((raw >> 32) & 0xffff) as u16, (raw & 0xffff_ffff) as u32)
            == raw,
        (raw >> 48) as u16 == raw / 0x1_0000_0000_0000,
        ((raw >> 32) & 0xffff) as u16 == (raw / 0x1_0000_0000) % 0x1_0000,
        (raw & 0xffff_ffff) as u32 == raw % 0x1_0000_0000,
{
    assert(((((raw >> 48) as u16) as u64) << 48) | (((((raw >> 32) & 0xffff) as u16) as u64) << 32)
        | (((raw & 0xffff_ffff) as u32) as u64) == raw) by (bit_vector);
    assert((raw >> 48) as u16 == raw / 0x1_0000_0000_0000) by (bit_vector);
    assert(((raw >> 32) & 0xffff) as u16 == (raw / 0x1_0000_0000) % 0x1_0000) by (bit_vector);
    assert((raw & 0xffff_ffff) as u32 == raw % 0x1_0000_0000) by (bit_vector);
}

/// Packed versions compare as their parts do: by major, then by minor, then
/// by patch.
pub proof fn lemma_raw_order(a: Version, b: Version)
    ensures
        a.raw() < b.raw() <==> a.precedes(b),
        a.raw() == b.raw() <==> a == b,
{
    lemma_pack(a.major, a.minor, a.patch);
    lemma_pack(b.major, b.minor, b.patch);
}

/// Unpacking undoes packing.
pub proof fn lemma_raw_round_trip(v: Version)
    ensures
        (v.raw() >> 48) as u16 == v.major,
        ((v.raw() >> 32) & 0xffff) as u16 == v.minor,
        (v.raw() & 0xffff_ffff) as u32 == v.patch,
{
    let raw = v.raw();
    lemma_pack(v.major, v.minor, v.patch);
    lemma_unpack(raw);
}

/// The Vulkan version that the headset path builds its device for.
pub open spec fn vulkan_target() -> Version {
    Version { major: 1, minor: 1, patch: 0 }
}

/// The packed Vulkan form of the target version.
pub const VULKAN_TARGET_RAW: u32 = 0x0040_1000;

/// The Vulkan version that the headset path builds its device for: 1.1.0.
pub fn vulkan_target_version() -> (version: Version)
    ensures
        version == vulkan_target(),
{
    Version::new(1, 1, 0)
}

/// Packs the target version the way Vulkan does, with variant 0.
pub fn vulkan_target_raw() -> (raw: u32)
    ensures
        raw == VULKAN_TARGET_RAW,
        raw == vulkan_packed(0, 1, 1, 0),
{
    let target: Version = vulkan_target_version();
    assert((0u32 << 29) | (1u32 << 22) | (1u32 << 12) | 0u32 == 0x0040_1000u32) by (bit_vector);
    make_vulkan_version(0, target.major as u32, target.minor as u32, target.patch)
}

/// Why the headset path gave up before it had a device.
#[derive(Clone, Copy, Debug, PartialEq, Eq, Structural)]
pub enum SetupError {
    /// The range of Vulkan versions that the runtime accepts leaves out the
    /// target: `min` is the oldest it accepts, `upper_major` the first major
    /// version that it no longer does.
    VulkanRange { min: Version, upper_major: u32 },
    /// The physical device reports an older Vulkan than the target.
    DeviceTooOld,
}

/// Whether a runtime that accepts Vulkan from `min` up to the major version
/// of `max` accepts the target.
pub open spec fn requirements_met(min: Version, max: Version) -> bool {
    !vulkan_target().precedes(min) && vulkan_target().major <= max.major
}

/// The first gate: the runtime's Vulkan range must hold the target version.
pub fn check_graphics_requirements(min: Version, max: Version) -> (gate: Result<(), SetupError>)
    ensures
        requirements_met(min, max) ==> gate is Ok,
        !requirements_met(min, max) ==> gate == Err::<(), SetupError>(
            SetupError::VulkanRange { min, upper_major: (max.major + 1) as u32 },
        ),
{
    let target: Version = vulkan_target_version();
    if target.older_than(min) || target.major > max.major {
        Err(SetupError::VulkanRange { min, upper_major: max.major as u32 + 1 })
    } else {
        Ok(())
    }
}

/// The second gate: the physical device must report the target version or
/// a newer one, both in Vulkan's packed form.
pub fn check_device_version(api_version: u32) -> (gate: Result<(), SetupError>)
    ensures
        api_version >= VULKAN_TARGET_RAW ==> gate is Ok,
        api_version < VULKAN_TARGET_RAW ==> gate == Err::<(), SetupError>(SetupError::DeviceTooOld),
{
    if api_version < vulkan_target_raw() {
        Err(SetupError::DeviceTooOld)
    } else {
        Ok(())
    }
}

impl SetupError {
    /// The message of this error, as a person reads it.
    pub open spec fn message_text(self) -> Seq<char> {
        match self {
            SetupError::VulkanRange { min, upper_major } => {
                "OpenXR runtime requires Vulkan version > "@ + min.text() + ", < "@
                    + decimal_digits(upper_major as nat) + ".0.0"@
            },
            SetupError::DeviceTooOld => "Vulkan physical device doesn't support version 1.1"@,
        }
    }

    /// Writes the message of this error.
    pub fn message(&self) -> (text: String)
        ensures
            text@ == self.message_text(),
    {
        match self {
            SetupError::VulkanRange { min, upper_major } => {
                let text: String = "OpenXR runtime requires Vulkan version > ".to_owned();
                let text: String = text.concat(min.to_text().as_str());
                let text: String = text.concat(", < ");
                let text: String = text.concat(decimal(*upper_major).as_str());
                text.concat(".0.0")
            },
            SetupError::DeviceTooOld => {
                "Vulkan physical device doesn't support version 1.1".to_owned()
            },
        }
    }
}

} // verus!
