use vstd::prelude::*;

pub mod graphics_device;
pub mod renderers;
pub mod shader;
pub mod text;

verus! {

/// Represents a version number.
#[derive(Debug, Clone, Copy, PartialEq, Eq, PartialOrd, Ord, Structural)]
pub struct Version {
    /// Major part of the version.
    pub major: u32,
    /// Minor part of the version.
    pub minor: u32,
    /// Patch part of the version.
    pub patch: u32,
}

impl Version {
    /// Creates a new instance.
    pub fn new(major: u32, minor: u32, patch: u32) -> (v: Self)
        ensures
            v.major == major,
            v.minor == minor,
            v.patch == patch,
    {
        Self { major, minor, patch }
    }

    /// Formats the version as `v{major}.{minor}.{patch}`.
    pub fn to_string(&self) -> (s: String)
        ensures
            s@ == version_text(*self),
    {
        let mut s = String::from_str("v");
        text::push_decimal(&mut s, self.major as u64);
        text::push_str(&mut s, ".");
        text::push_decimal(&mut s, self.minor as u64);
        text::push_str(&mut s, ".");
        text::push_decimal(&mut s, self.patch as u64);
        proof {
            reveal_strlit("v");
            reveal_strlit(".");
        }
        assert(s@ =~= version_text(*self));
        s
    }
}

/// The text of a version: `v{major}.{minor}.{patch}`.
pub open spec fn version_text(v: Version) -> Seq<char> {
    seq!['v'] + text::decimal(v.major as nat) + seq!['.'] + text::decimal(v.minor as nat) + seq![
        '.',
    ] + text::decimal(v.patch as nat)
}

/// Current version of the HephGL engine.
pub fn hephgl_engine_version() -> (v: Version)
    ensures
        v == (Version { major: 0, minor: 1, patch: 0 }),
{
    Version::new(0, 1, 0)
}

} // verus!
