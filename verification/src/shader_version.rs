//! The shader dialects that the painter's shaders are written for.

use vstd::prelude::*;

verus! {

/// A dialect of the shading language.
#[derive(Clone, Copy, Debug, PartialEq, Eq, Structural)]
pub enum ShaderVersion {
    /// Desktop, version 1.20.
    Gl120,
    /// Desktop, version 1.40 or later.
    Gl140,
    /// Embedded, version 1.00: the oldest dialect, without sized texture
    /// formats.
    Es100,
    /// Embedded, version 3.00 or later.
    Es300,
}

impl ShaderVersion {
    /// The newest dialect of the four that a context of this version
    /// compiles. The embedded profile has the newer dialect from 3.0 on, the
    /// desktop profile from 3.1 on.
    pub open spec fn spec_for_context(major: u32, minor: u32, is_embedded: bool) -> ShaderVersion {
        if is_embedded {
            if major >= 3 {
                ShaderVersion::Es300
            } else {
                ShaderVersion::Es100
            }
        } else if major > 3 || (major == 3 && minor >= 1) {
            ShaderVersion::Gl140
        } else {
            ShaderVersion::Gl120
        }
    }

    #[verifier::when_used_as_spec(spec_for_context)]
    pub fn for_context(major: u32, minor: u32, is_embedded: bool) -> (version: ShaderVersion)
        ensures
            version == Self::spec_for_context(major, minor, is_embedded),
    {
        if is_embedded {
            if major >= 3 {
                ShaderVersion::Es300
            } else {
                ShaderVersion::Es100
            }
        } else if major > 3 || (major == 3 && minor >= 1) {
            ShaderVersion::Gl140
        } else {
            ShaderVersion::Gl120
        }
    }

    /// The line that a shader of this dialect starts with.
    pub open spec fn spec_version_declaration(self) -> Seq<char> {
        match self {
            ShaderVersion::Gl120 => "#version 120\n"@,
            ShaderVersion::Gl140 => "#version 140\n"@,
            ShaderVersion::Es100 => "#version 100\n"@,
            ShaderVersion::Es300 => "#version 300 es\n"@,
        }
    }

    pub fn version_declaration(self) -> (line: &'static str)
        ensures
            line@ == self.spec_version_declaration(),
    {
        match self {
            ShaderVersion::Gl120 => "#version 120\n",
            ShaderVersion::Gl140 => "#version 140\n",
            ShaderVersion::Es100 => "#version 100\n",
            ShaderVersion::Es300 => "#version 300 es\n",
        }
    }

    /// Whether shaders of this dialect name their inputs and outputs `in`
    /// and `out`: the two newer dialects do.
    pub open spec fn spec_is_new_shader_interface(self) -> bool {
        self == ShaderVersion::Gl140 || self == ShaderVersion::Es300
    }

    #[verifier::when_used_as_spec(spec_is_new_shader_interface)]
    pub fn is_new_shader_interface(self) -> (new_interface: bool)
        ensures
            new_interface == self.spec_is_new_shader_interface(),
    {
        match self {
            ShaderVersion::Gl120 | ShaderVersion::Es100 => false,
            ShaderVersion::Es300 | ShaderVersion::Gl140 => true,
        }
    }
}

} // verus!
