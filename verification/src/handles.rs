//! The GPU object names that the painter stores and hands on.
//!
//! They are `glow`'s own types, named elsewhere by `glow`'s aliases
//! (`glow::Texture` and the like) and declared here by the structs that the
//! aliases stand for on a native target. Nothing inside one is read: a handle
//! is stored, compared and put into a command, nothing else.

use vstd::prelude::*;

verus! {

/// `glow::NativeTexture`, the name of a texture object.
#[verifier::external_type_specification]
#[verifier::external_body]
pub struct ExNativeTexture(glow::NativeTexture);

/// `glow::NativeProgram`, the name of a linked shader program.
#[verifier::external_type_specification]
#[verifier::external_body]
pub struct ExNativeProgram(glow::NativeProgram);

/// `glow::NativeBuffer`, the name of a buffer object.
#[verifier::external_type_specification]
#[verifier::external_body]
pub struct ExNativeBuffer(glow::NativeBuffer);

/// `glow::NativeUniformLocation`, the place of a uniform in a program.
#[verifier::external_type_specification]
#[verifier::external_body]
pub struct ExNativeUniformLocation(glow::NativeUniformLocation);

/// `glow::NativeFramebuffer`, the name of a framebuffer object.
#[verifier::external_type_specification]
#[verifier::external_body]
pub struct ExNativeFramebuffer(glow::NativeFramebuffer);

} // verus!
