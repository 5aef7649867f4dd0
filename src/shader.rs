//! Shader sources and the GLSL version they are selected by.

use vstd::prelude::*;
use vstd::string::StringExecFns;

use crate::text::{decimal, push_decimal};

verus! {

/// The sources of a GPU program and its name.
pub struct Shader {
    pub name: String,
    pub vertex_source: String,
    pub fragment_source: String,
}

/// The graphics API a GLSL version belongs to.
#[derive(Debug, Clone, Copy, PartialEq, Eq, Structural)]
pub enum GlslApi {
    Gl,
    GlEs,
}

/// The version text under which shader sources are stored: the major and minor
/// version followed by a zero (`"330"`), with `" es"` after it for OpenGL ES.
pub open spec fn glsl_version_text(api: GlslApi, major: u8, minor: u8) -> Seq<char> {
    let digits = decimal(major as nat) + decimal(minor as nat) + "0"@;
    match api {
        GlslApi::Gl => digits,
        GlslApi::GlEs => digits + " es"@,
    }
}

/// Builds the version text under which shader sources are stored for a GLSL version.
pub fn glsl_version_string(api: GlslApi, major: u8, minor: u8) -> (r: String)
    ensures
        r@ == glsl_version_text(api, major, minor),
{
    let mut s = String::new();
    push_decimal(&mut s, major as u32);
    push_decimal(&mut s, minor as u32);
    s.append("0");
    match api {
        GlslApi::Gl => {},
        GlslApi::GlEs => {
            s.append(" es");
        },
    }
    s
}

} // verus!
