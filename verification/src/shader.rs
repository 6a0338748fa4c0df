//! Descriptions of shaders and shader programs.
//!
//! A shader is a compiled GPU program stage, known here by the id the
//! driver assigned it and by its stage; a shader program is a linked set of
//! shaders.  The one piece of real logic is the mapping from a source
//! file's extension to the stage it holds, which `get_shader_type` computes
//! and `spec_shader_type` states in full.

use vstd::prelude::*;
use vstd::string::StrSliceExecFns;

use crate::glenum;
use crate::types::HasID;

verus! {

/// The shader stage a source-file extension denotes, if any: `v`, `vs`,
/// `vsh`, `vert` and `vertex` name the vertex stage, and likewise for the
/// fragment, geometry, tessellation and compute stages.
pub open spec fn spec_shader_type(ext: Seq<char>) -> Option<u32> {
    if ext == "v"@ || ext == "vs"@ || ext == "vsh"@ || ext == "vert"@ || ext == "vertex"@ {
        Some(glenum::VERTEX_SHADER)
    } else if ext == "f"@ || ext == "fs"@ || ext == "fsh"@ || ext == "frag"@ || ext
        == "fragment"@ {
        Some(glenum::FRAGMENT_SHADER)
    } else if ext == "g"@ || ext == "gs"@ || ext == "geom"@ || ext == "geometry"@ {
        Some(glenum::GEOMETRY_SHADER)
    } else if ext == "control"@ || ext == "tesc"@ || ext == "tescontrol"@ || ext
        == "tesscontrol"@ {
        Some(glenum::TESS_CONTROL_SHADER)
    } else if ext == "eval"@ || ext == "tese"@ || ext == "teseval"@ || ext == "tesseval"@ {
        Some(glenum::TESS_EVALUATION_SHADER)
    } else if ext == "comp"@ || ext == "compute"@ {
        Some(glenum::COMPUTE_SHADER)
    } else {
        None
    }
}

/// Compare two string slices character by character.
fn str_eq(a: &str, b: &str) -> (r: bool)
    ensures
        r == (a@ == b@),
{
    let n = a.unicode_len();
    let m = b.unicode_len();
    if n != m {
        proof {
            assert(a@.len() != b@.len());
        }
        return false;
    }
    let mut i: usize = 0;
    while i < n
        invariant
            n == a@.len(),
            n == b@.len(),
            i <= n,
            forall|j: int| 0 <= j < i ==> a@[j] == b@[j],
        decreases n - i,
    {
        if a.get_char(i) != b.get_char(i) {
            return false;
        }
        i = i + 1;
    }
    proof {
        assert(a@ =~= b@);
    }
    true
}

/// Map a shader source file's extension to the stage it holds.
pub fn get_shader_type(file_extension: &str) -> (r: u32)
    requires
        spec_shader_type(file_extension@) is Some,
    ensures
        Some(r) == spec_shader_type(file_extension@),
{
    if str_eq(file_extension, "v") || str_eq(file_extension, "vs") || str_eq(
        file_extension,
        "vsh",
    ) || str_eq(file_extension, "vert") || str_eq(file_extension, "vertex") {
        glenum::VERTEX_SHADER
    } else if str_eq(file_extension, "f") || str_eq(file_extension, "fs") || str_eq(
        file_extension,
        "fsh",
    ) || str_eq(file_extension, "frag") || str_eq(file_extension, "fragment") {
        glenum::FRAGMENT_SHADER
    } else if str_eq(file_extension, "g") || str_eq(file_extension, "gs") || str_eq(
        file_extension,
        "geom",
    ) || str_eq(file_extension, "geometry") {
        glenum::GEOMETRY_SHADER
    } else if str_eq(file_extension, "control") || str_eq(file_extension, "tesc") || str_eq(
        file_extension,
        "tescontrol",
    ) || str_eq(file_extension, "tesscontrol") {
        glenum::TESS_CONTROL_SHADER
    } else if str_eq(file_extension, "eval") || str_eq(file_extension, "tese") || str_eq(
        file_extension,
        "teseval",
    ) || str_eq(file_extension, "tesseval") {
        glenum::TESS_EVALUATION_SHADER
    } else {
        proof {
            assert(file_extension@ == "comp"@ || file_extension@ == "compute"@);
        }
        if str_eq(file_extension, "comp") || str_eq(file_extension, "compute") {
            glenum::COMPUTE_SHADER
        } else {
            proof {
                assert(false);
            }
            0
        }
    }
}

/// A compiled shader stage: the id the driver assigned it and the stage it
/// belongs to.
#[derive(Clone, Copy, Debug)]
pub struct Shader {
    id: u32,
    shader_type: u32,
}

impl HasID for Shader {
    closed spec fn spec_id(&self) -> u32 {
        self.id
    }

    fn get_id(&self) -> (r: u32)
        ensures
            r == self.spec_id(),
    {
        self.id
    }
}

impl Shader {
    /// The stage of the shader.
    pub closed spec fn spec_shader_type(&self) -> u32 {
        self.shader_type
    }

    /// Describe a compiled shader from the id the driver assigned it and
    /// its stage.
    pub fn new(id: u32, shader_type: u32) -> (s: Self)
        ensures
            s.spec_id() == id,
            s.spec_shader_type() == shader_type,
    {
        Shader { id, shader_type }
    }

    /// The stage of the shader.
    pub fn shader_type(&self) -> (r: u32)
        ensures
            r == self.spec_shader_type(),
    {
        self.shader_type
    }
}

/// A linked program: the id the driver assigned it and the shaders linked
/// into it.
#[derive(Clone, Debug)]
pub struct ShaderProgram {
    id: u32,
    shaders: Vec<Shader>,
}

impl HasID for ShaderProgram {
    closed spec fn spec_id(&self) -> u32 {
        self.id
    }

    fn get_id(&self) -> (r: u32)
        ensures
            r == self.spec_id(),
    {
        self.id
    }
}

impl ShaderProgram {
    /// The shaders linked into the program.
    pub closed spec fn spec_shaders(&self) -> Seq<Shader> {
        self.shaders@
    }

    /// Describe an empty program from the id the driver assigned it.
    pub fn new(id: u32) -> (p: Self)
        ensures
            p.spec_id() == id,
            p.spec_shaders() == Seq::<Shader>::empty(),
    {
        ShaderProgram { id, shaders: Vec::new() }
    }

    /// Describe a program from its id and the shaders to link into it.
    pub fn from_array(id: u32, shaders: Vec<Shader>) -> (p: Self)
        ensures
            p.spec_id() == id,
            p.spec_shaders() == shaders@,
    {
        Self::new(id).shaders(shaders)
    }

    /// Set the shaders linked into the program, returning `self`.
    pub fn shaders(self, shaders: Vec<Shader>) -> (p: Self)
        ensures
            p.spec_id() == self.spec_id(),
            p.spec_shaders() == shaders@,
    {
        ShaderProgram { id: self.id, shaders }
    }
}

} // verus!
