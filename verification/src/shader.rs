//! Shader compilation and program linking decisions.
//!
//! The graphics driver itself is spoken to outside the library; what it
//! reported about a compile or a link comes back in as a plain report
//! value, and the functions here decide what the compiler and the linker
//! return for every such report.  The stage of a shader is decided here in
//! full, from the resource name alone, before any driver work.

use vstd::prelude::*;
use vstd::string::*;

use crate::resources::ResourceError;

verus! {

/// The driver's code for a vertex-stage shader object.
pub const GL_VERTEX_SHADER: u32 = 0x8B31;

/// The driver's code for a fragment-stage shader object.
pub const GL_FRAGMENT_SHADER: u32 = 0x8B30;

/// The ways shader building can fail.
#[derive(Debug, PartialEq, Eq)]
pub enum ShaderError {
    /// The named resource could not be loaded; carries the loader's error.
    LoadResourceError { name: String, inner: ResourceError },
    /// The resource name ends in no known stage suffix.
    TypeError { name: String },
    /// The driver refused the source; carries its diagnostic text verbatim.
    CompileError { name: String, message: String },
    /// The driver refused to link the attached shaders.
    LinkError,
}

/// One unit of the graphics pipeline a shader can belong to.
#[derive(Copy, Clone, Debug, PartialEq, Eq, Structural)]
pub enum StageKind {
    Vertex,
    Fragment,
}

impl StageKind {
    /// The driver's code for this stage.
    pub fn gl_enum(&self) -> (r: u32)
        ensures
            self is Vertex ==> r == GL_VERTEX_SHADER,
            self is Fragment ==> r == GL_FRAGMENT_SHADER,
    {
        match self {
            StageKind::Vertex => GL_VERTEX_SHADER,
            StageKind::Fragment => GL_FRAGMENT_SHADER,
        }
    }
}

/// Whether `suffix` is a suffix of `s`.
pub open spec fn is_suffix(s: Seq<char>, suffix: Seq<char>) -> bool {
    s.len() >= suffix.len() && s.subrange(s.len() - suffix.len(), s.len() as int) == suffix
}

/// Whether `s` ends with `suffix`, compared character by character.
fn str_ends_with(s: &str, suffix: &str) -> (r: bool)
    ensures
        r <==> is_suffix(s@, suffix@),
{
    let n: usize = s.unicode_len();
    let m: usize = suffix.unicode_len();
    if m > n {
        return false;
    }
    let mut k: usize = 0;
    while k < m
        invariant
            k <= m,
            m <= n,
            n == s@.len(),
            m == suffix@.len(),
            forall|j: int| 0 <= j < k ==> s@[n - m + j] == suffix@[j],
        decreases m - k,
    {
        let a = s.get_char(n - m + k);
        let b = suffix.get_char(k);
        if a != b {
            proof {
                if is_suffix(s@, suffix@) {
                    assert(s@.subrange(n - m, n as int)[k as int] == s@[n - m + k]);
                }
            }
            return false;
        }
        k = k + 1;
    }
    proof {
        assert(s@.subrange(n - m, n as int) =~= suffix@);
    }
    true
}

/// What the driver reported about one shader compilation: the handle it gave
/// out, the compile-status flag it answered, and the diagnostic log that was
/// retrieved for it.
pub struct CompileReport {
    pub handle: u32,
    pub status: i32,
    pub log: String,
}

/// What compilation returns for a given stage and driver report: the shader
/// on success (a non-zero status flag), the log verbatim on failure.
pub open spec fn spec_compile_outcome(kind: StageKind, report: CompileReport) -> Result<
    Shader,
    Seq<char>,
> {
    if report.status == 0 {
        Err(report.log@)
    } else {
        Ok(Shader { id: report.handle, kind })
    }
}

/// One compiled shader stage, named by the handle the driver gave it.
#[derive(Debug)]
pub struct Shader {
    pub id: u32,
    pub kind: StageKind,
}

impl Shader {
    /// Decides a shader's stage from its resource name: `.vert` names the
    /// vertex stage and `.frag` the fragment stage; every other name is
    /// refused before any driver work happens.
    pub fn stage_for_res(name: &str) -> (r: Result<StageKind, ShaderError>)
        ensures
            match r {
                Ok(k) => (k is Vertex && is_suffix(name@, ".vert"@)) || (k is Fragment
                    && is_suffix(name@, ".frag"@) && !is_suffix(name@, ".vert"@)),
                Err(e) => {
                    &&& e matches ShaderError::TypeError { name: n } && n@ == name@
                    &&& !is_suffix(name@, ".vert"@)
                    &&& !is_suffix(name@, ".frag"@)
                },
            },
    {
        if str_ends_with(name, ".vert") {
            Ok(StageKind::Vertex)
        } else if str_ends_with(name, ".frag") {
            Ok(StageKind::Fragment)
        } else {
            Err(ShaderError::TypeError { name: name.to_owned() })
        }
    }

    /// Passes loaded source bytes through, or wraps the loader's failure
    /// together with the resource's name.
    pub fn source_for_res(name: &str, loaded: Result<Vec<u8>, ResourceError>) -> (r: Result<
        Vec<u8>,
        ShaderError,
    >)
        ensures
            match loaded {
                Ok(bytes) => r matches Ok(b) && b@ == bytes@,
                Err(e) => r matches Err(
                    ShaderError::LoadResourceError { name: n, inner },
                ) && n@ == name@ && inner == e,
            },
    {
        match loaded {
            Ok(bytes) => Ok(bytes),
            Err(e) => Err(ShaderError::LoadResourceError { name: name.to_owned(), inner: e }),
        }
    }

    /// Judges a driver compile report: a zero status flag fails with the
    /// retrieved diagnostic text verbatim; any other flag yields the shader
    /// under the reported handle.
    pub fn from_source(kind: StageKind, report: CompileReport) -> (r: Result<Shader, String>)
        ensures
            match r {
                Ok(sh) => spec_compile_outcome(kind, report) == Ok::<Shader, Seq<char>>(sh),
                Err(m) => report.status == 0 && m@ == report.log@,
            },
            r is Ok <==> report.status != 0,
    {
        if report.status == 0 {
            Err(report.log)
        } else {
            Ok(Shader { id: report.handle, kind })
        }
    }

    /// The compile decision for a named resource: as [`Shader::from_source`],
    /// but a failure carries the resource's name beside the diagnostic text.
    pub fn from_res_outcome(name: &str, kind: StageKind, report: CompileReport) -> (r: Result<
        Shader,
        ShaderError,
    >)
        ensures
            match r {
                Ok(sh) => spec_compile_outcome(kind, report) == Ok::<Shader, Seq<char>>(sh),
                Err(e) => {
                    &&& report.status == 0
                    &&& e matches ShaderError::CompileError { name: n, message: m } && n@ == name@
                        && m@ == report.log@
                },
            },
            r is Ok <==> report.status != 0,
    {
        match Self::from_source(kind, report) {
            Ok(sh) => Ok(sh),
            Err(message) => Err(ShaderError::CompileError { name: name.to_owned(), message }),
        }
    }

    /// The handle the driver knows this shader by.
    pub fn id(&self) -> (r: u32)
        ensures
            r == self.id,
    {
        self.id
    }
}

/// The two resource names a program of base name `name` is built from:
/// `name` with `.vert` appended, then `name` with `.frag` appended.
pub fn shader_resource_names(name: &str) -> (r: Vec<String>)
    ensures
        r@.len() == 2,
        r@[0]@ == name@ + ".vert"@,
        r@[1]@ == name@ + ".frag"@,
{
    let mut vert: String = name.to_owned();
    vert.append(".vert");
    let mut frag: String = name.to_owned();
    frag.append(".frag");
    let mut names: Vec<String> = Vec::new();
    names.push(vert);
    names.push(frag);
    names
}

/// What the driver reported about one program link: the program handle, the
/// link-status flag, and the linker log that was retrieved for it.  The log
/// is captured in every report; a failed link discards it and reports only
/// that linking failed.
pub struct LinkReport {
    pub handle: u32,
    pub status: i32,
    pub log: String,
}

/// What linking returns for a given driver report: the program on success
/// (a non-zero status flag), `LinkError` otherwise.
pub open spec fn spec_link_outcome(report: LinkReport) -> Result<Program, ShaderError> {
    if report.status == 0 {
        Err(ShaderError::LinkError)
    } else {
        Ok(Program { id: report.handle })
    }
}

/// One linked program, named by the handle the driver gave it.
#[derive(Debug)]
pub struct Program {
    pub id: u32,
}

/// The process-wide pipeline state the driver keeps: which program is the
/// active one.  Zero names no program, the driver's starting state.
#[derive(Copy, Clone, Debug, PartialEq, Eq, Structural)]
pub struct PipelineState {
    pub active_program: u32,
}

impl PipelineState {
    /// The driver's starting state: no program active.
    pub fn new() -> (r: PipelineState)
        ensures
            r.active_program == 0,
    {
        PipelineState { active_program: 0 }
    }
}

/// The pipeline state after a program is made current: that program is
/// active, whatever was active before.
pub open spec fn spec_after_set_used(p: Program, s: PipelineState) -> PipelineState {
    PipelineState { active_program: p.id }
}

impl Program {
    /// The handles to attach before linking, and to detach after a
    /// successful link: each shader's own, in the order given.
    pub fn shader_ids(shaders: &Vec<Shader>) -> (r: Vec<u32>)
        ensures
            r@.len() == shaders@.len(),
            forall|i: int| 0 <= i < shaders@.len() ==> r@[i] == shaders@[i].id,
    {
        let mut ids: Vec<u32> = Vec::new();
        let n: usize = shaders.len();
        let mut i: usize = 0;
        while i < n
            invariant
                i <= n,
                n == shaders@.len(),
                ids@.len() == i,
                forall|k: int| 0 <= k < i ==> ids@[k] == shaders@[k].id,
            decreases n - i,
        {
            ids.push(shaders[i].id);
            i = i + 1;
        }
        ids
    }

    /// Judges a driver link report: a zero status flag fails with
    /// `LinkError` (the retrieved linker log is dropped here, as the report
    /// records it); any other flag yields the program under the reported
    /// handle.
    pub fn from_shaders(report: LinkReport) -> (r: Result<Program, ShaderError>)
        ensures
            r == spec_link_outcome(report),
            r is Ok <==> report.status != 0,
    {
        if report.status == 0 {
            Err(ShaderError::LinkError)
        } else {
            Ok(Program { id: report.handle })
        }
    }

    /// The handle the driver knows this program by.
    pub fn id(&self) -> (r: u32)
        ensures
            r == self.id,
    {
        self.id
    }

    /// Makes this program the active one: the recorded pipeline state holds
    /// exactly this program afterwards.
    pub fn set_used(&self, state: &mut PipelineState)
        ensures
            *final(state) == spec_after_set_used(*self, *old(state)),
    {
        state.active_program = self.id;
    }
}

/// Linking successfully compiled stages yields a program, and making that
/// program current leaves the pipeline with exactly it active, whatever was
/// active before.
pub proof fn lemma_linked_program_set_used_is_active(
    vert: CompileReport,
    frag: CompileReport,
    link: LinkReport,
    s: PipelineState,
)
    requires
        vert.status != 0,
        frag.status != 0,
        link.status != 0,
    ensures
        spec_compile_outcome(StageKind::Vertex, vert) is Ok,
        spec_compile_outcome(StageKind::Fragment, frag) is Ok,
        spec_link_outcome(link) matches Ok(p) && spec_after_set_used(p, s).active_program == p.id,
{
}

} // verus!
