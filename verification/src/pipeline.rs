//! Shader compilation, program linking and location resolution.
//!
//! The graphics driver does the actual compiling and linking; this module
//! owns every decision made about the driver's replies. The host performs
//! the calls and hands back plain values — whether an object was allocated,
//! the boolean status the driver reported, the info log if one was available
//! — and the functions here turn them into the demo's setup outcome. A stage
//! that failed to compile never reaches linking: only a `CompiledShader`,
//! which the compile outcome alone produces, can be handed to `link_program`.

use vstd::prelude::*;

verus! {

/// The two shader stages that compose a linked program.
#[derive(Clone, Copy, Debug, PartialEq, Eq, Structural)]
pub enum ShaderStage {
    Vertex,
    Fragment,
}

/// A handle the host assigned to one driver-side shader object.
#[derive(Clone, Copy, Debug, PartialEq, Eq, Structural)]
pub struct ShaderHandle {
    pub id: u32,
}

/// A handle the host assigned to one driver-side program object.
#[derive(Clone, Copy, Debug, PartialEq, Eq, Structural)]
pub struct ProgramHandle {
    pub id: u32,
}

/// A shader stage the driver accepted; the only value `link_program` takes.
#[derive(Clone, Copy, Debug, PartialEq, Eq, Structural)]
pub struct CompiledShader {
    pub stage: ShaderStage,
    pub handle: ShaderHandle,
}

/// A vertex and fragment stage linked into one executable program. The
/// caller must make the program current before any attribute or uniform
/// call that is meant to affect it.
#[derive(Clone, Copy, Debug, PartialEq, Eq, Structural)]
pub struct Program {
    pub handle: ProgramHandle,
    pub vertex_shader: ShaderHandle,
    pub fragment_shader: ShaderHandle,
}

/// Why setup stopped. Every setup error is unrecoverable: it propagates to
/// the entry point and the loop never starts.
#[derive(Clone, Debug, PartialEq, Eq)]
pub enum SetupError {
    /// The drawable surface or its graphics context could not be obtained.
    SurfaceAcquisition,
    /// The driver rejected a shader stage; carries the driver's log, or a
    /// generic message where none was available.
    ShaderCompile(String),
    /// The driver rejected the program link; carries the driver's log, or a
    /// generic message where none was available.
    ProgramLink(String),
    /// The driver failed to allocate an object; carries a description of the
    /// allocation that failed.
    ResourceCreation(String),
}

/// Decides the outcome of compiling one shader stage from the driver's
/// replies: the shader object the host allocated (`None` where allocation
/// failed), the COMPILE_STATUS value (`None` where the reply was not a
/// boolean), and the info log, if one was available. Succeeds exactly when
/// an object was allocated and the driver reported a true status; any other
/// reply is an error carrying the log or a generic message.
pub fn compile_shader(
    stage: ShaderStage,
    created: Option<ShaderHandle>,
    compile_status: Option<bool>,
    info_log: Option<String>,
) -> (r: Result<CompiledShader, SetupError>)
    ensures
        r is Ok <==> created is Some && compile_status == Some(true),
        r matches Ok(s) ==> (created matches Some(h) && s == (CompiledShader {
            stage,
            handle: h,
        })),
        created is None ==> (r matches Err(SetupError::ResourceCreation(m)) && m@
            == "Unable to create shader object"@),
        created is Some && compile_status != Some(true) ==> (r matches Err(
            SetupError::ShaderCompile(log),
        ) && (info_log matches Some(l) ==> log == l) && (info_log is None ==> log@
            == "Unknown error creating shader"@)),
{
    match created {
        None => Err(SetupError::ResourceCreation("Unable to create shader object".to_owned())),
        Some(handle) => {
            let ok = match compile_status {
                Some(true) => true,
                _ => false,
            };
            if ok {
                Ok(CompiledShader { stage, handle })
            } else {
                match info_log {
                    Some(log) => Err(SetupError::ShaderCompile(log)),
                    None => Err(
                        SetupError::ShaderCompile("Unknown error creating shader".to_owned()),
                    ),
                }
            }
        },
    }
}

/// Decides the outcome of linking a compiled vertex and fragment stage from
/// the driver's replies, in the same shape as `compile_shader`: the program
/// object the host allocated, the LINK_STATUS value, and the info log.
/// Succeeds exactly when an object was allocated and the driver reported a
/// true status. Taking `CompiledShader` values makes an errored stage
/// unlinkable by construction.
pub fn link_program(
    vert_shader: &CompiledShader,
    frag_shader: &CompiledShader,
    created: Option<ProgramHandle>,
    link_status: Option<bool>,
    info_log: Option<String>,
) -> (r: Result<Program, SetupError>)
    requires
        vert_shader.stage is Vertex,
        frag_shader.stage is Fragment,
    ensures
        r is Ok <==> created is Some && link_status == Some(true),
        r matches Ok(p) ==> (created matches Some(h) && p == (Program {
            handle: h,
            vertex_shader: vert_shader.handle,
            fragment_shader: frag_shader.handle,
        })),
        created is None ==> (r matches Err(SetupError::ResourceCreation(m)) && m@
            == "Unable to create shader object"@),
        created is Some && link_status != Some(true) ==> (r matches Err(
            SetupError::ProgramLink(log),
        ) && (info_log matches Some(l) ==> log == l) && (info_log is None ==> log@
            == "Unknown error creating program object"@)),
{
    match created {
        None => Err(SetupError::ResourceCreation("Unable to create shader object".to_owned())),
        Some(handle) => {
            let ok = match link_status {
                Some(true) => true,
                _ => false,
            };
            if ok {
                Ok(
                    Program {
                        handle,
                        vertex_shader: vert_shader.handle,
                        fragment_shader: frag_shader.handle,
                    },
                )
            } else {
                match info_log {
                    Some(log) => Err(SetupError::ProgramLink(log)),
                    None => Err(
                        SetupError::ProgramLink(
                            "Unknown error creating program object".to_owned(),
                        ),
                    ),
                }
            }
        },
    }
}

/// The attribute locations the cube demo resolves once after linking; the
/// value exists only when its three matrix uniforms were found as well. A
/// stored location is a non-negative index by construction.
#[derive(Clone, Copy, Debug, PartialEq, Eq, Structural)]
pub struct CubeLocations {
    pub position: u32,
    pub texcoord: u32,
}

/// The attribute locations the triangle demo resolves once after linking.
#[derive(Clone, Copy, Debug, PartialEq, Eq, Structural)]
pub struct TriangleLocations {
    pub position: u32,
    pub color: u32,
}

/// What cube location resolution yields for given driver replies: the two
/// attribute locations as reported (a negative location means the name is
/// not active in the program), and whether each matrix uniform was found.
pub open spec fn resolved_cube_locations(
    position: i32,
    texcoord: i32,
    world_found: bool,
    view_found: bool,
    proj_found: bool,
) -> Option<CubeLocations> {
    if position >= 0 && texcoord >= 0 && world_found && view_found && proj_found {
        Some(CubeLocations { position: position as u32, texcoord: texcoord as u32 })
    } else {
        None
    }
}

/// Resolves the cube program's locations from the driver's replies: the
/// reported location of each attribute name and whether each uniform name
/// was found. Succeeds exactly when every name the shaders use is active.
pub fn resolve_cube_locations(
    position: i32,
    texcoord: i32,
    world_found: bool,
    view_found: bool,
    proj_found: bool,
) -> (r: Option<CubeLocations>)
    ensures
        r == resolved_cube_locations(position, texcoord, world_found, view_found, proj_found),
{
    if position >= 0 && texcoord >= 0 && world_found && view_found && proj_found {
        Some(CubeLocations { position: position as u32, texcoord: texcoord as u32 })
    } else {
        None
    }
}

/// What triangle location resolution yields for given driver replies.
pub open spec fn resolved_triangle_locations(position: i32, color: i32) -> Option<
    TriangleLocations,
> {
    if position >= 0 && color >= 0 {
        Some(TriangleLocations { position: position as u32, color: color as u32 })
    } else {
        None
    }
}

/// Resolves the triangle program's locations from the driver's replies.
/// Succeeds exactly when both attribute names are active.
pub fn resolve_triangle_locations(position: i32, color: i32) -> (r: Option<TriangleLocations>)
    ensures
        r == resolved_triangle_locations(position, color),
{
    if position >= 0 && color >= 0 {
        Some(TriangleLocations { position: position as u32, color: color as u32 })
    } else {
        None
    }
}

/// Law: on a program that compiled and linked, location lookup is stable and
/// non-negative. Whenever the driver reports every name the stages use —
/// non-negative attribute locations, every uniform found — resolution
/// succeeds and each stored index equals the reported one, held in an
/// unsigned slot. Stability over repeated lookups follows: resolution is a
/// function of the driver's replies alone.
pub proof fn lemma_cube_locations_stable(
    position: i32,
    texcoord: i32,
    world_found: bool,
    view_found: bool,
    proj_found: bool,
)
    requires
        position >= 0,
        texcoord >= 0,
        world_found,
        view_found,
        proj_found,
    ensures
        resolved_cube_locations(position, texcoord, world_found, view_found, proj_found)
            matches Some(l) && l.position == position && l.texcoord == texcoord,
{
}

/// Law: the same, for the triangle program's two attributes.
pub proof fn lemma_triangle_locations_stable(position: i32, color: i32)
    requires
        position >= 0,
        color >= 0,
    ensures
        resolved_triangle_locations(position, color) matches Some(l) && l.position == position
            && l.color == color,
{
}

} // verus!
