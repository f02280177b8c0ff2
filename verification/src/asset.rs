//! Assets that the engine's threads ask the asset thread for, and how the
//! asset thread answers a request.
use vstd::prelude::*;
use vstd::string::*;
use std::sync::mpsc::Sender;

verus! {

#[verifier::external_type_specification]
#[verifier::external_body]
#[verifier::reject_recursive_types(T)]
pub struct ExSender<T>(Sender<T>);

/// An asset as the asset thread hands it out.
pub enum Asset {
    /// A compiled shader: SPIR-V words.
    Shader(Vec<u32>),
    /// The asset is unknown or could not be produced.
    Unavailable,
}

/// A request for the asset called `name`; the answer goes to `sender`.
pub struct AssetRequest {
    pub name: String,
    pub sender: Sender<Asset>,
}

/// The pipeline stage a shader is compiled for.
#[derive(Clone, Copy, Debug, PartialEq, Eq, Structural)]
pub enum ShaderStage {
    Vertex,
    Fragment,
}

/// A shader that the asset thread compiles to answer a request.
#[derive(Clone, Copy, Debug)]
pub struct ShaderJob {
    /// GLSL source text.
    pub source: &'static str,
    pub stage: ShaderStage,
}

/// Vertex shader that passes position and color through.
pub const TEST_VERTEX_SHADER: &'static str = "
                    #version 460

                    layout(location = 0) in vec2 position;
                    layout(location = 1) in vec3 color;

                    layout(location = 0) out vec3 fragColor;

                    void main() {
                        gl_Position = vec4(position, 0.0, 1.0);
                        fragColor = color;
                    }
                ";

/// Fragment shader that outputs the interpolated vertex color.
pub const TEST_FRAGMENT_SHADER: &'static str = "
                    #version 460

                    layout(location = 0) in vec3 fragColor;
                    layout(location = 0) out vec4 outColor;

                    void main() {
                        outColor = vec4(fragColor, 1.0);
                    }
                ";

/// Second vertex shader, the same as the first one.
pub const TEST_VERTEX_SHADER_2: &'static str = "
                    #version 460

                    layout(location = 0) in vec2 position;
                    layout(location = 1) in vec3 color;

                    layout(location = 0) out vec3 fragColor;

                    void main() {
                        gl_Position = vec4(position, 0.0, 1.0);
                        fragColor = color;
                    }
                ";

/// Second fragment shader: everything red.
pub const TEST_FRAGMENT_SHADER_2: &'static str = "
                    #version 460

                    layout(location = 0) in vec3 fragColor;
                    layout(location = 0) out vec4 outColor;

                    void main() {
                        outColor = vec4(1.0, 0.0, 0.0, 1.0);
                    }
                ";

/// The shader that answers a request for the asset called `name`, if any.
pub open spec fn spec_asset_job(name: Seq<char>) -> Option<ShaderJob> {
    if name == "test_vs"@ {
        Some(ShaderJob { source: TEST_VERTEX_SHADER, stage: ShaderStage::Vertex })
    } else if name == "test_fs"@ {
        Some(ShaderJob { source: TEST_FRAGMENT_SHADER, stage: ShaderStage::Fragment })
    } else if name == "test_vs2"@ {
        Some(ShaderJob { source: TEST_VERTEX_SHADER_2, stage: ShaderStage::Vertex })
    } else if name == "test_fs2"@ {
        Some(ShaderJob { source: TEST_FRAGMENT_SHADER_2, stage: ShaderStage::Fragment })
    } else {
        None
    }
}

/// Which shader, if any, the asset thread compiles for a request of the
/// asset called `name`; every other name is answered with `Asset::Unavailable`.
pub fn plan_asset(name: &String) -> (job: Option<ShaderJob>)
    ensures
        job == spec_asset_job(name@),
{
    if *name == String::from_str("test_vs") {
        Some(ShaderJob { source: TEST_VERTEX_SHADER, stage: ShaderStage::Vertex })
    } else if *name == String::from_str("test_fs") {
        Some(ShaderJob { source: TEST_FRAGMENT_SHADER, stage: ShaderStage::Fragment })
    } else if *name == String::from_str("test_vs2") {
        Some(ShaderJob { source: TEST_VERTEX_SHADER_2, stage: ShaderStage::Vertex })
    } else if *name == String::from_str("test_fs2") {
        Some(ShaderJob { source: TEST_FRAGMENT_SHADER_2, stage: ShaderStage::Fragment })
    } else {
        None
    }
}

/// The answer to a request whose shader compiled to `spirv`, or failed to
/// compile (`None`).
pub fn asset_from_compilation(spirv: Option<Vec<u32>>) -> (asset: Asset)
    ensures
        match spirv {
            Some(words) => asset matches Asset::Shader(w) && w@ == words@,
            None => asset is Unavailable,
        },
{
    match spirv {
        Some(words) => Asset::Shader(words),
        None => Asset::Unavailable,
    }
}

impl Asset {
    /// The SPIR-V words of a shader asset; `None` for any other asset.
    pub fn into_shader_code(self) -> (code: Option<Vec<u32>>)
        ensures
            match self {
                Asset::Shader(words) => code matches Some(c) && c@ == words@,
                Asset::Unavailable => code is None,
            },
    {
        match self {
            Asset::Shader(words) => Some(words),
            Asset::Unavailable => None,
        }
    }
}

} // verus!
