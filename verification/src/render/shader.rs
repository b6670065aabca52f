//! The shaders that draw a frame: their sources, and what is made of the
//! outcome of compiling and linking them. The OpenGL calls are outside this
//! library.
use vstd::prelude::*;
use crate::render::error::RenderError;
use crate::text::{push_str_chars, str_chars, string_from_chars};

verus! {

/// The vertex shader: a full-window quad with texture coordinates.
pub const VERTEX_SHADER_SRC: &'static str = "\n#version 330 core\nlayout (location = 0) in vec3 aPos;\nlayout (location = 1) in vec2 aTexCoord;\n\nout vec2 TexCoord;\n\nvoid main() {\n    gl_Position = vec4(aPos, 1.0);\n    TexCoord = aTexCoord;\n}\n";

/// The fragment shader that samples one RGBA texture.
pub const FRAGMENT_SHADER_SRC: &'static str = "\n#version 330 core\nout vec4 FragColor;\n\nin vec2 TexCoord;\n\nuniform sampler2D ourTexture;\n\nvoid main() {\n    FragColor = texture(ourTexture, TexCoord);\n}\n";

/// A fragment shader that converts three YUV planes to RGB.
pub const FRAGMENT_SHADER_YUV_SRC: &'static str = "\n#version 330 core\nout vec4 FragColor;\n\nin vec2 TexCoord;\n\nuniform sampler2D y_tex;\nuniform sampler2D u_tex;\nuniform sampler2D v_tex;\n\nvoid main() {\n    float y = texture(y_tex, TexCoord).r;\n    float u = texture(u_tex, TexCoord).r - 0.5;\n    float v = texture(v_tex, TexCoord).r - 0.5;\n\n    float r = y + 1.402 * v;\n    float g = y - 0.344 * u - 0.714 * v;\n    float b = y + 1.772 * u;\n\n    FragColor = vec4(r, g, b, 1.0);\n}\n";

/// The log given when a shader source holds a NUL character, which a C
/// string cannot carry.
pub open spec fn nul_in_source_log() -> Seq<char> {
    "CString 转换失败（源码包含空字节）"@
}

/// Checks that the source of the shader called `name` can be handed to
/// OpenGL as a C string: it holds no NUL character.
pub fn check_shader_source(source: &str, name: &str) -> (r: Result<(), RenderError>)
    ensures
        r is Ok <==> !source@.contains('\0'),
        r matches Err(e) ==> e matches RenderError::ShaderCompile { name: n, log } && n@ == name@
            && log@ == nul_in_source_log(),
{
    let cs = str_chars(source);
    let mut i: usize = 0;
    while i < cs.len()
        invariant
            i <= cs@.len(),
            cs@ == source@,
            forall|j: int| 0 <= j < i ==> cs@[j] != '\0',
        decreases cs@.len() - i,
    {
        if cs[i] == '\0' {
            let mut log: Vec<char> = Vec::new();
            push_str_chars(&mut log, "CString 转换失败（源码包含空字节）");
            return Err(RenderError::ShaderCompile { name: name.to_owned(), log: string_from_chars(log) });
        }
        i = i + 1;
    }
    Ok(())
}

/// The outcome of compiling the shader called `name`: OpenGL's compile
/// status, and its information log when the status is 0.
pub fn shader_compile_result(name: &str, status: i32, log: String) -> (r: Result<(), RenderError>)
    ensures
        r is Ok <==> status != 0,
        r matches Err(e) ==> e matches RenderError::ShaderCompile { name: n, log: l } && n@ == name@
            && l == log,
{
    if status == 0 {
        return Err(RenderError::ShaderCompile { name: name.to_owned(), log });
    }
    Ok(())
}

/// The outcome of linking a shader program: OpenGL's link status, and its
/// information log when the status is 0.
pub fn program_link_result(status: i32, log: String) -> (r: Result<(), RenderError>)
    ensures
        r is Ok <==> status != 0,
        r matches Err(e) ==> e == (RenderError::ProgramLink { log }),
{
    if status == 0 {
        return Err(RenderError::ProgramLink { log });
    }
    Ok(())
}

} // verus!
