//! Rendering errors.
use vstd::prelude::*;
use crate::text::{push_str_chars, string_from_chars};

verus! {

/// What can go wrong while rendering.
#[derive(Debug, Clone, PartialEq, Eq)]
pub enum RenderError {
    GlfwInit(String),
    WindowCreate(String),
    ShaderCompile { name: String, log: String },
    ProgramLink { log: String },
    /// No start-of-image marker (0xFF 0xD8).
    MissingSoi,
    /// No end-of-image marker (0xFF 0xD9).
    MissingEoi,
    JpegDecode(String),
    ImageConvert(String),
    TextureError(String),
    ChannelError(String),
    ThreadJoin,
}

/// The text shown for an error.
pub open spec fn render_error_text(e: RenderError) -> Seq<char> {
    match e {
        RenderError::GlfwInit(m) => "GLFW 初始化失败: "@ + m@,
        RenderError::WindowCreate(m) => "OpenGL 窗口创建失败: "@ + m@,
        RenderError::ShaderCompile { name, log } => "着色器编译失败 ("@ + name@ + "): "@ + log@,
        RenderError::ProgramLink { log } => "着色器程序链接失败: "@ + log@,
        RenderError::MissingSoi => "未找到 JPEG SOI 标记"@,
        RenderError::MissingEoi => "未找到 JPEG EOI 标记"@,
        RenderError::JpegDecode(m) => "JPEG 解码失败: "@ + m@,
        RenderError::ImageConvert(m) => "图片格式转换失败: "@ + m@,
        RenderError::TextureError(m) => "纹理操作失败: "@ + m@,
        RenderError::ChannelError(m) => "渲染通道错误: "@ + m@,
        RenderError::ThreadJoin => "线程 Join 失败"@,
    }
}

impl RenderError {
    /// The message of the error.
    pub fn to_string(&self) -> (r: String)
        ensures
            r@ == render_error_text(*self),
    {
        let mut v: Vec<char> = Vec::new();
        match self {
            RenderError::GlfwInit(m) => {
                push_str_chars(&mut v, "GLFW 初始化失败: ");
                push_str_chars(&mut v, m.as_str());
            },
            RenderError::WindowCreate(m) => {
                push_str_chars(&mut v, "OpenGL 窗口创建失败: ");
                push_str_chars(&mut v, m.as_str());
            },
            RenderError::ShaderCompile { name, log } => {
                push_str_chars(&mut v, "着色器编译失败 (");
                push_str_chars(&mut v, name.as_str());
                push_str_chars(&mut v, "): ");
                push_str_chars(&mut v, log.as_str());
            },
            RenderError::ProgramLink { log } => {
                push_str_chars(&mut v, "着色器程序链接失败: ");
                push_str_chars(&mut v, log.as_str());
            },
            RenderError::MissingSoi => push_str_chars(&mut v, "未找到 JPEG SOI 标记"),
            RenderError::MissingEoi => push_str_chars(&mut v, "未找到 JPEG EOI 标记"),
            RenderError::JpegDecode(m) => {
                push_str_chars(&mut v, "JPEG 解码失败: ");
                push_str_chars(&mut v, m.as_str());
            },
            RenderError::ImageConvert(m) => {
                push_str_chars(&mut v, "图片格式转换失败: ");
                push_str_chars(&mut v, m.as_str());
            },
            RenderError::TextureError(m) => {
                push_str_chars(&mut v, "纹理操作失败: ");
                push_str_chars(&mut v, m.as_str());
            },
            RenderError::ChannelError(m) => {
                push_str_chars(&mut v, "渲染通道错误: ");
                push_str_chars(&mut v, m.as_str());
            },
            RenderError::ThreadJoin => push_str_chars(&mut v, "线程 Join 失败"),
        }
        string_from_chars(v)
    }
}

} // verus!
