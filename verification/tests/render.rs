use cam_toolkit::render::error::RenderError;
use cam_toolkit::render::mjpeg::{MjpegParser, decode_jpeg_to_rgba, find_jpeg_frame, rgb3_to_rgba};
use cam_toolkit::render::renderer::{latest_frame, RenderLoop, TextureStep};
use cam_toolkit::render::shader::{
    check_shader_source, program_link_result, shader_compile_result, FRAGMENT_SHADER_SRC,
    FRAGMENT_SHADER_YUV_SRC, VERTEX_SHADER_SRC,
};
use cam_toolkit::render::texture::{Texture, TextureUpload};

#[test]
fn parser_hands_out_whole_images() {
    let mut parser = MjpegParser::new();
    parser.feed(&[0x00, 0xFF, 0xD8, 0x01, 0x02]);
    assert_eq!(parser.next_frame(), None);
    assert_eq!(parser.buffered_len(), 5);
    parser.feed(&[0xFF, 0xD9, 0x07, 0xFF, 0xD8, 0xFF, 0xD9]);
    assert_eq!(parser.next_frame(), Some(&[0xFF, 0xD8, 0x01, 0x02, 0xFF, 0xD9][..]));
    assert_eq!(parser.buffered_len(), 5);
    assert_eq!(parser.next_frame(), Some(&[0xFF, 0xD8, 0xFF, 0xD9][..]));
    assert_eq!(parser.buffered_len(), 0);
    assert_eq!(parser.next_frame(), None);
    parser.reset();
    assert_eq!(parser.buffered_len(), 0);
}

#[test]
fn find_jpeg_frame_ranges() {
    assert_eq!(find_jpeg_frame(&[1, 0xFF, 0xD8, 5, 0xFF, 0xD9, 9]), Ok((1, 5)));
    assert_eq!(find_jpeg_frame(&[0xFF, 0xD8, 0xFF, 0xD9]), Ok((0, 4)));
    assert_eq!(find_jpeg_frame(&[1, 2, 3]), Err(RenderError::MissingSoi));
    assert_eq!(find_jpeg_frame(&[0xFF, 0xD8, 0xD9]), Err(RenderError::MissingEoi));
    assert_eq!(find_jpeg_frame(&[0xFF, 0xD8, 0xD9]).unwrap_err().to_string(), "未找到 JPEG EOI 标记");
}

#[test]
fn rgb_to_rgba_adds_opaque_alpha() {
    assert_eq!(rgb3_to_rgba(&[1, 2, 3, 4, 5, 6, 7], 2), vec![1, 2, 3, 255, 4, 5, 6, 255]);
    assert_eq!(rgb3_to_rgba(&[1, 2, 3], 0), Vec::<u8>::new());
}

#[test]
fn decode_jpeg_images() {
    let img = image::DynamicImage::new_rgb8(6, 3);
    let mut jpeg = Vec::new();
    img.write_to(&mut std::io::Cursor::new(&mut jpeg), image::ImageFormat::Jpeg).unwrap();
    let frame = decode_jpeg_to_rgba(&jpeg).unwrap();
    assert_eq!((frame.width, frame.height), (6, 3));
    assert_eq!(frame.rgba.len(), 6 * 3 * 4);
    assert!(frame.rgba.chunks(4).all(|p| p[3] == 255));
    let parser = MjpegParser::default();
    let (rgba, w, h) = parser.decode_to_rgba(&jpeg).unwrap();
    assert_eq!((rgba.len(), w, h), (72, 6, 3));
    match decode_jpeg_to_rgba(b"not a jpeg") {
        Err(RenderError::JpegDecode(_)) => {}
        other => panic!("unexpected {:?}", other.map(|f| f.width)),
    }
}

#[test]
fn texture_pixels_must_fill_the_size() {
    assert!(Texture::check_pixels(&[0u8; 8], 1, 2).is_ok());
    assert_eq!(
        Texture::check_pixels(&[0u8; 7], 1, 2),
        Err(RenderError::TextureError("像素数据长度不匹配：期望 8 字节，实际 7 字节".to_string()))
    );
}

#[test]
fn texture_upload_depends_on_size() {
    let t = Texture::new(3, 4, 4);
    assert_eq!((t.id(), t.width(), t.height()), (3, 4, 4));
    assert_eq!(t.upload_for(4, 4), TextureUpload::SubImage);
    assert_eq!(t.upload_for(8, 4), TextureUpload::Reallocate);
    assert_eq!(t.upload_for(4, 2), TextureUpload::Reallocate);
}

#[test]
fn render_loop_shows_latest_frame() {
    assert_eq!(latest_frame(vec![vec![1u8], vec![2, 3]]), Some(vec![2u8, 3]));
    assert_eq!(latest_frame(Vec::new()), None);

    let mut state = RenderLoop::new();
    assert!(state.idles());
    assert!(!state.binds_texture());
    assert_eq!(state.on_frame_decoded(4, 4), TextureStep::Create);
    assert!(!state.idles());
    assert!(!state.binds_texture());
    state.on_texture_made(None);
    assert_eq!(state.on_frame_decoded(4, 4), TextureStep::Create);
    state.on_texture_made(Some(Texture::new(7, 4, 4)));
    assert!(state.binds_texture());
    assert_eq!(state.on_frame_decoded(4, 4), TextureStep::Upload(TextureUpload::SubImage));
    assert_eq!(state.on_frame_decoded(8, 8), TextureStep::Upload(TextureUpload::Reallocate));
    state.on_texture_made(Some(Texture::new(9, 8, 8)));
    assert_eq!(state.texture().map(|t| t.id()), Some(7));
}

#[test]
fn shader_outcomes() {
    assert!(check_shader_source(VERTEX_SHADER_SRC, "顶点着色器").is_ok());
    assert!(check_shader_source(FRAGMENT_SHADER_SRC, "片段着色器").is_ok());
    assert!(FRAGMENT_SHADER_YUV_SRC.contains("uniform sampler2D y_tex;"));
    assert_eq!(
        check_shader_source("void main() {}\0", "顶点着色器"),
        Err(RenderError::ShaderCompile {
            name: "顶点着色器".to_string(),
            log: "CString 转换失败（源码包含空字节）".to_string(),
        })
    );
    assert_eq!(shader_compile_result("片段着色器", 1, String::new()), Ok(()));
    assert_eq!(
        shader_compile_result("片段着色器", 0, "bad".to_string()),
        Err(RenderError::ShaderCompile { name: "片段着色器".to_string(), log: "bad".to_string() })
    );
    assert_eq!(program_link_result(1, String::new()), Ok(()));
    assert_eq!(
        program_link_result(0, "no main".to_string()),
        Err(RenderError::ProgramLink { log: "no main".to_string() })
    );
}
