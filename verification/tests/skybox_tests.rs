use pbr_demo::device::{Command, Device, MatrixRef, TexTarget, UniformName};
use pbr_demo::model::{ModelCache, X_SEGMENTS, Y_SEGMENTS};
use pbr_demo::shader::Pipeline;
use pbr_demo::skybox::{
    get_capture_views, Skybox, SkyboxPrograms, IRRADIANCE_RESOLUTION, MAX_MIP_LEVELS,
    PREFILTER_RESOLUTION, SKYBOX_RESOLUTION,
};
use pbr_demo::texture::{load_hdr_texture, Texture, TextureCache};

fn sphere_scalars() -> Vec<u32> {
    let pi = std::f32::consts::PI;
    let mut scalars: Vec<u32> = Vec::new();
    for y in 0..=Y_SEGMENTS {
        for x in 0..=X_SEGMENTS {
            let xs = x as f32 / X_SEGMENTS as f32;
            let ys = y as f32 / Y_SEGMENTS as f32;
            scalars.push(((xs * 2.0 * pi).cos() * (ys * pi).sin()).to_bits());
            scalars.push((ys * pi).cos().to_bits());
            scalars.push(((xs * 2.0 * pi).sin() * (ys * pi).sin()).to_bits());
        }
    }
    scalars
}

/// A 2x1 solid-gray Radiance HDR file: header plus two flat RGBE texels.
fn gray_hdr_bytes() -> Vec<u8> {
    let mut bytes = Vec::new();
    bytes.extend_from_slice(b"#?RADIANCE\n");
    bytes.extend_from_slice(b"FORMAT=32-bit_rle_rgbe\n");
    bytes.extend_from_slice(b"\n");
    bytes.extend_from_slice(b"-Y 1 +X 2\n");
    // 0.5 linear gray: mantissa 128 with exponent bias 128
    bytes.extend_from_slice(&[128, 128, 128, 128]);
    bytes.extend_from_slice(&[128, 128, 128, 128]);
    bytes
}

fn attaches_to(dev: &Device, tex: u32) -> Vec<usize> {
    let mut out = Vec::new();
    for (i, c) in dev.commands.iter().enumerate() {
        if let Command::FramebufferTexture2D { texture, .. } = c {
            if *texture == tex {
                out.push(i);
            }
        }
    }
    out
}

fn build_skybox() -> (Device, Skybox) {
    let mut dev = Device::new();
    let mut cache = ModelCache::new(sphere_scalars());
    let hdr = load_hdr_texture(&gray_hdr_bytes()).unwrap();
    assert_eq!(hdr.width, 2);
    assert_eq!(hdr.height, 1);
    assert_eq!(hdr.pixels, vec![128, 128, 128, 128, 128, 128, 128, 128]);
    let programs = SkyboxPrograms {
        equirect_to_cube: Pipeline::from_program(101),
        irradiance: Pipeline::from_program(102),
        prefilter: Pipeline::from_program(103),
        brdf: Pipeline::from_program(104),
    };
    let skybox = Skybox::new(&mut dev, &hdr, &programs, &mut cache);
    (dev, skybox)
}

#[test]
fn skybox_produces_four_valid_textures() {
    let (_, s) = build_skybox();
    assert!(s.skybox.id >= 1);
    assert!(s.skybox.id < s.irradiance.id);
    assert!(s.irradiance.id < s.prefilter.id);
    assert!(s.prefilter.id < s.brdf.id);
    assert_eq!(s.skybox._type, pbr_demo::texture::Type::TexCUBE);
    assert_eq!(s.skybox.width, SKYBOX_RESOLUTION);
    assert_eq!(s.irradiance.width, IRRADIANCE_RESOLUTION);
    assert_eq!(s.irradiance.height, 32);
    assert_eq!(s.prefilter.width, PREFILTER_RESOLUTION);
    assert_eq!(s.prefilter.height, 128);
    assert_eq!(s.brdf._type, pbr_demo::texture::Type::Tex2D);
    assert_eq!(s.brdf.width, SKYBOX_RESOLUTION);
}

#[test]
fn environment_faces_are_written_once_and_first() {
    let (dev, s) = build_skybox();
    let sky_writes = attaches_to(&dev, s.skybox.id);
    let irr_writes = attaches_to(&dev, s.irradiance.id);
    let pref_writes = attaches_to(&dev, s.prefilter.id);
    assert_eq!(sky_writes.len(), 6);
    assert_eq!(irr_writes.len(), 6);
    assert_eq!(pref_writes.len(), 5 * 6);
    assert!(sky_writes.iter().max().unwrap() < irr_writes.iter().min().unwrap());
    assert!(sky_writes.iter().max().unwrap() < pref_writes.iter().min().unwrap());
}

#[test]
fn environment_is_mipmapped_after_its_faces_and_before_convolution() {
    let (dev, s) = build_skybox();
    let mip_at = dev
        .commands
        .iter()
        .position(|c| matches!(c, Command::GenerateMipmap { handle, .. } if *handle == s.skybox.id))
        .unwrap();
    let sky_writes = attaches_to(&dev, s.skybox.id);
    let irr_writes = attaches_to(&dev, s.irradiance.id);
    assert!(*sky_writes.iter().max().unwrap() < mip_at);
    assert!(mip_at < *irr_writes.iter().min().unwrap());
}

#[test]
fn brdf_pass_never_reads_the_environment() {
    let (dev, s) = build_skybox();
    let brdf_attach = attaches_to(&dev, s.brdf.id);
    assert_eq!(brdf_attach.len(), 1);
    let first_brdf = brdf_attach[0];
    for (i, c) in dev.commands.iter().enumerate() {
        let touches_env = match c {
            Command::BindTexture { handle, .. } => *handle == s.skybox.id,
            Command::GenerateMipmap { handle, .. } => *handle == s.skybox.id,
            Command::FramebufferTexture2D { texture, .. } => *texture == s.skybox.id,
            _ => false,
        };
        if touches_env {
            assert!(i < first_brdf);
        }
    }
}

#[test]
fn prefilter_roughness_steps_by_quarters() {
    let (dev, _) = build_skybox();
    let mut seen: Vec<(u32, u32)> = Vec::new();
    for c in dev.commands.iter() {
        if let Command::SetUniformRatio { name, numer, denom } = c {
            assert_eq!(*name, UniformName::Roughness);
            seen.push((*numer, *denom));
        }
    }
    assert_eq!(seen, vec![(0, 4), (1, 4), (2, 4), (3, 4), (4, 4)]);
    let values: Vec<f32> = seen.iter().map(|&(n, d)| n as f32 / d as f32).collect();
    assert_eq!(values, vec![0.0, 0.25, 0.5, 0.75, 1.0]);
    assert_eq!(seen.len(), MAX_MIP_LEVELS as usize);
}

#[test]
fn prefilter_viewports_halve_per_mip() {
    let (dev, _) = build_skybox();
    let mut sizes: Vec<u32> = Vec::new();
    for c in dev.commands.iter() {
        if let Command::Viewport { width, height } = c {
            if width == height && *width <= 128 && *width >= 8 {
                sizes.push(*width);
            }
        }
    }
    assert_eq!(sizes, vec![32, 128, 64, 32, 16, 8]);
}

#[test]
fn capture_views_cover_all_six_directions() {
    let views = get_capture_views();
    assert_eq!(views.len(), 6);
    assert_eq!((views[0].center_x, views[0].center_y, views[0].center_z), (1, 0, 0));
    assert_eq!((views[0].up_x, views[0].up_y, views[0].up_z), (0, -1, 0));
    assert_eq!((views[3].center_x, views[3].center_y, views[3].center_z), (0, -1, 0));
    assert_eq!((views[3].up_x, views[3].up_y, views[3].up_z), (0, 0, -1));
}

#[test]
fn hdr_decode_rejects_garbage() {
    let r = load_hdr_texture(&vec![1, 2, 3, 4]);
    assert!(r.is_err());
}

#[test]
fn vertical_flip_reverses_rows() {
    let flipped = pbr_demo::texture::vertical_flip(&vec![1, 2, 3, 4], 2, 2, 1);
    assert_eq!(flipped, vec![3, 4, 1, 2]);
}

#[test]
fn texture_cache_has_four_distinct_solid_textures() {
    let mut dev = Device::new();
    let cache = TextureCache::new(&mut dev);
    let ids = [
        cache.blue_texture.id,
        cache.white_texture.id,
        cache.gray_texture.id,
        cache.black_texture.id,
    ];
    for &id in ids.iter() {
        assert_ne!(id, 0);
    }
    for a in 0..4 {
        for b in (a + 1)..4 {
            assert_ne!(ids[a], ids[b]);
        }
    }
    let mut pixel_uploads: Vec<Vec<u8>> = Vec::new();
    for c in dev.commands.iter() {
        if let Command::TexImage2D { pixels: Some(p), width, height, .. } = c {
            assert_eq!((*width, *height), (1, 1));
            pixel_uploads.push(p.clone());
        }
    }
    assert_eq!(pixel_uploads.len(), 4);
    assert_eq!(pixel_uploads[0], vec![0x80, 0x80, 0xFF, 0xFF]);
    assert_eq!(pixel_uploads[1], vec![0xFF, 0xFF, 0xFF, 0xFF]);
    assert_eq!(pixel_uploads[2], vec![0x80, 0x80, 0x80, 0xFF]);
    assert_eq!(pixel_uploads[3], vec![0x00, 0x00, 0x00, 0xFF]);
}

#[test]
fn texture_new_uploads_the_given_pixels() {
    let mut dev = Device::new();
    let t = Texture::new(
        &mut dev,
        &vec![9, 8, 7],
        pbr_demo::texture::TextureDesc::default(),
        1,
        1,
        pbr_demo::stream::Format::new(
            pbr_demo::stream::Dimension::VEC3,
            pbr_demo::stream::Type::UINT8,
            pbr_demo::stream::Usage::RGB,
        ),
        pbr_demo::texture::Type::Tex2D,
    );
    assert_eq!(t.id, 1);
    assert!(matches!(dev.commands[0], Command::GenTexture { handle: 1 }));
    assert!(
        matches!(&dev.commands[7], Command::TexImage2D { pixels: Some(p), target: TexTarget::Flat2D, .. } if p == &vec![9, 8, 7])
    );
}

#[test]
fn pipeline_emits_uniform_commands() {
    let mut dev = Device::new();
    let p = Pipeline::from_program(42);
    p.use_program(&mut dev);
    p.set_uniform_1i(&mut dev, UniformName::HdrTexture, 0);
    p.set_uniform_matrix(&mut dev, UniformName::Projection, MatrixRef::CaptureProjection);
    assert!(matches!(dev.commands[0], Command::UseProgram { program: 42 }));
    assert!(
        matches!(dev.commands[1], Command::SetUniformInt { name: UniformName::HdrTexture, value: 0 })
    );
    assert!(
        matches!(
            dev.commands[2],
            Command::SetUniformMatrix {
                name: UniformName::Projection,
                matrix: MatrixRef::CaptureProjection,
            }
        )
    );
}

#[test]
fn hdr_decode_rejects_unbounded_run_marker_chain() {
    // a crafted file whose payload opens a scanline with a plain texel and
    // then chains eight old-style run-length markers; the decoder cannot
    // process such a run, so the loader must reject it up front
    let mut bytes = Vec::new();
    bytes.extend_from_slice(b"#?RADIANCE\n");
    bytes.extend_from_slice(b"\n");
    bytes.extend_from_slice(b"-Y 2 +X 2\n");
    bytes.extend_from_slice(&[3, 3, 3, 3]);
    for _ in 0..8 {
        bytes.extend_from_slice(&[1, 1, 1, 0]);
    }
    let r = load_hdr_texture(&bytes);
    assert!(r.is_err());
}

#[test]
fn texture_release_deletes_once() {
    let mut dev = Device::new();
    let t = Texture::new(
        &mut dev,
        &vec![1, 2, 3],
        pbr_demo::texture::TextureDesc::default(),
        1,
        1,
        pbr_demo::stream::Format::new(
            pbr_demo::stream::Dimension::VEC3,
            pbr_demo::stream::Type::UINT8,
            pbr_demo::stream::Usage::RGB,
        ),
        pbr_demo::texture::Type::Tex2D,
    );
    let id = t.id;
    t.release(&mut dev);
    let deletes: Vec<u32> = dev
        .commands
        .iter()
        .filter_map(|c| match c {
            Command::DeleteTexture { handle } => Some(*handle),
            _ => None,
        })
        .collect();
    assert_eq!(deletes, vec![id]);
}

#[test]
fn skybox_release_deletes_all_four_textures_once() {
    let (mut dev, s) = build_skybox();
    let ids = [s.skybox.id, s.irradiance.id, s.prefilter.id, s.brdf.id];
    s.release(&mut dev);
    let deletes: Vec<u32> = dev
        .commands
        .iter()
        .filter_map(|c| match c {
            Command::DeleteTexture { handle } => Some(*handle),
            _ => None,
        })
        .collect();
    assert_eq!(deletes, ids.to_vec());
}

#[test]
fn pipeline_release_deletes_the_program() {
    let mut dev = Device::new();
    let p = Pipeline::from_program(7);
    p.release(&mut dev);
    assert!(matches!(dev.commands[0], Command::DeleteProgram { program: 7 }));
}

#[test]
fn brdf_lut_is_two_channel() {
    let (_, s) = build_skybox();
    assert_eq!(s.brdf.format.dimension, pbr_demo::stream::Dimension::VEC2);
    assert_eq!(s.brdf.format.usage, pbr_demo::stream::Usage::RG);
}
