use blub::background::{
    config_filename, next_step, Background, BackgroundAction, BackgroundConfig, BackgroundOutcome,
    BackgroundStep, Vector3Bits,
};
use blub::cubemap_loader::{
    cube_face_resolution_from_raw_cache_len, decode_hdr_face_rgba, face_resolution, from_cache,
    from_hdr_faces, gamma_map, get_cache_filename, linear_rgb_to_gamma_rgba8, load,
    try_decode_hdr_face_rgba, CacheProblem, CacheRead, CollectStep, FaceAction, FaceError, FaceFit,
    HdrFaces, InvalidCacheSize, LoadFaceError, LoadStep,
};
use blub::gpu::{ColorTarget, CompareFunction, TextureFormat};
use blub::hdr::contains_overflowing_run;

fn gamma(bits: u32) -> u8 {
    let x = f32::from_bits(bits).max(0.0).powf(1.0 / 2.2).min(1.0);
    (x * 255.0).round() as u8
}

fn hdr_file(width: u32, height: u32, texels: &[[u8; 4]]) -> Vec<u8> {
    let mut file = format!("#?RADIANCE\nFORMAT=32-bit_rle_rgbe\n\n-Y {} +X {}\n", height, width)
        .into_bytes();
    for texel in texels {
        file.extend_from_slice(texel);
    }
    file
}

// One, a half and nothing: mantissas over a common exponent.
const BRIGHT: [u8; 4] = [128, 64, 0, 129];

#[test]
fn cache_sizes() {
    assert_eq!(cube_face_resolution_from_raw_cache_len(0), None);
    assert_eq!(cube_face_resolution_from_raw_cache_len(23), None);
    assert_eq!(cube_face_resolution_from_raw_cache_len(24), Some(1));
    assert_eq!(cube_face_resolution_from_raw_cache_len(48), None);
    assert_eq!(cube_face_resolution_from_raw_cache_len(96), Some(2));
    assert_eq!(cube_face_resolution_from_raw_cache_len(24 * 1024 * 1024), Some(1024));
    assert_eq!(cube_face_resolution_from_raw_cache_len(24 * 1024 * 1024 + 24), None);
    let large: usize = 876_706_528;
    assert_eq!(
        cube_face_resolution_from_raw_cache_len(24 * large * large),
        Some(876_706_528)
    );
}

#[test]
fn caches_of_fewer_faces_are_rejected() {
    for resolution in 1..200usize {
        for faces in 0..6usize {
            let bytes = faces * 4 * resolution * resolution;
            assert_eq!(cube_face_resolution_from_raw_cache_len(bytes), None);
        }
    }
}

#[test]
fn cache_lies_beside_the_faces() {
    assert_eq!(get_cache_filename("backgrounds/sky"), "backgrounds/sky/.raw_rgba8_cubemap.cache");
    assert_eq!(get_cache_filename("sky/"), "sky/.raw_rgba8_cubemap.cache");
    assert_eq!(get_cache_filename(""), ".raw_rgba8_cubemap.cache");
}

#[test]
fn texels_are_opaque() {
    let one = 1.0f32.to_bits();
    let half = 0.5f32.to_bits();
    assert_eq!(linear_rgb_to_gamma_rgba8(one, half, 0, &gamma), [255, 186, 0, 255]);
    let negative = (-1.0f32).to_bits();
    let bright = 7.0f32.to_bits();
    assert_eq!(linear_rgb_to_gamma_rgba8(negative, bright, one, &gamma), [0, 255, 255, 255]);
    assert_eq!(gamma_map(&vec![one, one, 0, half], gamma), vec![255, 255, 0, 255]);
}

#[test]
fn a_face_is_decoded() {
    let file = hdr_file(1, 1, &[BRIGHT]);
    assert_eq!(decode_hdr_face_rgba(&file, gamma).unwrap(), vec![255, 186, 0, 255]);
    let file = hdr_file(2, 2, &[BRIGHT, [0, 0, 0, 0], [0, 128, 0, 129], BRIGHT]);
    assert_eq!(
        try_decode_hdr_face_rgba(&file, gamma).unwrap(),
        vec![255, 186, 0, 255, 0, 0, 0, 255, 0, 255, 0, 255, 255, 186, 0, 255]
    );
}

#[test]
fn the_linear_channels_reach_the_channel_function() {
    let file = hdr_file(1, 1, &[[128, 64, 32, 129]]);
    let seen = decode_hdr_face_rgba(&file, |bits| (f32::from_bits(bits) * 100.0) as u8).unwrap();
    assert_eq!(seen, vec![100, 50, 25, 255]);
}

#[test]
fn damaged_faces_are_refused() {
    let no_image = b"no image".to_vec();
    assert!(matches!(
        try_decode_hdr_face_rgba(&no_image, gamma),
        Err(FaceError::Undecodable(_))
    ));
    assert!(decode_hdr_face_rgba(&no_image, gamma).is_err());
    let cut_short = hdr_file(2, 2, &[BRIGHT]);
    assert!(matches!(
        try_decode_hdr_face_rgba(&cut_short, gamma),
        Err(FaceError::Undecodable(_))
    ));
    let oblong = hdr_file(2, 1, &[BRIGHT, BRIGHT]);
    assert!(matches!(try_decode_hdr_face_rgba(&oblong, gamma), Err(FaceError::NotSquare)));
    let huge = hdr_file(2_000_000_000, 2_000_000_000, &[]);
    assert!(matches!(try_decode_hdr_face_rgba(&huge, gamma), Err(FaceError::TooLarge)));
}

#[test]
fn endless_run_markers_are_refused() {
    let mut texels = vec![BRIGHT];
    for _ in 0..8 {
        texels.push([1, 1, 1, 0]);
    }
    let file = hdr_file(3, 3, &texels);
    assert!(contains_overflowing_run(&file, 3, 3));
    assert!(matches!(
        try_decode_hdr_face_rgba(&file, gamma),
        Err(FaceError::OverflowingRun)
    ));
    assert!(!contains_overflowing_run(&file, 1, 1));
    assert!(!contains_overflowing_run(&file, 3, 0));
    assert!(!contains_overflowing_run(&file, 0, 3));
    assert!(!contains_overflowing_run(&hdr_file(1, 1, &[BRIGHT]), 1, 1));
    assert!(!contains_overflowing_run(&[], 1024, 1024));

    // A chain whose run leaves the row never gets that long.
    texels[5] = [1, 1, 1, 1];
    let beyond_the_row = hdr_file(3, 3, &texels);
    assert!(!contains_overflowing_run(&beyond_the_row, 3, 3));
    assert!(matches!(
        try_decode_hdr_face_rgba(&beyond_the_row, gamma),
        Err(FaceError::Undecodable(_))
    ));
}

const EMPTY_MARKER: [u8; 4] = [1, 1, 1, 0];

#[test]
fn endless_markers_in_a_later_row_are_refused() {
    let mut texels = vec![BRIGHT, BRIGHT, BRIGHT, BRIGHT];
    texels.extend([EMPTY_MARKER; 8]);
    let file = hdr_file(3, 3, &texels);
    assert!(matches!(
        HdrFaces::new().load_face(&file, gamma),
        Err(LoadFaceError::NotDecoded(FaceError::OverflowingRun))
    ));
}

#[test]
fn a_texel_ends_a_chain_of_markers() {
    let mut texels = Vec::new();
    for _ in 0..3 {
        texels.push(BRIGHT);
        texels.extend([EMPTY_MARKER; 7]);
        texels.push(BRIGHT);
        texels.extend([EMPTY_MARKER; 7]);
        texels.push(BRIGHT);
    }
    let file = hdr_file(3, 3, &texels);
    assert_eq!(
        try_decode_hdr_face_rgba(&file, gamma).unwrap(),
        [255u8, 186, 0, 255].repeat(9)
    );
}

#[test]
fn markers_in_a_comment_are_no_run() {
    let mut file = b"#?RADIANCE\n#".to_vec();
    file.extend_from_slice(&EMPTY_MARKER.repeat(8));
    file.extend_from_slice(b"\nFORMAT=32-bit_rle_rgbe\n\n-Y 2 +X 2\n");
    file.extend_from_slice(&BRIGHT.repeat(4));
    assert!(!contains_overflowing_run(&file, 2, 2));
    assert_eq!(
        decode_hdr_face_rgba(&file, gamma).unwrap(),
        [255u8, 186, 0, 255].repeat(4)
    );
}

#[test]
fn markers_in_a_component_are_no_run() {
    let mut file = hdr_file(32, 32, &[]);
    for _ in 0..32 {
        file.extend_from_slice(&[2, 2, 0, 32]);
        // Red as it is, then green, blue and the exponent as runs.
        file.push(32);
        file.extend_from_slice(&EMPTY_MARKER.repeat(8));
        file.extend_from_slice(&[128 + 32, 5, 128 + 32, 9, 128 + 32, 136]);
    }
    assert!(!contains_overflowing_run(&file, 32, 32));
    let rgba = try_decode_hdr_face_rgba(&file, |bits| f32::from_bits(bits) as u8).unwrap();
    let texels = [1u8, 5, 9, 255, 1, 5, 9, 255, 1, 5, 9, 255, 0, 5, 9, 255];
    assert_eq!(rgba, texels.repeat(8 * 32));
}

#[test]
fn markers_behind_the_last_texel_are_no_run() {
    let mut file = hdr_file(2, 2, &[[128, 0, 0, 129]; 4]);
    file.extend_from_slice(&EMPTY_MARKER.repeat(8));
    assert!(!contains_overflowing_run(&file, 2, 2));
    let face = HdrFaces::new().load_face(&file, gamma).unwrap();
    assert_eq!(face.rgba, [255u8, 0, 0, 255].repeat(4));
}

#[test]
fn runs_are_decoded() {
    let file = hdr_file(2, 2, &[BRIGHT, [1, 1, 1, 1], BRIGHT, [1, 1, 1, 1]]);
    assert_eq!(
        try_decode_hdr_face_rgba(&file, gamma).unwrap(),
        [255u8, 186, 0, 255].repeat(4)
    );
}

#[test]
fn face_sizes() {
    assert_eq!(face_resolution(0), Some(0));
    assert_eq!(face_resolution(4), Some(1));
    assert_eq!(face_resolution(5), None);
    assert_eq!(face_resolution(8), None);
    assert_eq!(face_resolution(16), Some(2));
}

#[test]
fn six_faces_make_a_cache() {
    let names = ["px.hdr", "nx.hdr", "py.hdr", "ny.hdr", "pz.hdr", "nz.hdr"];
    let mut faces = HdrFaces::new();
    let mut cache: Vec<u8> = Vec::new();
    for (layer, name) in names.iter().enumerate() {
        assert_eq!(faces.next_file(), Some(*name));
        let texel = [layer as u8 + 1, 0, 0, 136];
        let file = hdr_file(2, 2, &[texel, BRIGHT, BRIGHT, BRIGHT]);
        let face = faces.load_face(&file, |bits| f32::from_bits(bits) as u8).unwrap();
        assert_eq!(face.upload.texture.is_some(), layer == 0);
        assert_eq!(face.upload.write.first_layer, layer as u32);
        assert_eq!(face.upload.write.bytes_per_row, 8);
        assert_eq!(face.upload.write.rows_per_layer, 2);
        assert_eq!(face.upload.write.extent.depth_or_array_layers, 1);
        assert_eq!(face.rgba[0], layer as u8 + 1);
        cache.extend_from_slice(&face.rgba);
        assert_eq!(from_cache(&cache).is_ok(), layer == 5);
    }
    assert_eq!(faces.next_file(), None);

    let upload = from_cache(&cache).unwrap();
    assert_eq!(upload.texture.size.width, 2);
    assert_eq!(upload.texture.size.depth_or_array_layers, 6);
    assert_eq!(upload.texture.format, TextureFormat::Rgba8Unorm);
    assert_eq!(upload.texture.label, "Cubemap");
    assert!(upload.texture.usage.texture_binding && upload.texture.usage.copy_dst);
    assert_eq!(upload.write.first_layer, 0);
    assert_eq!(upload.write.extent.depth_or_array_layers, 6);
    for layer in 0..6usize {
        let start = layer * (upload.write.rows_per_layer * upload.write.bytes_per_row) as usize;
        assert_eq!(cache[start], layer as u8 + 1);
    }
}

#[test]
fn collecting_writes_the_cache_before_the_layers() {
    assert!(matches!(from_hdr_faces(None), CollectStep::CreateCache));
    let mut faces = HdrFaces::new();
    let mut cache: Vec<u8> = Vec::new();
    let mut layers: Vec<u32> = Vec::new();
    let mut textures = 0;
    while let CollectStep::LoadFace(_) = from_hdr_faces(Some(&faces)) {
        let file = hdr_file(1, 1, &[[layers.len() as u8, 0, 0, 136]]);
        let face = faces.load_face(&file, |bits| f32::from_bits(bits) as u8).unwrap();
        for action in face.actions() {
            match action {
                FaceAction::CreateTexture(_) => textures += 1,
                FaceAction::AppendToCache(bytes) => {
                    assert_eq!(cache.len(), 4 * layers.len());
                    cache.extend_from_slice(bytes);
                }
                FaceAction::WriteLayer { texels, write } => {
                    assert_eq!(cache.len(), 4 * (layers.len() + 1));
                    assert_eq!(texels, &face.rgba);
                    layers.push(write.first_layer);
                }
            }
        }
    }
    assert!(matches!(from_hdr_faces(Some(&faces)), CollectStep::Complete));
    assert_eq!(textures, 1);
    assert_eq!(layers, vec![0, 1, 2, 3, 4, 5]);
    for layer in 0..6usize {
        assert_eq!(cache[4 * layer..4 * layer + 4], [layer as u8, 0, 0, 255]);
    }
}

#[test]
fn faces_have_one_resolution() {
    let mut faces = HdrFaces::new();
    assert_eq!(faces.fit(&vec![0; 5]), FaceFit::SizeMismatch);
    assert_eq!(faces.fit(&vec![0; 16]), FaceFit::Fits);
    assert!(faces.add_face(&vec![0; 5]).is_err());
    assert!(faces.add_face(&vec![0; 16]).is_ok());
    assert_eq!(faces.fit(&vec![0; 4]), FaceFit::OtherResolution);
    let small = hdr_file(1, 1, &[BRIGHT]);
    assert!(matches!(
        faces.load_face(&small, gamma),
        Err(LoadFaceError::OtherResolution)
    ));
    assert!(matches!(
        faces.load_face(b"no image", gamma),
        Err(LoadFaceError::NotDecoded(FaceError::Undecodable(_)))
    ));
    assert_eq!(faces.next_file(), Some("nx.hdr"));
}

#[test]
fn the_cache_comes_first() {
    assert!(matches!(load(&CacheRead::NotFound), LoadStep::FromHdrFaces(None)));
    assert!(matches!(
        load(&CacheRead::Failed),
        LoadStep::FromHdrFaces(Some(CacheProblem::Unreadable))
    ));
    assert!(matches!(
        load(&CacheRead::Read(vec![0; 25])),
        LoadStep::FromHdrFaces(Some(CacheProblem::InvalidSize(InvalidCacheSize { bytes: 25 })))
    ));
    match load(&CacheRead::Read(vec![0; 96])) {
        LoadStep::FromCache(upload) => assert_eq!(upload.texture.size.width, 2),
        LoadStep::FromHdrFaces(_) => panic!("the cache was not used"),
    }
}

#[test]
fn a_background_loads_in_order() {
    let vector = Vector3Bits { x: 1, y: 2, z: 3 };
    let config = BackgroundConfig {
        dir_light_direction: vector,
        dir_light_radiance: vector,
        indirect_lighting_sh: [vector; 9],
    };
    let mut action = BackgroundAction::ReadConfig;
    let mut names = Vec::new();
    loop {
        let (name, outcome) = match action {
            BackgroundAction::ReadConfig => ("config", BackgroundOutcome::Config(config)),
            BackgroundAction::CreateUniformBuffer(lighting) => {
                assert_eq!(lighting.dir_light_radiance.vector, vector);
                ("light", BackgroundOutcome::Done)
            }
            BackgroundAction::LoadCubemap => ("cubemap", BackgroundOutcome::Done),
            BackgroundAction::CreateBindGroup => ("bindings", BackgroundOutcome::Done),
            BackgroundAction::CreatePipeline(pipeline) => {
                assert_eq!(pipeline.label, "Cubemap Renderer");
                assert_eq!(pipeline.target, ColorTarget::HdrBackbuffer);
                ("pipeline", BackgroundOutcome::Done)
            }
        };
        names.push(name);
        match next_step(action, outcome) {
            BackgroundStep::Perform(next) => action = next,
            BackgroundStep::Ready => break,
            BackgroundStep::Abort => panic!("nothing failed"),
        }
    }
    assert_eq!(names, vec!["config", "light", "cubemap", "bindings", "pipeline"]);
    for failing in [BackgroundAction::ReadConfig, BackgroundAction::LoadCubemap] {
        assert!(matches!(
            next_step(failing, BackgroundOutcome::Failed),
            BackgroundStep::Abort
        ));
    }
}

#[test]
fn a_background_pads_its_light() {
    let vector = |x: f32| Vector3Bits {
        x: x.to_bits(),
        y: (x + 1.0).to_bits(),
        z: (x + 2.0).to_bits(),
    };
    let config = BackgroundConfig {
        dir_light_direction: vector(1.0),
        dir_light_radiance: vector(10.0),
        indirect_lighting_sh: [0, 1, 2, 3, 4, 5, 6, 7, 8].map(|i| vector(i as f32)),
    };
    let background = Background::new(&config);
    assert_eq!(background.lighting.dir_light_direction.vector, vector(1.0));
    assert_eq!(background.lighting.dir_light_radiance.vector, vector(10.0));
    for i in 0..9 {
        let coefficient = background.lighting.indirect_lighting_sh[i];
        assert_eq!(coefficient.vector, vector(i as f32));
        assert_eq!(f32::from_bits(coefficient.padding), 0.0);
    }
    assert_eq!(background.pipeline.vertex_shader, "screentri.vert");
    assert_eq!(background.pipeline.fragment_shader, "background_render.frag");
    assert!(!background.pipeline.depth.write_enabled);
    assert_eq!(background.pipeline.depth.compare, CompareFunction::LessEqual);
    assert_eq!(background.draw().bind_group, 1);
    assert_eq!(config_filename("sky"), "sky/config.json");
}
