//! The cubemap: which bytes become which texel, and which files and sizes are taken.

use crate::cubemap_loader::{
    cube_face_resolution_from_raw_cache_len, decode_hdr_face_rgba, face_resolution, from_cache,
    from_hdr_faces, gamma_map, linear_rgb_to_gamma_rgba8, load, try_decode_hdr_face_rgba,
    CacheProblem, CacheRead, CollectStep, CubemapUpload, FaceAction, FaceError, FaceFit,
    FaceSizeMismatch, FaceUpload, HdrFaces, InvalidCacheSize, LoadFaceError, LoadStep, LoadedFace,
    TextureWrite,
};
use crate::gpu::{TextureDescriptor, TextureFormat};
use crate::hdr::{fits_in_memory, has_overflowing_run, hdr_channels, hdr_dimensions};
use crate::square::lemma_same_square;
use vstd::prelude::*;

verus! {

/// Whether a texture, under its label, has six square layers with this many texels on a side, four
/// bytes each, that can be filled and then sampled, and nothing else.
pub open spec fn has_six_faces(texture: TextureDescriptor, side: int) -> bool {
    &&& texture.label@ == "Cubemap"@
    &&& texture.size.width == side
    &&& texture.size.height == side
    &&& texture.size.depth_or_array_layers == 6
    &&& texture.format == TextureFormat::Rgba8Unorm
    &&& texture.usage.texture_binding
    &&& texture.usage.copy_dst
    &&& !texture.usage.copy_src
    &&& !texture.usage.render_attachment
}

/// Whether a texel is one that a write sets.
pub open spec fn sets_texel(write: TextureWrite, layer: int, y: int, x: int) -> bool {
    &&& write.first_layer <= layer
    &&& layer < write.first_layer + write.extent.depth_or_array_layers
    &&& 0 <= y < write.extent.height
    &&& 0 <= x < write.extent.width
}

/// Where the texel that a write sets starts in the buffer that it is read from.
pub open spec fn starts_at(write: TextureWrite, layer: int, y: int, x: int) -> int {
    write.bytes_per_row * (write.rows_per_layer * (layer - write.first_layer) + y) + 4 * x
}

/// The texels of square layers on end: each lies in the buffer, and they lie one behind another.
proof fn lemma_texel_place(write: TextureWrite, side: int, layer: int, y: int, x: int)
    requires
        write.extent.width == side,
        write.extent.height == side,
        write.bytes_per_row == 4 * side,
        write.rows_per_layer == side,
        sets_texel(write, layer, y, x),
    ensures
        starts_at(write, layer, y, x) == 4 * ((side * side) * (layer - write.first_layer) + side * y
            + x),
        0 <= starts_at(write, layer, y, x),
        starts_at(write, layer, y, x) + 4 <= 4 * (side * side)
            * write.extent.depth_or_array_layers,
{
    let l = layer - write.first_layer;
    let n = write.extent.depth_or_array_layers as int;
    assert((4 * side) * (side * l + y) + 4 * x == 4 * ((side * side) * l + side * y + x))
        by (nonlinear_arith);
    assert(0 <= side * y && side * y + x + 1 <= side * side) by (nonlinear_arith)
        requires
            0 <= y,
            y + 1 <= side,
            0 <= x,
            x + 1 <= side,
    ;
    let s = side * side;
    assert(0 <= s * l && s * l + s <= s * n) by (nonlinear_arith)
        requires
            0 <= l,
            l + 1 <= n,
            0 <= s,
    ;
    assert(4 * s * n == 4 * (s * n)) by (nonlinear_arith);
}

/// A cache that is taken fills the whole texture that it comes with: all texels of all six layers
/// are set, each from four bytes of its own, one behind another, and the bytes are all used up.
pub proof fn law_cache_fills_the_texture(
    data: &Vec<u8>,
    upload: CubemapUpload,
    layer: int,
    y: int,
    x: int,
)
    requires
        call_ensures(from_cache, (data,), Ok::<CubemapUpload, InvalidCacheSize>(upload)),
    ensures
        ({
            let side = upload.texture.size.width;
            &&& side > 0
            &&& has_six_faces(upload.texture, side as int)
            &&& data@.len() == 6 * (4 * (side * side))
            &&& sets_texel(upload.write, layer, y, x) <==> 0 <= layer < 6 && 0 <= y < side && 0 <= x
                < side
            &&& sets_texel(upload.write, layer, y, x) ==> starts_at(upload.write, layer, y, x) == 4
                * ((side * side) * layer + side * y + x) && 0 <= starts_at(
                upload.write,
                layer,
                y,
                x,
            ) <= data@.len() - 4
        }),
{
    if sets_texel(upload.write, layer, y, x) {
        lemma_texel_place(upload.write, upload.texture.size.width as int, layer, y, x);
    }
}

/// A cache is taken exactly if it is six squares of texels, with the resolution of the squares; of
/// one that is not, the size is told.
pub proof fn law_caches_that_are_taken(
    data: &Vec<u8>,
    upload: Result<CubemapUpload, InvalidCacheSize>,
    bytes: usize,
    resolution: Option<u32>,
    side: int,
)
    requires
        call_ensures(from_cache, (data,), upload),
        call_ensures(cube_face_resolution_from_raw_cache_len, (bytes,), resolution),
    ensures
        side > 0 && bytes == side * side * 4 * 6 ==> resolution is Some && resolution->0 == side,
        resolution matches Some(r) ==> r > 0 && bytes == r * r * 4 * 6,
        side > 0 && data@.len() == side * side * 4 * 6 ==> upload is Ok
            && upload->Ok_0.texture.size.width == side,
        upload matches Err(error) ==> error.bytes == data@.len(),
        bytes == data@.len() ==> (upload is Ok <==> resolution is Some),
{
    if side > 0 && bytes == side * side * 4 * 6 {
        assert(crate::cubemap_loader::is_cache_of_resolution(bytes as int, side));
        lemma_same_square(resolution->0 as int, side);
    }
    if side > 0 && data@.len() == side * side * 4 * 6 {
        assert(crate::cubemap_loader::is_cache_of_resolution(data@.len() as int, side));
        lemma_same_square(upload->Ok_0.texture.size.width as int, side);
    }
    if bytes == data@.len() {
        if resolution is Some && upload is Err {
            assert(!crate::cubemap_loader::is_cache_of_resolution(
                data@.len() as int,
                resolution->0 as int,
            ));
        }
        if resolution is None && upload is Ok {
            let arguments = (bytes,);
            assert(!crate::cubemap_loader::is_cache_of_resolution(
                arguments.0 as int,
                upload->Ok_0.texture.size.width as int,
            ));
        }
        if let Some(r) = resolution {
            assert(crate::cubemap_loader::is_cache_of_resolution(data@.len() as int, r as int));
        }
        if let Ok(u) = upload {
            assert(crate::cubemap_loader::is_cache_of_resolution(
                bytes as int,
                u.texture.size.width as int,
            ));
        }
    }
}

/// Bytes make a face exactly if they are a square of texels, and the side is the resolution.
pub proof fn law_face_resolution(bytes: usize, resolution: Option<u32>, side: int)
    requires
        call_ensures(face_resolution, (bytes,), resolution),
    ensures
        side >= 0 && bytes == side * side * 4 ==> resolution is Some && resolution->0 == side,
        resolution matches Some(r) ==> bytes == r * r * 4,
{
    if side >= 0 && bytes == side * side * 4 {
        assert(crate::cubemap_loader::is_face_of_resolution(bytes as int, side));
        if resolution is None {
            let arguments = (bytes,);
            assert(!crate::cubemap_loader::is_face_of_resolution(arguments.0 as int, side));
        }
        assert(crate::cubemap_loader::is_face_of_resolution(bytes as int, resolution->0 as int));
        lemma_same_square(resolution->0 as int, side);
    }
}

/// Whether adding the texels of a face has this outcome.
pub open spec fn adding_gives(
    faces: &mut HdrFaces,
    rgba: &Vec<u8>,
    outcome: Result<FaceUpload, FaceSizeMismatch>,
) -> bool {
    call_ensures(HdrFaces::add_face, (faces, rgba), outcome)
}

/// A face that is added fills one layer, the next, and no other: all texels of the square are set,
/// each from four bytes of its own, one behind another, and the bytes are all used up. The first
/// face, and no other, brings a texture, which has six layers of that resolution.
pub proof fn law_face_fills_its_layer()
    ensures
        forall|faces: &mut HdrFaces, rgba: &Vec<u8>, upload: FaceUpload| #[trigger]
            adding_gives(faces, rgba, Ok(upload)) ==> {
                let side = upload.write.extent.width;
                &&& rgba@.len() == 4 * (side * side)
                &&& upload.write.extent.height == side
                &&& upload.write.extent.depth_or_array_layers == 1
                &&& 0 <= faces.spec_loaded() < 6 ==> upload.write.first_layer == faces.spec_loaded()
                &&& final(faces).spec_loaded() == faces.spec_loaded() + 1
                &&& final(faces).spec_resolution() == Some(side)
                &&& faces.spec_resolution() is None || faces.spec_resolution() == Some(side)
                &&& upload.texture is Some <==> faces.spec_loaded() == 0
                &&& upload.texture matches Some(texture) ==> has_six_faces(texture, side as int)
            },
        forall|
            faces: &mut HdrFaces,
            rgba: &Vec<u8>,
            upload: FaceUpload,
            layer: int,
            y: int,
            x: int,
        |
            #![trigger adding_gives(faces, rgba, Ok(upload)), sets_texel(upload.write, layer, y, x)]
            adding_gives(faces, rgba, Ok(upload)) && 0 <= faces.spec_loaded() < 6 ==> {
                let side = upload.write.extent.width;
                &&& sets_texel(upload.write, layer, y, x) <==> layer == faces.spec_loaded() && 0
                    <= y < side && 0 <= x < side
                &&& sets_texel(upload.write, layer, y, x) ==> starts_at(upload.write, layer, y, x)
                    == 4 * (side * y + x) && 0 <= starts_at(upload.write, layer, y, x)
                    <= rgba@.len() - 4
            },
{
    assert forall|
        faces: &mut HdrFaces,
        rgba: &Vec<u8>,
        upload: FaceUpload,
        layer: int,
        y: int,
        x: int,
    |
        #![trigger adding_gives(faces, rgba, Ok(upload)), sets_texel(upload.write, layer, y, x)]
        adding_gives(faces, rgba, Ok(upload)) && 0 <= faces.spec_loaded() < 6 implies {
        let side = upload.write.extent.width;
        &&& sets_texel(upload.write, layer, y, x) <==> layer == faces.spec_loaded() && 0 <= y < side
            && 0 <= x < side
        &&& sets_texel(upload.write, layer, y, x) ==> starts_at(upload.write, layer, y, x) == 4 * (
        side * y + x) && 0 <= starts_at(upload.write, layer, y, x) <= rgba@.len() - 4
    } by {
        if sets_texel(upload.write, layer, y, x) {
            let side = upload.write.extent.width as int;
            lemma_texel_place(upload.write, side, layer, y, x);
            assert((side * side) * 0 == 0);
        }
    }
}

/// A face is refused exactly if its bytes are no square of texels, and then nothing changes. A
/// face that fits is added.
pub proof fn law_refused_face_changes_nothing()
    ensures
        forall|
            faces: &mut HdrFaces,
            rgba: &Vec<u8>,
            outcome: Result<FaceUpload, FaceSizeMismatch>,
            side: int,
        |
            #![trigger adding_gives(faces, rgba, outcome), side * side]
            adding_gives(faces, rgba, outcome) ==> {
                &&& side >= 0 && rgba@.len() == 4 * (side * side) ==> outcome is Ok
                &&& outcome is Err ==> *final(faces) == *faces
            },
        forall|
            faces: &mut HdrFaces,
            rgba: &Vec<u8>,
            outcome: Result<FaceUpload, FaceSizeMismatch>,
            fit: FaceFit,
        |
            #![trigger adding_gives(faces, rgba, outcome), call_ensures(HdrFaces::fit, (&*faces, rgba), fit)]
            adding_gives(faces, rgba, outcome) && call_ensures(HdrFaces::fit, (&*faces, rgba), fit)
                ==> (outcome is Err <==> fit == FaceFit::SizeMismatch),
{
    assert forall|
        faces: &mut HdrFaces,
        rgba: &Vec<u8>,
        outcome: Result<FaceUpload, FaceSizeMismatch>,
        side: int,
    |
        #![trigger adding_gives(faces, rgba, outcome), side * side]
        adding_gives(faces, rgba, outcome) implies {
        &&& side >= 0 && rgba@.len() == 4 * (side * side) ==> outcome is Ok
        &&& outcome is Err ==> *final(faces) == *faces
    } by {
        if side >= 0 && rgba@.len() == 4 * (side * side) && outcome is Err {
            let arguments = (faces, rgba);
            assert(!crate::cubemap_loader::is_face_of_resolution(arguments.1@.len() as int, side));
        }
        assert(outcome is Err ==> *final(faces) == *faces);
    }
    assert forall|
        faces: &mut HdrFaces,
        rgba: &Vec<u8>,
        outcome: Result<FaceUpload, FaceSizeMismatch>,
        fit: FaceFit,
    |
        #![trigger adding_gives(faces, rgba, outcome), call_ensures(HdrFaces::fit, (&*faces, rgba), fit)]
        adding_gives(faces, rgba, outcome) && call_ensures(
            HdrFaces::fit,
            (&*faces, rgba),
            fit,
        ) implies (outcome is Err <==> fit == FaceFit::SizeMismatch) by {
        if let Ok(upload) = outcome {
            assert(crate::cubemap_loader::is_face_of_resolution(
                rgba@.len() as int,
                upload.write.extent.width as int,
            ));
        }
    }
}

/// How a face fits: it has to be a square, of the resolution of the faces before it, and a row of
/// it may not be longer than 32 bits can count.
pub proof fn law_fit_of_a_face(faces: &HdrFaces, rgba: &Vec<u8>, fit: FaceFit, side: int)
    requires
        call_ensures(HdrFaces::fit, (faces, rgba), fit),
        side >= 0,
        rgba@.len() == side * side * 4,
    ensures
        fit != FaceFit::SizeMismatch,
        fit == FaceFit::OtherResolution <==> faces.spec_resolution() is Some
            && faces.spec_resolution()->0 != side,
        fit == FaceFit::TooWide <==> side * 4 > u32::MAX && fit != FaceFit::OtherResolution,
{
    assert(crate::cubemap_loader::is_face_of_resolution(rgba@.len() as int, side));
    assert forall|r: int|
        crate::cubemap_loader::is_face_of_resolution(rgba@.len() as int, r) implies r == side by {
        lemma_same_square(r, side);
    }
    assert(rgba.len() == side * side * 4);
    assert(side <= 0xffff_ffff) by (nonlinear_arith)
        requires
            side * side * 4 <= 0xffff_ffff_ffff_ffff,
            side >= 0,
    ;
}

/// The place of a file among the six.
pub open spec fn place_of(file: Seq<char>) -> int {
    if file == seq!['p', 'x', '.', 'h', 'd', 'r'] {
        0
    } else if file == seq!['n', 'x', '.', 'h', 'd', 'r'] {
        1
    } else if file == seq!['p', 'y', '.', 'h', 'd', 'r'] {
        2
    } else if file == seq!['n', 'y', '.', 'h', 'd', 'r'] {
        3
    } else if file == seq!['p', 'z', '.', 'h', 'd', 'r'] {
        4
    } else if file == seq!['n', 'z', '.', 'h', 'd', 'r'] {
        5
    } else {
        -1
    }
}

proof fn lemma_places()
    ensures
        place_of("px.hdr"@) == 0,
        place_of("nx.hdr"@) == 1,
        place_of("py.hdr"@) == 2,
        place_of("ny.hdr"@) == 3,
        place_of("pz.hdr"@) == 4,
        place_of("nz.hdr"@) == 5,
{
    reveal_strlit("px.hdr");
    reveal_strlit("nx.hdr");
    reveal_strlit("py.hdr");
    reveal_strlit("ny.hdr");
    reveal_strlit("pz.hdr");
    reveal_strlit("nz.hdr");
    assert("px.hdr"@ =~= seq!['p', 'x', '.', 'h', 'd', 'r']);
    assert("nx.hdr"@ =~= seq!['n', 'x', '.', 'h', 'd', 'r']);
    assert("py.hdr"@ =~= seq!['p', 'y', '.', 'h', 'd', 'r']);
    assert("ny.hdr"@ =~= seq!['n', 'y', '.', 'h', 'd', 'r']);
    assert("pz.hdr"@ =~= seq!['p', 'z', '.', 'h', 'd', 'r']);
    assert("nz.hdr"@ =~= seq!['n', 'z', '.', 'h', 'd', 'r']);
    assert("nx.hdr"@[0] == 'n' && "ny.hdr"@[0] == 'n' && "nz.hdr"@[0] == 'n');
    assert("py.hdr"@[1] == 'y' && "ny.hdr"@[1] == 'y');
    assert("pz.hdr"@[1] == 'z' && "nz.hdr"@[1] == 'z');
    assert(seq!['p', 'x', '.', 'h', 'd', 'r'][1] == 'x' && seq!['p', 'x', '.', 'h', 'd', 'r'][0]
        == 'p');
    assert(seq!['n', 'x', '.', 'h', 'd', 'r'][1] == 'x' && seq!['n', 'x', '.', 'h', 'd', 'r'][0]
        == 'n');
    assert(seq!['p', 'y', '.', 'h', 'd', 'r'][1] == 'y' && seq!['p', 'y', '.', 'h', 'd', 'r'][0]
        == 'p');
    assert(seq!['n', 'y', '.', 'h', 'd', 'r'][1] == 'y' && seq!['n', 'y', '.', 'h', 'd', 'r'][0]
        == 'n');
    assert(seq!['p', 'z', '.', 'h', 'd', 'r'][1] == 'z' && seq!['p', 'z', '.', 'h', 'd', 'r'][0]
        == 'p');
}

/// The next file is the one at the place of the layer that its face becomes: the files of a new
/// collection start at the first place, and none is left behind the sixth.
pub proof fn law_next_file(faces: &HdrFaces, file: Option<&'static str>, new: HdrFaces)
    requires
        call_ensures(HdrFaces::next_file, (faces,), file),
        call_ensures(HdrFaces::new, (), new),
        faces.spec_loaded() >= 0,
    ensures
        new.spec_loaded() == 0,
        new.spec_resolution() is None,
        file is None <==> faces.spec_loaded() == 6,
        file matches Some(name) ==> place_of(name@) == faces.spec_loaded(),
{
    lemma_places();
}

/// The faces are collected into a cache file that is created first, and until all six are there;
/// the file that is loaded is the next one.
pub proof fn law_collecting(
    faces: Option<&HdrFaces>,
    step: CollectStep,
    file: Option<&'static str>,
)
    requires
        call_ensures(from_hdr_faces, (faces,), step),
        faces matches Some(f) ==> f.spec_loaded() >= 0 && call_ensures(
            HdrFaces::next_file,
            (f,),
            file,
        ),
    ensures
        step is CreateCache <==> faces is None,
        step is Complete <==> faces is Some && file is None,
        step matches CollectStep::LoadFace(name) ==> file is Some && name@ == (file->0)@
            && place_of(name@) == faces->0.spec_loaded(),
{
    lemma_places();
}

/// What is done with a face: its texture is created first where it brings one, then all of its
/// texels go to the cache, and last the same texels to the layer, by the write of the face.
pub proof fn law_actions_of_a_face<'a>(face: &'a LoadedFace, actions: Vec<FaceAction<'a>>)
    requires
        call_ensures(LoadedFace::actions, (face,), actions),
    ensures
        ({
            let n = actions@.len() as int;
            &&& n == if face.upload.texture is Some {
                3int
            } else {
                2int
            }
            &&& face.upload.texture matches Some(texture) ==> actions@[0]
                == FaceAction::CreateTexture(texture)
            &&& actions@[n - 2] matches FaceAction::AppendToCache(bytes) && bytes@ == face.rgba@
            &&& actions@[n - 1] matches FaceAction::WriteLayer { texels, write } && texels@
                == face.rgba@ && write == face.upload.write
        }),
{
}

/// The three channels of a texel are mapped one by one, in their order, and the texel is opaque.
pub proof fn law_texel_of_channels<F: Fn(u32) -> u8>(
    r: u32,
    g: u32,
    b: u32,
    channel: &F,
    rgba: [u8; 4],
)
    requires
        call_ensures(linear_rgb_to_gamma_rgba8::<F>, (r, g, b, channel), rgba),
    ensures
        call_ensures(*channel, (r,), rgba@[0]),
        call_ensures(*channel, (g,), rgba@[1]),
        call_ensures(*channel, (b,), rgba@[2]),
        rgba@[3] == 255,
{
}

/// Whether texels are what a map makes of channels: for every three channels there are four bytes,
/// the first three from those channels and the last one opaque.
pub open spec fn are_texels_of<F: Fn(u32) -> u8>(
    channels: Seq<u32>,
    channel: F,
    rgba: Seq<u8>,
) -> bool {
    &&& rgba.len() == 4 * (channels.len() / 3)
    &&& forall|i: int|
        #![trigger rgba[i]]
        0 <= i < rgba.len() ==> if i % 4 == 3 {
            rgba[i] == 255
        } else {
            call_ensures(channel, (channels[3 * (i / 4) + i % 4],), rgba[i])
        }
}

proof fn lemma_are_texels<F: Fn(u32) -> u8>(channels: Seq<u32>, channel: F, rgba: Seq<u8>)
    requires
        crate::cubemap_loader::is_gamma_mapped(channels, channel, rgba),
    ensures
        are_texels_of(channels, channel, rgba),
{
    assert forall|i: int| #![trigger rgba[i]] 0 <= i < rgba.len() implies if i % 4 == 3 {
        rgba[i] == 255
    } else {
        call_ensures(channel, (channels[3 * (i / 4) + i % 4],), rgba[i])
    } by {
        let t = i / 4;
        assert(i == 4 * t + i % 4);
        if i % 4 == 3 {
            assert(rgba[4 * t + 3] == 255);
        } else {
            let c = channels[3 * t + i % 4];
            assert(call_ensures(channel, (c,), rgba[4 * t + i % 4]));
        }
    }
}

/// Every byte of the texels is either opacity or what the map makes of the channel of its place.
pub proof fn law_mapped_channels<F: Fn(u32) -> u8>(linear: &Vec<u32>, channel: F, rgba: Vec<u8>)
    requires
        call_ensures(gamma_map::<F>, (linear, channel), rgba),
    ensures
        are_texels_of(linear@, channel, rgba@),
{
    lemma_are_texels(linear@, channel, rgba@);
}

/// A face that is decoded has four bytes for each texel of the square that the file describes, and
/// they are what the map makes of the channels in the file. A square face that fits in memory, has
/// no run that overflows and whose channels can be read is decoded.
pub proof fn law_decoded_face<F: Fn(u32) -> u8>(
    hdr: &[u8],
    channel: F,
    plain: Result<Vec<u8>, image::ImageError>,
    tried: Result<Vec<u8>, FaceError>,
)
    requires
        call_ensures(decode_hdr_face_rgba::<F>, (hdr, channel), plain),
        call_ensures(try_decode_hdr_face_rgba::<F>, (hdr, channel), tried),
    ensures
        plain matches Ok(texels) ==> {
            &&& texels@.len() == 4 * ((hdr_dimensions(hdr@)->0).0 * (hdr_dimensions(hdr@)->0).0)
            &&& are_texels_of(hdr_channels(hdr@)->0, channel, texels@)
        },
        plain is Ok <==> hdr_dimensions(hdr@) is Some && hdr_channels(hdr@) is Some,
        tried matches Ok(texels) ==> {
            &&& texels@.len() == 4 * ((hdr_dimensions(hdr@)->0).0 * (hdr_dimensions(hdr@)->0).1)
            &&& are_texels_of(hdr_channels(hdr@)->0, channel, texels@)
        },
        tried is Ok <==> hdr_dimensions(hdr@) is Some && hdr_channels(hdr@) is Some && ({
            let d = hdr_dimensions(hdr@)->0;
            d.0 == d.1 && fits_in_memory(d.0, d.1) && !has_overflowing_run(hdr@, d.0, d.1)
        }),
        tried matches Err(FaceError::NotSquare) ==> (hdr_dimensions(hdr@)->0).0 != (hdr_dimensions(
            hdr@,
        )->0).1,
{
    if let Ok(texels) = plain {
        lemma_are_texels(hdr_channels(hdr@)->0, channel, texels@);
    }
    if let Ok(texels) = tried {
        lemma_are_texels(hdr_channels(hdr@)->0, channel, texels@);
    }
}

/// Whether loading a face has this outcome.
pub open spec fn loading_gives<F: Fn(u32) -> u8>(
    faces: &mut HdrFaces,
    hdr: &[u8],
    channel: F,
    outcome: Result<LoadedFace, LoadFaceError>,
) -> bool {
    call_ensures(HdrFaces::load_face::<F>, (faces, hdr, channel), outcome)
}

/// A face that is loaded has the texels of its file, and they fill one layer, the next, and no
/// other: the write has the width and height that the file has. The first face, and no other,
/// brings a texture. A face that is not loaded changes nothing. The face of a file that can be
/// decoded is loaded exactly if it has the resolution of the faces before it.
pub proof fn law_loaded_face<F: Fn(u32) -> u8>()
    ensures
        forall|faces: &mut HdrFaces, hdr: &[u8], channel: F, face: LoadedFace| #[trigger]
            loading_gives(faces, hdr, channel, Ok(face)) ==> {
                let (width, height) = hdr_dimensions(hdr@)->0;
                &&& hdr_dimensions(hdr@) is Some
                &&& hdr_channels(hdr@) is Some
                &&& are_texels_of(hdr_channels(hdr@)->0, channel, face.rgba@)
                &&& face.rgba@.len() == 4 * (width * height)
                &&& face.upload.write.extent.width == width
                &&& face.upload.write.extent.height == height
                &&& face.upload.write.extent.depth_or_array_layers == 1
                &&& face.upload.write.bytes_per_row == 4 * width
                &&& face.upload.write.rows_per_layer == height
                &&& 0 <= faces.spec_loaded() < 6 ==> face.upload.write.first_layer
                    == faces.spec_loaded()
                &&& final(faces).spec_loaded() == faces.spec_loaded() + 1
                &&& final(faces).spec_resolution() == Some(width)
                &&& faces.spec_resolution() is None || faces.spec_resolution() == Some(width)
                &&& face.upload.texture is Some <==> faces.spec_loaded() == 0
                &&& face.upload.texture matches Some(texture) ==> has_six_faces(
                    texture,
                    width as int,
                )
            },
        forall|
            faces: &mut HdrFaces,
            hdr: &[u8],
            channel: F,
            outcome: Result<LoadedFace, LoadFaceError>,
        | #[trigger]
            loading_gives(faces, hdr, channel, outcome) && outcome is Err ==> {
                &&& *final(faces) == *faces
                &&& hdr_dimensions(hdr@) is None || hdr_channels(hdr@) is None || ({
                    let d = hdr_dimensions(hdr@)->0;
                    ||| d.0 != d.1
                    ||| !fits_in_memory(d.0, d.1)
                    ||| has_overflowing_run(hdr@, d.0, d.1)
                    ||| outcome == Err::<LoadedFace, LoadFaceError>(LoadFaceError::OtherResolution)
                        && faces.spec_resolution() is Some && faces.spec_resolution()->0 != d.0
                })
            },
{
    assert forall|faces: &mut HdrFaces, hdr: &[u8], channel: F, face: LoadedFace| #[trigger]
        loading_gives(faces, hdr, channel, Ok(face)) implies are_texels_of(
        hdr_channels(hdr@)->0,
        channel,
        face.rgba@,
    ) by {
        lemma_are_texels(hdr_channels(hdr@)->0, channel, face.rgba@);
    }
}

/// The cubemap comes from the cache exactly if that was read and is six squares of texels, and then
/// it is what the cache alone would give; else it comes from the faces. There is a warning exactly
/// if there is a cache file that is not used, and it tells whether that could be read.
pub proof fn law_source_of_the_cubemap(
    cache: &CacheRead,
    step: LoadStep,
    data: &Vec<u8>,
    direct: Result<CubemapUpload, InvalidCacheSize>,
)
    requires
        call_ensures(load, (cache,), step),
        call_ensures(from_cache, (data,), direct),
        *cache is Read ==> cache->Read_0@ == data@,
    ensures
        step is FromCache <==> *cache is Read && direct is Ok,
        step matches LoadStep::FromCache(upload) ==> upload == direct->Ok_0,
        step matches LoadStep::FromHdrFaces(problem) ==> {
            &&& problem is None <==> *cache is NotFound
            &&& problem == Some(CacheProblem::Unreadable) <==> *cache is Failed
            &&& *cache is Read ==> problem == Some(CacheProblem::InvalidSize(direct->Err_0))
                && direct->Err_0.bytes == data@.len()
        },
{
    if let LoadStep::FromCache(upload) = step {
        let r = upload.texture.size.width as int;
        assert(crate::cubemap_loader::is_cache_of_resolution(data@.len() as int, r));
        lemma_same_square(r, direct->Ok_0.texture.size.width as int);
        assert(upload.texture == direct->Ok_0.texture);
        assert(upload.write == direct->Ok_0.write);
    } else if *cache is Read {
        if let Ok(upload) = direct {
            assert(crate::cubemap_loader::is_cache_of_resolution(
                data@.len() as int,
                upload.texture.size.width as int,
            ));
        }
    }
}

} // verus!
