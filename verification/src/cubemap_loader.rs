//! Loads the six faces of a background cubemap, from Radiance files or from a raw cache of them.

use crate::gpu::{Extent3d, TextureDescriptor, TextureFormat, TextureUsages};
use crate::hdr::{
    contains_overflowing_run, fits_in_memory, has_overflowing_run, hdr_channels, hdr_dimensions,
    read_channels, read_dimensions,
};
use crate::paths::{join, joined};
use crate::square::{
    lemma_divides_square, lemma_root_of_square, lemma_same_square, lemma_six_fifths_is_no_square,
    lemma_six_is_no_square, lemma_three_is_no_square, lemma_two_is_no_square, square_root,
};
use vstd::pervasive::unreached;
use vstd::prelude::*;

verus! {

/// Name of the cache file beside the faces.
pub open spec fn cache_name() -> Seq<char> {
    ".raw_rgba8_cubemap.cache"@
}

/// The cache file of the cubemap whose faces lie in the directory `path`.
pub fn get_cache_filename(path: &str) -> (filename: String)
    ensures
        filename@ == joined(path@, cache_name()),
{
    join(path, ".raw_rgba8_cubemap.cache")
}

/// A cache of six faces of `resolution` times `resolution` texels, four bytes each.
pub open spec fn is_cache_of_resolution(bytes: int, resolution: int) -> bool {
    resolution > 0 && bytes == 24 * (resolution * resolution)
}

/// The face resolution of a cache of `bytes` bytes; none for a size that no cache has.
pub fn cube_face_resolution_from_raw_cache_len(bytes: usize) -> (resolution: Option<u32>)
    ensures
        match resolution {
            Some(r) => is_cache_of_resolution(bytes as int, r as int),
            None => forall|r: int| !is_cache_of_resolution(bytes as int, r),
        },
{
    if bytes == 0 || bytes % 24 != 0 {
        proof {
            assert forall|r: int| !is_cache_of_resolution(bytes as int, r) by {
                if is_cache_of_resolution(bytes as int, r) {
                    assert(r * r > 0) by (nonlinear_arith)
                        requires
                            r > 0,
                    ;
                }
            }
        }
        return None;
    }
    let pixels_per_face: u64 = (bytes / 24) as u64;
    let root = square_root(pixels_per_face);
    if root * root != pixels_per_face {
        proof {
            assert forall|r: int| !is_cache_of_resolution(bytes as int, r) by {
                if is_cache_of_resolution(bytes as int, r) {
                    lemma_root_of_square(root as int, r);
                }
            }
        }
        return None;
    }
    assert(root > 0) by {
        if root == 0 {
            assert(root * root == 0);
        }
    }
    Some(root as u32)
}

/// Alpha of every texel: faces are opaque.
pub const OPAQUE: u8 = 255;

/// Whether `rgba` holds, texel by texel, what `channel` makes of each of the three linear
/// channels, and full opacity.
pub open spec fn is_gamma_mapped<F: Fn(u32) -> u8>(
    channels: Seq<u32>,
    channel: F,
    rgba: Seq<u8>,
) -> bool {
    &&& rgba.len() == 4 * (channels.len() / 3)
    &&& forall|texel: int, c: int|
        0 <= texel < channels.len() / 3 && 0 <= c < 3 ==> call_ensures(
            channel,
            (#[trigger] channels[3 * texel + c],),
            rgba[4 * texel + c],
        )
    &&& forall|texel: int|
        0 <= texel < channels.len() / 3 ==> #[trigger] rgba[4 * texel + 3] == OPAQUE
}

/// Turns the three linear channels of a texel into its four bytes. `channel` maps one linear
/// channel, given as the bit pattern of a single-precision number.
pub fn linear_rgb_to_gamma_rgba8<F: Fn(u32) -> u8>(r: u32, g: u32, b: u32, channel: &F) -> (rgba:
    [u8; 4])
    requires
        forall|bits: u32| call_requires(*channel, (bits,)),
    ensures
        call_ensures(*channel, (r,), rgba@[0]),
        call_ensures(*channel, (g,), rgba@[1]),
        call_ensures(*channel, (b,), rgba@[2]),
        rgba@[3] == OPAQUE,
{
    [channel(r), channel(g), channel(b), OPAQUE]
}

/// Turns the linear channels of a face into its texels. Channels past the last whole texel are
/// dropped.
pub fn gamma_map<F: Fn(u32) -> u8>(linear: &Vec<u32>, channel: F) -> (rgba: Vec<u8>)
    requires
        forall|bits: u32| call_requires(channel, (bits,)),
    ensures
        is_gamma_mapped(linear@, channel, rgba@),
{
    let n: usize = linear.len();
    let texels: usize = n / 3;
    let mut rgba: Vec<u8> = Vec::new();
    let mut i: usize = 0;
    while i < texels
        invariant
            i <= texels,
            n == linear@.len(),
            texels == n / 3,
            rgba@.len() == 4 * i,
            forall|bits: u32| call_requires(channel, (bits,)),
            forall|texel: int, c: int|
                0 <= texel < i && 0 <= c < 3 ==> call_ensures(
                    channel,
                    (#[trigger] linear@[3 * texel + c],),
                    rgba@[4 * texel + c],
                ),
            forall|texel: int| 0 <= texel < i ==> #[trigger] rgba@[4 * texel + 3] == OPAQUE,
        decreases texels - i,
    {
        let ghost before = rgba@;
        let texel = linear_rgb_to_gamma_rgba8(
            linear[3 * i],
            linear[3 * i + 1],
            linear[3 * i + 2],
            &channel,
        );
        rgba.push(texel[0]);
        rgba.push(texel[1]);
        rgba.push(texel[2]);
        rgba.push(texel[3]);
        proof {
            assert forall|texel: int, c: int| 0 <= texel < i + 1 && 0 <= c < 3 implies call_ensures(
                channel,
                (#[trigger] linear@[3 * texel + c],),
                rgba@[4 * texel + c],
            ) by {
                if texel < i {
                    assert(rgba@[4 * texel + c] == before[4 * texel + c]);
                } else {
                    assert(texel == i);
                    assert(c == 0 || c == 1 || c == 2);
                }
            }
            assert forall|texel: int| 0 <= texel < i + 1 implies #[trigger] rgba@[4 * texel + 3]
                == OPAQUE by {
                if texel < i {
                    assert(rgba@[4 * texel + 3] == before[4 * texel + 3]);
                }
            }
        }
        i += 1;
    }
    rgba
}

/// Whether a face can be decoded to the end: it is as wide as high, it fits in memory, and no
/// run in it is beyond counting. A file whose header cannot be read has none of these to meet.
pub open spec fn is_decodable_face(hdr: Seq<u8>) -> bool {
    hdr_dimensions(hdr) matches Some(d) ==> {
        &&& d.0 == d.1
        &&& fits_in_memory(d.0, d.1)
        &&& !has_overflowing_run(hdr, d.0, d.1)
    }
}

/// Decodes a face to gamma-mapped texels of four bytes.
pub fn decode_hdr_face_rgba<F: Fn(u32) -> u8>(hdr: &[u8], channel: F) -> (rgba: Result<
    Vec<u8>,
    image::ImageError,
>)
    requires
        is_decodable_face(hdr@),
        forall|bits: u32| call_requires(channel, (bits,)),
    ensures
        match rgba {
            Ok(texels) => {
                &&& hdr_dimensions(hdr@) matches Some(d) && texels@.len() == 4 * (d.0 * d.0)
                &&& hdr_channels(hdr@) matches Some(channels) && is_gamma_mapped(
                    channels,
                    channel,
                    texels@,
                )
            },
            Err(_) => hdr_dimensions(hdr@) is None || hdr_channels(hdr@) is None,
        },
{
    let dimensions = match read_dimensions(hdr) {
        Ok(dimensions) => dimensions,
        Err(error) => return Err(error),
    };
    let side: u64 = dimensions.0 as u64;
    assert(side * side <= 0xffff_ffff * 0xffff_ffff) by (nonlinear_arith)
        requires
            0 <= side <= 0xffff_ffff,
    ;
    let texels: u64 = side * side;
    let len: usize = (3 * texels) as usize;
    match read_channels(hdr, len) {
        Ok(linear) => Ok(gamma_map(&linear, channel)),
        Err(error) => Err(error),
    }
}

/// Why a face was not decoded.
#[derive(Debug)]
pub enum FaceError {
    /// The file is no Radiance image, or a damaged one.
    Undecodable(image::ImageError),
    /// The face is not as wide as high.
    NotSquare,
    /// The face does not fit in memory.
    TooLarge,
    /// A run in the file is beyond counting.
    OverflowingRun,
}

/// Decodes a face if it can be decoded to the end, and else says why not.
pub fn try_decode_hdr_face_rgba<F: Fn(u32) -> u8>(hdr: &[u8], channel: F) -> (rgba: Result<
    Vec<u8>,
    FaceError,
>)
    requires
        forall|bits: u32| call_requires(channel, (bits,)),
    ensures
        match rgba {
            Ok(texels) => {
                &&& is_decodable_face(hdr@)
                &&& hdr_dimensions(hdr@) matches Some(d) && texels@.len() == 4 * (d.0 * d.0)
                &&& hdr_channels(hdr@) matches Some(channels) && is_gamma_mapped(
                    channels,
                    channel,
                    texels@,
                )
            },
            Err(FaceError::Undecodable(_)) => hdr_dimensions(hdr@) is None || (is_decodable_face(
                hdr@,
            ) && hdr_channels(hdr@) is None),
            Err(FaceError::NotSquare) => hdr_dimensions(hdr@) matches Some(d) && d.0 != d.1,
            Err(FaceError::TooLarge) => hdr_dimensions(hdr@) matches Some(d) && d.0 == d.1
                && !fits_in_memory(d.0, d.1),
            Err(FaceError::OverflowingRun) => hdr_dimensions(hdr@) matches Some(d) && d.0 == d.1
                && fits_in_memory(d.0, d.1) && has_overflowing_run(hdr@, d.0, d.1),
        },
{
    let dimensions = match read_dimensions(hdr) {
        Ok(dimensions) => dimensions,
        Err(error) => return Err(FaceError::Undecodable(error)),
    };
    if dimensions.0 != dimensions.1 {
        return Err(FaceError::NotSquare);
    }
    let side: u64 = dimensions.0 as u64;
    assert(side * side <= 0xffff_ffff * 0xffff_ffff) by (nonlinear_arith)
        requires
            0 <= side <= 0xffff_ffff,
    ;
    let largest: u64 = isize::MAX as u64;
    if side * side > largest / 12 {
        return Err(FaceError::TooLarge);
    }
    if contains_overflowing_run(hdr, dimensions.0, dimensions.1) {
        return Err(FaceError::OverflowingRun);
    }
    match decode_hdr_face_rgba(hdr, channel) {
        Ok(texels) => Ok(texels),
        Err(error) => Err(FaceError::Undecodable(error)),
    }
}

/// Format of the cubemap's texels.
pub const CUBEMAP_FORMAT: TextureFormat = TextureFormat::Rgba8Unorm;

/// The texture of a cubemap: six layers, one for each face.
pub open spec fn cubemap_descriptor(resolution: u32) -> TextureDescriptor {
    TextureDescriptor {
        label: "Cubemap",
        size: Extent3d { width: resolution, height: resolution, depth_or_array_layers: 6 },
        format: CUBEMAP_FORMAT,
        usage: TextureUsages {
            render_attachment: false,
            texture_binding: true,
            copy_src: false,
            copy_dst: true,
        },
    }
}

fn describe_cubemap(resolution: u32) -> (texture: TextureDescriptor)
    ensures
        texture == cubemap_descriptor(resolution),
{
    TextureDescriptor {
        label: "Cubemap",
        size: Extent3d { width: resolution, height: resolution, depth_or_array_layers: 6 },
        format: CUBEMAP_FORMAT,
        usage: TextureUsages {
            render_attachment: false,
            texture_binding: true,
            copy_src: false,
            copy_dst: true,
        },
    }
}

/// A copy of texels from a buffer into layers of a texture. The buffer holds rows of texels, the
/// rows of a layer on end, the layers on end.
#[derive(Clone, Copy, Debug, PartialEq, Eq, Structural)]
pub struct TextureWrite {
    pub first_layer: u32,
    pub bytes_per_row: u32,
    pub rows_per_layer: u32,
    pub extent: Extent3d,
}

impl TextureWrite {
    /// The write of `layers` faces, starting at the layer `first_layer`.
    pub open spec fn of_faces(resolution: u32, first_layer: u32, layers: u32) -> TextureWrite {
        TextureWrite {
            first_layer,
            bytes_per_row: (4 * resolution) as u32,
            rows_per_layer: resolution,
            extent: Extent3d {
                width: resolution,
                height: resolution,
                depth_or_array_layers: layers,
            },
        }
    }

    /// Whether the write sets the texel in column `x` and row `y` of `layer`.
    pub open spec fn covers(self, layer: int, y: int, x: int) -> bool {
        &&& self.first_layer <= layer < self.first_layer + self.extent.depth_or_array_layers
        &&& 0 <= y < self.extent.height
        &&& 0 <= x < self.extent.width
    }

    /// Where in the buffer that texel starts.
    pub open spec fn source(self, layer: int, y: int, x: int) -> int {
        ((layer - self.first_layer) * self.rows_per_layer + y) * self.bytes_per_row + 4 * x
    }
}

/// What the GPU is asked for to hold a cubemap: a texture, and the texels for some of its layers.
#[derive(Clone, Copy, Debug)]
pub struct CubemapUpload {
    pub texture: TextureDescriptor,
    pub write: TextureWrite,
}

/// Whether `upload` brings all six faces of a cache of `bytes` bytes.
pub open spec fn is_upload_of_cache(upload: CubemapUpload, bytes: int) -> bool {
    let resolution = upload.texture.size.width;
    &&& is_cache_of_resolution(bytes, resolution as int)
    &&& 4 * resolution <= u32::MAX
    &&& upload.texture == cubemap_descriptor(resolution)
    &&& upload.write == TextureWrite::of_faces(resolution, 0, 6)
}

/// A cache file whose size no cubemap has.
#[derive(Clone, Copy, Debug, PartialEq, Eq, Structural)]
pub struct InvalidCacheSize {
    pub bytes: usize,
}

/// Four bytes for each texel of a row still fit in 32 bits: a cache is six squares of such rows.
proof fn lemma_cache_row_fits(bytes: usize, resolution: u32)
    requires
        is_cache_of_resolution(bytes as int, resolution as int),
    ensures
        4 * resolution <= u32::MAX,
{
    if resolution > 0x3fff_ffff {
        assert(resolution * resolution >= 0x4000_0000 * 0x4000_0000) by (nonlinear_arith)
            requires
                resolution >= 0x4000_0000,
        ;
    }
}

/// The upload of all six faces from the contents of a cache file.
pub fn from_cache(image_data: &Vec<u8>) -> (upload: Result<CubemapUpload, InvalidCacheSize>)
    ensures
        match upload {
            Ok(upload) => is_upload_of_cache(upload, image_data@.len() as int),
            Err(error) => {
                &&& error.bytes == image_data@.len()
                &&& forall|r: int| !is_cache_of_resolution(image_data@.len() as int, r)
            },
        },
{
    match cube_face_resolution_from_raw_cache_len(image_data.len()) {
        None => Err(InvalidCacheSize { bytes: image_data.len() }),
        Some(resolution) => {
            proof {
                lemma_cache_row_fits(image_data.len(), resolution);
            }
            let texture = describe_cubemap(resolution);
            Ok(
                CubemapUpload {
                    texture,
                    write: TextureWrite {
                        first_layer: 0,
                        bytes_per_row: 4 * resolution,
                        rows_per_layer: resolution,
                        extent: Extent3d {
                            width: resolution,
                            height: resolution,
                            depth_or_array_layers: 6,
                        },
                    },
                },
            )
        },
    }
}

/// The file of each face, in the order of the layers.
pub open spec fn face_file(layer: int) -> Seq<char> {
    if layer == 0 {
        "px.hdr"@
    } else if layer == 1 {
        "nx.hdr"@
    } else if layer == 2 {
        "py.hdr"@
    } else if layer == 3 {
        "ny.hdr"@
    } else if layer == 4 {
        "pz.hdr"@
    } else {
        "nz.hdr"@
    }
}

/// The decoded texels do not make a square.
#[derive(Clone, Copy, Debug, PartialEq, Eq, Structural)]
pub struct FaceSizeMismatch;

/// Whether `bytes` bytes are a square face of `resolution` times `resolution` texels.
pub open spec fn is_face_of_resolution(bytes: int, resolution: int) -> bool {
    resolution >= 0 && bytes == 4 * (resolution * resolution)
}

/// The resolution of a face of `bytes` bytes.
pub fn face_resolution(bytes: usize) -> (resolution: Option<u32>)
    ensures
        match resolution {
            Some(r) => is_face_of_resolution(bytes as int, r as int),
            None => forall|r: int| !is_face_of_resolution(bytes as int, r),
        },
{
    let root = square_root((bytes / 4) as u64);
    if bytes % 4 == 0 && root * root == (bytes / 4) as u64 {
        Some(root as u32)
    } else {
        proof {
            assert forall|r: int| !is_face_of_resolution(bytes as int, r) by {
                if is_face_of_resolution(bytes as int, r) {
                    lemma_root_of_square(root as int, r);
                }
            }
        }
        None
    }
}

/// One face on its way to the GPU. The first one brings the texture with it.
#[derive(Clone, Copy, Debug)]
pub struct FaceUpload {
    pub texture: Option<TextureDescriptor>,
    pub write: TextureWrite,
}

/// How a decoded face fits to the faces before it.
#[derive(Clone, Copy, Debug, PartialEq, Eq, Structural)]
pub enum FaceFit {
    /// It can be added.
    Fits,
    /// Its texels do not make a square.
    SizeMismatch,
    /// It is larger or smaller than the faces before it.
    OtherResolution,
    /// A row of it has more bytes than can be counted in 32 bits.
    TooWide,
}

/// Collects the six faces, one after another.
#[derive(Clone, Copy, Debug, PartialEq, Eq, Structural)]
pub struct HdrFaces {
    loaded: u32,
    resolution: u32,
}

impl HdrFaces {
    /// How many faces have been added.
    pub closed spec fn spec_loaded(self) -> int {
        self.loaded as int
    }

    /// The resolution of the faces, once there is one.
    pub closed spec fn spec_resolution(self) -> Option<u32> {
        if self.loaded == 0 {
            None
        } else {
            Some(self.resolution)
        }
    }

    /// There are at most six faces.
    #[verifier::type_invariant]
    spec fn at_most_six(self) -> bool {
        self.loaded <= 6
    }

    /// Whether a face of `bytes` bytes may be added: a face that makes a square has the same
    /// resolution as the faces before it, and its rows can be counted.
    pub open spec fn accepts(self, bytes: int) -> bool {
        forall|r: int|
            is_face_of_resolution(bytes, r) ==> 4 * r <= u32::MAX && (self.spec_resolution()
                is None || self.spec_resolution() == Some(r as u32))
    }

    /// Whether `after` has one more face, of `bytes` bytes, which `upload` brings to the GPU as the
    /// next layer. All faces have one resolution, and the first one brings the texture.
    pub open spec fn adds_face(self, after: HdrFaces, bytes: int, upload: FaceUpload) -> bool {
        &&& after.spec_loaded() == self.spec_loaded() + 1
        &&& after.spec_resolution() matches Some(r) && {
            &&& self.spec_resolution() is None || self.spec_resolution() == Some(r)
            &&& is_face_of_resolution(bytes, r as int)
            &&& 4 * r <= u32::MAX
            &&& upload.texture == (if self.spec_loaded() == 0 {
                Some(cubemap_descriptor(r))
            } else {
                None
            })
            &&& upload.write == TextureWrite::of_faces(r, self.spec_loaded() as u32, 1)
        }
    }

    /// No face yet.
    pub fn new() -> (faces: HdrFaces)
        ensures
            faces.spec_loaded() == 0,
            faces.spec_resolution() is None,
    {
        HdrFaces { loaded: 0, resolution: 0 }
    }

    /// The file of the next face; none when all six are there.
    pub fn next_file(&self) -> (file: Option<&'static str>)
        ensures
            self.spec_loaded() <= 6,
            match file {
                Some(name) => self.spec_loaded() < 6 && name@ == face_file(self.spec_loaded()),
                None => self.spec_loaded() == 6,
            },
    {
        proof {
            use_type_invariant(self);
        }
        match self.loaded {
            0 => Some("px.hdr"),
            1 => Some("nx.hdr"),
            2 => Some("py.hdr"),
            3 => Some("ny.hdr"),
            4 => Some("pz.hdr"),
            5 => Some("nz.hdr"),
            _ => None,
        }
    }

    /// Tests how a decoded face fits to the faces before it.
    pub fn fit(&self, rgba: &Vec<u8>) -> (fit: FaceFit)
        ensures
            (fit == FaceFit::SizeMismatch) == (forall|r: int|
                !is_face_of_resolution(rgba@.len() as int, r)),
            (fit == FaceFit::Fits || fit == FaceFit::SizeMismatch) == self.accepts(
                rgba@.len() as int,
            ),
            (fit == FaceFit::OtherResolution) == (exists|r: int| #[trigger]
                is_face_of_resolution(rgba@.len() as int, r) && self.spec_resolution() is Some
                    && self.spec_resolution() != Some(r as u32)),
            (fit == FaceFit::TooWide) == (exists|r: int| #[trigger]
                is_face_of_resolution(rgba@.len() as int, r) && 4 * r > u32::MAX && (
                self.spec_resolution() is None || self.spec_resolution() == Some(r as u32))),
    {
        match face_resolution(rgba.len()) {
            None => FaceFit::SizeMismatch,
            Some(resolution) => {
                proof {
                    assert(is_face_of_resolution(rgba@.len() as int, resolution as int));
                    assert forall|r: int| is_face_of_resolution(rgba@.len() as int, r) implies r
                        == resolution by {
                        lemma_same_square(r, resolution as int);
                    }
                }
                if self.loaded > 0 && self.resolution != resolution {
                    FaceFit::OtherResolution
                } else if resolution > u32::MAX / 4 {
                    FaceFit::TooWide
                } else {
                    FaceFit::Fits
                }
            },
        }
    }

    /// Adds a decoded face: it becomes the next layer. A face that makes no square is refused.
    pub fn add_face(&mut self, rgba: &Vec<u8>) -> (upload: Result<FaceUpload, FaceSizeMismatch>)
        requires
            old(self).spec_loaded() < 6,
            old(self).accepts(rgba@.len() as int),
        ensures
            match upload {
                Ok(upload) => old(self).adds_face(*final(self), rgba@.len() as int, upload),
                Err(_) => *final(self) == *old(self) && forall|r: int|
                    !is_face_of_resolution(rgba@.len() as int, r),
            },
    {
        let resolution = match face_resolution(rgba.len()) {
            Some(resolution) => resolution,
            None => return Err(FaceSizeMismatch),
        };
        assert(is_face_of_resolution(rgba@.len() as int, resolution as int));
        let layer = self.loaded;
        let texture = if layer == 0 {
            Some(describe_cubemap(resolution))
        } else {
            None
        };
        *self = HdrFaces { loaded: layer + 1, resolution };
        Ok(
            FaceUpload {
                texture,
                write: TextureWrite {
                    first_layer: layer,
                    bytes_per_row: 4 * resolution,
                    rows_per_layer: resolution,
                    extent: Extent3d {
                        width: resolution,
                        height: resolution,
                        depth_or_array_layers: 1,
                    },
                },
            },
        )
    }
}

/// A face that was decoded and added: its texels, and its way to the GPU.
#[derive(Debug)]
pub struct LoadedFace {
    pub rgba: Vec<u8>,
    pub upload: FaceUpload,
}

/// What is done with a face that was added.
#[derive(Clone, Copy, Debug)]
pub enum FaceAction<'a> {
    CreateTexture(TextureDescriptor),
    /// Write these bytes at the end of the cache file.
    AppendToCache(&'a Vec<u8>),
    /// Bring these texels into a layer of the texture.
    WriteLayer { texels: &'a Vec<u8>, write: TextureWrite },
}

/// What is done with a face, in order: the first one needs a texture; the texels go to the cache,
/// and then to their layer.
pub open spec fn face_actions<'a>(face: LoadedFace) -> Seq<FaceAction<'a>> {
    let texels = &face.rgba;
    let kept = seq![
        FaceAction::AppendToCache(texels),
        FaceAction::WriteLayer { texels, write: face.upload.write },
    ];
    match face.upload.texture {
        Some(texture) => seq![FaceAction::CreateTexture(texture)] + kept,
        None => kept,
    }
}

impl LoadedFace {
    /// What is done with the face, in order.
    pub fn actions<'a>(&'a self) -> (actions: Vec<FaceAction<'a>>)
        ensures
            actions@ == face_actions(*self),
    {
        let mut actions: Vec<FaceAction<'a>> = Vec::new();
        if let Some(texture) = self.upload.texture {
            actions.push(FaceAction::CreateTexture(texture));
        }
        actions.push(FaceAction::AppendToCache(&self.rgba));
        actions.push(FaceAction::WriteLayer { texels: &self.rgba, write: self.upload.write });
        assert(actions@ =~= face_actions(*self));
        actions
    }
}

/// How the collecting of the faces goes on.
#[derive(Clone, Copy, Debug)]
pub enum CollectStep {
    /// Create the cache file, without what it held before.
    CreateCache,
    /// Open this file, load the face in it and perform its actions.
    LoadFace(&'static str),
    /// The cubemap is complete.
    Complete,
}

/// Decides how the collecting of the faces goes on, where `faces` are those so far. Before there
/// is a cache file there are none, and no file of a face is opened.
pub fn from_hdr_faces(faces: Option<&HdrFaces>) -> (step: CollectStep)
    ensures
        match faces {
            None => step is CreateCache,
            Some(faces) => faces.spec_loaded() <= 6 && if faces.spec_loaded() == 6 {
                step is Complete
            } else {
                step matches CollectStep::LoadFace(file) && file@ == face_file(faces.spec_loaded())
            },
        },
{
    match faces {
        None => CollectStep::CreateCache,
        Some(faces) => match faces.next_file() {
            Some(file) => CollectStep::LoadFace(file),
            None => CollectStep::Complete,
        },
    }
}

/// Why a face was not added.
#[derive(Debug)]
pub enum LoadFaceError {
    /// It was not decoded.
    NotDecoded(FaceError),
    /// It is larger or smaller than the faces before it.
    OtherResolution,
}

/// Four bytes for each texel of a row of a square face that fits in memory fit in 32 bits.
proof fn lemma_face_row_fits(side: u32)
    requires
        fits_in_memory(side, side),
    ensures
        4 * side <= u32::MAX,
{
    if side > 0x3fff_ffff {
        assert(side * side >= 0x4000_0000 * 0x4000_0000) by (nonlinear_arith)
            requires
                side >= 0x4000_0000,
        ;
    }
}

impl HdrFaces {
    /// Decodes the next face and adds it. The texels of a decoded face always make a square, and
    /// its rows can be counted.
    pub fn load_face<F: Fn(u32) -> u8>(&mut self, hdr: &[u8], channel: F) -> (face: Result<
        LoadedFace,
        LoadFaceError,
    >)
        requires
            old(self).spec_loaded() < 6,
            forall|bits: u32| call_requires(channel, (bits,)),
        ensures
            match face {
                Ok(face) => {
                    &&& is_decodable_face(hdr@)
                    &&& hdr_channels(hdr@) matches Some(channels) && is_gamma_mapped(
                        channels,
                        channel,
                        face.rgba@,
                    )
                    &&& old(self).adds_face(*final(self), face.rgba@.len() as int, face.upload)
                    &&& hdr_dimensions(hdr@) matches Some(d) && final(self).spec_resolution()
                        == Some(d.0)
                },
                Err(LoadFaceError::NotDecoded(error)) => {
                    &&& *final(self) == *old(self)
                    &&& match error {
                        FaceError::Undecodable(_) => hdr_dimensions(hdr@) is None || (
                        is_decodable_face(hdr@) && hdr_channels(hdr@) is None),
                        FaceError::NotSquare => hdr_dimensions(hdr@) matches Some(d) && d.0 != d.1,
                        FaceError::TooLarge => hdr_dimensions(hdr@) matches Some(d) && d.0 == d.1
                            && !fits_in_memory(d.0, d.1),
                        FaceError::OverflowingRun => hdr_dimensions(hdr@) matches Some(d) && d.0
                            == d.1 && fits_in_memory(d.0, d.1) && has_overflowing_run(hdr@, d.0, d.1),
                    }
                },
                Err(LoadFaceError::OtherResolution) => {
                    &&& *final(self) == *old(self)
                    &&& is_decodable_face(hdr@)
                    &&& hdr_channels(hdr@) is Some
                    &&& hdr_dimensions(hdr@) matches Some(d) && old(self).spec_resolution() is Some
                        && old(self).spec_resolution() != Some(d.0)
                },
            },
    {
        let rgba = match try_decode_hdr_face_rgba(hdr, channel) {
            Ok(rgba) => rgba,
            Err(error) => return Err(LoadFaceError::NotDecoded(error)),
        };
        let ghost side = (hdr_dimensions(hdr@)->0).0;
        proof {
            lemma_face_row_fits(side);
            assert(is_face_of_resolution(rgba@.len() as int, side as int));
            assert forall|r: int| is_face_of_resolution(rgba@.len() as int, r) implies r
                == side by {
                lemma_same_square(r, side as int);
            }
        }
        if self.fit(&rgba) == FaceFit::OtherResolution {
            return Err(LoadFaceError::OtherResolution);
        }
        match self.add_face(&rgba) {
            Ok(upload) => Ok(LoadedFace { rgba, upload }),
            Err(_) => unreached(),
        }
    }
}

/// What came of reading the cache file.
#[derive(Debug)]
pub enum CacheRead {
    /// There is no cache file.
    NotFound,
    /// The cache file is there and could not be read.
    Failed,
    /// The contents of the cache file.
    Read(Vec<u8>),
}

/// Why a cache file that is there was not used.
#[derive(Clone, Copy, Debug, PartialEq, Eq, Structural)]
pub enum CacheProblem {
    Unreadable,
    InvalidSize(InvalidCacheSize),
}

/// Where the cubemap comes from.
#[derive(Clone, Copy, Debug)]
pub enum LoadStep {
    /// From the cache.
    FromCache(CubemapUpload),
    /// From the six faces, after a warning where a cache file was there.
    FromHdrFaces(Option<CacheProblem>),
}

/// Decides where the cubemap comes from: from the cache if it can be read and has a valid size,
/// else from the faces.
pub fn load(cache: &CacheRead) -> (step: LoadStep)
    ensures
        match (cache, step) {
            (CacheRead::NotFound, _) => step == LoadStep::FromHdrFaces(None),
            (CacheRead::Failed, _) => step == LoadStep::FromHdrFaces(
                Some(CacheProblem::Unreadable),
            ),
            (CacheRead::Read(data), LoadStep::FromCache(upload)) => is_upload_of_cache(
                upload,
                data@.len() as int,
            ),
            (CacheRead::Read(data), LoadStep::FromHdrFaces(problem)) => {
                &&& problem matches Some(CacheProblem::InvalidSize(size)) && size.bytes
                    == data@.len()
                &&& forall|r: int| !is_cache_of_resolution(data@.len() as int, r)
            },
        },
{
    match cache {
        CacheRead::NotFound => LoadStep::FromHdrFaces(None),
        CacheRead::Failed => LoadStep::FromHdrFaces(Some(CacheProblem::Unreadable)),
        CacheRead::Read(data) => match from_cache(data) {
            Ok(upload) => LoadStep::FromCache(upload),
            Err(error) => LoadStep::FromHdrFaces(Some(CacheProblem::InvalidSize(error))),
        },
    }
}

/// The cache file that collecting faces writes: the faces on end.
pub open spec fn cache_of(faces: Seq<Seq<u8>>) -> Seq<u8>
    decreases faces.len(),
{
    if faces.len() == 0 {
        Seq::empty()
    } else {
        cache_of(faces.drop_last()) + faces.last()
    }
}

/// What is done with faces that were added one after another.
pub open spec fn collect_actions<'a>(faces: Seq<LoadedFace>) -> Seq<FaceAction<'a>>
    decreases faces.len(),
{
    if faces.len() == 0 {
        Seq::empty()
    } else {
        collect_actions(faces.drop_last()) + face_actions(faces.last())
    }
}

/// What a new cache file holds after some actions.
pub open spec fn cache_after(actions: Seq<FaceAction<'_>>) -> Seq<u8>
    decreases actions.len(),
{
    if actions.len() == 0 {
        Seq::empty()
    } else {
        let before = cache_after(actions.drop_last());
        match actions.last() {
            FaceAction::AppendToCache(bytes) => before + bytes@,
            _ => before,
        }
    }
}

/// The texels of faces.
pub open spec fn texels_of(faces: Seq<LoadedFace>) -> Seq<Seq<u8>> {
    faces.map_values(|face: LoadedFace| face.rgba@)
}

proof fn lemma_cache_after_sum(first: Seq<FaceAction<'_>>, second: Seq<FaceAction<'_>>)
    ensures
        cache_after(first + second) == cache_after(first) + cache_after(second),
    decreases second.len(),
{
    if second.len() == 0 {
        assert(first + second =~= first);
    } else {
        lemma_cache_after_sum(first, second.drop_last());
        assert((first + second).drop_last() =~= first + second.drop_last());
    }
}

proof fn lemma_cache_after_face(face: LoadedFace)
    ensures
        cache_after(face_actions(face)) == face.rgba@,
{
    reveal_with_fuel(cache_after, 4);
    let actions = face_actions(face);
    let n = actions.len() as int;
    assert(actions.drop_last().drop_last() =~= actions.subrange(0, n - 2));
    if face.upload.texture is Some {
        assert(actions.subrange(0, 1).drop_last() =~= Seq::empty());
    }
    assert(cache_after(actions) =~= face.rgba@);
}

/// The cache file that collecting faces leaves behind holds the texels of all of them, in the
/// order of the layers, and nothing else. The texels of each are in the file before their layer
/// is written.
pub proof fn law_collecting_fills_the_cache(faces: Seq<LoadedFace>, layer: int)
    ensures
        cache_after(collect_actions(faces)) == cache_of(texels_of(faces)),
        0 <= layer < faces.len() ==> ({
            let before = collect_actions(faces.take(layer)) + face_actions(
                faces[layer],
            ).drop_last();
            &&& cache_after(before) == cache_of(texels_of(faces.take(layer + 1)))
            &&& face_actions(faces[layer]).last() == (FaceAction::WriteLayer {
                texels: &faces[layer].rgba,
                write: faces[layer].upload.write,
            })
        }),
    decreases faces.len(),
{
    if faces.len() > 0 {
        law_collecting_fills_the_cache(faces.drop_last(), 0);
        lemma_cache_after_sum(collect_actions(faces.drop_last()), face_actions(faces.last()));
        lemma_cache_after_face(faces.last());
        assert(texels_of(faces).drop_last() =~= texels_of(faces.drop_last()));
    }
    if 0 <= layer < faces.len() {
        let earlier = faces.take(layer);
        let face = faces[layer];
        let up_to = faces.take(layer + 1);
        law_collecting_fills_the_cache(earlier, 0);
        lemma_cache_after_sum(collect_actions(earlier), face_actions(face).drop_last());
        lemma_cache_after_face(face);
        assert(up_to.drop_last() =~= earlier);
        assert(texels_of(up_to).drop_last() =~= texels_of(earlier));
        assert(texels_of(up_to).last() == face.rgba@);
        assert(cache_after(face_actions(face).drop_last()) == face.rgba@);
    }
}

/// Faces of one resolution lie in the cache at multiples of their size.
proof fn lemma_face_in_cache(faces: Seq<Seq<u8>>, size: int, face: int, i: int)
    requires
        forall|f: int| 0 <= f < faces.len() ==> (#[trigger] faces[f]).len() == size,
    ensures
        cache_of(faces).len() == faces.len() * size,
        0 <= face < faces.len() && 0 <= i < size ==> cache_of(faces)[face * size + i]
            == faces[face][i],
    decreases faces.len(),
{
    if faces.len() > 0 {
        let rest = faces.drop_last();
        let n = rest.len();
        assert forall|f: int| 0 <= f < n implies (#[trigger] rest[f]).len() == size by {
            assert(rest[f] == faces[f]);
        }
        lemma_face_in_cache(rest, size, face, i);
        assert((n + 1) * size == n * size + size) by (nonlinear_arith);
        if 0 <= face < n && 0 <= i < size {
            assert(face * size + i < n * size) by (nonlinear_arith)
                requires
                    face + 1 <= n,
                    0 <= i < size,
            ;
            assert(0 <= face * size) by (nonlinear_arith)
                requires
                    0 <= face,
                    0 <= size,
            ;
            assert(rest[face] == faces[face]);
        }
    } else {
        assert(faces.len() * size == 0) by (nonlinear_arith)
            requires
                faces.len() == 0,
        ;
    }
}

/// A cache gives back what was written: once all six faces of a resolution are in the file, the
/// file is accepted with that resolution and no other, and each byte of each texel that the
/// upload of the whole file sets is the one that the upload of the single face set.
pub proof fn law_complete_cache_is_read_back(
    faces: Seq<Seq<u8>>,
    resolution: u32,
    layer: int,
    y: int,
    x: int,
    byte: int,
)
    requires
        faces.len() == 6,
        resolution > 0,
        4 * resolution <= u32::MAX,
        forall|f: int|
            0 <= f < 6 ==> is_face_of_resolution(
                (#[trigger] faces[f]).len() as int,
                resolution as int,
            ),
    ensures
        forall|r: int|
            is_cache_of_resolution(cache_of(faces).len() as int, r) <==> r == resolution,
        0 <= layer < 6 && 0 <= byte < 4 ==> {
            let whole = TextureWrite::of_faces(resolution, 0, 6);
            let single = TextureWrite::of_faces(resolution, layer as u32, 1);
            &&& whole.covers(layer, y, x) <==> single.covers(layer, y, x)
            &&& single.covers(layer, y, x) ==> cache_of(faces)[whole.source(layer, y, x) + byte]
                == faces[layer][single.source(layer, y, x) + byte]
        },
{
    let r = resolution as int;
    let size = 4 * (r * r);
    assert(r * r > 0) by (nonlinear_arith)
        requires
            r > 0,
    ;
    lemma_face_in_cache(faces, size, 0, 0);
    assert(faces.len() * size == 24 * (r * r));
    assert forall|s: int| is_cache_of_resolution(cache_of(faces).len() as int, s) implies s
        == resolution by {
        lemma_same_square(s, r);
    }
    let whole = TextureWrite::of_faces(resolution, 0, 6);
    let single = TextureWrite::of_faces(resolution, layer as u32, 1);
    if 0 <= layer < 6 && 0 <= byte < 4 && single.covers(layer, y, x) {
        let i = single.source(layer, y, x) + byte;
        assert(single.source(layer, y, x) == (0 * r + y) * (4 * r) + 4 * x);
        assert(0 <= y * (4 * r) + 4 * x + byte < 4 * (r * r)) by (nonlinear_arith)
            requires
                0 <= y,
                y + 1 <= r,
                0 <= x,
                x + 1 <= r,
                0 <= byte < 4,
        ;
        lemma_face_in_cache(faces, size, layer, i);
        assert((layer * r + y) * (4 * r) + 4 * x + byte == layer * (4 * (r * r)) + (y * (4 * r) + 4
            * x + byte)) by (nonlinear_arith);
    }
}

/// The resolution of the first face is that of all of them, and each becomes the next layer.
proof fn lemma_collected_faces(
    states: Seq<HdrFaces>,
    faces: Seq<Seq<u8>>,
    uploads: Seq<FaceUpload>,
    count: int,
)
    requires
        0 < count <= faces.len(),
        states.len() == faces.len() + 1,
        uploads.len() == faces.len(),
        states[0].spec_loaded() == 0,
        forall|i: int|
            0 <= i < faces.len() ==> states[i].adds_face(
                states[i + 1],
                (#[trigger] faces[i]).len() as int,
                uploads[i],
            ),
    ensures
        states[count].spec_loaded() == count,
        states[count].spec_resolution() == states[1].spec_resolution(),
    decreases count,
{
    if count > 1 {
        lemma_collected_faces(states, faces, uploads, count - 1);
    }
    assert(states[count - 1].adds_face(
        states[count],
        faces[count - 1].len() as int,
        uploads[count - 1],
    ));
}

/// Collecting six faces and reading the cache that holds them bring the same cubemap to the GPU:
/// only the first face brings a texture, which is the one of the cache, each face is the layer of
/// its place, and each byte of each texel that the face sets is the one that the cache sets.
pub proof fn law_faces_and_cache_agree(
    states: Seq<HdrFaces>,
    faces: Seq<Seq<u8>>,
    uploads: Seq<FaceUpload>,
    cached: CubemapUpload,
    layer: int,
    y: int,
    x: int,
    byte: int,
)
    requires
        faces.len() == 6,
        states.len() == 7,
        uploads.len() == 6,
        states[0].spec_loaded() == 0,
        forall|i: int|
            0 <= i < 6 ==> states[i].adds_face(
                states[i + 1],
                (#[trigger] faces[i]).len() as int,
                uploads[i],
            ),
        is_upload_of_cache(cached, cache_of(faces).len() as int),
        0 <= layer < 6,
        0 <= byte < 4,
    ensures
        uploads[layer].texture == (if layer == 0 {
            Some(cached.texture)
        } else {
            None
        }),
        forall|other: int|
            uploads[layer].write.covers(other, y, x) <==> other == layer && cached.write.covers(
                layer,
                y,
                x,
            ),
        cached.write.covers(layer, y, x) ==> cache_of(faces)[cached.write.source(layer, y, x)
            + byte] == faces[layer][uploads[layer].write.source(layer, y, x) + byte],
{
    let resolution = states[1].spec_resolution()->0;
    assert(states[0].adds_face(states[1], faces[0].len() as int, uploads[0]));
    assert forall|f: int| 0 <= f < 6 implies is_face_of_resolution(
        (#[trigger] faces[f]).len() as int,
        resolution as int,
    ) by {
        lemma_collected_faces(states, faces, uploads, f + 1);
    }
    let r = resolution as int;
    lemma_face_in_cache(faces, 4 * (r * r), 0, 0);
    assert(6 * (4 * (r * r)) == 24 * (r * r));
    lemma_same_square(cached.texture.size.width as int, r);
    law_complete_cache_is_read_back(faces, resolution, layer, y, x, byte);
    lemma_collected_faces(states, faces, uploads, layer + 1);
    if layer > 0 {
        lemma_collected_faces(states, faces, uploads, layer);
    }
    assert(states[layer].adds_face(states[layer + 1], faces[layer].len() as int, uploads[layer]));
}

/// A cache that was cut short after some of the faces is not mistaken for a complete one of
/// another resolution: no number of faces but six makes the size of a cache.
pub proof fn law_interrupted_cache_is_rejected(faces: Seq<Seq<u8>>, resolution: u32, r: int)
    requires
        faces.len() < 6,
        forall|f: int|
            0 <= f < faces.len() ==> is_face_of_resolution(
                (#[trigger] faces[f]).len() as int,
                resolution as int,
            ),
    ensures
        !is_cache_of_resolution(cache_of(faces).len() as int, r),
{
    let q = resolution as int;
    let k = faces.len() as int;
    lemma_face_in_cache(faces, 4 * (q * q), 0, 0);
    if is_cache_of_resolution(cache_of(faces).len() as int, r) {
        assert(k * (4 * (q * q)) == 4 * (k * (q * q))) by (nonlinear_arith);
        let square = q * q;
        assert(6 * (r * r) == k * square);
        assert((k == 1 ==> k * square == square) && (k == 2 ==> k * square == 2 * square) && (k
            == 3 ==> k * square == 3 * square) && (k == 4 ==> k * square == 4 * square) && (k == 5
            ==> k * square == 5 * square)) by (nonlinear_arith);
        if k == 0 {
            assert(r * r > 0) by (nonlinear_arith)
                requires
                    r > 0,
            ;
        } else if k == 1 {
            lemma_six_is_no_square(r, q);
        } else if k == 2 {
            lemma_three_is_no_square(r, q);
        } else if k == 3 {
            lemma_two_is_no_square(r, q);
        } else if k == 4 {
            lemma_divides_square(r, 2);
            let h = r / 2;
            assert(r == 2 * h);
            assert(r * r == 4 * (h * h)) by (nonlinear_arith)
                requires
                    r == 2 * h,
            ;
            lemma_six_is_no_square(h, q);
        } else {
            lemma_six_fifths_is_no_square(r, q);
        }
    }
}

} // verus!
