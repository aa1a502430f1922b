//! Images: their size, their thumbnail, and the name of the file that they are kept in.

use std::collections::hash_map::DefaultHasher;
use std::hash::{Hash, Hasher};
use clipboard_rs::common::RustImage;
use clipboard_rs::RustImageData;
use vstd::prelude::*;
use vstd::std_specs::hash::*;
use crate::text;
use crate::text::{decimal_of, glue};

verus! {

/// An image that was read, and the path of the file that holds it.
#[derive(Debug, PartialEq, Eq)]
pub struct ReadImage {
    pub width: u32,
    pub height: u32,
    pub image: String,
}

/// An image that is still to be saved, under this name.
#[derive(Debug, PartialEq, Eq)]
pub struct ImagePlan {
    pub width: u32,
    pub height: u32,
    pub file_name: String,
}

/// A size that could be read, or the text of an error.
pub open spec fn size_view(size: Result<(u32, u32), String>) -> Result<(u32, u32), Seq<char>> {
    match size {
        Ok(s) => Ok(s),
        Err(e) => Err(e@),
    }
}

/// Bytes that could be made, or the text of an error.
pub open spec fn bytes_view(bytes: Result<Vec<u8>, String>) -> Result<Seq<u8>, Seq<char>> {
    match bytes {
        Ok(b) => Ok(b@),
        Err(e) => Err(e@),
    }
}

/// Bytes that begin as those of a PNG file do.
pub open spec fn png(image: Seq<u8>) -> bool {
    &&& image.len() >= 8
    &&& image[0] == 0x89 && image[1] == 0x50 && image[2] == 0x4e && image[3] == 0x47
    &&& image[4] == 0x0d && image[5] == 0x0a && image[6] == 0x1a && image[7] == 0x0a
}

/// The width and the height that `clipboard_rs` finds in the bytes of a PNG file, or the text of
/// its error.
pub uninterp spec fn decoded_size(image: Seq<u8>) -> Result<(u32, u32), Seq<char>>;

/// The bytes of the PNG file that `clipboard_rs` makes of a PNG file scaled down to fit within this
/// width and height, or the text of its error.
pub uninterp spec fn thumbnail_of(image: Seq<u8>, width: u32, height: u32) -> Result<
    Seq<u8>,
    Seq<char>,
>;

/// `RustImage::get_size` of `clipboard_rs`, on the image that `RustImage::from_bytes` decodes.
/// The result is a function of the bytes alone; which one is left to the name `decoded_size`. Other
/// files than PNG files are left out: which of their formats are decoded depends on the system.
#[verifier::external_body]
fn image_size(image: &Vec<u8>) -> (r: Result<(u32, u32), String>)
    requires
        png(image@),
    ensures
        size_view(r) == decoded_size(image@),
{
    let decoded = RustImageData::from_bytes(image).map_err(|e| e.to_string())?;
    Ok(decoded.get_size())
}

/// The largest value that a channel of a pixel of a PNG file can have: the file holds its bits per
/// channel in its 25th byte, and those of fewer than eight bits are decoded to eight.
pub open spec fn largest_sample(image: Seq<u8>) -> int {
    if image.len() > 24 && image[24] == 16 {
        0xffff
    } else {
        0xff
    }
}

/// A PNG file of this size is scaled down to a tenth without a 32-bit sum that may overflow. Where
/// both sides have ten pixels or more, each pixel of the thumbnail stands for few of the image. A
/// side below ten has the whole image become one pixel: all its pixels are added up in each
/// channel, and half their number for rounding.
pub open spec fn scales(image: Seq<u8>, width: u32, height: u32) -> bool {
    ||| width >= 10 && height >= 10
    ||| largest_sample(image) * (width * height) + width * height / 2 <= u32::MAX
}

/// `RustImage::thumbnail` of `clipboard_rs`, from the image that `RustImage::from_bytes` decodes
/// to the PNG bytes that `RustImage::to_png` encodes. The result is a function of the bytes and of
/// the bounds; which one is left to the name `thumbnail_of`. Other files than PNG files are left
/// out, and so are other bounds than a tenth of the image and images that do not scale: adding up
/// their pixels may overflow, and whether it does depends on the pixels.
#[verifier::external_body]
fn thumbnail_png(image: &Vec<u8>, width: u32, height: u32) -> (r: Result<Vec<u8>, String>)
    requires
        png(image@),
        decoded_size(image@) matches Ok(size) && width == size.0 / 10 && height == size.1 / 10
            && scales(image@, size.0, size.1),
    ensures
        bytes_view(r) == thumbnail_of(image@, width, height),
{
    let decoded = RustImageData::from_bytes(image).map_err(|e| e.to_string())?;
    let thumbnail = decoded.thumbnail(width, height).map_err(|e| e.to_string())?;
    let png = thumbnail.to_png().map_err(|e| e.to_string())?;
    Ok(png.get_bytes().to_vec())
}

/// What hashing a vector of bytes writes to a hasher, on a machine whose words have so many bits
/// and which keeps the low or the high byte of a number first.
pub uninterp spec fn hash_input(
    bytes: Seq<u8>,
    word_bits: u32,
    little_endian: bool,
) -> Seq<Seq<u8>>;

/// `Hash::hash` of std, on a vector of bytes and a `DefaultHasher`. It feeds the vector to the
/// hasher, behind what the hasher was fed before. Equal vectors are fed alike, except that the data
/// differ with the sizes of types and with the order of the bytes of a number; which data they are
/// is not documented, and is left to the name `hash_input`. Which order of bytes the machine has is
/// not said.
#[verifier::external_body]
fn feed(bytes: &Vec<u8>, state: &mut DefaultHasher)
    ensures
        exists|little_endian: bool|
            final(state)@ == old(state)@ + #[trigger] hash_input(
                bytes@,
                usize::BITS,
                little_endian,
            ),
{
    bytes.hash(state)
}

/// The hash of these bytes by a new `DefaultHasher`, on a machine with this order of bytes.
pub open spec fn hash_of(bytes: Seq<u8>, little_endian: bool) -> u64 {
    DefaultHasher::spec_finish(hash_input(bytes, usize::BITS, little_endian))
}

/// The hash of the bytes of a thumbnail.
fn thumbnail_hash(bytes: &Vec<u8>) -> (r: u64)
    ensures
        exists|little_endian: bool| r == #[trigger] hash_of(bytes@, little_endian),
{
    let mut hasher = DefaultHasher::new();
    feed(bytes, &mut hasher);
    proof {
        let little_endian = choose|little_endian: bool|
            hasher@ == Seq::<Seq<u8>>::empty() + #[trigger] hash_input(
                bytes@,
                usize::BITS,
                little_endian,
            );
        assert(hasher@ =~= hash_input(bytes@, usize::BITS, little_endian));
        assert(hash_of(bytes@, little_endian) == DefaultHasher::spec_finish(hasher@));
    }
    hasher.finish()
}

/// The name of the file that holds an image whose thumbnail has this hash.
pub open spec fn file_name_of(hash: u64) -> Seq<char> {
    text::decimal(hash as nat) + ".png"@
}

/// A file name that is made of the hash of the bytes of a thumbnail.
pub open spec fn named_by(file_name: Seq<char>, thumbnail: Seq<u8>) -> bool {
    exists|little_endian: bool|
        file_name == file_name_of(#[trigger] hash_of(thumbnail, little_endian))
}

/// The name of the file that holds an image whose thumbnail has this hash.
pub fn image_file_name(hash: u64) -> (r: String)
    ensures
        r@ == file_name_of(hash),
{
    let digits = decimal_of(hash);
    glue(digits.as_str(), ".png")
}

/// The size of the thumbnail of an image of this size.
pub fn thumbnail_bounds(width: u32, height: u32) -> (r: (u32, u32))
    ensures
        r == (width / 10, height / 10),
{
    (width / 10, height / 10)
}

/// Whether these bytes begin as those of a PNG file do.
pub fn is_png(image: &Vec<u8>) -> (r: bool)
    ensures
        r == png(image@),
{
    image.len() >= 8 && image[0] == 0x89 && image[1] == 0x50 && image[2] == 0x4e && image[3] == 0x47
        && image[4] == 0x0d && image[5] == 0x0a && image[6] == 0x1a && image[7] == 0x0a
}

/// Whether a PNG file of this size is scaled down to a tenth without a sum that may overflow.
pub fn can_scale(image: &Vec<u8>, width: u32, height: u32) -> (r: bool)
    ensures
        r == scales(image@, width, height),
{
    if width >= 10 && height >= 10 {
        return true;
    }
    assert(0 <= width * height <= 0xffff_ffff * 0xffff_ffff) by (nonlinear_arith)
        requires
            0 <= width <= 0xffff_ffff,
            0 <= height <= 0xffff_ffff,
    ;
    let pixels: u64 = width as u64 * height as u64;
    if image.len() > 24 && image[24] == 16 {
        pixels <= 65_536
    } else {
        pixels <= 16_810_048
    }
}

/// How to save the image in these bytes of a PNG file: its size, and a file name made of the hash
/// of its thumbnail, a tenth as wide and as high. There is no plan for an image that does not scale. The hash depends on the order of bytes of the machine, which is not said.
pub fn plan_image(image: &Vec<u8>) -> (r: Result<Option<ImagePlan>, String>)
    requires
        png(image@),
    ensures
        match decoded_size(image@) {
            Err(e) => r matches Err(message) && message@ == e,
            Ok((width, height)) => if !scales(image@, width, height) {
                r == Ok::<Option<ImagePlan>, String>(None)
            } else {
                match thumbnail_of(image@, width / 10, height / 10) {
                    Err(e) => r matches Err(message) && message@ == e,
                    Ok(thumbnail) => {
                        &&& r matches Ok(Some(plan))
                        &&& plan.width == width && plan.height == height
                        &&& named_by(plan.file_name@, thumbnail)
                    },
                }
            },
        },
{
    match image_size(image) {
        Err(e) => Err(e),
        Ok((width, height)) => {
            if !can_scale(image, width, height) {
                return Ok(None);
            }
            let (small_width, small_height) = thumbnail_bounds(width, height);
            match thumbnail_png(image, small_width, small_height) {
                Err(e) => Err(e),
                Ok(bytes) => {
                    let hash = thumbnail_hash(&bytes);
                    Ok(Some(ImagePlan { width, height, file_name: image_file_name(hash) }))
                },
            }
        },
    }
}

/// What reading the image of the clipboard answers, given the path that the image was to be saved
/// under, where it can be written as text, and how the saving went.
pub fn read_image(plan: ImagePlan, path: Option<String>, saved: Result<(), String>) -> (r: Result<
    ReadImage,
    String,
>)
    ensures
        match path {
            None => r matches Err(e) && e@ == "read_image execution error"@,
            Some(p) => match saved {
                Err(e) => r == Err::<ReadImage, String>(e),
                Ok(_) => r == Ok::<ReadImage, String>(
                    ReadImage { width: plan.width, height: plan.height, image: p },
                ),
            },
        },
{
    match path {
        None => Err("read_image execution error".to_string()),
        Some(image) => match saved {
            Err(e) => Err(e),
            Ok(_) => Ok(ReadImage { width: plan.width, height: plan.height, image }),
        },
    }
}

/// What asking for the size of the image in a file answers, given the size that was found there.
pub fn get_image_dimensions(path: String, size: Result<(u32, u32), String>) -> (r: Result<
    ReadImage,
    String,
>)
    ensures
        match size {
            Err(e) => r == Err::<ReadImage, String>(e),
            Ok((width, height)) => r == Ok::<ReadImage, String>(
                ReadImage { width, height, image: path },
            ),
        },
{
    match size {
        Err(e) => Err(e),
        Ok((width, height)) => Ok(ReadImage { width, height, image: path }),
    }
}

/// Two hashes give two file names, and every name ends in `.png` behind the decimal digits of its
/// hash.
pub proof fn law_file_names(hash: u64, other: u64)
    ensures
        file_name_of(hash) == text::decimal(hash as nat) + seq!['.', 'p', 'n', 'g'],
        file_name_of(hash) == file_name_of(other) ==> hash == other,
{
    reveal_strlit(".png");
    assert(".png"@ =~= seq!['.', 'p', 'n', 'g']);
    let (a, b) = (text::decimal(hash as nat), text::decimal(other as nat));
    text::law_decimal(hash as nat);
    text::law_decimal(other as nat);
    if file_name_of(hash) == file_name_of(other) {
        assert((a + ".png"@).len() == (b + ".png"@).len());
        assert forall|i: int| 0 <= i < a.len() implies a[i] == b[i] by {
            assert((a + ".png"@)[i] == (b + ".png"@)[i]);
        }
        assert(a =~= b);
    }
}

/// The file name of an image tells the hash of its thumbnail, on a machine of either order of bytes.
pub proof fn law_named_by(file_name: Seq<char>, thumbnail: Seq<u8>)
    ensures
        named_by(file_name, thumbnail) <==> file_name == file_name_of(hash_of(thumbnail, true))
            || file_name == file_name_of(hash_of(thumbnail, false)),
{
}

/// Every image with both sides of ten pixels or more is scaled, and a narrower one up to a number of
/// pixels: 65536 with 16 bits in a channel, and 16810048 otherwise.
pub proof fn law_scales(image: Seq<u8>, width: u32, height: u32)
    ensures
        width >= 10 && height >= 10 ==> scales(image, width, height),
        (width < 10 || height < 10) && image.len() > 24 && image[24] == 16 ==> (scales(
            image,
            width,
            height,
        ) <==> width * height <= 65_536),
        (width < 10 || height < 10) && !(image.len() > 24 && image[24] == 16) ==> (scales(
            image,
            width,
            height,
        ) <==> width * height <= 16_810_048),
{
}

/// Bytes are taken for a PNG file exactly where they begin with the eight bytes of its signature.
pub proof fn law_png(image: Seq<u8>)
    ensures
        png(image) <==> seq![
            0x89u8,
            0x50,
            0x4e,
            0x47,
            0x0d,
            0x0a,
            0x1a,
            0x0a,
        ].is_prefix_of(image),
{
    let signature = seq![0x89u8, 0x50, 0x4e, 0x47, 0x0d, 0x0a, 0x1a, 0x0a];
    if signature.is_prefix_of(image) {
        let head = image.subrange(0, 8);
        assert(forall|i: int| 0 <= i < 8 ==> head[i] == #[trigger] image[i]);
        assert(head == signature);
    }
}

/// The views of a size and of bytes are those of what was found, and of the text of the error.
pub proof fn law_found_or_error(size: (u32, u32), bytes: Vec<u8>, error: String)
    ensures
        size_view(Ok(size)) == Ok::<(u32, u32), Seq<char>>(size),
        size_view(Err(error)) == Err::<(u32, u32), Seq<char>>(error@),
        bytes_view(Ok(bytes)) == Ok::<Seq<u8>, Seq<char>>(bytes@),
        bytes_view(Err(error)) == Err::<Seq<u8>, Seq<char>>(error@),
{
}

/// The hash of bytes is what a new hasher gives once it has been fed all of them.
pub proof fn law_hash_of(bytes: Seq<u8>, little_endian: bool)
    ensures
        hash_of(bytes, little_endian) == DefaultHasher::spec_finish(
            hash_input(bytes, usize::BITS, little_endian),
        ),
{
}

} // verus!
