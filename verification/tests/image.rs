use std::collections::hash_map::DefaultHasher;
use std::hash::{Hash, Hasher};

use clipboard_rs::common::RustImage;
use clipboard_rs::RustImageData;
use eco_clipboard::image;
use eco_clipboard::image::{ImagePlan, ReadImage};

fn crc32(bytes: &[u8]) -> u32 {
    let mut crc = 0xffff_ffffu32;
    for b in bytes {
        crc ^= *b as u32;
        for _ in 0..8 {
            crc = if crc & 1 == 1 { (crc >> 1) ^ 0xedb8_8320 } else { crc >> 1 };
        }
    }
    !crc
}

fn chunk(out: &mut Vec<u8>, kind: &[u8; 4], data: &[u8]) {
    out.extend((data.len() as u32).to_be_bytes());
    let mut body = kind.to_vec();
    body.extend(data);
    out.extend(&body);
    out.extend(crc32(&body).to_be_bytes());
}

/// A grey PNG file whose pixel at (x, y) is `seed + 3 * x + 7 * y`, stored without compression.
fn png(width: u32, height: u32, seed: u32) -> Vec<u8> {
    grey_png(8, width, height, seed)
}

/// A grey PNG file with 8 or 16 bits a pixel.
fn grey_png(bits: u8, width: u32, height: u32, seed: u32) -> Vec<u8> {
    let mut raw: Vec<u8> = Vec::new();
    for y in 0..height {
        raw.push(0);
        for x in 0..width {
            for _ in 0..bits / 8 {
                raw.push((seed + 3 * x + 7 * y) as u8);
            }
        }
    }
    let (mut a, mut b) = (1u32, 0u32);
    for r in &raw {
        a = (a + *r as u32) % 65521;
        b = (b + a) % 65521;
    }
    let mut zlib: Vec<u8> = vec![0x78, 0x01];
    let mut blocks = raw.chunks(0xffff).peekable();
    while let Some(block) = blocks.next() {
        zlib.push(if blocks.peek().is_none() { 1 } else { 0 });
        zlib.extend((block.len() as u16).to_le_bytes());
        zlib.extend((!(block.len() as u16)).to_le_bytes());
        zlib.extend(block);
    }
    zlib.extend(((b << 16) | a).to_be_bytes());
    let mut out: Vec<u8> = vec![0x89, 0x50, 0x4e, 0x47, 0x0d, 0x0a, 0x1a, 0x0a];
    let mut header: Vec<u8> = Vec::new();
    header.extend(width.to_be_bytes());
    header.extend(height.to_be_bytes());
    header.extend([bits, 0, 0, 0, 0]);
    chunk(&mut out, b"IHDR", &header);
    chunk(&mut out, b"IDAT", &zlib);
    chunk(&mut out, b"IEND", &[]);
    out
}

fn hashed(bytes: &Vec<u8>) -> u64 {
    let mut hasher = DefaultHasher::new();
    bytes.hash(&mut hasher);
    hasher.finish()
}

fn expected_plan(file: &[u8]) -> ImagePlan {
    let decoded = RustImageData::from_bytes(file).unwrap();
    let (width, height) = decoded.get_size();
    let small = decoded.thumbnail(width / 10, height / 10).unwrap();
    let bytes = small.to_png().unwrap().get_bytes().to_vec();
    ImagePlan { width, height, file_name: format!("{}.png", hashed(&bytes)) }
}

#[test]
fn an_image_is_named_by_its_thumbnail() {
    let file = png(40, 30, 0);
    let plan = image::plan_image(&file).unwrap().unwrap();
    assert_eq!(plan.width, 40);
    assert_eq!(plan.height, 30);
    assert_eq!(plan, expected_plan(&file));
    assert_ne!(plan.file_name, format!("{}.png", hashed(&file)));
}

#[test]
fn the_same_image_has_the_same_name() {
    let first = image::plan_image(&png(40, 30, 5)).unwrap().unwrap();
    let again = image::plan_image(&png(40, 30, 5)).unwrap().unwrap();
    let other = image::plan_image(&png(40, 30, 90)).unwrap().unwrap();
    assert_eq!(first, again);
    assert_ne!(first.file_name, other.file_name);
}

#[test]
fn an_image_below_ten_pixels_has_a_thumbnail_too() {
    let file = png(7, 3, 1);
    assert_eq!(image::plan_image(&file).unwrap(), Some(expected_plan(&file)));
}

#[test]
fn a_narrow_image_of_eight_bits_is_planned() {
    for (width, height) in [(8, 8193), (9, 10_000), (10_000, 9), (1, 70_000)] {
        let file = png(width, height, 0);
        let plan = image::plan_image(&file).unwrap();
        assert_eq!(plan, Some(expected_plan(&file)));
        assert_eq!(plan.unwrap().height, height);
    }
}

#[test]
fn a_narrow_image_of_sixteen_bits_is_planned_while_its_sums_fit() {
    let most = grey_png(16, 8, 8192, 0);
    assert_eq!(image::plan_image(&most).unwrap(), Some(expected_plan(&most)));
    assert_eq!(image::plan_image(&grey_png(16, 8, 8193, 0)), Ok(None));
    let wide = grey_png(16, 30, 8193, 0);
    assert_eq!(image::plan_image(&wide).unwrap(), Some(expected_plan(&wide)));
}

#[test]
fn the_bits_of_an_image_decide_which_sizes_scale() {
    let (eight, sixteen) = (png(2, 2, 0), grey_png(16, 2, 2, 0));
    for file in [&eight, &sixteen] {
        assert!(image::can_scale(file, 10, 10));
        assert!(image::can_scale(file, u32::MAX, u32::MAX));
        assert!(image::can_scale(file, 1, 65_536));
        assert!(!image::can_scale(file, u32::MAX, 9));
    }
    assert!(!image::can_scale(&sixteen, 1, 65_537));
    assert!(!image::can_scale(&sixteen, 9, 8000));
    assert!(image::can_scale(&eight, 1, 65_537));
    assert!(image::can_scale(&eight, 1, 16_810_048));
    assert!(!image::can_scale(&eight, 1, 16_810_049));
    assert!(!image::can_scale(&eight, 9, 2_000_000));
}

#[test]
fn bytes_that_are_no_image_are_refused() {
    let bytes = png(40, 30, 0)[..20].to_vec();
    let error = match RustImageData::from_bytes(&bytes) {
        Ok(_) => panic!("decoded"),
        Err(e) => e.to_string(),
    };
    assert_eq!(image::plan_image(&bytes), Err(error));
}

#[test]
fn png_files_are_told_by_their_first_bytes() {
    assert!(image::is_png(&png(2, 2, 0)));
    assert!(image::is_png(&vec![0x89, 0x50, 0x4e, 0x47, 0x0d, 0x0a, 0x1a, 0x0a]));
    assert!(!image::is_png(&vec![0x89, 0x50, 0x4e, 0x47, 0x0d, 0x0a, 0x1a]));
    assert!(!image::is_png(&vec![0x89, 0x50, 0x4e, 0x47, 0x0d, 0x0a, 0x1a, 0x0b]));
    assert!(!image::is_png(&b"BM not a png file".to_vec()));
    assert!(!image::is_png(&Vec::new()));
}

#[test]
fn file_names_are_decimal() {
    assert_eq!(image::image_file_name(0), "0.png");
    assert_eq!(image::image_file_name(9), "9.png");
    assert_eq!(image::image_file_name(10), "10.png");
    assert_eq!(image::image_file_name(1203), "1203.png");
    assert_eq!(image::image_file_name(u64::MAX), "18446744073709551615.png");
}

#[test]
fn thumbnails_are_a_tenth() {
    assert_eq!(image::thumbnail_bounds(1920, 1080), (192, 108));
    assert_eq!(image::thumbnail_bounds(9, 19), (0, 1));
}

#[test]
fn read_images_answer_their_path() {
    let plan = || ImagePlan { width: 4, height: 5, file_name: "1.png".to_string() };
    assert_eq!(
        image::read_image(plan(), Some("/d/1.png".to_string()), Ok(())),
        Ok(ReadImage { width: 4, height: 5, image: "/d/1.png".to_string() })
    );
    assert_eq!(
        image::read_image(plan(), Some("/d/1.png".to_string()), Err("full".to_string())),
        Err("full".to_string())
    );
    assert_eq!(
        image::read_image(plan(), None, Ok(())),
        Err("read_image execution error".to_string())
    );
}

#[test]
fn image_dimensions_answer_their_path() {
    assert_eq!(
        image::get_image_dimensions("/x.png".to_string(), Ok((3, 2))),
        Ok(ReadImage { width: 3, height: 2, image: "/x.png".to_string() })
    );
    assert_eq!(
        image::get_image_dimensions("/x.png".to_string(), Err("gone".to_string())),
        Err("gone".to_string())
    );
}
