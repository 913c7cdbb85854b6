use visage::{extract, fingerprint, screenshot_hash, to_hex, ExtractError, Story};

fn png_of(width: u32, height: u32, shade: u8) -> Vec<u8> {
    let img = image::RgbaImage::from_fn(width, height, |x, _| {
        if x < width / 2 {
            image::Rgba([shade, shade, shade, 255])
        } else {
            image::Rgba([255 - shade, 0, 0, 255])
        }
    });
    let mut bytes = std::io::Cursor::new(Vec::new());
    img.write_to(&mut bytes, image::ImageFormat::Png).unwrap();
    bytes.into_inner()
}

#[test]
fn hex_is_two_lowercase_digits_per_byte() {
    assert_eq!(to_hex(&[0x00, 0xab, 0x0f, 0xff]), "00ab0fff");
    assert_eq!(to_hex(&[]), "");
}

#[test]
fn fingerprint_digests_markup_and_style() {
    let story = Story::new("src/Button.stories.ts", "Primary");
    let t = fingerprint(&story, "abc", "abc", &[1, 2, 3, 4, 5, 6, 7, 0xff], 42).unwrap();
    assert_eq!(t.dom_hash, "900150983cd24fb0d6963f7d28e17f72");
    assert_eq!(t.style_hash, "a9993e364706816aba3e25717850c26c9cd0d89d");
    assert_eq!(t.visual_hash, "01020304050607ff");
    assert_eq!(t.component, "Primary.src/Button.stories.ts");
    assert_eq!(t.viewport, "1920x1080");
    assert_eq!(t.timestamp, 42);
    assert_eq!((t.dom_hash.len(), t.style_hash.len(), t.visual_hash.len()), (32, 40, 16));
    let empty = fingerprint(&story, "", "x", &[0; 8], 0).unwrap();
    assert_eq!(empty.dom_hash, "d41d8cd98f00b204e9800998ecf8427e");
}

#[test]
fn missing_style_is_a_broken_render() {
    let story = Story::new("a/B.stories.ts", "C");
    assert_eq!(fingerprint(&story, "<html></html>", "", &[0; 8], 0).unwrap_err(), ExtractError::MissingStyle);
    assert_eq!(
        extract(&story, "<html></html>", "", &png_of(8, 8, 10), 0).unwrap_err(),
        ExtractError::MissingStyle
    );
}

#[test]
fn undecodable_screenshot_is_an_error() {
    assert_eq!(screenshot_hash(b"not an image").unwrap_err(), ExtractError::UndecodableScreenshot);
    let story = Story::new("a/B.stories.ts", "C");
    assert_eq!(
        extract(&story, "<p/>", "p { }", b"garbage", 0).unwrap_err(),
        ExtractError::UndecodableScreenshot
    );
}

#[test]
fn screenshot_hash_is_the_block_hash_of_the_image() {
    let png = png_of(32, 32, 20);
    let got = screenshot_hash(&png).unwrap();
    let img = image::load_from_memory(&png).unwrap();
    let want: [u8; 8] = blockhash::blockhash64(&img).into();
    assert_eq!(got, want);
    assert_eq!(to_hex(&got), blockhash::blockhash64(&img).to_string());
}

#[test]
fn re_extraction_of_an_unchanged_page_is_identical() {
    let story = Story::new("src/Card.stories.tsx", "Default");
    let png = png_of(16, 16, 40);
    let a = extract(&story, "<div>card</div>", ".card { color: red; }", &png, 1).unwrap();
    let b = extract(&story, "<div>card</div>", ".card { color: red; }", &png, 2).unwrap();
    assert_eq!(a.dom_hash, b.dom_hash);
    assert_eq!(a.style_hash, b.style_hash);
    assert_eq!(a.visual_hash, b.visual_hash);
    assert_eq!(a.visual_hash.len(), 16);
}

#[test]
fn a_markup_change_changes_the_dom_hash() {
    let story = Story::new("src/Card.stories.tsx", "Default");
    let a = fingerprint(&story, "<div class=\"a\"></div>", "x", &[0; 8], 0).unwrap();
    let b = fingerprint(&story, "<div class=\"b\"></div>", "x", &[0; 8], 0).unwrap();
    assert_ne!(a.dom_hash, b.dom_hash);
    assert_eq!(a.style_hash, b.style_hash);
}
