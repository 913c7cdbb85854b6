//! Fingerprints of a rendered story: a digest of its markup, a digest of its
//! first style rule, and a perceptual hash of its screenshot.
use vstd::prelude::*;
use vstd::string::StrSliceExecFns;
use vstd::string::StringExecFns;
use crate::story::{component_key_of, Story};

verus! {

/// The MD5 digest of the UTF-8 bytes of `text`.
pub uninterp spec fn md5_of(text: Seq<char>) -> Seq<u8>;

/// The SHA-1 digest of the UTF-8 bytes of `text`.
pub uninterp spec fn sha1_of(text: Seq<char>) -> Seq<u8>;

/// Whether `data` is an image in a format that can be recognised and decoded.
pub uninterp spec fn image_decodes(data: Seq<u8>) -> bool;

/// The eight bytes of the 64-bit block-mean perceptual hash of the image
/// encoded by `data`.
pub uninterp spec fn blockhash_of(data: Seq<u8>) -> Seq<u8>;

/// A decoded image, kept with the bytes it was decoded from.
pub struct DecodedImage {
    source: Vec<u8>,
    image: image::DynamicImage,
}

impl View for DecodedImage {
    type V = Seq<u8>;

    closed spec fn view(&self) -> Seq<u8> {
        self.source@
    }
}

#[verifier::external_type_specification]
#[verifier::external_body]
pub struct ExDynamicImage(image::DynamicImage);

#[verifier::external_type_specification]
#[verifier::external_body]
pub struct ExImageError(image::ImageError);

/// Relies on `md5::compute`: the 16-byte digest of the text's bytes.
#[verifier::external_body]
fn md5_digest(text: &str) -> (r: [u8; 16])
    ensures
        r@ == md5_of(text@),
        r@.len() == 16,
{
    md5::compute(text.as_bytes()).0
}

/// Relies on `sha1::Sha1::digest`: the 20-byte digest of the text's bytes.
#[verifier::external_body]
fn sha1_digest(text: &str) -> (r: [u8; 20])
    ensures
        r@ == sha1_of(text@),
        r@.len() == 20,
{
    <sha1::Sha1 as sha1::Digest>::digest(text.as_bytes()).into()
}

/// Relies on `image::load_from_memory`: guesses the format of `data` and
/// decodes it; fails where the bytes are no image it can decode.
#[verifier::external_body]
fn decode_image(data: &[u8]) -> (r: Result<DecodedImage, image::ImageError>)
    ensures
        r is Ok <==> image_decodes(data@),
        r matches Ok(img) ==> img@ == data@,
{
    match image::load_from_memory(data) {
        Ok(image) => Ok(DecodedImage { source: data.to_vec(), image }),
        Err(e) => Err(e),
    }
}

/// Relies on `blockhash::blockhash64`: the 64-bit block-mean perceptual hash
/// of an image, as its eight bytes; it depends on the image alone.
#[verifier::external_body]
fn block_hash(img: &DecodedImage) -> (r: [u8; 8])
    ensures
        r@ == blockhash_of(img@),
        r@.len() == 8,
{
    blockhash::blockhash64(&img.image).into()
}

/// The lowercase hexadecimal digits, by value.
pub open spec fn hex_digits() -> Seq<char> {
    seq!['0', '1', '2', '3', '4', '5', '6', '7', '8', '9', 'a', 'b', 'c', 'd', 'e', 'f']
}

/// `bytes` in lowercase hexadecimal, two digits per byte, high digit first.
pub open spec fn hex_of(bytes: Seq<u8>) -> Seq<char>
    decreases bytes.len(),
{
    if bytes.len() == 0 {
        Seq::empty()
    } else {
        let b = bytes.last();
        hex_of(bytes.drop_last()) + seq![hex_digits()[(b / 16) as int], hex_digits()[(b % 16) as int]]
    }
}

/// Two hexadecimal digits per byte.
pub proof fn hex_length(bytes: Seq<u8>)
    ensures
        hex_of(bytes).len() == 2 * bytes.len(),
    decreases bytes.len(),
{
    if bytes.len() > 0 {
        hex_length(bytes.drop_last());
    }
}

/// `bytes` in lowercase hexadecimal, two digits per byte.
pub fn to_hex(bytes: &[u8]) -> (r: String)
    ensures
        r@ == hex_of(bytes@),
        r@.len() == 2 * bytes@.len(),
{
    proof {
        hex_length(bytes@);
    }
    let digits = "0123456789abcdef";
    proof {
        reveal_strlit("0123456789abcdef");
    }
    assert(digits@ =~= hex_digits());
    let mut out = String::new();
    let mut i: usize = 0;
    while i < bytes.len()
        invariant
            i <= bytes@.len(),
            digits@ == hex_digits(),
            out@ == hex_of(bytes@.subrange(0, i as int)),
        decreases bytes@.len() - i,
    {
        let b = bytes[i];
        let hi = (b / 16) as usize;
        let lo = (b % 16) as usize;
        out.append(digits.substring_char(hi, hi + 1));
        out.append(digits.substring_char(lo, lo + 1));
        let ghost pre = bytes@.subrange(0, i + 1);
        assert(pre.drop_last() =~= bytes@.subrange(0, i as int));
        assert(out@ =~= hex_of(pre));
        i = i + 1;
    }
    assert(bytes@.subrange(0, i as int) =~= bytes@);
    out
}

/// `"1920x1080"`: the one viewport at which stories are rendered.
pub open spec fn viewport_of_run() -> Seq<char> {
    seq!['1', '9', '2', '0', 'x', '1', '0', '8', '0']
}

/// The fingerprint of one story, captured at one time.
#[derive(Debug)]
pub struct RegressionTest {
    pub component: String,
    pub viewport: String,
    pub dom_hash: String,
    pub style_hash: String,
    pub visual_hash: String,
    pub timestamp: u64,
}

/// What a fingerprint holds.
pub struct FingerprintView {
    pub component: Seq<char>,
    pub viewport: Seq<char>,
    pub dom_hash: Seq<char>,
    pub style_hash: Seq<char>,
    pub visual_hash: Seq<char>,
    pub timestamp: u64,
}

impl View for RegressionTest {
    type V = FingerprintView;

    open spec fn view(&self) -> FingerprintView {
        FingerprintView {
            component: self.component@,
            viewport: self.viewport@,
            dom_hash: self.dom_hash@,
            style_hash: self.style_hash@,
            visual_hash: self.visual_hash@,
            timestamp: self.timestamp,
        }
    }
}

impl RegressionTest {
    /// A copy of this fingerprint.
    pub fn duplicate(&self) -> (r: RegressionTest)
        ensures
            r@ == self@,
    {
        RegressionTest {
            component: self.component.clone(),
            viewport: self.viewport.clone(),
            dom_hash: self.dom_hash.clone(),
            style_hash: self.style_hash.clone(),
            visual_hash: self.visual_hash.clone(),
            timestamp: self.timestamp,
        }
    }
}

/// The fingerprint of the story at `path` named `name`, from its rendered
/// markup `html`, its first style rule `style` and the eight bytes `visual`
/// of its perceptual hash, captured at `timestamp`.
pub open spec fn fingerprint_of(
    path: Seq<char>,
    name: Seq<char>,
    html: Seq<char>,
    style: Seq<char>,
    visual: Seq<u8>,
    timestamp: u64,
) -> FingerprintView {
    FingerprintView {
        component: component_key_of(path, name),
        viewport: viewport_of_run(),
        dom_hash: hex_of(md5_of(html)),
        style_hash: hex_of(sha1_of(style)),
        visual_hash: hex_of(visual),
        timestamp,
    }
}

/// Why a story could not be fingerprinted.
#[derive(PartialEq, Eq, Structural, Clone, Copy, Debug)]
pub enum ExtractError {
    /// The page had no style rule: a broken render.
    MissingStyle,
    /// The screenshot could not be decoded as an image.
    UndecodableScreenshot,
}

/// The perceptual hash of a screenshot, as eight bytes.
pub fn screenshot_hash(png: &[u8]) -> (r: Result<[u8; 8], ExtractError>)
    ensures
        r is Err <==> !image_decodes(png@),
        r matches Err(e) ==> e is UndecodableScreenshot,
        r matches Ok(h) ==> h@ == blockhash_of(png@),
{
    match decode_image(png) {
        Ok(img) => Ok(block_hash(&img)),
        Err(_) => Err(ExtractError::UndecodableScreenshot),
    }
}

/// The fingerprint of `story` from what its rendered page gave: the markup
/// `html`, the text `style` of its first style rule, and the perceptual hash
/// `visual` of its screenshot. A page without style text is a broken render.
pub fn fingerprint(
    story: &Story,
    html: &str,
    style: &str,
    visual: &[u8; 8],
    timestamp: u64,
) -> (r: Result<RegressionTest, ExtractError>)
    ensures
        r is Err <==> style@.len() == 0,
        r matches Err(e) ==> e is MissingStyle,
        r matches Ok(t) ==> t@ == fingerprint_of(
            story.path@,
            story.name@,
            html@,
            style@,
            visual@,
            timestamp,
        ),
        r matches Ok(t) ==> t@.dom_hash.len() == 32 && t@.style_hash.len() == 40
            && t@.visual_hash.len() == 16,
{
    if style.is_empty() {
        return Err(ExtractError::MissingStyle);
    }
    let dom = md5_digest(html);
    let css = sha1_digest(style);
    let viewport = "1920x1080";
    proof {
        reveal_strlit("1920x1080");
    }
    assert(viewport@ =~= viewport_of_run());
    let t = RegressionTest {
        component: story.component_key(),
        viewport: viewport.to_owned(),
        dom_hash: to_hex(&dom),
        style_hash: to_hex(&css),
        visual_hash: to_hex(visual),
        timestamp,
    };
    Ok(t)
}

/// The fingerprint of `story` from its rendered markup, its first style rule
/// and its screenshot (`png`). Fails without style text, then where the
/// screenshot is no image.
pub fn extract(
    story: &Story,
    html: &str,
    style: &str,
    png: &[u8],
    timestamp: u64,
) -> (r: Result<RegressionTest, ExtractError>)
    ensures
        style@.len() == 0 ==> r matches Err(ExtractError::MissingStyle),
        style@.len() > 0 && !image_decodes(png@) ==> r matches Err(
            ExtractError::UndecodableScreenshot,
        ),
        style@.len() > 0 && image_decodes(png@) ==> r is Ok,
        r matches Ok(t) ==> t@ == fingerprint_of(
            story.path@,
            story.name@,
            html@,
            style@,
            blockhash_of(png@),
            timestamp,
        ),
        r matches Ok(t) ==> t@.dom_hash.len() == 32 && t@.style_hash.len() == 40
            && t@.visual_hash.len() == 16,
{
    if style.is_empty() {
        return Err(ExtractError::MissingStyle);
    }
    let visual = screenshot_hash(png)?;
    fingerprint(story, html, style, &visual, timestamp)
}

/// Fingerprints are stable: the same rendered page (markup, style rule and
/// screenshot) gives the same markup, style and visual hashes.
pub proof fn fingerprint_is_stable(
    path: Seq<char>,
    name: Seq<char>,
    html: Seq<char>,
    style: Seq<char>,
    png: Seq<u8>,
    first_time: u64,
    second_time: u64,
)
    ensures
        ({
            let a = fingerprint_of(path, name, html, style, blockhash_of(png), first_time);
            let b = fingerprint_of(path, name, html, style, blockhash_of(png), second_time);
            a.dom_hash == b.dom_hash && a.style_hash == b.style_hash && a.visual_hash
                == b.visual_hash && a.component == b.component
        }),
{
}

} // verus!
