//! Storing an image: every upload is re-encoded as JPEG and kept under its
//! upload's identifier and its place in the upload.

use crate::error::Error;
use crate::random::{all_alphanumeric, randstring};
use crate::text::{decimal, decimal_digits};
use vstd::prelude::*;
use vstd::string::StringExecFns;

verus! {

/// The content type under which every image is stored.
pub const CONTENT_TYPE: &'static str = "image/jpeg";

/// The number of letters and digits in an upload's identifier.
pub const UPLOAD_ID_LENGTH: usize = 16;

/// `image::ImageError`, the error of the `image` crate's readers and
/// writers. Nothing is known of a value but that it is one.
#[verifier::external_type_specification]
#[verifier::external_body]
pub struct ExImageError(image::ImageError);

/// The JPEG file that the `image` crate makes of the image file `data`:
/// what `DynamicImage::write_to` writes, for the JPEG format, of what
/// `image::load_from_memory` reads. There is none if `data` cannot be
/// read as an image or the image cannot be written as JPEG.
pub uninterp spec fn jpeg_of(data: Seq<u8>) -> Option<Seq<u8>>;

/// Reads `data` with `image::load_from_memory`, which guesses the format
/// from the first bytes, and writes the image with
/// `image::DynamicImage::write_to` as JPEG into memory. The outcome depends
/// on the bytes of `data` alone.
#[verifier::external_body]
fn reencode_as_jpeg(data: &[u8]) -> (out: Result<Vec<u8>, image::ImageError>)
    ensures
        match out {
            Ok(jpeg) => jpeg_of(data@) == Some(jpeg@),
            Err(_) => jpeg_of(data@) is None,
        },
{
    let image = image::load_from_memory(data)?;
    let mut output = Vec::new();
    image.write_to(&mut std::io::Cursor::new(&mut output), image::ImageFormat::Jpeg)?;
    Ok(output)
}

/// Re-encodes the image file `data` as JPEG. Fails with `Image` exactly
/// when the file cannot be read as an image or written as JPEG.
pub fn convert_image(data: &[u8]) -> (jpeg: Result<Vec<u8>, Error>)
    ensures
        match jpeg {
            Ok(bytes) => jpeg_of(data@) == Some(bytes@),
            Err(e) => e == Error::Image && jpeg_of(data@) is None,
        },
{
    match reencode_as_jpeg(data) {
        Ok(bytes) => Ok(bytes),
        Err(_) => Err(Error::Image),
    }
}

/// The name of the object that holds image number `seq` of upload `id`.
pub open spec fn object_key_of(id: Seq<char>, seq: u64) -> Seq<char> {
    id + "/"@ + decimal_digits(seq as nat) + ".jpeg"@
}

/// Names the object that holds image number `seq` of upload `id`.
pub fn object_key(id: &str, seq: u64) -> (key: String)
    ensures
        key@ == object_key_of(id@, seq),
{
    let mut key = String::from_str(id);
    key.append("/");
    key.append(decimal(seq).as_str());
    key.append(".jpeg");
    key
}

/// An object to put into the bucket.
#[derive(Debug, Clone, PartialEq, Eq)]
pub struct PutObject {
    pub key: String,
    pub content: Vec<u8>,
    pub content_type: &'static str,
}

/// Prepares image number `seq` of upload `id` for storage: the image file
/// `image` is re-encoded as JPEG and named. Fails with `Image` exactly when
/// `image` cannot be re-encoded.
pub fn upload_raw(id: &str, seq: u64, image: &[u8]) -> (put: Result<PutObject, Error>)
    ensures
        match put {
            Ok(object) => jpeg_of(image@) == Some(object.content@) && object.key@
                == object_key_of(id@, seq) && object.content_type@ == CONTENT_TYPE@,
            Err(e) => e == Error::Image && jpeg_of(image@) is None,
        },
{
    match convert_image(image) {
        Ok(content) => Ok(
            PutObject { key: object_key(id, seq), content, content_type: CONTENT_TYPE },
        ),
        Err(e) => Err(e),
    }
}

/// Prepares a single image for storage as an upload of its own, under a
/// fresh random identifier of 16 letters and digits, which is returned with
/// the object.
pub fn upload(image: &[u8]) -> (put: Result<(String, PutObject), Error>)
    ensures
        match put {
            Ok((id, object)) => id@.len() == UPLOAD_ID_LENGTH && all_alphanumeric(id@) && jpeg_of(
                image@,
            ) == Some(object.content@) && object.key@ == object_key_of(id@, 0)
                && object.content_type@ == CONTENT_TYPE@,
            Err(e) => e == Error::Image && jpeg_of(image@) is None,
        },
{
    let id = randstring(UPLOAD_ID_LENGTH);
    match upload_raw(id.as_str(), 0, image) {
        Ok(object) => Ok((id, object)),
        Err(e) => Err(e),
    }
}

} // verus!
