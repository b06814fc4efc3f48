//! Figure uploads: the multipart form a figure arrives in, the checks its image
//! must pass, and its conversion to JPEG.

use crate::error::ServerError;
use crate::text::{opt_text, same_text, string_from_utf8};
use image::GenericImageView;
use vstd::prelude::*;
use vstd::utf8::{decode_utf8, valid_utf8};

verus! {

/// The JPEG quality uploaded images are re-encoded with.
pub const JPEG_QUALITY: u8 = 90;

/// The file extensions of the image formats accepted for figures.
pub open spec fn accepted_extension(e: Seq<char>) -> bool {
    e == "jpg"@ || e == "jpeg"@ || e == "png"@
}

/// The file extensions of the format that the leading bytes of `data` reveal, if
/// any (as `image::io::Reader::with_guessed_format` and `ImageFormat::extensions_str`
/// of image give them).
pub uninterp spec fn guessed_format_extensions(data: Seq<u8>) -> Option<Seq<Seq<char>>>;

/// The width and height of the image `data` encodes, if image decodes it.
pub uninterp spec fn decoded_dimensions(data: Seq<u8>) -> Option<(u32, u32)>;

/// The JPEG encoding at `quality` of the image `data` encodes, if image decodes it
/// and encodes the result.
pub uninterp spec fn jpeg_reencoding(data: Seq<u8>, quality: u8) -> Option<Seq<u8>>;

/// `data` begins with the bytes of `prefix`.
pub open spec fn begins_with(data: Seq<u8>, prefix: Seq<u8>) -> bool {
    prefix.len() <= data.len() && data.take(prefix.len() as int) == prefix
}

/// The signature a PNG file begins with.
pub open spec fn png_signature() -> Seq<u8> {
    seq![0x89u8, 0x50u8, 0x4eu8, 0x47u8, 0x0du8, 0x0au8, 0x1au8, 0x0au8]
}

/// The signature a JPEG file begins with.
pub open spec fn jpeg_signature() -> Seq<u8> {
    seq![0xffu8, 0xd8u8, 0xffu8]
}

/// Calls `image::io::Reader::with_guessed_format` on the bytes and then
/// `ImageFormat::extensions_str` of the guessed format. Trusted: the result is the
/// extensions of the format guessed from the bytes, or none when no format is
/// recognised; it depends on the bytes alone. The guess compares the first bytes
/// with a table of signatures whose first two entries are PNG's and JPEG's, so
/// bytes that begin with the PNG signature give `png`, and bytes that begin with
/// the JPEG signature give `jpg` and `jpeg`. No other format in the table has
/// the extension `jpg`, `jpeg` or `png`, so no other bytes give one of them.
#[verifier::external_body]
fn guess_format_extensions(data: &[u8]) -> (extensions: Option<Vec<&'static str>>)
    ensures
        extension_texts(extensions) == guessed_format_extensions(data@),
        begins_with(data@, png_signature()) ==> extension_texts(extensions) == Some(seq!["png"@]),
        begins_with(data@, jpeg_signature()) ==> extension_texts(extensions) == Some(
            seq!["jpg"@, "jpeg"@],
        ),
        extension_texts(extensions) matches Some(e) && includes_accepted_extension(e) ==> begins_with(
            data@,
            png_signature(),
        ) || begins_with(data@, jpeg_signature()),
{
    match image::io::Reader::new(std::io::Cursor::new(data)).with_guessed_format() {
        Ok(reader) => match reader.format() {
            Some(format) => Some(format.extensions_str().to_vec()),
            None => None,
        },
        Err(_) => None,
    }
}

/// Calls `image::load_from_memory` and `GenericImageView::dimensions` of image.
/// Trusted: the result is the decoded image's width and height, or none when the
/// bytes do not decode; it depends on the bytes alone.
#[verifier::external_body]
fn image_dimensions(data: &[u8]) -> (dimensions: Option<(u32, u32)>)
    ensures
        dimensions == decoded_dimensions(data@),
{
    match image::load_from_memory(data) {
        Ok(decoded) => Some(decoded.dimensions()),
        Err(_) => None,
    }
}

/// Calls `image::load_from_memory` and `DynamicImage::write_to` with
/// `ImageOutputFormat::Jpeg(quality)` of image. Trusted: the result is the JPEG
/// encoding of the decoded image, or none when decoding or encoding fails; it
/// depends on the bytes and the quality alone.
#[verifier::external_body]
fn reencode_as_jpeg(data: &[u8], quality: u8) -> (jpeg: Option<Vec<u8>>)
    ensures
        match jpeg {
            Some(j) => jpeg_reencoding(data@, quality) == Some(j@),
            None => jpeg_reencoding(data@, quality) is None,
        },
{
    let mut buffer: Vec<u8> = Vec::new();
    match image::load_from_memory(data) {
        Ok(decoded) => match decoded.write_to(
            &mut std::io::Cursor::new(&mut buffer),
            image::ImageOutputFormat::Jpeg(quality),
        ) {
            Ok(()) => Some(buffer),
            Err(_) => None,
        },
        Err(_) => None,
    }
}

/// A field of the multipart form as it was read: its name and its bytes, either
/// of which may have failed to come.
#[derive(Debug)]
pub struct FieldRead {
    pub name: Option<String>,
    pub data: Option<Vec<u8>>,
}

/// Why a multipart form was refused.
#[derive(Debug, Clone, Copy, PartialEq, Eq)]
pub enum MultipartError {
    /// A field came without a name.
    MissingFieldName,
    /// The bytes of a field could not be read.
    UnreadableField,
    /// The title or the description is not UTF-8.
    NotUtf8,
    /// The title or the file is missing.
    MissingField,
    /// No image format is recognised in the file.
    UnknownFormat,
    /// The file is neither JPEG nor PNG, or does not decode.
    InvalidImage,
    /// The image could not be re-encoded as JPEG.
    EncodingFailed,
}

impl MultipartError {
    /// Every refused form is answered `InvalidMultipart`.
    pub fn to_server_error(&self) -> (e: ServerError)
        ensures
            e == ServerError::InvalidMultipart,
    {
        ServerError::InvalidMultipart
    }
}

/// A figure upload ready to be stored: the image is JPEG.
#[derive(Debug)]
pub struct ParsedUpload {
    pub title: String,
    pub description: Option<String>,
    pub image: Vec<u8>,
    pub width: u32,
    pub height: u32,
}

/// The form fields gathered so far, or why gathering stopped.
pub enum Gathered {
    Failed(MultipartError),
    Fields { title: Option<Seq<char>>, description: Option<Seq<char>>, image: Option<Seq<u8>> },
}

pub open spec fn field_bytes(field: FieldRead) -> Option<Seq<u8>> {
    match field.data {
        Some(d) => Some(d@),
        None => None,
    }
}

/// One field read into what was gathered: `title` and `description` must be
/// UTF-8, `file` is the image, other names are ignored; a later field of the
/// same name replaces an earlier one.
pub open spec fn gather_step(gathered: Gathered, field: FieldRead) -> Gathered {
    match gathered {
        Gathered::Failed(e) => Gathered::Failed(e),
        Gathered::Fields { title, description, image } => match field.name {
            None => Gathered::Failed(MultipartError::MissingFieldName),
            Some(name) => match field_bytes(field) {
                None => Gathered::Failed(MultipartError::UnreadableField),
                Some(bytes) => if name@ == "title"@ {
                    if valid_utf8(bytes) {
                        Gathered::Fields { title: Some(decode_utf8(bytes)), description, image }
                    } else {
                        Gathered::Failed(MultipartError::NotUtf8)
                    }
                } else if name@ == "description"@ {
                    if valid_utf8(bytes) {
                        Gathered::Fields { title, description: Some(decode_utf8(bytes)), image }
                    } else {
                        Gathered::Failed(MultipartError::NotUtf8)
                    }
                } else if name@ == "file"@ {
                    Gathered::Fields { title, description, image: Some(bytes) }
                } else {
                    Gathered::Fields { title, description, image }
                },
            },
        },
    }
}

/// The fields read in order, gathered.
pub open spec fn gather(fields: Seq<FieldRead>) -> Gathered
    decreases fields.len(),
{
    if fields.len() == 0 {
        Gathered::Fields { title: None, description: None, image: None }
    } else {
        gather_step(gather(fields.drop_last()), fields.last())
    }
}

/// One of the extensions is `jpg`, `jpeg` or `png`.
pub open spec fn includes_accepted_extension(extensions: Seq<Seq<char>>) -> bool {
    exists|i: int| 0 <= i < extensions.len() && accepted_extension(#[trigger] extensions[i])
}

/// The verdict on the extensions of the format guessed for a file: none
/// guessed is `UnknownFormat`; a format without the extension `jpg`, `jpeg` or
/// `png` is `InvalidImage`.
pub open spec fn format_verdict(extensions: Option<Seq<Seq<char>>>) -> Result<(), MultipartError> {
    match extensions {
        None => Err(MultipartError::UnknownFormat),
        Some(e) => if includes_accepted_extension(e) {
            Ok(())
        } else {
            Err(MultipartError::InvalidImage)
        },
    }
}

/// The texts of a list of extensions, if there is one.
pub open spec fn extension_texts(extensions: Option<Vec<&'static str>>) -> Option<Seq<Seq<char>>> {
    match extensions {
        Some(e) => Some(e@.map_values(|x: &str| x@)),
        None => None,
    }
}

/// What an upload becomes: its title, description, JPEG image, width and
/// height, or why it was refused. A title and a file are required; the file must
/// be a JPEG or PNG image that decodes, and is re-encoded as JPEG.
pub open spec fn upload_outcome(fields: Seq<FieldRead>) -> Result<
    (Seq<char>, Option<Seq<char>>, Seq<u8>, u32, u32),
    MultipartError,
> {
    match gather(fields) {
        Gathered::Failed(e) => Err(e),
        Gathered::Fields { title, description, image } => if title is None || image is None {
            Err(MultipartError::MissingField)
        } else {
            let data = image->0;
            match format_verdict(guessed_format_extensions(data)) {
                Err(e) => Err(e),
                Ok(()) => match decoded_dimensions(data) {
                    None => Err(MultipartError::InvalidImage),
                    Some((width, height)) => match jpeg_reencoding(data, JPEG_QUALITY) {
                        None => Err(MultipartError::EncodingFailed),
                        Some(jpeg) => Ok((title->0, description, jpeg, width, height)),
                    },
                },
            }
        },
    }
}

/// Once a field is refused, the upload is refused for that reason, whatever
/// fields follow.
pub proof fn lemma_refused_at_first_bad_field(fields: Seq<FieldRead>, n: int, e: MultipartError)
    requires
        0 <= n <= fields.len(),
        gather(fields.take(n)) == Gathered::Failed(e),
    ensures
        gather(fields) == Gathered::Failed(e),
        upload_outcome(fields) == Err::<(Seq<char>, Option<Seq<char>>, Seq<u8>, u32, u32), MultipartError>(e),
    decreases fields.len() - n,
{
    if n < fields.len() {
        assert(fields.take(n + 1).drop_last() =~= fields.take(n));
        lemma_refused_at_first_bad_field(fields, n + 1, e);
    } else {
        assert(fields.take(n) =~= fields);
    }
}

/// The field has the name `name`.
pub open spec fn is_named(field: FieldRead, name: Seq<char>) -> bool {
    field.name matches Some(n) && n@ == name
}

/// `fields[k]` is the last field named `name`.
pub open spec fn last_named(fields: Seq<FieldRead>, k: int, name: Seq<char>) -> bool {
    &&& 0 <= k < fields.len()
    &&& is_named(fields[k], name)
    &&& forall|j: int| k < j < fields.len() ==> !is_named(#[trigger] fields[j], name)
}

/// No field is named `name`.
pub open spec fn none_named(fields: Seq<FieldRead>, name: Seq<char>) -> bool {
    forall|j: int| 0 <= j < fields.len() ==> !is_named(#[trigger] fields[j], name)
}

/// The field holds UTF-8 text reading `text`.
pub open spec fn holds_text(field: FieldRead, text: Seq<char>) -> bool {
    field_bytes(field) matches Some(b) && valid_utf8(b) && decode_utf8(b) == text
}

/// The last field named `name` holds UTF-8 text reading `text`.
pub open spec fn last_text_field(fields: Seq<FieldRead>, name: Seq<char>, text: Seq<char>) -> bool {
    exists|k: int| #[trigger] last_named(fields, k, name) && holds_text(fields[k], text)
}

proof fn lemma_last_named_extend(fields: Seq<FieldRead>, k: int, name: Seq<char>)
    requires
        fields.len() > 0,
        last_named(fields.drop_last(), k, name),
        !is_named(fields.last(), name),
    ensures
        last_named(fields, k, name),
{
    assert forall|j: int| k < j < fields.len() implies !is_named(#[trigger] fields[j], name) by {
        if j < fields.len() - 1 {
            assert(fields.drop_last()[j] == fields[j]);
        }
    }
}

proof fn lemma_text_field_extend(fields: Seq<FieldRead>, name: Seq<char>, text: Seq<char>)
    requires
        fields.len() > 0,
        last_text_field(fields.drop_last(), name, text),
        !is_named(fields.last(), name),
    ensures
        last_text_field(fields, name, text),
{
    let k = choose|k: int| #[trigger] last_named(fields.drop_last(), k, name) && holds_text(fields.drop_last()[k], text);
    lemma_last_named_extend(fields, k, name);
    assert(fields.drop_last()[k] == fields[k]);
}

proof fn lemma_none_named_extend(fields: Seq<FieldRead>, name: Seq<char>)
    requires
        fields.len() > 0,
        none_named(fields.drop_last(), name),
        !is_named(fields.last(), name),
    ensures
        none_named(fields, name),
{
    assert forall|j: int| 0 <= j < fields.len() implies !is_named(#[trigger] fields[j], name) by {
        if j < fields.len() - 1 {
            assert(fields.drop_last()[j] == fields[j]);
        }
    }
}

/// What was gathered from the fields comes from the last field of each name:
/// the title and description are the text of the last field so named (none
/// when there is no such field), and the image the bytes of the last `file`.
#[verifier::spinoff_prover]
#[verifier::rlimit(40)]
proof fn lemma_gathered_from_last_fields(fields: Seq<FieldRead>)
    ensures
        gather(fields) is Fields ==> {
            &&& (gather(fields)->title matches Some(t) ==> last_text_field(fields, "title"@, t))
            &&& (gather(fields)->title is None ==> none_named(fields, "title"@))
            &&& (gather(fields)->description matches Some(t) ==> last_text_field(fields, "description"@, t))
            &&& (gather(fields)->description is None ==> none_named(fields, "description"@))
            &&& (gather(fields)->image matches Some(b) ==> exists|k: int|
                #[trigger] last_named(fields, k, "file"@) && field_bytes(fields[k]) == Some(b))
        },
    decreases fields.len(),
{
    reveal_strlit("title");
    reveal_strlit("description");
    reveal_strlit("file");
    assert("title"@.len() == 5 && "description"@.len() == 11 && "file"@.len() == 4);
    if fields.len() > 0 {
        let rest = fields.drop_last();
        let last = fields.last();
        lemma_gathered_from_last_fields(rest);
        let g = gather(fields);
        if g is Fields {
            let before = gather(rest);
            assert(before is Fields);
            let name = last.name->0;
            let bytes = field_bytes(last)->0;
            let k_last = fields.len() - 1;
            assert(fields[k_last] == last);
            // The last field's own name, and the names it is not.
            if name@ == "title"@ {
                assert(holds_text(fields[k_last], g->title->0));
                assert(last_named(fields, k_last, "title"@));
                assert(last_text_field(fields, "title"@, g->title->0));
            } else {
                assert(!is_named(last, "title"@));
                if let Some(t) = before->title {
                    lemma_text_field_extend(fields, "title"@, t);
                } else {
                    lemma_none_named_extend(fields, "title"@);
                }
            }
            if name@ == "description"@ {
                assert(name@ != "title"@);
                assert(valid_utf8(bytes));
                assert(g->description == Some(decode_utf8(bytes)));
                assert(holds_text(fields[k_last], g->description->0));
                assert(last_named(fields, k_last, "description"@));
                assert(last_text_field(fields, "description"@, g->description->0));
            } else {
                assert(!is_named(last, "description"@));
                if let Some(t) = before->description {
                    lemma_text_field_extend(fields, "description"@, t);
                } else {
                    lemma_none_named_extend(fields, "description"@);
                }
            }
            if name@ == "file"@ {
                assert(name@ != "title"@ && name@ != "description"@);
                assert(g->image == Some(bytes));
                assert(last_named(fields, k_last, "file"@));
            } else {
                assert(!is_named(last, "file"@));
                if let Some(b) = before->image {
                    let k = choose|k: int| #[trigger] last_named(rest, k, "file"@) && field_bytes(rest[k]) == Some(b);
                    lemma_last_named_extend(fields, k, "file"@);
                    assert(rest[k] == fields[k]);
                }
            }
        }
    }
}

/// The field holds bytes that begin with the PNG or the JPEG signature.
pub open spec fn is_png_or_jpeg(field: FieldRead) -> bool {
    field_bytes(field) matches Some(b) && (begins_with(b, png_signature()) || begins_with(b, jpeg_signature()))
}

/// The last field named `file` holds the bytes `b` of an image that decodes to
/// `width` by `height` pixels and re-encodes, at JPEG quality 90, to `jpeg`.
pub open spec fn file_decodes_to(fields: Seq<FieldRead>, jpeg: Seq<u8>, width: u32, height: u32) -> bool {
    exists|k: int| #[trigger] last_named(fields, k, "file"@) && decodes_to(fields[k], jpeg, width, height)
}

/// The field holds the bytes of an image that decodes to `width` by `height`
/// pixels and re-encodes, at JPEG quality 90, to `jpeg`.
pub open spec fn decodes_to(field: FieldRead, jpeg: Seq<u8>, width: u32, height: u32) -> bool {
    field_bytes(field) matches Some(b) && decoded_dimensions(b) == Some((width, height)) && jpeg_reencoding(
        b,
        90u8,
    ) == Some(jpeg)
}

/// An accepted upload reports what its form holds: the title is the text of the
/// last `title` field; the description that of the last `description` field,
/// or none when there is no such field; and the image is the JPEG re-encoding
/// of the last `file` field, with that image's own width and height.
#[verifier::spinoff_prover]
#[verifier::rlimit(40)]
pub proof fn lemma_upload_reports_its_fields(fields: Seq<FieldRead>)
    ensures
        upload_outcome(fields) matches Ok(r) ==> {
            &&& last_text_field(fields, "title"@, r.0)
            &&& (r.1 matches Some(d) ==> last_text_field(fields, "description"@, d))
            &&& (r.1 is None ==> none_named(fields, "description"@))
            &&& file_decodes_to(fields, r.2, r.3, r.4)
        },
{
    lemma_gathered_from_last_fields(fields);
    if upload_outcome(fields) is Ok {
        let g = gather(fields);
        let b = g->image->0;
        let k = choose|k: int| #[trigger] last_named(fields, k, "file"@) && field_bytes(fields[k]) == Some(b);
        assert(last_named(fields, k, "file"@));
        let r = upload_outcome(fields)->Ok_0;
        assert(decodes_to(fields[k], r.2, r.3, r.4));
    }
}

/// Decides whether the format guessed for a file is accepted (see
/// `format_verdict`).
pub fn image_format_verdict(extensions: &Option<Vec<&'static str>>) -> (result: Result<(), MultipartError>)
    ensures
        result == format_verdict(extension_texts(*extensions)),
{
    let list = match extensions {
        Some(e) => e,
        None => {
            return Err(MultipartError::UnknownFormat);
        },
    };
    let ghost texts = list@.map_values(|x: &str| x@);
    assert(extension_texts(*extensions) == Some(texts));
    let mut i: usize = 0;
    while i < list.len()
        invariant
            i <= list@.len(),
            texts == list@.map_values(|x: &str| x@),
            extension_texts(*extensions) == Some(texts),
            forall|k: int| 0 <= k < i ==> !accepted_extension(#[trigger] texts[k]),
        decreases list@.len() - i,
    {
        let e = list[i];
        assert(texts[i as int] == e@);
        if same_text(e, "jpg") || same_text(e, "jpeg") || same_text(e, "png") {
            assert(accepted_extension(texts[i as int]));
            assert(includes_accepted_extension(texts));
            return Ok(());
        }
        i = i + 1;
    }
    Err(MultipartError::InvalidImage)
}

/// Guesses the format of a file from its first bytes and decides whether it is
/// accepted (see `format_verdict`): exactly a file that begins with the PNG or
/// JPEG signature is.
pub fn image_format_check(data: &[u8]) -> (result: Result<(), MultipartError>)
    ensures
        result == format_verdict(guessed_format_extensions(data@)),
        result is Ok <==> (begins_with(data@, png_signature()) || begins_with(data@, jpeg_signature())),
{
    let extensions = guess_format_extensions(data);
    proof {
        let png = seq!["png"@];
        let jpeg = seq!["jpg"@, "jpeg"@];
        assert(accepted_extension(png[0]));
        assert(includes_accepted_extension(png));
        assert(accepted_extension(jpeg[0]));
        assert(includes_accepted_extension(jpeg));
    }
    image_format_verdict(&extensions)
}

/// Reads a figure upload out of the fields of its multipart form (see
/// `upload_outcome`).
pub fn parse_multipart(fields: Vec<FieldRead>) -> (result: Result<ParsedUpload, MultipartError>)
    ensures
        match result {
            Ok(u) => upload_outcome(fields@) == Ok::<(Seq<char>, Option<Seq<char>>, Seq<u8>, u32, u32), MultipartError>(
                (u.title@, opt_text(u.description), u.image@, u.width, u.height),
            ),
            Err(e) => upload_outcome(fields@) == Err::<(Seq<char>, Option<Seq<char>>, Seq<u8>, u32, u32), MultipartError>(e),
        },
        result matches Ok(u) ==> file_decodes_to(fields@, u.image@, u.width, u.height),
        result matches Ok(u) ==> last_text_field(fields@, "title"@, u.title@),
        result matches Ok(u) ==> match u.description {
            Some(d) => last_text_field(fields@, "description"@, d@),
            None => none_named(fields@, "description"@),
        },
        result matches Ok(u) ==> exists|k: int|
            #[trigger] last_named(fields@, k, "file"@) && is_png_or_jpeg(fields@[k]),
{
    let mut title: Option<String> = None;
    let mut description: Option<String> = None;
    let mut image_at: Option<usize> = None;
    let mut i: usize = 0;
    while i < fields.len()
        invariant
            i <= fields@.len(),
            image_at matches Some(k) ==> k < i && fields@[k as int].data is Some,
            gather(fields@.take(i as int)) == (Gathered::Fields {
                title: opt_text(title),
                description: opt_text(description),
                image: match image_at {
                    Some(k) => field_bytes(fields@[k as int]),
                    None => None,
                },
            }),
        decreases fields@.len() - i,
    {
        let ghost before = fields@.take(i as int);
        assert(fields@.take(i + 1).drop_last() =~= before);
        assert(fields@.take(i + 1).last() == fields@[i as int]);
        let field = &fields[i];
        match &field.name {
            None => {
                proof { lemma_refused_at_first_bad_field(fields@, i + 1, MultipartError::MissingFieldName); }
                return Err(MultipartError::MissingFieldName);
            },
            Some(name) => match &field.data {
                None => {
                    proof { lemma_refused_at_first_bad_field(fields@, i + 1, MultipartError::UnreadableField); }
                    return Err(MultipartError::UnreadableField);
                },
                Some(data) => {
                    if same_text(name.as_str(), "title") {
                        match string_from_utf8(data.as_slice()) {
                            Some(text) => {
                                title = Some(text);
                            },
                            None => {
                                proof { lemma_refused_at_first_bad_field(fields@, i + 1, MultipartError::NotUtf8); }
                                return Err(MultipartError::NotUtf8);
                            },
                        }
                    } else if same_text(name.as_str(), "description") {
                        match string_from_utf8(data.as_slice()) {
                            Some(text) => {
                                description = Some(text);
                            },
                            None => {
                                proof { lemma_refused_at_first_bad_field(fields@, i + 1, MultipartError::NotUtf8); }
                                return Err(MultipartError::NotUtf8);
                            },
                        }
                    } else if same_text(name.as_str(), "file") {
                        image_at = Some(i);
                    }
                },
            },
        }
        i = i + 1;
    }
    assert(fields@.take(fields@.len() as int) =~= fields@);
    let (title, image_at) = match (title, image_at) {
        (Some(title), Some(image_at)) => (title, image_at),
        _ => {
            return Err(MultipartError::MissingField);
        },
    };
    let image: &[u8] = match &fields[image_at].data {
        Some(d) => d.as_slice(),
        None => {
            return Err(MultipartError::MissingField);
        },
    };
    match image_format_check(image) {
        Ok(()) => {},
        Err(e) => {
            return Err(e);
        },
    }
    let (width, height) = match image_dimensions(image) {
        Some(d) => d,
        None => {
            return Err(MultipartError::InvalidImage);
        },
    };
    let jpeg = match reencode_as_jpeg(image, JPEG_QUALITY) {
        Some(j) => j,
        None => {
            return Err(MultipartError::EncodingFailed);
        },
    };
    proof {
        lemma_upload_reports_its_fields(fields@);
        lemma_gathered_from_last_fields(fields@);
        let b = field_bytes(fields@[image_at as int])->0;
        let k = choose|k: int| #[trigger] last_named(fields@, k, "file"@) && field_bytes(fields@[k]) == Some(b);
        assert(is_png_or_jpeg(fields@[k]));
    }
    Ok(ParsedUpload { title, description, image: jpeg, width, height })
}

} // verus!
