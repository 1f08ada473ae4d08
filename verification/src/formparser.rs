//! This module implements the form parsing. It supports url-encoded forms
//! as well as multipart uploads.

use vstd::prelude::*;
use std::io::Read;
use std::string::FromUtf8Error;
use multipart::server::Multipart;
use crate::datastructures::MultiDict;
use crate::wrappers::{
    drain_result, drained, Body, BodyView, DrainError, DrainFault, StreamError,
};

verus! {

/// `std::io::Error`, the failure of a read.
#[verifier::external_type_specification]
#[verifier::external_body]
pub struct ExIoError(std::io::Error);

/// `std::string::FromUtf8Error`, the failure of `String::from_utf8`.
#[verifier::external_type_specification]
#[verifier::external_body]
pub struct ExFromUtf8Error(FromUtf8Error);

/// `multipart::server::Multipart`, a reader of the parts of a multipart
/// body.
#[verifier::external_type_specification]
#[verifier::external_body]
#[verifier::reject_recursive_types(R)]
pub struct ExMultipart<R>(Multipart<R>);

/// `String::from_utf8` succeeds on exactly the byte strings that are valid
/// UTF-8, and the string it gives has those bytes.
pub assume_specification[ String::from_utf8 ](bytes: Vec<u8>) -> (text: Result<
    String,
    FromUtf8Error,
>)
    ensures
        text is Ok == vstd::utf8::valid_utf8(bytes@),
        text is Ok ==> text->Ok_0@ == vstd::utf8::decode_utf8(bytes@),
;

/// The pairs of name and value that `form_urlencoded::parse` reads from a
/// byte string, in order.
pub uninterp spec fn form_pairs(input: Seq<u8>) -> Seq<(Seq<char>, Seq<char>)>;

/// The pairs of a list by their views.
pub open spec fn pair_views(pairs: Seq<(String, String)>) -> Seq<(Seq<char>, Seq<char>)> {
    Seq::new(pairs.len(), |i: int| (pairs[i].0@, pairs[i].1@))
}

/// `form_urlencoded::parse` with `into_owned`, collected: the pairs of
/// name and value of a byte string in the `application/x-www-form-urlencoded`
/// syntax, percent-decoded, in the order in which they stand. The decoding
/// is the crate's; its result is named by `form_pairs`.
#[verifier::external_body]
pub(crate) fn urlencoded_pairs(input: &[u8]) -> (pairs: Vec<(String, String)>)
    ensures
        pair_views(pairs@) == form_pairs(input@),
{
    url::form_urlencoded::parse(input).into_owned().collect()
}

/// What the form parser reads of a media type: its type, its subtype and
/// its `boundary` parameter.
pub struct MediaType {
    pub type_: String,
    pub subtype: String,
    pub boundary: Option<String>,
}

/// A media type by its view.
pub struct MediaTypeView {
    pub type_: Seq<char>,
    pub subtype: Seq<char>,
    pub boundary: Option<Seq<char>>,
}

impl View for MediaType {
    type V = MediaTypeView;

    open spec fn view(&self) -> MediaTypeView {
        MediaTypeView {
            type_: self.type_@,
            subtype: self.subtype@,
            boundary: match self.boundary {
                Some(b) => Some(b@),
                None => None,
            },
        }
    }
}

/// What `mime::Mime` reads from the text of a media type, where it takes
/// the text as one.
pub uninterp spec fn media_type_of(value: Seq<char>) -> Option<MediaTypeView>;

/// Parses `value` as a `mime::Mime` and copies out its type, its subtype
/// and its `boundary` parameter, as `type_`, `subtype` and `get_param`
/// give them. `None` where the crate does not take the text as a media
/// type. The result is named by `media_type_of`.
#[verifier::external_body]
fn parse_media_type(value: &str) -> (parsed: Option<MediaType>)
    ensures
        parsed is Some == media_type_of(value@) is Some,
        parsed is Some ==> parsed->0@ == media_type_of(value@)->0,
{
    match value.parse::<mime::Mime>() {
        Ok(m) => Some(
            MediaType {
                type_: m.type_().as_str().to_string(),
                subtype: m.subtype().as_str().to_string(),
                boundary: m.get_param(mime::BOUNDARY).map(|b| b.as_str().to_string()),
            },
        ),
        Err(_) => None,
    }
}

/// One part of a multipart body as the reader hands it over: the name of
/// its field, whether it is declared as text, and its bytes.
pub struct RawPart {
    pub name: String,
    pub is_text: bool,
    pub data: Vec<u8>,
}

/// A part by its view.
pub struct RawPartView {
    pub name: Seq<char>,
    pub is_text: bool,
    pub data: Seq<u8>,
}

impl View for RawPart {
    type V = RawPartView;

    open spec fn view(&self) -> RawPartView {
        RawPartView { name: self.name@, is_text: self.is_text, data: self.data@ }
    }
}

/// What a multipart reader gives: the parts that it hands over, in order,
/// and whether it fails behind them instead of reaching the end of the
/// body.
pub struct Reading {
    pub parts: Seq<RawPartView>,
    pub fails: bool,
}

/// What the multipart reader gives for `body` with the boundary
/// `boundary`.
pub uninterp spec fn multipart_reading(body: Seq<u8>, boundary: Seq<char>) -> Reading;

/// What a reader has yet to give.
pub uninterp spec fn unread(reader: Multipart<&[u8]>) -> Reading;

/// The parts that the multipart reader finds in `body` for the boundary
/// `boundary`, in order, up to the end of the body or the reader's first
/// failure.
pub open spec fn multipart_parts(body: Seq<u8>, boundary: Seq<char>) -> Seq<RawPartView> {
    multipart_reading(body, boundary).parts
}

/// Whether the multipart reader fails on `body` behind the parts that it
/// finds.
pub open spec fn multipart_fails(body: Seq<u8>, boundary: Seq<char>) -> bool {
    multipart_reading(body, boundary).fails
}

/// `Multipart::with_body` on a byte string: a reader of the parts that the
/// boundary delimits in `body`. What it will give depends on `body` and
/// `boundary` alone, and is named by `multipart_reading`.
#[verifier::external_body]
fn multipart_reader<'a>(body: &'a [u8], boundary: &str) -> (reader: Multipart<&'a [u8]>)
    ensures
        unread(reader) == multipart_reading(body@, boundary@),
{
    Multipart::with_body(body, boundary)
}

/// `Multipart::read_entry`, with the entry's data read to its end: the
/// next part of the body, `None` at the end of the body, or the reader's
/// failure. The part carries the field's name, what `is_text` says of it,
/// and its bytes. A part is the first of those that the reader had yet to
/// give, and the others stay; the end and the failure come when no part
/// is left.
#[verifier::external_body]
fn next_part(reader: &mut Multipart<&[u8]>) -> (step: Result<Option<RawPart>, std::io::Error>)
    ensures
        match step {
            Ok(Some(part)) => unread(*old(reader)).parts.len() > 0 && part@ == unread(
                *old(reader),
            ).parts[0] && unread(*final(reader)) == (Reading {
                parts: unread(*old(reader)).parts.skip(1),
                fails: unread(*old(reader)).fails,
            }),
            Ok(None) => unread(*old(reader)).parts.len() == 0 && !unread(*old(reader)).fails,
            Err(_) => unread(*old(reader)).parts.len() == 0 && unread(*old(reader)).fails,
        },
{
    match reader.read_entry()? {
        Some(mut field) => {
            let mut data = Vec::new();
            field.data.read_to_end(&mut data)?;
            Ok(Some(RawPart { name: field.headers.name.to_string(), is_text: field.is_text(), data }))
        },
        None => Ok(None),
    }
}

/// What can go wrong while a form is parsed.
#[derive(Debug)]
pub enum Error {
    /// The body could not be read from the stream.
    StreamReadError(StreamError),
    /// The body holds more bytes than its limit allows.
    PayloadTooLarge,
    /// A multipart content type names no boundary.
    NoBoundaryError,
    /// The framing of a multipart body is malformed.
    MultipartParseError(std::io::Error),
    /// A text part of a multipart body is not valid UTF-8.
    MultipartStringDecodingError(FromUtf8Error),
}

/// The kind of a parse error, with the stream's message where the stream
/// failed.
pub enum ErrorKind {
    StreamRead(Seq<char>),
    PayloadTooLarge,
    NoBoundary,
    MultipartParse,
    StringDecoding,
}

impl View for Error {
    type V = ErrorKind;

    open spec fn view(&self) -> ErrorKind {
        match self {
            Error::StreamReadError(e) => ErrorKind::StreamRead(e.message@),
            Error::PayloadTooLarge => ErrorKind::PayloadTooLarge,
            Error::NoBoundaryError => ErrorKind::NoBoundary,
            Error::MultipartParseError(_) => ErrorKind::MultipartParse,
            Error::MultipartStringDecodingError(_) => ErrorKind::StringDecoding,
        }
    }
}

/// The fields and the files of a form by their views.
pub type FormView = (Seq<(Seq<char>, Seq<char>)>, Seq<(Seq<char>, Seq<u8>)>);

/// A form without fields and without files.
pub open spec fn empty_form() -> FormView {
    (Seq::empty(), Seq::empty())
}

/// How the parser takes a content type.
pub enum FormKind {
    /// `application/x-www-form-urlencoded`.
    UrlEncoded,
    /// `multipart/form-data`, with its boundary where it names one.
    Multipart(Option<Seq<char>>),
    /// No content type, or one that carries no form.
    Other,
}

/// How the parser takes the content type of a request.
pub open spec fn form_kind(content_type: Option<Seq<char>>) -> FormKind {
    match content_type {
        None => FormKind::Other,
        Some(value) => match media_type_of(value) {
            None => FormKind::Other,
            Some(media) => if media.type_ == "application"@ && media.subtype
                == "x-www-form-urlencoded"@ {
                FormKind::UrlEncoded
            } else if media.type_ == "multipart"@ && media.subtype == "form-data"@ {
                FormKind::Multipart(media.boundary)
            } else {
                FormKind::Other
            },
        },
    }
}

/// Whether the parser reads the body for a content type of this kind.
pub open spec fn reads_body(kind: FormKind) -> bool {
    kind is UrlEncoded || kind matches FormKind::Multipart(Some(_))
}

/// Whether every text part among `parts` holds valid UTF-8.
pub open spec fn texts_decode(parts: Seq<RawPartView>) -> bool {
    forall|i: int| 0 <= i < parts.len() && (#[trigger] parts[i]).is_text ==> vstd::utf8::valid_utf8(
        parts[i].data,
    )
}

/// The form after `part` is added: a text part goes to the fields with its
/// bytes decoded, any other part to the files with its bytes as they are.
pub open spec fn with_part(form: FormView, part: RawPartView) -> FormView {
    if part.is_text {
        (form.0.push((part.name, vstd::utf8::decode_utf8(part.data))), form.1)
    } else {
        (form.0, form.1.push((part.name, part.data)))
    }
}

/// The form that `parts` make, added in their order to an empty form.
pub open spec fn form_of_parts(parts: Seq<RawPartView>) -> FormView
    decreases parts.len(),
{
    if parts.len() == 0 {
        empty_form()
    } else {
        with_part(form_of_parts(parts.drop_last()), parts.last())
    }
}

/// What the parts of a multipart body give: a decoding error where a text
/// part is not valid UTF-8, else a parse error where the reader failed
/// behind the parts, else the form that the parts make.
pub open spec fn multipart_outcome(parts: Seq<RawPartView>, failed: bool) -> Result<
    FormView,
    ErrorKind,
> {
    if !texts_decode(parts) {
        Err(ErrorKind::StringDecoding)
    } else if failed {
        Err(ErrorKind::MultipartParse)
    } else {
        Ok(form_of_parts(parts))
    }
}

/// The parse error for a drain that stopped short.
pub open spec fn drain_failure(fault: DrainFault) -> ErrorKind {
    match fault {
        DrainFault::Stream(message) => ErrorKind::StreamRead(message),
        DrainFault::TooLarge => ErrorKind::PayloadTooLarge,
    }
}

/// What parsing gives for a content type and a body.
pub open spec fn parse_outcome(content_type: Option<Seq<char>>, body: BodyView) -> Result<
    FormView,
    ErrorKind,
> {
    match form_kind(content_type) {
        FormKind::Other => Ok(empty_form()),
        FormKind::Multipart(None) => Err(ErrorKind::NoBoundary),
        FormKind::UrlEncoded => match drain_result(body.pending, body.limit) {
            Err(fault) => Err(drain_failure(fault)),
            Ok(bytes) => Ok((form_pairs(bytes), Seq::empty())),
        },
        FormKind::Multipart(Some(boundary)) => match drain_result(body.pending, body.limit) {
            Err(fault) => Err(drain_failure(fault)),
            Ok(bytes) => multipart_outcome(
                multipart_parts(bytes, boundary),
                multipart_fails(bytes, boundary),
            ),
        },
    }
}

/// The body after parsing: drained once where the content type calls for
/// its bytes, untouched where it does not.
pub open spec fn body_after_parse(content_type: Option<Seq<char>>, body: BodyView) -> BodyView {
    if reads_body(form_kind(content_type)) {
        drained(body)
    } else {
        body
    }
}

/// The result of a parse by its view.
pub open spec fn parsed_view(
    result: Result<(MultiDict<String>, MultiDict<Vec<u8>>), Error>,
) -> Result<FormView, ErrorKind> {
    match result {
        Ok((form, files)) => Ok((form@, files@)),
        Err(e) => Err(e@),
    }
}

/// Adds one part of a multipart body to a form: a text part to `form`,
/// decoded as UTF-8, any other part to `files` with its bytes as they
/// are. A text part that is not valid UTF-8 is a decoding error and leaves
/// both maps as they were.
pub fn add_part(form: &mut MultiDict<String>, files: &mut MultiDict<Vec<u8>>, part: RawPart) -> (done:
    Result<(), Error>)
    ensures
        done is Ok == (part.is_text ==> vstd::utf8::valid_utf8(part.data@)),
        done is Ok ==> (final(form)@, final(files)@) == with_part((old(form)@, old(files)@), part@),
        done is Err ==> done->Err_0@ == ErrorKind::StringDecoding && final(form)@ == old(form)@
            && final(files)@ == old(files)@,
{
    if part.is_text {
        match String::from_utf8(part.data) {
            Ok(text) => {
                form.add(part.name, text);
                Ok(())
            },
            Err(e) => Err(Error::MultipartStringDecodingError(e)),
        }
    } else {
        files.add(part.name, part.data);
        Ok(())
    }
}

/// Adds each pair to `form`, in order.
pub fn add_pairs(form: &mut MultiDict<String>, pairs: Vec<(String, String)>)
    ensures
        final(form)@ == old(form)@ + pair_views(pairs@),
{
    let ghost total = pairs@;
    for pair in it: pairs
        invariant
            it.seq() == total,
            form@ == old(form)@ + pair_views(total).take(it.index() as int),
    {
        let ghost i = it.index() as int;
        form.add(pair.0, pair.1);
        proof {
            assert(pair_views(total).take(i + 1) == pair_views(total).take(i).push(
                pair_views(total)[i],
            ));
        }
    }
    proof {
        assert(pair_views(total).take(total.len() as int) == pair_views(total));
    }
}

/// Reads the parts of a multipart body and sorts them into fields and
/// files.
fn parse_multipart(body: &[u8], boundary: &str) -> (result: Result<
    (MultiDict<String>, MultiDict<Vec<u8>>),
    Error,
>)
    ensures
        parsed_view(result) == multipart_outcome(
            multipart_parts(body@, boundary@),
            multipart_fails(body@, boundary@),
        ),
{
    let ghost parts = multipart_parts(body@, boundary@);
    let mut form: MultiDict<String> = MultiDict::new();
    let mut files: MultiDict<Vec<u8>> = MultiDict::new();
    let mut reader = multipart_reader(body, boundary);
    let ghost mut done: int = 0;
    loop
        invariant
            0 <= done <= parts.len(),
            parts == multipart_parts(body@, boundary@),
            unread(reader).parts == parts.skip(done),
            unread(reader).fails == multipart_fails(body@, boundary@),
            texts_decode(parts.take(done)),
            (form@, files@) == form_of_parts(parts.take(done)),
        decreases parts.len() - done,
    {
        match next_part(&mut reader) {
            Ok(Some(part)) => {
                proof {
                    assert(parts.skip(done)[0] == parts[done]);
                    assert(parts.skip(done).skip(1) == parts.skip(done + 1));
                    assert(parts.take(done + 1).drop_last() == parts.take(done));
                    assert(parts.take(done + 1).last() == parts[done]);
                }
                match add_part(&mut form, &mut files, part) {
                    Ok(()) => {
                        proof {
                            assert forall|i: int|
                                0 <= i < done + 1 && (#[trigger] parts.take(
                                    done + 1,
                                )[i]).is_text implies vstd::utf8::valid_utf8(
                                parts.take(done + 1)[i].data,
                            ) by {
                                if i < done {
                                    assert(parts.take(done)[i] == parts.take(done + 1)[i]);
                                }
                            }
                            done = done + 1;
                        }
                    },
                    Err(e) => {
                        proof {
                            assert(parts[done].is_text && !vstd::utf8::valid_utf8(parts[done].data));
                        }
                        return Err(e);
                    },
                }
            },
            Ok(None) => {
                proof {
                    assert(parts.take(done) == parts);
                }
                return Ok((form, files));
            },
            Err(e) => {
                proof {
                    assert(parts.take(done) == parts);
                }
                return Err(Error::MultipartParseError(e));
            },
        }
    }
}

/// The parse error for a drain that stopped short.
fn drain_error(e: DrainError) -> (error: Error)
    ensures
        error@ == drain_failure(e@),
{
    match e {
        DrainError::Stream(e) => Error::StreamReadError(e),
        DrainError::TooLarge => Error::PayloadTooLarge,
    }
}

/// An optional string slice by its view.
pub open spec fn slice_view(text: Option<&str>) -> Option<Seq<char>> {
    match text {
        Some(t) => Some(t@),
        None => None,
    }
}

/// Parses the form data of a request from its content type and its body.
/// It can parse multipart and url encoded form data. A request without
/// content type, or with another one, has an empty form and its body is
/// not read.
pub fn parse(content_type: Option<&str>, body: &mut Body) -> (result: Result<
    (MultiDict<String>, MultiDict<Vec<u8>>),
    Error,
>)
    ensures
        parsed_view(result) == parse_outcome(slice_view(content_type), old(body)@),
        final(body)@ == body_after_parse(slice_view(content_type), old(body)@),
{
    let media = match content_type {
        Some(value) => match parse_media_type(value) {
            Some(media) => media,
            None => {
                return Ok((MultiDict::new(), MultiDict::new()));
            },
        },
        None => {
            return Ok((MultiDict::new(), MultiDict::new()));
        },
    };
    if crate::text::same_text(media.type_.as_str(), "application") && crate::text::same_text(
        media.subtype.as_str(),
        "x-www-form-urlencoded",
    ) {
        let bytes = match body.drain() {
            Ok(bytes) => bytes,
            Err(e) => {
                return Err(drain_error(e));
            },
        };
        let mut form: MultiDict<String> = MultiDict::new();
        add_pairs(&mut form, urlencoded_pairs(bytes.as_slice()));
        Ok((form, MultiDict::new()))
    } else if crate::text::same_text(media.type_.as_str(), "multipart") && crate::text::same_text(
        media.subtype.as_str(),
        "form-data",
    ) {
        let boundary = match media.boundary {
            Some(boundary) => boundary,
            None => {
                return Err(Error::NoBoundaryError);
            },
        };
        let bytes = match body.drain() {
            Ok(bytes) => bytes,
            Err(e) => {
                return Err(drain_error(e));
            },
        };
        parse_multipart(bytes.as_slice(), boundary.as_str())
    } else {
        Ok((MultiDict::new(), MultiDict::new()))
    }
}

/// The names of the parts of `parts` that are text, or of those that are
/// not, in order.
pub open spec fn part_names(parts: Seq<RawPartView>, text: bool) -> Seq<Seq<char>>
    decreases parts.len(),
{
    if parts.len() == 0 {
        Seq::empty()
    } else if parts.last().is_text == text {
        part_names(parts.drop_last(), text).push(parts.last().name)
    } else {
        part_names(parts.drop_last(), text)
    }
}

/// The keys of the entries of a map, in order.
pub open spec fn keys_of<V>(entries: Seq<(Seq<char>, V)>) -> Seq<Seq<char>> {
    Seq::new(entries.len(), |i: int| entries[i].0)
}

/// The parts of a multipart body are split by their kind and keep their
/// names: the fields of the form are the text parts, the files are the
/// other parts, each list in the order of the body and under the declared
/// field names. So a body with N text parts and M file parts gives N
/// fields and M files.
pub proof fn lemma_parts_keep_names(parts: Seq<RawPartView>)
    ensures
        keys_of(form_of_parts(parts).0) == part_names(parts, true),
        keys_of(form_of_parts(parts).1) == part_names(parts, false),
        form_of_parts(parts).0.len() == part_names(parts, true).len(),
        form_of_parts(parts).1.len() == part_names(parts, false).len(),
        form_of_parts(parts).0.len() + form_of_parts(parts).1.len() == parts.len(),
    decreases parts.len(),
{
    if parts.len() > 0 {
        lemma_parts_keep_names(parts.drop_last());
        let before = form_of_parts(parts.drop_last());
        let last = parts.last();
        if last.is_text {
            assert(keys_of(before.0.push((last.name, vstd::utf8::decode_utf8(last.data))))
                =~= keys_of(before.0).push(last.name));
        } else {
            assert(keys_of(before.1.push((last.name, last.data))) =~= keys_of(before.1).push(
                last.name,
            ));
        }
    } else {
        assert(keys_of(form_of_parts(parts).0) =~= Seq::<Seq<char>>::empty());
        assert(keys_of(form_of_parts(parts).1) =~= Seq::<Seq<char>>::empty());
    }
}

/// A multipart body whose text parts all decode, read without failure,
/// parses to the form that its parts make.
pub proof fn lemma_multipart_form(
    content_type: Option<Seq<char>>,
    body: BodyView,
    boundary: Seq<char>,
    bytes: Seq<u8>,
)
    requires
        form_kind(content_type) == FormKind::Multipart(Some(boundary)),
        drain_result(body.pending, body.limit) == Ok::<Seq<u8>, DrainFault>(bytes),
        texts_decode(multipart_parts(bytes, boundary)),
        !multipart_fails(bytes, boundary),
    ensures
        parse_outcome(content_type, body) == Ok::<FormView, ErrorKind>(
            form_of_parts(multipart_parts(bytes, boundary)),
        ),
        keys_of(form_of_parts(multipart_parts(bytes, boundary)).0) == part_names(
            multipart_parts(bytes, boundary),
            true,
        ),
        keys_of(form_of_parts(multipart_parts(bytes, boundary)).1) == part_names(
            multipart_parts(bytes, boundary),
            false,
        ),
{
    lemma_parts_keep_names(multipart_parts(bytes, boundary));
}

/// A multipart content type without boundary is a parse error, whatever
/// the body holds: never an empty form.
pub proof fn lemma_missing_boundary_is_error(content_type: Option<Seq<char>>, body: BodyView)
    requires
        form_kind(content_type) == FormKind::Multipart(None),
    ensures
        parse_outcome(content_type, body) == Err::<FormView, ErrorKind>(ErrorKind::NoBoundary),
        body_after_parse(content_type, body) == body,
{
}

/// A text part that is not valid UTF-8 makes the whole parse a decoding
/// error, whether or not the reader failed behind the parts: its text is
/// never cut or replaced.
pub proof fn lemma_invalid_text_is_error(parts: Seq<RawPartView>, failed: bool, at: int)
    requires
        0 <= at < parts.len(),
        parts[at].is_text,
        !vstd::utf8::valid_utf8(parts[at].data),
    ensures
        multipart_outcome(parts, failed) == Err::<FormView, ErrorKind>(ErrorKind::StringDecoding),
{
}

/// A url-encoded body parses to exactly the pairs that the decoder reads
/// from its bytes: none is dropped, merged or moved, so repeated keys stay
/// in their order. There are no files.
pub proof fn lemma_urlencoded_keeps_pairs(
    content_type: Option<Seq<char>>,
    body: BodyView,
    bytes: Seq<u8>,
)
    requires
        form_kind(content_type) == FormKind::UrlEncoded,
        drain_result(body.pending, body.limit) == Ok::<Seq<u8>, DrainFault>(bytes),
    ensures
        parse_outcome(content_type, body) == Ok::<FormView, ErrorKind>(
            (form_pairs(bytes), Seq::empty()),
        ),
{
}

} // verus!
