//! Where the bytes of an upload come from, and what is known of them before
//! the first byte is sent: an extension, a media type and the length.

use std::path::Path;
use vstd::prelude::*;

verus! {

/// The extension that `std::path::Path::extension` finds in a path, where it
/// finds one that is text.
pub uninterp spec fn path_extension(path: Seq<char>) -> Option<Seq<char>>;

/// The first media type that `mime_guess::from_path` knows for a path.
pub uninterp spec fn guessed_mime(path: Seq<char>) -> Option<Seq<char>>;

/// Extension and media type of the first signature of `infer::get` that the
/// content matches.
pub uninterp spec fn sniffed_type(content: Seq<u8>) -> Option<(Seq<char>, Seq<char>)>;

/// What an optional text holds.
pub open spec fn text_of(text: Option<String>) -> Option<Seq<char>> {
    match text {
        Some(t) => Some(t@),
        None => None,
    }
}

/// What an optional pair of texts holds.
pub open spec fn pair_of(pair: Option<(String, String)>) -> Option<(Seq<char>, Seq<char>)> {
    match pair {
        Some((a, b)) => Some((a@, b@)),
        None => None,
    }
}

/// Calls `std::path::Path::extension` and hands the extension back as text.
/// The contract only names the result.
#[verifier::external_body]
fn extension_of(path: &str) -> (extension: Option<String>)
    ensures
        text_of(extension) == path_extension(path@),
{
    Path::new(path).extension().map(Path::new).and_then(Path::to_str).map(String::from)
}

/// Calls `mime_guess::from_path` and takes the first guess with
/// `MimeGuess::first_raw`. The contract names the result, and says what the
/// crate documents: a path without extension gets no guess.
#[verifier::external_body]
fn guess_mime(path: &str) -> (mime: Option<String>)
    ensures
        text_of(mime) == guessed_mime(path@),
        path_extension(path@) is None ==> mime is None,
{
    mime_guess::from_path(path).first_raw().map(String::from)
}

/// Calls `infer::get` and hands back the extension and the media type of the
/// signature it found. The contract only names the result.
#[verifier::external_body]
fn sniff(content: &[u8]) -> (kind: Option<(String, String)>)
    ensures
        pair_of(kind) == sniffed_type(content@),
{
    infer::get(content).map(|kind| (kind.extension().to_string(), kind.mime_type().to_string()))
}

/// The file named on the command line, if one is: no argument, or the
/// argument `-`, stands for standard input.
pub fn select_input(arg: Option<String>) -> (path: Option<String>)
    ensures
        path == match arg {
            Some(a) if a@ != "-"@ => Some(a),
            _ => None,
        },
{
    match arg {
        None => None,
        Some(a) => {
            let dash = String::from_str("-");
            if a == dash {
                None
            } else {
                Some(a)
            }
        },
    }
}

/// Where the bytes come from. A source is made once and used once.
#[derive(Clone, Debug, PartialEq, Eq)]
pub enum UploadSource {
    /// A named file, with the size that the file system reports.
    FileSource { path: String, known_size: usize },
    /// Standard input, read to its end.
    StdinSource { buffered_bytes: Vec<u8> },
}

/// What is known of the content before it is sent.
#[derive(Clone, Debug, PartialEq, Eq)]
pub struct ContentMetadata {
    pub extension: Option<String>,
    pub mime: Option<String>,
    pub length: usize,
}

/// What a `ContentMetadata` holds.
pub struct MetadataView {
    pub extension: Option<Seq<char>>,
    pub mime: Option<Seq<char>>,
    pub length: nat,
}

impl View for ContentMetadata {
    type V = MetadataView;

    open spec fn view(&self) -> MetadataView {
        MetadataView {
            extension: text_of(self.extension),
            mime: text_of(self.mime),
            length: self.length as nat,
        }
    }
}

impl UploadSource {
    /// The number of bytes that the source produces.
    pub open spec fn length(self) -> nat {
        match self {
            UploadSource::FileSource { known_size, .. } => known_size as nat,
            UploadSource::StdinSource { buffered_bytes } => buffered_bytes@.len(),
        }
    }

    /// What is known of the source: a file goes by its name, standard input
    /// by its first bytes.
    pub open spec fn metadata(self) -> MetadataView {
        match self {
            UploadSource::FileSource { path, known_size } => MetadataView {
                extension: path_extension(path@),
                mime: guessed_mime(path@),
                length: known_size as nat,
            },
            UploadSource::StdinSource { buffered_bytes } => match sniffed_type(buffered_bytes@) {
                Some((extension, mime)) => MetadataView {
                    extension: Some(extension),
                    mime: Some(mime),
                    length: buffered_bytes@.len(),
                },
                None => MetadataView {
                    extension: None,
                    mime: None,
                    length: buffered_bytes@.len(),
                },
            },
        }
    }
}

/// Metadata of a file, from what its name gave. The size is known without
/// reading the file.
pub fn file_metadata(extension: Option<String>, mime: Option<String>, known_size: usize) -> (meta:
    ContentMetadata)
    ensures
        meta@ == (MetadataView {
            extension: text_of(extension),
            mime: text_of(mime),
            length: known_size as nat,
        }),
{
    ContentMetadata { extension, mime, length: known_size }
}

/// Metadata of buffered input, from what its first bytes gave: a signature
/// gives both an extension and a media type, no signature gives neither.
pub fn stdin_metadata(sniffed: Option<(String, String)>, length: usize) -> (meta: ContentMetadata)
    ensures
        meta@ == (match sniffed {
            Some((extension, mime)) => MetadataView {
                extension: Some(extension@),
                mime: Some(mime@),
                length: length as nat,
            },
            None => MetadataView { extension: None, mime: None, length: length as nat },
        }),
{
    match sniffed {
        Some((extension, mime)) => ContentMetadata {
            extension: Some(extension),
            mime: Some(mime),
            length,
        },
        None => ContentMetadata { extension: None, mime: None, length },
    }
}

/// A source together with what is known of it.
pub struct ResolvedSource {
    source: UploadSource,
    metadata: ContentMetadata,
}

impl ResolvedSource {
    /// The metadata is that of the source; in particular the declared length
    /// is the number of bytes that the source produces.
    #[verifier::type_invariant]
    spec fn consistent(self) -> bool {
        self.metadata@ == self.source.metadata()
    }

    /// The source that was resolved.
    pub closed spec fn source(self) -> UploadSource {
        self.source
    }

    /// What was found out about it.
    pub closed spec fn metadata(self) -> MetadataView {
        self.metadata@
    }

    /// Finds out extension, media type and length of a source.
    pub fn resolve(source: UploadSource) -> (resolved: ResolvedSource)
        ensures
            resolved.source() == source,
            resolved.metadata() == source.metadata(),
            source matches UploadSource::FileSource { path, .. } && path_extension(path@) is None
                ==> resolved.metadata().mime is None,
    {
        let metadata = match &source {
            UploadSource::FileSource { path, known_size } => {
                let extension = extension_of(path.as_str());
                let mime = guess_mime(path.as_str());
                file_metadata(extension, mime, *known_size)
            },
            UploadSource::StdinSource { buffered_bytes } => {
                let sniffed = sniff(buffered_bytes.as_slice());
                stdin_metadata(sniffed, buffered_bytes.len())
            },
        };
        ResolvedSource { source, metadata }
    }

    /// Source and metadata, for the one use that is made of them.
    pub fn into_parts(self) -> (parts: (UploadSource, ContentMetadata))
        ensures
            parts.0 == self.source(),
            parts.1@ == self.metadata(),
            parts.1@ == parts.0.metadata(),
    {
        proof {
            use_type_invariant(&self);
        }
        (self.source, self.metadata)
    }
}

/// Whatever source is resolved, the declared length is the number of bytes
/// that the source produces.
pub proof fn declared_length_is_source_length(source: UploadSource)
    ensures
        source.metadata().length == source.length(),
{
}

/// Buffered input that matches no signature has neither extension nor media
/// type.
pub proof fn unknown_content_has_no_type(buffered_bytes: Vec<u8>)
    requires
        sniffed_type(buffered_bytes@) is None,
    ensures
        (UploadSource::StdinSource { buffered_bytes }).metadata().extension is None,
        (UploadSource::StdinSource { buffered_bytes }).metadata().mime is None,
{
}

} // verus!
