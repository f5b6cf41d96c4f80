//! Metadata read from an audio file's primary tag: its title and its
//! embedded artwork, with a fixed fallback image when no artwork can be
//! had.
//!
//! The tag itself is read by an outside library and depends on what is on
//! disk, so the read stands behind a trusted wrapper that promises
//! nothing of its outcome; everything derived from the tag's content is
//! computed by verified functions with exact contracts over [`TagModel`].

use lofty::file::TaggedFileExt;
use lofty::tag::Accessor;
use vstd::prelude::*;

verus! {

/// What the library reads from a file's primary tag: the title, if any,
/// and the raw bytes of each embedded picture, in order.
pub struct TagData {
    pub title: Option<String>,
    pub pictures: Vec<Vec<u8>>,
}

/// The mathematical content of a [`TagData`].
pub struct TagModel {
    pub title: Option<Seq<char>>,
    pub pictures: Seq<Seq<u8>>,
}

impl View for TagData {
    type V = TagModel;

    open spec fn view(&self) -> TagModel {
        TagModel { title: self.title.deep_view(), pictures: self.pictures.deep_view() }
    }
}

impl DeepView for TagData {
    type V = TagModel;

    open spec fn deep_view(&self) -> TagModel {
        self.view()
    }
}

/// The fallback artwork: the bytes of a 1x1 transparent PNG.
pub open spec fn empty_image_bytes() -> Seq<u8> {
    seq![
        0x89u8, 0x50u8, 0x4eu8, 0x47u8, 0x0du8, 0x0au8, 0x1au8, 0x0au8,
        0x00u8, 0x00u8, 0x00u8, 0x0du8, 0x49u8, 0x48u8, 0x44u8, 0x52u8,
        0x00u8, 0x00u8, 0x00u8, 0x01u8, 0x00u8, 0x00u8, 0x00u8, 0x01u8,
        0x08u8, 0x04u8, 0x00u8, 0x00u8, 0x00u8, 0xb5u8, 0x1cu8, 0x0cu8,
        0x02u8, 0x00u8, 0x00u8, 0x00u8, 0x0bu8, 0x49u8, 0x44u8, 0x41u8,
        0x54u8, 0x78u8, 0xdau8, 0x63u8, 0x64u8, 0x60u8, 0x00u8, 0x00u8,
        0x00u8, 0x06u8, 0x00u8, 0x02u8, 0x30u8, 0x81u8, 0xd0u8, 0x2fu8,
        0x00u8, 0x00u8, 0x00u8, 0x00u8, 0x49u8, 0x45u8, 0x4eu8, 0x44u8,
        0xaeu8, 0x42u8, 0x60u8, 0x82u8,
    ]
}

/// The fallback artwork as a byte vector.
pub fn empty_image() -> (r: Vec<u8>)
    ensures
        r@ == empty_image_bytes(),
{
    let r: Vec<u8> = vec![
        0x89, 0x50, 0x4e, 0x47, 0x0d, 0x0a, 0x1a, 0x0a,
        0x00, 0x00, 0x00, 0x0d, 0x49, 0x48, 0x44, 0x52,
        0x00, 0x00, 0x00, 0x01, 0x00, 0x00, 0x00, 0x01,
        0x08, 0x04, 0x00, 0x00, 0x00, 0xb5, 0x1c, 0x0c,
        0x02, 0x00, 0x00, 0x00, 0x0b, 0x49, 0x44, 0x41,
        0x54, 0x78, 0xda, 0x63, 0x64, 0x60, 0x00, 0x00,
        0x00, 0x06, 0x00, 0x02, 0x30, 0x81, 0xd0, 0x2f,
        0x00, 0x00, 0x00, 0x00, 0x49, 0x45, 0x4e, 0x44,
        0xae, 0x42, 0x60, 0x82,
    ];
    proof {
        assert(r@ =~= empty_image_bytes());
    }
    r
}

#[verifier::external_type_specification]
#[verifier::external_body]
pub struct ExFileParseError(lofty::error::FileParseError);

/// Relies on `lofty::read_from_path` and the accessors of
/// `lofty::tag::Tag`: parses the audio file at `path` and hands back the
/// title text and picture bytes of its primary tag, or the parse error.
/// What comes back depends on what is on disk, so nothing is promised of
/// the outcome.
#[verifier::external_body]
fn read_primary_tag(path: &str) -> (r: Result<Option<TagData>, lofty::error::FileParseError>) {
    match lofty::read_from_path(path) {
        Ok(file) => Ok(file.primary_tag().map(|tag| TagData {
            title: tag.title().map(|t| t.to_string()),
            pictures: tag.pictures().iter().map(|p| p.data().to_vec()).collect(),
        })),
        Err(e) => Err(e),
    }
}

/// The artwork a tag yields: the first embedded picture, or the fallback
/// image when there is no tag or the tag holds no picture.
pub open spec fn art_of(tag: Option<TagModel>) -> Seq<u8> {
    match tag {
        Some(t) => if t.pictures.len() > 0 {
            t.pictures[0]
        } else {
            empty_image_bytes()
        },
        None => empty_image_bytes(),
    }
}

/// The title a tag yields: its title text, or the empty string.
pub open spec fn title_of(tag: Option<TagModel>) -> Seq<char> {
    match tag {
        Some(t) => match t.title {
            Some(s) => s,
            None => Seq::empty(),
        },
        None => Seq::empty(),
    }
}

/// The artwork of an already-read tag, exactly as [`art_of`] states it.
pub fn art_from_tag(tag: &Option<TagData>) -> (r: Vec<u8>)
    ensures
        r@ == art_of(tag.deep_view()),
{
    match tag {
        Some(t) => {
            if t.pictures.len() > 0 {
                let first = t.pictures[0].clone();
                proof {
                    assert(first@ == t.pictures.deep_view()[0]);
                }
                first
            } else {
                empty_image()
            }
        },
        None => empty_image(),
    }
}

/// The title of an already-read tag, exactly as [`title_of`] states it.
pub fn title_from_tag(tag: &Option<TagData>) -> (r: String)
    ensures
        r@ == title_of(tag.deep_view()),
{
    match tag {
        Some(t) => match &t.title {
            Some(s) => s.clone(),
            None => String::new(),
        },
        None => String::new(),
    }
}

/// One track of the metadata service, named by the path of its file.
pub struct Track {
    pub path: String,
}

impl Track {
    /// The primary tag of the track's file: nothing for an empty path,
    /// and nothing when the file cannot be read or holds no tag.
    fn primary_tag(&self) -> (r: Option<TagData>)
        ensures
            self.path@.len() == 0 ==> r is None,
    {
        if self.path.as_str().is_empty() {
            None
        } else {
            match read_primary_tag(self.path.as_str()) {
                Ok(tag) => tag,
                Err(_) => None,
            }
        }
    }

    /// The track's artwork: the first picture of its primary tag, or the
    /// fallback image when no tag or no picture can be had.
    pub fn art(&self) -> (r: Vec<u8>)
        ensures
            self.path@.len() == 0 ==> r@ == empty_image_bytes(),
    {
        let tag = self.primary_tag();
        art_from_tag(&tag)
    }

    /// The track's title: the title of its primary tag, or the empty
    /// string when no tag or no title can be had.
    pub fn title(&self) -> (r: String)
        ensures
            self.path@.len() == 0 ==> r@ == Seq::<char>::empty(),
    {
        let tag = self.primary_tag();
        title_from_tag(&tag)
    }
}

/// A metadata record for one audio file: the primary tag's content, the
/// tag's first picture, and the tag's title.
pub struct Metadata {
    pub tag: Option<TagData>,
    pub art: Option<Vec<u8>>,
    pub title: Option<String>,
}

/// Reading a file's metadata failed: the file could not be parsed.
#[derive(Clone, Copy, PartialEq, Eq, Debug)]
pub enum MetadataError {
    Unreadable,
}

/// The picture slot of a metadata record: the tag's first picture, when
/// the tag exists and holds one.
pub open spec fn meta_art_of(tag: Option<TagModel>) -> Option<Seq<u8>> {
    match tag {
        Some(t) => if t.pictures.len() > 0 {
            Some(t.pictures[0])
        } else {
            None
        },
        None => None,
    }
}

/// The title slot of a metadata record: the tag's title, when the tag
/// exists.
pub open spec fn meta_title_of(tag: Option<TagModel>) -> Option<Seq<char>> {
    match tag {
        Some(t) => t.title,
        None => None,
    }
}

/// Builds the metadata record of an already-read tag, exact for every
/// value of the tag.
pub fn metadata_from_tag(tag: Option<TagData>) -> (m: Metadata)
    ensures
        m.tag.deep_view() == tag.deep_view(),
        m.art.deep_view() == meta_art_of(tag.deep_view()),
        m.title.deep_view() == meta_title_of(tag.deep_view()),
{
    let art = match &tag {
        Some(t) => if t.pictures.len() > 0 {
            Some(t.pictures[0].clone())
        } else {
            None
        },
        None => None,
    };
    let title = match &tag {
        Some(t) => match &t.title {
            Some(s) => Some(s.clone()),
            None => None,
        },
        None => None,
    };
    Metadata { tag, art, title }
}

/// Reads the metadata of the audio file at `path`. Success depends on
/// what is on disk; whatever tag came back, the record is built from it
/// as [`metadata_from_tag`] states, and a file that cannot be parsed
/// yields the one error.
pub fn get_metadata(path: String) -> (r: Result<Metadata, MetadataError>)
    ensures
        r matches Ok(m) ==> {
            &&& m.art.deep_view() == meta_art_of(m.tag.deep_view())
            &&& m.title.deep_view() == meta_title_of(m.tag.deep_view())
        },
        r matches Err(e) ==> e == MetadataError::Unreadable,
{
    match read_primary_tag(path.as_str()) {
        Ok(tag) => Ok(metadata_from_tag(tag)),
        Err(_) => Err(MetadataError::Unreadable),
    }
}

} // verus!
