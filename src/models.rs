use vstd::prelude::*;
use crate::types::{RecordId, Timestamp};

verus! {

/// Metadata of an image file.
#[derive(Clone, Debug)]
pub struct LocalImage {
    pub id: Option<RecordId>,
    pub image_type: String,
    pub year: Option<i32>,
    pub month: Option<i32>,
    pub date_created: Option<Timestamp>,
    pub date_last_modified: Option<Timestamp>,
    pub file_name: String,
    pub description: Option<String>,
    pub source: Option<String>,
}

/// Metadata of a post file.
#[derive(Clone, Debug)]
pub struct Post {
    pub id: Option<RecordId>,
    pub heading: String,
    pub author: String,
    pub post_type: String,
    pub year: i32,
    pub month: i32,
    pub file_name: String,
    pub description: Option<String>,
    pub date_created: Option<Timestamp>,
    pub date_last_modified: Option<Timestamp>,
    pub tags: Option<Vec<String>>,
    pub reading_time_minutes: Option<i32>,
    pub is_featured: Option<bool>,
    pub in_progress: Option<bool>,
    pub active: Option<bool>,
    pub image: Option<RecordId>,
    pub checksum: Option<String>,
    pub body: Option<String>,
}

/// The entity kinds that a file can be recorded as.
#[derive(Clone, Copy, Debug, PartialEq, Eq)]
pub enum IndexableType {
    Post,
    LocalImage,
}

/// An entity of one of the kinds.
#[derive(Clone, Debug)]
pub enum IndexableEnum {
    Post(Post),
    LocalImage(LocalImage),
}

/// A new image record: no identity yet, the given type, name and creation
/// time, every other optional field empty.
pub open spec fn is_new_image(img: LocalImage, ext: Seq<char>, name: Seq<char>, now: Timestamp) -> bool {
    &&& img.id is None
    &&& img.image_type@ == ext
    &&& img.year is None
    &&& img.month is None
    &&& img.date_created == Some(now)
    &&& img.date_last_modified is None
    &&& img.file_name@ == name
    &&& img.description is None
    &&& img.source is None
}

/// A new post record: no identity yet, the given type, name and creation
/// time, empty heading and author, year and month zero, every other optional
/// field empty.
pub open spec fn is_new_post(p: Post, ext: Seq<char>, name: Seq<char>, now: Timestamp) -> bool {
    &&& p.id is None
    &&& p.heading@ == Seq::<char>::empty()
    &&& p.author@ == Seq::<char>::empty()
    &&& p.post_type@ == ext
    &&& p.year == 0
    &&& p.month == 0
    &&& p.file_name@ == name
    &&& p.description is None
    &&& p.date_created == Some(now)
    &&& p.date_last_modified is None
    &&& p.tags is None
    &&& p.reading_time_minutes is None
    &&& p.is_featured is None
    &&& p.in_progress is None
    &&& p.active is None
    &&& p.image is None
    &&& p.checksum is None
    &&& p.body is None
}

/// `e` is a new entity of kind `kind` for a file of extension `ext` and identity `name`.
pub open spec fn is_new_entity(
    e: IndexableEnum,
    kind: IndexableType,
    ext: Seq<char>,
    name: Seq<char>,
    now: Timestamp,
) -> bool {
    match e {
        IndexableEnum::LocalImage(img) => kind == IndexableType::LocalImage && is_new_image(img, ext, name, now),
        IndexableEnum::Post(p) => kind == IndexableType::Post && is_new_post(p, ext, name, now),
    }
}

impl LocalImage {
    /// A new image record for a file of extension `ext` and identity `name`.
    pub fn new_record(ext: String, name: String, now: Timestamp) -> (r: LocalImage)
        ensures
            is_new_image(r, ext@, name@, now),
    {
        LocalImage {
            id: None,
            image_type: ext,
            year: None,
            month: None,
            date_created: Some(now),
            date_last_modified: None,
            file_name: name,
            description: None,
            source: None,
        }
    }
}

impl Post {
    /// A new post record for a file of extension `ext` and identity `name`.
    pub fn new_record(ext: String, name: String, now: Timestamp) -> (r: Post)
        ensures
            is_new_post(r, ext@, name@, now),
    {
        Post {
            id: None,
            heading: String::new(),
            author: String::new(),
            post_type: ext,
            year: 0,
            month: 0,
            file_name: name,
            description: None,
            date_created: Some(now),
            date_last_modified: None,
            tags: None,
            reading_time_minutes: None,
            is_featured: None,
            in_progress: None,
            active: None,
            image: None,
            checksum: None,
            body: None,
        }
    }
}

} // verus!
