//! Entity tags and cache directives for API responses.

use crate::paging::Payload;
use crate::text::{join3, push_char, text_eq};
use vstd::string::StringExecFns;
use vstd::utf8::encode_utf8;

use vstd::prelude::*;

verus! {

/// The SHA-1 digest of a byte string: twenty bytes that depend on the input alone.
pub uninterp spec fn sha1_bytes(data: Seq<u8>) -> Seq<u8>;

/// Longest input, in bytes, whose length in bits still fits the 64-bit counter of SHA-1.
pub const SHA1_MAX_INPUT: u64 = 0x1fff_ffff_ffff_ffff;

/// Calls `ring::digest::digest` with `SHA1_FOR_LEGACY_USE_ONLY`.
///
/// Trusted: the result is the SHA-1 digest of `data`, always twenty bytes long.
/// `ring` refuses inputs whose bit length overflows 64 bits; those are excluded.
#[verifier::external_body]
fn sha1(data: &[u8]) -> (out: Vec<u8>)
    requires
        data@.len() <= SHA1_MAX_INPUT,
    ensures
        out@ == sha1_bytes(data@),
        out@.len() == 20,
{
    let sha = ring::digest::digest(&ring::digest::SHA1_FOR_LEGACY_USE_ONLY, data);
    sha.as_ref().to_vec()
}

/// The lower-case hexadecimal digit of a value below sixteen.
pub open spec fn hex_digit(n: int) -> char {
    if n == 0 { '0' } else if n == 1 { '1' } else if n == 2 { '2' } else if n == 3 { '3' }
    else if n == 4 { '4' } else if n == 5 { '5' } else if n == 6 { '6' } else if n == 7 { '7' }
    else if n == 8 { '8' } else if n == 9 { '9' } else if n == 10 { 'a' } else if n == 11 { 'b' }
    else if n == 12 { 'c' } else if n == 13 { 'd' } else if n == 14 { 'e' } else { 'f' }
}

/// Two lower-case hexadecimal digits per byte, high nibble first.
pub open spec fn hex(bytes: Seq<u8>) -> Seq<char> {
    Seq::new(2 * bytes.len(), |i: int| if i % 2 == 0 {
        hex_digit(bytes[i / 2] as int / 16)
    } else {
        hex_digit(bytes[i / 2] as int % 16)
    })
}

fn hex_char(n: u8) -> (c: char)
    requires
        n < 16,
    ensures
        c == hex_digit(n as int),
{
    if n == 0 { '0' } else if n == 1 { '1' } else if n == 2 { '2' } else if n == 3 { '3' }
    else if n == 4 { '4' } else if n == 5 { '5' } else if n == 6 { '6' } else if n == 7 { '7' }
    else if n == 8 { '8' } else if n == 9 { '9' } else if n == 10 { 'a' } else if n == 11 { 'b' }
    else if n == 12 { 'c' } else if n == 13 { 'd' } else if n == 14 { 'e' } else { 'f' }
}

/// The bytes in lower-case hexadecimal.
pub fn to_hex(bytes: &Vec<u8>) -> (text: String)
    ensures
        text@ == hex(bytes@),
{
    let mut text = String::new();
    let mut i: usize = 0;
    while i < bytes.len()
        invariant
            i <= bytes.len(),
            text@ =~= hex(bytes@.take(i as int)),
        decreases bytes.len() - i,
    {
        let b = bytes[i];
        push_char(&mut text, hex_char(b / 16));
        push_char(&mut text, hex_char(b % 16));
        assert(text@ =~= hex(bytes@.take(i + 1))) by {
            let prev = hex(bytes@.take(i as int));
            let next = hex(bytes@.take(i + 1));
            assert(next.len() == prev.len() + 2);
            assert forall|j: int| 0 <= j < next.len() implies text@[j] == next[j] by {
                if j < prev.len() {
                    assert(bytes@.take(i as int)[j / 2] == bytes@.take(i + 1)[j / 2]);
                    assert(text@[j] == prev[j]);
                } else {
                    assert(j / 2 == i);
                    assert(bytes@.take(i + 1)[j / 2] == b);
                }
            }
        }
        i += 1;
    }
    assert(bytes@.take(i as int) =~= bytes@);
    text
}

/// The SHA-1 digest of the UTF-8 form of a text, in lower-case hexadecimal.
pub open spec fn sha1_hex(text: Seq<char>) -> Seq<char> {
    hex(sha1_bytes(encode_utf8(text)))
}

/// Whether SHA-1 takes the text: its UTF-8 form is short enough.
pub open spec fn fits_sha1(text: Seq<char>) -> bool {
    encode_utf8(text).len() <= SHA1_MAX_INPUT
}

/// The SHA-1 digest of a text, in lower-case hexadecimal.
pub fn digest(s: &str) -> (text: String)
    requires
        fits_sha1(s@),
    ensures
        text@ == sha1_hex(s@),
        text@.len() == 40,
{
    let sha = sha1(s.as_bytes());
    to_hex(&sha)
}

/// The entity tag of a text: its SHA-1 digest in hexadecimal.
pub fn etag_hash(s: &str) -> (tag: String)
    requires
        fits_sha1(s@),
    ensures
        tag@ == sha1_hex(s@),
        tag@.len() == 40,
{
    digest(s)
}

/// The SHA-1 digest of a text in hexadecimal, where SHA-1 takes the text.
pub fn try_digest(s: &str) -> (r: Option<String>)
    ensures
        match r {
            Some(text) => fits_sha1(s@) && text@ == sha1_hex(s@) && text@.len() == 40,
            None => !fits_sha1(s@),
        },
{
    if s.as_bytes().len() as u64 <= SHA1_MAX_INPUT {
        Some(digest(s))
    } else {
        None
    }
}

/// How long a response may be kept, and by whom.
#[derive(Clone, Copy, Debug)]
pub struct CacheInfo {
    pub max_age: u32,
    pub public: bool,
}

/// A directive of the `Cache-Control` header.
#[derive(Clone, Copy, Debug, PartialEq, Eq, Structural)]
pub enum CacheDirective {
    MaxAge(u32),
    Public,
    Private,
    NoCache,
    NoStore,
}

/// An entity tag: a text that names a version of a resource. A weak tag
/// names versions that mean the same.
#[derive(Debug)]
pub struct EntityTag {
    pub weak: bool,
    pub tag: String,
}

pub struct EntityTagView {
    pub weak: bool,
    pub tag: Seq<char>,
}

impl View for EntityTag {
    type V = EntityTagView;

    open spec fn view(&self) -> EntityTagView {
        EntityTagView { weak: self.weak, tag: self.tag@ }
    }
}

impl EntityTag {
    pub fn weak(tag: String) -> (etag: EntityTag)
        ensures
            etag@ == (EntityTagView { weak: true, tag: tag@ }),
    {
        EntityTag { weak: true, tag }
    }

    pub fn strong(tag: String) -> (etag: EntityTag)
        ensures
            etag@ == (EntityTagView { weak: false, tag: tag@ }),
    {
        EntityTag { weak: false, tag }
    }

    /// Whether the tags hold the same text, weak or not.
    pub fn weak_eq(&self, other: &EntityTag) -> (same: bool)
        ensures
            same == (self@.tag == other@.tag),
    {
        text_eq(self.tag.as_str(), other.tag.as_str())
    }

    /// Whether both tags are strong and hold the same text.
    pub fn strong_eq(&self, other: &EntityTag) -> (same: bool)
        ensures
            same == (!self@.weak && !other@.weak && self@.tag == other@.tag),
    {
        !self.weak && !other.weak && text_eq(self.tag.as_str(), other.tag.as_str())
    }

    pub fn copy(&self) -> (etag: EntityTag)
        ensures
            etag@ == self@,
    {
        EntityTag { weak: self.weak, tag: self.tag.clone() }
    }

    /// The tag as a header carries it: in quotes, and marked where it is weak.
    pub fn header_value(&self) -> (text: String)
        ensures
            text@ == tag_text(self@),
    {
        if self.weak {
            join3("W/\"", self.tag.as_str(), "\"")
        } else {
            join3("\"", self.tag.as_str(), "\"")
        }
    }
}

/// The tag as a header carries it: in quotes, and marked where it is weak.
pub open spec fn tag_text(tag: EntityTagView) -> Seq<char> {
    if tag.weak {
        "W/\""@ + tag.tag + "\""@
    } else {
        "\""@ + tag.tag + "\""@
    }
}

/// The digests of the tags, one after the other.
pub open spec fn digests(tags: Seq<EntityTagView>) -> Seq<char>
    decreases tags.len(),
{
    if tags.len() == 0 {
        Seq::empty()
    } else {
        digests(tags.drop_last()) + sha1_hex(tag_text(tags.last()))
    }
}

/// Whether SHA-1 takes every tag of the list, and the digests of them all in a row.
pub open spec fn all_fit(tags: Seq<EntityTagView>) -> bool {
    &&& forall|i: int| 0 <= i < tags.len() ==> fits_sha1(tag_text(#[trigger] tags[i]))
    &&& fits_sha1(digests(tags))
}

/// The tag of a list, made of the tags of what it holds: weak, the digest
/// of the digests of those tags. `None` where SHA-1 does not take a text
/// that long.
pub fn payload_etag(tags: &Vec<EntityTag>) -> (r: Option<EntityTag>)
    ensures
        match r {
            Some(etag) => all_fit(tags@.map_values(|t: EntityTag| t@)) && etag@ == (EntityTagView {
                weak: true,
                tag: sha1_hex(digests(tags@.map_values(|t: EntityTag| t@))),
            }) && etag@.tag.len() == 40,
            None => !all_fit(tags@.map_values(|t: EntityTag| t@)),
        },
{
    let ghost views = tags@.map_values(|t: EntityTag| t@);
    let mut joined = String::new();
    let mut i: usize = 0;
    assert(views.take(0) =~= Seq::empty());
    while i < tags.len()
        invariant
            i <= tags.len(),
            views == tags@.map_values(|t: EntityTag| t@),
            joined@ == digests(views.take(i as int)),
            forall|j: int| 0 <= j < i ==> fits_sha1(tag_text(#[trigger] views[j])),
        decreases tags.len() - i,
    {
        assert(views.take(i + 1).drop_last() =~= views.take(i as int));
        let text = tags[i].header_value();
        match try_digest(text.as_str()) {
            Some(d) => {
                joined.append(d.as_str());
            },
            None => {
                assert(!fits_sha1(tag_text(views[i as int])));
                return None;
            },
        }
        i += 1;
    }
    assert(views.take(i as int) =~= views);
    match try_digest(joined.as_str()) {
        Some(d) => Some(EntityTag::weak(d)),
        None => None,
    }
}

/// A list of what has tags, to take its tag from them.
pub struct PayloadETag<T> {
    pub payload: Payload<T>,
}

impl<T: ToETag> PayloadETag<T> {
    pub fn wrap(payload: Payload<T>) -> (wrapped: PayloadETag<T>)
        ensures
            wrapped.payload == payload,
    {
        PayloadETag { payload }
    }

    /// The tag of the list: that which `payload_etag` makes of the tags of
    /// what the list holds, one tag for each, in their order.
    pub fn to_etag(&self) -> (r: Option<EntityTag>)
        ensures
            r matches Some(etag) ==> exists|tags: Seq<EntityTagView>|
                tags.len() == self.payload.data@.len() && all_fit(tags) && etag@ == (EntityTagView {
                    weak: true,
                    tag: sha1_hex(digests(tags)),
                }),
            r matches Some(etag) ==> etag@.tag.len() == 40,
            r is None ==> exists|tags: Seq<EntityTagView>|
                tags.len() == self.payload.data@.len() && !all_fit(tags),
    {
        let mut tags: Vec<EntityTag> = Vec::new();
        let mut i: usize = 0;
        while i < self.payload.data.len()
            invariant
                i <= self.payload.data.len(),
                tags@.len() == i,
            decreases self.payload.data.len() - i,
        {
            tags.push(self.payload.data[i].to_etag());
            i += 1;
        }
        let r = payload_etag(&tags);
        proof {
            let views = tags@.map_values(|t: EntityTag| t@);
            if r is Some {
                assert(views.len() == self.payload.data@.len() && all_fit(views));
            } else {
                assert(views.len() == self.payload.data@.len() && !all_fit(views));
            }
        }
        r
    }
}

/// What has an entity tag.
pub trait ToETag {
    fn to_etag(&self) -> EntityTag;
}

/// The `If-None-Match` header of a request: any version, or the versions that the client holds.
#[derive(Debug)]
pub enum IfNoneMatch {
    Any,
    Items(Vec<EntityTag>),
}

pub enum IfNoneMatchView {
    Any,
    Items(Seq<EntityTagView>),
}

impl View for IfNoneMatch {
    type V = IfNoneMatchView;

    open spec fn view(&self) -> IfNoneMatchView {
        match self {
            IfNoneMatch::Any => IfNoneMatchView::Any,
            IfNoneMatch::Items(tags) => IfNoneMatchView::Items(tags@.map_values(|t: EntityTag| t@)),
        }
    }
}

/// The status and the caching headers of a response.
#[derive(Debug)]
pub struct HttpResponseBuilder {
    pub status: u16,
    pub cache_control: Vec<CacheDirective>,
    pub etag: Option<EntityTag>,
}

/// The caching headers of a response: the directives and, where the resource has one, its entity tag.
#[derive(Debug)]
pub struct CacheHeaders(pub Vec<CacheDirective>, pub Option<EntityTag>);

/// The view of an optional entity tag.
pub open spec fn tag_view(etag: Option<EntityTag>) -> Option<EntityTagView> {
    match etag {
        Some(t) => Some(t@),
        None => None,
    }
}

/// Whether one of the tags holds the text.
pub open spec fn holds(tags: Seq<EntityTagView>, text: Seq<char>) -> bool {
    exists|i: int| 0 <= i < tags.len() && (#[trigger] tags[i]).tag == text
}

/// Whether a client has to be sent the resource again: the resource has no
/// tag, the request names no versions, or none of the versions named has
/// the text of the tag.
pub open spec fn stale(etag: Option<EntityTagView>, header: Option<IfNoneMatchView>) -> bool {
    match etag {
        None => true,
        Some(e) => match header {
            Some(IfNoneMatchView::Items(tags)) => !holds(tags, e.tag),
            Some(IfNoneMatchView::Any) => true,
            None => true,
        },
    }
}

/// The directives that say what `info` says: the age, and `private` unless the response is public.
pub open spec fn directives_of(info: CacheInfo) -> Seq<CacheDirective> {
    if info.public {
        seq![CacheDirective::MaxAge(info.max_age)]
    } else {
        seq![CacheDirective::MaxAge(info.max_age), CacheDirective::Private]
    }
}

fn copy_directives(directives: &Vec<CacheDirective>) -> (copy: Vec<CacheDirective>)
    ensures
        copy@ == directives@,
{
    let mut copy: Vec<CacheDirective> = Vec::new();
    let mut i: usize = 0;
    while i < directives.len()
        invariant
            i <= directives.len(),
            copy@ =~= directives@.take(i as int),
        decreases directives.len() - i,
    {
        copy.push(directives[i]);
        i += 1;
    }
    assert(directives@.take(i as int) =~= directives@);
    copy
}

impl CacheHeaders {
    /// The headers that say what `info` says, with the tag of the resource.
    pub fn from(info: CacheInfo, etag: Option<EntityTag>) -> (headers: CacheHeaders)
        ensures
            headers.0@ == directives_of(info),
            headers.1 == etag,
    {
        let mut directives: Vec<CacheDirective> = Vec::new();
        directives.push(CacheDirective::MaxAge(info.max_age));
        if !info.public {
            directives.push(CacheDirective::Private);
        }
        assert(directives@ =~= directives_of(info));
        CacheHeaders(directives, etag)
    }

    /// The headers of a list of what has tags, with the tag of the list
    /// where it has one.
    pub fn from_payload<T: ToETag>(payload: Payload<T>, info: CacheInfo) -> (headers: CacheHeaders)
        ensures
            headers.0@ == directives_of(info),
            headers.1 matches Some(etag) ==> etag@.weak && etag@.tag.len() == 40,
    {
        let etag = PayloadETag::wrap(payload).to_etag();
        CacheHeaders::from(info, etag)
    }

    pub fn cache_control(&self) -> (directives: &Vec<CacheDirective>)
        ensures
            directives == self.0,
    {
        &self.0
    }

    pub fn etag(&self) -> (etag: &Option<EntityTag>)
        ensures
            etag == self.1,
    {
        &self.1
    }

    /// The directives alone.
    pub fn inner(self) -> (directives: Vec<CacheDirective>)
        ensures
            directives == self.0,
    {
        self.0
    }

    /// Whether the client has to be sent the resource again.
    #[verifier::loop_isolation(false)]
    pub fn is_stale(&self, if_none_match: &Option<IfNoneMatch>) -> (r: bool)
        ensures
            r == stale(
                tag_view(self.1),
                match if_none_match {
                    Some(h) => Some(h@),
                    None => None,
                },
            ),
    {
        let etag = match &self.1 {
            Some(e) => e,
            None => {
                return true;
            },
        };
        match if_none_match {
            Some(IfNoneMatch::Items(entities)) => {
                let ghost tags = entities@.map_values(|t: EntityTag| t@);
                let mut i: usize = 0;
                while i < entities.len()
                    invariant
                        i <= entities.len(),
                        tags == entities@.map_values(|t: EntityTag| t@),
                        forall|j: int| 0 <= j < i ==> (#[trigger] tags[j]).tag != etag@.tag,
                    decreases entities.len() - i,
                {
                    if etag.weak_eq(&entities[i]) {
                        assert(tags[i as int].tag == etag@.tag);
                        return false;
                    }
                    i += 1;
                }
                true
            },
            Some(IfNoneMatch::Any) => true,
            None => true,
        }
    }

    /// Puts the headers on a response.
    pub fn set_headers(&self, builder: &mut HttpResponseBuilder)
        ensures
            final(builder).status == old(builder).status,
            final(builder).cache_control@ == self.0@,
            tag_view(final(builder).etag) == match self.1 {
                Some(e) => Some(e@),
                None => tag_view(old(builder).etag),
            },
    {
        builder.cache_control = copy_directives(&self.0);
        if let Some(etag) = &self.1 {
            builder.etag = Some(etag.copy());
        }
    }

    /// A response with status 200 and the headers.
    pub fn into_ok_response(self) -> (builder: HttpResponseBuilder)
        ensures
            builder.status == 200,
            builder.cache_control@ == self.0@,
            tag_view(builder.etag) == tag_view(self.1),
    {
        let mut builder = HttpResponseBuilder { status: 200, cache_control: Vec::new(), etag: None };
        self.set_headers(&mut builder);
        builder
    }

    /// A response with the headers: status 200 where the client has to be
    /// sent the resource again, 302 where it holds a version with the tag.
    pub fn into_response(self, if_none_match: &Option<IfNoneMatch>) -> (builder: HttpResponseBuilder)
        ensures
            builder.status == if stale(
                tag_view(self.1),
                match if_none_match {
                    Some(h) => Some(h@),
                    None => None,
                },
            ) {
                200u16
            } else {
                302u16
            },
            builder.cache_control@ == self.0@,
            tag_view(builder.etag) == tag_view(self.1),
    {
        let status: u16 = if self.is_stale(if_none_match) {
            200
        } else {
            302
        };
        let mut builder = HttpResponseBuilder { status, cache_control: Vec::new(), etag: None };
        self.set_headers(&mut builder);
        builder
    }
}

} // verus!
