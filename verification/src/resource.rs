use vstd::prelude::*;

verus! {

/// A parsed absolute URL, carried opaquely from the router to the fetch edge.
#[verifier::external_type_specification]
#[verifier::external_body]
pub struct ExUrl(url::Url);

/// The error url::Url::parse reports for a string it rejects.
#[verifier::external_type_specification]
#[verifier::external_body]
pub struct ExParseError(url::ParseError);

/// What url::Url::parse hands back.
pub type UrlParseOutcome = Result<url::Url, url::ParseError>;

/// Whether url::Url::parse accepts the string as an absolute URL; a function
/// of the characters alone.
pub uninterp spec fn url_accepted(s: Seq<char>) -> bool;

/// Relies on url::Url::parse: accepts or rejects a string as an absolute
/// URL, deterministically in the string alone.
#[verifier::external_body]
pub fn parse_url(s: &str) -> (r: UrlParseOutcome)
    ensures
        r is Ok <==> url_accepted(s@),
{
    url::Url::parse(s)
}

/// Relies on url::Url::path: hands out the URL's path component as the
/// percent-encoded bytes the parsed URL carries. A rooted path (leading
/// slash) means the URL can be a base; otherwise it cannot.
#[verifier::external_body]
pub fn url_path_bytes(u: &url::Url) -> (r: Vec<u8>)
{
    u.path().as_bytes().to_vec()
}

/// The byte '/' that separates path segments.
pub const SLASH: u8 = 47;

/// The generic display name used when the URL's path has no usable segments.
pub open spec fn fallback_name() -> Seq<u8> {
    seq![102u8, 105u8, 108u8, 101u8]
}

/// The suffix of `s` after its last '/' byte: `s` itself when no '/' occurs.
pub open spec fn tail_after_last_slash(s: Seq<u8>) -> Seq<u8>
    decreases s.len(),
{
    if s.len() == 0 {
        s
    } else if s.last() == SLASH {
        Seq::empty()
    } else {
        tail_after_last_slash(s.drop_last()).push(s.last())
    }
}

/// The display name the session derives from a URL path: the final segment
/// of a rooted path (possibly empty, as the platform shows it), and the
/// generic fallback for a URL that cannot be a base.
pub open spec fn display_name_of(path: Seq<u8>) -> Seq<u8> {
    if path.len() > 0 && path[0] == SLASH {
        tail_after_last_slash(path)
    } else {
        fallback_name()
    }
}

/// Derives the display name from a URL path, byte for byte as
/// `display_name_of` states it.
pub fn name_from_path(path: &Vec<u8>) -> (name: Vec<u8>)
    ensures
        name@ == display_name_of(path@),
{
    if path.len() == 0 || path[0] != SLASH {
        let fallback: Vec<u8> = vec![102u8, 105u8, 108u8, 101u8];
        proof {
            assert(fallback@ =~= fallback_name());
        }
        return fallback;
    }
    let mut name: Vec<u8> = Vec::new();
    let mut i: usize = 0;
    while i < path.len()
        invariant
            i <= path.len(),
            name@ == tail_after_last_slash(path@.subrange(0, i as int)),
        decreases path.len() - i,
    {
        let b = path[i];
        proof {
            let pre = path@.subrange(0, i as int);
            let cur = path@.subrange(0, i + 1);
            assert(cur.drop_last() =~= pre);
            assert(cur.last() == path@[i as int]);
        }
        if b == SLASH {
            name = Vec::new();
            proof {
                assert(name@ =~= Seq::<u8>::empty());
            }
        } else {
            name.push(b);
        }
        i = i + 1;
    }
    proof {
        assert(path@.subrange(0, path@.len() as int) =~= path@);
    }
    name
}

/// How a finished upload is delivered back to the conversation.
#[derive(Clone, Copy, Debug, PartialEq, Eq, Structural)]
pub enum AttachmentKind {
    /// The display name ends in `.mp4`, in any casing.
    Video,
    /// Every other display name.
    Document,
}

/// Folds an ASCII upper-case letter to lower case; leaves every other byte.
pub open spec fn ascii_lower(b: u8) -> u8 {
    if 65 <= b && b <= 90 {
        (b + 32) as u8
    } else {
        b
    }
}

/// Whether the name ends in `.mp4`, compared case-insensitively (ASCII).
pub open spec fn is_mp4_name(name: Seq<u8>) -> bool {
    &&& name.len() >= 4
    &&& name[name.len() - 4] == 46u8
    &&& ascii_lower(name[name.len() - 3]) == 109u8
    &&& ascii_lower(name[name.len() - 2]) == 112u8
    &&& name[name.len() - 1] == 52u8
}

/// Lower-cases one ASCII byte.
pub fn ascii_lower_byte(b: u8) -> (r: u8)
    ensures
        r == ascii_lower(b),
{
    if 65 <= b && b <= 90 {
        b + 32
    } else {
        b
    }
}

/// Picks the attachment kind for a display name: video exactly for an
/// `.mp4` suffix in any casing, a generic document otherwise.
pub fn attachment_kind(name: &Vec<u8>) -> (k: AttachmentKind)
    ensures
        k == (if is_mp4_name(name@) {
            AttachmentKind::Video
        } else {
            AttachmentKind::Document
        }),
{
    let n = name.len();
    if n >= 4 {
        let dot = name[n - 4];
        let m = ascii_lower_byte(name[n - 3]);
        let p = ascii_lower_byte(name[n - 2]);
        let four = name[n - 1];
        if dot == 46 && m == 109 && p == 112 && four == 52 {
            return AttachmentKind::Video;
        }
    }
    AttachmentKind::Document
}

} // verus!
