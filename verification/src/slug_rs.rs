//! Validated project slugs.
use vstd::prelude::*;
use vstd::string::StringSliceAdditionalSpecFns;

verus! {

/// Largest length (exclusive) that a slug may have.
pub const MAX_LEN: usize = 14;

/// A character that may appear in a slug: `a-z`, `0-9` or `-`.
pub open spec fn is_slug_char(c: char) -> bool {
    ('a' <= c && c <= 'z') || ('0' <= c && c <= '9') || c == '-'
}

/// Text in slug shape: only slug characters, never two `-` in a row, and
/// neither starting nor ending with `-`.
pub open spec fn is_slug_text(s: Seq<char>) -> bool {
    &&& forall|i: int| 0 <= i < s.len() ==> is_slug_char(#[trigger] s[i])
    &&& forall|i: int| 0 <= i < s.len() - 1 ==> !(#[trigger] s[i] == '-' && s[i + 1] == '-')
    &&& s.len() > 0 ==> s[0] != '-' && s[s.len() - 1] != '-'
}

/// The texts that are accepted as slugs: slug shaped and shorter than [`MAX_LEN`].
pub open spec fn accepts(s: Seq<char>) -> bool {
    is_slug_text(s) && s.len() < MAX_LEN
}

/// What `slug::slugify` returns for a text.
pub uninterp spec fn slugified(s: Seq<char>) -> Seq<char>;

/// Calls `slug::slugify`. Claimed of it: the result is what [`slugified`] names;
/// it is slug shaped, as the crate documents ("a-z, 0-9, and '-'", never two
/// `-` in a row, never starting or ending with `-`); and a text that is already
/// slug shaped comes back unchanged (its ASCII letters, digits and single dashes
/// are pushed one for one by the crate's loop).
#[verifier::external_body]
fn slugify(s: &str) -> (r: String)
    ensures
        r@ == slugified(s@),
        is_slug_text(r@),
        is_slug_text(s@) ==> r@ == s@,
{
    ::slug::slugify(s)
}

/// Why a text is not a slug; each variant carries the rejected text.
#[derive(Debug, Clone)]
pub enum SlugDecodeError {
    NotASlug(String),
    TooLong(String),
}

impl SlugDecodeError {
    /// The human readable message of the error.
    pub fn message(&self) -> (r: String)
        ensures
            match self {
                SlugDecodeError::NotASlug(v) => r@ == "`"@ + v@ + "` is not a slug"@,
                SlugDecodeError::TooLong(v) => r@ == "`"@ + v@ + "` is too long, it must be < 14 char"@,
            },
    {
        let mut r = "`".to_owned();
        match self {
            SlugDecodeError::NotASlug(v) => {
                r.append(v.as_str());
                r.append("` is not a slug");
            },
            SlugDecodeError::TooLong(v) => {
                r.append(v.as_str());
                r.append("` is too long, it must be < 14 char");
            },
        }
        r
    }
}

/// A project slug: slug-shaped text shorter than [`MAX_LEN`].
#[derive(Debug, Clone, PartialEq, Eq, Hash)]
pub struct Slug(String);

impl View for Slug {
    type V = Seq<char>;

    closed spec fn view(&self) -> Seq<char> {
        self.0@
    }
}

proof fn lemma_slug_text_is_ascii(s: Seq<char>)
    requires
        is_slug_text(s),
    ensures
        vstd::utf8::is_ascii_chars(s),
{
    assert forall|i: int| 0 <= i < s.len() implies '\0' <= #[trigger] s[i] <= '\u{7f}' by {
        assert(is_slug_char(s[i]));
    }
}

impl Slug {
    /// Every slug holds accepted text.
    pub closed spec fn wf(&self) -> bool {
        accepts(self.0@)
    }

    /// Validates `value` as a slug.
    ///
    /// It is accepted exactly when it is slug shaped and shorter than
    /// [`MAX_LEN`]; the slug then holds `value` itself.
    pub fn try_from(value: &str) -> (r: Result<Slug, SlugDecodeError>)
        ensures
            match r {
                Ok(slug) => slug.wf() && slug@ == value@ && accepts(value@),
                Err(SlugDecodeError::NotASlug(v)) => v@ == value@ && !is_slug_text(value@),
                Err(SlugDecodeError::TooLong(v)) => v@ == value@ && is_slug_text(value@)
                    && value@.len() >= MAX_LEN,
            },
    {
        let slugged = slugify(value);
        let owned = value.to_owned();
        if slugged == owned {
            let text = slugged.as_str();
            proof {
                lemma_slug_text_is_ascii(text@);
                vstd::string::is_ascii_spec_bytes(text);
                assert(text.spec_bytes().len() == text@.len());
            }
            if text.as_bytes().len() >= MAX_LEN {
                Err(SlugDecodeError::TooLong(owned))
            } else {
                Ok(Slug(slugged))
            }
        } else {
            Err(SlugDecodeError::NotASlug(owned))
        }
    }

    /// Validates an owned `String`, as [`Slug::try_from`] does.
    pub fn try_from_string(value: String) -> (r: Result<Slug, SlugDecodeError>)
        ensures
            match r {
                Ok(slug) => slug.wf() && slug@ == value@ && accepts(value@),
                Err(SlugDecodeError::NotASlug(v)) => v@ == value@ && !is_slug_text(value@),
                Err(SlugDecodeError::TooLong(v)) => v@ == value@ && is_slug_text(value@)
                    && value@.len() >= MAX_LEN,
            },
    {
        Slug::try_from(value.as_str())
    }

    /// The text of the slug.
    pub fn as_ref(&self) -> (r: &String)
        ensures
            r@ == self@,
    {
        &self.0
    }

    /// The text of the slug, as it is displayed.
    pub fn to_string(&self) -> (r: String)
        ensures
            r@ == self@,
    {
        self.0.clone()
    }

    /// The empty slug.
    pub fn default() -> (r: Slug)
        ensures
            r.wf(),
            r@.len() == 0,
    {
        Slug(String::new())
    }
}

/// Every slug holds accepted text, so validating the text of a slug again
/// succeeds and gives back the same text.
pub proof fn lemma_slug_revalidates(slug: Slug)
    requires
        slug.wf(),
    ensures
        accepts(slug@),
        is_slug_text(slug@),
        slug@.len() < MAX_LEN,
{
}

} // verus!
