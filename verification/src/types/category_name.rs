//! Category names: slash-separated paths such as `utils/electricity`.

use crate::errors::DomainError;
use crate::text::{append_chars, char_is_digit, char_is_letter, chars_of, is_digit, is_letter};
use vstd::prelude::*;

verus! {

/// A character that may stand inside a segment of a category name: an ASCII
/// letter or digit, `-` or `_`.
pub open spec fn is_segment_char(c: char) -> bool {
    is_letter(c) || is_digit(c) || c == '-' || c == '_'
}

/// `s` is a category name: not empty, no `/` at either end, no `//`, and
/// between the slashes only segment characters. Put otherwise: split at `/`,
/// every segment is non-empty and made of segment characters
/// (`lemma_names_are_made_of_segments`).
pub open spec fn is_category_name(s: Seq<char>) -> bool {
    &&& s.len() > 0
    &&& s.first() != '/'
    &&& s.last() != '/'
    &&& !has_double_slash(s)
    &&& forall|i: int| 0 <= i < s.len() ==> #[trigger] s[i] == '/' || is_segment_char(s[i])
}

/// `s` holds two slashes in a row.
pub open spec fn has_double_slash(s: Seq<char>) -> bool {
    exists|i: int| 0 <= i < s.len() - 1 && #[trigger] s[i] == '/' && s[i + 1] == '/'
}

/// The place of the first slash of `s`, or its length where it holds none.
pub open spec fn first_slash(s: Seq<char>) -> int
    decreases s.len(),
{
    if s.len() == 0 || s[0] == '/' {
        0
    } else {
        1 + first_slash(s.skip(1))
    }
}

/// The parts of `s` between its slashes, in order. A text without a slash
/// has one part, itself.
pub open spec fn segments(s: Seq<char>) -> Seq<Seq<char>>
    decreases s.len(),
{
    let i = first_slash(s);
    if 0 <= i < s.len() {
        seq![s.take(i)] + segments(s.skip(i + 1))
    } else {
        seq![s]
    }
}

/// A segment of a category name: not empty, and made of segment characters.
pub open spec fn is_segment(part: Seq<char>) -> bool {
    part.len() > 0 && forall|i: int| 0 <= i < part.len() ==> is_segment_char(#[trigger] part[i])
}

/// `s[from..to]` is the first segment of `s`, in reading order, that holds a
/// character which is not a segment character.
pub open spec fn is_first_bad_segment(s: Seq<char>, from: int, to: int) -> bool {
    &&& 0 <= from <= to <= s.len()
    &&& (from == 0 || s[from - 1] == '/')
    &&& (to == s.len() || s[to] == '/')
    &&& forall|i: int| from <= i < to ==> #[trigger] s[i] != '/'
    &&& exists|i: int| from <= i < to && !is_segment_char(#[trigger] s[i])
    &&& forall|i: int| 0 <= i < from ==> #[trigger] s[i] == '/' || is_segment_char(s[i])
}

/// Why `s` is no category name. The rules are tried in this order: empty,
/// leading slash, trailing slash, double slash, characters.
pub open spec fn is_rejection_reason(s: Seq<char>, reason: Seq<char>) -> bool {
    if s.len() == 0 {
        reason == "category name must not be empty"@
    } else if s.first() == '/' {
        reason == "category name must not start with '/'"@
    } else if s.last() == '/' {
        reason == "category name must not end with '/'"@
    } else if has_double_slash(s) {
        reason == "category name must not contain empty segments (double slashes)"@
    } else {
        exists|from: int, to: int|
            #![trigger s.subrange(from, to)]
            is_first_bad_segment(s, from, to) && reason == "segment '"@ + s.subrange(from, to)
                + "' contains invalid characters; only alphanumeric, hyphens, and underscores are allowed"@
    }
}

pub fn char_is_segment_char(c: char) -> (r: bool)
    ensures
        r == is_segment_char(c),
{
    char_is_letter(c) || char_is_digit(c) || c == '-' || c == '_'
}

/// The name of a category.
#[derive(Debug, PartialEq, Eq)]
pub struct CategoryName(String);

impl Clone for CategoryName {
    fn clone(&self) -> (r: Self)
        ensures
            r@ == self@,
    {
        proof {
            use_type_invariant(self);
        }
        CategoryName(self.0.clone())
    }
}

impl View for CategoryName {
    type V = Seq<char>;

    closed spec fn view(&self) -> Seq<char> {
        self.0@
    }
}

impl CategoryName {
    #[verifier::type_invariant]
    spec fn well_formed(self) -> bool {
        is_category_name(self.0@)
    }

    /// Accepts exactly the category names; a rejected text comes back with
    /// the first rule that it breaks.
    pub fn new(value: &str) -> (r: Result<Self, DomainError>)
        ensures
            is_category_name(value@) ==> r is Ok && r->Ok_0@ == value@,
            !is_category_name(value@) ==> (r matches Err(
                DomainError::InvalidCategoryName { reason },
            ) && is_rejection_reason(value@, reason@)),
    {
        let v = chars_of(value);
        let n = v.len();
        if n == 0 {
            return Err(
                DomainError::InvalidCategoryName {
                    reason: "category name must not be empty".to_owned(),
                },
            );
        }
        if v[0] == '/' {
            return Err(
                DomainError::InvalidCategoryName {
                    reason: "category name must not start with '/'".to_owned(),
                },
            );
        }
        if v[n - 1] == '/' {
            return Err(
                DomainError::InvalidCategoryName {
                    reason: "category name must not end with '/'".to_owned(),
                },
            );
        }
        if find_double_slash(&v) {
            return Err(
                DomainError::InvalidCategoryName {
                    reason: "category name must not contain empty segments (double slashes)".to_owned(),
                },
            );
        }
        match find_bad_segment(&v) {
            Some((from, to)) => {
                let mut reason = "segment '".to_owned();
                append_chars(&mut reason, &v, from, to);
                reason.append(
                    "' contains invalid characters; only alphanumeric, hyphens, and underscores are allowed",
                );
                proof {
                    let i = choose|i: int| from <= i < to && !is_segment_char(#[trigger] v@[i]);
                    assert(v@[i] != '/');
                    assert(!is_category_name(value@));
                }
                Err(DomainError::InvalidCategoryName { reason })
            },
            None => Ok(CategoryName(value.to_owned())),
        }
    }

    pub fn as_str(&self) -> (s: &str)
        ensures
            s@ == self@,
            is_category_name(s@),
    {
        proof {
            use_type_invariant(self);
        }
        self.0.as_str()
    }

    /// Every character of a category name is a slash or a segment character,
    /// so a text that holds any other character is rejected.
    pub proof fn lemma_foreign_character_rejected(s: Seq<char>, i: int)
        requires
            0 <= i < s.len(),
            s[i] != '/',
            !is_segment_char(s[i]),
        ensures
            !is_category_name(s),
    {
    }

    /// A text with an empty segment is rejected: an empty text, a slash at
    /// either end, or two slashes in a row.
    pub proof fn lemma_empty_segment_rejected(s: Seq<char>, i: int)
        requires
            s.len() == 0 || (0 <= i < s.len() && s[i] == '/' && (i == 0 || i == s.len() - 1
                || s[i + 1] == '/')),
        ensures
            !is_category_name(s),
    {
        if s.len() > 0 && i != 0 && i != s.len() - 1 {
            assert(s[i] == '/' && s[i + 1] == '/');
        }
    }
}

/// The first slash is where it says: nothing before it is a slash.
pub proof fn lemma_first_slash(s: Seq<char>)
    ensures
        0 <= first_slash(s) <= s.len(),
        forall|j: int| 0 <= j < first_slash(s) ==> #[trigger] s[j] != '/',
        first_slash(s) < s.len() ==> s[first_slash(s)] == '/',
    decreases s.len(),
{
    if s.len() > 0 && s[0] != '/' {
        let rest = s.skip(1);
        lemma_first_slash(rest);
        assert forall|j: int| 0 <= j < first_slash(s) implies #[trigger] s[j] != '/' by {
            if j > 0 {
                assert(s[j] == rest[j - 1]);
            }
        }
        if first_slash(s) < s.len() {
            assert(s[first_slash(s)] == rest[first_slash(rest)]);
        }
    }
}

/// The category names are the texts whose parts between the slashes are all
/// segments.
pub proof fn lemma_names_are_made_of_segments(s: Seq<char>)
    ensures
        is_category_name(s) <==> forall|k: int|
            0 <= k < segments(s).len() ==> is_segment(#[trigger] segments(s)[k]),
    decreases s.len(),
{
    lemma_first_slash(s);
    let i = first_slash(s);
    let parts = segments(s);
    if i >= s.len() {
        // No slash: the text is its only part.
        assert(parts =~= seq![s]);
        assert(parts[0] == s);
        if is_category_name(s) {
            assert forall|j: int| 0 <= j < s.len() implies is_segment_char(#[trigger] s[j]) by {
                assert(s[j] != '/');
            }
            assert(is_segment(s));
        }
        if is_segment(s) {
            assert(is_segment_char(s[0]));
            assert(is_segment_char(s[s.len() - 1]));
            assert forall|j: int| 0 <= j < s.len() - 1 implies !(#[trigger] s[j] == '/' && s[j + 1]
                == '/') by {
                assert(is_segment_char(s[j]));
            }
            assert(is_category_name(s));
        }
    } else {
        let head = s.take(i);
        let rest = s.skip(i + 1);
        lemma_names_are_made_of_segments(rest);
        let later = segments(rest);
        assert(parts =~= seq![head] + later);
        assert(parts[0] == head);
        assert forall|k: int| 0 <= k < later.len() implies parts[k + 1] == later[k] by {}
        let all_later = forall|k: int| 0 <= k < later.len() ==> is_segment(#[trigger] later[k]);
        let all_parts = forall|k: int| 0 <= k < parts.len() ==> is_segment(#[trigger] parts[k]);
        assert(all_parts <==> (is_segment(head) && all_later)) by {
            if all_parts {
                assert(is_segment(parts[0]));
                assert forall|k: int| 0 <= k < later.len() implies is_segment(
                    #[trigger] later[k],
                ) by {
                    assert(is_segment(parts[k + 1]));
                }
            }
            if is_segment(head) && all_later {
                assert forall|k: int| 0 <= k < parts.len() implies is_segment(
                    #[trigger] parts[k],
                ) by {
                    if k > 0 {
                        assert(parts[k] == later[k - 1]);
                    }
                }
            }
        }
        assert(is_category_name(s) <==> (is_segment(head) && is_category_name(rest))) by {
            if is_category_name(s) {
                assert(i > 0);
                assert forall|j: int| 0 <= j < head.len() implies is_segment_char(
                    #[trigger] head[j],
                ) by {
                    assert(head[j] == s[j]);
                    assert(s[j] != '/');
                }
                assert(i < s.len() - 1);
                assert(rest.len() > 0);
                assert(rest.first() == s[i + 1]);
                assert(!(s[i] == '/' && s[i + 1] == '/'));
                assert(rest.last() == s.last());
                if has_double_slash(rest) {
                    let j = choose|j: int|
                        0 <= j < rest.len() - 1 && #[trigger] rest[j] == '/' && rest[j + 1] == '/';
                    assert(s[i + 1 + j] == '/' && s[i + 1 + j + 1] == '/');
                }
                assert forall|j: int| 0 <= j < rest.len() implies #[trigger] rest[j] == '/'
                    || is_segment_char(rest[j]) by {
                    assert(rest[j] == s[i + 1 + j]);
                }
                assert(is_category_name(rest));
            }
            if is_segment(head) && is_category_name(rest) {
                assert(head.len() > 0);
                assert(s.first() == head[0]);
                assert(is_segment_char(head[0]));
                assert(s.last() == rest.last());
                if has_double_slash(s) {
                    let j = choose|j: int|
                        0 <= j < s.len() - 1 && #[trigger] s[j] == '/' && s[j + 1] == '/';
                    if j < i {
                        assert(s[j] == head[j]);
                        assert(is_segment_char(head[j]));
                    } else if j == i {
                        assert(s[j + 1] == rest.first());
                    } else {
                        assert(rest[j - i - 1] == '/' && rest[j - i - 1 + 1] == '/');
                    }
                }
                assert forall|j: int| 0 <= j < s.len() implies #[trigger] s[j] == '/'
                    || is_segment_char(s[j]) by {
                    if j < i {
                        assert(s[j] == head[j]);
                    } else if j > i {
                        assert(s[j] == rest[j - i - 1]);
                    }
                }
                assert(is_category_name(s));
            }
        }
    }
}

/// Whether `v` holds two slashes in a row.
fn find_double_slash(v: &Vec<char>) -> (r: bool)
    ensures
        r == has_double_slash(v@),
{
    let n = v.len();
    if n < 2 {
        return false;
    }
    let mut i: usize = 0;
    while i < n - 1
        invariant
            i <= n - 1,
            n == v@.len(),
            n >= 2,
            forall|j: int| 0 <= j < i ==> !(#[trigger] v@[j] == '/' && v@[j + 1] == '/'),
        decreases n - i,
    {
        if v[i] == '/' && v[i + 1] == '/' {
            return true;
        }
        i = i + 1;
    }
    false
}

/// The bounds of the first segment of `v` that holds a character which is not
/// a segment character, if there is one.
fn find_bad_segment(v: &Vec<char>) -> (r: Option<(usize, usize)>)
    ensures
        match r {
            Some((from, to)) => is_first_bad_segment(v@, from as int, to as int),
            None => forall|i: int| 0 <= i < v@.len() ==> #[trigger] v@[i] == '/' || is_segment_char(v@[i]),
        },
{
    let n = v.len();
    let mut start: usize = 0;
    let mut i: usize = 0;
    while i < n
        invariant
            start <= i <= n,
            n == v@.len(),
            start == 0 || v@[start - 1] == '/',
            forall|j: int| start <= j < i ==> #[trigger] v@[j] != '/',
            forall|j: int| 0 <= j < i ==> #[trigger] v@[j] == '/' || is_segment_char(v@[j]),
        decreases n - i,
    {
        let c = v[i];
        if c == '/' {
            start = i + 1;
        } else if !char_is_segment_char(c) {
            let mut end: usize = i + 1;
            while end < n && v[end] != '/'
                invariant
                    i < end <= n,
                    n == v@.len(),
                    forall|j: int| i < j < end ==> #[trigger] v@[j] != '/',
                decreases n - end,
            {
                end = end + 1;
            }
            assert(!is_segment_char(v@[i as int]));
            return Some((start, end));
        }
        i = i + 1;
    }
    None
}

} // verus!
