//! Markup-safe escaping, the synthesis-markup envelope, and the small text
//! predicates the playback controller needs (blank detection and
//! case-insensitive containment for the preferred-voice lookup).

use vstd::prelude::*;
use vstd::string::StrSliceExecFns;
use vstd::string::StringExecFns;

verus! {

/// The five markup metacharacters that must be escaped before the text is
/// handed to the synthesis engine.
pub open spec fn is_meta(c: char) -> bool {
    c == '&' || c == '<' || c == '>' || c == '"' || c == '\''
}

/// Entity form of a single character: metacharacters expand, all others stay.
pub open spec fn escape_char(c: char) -> Seq<char> {
    if c == '&' {
        "&amp;"@
    } else if c == '<' {
        "&lt;"@
    } else if c == '>' {
        "&gt;"@
    } else if c == '"' {
        "&quot;"@
    } else if c == '\'' {
        "&apos;"@
    } else {
        seq![c]
    }
}

/// Escaping of a whole text: each character replaced by its entity form.
pub open spec fn escape_text(s: Seq<char>) -> Seq<char>
    decreases s.len(),
{
    if s.len() == 0 {
        Seq::empty()
    } else {
        escape_text(s.drop_last()) + escape_char(s.last())
    }
}

/// Relies on std's String::push: appends exactly one character.
#[verifier::external_body]
fn push_char(s: &mut String, c: char)
    ensures
        final(s)@ == old(s)@.push(c),
{
    s.push(c);
}

/// Escape the five markup metacharacters to their entity forms.
pub fn escape_markup(s: &str) -> (r: String)
    ensures
        r@ == escape_text(s@),
{
    let n = s.unicode_len();
    let mut out = String::new();
    let mut i: usize = 0;
    while i < n
        invariant
            i <= n,
            n == s@.len(),
            out@ == escape_text(s@.take(i as int)),
        decreases n - i,
    {
        let c = s.get_char(i);
        if c == '&' {
            out.append("&amp;");
        } else if c == '<' {
            out.append("&lt;");
        } else if c == '>' {
            out.append("&gt;");
        } else if c == '"' {
            out.append("&quot;");
        } else if c == '\'' {
            out.append("&apos;");
        } else {
            push_char(&mut out, c);
        }
        proof {
            let pre = s@.take(i + 1);
            assert(pre.drop_last() =~= s@.take(i as int));
            assert(pre.last() == s@[i as int]);
            assert(out@ =~= escape_text(s@.take(i as int)) + escape_char(s@[i as int]));
        }
        i = i + 1;
    }
    proof {
        assert(s@.take(n as int) =~= s@);
    }
    out
}

/// A text with no metacharacter.
pub open spec fn meta_free(s: Seq<char>) -> bool {
    forall|i: int| 0 <= i < s.len() ==> !is_meta(s[i])
}

/// Escaping leaves a metacharacter-free text unchanged.
pub proof fn lemma_escape_meta_free_identity(s: Seq<char>)
    requires
        meta_free(s),
    ensures
        escape_text(s) == s,
    decreases s.len(),
{
    if s.len() == 0 {
        assert(escape_text(s) =~= s);
    } else {
        assert forall|i: int| 0 <= i < s.drop_last().len() implies !is_meta(s.drop_last()[i]) by {
            assert(s.drop_last()[i] == s[i]);
        }
        lemma_escape_meta_free_identity(s.drop_last());
        assert(!is_meta(s[s.len() - 1]));
        assert(escape_char(s.last()) =~= seq![s.last()]);
        assert(s.drop_last() + seq![s.last()] =~= s);
    }
}

/// Escaping is applied exactly once: on a text that holds no metacharacter,
/// running the escaping pass a second time changes nothing. (On a text with a
/// metacharacter a second pass would escape the `&` of the entity it produced,
/// which is why the normalizer escapes only once, after all rewriting.)
pub proof fn lemma_escape_applied_once(s: Seq<char>)
    requires
        meta_free(s),
    ensures
        escape_text(escape_text(s)) == escape_text(s),
{
    lemma_escape_meta_free_identity(s);
}

/// The fixed envelope: the markup wrapper the engine expects, with a trailing
/// two-second silence so audio sinks do not clip the last syllables.
pub open spec fn envelope(body: Seq<char>) -> Seq<char> {
    "<speak version='1.0'>"@ + body + "<silence msec='2000'/></speak>"@
}

/// Wrap escaped text in the synthesis-markup envelope.
pub fn wrap_markup(body: &str) -> (r: String)
    ensures
        r@ == envelope(body@),
{
    let mut out = String::from_str("<speak version='1.0'>");
    out.append(body);
    out.append("<silence msec='2000'/></speak>");
    out
}

/// The Unicode white-space characters, as str::trim treats them.
pub open spec fn is_space_char(c: char) -> bool {
    let u = c as u32;
    u == 0x20 || (0x9 <= u && u <= 0xD) || u == 0x85 || u == 0xA0 || u == 0x1680 || (0x2000 <= u
        && u <= 0x200A) || u == 0x2028 || u == 0x2029 || u == 0x202F || u == 0x205F || u == 0x3000
}

/// A text that is empty or holds only white space.
pub open spec fn is_blank(s: Seq<char>) -> bool {
    forall|i: int| 0 <= i < s.len() ==> is_space_char(s[i])
}

/// True exactly when the text is empty or all white space.
pub fn blank(s: &str) -> (r: bool)
    ensures
        r == is_blank(s@),
{
    let n = s.unicode_len();
    let mut i: usize = 0;
    while i < n
        invariant
            i <= n,
            n == s@.len(),
            forall|j: int| 0 <= j < i ==> is_space_char(s@[j]),
        decreases n - i,
    {
        let c = s.get_char(i);
        let u = c as u32;
        let space = u == 0x20 || (0x9 <= u && u <= 0xD) || u == 0x85 || u == 0xA0 || u == 0x1680
            || (0x2000 <= u && u <= 0x200A) || u == 0x2028 || u == 0x2029 || u == 0x202F || u
            == 0x205F || u == 0x3000;
        if !space {
            return false;
        }
        i = i + 1;
    }
    true
}

/// ASCII case folding of one character, over code points.
pub open spec fn fold_ci(c: char) -> u32 {
    let u = c as u32;
    if 0x41 <= u && u <= 0x5A {
        (u + 0x20) as u32
    } else {
        u
    }
}

/// The needle occurs at offset `j` of the haystack, up to ASCII case.
pub open spec fn ci_match_at(hay: Seq<char>, needle: Seq<char>, j: int) -> bool {
    forall|k: int| 0 <= k < needle.len() ==> fold_ci(hay[j + k]) == fold_ci(needle[k])
}

/// The needle occurs somewhere in the haystack, up to ASCII case.
pub open spec fn contains_ci(hay: Seq<char>, needle: Seq<char>) -> bool {
    exists|j: int| 0 <= j && j + needle.len() <= hay.len() && ci_match_at(hay, needle, j)
}

fn fold_char(c: char) -> (r: u32)
    ensures
        r == fold_ci(c),
{
    let u = c as u32;
    if 0x41 <= u && u <= 0x5A {
        u + 0x20
    } else {
        u
    }
}

/// Case-insensitive (ASCII folding) substring test.
pub fn contains_fold(hay: &str, needle: &str) -> (r: bool)
    ensures
        r == contains_ci(hay@, needle@),
{
    let hn = hay.unicode_len();
    let nn = needle.unicode_len();
    if nn > hn {
        assert(!contains_ci(hay@, needle@));
        return false;
    }
    let mut j: usize = 0;
    while j <= hn - nn
        invariant
            hn == hay@.len(),
            nn == needle@.len(),
            nn <= hn,
            j <= hn - nn + 1,
            forall|j2: int| 0 <= j2 < j ==> !ci_match_at(hay@, needle@, j2),
        decreases hn - nn - j + 1,
    {
        let mut k: usize = 0;
        let mut all: bool = true;
        while k < nn
            invariant
                hn == hay@.len(),
                nn == needle@.len(),
                nn <= hn,
                j <= hn - nn,
                k <= nn,
                all ==> forall|k2: int| 0 <= k2 < k ==> fold_ci(hay@[j + k2]) == fold_ci(
                    needle@[k2]),
                !all ==> !ci_match_at(hay@, needle@, j as int),
            decreases nn - k,
        {
            if all {
                let hc = fold_char(hay.get_char(j + k));
                let nc = fold_char(needle.get_char(k));
                if hc != nc {
                    assert(!ci_match_at(hay@, needle@, j as int));
                    all = false;
                }
            }
            k = k + 1;
        }
        if all {
            assert(ci_match_at(hay@, needle@, j as int));
            return true;
        }
        j = j + 1;
    }
    false
}

} // verus!
