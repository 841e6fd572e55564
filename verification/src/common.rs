//! Helpers shared across the library: path sanitisation, epub discovery in a
//! file listing, and character-level string utilities.

use vstd::prelude::*;

verus! {

/// `s` with every character that is unsafe in a file name (`:`) replaced by `_`.
pub open spec fn sanitized(s: Seq<char>) -> Seq<char> {
    s.map_values(|c: char| if c == ':' { '_' } else { c })
}

/// Relies on `String::push`: appends one character to the string.
#[verifier::external_body]
pub(crate) fn push_char(s: &mut String, c: char)
    ensures
        final(s)@ == old(s)@ + seq![c],
{
    s.push(c);
}

/// Relies on `String::from_utf8`: returns the decoded string exactly when
/// the bytes are valid UTF-8.
#[verifier::external_body]
pub(crate) fn bytes_to_string(bytes: Vec<u8>) -> (r: Option<String>)
    ensures
        r is Some <==> vstd::utf8::valid_utf8(bytes@),
        r matches Some(s) ==> s@ == vstd::utf8::decode_utf8(bytes@),
{
    String::from_utf8(bytes).ok()
}

/// Returns a modified path containing only file-system safe characters.
pub fn sanitize(path: &str) -> (r: String)
    ensures
        r@ == sanitized(path@),
{
    let n = path.unicode_len();
    let mut out = String::new();
    assert(out@ =~= sanitized(path@.take(0)));
    for i in 0..n
        invariant
            n == path@.len(),
            out@ == sanitized(path@.take(i as int)),
    {
        let c = path.get_char(i);
        push_char(&mut out, if c == ':' { '_' } else { c });
        assert(out@ =~= sanitized(path@.take(i + 1)));
    }
    assert(path@.take(n as int) =~= path@);
    out
}

/// Character-by-character string comparison.
pub fn str_eq(a: &str, b: &str) -> (r: bool)
    ensures
        r == (a@ == b@),
{
    let n = a.unicode_len();
    if n != b.unicode_len() {
        proof {
            assert(a@ != b@) by {
                if a@ == b@ {
                    assert(a@.len() == b@.len());
                }
            }
        }
        return false;
    }
    for i in 0..n
        invariant
            n == a@.len() && n == b@.len(),
            forall|j: int| 0 <= j < i ==> a@[j] == b@[j],
    {
        if a.get_char(i) != b.get_char(i) {
            return false;
        }
    }
    proof {
        assert(a@ =~= b@);
    }
    true
}

/// Whether the path names an epub file: it ends in `.epub` and that suffix
/// belongs to a non-empty file name rather than standing alone after a
/// directory separator.
pub open spec fn is_epub_path(p: Seq<char>) -> bool {
    &&& p.len() >= 6
    &&& p.skip(p.len() - 5) == ".epub"@
    &&& p[p.len() - 6] != '/'
}

/// Returns whether `path` names an epub file.
pub fn has_epub_extension(path: &str) -> (r: bool)
    ensures
        r == is_epub_path(path@),
{
    proof {
        reveal_strlit(".epub");
    }
    let n = path.unicode_len();
    if n < 6 {
        return false;
    }
    let r = path.get_char(n - 5) == '.' && path.get_char(n - 4) == 'e' && path.get_char(n - 3)
        == 'p' && path.get_char(n - 2) == 'u' && path.get_char(n - 1) == 'b' && path.get_char(
        n - 6,
    ) != '/';
    proof {
        if r {
            assert(path@.skip(n - 5) =~= ".epub"@);
        } else {
            if path@.skip(n - 5) == ".epub"@ {
                assert(path@[n - 5] == '.' && path@[n - 4] == 'e' && path@[n - 3] == 'p'
                    && path@[n - 2] == 'u' && path@[n - 1] == 'b') by {
                    assert(path@.skip(n - 5)[0] == path@[n - 5]);
                    assert(path@.skip(n - 5)[1] == path@[n - 4]);
                    assert(path@.skip(n - 5)[2] == path@[n - 3]);
                    assert(path@.skip(n - 5)[3] == path@[n - 2]);
                    assert(path@.skip(n - 5)[4] == path@[n - 1]);
                }
            }
        }
    }
    r
}

/// Returns the paths in `paths` that name epub files, in their original order.
#[verifier::loop_isolation(false)]
pub fn find_books(paths: &Vec<String>) -> (r: Vec<String>)
    ensures
        r@ == paths@.filter(|p: String| is_epub_path(p@)),
{
    let ghost pred = (|p: String| is_epub_path(p@));
    let mut out: Vec<String> = Vec::new();
    proof {
        reveal(Seq::filter);
        assert(out@ =~= paths@.take(0).filter(pred));
    }
    let n = paths.len();
    for i in 0..n
        invariant
            n == paths.len(),
            out@ == paths@.take(i as int).filter(pred),
    {
        let ghost prev = out@;
        if has_epub_extension(paths[i].as_str()) {
            out.push(paths[i].clone());
        }
        proof {
            reveal(Seq::filter);
            assert(paths@.take(i + 1).drop_last() =~= paths@.take(i as int));
            if pred(paths@[i as int]) {
                assert(out@ =~= paths@.take(i + 1).filter(pred));
            } else {
                assert(out@ =~= paths@.take(i + 1).filter(pred));
            }
        }
    }
    proof {
        assert(paths@.take(n as int) =~= paths@);
    }
    out
}

} // verus!
