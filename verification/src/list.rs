//! Reading a library's ebooks from the files under its root.

use vstd::prelude::*;

use crate::Ebook;
use crate::EbookView;
use crate::format::epub;
use crate::format::epub::EpubError;

verus! {

/// The ebooks a list of epub files yields, in file order: each file parsed,
/// the first failure aborting the whole read. Every entry pairs the path a
/// file was read from with its bytes.
pub open spec fn ebooks_of(files: Seq<(Seq<char>, Seq<u8>)>) -> Result<Seq<EbookView>, EpubError>
    decreases files.len(),
{
    if files.len() == 0 {
        Ok(Seq::empty())
    } else {
        match ebooks_of(files.drop_last()) {
            Ok(s) => match epub::parsed_ebook(files.last().1, files.last().0) {
                Ok(e) => Ok(s.push(e)),
                Err(err) => Err(err),
            },
            Err(err) => Err(err),
        }
    }
}

/// Returns the ebooks read from the given epub files, each entry the path a
/// file was read from and its bytes. The first file that yields no ebook
/// fails the whole read, as [`ebooks_of`] states.
#[verifier::loop_isolation(false)]
pub fn get_ebooks(files: &Vec<(String, Vec<u8>)>) -> (r: Result<Vec<Ebook>, EpubError>)
    ensures
        match r {
            Ok(ebooks) => ebooks_of(files.deep_view()) == Ok::<Seq<EbookView>, EpubError>(
                ebooks.deep_view(),
            ),
            Err(e) => ebooks_of(files.deep_view()) == Err::<Seq<EbookView>, EpubError>(e),
        },
{
    let mut ebooks: Vec<Ebook> = Vec::new();
    proof {
        assert(ebooks.deep_view() =~= Seq::<EbookView>::empty());
        assert(files.deep_view().take(0) =~= Seq::<(Seq<char>, Seq<u8>)>::empty());
    }
    let n = files.len();
    for i in 0..n
        invariant
            ebooks_of(files.deep_view().take(i as int)) == Ok::<Seq<EbookView>, EpubError>(
                ebooks.deep_view(),
            ),
    {
        let ghost prev = ebooks.deep_view();
        proof {
            assert(files.deep_view()[i as int].0 =~= files@[i as int].0@);
            assert(files.deep_view()[i as int].1 =~= files@[i as int].1@);
        }
        match epub::parse(&files[i].1, files[i].0.as_str()) {
            Ok(ebook) => {
                let ghost ev = ebook@;
                ebooks.push(ebook);
                proof {
                    assert(ebooks.deep_view() =~= prev.push(ev));
                }
            },
            Err(e) => {
                proof {
                    assert(files.deep_view().take(i + 1).drop_last() =~= files.deep_view().take(
                        i as int,
                    ));
                    lemma_error_stays(files.deep_view(), i + 1, e);
                }
                return Err(e);
            },
        }
        proof {
            assert(files.deep_view().take(i + 1).drop_last() =~= files.deep_view().take(i as int));
        }
    }
    proof {
        assert(files.deep_view().take(n as int) =~= files.deep_view());
    }
    Ok(ebooks)
}

/// Once a prefix of the file list fails to read, the whole list fails with
/// that first error: later files change nothing.
proof fn lemma_error_stays(files: Seq<(Seq<char>, Seq<u8>)>, k: int, e: EpubError)
    requires
        0 <= k <= files.len(),
        ebooks_of(files.take(k)) == Err::<Seq<EbookView>, EpubError>(e),
    ensures
        ebooks_of(files) == Err::<Seq<EbookView>, EpubError>(e),
    decreases files.len() - k,
{
    if k == files.len() {
        assert(files.take(k) =~= files);
    } else {
        assert(files.take(k + 1).drop_last() =~= files.take(k));
        lemma_error_stays(files, k + 1, e);
    }
}

} // verus!
