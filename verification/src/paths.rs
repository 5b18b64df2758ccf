use vstd::prelude::*;

verus! {

/// Relies on `std::path::Path::is_file`: whether `path` names an
/// existing regular file at the moment of the call. The answer depends
/// on the state of the file system, so nothing is promised of it.
#[verifier::external_body]
pub(crate) fn path_is_file(path: &str) -> bool {
    std::path::Path::new(path).is_file()
}

/// The file name under a path: the characters after the last `/`, the
/// whole path when it holds none.
pub open spec fn file_name_of(path: Seq<char>) -> Seq<char>
    decreases path.len(),
{
    if path.len() == 0 {
        Seq::empty()
    } else if path.last() == '/' {
        Seq::empty()
    } else {
        file_name_of(path.drop_last()).push(path.last())
    }
}

/// A suffix of `s` that starts right after a `/` (or at the front) and
/// holds no `/` is the file name of `s`.
proof fn lemma_file_name_of_suffix(s: Seq<char>, k: int)
    requires
        0 <= k <= s.len(),
        forall|j: int| k <= j < s.len() ==> s[j] != '/',
        k > 0 ==> s[k - 1] == '/',
    ensures
        file_name_of(s) == s.subrange(k, s.len() as int),
    decreases s.len(),
{
    if k == s.len() {
        if s.len() == 0 {
        } else {
            assert(s.last() == '/');
        }
        assert(s.subrange(k, s.len() as int) =~= Seq::<char>::empty());
    } else {
        let head = s.drop_last();
        assert(s.last() != '/');
        lemma_file_name_of_suffix(head, k);
        assert(file_name_of(s) == file_name_of(head).push(s.last()));
        assert(head.subrange(k, head.len() as int).push(s.last()) =~= s.subrange(
            k,
            s.len() as int,
        ));
    }
}

/// The executable counterpart of [`file_name_of`].
pub fn file_name_component(path: &str) -> (r: String)
    ensures
        r@ == file_name_of(path@),
{
    let n = path.unicode_len();
    let mut start = n;
    while start > 0 && path.get_char(start - 1) != '/'
        invariant
            start <= n,
            n == path@.len(),
            forall|j: int| start <= j < n ==> path@[j] != '/',
        decreases start,
    {
        start -= 1;
    }
    proof {
        lemma_file_name_of_suffix(path@, start as int);
    }
    path.substring_char(start, n).to_owned()
}

} // verus!
