//! Paths held as strings, with the operations of `std::path` on them.
use vstd::prelude::*;

verus! {

/// A path is absolute when it starts at the root `/` (Unix).
pub open spec fn is_absolute_path(p: Seq<char>) -> bool {
    p.len() > 0 && p[0] == '/'
}

/// `Path::join` on Unix: an absolute `rel` replaces `base`; otherwise `rel`
/// is appended to `base`, with a `/` between them unless `base` is empty or
/// already ends in `/`.
pub open spec fn spec_path_join(base: Seq<char>, rel: Seq<char>) -> Seq<char> {
    if is_absolute_path(rel) {
        rel
    } else if base.len() == 0 || base.last() == '/' {
        base + rel
    } else {
        base + seq!['/'] + rel
    }
}

/// What `Path::parent` returns for a path.
pub uninterp spec fn spec_path_parent(p: Seq<char>) -> Option<Seq<char>>;

/// What `Path::file_name` returns for a path.
pub uninterp spec fn spec_path_file_name(p: Seq<char>) -> Option<Seq<char>>;

/// What `Path::file_stem` returns for a path.
pub uninterp spec fn spec_path_file_stem(p: Seq<char>) -> Option<Seq<char>>;

/// What `==` on two `Path`s (a comparison of their components) returns.
pub uninterp spec fn spec_path_eq(a: Seq<char>, b: Seq<char>) -> bool;

/// What the `Debug` form of a path (`{:?}`) gives: the path between double
/// quotes, with quotes, backslashes and unprintable characters escaped.
pub uninterp spec fn spec_path_debug(p: Seq<char>) -> Seq<char>;

/// `p` made absolute against the directory `cwd`: kept when absolute, else joined onto `cwd`.
pub open spec fn absolute_from(cwd: Seq<char>, p: Seq<char>) -> Seq<char> {
    if is_absolute_path(p) {
        p
    } else {
        spec_path_join(cwd, p)
    }
}

/// The file name of `p`, or the empty string where it has none.
pub open spec fn file_name_or_empty(p: Seq<char>) -> Seq<char> {
    match spec_path_file_name(p) {
        Some(n) => n,
        None => Seq::empty(),
    }
}

/// `Path::is_absolute`. Its documentation says that on Unix a path is absolute
/// exactly when it starts with the root; that is what this claims.
#[verifier::external_body]
pub(crate) fn path_is_absolute(p: &str) -> (r: bool)
    ensures
        r == is_absolute_path(p@),
{
    std::path::Path::new(p).is_absolute()
}

/// `Path::join`. Claims what its documentation (with `PathBuf::push`) says
/// on Unix, as `spec_path_join` writes it out: an absolute path replaces the
/// base, a relative one is appended with a separator where one is needed.
#[verifier::external_body]
pub(crate) fn path_join(base: &str, rel: &str) -> (r: String)
    ensures
        r@ == spec_path_join(base@, rel@),
{
    std::path::Path::new(base).join(rel).to_string_lossy().into_owned()
}

/// `Path::parent`. Claims the result is the named `spec_path_parent`, and, as
/// documented, that the empty path and the root have no parent.
#[verifier::external_body]
pub(crate) fn path_parent(p: &str) -> (r: Option<String>)
    ensures
        r.deep_view() == spec_path_parent(p@),
        p@.len() == 0 ==> r is None,
        p@ == seq!['/'] ==> r is None,
{
    match std::path::Path::new(p).parent() {
        Some(q) => Some(q.to_string_lossy().into_owned()),
        None => None,
    }
}

/// `Path::file_name`. Claims only that the result is the named `spec_path_file_name`.
#[verifier::external_body]
pub(crate) fn path_file_name(p: &str) -> (r: Option<String>)
    ensures
        r.deep_view() == spec_path_file_name(p@),
{
    match std::path::Path::new(p).file_name() {
        Some(n) => Some(n.to_string_lossy().into_owned()),
        None => None,
    }
}

/// `Path::file_stem`. Claims only that the result is the named `spec_path_file_stem`.
#[verifier::external_body]
pub(crate) fn path_file_stem(p: &str) -> (r: Option<String>)
    ensures
        r.deep_view() == spec_path_file_stem(p@),
{
    match std::path::Path::new(p).file_stem() {
        Some(n) => Some(n.to_string_lossy().into_owned()),
        None => None,
    }
}

/// `==` on `Path`. Claims the result is the named `spec_path_eq`, and that a
/// path is equal to itself.
#[verifier::external_body]
pub(crate) fn path_eq(a: &str, b: &str) -> (r: bool)
    ensures
        r == spec_path_eq(a@, b@),
        a@ == b@ ==> r,
{
    std::path::Path::new(a) == std::path::Path::new(b)
}

/// `format!("{:?}", Path::new(p))`. Claims only that the result is the named
/// `spec_path_debug`; the escaping rules are left unsaid.
#[verifier::external_body]
pub(crate) fn path_debug(p: &str) -> (r: String)
    ensures
        r@ == spec_path_debug(p@),
{
    format!("{:?}", std::path::Path::new(p))
}

/// `p` made absolute against `cwd`, as the tools resolve their path options.
pub fn absolute_from_dir(cwd: &str, p: &str) -> (r: String)
    ensures
        r@ == absolute_from(cwd@, p@),
{
    if path_is_absolute(p) {
        String::from_str(p)
    } else {
        path_join(cwd, p)
    }
}

/// The file name of `p`, or the empty string (`file_name().unwrap_or_default()`).
pub fn file_name_or_empty_str(p: &str) -> (r: String)
    ensures
        r@ == file_name_or_empty(p@),
{
    match path_file_name(p) {
        Some(n) => n,
        None => String::new(),
    }
}

/// Every path of `v` made absolute against `cwd`, in order.
pub fn absolute_all(cwd: &str, v: &Vec<String>) -> (r: Vec<String>)
    ensures
        r.deep_view() == v.deep_view().map_values(|p: Seq<char>| absolute_from(cwd@, p)),
{
    let mut r: Vec<String> = Vec::new();
    let mut i: usize = 0;
    while i < v.len()
        invariant
            i <= v.len(),
            r.deep_view() == v.deep_view().take(i as int).map_values(
                |p: Seq<char>| absolute_from(cwd@, p),
            ),
        decreases v.len() - i,
    {
        let a = absolute_from_dir(cwd, v[i].as_str());
        let ghost old_r = r.deep_view();
        r.push(a);
        proof {
            assert(r.deep_view() =~= old_r.push(a@));
            assert(v.deep_view().take(i + 1) =~= v.deep_view().take(i as int).push(v[i as int]@));
            assert(r.deep_view() =~= v.deep_view().take(i + 1).map_values(
                |p: Seq<char>| absolute_from(cwd@, p),
            ));
        }
        i = i + 1;
    }
    assert(v.deep_view().take(v.len() as int) =~= v.deep_view());
    r
}

} // verus!
