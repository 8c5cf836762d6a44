//! Path resolution for link specifications.
//!
//! A raw path string is either absolute, home-relative (it starts with the
//! `~/` prefix), or relative.  Resolution turns it into an absolute path:
//! an absolute path is kept as it is; a home-relative path is expanded
//! against the home directory; a relative path is joined onto a parent
//! directory, and the joined path gets one more round of the same rules,
//! because the parent itself may be home-relative.

use vstd::prelude::*;

verus! {

/// A path is absolute when it starts with the separator.
pub open spec fn spec_is_absolute(p: Seq<char>) -> bool {
    p.len() > 0 && p[0] == '/'
}

/// A path asks for home-directory expansion when it starts with the
/// home-prefix token `~/`.
pub open spec fn spec_has_home_prefix(p: Seq<char>) -> bool {
    p.len() >= 2 && p[0] == '~' && p[1] == '/'
}

/// The home-relative part of a `~/`-prefixed path: everything after the
/// two prefix characters.
pub open spec fn spec_strip_home_prefix(p: Seq<char>) -> Seq<char>
    recommends
        spec_has_home_prefix(p),
{
    p.subrange(2, p.len() as int)
}

/// Joining `child` onto `parent`: a separator is inserted unless `parent`
/// already ends with one; an empty parent leaves the child as it is.
pub open spec fn spec_join(parent: Seq<char>, child: Seq<char>) -> Seq<char> {
    if parent.len() == 0 {
        child
    } else if parent[parent.len() - 1] == '/' {
        parent + child
    } else {
        parent + seq!['/'] + child
    }
}

/// Whether a path string is absolute.
pub fn is_absolute_path(p: &str) -> (r: bool)
    ensures
        r == spec_is_absolute(p@),
{
    let n = p.unicode_len();
    n > 0 && p.get_char(0) == '/'
}

/// Whether a path string starts with the home-prefix token `~/`.
pub fn has_home_prefix(p: &str) -> (r: bool)
    ensures
        r == spec_has_home_prefix(p@),
{
    let n = p.unicode_len();
    n >= 2 && p.get_char(0) == '~' && p.get_char(1) == '/'
}

/// The part of a `~/`-prefixed path after the prefix.
fn strip_home_prefix(p: &str) -> (r: &str)
    requires
        spec_has_home_prefix(p@),
    ensures
        r@ == spec_strip_home_prefix(p@),
{
    let n = p.unicode_len();
    p.substring_char(2, n)
}

/// Joins `child` onto `parent` with exactly one separator between them.
pub fn join_paths(parent: &str, child: &str) -> (r: String)
    ensures
        r@ == spec_join(parent@, child@),
{
    let n = parent.unicode_len();
    if n == 0 {
        child.to_owned()
    } else if parent.get_char(n - 1) == '/' {
        String::from_str(parent).concat(child)
    } else {
        let mut built = String::from_str(parent);
        built.append("/");
        let built = built.concat(child);
        proof {
            reveal_strlit("/");
            assert(built@ =~= spec_join(parent@, child@));
        }
        built
    }
}

/// Whether two strings hold the same characters.
pub fn str_eq(a: &str, b: &str) -> (r: bool)
    ensures
        r == (a@ == b@),
{
    let a_owned = a.to_owned();
    let b_owned = b.to_owned();
    a_owned == b_owned
}

/// How a link between a source and a target path is materialized.
#[derive(Debug, PartialEq, Eq, Structural)]
pub enum LinkMode {
    Link,
    Copy,
}

/// A source/target path pair, both raw as authored, with the link mode that
/// relates them.
#[derive(Debug)]
pub struct LinkSpec {
    source: String,
    target: String,
    link_mode: LinkMode,
}

/// Why a raw path could not be brought to an absolute one.
#[derive(Debug, Clone, PartialEq, Eq, Structural)]
pub enum LinkResolutionError {
    /// A `~/` prefix had to be expanded but no home directory is available.
    NoHomeDirectoryFound,
    /// Home expansion was asked of a path that carries no `~/` prefix.
    NoHomeDirectoryToResolve,
    /// A relative path has no parent directory to be joined onto.
    ResolverNotApplicable,
}

impl LinkResolutionError {
    /// What the error means, as one line of text.
    pub open spec fn spec_message(&self) -> Seq<char> {
        match self {
            LinkResolutionError::NoHomeDirectoryFound => "The `~` symbol could not be resolved to a path"@,
            LinkResolutionError::NoHomeDirectoryToResolve => "Expected to resolve `~` prefix but was not found"@,
            LinkResolutionError::ResolverNotApplicable => "The chosen resolver cannot be applied"@,
        }
    }

    pub fn message(&self) -> (r: String)
        ensures
            r@ == self.spec_message(),
    {
        match self {
            LinkResolutionError::NoHomeDirectoryFound => "The `~` symbol could not be resolved to a path".to_owned(),
            LinkResolutionError::NoHomeDirectoryToResolve => "Expected to resolve `~` prefix but was not found".to_owned(),
            LinkResolutionError::ResolverNotApplicable => "The chosen resolver cannot be applied".to_owned(),
        }
    }
}

/// What still stands between a path and absoluteness.
#[derive(Debug, Clone)]
enum LinkResolutionIssue {
    HasTilde,
    IsRelative,
}

/// The step a path still needs: home expansion for a `~/` prefix, joining
/// onto a parent for a relative path, nothing for an absolute one.  The
/// `~/` check comes first: a home-relative path is also relative, and
/// joining it onto a parent would bury the prefix.
fn find_resolution_issue(p: &str) -> (r: Option<LinkResolutionIssue>)
    ensures
        spec_has_home_prefix(p@) ==> (r matches Some(i) && i is HasTilde),
        !spec_has_home_prefix(p@) && !spec_is_absolute(p@) ==> (r matches Some(i)
            && i is IsRelative),
        spec_is_absolute(p@) ==> r is None,
{
    if has_home_prefix(p) {
        return Some(LinkResolutionIssue::HasTilde);
    }
    if !is_absolute_path(p) {
        return Some(LinkResolutionIssue::IsRelative);
    }
    None
}

/// Resolves a relative path by joining it onto a parent directory, when one
/// is there.
pub struct ResolveWithParentDirectory<'a> {
    parent: Option<&'a str>,
}

impl<'a> ResolveWithParentDirectory<'a> {
    /// The parent directory this resolver joins onto, if any.
    pub closed spec fn spec_parent(&self) -> Option<Seq<char>> {
        match self.parent {
            Some(p) => Some(p@),
            None => None,
        }
    }

    pub fn new(root: Option<&'a str>) -> (r: Self)
        ensures
            r.spec_parent() == (match root {
                Some(p) => Some(p@),
                None => None::<Seq<char>>,
            }),
    {
        ResolveWithParentDirectory { parent: root }
    }

    /// Joins the path onto the parent; without a parent this step cannot
    /// apply.
    pub fn resolve(&self, to_resolve: &str) -> (r: Result<String, LinkResolutionError>)
        ensures
            (match self.spec_parent() {
                Some(p) => r matches Ok(s) && s@ == spec_join(p, to_resolve@),
                None => r == Err::<String, LinkResolutionError>(
                    LinkResolutionError::ResolverNotApplicable,
                ),
            }),
    {
        match self.parent {
            Some(p) => Ok(join_paths(p, to_resolve)),
            None => Err(LinkResolutionError::ResolverNotApplicable),
        }
    }
}

/// Resolves a `~/`-prefixed path by expanding the prefix to the home
/// directory.
pub struct ResolveWithHomeDirectory {
    home_dir: Option<String>,
}

/// Relies on `dirs::home_dir`: the home directory the platform reports for
/// the current user, if there is one.  The value depends on the process
/// environment, so nothing is promised of it.
#[verifier::external_body]
fn host_home_dir() -> Option<String> {
    dirs::home_dir().and_then(|p| p.into_os_string().into_string().ok())
}

impl ResolveWithHomeDirectory {
    /// The home directory this resolver expands `~/` to, if one is known.
    pub closed spec fn spec_home(&self) -> Option<Seq<char>> {
        match self.home_dir {
            Some(ref h) => Some(h@),
            None => None,
        }
    }

    /// The home directory, if known, is itself an absolute path, so that
    /// expansion never has to run twice.
    pub open spec fn wf(&self) -> bool {
        self.spec_home() matches Some(h) ==> spec_is_absolute(h)
    }

    /// Reads the host's home directory.  A reported home directory that is
    /// not absolute cannot anchor resolution and counts as absent.
    pub fn new() -> (r: Self)
        ensures
            r.wf(),
    {
        match host_home_dir() {
            Some(h) => {
                if is_absolute_path(h.as_str()) {
                    ResolveWithHomeDirectory { home_dir: Some(h) }
                } else {
                    ResolveWithHomeDirectory { home_dir: None }
                }
            },
            None => ResolveWithHomeDirectory { home_dir: None },
        }
    }

    /// A resolver for a known home directory.
    pub fn new_with(home_dir: Option<String>) -> (r: Self)
        ensures
            r.spec_home() == (match home_dir {
                Some(h) => Some(h@),
                None => None::<Seq<char>>,
            }),
    {
        ResolveWithHomeDirectory { home_dir }
    }

    /// Expands the `~/` prefix of the path to the home directory.  Without a
    /// home directory the step fails; on a path with no such prefix there is
    /// nothing for it to do.
    pub fn resolve(&self, to_resolve: &str) -> (r: Result<String, LinkResolutionError>)
        ensures
            (match self.spec_home() {
                None => r == Err::<String, LinkResolutionError>(
                    LinkResolutionError::NoHomeDirectoryFound,
                ),
                Some(h) => if spec_has_home_prefix(to_resolve@) {
                    r matches Ok(s) && s@ == spec_join(h, spec_strip_home_prefix(to_resolve@))
                } else {
                    r == Err::<String, LinkResolutionError>(
                        LinkResolutionError::NoHomeDirectoryToResolve,
                    )
                },
            }),
    {
        match self.home_dir {
            None => Err(LinkResolutionError::NoHomeDirectoryFound),
            Some(ref h) => {
                if has_home_prefix(to_resolve) {
                    let suffix = strip_home_prefix(to_resolve);
                    Ok(join_paths(h.as_str(), suffix))
                } else {
                    Err(LinkResolutionError::NoHomeDirectoryToResolve)
                }
            },
        }
    }
}

/// What home expansion owes for a `~/`-prefixed path: the home-relative part
/// joined onto the home directory, or an error when no home directory is
/// there.
pub open spec fn spec_expand_home(p: Seq<char>, home: Option<Seq<char>>) -> Result<
    Seq<char>,
    LinkResolutionError,
> {
    match home {
        None => Err(LinkResolutionError::NoHomeDirectoryFound),
        Some(h) => Ok(spec_join(h, spec_strip_home_prefix(p))),
    }
}

/// What resolution owes for a raw path, an optional parent directory and an
/// optional home directory.  An absolute path is returned unchanged; a
/// `~/`-prefixed path is expanded against the home directory; a relative
/// path is joined onto the parent, and the joined path gets one more round,
/// since the parent itself may carry a `~/` prefix.  A relative path with no
/// parent, and a joined path that is still relative, are refused.
pub open spec fn spec_resolve(
    raw: Seq<char>,
    parent: Option<Seq<char>>,
    home: Option<Seq<char>>,
) -> Result<Seq<char>, LinkResolutionError> {
    if spec_is_absolute(raw) {
        Ok(raw)
    } else if spec_has_home_prefix(raw) {
        spec_expand_home(raw, home)
    } else {
        match parent {
            None => Err(LinkResolutionError::ResolverNotApplicable),
            Some(p) => {
                let joined = spec_join(p, raw);
                if spec_is_absolute(joined) {
                    Ok(joined)
                } else if spec_has_home_prefix(joined) {
                    spec_expand_home(joined, home)
                } else {
                    Err(LinkResolutionError::ResolverNotApplicable)
                }
            },
        }
    }
}

/// Whether resolution of this raw path against this parent consults the home
/// directory at all.
pub open spec fn spec_needs_home(raw: Seq<char>, parent: Option<Seq<char>>) -> bool {
    if spec_is_absolute(raw) {
        false
    } else if spec_has_home_prefix(raw) {
        true
    } else {
        match parent {
            None => false,
            Some(p) => !spec_is_absolute(spec_join(p, raw)) && spec_has_home_prefix(
                spec_join(p, raw),
            ),
        }
    }
}

/// The resolved path as a mathematical value, with the error kept as it is.
pub open spec fn resolve_result_view(r: Result<String, LinkResolutionError>) -> Result<
    Seq<char>,
    LinkResolutionError,
> {
    match r {
        Ok(s) => Ok(s@),
        Err(e) => Err(e),
    }
}

/// An optional path as a mathematical value.
pub open spec fn opt_path_view(p: Option<&str>) -> Option<Seq<char>> {
    match p {
        Some(s) => Some(s@),
        None => None,
    }
}

/// Resolves a raw path against an optional parent directory and a given
/// home-directory resolver, exactly as `spec_resolve` says.
pub fn resolve_path_with(
    raw: &str,
    parent: Option<&str>,
    home: &ResolveWithHomeDirectory,
) -> (r: Result<String, LinkResolutionError>)
    ensures
        resolve_result_view(r) == spec_resolve(raw@, opt_path_view(parent), home.spec_home()),
        home.wf() ==> (r matches Ok(s) ==> spec_is_absolute(s@)),
{
    proof {
        if home.wf() {
            lemma_resolved_is_absolute(raw@, opt_path_view(parent), home.spec_home());
        }
    }
    match find_resolution_issue(raw) {
        None => Ok(raw.to_owned()),
        Some(LinkResolutionIssue::HasTilde) => home.resolve(raw),
        Some(LinkResolutionIssue::IsRelative) => {
            let with_parent = ResolveWithParentDirectory::new(parent);
            match with_parent.resolve(raw) {
                Err(e) => Err(e),
                Ok(joined) => {
                    match find_resolution_issue(joined.as_str()) {
                        None => Ok(joined),
                        Some(LinkResolutionIssue::HasTilde) => home.resolve(joined.as_str()),
                        Some(LinkResolutionIssue::IsRelative) => Err(
                            LinkResolutionError::ResolverNotApplicable,
                        ),
                    }
                },
            }
        },
    }
}

impl LinkSpec {
    /// The raw source path, as authored.
    pub closed spec fn spec_source(&self) -> Seq<char> {
        self.source@
    }

    /// The raw target path, as authored.
    pub closed spec fn spec_target(&self) -> Seq<char> {
        self.target@
    }

    /// The link mode of this specification.
    pub closed spec fn spec_mode(&self) -> LinkMode {
        self.link_mode
    }

    pub fn new(source_path: &str, target_path: &str, mode: LinkMode) -> (r: Self)
        ensures
            r.spec_source() == source_path@,
            r.spec_target() == target_path@,
            r.spec_mode() == mode,
    {
        LinkSpec { source: source_path.to_owned(), target: target_path.to_owned(), link_mode: mode }
    }

    /// Resolves the source path against the given parent directory and the
    /// host's home directory.  On inputs whose resolution never consults the
    /// home directory, the result is pinned; on the others it is
    /// `spec_resolve` for whatever absolute home directory the host reported,
    /// or for none.
    pub fn get_resolved_source(&self, parent: Option<&str>) -> (r: Result<
        String,
        LinkResolutionError,
    >)
        ensures
            exists|h: Option<Seq<char>>|
                {
                    &&& (h matches Some(hh) ==> spec_is_absolute(hh))
                    &&& resolve_result_view(r) == spec_resolve(
                        self.spec_source(),
                        opt_path_view(parent),
                        h,
                    )
                },
            !spec_needs_home(self.spec_source(), opt_path_view(parent)) ==> resolve_result_view(r)
                == spec_resolve(self.spec_source(), opt_path_view(parent), None),
            r matches Ok(s) ==> spec_is_absolute(s@),
    {
        let home = ResolveWithHomeDirectory::new();
        let r = resolve_path_with(self.source.as_str(), parent, &home);
        proof {
            let h = home.spec_home();
            assert(resolve_result_view(r) == spec_resolve(
                self.spec_source(),
                opt_path_view(parent),
                h,
            ));
            if !spec_needs_home(self.spec_source(), opt_path_view(parent)) {
                lemma_resolve_without_home(self.spec_source(), opt_path_view(parent), h);
            }
        }
        r
    }

    /// Resolves the target path: a relative target has no parent to fall
    /// back on, so only absolute and `~/`-prefixed targets resolve.
    pub fn get_resolved_target(&self) -> (r: Result<String, LinkResolutionError>)
        ensures
            exists|h: Option<Seq<char>>|
                {
                    &&& (h matches Some(hh) ==> spec_is_absolute(hh))
                    &&& resolve_result_view(r) == spec_resolve(self.spec_target(), None, h)
                },
            !spec_needs_home(self.spec_target(), None) ==> resolve_result_view(r) == spec_resolve(
                self.spec_target(),
                None,
                None,
            ),
            r matches Ok(s) ==> spec_is_absolute(s@),
    {
        let home = ResolveWithHomeDirectory::new();
        let r = resolve_path_with(self.target.as_str(), None, &home);
        proof {
            let h = home.spec_home();
            assert(resolve_result_view(r) == spec_resolve(self.spec_target(), None, h));
            if !spec_needs_home(self.spec_target(), None) {
                lemma_resolve_without_home(self.spec_target(), None, h);
            }
        }
        r
    }

    pub fn get_link_strategy(&self) -> (r: &LinkMode)
        ensures
            *r == self.spec_mode(),
    {
        &self.link_mode
    }
}

impl PartialEq for LinkSpec {
    fn eq(&self, other: &LinkSpec) -> (r: bool) {
        self.source == other.source && self.target == other.target && self.link_mode
            == other.link_mode
    }
}

impl vstd::std_specs::cmp::PartialEqSpecImpl for LinkSpec {
    open spec fn obeys_eq_spec() -> bool {
        true
    }

    open spec fn eq_spec(&self, other: &LinkSpec) -> bool {
        self.spec_source() == other.spec_source() && self.spec_target() == other.spec_target()
            && self.spec_mode() == other.spec_mode()
    }
}

/// Resolution of a path that never consults the home directory does not
/// depend on it.
pub proof fn lemma_resolve_without_home(
    raw: Seq<char>,
    parent: Option<Seq<char>>,
    home: Option<Seq<char>>,
)
    requires
        !spec_needs_home(raw, parent),
    ensures
        spec_resolve(raw, parent, home) == spec_resolve(raw, parent, None),
{
}

/// Resolving an already-absolute path returns it unchanged, whatever the
/// parent and home directories are.
pub proof fn lemma_resolve_absolute_identity(
    raw: Seq<char>,
    parent: Option<Seq<char>>,
    home: Option<Seq<char>>,
)
    requires
        spec_is_absolute(raw),
    ensures
        spec_resolve(raw, parent, home) == Ok::<Seq<char>, LinkResolutionError>(raw),
{
}

/// A `~/`-prefixed path resolves to its home-relative part joined onto the
/// home directory, for every home directory and whatever the parent is.
pub proof fn lemma_resolve_home_prefix(
    raw: Seq<char>,
    parent: Option<Seq<char>>,
    home: Seq<char>,
)
    requires
        spec_has_home_prefix(raw),
    ensures
        spec_resolve(raw, parent, Some(home)) == Ok::<Seq<char>, LinkResolutionError>(
            spec_join(home, spec_strip_home_prefix(raw)),
        ),
{
}

/// A relative path with a parent resolves to the path joined onto the
/// parent, whenever the parent is absolute.
pub proof fn lemma_resolve_with_parent(
    raw: Seq<char>,
    parent: Seq<char>,
    home: Option<Seq<char>>,
)
    requires
        !spec_is_absolute(raw),
        !spec_has_home_prefix(raw),
        spec_is_absolute(parent),
    ensures
        spec_resolve(raw, Some(parent), home) == Ok::<Seq<char>, LinkResolutionError>(
            spec_join(parent, raw),
        ),
{
    lemma_join_keeps_absolute(parent, raw);
}

/// A relative path without a parent cannot be resolved.
pub proof fn lemma_resolve_relative_without_parent(
    raw: Seq<char>,
    home: Option<Seq<char>>,
)
    requires
        !spec_is_absolute(raw),
        !spec_has_home_prefix(raw),
    ensures
        spec_resolve(raw, None, home) == Err::<Seq<char>, LinkResolutionError>(
            LinkResolutionError::ResolverNotApplicable,
        ),
{
}

/// Joining onto an absolute parent gives an absolute path.
pub proof fn lemma_join_keeps_absolute(parent: Seq<char>, child: Seq<char>)
    requires
        spec_is_absolute(parent),
    ensures
        spec_is_absolute(spec_join(parent, child)),
{
}

/// Stripping the home prefix after a join is joining after the strip: the
/// home-relative part of `parent/child` is `parent`'s own home-relative part
/// with `child` joined onto it.
pub proof fn lemma_strip_after_join(parent: Seq<char>, child: Seq<char>)
    requires
        spec_has_home_prefix(parent),
    ensures
        spec_has_home_prefix(spec_join(parent, child)),
        spec_strip_home_prefix(spec_join(parent, child)) == spec_join(
            spec_strip_home_prefix(parent),
            child,
        ),
{
    let joined = spec_join(parent, child);
    assert(spec_strip_home_prefix(joined) =~= spec_join(spec_strip_home_prefix(parent), child));
}

/// A relative path under a `~/`-prefixed parent resolves to the parent's
/// home-relative part, then the path, joined onto the home directory, for
/// every home directory.
pub proof fn lemma_resolve_with_home_parent(raw: Seq<char>, parent: Seq<char>, home: Seq<char>)
    requires
        !spec_is_absolute(raw),
        !spec_has_home_prefix(raw),
        spec_has_home_prefix(parent),
        spec_is_absolute(home),
    ensures
        spec_resolve(raw, Some(parent), Some(home)) == Ok::<Seq<char>, LinkResolutionError>(
            spec_join(home, spec_join(spec_strip_home_prefix(parent), raw)),
        ),
{
    let joined = spec_join(parent, raw);
    lemma_strip_after_join(parent, raw);
    assert(!spec_is_absolute(joined));
}

/// Every path that resolution accepts is absolute, as long as the home
/// directory, if one is there, is itself absolute.
pub proof fn lemma_resolved_is_absolute(
    raw: Seq<char>,
    parent: Option<Seq<char>>,
    home: Option<Seq<char>>,
)
    requires
        home matches Some(h) ==> spec_is_absolute(h),
    ensures
        spec_resolve(raw, parent, home) matches Ok(s) ==> spec_is_absolute(s),
{
    if spec_is_absolute(raw) {
    } else if spec_has_home_prefix(raw) {
        match home {
            Some(h) => lemma_join_keeps_absolute(h, spec_strip_home_prefix(raw)),
            None => {},
        }
    } else {
        match parent {
            None => {},
            Some(p) => {
                let joined = spec_join(p, raw);
                if spec_is_absolute(joined) {
                } else if spec_has_home_prefix(joined) {
                    match home {
                        Some(h) => lemma_join_keeps_absolute(h, spec_strip_home_prefix(joined)),
                        None => {},
                    }
                }
            },
        }
    }
}

} // verus!
