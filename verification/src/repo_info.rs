//! The identity of a repository: validated owner and name, the addresses
//! derived from them, and the two ways of finding out which repository a
//! command is aimed at.

use crate::error::{Field, ResolutionError, ValidationError};
use crate::text::{
    contains_char, ends_with_chars, free_of, lemma_split_pieces, lemma_trim_contains,
    lemma_trim_idempotent, non_empty, split, split_chars, strip_suffix, to_chars, trim, trim_str,
    views,
};
use vstd::prelude::*;
use vstd::string::*;

verus! {

/// How the target repository is found.
#[derive(Debug, Clone, Copy, PartialEq, Eq, Structural)]
pub enum Repo {
    /// From the `origin` remote of the git checkout in the current directory.
    Current,
    /// From the owner and the name that the caller supplies.
    Input,
}

/// A text that can stand for an owner or a name: not empty, without `/`, and
/// with no whitespace around it.
pub open spec fn is_identity(s: Seq<char>) -> bool {
    s.len() > 0 && !s.contains('/') && trim(s) == s
}

/// What validation makes of a text: the trimmed text, or the reason why it
/// is refused.
pub open spec fn parse_identity(s: Seq<char>, field: Field) -> Result<Seq<char>, ValidationError> {
    let t = trim(s);
    if t.len() == 0 {
        Err(ValidationError::EmptyField(field))
    } else if t.contains('/') {
        Err(ValidationError::InvalidCharacter(field))
    } else {
        Ok(t)
    }
}

/// The web address of a repository.
pub open spec fn https_url(owner: Seq<char>, name: Seq<char>) -> Seq<char> {
    "https://github.com/"@ + owner + "/"@ + name + "/"@
}

/// The SSH address of a repository.
pub open spec fn ssh_url(owner: Seq<char>, name: Seq<char>) -> Seq<char> {
    "git@github.com:"@ + owner + "/"@ + name + ".git"@
}

/// The web address of the release that carries `tag`.
pub open spec fn release_url(owner: Seq<char>, name: Seq<char>, tag: Seq<char>) -> Seq<char> {
    https_url(owner, name) + "releases/tag/"@ + trim(tag)
}

/// The pieces of a remote address that can name an owner or a repository:
/// the address is trimmed, loses one trailing `.git`, and is cut at every `/`
/// and `:`; empty pieces do not count.
pub open spec fn remote_segments(url: Seq<char>) -> Seq<Seq<char>> {
    non_empty(split(strip_suffix(trim(url), ".git"@), set!['/', ':']))
}

/// The owner and the name that a remote address stands for: its last two
/// segments, where there are two and both pass validation.
pub open spec fn remote_identity(url: Seq<char>) -> Option<(Seq<char>, Seq<char>)> {
    let segments = remote_segments(url);
    if segments.len() < 2 {
        None
    } else {
        match (
            parse_identity(segments[segments.len() - 2], Field::RepoOwner),
            parse_identity(segments[segments.len() - 1], Field::RepoName),
        ) {
            (Ok(owner), Ok(name)) => Some((owner, name)),
            _ => None,
        }
    }
}

/// Owner and name of a repository, as texts.
pub struct RepoId {
    pub owner: Seq<char>,
    pub name: Seq<char>,
}

/// The repository that a command is aimed at, or the reason why there is
/// none. `remote` is what the lookup of the `origin` remote gave: `None`
/// where there is no git repository or no such remote.
pub open spec fn resolve(
    mode: Repo,
    owner: Option<Seq<char>>,
    name: Option<Seq<char>>,
    remote: Option<Seq<char>>,
) -> Result<RepoId, ResolutionError> {
    match mode {
        Repo::Input => match (owner, name) {
            (None, _) => Err(ResolutionError::MissingOwner),
            (Some(_), None) => Err(ResolutionError::MissingName),
            (Some(owner), Some(name)) => Ok(RepoId { owner, name }),
        },
        Repo::Current => match remote {
            None => Err(ResolutionError::GitNotFound),
            Some(url) => match remote_identity(url) {
                None => Err(ResolutionError::UnparsableRemoteUrl),
                Some((owner, name)) => Ok(RepoId { owner, name }),
            },
        },
    }
}

/// A text with a `/` in it is refused for that character, whatever else it
/// holds.
pub proof fn lemma_slash_is_refused(s: Seq<char>, field: Field)
    requires
        s.contains('/'),
    ensures
        parse_identity(s, field) == Err::<Seq<char>, _>(ValidationError::InvalidCharacter(field)),
{
    lemma_trim_contains(s, '/');
}

/// A text without `/` that is more than whitespace is accepted; what comes
/// out is the text without the whitespace around it, and validating that
/// again changes nothing.
pub proof fn lemma_identity_round_trip(s: Seq<char>, field: Field)
    requires
        s.len() > 0,
        !s.contains('/'),
        trim(s).len() > 0,
    ensures
        parse_identity(s, field) == Ok::<_, ValidationError>(trim(s)),
        is_identity(trim(s)),
        parse_identity(trim(s), field) == parse_identity(s, field),
{
    lemma_trim_contains(s, '/');
    lemma_trim_idempotent(s);
}

/// Whatever validation accepts is an identity.
pub proof fn lemma_parsed_is_identity(s: Seq<char>, field: Field)
    ensures
        parse_identity(s, field) matches Ok(t) ==> is_identity(t),
{
    lemma_trim_idempotent(s);
}

/// An identity passes validation unchanged.
pub proof fn lemma_identity_is_fixed(s: Seq<char>, field: Field)
    requires
        is_identity(s),
    ensures
        parse_identity(s, field) == Ok::<_, ValidationError>(s),
{
}

/// With the same inputs, resolution gives the same repository; in `Input`
/// mode the remote plays no part, and in `Current` mode owner and name play
/// none.
pub proof fn lemma_resolve_ignores_the_other_mode(
    owner: Option<Seq<char>>,
    name: Option<Seq<char>>,
    remote: Option<Seq<char>>,
    other_owner: Option<Seq<char>>,
    other_name: Option<Seq<char>>,
    other_remote: Option<Seq<char>>,
)
    ensures
        resolve(Repo::Input, owner, name, remote) == resolve(Repo::Input, owner, name, other_remote),
        resolve(Repo::Current, owner, name, remote) == resolve(
            Repo::Current,
            other_owner,
            other_name,
            remote,
        ),
{
}

/// Without an owner, `Input` mode fails for the missing owner, whatever the
/// name and the remote are.
pub proof fn lemma_missing_owner(name: Option<Seq<char>>, remote: Option<Seq<char>>)
    ensures
        resolve(Repo::Input, None, name, remote) == Err::<RepoId, _>(ResolutionError::MissingOwner),
{
}

/// No segment of a remote address is empty, and none holds a `/` or a `:`.
pub proof fn lemma_remote_segments(url: Seq<char>, i: int)
    requires
        0 <= i < remote_segments(url).len(),
    ensures
        remote_segments(url)[i].len() > 0,
        free_of(remote_segments(url)[i], set!['/', ':']),
{
    let seps = set!['/', ':'];
    let pieces = split(strip_suffix(trim(url), ".git"@), seps);
    let keep = |p: Seq<char>| p.len() > 0;
    let segments = pieces.filter(keep);
    let segment = segments[i];
    pieces.lemma_filter_pred(keep, i);
    assert(segments.contains(segment));
    pieces.lemma_filter_contains_rev(keep, segment);
    let k = choose|k: int| 0 <= k < pieces.len() && pieces[k] == segment;
    lemma_split_pieces(strip_suffix(trim(url), ".git"@), seps);
    assert(free_of(pieces[k], seps));
}

/// A remote address stands for a repository unless it has fewer than two
/// segments, or one of its last two segments is nothing but whitespace.
/// Where it stands for one, owner and name are those two segments without
/// the whitespace around them.
pub proof fn lemma_remote_identity(url: Seq<char>)
    ensures
        ({
            let segments = remote_segments(url);
            if segments.len() < 2 || trim(segments[segments.len() - 2]).len() == 0 || trim(
                segments[segments.len() - 1],
            ).len() == 0 {
                remote_identity(url) is None
            } else {
                remote_identity(url) == Some(
                    (trim(segments[segments.len() - 2]), trim(segments[segments.len() - 1])),
                )
            }
        }),
{
    let segments = remote_segments(url);
    if segments.len() >= 2 {
        let owner = segments[segments.len() - 2];
        let name = segments[segments.len() - 1];
        lemma_remote_segments(url, segments.len() - 2);
        lemma_remote_segments(url, segments.len() - 1);
        lemma_trim_contains(owner, '/');
        lemma_trim_contains(name, '/');
        if owner.contains('/') {
            let j = choose|j: int| 0 <= j < owner.len() && owner[j] == '/';
            assert(set!['/', ':'].contains(owner[j]));
        }
        if name.contains('/') {
            let j = choose|j: int| 0 <= j < name.len() && name[j] == '/';
            assert(set!['/', ':'].contains(name[j]));
        }
    }
}

/// The owner of a repository: a user or an organisation.
#[derive(Debug, PartialEq, Eq)]
pub struct RepoOwner(String);

/// The name of a repository within its owner's namespace.
#[derive(Debug, PartialEq, Eq)]
pub struct RepoName(String);

/// The web address of a repository, or a text on its way to become one.
#[derive(Debug, PartialEq, Eq)]
pub struct RepoUrl(String);

/// The SSH address of a repository, or a text on its way to become one.
#[derive(Debug, PartialEq, Eq)]
pub struct RepoSsh(String);

impl View for RepoOwner {
    type V = Seq<char>;

    closed spec fn view(&self) -> Seq<char> {
        self.0@
    }
}

impl View for RepoName {
    type V = Seq<char>;

    closed spec fn view(&self) -> Seq<char> {
        self.0@
    }
}

impl View for RepoUrl {
    type V = Seq<char>;

    closed spec fn view(&self) -> Seq<char> {
        self.0@
    }
}

impl View for RepoSsh {
    type V = Seq<char>;

    closed spec fn view(&self) -> Seq<char> {
        self.0@
    }
}

/// The trimmed text of `s`, where it can stand for an owner or a name.
fn parse_text(s: &str, field: Field) -> (r: Result<String, ValidationError>)
    ensures
        match r {
            Ok(t) => parse_identity(s@, field) == Ok::<_, ValidationError>(t@) && is_identity(t@),
            Err(e) => parse_identity(s@, field) == Err::<Seq<char>, _>(e),
        },
{
    let trimmed = trim_str(s);
    let cs = to_chars(trimmed);
    if cs.len() == 0 {
        Err(ValidationError::EmptyField(field))
    } else if contains_char(cs.as_slice(), '/') {
        Err(ValidationError::InvalidCharacter(field))
    } else {
        proof {
            lemma_trim_idempotent(s@);
        }
        Ok(trimmed.to_owned())
    }
}

impl RepoOwner {
    #[verifier::type_invariant]
    spec fn well_formed(self) -> bool {
        is_identity(self.0@)
    }

    /// Validates an owner. The text is trimmed first; it is refused with
    /// `EmptyField` where nothing is left, and with `InvalidCharacter` where
    /// it holds a `/`.
    pub fn parse(s: &str) -> (r: Result<RepoOwner, ValidationError>)
        ensures
            match r {
                Ok(owner) => parse_identity(s@, Field::RepoOwner) == Ok::<_, ValidationError>(
                    owner@,
                ) && is_identity(owner@),
                Err(e) => parse_identity(s@, Field::RepoOwner) == Err::<Seq<char>, _>(e),
            },
            s@.contains('/') ==> r == Err::<RepoOwner, _>(
                ValidationError::InvalidCharacter(Field::RepoOwner),
            ),
    {
        proof {
            if s@.contains('/') {
                lemma_slash_is_refused(s@, Field::RepoOwner);
            }
        }
        match parse_text(s, Field::RepoOwner) {
            Ok(t) => Ok(RepoOwner(t)),
            Err(e) => Err(e),
        }
    }

    /// The owner's text, which has no whitespace around it.
    pub fn trim(&self) -> (r: &str)
        ensures
            r@ == self@,
            r@ == trim(self@),
            is_identity(self@),
    {
        proof {
            use_type_invariant(self);
        }
        self.0.as_str()
    }
}

impl RepoName {
    #[verifier::type_invariant]
    spec fn well_formed(self) -> bool {
        is_identity(self.0@)
    }

    /// Validates a repository name. The text is trimmed first; it is refused
    /// with `EmptyField` where nothing is left, and with `InvalidCharacter`
    /// where it holds a `/`.
    pub fn parse(s: &str) -> (r: Result<RepoName, ValidationError>)
        ensures
            match r {
                Ok(name) => parse_identity(s@, Field::RepoName) == Ok::<_, ValidationError>(name@)
                    && is_identity(name@),
                Err(e) => parse_identity(s@, Field::RepoName) == Err::<Seq<char>, _>(e),
            },
            s@.contains('/') ==> r == Err::<RepoName, _>(
                ValidationError::InvalidCharacter(Field::RepoName),
            ),
    {
        proof {
            if s@.contains('/') {
                lemma_slash_is_refused(s@, Field::RepoName);
            }
        }
        match parse_text(s, Field::RepoName) {
            Ok(t) => Ok(RepoName(t)),
            Err(e) => Err(e),
        }
    }

    /// The name's text, which has no whitespace around it.
    pub fn trim(&self) -> (r: &str)
        ensures
            r@ == self@,
            r@ == trim(self@),
            is_identity(self@),
    {
        proof {
            use_type_invariant(self);
        }
        self.0.as_str()
    }
}

impl Clone for RepoOwner {
    fn clone(&self) -> (r: Self)
        ensures
            r@ == self@,
    {
        proof {
            use_type_invariant(self);
        }
        RepoOwner(self.0.clone())
    }
}

impl Clone for RepoName {
    fn clone(&self) -> (r: Self)
        ensures
            r@ == self@,
    {
        proof {
            use_type_invariant(self);
        }
        RepoName(self.0.clone())
    }
}

impl Clone for RepoUrl {
    fn clone(&self) -> (r: Self)
        ensures
            r@ == self@,
    {
        RepoUrl(self.0.clone())
    }
}

impl Clone for RepoSsh {
    fn clone(&self) -> (r: Self)
        ensures
            r@ == self@,
    {
        RepoSsh(self.0.clone())
    }
}

impl RepoUrl {
    /// An address that starts with `s`.
    pub fn new(s: &str) -> (r: RepoUrl)
        ensures
            r@ == s@,
    {
        RepoUrl(s.to_owned())
    }

    /// Appends `s`.
    pub fn push_str(&mut self, s: &str)
        ensures
            final(self)@ == old(self)@ + s@,
    {
        self.0.append(s);
    }

    /// The address as a string.
    pub fn into_string(self) -> (r: String)
        ensures
            r@ == self@,
    {
        self.0
    }
}

impl RepoSsh {
    /// An address that starts with `s`.
    pub fn new(s: &str) -> (r: RepoSsh)
        ensures
            r@ == s@,
    {
        RepoSsh(s.to_owned())
    }

    /// Appends `s`.
    pub fn push_str(&mut self, s: &str)
        ensures
            final(self)@ == old(self)@ + s@,
    {
        self.0.append(s);
    }

    /// The address as a string.
    pub fn into_string(self) -> (r: String)
        ensures
            r@ == self@,
    {
        self.0
    }
}

fn web_address(owner: &RepoOwner, name: &RepoName) -> (r: RepoUrl)
    ensures
        r@ == https_url(owner@, name@),
{
    let mut url = RepoUrl::new("https://github.com/");
    url.push_str(owner.trim());
    url.push_str("/");
    url.push_str(name.trim());
    url.push_str("/");
    url
}

fn ssh_address(owner: &RepoOwner, name: &RepoName) -> (r: RepoSsh)
    ensures
        r@ == ssh_url(owner@, name@),
{
    let mut ssh = RepoSsh::new("git@github.com:");
    ssh.push_str(owner.trim());
    ssh.push_str("/");
    ssh.push_str(name.trim());
    ssh.push_str(".git");
    ssh
}

/// The web address of the repository `owner`/`name`.
pub fn to_https_url(owner: &RepoOwner, name: &RepoName) -> (r: String)
    ensures
        r@ == https_url(owner@, name@),
{
    web_address(owner, name).into_string()
}

/// The SSH address of the repository `owner`/`name`.
pub fn to_ssh_url(owner: &RepoOwner, name: &RepoName) -> (r: String)
    ensures
        r@ == ssh_url(owner@, name@),
{
    ssh_address(owner, name).into_string()
}

/// The places of the last two pieces that are not empty.
fn last_two(parts: &Vec<String>) -> (r: Option<(usize, usize)>)
    ensures
        match r {
            Some((i, j)) => {
                let segments = non_empty(views(parts@));
                &&& segments.len() >= 2
                &&& i < parts@.len()
                &&& j < parts@.len()
                &&& segments[segments.len() - 2] == parts@[i as int]@
                &&& segments[segments.len() - 1] == parts@[j as int]@
            },
            None => non_empty(views(parts@)).len() < 2,
        },
{
    let ghost all = views(parts@);
    let ghost keep = |p: Seq<char>| p.len() > 0;
    let mut before: Option<usize> = None;
    let mut last: Option<usize> = None;
    let mut k: usize = 0;
    proof {
        reveal(Seq::filter);
        assert(all.take(0) =~= Seq::<Seq<char>>::empty());
    }
    while k < parts.len()
        invariant
            k <= parts@.len(),
            all == views(parts@),
            keep == |p: Seq<char>| p.len() > 0,
            last is None <==> all.take(k as int).filter(keep).len() == 0,
            before is None <==> all.take(k as int).filter(keep).len() < 2,
            last matches Some(j) ==> j < k && all.take(k as int).filter(keep).last()
                == parts@[j as int]@,
            before matches Some(i) ==> i < k && all.take(k as int).filter(keep)[all.take(
                k as int,
            ).filter(keep).len() - 2] == parts@[i as int]@,
        decreases parts@.len() - k,
    {
        proof {
            assert(all.take(k + 1) =~= all.take(k as int).push(parts@[k as int]@));
            all.take(k as int).lemma_filter_push(parts@[k as int]@, keep);
        }
        if !parts[k].as_str().is_empty() {
            before = last;
            last = Some(k);
        }
        k += 1;
    }
    assert(all.take(parts@.len() as int) =~= all);
    match (before, last) {
        (Some(i), Some(j)) => Some((i, j)),
        _ => None,
    }
}

/// The repository that a command is aimed at.
#[derive(Debug, PartialEq, Eq)]
pub struct RepoInfo {
    owner: RepoOwner,
    name: RepoName,
    url: RepoUrl,
    ssh: RepoSsh,
}

impl View for RepoInfo {
    type V = RepoId;

    closed spec fn view(&self) -> RepoId {
        RepoId { owner: self.owner@, name: self.name@ }
    }
}

impl Clone for RepoInfo {
    fn clone(&self) -> (r: Self)
        ensures
            r@ == self@,
    {
        proof {
            use_type_invariant(self);
        }
        RepoInfo {
            owner: self.owner.clone(),
            name: self.name.clone(),
            url: self.url.clone(),
            ssh: self.ssh.clone(),
        }
    }
}

impl RepoInfo {
    /// The two addresses are those of owner and name, at all times.
    #[verifier::type_invariant]
    spec fn well_formed(self) -> bool {
        &&& is_identity(self.owner@)
        &&& is_identity(self.name@)
        &&& self.url@ == https_url(self.owner@, self.name@)
        &&& self.ssh@ == ssh_url(self.owner@, self.name@)
    }

    fn assemble(owner: RepoOwner, name: RepoName) -> (r: RepoInfo)
        ensures
            r@ == (RepoId { owner: owner@, name: name@ }),
    {
        let url = web_address(&owner, &name);
        let ssh = ssh_address(&owner, &name);
        proof {
            use_type_invariant(&owner);
            use_type_invariant(&name);
        }
        RepoInfo { owner, name, url, ssh }
    }

    /// Owner and name that a remote address stands for. The address may have
    /// the form `https://host/owner/name` or `git@host:owner/name`, with or
    /// without `.git` at its end.
    pub fn parse_github_url(url: &str) -> (r: Result<(RepoOwner, RepoName), ResolutionError>)
        ensures
            match r {
                Ok((owner, name)) => remote_identity(url@) == Some((owner@, name@)),
                Err(e) => e == ResolutionError::UnparsableRemoteUrl && remote_identity(url@)
                    is None,
            },
    {
        let mut body = to_chars(trim_str(url));
        let suffix = to_chars(".git");
        proof {
            assert(body@.take(body@.len() as int) =~= body@);
        }
        if ends_with_chars(body.as_slice(), suffix.as_slice()) {
            let keep: usize = body.len() - suffix.len();
            body.truncate(keep);
        }
        assert(body@ =~= strip_suffix(trim(url@), ".git"@));
        let parts = split_chars(body.as_slice(), '/', ':');
        match last_two(&parts) {
            None => Err(ResolutionError::UnparsableRemoteUrl),
            Some((i, j)) => {
                match (RepoOwner::parse(parts[i].as_str()), RepoName::parse(parts[j].as_str())) {
                    (Ok(owner), Ok(name)) => Ok((owner, name)),
                    _ => Err(ResolutionError::UnparsableRemoteUrl),
                }
            },
        }
    }

    /// The repository of the git checkout in the current directory, from what
    /// the lookup of its `origin` remote gave: `None` where there is no git
    /// repository or no such remote.
    pub fn get_current_repo(remote: Option<&str>) -> (r: Result<RepoInfo, ResolutionError>)
        ensures
            match r {
                Ok(info) => resolve(Repo::Current, None, None, text_of(remote)) == Ok::<
                    _,
                    ResolutionError,
                >(info@),
                Err(e) => resolve(Repo::Current, None, None, text_of(remote)) == Err::<RepoId, _>(
                    e,
                ),
            },
    {
        match remote {
            None => Err(ResolutionError::GitNotFound),
            Some(url) => match Self::parse_github_url(url) {
                Ok((owner, name)) => Ok(Self::assemble(owner, name)),
                Err(e) => Err(e),
            },
        }
    }

    /// The repository that the caller names. The owner is looked at first.
    pub fn create_repo_info(owner: Option<RepoOwner>, name: Option<RepoName>) -> (r: Result<
        RepoInfo,
        ResolutionError,
    >)
        ensures
            match r {
                Ok(info) => resolve(Repo::Input, owner_text(owner), name_text(name), None)
                    == Ok::<_, ResolutionError>(info@),
                Err(e) => resolve(Repo::Input, owner_text(owner), name_text(name), None) == Err::<
                    RepoId,
                    _,
                >(e),
            },
            owner is None ==> r == Err::<RepoInfo, _>(ResolutionError::MissingOwner),
    {
        match owner {
            None => Err(ResolutionError::MissingOwner),
            Some(owner) => match name {
                None => Err(ResolutionError::MissingName),
                Some(name) => Ok(Self::assemble(owner, name)),
            },
        }
    }

    /// Resolves the target repository in the given mode. `Input` takes owner
    /// and name and ignores `remote`; `Current` takes `remote`, which is what
    /// the lookup of the `origin` remote gave, and ignores owner and name.
    pub fn new(
        type_repo: Repo,
        owner: Option<RepoOwner>,
        name: Option<RepoName>,
        remote: Option<&str>,
    ) -> (r: Result<RepoInfo, ResolutionError>)
        ensures
            match r {
                Ok(info) => resolve(type_repo, owner_text(owner), name_text(name), text_of(remote))
                    == Ok::<_, ResolutionError>(info@),
                Err(e) => resolve(type_repo, owner_text(owner), name_text(name), text_of(remote))
                    == Err::<RepoId, _>(e),
            },
    {
        match type_repo {
            Repo::Current => Self::get_current_repo(remote),
            Repo::Input => Self::create_repo_info(owner, name),
        }
    }

    /// The owner.
    pub fn get_owner(&self) -> (r: String)
        ensures
            r@ == self@.owner,
            is_identity(r@),
    {
        proof {
            use_type_invariant(self);
        }
        self.owner.trim().to_owned()
    }

    /// The name.
    pub fn get_name(&self) -> (r: String)
        ensures
            r@ == self@.name,
            is_identity(r@),
    {
        proof {
            use_type_invariant(self);
        }
        self.name.trim().to_owned()
    }

    /// The web address.
    pub fn get_url(&self) -> (r: String)
        ensures
            r@ == https_url(self@.owner, self@.name),
    {
        proof {
            use_type_invariant(self);
        }
        self.url.clone().into_string()
    }

    /// The SSH address.
    pub fn get_ssh(&self) -> (r: String)
        ensures
            r@ == ssh_url(self@.owner, self@.name),
    {
        proof {
            use_type_invariant(self);
        }
        self.ssh.clone().into_string()
    }

    /// The web address of the release that carries `tag`; whitespace around
    /// the tag is left out.
    pub fn get_release_url(&self, tag: &String) -> (r: String)
        ensures
            r@ == release_url(self@.owner, self@.name, tag@),
    {
        proof {
            use_type_invariant(self);
        }
        let mut release_url = self.url.clone();
        release_url.push_str("releases/tag/");
        release_url.push_str(trim_str(tag.as_str()));
        release_url.into_string()
    }
}

/// The text of an owner that may be absent.
pub open spec fn owner_text(owner: Option<RepoOwner>) -> Option<Seq<char>> {
    match owner {
        Some(owner) => Some(owner@),
        None => None,
    }
}

/// The text of a name that may be absent.
pub open spec fn name_text(name: Option<RepoName>) -> Option<Seq<char>> {
    match name {
        Some(name) => Some(name@),
        None => None,
    }
}

/// The text of a string that may be absent.
pub open spec fn text_of(s: Option<&str>) -> Option<Seq<char>> {
    match s {
        Some(s) => Some(s@),
        None => None,
    }
}

} // verus!
