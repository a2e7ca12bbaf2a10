//! The owner and the repository that the URL of a GitHub remote names.
use crate::text::chars_of;
use vstd::prelude::*;

verus! {

/// What follows a prefix, where the text begins with it.
pub open spec fn after_prefix(text: Seq<char>, prefix: Seq<char>) -> Option<Seq<char>> {
    if prefix.is_prefix_of(text) {
        Some(text.skip(prefix.len() as int))
    } else {
        None
    }
}

/// The part of a remote URL behind the host, for the URLs that GitHub hands out.
pub open spec fn behind_host(url: Seq<char>) -> Option<Seq<char>> {
    match after_prefix(url, "git@github.com:"@) {
        Some(rest) => Some(rest),
        None => match after_prefix(url, "https://github.com/"@) {
            Some(rest) => Some(rest),
            None => after_prefix(url, "http://github.com/"@),
        },
    }
}

/// The ending that the URL of a git repository may carry.
pub open spec fn git_suffix() -> Seq<char> {
    seq!['.', 'g', 'i', 't']
}

/// A text without the `.git` endings, however many there are.
pub open spec fn without_git_suffix(text: Seq<char>) -> Seq<char>
    decreases text.len(),
{
    if git_suffix().is_suffix_of(text) {
        without_git_suffix(text.take(text.len() - 4))
    } else {
        text
    }
}

/// A text cut at its first `/`, where it has one.
pub open spec fn cut_at_slash(text: Seq<char>) -> Option<(Seq<char>, Seq<char>)> {
    match text.index_of_first('/') {
        Some(i) => Some((text.take(i), text.skip(i + 1))),
        None => None,
    }
}

/// The owner and the repository that a remote URL names.
pub open spec fn github_remote(url: Seq<char>) -> Option<(Seq<char>, Seq<char>)> {
    match behind_host(url) {
        Some(rest) => cut_at_slash(without_git_suffix(rest)),
        None => None,
    }
}

/// Why a remote URL was not understood.
#[derive(Debug, PartialEq, Eq)]
pub struct ParseRemoteError {
    message: String,
}

impl View for ParseRemoteError {
    type V = Seq<char>;

    closed spec fn view(&self) -> Seq<char> {
        self.message@
    }
}

impl ParseRemoteError {
    /// The error for a URL.
    pub open spec fn text_for(url: Seq<char>) -> Seq<char> {
        "Could not parse GitHub owner/repo from remote URL: "@ + url
    }

    /// The message to show.
    pub fn message(&self) -> (message: &str)
        ensures
            message@ == self@,
    {
        self.message.as_str()
    }
}

/// Whether a text begins with a prefix.
fn has_prefix(text: &Vec<char>, prefix: &Vec<char>) -> (has: bool)
    ensures
        has == prefix@.is_prefix_of(text@),
{
    if prefix.len() > text.len() {
        return false;
    }
    let mut i: usize = 0;
    while i < prefix.len()
        invariant
            i <= prefix@.len() <= text@.len(),
            forall|k: int| 0 <= k < i ==> prefix@[k] == text@[k],
        decreases prefix@.len() - i,
    {
        if prefix[i] != text[i] {
            assert(prefix@[i as int] != text@.subrange(0, prefix@.len() as int)[i as int]);
            return false;
        }
        i = i + 1;
    }
    assert(prefix@ =~= text@.subrange(0, prefix@.len() as int));
    true
}

/// Where the part behind the host begins.
fn host_end(url: &Vec<char>) -> (end: Option<usize>)
    ensures
        match end {
            Some(i) => i <= url@.len() && behind_host(url@) == Some(url@.skip(i as int)),
            None => behind_host(url@) is None,
        },
{
    let ssh = chars_of("git@github.com:");
    let https = chars_of("https://github.com/");
    let http = chars_of("http://github.com/");
    if has_prefix(url, &ssh) {
        Some(ssh.len())
    } else if has_prefix(url, &https) {
        Some(https.len())
    } else if has_prefix(url, &http) {
        Some(http.len())
    } else {
        None
    }
}

/// Where the part of a text that begins at `start` ends without its `.git` endings.
fn git_suffix_start(text: &Vec<char>, start: usize) -> (end: usize)
    requires
        start <= text@.len(),
    ensures
        start <= end <= text@.len(),
        text@.subrange(start as int, end as int) == without_git_suffix(text@.skip(start as int)),
{
    let mut end: usize = text.len();
    assert(text@.subrange(start as int, end as int) =~= text@.skip(start as int));
    while end - start >= 4 && text[end - 4] == '.' && text[end - 3] == 'g' && text[end - 2] == 'i'
        && text[end - 1] == 't'
        invariant
            start <= end <= text@.len(),
            without_git_suffix(text@.subrange(start as int, end as int)) == without_git_suffix(
                text@.skip(start as int),
            ),
        ensures
            start <= end <= text@.len(),
            without_git_suffix(text@.subrange(start as int, end as int)) == without_git_suffix(
                text@.skip(start as int),
            ),
            !git_suffix().is_suffix_of(text@.subrange(start as int, end as int)),
        decreases end,
    {
        let ghost part = text@.subrange(start as int, end as int);
        assert(git_suffix() =~= part.subrange(part.len() - 4, part.len() as int));
        assert(part.take(part.len() - 4) =~= text@.subrange(start as int, end - 4));
        end = end - 4;
    }
    end
}

/// The owner and the repository that the URL of a GitHub remote names. The URL may be of the form
/// for SSH, for HTTPS or for HTTP, with or without `.git` at its end.
pub fn parse_github_remote(url: &str) -> (result: Result<(String, String), ParseRemoteError>)
    ensures
        match github_remote(url@) {
            Some((owner, repo)) => result matches Ok(parsed) && parsed.0@ == owner && parsed.1@
                == repo,
            None => result matches Err(error) && error@ == ParseRemoteError::text_for(url@),
        },
{
    let chars = chars_of(url);
    if let Some(start) = host_end(&chars) {
        let end: usize = git_suffix_start(&chars, start);
        let ghost trimmed = without_git_suffix(chars@.skip(start as int));
        let mut slash: usize = start;
        while slash < end && chars[slash] != '/'
            invariant
                start <= slash <= end <= chars@.len(),
                trimmed == chars@.subrange(start as int, end as int),
                forall|k: int| start <= k < slash ==> chars@[k] != '/',
            decreases end - slash,
        {
            slash = slash + 1;
        }
        proof {
            trimmed.index_of_first_ensures('/');
        }
        if slash < end {
            let owner = url.substring_char(start, slash).to_string();
            let repo = url.substring_char(slash + 1, end).to_string();
            proof {
                let i = slash - start;
                assert(trimmed[i] == '/');
                let first = trimmed.index_of_first('/')->0;
                assert(trimmed[first] == chars@[start + first]);
                if first > i {
                    assert(trimmed[i] != '/');
                }
                assert(first == i);
                assert(owner@ =~= trimmed.take(i));
                assert(repo@ =~= trimmed.skip(i + 1));
            }
            return Ok((owner, repo));
        }
        proof {
            if trimmed.contains('/') {
                let first = trimmed.index_of_first('/')->0;
                assert(trimmed[first] == chars@[start + first]);
            }
        }
    }
    let message = "Could not parse GitHub owner/repo from remote URL: ".to_string().concat(url);
    Err(ParseRemoteError { message })
}

/// Whether a text is how one of GitHub's remote URLs begins.
pub open spec fn is_host_prefix(text: Seq<char>) -> bool {
    text == "git@github.com:"@ || text == "https://github.com/"@ || text == "http://github.com/"@
}

proof fn lemma_after_prefix_append(text: Seq<char>, prefix: Seq<char>, tail: Seq<char>)
    requires
        prefix.len() > 0,
        prefix.len() <= text.len() || !tail.contains(prefix.last()),
    ensures
        after_prefix(text + tail, prefix) == (match after_prefix(text, prefix) {
            Some(rest) => Some(rest + tail),
            None => None,
        }),
{
    let whole = text + tail;
    if prefix.is_prefix_of(text) {
        assert(prefix =~= whole.subrange(0, prefix.len() as int)) by {
            assert(forall|i: int|
                0 <= i < prefix.len() ==> prefix[i] == text.subrange(0, prefix.len() as int)[i]);
        }
        assert(whole.skip(prefix.len() as int) =~= text.skip(prefix.len() as int) + tail);
    } else if prefix.is_prefix_of(whole) {
        let n = prefix.len() as int;
        assert(forall|i: int| 0 <= i < n ==> prefix[i] == whole.subrange(0, n)[i]);
        if n <= text.len() {
            assert(prefix =~= text.subrange(0, n));
        } else {
            assert(whole[n - 1] == tail[n - 1 - text.len()]);
            assert(tail.contains(prefix.last()));
        }
    }
}

proof fn lemma_behind_host_append(url: Seq<char>, tail: Seq<char>)
    requires
        !tail.contains('/'),
        !tail.contains(':'),
    ensures
        behind_host(url + tail) == (match behind_host(url) {
            Some(rest) => Some(rest + tail),
            None => None,
        }),
{
    reveal_strlit("git@github.com:");
    reveal_strlit("https://github.com/");
    reveal_strlit("http://github.com/");
    assert("git@github.com:"@.last() == ':');
    assert("https://github.com/"@.last() == '/');
    assert("http://github.com/"@.last() == '/');
    lemma_after_prefix_append(url, "git@github.com:"@, tail);
    lemma_after_prefix_append(url, "https://github.com/"@, tail);
    lemma_after_prefix_append(url, "http://github.com/"@, tail);
}

proof fn lemma_behind_host_prefix(prefix: Seq<char>, rest: Seq<char>)
    requires
        is_host_prefix(prefix),
    ensures
        behind_host(prefix + rest) == Some(rest),
{
    reveal_strlit("git@github.com:");
    reveal_strlit("https://github.com/");
    reveal_strlit("http://github.com/");
    let url = prefix + rest;
    assert(prefix =~= url.subrange(0, prefix.len() as int));
    assert(url.skip(prefix.len() as int) =~= rest);
    if prefix == "https://github.com/"@ {
        assert("git@github.com:"@[0] != url.subrange(0, 15)[0]);
    } else if prefix == "http://github.com/"@ {
        assert("git@github.com:"@[0] != url.subrange(0, 15)[0]);
        if url.len() >= 19 {
            assert("https://github.com/"@[4] != url.subrange(0, 19)[4]);
        }
    }
}

/// One more `.git` at the end of a URL changes nothing.
pub proof fn law_git_suffix_ignored(url: Seq<char>)
    ensures
        github_remote(url + git_suffix()) == github_remote(url),
{
    lemma_behind_host_append(url, git_suffix());
    if let Some(rest) = behind_host(url) {
        let longer = rest + git_suffix();
        assert(git_suffix() =~= longer.subrange(longer.len() - 4, longer.len() as int));
        assert(longer.take(longer.len() - 4) =~= rest);
    }
}

/// Every form of URL gives back the owner and the repository that it was made of. The owner is
/// what precedes the first `/`, so it holds none; a repository's own `.git` ending is not told
/// apart from the ending of the URL.
pub proof fn law_remote_round_trip(prefix: Seq<char>, owner: Seq<char>, repo: Seq<char>)
    requires
        is_host_prefix(prefix),
        !owner.contains('/'),
        !git_suffix().is_suffix_of(repo),
    ensures
        github_remote(prefix + (owner + seq!['/'] + repo)) == Some((owner, repo)),
        github_remote(prefix + (owner + seq!['/'] + repo) + git_suffix()) == Some((owner, repo)),
{
    let rest = owner + seq!['/'] + repo;
    lemma_behind_host_prefix(prefix, rest);
    law_git_suffix_ignored(prefix + rest);
    if git_suffix().is_suffix_of(rest) {
        let n = rest.len() as int;
        let end = rest.subrange(n - 4, n);
        assert(forall|i: int| 0 <= i < 4 ==> git_suffix()[i] == end[i]);
        if repo.len() >= 4 {
            assert(git_suffix() =~= repo.subrange(repo.len() - 4, repo.len() as int));
        } else {
            assert(end[3 - repo.len()] == '/');
        }
    }
    rest.index_of_first_ensures('/');
    assert(rest[owner.len() as int] == '/');
    let i = rest.index_of_first('/')->0;
    if i < owner.len() {
        assert(owner[i] == '/');
        assert(owner.contains('/'));
    }
    assert(i == owner.len());
    assert(rest.take(i) =~= owner);
    assert(rest.skip(i + 1) =~= repo);
}

proof fn lemma_without_git_suffix(text: Seq<char>)
    ensures
        !git_suffix().is_suffix_of(without_git_suffix(text)),
    decreases text.len(),
{
    if git_suffix().is_suffix_of(text) {
        lemma_without_git_suffix(text.take(text.len() - 4));
    }
}

/// What is found in a URL is what stands behind its host: an owner without `/`, a `/` and a
/// repository without a `.git` ending.
pub proof fn law_remote_parts(url: Seq<char>, owner: Seq<char>, repo: Seq<char>)
    requires
        github_remote(url) == Some((owner, repo)),
    ensures
        behind_host(url) is Some,
        without_git_suffix(behind_host(url)->0) == owner + seq!['/'] + repo,
        !owner.contains('/'),
        !git_suffix().is_suffix_of(repo),
{
    let text = without_git_suffix(behind_host(url)->0);
    text.index_of_first_ensures('/');
    lemma_without_git_suffix(behind_host(url)->0);
    let i = text.index_of_first('/')->0;
    assert(text =~= text.take(i) + seq!['/'] + repo);
    assert(forall|k: int| 0 <= k < i ==> text.take(i)[k] == text[k]);
    if git_suffix().is_suffix_of(repo) {
        assert(forall|k: int|
            0 <= k < 4 ==> git_suffix()[k] == repo.subrange(
                repo.len() - 4,
                repo.len() as int,
            )[k]);
        assert(git_suffix() =~= text.subrange(text.len() - 4, text.len() as int));
    }
}

/// A number of `.git` endings, one behind the other.
pub open spec fn git_endings(count: nat) -> Seq<char>
    decreases count,
{
    if count == 0 {
        Seq::empty()
    } else {
        git_endings((count - 1) as nat) + ".git"@
    }
}

/// Whether a URL is made of how GitHub's remote URLs begin, an owner without `/`, a `/`, a
/// repository without a `.git` ending, and a number of such endings.
pub open spec fn spells_remote(
    url: Seq<char>,
    prefix: Seq<char>,
    owner: Seq<char>,
    repo: Seq<char>,
    endings: nat,
) -> bool {
    &&& prefix == "git@github.com:"@ || prefix == "https://github.com/"@ || prefix
        == "http://github.com/"@
    &&& !owner.contains('/')
    &&& !".git"@.is_suffix_of(repo)
    &&& url == prefix + (owner + seq!['/'] + repo) + git_endings(endings)
}

proof fn lemma_git_suffix_text()
    ensures
        git_suffix() == ".git"@,
{
    reveal_strlit(".git");
    assert(git_suffix() =~= ".git"@);
}

proof fn lemma_behind_host_splits(url: Seq<char>) -> (prefix: Seq<char>)
    requires
        behind_host(url) is Some,
    ensures
        is_host_prefix(prefix),
        url == prefix + behind_host(url)->0,
{
    let prefix = if "git@github.com:"@.is_prefix_of(url) {
        "git@github.com:"@
    } else if "https://github.com/"@.is_prefix_of(url) {
        "https://github.com/"@
    } else {
        "http://github.com/"@
    };
    assert(url =~= prefix + url.skip(prefix.len() as int)) by {
        assert(forall|i: int|
            0 <= i < prefix.len() ==> prefix[i] == url.subrange(0, prefix.len() as int)[i]);
    }
    prefix
}

proof fn lemma_endings_of(text: Seq<char>) -> (count: nat)
    ensures
        text == without_git_suffix(text) + git_endings(count),
    decreases text.len(),
{
    if git_suffix().is_suffix_of(text) {
        let front = text.take(text.len() - 4);
        let count = lemma_endings_of(front);
        lemma_git_suffix_text();
        assert(git_endings(count + 1) == git_endings(count) + ".git"@);
        assert(text =~= front + ".git"@) by {
            assert(forall|i: int|
                0 <= i < 4 ==> git_suffix()[i] == text.subrange(
                    text.len() - 4,
                    text.len() as int,
                )[i]);
        }
        assert(text =~= without_git_suffix(text) + git_endings(count + 1));
        count + 1
    } else {
        assert(text =~= text + git_endings(0));
        0
    }
}

proof fn lemma_endings_ignored(url: Seq<char>, count: nat)
    ensures
        github_remote(url + git_endings(count)) == github_remote(url),
    decreases count,
{
    if count == 0 {
        assert(url + git_endings(0) =~= url);
    } else {
        let shorter = url + git_endings((count - 1) as nat);
        lemma_git_suffix_text();
        lemma_endings_ignored(url, (count - 1) as nat);
        law_git_suffix_ignored(shorter);
        assert(url + git_endings(count) =~= shorter + git_suffix());
    }
}

/// A URL names an owner and a repository exactly where it is spelled with them.
pub proof fn law_remote_spelled(url: Seq<char>, owner: Seq<char>, repo: Seq<char>)
    ensures
        github_remote(url) == Some((owner, repo)) <==> exists|prefix: Seq<char>, endings: nat|
            spells_remote(url, prefix, owner, repo, endings),
{
    lemma_git_suffix_text();
    if github_remote(url) == Some((owner, repo)) {
        law_remote_parts(url, owner, repo);
        let rest = behind_host(url)->0;
        let prefix = lemma_behind_host_splits(url);
        let endings = lemma_endings_of(rest);
        assert(url =~= prefix + (owner + seq!['/'] + repo) + git_endings(endings));
        assert(spells_remote(url, prefix, owner, repo, endings));
    }
    if exists|prefix: Seq<char>, endings: nat| spells_remote(url, prefix, owner, repo, endings) {
        let (prefix, endings) = choose|prefix: Seq<char>, endings: nat|
            spells_remote(url, prefix, owner, repo, endings);
        law_remote_round_trip(prefix, owner, repo);
        lemma_endings_ignored(prefix + (owner + seq!['/'] + repo), endings);
    }
}

/// A URL that begins as none of GitHub's does is refused; one that does is understood exactly where
/// a `/` stands behind the host.
pub proof fn law_remote_refused(url: Seq<char>, rest: Seq<char>)
    ensures
        !"git@github.com:"@.is_prefix_of(url) && !"https://github.com/"@.is_prefix_of(url)
            && !"http://github.com/"@.is_prefix_of(url) ==> github_remote(url) is None,
        github_remote("git@github.com:"@ + rest) is Some <==> rest.contains('/'),
        github_remote("https://github.com/"@ + rest) is Some <==> rest.contains('/'),
        github_remote("http://github.com/"@ + rest) is Some <==> rest.contains('/'),
{
    lemma_behind_host_prefix("git@github.com:"@, rest);
    lemma_behind_host_prefix("https://github.com/"@, rest);
    lemma_behind_host_prefix("http://github.com/"@, rest);
    lemma_slash_kept(rest);
    without_git_suffix(rest).index_of_first_ensures('/');
}

proof fn lemma_slash_kept(text: Seq<char>)
    ensures
        without_git_suffix(text).contains('/') == text.contains('/'),
    decreases text.len(),
{
    if git_suffix().is_suffix_of(text) {
        let front = text.take(text.len() - 4);
        lemma_slash_kept(front);
        if text.contains('/') {
            let i = choose|i: int| 0 <= i < text.len() && text[i] == '/';
            if i < front.len() {
                assert(front[i] == '/');
            } else {
                let end = text.subrange(text.len() - 4, text.len() as int);
                assert(git_suffix()[i - front.len()] == end[i - front.len()]);
            }
        }
        if front.contains('/') {
            let i = choose|i: int| 0 <= i < front.len() && front[i] == '/';
            assert(text[i] == '/');
        }
    }
}

/// Whatever the URL, the message says what could not be parsed and ends with the URL.
pub proof fn law_error_names_url(url: Seq<char>)
    ensures
        ParseRemoteError::text_for(url)
            == "Could not parse GitHub owner/repo from remote URL: "@ + url,
{
}

} // verus!
