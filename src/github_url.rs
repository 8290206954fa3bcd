use vstd::prelude::*;

use crate::error::GitHubFetchError;

verus! {

/// The path segments of a URL as `url` parses it: `None` when the text is no valid
/// absolute URL, `Some(None)` when the URL has no hierarchical path.
pub uninterp spec fn url_path_segments(s: Seq<char>) -> Option<Option<Seq<Seq<char>>>>;

/// The character sequences held by a vector of strings.
pub open spec fn strings_view(v: Seq<String>) -> Seq<Seq<char>> {
    v.map_values(|x: String| x@)
}

/// Relies on `url::Url::parse` and `url::Url::path_segments`: the parse outcome and the
/// segments depend on the input text alone.
#[verifier::external_body]
fn parse_path_segments(url: &str) -> (r: Result<Option<Vec<String>>, url::ParseError>)
    ensures
        match r {
            Ok(Some(v)) => url_path_segments(url@) == Some(Some(strings_view(v@))),
            Ok(None) => url_path_segments(url@) == Some(None::<Seq<Seq<char>>>),
            Err(_) => url_path_segments(url@) is None,
        },
{
    match url::Url::parse(url) {
        Ok(u) => Ok(u.path_segments().map(|p| p.map(|x| x.to_string()).collect())),
        Err(e) => Err(e),
    }
}

/// Segments joined with `/` between neighbours, in their order.
pub open spec fn join_slash(s: Seq<Seq<char>>) -> Seq<char>
    decreases s.len(),
{
    if s.len() == 0 {
        Seq::empty()
    } else if s.len() == 1 {
        s[0]
    } else {
        join_slash(s.drop_last()) + "/"@ + s.last()
    }
}

/// The address that a repository is cloned from.
pub open spec fn clone_url_for(owner: Seq<char>, repo: Seq<char>) -> Seq<char> {
    "https://github.com/"@ + owner + "/"@ + repo + ".git"@
}

/// Whether the segments after owner and repository start with a `tree/<branch>` marker.
pub open spec fn has_tree_marker(segs: Seq<Seq<char>>) -> bool {
    segs.len() >= 4 && segs[2] == "tree"@
}

/// The segments that name the folder: those after `tree/<branch>` where that marker
/// follows owner and repository, else all those after owner and repository.
pub open spec fn subpath_segments(segs: Seq<Seq<char>>) -> Seq<Seq<char>> {
    if has_tree_marker(segs) {
        segs.skip(4)
    } else {
        segs.skip(2)
    }
}

/// Clone URL and folder for path segments that hold at least owner and repository.
pub open spec fn resolved_target(segs: Seq<Seq<char>>) -> (Seq<char>, Seq<char>) {
    (clone_url_for(segs[0], segs[1]), join_slash(subpath_segments(segs)))
}

/// Joins `v[start..]` with `/`.
fn join_from(v: &Vec<String>, start: usize) -> (r: String)
    requires
        start <= v@.len(),
    ensures
        r@ == join_slash(strings_view(v@).skip(start as int)),
{
    let ghost segs = strings_view(v@);
    let mut out = String::new();
    let mut i: usize = start;
    while i < v.len()
        invariant
            start <= i <= v@.len(),
            segs == strings_view(v@),
            out@ == join_slash(segs.subrange(start as int, i as int)),
        decreases v@.len() - i,
    {
        let ghost before = segs.subrange(start as int, i as int);
        if i > start {
            out.append("/");
        }
        out.append(v[i].as_str());
        proof {
            let after = segs.subrange(start as int, i + 1);
            assert(after.drop_last() =~= before);
            assert(after.last() == v@[i as int]@);
            if i == start {
                assert(before.len() == 0);
                assert(out@ =~= v@[i as int]@);
            }
        }
        i = i + 1;
    }
    assert(segs.subrange(start as int, v@.len() as int) =~= segs.skip(start as int));
    out
}

/// Resolves a GitHub web URL into the clone URL of its repository and the folder
/// inside it, as `(clone_url, folder)`.
pub fn parse_github_url(url: &str) -> (r: Result<(String, String), GitHubFetchError>)
    ensures
        match url_path_segments(url@) {
            None => r matches Err(GitHubFetchError::UrlParseError(_)),
            Some(None) => r matches Err(GitHubFetchError::InvalidUrlError(_)),
            Some(Some(segs)) => if segs.len() < 2 {
                r matches Err(GitHubFetchError::InvalidUrlError(_))
            } else {
                r matches Ok(t) && (t.0@, t.1@) == resolved_target(segs)
            },
        },
{
    let segments = match parse_path_segments(url) {
        Ok(Some(v)) => v,
        Ok(None) => {
            return Err(GitHubFetchError::InvalidUrlError(String::from_str("URL has no path")));
        },
        Err(e) => {
            return Err(GitHubFetchError::UrlParseError(e));
        },
    };
    if segments.len() < 2 {
        return Err(
            GitHubFetchError::InvalidUrlError(
                String::from_str("URL needs an owner and a repository"),
            ),
        );
    }
    let ghost segs = strings_view(segments@);
    let mut clone_url = String::from_str("https://github.com/");
    clone_url.append(segments[0].as_str());
    clone_url.append("/");
    clone_url.append(segments[1].as_str());
    clone_url.append(".git");
    let tree = String::from_str("tree");
    let start: usize = if segments.len() >= 4 && segments[2] == tree {
        4
    } else {
        2
    };
    let folder = join_from(&segments, start);
    proof {
        assert(segs[0] == segments@[0]@);
        assert(segs[1] == segments@[1]@);
        assert(clone_url@ =~= clone_url_for(segs[0], segs[1]));
        if segments@.len() >= 4 {
            assert(segs[2] == segments@[2]@);
        }
    }
    Ok((clone_url, folder))
}

/// A URL with exactly owner and repository as its path resolves to
/// `https://github.com/<owner>/<repo>.git` and the empty folder.
pub proof fn two_segment_url_target(owner: Seq<char>, repo: Seq<char>)
    ensures
        resolved_target(seq![owner, repo]) == (
        "https://github.com/"@ + owner + "/"@ + repo + ".git"@,
        Seq::<char>::empty(),
        ),
{
    let segs = seq![owner, repo];
    assert(!has_tree_marker(segs));
    assert(segs.skip(2) =~= Seq::<Seq<char>>::empty());
}

/// Without a `tree/<branch>` marker, the folder is every segment after owner and
/// repository, joined with `/` in the order the URL gives them.
pub proof fn trailing_segments_form_folder(segs: Seq<Seq<char>>)
    requires
        segs.len() >= 2,
        !has_tree_marker(segs),
    ensures
        resolved_target(segs).1 == join_slash(segs.skip(2)),
        segs.len() == 3 ==> resolved_target(segs).1 == segs[2],
        segs.len() == 4 ==> resolved_target(segs).1 == segs[2] + "/"@ + segs[3],
{
    if segs.len() == 3 {
        assert(segs.skip(2) =~= seq![segs[2]]);
    }
    if segs.len() == 4 {
        let rest = segs.skip(2);
        assert(rest.drop_last() =~= seq![segs[2]]);
        assert(join_slash(rest.drop_last()) == segs[2]);
        assert(rest.last() == segs[3]);
    }
}

/// After a `tree/<branch>` marker, the folder is every segment that follows the
/// branch, joined with `/` in order.
pub proof fn tree_marker_skips_branch(segs: Seq<Seq<char>>)
    requires
        has_tree_marker(segs),
    ensures
        resolved_target(segs).1 == join_slash(segs.skip(4)),
{
}

} // verus!
