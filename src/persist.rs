use vstd::prelude::*;

verus! {

/// A repository name without its `.git` suffix, where it has one.
pub open spec fn without_git_suffix(name: Seq<char>) -> Seq<char> {
    if name.len() >= 4 && name.skip(name.len() - 4) == seq!['.', 'g', 'i', 't'] {
        name.take(name.len() - 4)
    } else {
        name
    }
}

/// A folder path with each `/` turned into `_`.
pub open spec fn flattened(path: Seq<char>) -> Seq<char> {
    path.map_values(|c: char|
        if c == '/' {
            '_'
        } else {
            c
        }
    )
}

/// The name under which aggregated text is stored:
/// `<repository name without .git>_<folder with / as _>.txt`.
pub open spec fn stored_name(repo: Seq<char>, folder: Seq<char>) -> Seq<char> {
    without_git_suffix(repo) + seq!['_'] + flattened(folder) + seq!['.', 't', 'x', 't']
}

/// The file name for the aggregated text of `folder` in repository `repo`.
pub fn persisted_file_name(repo: &str, folder: &str) -> (r: String)
    ensures
        r@ == stored_name(repo@, folder@),
{
    proof {
        reveal_strlit("_");
        reveal_strlit(".txt");
    }
    let n = repo.unicode_len();
    let mut keep = n;
    if n >= 4 && repo.get_char(n - 4) == '.' && repo.get_char(n - 3) == 'g' && repo.get_char(
        n - 2,
    ) == 'i' && repo.get_char(n - 1) == 't' {
        keep = n - 4;
        assert(repo@.skip(n - 4) =~= seq!['.', 'g', 'i', 't']);
    } else if n >= 4 {
        assert(repo@.skip(n - 4) != seq!['.', 'g', 'i', 't']) by {
            if repo@.skip(n - 4) == seq!['.', 'g', 'i', 't'] {
                assert(repo@.skip(n - 4)[0] == repo@[n - 4]);
                assert(repo@.skip(n - 4)[1] == repo@[n - 3]);
                assert(repo@.skip(n - 4)[2] == repo@[n - 2]);
                assert(repo@.skip(n - 4)[3] == repo@[n - 1]);
            }
        }
    }
    let mut out = String::from_str(repo.substring_char(0, keep));
    assert(repo@.subrange(0, keep as int) =~= without_git_suffix(repo@));
    out.append("_");
    let ghost head = out@;
    let m = folder.unicode_len();
    let mut i: usize = 0;
    while i < m
        invariant
            m == folder@.len(),
            i <= m,
            head == without_git_suffix(repo@) + seq!['_'],
            out@ == head + flattened(folder@.take(i as int)),
        decreases m - i,
    {
        let c = folder.get_char(i);
        let ghost before = out@;
        if c == '/' {
            proof {
                reveal_strlit("_");
            }
            out.append("_");
        } else {
            let one = folder.substring_char(i, i + 1);
            assert(one@ =~= seq![c]);
            out.append(one);
        }
        assert(out@ =~= before.push(
            if c == '/' {
                '_'
            } else {
                c
            },
        ));
        assert(flattened(folder@.take(i + 1)) =~= flattened(folder@.take(i as int)).push(
            if c == '/' {
                '_'
            } else {
                c
            },
        ));
        i = i + 1;
    }
    assert(folder@.take(m as int) =~= folder@);
    out.append(".txt");
    assert(out@ =~= stored_name(repo@, folder@));
    out
}

} // verus!
