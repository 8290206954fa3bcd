use vstd::prelude::*;

use crate::error::GitHubFetchError;

verus! {

/// The (file name, text) pairs held by a vector of string pairs.
pub open spec fn files_view(v: Seq<(String, String)>) -> Seq<(Seq<char>, Seq<char>)> {
    v.map_values(|p: (String, String)| (p.0@, p.1@))
}

/// The block that one file contributes: a header line naming it, its text, a blank line.
pub open spec fn file_block(folder: Seq<char>, name: Seq<char>, text: Seq<char>) -> Seq<char> {
    "File: "@ + folder + "/"@ + name + "\n"@ + text + "\n\n"@
}

/// The blocks of all files, in the order given.
pub open spec fn aggregated(folder: Seq<char>, files: Seq<(Seq<char>, Seq<char>)>) -> Seq<char>
    decreases files.len(),
{
    if files.len() == 0 {
        Seq::empty()
    } else {
        aggregated(folder, files.drop_last()) + file_block(
            folder,
            files.last().0,
            files.last().1,
        )
    }
}

/// The message for a folder that the clone does not hold.
pub open spec fn missing_folder_message(folder: Seq<char>) -> Seq<char> {
    "Folder "@ + folder + " not found in the repository."@
}

/// The message for a folder path that names something other than a directory.
pub open spec fn not_directory_message(folder: Seq<char>) -> Seq<char> {
    "Folder "@ + folder + " is not a directory."@
}

/// Whether the folder can be aggregated, given whether its path exists in the clone and
/// whether it is a directory.
pub fn folder_outcome(exists: bool, is_dir: bool, folder: &str) -> (r: Result<
    (),
    GitHubFetchError,
>)
    ensures
        !exists ==> (r matches Err(GitHubFetchError::InvalidUrlError(m)) && m@
            == missing_folder_message(folder@)),
        exists && !is_dir ==> (r matches Err(GitHubFetchError::InvalidUrlError(m)) && m@
            == not_directory_message(folder@)),
        exists && is_dir ==> r is Ok,
{
    if !exists {
        let mut m = String::from_str("Folder ");
        m.append(folder);
        m.append(" not found in the repository.");
        Err(GitHubFetchError::InvalidUrlError(m))
    } else if !is_dir {
        let mut m = String::from_str("Folder ");
        m.append(folder);
        m.append(" is not a directory.");
        Err(GitHubFetchError::InvalidUrlError(m))
    } else {
        Ok(())
    }
}

/// Concatenates the files of `folder`, each as `File: <folder>/<name>`, a line feed,
/// its text and a blank line, in the order given.
pub fn render_contents(folder: &str, files: &Vec<(String, String)>) -> (r: String)
    ensures
        r@ == aggregated(folder@, files_view(files@)),
{
    let ghost all = files_view(files@);
    let mut out = String::new();
    let mut i: usize = 0;
    assert(all.take(0) =~= Seq::<(Seq<char>, Seq<char>)>::empty());
    while i < files.len()
        invariant
            i <= files@.len(),
            all == files_view(files@),
            out@ == aggregated(folder@, all.take(i as int)),
        decreases files@.len() - i,
    {
        let (name, text) = &files[i];
        out.append("File: ");
        out.append(folder);
        out.append("/");
        out.append(name.as_str());
        out.append("\n");
        out.append(text.as_str());
        out.append("\n\n");
        proof {
            let next = all.take(i + 1);
            assert(next.drop_last() =~= all.take(i as int));
            assert(next.last() == (name@, text@));
            assert(out@ =~= aggregated(folder@, all.take(i as int)) + file_block(
                folder@,
                name@,
                text@,
            ));
        }
        i = i + 1;
    }
    assert(all.take(files@.len() as int) =~= all);
    out
}

/// Aggregation keeps the listing order: the text for one list of files followed by
/// another is the text for the first followed by the text for the second.
pub proof fn aggregation_follows_listing_order(
    folder: Seq<char>,
    first: Seq<(Seq<char>, Seq<char>)>,
    second: Seq<(Seq<char>, Seq<char>)>,
)
    ensures
        aggregated(folder, first + second) == aggregated(folder, first) + aggregated(
            folder,
            second,
        ),
    decreases second.len(),
{
    if second.len() == 0 {
        assert(first + second =~= first);
        assert(aggregated(folder, first) + Seq::<char>::empty() =~= aggregated(folder, first));
    } else {
        let all = first + second;
        assert(all.drop_last() =~= first + second.drop_last());
        assert(all.last() == second.last());
        aggregation_follows_listing_order(folder, first, second.drop_last());
        let b = file_block(folder, second.last().0, second.last().1);
        assert(aggregated(folder, first) + aggregated(folder, second.drop_last()) + b
            =~= aggregated(folder, first) + (aggregated(folder, second.drop_last()) + b));
    }
}

/// With no files, the text is empty; each file adds exactly its own block.
pub proof fn aggregation_of_single_file(folder: Seq<char>, name: Seq<char>, text: Seq<char>)
    ensures
        aggregated(folder, Seq::empty()) == Seq::<char>::empty(),
        aggregated(folder, seq![(name, text)]) == file_block(folder, name, text),
{
    let one = seq![(name, text)];
    assert(one.drop_last() =~= Seq::<(Seq<char>, Seq<char>)>::empty());
    assert(Seq::<char>::empty() + file_block(folder, name, text) =~= file_block(folder, name, text));
}

} // verus!
