use vstd::prelude::*;

use crate::error::GitHubFetchError;

verus! {

/// The byte sequences held by a vector of byte vectors.
pub open spec fn bytes_view(v: Seq<Vec<u8>>) -> Seq<Seq<u8>> {
    v.map_values(|x: Vec<u8>| x@)
}

/// ASCII whitespace: space, tab, line feed, vertical tab, form feed, carriage return.
pub open spec fn is_space(b: u8) -> bool {
    b == 32 || b == 9 || b == 10 || b == 11 || b == 12 || b == 13
}

/// `refs/heads/`, the prefix of a branch reference.
pub open spec fn heads_prefix() -> Seq<u8> {
    seq![114u8, 101u8, 102u8, 115u8, 47u8, 104u8, 101u8, 97u8, 100u8, 115u8, 47u8]
}

/// `main`.
pub open spec fn main_name() -> Seq<u8> {
    seq![109u8, 97u8, 105u8, 110u8]
}

/// `master`.
pub open spec fn master_name() -> Seq<u8> {
    seq![109u8, 97u8, 115u8, 116u8, 101u8, 114u8]
}

/// The branch that a reference path names, if it is a branch reference.
pub open spec fn branch_of_ref(w: Seq<u8>) -> Option<Seq<u8>> {
    if w.len() >= heads_prefix().len() && w.take(heads_prefix().len() as int) == heads_prefix() {
        Some(w.skip(heads_prefix().len() as int))
    } else {
        None
    }
}

/// Where a left-to-right reading of a reference listing stands: the branches found so
/// far, how many words the current line has begun (counted up to three), whether a
/// word is in progress, and the bytes of the current word.
pub struct ListingScan {
    pub names: Seq<Seq<u8>>,
    pub words: nat,
    pub in_word: bool,
    pub word: Seq<u8>,
}

/// The branches found once the word in progress ends: the second word of a line is
/// its reference path.
pub open spec fn names_after_word(st: ListingScan) -> Seq<Seq<u8>> {
    if st.in_word && st.words == 2 {
        match branch_of_ref(st.word) {
            Some(b) => st.names.push(b),
            None => st.names,
        }
    } else {
        st.names
    }
}

/// Reads one more byte of a listing.
pub open spec fn scan_byte(st: ListingScan, b: u8) -> ListingScan {
    if b == 10 {
        ListingScan { names: names_after_word(st), words: 0, in_word: false, word: Seq::empty() }
    } else if is_space(b) {
        ListingScan { names: names_after_word(st), words: st.words, in_word: false, word: st.word }
    } else if st.in_word {
        ListingScan { names: st.names, words: st.words, in_word: true, word: st.word.push(b) }
    } else {
        ListingScan {
            names: st.names,
            words: if st.words < 3 { st.words + 1 } else { 3 },
            in_word: true,
            word: seq![b],
        }
    }
}

/// The reading of a whole listing, byte by byte from the start.
pub open spec fn scan_listing(s: Seq<u8>) -> ListingScan
    decreases s.len(),
{
    if s.len() == 0 {
        ListingScan { names: Seq::empty(), words: 0, in_word: false, word: Seq::empty() }
    } else {
        scan_byte(scan_listing(s.drop_last()), s.last())
    }
}

/// The branch names of a `git ls-remote --heads` listing, in order: for each line, the
/// second whitespace-separated word with its `refs/heads/` prefix removed; lines whose
/// second word lacks that prefix, or that have none, give nothing.
pub open spec fn listed_branch_names(s: Seq<u8>) -> Seq<Seq<u8>> {
    names_after_word(scan_listing(s))
}

fn is_space_byte(b: u8) -> (r: bool)
    ensures
        r == is_space(b),
{
    b == 32 || b == 9 || b == 10 || b == 11 || b == 12 || b == 13
}

/// Whether `a` and `b` hold the same bytes.
fn same_bytes(a: &Vec<u8>, b: &Vec<u8>) -> (r: bool)
    ensures
        r == (a@ == b@),
{
    if a.len() != b.len() {
        return false;
    }
    let mut i: usize = 0;
    while i < a.len()
        invariant
            a@.len() == b@.len(),
            i <= a@.len(),
            forall|k: int| 0 <= k < i ==> a@[k] == b@[k],
        decreases a@.len() - i,
    {
        if a[i] != b[i] {
            return false;
        }
        i = i + 1;
    }
    assert(a@ =~= b@);
    true
}

/// The branch a reference path names, if it starts with `refs/heads/`.
fn strip_heads_prefix(w: &Vec<u8>) -> (r: Option<Vec<u8>>)
    ensures
        match r {
            Some(v) => branch_of_ref(w@) == Some(v@),
            None => branch_of_ref(w@) is None,
        },
{
    let prefix: Vec<u8> = vec![114u8, 101u8, 102u8, 115u8, 47u8, 104u8, 101u8, 97u8, 100u8, 115u8, 47u8];
    assert(prefix@ =~= heads_prefix());
    if w.len() < prefix.len() {
        return None;
    }
    let mut i: usize = 0;
    while i < prefix.len()
        invariant
            prefix@ == heads_prefix(),
            w@.len() >= prefix@.len(),
            i <= prefix@.len(),
            forall|k: int| 0 <= k < i ==> w@[k] == prefix@[k],
        decreases prefix@.len() - i,
    {
        if w[i] != prefix[i] {
            assert(w@.take(prefix@.len() as int)[i as int] != heads_prefix()[i as int]);
            return None;
        }
        i = i + 1;
    }
    assert(w@.take(prefix@.len() as int) =~= heads_prefix());
    let mut rest: Vec<u8> = Vec::new();
    let mut j: usize = prefix.len();
    while j < w.len()
        invariant
            prefix@.len() <= j <= w@.len(),
            prefix@.len() == heads_prefix().len(),
            rest@ =~= w@.subrange(prefix@.len() as int, j as int),
        decreases w@.len() - j,
    {
        rest.push(w[j]);
        j = j + 1;
    }
    assert(rest@ =~= w@.skip(heads_prefix().len() as int));
    Some(rest)
}

/// Adds the branch that the word in progress names, where it is a line's second word.
fn close_word(names: &mut Vec<Vec<u8>>, word: &Vec<u8>, words: usize, in_word: bool)
    ensures
        bytes_view(final(names)@) == names_after_word(
            ListingScan { names: bytes_view(old(names)@), words: words as nat, in_word, word: word@ },
        ),
{
    if in_word && words == 2 {
        match strip_heads_prefix(word) {
            Some(b) => {
                let ghost before = names@;
                names.push(b);
                assert(bytes_view(names@) =~= bytes_view(before).push(b@));
            },
            None => {},
        }
    }
}

/// The branch names of a `git ls-remote --heads` listing, in the order they are listed.
pub fn listed_branches(listing: &[u8]) -> (r: Vec<Vec<u8>>)
    ensures
        bytes_view(r@) == listed_branch_names(listing@),
{
    let mut names: Vec<Vec<u8>> = Vec::new();
    let mut words: usize = 0;
    let mut in_word = false;
    let mut word: Vec<u8> = Vec::new();
    let mut i: usize = 0;
    assert(listing@.take(0) =~= Seq::<u8>::empty());
    assert(bytes_view(names@) =~= Seq::<Seq<u8>>::empty());
    assert(word@ =~= Seq::<u8>::empty());
    while i < listing.len()
        invariant
            i <= listing@.len(),
            words <= 3,
            scan_listing(listing@.take(i as int)) == (ListingScan {
                names: bytes_view(names@),
                words: words as nat,
                in_word,
                word: word@,
            }),
        decreases listing@.len() - i,
    {
        let b = listing[i];
        assert(listing@.take(i + 1).drop_last() =~= listing@.take(i as int));
        if b == 10 {
            close_word(&mut names, &word, words, in_word);
            words = 0;
            in_word = false;
            word = Vec::new();
        } else if is_space_byte(b) {
            close_word(&mut names, &word, words, in_word);
            in_word = false;
        } else if in_word {
            word.push(b);
        } else {
            words = if words < 3 {
                words + 1
            } else {
                3
            };
            in_word = true;
            word = Vec::new();
            word.push(b);
            assert(word@ =~= seq![b]);
        }
        i = i + 1;
    }
    assert(listing@.take(listing@.len() as int) =~= listing@);
    close_word(&mut names, &word, words, in_word);
    names
}

/// The branches of a reference listing, given whether the listing command succeeded
/// and what it printed.
pub fn available_branches(success: bool, listing: &[u8]) -> (r: Result<
    Vec<Vec<u8>>,
    GitHubFetchError,
>)
    ensures
        success ==> (r matches Ok(v) && bytes_view(v@) == listed_branch_names(listing@)),
        !success ==> r matches Err(GitHubFetchError::GitCloneError(_)),
{
    if !success {
        return Err(GitHubFetchError::GitCloneError(String::from_str("Failed to fetch remote branches")));
    }
    Ok(listed_branches(listing))
}

/// A default-branch candidate, in priority order.
#[derive(Clone, Copy, Debug, PartialEq, Eq, Structural)]
pub enum Branch {
    Main,
    Master,
}

impl Branch {
    pub open spec fn spec_name(self) -> Seq<char> {
        match self {
            Branch::Main => "main"@,
            Branch::Master => "master"@,
        }
    }

    /// The branch's name.
    pub fn name(&self) -> (r: &'static str)
        ensures
            r@ == self.spec_name(),
    {
        match self {
            Branch::Main => "main",
            Branch::Master => "master",
        }
    }
}

/// Whether `names` holds `name`.
fn holds_name(names: &Vec<Vec<u8>>, name: &Vec<u8>) -> (r: bool)
    ensures
        r == bytes_view(names@).contains(name@),
{
    let ghost all = bytes_view(names@);
    let mut i: usize = 0;
    while i < names.len()
        invariant
            i <= names@.len(),
            all == bytes_view(names@),
            forall|k: int| 0 <= k < i ==> all[k] != name@,
        decreases names@.len() - i,
    {
        if same_bytes(&names[i], name) {
            assert(all[i as int] == name@);
            return true;
        }
        i = i + 1;
    }
    false
}

/// The branch to clone among the remote's branch names: `main` where it exists, else
/// `master` where it exists; with neither, a `GitCloneError`.
pub fn choose_branch(names: &Vec<Vec<u8>>) -> (r: Result<Branch, GitHubFetchError>)
    ensures
        bytes_view(names@).contains(main_name()) ==> r == Ok::<Branch, GitHubFetchError>(
            Branch::Main,
        ),
        !bytes_view(names@).contains(main_name()) && bytes_view(names@).contains(master_name())
            ==> r == Ok::<Branch, GitHubFetchError>(Branch::Master),
        !bytes_view(names@).contains(main_name()) && !bytes_view(names@).contains(master_name())
            ==> r matches Err(GitHubFetchError::GitCloneError(_)),
{
    let main: Vec<u8> = vec![109u8, 97u8, 105u8, 110u8];
    let master: Vec<u8> = vec![109u8, 97u8, 115u8, 116u8, 101u8, 114u8];
    assert(main@ =~= main_name());
    assert(master@ =~= master_name());
    if holds_name(names, &main) {
        Ok(Branch::Main)
    } else if holds_name(names, &master) {
        Ok(Branch::Master)
    } else {
        Err(GitHubFetchError::GitCloneError(String::from_str("no candidate branch found")))
    }
}

} // verus!
