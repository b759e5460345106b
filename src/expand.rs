//! Expansion of input patterns into file paths in batch mode.
use vstd::prelude::*;
use crate::error::{ErrorView, ImcoError};
use crate::pairing::views;

verus! {

/// What `glob::glob` reports for a pattern it rejects, as its message.
pub uninterp spec fn glob_rejection(pattern: Seq<char>) -> Option<Seq<char>>;

/// One pattern's listing: the rejection message, or each matched entry as a
/// path or the message of the failure to read it.
pub type Listing = Result<Vec<Result<String, String>>, String>;

/// A `Listing` seen as character sequences.
pub type ListingView = Result<Seq<Result<Seq<char>, Seq<char>>>, Seq<char>>;

/// A listed entry seen as character sequences.
pub open spec fn entry_view(e: Result<String, String>) -> Result<Seq<char>, Seq<char>> {
    match e {
        Ok(p) => Ok(p@),
        Err(m) => Err(m@),
    }
}

/// A listing seen as character sequences.
pub open spec fn listing_view(l: Listing) -> ListingView {
    match l {
        Ok(es) => Ok(es@.map_values(|e: Result<String, String>| entry_view(e))),
        Err(m) => Err(m@),
    }
}

/// A listing as the glob crate can give it for `pattern`: rejected exactly
/// when the pattern is malformed.
pub open spec fn listing_agrees(pattern: Seq<char>, l: ListingView) -> bool {
    match l {
        Ok(_) => glob_rejection(pattern) is None,
        Err(m) => glob_rejection(pattern) == Some(m),
    }
}

/// Relies on `glob::glob` and the `Paths` it returns: the pattern is rejected
/// on its text alone; the entries come from the file system.
#[verifier::external_body]
fn glob_listing(pattern: &str) -> (r: Listing)
    ensures
        match r {
            Ok(_) => glob_rejection(pattern@) is None,
            Err(m) => glob_rejection(pattern@) == Some(m@),
        },
{
    match glob::glob(pattern) {
        Ok(paths) => Ok(paths.map(|entry| match entry {
            Ok(p) => Ok(p.to_string_lossy().into_owned()),
            Err(e) => Err(e.to_string()),
        }).collect()),
        Err(e) => Err(e.to_string()),
    }
}

/// The paths of a run of entries, or the first entry's failure.
pub open spec fn entries_outcome(es: Seq<Result<Seq<char>, Seq<char>>>) -> Result<
    Seq<Seq<char>>,
    Seq<char>,
>
    decreases es.len(),
{
    if es.len() == 0 {
        Ok(Seq::empty())
    } else {
        match entries_outcome(es.drop_last()) {
            Err(m) => Err(m),
            Ok(ps) => match es.last() {
                Ok(p) => Ok(ps.push(p)),
                Err(m) => Err(m),
            },
        }
    }
}

/// The paths a pattern's listing contributes, or the error it raises.
pub open spec fn listing_outcome(pattern: Seq<char>, l: ListingView) -> Result<
    Seq<Seq<char>>,
    ErrorView,
> {
    match l {
        Err(m) => Err(ErrorView::BatchPattern(m, pattern)),
        Ok(es) => match entries_outcome(es) {
            Ok(ps) => Ok(ps),
            Err(m) => Err(ErrorView::BatchReadEntry(m)),
        },
    }
}

/// Expansion of the first `ls.len()` patterns from their listings, stopping
/// at the first error.
pub open spec fn expansion_of(patterns: Seq<Seq<char>>, ls: Seq<ListingView>) -> Result<
    Seq<Seq<char>>,
    ErrorView,
>
    decreases ls.len(),
{
    if ls.len() == 0 {
        Ok(Seq::empty())
    } else {
        match expansion_of(patterns, ls.drop_last()) {
            Err(e) => Err(e),
            Ok(fs) => match listing_outcome(patterns[ls.len() - 1], ls.last()) {
                Err(e) => Err(e),
                Ok(ps) => Ok(fs + ps),
            },
        }
    }
}

/// The paths of a pattern's listing in order, or the error for the pattern
/// or for the first entry that could not be read.
pub fn listing_paths(pattern: &String, listing: Listing) -> (r: Result<Vec<String>, ImcoError>)
    ensures
        match r {
            Ok(ps) => listing_outcome(pattern@, listing_view(listing)) == Ok::<
                Seq<Seq<char>>,
                ErrorView,
            >(views(ps@)),
            Err(e) => listing_outcome(pattern@, listing_view(listing)) == Err::<
                Seq<Seq<char>>,
                ErrorView,
            >(e@),
        },
{
    let ghost lv = listing_view(listing);
    match listing {
        Err(m) => Err(ImcoError::BatchPattern(m, pattern.clone())),
        Ok(entries) => {
            let ghost es = entries@.map_values(|e: Result<String, String>| entry_view(e));
            let mut paths: Vec<String> = Vec::new();
            let mut i: usize = 0;
            assert(es.take(0) =~= Seq::<Result<Seq<char>, Seq<char>>>::empty());
            assert(views(paths@) =~= Seq::<Seq<char>>::empty());
            while i < entries.len()
                invariant
                    i <= entries.len(),
                    es == entries@.map_values(|e: Result<String, String>| entry_view(e)),
                    lv == listing_view(listing),
                    lv == Ok::<Seq<Result<Seq<char>, Seq<char>>>, Seq<char>>(es),
                    entries_outcome(es.take(i as int)) == Ok::<Seq<Seq<char>>, Seq<char>>(
                        views(paths@),
                    ),
                decreases entries.len() - i,
            {
                assert(es.take(i as int + 1).drop_last() =~= es.take(i as int));
                match &entries[i] {
                    Ok(p) => {
                        let ghost before = views(paths@);
                        paths.push(p.clone());
                        assert(views(paths@) =~= before.push(p@));
                        assert(es.take(i as int + 1).last() == es[i as int]);
                    },
                    Err(m) => {
                        let e = ImcoError::BatchReadEntry(m.clone());
                        assert(entries_outcome(es.take(i as int + 1)) == Err::<
                            Seq<Seq<char>>,
                            Seq<char>,
                        >(m@));
                        proof {
                            lemma_failure_persists(es, i as int + 1);
                        }
                        assert(es.take(es.len() as int) =~= es);
                        assert(entries_outcome(es) == Err::<Seq<Seq<char>>, Seq<char>>(m@));
                        return Err(e);
                    },
                }
                i = i + 1;
            }
            assert(es.take(i as int) =~= es);
            Ok(paths)
        },
    }
}

/// Once a prefix of the entries fails, every longer prefix fails the same way.
proof fn lemma_failure_persists(es: Seq<Result<Seq<char>, Seq<char>>>, k: int)
    requires
        0 <= k <= es.len(),
        entries_outcome(es.take(k)) is Err,
    ensures
        entries_outcome(es.take(es.len() as int)) == entries_outcome(es.take(k)),
    decreases es.len() - k,
{
    if k < es.len() {
        assert(es.take(k + 1).drop_last() =~= es.take(k));
        lemma_failure_persists(es, k + 1);
    }
}

/// Expands each pattern, in order, into the paths it matches, in the order
/// the glob crate lists them; the first malformed pattern or unreadable entry
/// ends the expansion with its error.
pub fn expand_patterns_to_files(patterns: &Vec<String>) -> (r: Result<Vec<String>, ImcoError>)
    ensures
        exists|ls: Seq<ListingView>|
            {
                &&& ls.len() <= patterns.len()
                &&& forall|i: int|
                    0 <= i < ls.len() ==> listing_agrees(patterns[i]@, #[trigger] ls[i])
                &&& match r {
                    Ok(fs) => ls.len() == patterns.len() && expansion_of(views(patterns@), ls)
                        == Ok::<Seq<Seq<char>>, ErrorView>(views(fs@)),
                    Err(e) => expansion_of(views(patterns@), ls) == Err::<
                        Seq<Seq<char>>,
                        ErrorView,
                    >(e@),
                }
            },
{
    let ghost pats = views(patterns@);
    let ghost mut ls: Seq<ListingView> = Seq::empty();
    let mut files: Vec<String> = Vec::new();
    let mut i: usize = 0;
    assert(views(files@) =~= Seq::<Seq<char>>::empty());
    while i < patterns.len()
        invariant
            i <= patterns.len(),
            pats == views(patterns@),
            ls.len() == i,
            forall|j: int| 0 <= j < ls.len() ==> listing_agrees(patterns[j]@, #[trigger] ls[j]),
            expansion_of(pats, ls) == Ok::<Seq<Seq<char>>, ErrorView>(views(files@)),
        decreases patterns.len() - i,
    {
        let listing = glob_listing(patterns[i].as_str());
        let ghost lv = listing_view(listing);
        let ghost prev = ls;
        proof {
            ls = ls.push(lv);
            assert(ls.drop_last() =~= prev);
        }
        match listing_paths(&patterns[i], listing) {
            Ok(mut ps) => {
                let ghost old_files = views(files@);
                let ghost found = views(ps@);
                files.append(&mut ps);
                assert(views(files@) =~= old_files + found);
            },
            Err(e) => {
                return Err(e);
            },
        }
        i = i + 1;
    }
    Ok(files)
}

/// The input paths: in batch mode the expansion of the patterns, otherwise
/// the inputs as given.
pub fn expand_inputs(inputs: &Vec<String>, batch: bool) -> (r: Result<Vec<String>, ImcoError>)
    ensures
        !batch ==> r is Ok && views(r->Ok_0@) == views(inputs@),
        batch ==> exists|ls: Seq<ListingView>|
            {
                &&& ls.len() <= inputs.len()
                &&& forall|i: int|
                    0 <= i < ls.len() ==> listing_agrees(inputs[i]@, #[trigger] ls[i])
                &&& match r {
                    Ok(fs) => ls.len() == inputs.len() && expansion_of(views(inputs@), ls)
                        == Ok::<Seq<Seq<char>>, ErrorView>(views(fs@)),
                    Err(e) => expansion_of(views(inputs@), ls) == Err::<
                        Seq<Seq<char>>,
                        ErrorView,
                    >(e@),
                }
            },
{
    if batch {
        expand_patterns_to_files(inputs)
    } else {
        let mut r: Vec<String> = Vec::new();
        let mut i: usize = 0;
        assert(views(r@) =~= views(inputs@).take(0));
        while i < inputs.len()
            invariant
                i <= inputs.len(),
                views(r@) == views(inputs@).take(i as int),
            decreases inputs.len() - i,
        {
            let ghost before = views(r@);
            r.push(inputs[i].clone());
            assert(views(r@) =~= before.push(inputs[i as int]@));
            assert(views(r@) =~= views(inputs@).take(i as int + 1));
            i = i + 1;
        }
        assert(views(inputs@).take(i as int) =~= views(inputs@));
        Ok(r)
    }
}

} // verus!
