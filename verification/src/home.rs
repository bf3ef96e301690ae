//! The private home directory that the app-server gets, and how it comes by its credentials.

use crate::text::{decimal, decimal_text};
use vstd::prelude::*;
use vstd::string::*;

verus! {

/// The file that holds the credentials, in a home for Codex.
pub const CREDENTIALS_FILE: &'static str = "auth.json";

/// Who may do what with a home: its owner everything, and others nothing.
pub const HOME_MODE: u32 = 0o700;

/// How many names are tried for a home.
pub const HOME_ATTEMPTS: u32 = 10;

/// The name of a home, made of the process's id and a number that is not used twice.
pub open spec fn home_name_of(pid: u32, id: u64) -> Seq<char> {
    "repotracer-codex-home-"@ + decimal(pid as nat) + "-"@ + decimal(id as nat)
}

/// The name of a home.
pub fn home_name(pid: u32, id: u64) -> (name: String)
    ensures
        name@ == home_name_of(pid, id),
{
    "repotracer-codex-home-".to_string().concat(decimal_text(pid as u64).as_str()).concat(
        "-",
    ).concat(decimal_text(id).as_str())
}

/// What came of creating a directory.
#[derive(Clone, Copy, Debug, PartialEq, Eq)]
pub enum Creation {
    Created,
    AlreadyExists,
    Failed,
}

/// What is to be done about a home.
#[derive(Debug)]
pub enum HomeStep {
    /// The directory is the home.
    Settle,
    /// Another name is to be tried.
    Retry(HomeSearch),
    /// No more names are tried.
    GiveUp,
    /// The error is final.
    Fail,
}

/// The search for a home: how many names were taken.
#[derive(Debug)]
pub struct HomeSearch {
    taken: u32,
}

/// How far the search for a home has come.
pub enum SearchState {
    /// The names tried so far, of which there are `taken`, were taken.
    Searching { taken: nat },
    Settled,
    GaveUp,
    Failed,
}

/// What follows from trying a name when `taken` names were taken.
pub open spec fn search_step(taken: nat, creation: Creation) -> SearchState {
    match creation {
        Creation::Created => SearchState::Settled,
        Creation::AlreadyExists => if taken + 1 < HOME_ATTEMPTS {
            SearchState::Searching { taken: taken + 1 }
        } else {
            SearchState::GaveUp
        },
        Creation::Failed => SearchState::Failed,
    }
}

/// What follows from trying one name after the other, until the search ends.
pub open spec fn searched(creations: Seq<Creation>) -> SearchState
    decreases creations.len(),
{
    if creations.len() == 0 {
        SearchState::Searching { taken: 0 }
    } else {
        match searched(creations.drop_last()) {
            SearchState::Searching { taken } => search_step(taken, creations.last()),
            end => end,
        }
    }
}

impl HomeStep {
    pub open spec fn view(&self) -> SearchState {
        match *self {
            HomeStep::Settle => SearchState::Settled,
            HomeStep::Retry(search) => SearchState::Searching { taken: search.taken() },
            HomeStep::GiveUp => SearchState::GaveUp,
            HomeStep::Fail => SearchState::Failed,
        }
    }
}

impl HomeSearch {
    /// How many names were taken.
    pub closed spec fn taken(&self) -> nat {
        self.taken as nat
    }

    #[verifier::type_invariant]
    spec fn is_open(self) -> bool {
        self.taken < HOME_ATTEMPTS
    }

    /// No name was tried yet.
    pub fn new() -> (search: HomeSearch)
        ensures
            search.taken() == 0,
    {
        HomeSearch { taken: 0 }
    }

    /// Goes on with what came of the next name.
    pub fn tried(self, creation: Creation) -> (step: HomeStep)
        ensures
            self.taken() < HOME_ATTEMPTS,
            step@ == search_step(self.taken(), creation),
    {
        proof {
            use_type_invariant(&self);
        }
        match creation {
            Creation::Created => HomeStep::Settle,
            Creation::AlreadyExists => if self.taken + 1 < HOME_ATTEMPTS {
                HomeStep::Retry(HomeSearch { taken: self.taken + 1 })
            } else {
                HomeStep::GiveUp
            },
            Creation::Failed => HomeStep::Fail,
        }
    }
}

/// The name at `n` is the first that was not taken, and one of those that are tried.
pub open spec fn is_first_free(creations: Seq<Creation>, n: int) -> bool {
    &&& 0 <= n < creations.len()
    &&& n < HOME_ATTEMPTS
    &&& creations[n] != Creation::AlreadyExists
    &&& forall|i: int| 0 <= i < n ==> #[trigger] creations[i] == Creation::AlreadyExists
}

/// The search takes a directory for the home only if it was created for it just then, after all
/// earlier names were taken; it fails where that creation did, and gives up after ten taken names.
pub proof fn a_home_is_created_for_itself(creations: Seq<Creation>)
    ensures
        searched(creations) is Settled <==> exists|n: int|
            #[trigger] is_first_free(creations, n) && creations[n] == Creation::Created,
        searched(creations) is Failed <==> exists|n: int|
            #[trigger] is_first_free(creations, n) && creations[n] == Creation::Failed,
        searched(creations) is GaveUp <==> creations.len() >= HOME_ATTEMPTS && forall|i: int|
            0 <= i < HOME_ATTEMPTS ==> #[trigger] creations[i] == Creation::AlreadyExists,
{
    lemma_searched(creations);
    if creations.len() > 0 {
        assert forall|n: int, m: int| #[trigger]
            is_first_free(creations, n) && #[trigger] is_first_free(creations, m) implies n
            == m by {
            if n < m {
                assert(creations[n] == Creation::AlreadyExists);
            } else if m < n {
                assert(creations[m] == Creation::AlreadyExists);
            }
        }
    }
}

/// How far a search has come, by the names that were taken.
proof fn lemma_searched(creations: Seq<Creation>)
    ensures
        match searched(creations) {
            SearchState::Searching { taken } => taken == creations.len() && taken < HOME_ATTEMPTS
                && forall|i: int|
                0 <= i < creations.len() ==> #[trigger] creations[i] == Creation::AlreadyExists,
            SearchState::Settled => exists|n: int|
                #[trigger] is_first_free(creations, n) && creations[n] == Creation::Created,
            SearchState::Failed => exists|n: int|
                #[trigger] is_first_free(creations, n) && creations[n] == Creation::Failed,
            SearchState::GaveUp => creations.len() >= HOME_ATTEMPTS && forall|i: int|
                0 <= i < HOME_ATTEMPTS ==> #[trigger] creations[i] == Creation::AlreadyExists,
        },
    decreases creations.len(),
{
    if creations.len() > 0 {
        let front = creations.drop_last();
        let last = creations.len() - 1;
        lemma_searched(front);
        assert(forall|i: int| 0 <= i < front.len() ==> front[i] == creations[i]);
        match searched(front) {
            SearchState::Searching { taken } => {
                assert(forall|i: int|
                    0 <= i < last ==> #[trigger] creations[i] == Creation::AlreadyExists) by {
                    assert(forall|i: int| 0 <= i < last ==> #[trigger] creations[i] == front[i]);
                }
                if creations[last] != Creation::AlreadyExists {
                    assert(is_first_free(creations, last));
                }
            },
            SearchState::GaveUp => {
                assert(forall|i: int|
                    0 <= i < HOME_ATTEMPTS ==> #[trigger] creations[i] == front[i]);
            },
            _ => {
                let n = choose|n: int| #[trigger]
                    is_first_free(front, n) && front[n] != Creation::AlreadyExists;
                assert(forall|i: int| 0 <= i < n ==> #[trigger] creations[i] == front[i]);
                assert(is_first_free(creations, n));
                assert(creations[n] == front[n]);
            },
        }
    }
}

/// Which directory the credentials are looked for under.
#[derive(Clone, Copy, Debug, PartialEq, Eq)]
pub enum CredentialBase {
    /// The one that is configured for Codex.
    CodexHome,
    /// The user's own.
    UserHome,
}

/// Where the credentials are looked for: under the configured home, or else under `.codex` in the
/// user's, or else nowhere.
pub open spec fn credential_path_of(
    codex_home: bool,
    user_home: bool,
) -> Option<(CredentialBase, Seq<Seq<char>>)> {
    if codex_home {
        Some((CredentialBase::CodexHome, seq![CREDENTIALS_FILE@]))
    } else if user_home {
        Some((CredentialBase::UserHome, seq![".codex"@, CREDENTIALS_FILE@]))
    } else {
        None
    }
}

/// Where the credentials are looked for, as a directory and the names below it, given which of the
/// directories are known.
pub fn credential_path(codex_home: bool, user_home: bool) -> (path: Option<
    (CredentialBase, Vec<String>),
>)
    ensures
        match path {
            Some((base, names)) => credential_path_of(codex_home, user_home) == Some(
                (base, crate::text::contents(names@)),
            ),
            None => credential_path_of(codex_home, user_home) is None,
        },
{
    if codex_home {
        let names = vec![CREDENTIALS_FILE.to_string()];
        assert(crate::text::contents(names@) == seq![CREDENTIALS_FILE@]);
        Some((CredentialBase::CodexHome, names))
    } else if user_home {
        let names = vec![".codex".to_string(), CREDENTIALS_FILE.to_string()];
        assert(crate::text::contents(names@) == seq![".codex"@, CREDENTIALS_FILE@]);
        Some((CredentialBase::UserHome, names))
    } else {
        None
    }
}

/// A way to make a file available at another path.
#[derive(Clone, Copy, Debug, PartialEq, Eq)]
pub enum LinkMethod {
    SymbolicLink,
    HardLink,
    Copy,
}

/// What is to be done about a link.
#[derive(Clone, Copy, Debug, PartialEq, Eq)]
pub enum LinkStep {
    /// There is nothing to link.
    NotNeeded,
    Linked,
    Try(LinkMethod),
    Fail,
}

/// The way that is tried first.
pub open spec fn first_method(symbolic_links: bool) -> LinkMethod {
    if symbolic_links {
        LinkMethod::SymbolicLink
    } else {
        LinkMethod::HardLink
    }
}

/// What is to be done about the credentials first: they are linked where they are a file.
pub open spec fn link_start(is_file: bool, symbolic_links: bool) -> LinkStep {
    if is_file {
        LinkStep::Try(first_method(symbolic_links))
    } else {
        LinkStep::NotNeeded
    }
}

impl LinkStep {
    /// Starts to make the credentials available, given whether they are a file.
    pub fn start(is_file: bool, symbolic_links: bool) -> (step: LinkStep)
        ensures
            step == link_start(is_file, symbolic_links),
    {
        if is_file {
            LinkStep::Try(LinkMethod::first(symbolic_links))
        } else {
            LinkStep::NotNeeded
        }
    }
}

impl LinkMethod {
    /// The way that is tried first.
    pub fn first(symbolic_links: bool) -> (method: LinkMethod)
        ensures
            method == first_method(symbolic_links),
    {
        if symbolic_links {
            LinkMethod::SymbolicLink
        } else {
            LinkMethod::HardLink
        }
    }

    /// Goes on with what came of this way.
    pub fn tried(self, linked: bool) -> (step: LinkStep)
        ensures
            step == link_step(self, linked),
            step is Fail <==> self is Copy && !linked,
    {
        if linked {
            LinkStep::Linked
        } else {
            match self {
                LinkMethod::SymbolicLink => LinkStep::Try(LinkMethod::HardLink),
                LinkMethod::HardLink => LinkStep::Try(LinkMethod::Copy),
                LinkMethod::Copy => LinkStep::Fail,
            }
        }
    }
}

/// What follows from trying a way: where it did not work, the next one, and none after copying.
pub open spec fn link_step(method: LinkMethod, linked: bool) -> LinkStep {
    if linked {
        LinkStep::Linked
    } else {
        match method {
            LinkMethod::SymbolicLink => LinkStep::Try(LinkMethod::HardLink),
            LinkMethod::HardLink => LinkStep::Try(LinkMethod::Copy),
            LinkMethod::Copy => LinkStep::Fail,
        }
    }
}

/// What follows from trying one way after the other, until one works or none is left.
pub open spec fn linked(is_file: bool, symbolic_links: bool, attempts: Seq<bool>) -> LinkStep
    decreases attempts.len(),
{
    if attempts.len() == 0 {
        link_start(is_file, symbolic_links)
    } else {
        match linked(is_file, symbolic_links, attempts.drop_last()) {
            LinkStep::Try(method) => link_step(method, attempts.last()),
            end => end,
        }
    }
}

/// How many ways there are.
pub open spec fn link_ways(symbolic_links: bool) -> int {
    if symbolic_links {
        3
    } else {
        2
    }
}

/// The first ways that were tried did not work.
pub open spec fn none_worked(attempts: Seq<bool>, n: int) -> bool {
    forall|i: int| 0 <= i < n ==> !#[trigger] attempts[i]
}

/// The credentials are made available if and only if they are a file and one of the ways works.
/// Where they are no file nothing is tried; it fails only when every way was tried and none worked.
pub proof fn a_file_is_linked_one_way_or_another(
    is_file: bool,
    symbolic_links: bool,
    attempts: Seq<bool>,
)
    ensures
        ({
            let ways = link_ways(symbolic_links);
            let step = linked(is_file, symbolic_links, attempts);
            let tried = if attempts.len() < ways {
                attempts.len() as int
            } else {
                ways
            };
            &&& step is NotNeeded <==> !is_file
            &&& step is Linked <==> is_file && !none_worked(attempts, tried)
            &&& step is Fail <==> is_file && tried == ways && none_worked(attempts, tried)
        }),
{
    lemma_linked(is_file, symbolic_links, attempts);
}

/// Which way comes next, by the ways that were tried.
proof fn lemma_linked(is_file: bool, symbolic_links: bool, attempts: Seq<bool>)
    ensures
        ({
            let ways = link_ways(symbolic_links);
            let tried = if attempts.len() < ways {
                attempts.len() as int
            } else {
                ways
            };
            linked(is_file, symbolic_links, attempts) == if !is_file {
                LinkStep::NotNeeded
            } else if !none_worked(attempts, tried) {
                LinkStep::Linked
            } else if tried == ways {
                LinkStep::Fail
            } else if tried == ways - 1 {
                LinkStep::Try(LinkMethod::Copy)
            } else if tried == ways - 2 {
                LinkStep::Try(LinkMethod::HardLink)
            } else {
                LinkStep::Try(LinkMethod::SymbolicLink)
            }
        }),
    decreases attempts.len(),
{
    if attempts.len() > 0 {
        let front = attempts.drop_last();
        let n = front.len() as int;
        lemma_linked(is_file, symbolic_links, front);
        assert(forall|i: int| 0 <= i < n ==> #[trigger] attempts[i] == front[i]);
        assert(forall|i: int| 0 <= i < n ==> attempts[i] == #[trigger] front[i]);
        let ways = link_ways(symbolic_links);
        if n < ways {
            assert(none_worked(attempts, n + 1) <==> none_worked(front, n) && !attempts[n]);
        } else {
            assert(none_worked(attempts, ways) <==> none_worked(front, ways));
        }
    }
}

/// Where a home is configured for Codex, the user's own makes no difference.
pub proof fn a_configured_home_decides_alone(user_home: bool)
    ensures
        credential_path_of(true, user_home) == Some(
            (CredentialBase::CodexHome, seq![CREDENTIALS_FILE@]),
        ),
{
}

/// The decimal digits are digits.
proof fn lemma_decimal_digits(n: nat)
    ensures
        decimal(n).len() > 0,
        forall|i: int| 0 <= i < decimal(n).len() ==> '0' <= #[trigger] decimal(n)[i] <= '9',
    decreases n,
{
    if n >= 10 {
        lemma_decimal_digits(n / 10);
    }
}

/// Different numbers have different digits.
proof fn lemma_decimal_injective(a: nat, b: nat)
    requires
        decimal(a) == decimal(b),
    ensures
        a == b,
    decreases a,
{
    lemma_decimal_digits(a / 10);
    lemma_decimal_digits(b / 10);
    assert(decimal(a).last() == ('0' as u32 + a % 10) as char);
    assert(decimal(b).last() == ('0' as u32 + b % 10) as char);
    if a >= 10 && b >= 10 {
        assert(decimal(a).drop_last() == decimal(a / 10));
        assert(decimal(b).drop_last() == decimal(b / 10));
        lemma_decimal_injective(a / 10, b / 10);
    }
}

/// Two homes have the same name only if they are of the same process and number: a number that is
/// not used twice makes a name that is not used twice.
pub proof fn home_names_are_unique(pid: u32, id: u64, other_pid: u32, other_id: u64)
    requires
        home_name_of(pid, id) == home_name_of(other_pid, other_id),
    ensures
        pid == other_pid,
        id == other_id,
{
    let p = decimal(pid as nat);
    let q = decimal(other_pid as nat);
    let i = decimal(id as nat);
    let j = decimal(other_id as nat);
    let head = "repotracer-codex-home-"@;
    let n = head.len() as int;
    reveal_strlit("-");
    lemma_decimal_digits(pid as nat);
    lemma_decimal_digits(other_pid as nat);
    let a = home_name_of(pid, id);
    let b = home_name_of(other_pid, other_id);
    assert(a[n + p.len()] == '-');
    assert(b[n + q.len()] == '-');
    if p.len() < q.len() {
        assert(b[n + p.len()] == q[p.len() as int]);
    } else if q.len() < p.len() {
        assert(a[n + q.len()] == p[q.len() as int]);
    }
    assert(p == a.subrange(n, n + p.len()));
    assert(q == b.subrange(n, n + q.len()));
    assert(i == a.skip(n + p.len() + 1));
    assert(j == b.skip(n + q.len() + 1));
    lemma_decimal_injective(pid as nat, other_pid as nat);
    lemma_decimal_injective(id as nat, other_id as nat);
}

/// A home is named by the process and a number, and nothing else.
pub proof fn a_home_is_named_by_process_and_number(pid: u32, id: u64)
    ensures
        home_name_of(pid, id) == "repotracer-codex-home-"@ + decimal(pid as nat) + "-"@ + decimal(
            id as nat,
        ),
        HOME_ATTEMPTS == 10,
        HOME_MODE == 0o700,
{
}

/// The credentials are looked for in one place: under the home that is configured for Codex, else
/// under `.codex` in the user's own, and nowhere where neither is known.
pub proof fn the_credentials_have_one_place(user_home: bool)
    ensures
        credential_path_of(true, user_home) == Some((CredentialBase::CodexHome, seq!["auth.json"@])),
        credential_path_of(false, true) == Some(
            (CredentialBase::UserHome, seq![".codex"@, "auth.json"@]),
        ),
        credential_path_of(false, false) is None,
{
}

/// The ways are tried in order: a symbolic link where there are such links, then a hard link, and
/// a copy last. A way that works is the last that is tried.
pub proof fn the_ways_to_link_are_tried_in_order()
    ensures
        link_start(true, true) == LinkStep::Try(LinkMethod::SymbolicLink),
        link_start(true, false) == LinkStep::Try(LinkMethod::HardLink),
        link_step(LinkMethod::SymbolicLink, false) == LinkStep::Try(LinkMethod::HardLink),
        link_step(LinkMethod::HardLink, false) == LinkStep::Try(LinkMethod::Copy),
        link_step(LinkMethod::Copy, false) == LinkStep::Fail,
        forall|method: LinkMethod| #[trigger] link_step(method, true) == LinkStep::Linked,
        forall|symbolic_links: bool| #[trigger]
            link_start(false, symbolic_links) == LinkStep::NotNeeded,
{
}

/// A directory that was created is the home, one that is there already makes way for the next
/// name, and any other failure is final; so it goes for the first ten names.
pub proof fn a_name_that_is_taken_makes_way_for_the_next(taken: nat)
    requires
        taken < 10,
    ensures
        search_step(taken, Creation::Created) is Settled,
        search_step(taken, Creation::Failed) is Failed,
        taken < 9 ==> search_step(taken, Creation::AlreadyExists) == (SearchState::Searching {
            taken: taken + 1,
        }),
        taken == 9 ==> search_step(taken, Creation::AlreadyExists) is GaveUp,
{
}

/// Each step of the search is what it says: a home that is there, a search that goes on where it
/// is, one that was given up, or one that failed.
pub proof fn a_step_is_what_it_says(search: HomeSearch)
    ensures
        HomeStep::Settle@ is Settled,
        HomeStep::Retry(search)@ == (SearchState::Searching { taken: search.taken() }),
        HomeStep::GiveUp@ is GaveUp,
        HomeStep::Fail@ is Failed,
{
}

} // verus!
