use vstd::prelude::*;

verus! {

/// The branch a descriptor names when none was given.
pub open spec fn default_branch() -> Seq<char> {
    seq!['m', 'a', 's', 't', 'e', 'r']
}

/// The branch actually synchronized for a requested branch name: an absent or
/// empty name stands for the default branch.
pub open spec fn effective_branch(requested: Option<Seq<char>>) -> Seq<char> {
    match requested {
        Some(b) => if b.len() == 0 { default_branch() } else { b },
        None => default_branch(),
    }
}

/// The full reference name of a local branch.
pub open spec fn branch_ref_of(branch: Seq<char>) -> Seq<char> {
    seq!['r', 'e', 'f', 's', '/', 'h', 'e', 'a', 'd', 's', '/'] + branch
}

/// A descriptor built without a branch, or with an empty one, follows exactly
/// the branch of one built with `master`; normalizing twice changes nothing.
pub proof fn lemma_branch_default(requested: Option<Seq<char>>)
    ensures
        effective_branch(None) == effective_branch(Some(default_branch())),
        effective_branch(Some(Seq::empty())) == effective_branch(Some(default_branch())),
        effective_branch(Some(effective_branch(requested))) == effective_branch(requested),
        branch_ref_of(effective_branch(None)) == branch_ref_of(effective_branch(Some(default_branch()))),
{
}

/// Description of the remote repository to mirror: where it is, the
/// credentials to present, and the branch to follow.
pub struct Repo {
    pub url: String,
    pub user: String,
    pub pass: String,
    pub branch: String,
}

fn master_branch() -> (r: String)
    ensures
        r@ == default_branch(),
{
    let r = String::from_str("master");
    proof {
        reveal_strlit("master");
    }
    assert(r@ =~= default_branch());
    r
}

impl Repo {
    /// A descriptor whose branch is already normalized: never empty.
    pub open spec fn wf(&self) -> bool {
        self.branch@.len() > 0
    }

    /// Builds the descriptor from configured values; an absent or empty branch
    /// becomes `master`.
    pub fn env(url: String, user: String, pass: String, branch: Option<String>) -> (r: Repo)
        ensures
            r.url@ == url@,
            r.user@ == user@,
            r.pass@ == pass@,
            r.branch@ == effective_branch(
                match branch {
                    Some(b) => Some(b@),
                    None => None,
                },
            ),
            r.wf(),
    {
        let branch = match branch {
            Some(b) => if b.as_str().unicode_len() == 0 {
                master_branch()
            } else {
                b
            },
            None => master_branch(),
        };
        Repo { url, user, pass, branch }
    }

    /// The branch this descriptor synchronizes: its own, or `master` when empty.
    pub fn effective_branch(&self) -> (r: String)
        ensures
            r@ == effective_branch(Some(self.branch@)),
    {
        if self.branch.as_str().unicode_len() == 0 {
            master_branch()
        } else {
            self.branch.clone()
        }
    }

    /// The local reference that synchronization moves: `refs/heads/<branch>`.
    pub fn branch_ref(&self) -> (r: String)
        ensures
            r@ == branch_ref_of(effective_branch(Some(self.branch@))),
    {
        let prefix = String::from_str("refs/heads/");
        proof {
            reveal_strlit("refs/heads/");
        }
        let b = self.effective_branch();
        let r = prefix.concat(b.as_str());
        assert(r@ =~= branch_ref_of(effective_branch(Some(self.branch@))));
        r
    }
}

impl Default for Repo {
    /// An empty descriptor following `master`.
    fn default() -> (r: Repo)
        ensures
            r.url@.len() == 0,
            r.user@.len() == 0,
            r.pass@.len() == 0,
            r.branch@ == default_branch(),
    {
        Repo { url: String::new(), user: String::new(), pass: String::new(), branch: master_branch() }
    }
}

impl Clone for Repo {
    fn clone(&self) -> (r: Repo)
        ensures
            r.url@ == self.url@,
            r.user@ == self.user@,
            r.pass@ == self.pass@,
            r.branch@ == self.branch@,
    {
        Repo {
            url: self.url.clone(),
            user: self.user.clone(),
            pass: self.pass.clone(),
            branch: self.branch.clone(),
        }
    }
}

} // verus!
