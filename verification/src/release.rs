//! Release and promotion plans.
//!
//! The release tooling runs a fixed sequence of version-control and file
//! commands whose order and dry-run gating are the decisions worth
//! stating; executing them is plain process work left to the surrounding
//! binary. The plan builders return the exact ordered step sequence, and
//! the small string computations (the changelog file name, the promotion
//! branch name, the latest release tag) are verified here.

use vstd::prelude::*;

use vstd::string::{StrSliceExecFns, StringExecFns};

verus! {

/// The decimal digit character of `d`.
pub open spec fn spec_digit_char(d: int) -> char {
    if d == 0 {
        '0'
    } else if d == 1 {
        '1'
    } else if d == 2 {
        '2'
    } else if d == 3 {
        '3'
    } else if d == 4 {
        '4'
    } else if d == 5 {
        '5'
    } else if d == 6 {
        '6'
    } else if d == 7 {
        '7'
    } else if d == 8 {
        '8'
    } else {
        '9'
    }
}

/// The decimal digits of `n`, most significant first.
pub open spec fn spec_decimal_digits(n: int) -> Seq<char>
    decreases n,
{
    if n < 10 {
        seq![spec_digit_char(n)]
    } else {
        spec_decimal_digits(n / 10).push(spec_digit_char(n % 10))
    }
}

fn digit_str(d: usize) -> (r: &'static str)
    requires
        d < 10,
    ensures
        r@ == seq![spec_digit_char(d as int)],
{
    let r: &'static str = if d == 0 {
        "0"
    } else if d == 1 {
        "1"
    } else if d == 2 {
        "2"
    } else if d == 3 {
        "3"
    } else if d == 4 {
        "4"
    } else if d == 5 {
        "5"
    } else if d == 6 {
        "6"
    } else if d == 7 {
        "7"
    } else if d == 8 {
        "8"
    } else {
        "9"
    };
    proof {
        reveal_strlit("0");
        reveal_strlit("1");
        reveal_strlit("2");
        reveal_strlit("3");
        reveal_strlit("4");
        reveal_strlit("5");
        reveal_strlit("6");
        reveal_strlit("7");
        reveal_strlit("8");
        reveal_strlit("9");
        assert(r@ =~= seq![spec_digit_char(d as int)]);
    }
    r
}

/// `n` written in decimal.
pub fn usize_to_decimal(n: usize) -> (r: String)
    ensures
        r@ == spec_decimal_digits(n as int),
    decreases n,
{
    if n < 10 {
        let s: String = <String as StringExecFns>::from_str(digit_str(n));
        s
    } else {
        let mut s = usize_to_decimal(n / 10);
        s.append(digit_str(n % 10));
        s
    }
}

/// The file name of the changelog post: the date, a marker, and the
/// running number.
pub fn changelog_filename(today: &String, changelog_n: usize) -> (r: String)
    ensures
        r@ == today@ + "-changelog-"@ + spec_decimal_digits(changelog_n as int) + ".adoc"@,
{
    let mut s = today.clone();
    s.append("-changelog-");
    let num = usize_to_decimal(changelog_n);
    s.append(num.as_str());
    s.append(".adoc");
    proof {
        assert(s@ =~= today@ + "-changelog-"@ + spec_decimal_digits(changelog_n as int)
            + ".adoc"@);
    }
    s
}

/// The branch name used to promote into the host repository.
pub fn promote_branch_name(date: &String) -> (r: String)
    ensures
        r@ == "rust-analyzer-"@ + date@,
{
    let mut s: String = <String as StringExecFns>::from_str("rust-analyzer-");
    s.append(date.as_str());
    proof {
        assert(s@ =~= "rust-analyzer-"@ + date@);
    }
    s
}

/// Whether a tag names a dated release: ten characters starting with a
/// decimal digit.
pub open spec fn spec_is_release_tag(s: Seq<char>) -> bool {
    s.len() == 10 && '0' <= s[0] <= '9'
}

pub fn is_release_tag(s: &String) -> (r: bool)
    ensures
        r == spec_is_release_tag(s@),
{
    let n = s.as_str().unicode_len();
    if n != 10 {
        return false;
    }
    let c = s.as_str().get_char(0);
    '0' <= c && c <= '9'
}

/// The last release tag among the first `i` lines.
pub open spec fn spec_latest_release_tag_upto(tags: Seq<String>, i: int) -> Option<String>
    decreases i,
{
    if i <= 0 || i > tags.len() {
        Option::None
    } else if spec_is_release_tag(tags[i - 1]@) {
        Option::Some(tags[i - 1])
    } else {
        spec_latest_release_tag_upto(tags, i - 1)
    }
}

/// The most recent release tag in the tag listing: the last line that has
/// the release-tag shape.
pub fn latest_release_tag(tags: &Vec<String>) -> (r: Option<String>)
    ensures
        r == spec_latest_release_tag_upto(tags@, tags@.len() as int),
{
    if tags.len() == 0 {
        return None;
    }
    let mut i: usize = tags.len();
    loop
        invariant
            0 < i <= tags.len(),
            spec_latest_release_tag_upto(tags@, tags@.len() as int)
                == spec_latest_release_tag_upto(tags@, i as int),
        decreases i,
    {
        if is_release_tag(&tags[i - 1]) {
            let t = tags[i - 1].clone();
            return Some(t);
        }
        if i == 1 {
            proof {
                reveal_with_fuel(spec_latest_release_tag_upto, 2);
            }
            return None;
        }
        i = i - 1;
    }
}

/// One step of the release run. Command steps name their fixed command;
/// parameterized values (the changelog file name) come from the verified
/// string builders.
#[derive(Clone, Copy, Debug, PartialEq, Eq, Structural)]
pub enum ReleaseStep {
    /// `git switch release`, in the working tree.
    GitSwitchRelease,
    /// `git fetch upstream --tags --force`.
    GitFetchUpstreamTags,
    /// `git reset --hard tags/nightly`.
    GitResetHardNightly,
    /// `git push --force`.
    GitPushForce,
    /// Run the source-generation tests that refresh the manual.
    CargoTestSourcegen,
    /// `git switch src`, in the website working tree.
    WebsiteSwitchSrc,
    /// `git pull`, in the website working tree.
    WebsitePull,
    /// Copy one generated manual page to the website; the payload selects
    /// which of the five pages.
    CopyDoc(DocFile),
    /// Write the changelog post (named by `changelog_filename`).
    WriteChangelog,
}

/// The five generated manual pages that are copied to the website.
#[derive(Clone, Copy, Debug, PartialEq, Eq, Structural)]
pub enum DocFile {
    Manual,
    GeneratedAssists,
    GeneratedConfig,
    GeneratedDiagnostic,
    GeneratedFeatures,
}

/// The release step sequence. A dry run skips the four branch-mutating
/// commands at the front; everything that follows is unconditional.
pub open spec fn spec_release_plan(dry_run: bool) -> Seq<ReleaseStep> {
    let head: Seq<ReleaseStep> = if dry_run {
        Seq::empty()
    } else {
        seq![
            ReleaseStep::GitSwitchRelease,
            ReleaseStep::GitFetchUpstreamTags,
            ReleaseStep::GitResetHardNightly,
            ReleaseStep::GitPushForce,
        ]
    };
    head + seq![
        ReleaseStep::CargoTestSourcegen,
        ReleaseStep::WebsiteSwitchSrc,
        ReleaseStep::WebsitePull,
        ReleaseStep::CopyDoc(DocFile::Manual),
        ReleaseStep::CopyDoc(DocFile::GeneratedAssists),
        ReleaseStep::CopyDoc(DocFile::GeneratedConfig),
        ReleaseStep::CopyDoc(DocFile::GeneratedDiagnostic),
        ReleaseStep::CopyDoc(DocFile::GeneratedFeatures),
        ReleaseStep::WriteChangelog,
    ]
}

pub fn release_plan(dry_run: bool) -> (r: Vec<ReleaseStep>)
    ensures
        r@ == spec_release_plan(dry_run),
{
    let mut v: Vec<ReleaseStep> = Vec::new();
    if !dry_run {
        v.push(ReleaseStep::GitSwitchRelease);
        v.push(ReleaseStep::GitFetchUpstreamTags);
        v.push(ReleaseStep::GitResetHardNightly);
        v.push(ReleaseStep::GitPushForce);
    }
    v.push(ReleaseStep::CargoTestSourcegen);
    v.push(ReleaseStep::WebsiteSwitchSrc);
    v.push(ReleaseStep::WebsitePull);
    v.push(ReleaseStep::CopyDoc(DocFile::Manual));
    v.push(ReleaseStep::CopyDoc(DocFile::GeneratedAssists));
    v.push(ReleaseStep::CopyDoc(DocFile::GeneratedConfig));
    v.push(ReleaseStep::CopyDoc(DocFile::GeneratedDiagnostic));
    v.push(ReleaseStep::CopyDoc(DocFile::GeneratedFeatures));
    v.push(ReleaseStep::WriteChangelog);
    proof {
        assert(v@ =~= spec_release_plan(dry_run));
    }
    v
}

/// One step of the promotion run into the host repository's submodule.
#[derive(Clone, Copy, Debug, PartialEq, Eq, Structural)]
pub enum PromoteStep {
    /// `git switch master`.
    GitSwitchMaster,
    /// `git fetch upstream`.
    GitFetchUpstream,
    /// `git reset --hard upstream/master`.
    GitResetUpstreamMaster,
    /// `git submodule update --recursive`.
    GitSubmoduleUpdate,
    /// Create and switch to the dated branch (named by
    /// `promote_branch_name`).
    GitSwitchDateBranch,
    /// `git fetch origin`, inside the submodule.
    SubmoduleFetchOrigin,
    /// `git reset --hard origin/release`, inside the submodule.
    SubmoduleResetRelease,
    /// `git add` on the submodule path.
    GitAddSubmodule,
    /// Commit the submodule bump.
    GitCommitBump,
    /// Push the dated branch to origin.
    GitPushDateBranch,
    /// Open the pull request for the dated branch.
    OpenPullRequest,
}

/// The promotion step sequence. A dry run performs everything except the
/// final push and pull-request steps.
pub open spec fn spec_promote_plan(dry_run: bool) -> Seq<PromoteStep> {
    let head = seq![
        PromoteStep::GitSwitchMaster,
        PromoteStep::GitFetchUpstream,
        PromoteStep::GitResetUpstreamMaster,
        PromoteStep::GitSubmoduleUpdate,
        PromoteStep::GitSwitchDateBranch,
        PromoteStep::SubmoduleFetchOrigin,
        PromoteStep::SubmoduleResetRelease,
        PromoteStep::GitAddSubmodule,
        PromoteStep::GitCommitBump,
    ];
    if dry_run {
        head
    } else {
        head + seq![PromoteStep::GitPushDateBranch, PromoteStep::OpenPullRequest]
    }
}

pub fn promote_plan(dry_run: bool) -> (r: Vec<PromoteStep>)
    ensures
        r@ == spec_promote_plan(dry_run),
{
    let mut v: Vec<PromoteStep> = Vec::new();
    v.push(PromoteStep::GitSwitchMaster);
    v.push(PromoteStep::GitFetchUpstream);
    v.push(PromoteStep::GitResetUpstreamMaster);
    v.push(PromoteStep::GitSubmoduleUpdate);
    v.push(PromoteStep::GitSwitchDateBranch);
    v.push(PromoteStep::SubmoduleFetchOrigin);
    v.push(PromoteStep::SubmoduleResetRelease);
    v.push(PromoteStep::GitAddSubmodule);
    v.push(PromoteStep::GitCommitBump);
    if !dry_run {
        v.push(PromoteStep::GitPushDateBranch);
        v.push(PromoteStep::OpenPullRequest);
    }
    proof {
        assert(v@ =~= spec_promote_plan(dry_run));
    }
    v
}

} // verus!
