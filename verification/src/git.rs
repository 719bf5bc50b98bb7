//! The branch bookkeeping of a git repository, and the branch name of an issue.

use vstd::prelude::*;
use crate::api::Issue;
use crate::context::option_string_view;
use crate::text::{replace_char, replace_char_spec};

verus! {

/// Why a git operation failed.
#[derive(Debug, Clone, Copy, PartialEq, Eq, Structural)]
pub enum Errors {
    InvalidRepo,
    BranchNotSet,
}

impl Errors {
    /// The message shown to the user.
    pub fn message(&self) -> (m: String)
        ensures
            m@ == match self {
                Errors::InvalidRepo => "Git Error: Directory is not a valid git repository"@,
                Errors::BranchNotSet => "Git error: Active branch is not set"@,
            },
    {
        match self {
            Errors::InvalidRepo => String::from_str(
                "Git Error: Directory is not a valid git repository",
            ),
            Errors::BranchNotSet => String::from_str("Git error: Active branch is not set"),
        }
    }
}

/// What a repository handle remembers besides the repository: the remote,
/// the branch it works on, and the branch that new branches start from.
#[derive(Debug)]
pub struct BranchState {
    remote: Option<String>,
    ref_spec: Option<String>,
    branch_root: String,
}

pub struct BranchStateView {
    pub remote: Option<Seq<char>>,
    pub ref_spec: Option<Seq<char>>,
    pub branch_root: Seq<char>,
}

impl View for BranchState {
    type V = BranchStateView;

    closed spec fn view(&self) -> BranchStateView {
        BranchStateView {
            remote: option_string_view(self.remote),
            ref_spec: option_string_view(self.ref_spec),
            branch_root: self.branch_root@,
        }
    }
}

/// The branch that the handle works on, or why there is none.
pub open spec fn current_branch(s: BranchStateView) -> Result<Seq<char>, Errors> {
    match s.ref_spec {
        Some(b) => Ok(b),
        None => Err(Errors::BranchNotSet),
    }
}

impl BranchState {
    /// A fresh handle: no remote, no branch, new branches start from `master`.
    pub fn new() -> (s: BranchState)
        ensures
            s@ == (BranchStateView { remote: None, ref_spec: None, branch_root: "master"@ }),
    {
        BranchState { remote: None, ref_spec: None, branch_root: String::from_str("master") }
    }

    /// Sets the remote.
    pub fn set_remote(&mut self, remote: &str)
        ensures
            final(self)@ == (BranchStateView { remote: Some(remote@), ..old(self)@ }),
    {
        self.remote = Some(String::from_str(remote));
    }

    /// The branch that new branches start from.
    pub fn branch_root(&self) -> (b: &str)
        ensures
            b@ == self@.branch_root,
    {
        self.branch_root.as_str()
    }

    /// Switches to `branch` if it exists; returns whether it did, in which
    /// case the branch is to be checked out.
    pub fn set_branch(&mut self, branch: &str, exists: bool) -> (switched: bool)
        ensures
            switched == exists,
            exists ==> final(self)@ == (BranchStateView { ref_spec: Some(branch@), ..old(self)@ }),
            !exists ==> final(self)@ == old(self)@,
    {
        if exists {
            self.ref_spec = Some(String::from_str(branch));
        }
        exists
    }

    /// Records that `branch` was created and is now worked on.
    pub fn branch_created(&mut self, branch: &str)
        ensures
            final(self)@ == (BranchStateView { ref_spec: Some(branch@), ..old(self)@ }),
    {
        self.ref_spec = Some(String::from_str(branch));
    }

    /// The name of the branch this handle recorded as the one it works on (the
    /// last one switched to or created through it); it does not read the
    /// repository's HEAD.
    pub fn current_branch_name(&self) -> (r: Result<String, Errors>)
        ensures
            match (r, current_branch(self@)) {
                (Ok(n), Ok(b)) => n@ == b,
                (Err(e), Err(f)) => e == f,
                _ => false,
            },
    {
        match &self.ref_spec {
            Some(b) => Ok(b.clone()),
            None => Err(Errors::BranchNotSet),
        }
    }
}

/// Switching to an existing branch, or creating one, makes it the current
/// branch, whatever was current before.
pub proof fn lemma_switch_sets_current(s: BranchStateView, branch: Seq<char>)
    ensures
        current_branch(BranchStateView { ref_spec: Some(branch), ..s }) == Ok::<Seq<char>, Errors>(
            branch,
        ),
{
}

/// Where the `checkout` command stands.
#[derive(Debug, Clone, Copy, PartialEq, Eq, Structural)]
pub enum CheckoutStage {
    /// Nothing done yet; the next event says whether the branch exists.
    Start,
    /// The user was asked whether to check out the branch; `created` says
    /// whether it was just created.
    ConfirmCheckout { created: bool },
    /// The user was asked whether to create the missing branch.
    ConfirmCreate,
    /// The branch is being created; the next event says whether that worked.
    Create,
    /// Nothing more to do.
    Done,
}

/// What the `checkout` command does next.
#[derive(Debug)]
pub enum CheckoutAction {
    /// Print `note`, if any, then ask `question` as a yes/no question.
    Ask { note: Option<String>, question: String },
    /// Create the branch.
    CreateBranch,
    /// Switch to the branch (checking it out and resetting the index), then
    /// print `note`, if any.
    SwitchBranch { note: Option<String> },
    /// Stop.
    Stop,
}

/// A checkout action with its texts taken by their characters.
pub enum CheckoutActionView {
    Ask { note: Option<Seq<char>>, question: Seq<char> },
    CreateBranch,
    SwitchBranch { note: Option<Seq<char>> },
    Stop,
}

impl View for CheckoutAction {
    type V = CheckoutActionView;

    open spec fn view(&self) -> CheckoutActionView {
        match self {
            CheckoutAction::Ask { note, question } => CheckoutActionView::Ask {
                note: option_string_view(*note),
                question: question@,
            },
            CheckoutAction::CreateBranch => CheckoutActionView::CreateBranch,
            CheckoutAction::SwitchBranch { note } => CheckoutActionView::SwitchBranch {
                note: option_string_view(*note),
            },
            CheckoutAction::Stop => CheckoutActionView::Stop,
        }
    }
}

pub open spec fn checkout_question() -> Seq<char> {
    "Checkout branch. This will reset your working tree"@
}

pub open spec fn create_question(branch: Seq<char>) -> Seq<char> {
    "Branch "@ + branch + " does not exist, create"@
}

/// One step of `checkout` for the branch `branch`: the stage it moves to and
/// what to do, given the event of the stage it is in (at the start, whether
/// the branch exists; after a question, the answer; after creating, whether
/// that worked). An existing branch is checked out on a yes, and announced;
/// a missing one is created on a yes, announced, and checked out on a further
/// yes; every no or failure stops.
pub open spec fn checkout_next(stage: CheckoutStage, event: bool, branch: Seq<char>) -> (
    CheckoutStage,
    CheckoutActionView,
) {
    match stage {
        CheckoutStage::Start => if event {
            (
                CheckoutStage::ConfirmCheckout { created: false },
                CheckoutActionView::Ask { note: None, question: checkout_question() },
            )
        } else {
            (
                CheckoutStage::ConfirmCreate,
                CheckoutActionView::Ask { note: None, question: create_question(branch) },
            )
        },
        CheckoutStage::ConfirmCheckout { created } => if event {
            (
                CheckoutStage::Done,
                CheckoutActionView::SwitchBranch {
                    note: if created {
                        None
                    } else {
                        Some("Checked out branch "@ + branch)
                    },
                },
            )
        } else {
            (CheckoutStage::Done, CheckoutActionView::Stop)
        },
        CheckoutStage::ConfirmCreate => if event {
            (CheckoutStage::Create, CheckoutActionView::CreateBranch)
        } else {
            (CheckoutStage::Done, CheckoutActionView::Stop)
        },
        CheckoutStage::Create => if event {
            (
                CheckoutStage::ConfirmCheckout { created: true },
                CheckoutActionView::Ask {
                    note: Some("Created branch "@ + branch),
                    question: checkout_question(),
                },
            )
        } else {
            (CheckoutStage::Done, CheckoutActionView::Stop)
        },
        CheckoutStage::Done => (CheckoutStage::Done, CheckoutActionView::Stop),
    }
}

/// Takes one step of `checkout` (see `checkout_next`).
pub fn checkout_step(stage: CheckoutStage, event: bool, branch: &str) -> (r: (
    CheckoutStage,
    CheckoutAction,
))
    ensures
        (r.0, r.1@) == checkout_next(stage, event, branch@),
{
    match stage {
        CheckoutStage::Start => if event {
            (
                CheckoutStage::ConfirmCheckout { created: false },
                CheckoutAction::Ask {
                    note: None,
                    question: String::from_str("Checkout branch. This will reset your working tree"),
                },
            )
        } else {
            let question = String::from_str("Branch ").concat(branch).concat(" does not exist, create");
            (CheckoutStage::ConfirmCreate, CheckoutAction::Ask { note: None, question })
        },
        CheckoutStage::ConfirmCheckout { created } => if event {
            let note = if created {
                None
            } else {
                Some(String::from_str("Checked out branch ").concat(branch))
            };
            (CheckoutStage::Done, CheckoutAction::SwitchBranch { note })
        } else {
            (CheckoutStage::Done, CheckoutAction::Stop)
        },
        CheckoutStage::ConfirmCreate => if event {
            (CheckoutStage::Create, CheckoutAction::CreateBranch)
        } else {
            (CheckoutStage::Done, CheckoutAction::Stop)
        },
        CheckoutStage::Create => if event {
            (
                CheckoutStage::ConfirmCheckout { created: true },
                CheckoutAction::Ask {
                    note: Some(String::from_str("Created branch ").concat(branch)),
                    question: String::from_str("Checkout branch. This will reset your working tree"),
                },
            )
        } else {
            (CheckoutStage::Done, CheckoutAction::Stop)
        },
        CheckoutStage::Done => (CheckoutStage::Done, CheckoutAction::Stop),
    }
}

/// `checkout` switches branches only after the user said yes: the step that
/// switches answers a checkout question with a yes, and any step on a no ends
/// the command without switching or creating.
pub proof fn lemma_checkout_switches_only_on_yes(stage: CheckoutStage, event: bool, branch: Seq<char>)
    ensures
        checkout_next(stage, event, branch).1 is SwitchBranch ==> (stage is ConfirmCheckout
            && event),
        checkout_next(stage, event, branch).1 is CreateBranch ==> (stage is ConfirmCreate
            && event),
        (!event && stage !is Start) ==> checkout_next(stage, event, branch) == (
            CheckoutStage::Done,
            CheckoutActionView::Stop,
        ),
{
}

/// A missing branch that the user agrees to create, whose creation works, and
/// that the user agrees to check out, is switched to: the run from the start
/// takes four steps.
pub proof fn lemma_checkout_create_run(branch: Seq<char>)
    ensures
        ({
            let (s1, _) = checkout_next(CheckoutStage::Start, false, branch);
            let (s2, a2) = checkout_next(s1, true, branch);
            let (s3, _) = checkout_next(s2, true, branch);
            let (s4, a4) = checkout_next(s3, true, branch);
            &&& a2 is CreateBranch
            &&& a4 == CheckoutActionView::SwitchBranch { note: None }
            &&& s4 == CheckoutStage::Done
        }),
{
}

/// The text in SCREAMING_SNAKE_CASE, as the `inflector` crate writes it.
pub uninterp spec fn screaming_snake_case(s: Seq<char>) -> Seq<char>;

/// The text in kebab-case, as the `inflector` crate writes it.
pub uninterp spec fn kebab_case(s: Seq<char>) -> Seq<char>;

/// `inflector::cases::screamingsnakecase::to_screaming_snake_case`: its result
/// is a function of the text alone, named `screaming_snake_case`.
#[verifier::external_body]
fn to_screaming_snake_case(s: &str) -> (r: String)
    ensures
        r@ == screaming_snake_case(s@),
{
    inflector::cases::screamingsnakecase::to_screaming_snake_case(s)
}

/// `inflector::cases::kebabcase::to_kebab_case`: its result is a function of
/// the text alone, named `kebab_case`.
#[verifier::external_body]
fn to_kebab_case(s: &str) -> (r: String)
    ensures
        r@ == kebab_case(s@),
{
    inflector::cases::kebabcase::to_kebab_case(s)
}

/// The branch name for an issue with key `key` and summary `summary`: the key
/// in SCREAMING_SNAKE_CASE with its underscores turned into dashes, a dash,
/// and the summary in kebab-case.
pub open spec fn branch_name_spec(key: Seq<char>, summary: Seq<char>) -> Seq<char> {
    replace_char_spec(screaming_snake_case(key), '_', '-') + seq!['-'] + kebab_case(summary)
}

/// The key part of a branch name, from its key in SCREAMING_SNAKE_CASE: the
/// underscores turned into dashes.
pub fn branch_key_part(screaming_key: &str) -> (r: String)
    ensures
        r@ == replace_char_spec(screaming_key@, '_', '-'),
{
    replace_char(screaming_key, '_', '-')
}

/// The name of the branch that `checkout` uses for an issue.
pub fn branch_name(issue: &Issue) -> (r: String)
    ensures
        r@ == branch_name_spec(issue.key@, issue.fields.summary@),
{
    let key = to_screaming_snake_case(issue.key.as_str());
    let key = branch_key_part(key.as_str());
    let summary = to_kebab_case(issue.fields.summary.as_str());
    proof {
        reveal_strlit("-");
    }
    key.concat("-").concat(summary.as_str())
}

/// A branch name is the whole key part, a dash and the whole kebab-cased
/// summary: character by character, the key in SCREAMING_SNAKE_CASE with
/// each underscore a dash, then a dash, then every character of the
/// kebab-cased summary, nothing cut.
pub proof fn lemma_branch_name_parts(key: Seq<char>, summary: Seq<char>)
    ensures
        ({
            let k = screaming_snake_case(key);
            let s = kebab_case(summary);
            let b = branch_name_spec(key, summary);
            &&& b.len() == k.len() + 1 + s.len()
            &&& forall|i: int| 0 <= i < k.len() ==> #[trigger] b[i] == if k[i] == '_' {
                '-'
            } else {
                k[i]
            }
            &&& b[k.len() as int] == '-'
            &&& b.subrange(k.len() + 1int, b.len() as int) == s
        }),
{
    let k = screaming_snake_case(key);
    let s = kebab_case(summary);
    let kp = replace_char_spec(k, '_', '-');
    let b = branch_name_spec(key, summary);
    assert(b == kp + seq!['-'] + s);
    assert forall|i: int| 0 <= i < k.len() implies #[trigger] b[i] == if k[i] == '_' {
        '-'
    } else {
        k[i]
    } by {
        assert(b[i] == kp[i]);
    }
    assert(b.subrange(k.len() + 1int, b.len() as int) =~= s);
}

/// The key part of a branch name holds no underscore: every underscore of the
/// key became a dash.
pub proof fn lemma_branch_key_part_has_no_underscore(s: Seq<char>)
    ensures
        !replace_char_spec(s, '_', '-').contains('_'),
{
    let r = replace_char_spec(s, '_', '-');
    assert forall|i: int| 0 <= i < r.len() implies r[i] != '_' by {
        assert(r[i] == if s[i] == '_' { '-' } else { s[i] });
    }
}

} // verus!
