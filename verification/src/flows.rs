//! The order in which a request handler acts. A handler first decides, from
//! the request and what it has read, whether it refuses the request; only if
//! it does not does it get a plan: the outside work it performs, in order,
//! with what happens when a piece of work fails. The caller runs the plan one
//! step at a time with `flow_start` and `flow_next`, performing each piece of
//! work and reporting how it went.
use vstd::prelude::*;

verus! {

/// A piece of outside work: an upload, a service call, a row write or a file
/// operation.
#[derive(Debug, Clone, Copy, PartialEq, Eq)]
pub enum Work {
    /// Upload the inline media of the request to the media service.
    UploadInlineMedia,
    /// Create the item's post.
    NewPost,
    /// Update the item's post.
    UpdatePost,
    /// Delete the post created by this request.
    DeletePost,
    /// Insert the game row.
    InsertGame,
    /// Update the game row.
    UpdateGame,
    /// Insert the project row.
    NewProject,
    /// Update the project row.
    UpdateProject,
    /// Attach the finished v86 package named by the request.
    AttachV86,
    /// Re-point the v86 artifact at this system version.
    Repoint(i64),
    /// Delete the game's js-dos bundle, if it has one.
    ClearBundle,
    /// Delete the game's v86 artifact rows.
    ClearV86,
    /// Extract the uploaded demo zip.
    ExtractDemo,
    /// Store the cover uploaded with a new item.
    ApplyCreatedCover,
    /// Store the new cover frame.
    UpdateCover,
    /// Write the deletion log entry.
    LogDeletion,
    /// Delete the game row.
    DeleteGameRow,
    /// Remove the game's demo directory.
    RemoveDemoDir,
    /// Move the post to the trash.
    SoftDeletePost,
}

/// One step of a plan.
#[derive(Debug, Clone, Copy, PartialEq, Eq)]
pub enum Step {
    /// Perform the work; if it fails the request fails with its error.
    Run(Work),
    /// Perform the first work; if it fails, perform the second whatever it
    /// gives, then fail with the first one's error.
    Guarded(Work, Work),
    /// Perform the work; a failure is ignored.
    Tolerant(Work),
    /// Refuse the request with the plan's refusal.
    Refuse,
}

/// What the caller does next.
#[derive(Debug, Clone, Copy, PartialEq, Eq)]
pub enum Next {
    /// Perform this work and report how it went.
    Run(Work),
    /// Answer with the plan's refusal.
    Refuse,
    /// Answer with the error of the work that failed.
    Fail,
    /// Answer with success.
    Respond,
}

/// How a piece of work went.
#[derive(Debug, Clone, Copy)]
pub enum Outcome {
    Done,
    Failed,
}

/// Where the caller stands in a plan: the step whose work it performs, and
/// whether that work is the undoing of a failed one.
#[derive(Debug, Clone, Copy)]
pub struct Cursor {
    pub at: usize,
    pub undoing: bool,
}

/// What comes when the caller reaches step `i` of the plan.
pub open spec fn enter(plan: Seq<Step>, i: int) -> (Next, Cursor) {
    let c = Cursor { at: i as usize, undoing: false };
    if i < 0 || i >= plan.len() {
        (Next::Respond, c)
    } else {
        match plan[i] {
            Step::Run(w) => (Next::Run(w), c),
            Step::Guarded(w, _) => (Next::Run(w), c),
            Step::Tolerant(w) => (Next::Run(w), c),
            Step::Refuse => (Next::Refuse, c),
        }
    }
}

/// What comes after the work at the cursor went as `o`.
pub open spec fn after(plan: Seq<Step>, c: Cursor, o: Outcome) -> (Next, Cursor) {
    if c.undoing {
        (Next::Fail, c)
    } else {
        match plan[c.at as int] {
            Step::Run(_) => match o {
                Outcome::Done => enter(plan, c.at + 1),
                Outcome::Failed => (Next::Fail, c),
            },
            Step::Guarded(_, u) => match o {
                Outcome::Done => enter(plan, c.at + 1),
                Outcome::Failed => (Next::Run(u), Cursor { at: c.at, undoing: true }),
            },
            Step::Tolerant(_) => enter(plan, c.at + 1),
            Step::Refuse => (Next::Refuse, c),
        }
    }
}

fn enter_exec(plan: &Vec<Step>, i: usize) -> (r: (Next, Cursor))
    ensures
        r == enter(plan@, i as int),
{
    let c = Cursor { at: i, undoing: false };
    if i >= plan.len() {
        return (Next::Respond, c);
    }
    match plan[i] {
        Step::Run(w) => (Next::Run(w), c),
        Step::Guarded(w, _) => (Next::Run(w), c),
        Step::Tolerant(w) => (Next::Run(w), c),
        Step::Refuse => (Next::Refuse, c),
    }
}

/// The first thing the caller does with a plan.
pub fn flow_start(plan: &Vec<Step>) -> (r: (Next, Cursor))
    ensures
        r == enter(plan@, 0),
{
    enter_exec(plan, 0)
}

/// What the caller does after the work at `cursor` went as `outcome`.
pub fn flow_next(plan: &Vec<Step>, cursor: Cursor, outcome: Outcome) -> (r: (Next, Cursor))
    requires
        cursor.at < plan@.len(),
    ensures
        r == after(plan@, cursor, outcome),
{
    if cursor.undoing {
        return (Next::Fail, cursor);
    }
    let n = plan.len();
    assert(cursor.at + 1 <= n);
    match plan[cursor.at] {
        Step::Run(_) => match outcome {
            Outcome::Done => enter_exec(plan, cursor.at + 1),
            Outcome::Failed => (Next::Fail, cursor),
        },
        Step::Guarded(_, u) => match outcome {
            Outcome::Done => enter_exec(plan, cursor.at + 1),
            Outcome::Failed => (Next::Run(u), Cursor { at: cursor.at, undoing: true }),
        },
        Step::Tolerant(_) => enter_exec(plan, cursor.at + 1),
        Step::Refuse => (Next::Refuse, cursor),
    }
}

/// A guarded piece of work that fails is undone before the request fails:
/// the caller is sent to the undoing work, and whatever that gives, the next
/// answer is the failure.
pub proof fn law_failed_guarded_work_is_undone(plan: Seq<Step>, c: Cursor, o: Outcome)
    requires
        0 <= c.at < plan.len(),
        !c.undoing,
        plan[c.at as int] is Guarded,
    ensures
        after(plan, c, Outcome::Failed) == (Next::Run(plan[c.at as int]->Guarded_1), Cursor {
            at: c.at,
            undoing: true,
        }),
        after(plan, after(plan, c, Outcome::Failed).1, o).0 is Fail,
{
}

/// Work that succeeds moves the caller to the next step of the plan; a plan
/// without a refusal step, whose work all succeeds, ends in success.
pub proof fn law_done_work_moves_on(plan: Seq<Step>, i: int)
    requires
        0 <= i < plan.len(),
        plan.len() <= usize::MAX,
        !(plan[i] is Refuse),
    ensures
        after(plan, enter(plan, i).1, Outcome::Done) == enter(plan, i + 1),
        enter(plan, plan.len() as int).0 is Respond,
{
}

/// A one-step piece of a plan, present when `b` holds.
pub open spec fn step_if(b: bool, s: Step) -> Seq<Step> {
    if b {
        seq![s]
    } else {
        Seq::empty()
    }
}

/// No step follows a refusal step: once a plan refuses, nothing more is done.
pub open spec fn refuses_last(plan: Seq<Step>) -> bool {
    forall|i: int| 0 <= i < plan.len() && (#[trigger] plan[i]) is Refuse ==> i == plan.len() - 1
}

/// A plan that reaches its refusal step answers with the refusal whatever
/// came before it: the caller is never sent past it.
pub proof fn law_refusal_is_final(plan: Seq<Step>, i: int)
    requires
        0 <= i < plan.len(),
        plan[i] is Refuse,
    ensures
        enter(plan, i).0 is Refuse,
{
}

} // verus!
