//! Decisions of the command-line layer: the priority range check, which
//! reminders a listing shows, the dry-run semantics of deletion, the process
//! exit code, and the fixed lines the commands print.

use vstd::prelude::*;
use vstd::string::StringExecFns;
use crate::errors::EventKitError;
use crate::types::ReminderItem;

verus! {

/// Whether a reminder is shown by a listing with the given flags: by
/// default only incomplete reminders are shown; with the completed flag
/// alone only completed ones; showing all, or having fetched only
/// incomplete ones, shows everything that was fetched.
pub open spec fn spec_reminder_shown(
    r: ReminderItem,
    incomplete: bool,
    show_completed: bool,
    show_all: bool,
) -> bool {
    if !incomplete && !show_completed && !show_all {
        !r.completed
    } else if show_completed && !show_all {
        r.completed
    } else {
        true
    }
}

/// The reminders a listing shows, in fetched order.
pub open spec fn spec_shown_reminders(
    rs: Seq<ReminderItem>,
    incomplete: bool,
    show_completed: bool,
    show_all: bool,
) -> Seq<ReminderItem>
    decreases rs.len(),
{
    if rs.len() == 0 {
        Seq::empty()
    } else {
        let rest = spec_shown_reminders(rs.drop_last(), incomplete, show_completed, show_all);
        if spec_reminder_shown(rs.last(), incomplete, show_completed, show_all) {
            rest.push(rs.last())
        } else {
            rest
        }
    }
}

/// Rejects a priority above 9 before any store interaction; every priority
/// from 0 to 9 passes.
pub fn validate_priority(priority: Option<usize>) -> (r: Result<(), EventKitError>)
    ensures
        (match priority {
            Some(p) => p <= 9,
            None => true,
        }) <==> r is Ok,
        r matches Err(e) ==> (e matches EventKitError::SaveFailed(m) && m@
            == "Invalid priority value"@),
{
    match priority {
        Some(p) => {
            if p > 9 {
                Err(EventKitError::SaveFailed("Invalid priority value".to_owned()))
            } else {
                Ok(())
            }
        },
        None => Ok(()),
    }
}

/// Keeps the reminders the listing flags show.
pub fn filter_reminders(
    reminders: Vec<ReminderItem>,
    incomplete: bool,
    show_completed: bool,
    show_all: bool,
) -> (shown: Vec<ReminderItem>)
    ensures
        shown@ == spec_shown_reminders(reminders@, incomplete, show_completed, show_all),
{
    let mut shown: Vec<ReminderItem> = Vec::new();
    let mut i: usize = 0;
    while i < reminders.len()
        invariant
            i <= reminders@.len(),
            shown@ == spec_shown_reminders(
                reminders@.subrange(0, i as int),
                incomplete,
                show_completed,
                show_all,
            ),
        decreases reminders@.len() - i,
    {
        let keep = if !incomplete && !show_completed && !show_all {
            !reminders[i].completed
        } else if show_completed && !show_all {
            reminders[i].completed
        } else {
            true
        };
        if keep {
            shown.push(reminders[i].clone());
        }
        proof {
            let post = reminders@.subrange(0, i + 1 as int);
            assert(post.drop_last() =~= reminders@.subrange(0, i as int));
            assert(post.last() == reminders@[i as int]);
        }
        i += 1;
    }
    proof {
        assert(reminders@.subrange(0, reminders@.len() as int) =~= reminders@);
    }
    shown
}

/// What a deletion command does.
#[derive(Clone, Copy, Debug, PartialEq, Eq, Structural)]
pub enum DeletePlan {
    /// Print the confirmation prompt and delete nothing: the default.
    Confirm,
    /// Delete the item: only with the force flag.
    Delete,
}

/// Deletion is a dry run unless forced: without the force flag the command
/// only prompts, and nothing is deleted.
pub fn delete_plan(force: bool) -> (p: DeletePlan)
    ensures
        p is Delete <==> force,
{
    if force {
        DeletePlan::Delete
    } else {
        DeletePlan::Confirm
    }
}

/// What an update command does.
#[derive(Clone, Copy, Debug, PartialEq, Eq, Structural)]
pub enum UpdatePlan {
    /// No field was supplied: print the hint and touch nothing.
    Nothing,
    /// At least one field was supplied: apply the update.
    Update,
}

/// An update command with no supplied field has nothing to do and returns
/// without touching the store.
pub fn update_plan(
    title: &Option<String>,
    notes: &Option<String>,
    priority: Option<usize>,
) -> (p: UpdatePlan)
    ensures
        p is Update <==> (title is Some || notes is Some || priority is Some),
{
    if title.is_some() || notes.is_some() || priority.is_some() {
        UpdatePlan::Update
    } else {
        UpdatePlan::Nothing
    }
}

/// The confirmation prompt of a dry-run deletion, naming the kind of item
/// and its title.
pub fn delete_prompt(noun: &str, title: &String) -> (s: String)
    ensures
        s@ == "Delete "@ + noun@ + ": \""@ + title@ + "\"?"@,
{
    "Delete ".to_owned().concat(noun).concat(": \"").concat(title.as_str()).concat("\"?")
}

/// The line printed when a listing finds no events.
pub fn no_events_message() -> (s: &'static str)
    ensures
        s@ == "No events found."@,
{
    "No events found."
}

/// The line printed when a listing finds no reminders.
pub fn no_reminders_message() -> (s: &'static str)
    ensures
        s@ == "No reminders found."@,
{
    "No reminders found."
}

/// The marker a listing appends to a reminder title, by priority band:
/// nothing for no priority, three marks for high (1 to 4), two for medium
/// (5), one for low (6 and above).
pub fn priority_marker(priority: usize) -> (s: &'static str)
    ensures
        priority == 0 ==> s@ == ""@,
        1 <= priority <= 4 ==> s@ == " !!!"@,
        priority == 5 ==> s@ == " !!"@,
        priority > 5 ==> s@ == " !"@,
{
    if priority == 0 {
        ""
    } else if priority <= 4 {
        " !!!"
    } else if priority == 5 {
        " !!"
    } else {
        " !"
    }
}

/// The word naming a priority band: none (0), high (1 to 4), medium (5),
/// low (6 and above).
pub fn priority_word(priority: usize) -> (s: &'static str)
    ensures
        priority == 0 ==> s@ == "None"@,
        1 <= priority <= 4 ==> s@ == "High"@,
        priority == 5 ==> s@ == "Medium"@,
        priority > 5 ==> s@ == "Low"@,
{
    if priority == 0 {
        "None"
    } else if priority <= 4 {
        "High"
    } else if priority == 5 {
        "Medium"
    } else {
        "Low"
    }
}

/// The process exit code: 1 on any surfaced error, 0 otherwise.
pub fn exit_code(succeeded: bool) -> (c: i32)
    ensures
        c == (if succeeded {
            0int
        } else {
            1int
        }),
{
    if succeeded {
        0
    } else {
        1
    }
}

} // verus!
