//! Short labels shown for diffs, variants, permission policies, workspaces
//! and ages.
use vstd::prelude::*;

use crate::model::dto::LocalDiff;
use crate::text::{decimal, push_decimal, push_str};

verus! {

/// A diff is named after its new path, else its old path.
pub open spec fn diff_title_text(diff: LocalDiff) -> Seq<char> {
    match diff.new_path {
        Some(p) => p@,
        None => match diff.old_path {
            Some(p) => p@,
            None => "<unknown>"@,
        },
    }
}

/// The title of a diff entry.
pub fn diff_title(diff: &LocalDiff) -> (r: String)
    ensures
        r@ == diff_title_text(*diff),
{
    match &diff.new_path {
        Some(p) => p.clone(),
        None => match &diff.old_path {
            Some(p) => p.clone(),
            None => String::from_str("<unknown>"),
        },
    }
}

/// The variant's name, or `DEFAULT` when none is chosen.
pub fn display_variant<'a>(variant: Option<&'a str>) -> (r: &'a str)
    ensures
        r@ == match variant {
            Some(v) => v@,
            None => "DEFAULT"@,
        },
{
    match variant {
        Some(v) => v,
        None => "DEFAULT",
    }
}

/// How much an agent may do without asking.
#[derive(Debug, Clone, Copy, PartialEq, Eq, Structural)]
pub enum PermissionPolicy {
    Auto,
    Supervised,
    Plan,
}

/// The label of a permission policy.
pub open spec fn permission_label(policy: Option<PermissionPolicy>) -> Seq<char> {
    match policy {
        Some(PermissionPolicy::Auto) => "AUTO"@,
        Some(PermissionPolicy::Supervised) => "SUPERVISED"@,
        Some(PermissionPolicy::Plan) => "PLAN"@,
        None => "DEFAULT"@,
    }
}

/// The label shown for a permission policy (`DEFAULT` when none is set).
pub fn display_permission(policy: Option<&PermissionPolicy>) -> (r: &'static str)
    ensures
        r@ == permission_label(
            match policy {
                Some(p) => Some(*p),
                None => None,
            },
        ),
{
    match policy {
        Some(PermissionPolicy::Auto) => "AUTO",
        Some(PermissionPolicy::Supervised) => "SUPERVISED",
        Some(PermissionPolicy::Plan) => "PLAN",
        None => "DEFAULT",
    }
}

/// A workspace is titled by its name, else by its branch.
pub fn workspace_title(name: Option<&str>, branch: &str) -> (r: String)
    ensures
        r@ == match name {
            Some(n) => n@,
            None => branch@,
        },
{
    let mut out = String::new();
    match name {
        Some(n) => push_str(&mut out, n),
        None => push_str(&mut out, branch),
    }
    out
}

/// How long ago something happened, from the seconds elapsed since: seconds
/// under a minute (none when in the future), then minutes under an hour,
/// hours under a day, days.
pub open spec fn relative_time_text(delta: int) -> Seq<char> {
    if delta < 60 {
        decimal(if delta < 0 {
            0nat
        } else {
            delta as nat
        }) + "s ago"@
    } else if delta / 60 < 60 {
        decimal((delta / 60) as nat) + "m ago"@
    } else if delta / 3600 < 24 {
        decimal((delta / 3600) as nat) + "h ago"@
    } else {
        decimal((delta / 86400) as nat) + "d ago"@
    }
}

/// The label of an age given in whole seconds.
pub fn relative_time_label(delta: i64) -> (r: String)
    ensures
        r@ == relative_time_text(delta as int),
{
    let mut out = String::new();
    if delta < 60 {
        let secs: u64 = if delta < 0 {
            0
        } else {
            delta as u64
        };
        push_decimal(&mut out, secs);
        push_str(&mut out, "s ago");
    } else if delta / 60 < 60 {
        push_decimal(&mut out, (delta / 60) as u64);
        push_str(&mut out, "m ago");
    } else if delta / 3600 < 24 {
        push_decimal(&mut out, (delta / 3600) as u64);
        push_str(&mut out, "h ago");
    } else {
        push_decimal(&mut out, (delta / 86400) as u64);
        push_str(&mut out, "d ago");
    }
    out
}

} // verus!
