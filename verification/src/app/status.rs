//! The composer's two status lines: the executor settings in use, and how
//! the draft and the follow-up queue stand.
use vstd::prelude::*;

use crate::app::update::{ComposerSync, QueueSync};
use crate::composer::config::{
    agent_mode_label, selected_agent_mode_label, selected_model, selected_model_label,
    selected_reasoning, selected_reasoning_label, ComposerConfig, DiscoveredOptions,
};
use crate::model::dto::opt_text;
use crate::model::format::{display_permission, display_variant, permission_label};
use crate::text::{char_from_digit, digit_char, push_char, push_str};

verus! {

/// The settings line: executor (marked locked for an existing session),
/// variant, model, reasoning effort, agent mode and permission mode.
#[derive(Debug, Clone, PartialEq, Eq)]
pub struct ComposerSelection {
    pub executor: String,
    pub executor_locked: bool,
    pub variant: String,
    pub model: String,
    pub reasoning: String,
    pub agent: String,
    pub permission: String,
}

fn or_text(s: Option<String>, fallback: &str) -> (r: String)
    ensures
        r@ == match s {
            Some(t) => t@,
            None => fallback@,
        },
{
    match s {
        Some(t) => t,
        None => String::from_str(fallback),
    }
}

/// The settings line. Without a config the executor and variant read
/// "loading"; missing model, reasoning and permission read "default".
pub fn composer_selection(
    config: &Option<ComposerConfig>,
    options: &Option<DiscoveredOptions>,
    creating_new_session: bool,
    has_session: bool,
) -> (r: ComposerSelection)
    ensures
        r.executor@ == match *config {
            Some(c) => c.executor@,
            None => "loading"@,
        },
        r.executor_locked == (!creating_new_session && has_session),
        r.variant@ == match *config {
            Some(c) => match c.variant {
                Some(v) => v@,
                None => "DEFAULT"@,
            },
            None => "loading"@,
        },
        r.model@ == match selected_model(*config, *options) {
            Some(m) => m,
            None => "default"@,
        },
        r.reasoning@ == match selected_reasoning(*config, *options) {
            Some(m) => m,
            None => "default"@,
        },
        r.agent@ == agent_mode_label(*config, *options),
        r.permission@ == match *config {
            Some(c) => permission_label(c.permission_policy),
            None => "default"@,
        },
{
    let executor = match config {
        Some(c) => c.executor.clone(),
        None => String::from_str("loading"),
    };
    let variant = match config {
        Some(c) => String::from_str(
            display_variant(
                match &c.variant {
                    Some(v) => Some(v.as_str()),
                    None => None,
                },
            ),
        ),
        None => String::from_str("loading"),
    };
    let model = or_text(selected_model_label(config, options), "default");
    let reasoning = or_text(selected_reasoning_label(config, options), "default");
    let agent = selected_agent_mode_label(config, options);
    let permission = match config {
        Some(c) => String::from_str(display_permission(c.permission_policy.as_ref())),
        None => String::from_str("default"),
    };
    ComposerSelection {
        executor,
        executor_locked: !creating_new_session && has_session,
        variant,
        model,
        reasoning,
        agent,
        permission,
    }
}

/// How a status value is shown: as a warning, as active, or muted.
#[derive(Debug, Clone, Copy, PartialEq, Eq, Structural)]
pub enum Tone {
    Warning,
    Active,
    Muted,
}

/// How the draft stands: blocked by a queued follow-up, being saved,
/// synced, or still loading.
pub open spec fn draft_label(c: ComposerSync) -> Seq<char> {
    if c.queue_conflict {
        "blocked by queued follow-up"@
    } else if c.dirty {
        "saving..."@
    } else if c.scratch_loaded {
        "synced"@
    } else {
        "loading"@
    }
}

/// How the draft stands.
pub fn draft_status_label(c: &ComposerSync) -> (r: &'static str)
    ensures
        r@ == draft_label(*c),
{
    if c.queue_conflict {
        "blocked by queued follow-up"
    } else if c.dirty {
        "saving..."
    } else if c.scratch_loaded {
        "synced"
    } else {
        "loading"
    }
}

/// Two digits for a clock field below 100.
pub open spec fn two_digits(n: nat) -> Seq<char> {
    seq![digit_char(n / 10), digit_char(n % 10)]
}

/// The UTC wall-clock time of a moment (whole seconds since the epoch),
/// as `HH:MM:SS`.
pub open spec fn clock_text(secs: int) -> Seq<char> {
    let day = (secs % 86400) as nat;
    two_digits(day / 3600) + seq![':'] + two_digits((day % 3600) / 60) + seq![':'] + two_digits(day % 60)
}

fn push_two_digits(s: &mut String, n: u64)
    requires
        n < 100,
    ensures
        final(s)@ == old(s)@ + two_digits(n as nat),
{
    push_char(s, char_from_digit((n / 10) as u32));
    push_char(s, char_from_digit((n % 10) as u32));
}

/// The UTC time of day of a moment, as `HH:MM:SS`.
pub fn clock_time(secs: i64) -> (r: String)
    ensures
        r@ == clock_text(secs as int),
{
    let rem = secs % 86400;
    let day: u64 = if rem < 0 {
        (rem + 86400) as u64
    } else {
        rem as u64
    };
    proof {
        assert(day as int == (secs as int) % 86400);
    }
    let mut s = String::new();
    push_two_digits(&mut s, day / 3600);
    push_char(&mut s, ':');
    push_two_digits(&mut s, (day % 3600) / 60);
    push_char(&mut s, ':');
    push_two_digits(&mut s, day % 60);
    proof {
        assert(s@ =~= clock_text(secs as int));
    }
    s
}

/// How the follow-up queue stands: loading, not queued, or queued at a
/// time (UTC, `HH:MM:SS`), given when the queued follow-up was queued.
pub fn queue_status_label(queue: &QueueSync, queued_at: Option<i64>) -> (r: String)
    ensures
        r@ == if queue.pending {
            "loading"@
        } else {
            match queued_at {
                None => "not queued"@,
                Some(t) => "queued at "@ + clock_text(t as int),
            }
        },
{
    if queue.pending {
        return String::from_str("loading");
    }
    match queued_at {
        None => String::from_str("not queued"),
        Some(t) => {
            let mut s = String::from_str("queued at ");
            let time = clock_time(t);
            push_str(&mut s, time.as_str());
            s
        },
    }
}

/// The draft's tone: a conflict warns, unsaved edits are active.
pub fn draft_tone(c: &ComposerSync) -> (r: Tone)
    ensures
        r == if c.queue_conflict {
            Tone::Warning
        } else if c.dirty {
            Tone::Active
        } else {
            Tone::Muted
        },
{
    if c.queue_conflict {
        Tone::Warning
    } else if c.dirty {
        Tone::Active
    } else {
        Tone::Muted
    }
}

/// The queue's tone: loading warns, a queued follow-up is active.
pub fn queue_tone(queue: &QueueSync, queued: bool) -> (r: Tone)
    ensures
        r == if queue.pending {
            Tone::Warning
        } else if queued {
            Tone::Active
        } else {
            Tone::Muted
        },
{
    if queue.pending {
        Tone::Warning
    } else if queued {
        Tone::Active
    } else {
        Tone::Muted
    }
}

} // verus!
