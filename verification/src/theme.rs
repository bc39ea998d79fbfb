//! Resource states, text roles, symbols and the pure helpers of the visual theme.
use crate::text::{chars_eq_str, chars_of, parse_i32, parse_i32_spec, push_str, to_lowercase};
use vstd::prelude::*;

verus! {

/// The health of a Kubernetes resource as the views show it.
#[derive(Debug, Clone, Copy, PartialEq, Eq, Structural)]
pub enum ResourceStatus {
    Running,
    Ready,
    Pending,
    Updating,
    Failed,
    Error,
    Unknown,
}

/// The role of a piece of text, which decides its style.
#[derive(Debug, Clone, Copy, PartialEq, Eq, Structural)]
pub enum TextType {
    Title,
    Subtitle,
    Body,
    Caption,
    Success,
    Warning,
    Error,
}

/// The theme colour that a status is drawn in.
#[derive(Debug, Clone, Copy, PartialEq, Eq, Structural)]
pub enum ColorRole {
    Success,
    Warning,
    Error,
    TextMuted,
}

/// The colour role of a status: green for running or ready, amber for pending or
/// updating, red for failed or erroneous, muted when unknown.
pub fn status_color(status: ResourceStatus) -> (c: ColorRole)
    ensures
        c == (match status {
            ResourceStatus::Running | ResourceStatus::Ready => ColorRole::Success,
            ResourceStatus::Pending | ResourceStatus::Updating => ColorRole::Warning,
            ResourceStatus::Failed | ResourceStatus::Error => ColorRole::Error,
            ResourceStatus::Unknown => ColorRole::TextMuted,
        }),
{
    match status {
        ResourceStatus::Running | ResourceStatus::Ready => ColorRole::Success,
        ResourceStatus::Pending | ResourceStatus::Updating => ColorRole::Warning,
        ResourceStatus::Failed | ResourceStatus::Error => ColorRole::Error,
        ResourceStatus::Unknown => ColorRole::TextMuted,
    }
}

/// Unicode symbols of the interface.
pub struct Symbols;

impl Symbols {
    pub const RUNNING: &'static str = "●";
    pub const PENDING: &'static str = "◐";
    pub const ERROR: &'static str = "✗";
    pub const SUCCESS: &'static str = "✓";
    pub const WARNING: &'static str = "⚠";
    pub const UNKNOWN: &'static str = "?";
    pub const REPLICASET: &'static str = "⚙";
    pub const POD: &'static str = "□";
    pub const CONTAINER: &'static str = "▢";
    pub const SERVICE: &'static str = "🌐";
    pub const INGRESS: &'static str = "→";
    pub const ARROW_RIGHT: &'static str = "→";
    pub const ARROW_DOWN: &'static str = "↓";
    pub const CHEVRON_RIGHT: &'static str = "›";
    pub const CHEVRON_DOWN: &'static str = "‹";
    pub const BULLET: &'static str = "•";
    pub const DOT: &'static str = "·";
    pub const FOLDER: &'static str = "📁";
    pub const SETTINGS: &'static str = "⚙";
    pub const PROGRESS_EMPTY: &'static str = "░";
    pub const PROGRESS_FILL: &'static str = "█";
    pub const BORDER_TOP_LEFT: &'static str = "╭";
    pub const BORDER_TOP_RIGHT: &'static str = "╮";
    pub const BORDER_BOTTOM_LEFT: &'static str = "╰";
    pub const BORDER_BOTTOM_RIGHT: &'static str = "╯";
    pub const BORDER_HORIZONTAL: &'static str = "─";
    pub const BORDER_VERTICAL: &'static str = "│";
}

/// Sizes shared by the views.
pub struct UiConstants;

impl UiConstants {
    pub const CARD_HEIGHT: u16 = 4;
    pub const HEADER_HEIGHT: u16 = 3;
    pub const FOOTER_HEIGHT: u16 = 2;
    pub const PROGRESS_BAR_WIDTH: usize = 8;
    pub const DETAILS_PANEL_WIDTH: u16 = 40;
    pub const MIN_LIST_WIDTH: u16 = 65;
    pub const ICON_COLUMN_WIDTH: u16 = 20;
    pub const ACTIONS_COLUMN_WIDTH: u16 = 30;
}

/// `n` copies of `s`.
pub open spec fn repeat(s: Seq<char>, n: nat) -> Seq<char>
    decreases n,
{
    if n == 0 {
        seq![]
    } else {
        repeat(s, (n - 1) as nat) + s
    }
}

/// Appends `n` copies of `unit` to `out`.
pub fn push_repeat(out: &mut String, unit: &str, n: usize)
    ensures
        final(out)@ == old(out)@ + repeat(unit@, n as nat),
{
    let mut k: usize = 0;
    while k < n
        invariant
            k <= n,
            out@ == old(out)@ + repeat(unit@, k as nat),
        decreases n - k,
    {
        push_str(out, unit);
        assert(old(out)@ + repeat(unit@, (k + 1) as nat) =~= old(out)@ + repeat(unit@, k as nat)
            + unit@);
        k = k + 1;
    }
}

/// The colour of a health bar.
#[derive(Debug, Clone, Copy, PartialEq, Eq, Structural)]
pub enum HealthColor {
    /// Nothing to measure.
    Muted,
    /// All healthy.
    Success,
    /// At least three quarters healthy.
    Lime,
    /// At least half healthy.
    Warning,
    /// At least a quarter healthy.
    Orange,
    /// Less than a quarter healthy.
    Error,
}

/// A bar of `filled` full cells followed by `empty` empty cells.
pub open spec fn bar(filled: nat, empty: nat) -> Seq<char> {
    repeat(Symbols::PROGRESS_FILL@, filled) + repeat(Symbols::PROGRESS_EMPTY@, empty)
}

/// Helpers for common UI patterns.
pub struct UiHelpers;

impl UiHelpers {
    /// A bar of `width` cells with `current / total` of them filled.
    pub fn progress_bar(current: usize, total: usize, width: usize) -> (s: String)
        requires
            total > 0 ==> current * width <= usize::MAX,
            total > 0 ==> (current * width) / (total as int) <= width,
        ensures
            total == 0 ==> s@ == repeat(Symbols::PROGRESS_EMPTY@, width as nat),
            total > 0 ==> s@ == bar(
                ((current * width) / (total as int)) as nat,
                (width - (current * width) / (total as int)) as nat,
            ),
    {
        let mut s = String::new();
        if total == 0 {
            push_repeat(&mut s, Symbols::PROGRESS_EMPTY, width);
            assert(s@ =~= repeat(Symbols::PROGRESS_EMPTY@, width as nat));
            return s;
        }
        let filled = (current * width) / total;
        let empty = width - filled;
        push_repeat(&mut s, Symbols::PROGRESS_FILL, filled);
        push_repeat(&mut s, Symbols::PROGRESS_EMPTY, empty);
        assert(s@ =~= bar(filled as nat, empty as nat));
        s
    }

    /// A health bar and its colour by the healthy fraction: green when all are
    /// healthy, then lime from three quarters, amber from one half, orange from
    /// one quarter, red below.
    pub fn health_progress_bar(current: usize, total: usize, width: usize) -> (r: (String, HealthColor))
        requires
            total > 0 ==> current * width <= usize::MAX,
            total > 0 ==> (current * width) / (total as int) <= width,
        ensures
            total == 0 ==> r.0@ == repeat(Symbols::PROGRESS_EMPTY@, width as nat) && r.1
                == HealthColor::Muted,
            total > 0 ==> r.0@ == bar(
                ((current * width) / (total as int)) as nat,
                (width - (current * width) / (total as int)) as nat,
            ),
            total > 0 ==> r.1 == (if current >= total {
                HealthColor::Success
            } else if 4 * current >= 3 * total {
                HealthColor::Lime
            } else if 2 * current >= total {
                HealthColor::Warning
            } else if 4 * current >= total {
                HealthColor::Orange
            } else {
                HealthColor::Error
            }),
    {
        let s = Self::progress_bar(current, total, width);
        if total == 0 {
            return (s, HealthColor::Muted);
        }
        let c = current as u128;
        let t = total as u128;
        let color = if c >= t {
            HealthColor::Success
        } else if 4 * c >= 3 * t {
            HealthColor::Lime
        } else if 2 * c >= t {
            HealthColor::Warning
        } else if 4 * c >= t {
            HealthColor::Orange
        } else {
            HealthColor::Error
        };
        (s, color)
    }

    /// The symbol of a resource type (`replicaset`, `pod`, `container`, `service`,
    /// `ingress`, in any case), or a bullet for any other.
    pub fn resource_icon(resource_type: &str) -> (s: &'static str)
        ensures
            ({
                let l = crate::text::unicode_lowercase(resource_type@);
                s@ == if l == "replicaset"@ {
                    Symbols::REPLICASET@
                } else if l == "pod"@ {
                    Symbols::POD@
                } else if l == "container"@ {
                    Symbols::CONTAINER@
                } else if l == "service"@ {
                    Symbols::SERVICE@
                } else if l == "ingress"@ {
                    Symbols::INGRESS@
                } else {
                    Symbols::BULLET@
                }
            }),
    {
        let lower = to_lowercase(resource_type);
        let l = chars_of(lower.as_str());
        if chars_eq_str(l.as_slice(), "replicaset") {
            Symbols::REPLICASET
        } else if chars_eq_str(l.as_slice(), "pod") {
            Symbols::POD
        } else if chars_eq_str(l.as_slice(), "container") {
            Symbols::CONTAINER
        } else if chars_eq_str(l.as_slice(), "service") {
            Symbols::SERVICE
        } else if chars_eq_str(l.as_slice(), "ingress") {
            Symbols::INGRESS
        } else {
            Symbols::BULLET
        }
    }

    /// The value parsed as an `i32`, or 0 when it is not one.
    pub fn safe_parse_i32(value: &str, _context: &str) -> (n: i32)
        ensures
            n == (match parse_i32_spec(value@) {
                Some(v) => v,
                None => 0,
            }),
    {
        let v = chars_of(value);
        match parse_i32(v.as_slice()) {
            Some(n) => n,
            None => 0,
        }
    }

    /// The value as a `u16`, clamped to `u16::MAX`.
    pub fn safe_cast_u16(value: usize, _context: &str) -> (n: u16)
        ensures
            n == (if value > u16::MAX {
                u16::MAX as int
            } else {
                value as int
            }),
    {
        if value > 65535 {
            u16::MAX
        } else {
            value as u16
        }
    }

    /// The symbol and colour role of a status indicator.
    pub fn status_indicator(status: ResourceStatus) -> (r: (&'static str, ColorRole))
        ensures
            r.1 == (match status {
                ResourceStatus::Running | ResourceStatus::Ready => ColorRole::Success,
                ResourceStatus::Pending | ResourceStatus::Updating => ColorRole::Warning,
                ResourceStatus::Failed | ResourceStatus::Error => ColorRole::Error,
                ResourceStatus::Unknown => ColorRole::TextMuted,
            }),
            r.0@ == (match status {
                ResourceStatus::Running | ResourceStatus::Ready => Symbols::SUCCESS@,
                ResourceStatus::Pending | ResourceStatus::Updating => Symbols::PENDING@,
                ResourceStatus::Failed | ResourceStatus::Error => Symbols::ERROR@,
                ResourceStatus::Unknown => Symbols::UNKNOWN@,
            }),
    {
        match status {
            ResourceStatus::Running | ResourceStatus::Ready => (Symbols::SUCCESS, ColorRole::Success),
            ResourceStatus::Pending | ResourceStatus::Updating => (
                Symbols::PENDING,
                ColorRole::Warning,
            ),
            ResourceStatus::Failed | ResourceStatus::Error => (Symbols::ERROR, ColorRole::Error),
            ResourceStatus::Unknown => (Symbols::UNKNOWN, ColorRole::TextMuted),
        }
    }
}

} // verus!
