//! The capability reports: what the host can accelerate, and which display
//! server the session runs on.
//!
//! Neither report looks at the host itself. The acceleration report is a
//! fixed answer that stands in until real detection exists. The display
//! report is computed from the values of four environment variables, which
//! the caller reads and hands over.

use crate::record::{bool_under, text_under, Record, Value, ValueView};
use vstd::prelude::*;

verus! {

/// The variable that names the Wayland display of the session.
pub const WAYLAND_DISPLAY: &'static str = "WAYLAND_DISPLAY";

/// The variable that names the kind of the session.
pub const XDG_SESSION_TYPE: &'static str = "XDG_SESSION_TYPE";

/// The variable that selects the backend of the widget toolkit.
pub const GDK_BACKEND: &'static str = "GDK_BACKEND";

/// The variable that switches off compositing in the web view.
pub const WEBKIT_DISABLE_COMPOSITING_MODE: &'static str = "WEBKIT_DISABLE_COMPOSITING_MODE";

/// The acceleration report: no vendor's hardware found, no acceleration
/// available, the software encoder recommended.
pub open spec fn gpu_capabilities() -> Map<Seq<char>, ValueView> {
    Map::<Seq<char>, ValueView>::empty().insert("has_nvidia"@, ValueView::Bool(false)).insert(
        "has_amd"@,
        ValueView::Bool(false),
    ).insert("has_intel"@, ValueView::Bool(false)).insert(
        "recommended_encoder"@,
        ValueView::Text("libx264"@),
    ).insert("gpu_available"@, ValueView::Bool(false))
}

/// Reports what the host can accelerate. The report is the same on every
/// host and at every call, and the call never fails.
pub fn test_gpu_capabilities() -> (report: Result<Record, String>)
    ensures
        report matches Ok(capabilities) && capabilities@ == gpu_capabilities(),
{
    let mut capabilities = Record::new();
    capabilities.insert("has_nvidia".to_owned(), Value::Bool(false));
    capabilities.insert("has_amd".to_owned(), Value::Bool(false));
    capabilities.insert("has_intel".to_owned(), Value::Bool(false));
    capabilities.insert("recommended_encoder".to_owned(), Value::Text("libx264".to_owned()));
    capabilities.insert("gpu_available".to_owned(), Value::Bool(false));
    Ok(capabilities)
}

/// The values of the environment variables that describe the display
/// server, each `None` where the variable is not set.
#[derive(Debug, PartialEq, Eq)]
pub struct DisplayEnvironment {
    /// The value of `WAYLAND_DISPLAY`.
    pub wayland_display: Option<String>,
    /// The value of `XDG_SESSION_TYPE`.
    pub session_type: Option<String>,
    /// The value of `GDK_BACKEND`.
    pub gdk_backend: Option<String>,
    /// The value of `WEBKIT_DISABLE_COMPOSITING_MODE`.
    pub webkit_compositing: Option<String>,
}

/// The mathematical model of a [`DisplayEnvironment`].
pub struct DisplayEnvironmentView {
    pub wayland_display: Option<Seq<char>>,
    pub session_type: Option<Seq<char>>,
    pub gdk_backend: Option<Seq<char>>,
    pub webkit_compositing: Option<Seq<char>>,
}

/// The text of a variable's value, where it has one.
pub open spec fn value_view(value: Option<String>) -> Option<Seq<char>> {
    match value {
        Some(text) => Some(text@),
        None => None,
    }
}

impl View for DisplayEnvironment {
    type V = DisplayEnvironmentView;

    open spec fn view(&self) -> DisplayEnvironmentView {
        DisplayEnvironmentView {
            wayland_display: value_view(self.wayland_display),
            session_type: value_view(self.session_type),
            gdk_backend: value_view(self.gdk_backend),
            webkit_compositing: value_view(self.webkit_compositing),
        }
    }
}

/// The value of a variable as it is reported: a variable that is not set
/// counts as empty.
pub open spec fn value_or_empty(value: Option<Seq<char>>) -> Seq<char> {
    match value {
        Some(text) => text,
        None => Seq::<char>::empty(),
    }
}

/// Whether the session runs on Wayland: a Wayland display is named, or the
/// session says that it is a Wayland session.
pub open spec fn is_wayland(environment: DisplayEnvironmentView) -> bool {
    value_or_empty(environment.wayland_display).len() > 0 || value_or_empty(
        environment.session_type,
    ) == "wayland"@
}

/// The display report for an environment: the four values as they were
/// read, and whether the session runs on Wayland.
pub open spec fn display_report(environment: DisplayEnvironmentView) -> Map<Seq<char>, ValueView> {
    Map::<Seq<char>, ValueView>::empty().insert(
        "is_wayland"@,
        ValueView::Bool(is_wayland(environment)),
    ).insert("session_type"@, ValueView::Text(value_or_empty(environment.session_type))).insert(
        "wayland_display"@,
        ValueView::Text(value_or_empty(environment.wayland_display)),
    ).insert("gdk_backend"@, ValueView::Text(value_or_empty(environment.gdk_backend))).insert(
        "webkit_compositing_disabled"@,
        ValueView::Text(value_or_empty(environment.webkit_compositing)),
    )
}

/// The display report holds, under its five names, whether the session runs
/// on Wayland and the four values as they are reported.
pub proof fn lemma_display_report_entries(environment: DisplayEnvironmentView)
    ensures
        bool_under(display_report(environment), "is_wayland"@) == Some(is_wayland(environment)),
        text_under(display_report(environment), "session_type"@) == Some(
            value_or_empty(environment.session_type),
        ),
        text_under(display_report(environment), "wayland_display"@) == Some(
            value_or_empty(environment.wayland_display),
        ),
        text_under(display_report(environment), "gdk_backend"@) == Some(
            value_or_empty(environment.gdk_backend),
        ),
        text_under(display_report(environment), "webkit_compositing_disabled"@) == Some(
            value_or_empty(environment.webkit_compositing),
        ),
{
    reveal_strlit("is_wayland");
    reveal_strlit("session_type");
    reveal_strlit("wayland_display");
    reveal_strlit("gdk_backend");
    reveal_strlit("webkit_compositing_disabled");
    assert("is_wayland"@.len() == 10);
    assert("session_type"@.len() == 12);
    assert("wayland_display"@.len() == 15);
    assert("gdk_backend"@.len() == 11);
    assert("webkit_compositing_disabled"@.len() == 27);
}

/// The value of a variable as it is reported.
fn reported(value: &Option<String>) -> (text: String)
    ensures
        text@ == value_or_empty(value_view(*value)),
{
    match value {
        Some(held) => held.clone(),
        None => String::new(),
    }
}

/// Reports which display server the session runs on, from the values of the
/// environment variables in `environment`.
pub fn detect_display_server(environment: &DisplayEnvironment) -> (report: Record)
    ensures
        report@ == display_report(environment@),
        bool_under(report@, "is_wayland"@) == Some(is_wayland(environment@)),
        environment@.wayland_display matches Some(display) && display.len() > 0 ==> bool_under(
            report@,
            "is_wayland"@,
        ) == Some(true),
{
    let wayland_display = reported(&environment.wayland_display);
    let session_type = reported(&environment.session_type);
    let gdk_backend = reported(&environment.gdk_backend);
    let webkit_compositing = reported(&environment.webkit_compositing);
    let wayland_session = "wayland".to_owned();
    let on_wayland = !wayland_display.as_str().is_empty() || session_type == wayland_session;
    let mut report = Record::new();
    report.insert("is_wayland".to_owned(), Value::Bool(on_wayland));
    report.insert("session_type".to_owned(), Value::Text(session_type));
    report.insert("wayland_display".to_owned(), Value::Text(wayland_display));
    report.insert("gdk_backend".to_owned(), Value::Text(gdk_backend));
    report.insert("webkit_compositing_disabled".to_owned(), Value::Text(webkit_compositing));
    proof {
        lemma_display_report_entries(environment@);
    }
    report
}

} // verus!
