//! The declarative, partial description of a window's desired properties.

use std::sync::Arc;
use vstd::prelude::*;
use vstd::string::StringExecFns;

verus! {

/// The title a configuration starts with until [`ViewportBuilder::with_title`]
/// replaces it.
pub open spec fn default_title() -> Seq<char> {
    "Dummy EGUI Window"@
}

/// A partial, mergeable description of the properties an application wants a
/// window to have.
///
/// The title is always present; every other field is an independent override.
/// An absent (`None`) field means "leave the backend's current value for this
/// property unchanged"; a present field means "apply this value now" — even
/// when the inner value is itself `None`, which asks the backend to clear the
/// property (possible for position, the three sizes and the icon). Nothing is
/// validated here: a zero inner size or a minimum above a maximum is accepted
/// structurally and left for the backend to reject.
#[derive(Debug, Clone, Hash)]
pub struct ViewportBuilder {
    /// Human-readable window title; always present.
    pub title: String,
    /// Application-chosen window name.
    pub name: Option<String>,
    /// Outer position override; `Some(None)` clears any earlier position.
    pub position: Option<Option<(i32, i32)>>,
    /// Inner (content area) size override in physical pixels.
    pub inner_size: Option<Option<(u32, u32)>>,
    /// Whether the window covers the whole screen.
    pub fullscreen: Option<bool>,
    /// Whether the window is maximized.
    pub maximized: Option<bool>,
    /// Whether the user may resize the window.
    pub resizable: Option<bool>,
    /// Whether the window background is transparent.
    pub transparent: Option<bool>,
    /// Whether the window has native decorations.
    pub decorations: Option<bool>,
    /// Window icon as a shared, immutable (width, height, pixel bytes)
    /// triple; sharing the handle avoids copying pixels every frame.
    pub icon: Option<Option<Arc<(u32, u32, Vec<u8>)>>>,
    /// Whether the window grabs focus when shown.
    pub active: Option<bool>,
    /// Whether the window is visible at all.
    pub visible: Option<bool>,
    /// Whether the title text is hidden.
    pub title_hidden: Option<bool>,
    /// Whether the title bar is drawn transparent.
    pub titlebar_transparent: Option<bool>,
    /// Whether the content extends under the title bar.
    pub fullsize_content_view: Option<bool>,
    /// Smallest allowed inner size; `Some(None)` clears the bound.
    pub min_inner_size: Option<Option<(u32, u32)>>,
    /// Largest allowed inner size; `Some(None)` clears the bound.
    pub max_inner_size: Option<Option<(u32, u32)>>,
    /// Whether dropping files onto the window is accepted.
    pub drag_and_drop: Option<bool>,
    /// Whether the close button is shown.
    pub close_button: Option<bool>,
}

/// Every optional field of `c` is absent, so a consumer would touch nothing.
pub open spec fn all_unset(c: ViewportBuilder) -> bool {
    &&& c.name is None
    &&& c.position is None
    &&& c.inner_size is None
    &&& c.fullscreen is None
    &&& c.maximized is None
    &&& c.resizable is None
    &&& c.transparent is None
    &&& c.decorations is None
    &&& c.icon is None
    &&& c.active is None
    &&& c.visible is None
    &&& c.title_hidden is None
    &&& c.titlebar_transparent is None
    &&& c.fullsize_content_view is None
    &&& c.min_inner_size is None
    &&& c.max_inner_size is None
    &&& c.drag_and_drop is None
    &&& c.close_button is None
}

/// What [`ViewportBuilder::empty`] returns: all overrides absent, the
/// default title.
pub open spec fn is_empty_config(c: ViewportBuilder) -> bool {
    all_unset(c) && c.title@ == default_title()
}

impl Default for ViewportBuilder {
    /// A populated starting configuration: a 300 by 200 inner size and a
    /// resizable, transparent, decorated, active, visible window; every
    /// other override absent, the default title.
    fn default() -> (r: Self)
        ensures
            r.title@ == default_title(),
            r.inner_size == Some(Some((300u32, 200u32))),
            r.resizable == Some(true),
            r.transparent == Some(true),
            r.decorations == Some(true),
            r.active == Some(true),
            r.visible == Some(true),
            r.name is None,
            r.position is None,
            r.fullscreen is None,
            r.maximized is None,
            r.icon is None,
            r.title_hidden is None,
            r.titlebar_transparent is None,
            r.fullsize_content_view is None,
            r.min_inner_size is None,
            r.max_inner_size is None,
            r.drag_and_drop is None,
            r.close_button is None,
    {
        ViewportBuilder {
            title: String::from_str("Dummy EGUI Window"),
            name: None,
            position: None,
            inner_size: Some(Some((300, 200))),
            fullscreen: None,
            maximized: None,
            resizable: Some(true),
            transparent: Some(true),
            decorations: Some(true),
            icon: None,
            active: Some(true),
            visible: Some(true),
            title_hidden: None,
            titlebar_transparent: None,
            fullsize_content_view: None,
            min_inner_size: None,
            max_inner_size: None,
            drag_and_drop: None,
            close_button: None,
        }
    }
}

impl ViewportBuilder {
    /// A configuration with every optional field absent and the default
    /// title: the starting point for accumulating explicit overrides.
    pub fn empty() -> (r: Self)
        ensures
            is_empty_config(r),
    {
        ViewportBuilder {
            title: String::from_str("Dummy EGUI Window"),
            name: None,
            position: None,
            inner_size: None,
            fullscreen: None,
            maximized: None,
            resizable: None,
            transparent: None,
            decorations: None,
            icon: None,
            active: None,
            visible: None,
            title_hidden: None,
            titlebar_transparent: None,
            fullsize_content_view: None,
            min_inner_size: None,
            max_inner_size: None,
            drag_and_drop: None,
            close_button: None,
        }
    }

    /// Replaces the title.
    pub fn with_title(self, title: String) -> (r: Self)
        ensures
            r == (ViewportBuilder { title, ..self }),
    {
        ViewportBuilder { title, ..self }
    }

    /// Sets the decorations override.
    pub fn with_decorations(self, decorations: bool) -> (r: Self)
        ensures
            r == (ViewportBuilder { decorations: Some(decorations), ..self }),
    {
        ViewportBuilder { decorations: Some(decorations), ..self }
    }

    /// Sets the fullscreen override.
    pub fn with_fullscreen(self, fullscreen: bool) -> (r: Self)
        ensures
            r == (ViewportBuilder { fullscreen: Some(fullscreen), ..self }),
    {
        ViewportBuilder { fullscreen: Some(fullscreen), ..self }
    }

    /// Sets the maximized override.
    pub fn with_maximized(self, maximized: bool) -> (r: Self)
        ensures
            r == (ViewportBuilder { maximized: Some(maximized), ..self }),
    {
        ViewportBuilder { maximized: Some(maximized), ..self }
    }

    /// Sets the resizable override.
    pub fn with_resizable(self, resizable: bool) -> (r: Self)
        ensures
            r == (ViewportBuilder { resizable: Some(resizable), ..self }),
    {
        ViewportBuilder { resizable: Some(resizable), ..self }
    }

    /// Sets the transparency override.
    pub fn with_transparent(self, transparent: bool) -> (r: Self)
        ensures
            r == (ViewportBuilder { transparent: Some(transparent), ..self }),
    {
        ViewportBuilder { transparent: Some(transparent), ..self }
    }

    /// Sets the icon override; the handle is shared, so the pixel buffer is
    /// not copied. `None` asks the backend to drop any icon.
    pub fn with_window_icon(self, icon: Option<Arc<(u32, u32, Vec<u8>)>>) -> (r: Self)
        ensures
            r == (ViewportBuilder { icon: Some(icon), ..self }),
    {
        ViewportBuilder { icon: Some(icon), ..self }
    }

    /// Sets the focus-on-show override.
    pub fn with_active(self, active: bool) -> (r: Self)
        ensures
            r == (ViewportBuilder { active: Some(active), ..self }),
    {
        ViewportBuilder { active: Some(active), ..self }
    }

    /// Sets the visibility override.
    pub fn with_visible(self, visible: bool) -> (r: Self)
        ensures
            r == (ViewportBuilder { visible: Some(visible), ..self }),
    {
        ViewportBuilder { visible: Some(visible), ..self }
    }

    /// Sets the hidden-title override.
    pub fn with_title_hidden(self, title_hidden: bool) -> (r: Self)
        ensures
            r == (ViewportBuilder { title_hidden: Some(title_hidden), ..self }),
    {
        ViewportBuilder { title_hidden: Some(title_hidden), ..self }
    }

    /// Sets the transparent-title-bar override.
    pub fn with_titlebar_transparent(self, value: bool) -> (r: Self)
        ensures
            r == (ViewportBuilder { titlebar_transparent: Some(value), ..self }),
    {
        ViewportBuilder { titlebar_transparent: Some(value), ..self }
    }

    /// Sets the full-size-content override.
    pub fn with_fullsize_content_view(self, value: bool) -> (r: Self)
        ensures
            r == (ViewportBuilder { fullsize_content_view: Some(value), ..self }),
    {
        ViewportBuilder { fullsize_content_view: Some(value), ..self }
    }

    /// Sets the inner-size override; `None` clears the property.
    pub fn with_inner_size(self, value: Option<(u32, u32)>) -> (r: Self)
        ensures
            r == (ViewportBuilder { inner_size: Some(value), ..self }),
    {
        ViewportBuilder { inner_size: Some(value), ..self }
    }

    /// Sets the minimum-inner-size override; `None` clears the bound.
    pub fn with_min_inner_size(self, value: Option<(u32, u32)>) -> (r: Self)
        ensures
            r == (ViewportBuilder { min_inner_size: Some(value), ..self }),
    {
        ViewportBuilder { min_inner_size: Some(value), ..self }
    }

    /// Sets the maximum-inner-size override; `None` clears the bound.
    pub fn with_max_inner_size(self, value: Option<(u32, u32)>) -> (r: Self)
        ensures
            r == (ViewportBuilder { max_inner_size: Some(value), ..self }),
    {
        ViewportBuilder { max_inner_size: Some(value), ..self }
    }

    /// Sets the close-button override.
    pub fn with_close_button(self, value: bool) -> (r: Self)
        ensures
            r == (ViewportBuilder { close_button: Some(value), ..self }),
    {
        ViewportBuilder { close_button: Some(value), ..self }
    }

    /// Sets the drag-and-drop override.
    pub fn with_drag_and_drop(self, value: bool) -> (r: Self)
        ensures
            r == (ViewportBuilder { drag_and_drop: Some(value), ..self }),
    {
        ViewportBuilder { drag_and_drop: Some(value), ..self }
    }

    /// Sets the position override; `None` clears any earlier position.
    pub fn with_position(self, value: Option<(i32, i32)>) -> (r: Self)
        ensures
            r == (ViewportBuilder { position: Some(value), ..self }),
    {
        ViewportBuilder { position: Some(value), ..self }
    }

    /// Combines a base configuration with an override configuration,
    /// exactly as a consumer applying both must: per field, the override's
    /// value where present, else the base's. The title, always present, is
    /// taken from the override unless the override still carries the
    /// default title, in which case the base's title stands.
    pub fn merge(base: Self, overrides: Self) -> (r: Self)
        ensures
            r == merge_spec(base, overrides),
    {
        let title = if overrides.title == String::from_str("Dummy EGUI Window") {
            base.title
        } else {
            overrides.title
        };
        ViewportBuilder {
            title,
            name: if overrides.name.is_some() {
                overrides.name
            } else {
                base.name
            },
            position: if overrides.position.is_some() {
                overrides.position
            } else {
                base.position
            },
            inner_size: if overrides.inner_size.is_some() {
                overrides.inner_size
            } else {
                base.inner_size
            },
            fullscreen: if overrides.fullscreen.is_some() {
                overrides.fullscreen
            } else {
                base.fullscreen
            },
            maximized: if overrides.maximized.is_some() {
                overrides.maximized
            } else {
                base.maximized
            },
            resizable: if overrides.resizable.is_some() {
                overrides.resizable
            } else {
                base.resizable
            },
            transparent: if overrides.transparent.is_some() {
                overrides.transparent
            } else {
                base.transparent
            },
            decorations: if overrides.decorations.is_some() {
                overrides.decorations
            } else {
                base.decorations
            },
            icon: if overrides.icon.is_some() {
                overrides.icon
            } else {
                base.icon
            },
            active: if overrides.active.is_some() {
                overrides.active
            } else {
                base.active
            },
            visible: if overrides.visible.is_some() {
                overrides.visible
            } else {
                base.visible
            },
            title_hidden: if overrides.title_hidden.is_some() {
                overrides.title_hidden
            } else {
                base.title_hidden
            },
            titlebar_transparent: if overrides.titlebar_transparent.is_some() {
                overrides.titlebar_transparent
            } else {
                base.titlebar_transparent
            },
            fullsize_content_view: if overrides.fullsize_content_view.is_some() {
                overrides.fullsize_content_view
            } else {
                base.fullsize_content_view
            },
            min_inner_size: if overrides.min_inner_size.is_some() {
                overrides.min_inner_size
            } else {
                base.min_inner_size
            },
            max_inner_size: if overrides.max_inner_size.is_some() {
                overrides.max_inner_size
            } else {
                base.max_inner_size
            },
            drag_and_drop: if overrides.drag_and_drop.is_some() {
                overrides.drag_and_drop
            } else {
                base.drag_and_drop
            },
            close_button: if overrides.close_button.is_some() {
                overrides.close_button
            } else {
                base.close_button
            },
        }
    }
}

/// The merge of a base configuration with an override configuration: per
/// field, the override's value where present, else the base's; the title is
/// always present, so the override's title wins unless it is still the
/// default title, in which case the base's title stands.
pub open spec fn merge_spec(base: ViewportBuilder, overrides: ViewportBuilder) -> ViewportBuilder {
    ViewportBuilder {
        title: if overrides.title@ == default_title() {
            base.title
        } else {
            overrides.title
        },
        name: if overrides.name is Some {
            overrides.name
        } else {
            base.name
        },
        position: if overrides.position is Some {
            overrides.position
        } else {
            base.position
        },
        inner_size: if overrides.inner_size is Some {
            overrides.inner_size
        } else {
            base.inner_size
        },
        fullscreen: if overrides.fullscreen is Some {
            overrides.fullscreen
        } else {
            base.fullscreen
        },
        maximized: if overrides.maximized is Some {
            overrides.maximized
        } else {
            base.maximized
        },
        resizable: if overrides.resizable is Some {
            overrides.resizable
        } else {
            base.resizable
        },
        transparent: if overrides.transparent is Some {
            overrides.transparent
        } else {
            base.transparent
        },
        decorations: if overrides.decorations is Some {
            overrides.decorations
        } else {
            base.decorations
        },
        icon: if overrides.icon is Some {
            overrides.icon
        } else {
            base.icon
        },
        active: if overrides.active is Some {
            overrides.active
        } else {
            base.active
        },
        visible: if overrides.visible is Some {
            overrides.visible
        } else {
            base.visible
        },
        title_hidden: if overrides.title_hidden is Some {
            overrides.title_hidden
        } else {
            base.title_hidden
        },
        titlebar_transparent: if overrides.titlebar_transparent is Some {
            overrides.titlebar_transparent
        } else {
            base.titlebar_transparent
        },
        fullsize_content_view: if overrides.fullsize_content_view is Some {
            overrides.fullsize_content_view
        } else {
            base.fullsize_content_view
        },
        min_inner_size: if overrides.min_inner_size is Some {
            overrides.min_inner_size
        } else {
            base.min_inner_size
        },
        max_inner_size: if overrides.max_inner_size is Some {
            overrides.max_inner_size
        } else {
            base.max_inner_size
        },
        drag_and_drop: if overrides.drag_and_drop is Some {
            overrides.drag_and_drop
        } else {
            base.drag_and_drop
        },
        close_button: if overrides.close_button is Some {
            overrides.close_button
        } else {
            base.close_button
        },
    }
}

/// Merge law, first half: an all-unset override configuration (as
/// [`ViewportBuilder::empty`] builds one) leaves any base it is merged onto
/// unchanged.
pub proof fn lemma_merge_empty_override_identity(base: ViewportBuilder, e: ViewportBuilder)
    requires
        is_empty_config(e),
    ensures
        merge_spec(base, e) == base,
{
}

/// Merge law, second half: merging any configuration onto an all-unset base
/// (as [`ViewportBuilder::empty`] builds one) yields that configuration,
/// up to content equality of the fields.
#[verifier::rlimit(30)]
pub proof fn lemma_merge_onto_empty_identity(e: ViewportBuilder, c: ViewportBuilder)
    requires
        is_empty_config(e),
    ensures
        cfg_eq(merge_spec(e, c), c),
{
}

// Each builder method is idempotent: asking for the same override twice,
// with the same value, yields the same configuration as asking once. One
// lemma per method, each stated over the exact record the method's
// `ensures` promises.

/// Setting the same title twice equals setting it once.
pub proof fn lemma_with_title_idempotent(c: ViewportBuilder, t: String)
    ensures
        (ViewportBuilder { title: t, ..(ViewportBuilder { title: t, ..c }) })
            == (ViewportBuilder { title: t, ..c }),
{
}

/// Setting the title twice with equal text also equals setting it once, up
/// to content equality of the fields.
pub proof fn lemma_with_title_idempotent_by_content(c: ViewportBuilder, t1: String, t2: String)
    requires
        t1@ == t2@,
    ensures
        cfg_eq(
            (ViewportBuilder { title: t2, ..(ViewportBuilder { title: t1, ..c }) }),
            (ViewportBuilder { title: t1, ..c }),
        ),
{
}

/// Setting the same decorations override twice equals setting it once.
pub proof fn lemma_with_decorations_idempotent(c: ViewportBuilder, v: bool)
    ensures
        (ViewportBuilder { decorations: Some(v), ..(ViewportBuilder { decorations: Some(v), ..c }) })
            == (ViewportBuilder { decorations: Some(v), ..c }),
{
}

/// Setting the same fullscreen override twice equals setting it once.
pub proof fn lemma_with_fullscreen_idempotent(c: ViewportBuilder, v: bool)
    ensures
        (ViewportBuilder { fullscreen: Some(v), ..(ViewportBuilder { fullscreen: Some(v), ..c }) })
            == (ViewportBuilder { fullscreen: Some(v), ..c }),
{
}

/// Setting the same maximized override twice equals setting it once.
pub proof fn lemma_with_maximized_idempotent(c: ViewportBuilder, v: bool)
    ensures
        (ViewportBuilder { maximized: Some(v), ..(ViewportBuilder { maximized: Some(v), ..c }) })
            == (ViewportBuilder { maximized: Some(v), ..c }),
{
}

/// Setting the same resizable override twice equals setting it once.
pub proof fn lemma_with_resizable_idempotent(c: ViewportBuilder, v: bool)
    ensures
        (ViewportBuilder { resizable: Some(v), ..(ViewportBuilder { resizable: Some(v), ..c }) })
            == (ViewportBuilder { resizable: Some(v), ..c }),
{
}

/// Setting the same transparency override twice equals setting it once.
pub proof fn lemma_with_transparent_idempotent(c: ViewportBuilder, v: bool)
    ensures
        (ViewportBuilder { transparent: Some(v), ..(ViewportBuilder { transparent: Some(v), ..c }) })
            == (ViewportBuilder { transparent: Some(v), ..c }),
{
}

/// Setting the same icon override twice equals setting it once.
pub proof fn lemma_with_window_icon_idempotent(
    c: ViewportBuilder,
    v: Option<Arc<(u32, u32, Vec<u8>)>>,
)
    ensures
        (ViewportBuilder { icon: Some(v), ..(ViewportBuilder { icon: Some(v), ..c }) })
            == (ViewportBuilder { icon: Some(v), ..c }),
{
}

/// Setting the same focus-on-show override twice equals setting it once.
pub proof fn lemma_with_active_idempotent(c: ViewportBuilder, v: bool)
    ensures
        (ViewportBuilder { active: Some(v), ..(ViewportBuilder { active: Some(v), ..c }) })
            == (ViewportBuilder { active: Some(v), ..c }),
{
}

/// Setting the same visibility override twice equals setting it once.
pub proof fn lemma_with_visible_idempotent(c: ViewportBuilder, v: bool)
    ensures
        (ViewportBuilder { visible: Some(v), ..(ViewportBuilder { visible: Some(v), ..c }) })
            == (ViewportBuilder { visible: Some(v), ..c }),
{
}

/// Setting the same hidden-title override twice equals setting it once.
pub proof fn lemma_with_title_hidden_idempotent(c: ViewportBuilder, v: bool)
    ensures
        (ViewportBuilder { title_hidden: Some(v), ..(ViewportBuilder { title_hidden: Some(v), ..c }) })
            == (ViewportBuilder { title_hidden: Some(v), ..c }),
{
}

/// Setting the same transparent-title-bar override twice equals setting it
/// once.
pub proof fn lemma_with_titlebar_transparent_idempotent(c: ViewportBuilder, v: bool)
    ensures
        (ViewportBuilder {
            titlebar_transparent: Some(v),
            ..(ViewportBuilder { titlebar_transparent: Some(v), ..c })
        }) == (ViewportBuilder { titlebar_transparent: Some(v), ..c }),
{
}

/// Setting the same full-size-content override twice equals setting it once.
pub proof fn lemma_with_fullsize_content_view_idempotent(c: ViewportBuilder, v: bool)
    ensures
        (ViewportBuilder {
            fullsize_content_view: Some(v),
            ..(ViewportBuilder { fullsize_content_view: Some(v), ..c })
        }) == (ViewportBuilder { fullsize_content_view: Some(v), ..c }),
{
}

/// Setting the same inner-size override twice equals setting it once.
pub proof fn lemma_with_inner_size_idempotent(c: ViewportBuilder, v: Option<(u32, u32)>)
    ensures
        (ViewportBuilder { inner_size: Some(v), ..(ViewportBuilder { inner_size: Some(v), ..c }) })
            == (ViewportBuilder { inner_size: Some(v), ..c }),
{
}

/// Setting the same minimum-inner-size override twice equals setting it
/// once.
pub proof fn lemma_with_min_inner_size_idempotent(c: ViewportBuilder, v: Option<(u32, u32)>)
    ensures
        (ViewportBuilder {
            min_inner_size: Some(v),
            ..(ViewportBuilder { min_inner_size: Some(v), ..c })
        }) == (ViewportBuilder { min_inner_size: Some(v), ..c }),
{
}

/// Setting the same maximum-inner-size override twice equals setting it
/// once.
pub proof fn lemma_with_max_inner_size_idempotent(c: ViewportBuilder, v: Option<(u32, u32)>)
    ensures
        (ViewportBuilder {
            max_inner_size: Some(v),
            ..(ViewportBuilder { max_inner_size: Some(v), ..c })
        }) == (ViewportBuilder { max_inner_size: Some(v), ..c }),
{
}

/// Setting the same close-button override twice equals setting it once.
pub proof fn lemma_with_close_button_idempotent(c: ViewportBuilder, v: bool)
    ensures
        (ViewportBuilder { close_button: Some(v), ..(ViewportBuilder { close_button: Some(v), ..c }) })
            == (ViewportBuilder { close_button: Some(v), ..c }),
{
}

/// Setting the same drag-and-drop override twice equals setting it once.
pub proof fn lemma_with_drag_and_drop_idempotent(c: ViewportBuilder, v: bool)
    ensures
        (ViewportBuilder { drag_and_drop: Some(v), ..(ViewportBuilder { drag_and_drop: Some(v), ..c }) })
            == (ViewportBuilder { drag_and_drop: Some(v), ..c }),
{
}

/// One builder call, reified as data so that a law can speak about every
/// finite chain of builder calls at once. Each variant stands for the
/// builder method of the same name, and [`apply_step`] performs exactly the
/// record update that the method's `ensures` promises.
pub enum BuilderStep {
    Title(String),
    Decorations(bool),
    Fullscreen(bool),
    Maximized(bool),
    Resizable(bool),
    Transparent(bool),
    WindowIcon(Option<Arc<(u32, u32, Vec<u8>)>>),
    Active(bool),
    Visible(bool),
    TitleHidden(bool),
    TitlebarTransparent(bool),
    FullsizeContentView(bool),
    InnerSize(Option<(u32, u32)>),
    MinInnerSize(Option<(u32, u32)>),
    MaxInnerSize(Option<(u32, u32)>),
    CloseButton(bool),
    DragAndDrop(bool),
    Position(Option<(i32, i32)>),
}

/// One optional field of a configuration, named so that a law can quantify
/// over the fields.
pub enum OptField {
    Name,
    Position,
    InnerSize,
    Fullscreen,
    Maximized,
    Resizable,
    Transparent,
    Decorations,
    Icon,
    Active,
    Visible,
    TitleHidden,
    TitlebarTransparent,
    FullsizeContentView,
    MinInnerSize,
    MaxInnerSize,
    DragAndDrop,
    CloseButton,
}

/// The record update the builder method reified by `s` performs on `c`.
pub open spec fn apply_step(c: ViewportBuilder, s: BuilderStep) -> ViewportBuilder {
    match s {
        BuilderStep::Title(t) => ViewportBuilder { title: t, ..c },
        BuilderStep::Decorations(v) => ViewportBuilder { decorations: Some(v), ..c },
        BuilderStep::Fullscreen(v) => ViewportBuilder { fullscreen: Some(v), ..c },
        BuilderStep::Maximized(v) => ViewportBuilder { maximized: Some(v), ..c },
        BuilderStep::Resizable(v) => ViewportBuilder { resizable: Some(v), ..c },
        BuilderStep::Transparent(v) => ViewportBuilder { transparent: Some(v), ..c },
        BuilderStep::WindowIcon(v) => ViewportBuilder { icon: Some(v), ..c },
        BuilderStep::Active(v) => ViewportBuilder { active: Some(v), ..c },
        BuilderStep::Visible(v) => ViewportBuilder { visible: Some(v), ..c },
        BuilderStep::TitleHidden(v) => ViewportBuilder { title_hidden: Some(v), ..c },
        BuilderStep::TitlebarTransparent(v) => ViewportBuilder {
            titlebar_transparent: Some(v),
            ..c
        },
        BuilderStep::FullsizeContentView(v) => ViewportBuilder {
            fullsize_content_view: Some(v),
            ..c
        },
        BuilderStep::InnerSize(v) => ViewportBuilder { inner_size: Some(v), ..c },
        BuilderStep::MinInnerSize(v) => ViewportBuilder { min_inner_size: Some(v), ..c },
        BuilderStep::MaxInnerSize(v) => ViewportBuilder { max_inner_size: Some(v), ..c },
        BuilderStep::CloseButton(v) => ViewportBuilder { close_button: Some(v), ..c },
        BuilderStep::DragAndDrop(v) => ViewportBuilder { drag_and_drop: Some(v), ..c },
        BuilderStep::Position(v) => ViewportBuilder { position: Some(v), ..c },
    }
}

/// The configuration a chain of builder calls leaves behind, first call
/// first.
pub open spec fn apply_steps(c: ViewportBuilder, steps: Seq<BuilderStep>) -> ViewportBuilder
    decreases steps.len(),
{
    if steps.len() == 0 {
        c
    } else {
        apply_steps(apply_step(c, steps[0]), steps.subrange(1, steps.len() as int))
    }
}

/// Whether the optional field `f` of `c` is present.
pub open spec fn opt_field_present(c: ViewportBuilder, f: OptField) -> bool {
    match f {
        OptField::Name => c.name is Some,
        OptField::Position => c.position is Some,
        OptField::InnerSize => c.inner_size is Some,
        OptField::Fullscreen => c.fullscreen is Some,
        OptField::Maximized => c.maximized is Some,
        OptField::Resizable => c.resizable is Some,
        OptField::Transparent => c.transparent is Some,
        OptField::Decorations => c.decorations is Some,
        OptField::Icon => c.icon is Some,
        OptField::Active => c.active is Some,
        OptField::Visible => c.visible is Some,
        OptField::TitleHidden => c.title_hidden is Some,
        OptField::TitlebarTransparent => c.titlebar_transparent is Some,
        OptField::FullsizeContentView => c.fullsize_content_view is Some,
        OptField::MinInnerSize => c.min_inner_size is Some,
        OptField::MaxInnerSize => c.max_inner_size is Some,
        OptField::DragAndDrop => c.drag_and_drop is Some,
        OptField::CloseButton => c.close_button is Some,
    }
}

/// Whether the builder call reified by `s` sets the optional field `f`.
/// No call sets the name, which only direct field access can fill.
pub open spec fn step_sets(s: BuilderStep, f: OptField) -> bool {
    match (s, f) {
        (BuilderStep::Decorations(_), OptField::Decorations) => true,
        (BuilderStep::Fullscreen(_), OptField::Fullscreen) => true,
        (BuilderStep::Maximized(_), OptField::Maximized) => true,
        (BuilderStep::Resizable(_), OptField::Resizable) => true,
        (BuilderStep::Transparent(_), OptField::Transparent) => true,
        (BuilderStep::WindowIcon(_), OptField::Icon) => true,
        (BuilderStep::Active(_), OptField::Active) => true,
        (BuilderStep::Visible(_), OptField::Visible) => true,
        (BuilderStep::TitleHidden(_), OptField::TitleHidden) => true,
        (BuilderStep::TitlebarTransparent(_), OptField::TitlebarTransparent) => true,
        (BuilderStep::FullsizeContentView(_), OptField::FullsizeContentView) => true,
        (BuilderStep::InnerSize(_), OptField::InnerSize) => true,
        (BuilderStep::MinInnerSize(_), OptField::MinInnerSize) => true,
        (BuilderStep::MaxInnerSize(_), OptField::MaxInnerSize) => true,
        (BuilderStep::CloseButton(_), OptField::CloseButton) => true,
        (BuilderStep::DragAndDrop(_), OptField::DragAndDrop) => true,
        (BuilderStep::Position(_), OptField::Position) => true,
        _ => false,
    }
}

/// After any chain of builder calls, an optional field is present exactly
/// when it was present before the chain or some call in the chain sets it.
pub proof fn lemma_steps_presence(c: ViewportBuilder, steps: Seq<BuilderStep>, f: OptField)
    ensures
        opt_field_present(apply_steps(c, steps), f) <==> (opt_field_present(c, f) || exists|
            i: int,
        |
            0 <= i < steps.len() && #[trigger] step_sets(steps[i], f)),
    decreases steps.len(),
{
    if steps.len() == 0 {
    } else {
        let c1 = apply_step(c, steps[0]);
        let tail = steps.subrange(1, steps.len() as int);
        lemma_steps_presence(c1, tail, f);
        assert(opt_field_present(c1, f) <==> (opt_field_present(c, f) || step_sets(steps[0], f)));
        if exists|i: int| 0 <= i < tail.len() && #[trigger] step_sets(tail[i], f) {
            let j = choose|i: int| 0 <= i < tail.len() && #[trigger] step_sets(tail[i], f);
            assert(tail[j] == steps[j + 1]);
            assert(step_sets(steps[j + 1], f));
        }
        if exists|i: int| 0 <= i < steps.len() && #[trigger] step_sets(steps[i], f) {
            let j = choose|i: int| 0 <= i < steps.len() && #[trigger] step_sets(steps[i], f);
            if j > 0 {
                assert(tail[j - 1] == steps[j]);
                assert(step_sets(tail[j - 1], f));
            }
        }
    }
}

/// Exactly the optional fields that some builder call in the chain sets are
/// present in a configuration built up from an all-unset start; every other
/// optional field — the name always among them — stays absent.
pub proof fn lemma_exactly_explicit_fields_present(
    e: ViewportBuilder,
    steps: Seq<BuilderStep>,
    f: OptField,
)
    requires
        is_empty_config(e),
    ensures
        opt_field_present(apply_steps(e, steps), f) <==> (exists|i: int|
            0 <= i < steps.len() && #[trigger] step_sets(steps[i], f)),
{
    lemma_steps_presence(e, steps, f);
}

/// Content equality of two optional names: both absent, or both present
/// with the same characters.
pub open spec fn opt_string_eq_spec(a: Option<String>, b: Option<String>) -> bool {
    match (a, b) {
        (Option::None, Option::None) => true,
        (Option::Some(x), Option::Some(y)) => x@ == y@,
        _ => false,
    }
}

/// Content equality of two icon overrides: same presence, and present icons
/// have the same width, height and pixel bytes.
pub open spec fn icon_eq_spec(
    a: Option<Option<Arc<(u32, u32, Vec<u8>)>>>,
    b: Option<Option<Arc<(u32, u32, Vec<u8>)>>>,
) -> bool {
    match (a, b) {
        (Option::None, Option::None) => true,
        (Option::Some(Option::None), Option::Some(Option::None)) => true,
        (Option::Some(Option::Some(x)), Option::Some(Option::Some(y))) => x@ == y@,
        _ => false,
    }
}

/// Structural equality of two configurations, field by field, comparing
/// strings and icon pixel buffers by content. This is what `==` on
/// [`ViewportBuilder`] decides.
pub open spec fn cfg_eq(a: ViewportBuilder, b: ViewportBuilder) -> bool {
    &&& a.title@ == b.title@
    &&& opt_string_eq_spec(a.name, b.name)
    &&& a.position == b.position
    &&& a.inner_size == b.inner_size
    &&& a.fullscreen == b.fullscreen
    &&& a.maximized == b.maximized
    &&& a.resizable == b.resizable
    &&& a.transparent == b.transparent
    &&& a.decorations == b.decorations
    &&& icon_eq_spec(a.icon, b.icon)
    &&& a.active == b.active
    &&& a.visible == b.visible
    &&& a.title_hidden == b.title_hidden
    &&& a.titlebar_transparent == b.titlebar_transparent
    &&& a.fullsize_content_view == b.fullsize_content_view
    &&& a.min_inner_size == b.min_inner_size
    &&& a.max_inner_size == b.max_inner_size
    &&& a.drag_and_drop == b.drag_and_drop
    &&& a.close_button == b.close_button
}

fn opt_string_eq(a: &Option<String>, b: &Option<String>) -> (r: bool)
    ensures
        r == opt_string_eq_spec(*a, *b),
{
    match (a, b) {
        (None, None) => true,
        (Some(x), Some(y)) => *x == *y,
        _ => false,
    }
}

fn opt_bool_eq(a: Option<bool>, b: Option<bool>) -> (r: bool)
    ensures
        r == (a == b),
{
    match (a, b) {
        (None, None) => true,
        (Some(x), Some(y)) => x == y,
        _ => false,
    }
}

fn opt_upair_eq(a: Option<Option<(u32, u32)>>, b: Option<Option<(u32, u32)>>) -> (r: bool)
    ensures
        r == (a == b),
{
    match (a, b) {
        (None, None) => true,
        (Some(None), Some(None)) => true,
        (Some(Some(x)), Some(Some(y))) => x.0 == y.0 && x.1 == y.1,
        _ => false,
    }
}

fn opt_ipair_eq(a: Option<Option<(i32, i32)>>, b: Option<Option<(i32, i32)>>) -> (r: bool)
    ensures
        r == (a == b),
{
    match (a, b) {
        (None, None) => true,
        (Some(None), Some(None)) => true,
        (Some(Some(x)), Some(Some(y))) => x.0 == y.0 && x.1 == y.1,
        _ => false,
    }
}

fn vec_u8_eq(a: &Vec<u8>, b: &Vec<u8>) -> (r: bool)
    ensures
        r == (a@ == b@),
{
    if a.len() != b.len() {
        return false;
    }
    let mut i: usize = 0;
    while i < a.len()
        invariant
            a@.len() == b@.len(),
            i <= a@.len(),
            forall|j: int| 0 <= j < i ==> a@[j] == b@[j],
        decreases a@.len() - i,
    {
        if a[i] != b[i] {
            return false;
        }
        i = i + 1;
    }
    proof {
        assert(a@ =~= b@);
    }
    true
}

fn icon_eq(
    a: &Option<Option<Arc<(u32, u32, Vec<u8>)>>>,
    b: &Option<Option<Arc<(u32, u32, Vec<u8>)>>>,
) -> (r: bool)
    ensures
        r == icon_eq_spec(*a, *b),
{
    match (a, b) {
        (None, None) => true,
        (Some(None), Some(None)) => true,
        (Some(Some(x)), Some(Some(y))) => {
            let vx = &**x;
            let vy = &**y;
            vx.0 == vy.0 && vx.1 == vy.1 && vec_u8_eq(&vx.2, &vy.2)
        },
        _ => false,
    }
}

impl PartialEq for ViewportBuilder {
    /// Structural equality over all fields; strings and icon pixels are
    /// compared by content, so separately built equal configurations
    /// compare equal.
    fn eq(&self, other: &Self) -> (r: bool) {
        self.title == other.title && opt_string_eq(&self.name, &other.name) && opt_ipair_eq(
            self.position,
            other.position,
        ) && opt_upair_eq(self.inner_size, other.inner_size) && opt_bool_eq(
            self.fullscreen,
            other.fullscreen,
        ) && opt_bool_eq(self.maximized, other.maximized) && opt_bool_eq(
            self.resizable,
            other.resizable,
        ) && opt_bool_eq(self.transparent, other.transparent) && opt_bool_eq(
            self.decorations,
            other.decorations,
        ) && icon_eq(&self.icon, &other.icon) && opt_bool_eq(self.active, other.active)
            && opt_bool_eq(self.visible, other.visible) && opt_bool_eq(
            self.title_hidden,
            other.title_hidden,
        ) && opt_bool_eq(self.titlebar_transparent, other.titlebar_transparent) && opt_bool_eq(
            self.fullsize_content_view,
            other.fullsize_content_view,
        ) && opt_upair_eq(self.min_inner_size, other.min_inner_size) && opt_upair_eq(
            self.max_inner_size,
            other.max_inner_size,
        ) && opt_bool_eq(self.drag_and_drop, other.drag_and_drop) && opt_bool_eq(
            self.close_button,
            other.close_button,
        )
    }
}

impl vstd::std_specs::cmp::PartialEqSpecImpl for ViewportBuilder {
    open spec fn obeys_eq_spec() -> bool {
        true
    }

    open spec fn eq_spec(&self, other: &Self) -> bool {
        cfg_eq(*self, *other)
    }
}

impl Eq for ViewportBuilder {}

/// Setting the same position override twice equals setting it once.
pub proof fn lemma_with_position_idempotent(c: ViewportBuilder, v: Option<(i32, i32)>)
    ensures
        (ViewportBuilder { position: Some(v), ..(ViewportBuilder { position: Some(v), ..c }) })
            == (ViewportBuilder { position: Some(v), ..c }),
{
}

} // verus!
