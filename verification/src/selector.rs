//! The region selector: the handshake between the surface that owns the
//! record button and the overlay on which the operator draws a rectangle.
//!
//! Three messages drive it: open, publish and close. At most one overlay
//! exists, and at most one region waits to be picked up.

use crate::sources::MonitorProbe;
use crate::types::Region;
use crate::types::ScreenRect;
use vstd::prelude::*;

verus! {

/// Why the overlay could not be opened.
#[derive(Debug, Clone, Copy, PartialEq, Eq, Structural)]
pub enum SelectorError {
    /// The monitor's rectangle could not be resolved.
    MonitorUnavailable,
    /// The monitor is there, but an overlay is open already; it stays as it
    /// is.
    AlreadyOpen,
}

impl SelectorError {
    /// The text shown to the user for this error.
    pub open spec fn text(&self) -> Seq<char> {
        match self {
            SelectorError::MonitorUnavailable => "Failed to retrieve monitor information"@,
            SelectorError::AlreadyOpen => "Region selector is already open"@,
        }
    }

    /// The text shown to the user for this error.
    pub fn message(&self) -> (s: String)
        ensures
            s@ == self.text(),
    {
        match self {
            SelectorError::MonitorUnavailable => String::from_str(
                "Failed to retrieve monitor information",
            ),
            SelectorError::AlreadyOpen => String::from_str("Region selector is already open"),
        }
    }
}

/// How the overlay surface is to be made: it covers one monitor exactly and
/// lies above everything else, without border, and stays hidden until the
/// caller reveals and focuses it.
#[derive(Debug, Clone, Copy, PartialEq, Eq, Structural)]
pub struct OverlayWindow {
    /// The rectangle to cover.
    pub at: ScreenRect,
    pub fullscreen: bool,
    pub decorations: bool,
    pub transparent: bool,
    pub always_on_top: bool,
    pub resizable: bool,
    /// Whether the surface is visible from its creation on.
    pub visible: bool,
}

impl OverlayWindow {
    /// The overlay that covers `at`.
    pub open spec fn covering(at: ScreenRect) -> OverlayWindow {
        OverlayWindow {
            at,
            fullscreen: true,
            decorations: false,
            transparent: true,
            always_on_top: true,
            resizable: false,
            visible: false,
        }
    }

    /// Describes the overlay that covers `at`.
    pub fn over(at: ScreenRect) -> (w: OverlayWindow)
        ensures
            w == OverlayWindow::covering(at),
    {
        OverlayWindow {
            at,
            fullscreen: true,
            decorations: false,
            transparent: true,
            always_on_top: true,
            resizable: false,
            visible: false,
        }
    }
}

/// The selector's state: the rectangle that the overlay covers while one is
/// open, and the region published last while nobody has picked it up.
#[derive(Debug, Clone, Copy, PartialEq, Eq, Structural)]
pub struct RegionSelector {
    overlay: Option<ScreenRect>,
    published: Option<Region>,
}

impl RegionSelector {
    /// The rectangle covered by the overlay, while one is open.
    pub closed spec fn overlay(&self) -> Option<ScreenRect> {
        self.overlay
    }

    /// The region that waits to be picked up, if any.
    pub closed spec fn pending(&self) -> Option<Region> {
        self.published
    }

    /// A selector without overlay and without region.
    pub fn new() -> (s: RegionSelector)
        ensures
            s.overlay() is None,
            s.pending() is None,
    {
        RegionSelector { overlay: None, published: None }
    }

    /// Tells whether an overlay is open.
    pub fn is_open(&self) -> (b: bool)
        ensures
            b == self.overlay() is Some,
    {
        self.overlay.is_some()
    }

    /// Opens the overlay over a monitor.
    ///
    /// The monitor's rectangle is resolved first, as the source registry
    /// resolves it: without a rectangle of positive size the call fails with
    /// `MonitorUnavailable`, whether an overlay is open or not. With one, it
    /// fails with `AlreadyOpen` exactly when an overlay is open. Otherwise the
    /// answer describes the surface that the caller has to create afresh,
    /// then reveal and focus, and that covers the rectangle. A failure
    /// changes nothing; a region that waits stays in either case.
    pub fn open_region_selector(&mut self, monitor: &MonitorProbe) -> (res: Result<
        OverlayWindow,
        SelectorError,
    >)
        ensures
            final(self).pending() == old(self).pending(),
            monitor.bounds() is None ==> res == Err::<OverlayWindow, SelectorError>(
                SelectorError::MonitorUnavailable,
            ),
            monitor.bounds() is Some && old(self).overlay() is Some ==> res == Err::<
                OverlayWindow,
                SelectorError,
            >(SelectorError::AlreadyOpen),
            monitor.bounds() is Some && old(self).overlay() is None ==> res == Ok::<
                OverlayWindow,
                SelectorError,
            >(OverlayWindow::covering(monitor.bounds()->0)),
            res is Ok ==> final(self).overlay() == Some(res->Ok_0.at),
            res is Err ==> final(self).overlay() == old(self).overlay(),
    {
        let at = match monitor.screen_rect() {
            Some(at) => at,
            None => {
                return Err(SelectorError::MonitorUnavailable);
            },
        };
        if self.overlay.is_some() {
            return Err(SelectorError::AlreadyOpen);
        }
        self.overlay = Some(at);
        Ok(OverlayWindow::over(at))
    }

    /// Closes the overlay. The answer tells whether there was one, which the
    /// caller then has to destroy; without one the call changes nothing.
    pub fn close_region_selector(&mut self) -> (destroy: bool)
        ensures
            destroy == old(self).overlay() is Some,
            final(self).overlay() is None,
            final(self).pending() == old(self).pending(),
    {
        let open = self.overlay.is_some();
        self.overlay = None;
        open
    }

    /// Publishes the region that the operator has drawn, and closes the
    /// overlay.
    ///
    /// The region replaces one that still waited: only the latest counts. The
    /// answer tells whether the caller has an overlay to destroy.
    pub fn region_selected(&mut self, coordinates: Region) -> (destroy: bool)
        ensures
            destroy == old(self).overlay() is Some,
            final(self).overlay() is None,
            final(self).pending() == Some(coordinates),
    {
        self.published = Some(coordinates);
        self.close_region_selector()
    }

    /// Hands the published region to the surface that starts the recording.
    /// It is handed out once.
    pub fn take_region(&mut self) -> (region: Option<Region>)
        ensures
            region == old(self).pending(),
            final(self).pending() is None,
            final(self).overlay() == old(self).overlay(),
    {
        let region = self.published;
        self.published = None;
        region
    }
}

} // verus!
