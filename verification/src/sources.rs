//! The source registry: turns what the operating system reports about
//! displays, windows and cameras into the lists offered to the user.
//!
//! The caller asks the system and records each answer in a probe; the
//! functions here decide which probes become entries, and with what values.

use crate::error::CaptureSourceError;
use crate::error::WebcamError;
use crate::text::is_blank;
use crate::text::str_is_blank;
use crate::types::CaptureSource;
use crate::types::MonitorInfo;
use crate::types::ScreenRect;
use crate::types::Webcam;
use crate::types::WindowInfo;
use vstd::prelude::*;

verus! {

/// A display's rectangle on the virtual screen, as the system reports it.
#[derive(Debug, Clone, Copy, PartialEq, Eq, Structural)]
pub struct MonitorRect {
    pub left: i32,
    pub top: i32,
    pub right: i32,
    pub bottom: i32,
}

/// What was learnt about one display. A query that failed is `None`.
#[derive(Debug, Clone, PartialEq, Eq)]
pub struct MonitorProbe {
    pub hmonitor: isize,
    /// The rectangle query's answer.
    pub rect: Option<MonitorRect>,
    /// Width that the display handle itself reports.
    pub width: Option<u32>,
    /// Height that the display handle itself reports.
    pub height: Option<u32>,
    pub name: Option<String>,
}

/// What was learnt about one top-level window. A query that failed is `None`.
#[derive(Debug, Clone, PartialEq, Eq)]
pub struct WindowProbe {
    pub hwnd: isize,
    /// The handle denotes a window that can be captured.
    pub valid: bool,
    /// The window is minimized.
    pub minimized: bool,
    pub title: Option<String>,
    /// Width and height of the window's capture item.
    pub size: Option<(i32, i32)>,
}

/// What was learnt about one camera. A query that failed is `None`.
#[derive(Debug, Clone, PartialEq, Eq)]
pub struct WebcamProbe {
    pub enabled: Option<bool>,
    pub name: Option<String>,
    pub id: Option<String>,
}

/// The sources found, and what went wrong on the way without stopping the
/// listing.
#[derive(Debug, Clone, PartialEq, Eq)]
pub struct SourceListing {
    pub sources: Vec<CaptureSource>,
    /// Set when the windows could not be enumerated: the listing then holds
    /// the monitors only.
    pub warning: Option<CaptureSourceError>,
}

impl MonitorProbe {
    /// Origin, width and height of the display: from its rectangle where the
    /// rectangle query answered, else from the handle's own dimensions with
    /// the origin at zero.
    pub open spec fn placement(&self) -> Option<(i32, i32, int, int)> {
        match self.rect {
            Some(r) => Some((r.left, r.top, r.right - r.left, r.bottom - r.top)),
            None => match (self.width, self.height) {
                (Some(w), Some(h)) => Some((0i32, 0i32, w as int, h as int)),
                _ => None,
            },
        }
    }

    /// Where the display lies on the virtual screen, if that is known and the
    /// display has a positive width and height.
    pub open spec fn bounds(&self) -> Option<ScreenRect> {
        match self.placement() {
            Some((left, top, wide, high)) => if wide > 0 && high > 0 {
                Some(ScreenRect { left, top, width: wide as u32, height: high as u32 })
            } else {
                None
            },
            None => None,
        }
    }

    /// The display can be offered: its size is known and positive, and it has
    /// a name that is not blank.
    pub open spec fn is_listed(&self) -> bool {
        &&& self.bounds() is Some
        &&& self.name is Some
        &&& !is_blank(self.name->0@)
    }

    /// The entry that the display gets at position `id`, if it is offered.
    pub open spec fn entry(&self, id: usize) -> Option<MonitorInfo> {
        if self.is_listed() {
            Some(
                MonitorInfo {
                    id,
                    hmonitor: self.hmonitor,
                    name: self.name->0,
                    width: self.bounds()->0.width,
                    height: self.bounds()->0.height,
                    left: self.bounds()->0.left,
                    top: self.bounds()->0.top,
                },
            )
        } else {
            None
        }
    }

    /// Resolves the display's rectangle on the virtual screen.
    ///
    /// The rectangle query's answer decides where there is one; the
    /// dimensions that the handle reports are used only where there is none.
    pub fn screen_rect(&self) -> (res: Option<ScreenRect>)
        ensures
            res == self.bounds(),
    {
        let mut left: i32 = 0;
        let mut top: i32 = 0;
        let wide: i64;
        let high: i64;
        match self.rect {
            Some(r) => {
                left = r.left;
                top = r.top;
                wide = r.right as i64 - r.left as i64;
                high = r.bottom as i64 - r.top as i64;
            },
            None => {
                match (self.width, self.height) {
                    (Some(w), Some(h)) => {
                        wide = w as i64;
                        high = h as i64;
                    },
                    _ => {
                        return None;
                    },
                }
            },
        }
        if wide <= 0 || high <= 0 {
            return None;
        }
        Some(ScreenRect { left, top, width: wide as u32, height: high as u32 })
    }

    /// Describes the display found at position `id` of an enumeration, or
    /// drops it.
    pub fn describe(&self, id: usize) -> (res: Option<MonitorInfo>)
        ensures
            res == self.entry(id),
    {
        let at = match self.screen_rect() {
            Some(at) => at,
            None => {
                return None;
            },
        };
        match &self.name {
            Some(n) => {
                if str_is_blank(n.as_str()) {
                    None
                } else {
                    Some(
                        MonitorInfo {
                            id,
                            hmonitor: self.hmonitor,
                            name: n.clone(),
                            width: at.width,
                            height: at.height,
                            left: at.left,
                            top: at.top,
                        },
                    )
                }
            },
            None => None,
        }
    }
}

/// The entries of the displays in `probes` that can be offered, in the order
/// of the enumeration, each with its position there as `id`.
pub open spec fn monitor_entries(probes: Seq<MonitorProbe>) -> Seq<MonitorInfo>
    decreases probes.len(),
{
    if probes.len() == 0 {
        Seq::empty()
    } else {
        let before = monitor_entries(probes.drop_last());
        match probes.last().entry((probes.len() - 1) as usize) {
            Some(m) => before.push(m),
            None => before,
        }
    }
}

/// Every display offered has a positive width and height and a name that is
/// not blank, and is what its probe says: the entry's `id` is the probe's
/// position in the enumeration.
pub proof fn lemma_monitor_entries_valid(probes: Seq<MonitorProbe>, k: int)
    requires
        probes.len() <= usize::MAX,
        0 <= k < monitor_entries(probes).len(),
    ensures
        monitor_entries(probes)[k].is_valid(),
        0 <= monitor_entries(probes)[k].id < probes.len(),
        probes[monitor_entries(probes)[k].id as int].entry(monitor_entries(probes)[k].id) == Some(
            monitor_entries(probes)[k],
        ),
    decreases probes.len(),
{
    let before = monitor_entries(probes.drop_last());
    if k < before.len() {
        lemma_monitor_entries_valid(probes.drop_last(), k);
        assert(probes.drop_last()[before[k].id as int] == probes[before[k].id as int]);
    }
}

/// The displays offered keep the order of the enumeration: their `id`s grow
/// from one entry to the next.
pub proof fn lemma_monitor_entries_ordered(probes: Seq<MonitorProbe>, j: int, k: int)
    requires
        probes.len() <= usize::MAX,
        0 <= j < k < monitor_entries(probes).len(),
    ensures
        monitor_entries(probes)[j].id < monitor_entries(probes)[k].id,
    decreases probes.len(),
{
    let before = monitor_entries(probes.drop_last());
    if k < before.len() {
        lemma_monitor_entries_ordered(probes.drop_last(), j, k);
    } else {
        lemma_monitor_entries_valid(probes.drop_last(), j);
    }
}

/// A display that can be offered is offered: none is lost.
pub proof fn lemma_monitor_entries_complete(probes: Seq<MonitorProbe>, i: int)
    requires
        probes.len() <= usize::MAX,
        0 <= i < probes.len(),
        probes[i].is_listed(),
    ensures
        monitor_entries(probes).contains(probes[i].entry(i as usize)->0),
    decreases probes.len(),
{
    let before = monitor_entries(probes.drop_last());
    let all = monitor_entries(probes);
    if i < probes.len() - 1 {
        lemma_monitor_entries_complete(probes.drop_last(), i);
        let e = probes[i].entry(i as usize)->0;
        let at = choose|at: int| 0 <= at < before.len() && before[at] == e;
        assert(all[at] == e);
    } else {
        assert(all[all.len() - 1] == probes[i].entry(i as usize)->0);
    }
}

impl WindowProbe {
    /// The window passes the first filter: it can be captured, is not
    /// minimized, and its title, where one could be read, is not blank.
    pub open spec fn is_available(&self) -> bool {
        &&& self.valid
        &&& !self.minimized
        &&& !(self.title is Some && is_blank(self.title->0@))
    }

    /// The window can be offered: its title was read and is not blank, and
    /// its capture item has a positive size.
    pub open spec fn is_listed(&self) -> bool {
        match (self.title, self.size) {
            (Some(title), Some((wide, high))) => !is_blank(title@) && wide > 0 && high > 0,
            _ => false,
        }
    }

    /// The entry that the window gets at position `id`, if it is offered.
    pub open spec fn entry(&self, id: usize) -> Option<WindowInfo> {
        match (self.title, self.size) {
            (Some(title), Some((wide, high))) => if self.is_listed() {
                Some(
                    WindowInfo {
                        id,
                        hwnd: self.hwnd,
                        title,
                        width: wide as u32,
                        height: high as u32,
                    },
                )
            } else {
                None
            },
            _ => None,
        }
    }

    /// Tells whether the window passes the first filter.
    pub fn passes(&self) -> (b: bool)
        ensures
            b == self.is_available(),
    {
        if !self.valid || self.minimized {
            return false;
        }
        match &self.title {
            Some(t) => !str_is_blank(t.as_str()),
            None => true,
        }
    }

    /// A copy of the probe.
    pub fn duplicate(&self) -> (p: WindowProbe)
        ensures
            p == *self,
    {
        let title: Option<String> = match &self.title {
            Some(t) => Some(t.clone()),
            None => None,
        };
        WindowProbe {
            hwnd: self.hwnd,
            valid: self.valid,
            minimized: self.minimized,
            title,
            size: self.size,
        }
    }

    /// Describes the window found at position `id` among the available
    /// windows, or drops it.
    pub fn describe(&self, id: usize) -> (res: Option<WindowInfo>)
        ensures
            res == self.entry(id),
    {
        let (wide, high): (i32, i32) = match self.size {
            Some(s) => s,
            None => {
                return None;
            },
        };
        if wide <= 0 || high <= 0 {
            return None;
        }
        match &self.title {
            Some(t) => {
                if str_is_blank(t.as_str()) {
                    None
                } else {
                    Some(
                        WindowInfo {
                            id,
                            hwnd: self.hwnd,
                            title: t.clone(),
                            width: wide as u32,
                            height: high as u32,
                        },
                    )
                }
            },
            None => None,
        }
    }
}

/// The windows of `probes` that pass the first filter, in their order.
pub open spec fn available_windows(probes: Seq<WindowProbe>) -> Seq<WindowProbe> {
    probes.filter(|p: WindowProbe| p.is_available())
}

/// The entries of the windows in `probes` that can be offered, in their
/// order, each with its position in `probes` as `id`.
pub open spec fn window_entries(probes: Seq<WindowProbe>) -> Seq<WindowInfo>
    decreases probes.len(),
{
    if probes.len() == 0 {
        Seq::empty()
    } else {
        let before = window_entries(probes.drop_last());
        match probes.last().entry((probes.len() - 1) as usize) {
            Some(w) => before.push(w),
            None => before,
        }
    }
}

/// The windows offered for an enumeration: the entries of those that pass
/// the first filter.
pub open spec fn window_list(probes: Seq<WindowProbe>) -> Seq<WindowInfo> {
    window_entries(available_windows(probes))
}

/// What of a window reaches its entry: handle, title and size.
pub open spec fn window_facts(p: WindowProbe) -> (isize, Option<String>, Option<(i32, i32)>) {
    (p.hwnd, p.title, p.size)
}

/// What an entry says of its window, in the shape of `window_facts`.
pub open spec fn entry_facts(w: WindowInfo) -> (isize, Option<String>, Option<(i32, i32)>) {
    (w.hwnd, Some(w.title), Some((w.width as i32, w.height as i32)))
}

/// The windows offered are exactly the windows enumerated without those that
/// cannot be captured, are minimized, have no title or a blank one, or have
/// no positive size: every other window is there, in the enumeration's order,
/// with its handle, title and size unchanged.
pub proof fn lemma_window_list_is_filter(probes: Seq<WindowProbe>)
    ensures
        window_list(probes).map_values(|w: WindowInfo| entry_facts(w)) == probes.filter(
            |p: WindowProbe| p.is_available() && p.is_listed(),
        ).map_values(|p: WindowProbe| window_facts(p)),
    decreases probes.len(),
{
    reveal(Seq::filter);
    let keep = |p: WindowProbe| p.is_available() && p.is_listed();
    let avail = |p: WindowProbe| p.is_available();
    let of_entry = |w: WindowInfo| entry_facts(w);
    let of_probe = |p: WindowProbe| window_facts(p);
    if probes.len() > 0 {
        let head = probes.drop_last();
        let last = probes.last();
        lemma_window_list_is_filter(head);
        if last.is_available() {
            let a = head.filter(avail);
            assert(probes.filter(avail) == a.push(last));
            assert(a.push(last).drop_last() =~= a);
            if last.is_listed() {
                let e = last.entry(a.len() as usize)->0;
                assert(window_list(probes) == window_entries(a).push(e));
                assert(window_entries(a).push(e).map_values(of_entry) =~= window_entries(
                    a,
                ).map_values(of_entry).push(entry_facts(e)));
                assert(head.filter(keep).push(last).map_values(of_probe) =~= head.filter(
                    keep,
                ).map_values(of_probe).push(window_facts(last)));
            }
        }
    } else {
        assert(window_list(probes).map_values(of_entry) =~= probes.filter(keep).map_values(
            of_probe,
        ));
    }
}

/// Every window offered has a positive width and height and a title that is
/// not blank.
pub proof fn lemma_window_entries_valid(probes: Seq<WindowProbe>, k: int)
    requires
        0 <= k < window_entries(probes).len(),
    ensures
        window_entries(probes)[k].is_valid(),
    decreases probes.len(),
{
    let before = window_entries(probes.drop_last());
    if k < before.len() {
        lemma_window_entries_valid(probes.drop_last(), k);
    }
}

/// Keeps the windows worth offering: those that can be captured, are not
/// minimized and have no blank title. Their order is kept.
pub fn get_available_windows(windows: &Vec<WindowProbe>) -> (kept: Vec<WindowProbe>)
    ensures
        kept@ == available_windows(windows@),
{
    let mut kept: Vec<WindowProbe> = Vec::new();
    let mut i: usize = 0;
    while i < windows.len()
        invariant
            0 <= i <= windows.len(),
            kept@ == available_windows(windows@.take(i as int)),
        decreases windows.len() - i,
    {
        proof {
            reveal(Seq::filter);
            assert(windows@.take(i + 1).drop_last() =~= windows@.take(i as int));
        }
        if windows[i].passes() {
            kept.push(windows[i].duplicate());
        }
        i += 1;
    }
    proof {
        assert(windows@.take(i as int) =~= windows@);
    }
    kept
}

/// The source registry.
pub struct CaptureSourceManager;

impl CaptureSourceManager {
    /// Lists the displays that can be recorded.
    ///
    /// `enumerated` is the outcome of asking the system for its displays. A
    /// failure there fails the listing. A display is dropped when its size
    /// cannot be learnt or is not positive, or when it has no name or a blank
    /// one. The others keep the enumeration's order.
    pub fn get_monitors(enumerated: Result<Vec<MonitorProbe>, String>) -> (res: Result<
        Vec<MonitorInfo>,
        CaptureSourceError,
    >)
        ensures
            match enumerated {
                Ok(probes) => res is Ok && res->Ok_0@ == monitor_entries(probes@),
                Err(e) => res == Err::<Vec<MonitorInfo>, CaptureSourceError>(
                    CaptureSourceError::ListMonitors(e),
                ),
            },
            res is Ok ==> forall|k: int|
                0 <= k < res->Ok_0@.len() ==> (#[trigger] res->Ok_0@[k]).is_valid(),
    {
        let probes = match enumerated {
            Ok(p) => p,
            Err(e) => {
                return Err(CaptureSourceError::ListMonitors(e));
            },
        };
        let mut found: Vec<MonitorInfo> = Vec::new();
        let mut i: usize = 0;
        while i < probes.len()
            invariant
                0 <= i <= probes.len(),
                found@ == monitor_entries(probes@.take(i as int)),
            decreases probes.len() - i,
        {
            proof {
                assert(probes@.take(i + 1).drop_last() =~= probes@.take(i as int));
            }
            match probes[i].describe(i) {
                Some(m) => {
                    found.push(m);
                },
                None => {},
            }
            i += 1;
        }
        proof {
            assert(probes@.take(i as int) =~= probes@);
            assert forall|k: int| 0 <= k < found@.len() implies (#[trigger] found@[k]).is_valid() by {
                lemma_monitor_entries_valid(probes@, k);
            }
        }
        Ok(found)
    }

    /// Lists the windows that can be recorded.
    ///
    /// `enumerated` is the outcome of asking the system for its top-level
    /// windows. A failure there fails the listing. A window is dropped when
    /// it cannot be captured, is minimized, has no title or a blank one, or
    /// when the size of its capture item cannot be learnt or is not positive.
    /// The others keep the enumeration's order.
    pub fn get_windows(enumerated: Result<Vec<WindowProbe>, String>) -> (res: Result<
        Vec<WindowInfo>,
        CaptureSourceError,
    >)
        ensures
            match enumerated {
                Ok(probes) => res is Ok && res->Ok_0@ == window_list(probes@),
                Err(e) => res == Err::<Vec<WindowInfo>, CaptureSourceError>(
                    CaptureSourceError::ListWindows(e),
                ),
            },
            res is Ok ==> forall|k: int|
                0 <= k < res->Ok_0@.len() ==> (#[trigger] res->Ok_0@[k]).is_valid(),
    {
        let probes = match enumerated {
            Ok(p) => p,
            Err(e) => {
                return Err(CaptureSourceError::ListWindows(e));
            },
        };
        let available = get_available_windows(&probes);
        let mut found: Vec<WindowInfo> = Vec::new();
        let mut i: usize = 0;
        while i < available.len()
            invariant
                0 <= i <= available.len(),
                found@ == window_entries(available@.take(i as int)),
            decreases available.len() - i,
        {
            proof {
                assert(available@.take(i + 1).drop_last() =~= available@.take(i as int));
            }
            match available[i].describe(i) {
                Some(w) => {
                    found.push(w);
                },
                None => {},
            }
            i += 1;
        }
        proof {
            assert(available@.take(i as int) =~= available@);
            assert forall|k: int| 0 <= k < found@.len() implies (#[trigger] found@[k]).is_valid() by {
                lemma_window_entries_valid(available@, k);
            }
        }
        Ok(found)
    }

    /// Lists every capture source: the monitors first, then the windows.
    ///
    /// Without its displays a listing means nothing, so a failure to
    /// enumerate them fails the call. A failure to enumerate the windows does
    /// not: the listing then holds the monitors and carries the failure as a
    /// warning.
    pub fn get_all_capture_sources(
        monitors: Result<Vec<MonitorProbe>, String>,
        windows: Result<Vec<WindowProbe>, String>,
    ) -> (res: Result<SourceListing, CaptureSourceError>)
        ensures
            match (monitors, windows) {
                (Err(e), _) => res == Err::<SourceListing, CaptureSourceError>(
                    CaptureSourceError::ListMonitors(e),
                ),
                (Ok(ms), Err(e)) => res is Ok && res->Ok_0.sources@ == monitor_entries(
                    ms@,
                ).map_values(|m: MonitorInfo| m.source()) && res->Ok_0.warning == Some(
                    CaptureSourceError::ListWindows(e),
                ),
                (Ok(ms), Ok(ws)) => res is Ok && res->Ok_0.sources@ == monitor_entries(
                    ms@,
                ).map_values(|m: MonitorInfo| m.source()) + window_list(ws@).map_values(
                    |w: WindowInfo| w.source(),
                ) && res->Ok_0.warning is None,
            },
            res is Ok ==> forall|k: int|
                0 <= k < res->Ok_0.sources@.len() ==> (#[trigger] res->Ok_0.sources@[k]).is_valid(),
    {
        let found_monitors = match Self::get_monitors(monitors) {
            Ok(m) => m,
            Err(e) => {
                return Err(e);
            },
        };
        let mut sources: Vec<CaptureSource> = Vec::new();
        let ghost monitor_part = found_monitors@.map_values(|m: MonitorInfo| m.source());
        let mut i: usize = 0;
        while i < found_monitors.len()
            invariant
                0 <= i <= found_monitors.len(),
                monitor_part == found_monitors@.map_values(|m: MonitorInfo| m.source()),
                sources@ == monitor_part.take(i as int),
            decreases found_monitors.len() - i,
        {
            sources.push(found_monitors[i].to_source());
            i += 1;
            assert(sources@ =~= monitor_part.take(i as int));
        }
        assert(sources@ =~= monitor_part);
        let found_windows = match Self::get_windows(windows) {
            Ok(w) => w,
            Err(e) => {
                return Ok(SourceListing { sources, warning: Some(e) });
            },
        };
        let ghost window_part = found_windows@.map_values(|w: WindowInfo| w.source());
        let mut j: usize = 0;
        while j < found_windows.len()
            invariant
                0 <= j <= found_windows.len(),
                window_part == found_windows@.map_values(|w: WindowInfo| w.source()),
                sources@ == monitor_part + window_part.take(j as int),
            decreases found_windows.len() - j,
        {
            sources.push(found_windows[j].to_source());
            j += 1;
            assert(sources@ =~= monitor_part + window_part.take(j as int));
        }
        assert(sources@ =~= monitor_part + window_part);
        Ok(SourceListing { sources, warning: None })
    }
}

impl WebcamProbe {
    /// The camera can be offered: it is known to be enabled, and its name and
    /// identifier were read.
    pub open spec fn is_listed(&self) -> bool {
        self.enabled == Some(true) && self.name is Some && self.id is Some
    }

    /// The camera's entry, if it is offered.
    pub open spec fn entry(&self) -> Option<Webcam> {
        if self.is_listed() {
            Some(Webcam { name: self.name->0, id: self.id->0 })
        } else {
            None
        }
    }

    /// Describes the camera, or drops it.
    pub fn describe(&self) -> (res: Option<Webcam>)
        ensures
            res == self.entry(),
    {
        match (self.enabled, &self.name, &self.id) {
            (Some(true), Some(n), Some(d)) => Some(Webcam { name: n.clone(), id: d.clone() }),
            _ => None,
        }
    }
}

/// The entries of the cameras in `probes` that can be offered, in their order.
pub open spec fn webcam_entries(probes: Seq<WebcamProbe>) -> Seq<Webcam>
    decreases probes.len(),
{
    if probes.len() == 0 {
        Seq::empty()
    } else {
        let before = webcam_entries(probes.drop_last());
        match probes.last().entry() {
            Some(c) => before.push(c),
            None => before,
        }
    }
}

/// What a camera's entry holds: its name and its identifier.
pub open spec fn webcam_of(p: WebcamProbe) -> Webcam {
    Webcam { name: p.name->0, id: p.id->0 }
}

/// The cameras offered are exactly the devices enumerated without those that
/// are not known to be enabled or whose name or identifier could not be
/// read: every other device is there, in the enumeration's order, with its
/// name and identifier unchanged.
pub proof fn lemma_webcam_entries_is_filter(probes: Seq<WebcamProbe>)
    ensures
        webcam_entries(probes) == probes.filter(|p: WebcamProbe| p.is_listed()).map_values(
            |p: WebcamProbe| webcam_of(p),
        ),
    decreases probes.len(),
{
    reveal(Seq::filter);
    let keep = |p: WebcamProbe| p.is_listed();
    let of_probe = |p: WebcamProbe| webcam_of(p);
    if probes.len() > 0 {
        let head = probes.drop_last();
        let last = probes.last();
        lemma_webcam_entries_is_filter(head);
        if last.is_listed() {
            assert(head.filter(keep).push(last).map_values(of_probe) =~= head.filter(
                keep,
            ).map_values(of_probe).push(webcam_of(last)));
        }
    } else {
        assert(webcam_entries(probes) =~= probes.filter(keep).map_values(of_probe));
    }
}

/// Lists the cameras that can be opened.
///
/// `enumerated` is the outcome of asking the system for its video capture
/// devices. A failure there fails the listing. A device is dropped unless it
/// is known to be enabled and both its name and its identifier were read.
pub fn get_webcams(enumerated: Result<Vec<WebcamProbe>, String>) -> (res: Result<
    Vec<Webcam>,
    WebcamError,
>)
    ensures
        match enumerated {
            Ok(probes) => res is Ok && res->Ok_0@ == webcam_entries(probes@),
            Err(e) => res == Err::<Vec<Webcam>, WebcamError>(WebcamError::ListWebcams(e)),
        },
{
    let probes = match enumerated {
        Ok(p) => p,
        Err(e) => {
            return Err(WebcamError::ListWebcams(e));
        },
    };
    let mut found: Vec<Webcam> = Vec::new();
    let mut i: usize = 0;
    while i < probes.len()
        invariant
            0 <= i <= probes.len(),
            found@ == webcam_entries(probes@.take(i as int)),
        decreases probes.len() - i,
    {
        proof {
            assert(probes@.take(i + 1).drop_last() =~= probes@.take(i as int));
        }
        match probes[i].describe() {
            Some(c) => {
                found.push(c);
            },
            None => {},
        }
        i += 1;
    }
    proof {
        assert(probes@.take(i as int) =~= probes@);
    }
    Ok(found)
}

} // verus!
