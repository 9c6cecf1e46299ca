use vstd::prelude::*;
use crate::source_id::{SourceSelector, source_id, source_id_spec};
use crate::text::{decimal_digits, prefixed_decimal};

verus! {

/// Smallest width or height, in pixels, of a window that can be captured.
pub const MIN_WINDOW_SIDE: u32 = 100;

/// Size given to a window whose bounds are not reported.
pub const UNREPORTED_WINDOW_WIDTH: u32 = 800;
pub const UNREPORTED_WINDOW_HEIGHT: u32 = 600;

/// A display that can be captured.
#[derive(Debug)]
pub struct DisplayInfo {
    pub id: u32,
    pub name: String,
    pub width: u32,
    pub height: u32,
}

/// A window that can be captured.
#[derive(Debug)]
pub struct WindowInfo {
    pub id: u32,
    pub title: String,
    pub width: u32,
    pub height: u32,
}

impl Clone for DisplayInfo {
    fn clone(&self) -> (r: Self)
        ensures
            r == *self,
    {
        DisplayInfo { id: self.id, name: self.name.clone(), width: self.width, height: self.height }
    }
}

impl Clone for WindowInfo {
    fn clone(&self) -> (r: Self)
        ensures
            r == *self,
    {
        WindowInfo { id: self.id, title: self.title.clone(), width: self.width, height: self.height }
    }
}

/// The plain content of a window entry.
pub struct WindowView {
    pub id: u32,
    pub title: Seq<char>,
    pub width: u32,
    pub height: u32,
}

impl View for WindowInfo {
    type V = WindowView;

    open spec fn view(&self) -> WindowView {
        WindowView { id: self.id, title: self.title@, width: self.width, height: self.height }
    }
}

pub open spec fn windows_view(s: Seq<WindowInfo>) -> Seq<WindowView> {
    s.map_values(|w: WindowInfo| w@)
}

/// Windows with an empty title or a side under 100 pixels are not offered.
pub open spec fn window_view_capturable(w: WindowView) -> bool {
    w.title.len() > 0 && w.width >= MIN_WINDOW_SIDE && w.height >= MIN_WINDOW_SIDE
}

pub open spec fn window_capturable(w: WindowInfo) -> bool {
    window_view_capturable(w@)
}

/// The capturable windows of `s`, in their order.
pub open spec fn capturable_windows(s: Seq<WindowInfo>) -> Seq<WindowInfo>
    decreases s.len(),
{
    if s.len() == 0 {
        Seq::empty()
    } else {
        let rest = capturable_windows(s.drop_last());
        if window_capturable(s.last()) {
            rest.push(s.last())
        } else {
            rest
        }
    }
}

pub proof fn lemma_capturable_windows_all(s: Seq<WindowInfo>)
    ensures
        forall|i: int|
            0 <= i < capturable_windows(s).len() ==> window_capturable(
                #[trigger] capturable_windows(s)[i],
            ),
    decreases s.len(),
{
    if s.len() > 0 {
        lemma_capturable_windows_all(s.drop_last());
        let rest = capturable_windows(s.drop_last());
        if window_capturable(s.last()) {
            assert forall|i: int| 0 <= i < rest.len() + 1 implies window_capturable(
                #[trigger] rest.push(s.last())[i],
            ) by {
                if i < rest.len() {
                    assert(rest.push(s.last())[i] == rest[i]);
                }
            }
        }
    }
}

pub fn is_capturable_window(w: &WindowInfo) -> (r: bool)
    ensures
        r == window_capturable(*w),
{
    !w.title.as_str().is_empty() && w.width >= MIN_WINDOW_SIDE && w.height >= MIN_WINDOW_SIDE
}

/// Keeps the capturable windows, in their order.
pub fn filter_capturable_windows(windows: &Vec<WindowInfo>) -> (r: Vec<WindowInfo>)
    ensures
        r@ == capturable_windows(windows@),
{
    let mut out: Vec<WindowInfo> = Vec::new();
    let mut i: usize = 0;
    while i < windows.len()
        invariant
            i <= windows@.len(),
            out@ == capturable_windows(windows@.subrange(0, i as int)),
        decreases windows@.len() - i,
    {
        assert(windows@.subrange(0, i as int + 1).drop_last() =~= windows@.subrange(0, i as int));
        let w = &windows[i];
        if is_capturable_window(w) {
            out.push(w.clone());
        }
        i += 1;
    }
    assert(windows@.subrange(0, windows@.len() as int) =~= windows@);
    out
}

/// The name of a field of a window entry, as the window server reports it.
#[derive(Debug)]
pub enum TitleField {
    Absent,
    NotText,
    Text(String),
}

/// The reported bounds of a window; a side that is not a number is `None`.
#[derive(Debug)]
pub struct RawBounds {
    pub width: Option<u32>,
    pub height: Option<u32>,
}

/// One entry of the window server's list of on-screen windows.
#[derive(Debug)]
pub struct RawWindowEntry {
    pub number: Option<u32>,
    pub name: TitleField,
    pub owner_name: Option<String>,
    pub bounds: Option<RawBounds>,
}

/// A window's title: its own name when that is non-empty text, else its
/// owner's name; "Unknown Window" where neither can be read.
pub open spec fn entry_title(e: RawWindowEntry) -> Seq<char> {
    let owner = match e.owner_name {
        Some(o) => o@,
        None => "Unknown Window"@,
    };
    match e.name {
        TitleField::Text(s) => if s@.len() > 0 {
            s@
        } else {
            owner
        },
        TitleField::NotText => "Unknown Window"@,
        TitleField::Absent => owner,
    }
}

pub open spec fn entry_width(e: RawWindowEntry) -> u32 {
    match e.bounds {
        Some(b) => match b.width {
            Some(w) => w,
            None => UNREPORTED_WINDOW_WIDTH,
        },
        None => UNREPORTED_WINDOW_WIDTH,
    }
}

pub open spec fn entry_height(e: RawWindowEntry) -> u32 {
    match e.bounds {
        Some(b) => match b.height {
            Some(h) => h,
            None => UNREPORTED_WINDOW_HEIGHT,
        },
        None => UNREPORTED_WINDOW_HEIGHT,
    }
}

/// The window that an entry describes, if it can be captured; an entry
/// without a window number takes `fallback_id`.
pub open spec fn entry_window(e: RawWindowEntry, fallback_id: u32) -> Option<WindowView> {
    let w = WindowView {
        id: match e.number {
            Some(n) => n,
            None => fallback_id,
        },
        title: entry_title(e),
        width: entry_width(e),
        height: entry_height(e),
    };
    if window_view_capturable(w) {
        Some(w)
    } else {
        None
    }
}

/// The capturable windows of a list of entries; entry `i` falls back to id `i`.
pub open spec fn entries_windows(es: Seq<RawWindowEntry>) -> Seq<WindowView>
    decreases es.len(),
{
    if es.len() == 0 {
        Seq::empty()
    } else {
        let rest = entries_windows(es.drop_last());
        match entry_window(es.last(), (es.len() - 1) as u32) {
            Some(w) => rest.push(w),
            None => rest,
        }
    }
}

/// The placeholder windows offered when the window server gives none.
pub open spec fn is_placeholder_window_list(s: Seq<WindowView>) -> bool {
    &&& s.len() == 2
    &&& s[0] == WindowView { id: 1, title: "Desktop"@, width: 1920, height: 1080 }
    &&& s[1] == WindowView { id: 2, title: "Finder"@, width: 800, height: 600 }
}

/// The window list built from the window server's answer: the capturable
/// entries, or the placeholder windows when there is no answer or no
/// capturable entry.
pub open spec fn window_list_spec(entries: Option<Seq<RawWindowEntry>>, r: Seq<WindowView>) -> bool {
    match entries {
        Some(es) => if entries_windows(es).len() > 0 {
            r == entries_windows(es)
        } else {
            is_placeholder_window_list(r)
        },
        None => is_placeholder_window_list(r),
    }
}

/// Helpers over the window server's reports of displays and windows.
pub struct CoreGraphicsHelpers;

impl CoreGraphicsHelpers {
    /// The placeholder windows, as (id, title, width, height).
    pub fn get_fallback_windows() -> (r: Vec<(u32, String, u32, u32)>)
        ensures
            r@.len() == 2,
            r@[0].0 == 1 && r@[0].1@ == "Desktop"@ && r@[0].2 == 1920 && r@[0].3 == 1080,
            r@[1].0 == 2 && r@[1].1@ == "Finder"@ && r@[1].2 == 800 && r@[1].3 == 600,
    {
        let mut v: Vec<(u32, String, u32, u32)> = Vec::new();
        v.push((1, "Desktop".to_owned(), 1920, 1080));
        v.push((2, "Finder".to_owned(), 800, 600));
        v
    }

    /// The placeholder windows.
    pub fn fallback_window_info() -> (r: Vec<WindowInfo>)
        ensures
            is_placeholder_window_list(windows_view(r@)),
    {
        let t = Self::get_fallback_windows();
        let mut v: Vec<WindowInfo> = Vec::new();
        let mut i: usize = 0;
        while i < t.len()
            invariant
                t@.len() == 2,
                i <= 2,
                v@.len() == i,
                forall|j: int|
                    0 <= j < i ==> (#[trigger] v@[j]).id == t@[j].0 && v@[j].title@ == t@[j].1@
                        && v@[j].width == t@[j].2 && v@[j].height == t@[j].3,
            decreases 2 - i,
        {
            let e = &t[i];
            v.push(WindowInfo { id: e.0, title: e.1.clone(), width: e.2, height: e.3 });
            i += 1;
        }
        assert(windows_view(v@)[0] == v@[0]@);
        assert(windows_view(v@)[1] == v@[1]@);
        v
    }

    /// Reads one window entry; `None` where the window cannot be captured.
    pub fn extract_window_from_entry(e: &RawWindowEntry, fallback_id: u32) -> (r: Option<WindowInfo>)
        ensures
            match r {
                Some(w) => entry_window(*e, fallback_id) == Some(w@),
                None => entry_window(*e, fallback_id) is None,
            },
    {
        let id = match e.number {
            Some(n) => n,
            None => fallback_id,
        };
        let title = match &e.name {
            TitleField::Text(s) => {
                if !s.as_str().is_empty() {
                    s.clone()
                } else {
                    Self::owner_title(e)
                }
            },
            TitleField::NotText => "Unknown Window".to_owned(),
            TitleField::Absent => Self::owner_title(e),
        };
        let (width, height) = match &e.bounds {
            Some(b) => {
                let w = match b.width {
                    Some(w) => w,
                    None => UNREPORTED_WINDOW_WIDTH,
                };
                let h = match b.height {
                    Some(h) => h,
                    None => UNREPORTED_WINDOW_HEIGHT,
                };
                (w, h)
            },
            None => (UNREPORTED_WINDOW_WIDTH, UNREPORTED_WINDOW_HEIGHT),
        };
        let w = WindowInfo { id, title, width, height };
        if is_capturable_window(&w) {
            Some(w)
        } else {
            None
        }
    }

    fn owner_title(e: &RawWindowEntry) -> (r: String)
        ensures
            r@ == match e.owner_name {
                Some(o) => o@,
                None => "Unknown Window"@,
            },
    {
        match &e.owner_name {
            Some(o) => o.clone(),
            None => "Unknown Window".to_owned(),
        }
    }

    /// The window list from the window server's answer (`None` where it gave
    /// none): its capturable entries, or the placeholder windows.
    pub fn get_window_list(entries: Option<&Vec<RawWindowEntry>>) -> (r: Vec<WindowInfo>)
        ensures
            window_list_spec(
                match entries {
                    Some(es) => Some(es@),
                    None => None,
                },
                windows_view(r@),
            ),
    {
        match entries {
            None => Self::fallback_window_info(),
            Some(es) => {
                let mut out: Vec<WindowInfo> = Vec::new();
                let mut i: usize = 0;
                while i < es.len()
                    invariant
                        i <= es@.len(),
                        windows_view(out@) == entries_windows(es@.subrange(0, i as int)),
                    decreases es@.len() - i,
                {
                    let ghost pre = es@.subrange(0, i as int);
                    assert(es@.subrange(0, i as int + 1).drop_last() =~= pre);
                    match Self::extract_window_from_entry(&es[i], i as u32) {
                        Some(w) => {
                            let ghost wv = w@;
                            let ghost before = out@;
                            out.push(w);
                            assert(windows_view(out@) =~= windows_view(before).push(wv));
                        },
                        None => {},
                    }
                    i += 1;
                }
                assert(es@.subrange(0, es@.len() as int) =~= es@);
                if out.len() == 0 {
                    Self::fallback_window_info()
                } else {
                    out
                }
            },
        }
    }

    /// The display at position `index` of the active display list, as the
    /// window server reports it: the first is the built-in display, the
    /// others are numbered from 2.
    pub fn display_from_query(index: u32, id: u32, width: u32, height: u32) -> (r: DisplayInfo)
        ensures
            r.id == id,
            r.width == width,
            r.height == height,
            r.name@ == system_display_name(index as nat),
    {
        let name = if index == 0 {
            "Built-in Display".to_owned()
        } else {
            prefixed_decimal("Display ", index as u64 + 1)
        };
        DisplayInfo { id, name, width, height }
    }
}

/// Name of the display at position `index` of the system display list.
pub open spec fn system_display_name(index: nat) -> Seq<char> {
    if index == 0 {
        "Built-in Display"@
    } else {
        "Display "@ + decimal_digits(index + 1)
    }
}

/// Most windows read from one answer of the capture service.
pub const MAX_LIVE_WINDOWS: usize = 50;

/// A window as the capture service reports it; a window without a title
/// has `None`.
#[derive(Debug)]
pub struct LiveWindowEntry {
    pub id: u32,
    pub title: Option<String>,
    pub width: u32,
    pub height: u32,
}

/// The window that a capture service entry describes: one without a title
/// is named after its id.
pub open spec fn live_window_view(e: LiveWindowEntry) -> WindowView {
    WindowView {
        id: e.id,
        title: match e.title {
            Some(t) => t@,
            None => "Window "@ + decimal_digits(e.id as nat),
        },
        width: e.width,
        height: e.height,
    }
}

pub open spec fn live_windows_spec(es: Seq<LiveWindowEntry>) -> Seq<WindowView>
    decreases es.len(),
{
    if es.len() == 0 {
        Seq::empty()
    } else {
        live_windows_spec(es.drop_last()).push(live_window_view(es.last()))
    }
}

/// The display that the capture service reports, named after its id.
pub fn live_display(id: u32, width: u32, height: u32) -> (r: DisplayInfo)
    ensures
        r.id == id,
        r.width == width,
        r.height == height,
        r.name@ == "Display "@ + decimal_digits(id as nat),
{
    DisplayInfo { id, name: prefixed_decimal("Display ", id as u64), width, height }
}

pub fn live_window(e: &LiveWindowEntry) -> (r: WindowInfo)
    ensures
        r@ == live_window_view(*e),
{
    let title = match &e.title {
        Some(t) => t.clone(),
        None => prefixed_decimal("Window ", e.id as u64),
    };
    WindowInfo { id: e.id, title, width: e.width, height: e.height }
}

/// The windows of the capture service's answer: at most the first
/// `MAX_LIVE_WINDOWS`, in order.
pub fn live_windows(entries: &Vec<LiveWindowEntry>) -> (r: Vec<WindowInfo>)
    ensures
        windows_view(r@) == live_windows_spec(
            entries@.subrange(
                0,
                if entries@.len() < MAX_LIVE_WINDOWS {
                    entries@.len() as int
                } else {
                    MAX_LIVE_WINDOWS as int
                },
            ),
        ),
{
    let n = if entries.len() < MAX_LIVE_WINDOWS {
        entries.len()
    } else {
        MAX_LIVE_WINDOWS
    };
    let mut out: Vec<WindowInfo> = Vec::new();
    let mut i: usize = 0;
    while i < n
        invariant
            n <= entries@.len(),
            i <= n,
            windows_view(out@) == live_windows_spec(entries@.subrange(0, i as int)),
        decreases n - i,
    {
        assert(entries@.subrange(0, i as int + 1).drop_last() =~= entries@.subrange(0, i as int));
        let w = live_window(&entries[i]);
        let ghost before = out@;
        let ghost wv = w@;
        out.push(w);
        assert(windows_view(out@) =~= windows_view(before).push(wv));
        i += 1;
    }
    out
}

/// A capturable source as offered to callers.
#[derive(Debug)]
pub struct ScreenSource {
    pub id: String,
    pub name: String,
    pub width: u32,
    pub height: u32,
    pub is_display: bool,
}

/// The source entry of a display.
pub open spec fn display_source_spec(d: DisplayInfo, s: ScreenSource) -> bool {
    &&& s.id@ == source_id_spec(SourceSelector::Display(d.id))
    &&& s.name@ == d.name@
    &&& s.width == d.width
    &&& s.height == d.height
    &&& s.is_display
}

/// The source entry of a window.
pub open spec fn window_source_spec(w: WindowInfo, s: ScreenSource) -> bool {
    &&& s.id@ == source_id_spec(SourceSelector::Window(w.id))
    &&& s.name@ == w.title@
    &&& s.width == w.width
    &&& s.height == w.height
    &&& !s.is_display
}

pub fn display_source(d: &DisplayInfo) -> (r: ScreenSource)
    ensures
        display_source_spec(*d, r),
{
    ScreenSource {
        id: source_id(SourceSelector::Display(d.id)),
        name: d.name.clone(),
        width: d.width,
        height: d.height,
        is_display: true,
    }
}

pub fn window_source(w: &WindowInfo) -> (r: ScreenSource)
    ensures
        window_source_spec(*w, r),
{
    ScreenSource {
        id: source_id(SourceSelector::Window(w.id)),
        name: w.title.clone(),
        width: w.width,
        height: w.height,
        is_display: false,
    }
}

/// Which provider a catalog snapshot came from.
#[derive(Debug, Clone, Copy, PartialEq, Eq, Structural)]
pub enum CatalogProvider {
    Live,
    System,
    Placeholder,
}

/// What one provider of the enumeration chain reported.
#[derive(Debug)]
pub struct ProviderSnapshot {
    pub displays: Vec<DisplayInfo>,
    pub windows: Vec<WindowInfo>,
}

/// A provider's answer can stand as the catalog: it answered, with at
/// least one display.
pub open spec fn provider_usable(p: Option<ProviderSnapshot>) -> bool {
    p matches Some(s) && s.displays@.len() > 0
}

/// Identity of the placeholder display.
pub const PLACEHOLDER_DISPLAY_ID: u32 = 1;

pub open spec fn is_placeholder_display_list(s: Seq<DisplayInfo>) -> bool {
    &&& s.len() == 1
    &&& s[0].id == PLACEHOLDER_DISPLAY_ID
    &&& s[0].name@ == "Built-in Display"@
    &&& s[0].width == 1920
    &&& s[0].height == 1080
}

/// An immutable snapshot of the capturable displays and windows.
#[derive(Debug)]
pub struct ShareableContent {
    pub displays: Vec<DisplayInfo>,
    pub windows: Vec<WindowInfo>,
    pub provider: CatalogProvider,
}

/// The first position of `s` whose display has id `id`.
pub open spec fn first_display_with(s: Seq<DisplayInfo>, id: u32, i: int) -> bool {
    &&& 0 <= i < s.len()
    &&& s[i].id == id
    &&& forall|j: int| 0 <= j < i ==> (#[trigger] s[j]).id != id
}

/// The first position of `s` whose window has id `id`.
pub open spec fn first_window_with(s: Seq<WindowInfo>, id: u32, i: int) -> bool {
    &&& 0 <= i < s.len()
    &&& s[i].id == id
    &&& forall|j: int| 0 <= j < i ==> (#[trigger] s[j]).id != id
}

impl ShareableContent {
    /// Never empty, and every window is capturable.
    pub open spec fn well_formed(&self) -> bool {
        &&& self.displays@.len() > 0
        &&& forall|i: int|
            0 <= i < self.windows@.len() ==> window_capturable(#[trigger] self.windows@[i])
    }

    pub open spec fn has_display(&self, id: u32) -> bool {
        exists|i: int| 0 <= i < self.displays@.len() && (#[trigger] self.displays@[i]).id == id
    }

    pub open spec fn has_window(&self, id: u32) -> bool {
        exists|i: int| 0 <= i < self.windows@.len() && (#[trigger] self.windows@[i]).id == id
    }

    fn placeholder() -> (r: Self)
        ensures
            r.well_formed(),
            r.provider == CatalogProvider::Placeholder,
            is_placeholder_display_list(r.displays@),
            is_placeholder_window_list(windows_view(r.windows@)),
    {
        let mut displays: Vec<DisplayInfo> = Vec::new();
        displays.push(
            DisplayInfo {
                id: PLACEHOLDER_DISPLAY_ID,
                name: "Built-in Display".to_owned(),
                width: 1920,
                height: 1080,
            },
        );
        let windows = CoreGraphicsHelpers::fallback_window_info();
        let r = ShareableContent { displays, windows, provider: CatalogProvider::Placeholder };
        proof {
            reveal_strlit("Desktop");
            reveal_strlit("Finder");
            assert(windows_view(r.windows@)[0] == r.windows@[0]@);
            assert(windows_view(r.windows@)[1] == r.windows@[1]@);
            assert forall|i: int| 0 <= i < r.windows@.len() implies window_capturable(
                #[trigger] r.windows@[i],
            ) by {
                assert(windows_view(r.windows@)[i] == r.windows@[i]@);
            }
        }
        r
    }

    fn from_snapshot(snap: ProviderSnapshot, provider: CatalogProvider) -> (r: Self)
        requires
            snap.displays@.len() > 0,
        ensures
            r.well_formed(),
            r.provider == provider,
            r.displays@ == snap.displays@,
            r.windows@ == capturable_windows(snap.windows@),
    {
        let windows = filter_capturable_windows(&snap.windows);
        proof {
            lemma_capturable_windows_all(snap.windows@);
        }
        ShareableContent { displays: snap.displays, windows, provider }
    }

    /// Builds the catalog from the enumeration chain, in order of priority:
    /// the capture service's answer, then the system's display and window
    /// lists, then a placeholder set. The first usable answer is taken
    /// whole, with its windows filtered; answers are never mixed.
    pub fn from_providers(live: Option<ProviderSnapshot>, system: Option<ProviderSnapshot>) -> (r:
        Self)
        ensures
            r.well_formed(),
            provider_usable(live) ==> {
                &&& r.provider == CatalogProvider::Live
                &&& r.displays@ == live->0.displays@
                &&& r.windows@ == capturable_windows(live->0.windows@)
            },
            !provider_usable(live) && provider_usable(system) ==> {
                &&& r.provider == CatalogProvider::System
                &&& r.displays@ == system->0.displays@
                &&& r.windows@ == capturable_windows(system->0.windows@)
            },
            !provider_usable(live) && !provider_usable(system) ==> {
                &&& r.provider == CatalogProvider::Placeholder
                &&& is_placeholder_display_list(r.displays@)
                &&& is_placeholder_window_list(windows_view(r.windows@))
            },
    {
        match live {
            Some(snap) if snap.displays.len() > 0 => {
                return Self::from_snapshot(snap, CatalogProvider::Live);
            },
            _ => {},
        }
        match system {
            Some(snap) if snap.displays.len() > 0 => Self::from_snapshot(
                snap,
                CatalogProvider::System,
            ),
            _ => Self::placeholder(),
        }
    }

    pub fn get_displays(&self) -> (r: Vec<DisplayInfo>)
        ensures
            r@ == self.displays@,
    {
        let mut out: Vec<DisplayInfo> = Vec::new();
        let mut i: usize = 0;
        while i < self.displays.len()
            invariant
                i <= self.displays@.len(),
                out@ == self.displays@.subrange(0, i as int),
            decreases self.displays@.len() - i,
        {
            out.push(self.displays[i].clone());
            i += 1;
            assert(out@ =~= self.displays@.subrange(0, i as int));
        }
        assert(self.displays@.subrange(0, i as int) =~= self.displays@);
        out
    }

    pub fn get_windows(&self) -> (r: Vec<WindowInfo>)
        ensures
            r@ == self.windows@,
    {
        let mut out: Vec<WindowInfo> = Vec::new();
        let mut i: usize = 0;
        while i < self.windows.len()
            invariant
                i <= self.windows@.len(),
                out@ == self.windows@.subrange(0, i as int),
            decreases self.windows@.len() - i,
        {
            out.push(self.windows[i].clone());
            i += 1;
            assert(out@ =~= self.windows@.subrange(0, i as int));
        }
        assert(self.windows@.subrange(0, i as int) =~= self.windows@);
        out
    }

    /// The first display with id `id`.
    pub fn find_display_by_id(&self, id: u32) -> (r: Option<&DisplayInfo>)
        ensures
            match r {
                Some(d) => exists|i: int| first_display_with(self.displays@, id, i) && self.displays@[i] == *d,
                None => !self.has_display(id),
            },
    {
        let mut i: usize = 0;
        while i < self.displays.len()
            invariant
                i <= self.displays@.len(),
                forall|j: int| 0 <= j < i ==> (#[trigger] self.displays@[j]).id != id,
            decreases self.displays@.len() - i,
        {
            if self.displays[i].id == id {
                assert(first_display_with(self.displays@, id, i as int));
                return Some(&self.displays[i]);
            }
            i += 1;
        }
        None
    }

    /// The first window with id `id`.
    pub fn find_window_by_id(&self, id: u32) -> (r: Option<&WindowInfo>)
        ensures
            match r {
                Some(w) => exists|i: int| first_window_with(self.windows@, id, i) && self.windows@[i] == *w,
                None => !self.has_window(id),
            },
    {
        let mut i: usize = 0;
        while i < self.windows.len()
            invariant
                i <= self.windows@.len(),
                forall|j: int| 0 <= j < i ==> (#[trigger] self.windows@[j]).id != id,
            decreases self.windows@.len() - i,
        {
            if self.windows[i].id == id {
                assert(first_window_with(self.windows@, id, i as int));
                return Some(&self.windows[i]);
            }
            i += 1;
        }
        None
    }

    /// Every display, then every capturable window, as source entries.
    pub fn get_all_sources(&self) -> (r: Vec<ScreenSource>)
        ensures
            r@.len() == self.displays@.len() + capturable_windows(self.windows@).len(),
            forall|i: int|
                0 <= i < self.displays@.len() ==> display_source_spec(
                    self.displays@[i],
                    #[trigger] r@[i],
                ),
            forall|i: int|
                0 <= i < capturable_windows(self.windows@).len() ==> window_source_spec(
                    capturable_windows(self.windows@)[i],
                    #[trigger] r@[self.displays@.len() + i],
                ),
    {
        let mut out: Vec<ScreenSource> = Vec::new();
        let mut i: usize = 0;
        while i < self.displays.len()
            invariant
                i <= self.displays@.len(),
                out@.len() == i,
                forall|j: int|
                    0 <= j < i ==> display_source_spec(self.displays@[j], #[trigger] out@[j]),
            decreases self.displays@.len() - i,
        {
            out.push(display_source(&self.displays[i]));
            i += 1;
        }
        let windows = filter_capturable_windows(&self.windows);
        let n = out.len();
        let mut k: usize = 0;
        while k < windows.len()
            invariant
                n == self.displays@.len(),
                windows@ == capturable_windows(self.windows@),
                k <= windows@.len(),
                out@.len() == n + k,
                forall|j: int|
                    0 <= j < n ==> display_source_spec(self.displays@[j], #[trigger] out@[j]),
                forall|j: int|
                    0 <= j < k ==> window_source_spec(windows@[j], #[trigger] out@[n + j]),
            decreases windows@.len() - k,
        {
            out.push(window_source(&windows[k]));
            k += 1;
        }
        out
    }
}

} // verus!
