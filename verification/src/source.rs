//! Capture sources: what the operating system reports of its monitors and
//! windows, and the indexed list that is offered for selection.

use crate::text::{decimal, push_decimal};
use vstd::prelude::*;

verus! {

/// The two categories of capture source.
#[derive(Clone, Copy, Debug, PartialEq, Eq, Structural)]
pub enum SourceKind {
    Monitor,
    Window,
}

/// A monitor as offered for selection.
#[derive(Clone, Debug, PartialEq, Eq)]
pub struct MonitorInfo {
    /// The place of the monitor among the monitors; a start is given this
    /// number.
    pub index: usize,
    pub name: String,
    pub device_name: String,
    pub width: u32,
    pub height: u32,
    pub refresh_rate: u32,
}

/// A window as offered for selection.
#[derive(Clone, Debug, PartialEq, Eq)]
pub struct WindowInfo {
    /// The place of the window among the windows that can be selected; a
    /// start is given this number.
    pub index: usize,
    pub title: String,
    pub process_name: String,
}

/// A snapshot of one capture source, taken when the sources were listed.
#[derive(Clone, Debug, PartialEq, Eq)]
pub enum CaptureSource {
    Monitor(MonitorInfo),
    Window(WindowInfo),
}

/// What the operating system answered about one monitor. A field is `None`
/// where the query for it failed.
#[derive(Clone, Debug, PartialEq, Eq)]
pub struct MonitorProbe {
    pub name: Option<String>,
    pub device_name: Option<String>,
    pub width: Option<u32>,
    pub height: Option<u32>,
    pub refresh_rate: Option<u32>,
}

/// What the operating system answered about one window.
#[derive(Clone, Debug, PartialEq, Eq)]
pub struct WindowProbe {
    pub valid: bool,
    pub title: Option<String>,
    pub process_name: Option<String>,
}

pub struct MonitorInfoView {
    pub index: usize,
    pub name: Seq<char>,
    pub device_name: Seq<char>,
    pub width: u32,
    pub height: u32,
    pub refresh_rate: u32,
}

pub struct WindowInfoView {
    pub index: usize,
    pub title: Seq<char>,
    pub process_name: Seq<char>,
}

pub enum CaptureSourceView {
    Monitor(MonitorInfoView),
    Window(WindowInfoView),
}

impl View for MonitorInfo {
    type V = MonitorInfoView;

    open spec fn view(&self) -> MonitorInfoView {
        MonitorInfoView {
            index: self.index,
            name: self.name@,
            device_name: self.device_name@,
            width: self.width,
            height: self.height,
            refresh_rate: self.refresh_rate,
        }
    }
}

impl View for WindowInfo {
    type V = WindowInfoView;

    open spec fn view(&self) -> WindowInfoView {
        WindowInfoView {
            index: self.index,
            title: self.title@,
            process_name: self.process_name@,
        }
    }
}

impl View for CaptureSource {
    type V = CaptureSourceView;

    open spec fn view(&self) -> CaptureSourceView {
        match self {
            CaptureSource::Monitor(m) => CaptureSourceView::Monitor(m@),
            CaptureSource::Window(w) => CaptureSourceView::Window(w@),
        }
    }
}

/// The views of a list of sources, in order.
pub open spec fn source_views(sources: Seq<CaptureSource>) -> Seq<CaptureSourceView> {
    sources.map_values(|s: CaptureSource| s@)
}

/// The text of an optional string, empty where there is none.
pub open spec fn text_or_empty(text: Option<String>) -> Seq<char> {
    match text {
        Some(t) => t@,
        None => Seq::empty(),
    }
}

/// The number of an optional answer, zero where there is none.
pub open spec fn number_or_zero(n: Option<u32>) -> u32 {
    match n {
        Some(v) => v,
        None => 0,
    }
}

/// The name given to a monitor that reports none: its one-based position.
pub open spec fn default_monitor_name(position: int) -> Seq<char> {
    "Monitor "@ + decimal((position + 1) as nat)
}

/// The entry offered for the monitor at `position`.
pub open spec fn monitor_info(position: int, probe: MonitorProbe) -> MonitorInfoView {
    MonitorInfoView {
        index: position as usize,
        name: match probe.name {
            Some(n) => n@,
            None => default_monitor_name(position),
        },
        device_name: text_or_empty(probe.device_name),
        width: number_or_zero(probe.width),
        height: number_or_zero(probe.height),
        refresh_rate: number_or_zero(probe.refresh_rate),
    }
}

/// A window can be captured when its handle is valid and it has a title.
pub open spec fn selectable(probe: WindowProbe) -> bool {
    probe.valid && text_or_empty(probe.title).len() > 0
}

/// The entry offered for a selectable window that has `index` selectable
/// windows before it.
pub open spec fn window_info(index: int, probe: WindowProbe) -> WindowInfoView {
    WindowInfoView {
        index: index as usize,
        title: text_or_empty(probe.title),
        process_name: text_or_empty(probe.process_name),
    }
}

/// The entries for all monitors, in the order reported.
pub open spec fn monitor_sources(probes: Seq<MonitorProbe>) -> Seq<CaptureSourceView> {
    Seq::new(probes.len(), |i: int| CaptureSourceView::Monitor(monitor_info(i, probes[i])))
}

/// How many of the first `upto` windows are selectable.
pub open spec fn selectable_count(probes: Seq<WindowProbe>, upto: int) -> nat
    decreases upto,
{
    if upto <= 0 {
        0
    } else if selectable(probes[upto - 1]) {
        selectable_count(probes, upto - 1) + 1
    } else {
        selectable_count(probes, upto - 1)
    }
}

/// The entries for the selectable windows among the first `upto`, in the
/// order reported. The index of an entry is its place in this list: the
/// number of selectable windows before it.
pub open spec fn window_sources(probes: Seq<WindowProbe>, upto: int) -> Seq<CaptureSourceView>
    decreases upto,
{
    if upto <= 0 {
        Seq::empty()
    } else if selectable(probes[upto - 1]) {
        window_sources(probes, upto - 1).push(
            CaptureSourceView::Window(
                window_info(selectable_count(probes, upto - 1) as int, probes[upto - 1]),
            ),
        )
    } else {
        window_sources(probes, upto - 1)
    }
}

/// The position, among the first `upto` windows reported, of the selectable
/// window that has `index` selectable windows before it.
pub open spec fn selectable_position(probes: Seq<WindowProbe>, index: int, upto: int) -> Option<int>
    decreases upto,
{
    if upto <= 0 {
        None
    } else if selectable(probes[upto - 1]) && selectable_count(probes, upto - 1) == index {
        Some(upto - 1)
    } else {
        selectable_position(probes, index, upto - 1)
    }
}

/// The list offered for selection: the monitors, then the selectable
/// windows. A category whose enumeration failed contributes nothing.
pub open spec fn listed_sources(
    monitors: Option<Seq<MonitorProbe>>,
    windows: Option<Seq<WindowProbe>>,
) -> Seq<CaptureSourceView> {
    let first = match monitors {
        Some(m) => monitor_sources(m),
        None => Seq::empty(),
    };
    let second = match windows {
        Some(w) => window_sources(w, w.len() as int),
        None => Seq::empty(),
    };
    first + second
}

fn cloned_or_empty(text: &Option<String>) -> (copy: String)
    ensures
        copy@ == text_or_empty(*text),
{
    match text {
        Some(t) => t.clone(),
        None => String::new(),
    }
}

fn value_or_zero(n: &Option<u32>) -> (v: u32)
    ensures
        v == number_or_zero(*n),
{
    match n {
        Some(v) => *v,
        None => 0,
    }
}

impl WindowProbe {
    /// Whether the window is offered for capture.
    pub fn is_selectable(&self) -> (yes: bool)
        ensures
            yes == selectable(*self),
    {
        match &self.title {
            Some(t) => self.valid && !t.as_str().is_empty(),
            None => false,
        }
    }
}

fn monitor_entry(position: usize, probe: &MonitorProbe) -> (info: MonitorInfo)
    requires
        position < usize::MAX,
    ensures
        info@ == monitor_info(position as int, *probe),
{
    let name = match &probe.name {
        Some(n) => n.clone(),
        None => {
            let mut text = "Monitor ".to_owned();
            push_decimal(&mut text, (position + 1) as u64);
            text
        },
    };
    MonitorInfo {
        index: position,
        name,
        device_name: cloned_or_empty(&probe.device_name),
        width: value_or_zero(&probe.width),
        height: value_or_zero(&probe.height),
        refresh_rate: value_or_zero(&probe.refresh_rate),
    }
}

fn window_entry(index: usize, probe: &WindowProbe) -> (info: WindowInfo)
    ensures
        info@ == window_info(index as int, *probe),
{
    WindowInfo {
        index,
        title: cloned_or_empty(&probe.title),
        process_name: cloned_or_empty(&probe.process_name),
    }
}

/// Appends the entries for all monitors to `sources`.
pub fn push_monitor_sources(sources: &mut Vec<CaptureSource>, probes: &Vec<MonitorProbe>)
    ensures
        source_views(final(sources)@) == source_views(old(sources)@) + monitor_sources(probes@),
{
    let ghost before = source_views(sources@);
    let mut i: usize = 0;
    while i < probes.len()
        invariant
            i <= probes.len(),
            source_views(sources@) == before + monitor_sources(probes@).take(i as int),
        decreases probes.len() - i,
    {
        let entry = CaptureSource::Monitor(monitor_entry(i, &probes[i]));
        let ghost prior = sources@;
        sources.push(entry);
        proof {
            assert(source_views(sources@) =~= source_views(prior).push(entry@));
            assert(monitor_sources(probes@).take(i + 1) =~= monitor_sources(probes@).take(
                i as int,
            ).push(entry@));
        }
        i += 1;
    }
    assert(monitor_sources(probes@).take(i as int) =~= monitor_sources(probes@));
}

/// Appends the entries for the selectable windows to `sources`.
pub fn push_window_sources(sources: &mut Vec<CaptureSource>, probes: &Vec<WindowProbe>)
    ensures
        source_views(final(sources)@) == source_views(old(sources)@) + window_sources(
            probes@,
            probes@.len() as int,
        ),
{
    let ghost before = source_views(sources@);
    let mut listed: usize = 0;
    let mut i: usize = 0;
    while i < probes.len()
        invariant
            i <= probes.len(),
            listed <= i,
            listed == selectable_count(probes@, i as int),
            source_views(sources@) == before + window_sources(probes@, i as int),
        decreases probes.len() - i,
    {
        if probes[i].is_selectable() {
            let entry = CaptureSource::Window(window_entry(listed, &probes[i]));
            let ghost prior = sources@;
            sources.push(entry);
            assert(source_views(sources@) =~= source_views(prior).push(entry@));
            listed += 1;
        }
        i += 1;
    }
}

/// The position, among all windows reported, of the selectable window
/// number `index` (counted from zero), if there are that many.
pub fn nth_selectable(probes: &Vec<WindowProbe>, index: usize) -> (found: Option<usize>)
    ensures
        found is Some <==> index < selectable_count(probes@, probes@.len() as int),
        found is Some <==> selectable_position(probes@, index as int, probes@.len() as int)
            is Some,
        found matches Some(position) ==> position < probes@.len() && selectable(
            probes@[position as int],
        ) && selectable_count(probes@, position as int) == index && selectable_position(
            probes@,
            index as int,
            probes@.len() as int,
        ) == Some(position as int),
{
    let mut seen: usize = 0;
    let mut i: usize = 0;
    while i < probes.len()
        invariant
            i <= probes.len(),
            seen == selectable_count(probes@, i as int),
            seen <= index,
            seen <= i,
        decreases probes.len() - i,
    {
        if probes[i].is_selectable() {
            if seen == index {
                proof {
                    lemma_selectable_count_grows(probes@, i as int + 1, probes@.len() as int);
                    lemma_selectable_position_found(
                        probes@,
                        index as int,
                        probes@.len() as int,
                        i as int,
                    );
                }
                return Some(i);
            }
            seen += 1;
        }
        i += 1;
    }
    proof {
        lemma_selectable_position(probes@, index as int, probes@.len() as int);
        if let Some(position) = selectable_position(probes@, index as int, probes@.len() as int) {
            lemma_selectable_count_grows(probes@, position + 1, probes@.len() as int);
        }
    }
    None
}

/// Counting further windows never lowers the count.
pub proof fn lemma_selectable_count_grows(probes: Seq<WindowProbe>, a: int, b: int)
    requires
        a <= b,
    ensures
        selectable_count(probes, a) <= selectable_count(probes, b),
    decreases b - a,
{
    if a < b {
        lemma_selectable_count_grows(probes, a, b - 1);
    }
}

/// There are no more selectable windows than windows.
pub proof fn lemma_selectable_count_bound(probes: Seq<WindowProbe>, upto: int)
    requires
        0 <= upto,
    ensures
        selectable_count(probes, upto) <= upto,
    decreases upto,
{
    if upto > 0 {
        lemma_selectable_count_bound(probes, upto - 1);
    }
}

/// The list of sources has one entry for each selectable window.
pub proof fn lemma_window_sources_len(probes: Seq<WindowProbe>, upto: int)
    ensures
        window_sources(probes, upto).len() == selectable_count(probes, upto),
    decreases upto,
{
    if upto > 0 {
        lemma_window_sources_len(probes, upto - 1);
    }
}

/// What `selectable_position` finds is a selectable window with `index`
/// selectable windows before it; it finds none only where there are not
/// that many.
pub proof fn lemma_selectable_position(probes: Seq<WindowProbe>, index: int, upto: int)
    ensures
        match selectable_position(probes, index, upto) {
            Some(position) => 0 <= position < upto && selectable(probes[position])
                && selectable_count(probes, position) == index,
            None => index < 0 || selectable_count(probes, upto) <= index,
        },
    decreases upto,
{
    if upto > 0 {
        lemma_selectable_position(probes, index, upto - 1);
    }
}

/// A selectable window with `index` selectable windows before it is the
/// one that `selectable_position` finds.
pub proof fn lemma_selectable_position_found(
    probes: Seq<WindowProbe>,
    index: int,
    upto: int,
    position: int,
)
    requires
        0 <= position < upto,
        selectable(probes[position]),
        selectable_count(probes, position) == index,
    ensures
        selectable_position(probes, index, upto) == Some(position),
    decreases upto,
{
    if upto - 1 > position {
        lemma_selectable_count_grows(probes, position + 1, upto - 1);
        lemma_selectable_position_found(probes, index, upto - 1, position);
    }
}

/// The monitor listed at place `k` is the monitor reported at position `k`
/// and carries the index `k`, which is the index a start resolves it by.
pub proof fn law_listed_monitor_position(probes: Seq<MonitorProbe>, k: int)
    requires
        0 <= k < probes.len() <= usize::MAX,
    ensures
        monitor_sources(probes).len() == probes.len(),
        monitor_sources(probes)[k] == CaptureSourceView::Monitor(monitor_info(k, probes[k])),
        monitor_info(k, probes[k]).index == k,
{
}

/// Every listed window is selected by its own index. The window listed at
/// place `k` carries the index `k`, so that the indices run from zero
/// without gaps, and resolving `k` against the same windows finds the
/// position of the very window that the entry describes.
pub proof fn law_listed_window_resolves(probes: Seq<WindowProbe>, upto: int, k: int)
    requires
        0 <= upto <= probes.len() <= usize::MAX,
        0 <= k < window_sources(probes, upto).len(),
    ensures
        window_sources(probes, upto).len() == selectable_count(probes, upto),
        selectable_position(probes, k, upto) is Some,
        0 <= selectable_position(probes, k, upto)->0 < upto,
        selectable(probes[selectable_position(probes, k, upto)->0]),
        window_sources(probes, upto)[k] == CaptureSourceView::Window(
            window_info(k, probes[selectable_position(probes, k, upto)->0]),
        ),
        window_info(k, probes[selectable_position(probes, k, upto)->0]).index == k,
    decreases upto,
{
    lemma_window_sources_len(probes, upto);
    lemma_window_sources_len(probes, upto - 1);
    lemma_selectable_count_bound(probes, upto);
    lemma_selectable_position(probes, k, upto);
    if k < selectable_count(probes, upto - 1) {
        law_listed_window_resolves(probes, upto - 1, k);
    }
}

} // verus!
