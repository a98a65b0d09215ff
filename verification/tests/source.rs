use zeusix_desktop::source::{
    nth_selectable, push_monitor_sources, push_window_sources, CaptureSource, MonitorInfo,
    MonitorProbe, WindowInfo, WindowProbe,
};

fn bare_monitor() -> MonitorProbe {
    MonitorProbe { name: None, device_name: None, width: None, height: None, refresh_rate: None }
}

fn titled(title: &str) -> WindowProbe {
    WindowProbe { valid: true, title: Some(title.to_string()), process_name: None }
}

#[test]
fn a_window_needs_a_valid_handle_and_a_title() {
    assert!(titled("a").is_selectable());
    assert!(!titled("").is_selectable());
    assert!(!WindowProbe { valid: true, title: None, process_name: None }.is_selectable());
    assert!(!WindowProbe { valid: false, title: Some("a".to_string()), process_name: None }
        .is_selectable());
    assert!(!WindowProbe { valid: false, title: None, process_name: Some("p".to_string()) }
        .is_selectable());
}

#[test]
fn unnamed_monitors_are_numbered_from_one() {
    let probes: Vec<MonitorProbe> = (0..12).map(|_| bare_monitor()).collect();
    let mut sources = Vec::new();
    push_monitor_sources(&mut sources, &probes);
    let names: Vec<String> = sources
        .iter()
        .map(|s| match s {
            CaptureSource::Monitor(m) => m.name.clone(),
            CaptureSource::Window(w) => w.title.clone(),
        })
        .collect();
    assert_eq!(names[0], "Monitor 1");
    assert_eq!(names[8], "Monitor 9");
    assert_eq!(names[9], "Monitor 10");
    assert_eq!(names[11], "Monitor 12");
}

#[test]
fn monitor_entries_keep_what_was_reported() {
    let probes = vec![MonitorProbe {
        name: Some("Main".to_string()),
        device_name: None,
        width: Some(2560),
        height: None,
        refresh_rate: Some(144),
    }];
    let mut sources = vec![CaptureSource::Window(WindowInfo {
        index: 9,
        title: "kept".to_string(),
        process_name: String::new(),
    })];
    push_monitor_sources(&mut sources, &probes);
    assert_eq!(sources.len(), 2);
    assert_eq!(
        sources[1],
        CaptureSource::Monitor(MonitorInfo {
            index: 0,
            name: "Main".to_string(),
            device_name: String::new(),
            width: 2560,
            height: 0,
            refresh_rate: 144,
        })
    );
    assert!(matches!(&sources[0], CaptureSource::Window(w) if w.index == 9));
}

#[test]
fn window_entries_are_numbered_among_the_selectable_windows() {
    let probes = vec![titled(""), titled("a"), titled(""), titled("b")];
    let mut sources = Vec::new();
    push_window_sources(&mut sources, &probes);
    let listed: Vec<(usize, String)> = sources
        .iter()
        .map(|s| match s {
            CaptureSource::Window(w) => (w.index, w.title.clone()),
            CaptureSource::Monitor(m) => (m.index, m.name.clone()),
        })
        .collect();
    assert_eq!(listed, vec![(0, "a".to_string()), (1, "b".to_string())]);
}

#[test]
fn window_numbering_starts_anew_whatever_the_list_holds() {
    let probes = vec![titled("a"), titled(""), titled("b")];
    let mut sources = Vec::new();
    push_window_sources(&mut sources, &probes);
    push_window_sources(&mut sources, &probes);
    let indices: Vec<usize> = sources
        .iter()
        .map(|s| match s {
            CaptureSource::Window(w) => w.index,
            CaptureSource::Monitor(m) => m.index,
        })
        .collect();
    assert_eq!(indices, vec![0, 1, 0, 1]);
}

#[test]
fn a_listed_window_is_found_by_its_index() {
    let probes = vec![
        WindowProbe { valid: false, title: Some("ghost".to_string()), process_name: None },
        titled("a"),
        titled(""),
        WindowProbe { valid: true, title: None, process_name: None },
        titled("b"),
        titled("c"),
    ];
    let mut sources = Vec::new();
    push_window_sources(&mut sources, &probes);
    assert_eq!(sources.len(), 3);
    for (place, source) in sources.iter().enumerate() {
        let info = match source {
            CaptureSource::Window(w) => w,
            CaptureSource::Monitor(_) => panic!("a monitor among the windows"),
        };
        assert_eq!(info.index, place);
        let position = nth_selectable(&probes, info.index).unwrap();
        assert!(probes[position].is_selectable());
        assert_eq!(probes[position].title.as_ref(), Some(&info.title));
    }
}

#[test]
fn nth_selectable_counts_only_selectable_windows() {
    let probes = vec![titled(""), titled("a"), titled(""), titled("b"), titled("c")];
    assert_eq!(nth_selectable(&probes, 0), Some(1));
    assert_eq!(nth_selectable(&probes, 1), Some(3));
    assert_eq!(nth_selectable(&probes, 2), Some(4));
    assert_eq!(nth_selectable(&probes, 3), None);
    assert_eq!(nth_selectable(&Vec::new(), 0), None);
    assert_eq!(nth_selectable(&probes, usize::MAX), None);
}
